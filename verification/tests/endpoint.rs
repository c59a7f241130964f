use wand_relay::endpoint::{
    host_from_capture, resolve_host, resolve_token, snoop_ws_url, token_from_capture, ConfigError,
    HOST_FILE, SUPPORT_DIR, TOKEN_FILE, WATCHED_FILE,
};

fn text(s: &str) -> Option<String> {
    Some(s.to_string())
}

#[test]
fn host_and_token_are_read_from_the_files() {
    let host = "-- generated\nHOST_URL = \"wss://onlywands.com\"\n";
    let token = "return \"abc.def.ghi\"\n";
    assert_eq!(
        snoop_ws_url(None, None, text(host), text(token)),
        Ok("wss://onlywands.com/abc.def.ghi".to_string())
    );
}

#[test]
fn host_that_ends_in_a_slash_is_kept() {
    assert_eq!(
        snoop_ws_url(None, None, text("HOST_URL = \"wss://dev.onlywands.com/\""), text("return \"t\"")),
        Ok("wss://dev.onlywands.com/t".to_string())
    );
}

#[test]
fn overrides_are_used_as_they_stand() {
    assert_eq!(
        snoop_ws_url(text("ws://localhost:9000"), text("tok"), None, None),
        Ok("ws://localhost:9000tok".to_string())
    );
    assert_eq!(
        snoop_ws_url(text("ws://localhost:9000/"), text("tok"), text("garbage"), text("garbage")),
        Ok("ws://localhost:9000/tok".to_string())
    );
}

#[test]
fn one_override_leaves_the_other_to_the_file() {
    assert_eq!(
        snoop_ws_url(text("ws://h/"), None, None, text("return \"from-file\"")),
        Ok("ws://h/from-file".to_string())
    );
    assert_eq!(
        snoop_ws_url(None, text("given"), text("HOST_URL = \"ws://h\""), None),
        Ok("ws://h/given".to_string())
    );
}

#[test]
fn missing_host_file_is_reported_first() {
    assert_eq!(snoop_ws_url(None, None, None, None), Err(ConfigError::HostUnreadable));
    assert_eq!(snoop_ws_url(None, None, None, text("return \"t\"")), Err(ConfigError::HostUnreadable));
}

#[test]
fn host_file_without_a_host_is_malformed() {
    assert_eq!(
        snoop_ws_url(None, None, text("HOST = 'wss://onlywands.com'"), text("return \"t\"")),
        Err(ConfigError::HostMalformed)
    );
    assert_eq!(snoop_ws_url(None, None, text(""), None), Err(ConfigError::HostMalformed));
}

#[test]
fn missing_token_file_is_reported() {
    assert_eq!(
        snoop_ws_url(None, None, text("HOST_URL = \"ws://h\""), None),
        Err(ConfigError::TokenUnreadable)
    );
    assert_eq!(snoop_ws_url(text("ws://h/"), None, None, None), Err(ConfigError::TokenUnreadable));
}

#[test]
fn token_file_without_a_token_is_malformed() {
    assert_eq!(
        snoop_ws_url(None, None, text("HOST_URL = \"ws://h\""), text("return nil")),
        Err(ConfigError::TokenMalformed)
    );
}

#[test]
fn the_first_and_shortest_quoted_text_is_taken() {
    let host = "HOST_URL = \"ws://a\" -- \"\nHOST_URL = \"ws://b\"";
    assert_eq!(resolve_host(None, text(host)), Ok("ws://a/".to_string()));
    let token = "-- return the token\nreturn \"one\"\nreturn \"two\"";
    assert_eq!(resolve_token(None, text(token)), Ok("one".to_string()));
}

#[test]
fn a_quoted_text_does_not_run_over_a_line_end() {
    let host = "HOST_URL = \"broken\nHOST_URL = \"ws://ok\"";
    assert_eq!(resolve_host(None, text(host)), Ok("ws://ok/".to_string()));
    assert_eq!(resolve_token(None, text("return \"a\nb\"")), Err(ConfigError::TokenMalformed));
}

#[test]
fn empty_values_are_accepted() {
    assert_eq!(resolve_host(None, text("HOST_URL = \"\"")), Ok("/".to_string()));
    assert_eq!(resolve_token(None, text("return \"\"")), Ok(String::new()));
}

#[test]
fn captures_become_host_and_token() {
    assert_eq!(host_from_capture(text("ws://h")), Ok("ws://h/".to_string()));
    assert_eq!(host_from_capture(text("ws://h/")), Ok("ws://h/".to_string()));
    assert_eq!(host_from_capture(text("")), Ok("/".to_string()));
    assert_eq!(host_from_capture(None), Err(ConfigError::HostMalformed));
    assert_eq!(token_from_capture(text("t")), Ok("t".to_string()));
    assert_eq!(token_from_capture(None), Err(ConfigError::TokenMalformed));
}

#[test]
fn every_error_has_its_message() {
    assert_eq!(
        ConfigError::HostUnreadable.message(),
        "Failed to read streamer wands host, is the mod installed?"
    );
    assert_eq!(
        ConfigError::HostMalformed.message(),
        "Malformed host.lua, either streamer wands is corrupted or new/outdated"
    );
    assert_eq!(
        ConfigError::TokenUnreadable.message(),
        "Failed to read streamer wands token, is the mod installed?"
    );
    assert_eq!(
        ConfigError::TokenMalformed.message(),
        "Malformed token.lua, either streamer wands is corrupted or new/outdated"
    );
}

#[test]
fn files_are_where_the_installation_keeps_them() {
    assert_eq!(HOST_FILE, "mods/streamer_wands/files/ws/host.lua");
    assert_eq!(TOKEN_FILE, "mods/streamer_wands/token.lua");
    assert_eq!(WATCHED_FILE, "streamer-wands.json");
    assert_eq!(SUPPORT_DIR, "mods/streamer_wands_linux");
}
