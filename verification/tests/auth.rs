use wvdsh::auth::{
    auth_url, callback_address, credentials_document, generate_state, listen_address,
    login_callback, query_param, redirect_with_success, AuthManager, LoginCallback,
    CREDENTIALS_DIR_MODE, CREDENTIALS_FILE_MODE,
};

#[test]
fn a_fresh_store_is_not_authenticated() {
    let manager = AuthManager::new(None);
    assert!(!manager.is_authenticated());
    assert_eq!(manager.get_api_key(), None);
}

#[test]
fn a_stored_token_is_read_back() {
    let mut manager = AuthManager::new(None);
    let written = manager.store_api_key("tok_abc");
    assert_eq!(written, r#"{"api_key":"tok_abc"}"#);
    assert!(manager.is_authenticated());
    assert_eq!(manager.get_api_key(), Some("tok_abc".to_string()));
    let reread = AuthManager::new(Some(written));
    assert_eq!(reread.get_api_key(), Some("tok_abc".to_string()));
}

#[test]
fn tokens_are_escaped_in_the_document() {
    let document = credentials_document("a\"b\\c\n");
    assert_eq!(document, "{\"api_key\":\"a\\\"b\\\\c\\n\"}");
    let manager = AuthManager::new(Some(document));
    assert_eq!(manager.get_api_key(), Some("a\"b\\c\n".to_string()));
}

#[test]
fn other_documents_hold_no_token() {
    for document in ["", "not json", "{}", "{\"api_key\": 5}", "[\"api_key\"]", "{\"key\":\"x\"}"] {
        let manager = AuthManager::new(Some(document.to_string()));
        assert!(!manager.is_authenticated(), "{document}");
    }
    let spaced = AuthManager::new(Some("{ \"api_key\" : \"k\", \"more\": 1 }".to_string()));
    assert_eq!(spaced.get_api_key(), Some("k".to_string()));
}

#[test]
fn clearing_forgets_the_token() {
    let mut manager = AuthManager::new(Some(r#"{"api_key":"k"}"#.to_string()));
    assert!(manager.clear_credentials());
    assert!(!manager.is_authenticated());
    assert!(!manager.clear_credentials());
}

#[test]
fn credentials_are_for_the_owner_only() {
    assert_eq!(CREDENTIALS_FILE_MODE, 0o600);
    assert_eq!(CREDENTIALS_DIR_MODE, 0o700);
}

#[test]
fn state_and_addresses() {
    assert_eq!(generate_state(0), "0");
    assert_eq!(generate_state(1_700_000_000_123_456_789), "1700000000123456789");
    assert_eq!(generate_state(u128::MAX), u128::MAX.to_string());
    assert_eq!(callback_address(8080), "http://localhost:8080");
    assert_eq!(callback_address(0), "http://localhost:0");
    assert_eq!(listen_address(65535), "127.0.0.1:65535");
}

#[test]
fn the_login_page_gets_encoded_parameters() {
    assert_eq!(
        auth_url("https://wavedash.gg", "http://localhost:8080", "17 a~b_c-d.e"),
        "https://wavedash.gg/developers/cli/auth?callback_uri=http%3A%2F%2Flocalhost%3A8080&state=17%20a~b_c-d.e"
    );
    assert_eq!(
        auth_url("h", "é", ""),
        "h/developers/cli/auth?callback_uri=%C3%A9&state="
    );
}

#[test]
fn query_parameters_are_read_as_written() {
    assert_eq!(query_param("/?a=1&b=2", "a"), Some("1".to_string()));
    assert_eq!(query_param("/?a=1&b=2", "b"), Some("2".to_string()));
    assert_eq!(query_param("/?a=1&b=2", "c"), None);
    assert_eq!(query_param("/?a=1&a=2", "a"), Some("2".to_string()));
    assert_eq!(query_param("/?a=x=y", "a"), Some("x".to_string()));
    assert_eq!(query_param("/?a", "a"), None);
    assert_eq!(query_param("/?a=", "a"), Some("".to_string()));
    assert_eq!(query_param("/a=1", "a"), None);
    assert_eq!(query_param("/?a=1?a=2", "a"), Some("1".to_string()));
    assert_eq!(query_param("/?a=%20", "a"), Some("%20".to_string()));
}

#[test]
fn the_return_address_gets_the_mark_of_success() {
    assert_eq!(redirect_with_success("https://w.gg/done"), "https://w.gg/done?success=true");
    assert_eq!(redirect_with_success("https://w.gg/done?x=1"), "https://w.gg/done?x=1&success=true");
}

#[test]
fn a_callback_carries_token_and_return_address() {
    let callback =
        login_callback("/?api_key=tok_1&return_url=https%3A%2F%2Fwavedash.gg%2Fcli%3Fdone%3D1");
    assert_eq!(
        callback,
        Some(LoginCallback {
            api_key: "tok_1".to_string(),
            redirect_url: "https://wavedash.gg/cli?done=1&success=true".to_string(),
        })
    );
    let plain = login_callback("/cb?return_url=https://w.gg/x&api_key=k%2B").unwrap();
    assert_eq!(plain.api_key, "k%2B");
    assert_eq!(plain.redirect_url, "https://w.gg/x?success=true");
}

#[test]
fn a_return_address_that_does_not_decode_is_used_as_written() {
    let callback = login_callback("/?api_key=k&return_url=%FF%FE").unwrap();
    assert_eq!(callback.redirect_url, "%FF%FE?success=true");
}

#[test]
fn requests_without_both_parameters_are_no_callback() {
    assert_eq!(login_callback("/favicon.ico"), None);
    assert_eq!(login_callback("/?api_key=k"), None);
    assert_eq!(login_callback("/?return_url=u"), None);
    assert_eq!(login_callback("/"), None);
}
