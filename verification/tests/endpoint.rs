use wallet_router::endpoint::resolve_server_url;
use wallet_router::model::wallet_name_or_default;
use wallet_router::model::{CreateParams, Invocation, Operation, Settings};

#[test]
fn url_precedence_override_wins() {
    let settings = Settings { server_url: Some("http://b".to_string()) };
    let resolved = resolve_server_url(&Some("http://a".to_string()), &settings);
    assert_eq!(resolved, "http://a");
}

#[test]
fn url_precedence_settings_default() {
    let settings = Settings { server_url: Some("http://b".to_string()) };
    let resolved = resolve_server_url(&None, &settings);
    assert_eq!(resolved, "http://b");
}

#[test]
fn url_precedence_fallback() {
    let settings = Settings { server_url: None };
    let resolved = resolve_server_url(&None, &settings);
    assert_eq!(resolved, "http://127.0.0.1:80");
}

#[test]
fn default_wallet_name_is_ord() {
    assert_eq!(wallet_name_or_default(None), "ord");
}

#[test]
fn explicit_wallet_name_kept() {
    assert_eq!(wallet_name_or_default(Some("savings".to_string())), "savings");
}

#[test]
fn invocation_fills_default_name() {
    let invocation = Invocation::new(
        None,
        false,
        None,
        None,
        Operation::Create(CreateParams {}),
    );
    assert_eq!(invocation.name, "ord");
    assert!(!invocation.no_sync);
    assert!(invocation.server_url.is_none());
    assert!(invocation.address.is_none());
}

#[test]
fn invocation_keeps_given_flags() {
    let invocation = Invocation::new(
        Some("savings".to_string()),
        true,
        Some("http://a".to_string()),
        Some("bc1qaddress".to_string()),
        Operation::Balance,
    );
    assert_eq!(invocation.name, "savings");
    assert!(invocation.no_sync);
    assert_eq!(invocation.server_url.as_deref(), Some("http://a"));
    assert_eq!(invocation.address.as_deref(), Some("bc1qaddress"));
}
