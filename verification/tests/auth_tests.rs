use fabric_nb::auth::{
    auth_status, check_auth_status, get_cached_token, get_fabric_token, token_expiry_epoch, AzToken,
    TokenCache, FABRIC_RESOURCE,
};
use std::cell::Cell;

fn token(access: &str, epoch: Option<i64>) -> AzToken {
    AzToken {
        access_token: access.to_string(),
        expires_on: "2026-04-13 16:30:18.000000".to_string(),
        expires_on_epoch: epoch,
        tenant: Some("tenant-1".to_string()),
        subscription: None,
    }
}

#[test]
fn expiry_uses_positive_epoch_only() {
    assert_eq!(token_expiry_epoch(&token("a", Some(1700))), 1700);
    assert_eq!(token_expiry_epoch(&token("a", Some(0))), 0);
    assert_eq!(token_expiry_epoch(&token("a", Some(-5))), 0);
    assert_eq!(token_expiry_epoch(&token("a", None)), 0);
}

#[test]
fn cache_serves_fresh_token_without_fetching() {
    let mut cache = TokenCache::new();
    let calls = Cell::new(0);
    let first = get_cached_token(&mut cache, 1000, "res", |r: &str| {
        assert_eq!(r, "res");
        calls.set(calls.get() + 1);
        Ok::<AzToken, String>(token("t1", Some(2000)))
    });
    assert_eq!(first.unwrap(), "t1");
    let second = get_cached_token(&mut cache, 1500, "res", |_r: &str| {
        calls.set(calls.get() + 1);
        Ok::<AzToken, String>(token("t2", Some(3000)))
    });
    assert_eq!(second.unwrap(), "t1");
    assert_eq!(calls.get(), 1);
}

#[test]
fn cache_refreshes_within_sixty_seconds_of_expiry() {
    let mut cache = TokenCache::new();
    let _ = get_cached_token(&mut cache, 1000, "res", |_r: &str| Ok::<AzToken, String>(token("t1", Some(2000))));
    let at_margin = get_cached_token(&mut cache, 1940, "res", |_r: &str| Ok::<AzToken, String>(token("t2", Some(5000))));
    assert_eq!(at_margin.unwrap(), "t2");
    assert_eq!(cache.fresh_token(4939), Some("t2".to_string()));
    assert_eq!(cache.fresh_token(4940), None);
}

#[test]
fn token_without_expiry_is_not_served_again() {
    let mut cache = TokenCache::new();
    let _ = get_cached_token(&mut cache, 10, "res", |_r: &str| Ok::<AzToken, String>(token("t1", None)));
    assert_eq!(cache.fresh_token(10), None);
}

#[test]
fn failed_fetch_keeps_cache() {
    let mut cache = TokenCache::new();
    let _ = get_cached_token(&mut cache, 1000, "res", |_r: &str| Ok::<AzToken, String>(token("t1", Some(1050))));
    let failed = get_cached_token(&mut cache, 1000, "res", |_r: &str| Err::<AzToken, String>("az failed".to_string()));
    assert_eq!(failed, Err("az failed".to_string()));
    assert_eq!(cache.fresh_token(900), Some("t1".to_string()));
}

#[test]
fn fabric_token_requests_fabric_resource() {
    let mut cache = TokenCache::new();
    let got = get_fabric_token(&mut cache, 0, |r: &str| {
        assert_eq!(r, FABRIC_RESOURCE);
        assert_eq!(r, "https://analysis.windows.net/powerbi/api");
        Ok::<AzToken, String>(token("tok", Some(100)))
    });
    assert_eq!(got.unwrap(), "tok");
}

#[test]
fn auth_status_reports_token() {
    let s = auth_status(token("t", Some(2000)), 1000);
    assert_eq!(s.tenant, "tenant-1");
    assert_eq!(s.subscription, "unknown");
    assert!(s.token_valid);
    assert_eq!(s.expires_on, "2026-04-13 16:30:18.000000");
    let expired = auth_status(token("t", Some(2000)), 2000);
    assert!(!expired.token_valid);
    let r = check_auth_status(5, |r: &str| {
        assert_eq!(r, FABRIC_RESOURCE);
        Err::<AzToken, String>("not logged in".to_string())
    });
    assert!(matches!(r, Err(ref e) if e == "not logged in"));
}
