use std::sync::{Arc, Mutex};

use game_library::{
    bearer_header, catalog_url, check_token_response, CatalogError, CredentialCache,
    TwitchTokenResponse,
};

fn response(token: &str, expires_in: i64) -> TwitchTokenResponse {
    TwitchTokenResponse { access_token: token.to_string(), expires_in, token_type: "bearer".to_string() }
}

#[test]
fn new_cache_serves_nothing() {
    let c = CredentialCache::new();
    assert_eq!(c.expiry, 0);
    assert_eq!(c.cached_token(0), None);
    assert_eq!(c.cached_token(1_700_000_000), None);
}

#[test]
fn stored_token_is_served_until_margin_before_expiry() {
    let mut c = CredentialCache::new();
    let t = c.store(response("abc", 3600), 1000);
    assert_eq!(t, "abc");
    assert_eq!(c.expiry, 1000 + 3600 - 60);
    assert_eq!(c.cached_token(1000).as_deref(), Some("abc"));
    assert_eq!(c.cached_token(4539).as_deref(), Some("abc"));
    assert_eq!(c.cached_token(4540), None);
}

#[test]
fn invalidate_forces_refresh() {
    let mut c = CredentialCache::new();
    c.store(response("abc", 3600), 1000);
    c.invalidate();
    assert_eq!(c.expiry, 0);
    assert_eq!(c.token.as_deref(), Some("abc"));
    assert_eq!(c.cached_token(1000), None);
}

#[test]
fn unauthorized_answer_invalidates_without_retry() {
    let mut c = CredentialCache::new();
    c.store(response("abc", 3600), 1000);
    let r = c.check_catalog_response(401, "nope".to_string());
    assert!(matches!(r, Err(CatalogError::AuthExpired)));
    assert_eq!(c.cached_token(1000), None);
}

#[test]
fn other_failure_keeps_status_and_body() {
    let mut c = CredentialCache::new();
    c.store(response("abc", 3600), 1000);
    match c.check_catalog_response(500, "boom".to_string()) {
        Err(CatalogError::Upstream { status, body }) => {
            assert_eq!(status, 500);
            assert_eq!(body, "boom");
        }
        other => panic!("unexpected {:?}", other),
    }
    assert_eq!(c.cached_token(1000).as_deref(), Some("abc"));
}

#[test]
fn success_hands_body_on() {
    let mut c = CredentialCache::new();
    let r = c.check_catalog_response(200, "[]".to_string());
    assert_eq!(r.unwrap(), "[]");
    assert!(c.check_catalog_response(299, "x".to_string()).is_ok());
    assert!(c.check_catalog_response(300, "x".to_string()).is_err());
}

#[test]
fn token_endpoint_status() {
    assert!(check_token_response(200).is_ok());
    assert!(matches!(check_token_response(400), Err(CatalogError::CredentialStatus(400))));
    assert!(matches!(check_token_response(199), Err(CatalogError::CredentialStatus(199))));
}

#[test]
fn request_address_and_header() {
    assert_eq!(catalog_url("https://api.igdb.com/v4", "games"), "https://api.igdb.com/v4/games");
    assert_eq!(bearer_header("tok"), "Bearer tok");
}

#[test]
fn concurrent_refreshes_hand_out_consistent_pairs() {
    let cache = Arc::new(Mutex::new(CredentialCache::new()));
    let runtime = tokio::runtime::Builder::new_multi_thread().worker_threads(4).build().unwrap();
    let results = runtime.block_on(async {
        let mut handles = Vec::new();
        for i in 0..16i64 {
            let cache = cache.clone();
            handles.push(tokio::spawn(async move {
                let now = 1_000;
                let served = cache.lock().unwrap().cached_token(now);
                match served {
                    Some(t) => {
                        let c = cache.lock().unwrap();
                        (t, c.expiry)
                    }
                    None => {
                        let token = format!("token-{}", i);
                        let mut c = cache.lock().unwrap();
                        let t = c.store(response(&token, 3600 + i), now);
                        (t, c.expiry)
                    }
                }
            }));
        }
        let mut out = Vec::new();
        for h in handles {
            out.push(h.await.unwrap());
        }
        out
    });
    for (token, expiry) in results {
        let i: i64 = token.trim_start_matches("token-").parse().unwrap();
        assert_eq!(expiry, 1_000 + 3600 + i - 60);
    }
}
