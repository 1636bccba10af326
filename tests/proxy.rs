use priv_tauri_updater::{
    download_url_base, replace_all, Address, Catalog, Fetched, PortSearch, PrivUpdater,
    ReleaseAsset, ReleaseRequest, Reply, ResolveError, Route, ServeState, Snapshot,
    DEFAULT_PORT, MAX_RETRIES,
};

fn asset(name: &str, url: &str, browser: &str) -> ReleaseAsset {
    ReleaseAsset {
        name: name.to_string(),
        url: url.to_string(),
        browser_download_url: browser.to_string(),
    }
}

fn acme_assets() -> Vec<ReleaseAsset> {
    vec![
        asset("latest.json", "U1", "https://dl.example.com/v1/latest.json"),
        asset("app.exe", "U2", "https://dl.example.com/v1/app.exe"),
    ]
}

fn acme_snapshot() -> Snapshot {
    PrivUpdater::new(acme_assets(), None).unwrap().snapshot()
}

#[test]
fn replace_every_occurrence() {
    assert_eq!(replace_all("a-b-a", "a", "X"), "X-b-X");
    assert_eq!(replace_all("aaa", "aa", "b"), "ba");
    assert_eq!(replace_all("héllo wörld", "ö", "oe"), "héllo woerld");
}

#[test]
fn replace_absent_leaves_text() {
    let text = "{\"url\": \"https://other.example.com/x\"}";
    assert_eq!(replace_all(text, "https://dl.example.com/v1", "http://127.0.0.1:7748"), text);
    assert_eq!(replace_all("", "abc", "x"), "");
}

#[test]
fn replace_empty_pattern_like_str_replace() {
    assert_eq!(replace_all("ab", "", "x"), "ab".replace("", "x"));
    assert_eq!(replace_all("", "", "x"), "x");
}

#[test]
fn url_base_strips_last_segment() {
    assert_eq!(download_url_base("https://dl.example.com/v1/latest.json"), "https://dl.example.com/v1");
    assert_eq!(download_url_base("a/b/"), "a/b");
    assert_eq!(download_url_base("no-slash"), "");
}

#[test]
fn release_request_headers() {
    let q = ReleaseRequest::new("Acme", "App", "t1").unwrap();
    assert_eq!(q.url, "https://api.github.com/repos/Acme/App/releases/latest");
    assert_eq!(q.authorization, "Bearer t1");
    assert_eq!(q.user_agent, "App");
}

#[test]
fn release_request_rejects_bad_header_values() {
    assert_eq!(ReleaseRequest::new("Acme", "App", "t\n1").err(), Some(ResolveError::InvalidHeaderValue));
    assert_eq!(ReleaseRequest::new("Acme", "A\u{7f}pp", "t1").err(), Some(ResolveError::InvalidHeaderValue));
    assert!(ReleaseRequest::new("Acme", "App\tX", "tök").is_ok());
}

#[test]
fn resolution_fails_without_assets() {
    assert_eq!(PrivUpdater::new(Vec::new(), None).err(), Some(ResolveError::NoAssets));
}

#[test]
fn catalog_later_asset_wins() {
    let c = Catalog::from_assets(vec![
        asset("a.zip", "U1", "https://x/a.zip"),
        asset("a.zip", "U2", "https://x/a.zip"),
    ]);
    assert_eq!(c.lookup("a.zip").unwrap(), "U2");
    assert!(c.lookup("A.zip").is_none());
    assert_eq!(c.duplicate().lookup("a.zip").unwrap(), "U2");
}

#[test]
fn default_address_and_base_url() {
    let u = PrivUpdater::new(acme_assets(), None).unwrap();
    let a = u.server_addr();
    assert_eq!(a.ip, [127, 0, 0, 1]);
    assert_eq!(a.port, DEFAULT_PORT);
    assert_eq!(a.base_url(), "http://127.0.0.1:7748");
    let b = Address { ip: [10, 0, 0, 254], port: 80 };
    assert_eq!(b.base_url(), "http://10.0.0.254:80");
    let c = Address { ip: [0, 0, 0, 0], port: 0 };
    assert_eq!(c.base_url(), "http://0.0.0.0:0");
}

#[test]
fn end_to_end_acme_scenario() {
    let snap = acme_snapshot();
    assert_eq!(snap.download_url_base, "https://dl.example.com/v1");
    assert_eq!(snap.local_base_url, "http://127.0.0.1:7748");

    let manifest = "{\"url\":\"https://dl.example.com/v1/app.exe\",\"notes\":\"https://dl.example.com/v1\"}";
    let route = snap.route("latest.json");
    assert!(matches!(&route, Route::Manifest(u) if u == "U1"));
    match snap.reply(&route, Fetched::Text(manifest.to_string())) {
        Reply::Text(t) => assert_eq!(
            t,
            "{\"url\":\"http://127.0.0.1:7748/app.exe\",\"notes\":\"http://127.0.0.1:7748\"}"
        ),
        _ => panic!("expected the rewritten manifest"),
    }

    let route = snap.route("app.exe");
    assert!(matches!(&route, Route::Asset(u) if u == "U2"));
    let bytes: Vec<u8> = vec![0x4d, 0x5a, 0x00, 0xff, 0x68];
    match snap.reply(&route, Fetched::Bytes(bytes.clone())) {
        Reply::Bytes(b) => assert_eq!(b, bytes),
        _ => panic!("expected the asset bytes"),
    }

    let route = snap.route("missing.zip");
    assert!(matches!(route, Route::NotFound));
    assert!(matches!(snap.reply(&route, Fetched::Failed), Reply::NotFound));
}

#[test]
fn unknown_names_are_not_found() {
    let snap = acme_snapshot();
    for name in ["", "LATEST.JSON", "latest.json ", "app", "../app.exe"] {
        assert!(matches!(snap.route(name), Route::NotFound));
    }
}

#[test]
fn asset_text_passes_through() {
    let snap = acme_snapshot();
    let route = snap.route("app.exe");
    let body = "see https://dl.example.com/v1/app.exe";
    match snap.reply(&route, Fetched::Text(body.to_string())) {
        Reply::Text(t) => assert_eq!(t, body),
        _ => panic!("expected the body unchanged"),
    }
}

#[test]
fn upstream_failure_is_distinct() {
    let snap = acme_snapshot();
    let route = snap.route("app.exe");
    assert!(matches!(snap.reply(&route, Fetched::Failed), Reply::UpstreamFailed));
    let route = snap.route("latest.json");
    assert!(matches!(snap.reply(&route, Fetched::Failed), Reply::UpstreamFailed));
}

#[test]
fn port_search_retries_then_gives_up() {
    let mut s = PortSearch::new(7748);
    assert_eq!(s.port, 7748);
    assert_eq!(s.record_failure(), Some(749));
    for k in 2..=MAX_RETRIES {
        assert_eq!(s.record_failure(), Some(748 + k as u16));
    }
    assert_eq!(s.failures, MAX_RETRIES);
    assert_eq!(s.record_failure(), None);
    assert_eq!(s.record_failure(), None);
}

#[test]
fn port_search_wraps_within_window() {
    let mut s = PortSearch::new(999);
    assert_eq!(s.record_failure(), Some(0));
    assert_eq!(s.record_failure(), Some(1));
}

#[test]
fn updater_follows_port_search() {
    let mut u = PrivUpdater::new(acme_assets(), Some(Address { ip: [127, 0, 0, 1], port: 8080 })).unwrap();
    let mut s = PortSearch::new(u.server_addr().port);
    for k in 1..=MAX_RETRIES {
        assert!(u.after_bind_failure(&mut s));
        assert_eq!(u.server_addr().port, 80 + k as u16);
    }
    assert!(!u.after_bind_failure(&mut s));
    assert_eq!(u.server_addr().port, 90);
    assert_eq!(u.snapshot().local_base_url, "http://127.0.0.1:90");
}

#[test]
fn shutdown_without_serving_is_noop() {
    let mut u = PrivUpdater::new(acme_assets(), None).unwrap();
    u.shutdown();
    u.shutdown();
    assert_eq!(u.state(), ServeState::Unbound);
}

#[test]
fn shutdown_signals_once() {
    let mut u = PrivUpdater::new(acme_assets(), None).unwrap();
    let (tx, mut rx) = tokio::sync::oneshot::channel::<()>();
    assert!(u.start_serving(tx).is_ok());
    assert_eq!(u.state(), ServeState::Serving);
    u.shutdown();
    assert_eq!(u.state(), ServeState::Stopped);
    assert!(rx.try_recv().is_ok());
    u.shutdown();
    assert_eq!(u.state(), ServeState::Stopped);
    let (tx2, _rx2) = tokio::sync::oneshot::channel::<()>();
    assert!(u.start_serving(tx2).is_err());
}

#[test]
fn shutdown_with_receiver_gone() {
    let mut u = PrivUpdater::new(acme_assets(), None).unwrap();
    let (tx, rx) = tokio::sync::oneshot::channel::<()>();
    drop(rx);
    assert!(u.start_serving(tx).is_ok());
    u.shutdown();
    assert_eq!(u.state(), ServeState::Stopped);
}
