use runtime_bridge::errors::ResolveError;
use runtime_bridge::resolver::{FetchPlan, LoaderStrategy, Resolver};

fn bytes(s: &str) -> Vec<u8> {
    s.as_bytes().to_vec()
}

fn standard_resolver() -> Resolver {
    let mut r = Resolver::new();
    r.add_strategy(LoaderStrategy::FileSystem { root: bytes("./modules") });
    r.add_strategy(LoaderStrategy::Network {
        secure_only: true,
        allowed_hosts: vec![bytes("github.com")],
    });
    r
}

#[test]
fn empty_resolver_matches_nothing() {
    let r = Resolver::new();
    let res = r.resolve(&bytes("file://main.ts"));
    assert!(matches!(res, Err(ResolveError::NoLoaderMatched)));
}

#[test]
fn unknown_scheme_matches_no_loader() {
    let r = standard_resolver();
    let res = r.resolve(&bytes("ftp://github.com/main.ts"));
    assert!(matches!(res, Err(ResolveError::NoLoaderMatched)));
}

#[test]
fn filesystem_identifier_resolves_under_root() {
    let r = standard_resolver();
    match r.resolve(&bytes("file://main.ts")) {
        Ok(FetchPlan::ReadFile { path }) => assert_eq!(path, bytes("./modules/main.ts")),
        other => panic!("expected a file read plan, got {:?}", other),
    }
}

#[test]
fn filesystem_identifier_with_subdirectory() {
    let r = standard_resolver();
    match r.resolve(&bytes("file://lib/util.ts")) {
        Ok(FetchPlan::ReadFile { path }) => assert_eq!(path, bytes("./modules/lib/util.ts")),
        other => panic!("expected a file read plan, got {:?}", other),
    }
}

#[test]
fn filesystem_identifier_escaping_root_is_rejected() {
    let r = standard_resolver();
    let res = r.resolve(&bytes("file://../secret.ts"));
    assert!(matches!(res, Err(ResolveError::PolicyRejected)));
}

#[test]
fn filesystem_identifier_with_inner_dotdot_is_rejected() {
    let r = standard_resolver();
    let res = r.resolve(&bytes("file://lib/../../secret.ts"));
    assert!(matches!(res, Err(ResolveError::PolicyRejected)));
}

#[test]
fn filesystem_absolute_identifier_is_rejected() {
    let r = standard_resolver();
    let res = r.resolve(&bytes("file:///etc/hosts"));
    assert!(matches!(res, Err(ResolveError::PolicyRejected)));
}

#[test]
fn filesystem_dotted_names_are_not_dotdot_segments() {
    let r = standard_resolver();
    match r.resolve(&bytes("file://a..b/x..ts")) {
        Ok(FetchPlan::ReadFile { path }) => assert_eq!(path, bytes("./modules/a..b/x..ts")),
        other => panic!("expected a file read plan, got {:?}", other),
    }
}

#[test]
fn network_identifier_on_allowed_host_resolves() {
    let r = standard_resolver();
    match r.resolve(&bytes("https://github.com/acme/app/main.ts")) {
        Ok(FetchPlan::HttpGet { url }) => {
            assert_eq!(url, bytes("https://github.com/acme/app/main.ts"))
        },
        other => panic!("expected a fetch plan, got {:?}", other),
    }
}

#[test]
fn network_identifier_on_disallowed_host_fails_before_fetch() {
    let r = standard_resolver();
    let res = r.resolve(&bytes("https://example.com/main.ts"));
    assert!(matches!(res, Err(ResolveError::PolicyRejected)));
}

#[test]
fn network_identifier_with_host_prefix_trick_is_rejected() {
    let r = standard_resolver();
    let res = r.resolve(&bytes("https://github.com.evil.net/main.ts"));
    assert!(matches!(res, Err(ResolveError::PolicyRejected)));
}

#[test]
fn unencrypted_network_identifier_fails_before_fetch() {
    let r = standard_resolver();
    let res = r.resolve(&bytes("http://github.com/main.ts"));
    assert!(matches!(res, Err(ResolveError::PolicyRejected)));
}

#[test]
fn first_matching_strategy_decides_without_fallback() {
    // Two network strategies; the first one claims every network identifier,
    // so the second, more permissive one is never consulted.
    let mut r = Resolver::new();
    r.add_strategy(LoaderStrategy::Network {
        secure_only: true,
        allowed_hosts: vec![bytes("github.com")],
    });
    r.add_strategy(LoaderStrategy::Network {
        secure_only: false,
        allowed_hosts: vec![bytes("example.com")],
    });
    let res = r.resolve(&bytes("https://example.com/main.ts"));
    assert!(matches!(res, Err(ResolveError::PolicyRejected)));
}

#[test]
fn port_does_not_belong_to_the_host() {
    let r = standard_resolver();
    // The host component ends at the first `:` or `/`, so an explicit port
    // leaves the host itself in the allow-set.
    let res = r.resolve(&bytes("https://github.com:8443/main.ts"));
    assert!(matches!(res, Ok(FetchPlan::HttpGet { .. })));
}
