use protocol_z_cash::redirect::{redirect_decision, RedirectAction, RedirectDomain};

#[test]
fn old_host_redirects_with_status_307() {
    match redirect_decision(Some("p.z.cash"), "/TCR:1.2.3?partial=") {
        RedirectAction::Redirect { status, location } => {
            assert_eq!(status, 307);
            assert_eq!(location, "https://protocol.z.cash/TCR:1.2.3?partial=");
        }
        RedirectAction::Serve => panic!("expected a redirect"),
    }
}

#[test]
fn redirect_keeps_path_without_query() {
    match redirect_decision(Some("p.z.cash"), "/zip-200:abstract") {
        RedirectAction::Redirect { status, location } => {
            assert_eq!(status, 307);
            assert_eq!(location, "https://protocol.z.cash/zip-200:abstract");
        }
        RedirectAction::Serve => panic!("expected a redirect"),
    }
}

#[test]
fn other_host_is_served() {
    assert!(matches!(
        redirect_decision(Some("zips.z.cash"), "/zip-200"),
        RedirectAction::Serve
    ));
    assert!(matches!(
        redirect_decision(Some("protocol.z.cash"), "/"),
        RedirectAction::Serve
    ));
}

#[test]
fn near_miss_host_is_served() {
    assert!(matches!(
        redirect_decision(Some("p.z.cash.example"), "/"),
        RedirectAction::Serve
    ));
    assert!(matches!(redirect_decision(Some("p.z.cas"), "/"), RedirectAction::Serve));
}

#[test]
fn missing_host_is_served() {
    assert!(matches!(redirect_decision(None, "/"), RedirectAction::Serve));
}

#[test]
fn new_keeps_the_wrapped_service() {
    let wrapped = RedirectDomain::new(7u32);
    assert_eq!(wrapped.inner, 7);
}
