use tttt::auth_state::AuthState;

#[test]
fn new_state_is_initial() {
    let auth = AuthState::new();
    assert_eq!(auth.user_token, "");
    assert!(!auth.server_running);
    assert!(!auth.can_close);
    assert!(!auth.is_closed);
    assert!(!auth.has_code());
    let d = AuthState::default();
    assert!(!d.server_running && !d.can_close && !d.is_closed);
}

#[test]
fn listener_stops_only_after_close_is_requested() {
    let mut auth = AuthState::new();
    auth.mark_server_running();
    assert!(auth.server_running);
    assert!(!auth.finish_cycle());
    assert!(!auth.is_closed);
    auth.request_close();
    assert!(auth.can_close);
    assert!(auth.finish_cycle());
    assert!(auth.is_closed);
    assert!(auth.server_running);
}
