use tttt::auth_state::AuthState;
use tttt::callback::handle_callback;
use tttt::flow::{
    AuthError, AuthRequestContext, ExchangeError, Flow, FlowAction, Phase, TokenResult,
};
use tttt::settings::{AuthSpec, IpAddress, SocketAddress};

fn auth_spec() -> AuthSpec {
    AuthSpec {
        addr: SocketAddress { ip: IpAddress::V4([127, 0, 0, 1]), port: 3000 },
        addr_string: "http://localhost:3000".to_string(),
        app_id: "my id".to_string(),
        app_secret: "s3cr&t".to_string(),
    }
}

fn context(secret: u128) -> AuthRequestContext {
    AuthRequestContext::with_secret(auth_spec(), secret)
}

fn token(access: &str, refresh: &str) -> TokenResult {
    TokenResult { access_token: access.to_string(), refresh_token: refresh.to_string() }
}

/// Runs the flow up to the token request, with a callback carrying `code`.
fn run_to_exchange(secret: u128, code: &str) -> (Flow, AuthState, String) {
    let mut flow = Flow::new(context(secret));
    let mut shared = AuthState::new();
    assert!(matches!(flow.step(&shared), FlowAction::Wait));
    assert_eq!(flow.phase, Phase::AwaitingServerStart);
    shared.mark_server_running();
    let browser = match flow.step(&shared) {
        FlowAction::OpenBrowser(u) => u,
        other => panic!("unexpected {other:?}"),
    };
    assert!(browser.ends_with(&format!("&state={secret}")));
    flow.browser_opened(&mut shared, Ok(()));
    assert_eq!(flow.phase, Phase::AwaitingUserCode);
    assert!(matches!(flow.step(&shared), FlowAction::Wait));
    let r = handle_callback(&mut shared, secret, Some(secret.to_string()), Some(code.to_string()));
    assert_eq!(r.status, 200);
    let post = match flow.step(&shared) {
        FlowAction::ExchangeToken(u) => u,
        other => panic!("unexpected {other:?}"),
    };
    assert_eq!(flow.phase, Phase::Exchanging);
    assert!(matches!(flow.step(&shared), FlowAction::Wait));
    (flow, shared, post)
}

/// Lets the listener notice the close request and the flow finish.
fn close(flow: &mut Flow, shared: &mut AuthState) {
    assert!(shared.can_close);
    assert!(matches!(flow.step(shared), FlowAction::Wait));
    assert!(shared.finish_cycle());
    assert!(shared.is_closed);
    assert!(matches!(flow.step(shared), FlowAction::Finish));
    assert_eq!(flow.phase, Phase::Done);
}

#[test]
fn authorize_url_is_exact() {
    let url = context(42).authorize_url();
    assert_eq!(
        url,
        "https://id.twitch.tv/oauth2/authorize?client_id=my+id\
         &redirect_uri=http%3A%2F%2Flocalhost%3A3000&response_type=code\
         &scope=chat%3Aread+chat%3Aedit&force_verify=true&state=42"
    );
}

#[test]
fn token_url_is_exact() {
    let url = context(42).token_url("a/b");
    assert_eq!(
        url,
        "https://id.twitch.tv/oauth2/token?client_id=my+id&client_secret=s3cr%26t\
         &redirect_uri=http%3A%2F%2Flocalhost%3A3000&code=a%2Fb\
         &grant_type=authorization_code"
    );
}

#[test]
fn reserved_characters_are_escaped_in_values() {
    let spec = AuthSpec {
        addr: SocketAddress { ip: IpAddress::V4([127, 0, 0, 1]), port: 3000 },
        addr_string: "http://h/?a=b&c".to_string(),
        app_id: "\u{e9}*-._~".to_string(),
        app_secret: "x".to_string(),
    };
    let url = AuthRequestContext::with_secret(spec, 0).authorize_url();
    assert!(url.contains("?client_id=%C3%A9*-._%7E&"));
    assert!(url.contains("&redirect_uri=http%3A%2F%2Fh%2F%3Fa%3Db%26c&"));
    assert!(url.ends_with("&state=0"));
}

#[test]
fn random_context_keeps_the_spec() {
    let c = AuthRequestContext::new(auth_spec());
    assert_eq!(c.addr_string, "http://localhost:3000");
    assert_eq!(c.app_id, "my id");
    assert_eq!(c.app_secret, "s3cr&t");
    assert_eq!(c.addr.port, 3000);
}

#[test]
fn end_to_end_success_returns_the_access_token() {
    let (mut flow, mut shared, post) = run_to_exchange(77, "X");
    assert!(post.contains("&code=X&"));
    flow.exchanged(&mut shared, Ok(token("T", "R")));
    assert_eq!(flow.phase, Phase::Closing);
    close(&mut flow, &mut shared);
    assert_eq!(flow.outcome().unwrap(), "T");
}

#[test]
fn end_to_end_empty_access_token_fails() {
    let (mut flow, mut shared, _) = run_to_exchange(78, "X");
    flow.exchanged(&mut shared, Ok(token("", "R")));
    close(&mut flow, &mut shared);
    assert!(matches!(flow.outcome(), Err(AuthError::EmptyAccessToken)));
}

#[test]
fn transport_failure_still_closes_the_listener() {
    let (mut flow, mut shared, _) = run_to_exchange(79, "X");
    flow.exchanged(&mut shared, Err(ExchangeError::Transport("refused".to_string())));
    close(&mut flow, &mut shared);
    assert!(matches!(flow.outcome(), Err(AuthError::TokenExchangeTransport(m)) if m == "refused"));
}

#[test]
fn decode_failure_still_closes_the_listener() {
    let (mut flow, mut shared, _) = run_to_exchange(80, "X");
    flow.exchanged(&mut shared, Err(ExchangeError::Decode("bad json".to_string())));
    close(&mut flow, &mut shared);
    assert!(matches!(flow.outcome(), Err(AuthError::TokenExchangeDecode(m)) if m == "bad json"));
}

#[test]
fn browser_failure_closes_the_listener() {
    let mut flow = Flow::new(context(1));
    let mut shared = AuthState::new();
    shared.mark_server_running();
    assert!(matches!(flow.step(&shared), FlowAction::OpenBrowser(_)));
    flow.browser_opened(&mut shared, Err("no browser".to_string()));
    assert_eq!(flow.phase, Phase::Closing);
    close(&mut flow, &mut shared);
    assert!(matches!(flow.outcome(), Err(AuthError::BrowserOpen(m)) if m == "no browser"));
}

#[test]
fn timeout_closes_the_listener() {
    let mut flow = Flow::new(context(2));
    let mut shared = AuthState::new();
    shared.mark_server_running();
    assert!(matches!(flow.step(&shared), FlowAction::OpenBrowser(_)));
    flow.timed_out(&mut shared);
    close(&mut flow, &mut shared);
    assert!(matches!(flow.outcome(), Err(AuthError::Timeout)));
}

#[test]
fn listener_failure_ends_the_flow() {
    let mut flow = Flow::new(context(3));
    flow.listener_failed("address in use".to_string());
    assert_eq!(flow.phase, Phase::Done);
    let shared = AuthState::new();
    assert!(matches!(flow.step(&shared), FlowAction::Finish));
    assert!(matches!(flow.outcome(), Err(AuthError::ListenerBind(m)) if m == "address in use"));
}

#[test]
fn late_reports_change_nothing() {
    let (mut flow, mut shared, _) = run_to_exchange(81, "X");
    flow.exchanged(&mut shared, Ok(token("T", "R")));
    flow.timed_out(&mut shared);
    flow.exchanged(&mut shared, Ok(token("U", "R")));
    flow.browser_opened(&mut shared, Err("late".to_string()));
    close(&mut flow, &mut shared);
    assert_eq!(flow.outcome().unwrap(), "T");
}
