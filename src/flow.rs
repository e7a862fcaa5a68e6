use vstd::prelude::*;
use vstd::string::*;
use vstd::utf8::encode_utf8;

use crate::auth_state::AuthState;
use crate::callback::{decimal, decimal_string};
use crate::settings::{AuthSpec, SocketAddress, Token};

verus! {

/// The provider's consent page.
pub const AUTHORIZE_URL: &'static str = "https://id.twitch.tv/oauth2/authorize";

/// The provider's token endpoint.
pub const TOKEN_URL: &'static str = "https://id.twitch.tv/oauth2/token";

/// The chat scopes that the bot asks for.
pub const SCOPES: &'static str = "chat:read chat:edit";

/// The bytes that `form_urlencoded` writes as they are.
pub open spec fn byte_unchanged(b: u8) -> bool {
    b == 0x2a || b == 0x2d || b == 0x2e || b == 0x5f
        || (0x30 <= b <= 0x39) || (0x41 <= b <= 0x5a) || (0x61 <= b <= 0x7a)
}

/// An upper-case hexadecimal digit.
pub open spec fn hex_digit(n: u8) -> char {
    if n < 10 {
        (0x30 + n) as char
    } else {
        (0x37 + n) as char
    }
}

/// How one byte is written in a query string: as it is, a space as `+`,
/// any other as `%` and two upper-case hexadecimal digits.
pub open spec fn encoded_byte(b: u8) -> Seq<char> {
    if byte_unchanged(b) {
        seq![b as char]
    } else if b == 0x20 {
        seq!['+']
    } else {
        seq!['%', hex_digit(b / 16), hex_digit(b % 16)]
    }
}

/// The `application/x-www-form-urlencoded` form of a byte string.
pub open spec fn form_encoded_bytes(bs: Seq<u8>) -> Seq<char>
    decreases bs.len(),
{
    if bs.len() == 0 {
        Seq::empty()
    } else {
        encoded_byte(bs[0]) + form_encoded_bytes(bs.drop_first())
    }
}

/// The `application/x-www-form-urlencoded` form of a text's UTF-8 bytes.
pub open spec fn form_encoded(s: Seq<char>) -> Seq<char> {
    form_encoded_bytes(encode_utf8(s))
}

/// Relies on `url::form_urlencoded::byte_serialize`, which encodes the text's
/// UTF-8 bytes for a query string byte by byte, as `encoded_byte` says (runs
/// of unchanged bytes come as one piece); its pieces are joined as they come.
#[verifier::external_body]
fn form_encode(s: &str) -> (r: String)
    ensures
        r@ == form_encoded(s@),
{
    url::form_urlencoded::byte_serialize(s.as_bytes()).collect()
}

/// One `key=value` pair of a query string.
pub open spec fn query_pair(key: Seq<char>, value: Seq<char>) -> Seq<char> {
    form_encoded(key) + "="@ + form_encoded(value)
}

fn append_pair(url: &mut String, key: &str, value: &str)
    ensures
        final(url)@ == old(url)@ + query_pair(key@, value@),
{
    let k = form_encode(key);
    let v = form_encode(value);
    url.append(k.as_str());
    url.append("=");
    url.append(v.as_str());
}

/// The consent page's address for this flow.
pub open spec fn authorize_url_spec(app_id: Seq<char>, redirect_uri: Seq<char>, secret: u128) -> Seq<char> {
    AUTHORIZE_URL@ + "?"@
        + query_pair("client_id"@, app_id) + "&"@
        + query_pair("redirect_uri"@, redirect_uri) + "&"@
        + query_pair("response_type"@, "code"@) + "&"@
        + query_pair("scope"@, SCOPES@) + "&"@
        + query_pair("force_verify"@, "true"@) + "&"@
        + query_pair("state"@, decimal(secret as nat))
}

/// The token endpoint's address that exchanges `code` for a token.
pub open spec fn token_url_spec(
    app_id: Seq<char>,
    app_secret: Seq<char>,
    redirect_uri: Seq<char>,
    code: Seq<char>,
) -> Seq<char> {
    TOKEN_URL@ + "?"@
        + query_pair("client_id"@, app_id) + "&"@
        + query_pair("client_secret"@, app_secret) + "&"@
        + query_pair("redirect_uri"@, redirect_uri) + "&"@
        + query_pair("code"@, code) + "&"@
        + query_pair("grant_type"@, "authorization_code"@)
}

/// Relies on `rand::random`, drawn from the thread's generator; nothing is
/// known of the value.
pub assume_specification<T>[ rand::random::<T> ]() -> (r: T)
    where
        rand::distributions::Standard: rand::distributions::Distribution<T>,
;

/// What one run of the flow is made with; fixed once built.
#[derive(Debug)]
pub struct AuthRequestContext {
    pub addr: SocketAddress,
    /// The address as the user gave it, sent as `redirect_uri`.
    pub addr_string: String,
    pub app_id: String,
    pub app_secret: String,
    /// The one-time anti-forgery secret, sent as `state`.
    pub secret: u128,
}

impl AuthRequestContext {
    /// The context for `spec`, with a fresh random secret.
    pub fn new(spec: AuthSpec) -> (r: AuthRequestContext)
        ensures
            r.addr == spec.addr,
            r.addr_string == spec.addr_string,
            r.app_id == spec.app_id,
            r.app_secret == spec.app_secret,
    {
        let secret: u128 = rand::random();
        AuthRequestContext::with_secret(spec, secret)
    }

    /// The context for `spec` with the given secret.
    pub fn with_secret(spec: AuthSpec, secret: u128) -> (r: AuthRequestContext)
        ensures
            r.addr == spec.addr,
            r.addr_string == spec.addr_string,
            r.app_id == spec.app_id,
            r.app_secret == spec.app_secret,
            r.secret == secret,
    {
        AuthRequestContext {
            addr: spec.addr,
            addr_string: spec.addr_string,
            app_id: spec.app_id,
            app_secret: spec.app_secret,
            secret,
        }
    }

    /// The address of the consent page that the browser is sent to.
    pub fn authorize_url(&self) -> (r: String)
        ensures
            r@ == authorize_url_spec(self.app_id@, self.addr_string@, self.secret),
    {
        let state = decimal_string(self.secret);
        let mut url = String::from_str(AUTHORIZE_URL);
        url.append("?");
        append_pair(&mut url, "client_id", self.app_id.as_str());
        url.append("&");
        append_pair(&mut url, "redirect_uri", self.addr_string.as_str());
        url.append("&");
        append_pair(&mut url, "response_type", "code");
        url.append("&");
        append_pair(&mut url, "scope", SCOPES);
        url.append("&");
        append_pair(&mut url, "force_verify", "true");
        url.append("&");
        append_pair(&mut url, "state", state.as_str());
        url
    }

    /// The address that the token request is posted to.
    pub fn token_url(&self, code: &str) -> (r: String)
        ensures
            r@ == token_url_spec(self.app_id@, self.app_secret@, self.addr_string@, code@),
    {
        let mut url = String::from_str(TOKEN_URL);
        url.append("?");
        append_pair(&mut url, "client_id", self.app_id.as_str());
        url.append("&");
        append_pair(&mut url, "client_secret", self.app_secret.as_str());
        url.append("&");
        append_pair(&mut url, "redirect_uri", self.addr_string.as_str());
        url.append("&");
        append_pair(&mut url, "code", code);
        url.append("&");
        append_pair(&mut url, "grant_type", "authorization_code");
        url
    }
}


/// Where the flow stands; the phases come strictly in this order.
#[derive(Debug, Clone, Copy, PartialEq, Eq, Structural)]
pub enum Phase {
    /// The listener has been started; waiting until it runs.
    AwaitingServerStart,
    /// The browser has been sent to the consent page; waiting for a code.
    AwaitingUserCode,
    /// The code is being exchanged for a token.
    Exchanging,
    /// The outcome is known; waiting until the listener has stopped.
    Closing,
    /// The listener has stopped; the outcome can be taken.
    Done,
}

/// Why the flow gave no access token.
#[derive(Debug)]
pub enum AuthError {
    /// The listener could not bind its address.
    ListenerBind(String),
    /// The browser could not be opened.
    BrowserOpen(String),
    /// The token request could not be made.
    TokenExchangeTransport(String),
    /// The token endpoint's answer could not be read.
    TokenExchangeDecode(String),
    /// The token endpoint answered with an empty access token.
    EmptyAccessToken,
    /// A phase took longer than the caller allows.
    Timeout,
}

/// What the token endpoint answered.
#[derive(Debug)]
pub struct TokenResult {
    pub access_token: String,
    pub refresh_token: String,
}

/// Why the token request gave no answer.
#[derive(Debug)]
pub enum ExchangeError {
    Transport(String),
    Decode(String),
}

/// What the caller is to do after a step of the flow.
#[derive(Debug)]
pub enum FlowAction {
    /// Nothing yet: step again a little later.
    Wait,
    /// Open this address in the default browser and report with
    /// [`Flow::browser_opened`].
    OpenBrowser(String),
    /// Post to this address and report with [`Flow::exchanged`].
    ExchangeToken(String),
    /// The flow is over: take its outcome with [`Flow::outcome`].
    Finish,
}

/// The outcome that the token endpoint's answer gives.
pub open spec fn exchange_outcome(result: Result<TokenResult, ExchangeError>) -> Result<Token, AuthError> {
    match result {
        Ok(t) => if t.access_token@.len() > 0 {
            Ok(t.access_token)
        } else {
            Err(AuthError::EmptyAccessToken)
        },
        Err(ExchangeError::Transport(m)) => Err(AuthError::TokenExchangeTransport(m)),
        Err(ExchangeError::Decode(m)) => Err(AuthError::TokenExchangeDecode(m)),
    }
}

/// The coordinator of one authorization-code flow.
///
/// The caller runs the listener beside it, both sharing one [`AuthState`],
/// and drives it: [`Flow::step`] under the lock, then the action it names,
/// and the matching report. Every way out passes through `Closing`, where
/// the listener is asked to stop, unless the listener itself failed.
#[derive(Debug)]
pub struct Flow {
    pub context: AuthRequestContext,
    pub phase: Phase,
    pub result: Option<Result<Token, AuthError>>,
}

impl Flow {
    /// An outcome is known exactly from `Closing` on, and a successful one
    /// holds a non-empty token.
    pub open spec fn wf(&self) -> bool {
        &&& (self.result is Some <==> (self.phase == Phase::Closing || self.phase == Phase::Done))
        &&& match self.result {
            Some(Ok(t)) => t@.len() > 0,
            _ => true,
        }
    }

    /// The position of a phase in the order in which they come.
    pub open spec fn rank(p: Phase) -> int {
        match p {
            Phase::AwaitingServerStart => 0,
            Phase::AwaitingUserCode => 1,
            Phase::Exchanging => 2,
            Phase::Closing => 3,
            Phase::Done => 4,
        }
    }

    /// `b` is `a` or a later state of the same flow: the context stays, the
    /// phase never goes back and a known outcome stays.
    pub open spec fn advances(a: Flow, b: Flow) -> bool {
        &&& b.context == a.context
        &&& Flow::rank(a.phase) <= Flow::rank(b.phase)
        &&& (a.result is Some ==> b.result == a.result)
    }

    /// A flow whose listener has just been started.
    pub fn new(context: AuthRequestContext) -> (r: Flow)
        ensures
            r.wf(),
            r.context == context,
            r.phase == Phase::AwaitingServerStart,
    {
        Flow { context, phase: Phase::AwaitingServerStart, result: None }
    }

    /// Looks at the shared state and moves on where it allows: once the
    /// listener runs the browser is to be opened; once a code is caught it
    /// is to be exchanged; once the listener has stopped the flow is over.
    pub fn step(&mut self, shared: &AuthState) -> (r: FlowAction)
        requires
            old(self).wf(),
        ensures
            final(self).wf(),
            Flow::advances(*old(self), *final(self)),
            match old(self).phase {
                Phase::AwaitingServerStart => if shared.server_running {
                    &&& final(self).phase == Phase::AwaitingUserCode
                    &&& r matches FlowAction::OpenBrowser(u)
                    &&& u@ == authorize_url_spec(
                        old(self).context.app_id@,
                        old(self).context.addr_string@,
                        old(self).context.secret,
                    )
                } else {
                    *final(self) == *old(self) && r is Wait
                },
                Phase::AwaitingUserCode => if shared.user_token@.len() > 0 {
                    &&& final(self).phase == Phase::Exchanging
                    &&& r matches FlowAction::ExchangeToken(u)
                    &&& u@ == token_url_spec(
                        old(self).context.app_id@,
                        old(self).context.app_secret@,
                        old(self).context.addr_string@,
                        shared.user_token@,
                    )
                } else {
                    *final(self) == *old(self) && r is Wait
                },
                Phase::Exchanging => *final(self) == *old(self) && r is Wait,
                Phase::Closing => if shared.is_closed {
                    final(self).phase == Phase::Done && r is Finish
                } else {
                    *final(self) == *old(self) && r is Wait
                },
                Phase::Done => *final(self) == *old(self) && r is Finish,
            },
            final(self).context == old(self).context,
            final(self).result == old(self).result,
    {
        match self.phase {
            Phase::AwaitingServerStart => {
                if shared.server_running {
                    self.phase = Phase::AwaitingUserCode;
                    FlowAction::OpenBrowser(self.context.authorize_url())
                } else {
                    FlowAction::Wait
                }
            },
            Phase::AwaitingUserCode => {
                if shared.has_code() {
                    self.phase = Phase::Exchanging;
                    FlowAction::ExchangeToken(self.context.token_url(shared.user_token.as_str()))
                } else {
                    FlowAction::Wait
                }
            },
            Phase::Exchanging => FlowAction::Wait,
            Phase::Closing => {
                if shared.is_closed {
                    self.phase = Phase::Done;
                    FlowAction::Finish
                } else {
                    FlowAction::Wait
                }
            },
            Phase::Done => FlowAction::Finish,
        }
    }

    /// Ends the flow with `error` and asks the listener to stop.
    fn fail(&mut self, shared: &mut AuthState, error: AuthError)
        requires
            old(self).result is None,
            old(shared).wf(),
        ensures
            final(self).phase == Phase::Closing,
            final(self).result == Some(Err::<Token, AuthError>(error)),
            final(self).context == old(self).context,
            final(shared).wf(),
            final(shared).can_close,
            final(shared).user_token == old(shared).user_token,
            final(shared).server_running == old(shared).server_running,
            final(shared).is_closed == old(shared).is_closed,
    {
        self.result = Some(Err(error));
        self.phase = Phase::Closing;
        shared.request_close();
    }

    /// Reports whether the browser could be opened. A failure ends the flow
    /// and asks the listener to stop; outside `AwaitingUserCode` nothing
    /// changes.
    pub fn browser_opened(&mut self, shared: &mut AuthState, opened: Result<(), String>)
        requires
            old(self).wf(),
            old(shared).wf(),
        ensures
            final(self).wf(),
            final(shared).wf(),
            Flow::advances(*old(self), *final(self)),
            AuthState::advances(*old(shared), *final(shared)),
            match opened {
                Err(m) if old(self).phase == Phase::AwaitingUserCode => {
                    &&& final(self).phase == Phase::Closing
                    &&& final(self).result == Some(Err::<Token, AuthError>(AuthError::BrowserOpen(m)))
                    &&& final(shared).can_close
                &&& final(shared).is_closed == old(shared).is_closed
                &&& final(shared).server_running == old(shared).server_running
                &&& final(shared).user_token == old(shared).user_token
                },
                _ => *final(self) == *old(self) && *final(shared) == *old(shared),
            },
    {
        if self.phase == Phase::AwaitingUserCode {
            if let Err(m) = opened {
                self.fail(shared, AuthError::BrowserOpen(m));
            }
        }
    }

    /// Reports the token endpoint's answer. In `Exchanging` the outcome is
    /// then known and the listener is asked to stop, whatever the answer;
    /// elsewhere nothing changes.
    pub fn exchanged(&mut self, shared: &mut AuthState, answer: Result<TokenResult, ExchangeError>)
        requires
            old(self).wf(),
            old(shared).wf(),
        ensures
            final(self).wf(),
            final(shared).wf(),
            Flow::advances(*old(self), *final(self)),
            AuthState::advances(*old(shared), *final(shared)),
            old(self).phase == Phase::Exchanging ==> {
                &&& final(self).phase == Phase::Closing
                &&& final(self).result == Some(exchange_outcome(answer))
                &&& final(shared).can_close
                &&& final(shared).is_closed == old(shared).is_closed
                &&& final(shared).server_running == old(shared).server_running
                &&& final(shared).user_token == old(shared).user_token
            },
            old(self).phase != Phase::Exchanging ==> *final(self) == *old(self) && *final(shared) == *old(shared),
    {
        if self.phase != Phase::Exchanging {
            return;
        }
        match answer {
            Ok(t) => {
                if t.access_token.as_str().is_empty() {
                    self.fail(shared, AuthError::EmptyAccessToken);
                } else {
                    self.result = Some(Ok(t.access_token));
                    self.phase = Phase::Closing;
                    shared.request_close();
                }
            },
            Err(ExchangeError::Transport(m)) => self.fail(shared, AuthError::TokenExchangeTransport(m)),
            Err(ExchangeError::Decode(m)) => self.fail(shared, AuthError::TokenExchangeDecode(m)),
        }
    }

    /// Reports that the caller's deadline for the current phase has passed.
    /// Before `Closing` this ends the flow and asks the listener to stop;
    /// from then on nothing changes.
    pub fn timed_out(&mut self, shared: &mut AuthState)
        requires
            old(self).wf(),
            old(shared).wf(),
        ensures
            final(self).wf(),
            final(shared).wf(),
            Flow::advances(*old(self), *final(self)),
            AuthState::advances(*old(shared), *final(shared)),
            old(self).result is None ==> {
                &&& final(self).phase == Phase::Closing
                &&& final(self).result == Some(Err::<Token, AuthError>(AuthError::Timeout))
                &&& final(shared).can_close
                &&& final(shared).is_closed == old(shared).is_closed
                &&& final(shared).server_running == old(shared).server_running
                &&& final(shared).user_token == old(shared).user_token
            },
            old(self).result is Some ==> *final(self) == *old(self) && *final(shared) == *old(shared),
    {
        if self.result.is_none() {
            self.fail(shared, AuthError::Timeout);
        }
    }

    /// Reports that the listener stopped on its own, as when it could not
    /// bind. There is nothing left to close: the flow is over, with the
    /// outcome already known or else this failure.
    pub fn listener_failed(&mut self, message: String)
        requires
            old(self).wf(),
        ensures
            final(self).wf(),
            Flow::advances(*old(self), *final(self)),
            final(self).phase == Phase::Done,
            old(self).result is None ==> final(self).result == Some(
                Err::<Token, AuthError>(AuthError::ListenerBind(message)),
            ),
    {
        if self.result.is_none() {
            self.result = Some(Err(AuthError::ListenerBind(message)));
        }
        self.phase = Phase::Done;
    }

    /// The outcome of a finished flow: the access token, or why there is
    /// none.
    pub fn outcome(self) -> (r: Result<Token, AuthError>)
        requires
            self.wf(),
            self.phase == Phase::Done,
        ensures
            Some(r) == self.result,
            r matches Ok(t) ==> t@.len() > 0,
    {
        self.result.unwrap()
    }
}

} // verus!
