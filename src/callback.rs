use vstd::prelude::*;
use vstd::string::*;

use crate::auth_state::AuthState;

verus! {

/// The character of a decimal digit.
pub open spec fn digit_char(d: nat) -> char {
    if d == 0 { '0' }
    else if d == 1 { '1' }
    else if d == 2 { '2' }
    else if d == 3 { '3' }
    else if d == 4 { '4' }
    else if d == 5 { '5' }
    else if d == 6 { '6' }
    else if d == 7 { '7' }
    else if d == 8 { '8' }
    else { '9' }
}

/// The decimal notation of `n`, without sign or leading zeros.
pub open spec fn decimal(n: nat) -> Seq<char>
    decreases n,
{
    if n < 10 {
        seq![digit_char(n)]
    } else {
        decimal(n / 10).push(digit_char(n % 10))
    }
}

fn digit_str(d: u128) -> (r: &'static str)
    requires
        d < 10,
    ensures
        r@ == seq![digit_char(d as nat)],
{
    proof {
        reveal_strlit("0");
        reveal_strlit("1");
        reveal_strlit("2");
        reveal_strlit("3");
        reveal_strlit("4");
        reveal_strlit("5");
        reveal_strlit("6");
        reveal_strlit("7");
        reveal_strlit("8");
        reveal_strlit("9");
    }
    match d {
        0 => "0",
        1 => "1",
        2 => "2",
        3 => "3",
        4 => "4",
        5 => "5",
        6 => "6",
        7 => "7",
        8 => "8",
        _ => "9",
    }
}

/// The decimal string of `n`, as the listener expects it in `state`.
pub fn decimal_string(n: u128) -> (r: String)
    ensures
        r@ == decimal(n as nat),
    decreases n,
{
    if n < 10 {
        String::from_str(digit_str(n))
    } else {
        let mut s = decimal_string(n / 10);
        s.append(digit_str(n % 10));
        s
    }
}


/// The page shown in the browser once the code has been caught.
pub const CONFIRMATION_PAGE: &'static str = r#"<!DOCTYPE html>
<html lang="en">
<head>
    <meta charset="UTF-8">
    <style type="text/css">body{
    margin:40px auto;
    max-width:650px;
    line-height:1.6;
    font-size:18px;
    color:#888;
    background-color:#111;
    padding:0 10px
    }
    h1{line-height:1.2}
    </style>
    <title>TTTT OAuth</title>
</head>
<body>
    <h1>Thanks for Authenticating with TTTT OAuth!</h1>
You may now close this page.
</body>
</html>"#;

/// The body text of a callback whose `state` is wrong.
pub const INVALID_STATE_TEXT: &'static str = "Invalid state!";

/// The body text of a callback that carries no `code`.
pub const MISSING_CODE_TEXT: &'static str = "must provide code";

/// How the body of a callback response is to be sent.
#[derive(Debug, Clone, Copy, PartialEq, Eq, Structural)]
pub enum BodyKind {
    Html,
    Text,
}

/// The HTTP response to one callback request.
#[derive(Debug)]
pub struct CallbackResponse {
    pub status: u16,
    pub kind: BodyKind,
    pub body: String,
}

/// The callback's `state` is the session secret in decimal.
pub open spec fn state_matches(state: Option<String>, secret: u128) -> bool {
    match state {
        Some(s) => s@ == decimal(secret as nat),
        None => false,
    }
}

/// The status of the response to a callback with these parameters.
pub open spec fn callback_status(secret: u128, state: Option<String>, code: Option<String>) -> u16 {
    if !state_matches(state, secret) {
        401
    } else if code is None {
        400
    } else {
        200
    }
}

/// The shared state after a callback with these parameters: only a
/// callback with the right `state` and a `code` changes it, and then only
/// `user_token`.
pub open spec fn after_callback(
    auth: AuthState,
    secret: u128,
    state: Option<String>,
    code: Option<String>,
) -> AuthState {
    if state_matches(state, secret) && code is Some {
        AuthState { user_token: code->Some_0, ..auth }
    } else {
        auth
    }
}

/// Handles one request on the callback endpoint, given its `state` and
/// `code` query parameters.
///
/// A wrong or missing `state` is refused with 401 and changes nothing. With
/// the right `state`, a missing `code` is refused with 400 and changes
/// nothing; a present one becomes `user_token` (the last one caught wins)
/// and the confirmation page is sent with 200.
pub fn handle_callback(
    auth: &mut AuthState,
    secret: u128,
    state: Option<String>,
    code: Option<String>,
) -> (r: CallbackResponse)
    requires
        old(auth).wf(),
    ensures
        final(auth).wf(),
        AuthState::advances(*old(auth), *final(auth)),
        *final(auth) == after_callback(*old(auth), secret, state, code),
        r.status == callback_status(secret, state, code),
        r.status == 401 ==> r.kind == BodyKind::Text && r.body@ == INVALID_STATE_TEXT@,
        r.status == 400 ==> r.kind == BodyKind::Text && r.body@ == MISSING_CODE_TEXT@,
        r.status == 200 ==> r.kind == BodyKind::Html && r.body@ == CONFIRMATION_PAGE@,
{
    let expected = decimal_string(secret);
    let state_ok = match state {
        Some(s) => s == expected,
        None => false,
    };
    if !state_ok {
        return CallbackResponse {
            status: 401,
            kind: BodyKind::Text,
            body: String::from_str(INVALID_STATE_TEXT),
        };
    }
    match code {
        Some(c) => {
            auth.user_token = c;
            CallbackResponse {
                status: 200,
                kind: BodyKind::Html,
                body: String::from_str(CONFIRMATION_PAGE),
            }
        },
        None => CallbackResponse {
            status: 400,
            kind: BodyKind::Text,
            body: String::from_str(MISSING_CODE_TEXT),
        },
    }
}

/// Of two callbacks that both carry the right `state` and a code, the
/// second one's code is the one kept, whatever came before.
pub proof fn lemma_last_code_wins(
    auth: AuthState,
    secret: u128,
    state: String,
    first: String,
    second: String,
)
    requires
        state@ == decimal(secret as nat),
    ensures
        after_callback(
            after_callback(auth, secret, Some(state), Some(first)),
            secret,
            Some(state),
            Some(second),
        ).user_token == second,
        callback_status(secret, Some(state), Some(first)) == 200,
        callback_status(secret, Some(state), Some(second)) == 200,
{
}

/// A callback with a wrong `state` changes nothing and is refused with
/// 401, whatever its code.
pub proof fn lemma_wrong_state_is_refused(
    auth: AuthState,
    secret: u128,
    state: Option<String>,
    code: Option<String>,
)
    requires
        !state_matches(state, secret),
    ensures
        after_callback(auth, secret, state, code) == auth,
        callback_status(secret, state, code) == 401,
{
}

} // verus!
