use vstd::prelude::*;

verus! {

/// An OAuth access token.
pub type Token = String;

/// An IP address, as its octets.
#[derive(Debug, Clone, Copy, PartialEq, Eq)]
pub enum IpAddress {
    V4([u8; 4]),
    V6([u8; 16]),
}

/// A socket address that the callback listener can bind to.
#[derive(Debug, Clone, Copy, PartialEq, Eq)]
pub struct SocketAddress {
    pub ip: IpAddress,
    pub port: u16,
}

/// How the bot gets its access token.
#[derive(Debug)]
pub enum SpecKind {
    /// The token was given on the command line.
    Token(Token),
    /// The token is to be fetched through the authorization-code flow.
    Auth(AuthSpec),
}

/// What the bot is started with.
#[derive(Debug)]
pub struct Spec {
    pub channel_names: Vec<String>,
    pub login_name: String,
    pub kind: SpecKind,
}

/// What the authorization-code flow is started with.
#[derive(Debug)]
pub struct AuthSpec {
    /// Where the callback listener binds.
    pub addr: SocketAddress,
    /// The address as the user gave it, sent as `redirect_uri`.
    pub addr_string: String,
    pub app_id: String,
    pub app_secret: String,
}

} // verus!
