use vstd::prelude::*;
use vstd::string::*;

use crate::settings::{AuthSpec, SocketAddress, Spec, SpecKind};

verus! {

#[verifier::external_type_specification]
#[verifier::external_body]
pub struct ExUrl(url::Url);

#[verifier::external_type_specification]
#[verifier::external_body]
pub struct ExUrlParseError(url::ParseError);

#[verifier::external_type_specification]
#[verifier::external_body]
pub struct ExIoError(std::io::Error);

/// Whether `url::Url::parse` accepts the text: a function of the text alone.
pub uninterp spec fn url_parses(s: Seq<char>) -> bool;

/// Relies on `url::Url::parse`: it fails exactly on the texts it does not
/// accept as an absolute URL.
pub assume_specification[ url::Url::parse ](input: &str) -> (r: Result<url::Url, url::ParseError>)
    ensures
        r is Ok <==> url_parses(input@),
;

/// The port assumed for an address given as a bare host.
pub const DEFAULT_PORT: u16 = 8080;

/// Why the command line cannot start the bot.
#[derive(Debug)]
pub enum Error {
    NoChannels,
    InvalidAddress(String),
    Io(std::io::Error),
}

impl Error {
    /// The text that describes the error to the user.
    pub open spec fn message_spec(&self) -> Seq<char> {
        match self {
            Error::NoChannels => "No channels were passed. Use --channel <channel name>"@,
            Error::InvalidAddress(a) => "\""@ + a@ + "\" is not a valid address."@,
            Error::Io(_) => "I/O error"@,
        }
    }

    pub fn message(&self) -> (r: String)
        ensures
            r@ == self.message_spec(),
    {
        match self {
            Error::NoChannels => String::from_str("No channels were passed. Use --channel <channel name>"),
            Error::InvalidAddress(a) => {
                let mut s = String::from_str("\"");
                s.append(a.as_str());
                s.append("\" is not a valid address.");
                s
            },
            Error::Io(_) => String::from_str("I/O error"),
        }
    }
}

/// The `token` subcommand: the access token is given.
#[derive(Debug)]
pub struct TokenCmd {
    pub token: String,
}

/// The `get_token` subcommand: the access token is to be fetched.
#[derive(Debug)]
pub struct GetTokenCmd {
    pub app_id: String,
    pub app_secret: String,
    /// Address to use for the local server; it must match the one
    /// registered with the provider.
    pub address: String,
}

#[derive(Debug)]
pub enum ArgsCmd {
    Token(TokenCmd),
    GetToken(GetTokenCmd),
}

/// The parsed command line.
#[derive(Debug)]
pub struct Args {
    /// The bot's login.
    pub login_name: String,
    pub channel: Vec<String>,
    pub subcommand: ArgsCmd,
}

/// A `get_token` command line whose listen address is still being
/// resolved.
#[derive(Debug)]
pub struct PendingAuth {
    pub login_name: String,
    pub channel_names: Vec<String>,
    pub app_id: String,
    pub app_secret: String,
    pub address: String,
}

/// Where turning a command line into a [`Spec`] stands.
#[derive(Debug)]
pub enum SpecStep {
    Ready(Spec),
    Failed(Error),
    /// The caller resolves the URL to socket addresses and hands them to
    /// [`PendingAuth::url_resolved`].
    ResolveUrl(PendingAuth, url::Url),
    /// The caller resolves the host and port to socket addresses and hands
    /// them to [`PendingAuth::host_resolved`].
    ResolveHost(PendingAuth, String, u16),
}

impl PendingAuth {
    /// The spec that this command line gives once its address is `addr`.
    pub open spec fn spec_with(self, addr: SocketAddress) -> Spec {
        Spec {
            channel_names: self.channel_names,
            login_name: self.login_name,
            kind: SpecKind::Auth(
                AuthSpec {
                    addr,
                    addr_string: self.address,
                    app_id: self.app_id,
                    app_secret: self.app_secret,
                },
            ),
        }
    }

    fn into_spec(self, addr: SocketAddress) -> (r: Spec)
        ensures
            r == self.spec_with(addr),
    {
        Spec {
            channel_names: self.channel_names,
            login_name: self.login_name,
            kind: SpecKind::Auth(
                AuthSpec {
                    addr,
                    addr_string: self.address,
                    app_id: self.app_id,
                    app_secret: self.app_secret,
                },
            ),
        }
    }

    /// Takes what resolving the URL gave. An error is an I/O error; the
    /// first address found is the listen address; when none was found the
    /// address is tried again as a bare host on the default port.
    pub fn url_resolved(self, found: Result<Vec<SocketAddress>, std::io::Error>) -> (r: SpecStep)
        ensures
            match found {
                Err(e) => r == SpecStep::Failed(Error::Io(e)),
                Ok(v) => if v.len() > 0 {
                    r == SpecStep::Ready(self.spec_with(v[0]))
                } else {
                    match r {
                        SpecStep::ResolveHost(p, host, port) => {
                            &&& p == self
                            &&& host@ == self.address@
                            &&& port == DEFAULT_PORT
                        },
                        _ => false,
                    }
                },
            },
    {
        match found {
            Err(e) => SpecStep::Failed(Error::Io(e)),
            Ok(v) => {
                if v.len() > 0 {
                    let addr = v[0];
                    SpecStep::Ready(self.into_spec(addr))
                } else {
                    let host = self.address.clone();
                    SpecStep::ResolveHost(self, host, DEFAULT_PORT)
                }
            },
        }
    }

    /// Takes what resolving the address as a bare host gave: the first
    /// address found, or else the address is not valid, since neither way
    /// of reading it led anywhere.
    pub fn host_resolved(self, found: Result<Vec<SocketAddress>, std::io::Error>) -> (r: Result<Spec, Error>)
        ensures
            match found {
                Ok(v) if v.len() > 0 => r == Ok::<Spec, Error>(self.spec_with(v[0])),
                _ => r == Err::<Spec, Error>(Error::InvalidAddress(self.address)),
            },
    {
        match found {
            Ok(v) => {
                if v.len() > 0 {
                    let addr = v[0];
                    return Ok(self.into_spec(addr));
                }
            },
            Err(_) => {},
        }
        Err(Error::InvalidAddress(self.address))
    }
}

impl Args {
    /// Starts turning the command line into a [`Spec`]. No channel is an
    /// error; a given token is ready at once; for `get_token` an address
    /// that parses as a URL is resolved as one, and any other is tried as a
    /// bare host on the default port.
    pub fn to_spec(self) -> (r: SpecStep)
        ensures
            self.channel.len() == 0 ==> r == SpecStep::Failed(Error::NoChannels),
            self.channel.len() > 0 ==> match self.subcommand {
                ArgsCmd::Token(t) => r == SpecStep::Ready(
                    Spec {
                        channel_names: self.channel,
                        login_name: self.login_name,
                        kind: SpecKind::Token(t.token),
                    },
                ),
                ArgsCmd::GetToken(g) => {
                    let p = (PendingAuth {
                        login_name: self.login_name,
                        channel_names: self.channel,
                        app_id: g.app_id,
                        app_secret: g.app_secret,
                        address: g.address,
                    });
                    match r {
                        SpecStep::ResolveUrl(q, _) => url_parses(g.address@) && q == p,
                        SpecStep::ResolveHost(q, host, port) => {
                            &&& !url_parses(g.address@)
                            &&& q == p
                            &&& host@ == g.address@
                            &&& port == DEFAULT_PORT
                        },
                        _ => false,
                    }
                },
            },
    {
        if self.channel.len() == 0 {
            return SpecStep::Failed(Error::NoChannels);
        }
        match self.subcommand {
            ArgsCmd::Token(t) => SpecStep::Ready(
                Spec { channel_names: self.channel, login_name: self.login_name, kind: SpecKind::Token(t.token) },
            ),
            ArgsCmd::GetToken(g) => {
                let parsed = url::Url::parse(g.address.as_str());
                let pending = PendingAuth {
                    login_name: self.login_name,
                    channel_names: self.channel,
                    app_id: g.app_id,
                    app_secret: g.app_secret,
                    address: g.address,
                };
                match parsed {
                    Ok(url) => SpecStep::ResolveUrl(pending, url),
                    Err(_) => {
                        let host = pending.address.clone();
                        SpecStep::ResolveHost(pending, host, DEFAULT_PORT)
                    },
                }
            },
        }
    }
}

} // verus!
