//! The configuration of the proxy, fixed for the life of the process.

use vstd::prelude::*;

verus! {

/// The local TCP port on which clients are accepted.
pub const LISTEN_PORT: u16 = 1337;

/// Mathematical value of a [`Config`].
pub struct ConfigView {
    pub domain: Seq<char>,
    pub proxy_addr: Seq<char>,
    pub username: Option<Seq<char>>,
    pub password: Option<Seq<char>>,
}

/// What the proxy is started with: the domain of the game server, the address
/// of the SOCKS5 proxy as `host:port`, and the credentials for that proxy, each
/// of which may be missing. It is never changed after startup.
#[derive(Debug, PartialEq, Eq)]
pub struct Config {
    domain: String,
    proxy_addr: String,
    username: Option<String>,
    password: Option<String>,
}

/// View of an optional string.
pub open spec fn optional_text(text: Option<String>) -> Option<Seq<char>> {
    match text {
        Some(t) => Some(t@),
        None => None,
    }
}

/// View of an optional string slice.
pub open spec fn optional_str(text: Option<&str>) -> Option<Seq<char>> {
    match text {
        Some(t) => Some(t@),
        None => None,
    }
}

impl View for Config {
    type V = ConfigView;

    closed spec fn view(&self) -> ConfigView {
        ConfigView {
            domain: self.domain@,
            proxy_addr: self.proxy_addr@,
            username: optional_text(self.username),
            password: optional_text(self.password),
        }
    }
}

impl ConfigView {
    /// Whether any credential is configured.
    pub open spec fn uses_auth(self) -> bool {
        self.username is Some || self.password is Some
    }
}

fn borrow_text(text: &Option<String>) -> (borrowed: Option<&str>)
    ensures
        optional_str(borrowed) == optional_text(*text),
{
    match text {
        Some(t) => Some(t.as_str()),
        None => None,
    }
}

impl Config {
    /// Collects the startup values.
    pub fn new(
        domain: String,
        proxy_addr: String,
        username: Option<String>,
        password: Option<String>,
    ) -> (config: Config)
        ensures
            config@ == (ConfigView {
                domain: domain@,
                proxy_addr: proxy_addr@,
                username: optional_text(username),
                password: optional_text(password),
            }),
    {
        Config { domain, proxy_addr, username, password }
    }

    /// The domain of the game server.
    pub fn domain(&self) -> (domain: &str)
        ensures
            domain@ == self@.domain,
    {
        self.domain.as_str()
    }

    /// The address of the SOCKS5 proxy.
    pub fn proxy_addr(&self) -> (proxy_addr: &str)
        ensures
            proxy_addr@ == self@.proxy_addr,
    {
        self.proxy_addr.as_str()
    }

    /// The user name for the proxy, if one is configured.
    pub fn username(&self) -> (username: Option<&str>)
        ensures
            optional_str(username) == self@.username,
    {
        borrow_text(&self.username)
    }

    /// The password for the proxy, if one is configured.
    pub fn password(&self) -> (password: Option<&str>)
        ensures
            optional_str(password) == self@.password,
    {
        borrow_text(&self.password)
    }

    /// Whether the proxy will be asked to authenticate: true as soon as a user
    /// name or a password is configured.
    pub fn uses_auth(&self) -> (auth: bool)
        ensures
            auth == self@.uses_auth(),
    {
        self.username.is_some() || self.password.is_some()
    }
}

} // verus!
