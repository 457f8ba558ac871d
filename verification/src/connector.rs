//! The upstream connection: what to ask of the SOCKS5 proxy.
//!
//! The handshake is a network operation and belongs to the caller. A
//! [`ConnectRequest`] fixes everything the caller hands to its SOCKS5 client.

use vstd::prelude::*;
use crate::address::{TargetAddress, TargetAddressView};
use crate::config::optional_str;

verus! {

/// How to authenticate to the SOCKS5 proxy.
#[derive(Debug, PartialEq, Eq)]
pub enum AuthMode {
    /// Negotiate no authentication.
    NoAuth,
    /// Authenticate with this user name and password; either may be empty.
    Password { username: String, password: String },
}

/// Mathematical value of an [`AuthMode`].
pub enum AuthModeView {
    NoAuth,
    Password { username: Seq<char>, password: Seq<char> },
}

impl View for AuthMode {
    type V = AuthModeView;

    open spec fn view(&self) -> AuthModeView {
        match self {
            AuthMode::NoAuth => AuthModeView::NoAuth,
            AuthMode::Password { username, password } => AuthModeView::Password {
                username: username@,
                password: password@,
            },
        }
    }
}

/// The credential policy. Partial credentials are completed with an empty
/// string; only their complete absence means no authentication.
pub open spec fn auth_mode_for(
    username: Option<Seq<char>>,
    password: Option<Seq<char>>,
) -> AuthModeView {
    match (username, password) {
        (Some(u), Some(p)) => AuthModeView::Password { username: u, password: p },
        (Some(u), None) => AuthModeView::Password { username: u, password: Seq::empty() },
        (None, Some(p)) => AuthModeView::Password { username: Seq::empty(), password: p },
        (None, None) => AuthModeView::NoAuth,
    }
}

/// Chooses the authentication mode for the credentials that are configured:
/// both as given; a user name alone with an empty password; a password alone
/// with an empty user name; none at all for no authentication.
pub fn auth_mode(username: Option<&str>, password: Option<&str>) -> (mode: AuthMode)
    ensures
        mode@ == auth_mode_for(optional_str(username), optional_str(password)),
{
    match (username, password) {
        (Some(u), Some(p)) => AuthMode::Password {
            username: String::from_str(u),
            password: String::from_str(p),
        },
        (Some(u), None) => AuthMode::Password {
            username: String::from_str(u),
            password: String::new(),
        },
        (None, Some(p)) => AuthMode::Password {
            username: String::new(),
            password: String::from_str(p),
        },
        (None, None) => AuthMode::NoAuth,
    }
}

/// One SOCKS5 CONNECT to perform: through which proxy, to which target, with
/// which authentication.
#[derive(Debug, PartialEq, Eq)]
pub struct ConnectRequest {
    pub proxy_addr: String,
    pub target: TargetAddress,
    pub auth: AuthMode,
}

/// Mathematical value of a [`ConnectRequest`].
pub struct ConnectRequestView {
    pub proxy_addr: Seq<char>,
    pub target: TargetAddressView,
    pub auth: AuthModeView,
}

impl View for ConnectRequest {
    type V = ConnectRequestView;

    open spec fn view(&self) -> ConnectRequestView {
        ConnectRequestView { proxy_addr: self.proxy_addr@, target: self.target@, auth: self.auth@ }
    }
}

/// The request that reaches `target` through the proxy at `proxy_addr` with the
/// credentials given.
pub open spec fn connect_request(
    proxy_addr: Seq<char>,
    target: TargetAddressView,
    username: Option<Seq<char>>,
    password: Option<Seq<char>>,
) -> ConnectRequestView {
    ConnectRequestView { proxy_addr, target, auth: auth_mode_for(username, password) }
}

/// Prepares the CONNECT for `target`. The target is passed on as it is and the
/// authentication follows the credential policy of [`auth_mode`].
pub fn plan_connect(
    proxy_addr: &str,
    target: TargetAddress,
    username: Option<&str>,
    password: Option<&str>,
) -> (request: ConnectRequest)
    ensures
        request@ == connect_request(
            proxy_addr@,
            target@,
            optional_str(username),
            optional_str(password),
        ),
{
    ConnectRequest {
        proxy_addr: String::from_str(proxy_addr),
        target,
        auth: auth_mode(username, password),
    }
}

/// A handshake or transport failure on the way to a target: the proxy was
/// unreachable, rejected the credentials, or refused the target.
#[derive(Debug, PartialEq, Eq)]
pub struct ConnectError {
    pub target: TargetAddress,
    pub cause: String,
}

/// Mathematical value of a [`ConnectError`].
pub struct ConnectErrorView {
    pub target: TargetAddressView,
    pub cause: Seq<char>,
}

impl View for ConnectError {
    type V = ConnectErrorView;

    open spec fn view(&self) -> ConnectErrorView {
        ConnectErrorView { target: self.target@, cause: self.cause@ }
    }
}

impl ConnectErrorView {
    /// The error as one line of text: the name of its kind, the target as
    /// `host:port`, and the cause.
    pub open spec fn message(self) -> Seq<char> {
        "ConnectError: "@ + self.target.text() + ": "@ + self.cause
    }
}

impl ConnectError {
    /// The error as one line of text.
    pub fn message(&self) -> (text: String)
        ensures
            text@ == self@.message(),
    {
        let mut text = String::from_str("ConnectError: ");
        text.append(self.target.text().as_str());
        text.append(": ");
        text.append(self.cause.as_str());
        text
    }
}

/// Authentication is negotiated exactly when a credential is present, and a
/// credential that is present is presented unchanged.
pub proof fn lemma_auth_mode_cases(username: Option<Seq<char>>, password: Option<Seq<char>>)
    ensures
        auth_mode_for(username, password) is NoAuth <==> username is None && password is None,
        auth_mode_for(username, password) matches AuthModeView::Password {
            username: u,
            password: p,
        } ==> {
            &&& username matches Some(name) ==> u == name
            &&& username is None ==> u.len() == 0
            &&& password matches Some(word) ==> p == word
            &&& password is None ==> p.len() == 0
        },
{
}

} // verus!
