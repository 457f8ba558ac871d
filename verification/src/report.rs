//! The lines that the proxy reports: one when it starts, one for each
//! connection that is forwarded, one for each failure.
//!
//! Printing is left to the caller. A client is named by its address, where
//! that is known.

use vstd::prelude::*;
use crate::address::{TargetAddress, TargetAddressView};
use crate::config::{optional_str, Config, ConfigView};
use crate::session::{RelayError, SessionError};

verus! {

/// How a client is named in a report: by its address, or as unknown.
pub open spec fn client_name(client: Option<Seq<char>>) -> Seq<char> {
    match client {
        Some(address) => address,
        None => "unknown"@,
    }
}

/// The text of a flag.
pub open spec fn flag_text(flag: bool) -> Seq<char> {
    if flag {
        "true"@
    } else {
        "false"@
    }
}

/// The line reported once the listening socket is bound at `local_addr`.
pub open spec fn startup_line(local_addr: Seq<char>, config: ConfigView) -> Seq<char> {
    "Forwarding from "@ + local_addr + " to "@ + config.domain + " through proxy "@
        + config.proxy_addr + " (auth: "@ + flag_text(config.uses_auth()) + ")"@
}

/// The line reported when a client is forwarded to `target`.
pub open spec fn forwarding_line(client: Option<Seq<char>>, target: TargetAddressView) -> Seq<
    char,
> {
    "Forwarding client "@ + client_name(client) + " to "@ + target.text() + "..."@
}

/// The line reported when a client's connection fails, for the reason that
/// `message` gives.
pub open spec fn failure_line(client: Option<Seq<char>>, message: Seq<char>) -> Seq<char> {
    "Client "@ + client_name(client) + ": "@ + message
}

fn name_of(client: Option<&str>) -> (name: &str)
    ensures
        name@ == client_name(optional_str(client)),
{
    match client {
        Some(address) => address,
        None => "unknown",
    }
}

/// The line to report at startup: where clients are accepted, which domain
/// they are forwarded to, through which proxy, and whether credentials are
/// configured.
pub fn startup_notice(local_addr: &str, config: &Config) -> (line: String)
    ensures
        line@ == startup_line(local_addr@, config@),
{
    let mut line = String::from_str("Forwarding from ");
    line.append(local_addr);
    line.append(" to ");
    line.append(config.domain());
    line.append(" through proxy ");
    line.append(config.proxy_addr());
    line.append(" (auth: ");
    line.append(if config.uses_auth() { "true" } else { "false" });
    line.append(")");
    line
}

/// The line to report when a client is forwarded: the client and the target
/// that was resolved for it.
pub fn forwarding_notice(client: Option<&str>, target: &TargetAddress) -> (line: String)
    ensures
        line@ == forwarding_line(optional_str(client), target@),
{
    let mut line = String::from_str("Forwarding client ");
    line.append(name_of(client));
    line.append(" to ");
    line.append(target.text().as_str());
    line.append("...");
    line
}

fn failure_notice(client: Option<&str>, message: &str) -> (line: String)
    ensures
        line@ == failure_line(optional_str(client), message@),
{
    let mut line = String::from_str("Client ");
    line.append(name_of(client));
    line.append(": ");
    line.append(message);
    line
}

/// The line to report when a connection is abandoned: the client and the
/// error, with its cause.
pub fn abandon_notice(client: Option<&str>, error: &SessionError) -> (line: String)
    ensures
        line@ == failure_line(optional_str(client), error@.message()),
{
    failure_notice(client, error.message().as_str())
}

/// The line to report when a relay ends with an error: the client and the
/// error, with its cause.
pub fn relay_failure_notice(client: Option<&str>, error: &RelayError) -> (line: String)
    ensures
        line@ == failure_line(optional_str(client), error@.message()),
{
    failure_notice(client, error.message().as_str())
}

} // verus!
