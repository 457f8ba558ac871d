//! The life of one accepted connection.
//!
//! A [`Session`] is driven by the outcomes of the work done for it (the
//! resolution, the handshake with the proxy, the relay) and answers each with
//! the next thing to do. It shares nothing with any other session.

use vstd::prelude::*;
use crate::address::{lemma_service_text, strip_root_dot, TargetAddress, TargetAddressView};
use crate::config::{Config, ConfigView};
use crate::connector::{
    auth_mode_for, connect_request, plan_connect, ConnectError, ConnectErrorView, ConnectRequest,
    ConnectRequestView,
};
use crate::resolver::{
    outcome_view, resolve, LookupReplyView, ResolveError, ResolveErrorView,
};

verus! {

/// An I/O failure of the relay after the session was established.
#[derive(Debug, PartialEq, Eq)]
pub struct RelayError {
    pub cause: String,
}

/// Mathematical value of a [`RelayError`].
pub struct RelayErrorView {
    pub cause: Seq<char>,
}

impl View for RelayError {
    type V = RelayErrorView;

    open spec fn view(&self) -> RelayErrorView {
        RelayErrorView { cause: self.cause@ }
    }
}

impl RelayErrorView {
    /// The error as one line of text: the name of its kind, then the cause.
    pub open spec fn message(self) -> Seq<char> {
        "RelayError: "@ + self.cause
    }
}

impl RelayError {
    /// The error as one line of text.
    pub fn message(&self) -> (text: String)
        ensures
            text@ == self@.message(),
    {
        let mut text = String::from_str("RelayError: ");
        text.append(self.cause.as_str());
        text
    }
}

/// Why a connection was abandoned before any byte was relayed.
#[derive(Debug, PartialEq, Eq)]
pub enum SessionError {
    Resolve(ResolveError),
    Connect(ConnectError),
}

/// Mathematical value of a [`SessionError`].
pub enum SessionErrorView {
    Resolve(ResolveErrorView),
    Connect(ConnectErrorView),
}

impl View for SessionError {
    type V = SessionErrorView;

    open spec fn view(&self) -> SessionErrorView {
        match self {
            SessionError::Resolve(error) => SessionErrorView::Resolve(error@),
            SessionError::Connect(error) => SessionErrorView::Connect(error@),
        }
    }
}

impl SessionErrorView {
    /// The error as one line of text: that of the error it holds.
    pub open spec fn message(self) -> Seq<char> {
        match self {
            SessionErrorView::Resolve(error) => error.message(),
            SessionErrorView::Connect(error) => error.message(),
        }
    }
}

impl SessionError {
    /// The error as one line of text.
    pub fn message(&self) -> (text: String)
        ensures
            text@ == self@.message(),
    {
        match self {
            SessionError::Resolve(error) => error.message(),
            SessionError::Connect(error) => error.message(),
        }
    }
}

/// The state of one connection. The resolved target lives in the state only
/// while the connection is being established or relayed.
#[derive(Debug, PartialEq, Eq)]
pub enum Session {
    /// The client socket has just been accepted.
    Accepted,
    /// The target is being resolved.
    Resolving,
    /// The proxy is being asked to connect to `target`.
    Connecting { target: TargetAddress },
    /// Bytes are relayed between the client and `target`.
    Relaying { target: TargetAddress },
    /// The relay is over and both sockets are closed.
    Closed,
    /// The connection was abandoned before a relay began.
    Failed,
}

/// Mathematical value of a [`Session`].
pub enum SessionView {
    Accepted,
    Resolving,
    Connecting { target: TargetAddressView },
    Relaying { target: TargetAddressView },
    Closed,
    Failed,
}

impl View for Session {
    type V = SessionView;

    open spec fn view(&self) -> SessionView {
        match self {
            Session::Accepted => SessionView::Accepted,
            Session::Resolving => SessionView::Resolving,
            Session::Connecting { target } => SessionView::Connecting { target: target@ },
            Session::Relaying { target } => SessionView::Relaying { target: target@ },
            Session::Closed => SessionView::Closed,
            Session::Failed => SessionView::Failed,
        }
    }
}

/// What happened for a connection.
#[derive(Debug, PartialEq, Eq)]
pub enum SessionEvent {
    /// The connection was handed to its own task.
    Begin,
    /// The resolution ended, with a target or an error.
    Resolved(Result<TargetAddress, ResolveError>),
    /// The handshake with the proxy ended, well or with the cause of its failure.
    Connected(Result<(), String>),
    /// The relay ended: a stream reached its end, or I/O failed for the cause given.
    RelayEnded(Result<(), String>),
}

/// Mathematical value of a [`SessionEvent`].
pub enum SessionEventView {
    Begin,
    Resolved(Result<TargetAddressView, ResolveErrorView>),
    Connected(Result<(), Seq<char>>),
    RelayEnded(Result<(), Seq<char>>),
}

/// View of the outcome of a handshake or of a relay.
pub open spec fn ended_view(outcome: Result<(), String>) -> Result<(), Seq<char>> {
    match outcome {
        Ok(_) => Ok(()),
        Err(cause) => Err(cause@),
    }
}

impl View for SessionEvent {
    type V = SessionEventView;

    open spec fn view(&self) -> SessionEventView {
        match self {
            SessionEvent::Begin => SessionEventView::Begin,
            SessionEvent::Resolved(outcome) => SessionEventView::Resolved(outcome_view(*outcome)),
            SessionEvent::Connected(outcome) => SessionEventView::Connected(ended_view(*outcome)),
            SessionEvent::RelayEnded(outcome) => SessionEventView::RelayEnded(
                ended_view(*outcome),
            ),
        }
    }
}

/// What the caller is to do next for a connection.
#[derive(Debug, PartialEq, Eq)]
pub enum SessionAction {
    /// Resolve `domain` and report the result.
    Resolve { domain: String },
    /// Perform this CONNECT through the proxy and report the result.
    Connect(ConnectRequest),
    /// Hand both sockets to a relay towards `target` and report how it ended.
    Relay { target: TargetAddress },
    /// Report the error, close the client socket and give the connection up.
    Abandon(SessionError),
    /// Close both sockets and release the connection, reporting the error if there is one.
    Close(Option<RelayError>),
    /// Nothing: the event does not apply in the state the session is in.
    Ignore,
}

/// Mathematical value of a [`SessionAction`].
pub enum SessionActionView {
    Resolve { domain: Seq<char> },
    Connect(ConnectRequestView),
    Relay { target: TargetAddressView },
    Abandon(SessionErrorView),
    Close(Option<RelayErrorView>),
    Ignore,
}

/// View of an optional relay error.
pub open spec fn relay_error_view(error: Option<RelayError>) -> Option<RelayErrorView> {
    match error {
        Some(e) => Some(e@),
        None => None,
    }
}

impl View for SessionAction {
    type V = SessionActionView;

    open spec fn view(&self) -> SessionActionView {
        match self {
            SessionAction::Resolve { domain } => SessionActionView::Resolve { domain: domain@ },
            SessionAction::Connect(request) => SessionActionView::Connect(request@),
            SessionAction::Relay { target } => SessionActionView::Relay { target: target@ },
            SessionAction::Abandon(error) => SessionActionView::Abandon(error@),
            SessionAction::Close(error) => SessionActionView::Close(relay_error_view(*error)),
            SessionAction::Ignore => SessionActionView::Ignore,
        }
    }
}

/// The transition function of a session: the state after `event` and the
/// action it calls for. An event that does not apply in `state` changes
/// nothing.
pub open spec fn session_step(config: ConfigView, state: SessionView, event: SessionEventView) -> (
    SessionView,
    SessionActionView,
) {
    match (state, event) {
        (SessionView::Accepted, SessionEventView::Begin) => (
            SessionView::Resolving,
            SessionActionView::Resolve { domain: config.domain },
        ),
        (SessionView::Resolving, SessionEventView::Resolved(Ok(target))) => (
            SessionView::Connecting { target },
            SessionActionView::Connect(
                connect_request(config.proxy_addr, target, config.username, config.password),
            ),
        ),
        (SessionView::Resolving, SessionEventView::Resolved(Err(error))) => (
            SessionView::Failed,
            SessionActionView::Abandon(SessionErrorView::Resolve(error)),
        ),
        (SessionView::Connecting { target }, SessionEventView::Connected(Ok(_))) => (
            SessionView::Relaying { target },
            SessionActionView::Relay { target },
        ),
        (SessionView::Connecting { target }, SessionEventView::Connected(Err(cause))) => (
            SessionView::Failed,
            SessionActionView::Abandon(
                SessionErrorView::Connect(ConnectErrorView { target, cause }),
            ),
        ),
        (SessionView::Relaying { target }, SessionEventView::RelayEnded(Ok(_))) => (
            SessionView::Closed,
            SessionActionView::Close(None),
        ),
        (SessionView::Relaying { target }, SessionEventView::RelayEnded(Err(cause))) => (
            SessionView::Closed,
            SessionActionView::Close(Some(RelayErrorView { cause })),
        ),
        _ => (state, SessionActionView::Ignore),
    }
}

impl Session {
    /// The session of a socket that has just been accepted.
    pub fn accepted() -> (session: Session)
        ensures
            session@ == SessionView::Accepted,
    {
        Session::Accepted
    }

    /// Whether the session is over, closed or failed.
    pub fn is_over(&self) -> (over: bool)
        ensures
            over == (self@ is Closed || self@ is Failed),
    {
        match self {
            Session::Closed => true,
            Session::Failed => true,
            _ => false,
        }
    }

    /// Takes what happened and says what to do next.
    ///
    /// A session resolves, then connects, then relays. An error of the
    /// resolution or of the handshake abandons the connection; nothing is
    /// tried again. However the relay ends, the session closes. An event that
    /// does not apply in the present state is ignored.
    pub fn step(self, config: &Config, event: SessionEvent) -> (next: (Session, SessionAction))
        ensures
            (next.0@, next.1@) == session_step(config@, self@, event@),
    {
        match self {
            Session::Accepted => match event {
                SessionEvent::Begin => {
                    let domain = String::from_str(config.domain());
                    (Session::Resolving, SessionAction::Resolve { domain })
                },
                _ => (Session::Accepted, SessionAction::Ignore),
            },
            Session::Resolving => match event {
                SessionEvent::Resolved(Ok(target)) => {
                    let request = plan_connect(
                        config.proxy_addr(),
                        target.clone(),
                        config.username(),
                        config.password(),
                    );
                    (Session::Connecting { target }, SessionAction::Connect(request))
                },
                SessionEvent::Resolved(Err(error)) => (
                    Session::Failed,
                    SessionAction::Abandon(SessionError::Resolve(error)),
                ),
                _ => (Session::Resolving, SessionAction::Ignore),
            },
            Session::Connecting { target } => match event {
                SessionEvent::Connected(Ok(_)) => {
                    let relayed = target.clone();
                    (Session::Relaying { target }, SessionAction::Relay { target: relayed })
                },
                SessionEvent::Connected(Err(cause)) => (
                    Session::Failed,
                    SessionAction::Abandon(SessionError::Connect(ConnectError { target, cause })),
                ),
                _ => (Session::Connecting { target }, SessionAction::Ignore),
            },
            Session::Relaying { target } => match event {
                SessionEvent::RelayEnded(Ok(_)) => (Session::Closed, SessionAction::Close(None)),
                SessionEvent::RelayEnded(Err(cause)) => (
                    Session::Closed,
                    SessionAction::Close(Some(RelayError { cause })),
                ),
                _ => (Session::Relaying { target }, SessionAction::Ignore),
            },
            Session::Closed => (Session::Closed, SessionAction::Ignore),
            Session::Failed => (Session::Failed, SessionAction::Ignore),
        }
    }
}

/// How far along its life a session is: the stages follow one another in
/// this order, and both ways of ending come last.
pub open spec fn stage(state: SessionView) -> nat {
    match state {
        SessionView::Accepted => 0,
        SessionView::Resolving => 1,
        SessionView::Connecting { .. } => 2,
        SessionView::Relaying { .. } => 3,
        SessionView::Closed => 4,
        SessionView::Failed => 4,
    }
}

/// The state of a session that began in `start` after `events`, taken in order.
pub open spec fn session_after(
    config: ConfigView,
    start: SessionView,
    events: Seq<SessionEventView>,
) -> SessionView
    decreases events.len(),
{
    if events.len() == 0 {
        start
    } else {
        session_step(config, session_after(config, start, events.drop_last()), events.last()).0
    }
}

/// The actions that a session that began in `start` called for on `events`,
/// one for each event.
pub open spec fn session_actions(
    config: ConfigView,
    start: SessionView,
    events: Seq<SessionEventView>,
) -> Seq<SessionActionView>
    decreases events.len(),
{
    if events.len() == 0 {
        Seq::empty()
    } else {
        session_actions(config, start, events.drop_last()).push(
            session_step(
                config,
                session_after(config, start, events.drop_last()),
                events.last(),
            ).1,
        )
    }
}

/// A session never goes back: no event takes it to an earlier stage, and an
/// event that is ignored leaves it where it is.
pub proof fn lemma_step_advances(config: ConfigView, state: SessionView, event: SessionEventView)
    ensures
        stage(session_step(config, state, event).0) >= stage(state),
        session_step(config, state, event).1 is Ignore ==> session_step(config, state, event).0
            == state,
        !(session_step(config, state, event).1 is Ignore) ==> stage(
            session_step(config, state, event).0,
        ) > stage(state),
{
}

/// Within a session the resolution comes before the CONNECT and the CONNECT
/// before the relay: each is called for in one state only, and the target
/// that was resolved is the one connected to and the one relayed to.
pub proof fn lemma_step_order(config: ConfigView, state: SessionView, event: SessionEventView)
    ensures
        session_step(config, state, event).1 is Resolve ==> state is Accepted && session_step(
            config,
            state,
            event,
        ).0 is Resolving,
        session_step(config, state, event).1 matches SessionActionView::Connect(request) ==> {
            &&& state is Resolving
            &&& event == SessionEventView::Resolved(Ok(request.target))
            &&& session_step(config, state, event).0 == (SessionView::Connecting {
                target: request.target,
            })
            &&& request.proxy_addr == config.proxy_addr
        },
        session_step(config, state, event).1 matches SessionActionView::Relay { target } ==> {
            &&& state == (SessionView::Connecting { target })
            &&& session_step(config, state, event).0 == (SessionView::Relaying { target })
        },
{
    if let SessionActionView::Connect(request) = session_step(config, state, event).1 {
        if let SessionEventView::Resolved(Ok(target)) = event {
            assert(request.target == target);
        }
    }
}

/// A session fails only while it resolves or connects. Once the relay has
/// begun it can only go on or close, whatever the relay reports.
pub proof fn lemma_failure_origin(config: ConfigView, state: SessionView, event: SessionEventView)
    ensures
        session_step(config, state, event).0 is Failed ==> state is Resolving || state is Connecting
            || state is Failed,
        state is Relaying ==> session_step(config, state, event).0 == state || session_step(
            config,
            state,
            event,
        ).0 is Closed,
        state is Relaying && event is RelayEnded ==> session_step(config, state, event).0 is Closed,
{
}

/// A session that is closed or failed stays so: every later event is ignored.
/// In particular nothing is tried again.
pub proof fn lemma_over_is_final(
    config: ConfigView,
    state: SessionView,
    events: Seq<SessionEventView>,
)
    requires
        state is Closed || state is Failed,
    ensures
        session_after(config, state, events) == state,
        session_actions(config, state, events).len() == events.len(),
        forall|i: int|
            0 <= i < events.len() ==> #[trigger] session_actions(config, state, events)[i]
                is Ignore,
    decreases events.len(),
{
    if events.len() > 0 {
        lemma_over_is_final(config, state, events.drop_last());
    }
}

/// A resolution that fails abandons the connection for good: the error is
/// reported, and whatever is delivered afterwards, no CONNECT and no relay is
/// ever called for.
pub proof fn lemma_unresolved_never_connects(
    config: ConfigView,
    error: ResolveErrorView,
    later: Seq<SessionEventView>,
)
    ensures
        session_step(config, SessionView::Resolving, SessionEventView::Resolved(Err(error))) == (
            SessionView::Failed,
            SessionActionView::Abandon(SessionErrorView::Resolve(error)),
        ),
        session_after(config, SessionView::Failed, later) is Failed,
        forall|i: int|
            0 <= i < later.len() ==> #[trigger] session_actions(config, SessionView::Failed, later)[i]
                is Ignore,
{
    lemma_over_is_final(config, SessionView::Failed, later);
}

/// A handshake that fails abandons the connection for good, with an error
/// that carries the target and the cause.
pub proof fn lemma_refused_never_relays(
    config: ConfigView,
    target: TargetAddressView,
    cause: Seq<char>,
    later: Seq<SessionEventView>,
)
    ensures
        session_step(
            config,
            SessionView::Connecting { target },
            SessionEventView::Connected(Err(cause)),
        ) == (
            SessionView::Failed,
            SessionActionView::Abandon(
                SessionErrorView::Connect(ConnectErrorView { target, cause }),
            ),
        ),
        session_after(config, SessionView::Failed, later) is Failed,
        forall|i: int|
            0 <= i < later.len() ==> #[trigger] session_actions(config, SessionView::Failed, later)[i]
                is Ignore,
{
    lemma_over_is_final(config, SessionView::Failed, later);
}

/// A domain that resolves is dialed: the session asks for one CONNECT,
/// through the configured proxy, to the very target that the resolution
/// yielded, with the authentication that the configured credentials call for.
/// Where the SRV lookup found a record, that target reads as the first
/// record's host without its root label, followed by `:25565`.
pub proof fn lemma_resolved_target_is_dialed(
    config: ConfigView,
    srv: LookupReplyView,
    a: LookupReplyView,
)
    requires
        resolve(config.domain, srv, a) is Ok,
    ensures
        session_step(
            config,
            SessionView::Resolving,
            SessionEventView::Resolved(resolve(config.domain, srv, a)),
        ) == (
            SessionView::Connecting { target: resolve(config.domain, srv, a)->Ok_0 },
            SessionActionView::Connect(
                ConnectRequestView {
                    proxy_addr: config.proxy_addr,
                    target: resolve(config.domain, srv, a)->Ok_0,
                    auth: auth_mode_for(config.username, config.password),
                },
            ),
        ),
        srv matches LookupReplyView::Records(targets) ==> (targets.len() > 0 ==> resolve(
            config.domain,
            srv,
            a,
        )->Ok_0.text() == strip_root_dot(targets[0]) + ":25565"@),
{
    if let LookupReplyView::Records(targets) = srv {
        if targets.len() > 0 {
            lemma_service_text(strip_root_dot(targets[0]));
        }
    }
}

/// A domain with neither an SRV record nor an A record is never dialed: the
/// session fails with `NoRecordFound` for the configured domain, and no
/// CONNECT and no relay is called for, then or later.
pub proof fn lemma_no_record_no_connect(config: ConfigView, later: Seq<SessionEventView>)
    ensures
        session_step(
            config,
            SessionView::Resolving,
            SessionEventView::Resolved(
                resolve(
                    config.domain,
                    LookupReplyView::Records(Seq::empty()),
                    LookupReplyView::Records(Seq::empty()),
                ),
            ),
        ) == (
            SessionView::Failed,
            SessionActionView::Abandon(
                SessionErrorView::Resolve(
                    ResolveErrorView::NoRecordFound { domain: config.domain },
                ),
            ),
        ),
        session_after(config, SessionView::Failed, later) is Failed,
        forall|i: int|
            0 <= i < later.len() ==> #[trigger] session_actions(config, SessionView::Failed, later)[i]
                is Ignore,
{
    lemma_over_is_final(config, SessionView::Failed, later);
}

} // verus!
