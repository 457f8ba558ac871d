//! The accept loop: what the listening socket's outcomes mean for the process.
//!
//! Connections are handed to tasks of their own and report nothing back, so
//! the only events here are those of the listening socket itself.

use vstd::prelude::*;

verus! {

/// A failure of the listening socket. It ends the process: without a listener
/// there is nothing left to do.
#[derive(Debug, PartialEq, Eq)]
pub enum ListenerFatalError {
    /// The listening socket could not be bound.
    Bind { cause: String },
    /// Accepting a connection failed.
    Accept { cause: String },
}

/// Mathematical value of a [`ListenerFatalError`].
pub enum ListenerFatalErrorView {
    Bind { cause: Seq<char> },
    Accept { cause: Seq<char> },
}

impl View for ListenerFatalError {
    type V = ListenerFatalErrorView;

    open spec fn view(&self) -> ListenerFatalErrorView {
        match self {
            ListenerFatalError::Bind { cause } => ListenerFatalErrorView::Bind { cause: cause@ },
            ListenerFatalError::Accept { cause } => ListenerFatalErrorView::Accept {
                cause: cause@,
            },
        }
    }
}

impl ListenerFatalErrorView {
    /// The error as one line of text: the name of its kind, what failed, and
    /// the cause.
    pub open spec fn message(self) -> Seq<char> {
        match self {
            ListenerFatalErrorView::Bind { cause } => "ListenerFatalError: cannot bind: "@ + cause,
            ListenerFatalErrorView::Accept { cause } => "ListenerFatalError: cannot accept: "@
                + cause,
        }
    }
}

impl ListenerFatalError {
    /// The error as one line of text.
    pub fn message(&self) -> (text: String)
        ensures
            text@ == self@.message(),
    {
        match self {
            ListenerFatalError::Bind { cause } => {
                let mut text = String::from_str("ListenerFatalError: cannot bind: ");
                text.append(cause.as_str());
                text
            },
            ListenerFatalError::Accept { cause } => {
                let mut text = String::from_str("ListenerFatalError: cannot accept: ");
                text.append(cause.as_str());
                text
            },
        }
    }
}

/// The state of the accept loop.
#[derive(Debug, Clone, Copy, PartialEq, Eq, Structural)]
pub enum Listener {
    /// The listening socket is being bound.
    Binding,
    /// Connections are being accepted.
    Listening,
    /// The listening socket failed and the loop is over.
    Stopped,
}

/// What happened on the listening socket.
#[derive(Debug, PartialEq, Eq)]
pub enum ListenerEvent {
    /// The socket is bound.
    Bound,
    /// The socket could not be bound, for the cause given.
    BindFailed(String),
    /// A client connected.
    Accepted,
    /// Accepting failed, for the cause given.
    AcceptFailed(String),
}

/// Mathematical value of a [`ListenerEvent`].
pub enum ListenerEventView {
    Bound,
    BindFailed(Seq<char>),
    Accepted,
    AcceptFailed(Seq<char>),
}

impl View for ListenerEvent {
    type V = ListenerEventView;

    open spec fn view(&self) -> ListenerEventView {
        match self {
            ListenerEvent::Bound => ListenerEventView::Bound,
            ListenerEvent::BindFailed(cause) => ListenerEventView::BindFailed(cause@),
            ListenerEvent::Accepted => ListenerEventView::Accepted,
            ListenerEvent::AcceptFailed(cause) => ListenerEventView::AcceptFailed(cause@),
        }
    }
}

/// What the accept loop is to do next.
#[derive(Debug, PartialEq, Eq)]
pub enum ListenerAction {
    /// Wait for the next client.
    Accept,
    /// Start a session of its own for the client that connected, and wait for
    /// the next client without waiting for that session.
    Dispatch,
    /// Leave the loop and end the process with this error.
    Terminate(ListenerFatalError),
    /// Nothing: the event does not apply in the state the loop is in.
    Ignore,
}

/// Mathematical value of a [`ListenerAction`].
pub enum ListenerActionView {
    Accept,
    Dispatch,
    Terminate(ListenerFatalErrorView),
    Ignore,
}

impl View for ListenerAction {
    type V = ListenerActionView;

    open spec fn view(&self) -> ListenerActionView {
        match self {
            ListenerAction::Accept => ListenerActionView::Accept,
            ListenerAction::Dispatch => ListenerActionView::Dispatch,
            ListenerAction::Terminate(error) => ListenerActionView::Terminate(error@),
            ListenerAction::Ignore => ListenerActionView::Ignore,
        }
    }
}

/// The transition function of the accept loop. Only a failure to bind or to
/// accept stops it.
pub open spec fn listener_step(state: Listener, event: ListenerEventView) -> (
    Listener,
    ListenerActionView,
) {
    match (state, event) {
        (Listener::Binding, ListenerEventView::Bound) => (
            Listener::Listening,
            ListenerActionView::Accept,
        ),
        (Listener::Binding, ListenerEventView::BindFailed(cause)) => (
            Listener::Stopped,
            ListenerActionView::Terminate(ListenerFatalErrorView::Bind { cause }),
        ),
        (Listener::Listening, ListenerEventView::Accepted) => (
            Listener::Listening,
            ListenerActionView::Dispatch,
        ),
        (Listener::Listening, ListenerEventView::AcceptFailed(cause)) => (
            Listener::Stopped,
            ListenerActionView::Terminate(ListenerFatalErrorView::Accept { cause }),
        ),
        _ => (state, ListenerActionView::Ignore),
    }
}

impl Listener {
    /// The accept loop before its socket is bound.
    pub fn new() -> (listener: Listener)
        ensures
            listener == Listener::Binding,
    {
        Listener::Binding
    }

    /// Takes what happened on the listening socket and says what to do next.
    pub fn step(self, event: ListenerEvent) -> (next: (Listener, ListenerAction))
        ensures
            (next.0, next.1@) == listener_step(self, event@),
    {
        match self {
            Listener::Binding => match event {
                ListenerEvent::Bound => (Listener::Listening, ListenerAction::Accept),
                ListenerEvent::BindFailed(cause) => (
                    Listener::Stopped,
                    ListenerAction::Terminate(ListenerFatalError::Bind { cause }),
                ),
                _ => (Listener::Binding, ListenerAction::Ignore),
            },
            Listener::Listening => match event {
                ListenerEvent::Accepted => (Listener::Listening, ListenerAction::Dispatch),
                ListenerEvent::AcceptFailed(cause) => (
                    Listener::Stopped,
                    ListenerAction::Terminate(ListenerFatalError::Accept { cause }),
                ),
                _ => (Listener::Listening, ListenerAction::Ignore),
            },
            Listener::Stopped => (Listener::Stopped, ListenerAction::Ignore),
        }
    }
}

/// The accept loop stops exactly on a failure of its own socket, and then
/// with the error that names the failure.
pub proof fn lemma_listener_stops_on_socket_failure(state: Listener, event: ListenerEventView)
    ensures
        state != Listener::Stopped && listener_step(state, event).0 == Listener::Stopped <==> (state
            == Listener::Binding && event is BindFailed) || (state == Listener::Listening
            && event is AcceptFailed),
        listener_step(state, event).1 is Terminate <==> state != Listener::Stopped
            && listener_step(state, event).0 == Listener::Stopped,
        state == Listener::Stopped ==> listener_step(state, event) == (
            Listener::Stopped,
            ListenerActionView::Ignore,
        ),
{
}

} // verus!
