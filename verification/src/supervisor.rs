//! The proxy as a whole: one accept loop and the sessions it has dispatched.
//!
//! This module holds no executable code. It composes the transition functions
//! of the accept loop and of the sessions into a model of the running process
//! and states what holds of every run: sessions do not affect one another,
//! and none of them can stop the accept loop.

use vstd::prelude::*;
use crate::config::ConfigView;
use crate::listener::{listener_step, Listener, ListenerActionView, ListenerEventView};
use crate::session::{session_after, session_step, SessionEventView, SessionView};

verus! {

/// The running process: the accept loop and every session dispatched so far,
/// in the order in which their clients connected.
pub struct ProxyView {
    pub listener: Listener,
    pub sessions: Seq<SessionView>,
}

/// Something that happens in the running process.
pub enum ProxyEventView {
    /// An event of the listening socket.
    Socket(ListenerEventView),
    /// An event of the session with number `session`.
    Session { session: int, event: SessionEventView },
}

/// The state in which a session is dispatched: it has begun and resolves.
pub open spec fn dispatched(config: ConfigView) -> SessionView {
    session_step(config, SessionView::Accepted, SessionEventView::Begin).0
}

/// The process before its socket is bound.
pub open spec fn proxy_start() -> ProxyView {
    ProxyView { listener: Listener::Binding, sessions: Seq::empty() }
}

/// One step of the process. A socket event moves the accept loop, and adds a
/// session when the loop dispatches one. A session event moves that session
/// and nothing else; one for a session that does not exist changes nothing.
pub open spec fn proxy_step(config: ConfigView, proxy: ProxyView, event: ProxyEventView) -> ProxyView {
    match event {
        ProxyEventView::Socket(socket_event) => {
            let (listener, action) = listener_step(proxy.listener, socket_event);
            ProxyView {
                listener,
                sessions: if action is Dispatch {
                    proxy.sessions.push(dispatched(config))
                } else {
                    proxy.sessions
                },
            }
        },
        ProxyEventView::Session { session, event } => {
            if 0 <= session < proxy.sessions.len() {
                ProxyView {
                    listener: proxy.listener,
                    sessions: proxy.sessions.update(
                        session,
                        session_step(config, proxy.sessions[session], event).0,
                    ),
                }
            } else {
                proxy
            }
        },
    }
}

/// The process after `events`, taken in order.
pub open spec fn proxy_after(
    config: ConfigView,
    proxy: ProxyView,
    events: Seq<ProxyEventView>,
) -> ProxyView
    decreases events.len(),
{
    if events.len() == 0 {
        proxy
    } else {
        proxy_step(config, proxy_after(config, proxy, events.drop_last()), events.last())
    }
}

/// The events among `events` that belong to the session with number
/// `session`, in order.
pub open spec fn events_of(session: int, events: Seq<ProxyEventView>) -> Seq<SessionEventView>
    decreases events.len(),
{
    if events.len() == 0 {
        Seq::empty()
    } else {
        match events.last() {
            ProxyEventView::Session { session: s, event } => if s == session {
                events_of(session, events.drop_last()).push(event)
            } else {
                events_of(session, events.drop_last())
            },
            ProxyEventView::Socket(_) => events_of(session, events.drop_last()),
        }
    }
}

/// Whether no event among `events` is a failure of the listening socket.
pub open spec fn socket_holds(events: Seq<ProxyEventView>) -> bool {
    forall|i: int|
        0 <= i < events.len() ==> !(#[trigger] events[i] matches ProxyEventView::Socket(e) && (e
            is BindFailed || e is AcceptFailed))
}

/// An event of one session leaves the accept loop and every other session as
/// they were, and neither adds nor removes a session.
pub proof fn lemma_session_event_is_local(
    config: ConfigView,
    proxy: ProxyView,
    session: int,
    event: SessionEventView,
)
    ensures
        proxy_step(config, proxy, ProxyEventView::Session { session, event }).listener
            == proxy.listener,
        proxy_step(config, proxy, ProxyEventView::Session { session, event }).sessions.len()
            == proxy.sessions.len(),
        forall|other: int|
            0 <= other < proxy.sessions.len() && other != session ==> proxy_step(
                config,
                proxy,
                ProxyEventView::Session { session, event },
            ).sessions[other] == proxy.sessions[other],
{
}

/// Sessions are never removed and never renumbered.
pub proof fn lemma_sessions_stay(config: ConfigView, proxy: ProxyView, events: Seq<ProxyEventView>)
    ensures
        proxy_after(config, proxy, events).sessions.len() >= proxy.sessions.len(),
    decreases events.len(),
{
    if events.len() > 0 {
        lemma_sessions_stay(config, proxy, events.drop_last());
    }
}

/// What becomes of a session depends on its own events alone. Whatever
/// happens meanwhile to the listening socket and to the other sessions, a
/// failure of theirs included, the session ends up where its own events,
/// taken by themselves, lead it.
pub proof fn lemma_sessions_are_isolated(
    config: ConfigView,
    proxy: ProxyView,
    session: int,
    events: Seq<ProxyEventView>,
)
    requires
        0 <= session < proxy.sessions.len(),
    ensures
        session < proxy_after(config, proxy, events).sessions.len(),
        proxy_after(config, proxy, events).sessions[session] == session_after(
            config,
            proxy.sessions[session],
            events_of(session, events),
        ),
    decreases events.len(),
{
    if events.len() > 0 {
        let earlier = events.drop_last();
        lemma_sessions_are_isolated(config, proxy, session, earlier);
        let before = proxy_after(config, proxy, earlier);
        match events.last() {
            ProxyEventView::Session { session: s, event } => {
                if s == session {
                    let own = events_of(session, earlier);
                    assert(events_of(session, events) == own.push(event));
                    assert(own.push(event).drop_last() =~= own);
                    assert(own.push(event).last() == event);
                }
            },
            ProxyEventView::Socket(_) => {},
        }
    }
}

/// No session can stop the accept loop. As long as the listening socket
/// itself does not fail, a loop that accepts goes on accepting, however many
/// sessions fail meanwhile, and dispatches the next client that connects.
pub proof fn lemma_listener_outlives_sessions(
    config: ConfigView,
    proxy: ProxyView,
    events: Seq<ProxyEventView>,
)
    requires
        proxy.listener == Listener::Listening,
        socket_holds(events),
    ensures
        proxy_after(config, proxy, events).listener == Listener::Listening,
        listener_step(proxy_after(config, proxy, events).listener, ListenerEventView::Accepted)
            == (Listener::Listening, ListenerActionView::Dispatch),
    decreases events.len(),
{
    if events.len() > 0 {
        let earlier = events.drop_last();
        assert forall|i: int| 0 <= i < earlier.len() implies !(#[trigger] earlier[i]
            matches ProxyEventView::Socket(e) && (e is BindFailed || e is AcceptFailed)) by {
            assert(earlier[i] == events[i]);
        }
        lemma_listener_outlives_sessions(config, proxy, earlier);
        assert(events.last() == events[events.len() - 1]);
    }
}

/// Every client that connects while the loop accepts gets a session of its
/// own, which starts by resolving the configured domain.
pub proof fn lemma_accept_dispatches(config: ConfigView, proxy: ProxyView)
    requires
        proxy.listener == Listener::Listening,
    ensures
        proxy_step(config, proxy, ProxyEventView::Socket(ListenerEventView::Accepted))
            == (ProxyView {
            listener: Listener::Listening,
            sessions: proxy.sessions.push(SessionView::Resolving),
        }),
{
}

} // verus!
