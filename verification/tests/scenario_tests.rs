use mc_forward::address::TargetAddress;
use mc_forward::config::Config;
use mc_forward::connector::{AuthMode, ConnectRequest};
use mc_forward::listener::{Listener, ListenerAction, ListenerEvent};
use mc_forward::resolver::{LookupReply, Progress, Query, Resolution, ResolveError};
use mc_forward::session::{Session, SessionAction, SessionError, SessionEvent};

/// A zone as a resolver would answer for it: SRV targets and A addresses.
struct Zone {
    srv: Vec<String>,
    a: Vec<String>,
    broken: bool,
}

fn zone(srv: &[&str], a: &[&str]) -> Zone {
    Zone {
        srv: srv.iter().map(|s| s.to_string()).collect(),
        a: a.iter().map(|s| s.to_string()).collect(),
        broken: false,
    }
}

/// Runs a whole resolution against a zone and records the queries issued.
fn resolve(domain: &str, zone: &Zone, asked: &mut Vec<Query>) -> Result<TargetAddress, ResolveError> {
    let (mut resolution, mut query) = Resolution::start(domain.to_string());
    loop {
        let reply = if zone.broken {
            LookupReply::Failed("no resolver reachable".to_string())
        } else {
            match &query {
                Query::Srv { .. } => LookupReply::Records(zone.srv.clone()),
                Query::A { .. } => LookupReply::Records(zone.a.clone()),
            }
        };
        asked.push(query);
        match resolution.advance(reply) {
            Some(Progress::Ask(next)) => query = next,
            Some(Progress::Done(outcome)) => return outcome,
            None => unreachable!(),
        }
    }
}

/// A proxy that accepts one pair of credentials, or anyone if it has none.
struct Proxy {
    credentials: Option<(String, String)>,
    requests: Vec<ConnectRequest>,
}

impl Proxy {
    fn connect(&mut self, request: ConnectRequest) -> Result<(), String> {
        let accepted = match (&self.credentials, &request.auth) {
            (None, _) => true,
            (Some((u, p)), AuthMode::Password { username, password }) => {
                u == username && p == password
            }
            (Some(_), AuthMode::NoAuth) => false,
        };
        self.requests.push(request);
        if accepted {
            Ok(())
        } else {
            Err("password authentication failed".to_string())
        }
    }
}

/// Drives one session to its end; the relay hands `payload` through unchanged.
fn run_session(
    config: &Config,
    zone: &Zone,
    proxy: &mut Proxy,
    payload: &[u8],
) -> (Session, Vec<SessionAction>, Vec<u8>) {
    let mut log = Vec::new();
    let mut upstream = Vec::new();
    let mut asked = Vec::new();
    let mut session = Session::accepted();
    let mut event = SessionEvent::Begin;
    loop {
        let (next, action) = session.step(config, event);
        session = next;
        event = match &action {
            SessionAction::Resolve { domain } => {
                SessionEvent::Resolved(resolve(domain, zone, &mut asked))
            }
            SessionAction::Connect(request) => {
                let request = ConnectRequest {
                    proxy_addr: request.proxy_addr.clone(),
                    target: request.target.clone(),
                    auth: match &request.auth {
                        AuthMode::NoAuth => AuthMode::NoAuth,
                        AuthMode::Password { username, password } => AuthMode::Password {
                            username: username.clone(),
                            password: password.clone(),
                        },
                    },
                };
                SessionEvent::Connected(proxy.connect(request))
            }
            SessionAction::Relay { .. } => {
                upstream.extend_from_slice(payload);
                SessionEvent::RelayEnded(Ok(()))
            }
            SessionAction::Abandon(_) | SessionAction::Close(_) | SessionAction::Ignore => {
                log.push(action);
                return (session, log, upstream);
            }
        };
        log.push(action);
    }
}

fn config(password: Option<&str>) -> Config {
    Config::new(
        "example.org".to_string(),
        "127.0.0.1:1080".to_string(),
        password.map(|_| "alice".to_string()),
        password.map(|s| s.to_string()),
    )
}

#[test]
fn srv_target_reaches_the_proxy_and_bytes_pass() {
    let mut proxy = Proxy { credentials: None, requests: Vec::new() };
    let zone = zone(&["target.example."], &["203.0.113.7"]);
    let (session, log, upstream) = run_session(&config(None), &zone, &mut proxy, b"ping");
    assert_eq!(session, Session::Closed);
    assert_eq!(proxy.requests.len(), 1);
    assert_eq!(proxy.requests[0].target.text(), "target.example:25565");
    assert_eq!(proxy.requests[0].proxy_addr, "127.0.0.1:1080");
    assert_eq!(proxy.requests[0].auth, AuthMode::NoAuth);
    assert_eq!(upstream, b"ping");
    assert_eq!(log.len(), 4);
    assert_eq!(log[0], SessionAction::Resolve { domain: "example.org".to_string() });
    assert!(matches!(log[1], SessionAction::Connect(_)));
    assert_eq!(
        log[2],
        SessionAction::Relay {
            target: TargetAddress { host: "target.example".to_string(), port: 25565 }
        }
    );
    assert_eq!(log[3], SessionAction::Close(None));
}

#[test]
fn srv_record_spares_the_a_query() {
    let mut asked = Vec::new();
    let outcome = resolve("example.org", &zone(&["target.example."], &["203.0.113.7"]), &mut asked);
    assert_eq!(outcome, Ok(TargetAddress { host: "target.example".to_string(), port: 25565 }));
    assert_eq!(asked, vec![Query::Srv { name: "_minecraft._tcp.example.org".to_string() }]);
}

#[test]
fn a_record_serves_when_there_is_no_srv_record() {
    let mut asked = Vec::new();
    let outcome = resolve("example.org", &zone(&[], &["203.0.113.7"]), &mut asked);
    assert_eq!(outcome, Ok(TargetAddress { host: "203.0.113.7".to_string(), port: 25565 }));
    assert_eq!(
        asked,
        vec![
            Query::Srv { name: "_minecraft._tcp.example.org".to_string() },
            Query::A { name: "example.org".to_string() },
        ]
    );
}

#[test]
fn no_record_is_reported_and_the_listener_goes_on() {
    let mut proxy = Proxy { credentials: None, requests: Vec::new() };
    let (listener, action) = Listener::new().step(ListenerEvent::Bound);
    assert_eq!(action, ListenerAction::Accept);
    let (listener, action) = listener.step(ListenerEvent::Accepted);
    assert_eq!(action, ListenerAction::Dispatch);
    let (session, log, upstream) = run_session(&config(None), &zone(&[], &[]), &mut proxy, b"ping");
    assert_eq!(session, Session::Failed);
    assert_eq!(
        log,
        vec![
            SessionAction::Resolve { domain: "example.org".to_string() },
            SessionAction::Abandon(SessionError::Resolve(ResolveError::NoRecordFound {
                domain: "example.org".to_string()
            })),
        ]
    );
    assert!(proxy.requests.is_empty());
    assert!(upstream.is_empty());
    assert_eq!(listener, Listener::Listening);
    let (listener, action) = listener.step(ListenerEvent::Accepted);
    assert_eq!((listener, action), (Listener::Listening, ListenerAction::Dispatch));
}

#[test]
fn rejected_password_is_a_connect_error_and_the_listener_goes_on() {
    let mut proxy = Proxy {
        credentials: Some(("alice".to_string(), "right".to_string())),
        requests: Vec::new(),
    };
    let (listener, _) = Listener::new().step(ListenerEvent::Bound);
    let (listener, _) = listener.step(ListenerEvent::Accepted);
    let zone = zone(&["target.example."], &[]);
    let (session, log, upstream) = run_session(&config(Some("wrong")), &zone, &mut proxy, b"ping");
    assert_eq!(session, Session::Failed);
    assert_eq!(log.len(), 3);
    match &log[2] {
        SessionAction::Abandon(SessionError::Connect(error)) => {
            assert_eq!(error.target.text(), "target.example:25565");
            assert_eq!(error.cause, "password authentication failed");
        }
        other => panic!("unexpected action: {:?}", other),
    }
    assert_eq!(proxy.requests.len(), 1);
    assert!(upstream.is_empty());
    let (listener, action) = listener.step(ListenerEvent::Accepted);
    assert_eq!((listener, action), (Listener::Listening, ListenerAction::Dispatch));
}

#[test]
fn right_password_is_accepted() {
    let mut proxy = Proxy {
        credentials: Some(("alice".to_string(), "right".to_string())),
        requests: Vec::new(),
    };
    let zone = zone(&["target.example."], &[]);
    let (session, _, upstream) = run_session(&config(Some("right")), &zone, &mut proxy, b"pong");
    assert_eq!(session, Session::Closed);
    assert_eq!(upstream, b"pong");
}

#[test]
fn a_failed_resolution_leaves_its_neighbours_alone() {
    let cfg = config(None);
    let good = zone(&["target.example."], &[]);
    let mut bad = zone(&[], &[]);
    bad.broken = true;
    let mut sessions = vec![Session::accepted(), Session::accepted(), Session::accepted()];
    let mut step = |sessions: &mut Vec<Session>, n: usize, event: SessionEvent| {
        let session = std::mem::replace(&mut sessions[n], Session::Accepted);
        let (next, action) = session.step(&cfg, event);
        sessions[n] = next;
        action
    };
    for n in 0..3 {
        step(&mut sessions, n, SessionEvent::Begin);
    }
    let mut asked = Vec::new();
    step(&mut sessions, 0, SessionEvent::Resolved(resolve("example.org", &good, &mut asked)));
    let failed = step(&mut sessions, 1, SessionEvent::Resolved(resolve("example.org", &bad, &mut asked)));
    assert_eq!(
        failed,
        SessionAction::Abandon(SessionError::Resolve(ResolveError::ResolutionFailed {
            cause: "no resolver reachable".to_string()
        }))
    );
    step(&mut sessions, 2, SessionEvent::Resolved(resolve("example.org", &good, &mut asked)));
    step(&mut sessions, 2, SessionEvent::Connected(Ok(())));
    step(&mut sessions, 1, SessionEvent::Connected(Ok(())));
    step(&mut sessions, 0, SessionEvent::Connected(Ok(())));
    let target = TargetAddress { host: "target.example".to_string(), port: 25565 };
    assert_eq!(sessions[0], Session::Relaying { target: target.clone() });
    assert_eq!(sessions[1], Session::Failed);
    assert_eq!(sessions[2], Session::Relaying { target });
}
