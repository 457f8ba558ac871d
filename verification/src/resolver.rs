//! Target resolution: an SRV lookup with a fallback to an A lookup.
//!
//! The lookups themselves are network operations and belong to the caller.
//! A [`Resolution`] tells the caller which query to issue next and, once the
//! replies are in, which address to dial or why there is none.

use vstd::prelude::*;
use crate::address::{strip_root_dot, without_root_dot, TargetAddress, TargetAddressView, SERVICE_PORT};

verus! {

/// Why a resolution produced no target.
#[derive(Debug, PartialEq, Eq)]
pub enum ResolveError {
    /// The resolver itself failed: a timeout, a malformed response, no server reachable.
    ResolutionFailed { cause: String },
    /// The domain has neither an SRV record nor an A record.
    NoRecordFound { domain: String },
}

/// Mathematical value of a [`ResolveError`].
pub enum ResolveErrorView {
    ResolutionFailed { cause: Seq<char> },
    NoRecordFound { domain: Seq<char> },
}

impl View for ResolveError {
    type V = ResolveErrorView;

    open spec fn view(&self) -> ResolveErrorView {
        match self {
            ResolveError::ResolutionFailed { cause } => ResolveErrorView::ResolutionFailed {
                cause: cause@,
            },
            ResolveError::NoRecordFound { domain } => ResolveErrorView::NoRecordFound {
                domain: domain@,
            },
        }
    }
}

impl ResolveErrorView {
    /// The error as one line of text: the name of its kind, then its cause or
    /// the domain that has no record.
    pub open spec fn message(self) -> Seq<char> {
        match self {
            ResolveErrorView::ResolutionFailed { cause } => "ResolutionFailed: "@ + cause,
            ResolveErrorView::NoRecordFound { domain } => "NoRecordFound: "@ + domain,
        }
    }
}

impl ResolveError {
    /// The error as one line of text.
    pub fn message(&self) -> (text: String)
        ensures
            text@ == self@.message(),
    {
        match self {
            ResolveError::ResolutionFailed { cause } => {
                let mut text = String::from_str("ResolutionFailed: ");
                text.append(cause.as_str());
                text
            },
            ResolveError::NoRecordFound { domain } => {
                let mut text = String::from_str("NoRecordFound: ");
                text.append(domain.as_str());
                text
            },
        }
    }
}

/// A DNS query for the caller to issue.
#[derive(Debug, PartialEq, Eq)]
pub enum Query {
    /// Look up the SRV records of `name`.
    Srv { name: String },
    /// Look up the A records of `name`.
    A { name: String },
}

/// Mathematical value of a [`Query`].
pub enum QueryView {
    Srv { name: Seq<char> },
    A { name: Seq<char> },
}

impl View for Query {
    type V = QueryView;

    open spec fn view(&self) -> QueryView {
        match self {
            Query::Srv { name } => QueryView::Srv { name: name@ },
            Query::A { name } => QueryView::A { name: name@ },
        }
    }
}

/// What the resolver answered to one query.
#[derive(Debug, PartialEq, Eq)]
pub enum LookupReply {
    /// The records found, in the order the resolver returned them: target hosts
    /// for an SRV query, addresses for an A query. No record at all is an
    /// answer, not a failure.
    Records(Vec<String>),
    /// The resolver failed, for the reason given.
    Failed(String),
}

/// Mathematical value of a [`LookupReply`].
pub enum LookupReplyView {
    Records(Seq<Seq<char>>),
    Failed(Seq<char>),
}

impl View for LookupReply {
    type V = LookupReplyView;

    open spec fn view(&self) -> LookupReplyView {
        match self {
            LookupReply::Records(records) => LookupReplyView::Records(records.deep_view()),
            LookupReply::Failed(cause) => LookupReplyView::Failed(cause@),
        }
    }
}

/// View of the result of a resolution.
pub open spec fn outcome_view(outcome: Result<TargetAddress, ResolveError>) -> Result<
    TargetAddressView,
    ResolveErrorView,
> {
    match outcome {
        Ok(target) => Ok(target@),
        Err(error) => Err(error@),
    }
}

/// What a resolution asks of its caller after a reply.
#[derive(Debug, PartialEq, Eq)]
pub enum Progress {
    /// Issue this query and come back with the reply.
    Ask(Query),
    /// The resolution is over, with this result.
    Done(Result<TargetAddress, ResolveError>),
}

/// Mathematical value of a [`Progress`].
pub enum ProgressView {
    Ask(QueryView),
    Done(Result<TargetAddressView, ResolveErrorView>),
}

impl View for Progress {
    type V = ProgressView;

    open spec fn view(&self) -> ProgressView {
        match self {
            Progress::Ask(query) => ProgressView::Ask(query@),
            Progress::Done(outcome) => ProgressView::Done(outcome_view(*outcome)),
        }
    }
}

/// View of an optional [`Progress`].
pub open spec fn progress_view(progress: Option<Progress>) -> Option<ProgressView> {
    match progress {
        Some(p) => Some(p@),
        None => None,
    }
}

/// How far a resolution has come.
#[derive(Debug, Clone, Copy, PartialEq, Eq, Structural)]
pub enum Phase {
    /// The SRV query is out.
    AwaitingSrv,
    /// The SRV query found nothing and the A query is out.
    AwaitingA,
    /// The result has been handed over.
    Finished,
}

/// Mathematical value of a [`Resolution`].
pub struct ResolutionView {
    pub domain: Seq<char>,
    pub phase: Phase,
}

/// The resolution of one domain for one connection. Nothing is kept from one
/// resolution to the next.
#[derive(Debug)]
pub struct Resolution {
    domain: String,
    phase: Phase,
}

impl View for Resolution {
    type V = ResolutionView;

    closed spec fn view(&self) -> ResolutionView {
        ResolutionView { domain: self.domain@, phase: self.phase }
    }
}

/// The name under which the game service publishes its SRV records for `domain`.
pub open spec fn srv_query_name(domain: Seq<char>) -> Seq<char> {
    "_minecraft._tcp."@ + domain
}

/// A target on the service port.
pub open spec fn service_target(host: Seq<char>) -> TargetAddressView {
    TargetAddressView { host, port: SERVICE_PORT }
}

/// The state in which a resolution of `domain` begins: its SRV query is out.
pub open spec fn initial(domain: Seq<char>) -> ResolutionView {
    ResolutionView { domain, phase: Phase::AwaitingSrv }
}

/// The query with which a resolution of `domain` begins.
pub open spec fn first_query(domain: Seq<char>) -> QueryView {
    QueryView::Srv { name: srv_query_name(domain) }
}

/// The transition function of a resolution: the state after `reply` and what
/// the caller is asked to do, `None` where the resolution had already finished.
pub open spec fn resolution_step(state: ResolutionView, reply: LookupReplyView) -> (
    ResolutionView,
    Option<ProgressView>,
) {
    let finished = ResolutionView { domain: state.domain, phase: Phase::Finished };
    match state.phase {
        Phase::AwaitingSrv => match reply {
            LookupReplyView::Failed(cause) => (
                finished,
                Some(ProgressView::Done(Err(ResolveErrorView::ResolutionFailed { cause }))),
            ),
            LookupReplyView::Records(records) => if records.len() > 0 {
                (
                    finished,
                    Some(ProgressView::Done(Ok(service_target(strip_root_dot(records[0]))))),
                )
            } else {
                (
                    ResolutionView { domain: state.domain, phase: Phase::AwaitingA },
                    Some(ProgressView::Ask(QueryView::A { name: state.domain })),
                )
            },
        },
        Phase::AwaitingA => match reply {
            LookupReplyView::Failed(cause) => (
                finished,
                Some(ProgressView::Done(Err(ResolveErrorView::ResolutionFailed { cause }))),
            ),
            LookupReplyView::Records(records) => if records.len() > 0 {
                (finished, Some(ProgressView::Done(Ok(service_target(records[0])))))
            } else {
                (
                    finished,
                    Some(
                        ProgressView::Done(
                            Err(ResolveErrorView::NoRecordFound { domain: state.domain }),
                        ),
                    ),
                )
            },
        },
        Phase::Finished => (state, None),
    }
}

/// The SRV name to query for `domain`: `_minecraft._tcp.` followed by the domain.
pub fn srv_name(domain: &str) -> (name: String)
    ensures
        name@ == srv_query_name(domain@),
{
    let mut name = String::from_str("_minecraft._tcp.");
    name.append(domain);
    name
}

impl Resolution {
    /// Begins the resolution of `domain` and names its first query, the SRV lookup.
    pub fn start(domain: String) -> (begun: (Resolution, Query))
        ensures
            begun.0@ == initial(domain@),
            begun.1@ == first_query(domain@),
    {
        let name = srv_name(domain.as_str());
        (Resolution { domain, phase: Phase::AwaitingSrv }, Query::Srv { name })
    }

    /// The domain being resolved.
    pub fn domain(&self) -> (domain: &String)
        ensures
            domain@ == self@.domain,
    {
        &self.domain
    }

    /// How far the resolution has come.
    pub fn phase(&self) -> (phase: Phase)
        ensures
            phase == self@.phase,
    {
        self.phase
    }

    /// Takes the reply to the query that is out and says what comes next.
    ///
    /// The first SRV record decides, with its root label removed; without an
    /// SRV record the A lookup of the domain itself is asked for, and its first
    /// address decides. Records are taken in the order given: no priority or
    /// weight is looked at. A failure of the resolver ends the resolution at
    /// once. A reply that arrives after the end is ignored.
    pub fn advance(&mut self, reply: LookupReply) -> (progress: Option<Progress>)
        ensures
            (final(self)@, progress_view(progress)) == resolution_step(old(self)@, reply@),
    {
        match self.phase {
            Phase::AwaitingSrv => {
                match reply {
                    LookupReply::Failed(cause) => {
                        self.phase = Phase::Finished;
                        Some(Progress::Done(Err(ResolveError::ResolutionFailed { cause })))
                    },
                    LookupReply::Records(records) => {
                        if records.len() > 0 {
                            let host = without_root_dot(records[0].as_str());
                            self.phase = Phase::Finished;
                            Some(Progress::Done(Ok(TargetAddress::service(host))))
                        } else {
                            let name = self.domain.clone();
                            self.phase = Phase::AwaitingA;
                            Some(Progress::Ask(Query::A { name }))
                        }
                    },
                }
            },
            Phase::AwaitingA => {
                match reply {
                    LookupReply::Failed(cause) => {
                        self.phase = Phase::Finished;
                        Some(Progress::Done(Err(ResolveError::ResolutionFailed { cause })))
                    },
                    LookupReply::Records(records) => {
                        self.phase = Phase::Finished;
                        if records.len() > 0 {
                            let host = records[0].clone();
                            Some(Progress::Done(Ok(TargetAddress::service(host))))
                        } else {
                            let domain = self.domain.clone();
                            Some(Progress::Done(Err(ResolveError::NoRecordFound { domain })))
                        }
                    },
                }
            },
            Phase::Finished => None,
        }
    }
}

/// What a whole resolution issues and yields.
pub struct RunView {
    /// The queries issued, in order.
    pub queries: Seq<QueryView>,
    /// The result handed over, if the resolution reached one.
    pub outcome: Option<Result<TargetAddressView, ResolveErrorView>>,
}

/// A whole resolution of `domain` against a resolver that answers the SRV
/// query with `srv` and the A query, should it be asked, with `a`: the
/// transition function applied from the initial state until a result comes.
pub open spec fn run(domain: Seq<char>, srv: LookupReplyView, a: LookupReplyView) -> RunView {
    let (after_srv, first) = resolution_step(initial(domain), srv);
    match first {
        Some(ProgressView::Done(outcome)) => RunView {
            queries: seq![first_query(domain)],
            outcome: Some(outcome),
        },
        Some(ProgressView::Ask(second_query)) => {
            let (after_a, second) = resolution_step(after_srv, a);
            match second {
                Some(ProgressView::Done(outcome)) => RunView {
                    queries: seq![first_query(domain), second_query],
                    outcome: Some(outcome),
                },
                _ => RunView { queries: seq![first_query(domain), second_query], outcome: None },
            }
        },
        None => RunView { queries: seq![first_query(domain)], outcome: None },
    }
}

/// The target a domain resolves to, stated directly: the first SRV record
/// wins, then the first A record, and a failure of the resolver on a query
/// that was issued ends it.
pub open spec fn resolve(domain: Seq<char>, srv: LookupReplyView, a: LookupReplyView) -> Result<
    TargetAddressView,
    ResolveErrorView,
> {
    match srv {
        LookupReplyView::Failed(cause) => Err(ResolveErrorView::ResolutionFailed { cause }),
        LookupReplyView::Records(targets) => if targets.len() > 0 {
            Ok(service_target(strip_root_dot(targets[0])))
        } else {
            match a {
                LookupReplyView::Failed(cause) => Err(
                    ResolveErrorView::ResolutionFailed { cause },
                ),
                LookupReplyView::Records(addresses) => if addresses.len() > 0 {
                    Ok(service_target(addresses[0]))
                } else {
                    Err(ResolveErrorView::NoRecordFound { domain })
                },
            }
        },
    }
}

/// Every resolution ends after at most two queries, with the result that
/// [`resolve`] states, and the A query is issued exactly when the SRV query
/// was answered with no record.
pub proof fn lemma_run_resolves(domain: Seq<char>, srv: LookupReplyView, a: LookupReplyView)
    ensures
        run(domain, srv, a).outcome == Some(resolve(domain, srv, a)),
        run(domain, srv, a).queries == if srv == LookupReplyView::Records(Seq::empty()) {
            seq![first_query(domain), QueryView::A { name: domain }]
        } else {
            seq![first_query(domain)]
        },
{
    match srv {
        LookupReplyView::Records(targets) => {
            if targets.len() == 0 {
                assert(targets =~= Seq::empty());
            }
        },
        LookupReplyView::Failed(_) => {},
    }
}

/// A domain with at least one SRV record resolves to the first record's
/// target without its root label, on the service port, whatever an A lookup
/// would have answered; the SRV query is the only one issued.
pub proof fn lemma_srv_record_wins(domain: Seq<char>, targets: Seq<Seq<char>>, a: LookupReplyView)
    requires
        targets.len() > 0,
    ensures
        run(domain, LookupReplyView::Records(targets), a).outcome == Some(
            Ok::<TargetAddressView, ResolveErrorView>(
                TargetAddressView { host: strip_root_dot(targets[0]), port: 25565 },
            ),
        ),
        run(domain, LookupReplyView::Records(targets), a).queries == seq![
            QueryView::Srv { name: srv_query_name(domain) },
        ],
{
}

/// A domain without SRV records and with at least one A record resolves to
/// the first address, on the service port.
pub proof fn lemma_a_record_fallback(domain: Seq<char>, addresses: Seq<Seq<char>>)
    requires
        addresses.len() > 0,
    ensures
        run(
            domain,
            LookupReplyView::Records(Seq::empty()),
            LookupReplyView::Records(addresses),
        ).outcome == Some(
            Ok::<TargetAddressView, ResolveErrorView>(
                TargetAddressView { host: addresses[0], port: 25565 },
            ),
        ),
{
}

/// A domain with neither an SRV record nor an A record does not resolve: the
/// result is `NoRecordFound`, naming the domain.
pub proof fn lemma_no_record_found(domain: Seq<char>)
    ensures
        run(
            domain,
            LookupReplyView::Records(Seq::empty()),
            LookupReplyView::Records(Seq::empty()),
        ).outcome == Some(
            Err::<TargetAddressView, ResolveErrorView>(
                ResolveErrorView::NoRecordFound { domain },
            ),
        ),
{
}

/// A missing record is reported only where both lookups were answered and
/// neither found anything: a failure of the resolver is never taken for it.
pub proof fn lemma_failure_is_not_absence(
    domain: Seq<char>,
    srv: LookupReplyView,
    a: LookupReplyView,
)
    ensures
        resolve(domain, srv, a) == Err::<TargetAddressView, ResolveErrorView>(
            ResolveErrorView::NoRecordFound { domain },
        ) <==> {
            &&& srv == LookupReplyView::Records(Seq::empty())
            &&& a == LookupReplyView::Records(Seq::empty())
        },
        resolve(domain, srv, a) matches Err(ResolveErrorView::NoRecordFound { domain: named })
            ==> named == domain,
{
    if let LookupReplyView::Records(targets) = srv {
        if targets.len() == 0 {
            assert(targets =~= Seq::empty());
            if let LookupReplyView::Records(addresses) = a {
                if addresses.len() == 0 {
                    assert(addresses =~= Seq::empty());
                }
            }
        }
    }
}

} // verus!
