use mc_forward::address::{TargetAddress, SERVICE_PORT};
use mc_forward::resolver::{srv_name, LookupReply, Phase, Progress, Query, Resolution, ResolveError};

fn records(items: &[&str]) -> LookupReply {
    LookupReply::Records(items.iter().map(|s| s.to_string()).collect())
}

fn target(host: &str) -> TargetAddress {
    TargetAddress { host: host.to_string(), port: 25565 }
}

#[test]
fn srv_name_prefixes_the_domain() {
    assert_eq!(srv_name("example.org"), "_minecraft._tcp.example.org");
    assert_eq!(srv_name(""), "_minecraft._tcp.");
}

#[test]
fn start_asks_for_the_srv_records() {
    let (resolution, query) = Resolution::start("play.example.org".to_string());
    assert_eq!(query, Query::Srv { name: "_minecraft._tcp.play.example.org".to_string() });
    assert_eq!(resolution.phase(), Phase::AwaitingSrv);
    assert_eq!(resolution.domain(), "play.example.org");
}

#[test]
fn srv_record_wins_and_loses_its_root_dot() {
    let (mut resolution, _) = Resolution::start("example.org".to_string());
    let progress = resolution.advance(records(&["target.example."]));
    assert_eq!(progress, Some(Progress::Done(Ok(target("target.example")))));
    assert_eq!(resolution.phase(), Phase::Finished);
}

#[test]
fn srv_record_without_root_dot_is_kept() {
    let (mut resolution, _) = Resolution::start("example.org".to_string());
    let progress = resolution.advance(records(&["mc.example.net"]));
    assert_eq!(progress, Some(Progress::Done(Ok(target("mc.example.net")))));
}

#[test]
fn only_one_trailing_dot_is_removed() {
    let (mut resolution, _) = Resolution::start("example.org".to_string());
    let progress = resolution.advance(records(&["odd.example.."]));
    assert_eq!(progress, Some(Progress::Done(Ok(target("odd.example.")))));
}

#[test]
fn first_srv_record_is_taken_in_the_order_given() {
    let (mut resolution, _) = Resolution::start("example.org".to_string());
    let progress = resolution.advance(records(&["b.example.", "a.example.", "c.example."]));
    assert_eq!(progress, Some(Progress::Done(Ok(target("b.example")))));
}

#[test]
fn no_srv_record_falls_back_to_the_a_lookup() {
    let (mut resolution, _) = Resolution::start("example.org".to_string());
    let progress = resolution.advance(records(&[]));
    assert_eq!(progress, Some(Progress::Ask(Query::A { name: "example.org".to_string() })));
    assert_eq!(resolution.phase(), Phase::AwaitingA);
    let progress = resolution.advance(records(&["203.0.113.7", "203.0.113.8"]));
    assert_eq!(progress, Some(Progress::Done(Ok(target("203.0.113.7")))));
    assert_eq!(resolution.phase(), Phase::Finished);
}

#[test]
fn a_record_is_taken_as_it_is() {
    let (mut resolution, _) = Resolution::start("example.org".to_string());
    resolution.advance(records(&[]));
    let progress = resolution.advance(records(&["alias.example."]));
    assert_eq!(progress, Some(Progress::Done(Ok(target("alias.example.")))));
}

#[test]
fn neither_record_is_no_record_found() {
    let (mut resolution, _) = Resolution::start("nowhere.example".to_string());
    resolution.advance(records(&[]));
    let progress = resolution.advance(records(&[]));
    assert_eq!(
        progress,
        Some(Progress::Done(Err(ResolveError::NoRecordFound {
            domain: "nowhere.example".to_string()
        })))
    );
    assert_eq!(resolution.phase(), Phase::Finished);
}

#[test]
fn srv_failure_is_resolution_failed() {
    let (mut resolution, _) = Resolution::start("example.org".to_string());
    let progress = resolution.advance(LookupReply::Failed("request timed out".to_string()));
    assert_eq!(
        progress,
        Some(Progress::Done(Err(ResolveError::ResolutionFailed {
            cause: "request timed out".to_string()
        })))
    );
    assert_eq!(resolution.phase(), Phase::Finished);
}

#[test]
fn a_failure_is_resolution_failed() {
    let (mut resolution, _) = Resolution::start("example.org".to_string());
    resolution.advance(records(&[]));
    let progress = resolution.advance(LookupReply::Failed("malformed response".to_string()));
    assert_eq!(
        progress,
        Some(Progress::Done(Err(ResolveError::ResolutionFailed {
            cause: "malformed response".to_string()
        })))
    );
}

#[test]
fn reply_after_the_end_is_ignored() {
    let (mut resolution, _) = Resolution::start("example.org".to_string());
    resolution.advance(records(&["target.example."]));
    assert_eq!(resolution.advance(records(&["other.example."])), None);
    assert_eq!(resolution.advance(LookupReply::Failed("late".to_string())), None);
    assert_eq!(resolution.phase(), Phase::Finished);
    assert_eq!(resolution.domain(), "example.org");
}

#[test]
fn resolved_targets_are_on_the_service_port() {
    assert_eq!(SERVICE_PORT, 25565);
    let (mut resolution, _) = Resolution::start("example.org".to_string());
    match resolution.advance(records(&["target.example."])) {
        Some(Progress::Done(Ok(found))) => {
            assert_eq!(found.port, SERVICE_PORT);
            assert_eq!(found.text(), "target.example:25565");
        }
        other => panic!("unexpected progress: {:?}", other),
    }
}

#[test]
fn srv_query_is_the_only_query_when_a_record_exists() {
    let mut asked: Vec<Query> = Vec::new();
    let (mut resolution, first) = Resolution::start("example.org".to_string());
    asked.push(first);
    let mut progress = resolution.advance(records(&["target.example."]));
    while let Some(Progress::Ask(query)) = progress {
        asked.push(query);
        progress = resolution.advance(records(&["198.51.100.1"]));
    }
    assert_eq!(asked, vec![Query::Srv { name: "_minecraft._tcp.example.org".to_string() }]);
    assert_eq!(progress, Some(Progress::Done(Ok(target("target.example")))));
}
