use igd::address::{Ipv4Addr, PortMappingProtocol, SocketAddrV4};
use igd::errors::{AddAnyPortError, RequestError};
use igd::gateway::Gateway;
use igd::negotiation::{AddAnyPort, Phase, MAX_RANDOM_ATTEMPTS};
use igd::request::{Mapping, Reply, Request};
use igd::trace::simulate;

fn gateway() -> Gateway {
    Gateway::new(SocketAddrV4::new(Ipv4Addr::new(192, 168, 0, 1), 1900), "/ctl/IPConn".to_string())
}

fn local(port: u16) -> SocketAddrV4 {
    SocketAddrV4::new(Ipv4Addr::new(192, 168, 0, 42), port)
}

fn mapping(port: u16) -> Mapping {
    Mapping::new(PortMappingProtocol::TCP, local(port), 60, "game")
}

fn fault(code: u16) -> Reply {
    Reply::Failed(RequestError::ErrorCode(code, format!("fault {}", code)))
}

fn begin(port: u16, candidate: u16) -> AddAnyPort {
    gateway().add_any_port(PortMappingProtocol::TCP, local(port), 60, "game", candidate)
}

#[test]
fn zero_local_port_fails_before_any_request() {
    let s = begin(0, 40000);
    assert_eq!(s.phase, Phase::Failed(AddAnyPortError::InternalPortZeroInvalid));
    assert_eq!(s.pending(), None);
    assert!(s.is_finished());
    let (end, requests) = simulate(s, vec![(Reply::Reserved(1), 2), (Reply::Added, 3)]);
    assert!(requests.is_empty());
    assert_eq!(end.outcome(), Some(Err(AddAnyPortError::InternalPortZeroInvalid)));
}

#[test]
fn first_request_proposes_the_candidate() {
    let s = begin(8080, 40000);
    assert_eq!(s.phase, Phase::TryAnyPort { candidate: 40000 });
    assert_eq!(
        s.pending(),
        Some(Request::AddAnyPortMapping { external_port: 40000, mapping: mapping(8080) })
    );
    assert!(!s.is_finished());
    assert_eq!(s.outcome(), None);
}

#[test]
fn granted_port_is_returned_even_if_it_differs() {
    let s = begin(8080, 40000);
    let (end, requests) = simulate(s, vec![(Reply::Reserved(51234), 40001)]);
    assert_eq!(
        requests,
        vec![Request::AddAnyPortMapping { external_port: 40000, mapping: mapping(8080) }]
    );
    assert_eq!(end.pending(), None);
    assert_eq!(end.outcome(), Some(Ok(51234)));
}

#[test]
fn granted_port_ends_the_negotiation() {
    let s = begin(8080, 40000);
    let (end, requests) =
        simulate(s, vec![(Reply::Reserved(40000), 40001), (fault(718), 40002), (Reply::Added, 40003)]);
    assert_eq!(requests.len(), 1);
    assert_eq!(end.phase, Phase::Done(40000));
}

#[test]
fn unsupported_operation_falls_back_to_explicit_request() {
    let s = begin(8080, 40000).advance(fault(401), 40001);
    assert_eq!(s.phase, Phase::TryExplicitLoop { attempt: 1, candidate: 40001 });
    assert_eq!(
        s.pending(),
        Some(Request::AddPortMapping { external_port: 40001, mapping: mapping(8080) })
    );
    let s = s.advance(Reply::Added, 40002);
    assert_eq!(s.outcome(), Some(Ok(40001)));
}

#[test]
fn other_first_failure_is_returned_at_once() {
    for code in [402u16, 501, 605, 606, 718, 724, 725, 728] {
        let s = begin(8080, 40000);
        let (end, requests) = simulate(s, vec![(fault(code), 40001), (Reply::Added, 40002)]);
        assert_eq!(requests.len(), 1);
        assert_eq!(
            end.outcome(),
            Some(Err(AddAnyPortError::RequestError(RequestError::ErrorCode(
                code,
                format!("fault {}", code)
            ))))
        );
    }
}

#[test]
fn transport_failure_is_returned_unchanged() {
    let err = RequestError::Transport("connection refused".to_string());
    let s = begin(8080, 40000).advance(Reply::Failed(err.clone()), 40001);
    assert_eq!(s.outcome(), Some(Err(AddAnyPortError::RequestError(err))));

    let err = RequestError::InvalidResponse("<html>".to_string());
    let s = begin(8080, 40000).advance(fault(401), 40001).advance(Reply::Failed(err.clone()), 40002);
    assert_eq!(s.outcome(), Some(Err(AddAnyPortError::RequestError(err))));

    let err = RequestError::Transport("timed out".to_string());
    let s = begin(8080, 40000)
        .advance(fault(401), 40001)
        .advance(fault(724), 40002)
        .advance(Reply::Failed(err.clone()), 40003);
    assert_eq!(s.outcome(), Some(Err(AddAnyPortError::RequestError(err))));
}

#[test]
fn twenty_conflicts_exhaust_the_attempts() {
    let mut script = vec![(fault(401), 41000u16)];
    for i in 1..=20u16 {
        script.push((fault(718), 41000 + i));
    }
    script.push((Reply::Added, 50000));
    let (end, requests) = simulate(begin(8080, 40000), script);
    assert_eq!(requests.len(), 21);
    assert_eq!(
        requests[0],
        Request::AddAnyPortMapping { external_port: 40000, mapping: mapping(8080) }
    );
    for i in 1..=20usize {
        assert_eq!(
            requests[i],
            Request::AddPortMapping { external_port: 41000 + (i as u16) - 1, mapping: mapping(8080) }
        );
    }
    assert_eq!(end.outcome(), Some(Err(AddAnyPortError::NoPortsAvailable)));
}

#[test]
fn nineteen_conflicts_leave_one_attempt() {
    let mut s = begin(8080, 40000).advance(fault(401), 41000);
    for i in 1..=19u16 {
        s = s.advance(fault(718), 41000 + i);
        assert_eq!(s.phase, Phase::TryExplicitLoop { attempt: (i + 1) as u8, candidate: 41000 + i });
    }
    let s = s.advance(Reply::Added, 1);
    assert_eq!(s.outcome(), Some(Ok(41019)));
    assert_eq!(MAX_RANDOM_ATTEMPTS, 20);
}

#[test]
fn success_after_conflicts_returns_the_port_that_was_tried() {
    let script = vec![(fault(401), 41000), (fault(718), 41001), (fault(718), 41002), (Reply::Added, 41003)];
    let (end, requests) = simulate(begin(8080, 40000), script);
    assert_eq!(requests.len(), 4);
    assert_eq!(end.outcome(), Some(Ok(41002)));
}

#[test]
fn same_port_required_on_first_attempt_tries_local_port() {
    let script = vec![(fault(401), 41000), (fault(724), 41001), (Reply::Added, 41002)];
    let (end, requests) = simulate(begin(8080, 40000), script);
    assert_eq!(
        requests,
        vec![
            Request::AddAnyPortMapping { external_port: 40000, mapping: mapping(8080) },
            Request::AddPortMapping { external_port: 41000, mapping: mapping(8080) },
            Request::AddPortMapping { external_port: 8080, mapping: mapping(8080) },
        ]
    );
    assert_eq!(end.outcome(), Some(Ok(8080)));
}

#[test]
fn same_port_required_on_later_attempt_tries_local_port_once() {
    let script = vec![
        (fault(401), 41000),
        (fault(718), 41001),
        (fault(718), 41002),
        (fault(724), 41003),
        (fault(718), 41004),
        (Reply::Added, 41005),
    ];
    let (end, requests) = simulate(begin(8080, 40000), script);
    assert_eq!(requests.len(), 5);
    assert_eq!(
        requests[4],
        Request::AddPortMapping { external_port: 8080, mapping: mapping(8080) }
    );
    assert_eq!(end.outcome(), Some(Err(AddAnyPortError::ExternalPortInUse)));
}

#[test]
fn same_port_required_on_last_attempt_still_tries_local_port() {
    let mut s = begin(8080, 40000).advance(fault(401), 41000);
    for i in 1..=19u16 {
        s = s.advance(fault(718), 41000 + i);
    }
    let s = s.advance(fault(724), 1);
    assert_eq!(s.phase, Phase::TrySamePort);
}

#[test]
fn same_port_failures_are_final() {
    let at_same_port = || begin(8080, 40000).advance(fault(401), 41000).advance(fault(724), 41001);
    assert_eq!(
        at_same_port().advance(fault(724), 1).outcome(),
        Some(Err(AddAnyPortError::RequestError(RequestError::ErrorCode(724, "fault 724".to_string()))))
    );
    assert_eq!(
        at_same_port().advance(fault(401), 1).outcome(),
        Some(Err(AddAnyPortError::RequestError(RequestError::ErrorCode(401, "fault 401".to_string()))))
    );
    assert_eq!(
        at_same_port().advance(fault(718), 1).outcome(),
        Some(Err(AddAnyPortError::ExternalPortInUse))
    );
}

#[test]
fn unsupported_in_explicit_loop_is_final() {
    let s = begin(8080, 40000).advance(fault(401), 41000).advance(fault(401), 41001);
    assert_eq!(
        s.outcome(),
        Some(Err(AddAnyPortError::RequestError(RequestError::ErrorCode(401, "fault 401".to_string()))))
    );
}

#[test]
fn reply_that_does_not_answer_changes_nothing() {
    let s = begin(8080, 40000);
    let t = s.clone().advance(Reply::Added, 41000);
    assert_eq!(t, s);
    let s = s.advance(fault(401), 41000);
    let t = s.clone().advance(Reply::Reserved(9), 41001);
    assert_eq!(t, s);
    let s = s.advance(fault(724), 41001);
    let t = s.clone().advance(Reply::Reserved(9), 41002);
    assert_eq!(t, s);
}

#[test]
fn finished_negotiation_ignores_replies() {
    let s = begin(8080, 40000).advance(Reply::Reserved(7), 41000);
    let t = s.clone().advance(fault(401), 41001).advance(Reply::Added, 41002);
    assert_eq!(t, s);
}

#[test]
fn simulate_stops_when_the_script_ends() {
    let (end, requests) = simulate(begin(8080, 40000), vec![(fault(401), 41000)]);
    assert_eq!(requests.len(), 1);
    assert_eq!(end.phase, Phase::TryExplicitLoop { attempt: 1, candidate: 41000 });
    let (end, requests) = simulate(begin(8080, 40000), vec![]);
    assert!(requests.is_empty());
    assert_eq!(end, begin(8080, 40000));
}

#[test]
fn start_keeps_the_mapping() {
    let s = AddAnyPort::start(mapping(8080), 12345);
    assert_eq!(s.mapping, mapping(8080));
    assert_eq!(s.mapping.duplicate(), mapping(8080));
    assert_eq!(s.mapping.lease_duration, 60);
    assert_eq!(s.mapping.description, "game");
    assert_eq!(s.mapping.protocol, PortMappingProtocol::TCP);
    assert_eq!(s.mapping.local_addr, local(8080));
}

#[test]
fn longest_negotiation_sends_twenty_two_requests() {
    let mut script = vec![(fault(401), 41000u16)];
    for i in 1..=19u16 {
        script.push((fault(718), 41000 + i));
    }
    script.push((fault(724), 42000));
    script.push((Reply::Added, 42001));
    script.push((Reply::Added, 42002));
    let (end, requests) = simulate(begin(8080, 40000), script);
    assert_eq!(requests.len(), 22);
    assert_eq!(
        requests[20],
        Request::AddPortMapping { external_port: 41019, mapping: mapping(8080) }
    );
    assert_eq!(
        requests[21],
        Request::AddPortMapping { external_port: 8080, mapping: mapping(8080) }
    );
    assert_eq!(end.outcome(), Some(Ok(8080)));
}
