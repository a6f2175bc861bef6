use quic_interop::aggregate::{
    aggregate, exit_code, ProcessOutcome, RunSummary, CONFIG_FAILURE_EXIT, RUN_FAILURE_EXIT,
};
use quic_interop::batch::ConnectionGroup;
use quic_interop::dispatch::{
    dispatch_step, route_request, DispatchAction, DispatchEvent, DispatchState, RouteOutcome,
};
use quic_interop::exchange::{
    fail_group, record_response, units_for_group, ConnectCause, FailureCause, RequestUnit,
    StreamCause, UnitStatus,
};
use quic_interop::orchestrate::{orch_init, orch_step, OrchAction, OrchEvent, RunPhase};
use quic_interop::resource::Resource;
use quic_interop::scenario::resolve;
use quic_interop::session::{
    establish_mode, session_step, EstablishMode, SessionAction, SessionEvent, SessionState,
};
use quic_interop::tls::Verifier;
use quic_interop::wire::{
    chunk_payload, frame_request, parse_request, parse_response, response_header, RequestParse,
    ResponseParse, CHUNK_SIZE, STATUS_NOT_FOUND, STATUS_OK,
};

fn res(path: &str) -> Resource {
    Resource { host: "host".to_string(), port: None, path: path.as_bytes().to_vec() }
}

fn group(paths: &[&str]) -> ConnectionGroup {
    ConnectionGroup { resources: paths.iter().map(|p| res(p)).collect() }
}

#[test]
fn request_framing_round_trips() {
    let framed = frame_request(&b"/dir/file1".to_vec());
    assert_eq!(framed, b"GET /dir/file1\r\n".to_vec());
    match parse_request(&framed) {
        RequestParse::GetPath(p) => assert_eq!(p, b"/dir/file1".to_vec()),
        _ => panic!("framed request should parse back"),
    }
}

#[test]
fn request_parsing_distinguishes_other_methods_and_garbage() {
    assert!(matches!(
        parse_request(&b"DELETE /x\r\n".to_vec()),
        RequestParse::OtherMethod
    ));
    assert!(matches!(parse_request(&b"GET\r\n".to_vec()), RequestParse::Malformed));
    assert!(matches!(parse_request(&b"no crlf".to_vec()), RequestParse::Malformed));
    assert!(matches!(parse_request(&b"\r\n".to_vec()), RequestParse::Malformed));
    assert!(matches!(parse_request(&b"".to_vec()), RequestParse::Malformed));
}

#[test]
fn response_framing_round_trips() {
    let mut served = response_header(true);
    assert_eq!(served, vec![STATUS_OK]);
    served.extend_from_slice(b"payload");
    match parse_response(&served) {
        ResponseParse::Body(b) => assert_eq!(b, b"payload".to_vec()),
        _ => panic!("served response should parse back"),
    }
    let missing = response_header(false);
    assert_eq!(missing, vec![STATUS_NOT_FOUND]);
    assert!(matches!(parse_response(&missing), ResponseParse::NotFound));
}

#[test]
fn response_parsing_rejects_what_the_harness_never_sends() {
    assert!(matches!(parse_response(&b"".to_vec()), ResponseParse::Malformed));
    assert!(matches!(
        parse_response(&vec![STATUS_NOT_FOUND, 1u8]),
        ResponseParse::Malformed
    ));
    assert!(matches!(parse_response(&b"x".to_vec()), ResponseParse::Malformed));
}

#[test]
fn chunking_reassembles_byte_for_byte() {
    let data: Vec<u8> = (0..(2 * CHUNK_SIZE + 1)).map(|i| (i % 251) as u8).collect();
    let chunks = chunk_payload(&data);
    assert_eq!(chunks.len(), 3);
    assert_eq!(chunks[0].len(), CHUNK_SIZE);
    assert_eq!(chunks[1].len(), CHUNK_SIZE);
    assert_eq!(chunks[2].len(), 1);
    let rebuilt: Vec<u8> = chunks.concat();
    assert_eq!(rebuilt.len(), data.len());
    assert_eq!(rebuilt, data);
}

#[test]
fn chunking_an_empty_body_sends_nothing() {
    assert!(chunk_payload(&Vec::new()).is_empty());
}

#[test]
fn a_small_file_round_trips_through_one_exchange() {
    let contents = b"the quick brown fox".to_vec();
    let request = frame_request(&b"/files/fox.txt".to_vec());
    let rel = match route_request(&request) {
        RouteOutcome::Fetch(rel) => rel,
        _ => panic!("a safe GET should route to a fetch"),
    };
    assert_eq!(rel, b"files/fox.txt".to_vec());
    let mut wire = response_header(true);
    for chunk in chunk_payload(&contents) {
        wire.extend_from_slice(&chunk);
    }
    match parse_response(&wire) {
        ResponseParse::Body(b) => {
            assert_eq!(b.len(), contents.len());
            assert_eq!(b, contents);
        },
        _ => panic!("the served response should parse back"),
    }
}

#[test]
fn routing_refuses_paths_that_escape_the_root() {
    assert!(matches!(
        route_request(&b"GET /../secret\r\n".to_vec()),
        RouteOutcome::NotFoundReply
    ));
    assert!(matches!(
        route_request(&b"GET /a/../../b\r\n".to_vec()),
        RouteOutcome::NotFoundReply
    ));
    assert!(matches!(route_request(&b"GET /\r\n".to_vec()), RouteOutcome::NotFoundReply));
    assert!(matches!(
        route_request(&b"GET /a..b/c\r\n".to_vec()),
        RouteOutcome::Fetch(p) if p == b"a..b/c".to_vec()
    ));
}

#[test]
fn routing_answers_other_methods_and_garbage_without_crashing() {
    assert!(matches!(route_request(&b"POST /x\r\n".to_vec()), RouteOutcome::EmptyReply));
    assert!(matches!(route_request(&b"garbage".to_vec()), RouteOutcome::BadRequest));
}

#[test]
fn stream_failures_leave_the_connection_accepting() {
    let s = DispatchState::AcceptingStreams;
    let (s1, a1) = dispatch_step(s, DispatchEvent::StreamTaskFailed);
    assert_eq!(s1, DispatchState::AcceptingStreams);
    assert_eq!(a1, DispatchAction::Ignore);
    let (s2, a2) = dispatch_step(s, DispatchEvent::StreamArrived);
    assert_eq!(s2, DispatchState::AcceptingStreams);
    assert_eq!(a2, DispatchAction::SpawnHandler);
}

#[test]
fn connection_level_events_end_only_their_own_loop() {
    let s = DispatchState::AcceptingStreams;
    let (closed, a) = dispatch_step(s, DispatchEvent::PeerClosed);
    assert_eq!(closed, DispatchState::ConnClosed);
    assert_eq!(a, DispatchAction::FinishConnection);
    let (failed, a) = dispatch_step(s, DispatchEvent::TransportError);
    assert_eq!(failed, DispatchState::ConnFailed);
    assert_eq!(a, DispatchAction::AbortConnection);
    let (still, a) = dispatch_step(closed, DispatchEvent::StreamArrived);
    assert_eq!(still, DispatchState::ConnClosed);
    assert_eq!(a, DispatchAction::Ignore);
}

#[test]
fn a_session_establishes_runs_and_closes() {
    let p = resolve("transfer").unwrap();
    assert_eq!(establish_mode(&p), EstablishMode::FullHandshake);
    let s = SessionState::Connecting;
    let (s, a) = session_step(s, SessionEvent::HandshakeConfirmed);
    assert_eq!(s, SessionState::Established);
    assert_eq!(a, SessionAction::BeginStreams);
    let (s, a) = session_step(s, SessionEvent::StreamsComplete);
    assert_eq!(s, SessionState::Draining);
    assert_eq!(a, SessionAction::Hold);
    let (s, a) = session_step(s, SessionEvent::DrainConfirmed);
    assert_eq!(s, SessionState::Closed);
    assert_eq!(a, SessionAction::Release);
}

#[test]
fn a_rejected_early_data_attempt_fails_the_group_loudly() {
    let p = resolve("zerortt").unwrap();
    assert_eq!(establish_mode(&p), EstablishMode::ZeroRttAttempt);
    let s = SessionState::Connecting;
    let (s, a) = session_step(s, SessionEvent::EarlyDataStarted);
    assert_eq!(s, SessionState::EarlyDataSent);
    assert_eq!(a, SessionAction::Hold);
    let (s, a) = session_step(s, SessionEvent::EarlyDataRejected);
    assert_eq!(s, SessionState::Failed(ConnectCause::EarlyDataRejected));
    assert_eq!(a, SessionAction::FailGroup(ConnectCause::EarlyDataRejected));
    let (s, a) = session_step(s, SessionEvent::HandshakeConfirmed);
    assert_eq!(s, SessionState::Failed(ConnectCause::EarlyDataRejected));
    assert_eq!(a, SessionAction::Hold);
}

#[test]
fn a_rejected_group_is_marked_failed_with_nothing_written() {
    let g = group(&["/a", "/b"]);
    let mut units = units_for_group(&g);
    assert_eq!(units.len(), 2);
    assert!(units.iter().all(|u| u.status == UnitStatus::Pending && u.bytes_transferred == 0));
    fail_group(&mut units, ConnectCause::EarlyDataRejected);
    for u in &units {
        assert_eq!(
            u.status,
            UnitStatus::Failed(FailureCause::Connect(ConnectCause::EarlyDataRejected))
        );
        assert_eq!(u.bytes_transferred, 0);
    }
}

#[test]
fn recording_responses_marks_units_and_hands_back_the_body() {
    let mut u = RequestUnit::new(res("/a"));
    u.start();
    let mut served = response_header(true);
    served.extend_from_slice(b"12345");
    let body = record_response(&mut u, &served);
    assert_eq!(body, Some(b"12345".to_vec()));
    assert_eq!(u.status, UnitStatus::Succeeded);
    assert_eq!(u.bytes_transferred, 5);

    let mut v = RequestUnit::new(res("/missing"));
    v.start();
    let body = record_response(&mut v, &response_header(false));
    assert_eq!(body, None);
    assert_eq!(
        v.status,
        UnitStatus::Failed(FailureCause::Stream(StreamCause::ResourceMissing))
    );
    assert_eq!(v.bytes_transferred, 0);
}

#[test]
fn a_malformed_response_fails_its_unit_alone() {
    let mut u = RequestUnit::new(res("/a"));
    u.start();
    let body = record_response(&mut u, &b"garbage without a status".to_vec());
    assert_eq!(body, None);
    assert_eq!(
        u.status,
        UnitStatus::Failed(FailureCause::Stream(StreamCause::MalformedResponse))
    );
}

#[test]
fn a_reset_stream_keeps_the_bytes_it_had_transferred() {
    let mut u = RequestUnit::new(res("/a"));
    u.start();
    u.fail(FailureCause::Stream(StreamCause::StreamReset));
    assert_eq!(u.status, UnitStatus::Failed(FailureCause::Stream(StreamCause::StreamReset)));
    assert_eq!(u.bytes_transferred, 0);
}

#[test]
fn status_indicators_are_single_ascii_bytes() {
    assert_eq!(STATUS_OK, b'O');
    assert_eq!(STATUS_NOT_FOUND, b'N');
    assert_eq!(response_header(true)[0], b'O');
    assert_eq!(response_header(false)[0], b'N');
}

#[test]
fn one_missing_resource_leaves_the_other_two_succeeding() {
    let g = group(&["/one", "/two", "/missing"]);
    let mut units = units_for_group(&g);
    for u in units.iter_mut() {
        u.start();
    }
    let mut served = response_header(true);
    served.extend_from_slice(b"data");
    record_response(&mut units[0], &served);
    record_response(&mut units[1], &served);
    record_response(&mut units[2], &response_header(false));
    let summary = aggregate(&units);
    assert_eq!(summary.succeeded, 2);
    assert_eq!(summary.failed, 1);
    assert_eq!(exit_code(&ProcessOutcome::Completed(summary)), RUN_FAILURE_EXIT);
}

#[test]
fn exit_status_is_zero_only_when_every_unit_succeeded() {
    let all_ok = RunSummary { succeeded: 3, failed: 0 };
    assert_eq!(exit_code(&ProcessOutcome::Completed(all_ok)), 0);
    let none_ran = RunSummary { succeeded: 0, failed: 0 };
    assert_eq!(exit_code(&ProcessOutcome::Completed(none_ran)), 0);
    let cfg = match resolve("unknown") {
        Err(e) => e,
        Ok(_) => panic!("unknown scenario must not resolve"),
    };
    assert_eq!(exit_code(&ProcessOutcome::ConfigFailure(cfg)), CONFIG_FAILURE_EXIT);
    assert_eq!(CONFIG_FAILURE_EXIT, 127);
}

#[test]
fn the_first_group_drains_before_the_rest_start() {
    let p = resolve("resumption").unwrap();
    let o = orch_init(&p, 3);
    assert_eq!(o.phase, RunPhase::Ready);
    let (o, a) = orch_step(o, OrchEvent::Begin);
    assert_eq!(a, OrchAction::StartGroups(0, 1));
    assert_eq!(o.phase, RunPhase::FirstInFlight);
    let (o, a) = orch_step(o, OrchEvent::FirstClosed);
    assert_eq!(a, OrchAction::StartGroups(1, 3));
    assert_eq!(o.phase, RunPhase::RestInFlight);
    let (o, a) = orch_step(o, OrchEvent::RestClosed);
    assert_eq!(a, OrchAction::Finished);
    assert_eq!(o.phase, RunPhase::Complete);
}

#[test]
fn without_a_carve_out_every_group_starts_at_once() {
    let p = resolve("transfer").unwrap();
    let o = orch_init(&p, 2);
    let (o, a) = orch_step(o, OrchEvent::Begin);
    assert_eq!(a, OrchAction::StartGroups(0, 2));
    assert_eq!(o.phase, RunPhase::RestInFlight);
}

#[test]
fn an_empty_run_completes_at_once() {
    let p = resolve("transfer").unwrap();
    let o = orch_init(&p, 0);
    let (o, a) = orch_step(o, OrchEvent::Begin);
    assert_eq!(a, OrchAction::Finished);
    assert_eq!(o.phase, RunPhase::Complete);
}

#[test]
fn the_verifier_handle_is_shared() {
    let v = Verifier::new();
    let w = v.clone();
    assert_eq!(std::sync::Arc::strong_count(&w), 2);
}
