//! Tests of the bridge core: correlation, session state, streaming channel,
//! query accumulation and the facade decision functions.

use ctp_rust::bridge::{
    authenticate_outcome, complete_request, login_outcome, md_login_outcome, response_outcome,
    wait_connected_outcome, MdBridge, TraderBridge,
};
use ctp_rust::channel::EventChannel;
use ctp_rust::config::CtpConfig;
use ctp_rust::correlation::CorrelationTable;
use ctp_rust::error::{business_error, c_string_error, connection_error, encoding_error, CtpError};
use ctp_rust::event::Event;
use ctp_rust::query::QueryAccumulator;
use ctp_rust::session::{AsyncMdState, AsyncTraderState};
use ctp_rust::types::{ResumeType, RspInfoField, RspUserLoginField};

fn success_response(request_id: i32, payload: u64) -> Event<u64> {
    Event::Response {
        payload: Some(payload),
        rsp_info: None,
        request_id,
        is_last: true,
    }
}

fn query_frame(request_id: i32, payload: Option<u64>, is_last: bool) -> Event<u64> {
    Event::QueryResponse {
        payload,
        rsp_info: Some(RspInfoField::default()),
        request_id,
        is_last,
    }
}

fn failing_info(error_id: i32) -> RspInfoField {
    let mut info = RspInfoField::default();
    info.error_id = error_id;
    info
}

// Resolving one in-flight request id never notifies another: the second
// request's slot stays empty and its entry stays registered.
#[test]
fn test_resolution_is_isolated() {
    let mut table: CorrelationTable<u64> = CorrelationTable::new();
    table.register(1);
    table.register(2);

    let woken = table.resolve(1, success_response(1, 10));
    assert!(woken);

    assert!(table.contains(2));
    assert!(table.claim(2).is_none());

    match table.claim(1) {
        Some(Event::Response {
            payload, request_id, ..
        }) => {
            assert_eq!(payload, Some(10));
            assert_eq!(request_id, 1);
        }
        other => panic!("expected the resolved response, got {:?}", other),
    }
}

// A request that timed out and was deregistered is untouched by a late
// resolution: no waiter is woken, nothing is delivered, nothing crashes.
#[test]
fn test_late_resolution_has_no_effect() {
    let mut table: CorrelationTable<u64> = CorrelationTable::new();
    table.register(5);
    table.cancel(5);

    let woken = table.resolve(5, success_response(5, 99));
    assert!(!woken);
    assert_eq!(table.len(), 0);
    assert!(table.claim(5).is_none());
}

// A result slot is filled at most once: the second resolution of the same id
// wakes nobody and does not overwrite the first result.
#[test]
fn test_slot_filled_at_most_once() {
    let mut table: CorrelationTable<u64> = CorrelationTable::new();
    table.register(3);
    assert!(table.resolve(3, success_response(3, 1)));
    assert!(!table.resolve(3, success_response(3, 2)));
    match table.claim(3) {
        Some(Event::Response { payload, .. }) => assert_eq!(payload, Some(1)),
        other => panic!("expected the first resolution, got {:?}", other),
    }
}

// Disconnect atomically resets connected, authenticated and logged-in and
// clears the cached payloads; a subsequent connection wait fails until a
// fresh Connected event arrives.
#[test]
fn test_disconnect_resets_state() {
    let mut state = AsyncTraderState::default();
    state.apply_event::<u64>(&Event::Connected);
    state.apply_event::<u64>(&Event::LoginResponse {
        user_login: Some(RspUserLoginField::default()),
        rsp_info: None,
        request_id: 1,
        is_last: true,
    });
    assert!(state.connected);
    assert!(state.logged_in);
    assert!(state.login_info.is_some());

    state.apply_event::<u64>(&Event::Disconnected(0x1001));
    assert!(!state.connected);
    assert!(!state.authenticated);
    assert!(!state.logged_in);
    assert!(state.auth_info.is_none());
    assert!(state.login_info.is_none());

    // Waiting for the connection now fails, whether the wait expired or the
    // wake was spurious.
    assert!(wait_connected_outcome(state.connected, false).is_err());
    assert!(wait_connected_outcome(state.connected, true).is_err());

    // Only a fresh Connected event lets the wait succeed.
    state.apply_event::<u64>(&Event::Connected);
    assert!(wait_connected_outcome(state.connected, false).is_ok());
}

// Given N partial responses and then one terminal frame sharing the request
// id, the accumulation returns exactly the N records, in arrival order;
// frames of other requests are ignored.
#[test]
fn test_query_accumulates_exactly_partial_records() {
    let mut acc: QueryAccumulator<u64> = QueryAccumulator::new(9);
    acc.absorb(&query_frame(9, Some(100), false));
    acc.absorb(&query_frame(9, Some(200), false));
    // A frame of an unrelated request contributes nothing.
    acc.absorb(&query_frame(10, Some(999), true));
    acc.absorb(&query_frame(9, Some(300), false));
    assert!(!acc.is_complete());
    acc.absorb(&query_frame(9, None, true));
    assert!(acc.is_complete());

    let records = acc.into_result().expect("the finished query must succeed");
    assert_eq!(records, vec![100, 200, 300]);
}

// A failing status envelope surfaces as a business error with the vendor's
// numeric code, never silently.
#[test]
fn test_query_business_error() {
    let mut acc: QueryAccumulator<u64> = QueryAccumulator::new(4);
    acc.absorb(&Event::QueryResponse {
        payload: None,
        rsp_info: Some(failing_info(7)),
        request_id: 4,
        is_last: false,
    });
    assert!(acc.is_complete());
    match acc.into_result() {
        Err(CtpError::BusinessError(code, _)) => assert_eq!(code, 7),
        other => panic!("expected a business error, got {:?}", other),
    }
}

// An accumulation that never sees its terminal frame is a timeout, not a
// success with partial records.
#[test]
fn test_query_timeout() {
    let mut acc: QueryAccumulator<u64> = QueryAccumulator::new(6);
    acc.absorb(&query_frame(6, Some(1), false));
    assert!(!acc.is_complete());
    match acc.into_result() {
        Err(CtpError::TimeoutError(_)) => {}
        other => panic!("expected a timeout error, got {:?}", other),
    }
}

// Scenario: submit request 7; deliver its terminal successful response; the
// waiter is woken at once — the resolution, not the timeout, ends the wait —
// and the call returns the response.
#[test]
fn test_prompt_resolution() {
    let mut table: CorrelationTable<u64> = CorrelationTable::new();
    table.register(7);
    let woken = table.resolve(7, success_response(7, 777));
    assert!(woken, "the waiter must be woken by the resolution itself");
    let claimed = table.claim(7);
    let outcome = response_outcome(claimed);
    match outcome {
        Ok(Event::Response {
            payload,
            request_id,
            is_last,
            ..
        }) => {
            assert_eq!(payload, Some(777));
            assert_eq!(request_id, 7);
            assert!(is_last);
        }
        other => panic!("expected the delivered response, got {:?}", other),
    }
}

// Scenario: submit a request and deliver nothing; the expired wait
// deregisters the request and reports a timeout error.
#[test]
fn test_timeout_yields_timeout_error() {
    let mut bridge: TraderBridge<u64> = TraderBridge::new();
    let id = bridge.begin_request();
    match complete_request(&mut bridge, id, true) {
        Err(CtpError::TimeoutError(_)) => {}
        other => panic!("expected a timeout error, got {:?}", other),
    }
    // The late resolution after the timeout wakes nobody.
    let woken = bridge.handle_event(success_response(id, 1));
    assert!(!woken);
}

// Scenario: two submissions receive distinct request ids.
#[test]
fn test_distinct_request_ids() {
    let mut bridge: TraderBridge<u64> = TraderBridge::new();
    let id1 = bridge.begin_request();
    let id2 = bridge.begin_request();
    assert_ne!(id1, id2);
}

// The event sink delivers every event to the streaming channel and, if it
// answers a pending request, to that request's waiter: once each.
#[test]
fn test_event_sink_fans_out() {
    let mut bridge: TraderBridge<u64> = TraderBridge::new();
    let id = bridge.begin_request();
    let woken = bridge.handle_event(success_response(id, 55));
    assert!(woken);

    // The streaming channel saw the same event.
    match bridge.try_recv_event() {
        Some(Event::Response { payload, .. }) => assert_eq!(payload, Some(55)),
        other => panic!("expected the streamed response, got {:?}", other),
    }
    assert!(bridge.try_recv_event().is_none());

    // The waiter claims the same event, exactly once.
    match complete_request(&mut bridge, id, false) {
        Ok(Event::Response { payload, .. }) => assert_eq!(payload, Some(55)),
        other => panic!("expected the resolved response, got {:?}", other),
    }
}

// Events published while no consumer is waiting are not lost and come out
// in arrival order; receiving from an empty channel returns the empty
// indicator without blocking.
#[test]
fn test_events_not_lost() {
    let mut channel: EventChannel<u64> = EventChannel::new();
    assert!(channel.try_recv().is_none());

    channel.publish(Event::Connected);
    channel.publish(Event::HeartbeatWarning(30));
    channel.publish(Event::Push(42));
    assert_eq!(channel.len(), 3);

    assert!(matches!(channel.try_recv(), Some(Event::Connected)));
    assert!(matches!(
        channel.try_recv(),
        Some(Event::HeartbeatWarning(30))
    ));
    assert!(matches!(channel.try_recv(), Some(Event::Push(42))));
    assert!(channel.try_recv().is_none());
    assert!(channel.is_empty());
}

// The login decision: the cached payload on success, a timeout error on
// expiry, an initialization error on a wake without a payload.
#[test]
fn test_login_and_authenticate_outcomes() {
    let mut state = AsyncTraderState::default();
    assert!(matches!(
        login_outcome(&state, true),
        Err(CtpError::TimeoutError(_))
    ));
    assert!(matches!(
        login_outcome(&state, false),
        Err(CtpError::InitializationError(_))
    ));
    assert!(matches!(
        authenticate_outcome(&state, false),
        Err(CtpError::InitializationError(_))
    ));

    state.apply_event::<u64>(&Event::LoginResponse {
        user_login: Some(RspUserLoginField::default()),
        rsp_info: None,
        request_id: 2,
        is_last: true,
    });
    assert!(login_outcome(&state, false).is_ok());
    // A timeout still wins over a cached payload: the wait expired.
    assert!(matches!(
        login_outcome(&state, true),
        Err(CtpError::TimeoutError(_))
    ));
}

// A failing terminal login frame commits nothing: the session stays logged
// out and the waiting call fails.
#[test]
fn test_failed_login_commits_nothing() {
    let mut state = AsyncTraderState::default();
    state.apply_event::<u64>(&Event::LoginResponse {
        user_login: Some(RspUserLoginField::default()),
        rsp_info: Some(failing_info(3)),
        request_id: 2,
        is_last: true,
    });
    assert!(!state.logged_in);
    assert!(state.login_info.is_none());
    assert!(login_outcome(&state, false).is_err());
}

// The market-data session follows the same discipline: login commits on the
// successful terminal frame, disconnect resets everything.
#[test]
fn test_md_bridge_session() {
    let mut bridge: MdBridge<u64> = MdBridge::new();
    bridge.handle_event(Event::Connected);
    bridge.handle_event(Event::LoginResponse {
        user_login: Some(RspUserLoginField::default()),
        rsp_info: None,
        request_id: 1,
        is_last: true,
    });
    let state = bridge.get_state();
    assert!(state.connected);
    assert!(state.logged_in);
    assert!(md_login_outcome(&state, false).is_ok());

    bridge.handle_event(Event::Disconnected(4097));
    let state = bridge.get_state();
    assert!(!state.connected);
    assert!(!state.logged_in);
    assert!(state.login_info.is_none());

    // Every event reached the stream, in arrival order.
    assert!(matches!(bridge.try_recv_event(), Some(Event::Connected)));
    assert!(matches!(
        bridge.try_recv_event(),
        Some(Event::LoginResponse { .. })
    ));
    assert!(matches!(
        bridge.try_recv_event(),
        Some(Event::Disconnected(4097))
    ));
    assert!(bridge.try_recv_event().is_none());
}

// Each error constructor yields its variant, the business error keeping the
// vendor's code and message.
#[test]
fn test_error_constructors() {
    assert!(matches!(c_string_error("x"), CtpError::FfiError(_)));
    match encoding_error("bad bytes") {
        CtpError::EncodingError(m) => assert_eq!(m, "bad bytes"),
        other => panic!("expected an encoding error, got {:?}", other),
    }
    match connection_error("front lost") {
        CtpError::ConnectionError(m) => assert_eq!(m, "front lost"),
        other => panic!("expected a connection error, got {:?}", other),
    }
    match business_error(-5, "rejected") {
        CtpError::BusinessError(code, m) => {
            assert_eq!(code, -5);
            assert_eq!(m, "rejected");
        }
        other => panic!("expected a business error, got {:?}", other),
    }
}

// Configuration assembly: defaults for absent optional values, failure
// exactly when a credential is missing.
#[test]
fn test_config_from_values() {
    let config = CtpConfig::from_values(
        None,
        None,
        None,
        Some("investor1".to_string()),
        Some("secret".to_string()),
        None,
        vec!["rb2601".to_string()],
        None,
        None,
        None,
    )
    .expect("a configuration with credentials must build");
    assert_eq!(config.md_front_address, "tcp://121.37.80.177:20004");
    assert_eq!(config.trader_front_address, "tcp://121.37.80.177:20002");
    assert_eq!(config.broker_id, "9999");
    assert_eq!(config.investor_id, "investor1");
    assert_eq!(config.password, "secret");
    assert_eq!(config.flow_path, "./flow");
    assert_eq!(config.instruments, vec!["rb2601".to_string()]);
    assert_eq!(config.app_id, "");

    let missing = CtpConfig::from_values(
        None,
        None,
        None,
        None,
        Some("secret".to_string()),
        None,
        vec![],
        None,
        None,
        None,
    );
    assert!(matches!(missing, Err(CtpError::InvalidParameterError(_))));
}

#[test]
fn test_resume_type_default() {
    assert_eq!(ResumeType::default(), ResumeType::Restart);
}

// Heartbeat warnings and pushes resolve no request: they reach only the
// stream.
#[test]
fn test_uncorrelated_events_resolve_nothing() {
    let mut bridge: TraderBridge<u64> = TraderBridge::new();
    let id = bridge.begin_request();
    assert!(!bridge.handle_event(Event::HeartbeatWarning(10)));
    assert!(!bridge.handle_event(Event::Push(5)));
    assert!(!bridge.handle_event(Event::QueryResponse {
        payload: Some(1),
        rsp_info: None,
        request_id: id,
        is_last: true,
    }));
    // The single-shot request is still waiting.
    assert!(complete_request(&mut bridge, id, false).is_err());
}

// The trader session caches the authentication payload committed by the
// successful terminal frame.
#[test]
fn test_authenticate_commits_payload() {
    let mut state = AsyncTraderState::default();
    state.apply_event::<u64>(&Event::AuthenticateResponse {
        rsp_authenticate: Some(ctp_rust::types::RspAuthenticateField::default()),
        rsp_info: None,
        request_id: 1,
        is_last: true,
    });
    assert!(state.authenticated);
    assert!(state.auth_info.is_some());
    assert!(authenticate_outcome(&state, false).is_ok());

    let md = AsyncMdState::default();
    assert!(!md.connected);
}
