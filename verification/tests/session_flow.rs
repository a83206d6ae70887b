use voice_sessions::collector::ClearSession;
use voice_sessions::ident::UserId;
use voice_sessions::session::{
    elapsed_since, offer_response, CloseSession, Expiry, IceConnectionState, NegotiationError,
    OfferRequest, OfferResponse, PacketVerdict, Phase, Session, SessionAction, CHECKS_INTERVAL,
};

const S1: u128 = 0x67e5_5044_10b1_426f_9247_bb68_0e5f_e0c8;
const U1: UserId = UserId(277790772);

fn is_close_sequence(actions: &[SessionAction], user_id: UserId, id: u128) -> bool {
    actions.len() == 3
        && matches!(actions[0], SessionAction::CloseWriter)
        && matches!(actions[1], SessionAction::CloseConnection)
        && matches!(actions[2], SessionAction::ScheduleCleanup(ClearSession(u, i)) if u == user_id && i == id)
}

#[test]
fn three_packets_and_an_empty_one_then_two_closes() {
    let (mut session, first) = Session::new(S1, U1, 0, 100_000, 10_000);
    assert!(matches!(first, SessionAction::Setup));
    let started = session.accept_remote();
    assert_eq!(started.len(), 1);
    assert!(matches!(started[0], SessionAction::ReadPackets));
    assert_eq!(session.phase(), Phase::Active);

    let packets: Vec<Vec<u8>> = vec![vec![1, 2, 3], vec![], vec![4], vec![5, 6]];
    let mut file: Vec<Vec<u8>> = Vec::new();
    let mut now = 0u64;
    for p in &packets {
        now += 20;
        if session.handle_packet(p, now) == PacketVerdict::Append {
            file.push(p.clone());
        }
    }
    assert_eq!(file, vec![vec![1u8, 2, 3], vec![4], vec![5, 6]]);
    assert_eq!(session.last_activity(), 80);

    let closed = session.close(CloseSession);
    assert!(is_close_sequence(&closed, U1, S1));
    assert_eq!(session.phase(), Phase::Closing);
    assert!(!session.connected());

    let again = session.close(CloseSession);
    assert!(again.is_empty());
    assert_eq!(session.phase(), Phase::Closing);

    assert_eq!(session.handle_packet(&[9], 100), PacketVerdict::Discard);
    assert_eq!(session.last_activity(), 80);
}

#[test]
fn idle_timeout_closes_before_total_timeout() {
    let (mut session, _) = Session::new(S1, U1, 1_000, 100_000, 10_000);
    assert_eq!(session.expiry(11_000), None);
    assert!(session.check_timeouts(11_000).is_empty());
    assert!(session.connected());

    assert_eq!(session.expiry(12_000), Some(Expiry::Idle));
    let actions = session.check_timeouts(12_000);
    assert!(is_close_sequence(&actions, U1, S1));
    assert!(!session.connected());
    assert!(session.check_timeouts(13_000).is_empty());
}

#[test]
fn total_timeout_closes_a_session_that_still_gets_packets() {
    let (mut session, _) = Session::new(S1, U1, 0, 100_000, 10_000);
    let mut now = 0;
    while now < 100_000 {
        now += 5_000;
        assert_eq!(session.handle_packet(&[1], now), PacketVerdict::Append);
        assert_eq!(session.expiry(now), None);
    }
    assert_eq!(session.expiry(100_001), Some(Expiry::Total));
    assert!(is_close_sequence(&session.check_timeouts(100_001), U1, S1));
}

#[test]
fn clock_that_reads_earlier_counts_as_no_time_passed() {
    let (mut session, _) = Session::new(S1, U1, 50_000, 10, 10);
    assert_eq!(session.expiry(0), None);
    assert_eq!(session.handle_packet(&[1], 40_000), PacketVerdict::Append);
    assert_eq!(session.last_activity(), 50_000);
    assert_eq!(session.startup(), 50_000);
}

#[test]
fn offer_is_negotiated_by_a_live_session_only() {
    let (mut session, _) = Session::new(S1, U1, 0, 1, 1);
    let actions = session.handle_offer(OfferRequest("v=0".to_string()));
    assert_eq!(actions.len(), 1);
    assert!(matches!(&actions[0], SessionAction::Negotiate { offer } if offer == "v=0"));
    assert_eq!(session.phase(), Phase::Negotiating);
    session.accept_remote();
    let actions = session.handle_offer(OfferRequest("v=1".to_string()));
    assert_eq!(actions.len(), 1);
    assert_eq!(session.phase(), Phase::Active);
    session.close(CloseSession);
    assert!(session.handle_offer(OfferRequest("v=2".to_string())).is_empty());
    assert!(session.accept_remote().is_empty());
    assert_eq!(session.phase(), Phase::Closing);
    session.connection_closed();
    assert_eq!(session.phase(), Phase::Terminated);
    assert!(session.close(CloseSession).is_empty());
    session.connection_closed();
    assert_eq!(session.phase(), Phase::Terminated);
}

#[test]
fn failed_or_disconnected_transport_closes_the_session() {
    for state in [
        IceConnectionState::Unspecified,
        IceConnectionState::New,
        IceConnectionState::Checking,
        IceConnectionState::Connected,
        IceConnectionState::Completed,
        IceConnectionState::Closed,
    ] {
        let (mut session, _) = Session::new(S1, U1, 0, 1, 1);
        assert!(session.connection_state_changed(state).is_empty());
        assert!(session.connected());
    }
    for state in [IceConnectionState::Failed, IceConnectionState::Disconnected] {
        let (mut session, _) = Session::new(S1, U1, 0, 1, 1);
        assert!(is_close_sequence(&session.connection_state_changed(state), U1, S1));
        assert!(!session.connected());
        assert!(session.connection_state_changed(state).is_empty());
    }
}

#[test]
fn failed_setup_closes_the_session() {
    let (mut session, _) = Session::new(S1, U1, 0, 1, 1);
    assert!(session.setup_finished(true).is_empty());
    assert!(session.connected());
    assert!(is_close_sequence(&session.setup_finished(false), U1, S1));
    assert!(session.setup_finished(false).is_empty());
}

#[test]
fn negotiation_answers() {
    assert!(matches!(offer_response(Ok(Some("sdp".into()))), OfferResponse(Ok(s)) if s == "sdp"));
    assert!(matches!(offer_response(Ok(None)), OfferResponse(Err(NegotiationError::NoLocalDescription))));
    assert!(matches!(offer_response(Err("e".into())), OfferResponse(Err(NegotiationError::Transport(s))) if s == "e"));
    assert_eq!(NegotiationError::NoLocalDescription.message(), "generate local_description failed");
    assert_eq!(NegotiationError::Transport("x".into()).message(), "x");
    assert_eq!(elapsed_since(3, 10), 7);
    assert_eq!(elapsed_since(10, 3), 0);
    assert_eq!(CHECKS_INTERVAL, 10_000);
}
