use edsh::client::{after_dial, choose_discovery, DiscoveryChoice};
use edsh::errors::TunnelError;
use edsh::forward::{forward_direction_all, DirectionPump, Policy};
use edsh::server::{
    after_bind, begin_stream_forwarding, AcceptAction, AcceptEvent, Session, SessionAction,
    SessionEvent,
};

#[test]
fn handshake_failure_does_not_stop_acceptor() {
    let mut acceptor = after_bind(true).unwrap();
    let act = acceptor.on_event(AcceptEvent::HandshakeFailed);
    assert_eq!(act, AcceptAction::Skip { log: TunnelError::Handshake });
    // The very next valid connection is dispatched normally.
    let act = acceptor.on_event(AcceptEvent::Established);
    assert_eq!(act, AcceptAction::DispatchSession);
}

#[test]
fn endpoint_close_stops_acceptor() {
    let mut acceptor = after_bind(true).unwrap();
    let act = acceptor.on_event(AcceptEvent::EndpointClosed);
    assert_eq!(act, AcceptAction::Stop);
    assert!(!acceptor.running);
}

#[test]
fn bind_failure_is_fatal() {
    let r = after_bind(false);
    assert_eq!(r.err().unwrap(), TunnelError::Bind);
    assert!(TunnelError::Bind.is_fatal());
}

#[test]
fn session_dispatches_streams_and_ends_on_termination() {
    let mut session = Session::new();
    let act = session.on_event(SessionEvent::StreamAccepted);
    assert_eq!(act, SessionAction::DispatchForwarder);
    let act = session.on_event(SessionEvent::StreamAccepted);
    assert_eq!(act, SessionAction::DispatchForwarder);
    let act = session.on_event(SessionEvent::Closed);
    assert_eq!(act, SessionAction::EndSession { log: None });
    assert!(!session.active);
}

#[test]
fn stream_accept_failure_ends_only_its_session() {
    let mut session = Session::new();
    let act = session.on_event(SessionEvent::AcceptFailed);
    assert_eq!(act, SessionAction::EndSession { log: Some(TunnelError::StreamAccept) });
    assert!(!TunnelError::StreamAccept.is_fatal());
}

#[test]
fn unreachable_target_scoped_to_one_stream() {
    // First stream: no listener on the target address.
    let first = begin_stream_forwarding(false);
    assert_eq!(first.err().unwrap(), TunnelError::TargetUnreachable);
    assert!(!TunnelError::TargetUnreachable.is_fatal());
    // A second, concurrently accepted stream on the same connection is
    // forwarded normally.
    let mut second = begin_stream_forwarding(true).unwrap();
    assert_eq!(second.policy, Policy::WaitBoth);
    let payload = vec![b"normal".to_vec(), b" traffic".to_vec()];
    let outs = forward_direction_all(&mut second.inbound, payload.clone());
    assert_eq!(outs, payload);
}

#[test]
fn second_stream_unaffected_by_first_streams_pump() {
    let mut healthy = DirectionPump::new();
    let mut failing = DirectionPump::new();
    failing.fail();
    let outs = forward_direction_all(&mut healthy, vec![b"intact".to_vec()]);
    assert_eq!(outs, vec![b"intact".to_vec()]);
}

#[test]
fn dial_failure_is_fatal() {
    let r = after_dial(false);
    assert_eq!(r.err().unwrap(), TunnelError::Dial);
    assert!(TunnelError::Dial.is_fatal());
}

#[test]
fn client_forwards_under_race_policy() {
    let f = after_dial(true).unwrap();
    assert_eq!(f.policy, Policy::RaceEither);
}

#[test]
fn discovery_defaults_without_relays() {
    assert_eq!(choose_discovery(0), DiscoveryChoice::DefaultDiscovery);
    assert_eq!(choose_discovery(1), DiscoveryChoice::StaticRelays);
    assert_eq!(choose_discovery(3), DiscoveryChoice::StaticRelays);
}
