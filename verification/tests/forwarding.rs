use edsh::errors::TunnelError;
use edsh::forward::{DirectionPump, Forwarder, Policy, ShutdownAction, forward_direction_all,
    forward_interleaved, forward_wait_both};

fn flatten(chunks: &[Vec<u8>]) -> Vec<u8> {
    let mut all = Vec::new();
    for c in chunks {
        all.extend_from_slice(c);
    }
    all
}

#[test]
fn round_trip_single_byte() {
    let mut pump = DirectionPump::new();
    let outs = forward_direction_all(&mut pump, vec![vec![42u8]]);
    assert_eq!(outs, vec![vec![42u8]]);
}

#[test]
fn round_trip_one_buffer_sized_chunk() {
    // One chunk of the size an I/O copy buffer typically has.
    let chunk: Vec<u8> = (0..8192u32).map(|i| (i % 256) as u8).collect();
    let mut pump = DirectionPump::new();
    let outs = forward_direction_all(&mut pump, vec![chunk.clone()]);
    assert_eq!(outs.len(), 1);
    assert_eq!(outs[0], chunk);
}

#[test]
fn round_trip_multi_chunk_in_order() {
    let chunks = vec![
        b"first ".to_vec(),
        b"second ".to_vec(),
        Vec::new(),
        b"third".to_vec(),
    ];
    let mut pump = DirectionPump::new();
    let outs = forward_direction_all(&mut pump, chunks.clone());
    assert_eq!(outs, chunks);
    assert_eq!(flatten(&outs), b"first second third".to_vec());
}

#[test]
fn interleaved_streams_do_not_interfere() {
    let a_chunks = vec![b"alpha".to_vec(), b"beta".to_vec(), b"gamma".to_vec()];
    let b_chunks = vec![b"one".to_vec(), b"two".to_vec()];
    // Two different interleavings of the same two streams.
    for schedule in [
        vec![true, false, true, false, true],
        vec![false, true, true, true, false],
    ] {
        let mut a = DirectionPump::new();
        let mut b = DirectionPump::new();
        let (a_out, b_out) =
            forward_interleaved(&mut a, &mut b, a_chunks.clone(), b_chunks.clone(), &schedule);
        assert_eq!(a_out, a_chunks);
        assert_eq!(b_out, b_chunks);
    }
}

#[test]
fn wait_both_waits_for_remote_to_finish() {
    let mut f = Forwarder::new(Policy::WaitBoth);
    // The local target closes its write side at once: the local-to-remote
    // direction ends before anything was sent.
    let act = f.on_outbound_eof();
    assert!(matches!(act, ShutdownAction::FinishRemoteSend));
    assert!(!f.complete());
    // The remote side keeps sending; every byte still arrives before the
    // composite result is reported.
    let mut delivered = Vec::new();
    for i in 0..100u8 {
        assert!(!f.complete());
        let out = f.on_inbound_chunk(vec![i, i, i]);
        delivered.extend_from_slice(&out);
    }
    assert_eq!(delivered.len(), 300);
    let act = f.on_inbound_eof();
    assert!(matches!(act, ShutdownAction::CloseLocalWrite));
    assert!(f.complete());
    assert!(f.result().is_ok());
}

#[test]
fn race_either_completes_on_local_eof() {
    let mut f = Forwarder::new(Policy::RaceEither);
    // The remote side never closes; local input runs dry.
    let act = f.on_outbound_eof();
    assert!(matches!(act, ShutdownAction::FinishRemoteSend));
    // Complete at once, without waiting for the remote direction.
    assert!(f.complete());
    assert!(f.result().is_ok());
}

#[test]
fn half_close_propagates_after_buffered_data() {
    let mut f = Forwarder::new(Policy::WaitBoth);
    let out = f.on_inbound_chunk(b"tail of the stream".to_vec());
    assert_eq!(out, b"tail of the stream".to_vec());
    // End-of-stream from the remote side: the local write half is closed,
    // and only the write half.
    let act = f.on_inbound_eof();
    assert!(matches!(act, ShutdownAction::CloseLocalWrite));
    // The opposite direction still runs.
    assert!(!f.complete());
}

#[test]
fn forwarding_nothing_is_a_no_op() {
    let mut pump = DirectionPump::new();
    let outs = forward_direction_all(&mut pump, Vec::new());
    assert!(outs.is_empty());
    let mut a = DirectionPump::new();
    let mut b = DirectionPump::new();
    let (a_out, b_out) =
        forward_interleaved(&mut a, &mut b, Vec::new(), Vec::new(), &Vec::new());
    assert!(a_out.is_empty());
    assert!(b_out.is_empty());
}

#[test]
fn whole_pair_delivers_both_directions() {
    let remote_in = vec![b"from the remote peer".to_vec()];
    let local_in = vec![b"from the local target".to_vec(), b", more".to_vec()];
    let (to_local, to_remote, result) =
        forward_wait_both(remote_in.clone(), true, local_in.clone(), true);
    assert_eq!(to_local, remote_in);
    assert_eq!(to_remote, local_in);
    assert!(result.is_ok());
}

#[test]
fn whole_pair_reports_failure_after_delivering() {
    let remote_in = vec![b"delivered anyway".to_vec()];
    let (to_local, to_remote, result) = forward_wait_both(remote_in.clone(), false, Vec::new(), true);
    assert_eq!(to_local, remote_in);
    assert!(to_remote.is_empty());
    assert_eq!(result, Err(TunnelError::DirectionalIo));
}

#[test]
fn directional_error_does_not_abort_other_direction() {
    let mut f = Forwarder::new(Policy::WaitBoth);
    f.on_inbound_error();
    // The local-to-remote direction keeps forwarding.
    let out = f.on_outbound_chunk(b"still flowing".to_vec());
    assert_eq!(out, b"still flowing".to_vec());
    assert!(!f.complete());
    f.on_outbound_eof();
    assert!(f.complete());
    let r = f.result();
    assert_eq!(r, Err(TunnelError::DirectionalIo));
    assert!(!TunnelError::DirectionalIo.is_fatal());
}
