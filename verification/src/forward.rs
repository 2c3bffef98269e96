//! The bidirectional forwarding engine.
//!
//! A forwarding pair couples one remote stream to one local duplex resource
//! and drains both directions. Each direction is a pump: the shell reads a
//! chunk from the source half, hands it to the pump, and writes the returned
//! bytes to the sink half. The pump keeps a ghost transcript of everything it
//! forwarded, so the contracts pin down that bytes travel unchanged and in
//! order. When a direction ends, the pump tells the shell which half to
//! close; the shutdown policy decides when the pair as a whole is complete.

use vstd::prelude::*;

use crate::errors::TunnelError;

verus! {

/// The shutdown policy of a forwarding pair.
///
/// A server-side pair waits for both directions so that data already in
/// flight is fully delivered before the stream is torn down. A client-side
/// pair completes as soon as either direction ends, so an ephemeral session
/// exits promptly once its local input is exhausted.
#[derive(Clone, Copy, PartialEq, Eq, Structural, Debug)]
pub enum Policy {
    /// Complete only once both directions have reached a terminal state.
    WaitBoth,
    /// Complete as soon as either direction reaches a terminal state.
    RaceEither,
}

/// The state of one directional copy.
#[derive(Clone, Copy, PartialEq, Eq, Structural, Debug)]
pub enum DirStatus {
    /// Bytes may still arrive.
    Running,
    /// The source reported end-of-data; the sink's write half is to be closed.
    Done,
    /// The copy ended with an I/O error.
    Failed,
}

/// What the shell must close when a direction ends.
#[derive(Clone, Copy, PartialEq, Eq, Structural, Debug)]
pub enum ShutdownAction {
    /// Shut the local resource's write half down, so its peer observes
    /// end-of-data.
    CloseLocalWrite,
    /// Finish the remote stream's send half.
    FinishRemoteSend,
}

/// One direction of a forwarding pair.
pub struct DirectionPump {
    /// Whether the direction still runs, ended cleanly, or failed.
    pub status: DirStatus,
    /// Every byte forwarded so far, in order.
    pub transferred: Ghost<Seq<u8>>,
}

impl DirectionPump {
    /// Whether this direction has reached a terminal state.
    pub open spec fn is_terminal(self) -> bool {
        !(self.status is Running)
    }

    /// A fresh direction: running, nothing forwarded yet.
    pub fn new() -> (p: DirectionPump)
        ensures
            p.status is Running,
            p.transferred@ == Seq::<u8>::empty(),
    {
        DirectionPump { status: DirStatus::Running, transferred: Ghost(Seq::empty()) }
    }

    /// Forward one chunk: the bytes to write to the sink are exactly the
    /// bytes read from the source, and they extend the transcript in order.
    pub fn forward_chunk(&mut self, chunk: Vec<u8>) -> (out: Vec<u8>)
        requires
            old(self).status is Running,
        ensures
            final(self).status is Running,
            out@ == chunk@,
            final(self).transferred@ == old(self).transferred@ + chunk@,
    {
        proof {
            self.transferred@ = self.transferred@ + chunk@;
        }
        chunk
    }

    /// The source reported end-of-data: the direction ends cleanly and the
    /// transcript is final.
    pub fn finish(&mut self)
        requires
            old(self).status is Running,
        ensures
            final(self).status is Done,
            final(self).transferred@ == old(self).transferred@,
    {
        self.status = DirStatus::Done;
    }

    /// The copy hit an I/O error: the direction ends failed, with whatever
    /// was already delivered kept in the transcript.
    pub fn fail(&mut self)
        requires
            old(self).status is Running,
        ensures
            final(self).status is Failed,
            final(self).transferred@ == old(self).transferred@,
    {
        self.status = DirStatus::Failed;
    }
}

/// The concatenation of a list of chunks, in list order.
pub open spec fn concat_all(chunks: Seq<Seq<u8>>) -> Seq<u8>
    decreases chunks.len(),
{
    if chunks.len() == 0 {
        Seq::empty()
    } else {
        concat_all(chunks.drop_last()) + chunks.last()
    }
}

/// A forwarding pair: one remote stream coupled to one local duplex resource.
pub struct Forwarder {
    /// When the pair as a whole counts as complete.
    pub policy: Policy,
    /// The remote-to-local direction.
    pub inbound: DirectionPump,
    /// The local-to-remote direction.
    pub outbound: DirectionPump,
}

impl Forwarder {
    /// A fresh pair under the given policy: both directions running, nothing
    /// forwarded.
    pub open spec fn is_initial(self, policy: Policy) -> bool {
        &&& self.policy == policy
        &&& self.inbound.status is Running
        &&& self.inbound.transferred@ == Seq::<u8>::empty()
        &&& self.outbound.status is Running
        &&& self.outbound.transferred@ == Seq::<u8>::empty()
    }

    /// Whether the pair is complete under its policy.
    pub open spec fn spec_complete(self) -> bool {
        match self.policy {
            Policy::WaitBoth => self.inbound.is_terminal() && self.outbound.is_terminal(),
            Policy::RaceEither => self.inbound.is_terminal() || self.outbound.is_terminal(),
        }
    }

    pub fn new(policy: Policy) -> (f: Forwarder)
        ensures
            f.is_initial(policy),
    {
        Forwarder { policy, inbound: DirectionPump::new(), outbound: DirectionPump::new() }
    }

    /// Forward one chunk that arrived from the remote stream; the result is
    /// what must be written to the local resource.
    pub fn on_inbound_chunk(&mut self, chunk: Vec<u8>) -> (out: Vec<u8>)
        requires
            old(self).inbound.status is Running,
        ensures
            out@ == chunk@,
            final(self).inbound.status is Running,
            final(self).inbound.transferred@ == old(self).inbound.transferred@ + chunk@,
            final(self).outbound == old(self).outbound,
            final(self).policy == old(self).policy,
    {
        self.inbound.forward_chunk(chunk)
    }

    /// Forward one chunk read from the local resource; the result is what
    /// must be sent on the remote stream.
    pub fn on_outbound_chunk(&mut self, chunk: Vec<u8>) -> (out: Vec<u8>)
        requires
            old(self).outbound.status is Running,
        ensures
            out@ == chunk@,
            final(self).outbound.status is Running,
            final(self).outbound.transferred@ == old(self).outbound.transferred@ + chunk@,
            final(self).inbound == old(self).inbound,
            final(self).policy == old(self).policy,
    {
        self.outbound.forward_chunk(chunk)
    }

    /// The remote side finished sending: the inbound transcript is final and
    /// the local resource's write half is to be closed, so the local peer
    /// observes end-of-data only after everything already forwarded.
    pub fn on_inbound_eof(&mut self) -> (act: ShutdownAction)
        requires
            old(self).inbound.status is Running,
        ensures
            act is CloseLocalWrite,
            final(self).inbound.status is Done,
            final(self).inbound.transferred@ == old(self).inbound.transferred@,
            final(self).outbound == old(self).outbound,
            final(self).policy == old(self).policy,
    {
        self.inbound.finish();
        ShutdownAction::CloseLocalWrite
    }

    /// The local source reached end-of-data: the outbound transcript is final
    /// and the remote stream's send half is to be finished.
    pub fn on_outbound_eof(&mut self) -> (act: ShutdownAction)
        requires
            old(self).outbound.status is Running,
        ensures
            act is FinishRemoteSend,
            final(self).outbound.status is Done,
            final(self).outbound.transferred@ == old(self).outbound.transferred@,
            final(self).inbound == old(self).inbound,
            final(self).policy == old(self).policy,
    {
        self.outbound.finish();
        ShutdownAction::FinishRemoteSend
    }

    /// A directional I/O error: it ends this direction only; the opposite
    /// direction is untouched and keeps running.
    pub fn on_inbound_error(&mut self)
        requires
            old(self).inbound.status is Running,
        ensures
            final(self).inbound.status is Failed,
            final(self).inbound.transferred@ == old(self).inbound.transferred@,
            final(self).outbound == old(self).outbound,
            final(self).policy == old(self).policy,
    {
        self.inbound.fail();
    }

    /// A directional I/O error in the local-to-remote copy; the opposite
    /// direction is untouched.
    pub fn on_outbound_error(&mut self)
        requires
            old(self).outbound.status is Running,
        ensures
            final(self).outbound.status is Failed,
            final(self).outbound.transferred@ == old(self).outbound.transferred@,
            final(self).inbound == old(self).inbound,
            final(self).policy == old(self).policy,
    {
        self.outbound.fail();
    }

    /// Whether the pair is complete under its policy: both directions
    /// terminal for `WaitBoth`, either terminal for `RaceEither`.
    pub fn complete(&self) -> (r: bool)
        ensures
            r == self.spec_complete(),
    {
        let inbound_terminal = !matches!(self.inbound.status, DirStatus::Running);
        let outbound_terminal = !matches!(self.outbound.status, DirStatus::Running);
        match self.policy {
            Policy::WaitBoth => inbound_terminal && outbound_terminal,
            Policy::RaceEither => inbound_terminal || outbound_terminal,
        }
    }

    /// The composite result once the pair is complete: success exactly when
    /// no direction errored.
    pub fn result(&self) -> (r: Result<(), TunnelError>)
        requires
            self.spec_complete(),
        ensures
            r is Ok <==> !(self.inbound.status is Failed) && !(self.outbound.status is Failed),
            r is Err ==> (r matches Err(e) && e is DirectionalIo),
    {
        if matches!(self.inbound.status, DirStatus::Failed)
            || matches!(self.outbound.status, DirStatus::Failed) {
            Err(TunnelError::DirectionalIo)
        } else {
            Ok(())
        }
    }
}

/// The views of a list of chunks, in list order.
pub open spec fn chunk_views(chunks: Seq<Vec<u8>>) -> Seq<Seq<u8>>
    decreases chunks.len(),
{
    if chunks.len() == 0 {
        Seq::empty()
    } else {
        chunk_views(chunks.drop_last()).push(chunks.last()@)
    }
}

/// Drain one direction from an in-memory source: every chunk comes out
/// unchanged and in source order, and the transcript grows by exactly the
/// concatenation of the chunks.
pub fn forward_direction_all(pump: &mut DirectionPump, chunks: Vec<Vec<u8>>) -> (outs: Vec<
    Vec<u8>,
>)
    requires
        old(pump).status is Running,
    ensures
        final(pump).status is Running,
        chunk_views(outs@) == chunk_views(chunks@),
        final(pump).transferred@ == old(pump).transferred@ + concat_all(chunk_views(chunks@)),
{
    let ghost all = chunks@;
    let mut rest = chunks;
    let mut outs: Vec<Vec<u8>> = Vec::new();
    let ghost mut i: int = 0;
    while rest.len() > 0
        invariant
            0 <= i <= all.len(),
            i + rest@.len() == all.len(),
            rest@ == all.skip(i),
            outs@.len() == i,
            chunk_views(outs@) == chunk_views(all.take(i)),
            pump.status is Running,
            pump.transferred@ == old(pump).transferred@ + concat_all(chunk_views(all.take(i))),
        decreases rest@.len(),
    {
        let chunk = rest.remove(0);
        assert(chunk == all[i]);
        let ghost prev = outs@;
        let ghost prev_transferred = pump.transferred@;
        let out = pump.forward_chunk(chunk);
        outs.push(out);
        proof {
            assert(rest@ =~= all.skip(i + 1));
            lemma_chunk_views_push(prev, out);
            lemma_chunk_views_take_step(all, i);
            lemma_concat_all_push(chunk_views(all.take(i)), all[i]@);
            assert(pump.transferred@ =~= old(pump).transferred@ + concat_all(
                chunk_views(all.take(i + 1)),
            ));
            i = i + 1;
        }
    }
    proof {
        assert(all.take(i) =~= all);
    }
    outs
}

/// Appending a chunk to a list appends its view to the list of views.
proof fn lemma_chunk_views_push(chunks: Seq<Vec<u8>>, x: Vec<u8>)
    ensures
        chunk_views(chunks.push(x)) == chunk_views(chunks).push(x@),
{
    assert(chunks.push(x).drop_last() =~= chunks);
}

/// Taking one more chunk appends that chunk's view to the views of the
/// prefix.
proof fn lemma_chunk_views_take_step(all: Seq<Vec<u8>>, i: int)
    requires
        0 <= i < all.len(),
    ensures
        chunk_views(all.take(i + 1)) == chunk_views(all.take(i)).push(all[i]@),
{
    assert(all.take(i + 1).drop_last() =~= all.take(i));
}

/// Concatenating one more chunk appends exactly that chunk's bytes.
proof fn lemma_concat_all_push(views: Seq<Seq<u8>>, x: Seq<u8>)
    ensures
        concat_all(views.push(x)) == concat_all(views) + x,
{
    assert(views.push(x).drop_last() =~= views);
}

/// How many entries of a schedule pick the first stream.
pub open spec fn count_true(s: Seq<bool>) -> nat
    decreases s.len(),
{
    if s.len() == 0 {
        0
    } else {
        count_true(s.drop_last()) + if s.last() {
            1nat
        } else {
            0nat
        }
    }
}

/// Stepping the count over a prefix of the schedule.
proof fn lemma_count_true_take_step(s: Seq<bool>, k: int)
    requires
        0 <= k < s.len(),
    ensures
        count_true(s.take(k + 1)) == count_true(s.take(k)) + if s[k] {
            1nat
        } else {
            0nat
        },
{
    assert(s.take(k + 1).drop_last() =~= s.take(k));
}

/// A prefix never picks a stream more often than the whole schedule does,
/// in either direction.
proof fn lemma_count_true_take_bounds(s: Seq<bool>, k: int)
    requires
        0 <= k <= s.len(),
    ensures
        count_true(s.take(k)) <= count_true(s),
        count_true(s) - count_true(s.take(k)) <= s.len() - k,
    decreases s.len() - k,
{
    if k == s.len() {
        assert(s.take(k) =~= s);
    } else {
        lemma_count_true_take_step(s, k);
        lemma_count_true_take_bounds(s, k + 1);
    }
}

/// Forward two streams' chunk lists under an arbitrary interleaving. Each
/// stream's output and transcript are exactly its own bytes, whatever the
/// schedule: concurrent streams of one connection cannot interfere with each
/// other's forwarded byte sequence.
pub fn forward_interleaved(
    a: &mut DirectionPump,
    b: &mut DirectionPump,
    a_chunks: Vec<Vec<u8>>,
    b_chunks: Vec<Vec<u8>>,
    schedule: &Vec<bool>,
) -> (outs: (Vec<Vec<u8>>, Vec<Vec<u8>>))
    requires
        old(a).status is Running,
        old(b).status is Running,
        count_true(schedule@) == a_chunks@.len(),
        schedule@.len() - count_true(schedule@) == b_chunks@.len(),
    ensures
        final(a).status is Running,
        final(b).status is Running,
        chunk_views(outs.0@) == chunk_views(a_chunks@),
        chunk_views(outs.1@) == chunk_views(b_chunks@),
        final(a).transferred@ == old(a).transferred@ + concat_all(chunk_views(a_chunks@)),
        final(b).transferred@ == old(b).transferred@ + concat_all(chunk_views(b_chunks@)),
{
    let ghost a_all = a_chunks@;
    let ghost b_all = b_chunks@;
    let mut rest_a = a_chunks;
    let mut rest_b = b_chunks;
    let mut outs_a: Vec<Vec<u8>> = Vec::new();
    let mut outs_b: Vec<Vec<u8>> = Vec::new();
    let ghost mut ai: int = 0;
    let ghost mut bi: int = 0;
    let mut k: usize = 0;
    while k < schedule.len()
        invariant
            0 <= k <= schedule@.len(),
            ai == count_true(schedule@.take(k as int)),
            ai + bi == k,
            0 <= ai <= a_all.len(),
            0 <= bi <= b_all.len(),
            count_true(schedule@) == a_all.len(),
            schedule@.len() - count_true(schedule@) == b_all.len(),
            rest_a@ == a_all.skip(ai),
            rest_b@ == b_all.skip(bi),
            outs_a@.len() == ai,
            outs_b@.len() == bi,
            chunk_views(outs_a@) == chunk_views(a_all.take(ai)),
            chunk_views(outs_b@) == chunk_views(b_all.take(bi)),
            a.status is Running,
            b.status is Running,
            a.transferred@ == old(a).transferred@ + concat_all(chunk_views(a_all.take(ai))),
            b.transferred@ == old(b).transferred@ + concat_all(chunk_views(b_all.take(bi))),
        decreases schedule@.len() - k,
    {
        proof {
            lemma_count_true_take_step(schedule@, k as int);
            lemma_count_true_take_bounds(schedule@, k + 1);
        }
        if schedule[k] {
            let chunk = rest_a.remove(0);
            assert(chunk == a_all[ai]);
            let ghost prev = outs_a@;
            let out = a.forward_chunk(chunk);
            outs_a.push(out);
            proof {
                assert(rest_a@ =~= a_all.skip(ai + 1));
                lemma_chunk_views_push(prev, out);
                lemma_chunk_views_take_step(a_all, ai);
                lemma_concat_all_push(chunk_views(a_all.take(ai)), a_all[ai]@);
                assert(a.transferred@ =~= old(a).transferred@ + concat_all(
                    chunk_views(a_all.take(ai + 1)),
                ));
                ai = ai + 1;
            }
        } else {
            let chunk = rest_b.remove(0);
            assert(chunk == b_all[bi]);
            let ghost prev = outs_b@;
            let out = b.forward_chunk(chunk);
            outs_b.push(out);
            proof {
                assert(rest_b@ =~= b_all.skip(bi + 1));
                lemma_chunk_views_push(prev, out);
                lemma_chunk_views_take_step(b_all, bi);
                lemma_concat_all_push(chunk_views(b_all.take(bi)), b_all[bi]@);
                assert(b.transferred@ =~= old(b).transferred@ + concat_all(
                    chunk_views(b_all.take(bi + 1)),
                ));
                bi = bi + 1;
            }
        }
        k = k + 1;
    }
    proof {
        assert(schedule@.take(k as int) =~= schedule@);
        assert(a_all.take(ai) =~= a_all);
        assert(b_all.take(bi) =~= b_all);
    }
    (outs_a, outs_b)
}

/// Drain a whole server-side forwarding pair against in-memory data: the
/// remote stream delivers `remote_in` and then ends, cleanly or with an
/// error; the local resource's read half delivers `local_in` and then ends
/// likewise. The operation completes only once both directions are terminal,
/// every byte of either direction is delivered unchanged and in order before
/// the composite result is reported, and that result is success exactly when
/// no direction errored.
pub fn forward_wait_both(
    remote_in: Vec<Vec<u8>>,
    remote_clean: bool,
    local_in: Vec<Vec<u8>>,
    local_clean: bool,
) -> (r: (Vec<Vec<u8>>, Vec<Vec<u8>>, Result<(), TunnelError>))
    ensures
        chunk_views(r.0@) == chunk_views(remote_in@),
        chunk_views(r.1@) == chunk_views(local_in@),
        r.2 is Ok <==> remote_clean && local_clean,
{
    let mut f = Forwarder::new(Policy::WaitBoth);
    let to_local = forward_direction_all(&mut f.inbound, remote_in);
    if remote_clean {
        let _ = f.on_inbound_eof();
    } else {
        f.on_inbound_error();
    }
    let to_remote = forward_direction_all(&mut f.outbound, local_in);
    if local_clean {
        let _ = f.on_outbound_eof();
    } else {
        f.on_outbound_error();
    }
    let result = f.result();
    (to_local, to_remote, result)
}

/// Any number of concurrent streams, as the sequence of their transcripts,
/// after an interleaved schedule of forwarding steps: each step appends one
/// chunk to the transcript of the stream it belongs to, exactly as
/// `DirectionPump::forward_chunk` does. A step naming no stream changes
/// nothing.
pub open spec fn apply_schedule(ts: Seq<Seq<u8>>, ops: Seq<(int, Seq<u8>)>) -> Seq<Seq<u8>>
    decreases ops.len(),
{
    if ops.len() == 0 {
        ts
    } else {
        let rest = apply_schedule(ts, ops.drop_last());
        let s = ops.last().0;
        if 0 <= s < rest.len() {
            rest.update(s, rest[s] + ops.last().1)
        } else {
            rest
        }
    }
}

/// The chunks of one stream within an interleaved schedule, in order.
pub open spec fn ops_of(ops: Seq<(int, Seq<u8>)>, s: int) -> Seq<Seq<u8>>
    decreases ops.len(),
{
    if ops.len() == 0 {
        Seq::empty()
    } else {
        let rest = ops_of(ops.drop_last(), s);
        if ops.last().0 == s {
            rest.push(ops.last().1)
        } else {
            rest
        }
    }
}

/// A schedule touches no stream that was not there.
proof fn lemma_apply_schedule_len(ts: Seq<Seq<u8>>, ops: Seq<(int, Seq<u8>)>)
    ensures
        apply_schedule(ts, ops).len() == ts.len(),
    decreases ops.len(),
{
    if ops.len() > 0 {
        lemma_apply_schedule_len(ts, ops.drop_last());
    }
}

/// For any number of concurrent streams and any interleaved schedule of
/// their chunks, each stream's transcript grows by exactly the concatenation
/// of its own chunks, in their order, whatever the other streams do and
/// however the steps interleave: streams of one connection cannot interfere
/// with one another's forwarded byte sequence.
pub proof fn lemma_streams_independent(ts: Seq<Seq<u8>>, ops: Seq<(int, Seq<u8>)>, s: int)
    requires
        0 <= s < ts.len(),
    ensures
        apply_schedule(ts, ops)[s] == ts[s] + concat_all(ops_of(ops, s)),
    decreases ops.len(),
{
    if ops.len() == 0 {
        assert(ts[s] + concat_all(ops_of(ops, s)) =~= ts[s]);
    } else {
        let shorter = ops.drop_last();
        lemma_streams_independent(ts, shorter, s);
        lemma_apply_schedule_len(ts, shorter);
        let rest = apply_schedule(ts, shorter);
        let last_stream = ops.last().0;
        if last_stream == s {
            lemma_concat_all_push(ops_of(shorter, s), ops.last().1);
            assert(apply_schedule(ts, ops)[s] =~= ts[s] + concat_all(ops_of(ops, s)));
        } else {
            if 0 <= last_stream < rest.len() {
                assert(apply_schedule(ts, ops)[s] == rest[s]);
            }
        }
    }
}

/// Under `WaitBoth`, a pair whose remote-to-local direction still runs is not
/// complete: forwarding keeps going until that direction also finishes, so
/// everything the remote side sends is delivered before the result is
/// reported, even when the local target closed its write side early.
pub proof fn lemma_wait_both_waits(f: Forwarder)
    requires
        f.policy is WaitBoth,
        f.inbound.status is Running,
    ensures
        !f.spec_complete(),
{
}

/// Under `WaitBoth`, a complete pair has both directions terminal: both
/// transcripts are final when the composite result is reported.
pub proof fn lemma_wait_both_delivers_all(f: Forwarder)
    requires
        f.policy is WaitBoth,
        f.spec_complete(),
    ensures
        f.inbound.is_terminal(),
        f.outbound.is_terminal(),
{
}

/// Under `RaceEither`, the pair is complete as soon as the local-to-remote
/// direction ends, whatever the remote side does: the client need not wait
/// for a peer that keeps its side open.
pub proof fn lemma_race_either_prompt(f: Forwarder)
    requires
        f.policy is RaceEither,
        f.outbound.is_terminal(),
    ensures
        f.spec_complete(),
{
}

} // verus!
