//! PDU exchange engine: multiplexes outstanding request/response PDUs
//! over the transport. Outgoing requests get a fresh sequence
//! identifier; incoming frames are matched to the pending request that
//! carries the same identifier. A request that receives no response
//! within the mailbox timeout resolves to a timeout — retry policy
//! belongs to the caller.

use vstd::prelude::*;

verus! {

/// One outstanding request.
pub struct PendingPdu {
    /// Sequence identifier; unique among the pending requests.
    pub seq: u64,
    /// Configured address the request was sent to.
    pub target: u16,
    /// Request payload.
    pub payload: Vec<u8>,
    /// Response payload, once a matching frame arrived.
    pub response: Option<Vec<u8>>,
    /// Send time, in milliseconds.
    pub sent_at_ms: u64,
}

/// The engine's queue state: the pending requests and the sequence
/// counter that stamps new ones.
pub struct PduEngine {
    /// Next sequence identifier to hand out.
    pub next_seq: u64,
    /// Cap on the number of requests in flight.
    pub max_frames: usize,
    /// Mailbox response timeout, in milliseconds.
    pub mailbox_response_ms: u64,
    /// Outstanding requests, oldest first.
    pub pending: Vec<PendingPdu>,
}

/// Error returned when a request cannot be queued.
#[derive(Clone, Copy, Debug, PartialEq, Eq, Structural)]
pub enum SendError {
    /// The cap on in-flight requests is reached.
    QueueFull,
}

/// What polling a pending handle yields.
pub enum PollResult {
    /// The matching response arrived; the request is settled.
    Ready(Vec<u8>),
    /// No response within the mailbox timeout; the request is settled.
    TimedOut,
    /// Still waiting within the timeout window.
    Pending,
    /// No request with that handle is outstanding.
    Unknown,
}

/// What polling the entry at `i` of queue `pre` at time `now` must
/// yield, and the queue it must leave behind.
pub open spec fn spec_poll(
    pre: Seq<PendingPdu>,
    i: int,
    now: int,
    timeout: int,
    post: Seq<PendingPdu>,
    r: PollResult,
) -> bool {
    match pre[i].response {
        Some(p) => r == PollResult::Ready(p) && post == pre.remove(i),
        None => if now >= pre[i].sent_at_ms + timeout {
            r == PollResult::TimedOut && post == pre.remove(i)
        } else {
            r == PollResult::Pending && post == pre
        },
    }
}

impl PduEngine {
    /// Validity: in-flight count within the cap, every pending sequence
    /// identifier already handed out, and no identifier pending twice —
    /// the uniqueness that makes response matching unambiguous.
    pub open spec fn inv(self) -> bool {
        &&& self.pending@.len() <= self.max_frames
        &&& forall|i: int|
            0 <= i < self.pending@.len() ==> (#[trigger] self.pending@[i]).seq < self.next_seq
        &&& forall|i: int, j: int|
            0 <= i < j < self.pending@.len()
                ==> #[trigger] self.pending@[i].seq != #[trigger] self.pending@[j].seq
    }

    /// A fresh engine with no request outstanding.
    pub fn new(max_frames: usize, mailbox_response_ms: u64) -> (e: PduEngine)
        ensures
            e.inv(),
            e.next_seq == 0,
            e.max_frames == max_frames,
            e.mailbox_response_ms == mailbox_response_ms,
            e.pending@.len() == 0,
    {
        PduEngine { next_seq: 0, max_frames, mailbox_response_ms, pending: Vec::new() }
    }

    /// Queue a request for `target`, stamping it with a fresh sequence
    /// identifier that is returned as the pending handle. Fails, with
    /// the engine unchanged, iff the in-flight cap is reached.
    pub fn send_request(&mut self, target: u16, payload: Vec<u8>, now_ms: u64) -> (r: Result<
        u64,
        SendError,
    >)
        requires
            old(self).inv(),
            old(self).next_seq < u64::MAX,
        ensures
            final(self).inv(),
            old(self).pending@.len() >= old(self).max_frames ==> r == Err::<u64, SendError>(
                SendError::QueueFull,
            ) && *final(self) == *old(self),
            old(self).pending@.len() < old(self).max_frames ==> r == Ok::<u64, SendError>(
                old(self).next_seq,
            ) && final(self).next_seq == old(self).next_seq + 1 && final(self).pending@ == old(
                self,
            ).pending@.push(
                PendingPdu {
                    seq: old(self).next_seq,
                    target,
                    payload,
                    response: None,
                    sent_at_ms: now_ms,
                },
            ) && final(self).max_frames == old(self).max_frames && final(self).mailbox_response_ms
                == old(self).mailbox_response_ms,
    {
        if self.pending.len() >= self.max_frames {
            return Err(SendError::QueueFull);
        }
        let seq = self.next_seq;
        self.next_seq = self.next_seq + 1;
        self.pending.push(PendingPdu { seq, target, payload, response: None, sent_at_ms: now_ms });
        Ok(seq)
    }

    /// Match an incoming frame to the pending request with its sequence
    /// identifier, storing the frame as that request's response.
    /// Returns whether a still-unanswered request matched; a frame with
    /// an unknown or already-answered identifier leaves the engine
    /// unchanged.
    pub fn deliver(&mut self, seq: u64, frame: Vec<u8>) -> (matched: bool)
        requires
            old(self).inv(),
        ensures
            final(self).inv(),
            matched <==> exists|i: int|
                0 <= i < old(self).pending@.len() && (#[trigger] old(self).pending@[i]).seq == seq
                    && old(self).pending@[i].response is None,
            matched ==> exists|i: int|
                0 <= i < old(self).pending@.len() && (#[trigger] old(self).pending@[i]).seq == seq
                    && old(self).pending@[i].response is None && final(self).pending@ == old(
                    self,
                ).pending@.update(
                    i,
                    PendingPdu { response: Some(frame), ..old(self).pending@[i] },
                ),
            !matched ==> *final(self) == *old(self),
            final(self).next_seq == old(self).next_seq,
            final(self).max_frames == old(self).max_frames,
            final(self).mailbox_response_ms == old(self).mailbox_response_ms,
    {
        let n = self.pending.len();
        let mut i: usize = 0;
        while i < n
            invariant
                i <= n,
                n == self.pending@.len(),
                forall|j: int| 0 <= j < i ==> (#[trigger] self.pending@[j]).seq != seq,
                old(self).inv(),
                *self == *old(self),
            decreases n - i,
        {
            if self.pending[i].seq == seq {
                match &self.pending[i].response {
                    Some(_) => {
                        return false;
                    }
                    None => {}
                }
                self.pending[i].response = Some(frame);
                return true;
            }
            i += 1;
        }
        false
    }

    /// Poll the request behind `handle` at time `now_ms`: its response
    /// if one arrived, a timeout once the mailbox window has passed —
    /// either way the request is settled and leaves the queue — or
    /// still pending. Unknown handles are reported as such.
    pub fn poll_response(&mut self, handle: u64, now_ms: u64) -> (r: PollResult)
        requires
            old(self).inv(),
        ensures
            final(self).inv(),
            (forall|i: int|
                0 <= i < old(self).pending@.len() ==> (#[trigger] old(self).pending@[i]).seq
                    != handle) ==> (r matches PollResult::Unknown && *final(self) == *old(self)),
            (exists|i: int|
                0 <= i < old(self).pending@.len() && (#[trigger] old(self).pending@[i]).seq
                    == handle) ==> exists|i: int|
                0 <= i < old(self).pending@.len() && (#[trigger] old(self).pending@[i]).seq
                    == handle && spec_poll(
                    old(self).pending@,
                    i,
                    now_ms as int,
                    old(self).mailbox_response_ms as int,
                    final(self).pending@,
                    r,
                ),
            final(self).next_seq == old(self).next_seq,
            final(self).max_frames == old(self).max_frames,
            final(self).mailbox_response_ms == old(self).mailbox_response_ms,
    {
        let n = self.pending.len();
        let mut i: usize = 0;
        while i < n
            invariant
                i <= n,
                n == self.pending@.len(),
                forall|j: int| 0 <= j < i ==> (#[trigger] self.pending@[j]).seq != handle,
                old(self).inv(),
                *self == *old(self),
            decreases n - i,
        {
            if self.pending[i].seq == handle {
                let entry = self.pending.remove(i);
                let PendingPdu { seq, target, payload, response, sent_at_ms } = entry;
                match response {
                    Some(p) => {
                        return PollResult::Ready(p);
                    }
                    None => {
                        if now_ms >= sent_at_ms && now_ms - sent_at_ms >= self.mailbox_response_ms {
                            return PollResult::TimedOut;
                        }
                        self.pending.insert(
                            i,
                            PendingPdu { seq, target, payload, response: None, sent_at_ms },
                        );
                        proof {
                            assert(self.pending@ =~= old(self).pending@);
                        }
                        return PollResult::Pending;
                    }
                }
            }
            i += 1;
        }
        PollResult::Unknown
    }

    /// Settle every outstanding request at once, so that stopping the
    /// driver leaves no PDU permanently pending.
    pub fn cancel_all(&mut self)
        ensures
            final(self).inv(),
            final(self).pending@.len() == 0,
            final(self).next_seq == old(self).next_seq,
            final(self).max_frames == old(self).max_frames,
            final(self).mailbox_response_ms == old(self).mailbox_response_ms,
    {
        self.pending.clear();
    }
}

} // verus!
