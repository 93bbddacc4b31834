use crate::error::{TransportOutcome, VsockError};
use vstd::prelude::*;

verus! {

/// The state of sending a payload of `data_len` bytes in chunks of at most `chunk_size`
/// bytes: `position` bytes have been accepted by the transport so far.
#[derive(Debug, Clone, Copy, PartialEq, Eq, Structural)]
pub struct SendLoop {
    pub data_len: usize,
    pub chunk_size: usize,
    pub position: usize,
}

/// What the send loop does after one call of the transport.
#[derive(Debug, Clone, Copy, PartialEq, Eq)]
pub enum SendStep {
    /// Call the transport again, on the chunk of this state.
    Continue(SendLoop),
    /// The send is over, with this result.
    Done(Result<(), VsockError>),
}

impl SendLoop {
    /// The position never passes the end of the payload.
    pub open spec fn wf(self) -> bool {
        self.position <= self.data_len
    }

    /// The end (exclusive) of the next chunk: at most `chunk_size` bytes, and no further
    /// than the end of the payload.
    pub open spec fn chunk_end(self) -> int {
        if self.chunk_size <= self.data_len - self.position {
            self.position + self.chunk_size
        } else {
            self.data_len as int
        }
    }

    /// What one call of the transport, on the next chunk, leads to. Bytes left to send in
    /// chunks of zero bytes can never go out: that ends the send with `EmptyChunk`, whatever
    /// the transport reported.
    pub open spec fn step(self, outcome: TransportOutcome) -> SendStep {
        if self.chunk_size == 0 && self.position < self.data_len {
            SendStep::Done(Err(VsockError::EmptyChunk))
        } else {
            self.step_on(outcome)
        }
    }

    /// What one call of the transport leads to, once a chunk can carry bytes.
    pub open spec fn step_on(self, outcome: TransportOutcome) -> SendStep {
        match outcome {
            TransportOutcome::Transferred(n) => {
                if n == 0 {
                    // The peer closed the connection.
                    SendStep::Done(Ok(()))
                } else if self.position + n == self.data_len {
                    SendStep::Done(Ok(()))
                } else if self.position + n > self.data_len {
                    SendStep::Done(Err(VsockError::SendExceededDataLength))
                } else {
                    SendStep::Continue(SendLoop { position: (self.position + n) as usize, ..self })
                }
            },
            TransportOutcome::Interrupted => SendStep::Continue(self),
            TransportOutcome::Failed(code) => SendStep::Done(Err(VsockError::Os(code))),
        }
    }

    /// Starts sending a payload of `data_len` bytes in chunks of at most `chunk_size` bytes.
    pub fn new(data_len: usize, chunk_size: usize) -> (s: SendLoop)
        ensures
            s == (SendLoop { data_len, chunk_size, position: 0 }),
            s.wf(),
    {
        SendLoop { data_len, chunk_size, position: 0 }
    }

    /// The bounds `(start, end)` of the next chunk of the payload to hand to the transport.
    pub fn chunk(&self) -> (bounds: (usize, usize))
        requires
            self.wf(),
        ensures
            bounds.0 == self.position,
            bounds.1 == self.chunk_end(),
            bounds.0 <= bounds.1 <= self.data_len,
            bounds.1 - bounds.0 <= self.chunk_size,
    {
        let left: usize = self.position;
        let remaining: usize = self.data_len - left;
        let len: usize = if self.chunk_size <= remaining {
            self.chunk_size
        } else {
            remaining
        };
        (left, left + len)
    }

    /// Takes in what the transport reported for the chunk of this state.
    pub fn advance(self, outcome: TransportOutcome) -> (next: SendStep)
        requires
            self.wf(),
            outcome matches TransportOutcome::Transferred(n) ==> self.position + n <= usize::MAX,
        ensures
            next == self.step(outcome),
            self.chunk_size > 0 || self.position == self.data_len ==> {
                &&& outcome == TransportOutcome::Transferred(0) ==> next == SendStep::Done(Ok::<(), VsockError>(()))
                &&& outcome matches TransportOutcome::Failed(code) ==> next == SendStep::Done(
                    Err::<(), VsockError>(VsockError::Os(code)),
                )
                &&& outcome is Interrupted ==> next == SendStep::Continue(self)
            },
            next matches SendStep::Continue(s) ==> s.wf() && s.data_len == self.data_len
                && s.chunk_size == self.chunk_size && s.position >= self.position,
    {
        if self.chunk_size == 0 && self.position < self.data_len {
            return SendStep::Done(Err(VsockError::EmptyChunk));
        }
        match outcome {
            TransportOutcome::Transferred(n) => {
                if n == 0 {
                    SendStep::Done(Ok(()))
                } else {
                    let position: usize = self.position + n;
                    if position == self.data_len {
                        SendStep::Done(Ok(()))
                    } else if position > self.data_len {
                        SendStep::Done(Err(VsockError::SendExceededDataLength))
                    } else {
                        SendStep::Continue(SendLoop { position, ..self })
                    }
                }
            },
            TransportOutcome::Interrupted => SendStep::Continue(self),
            TransportOutcome::Failed(code) => SendStep::Done(Err(VsockError::Os(code))),
        }
    }
}

/// `chunks` tile `[start, end)` in order: the first starts at `start`, each starts where the
/// one before ended, the last ends at `end`, and none is longer than `max`.
pub open spec fn tiles_in_order(chunks: Seq<(int, int)>, start: int, end: int, max: int) -> bool {
    &&& chunks.len() > 0
    &&& chunks[0].0 == start
    &&& chunks.last().1 == end
    &&& forall|i: int|
        #![trigger chunks[i]]
        0 <= i < chunks.len() ==> chunks[i].0 <= chunks[i].1 <= chunks[i].0 + max
    &&& forall|i: int|
        #![trigger chunks[i]]
        0 <= i < chunks.len() - 1 ==> chunks[i].1 == chunks[i + 1].0
}

/// The bytes of `data` that `chunks` cover, in the order of the chunks.
pub open spec fn bytes_of(data: Seq<u8>, chunks: Seq<(int, int)>) -> Seq<u8>
    decreases chunks.len(),
{
    if chunks.len() == 0 {
        Seq::empty()
    } else {
        data.subrange(chunks[0].0, chunks[0].1) + bytes_of(data, chunks.drop_first())
    }
}

/// The chunks that the send loop hands out from `s` on, in order, and the result it ends
/// with, when the transport takes every chunk it is handed whole.
pub open spec fn whole_chunk_run(s: SendLoop) -> (Seq<(int, int)>, Result<(), VsockError>)
    decreases s.data_len - s.position,
{
    let chunk = (s.position as int, s.chunk_end());
    match s.step(TransportOutcome::Transferred((chunk.1 - chunk.0) as usize)) {
        SendStep::Continue(next) => {
            if s.position < next.position <= next.data_len && next.data_len == s.data_len {
                let rest = whole_chunk_run(next);
                (seq![chunk] + rest.0, rest.1)
            } else {
                (seq![chunk], Err(VsockError::SendExceededDataLength))
            }
        },
        SendStep::Done(result) => (seq![chunk], result),
    }
}

/// Law: when the transport takes every chunk it is handed whole, the send loop hands out the
/// rest of the payload in order, in chunks of at most `chunk_size` bytes that tile it, so
/// that the bytes handed out are exactly the payload, and it ends in success. (With a chunk
/// size of zero and bytes left, the send fails with `EmptyChunk` instead: see
/// `lemma_zero_chunk_size_refused`.)
pub proof fn lemma_whole_chunks_deliver_payload(s: SendLoop, data: Seq<u8>)
    requires
        s.wf(),
        s.chunk_size > 0 || s.position == s.data_len,
        data.len() == s.data_len,
    ensures
        whole_chunk_run(s).1 == Ok::<(), VsockError>(()),
        tiles_in_order(whole_chunk_run(s).0, s.position as int, s.data_len as int, s.chunk_size as int),
        bytes_of(data, whole_chunk_run(s).0) == data.subrange(s.position as int, s.data_len as int),
    decreases s.data_len - s.position,
{
    let chunk = (s.position as int, s.chunk_end());
    let run = whole_chunk_run(s);
    match s.step(TransportOutcome::Transferred((chunk.1 - chunk.0) as usize)) {
        SendStep::Continue(next) => {
            lemma_whole_chunks_deliver_payload(next, data);
            let rest = whole_chunk_run(next);
            assert(run.0 == seq![chunk] + rest.0);
            assert(run.0.drop_first() =~= rest.0);
            assert(run.0[0] == chunk);
            assert(next.position == chunk.1);
            assert(bytes_of(data, run.0) == data.subrange(chunk.0, chunk.1) + bytes_of(data, rest.0));
            assert(data.subrange(chunk.0, chunk.1) + data.subrange(next.position as int, s.data_len as int)
                =~= data.subrange(s.position as int, s.data_len as int));
            assert forall|i: int| 0 <= i < run.0.len() - 1 implies #[trigger] run.0[i].1 == run.0[i + 1].0 by {
                if i > 0 {
                    assert(run.0[i] == rest.0[i - 1]);
                    assert(run.0[i + 1] == rest.0[i]);
                }
            }
            assert forall|i: int| 0 <= i < run.0.len() implies #[trigger] run.0[i].0 <= run.0[i].1 <= run.0[i].0
                + s.chunk_size by {
                if i > 0 {
                    assert(run.0[i] == rest.0[i - 1]);
                }
            }
        },
        SendStep::Done(result) => {
            assert(run.0.drop_first() =~= Seq::<(int, int)>::empty());
            assert(run.0[0] == chunk);
            assert(bytes_of(data, run.0) == data.subrange(chunk.0, chunk.1) + bytes_of(data, run.0.drop_first()));
            assert(data.subrange(chunk.0, chunk.1) + Seq::<u8>::empty() =~= data.subrange(s.position as int, s.data_len as int));
        },
    }
}

/// The slices of the payload that the transport accepts, in order, and the step reached,
/// when the calls of the send loop from `s` on are answered with the byte counts `answers`
/// in turn (answers left over after the send ends are not used).
pub open spec fn answered_run(s: SendLoop, answers: Seq<usize>) -> (Seq<(int, int)>, SendStep)
    decreases answers.len(),
{
    if answers.len() == 0 {
        (Seq::empty(), SendStep::Continue(s))
    } else {
        let n = answers[0];
        let accepted = (s.position as int, s.position + n);
        match s.step(TransportOutcome::Transferred(n)) {
            SendStep::Continue(next) => {
                let rest = answered_run(next, answers.drop_first());
                (seq![accepted] + rest.0, rest.1)
            },
            SendStep::Done(result) => (seq![accepted], SendStep::Done(result)),
        }
    }
}

/// Each of `answers` accepts at least one byte and no more than the chunk it answers.
pub open spec fn answers_fit(s: SendLoop, answers: Seq<usize>) -> bool
    decreases answers.len(),
{
    answers.len() == 0 || {
        &&& 1 <= answers[0] <= s.chunk_end() - s.position
        &&& match s.step(TransportOutcome::Transferred(answers[0])) {
            SendStep::Continue(next) => answers_fit(next, answers.drop_first()),
            SendStep::Done(_) => true,
        }
    }
}

/// Law: whatever part of each chunk the transport accepts (at least one byte, at most the
/// chunk), the send loop resumes where the transport stopped, so that the accepted slices,
/// in order, are the payload from the start position on, each of at most `chunk_size`
/// bytes. The send ends exactly when the position reaches the end of the payload, and then
/// in success; until then it continues with the position below the end.
pub proof fn lemma_partial_sends_deliver_payload(s: SendLoop, answers: Seq<usize>, data: Seq<u8>)
    requires
        s.wf(),
        answers_fit(s, answers),
        data.len() == s.data_len,
    ensures
        forall|i: int|
            #![trigger answered_run(s, answers).0[i]]
            0 <= i < answered_run(s, answers).0.len() ==> 1 <= answered_run(s, answers).0[i].1
                - answered_run(s, answers).0[i].0 <= s.chunk_size,
        match answered_run(s, answers).1 {
            SendStep::Done(result) => result == Ok::<(), VsockError>(()) && bytes_of(data, answered_run(s, answers).0)
                == data.subrange(s.position as int, s.data_len as int),
            SendStep::Continue(next) => {
                &&& next.data_len == s.data_len
                &&& next.chunk_size == s.chunk_size
                &&& next.wf()
                &&& s.position <= next.position
                &&& answers.len() > 0 ==> next.position < s.data_len
                &&& bytes_of(data, answered_run(s, answers).0) == data.subrange(s.position as int, next.position as int)
            },
        },
    decreases answers.len(),
{
    let run = answered_run(s, answers);
    if answers.len() == 0 {
        assert(bytes_of(data, run.0) =~= data.subrange(s.position as int, s.position as int));
    } else {
        let n = answers[0];
        let accepted = (s.position as int, s.position + n);
        assert(run.0[0] == accepted);
        match s.step(TransportOutcome::Transferred(n)) {
            SendStep::Continue(next) => {
                let tail = answers.drop_first();
                lemma_partial_sends_deliver_payload(next, tail, data);
                let rest = answered_run(next, tail);
                assert(run.0 == seq![accepted] + rest.0);
                assert(run.0.drop_first() =~= rest.0);
                assert(bytes_of(data, run.0) == data.subrange(accepted.0, accepted.1) + bytes_of(data, rest.0));
                assert forall|i: int| #![trigger run.0[i]] 0 <= i < run.0.len() implies 1 <= run.0[i].1 - run.0[i].0
                    <= s.chunk_size by {
                    if i > 0 {
                        assert(run.0[i] == rest.0[i - 1]);
                    }
                }
                match rest.1 {
                    SendStep::Done(_) => {
                        assert(data.subrange(accepted.0, accepted.1) + data.subrange(next.position as int, s.data_len as int)
                            =~= data.subrange(s.position as int, s.data_len as int));
                    },
                    SendStep::Continue(last) => {
                        assert(data.subrange(accepted.0, accepted.1) + data.subrange(next.position as int, last.position as int)
                            =~= data.subrange(s.position as int, last.position as int));
                    },
                }
            },
            SendStep::Done(result) => {
                assert(run.0.drop_first() =~= Seq::<(int, int)>::empty());
                assert(bytes_of(data, run.0) == data.subrange(accepted.0, accepted.1) + bytes_of(data, run.0.drop_first()));
                assert(data.subrange(accepted.0, accepted.1) + Seq::<u8>::empty() =~= data.subrange(accepted.0, accepted.1));
            },
        }
    }
}

/// Law: a payload with bytes left cannot be sent in chunks of zero bytes: the send fails with
/// `EmptyChunk`, whatever the transport reports, and never claims success.
pub proof fn lemma_zero_chunk_size_refused(s: SendLoop, outcome: TransportOutcome)
    requires
        s.chunk_size == 0,
        s.position < s.data_len,
    ensures
        s.step(outcome) == SendStep::Done(Err::<(), VsockError>(VsockError::EmptyChunk)),
        whole_chunk_run(s).1 == Err::<(), VsockError>(VsockError::EmptyChunk),
{
}

/// Law: every chunk starts at the position, is one chunk long unless less than a chunk of the
/// payload is left, and then runs exactly to the end of the payload.
pub proof fn lemma_chunk_is_full_or_rest_of_payload(s: SendLoop)
    requires
        s.wf(),
    ensures
        s.position <= s.chunk_end() <= s.data_len,
        s.chunk_end() - s.position <= s.chunk_size,
        s.chunk_end() == s.position + s.chunk_size || s.chunk_end() == s.data_len,
        s.position + s.chunk_size <= s.data_len ==> s.chunk_end() == s.position + s.chunk_size,
{
}

/// Law: a zero-byte send is a graceful close by the peer: it ends the send in success at any
/// position, whatever has been sent before, once a chunk can carry bytes.
pub proof fn lemma_send_peer_close_is_success(s: SendLoop)
    requires
        s.wf(),
        s.chunk_size > 0 || s.position == s.data_len,
    ensures
        s.step(TransportOutcome::Transferred(0)) == SendStep::Done(Ok::<(), VsockError>(())),
{
}

/// Law: only an interruption is retried; a failed send ends the send at once with its errno,
/// at any position, whatever has been sent before.
pub proof fn lemma_send_failure_ends_with_errno(s: SendLoop, code: i32)
    requires
        s.chunk_size > 0 || s.position == s.data_len,
    ensures
        s.step(TransportOutcome::Failed(code)) == SendStep::Done(Err::<(), VsockError>(VsockError::Os(code))),
{
}

/// Law: the send loop never changes the payload length or the chunk size, and its position
/// only moves forward, by exactly the bytes the transport accepted.
pub proof fn lemma_send_moves_by_accepted_bytes(s: SendLoop, outcome: TransportOutcome)
    requires
        s.wf(),
    ensures
        s.step(outcome) matches SendStep::Continue(next) ==> {
            &&& next.data_len == s.data_len
            &&& next.chunk_size == s.chunk_size
            &&& (outcome matches TransportOutcome::Transferred(n) ==> next.position == s.position + n && n > 0)
            &&& (!(outcome is Transferred) ==> next.position == s.position)
        },
{
}

/// Law: an interrupted call of the transport changes nothing; the same chunk is handed out again.
pub proof fn lemma_send_interrupted_retries(s: SendLoop)
    requires
        s.chunk_size > 0 || s.position == s.data_len,
    ensures
        s.step(TransportOutcome::Interrupted) == SendStep::Continue(s),
{
}

/// Law: a send ends in success only when the transport reported a close by the peer or the
/// last byte of the payload accepted; it continues only while bytes are left to send.
pub proof fn lemma_send_success_only_at_end(s: SendLoop, outcome: TransportOutcome)
    requires
        s.wf(),
    ensures
        s.step(outcome) == SendStep::Done(Ok::<(), VsockError>(())) ==> (outcome == TransportOutcome::Transferred(0)
            || (outcome matches TransportOutcome::Transferred(n) && s.position + n == s.data_len)),
        s.step(outcome) matches SendStep::Continue(next) ==> (next.wf() && next.position < next.data_len)
            || next == s,
{
}

} // verus!
