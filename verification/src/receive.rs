use crate::error::{TransportOutcome, VsockError};
use vstd::arithmetic::div_mod::{lemma_mod_add_multiples_vanish, lemma_mod_self_0, lemma_small_mod};
use vstd::prelude::*;

verus! {

/// The model of a receive in progress: the cap on the bytes it may gather, the largest
/// window handed to one `recv`, and the bytes gathered so far.
pub struct ReceiveState {
    pub max_data_size: nat,
    pub chunk_size: nat,
    pub received: Seq<u8>,
}

/// The model of what the receive loop does after one call of the transport.
pub enum ReceiveStepModel {
    Continue(ReceiveState),
    Done(Result<Seq<u8>, VsockError>),
}

impl ReceiveState {
    /// The bytes gathered never exceed the cap.
    pub open spec fn wf(self) -> bool {
        self.received.len() <= self.max_data_size
    }

    /// The size of the next window: one chunk, or what is left of the cap if that is less.
    pub open spec fn window_len(self) -> nat {
        if self.chunk_size <= self.max_data_size - self.received.len() {
            self.chunk_size
        } else {
            (self.max_data_size - self.received.len()) as nat
        }
    }

    /// What one call of the transport leads to; on success the transport wrote its bytes to
    /// the front of `window`.
    pub open spec fn step(self, outcome: TransportOutcome, window: Seq<u8>) -> ReceiveStepModel {
        match outcome {
            TransportOutcome::Transferred(n) => {
                if n == 0 {
                    // The peer closed the connection.
                    ReceiveStepModel::Done(Ok(self.received))
                } else {
                    let received = self.received + window.subrange(0, n as int);
                    if n < self.chunk_size {
                        // A short read ends the message.
                        ReceiveStepModel::Done(Ok(received))
                    } else if received.len() >= self.max_data_size {
                        ReceiveStepModel::Done(Err(VsockError::RecvBufferFull))
                    } else {
                        ReceiveStepModel::Continue(ReceiveState { received, ..self })
                    }
                }
            },
            TransportOutcome::Interrupted => ReceiveStepModel::Continue(self),
            TransportOutcome::Failed(code) => ReceiveStepModel::Done(Err(VsockError::Os(code))),
        }
    }

    /// Whether `outcome` can come from a transport that wrote into `window` of this state.
    pub open spec fn fits(self, outcome: TransportOutcome, window: Seq<u8>) -> bool {
        outcome matches TransportOutcome::Transferred(n) ==> n <= window.len() && n <= self.window_len()
    }
}

/// A receive in progress: at most `max_data_size` bytes are gathered, in windows of at most
/// `chunk_size` bytes; `received` holds the bytes gathered so far.
pub struct ReceiveLoop {
    pub max_data_size: usize,
    pub chunk_size: usize,
    pub received: Vec<u8>,
}

/// What the receive loop does after one call of the transport.
pub enum ReceiveStep {
    /// Call the transport again, with the window of this state.
    Continue(ReceiveLoop),
    /// The receive is over, with the bytes received or an error.
    Done(Result<Vec<u8>, VsockError>),
}

impl View for ReceiveLoop {
    type V = ReceiveState;

    open spec fn view(&self) -> ReceiveState {
        ReceiveState {
            max_data_size: self.max_data_size as nat,
            chunk_size: self.chunk_size as nat,
            received: self.received@,
        }
    }
}

impl View for ReceiveStep {
    type V = ReceiveStepModel;

    open spec fn view(&self) -> ReceiveStepModel {
        match self {
            ReceiveStep::Continue(s) => ReceiveStepModel::Continue(s@),
            ReceiveStep::Done(Ok(bytes)) => ReceiveStepModel::Done(Ok(bytes@)),
            ReceiveStep::Done(Err(e)) => ReceiveStepModel::Done(Err(*e)),
        }
    }
}

impl ReceiveLoop {
    /// Starts a receive of at most `max_data_size` bytes in windows of at most `chunk_size`
    /// bytes, with nothing gathered yet.
    pub fn new(max_data_size: usize, chunk_size: usize) -> (r: ReceiveLoop)
        ensures
            r@ == (ReceiveState { max_data_size: max_data_size as nat, chunk_size: chunk_size as nat, received: Seq::empty() }),
            r@.wf(),
    {
        ReceiveLoop { max_data_size, chunk_size, received: Vec::new() }
    }

    /// Starts a receive as `new` does, after checking that the buffer holds at least one chunk.
    pub fn checked(max_data_size: usize, chunk_size: usize) -> (r: Result<ReceiveLoop, VsockError>)
        ensures
            max_data_size < chunk_size <==> r == Err::<ReceiveLoop, VsockError>(VsockError::BufferTooSmall),
            chunk_size <= max_data_size <==> r is Ok,
            r matches Ok(s) ==> s@ == (ReceiveState {
                max_data_size: max_data_size as nat,
                chunk_size: chunk_size as nat,
                received: Seq::empty(),
            }),
    {
        if max_data_size < chunk_size {
            Err(VsockError::BufferTooSmall)
        } else {
            Ok(ReceiveLoop::new(max_data_size, chunk_size))
        }
    }

    /// The size of the window to hand to the next call of the transport.
    pub fn window_len(&self) -> (len: usize)
        requires
            self@.wf(),
        ensures
            len == self@.window_len(),
            len <= self.chunk_size,
            self.received.len() + len <= self.max_data_size,
    {
        let left: usize = self.max_data_size - self.received.len();
        if self.chunk_size <= left {
            self.chunk_size
        } else {
            left
        }
    }

    /// Takes in what the transport reported; on success it wrote its bytes to the front of
    /// `window`.
    pub fn advance(self, outcome: TransportOutcome, window: &[u8]) -> (next: ReceiveStep)
        requires
            self@.wf(),
            self@.fits(outcome, window@),
        ensures
            next@ == self@.step(outcome, window@),
            outcome matches TransportOutcome::Failed(code) ==> next@ == ReceiveStepModel::Done(
                Err::<Seq<u8>, VsockError>(VsockError::Os(code)),
            ),
            outcome == TransportOutcome::Transferred(0) ==> next@ == ReceiveStepModel::Done(
                Ok::<Seq<u8>, VsockError>(self.received@),
            ),
            outcome is Interrupted ==> next@ == ReceiveStepModel::Continue(self@),
            next matches ReceiveStep::Continue(s) ==> s@.wf() && s.max_data_size == self.max_data_size
                && s.chunk_size == self.chunk_size,
    {
        let mut this = self;
        match outcome {
            TransportOutcome::Transferred(n) => {
                if n == 0 {
                    return ReceiveStep::Done(Ok(this.received));
                }
                let ghost before = this.received@;
                let mut i: usize = 0;
                while i < n
                    invariant
                        i <= n,
                        n <= window@.len(),
                        this.received@ == before + window@.subrange(0, i as int),
                        this.max_data_size == self.max_data_size,
                        this.chunk_size == self.chunk_size,
                    decreases n - i,
                {
                    this.received.push(window[i]);
                    i = i + 1;
                    assert(this.received@ =~= before + window@.subrange(0, i as int));
                }
                if n < this.chunk_size {
                    ReceiveStep::Done(Ok(this.received))
                } else if this.received.len() >= this.max_data_size {
                    ReceiveStep::Done(Err(VsockError::RecvBufferFull))
                } else {
                    ReceiveStep::Continue(this)
                }
            },
            TransportOutcome::Interrupted => ReceiveStep::Continue(this),
            TransportOutcome::Failed(code) => ReceiveStep::Done(Err(VsockError::Os(code))),
        }
    }
}

/// How many bytes a `recv` of state `s` hands back when the peer's stream is `stream`, of
/// which `s.received` is the part already received: as much of the rest as fits the window.
pub open spec fn stream_delivery(s: ReceiveState, stream: Seq<u8>) -> nat {
    let left: int = stream.len() - s.received.len();
    if s.window_len() <= left {
        s.window_len()
    } else {
        left as nat
    }
}

/// The result of the receive loop from `s` on, when the peer's stream is `stream` and every
/// `recv` hands back as much of it as fits its window (and `0` once the stream is over).
pub open spec fn stream_run(s: ReceiveState, stream: Seq<u8>) -> Result<Seq<u8>, VsockError>
    decreases stream.len() - s.received.len(),
{
    let k: nat = s.received.len();
    let n: nat = stream_delivery(s, stream);
    match s.step(TransportOutcome::Transferred(n as usize), stream.subrange(k as int, (k + n) as int)) {
        ReceiveStepModel::Continue(next) => {
            if k < next.received.len() <= stream.len() {
                stream_run(next, stream)
            } else {
                Err(VsockError::RecvBufferFull)
            }
        },
        ReceiveStepModel::Done(result) => result,
    }
}

/// What a receive of at most `max_data_size` bytes in windows of `chunk_size` bytes returns
/// when the peer sends `stream`: the whole stream when it is shorter than the cap; otherwise
/// an error when the cap is a whole number of chunks, because the last window is then full,
/// and else the first `max_data_size` bytes, because the last window is then short.
pub open spec fn stream_outcome(max_data_size: nat, chunk_size: nat, stream: Seq<u8>) -> Result<Seq<u8>, VsockError> {
    if stream.len() < max_data_size {
        Ok(stream)
    } else if max_data_size % chunk_size == 0 {
        Err(VsockError::RecvBufferFull)
    } else {
        Ok(stream.subrange(0, max_data_size as int))
    }
}

proof fn lemma_stream_run_from(s: ReceiveState, stream: Seq<u8>)
    requires
        0 < s.chunk_size <= usize::MAX,
        s.received.len() < s.max_data_size,
        s.received.len() <= stream.len(),
        s.received == stream.subrange(0, s.received.len() as int),
    ensures
        stream_run(s, stream) == (if stream.len() < s.max_data_size {
            Ok(stream)
        } else if (s.max_data_size - s.received.len()) % (s.chunk_size as int) == 0 {
            Err(VsockError::RecvBufferFull)
        } else {
            Ok(stream.subrange(0, s.max_data_size as int))
        }),
    decreases stream.len() - s.received.len(),
{
    let k: nat = s.received.len();
    let max: nat = s.max_data_size;
    let chunk: nat = s.chunk_size;
    let n: nat = stream_delivery(s, stream);
    let delivered = stream.subrange(k as int, (k + n) as int);
    let received = s.received + delivered.subrange(0, n as int);
    assert(delivered.subrange(0, n as int) =~= delivered);
    assert(received =~= stream.subrange(0, (k + n) as int));
    if n == 0 {
        assert(stream.subrange(0, k as int) =~= stream);
    } else if n < chunk {
        if k + n == stream.len() {
            assert(stream.subrange(0, (k + n) as int) =~= stream);
            if stream.len() >= max {
                lemma_small_mod((max - k) as nat, chunk);
            }
        } else {
            lemma_small_mod((max - k) as nat, chunk);
        }
    } else {
        if k + n >= max {
            lemma_mod_self_0(chunk as int);
        } else {
            let next = ReceiveState { received, ..s };
            lemma_stream_run_from(next, stream);
            lemma_mod_add_multiples_vanish((max - (k + n)) as int, chunk as int);
        }
    }
}

/// Law: a receive of at most `max_data_size` bytes in windows of `chunk_size` bytes
/// (`0 < chunk_size <= max_data_size`) reassembles what the peer sends: when every `recv`
/// hands back as much of the peer's stream as fits its window, the receive returns the whole
/// stream if it is shorter than the cap, fails with `RecvBufferFull` if it is not and the
/// cap is a whole number of chunks, and returns the first `max_data_size` bytes otherwise.
pub proof fn lemma_receive_reassembles_stream(max_data_size: usize, chunk_size: usize, stream: Seq<u8>)
    requires
        0 < chunk_size <= max_data_size,
    ensures
        stream_run(
            ReceiveState { max_data_size: max_data_size as nat, chunk_size: chunk_size as nat, received: Seq::empty() },
            stream,
        ) == stream_outcome(max_data_size as nat, chunk_size as nat, stream),
{
    let s = ReceiveState { max_data_size: max_data_size as nat, chunk_size: chunk_size as nat, received: Seq::empty() };
    assert(s.received =~= stream.subrange(0, 0));
    lemma_stream_run_from(s, stream);
}

/// Law: the bytes a receive gathers never exceed its cap, a success returns exactly the bytes
/// gathered before and the bytes the transport wrote, and a receive continues only below the cap.
pub proof fn lemma_receive_keeps_cap(s: ReceiveState, outcome: TransportOutcome, window: Seq<u8>)
    requires
        s.wf(),
        s.fits(outcome, window),
    ensures
        s.step(outcome, window) matches ReceiveStepModel::Done(Ok(bytes)) ==> (bytes.len() <= s.max_data_size
            && (bytes == s.received || (outcome matches TransportOutcome::Transferred(n) && bytes == s.received
            + window.subrange(0, n as int)))),
        s.step(outcome, window) matches ReceiveStepModel::Continue(next) ==> ((next.wf()
            && next.received.len() < next.max_data_size) || next == s),
{
}

/// Law: every window is one chunk long, unless less than a chunk is left of the cap, and
/// then it is exactly what is left.
pub proof fn lemma_window_is_chunk_or_rest_of_cap(s: ReceiveState)
    requires
        s.wf(),
    ensures
        s.window_len() <= s.chunk_size,
        s.received.len() + s.window_len() <= s.max_data_size,
        s.window_len() == s.chunk_size || s.received.len() + s.window_len() == s.max_data_size,
        s.received.len() + s.chunk_size <= s.max_data_size ==> s.window_len() == s.chunk_size,
{
}

/// Law: a failed `recv` ends the receive with its errno as the error, whatever has been
/// gathered before: gathered bytes are never handed back as a complete message after a failure.
pub proof fn lemma_receive_failure_ends_with_errno(s: ReceiveState, code: i32, window: Seq<u8>)
    ensures
        s.step(TransportOutcome::Failed(code), window) == ReceiveStepModel::Done(
            Err::<Seq<u8>, VsockError>(VsockError::Os(code)),
        ),
{
}

/// Law: a receive ends in success only on a close by the peer (a zero-byte read), which
/// returns what was gathered, or on a read shorter than a chunk, which returns what was gathered
/// and what it brought.
pub proof fn lemma_receive_success_only_on_close_or_short_read(s: ReceiveState, outcome: TransportOutcome, window: Seq<u8>)
    ensures
        s.step(outcome, window) matches ReceiveStepModel::Done(Ok(bytes)) ==> (outcome matches TransportOutcome::Transferred(
            n,
        ) && (n == 0 && bytes == s.received || 0 < n < s.chunk_size && bytes == s.received + window.subrange(
            0,
            n as int,
        ))),
        s.step(TransportOutcome::Transferred(0), window) == ReceiveStepModel::Done(Ok::<Seq<u8>, VsockError>(s.received)),
{
}

/// Law: an interrupted call of the transport changes nothing; the same window is handed out again.
pub proof fn lemma_receive_interrupted_retries(s: ReceiveState, window: Seq<u8>)
    ensures
        s.step(TransportOutcome::Interrupted, window) == ReceiveStepModel::Continue(s),
{
}

/// Law: a read shorter than a chunk ends the receive with what has been gathered.
pub proof fn lemma_short_read_ends_receive(s: ReceiveState, n: usize, window: Seq<u8>)
    requires
        0 < n < s.chunk_size,
    ensures
        s.step(TransportOutcome::Transferred(n), window) == ReceiveStepModel::Done(
            Ok::<Seq<u8>, VsockError>(s.received + window.subrange(0, n as int)),
        ),
{
}

} // verus!
