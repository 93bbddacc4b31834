use crate::address::{VsockAddress, CONNECT_ATTEMPTS};
use crate::error::VsockError;
use vstd::arithmetic::power2::pow2;
use vstd::bits::lemma_u64_shl_is_mul;
use vstd::prelude::*;

verus! {

/// The state of connecting to `address`: `attempt` attempts have failed so far, and at most
/// `max_attempts` are made.
#[derive(Debug, Clone, Copy, PartialEq, Eq, Structural)]
pub struct ConnectRetry {
    pub address: VsockAddress,
    pub max_attempts: usize,
    pub attempt: usize,
}

/// What the system reported to the connect loop.
#[derive(Debug, Clone, Copy, PartialEq, Eq, Structural)]
pub enum ConnectEvent {
    /// A new socket was created.
    SocketOpened,
    /// Creating a socket failed with this `errno`.
    SocketFailed(i32),
    /// The socket is connected.
    Connected,
    /// Connecting failed with this `errno`; the socket is closed.
    ConnectRefused(i32),
    /// The backoff wait is over.
    BackoffElapsed,
}

/// What the connect loop asks the system to do next.
#[derive(Debug, Clone, Copy, PartialEq, Eq)]
pub enum ConnectAction {
    /// Create a new socket.
    OpenSocket,
    /// Connect the new socket to this address.
    Connect(VsockAddress),
    /// Wait this many seconds before the next attempt.
    Sleep(u64),
    /// Stop, with this result: `Ok` when the socket is connected.
    Finish(Result<(), VsockError>),
}

impl ConnectRetry {
    /// No more attempts have been made than allowed.
    pub open spec fn wf(self) -> bool {
        self.attempt <= self.max_attempts
    }

    /// What to do at the start of an attempt: open a socket while attempts are left, and
    /// otherwise give up.
    pub open spec fn first_action(self) -> ConnectAction {
        if self.attempt < self.max_attempts {
            ConnectAction::OpenSocket
        } else {
            ConnectAction::Finish(Err(VsockError::ConnectFailed))
        }
    }

    /// The state after `event`: a finished backoff starts the next attempt.
    pub open spec fn next_state(self, event: ConnectEvent) -> ConnectRetry {
        match event {
            ConnectEvent::BackoffElapsed => ConnectRetry { attempt: (self.attempt + 1) as usize, ..self },
            _ => self,
        }
    }

    /// What to do after `event`. A socket that cannot be created ends the loop; a refused
    /// connection is followed by a wait of `2^attempt` seconds, and then the next attempt.
    pub open spec fn action(self, event: ConnectEvent) -> ConnectAction {
        match event {
            ConnectEvent::SocketOpened => ConnectAction::Connect(self.address),
            ConnectEvent::SocketFailed(code) => ConnectAction::Finish(Err(VsockError::Os(code))),
            ConnectEvent::Connected => ConnectAction::Finish(Ok(())),
            ConnectEvent::ConnectRefused(_) => ConnectAction::Sleep(pow2(self.attempt as nat) as u64),
            ConnectEvent::BackoffElapsed => self.next_state(event).first_action(),
        }
    }

    /// Starts connecting to port `port` at CID `cid`, with at most `max_attempts` attempts.
    pub fn new(cid: u32, port: u32, max_attempts: usize) -> (c: ConnectRetry)
        ensures
            c == (ConnectRetry { address: VsockAddress { cid, port }, max_attempts, attempt: 0 }),
            c.wf(),
    {
        ConnectRetry { address: VsockAddress::new(cid, port), max_attempts, attempt: 0 }
    }

    /// Starts connecting to port `port` at CID `cid`, with the default number of attempts.
    pub fn with_default_attempts(cid: u32, port: u32) -> (c: ConnectRetry)
        ensures
            c == (ConnectRetry { address: VsockAddress { cid, port }, max_attempts: CONNECT_ATTEMPTS, attempt: 0 }),
            c.wf(),
    {
        ConnectRetry::new(cid, port, CONNECT_ATTEMPTS)
    }

    /// What to do first.
    pub fn start(&self) -> (a: ConnectAction)
        ensures
            a == self.first_action(),
    {
        if self.attempt < self.max_attempts {
            ConnectAction::OpenSocket
        } else {
            ConnectAction::Finish(Err(VsockError::ConnectFailed))
        }
    }

    /// Takes in what the system reported and says what to do next.
    pub fn on_event(&mut self, event: ConnectEvent) -> (a: ConnectAction)
        requires
            old(self).wf(),
            event is ConnectRefused ==> old(self).attempt < 64,
            event is BackoffElapsed ==> old(self).attempt < old(self).max_attempts,
        ensures
            *final(self) == old(self).next_state(event),
            a == old(self).action(event),
            final(self).wf(),
            final(self).address == old(self).address,
            final(self).max_attempts == old(self).max_attempts,
            event is SocketOpened ==> a == ConnectAction::Connect(old(self).address),
    {
        match event {
            ConnectEvent::SocketOpened => ConnectAction::Connect(self.address),
            ConnectEvent::SocketFailed(code) => ConnectAction::Finish(Err(VsockError::Os(code))),
            ConnectEvent::Connected => ConnectAction::Finish(Ok(())),
            ConnectEvent::ConnectRefused(_) => ConnectAction::Sleep(backoff_secs(self.attempt)),
            ConnectEvent::BackoffElapsed => {
                self.attempt = self.attempt + 1;
                self.start()
            },
        }
    }
}

/// The wait after the failed attempt number `attempt` (counting from 0): `2^attempt` seconds.
pub fn backoff_secs(attempt: usize) -> (secs: u64)
    requires
        attempt < 64,
    ensures
        secs == pow2(attempt as nat),
{
    let shift: u64 = attempt as u64;
    proof {
        vstd::bits::lemma_u64_pow2_no_overflow(shift as nat);
        lemma_u64_shl_is_mul(1u64, shift);
    }
    1u64 << shift
}

/// The actions of the connect loop from `s` on, against a peer that refuses every connection
/// (with `errno` `code`): the action of the state, then those that follow each report.
pub open spec fn refused_run(s: ConnectRetry, code: i32) -> Seq<ConnectAction>
    decreases s.max_attempts - s.attempt,
{
    if s.attempt < s.max_attempts {
        seq![s.first_action(), s.action(ConnectEvent::SocketOpened), s.action(ConnectEvent::ConnectRefused(code))]
            + refused_run(s.next_state(ConnectEvent::BackoffElapsed), code)
    } else {
        seq![s.first_action()]
    }
}

proof fn lemma_refused_run_from(s: ConnectRetry, code: i32)
    requires
        s.wf(),
    ensures
        refused_run(s, code).len() == 3 * (s.max_attempts - s.attempt) + 1,
        forall|j: int|
            0 <= j < s.max_attempts - s.attempt ==> {
                &&& #[trigger] refused_run(s, code)[3 * j] == ConnectAction::OpenSocket
                &&& refused_run(s, code)[3 * j + 1] == ConnectAction::Connect(s.address)
                &&& refused_run(s, code)[3 * j + 2] == ConnectAction::Sleep(pow2((s.attempt + j) as nat) as u64)
            },
        refused_run(s, code)[3 * (s.max_attempts - s.attempt)] == ConnectAction::Finish(
            Err::<(), VsockError>(VsockError::ConnectFailed),
        ),
    decreases s.max_attempts - s.attempt,
{
    let run = refused_run(s, code);
    if s.attempt < s.max_attempts {
        let next = s.next_state(ConnectEvent::BackoffElapsed);
        lemma_refused_run_from(next, code);
        let rest = refused_run(next, code);
        let head = seq![s.first_action(), s.action(ConnectEvent::SocketOpened), s.action(ConnectEvent::ConnectRefused(code))];
        assert(run == head + rest);
        assert forall|j: int| 0 <= j < s.max_attempts - s.attempt implies {
            &&& #[trigger] run[3 * j] == ConnectAction::OpenSocket
            &&& run[3 * j + 1] == ConnectAction::Connect(s.address)
            &&& run[3 * j + 2] == ConnectAction::Sleep(pow2((s.attempt + j) as nat) as u64)
        } by {
            if j > 0 {
                let i: int = j - 1;
                assert(0 <= i < next.max_attempts - next.attempt);
                assert(rest[3 * i] == ConnectAction::OpenSocket);
                assert(run[3 * j] == rest[3 * i]);
                assert(run[3 * j + 1] == rest[3 * i + 1]);
                assert(run[3 * j + 2] == rest[3 * i + 2]);
                assert(next.attempt + i == s.attempt + j);
            }
        }
        assert(run[3 * (s.max_attempts - s.attempt)] == rest[3 * (next.max_attempts - next.attempt)]);
    }
}

/// Law: against a peer that refuses every connection, the connect loop makes exactly
/// `max_attempts` attempts; attempt `i` (from 0) opens a socket, connects it to the address
/// and then waits `2^i` seconds; after the last one it gives up with `ConnectFailed`. With no
/// attempts allowed it gives up at once. (Beyond 64 attempts the wait no longer fits in a
/// `u64` and the loop does not go on; the law is stated up to there.)
pub proof fn lemma_refused_connect_gives_up(cid: u32, port: u32, max_attempts: usize, code: i32)
    requires
        max_attempts <= 64,
    ensures
        ({
            let run = refused_run(ConnectRetry { address: VsockAddress { cid, port }, max_attempts, attempt: 0 }, code);
            &&& run.len() == 3 * max_attempts + 1
            &&& forall|i: int|
                0 <= i < max_attempts ==> {
                    &&& #[trigger] run[3 * i] == ConnectAction::OpenSocket
                    &&& run[3 * i + 1] == ConnectAction::Connect(VsockAddress { cid, port })
                    &&& run[3 * i + 2] == ConnectAction::Sleep(pow2(i as nat) as u64)
                }
            &&& run[3 * max_attempts as int] == ConnectAction::Finish(Err::<(), VsockError>(VsockError::ConnectFailed))
        }),
{
    let s = ConnectRetry { address: VsockAddress { cid, port }, max_attempts, attempt: 0 };
    lemma_refused_run_from(s, code);
}

/// Law: `connect` makes the default number of attempts, five: against a peer that refuses
/// every connection it waits 1, 2, 4, 8 and 16 seconds after the five attempts and then gives
/// up with `ConnectFailed`.
pub proof fn lemma_default_connect_gives_up_after_five(cid: u32, port: u32, code: i32)
    ensures
        ({
            let run = refused_run(ConnectRetry { address: VsockAddress { cid, port }, max_attempts: CONNECT_ATTEMPTS, attempt: 0 }, code);
            &&& CONNECT_ATTEMPTS == 5
            &&& run.len() == 16
            &&& run[2] == ConnectAction::Sleep(1)
            &&& run[5] == ConnectAction::Sleep(2)
            &&& run[8] == ConnectAction::Sleep(4)
            &&& run[11] == ConnectAction::Sleep(8)
            &&& run[14] == ConnectAction::Sleep(16)
            &&& run[15] == ConnectAction::Finish(Err::<(), VsockError>(VsockError::ConnectFailed))
        }),
{
    lemma_refused_connect_gives_up(cid, port, CONNECT_ATTEMPTS, code);
    let run = refused_run(ConnectRetry { address: VsockAddress { cid, port }, max_attempts: CONNECT_ATTEMPTS, attempt: 0 }, code);
    vstd::arithmetic::power2::lemma2_to64();
    let (i0, i1, i2, i3, i4): (int, int, int, int, int) = (0, 1, 2, 3, 4);
    assert(run[3 * i0] == ConnectAction::OpenSocket);
    assert(run[3 * i0 + 2] == ConnectAction::Sleep(pow2(i0 as nat) as u64));
    assert(run[3 * i1] == ConnectAction::OpenSocket);
    assert(run[3 * i1 + 2] == ConnectAction::Sleep(pow2(i1 as nat) as u64));
    assert(run[3 * i2] == ConnectAction::OpenSocket);
    assert(run[3 * i2 + 2] == ConnectAction::Sleep(pow2(i2 as nat) as u64));
    assert(run[3 * i3] == ConnectAction::OpenSocket);
    assert(run[3 * i3 + 2] == ConnectAction::Sleep(pow2(i3 as nat) as u64));
    assert(run[3 * i4] == ConnectAction::OpenSocket);
    assert(run[3 * i4 + 2] == ConnectAction::Sleep(pow2(i4 as nat) as u64));
}

/// Law: the connect loop never changes the address it connects to nor the number of attempts
/// it may make: every `Connect` it asks for, at any attempt, carries the address it was started
/// with.
pub proof fn lemma_connect_keeps_address(s: ConnectRetry, event: ConnectEvent)
    ensures
        s.next_state(event).address == s.address,
        s.next_state(event).max_attempts == s.max_attempts,
        s.action(ConnectEvent::SocketOpened) == ConnectAction::Connect(s.address),
        s.action(event) matches ConnectAction::Connect(a) ==> a == s.address,
{
}

/// Law: the connect loop never opens a socket for more than `max_attempts` attempts: the
/// attempt count only grows when a backoff ends, by one, and a socket is opened only while
/// the count is below `max_attempts`.
pub proof fn lemma_connect_attempts_bounded(s: ConnectRetry, event: ConnectEvent)
    requires
        s.wf(),
        event is BackoffElapsed ==> s.attempt < s.max_attempts,
    ensures
        s.next_state(event).wf(),
        s.next_state(event).max_attempts == s.max_attempts,
        s.next_state(event).attempt == if event is BackoffElapsed { s.attempt + 1 } else { s.attempt as int },
        s.first_action() == ConnectAction::OpenSocket ==> s.attempt < s.max_attempts,
        s.action(event) == ConnectAction::OpenSocket ==> s.next_state(event).attempt < s.max_attempts,
{
}

/// Law: a socket that cannot be created ends the connect loop with that error, and an
/// accepted connection ends it with success, whatever the attempt.
pub proof fn lemma_connect_stops_on_socket_error_or_success(s: ConnectRetry, code: i32)
    ensures
        s.action(ConnectEvent::SocketFailed(code)) == ConnectAction::Finish(Err::<(), VsockError>(VsockError::Os(code))),
        s.action(ConnectEvent::Connected) == ConnectAction::Finish(Ok::<(), VsockError>(())),
{
}

} // verus!
