use nix::errno::Errno;
use vstd::prelude::*;

verus! {

/// What went wrong in a vsock operation.
#[derive(Debug, Clone, Copy, PartialEq, Eq, Structural)]
pub enum VsockError {
    /// A system call failed; the value is its `errno`.
    Os(i32),
    /// The receive buffer was asked to be smaller than one chunk.
    BufferTooSmall,
    /// The receive buffer filled up before the peer finished sending.
    RecvBufferFull,
    /// The transport reported more bytes sent than there were left to send.
    SendExceededDataLength,
    /// Every connection attempt was refused.
    ConnectFailed,
    /// A payload with bytes left was to be sent in chunks of zero bytes.
    EmptyChunk,
}

/// What one call of the transport (one `send` or one `recv`) reported.
#[derive(Debug, Clone, Copy, PartialEq, Eq, Structural)]
pub enum TransportOutcome {
    /// The call moved this many bytes; `0` means that the peer closed the connection.
    Transferred(usize),
    /// The call was interrupted by a signal (`EINTR`) and may be retried.
    Interrupted,
    /// The call failed with this `errno`.
    Failed(i32),
}

/// The text that `nix` displays for the errno `code`: its name and its description, such as
/// `ECONNRESET: Connection reset by peer`.
pub uninterp spec fn errno_text(code: i32) -> Seq<char>;

/// Calls `nix::errno::Errno::from_raw` on `code` and formats the errno with its `Display`,
/// which writes its name, a colon and its description (`desc`). Both come from a table that
/// is fixed for the system the crate is built for, so the text depends on `code` alone; it is
/// named `errno_text(code)`.
#[verifier::external_body]
fn nix_errno_text(code: i32) -> (text: String)
    ensures
        text@ == errno_text(code),
{
    format!("{}", Errno::from_raw(code))
}

impl VsockError {
    /// The text of the error, as the library reports it: for a failed system call, the name
    /// and description of its errno.
    pub open spec fn text(self) -> Seq<char> {
        match self {
            VsockError::Os(code) => errno_text(code),
            VsockError::BufferTooSmall => "Vsock: Buffer too small"@,
            VsockError::RecvBufferFull => "Vsock: Recv buffer full"@,
            VsockError::SendExceededDataLength => "Vsock: Send exceeded data length"@,
            VsockError::ConnectFailed => "Vsock: Connect failed"@,
            VsockError::EmptyChunk => "Vsock: Chunk size is zero"@,
        }
    }

    /// The text of the error.
    pub fn message(&self) -> (m: String)
        ensures
            m@ == self.text(),
    {
        match self {
            VsockError::Os(code) => nix_errno_text(*code),
            VsockError::BufferTooSmall => "Vsock: Buffer too small".to_owned(),
            VsockError::RecvBufferFull => "Vsock: Recv buffer full".to_owned(),
            VsockError::SendExceededDataLength => "Vsock: Send exceeded data length".to_owned(),
            VsockError::ConnectFailed => "Vsock: Connect failed".to_owned(),
            VsockError::EmptyChunk => "Vsock: Chunk size is zero".to_owned(),
        }
    }

    /// The `errno` of a failed system call, if that is what the error is.
    pub fn errno(&self) -> (code: Option<i32>)
        ensures
            code == (match *self {
                VsockError::Os(c) => Some(c),
                _ => None,
            }),
    {
        match self {
            VsockError::Os(c) => Some(*c),
            _ => None,
        }
    }
}

/// The decision after one call of a single read or write: what the call returns, or
/// `None` when it was interrupted and has to be made again.
pub open spec fn single_transfer_result(outcome: TransportOutcome) -> Option<Result<usize, i32>> {
    match outcome {
        TransportOutcome::Transferred(n) => Some(Ok(n)),
        TransportOutcome::Interrupted => None,
        TransportOutcome::Failed(code) => Some(Err(code)),
    }
}

/// Decides one step of a single read or write: a byte count (`0` when the peer closed)
/// and an error are returned as they are, an interrupted call is retried.
pub fn single_transfer_step(outcome: TransportOutcome) -> (r: Option<Result<usize, i32>>)
    ensures
        r == single_transfer_result(outcome),
        outcome matches TransportOutcome::Transferred(n) ==> r == Some(Ok::<usize, i32>(n)),
        outcome is Interrupted ==> r is None,
        outcome matches TransportOutcome::Failed(code) ==> r == Some(Err::<usize, i32>(code)),
{
    match outcome {
        TransportOutcome::Transferred(n) => Some(Ok(n)),
        TransportOutcome::Interrupted => None,
        TransportOutcome::Failed(code) => Some(Err(code)),
    }
}

/// Law: a single read or write hands back the byte count the system reported, unchanged (`0`
/// when the peer closed), hands back the errno of a failure unchanged, and is made again only
/// when it was interrupted.
pub proof fn lemma_single_transfer_passes_results_through(n: usize, code: i32)
    ensures
        single_transfer_result(TransportOutcome::Transferred(n)) == Some(Ok::<usize, i32>(n)),
        single_transfer_result(TransportOutcome::Failed(code)) == Some(Err::<usize, i32>(code)),
        single_transfer_result(TransportOutcome::Interrupted) is None,
{
}

} // verus!
