use nix::errno::Errno;
use tiny_vsock::{
    backoff_secs, single_transfer_step, ConnectAction, ConnectEvent, ConnectRetry, ReceiveLoop,
    ReceiveStep, SendLoop, SendStep, TransportOutcome, VsockError,
};

/// Turns what a `send` or `recv` returned into what the loops take, as a driver does.
fn outcome(result: Result<usize, Errno>) -> TransportOutcome {
    match result {
        Ok(n) => TransportOutcome::Transferred(n),
        Err(Errno::EINTR) => TransportOutcome::Interrupted,
        Err(errno) => TransportOutcome::Failed(errno as i32),
    }
}

/// The text of an error.
fn describe(err: VsockError) -> String {
    err.message()
}

/// Runs the send loop on `data` against `transport`.
fn send_loop(
    data: &[u8],
    chunk_size: usize,
    mut transport: impl FnMut(&[u8]) -> Result<usize, Errno>,
) -> Result<(), String> {
    let mut state = SendLoop::new(data.len(), chunk_size);
    loop {
        let (left, right) = state.chunk();
        match state.advance(outcome(transport(&data[left..right]))) {
            SendStep::Continue(next) => state = next,
            SendStep::Done(result) => return result.map_err(describe),
        }
    }
}

/// Runs the receive loop against `transport`, which writes into the window it is handed.
fn run_receive(
    mut state: ReceiveLoop,
    mut transport: impl FnMut(&mut [u8]) -> Result<usize, Errno>,
) -> Result<Vec<u8>, String> {
    loop {
        let mut window = vec![0u8; state.window_len()];
        let reported = outcome(transport(&mut window));
        match state.advance(reported, &window) {
            ReceiveStep::Continue(next) => state = next,
            ReceiveStep::Done(result) => return result.map_err(describe),
        }
    }
}

fn receive_loop(
    max_data_size: usize,
    chunk_size: usize,
    transport: impl FnMut(&mut [u8]) -> Result<usize, Errno>,
) -> Result<Vec<u8>, String> {
    run_receive(ReceiveLoop::new(max_data_size, chunk_size), transport)
}

/// Receives as `receive` does: the sizes are checked first.
fn receive(
    max_data_size: usize,
    chunk_size: usize,
    transport: impl FnMut(&mut [u8]) -> Result<usize, Errno>,
) -> Result<Vec<u8>, String> {
    let state = ReceiveLoop::checked(max_data_size, chunk_size).map_err(describe)?;
    run_receive(state, transport)
}

/// Runs the connect loop against `system`, which answers each action with an event.
fn connect(
    mut retry: ConnectRetry,
    mut system: impl FnMut(ConnectAction) -> ConnectEvent,
) -> (Result<(), String>, Vec<ConnectAction>) {
    let mut actions = Vec::new();
    let mut action = retry.start();
    loop {
        actions.push(action);
        if let ConnectAction::Finish(result) = action {
            return (result.map_err(describe), actions);
        }
        action = retry.on_event(system(action));
    }
}

fn refusing_system(action: ConnectAction) -> ConnectEvent {
    match action {
        ConnectAction::OpenSocket => ConnectEvent::SocketOpened,
        ConnectAction::Connect(_) => ConnectEvent::ConnectRefused(Errno::ECONNREFUSED as i32),
        ConnectAction::Sleep(_) => ConnectEvent::BackoffElapsed,
        ConnectAction::Finish(_) => unreachable!(),
    }
}

// ── receive() input validation ────────────────────────────────────────────

#[test]
#[should_panic(expected = "Buffer too small")]
fn receive_returns_error_when_max_size_less_than_chunk_size_fail() {
    const MAX_DATA_SIZE: usize = 16;
    const CHUNK_SIZE: usize = 32;
    receive(MAX_DATA_SIZE, CHUNK_SIZE, |_| Ok(0)).unwrap();
}

#[test]
#[should_panic(expected = "Buffer too small")]
fn receive_returns_error_when_max_size_equals_zero_and_chunk_size_nonzero_fail() {
    const MAX_DATA_SIZE: usize = 0;
    const MIN_NONZERO_CHUNK_SIZE: usize = 1;
    receive(MAX_DATA_SIZE, MIN_NONZERO_CHUNK_SIZE, |_| Ok(0)).unwrap();
}

#[test]
#[should_panic(expected = "Buffer too small")]
fn receive_returns_error_when_max_size_one_less_than_chunk_size_fail() {
    const CHUNK_SIZE: usize = 1024;
    const MAX_DATA_SIZE: usize = CHUNK_SIZE - 1;
    receive(MAX_DATA_SIZE, CHUNK_SIZE, |_| Ok(0)).unwrap();
}

// ── connect_with_max_attempts() zero-iteration path ───────────────────────

#[test]
#[should_panic(expected = "Connect failed")]
fn connect_with_zero_attempts_returns_error_immediately_fail() {
    const PORT: u32 = 12345;
    let (result, actions) = connect(ConnectRetry::new(u32::MAX, PORT, 0), refusing_system);
    assert_eq!(actions.len(), 1);
    result.unwrap();
}

// ── send_loop() unit tests (fake transport) ───────────────────────────────

#[test]
fn send_loop_delivers_entire_payload_in_one_chunk_ok() {
    const CHUNK_SIZE: usize = 64;
    let data = b"hello";
    let mut received: Vec<u8> = Vec::new();
    send_loop(data, CHUNK_SIZE, |chunk| {
        received.extend_from_slice(chunk);
        Ok(chunk.len())
    })
    .unwrap();
    assert_eq!(received, data);
}

#[test]
fn send_loop_splits_payload_across_multiple_chunks_ok() {
    const CHUNK_SIZE: usize = 3;
    const PAYLOAD_LEN: u8 = 10;
    let data: Vec<u8> = (0u8..PAYLOAD_LEN).collect();
    let mut calls: Vec<Vec<u8>> = Vec::new();
    send_loop(&data, CHUNK_SIZE, |chunk| {
        calls.push(chunk.to_vec());
        Ok(chunk.len())
    })
    .unwrap();
    // 10 bytes / chunk_size 3  →  slices of 3, 3, 3, 1
    assert_eq!(calls.len(), 4);
    assert_eq!(calls[0], &data[0..3]);
    assert_eq!(calls[1], &data[3..6]);
    assert_eq!(calls[2], &data[6..9]);
    assert_eq!(calls[3], &data[9..10]);
}

#[test]
fn send_loop_retries_on_eintr_and_still_completes_ok() {
    const CHUNK_SIZE: usize = 64;
    let data = b"retry";
    let mut call_count = 0usize;
    // Return EINTR on the first call, succeed on the second.
    send_loop(data, CHUNK_SIZE, |chunk| {
        call_count += 1;
        if call_count == 1 { Err(Errno::EINTR) } else { Ok(chunk.len()) }
    })
    .unwrap();
    assert_eq!(call_count, 2);
}

#[test]
fn send_loop_stops_cleanly_when_transport_returns_zero_ok() {
    const CHUNK_SIZE: usize = 64;
    let data = b"goodbye";
    let mut call_count = 0usize;
    send_loop(data, CHUNK_SIZE, |_| {
        call_count += 1;
        Ok(0) // peer closed
    })
    .unwrap();
    // A zero-byte send is treated as a graceful close, not an error.
    assert_eq!(call_count, 1);
}

#[test]
#[should_panic(expected = "ECONNRESET")]
fn send_loop_propagates_transport_error_fail() {
    const CHUNK_SIZE: usize = 64;
    let data = b"oops";
    send_loop(data, CHUNK_SIZE, |_| Err(Errno::ECONNRESET)).unwrap();
}

#[test]
fn send_loop_with_empty_data_calls_transport_once_with_empty_slice_ok() {
    // When data is empty the transport receives &[] once and returns Ok(0), which is the
    // "remote closed" branch: Ok(()) is returned.
    const CHUNK_SIZE: usize = 8;
    let data: &[u8] = b"";
    let mut call_count = 0usize;
    send_loop(data, CHUNK_SIZE, |chunk| {
        call_count += 1;
        assert!(chunk.is_empty(), "transport must receive an empty slice");
        Ok(chunk.len()) // 0 → remote-closed branch
    })
    .unwrap();
    assert_eq!(call_count, 1);
}

// ── receive_loop() unit tests (fake transport) ────────────────────────────

#[test]
fn receive_loop_collects_single_partial_chunk_on_short_read_ok() {
    // A `recv_data_len < chunk_size` read signals end-of-stream.
    const MAX_DATA_SIZE: usize = 64;
    const CHUNK_SIZE: usize = 16;
    let payload = b"hi";
    let result = receive_loop(MAX_DATA_SIZE, CHUNK_SIZE, |buf| {
        let n = payload.len().min(buf.len());
        buf[..n].copy_from_slice(&payload[..n]);
        Ok(n) // n < chunk_size → loop exits
    });
    assert_eq!(result.unwrap(), payload);
}

#[test]
fn receive_loop_reassembles_multiple_full_chunks_followed_by_short_read_ok() {
    // Three full chunks of 4 bytes each, then a short final read.
    const MAX_DATA_SIZE: usize = 64;
    const CHUNK_SIZE: usize = 4;
    const PAYLOAD_LEN: u8 = 13;
    let payload: Vec<u8> = (0u8..PAYLOAD_LEN).collect();
    let mut pos = 0usize;
    let result = receive_loop(MAX_DATA_SIZE, CHUNK_SIZE, |buf| {
        let remaining = payload.len() - pos;
        let n = remaining.min(buf.len());
        buf[..n].copy_from_slice(&payload[pos..pos + n]);
        pos += n;
        Ok(n)
    });
    assert_eq!(result.unwrap(), payload);
}

#[test]
fn receive_loop_stops_cleanly_on_remote_close_returning_zero_ok() {
    const MAX_DATA_SIZE: usize = 64;
    const CHUNK_SIZE: usize = 8;
    let result = receive_loop(MAX_DATA_SIZE, CHUNK_SIZE, |_| {
        Ok(0) // Zero bytes received before remote closed → empty vec.
    });
    assert_eq!(result.unwrap(), b"");
}

#[test]
fn receive_loop_retries_on_eintr_and_still_completes_ok() {
    const MAX_DATA_SIZE: usize = 64;
    const CHUNK_SIZE: usize = 16;
    let payload = b"interrupt";
    let mut call_count = 0usize;
    let result = receive_loop(MAX_DATA_SIZE, CHUNK_SIZE, |buf| {
        call_count += 1;
        if call_count == 1 {
            Err(Errno::EINTR)
        } else {
            let n = payload.len().min(buf.len());
            buf[..n].copy_from_slice(&payload[..n]);
            Ok(n)
        }
    });
    let result = result.unwrap();
    assert_eq!(call_count, 2);
    assert_eq!(result, payload);
}

#[test]
#[should_panic(expected = "ECONNRESET")]
fn receive_loop_returns_error_when_transport_fails_fail() {
    const MAX_DATA_SIZE: usize = 64;
    const CHUNK_SIZE: usize = 8;
    receive_loop(MAX_DATA_SIZE, CHUNK_SIZE, |_| Err(Errno::ECONNRESET)).unwrap();
}

#[test]
#[should_panic(expected = "Recv buffer full")]
fn receive_loop_returns_buffer_full_error_when_capacity_exhausted_fail() {
    // Transport always returns a full chunk, so position will reach max_data_size.
    let max_data_size = 8;
    let chunk_size = 4;
    receive_loop(max_data_size, chunk_size, |buf| Ok(buf.len())).unwrap();
}

#[test]
fn receive_loop_last_chunk_is_clamped_to_remaining_capacity_ok() {
    // max_data_size = 10, chunk_size = 4 → chunks of 4, 4, 2.
    let max_data_size = 10usize;
    let chunk_size = 4usize;
    let mut chunk_lengths: Vec<usize> = Vec::new();
    let result = receive_loop(max_data_size, chunk_size, |buf| {
        chunk_lengths.push(buf.len());
        Ok(buf.len())
    });
    assert!(chunk_lengths.len() >= 3);
    assert_eq!(chunk_lengths[2], 2);
    // Result is Ok because the short-read branch fires before buffer-full.
    result.unwrap();
}
