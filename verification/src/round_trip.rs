use crate::error::VsockError;
use crate::receive::{lemma_receive_reassembles_stream, stream_run, ReceiveState};
use crate::send::{bytes_of, lemma_whole_chunks_deliver_payload, whole_chunk_run, SendLoop};
use vstd::prelude::*;

verus! {

/// Law: what one side sends, the other receives. When the sender's transport takes every
/// chunk it is handed whole and the receiver's `recv`s hand back the sent bytes in order, as
/// much as fits each window, a payload shorter than the receiver's cap arrives whole: the
/// send succeeds, the bytes it hands out are the payload, and the receive returns exactly
/// the payload, whatever the chunk sizes on either side.
pub proof fn lemma_send_then_receive_round_trip(
    data: Seq<u8>,
    send_chunk_size: usize,
    max_data_size: usize,
    recv_chunk_size: usize,
)
    requires
        data.len() < max_data_size,
        0 < send_chunk_size,
        0 < recv_chunk_size <= max_data_size,
    ensures
        ({
            let sender = SendLoop { data_len: data.len() as usize, chunk_size: send_chunk_size, position: 0 };
            let sent = bytes_of(data, whole_chunk_run(sender).0);
            let receiver = ReceiveState {
                max_data_size: max_data_size as nat,
                chunk_size: recv_chunk_size as nat,
                received: Seq::empty(),
            };
            &&& whole_chunk_run(sender).1 == Ok::<(), VsockError>(())
            &&& sent == data
            &&& stream_run(receiver, sent) == Ok::<Seq<u8>, VsockError>(data)
        }),
{
    let sender = SendLoop { data_len: data.len() as usize, chunk_size: send_chunk_size, position: 0 };
    lemma_whole_chunks_deliver_payload(sender, data);
    assert(data.subrange(0, data.len() as int) =~= data);
    lemma_receive_reassembles_stream(max_data_size, recv_chunk_size, data);
}

} // verus!
