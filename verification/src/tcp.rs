//! Decisions of the connection-acceptance layer: the generic handler
//! capability and the framing rules of the per-connection read loop.

use vstd::prelude::*;

verus! {

/// Largest inbound message the acceptance layer tolerates: a read stream that
/// grows past this bound before its frame completes overflows, and the
/// connection is aborted.
pub const MAX_MESSAGE_SIZE: usize = 4096;

/// Generic handler for TCP connections: given inbound bytes, optionally
/// produce outbound bytes. One handler instance serves one connection.
pub trait TcpStreamHandler {
    /// Accepts incoming TCP stream data; a returned `Some` holds bytes that
    /// should be sent back to the other side of the stream.
    fn accept(&mut self, data: &[u8]) -> Option<Vec<u8>>;
}

/// How an inbound message stands after one more chunk of read bytes.
#[derive(Clone, Copy, Debug, PartialEq, Eq)]
pub enum FrameStatus {
    /// The chunk filled its buffer entirely: more bytes may follow.
    Filling,
    /// The chunk left its buffer partly empty: the message is complete.
    Complete,
    /// The still-filling message has outgrown `MAX_MESSAGE_SIZE`: the
    /// connection must be aborted to protect the server's resources.
    Overflow,
}

/// The framing rule of the read loop, given the message length with the chunk
/// appended, the chunk's length, and the capacity of the read buffer the
/// chunk came from: a chunk that left room in its buffer completes the
/// message; otherwise more bytes are expected, and a message already past
/// `MAX_MESSAGE_SIZE` is an overflow.
pub open spec fn frame_status_of(total_len: int, chunk_len: int, chunk_capacity: int) -> FrameStatus {
    if chunk_len < chunk_capacity {
        FrameStatus::Complete
    } else if total_len > MAX_MESSAGE_SIZE {
        FrameStatus::Overflow
    } else {
        FrameStatus::Filling
    }
}

/// Appends one chunk of read bytes, taken from a read buffer of
/// `chunk_capacity` bytes, to the inbound message being assembled, and says
/// how the message now stands.
pub fn frame_push_chunk(message: &mut Vec<u8>, chunk: &[u8], chunk_capacity: usize) -> (status:
    FrameStatus)
    ensures
        final(message)@ == old(message)@ + chunk@,
        status == frame_status_of(
            final(message)@.len() as int,
            chunk@.len() as int,
            chunk_capacity as int,
        ),
{
    message.extend_from_slice(chunk);
    proof {
        assert forall|i: int| 0 <= i < message@.len() implies message@[i] == (old(message)@
            + chunk@)[i] by {
            if i >= old(message)@.len() {
                assert(cloned::<u8>(chunk@[i - old(message)@.len()], message@[i]));
            }
        }
        assert(message@ =~= old(message)@ + chunk@);
    }
    if chunk.len() < chunk_capacity {
        FrameStatus::Complete
    } else if message.len() > MAX_MESSAGE_SIZE {
        FrameStatus::Overflow
    } else {
        FrameStatus::Filling
    }
}

/// What the per-connection loop does after one complete inbound message has
/// been framed.
#[derive(Debug, PartialEq, Eq)]
pub enum ConnectionStep {
    /// The peer closed the connection (it sent zero bytes): shut the
    /// connection down and stop; nothing is written back.
    Close,
    /// Write these bytes back in full, then read again.
    Send(Vec<u8>),
    /// Nothing to write back; read again.
    Continue,
}

/// The write decision for one handler response: bytes are written back
/// exactly when the handler produced some.
pub fn response_step(response: Option<Vec<u8>>) -> (step: ConnectionStep)
    ensures
        match response {
            Some(v) => step == ConnectionStep::Send(v),
            None => step is Continue,
        },
{
    match response {
        Some(v) => ConnectionStep::Send(v),
        None => ConnectionStep::Continue,
    }
}

/// Drives one iteration of the per-connection loop: an empty message means
/// the peer closed the connection, and the connection is shut down without
/// anything being handled or written; otherwise the message goes to the
/// handler and its response decides what is written back.
pub fn connection_read_step<H: TcpStreamHandler>(handler: &mut H, message: &[u8]) -> (step:
    ConnectionStep)
    ensures
        message@.len() == 0 <==> step is Close,
{
    if message.is_empty() {
        return ConnectionStep::Close;
    }
    response_step(handler.accept(message))
}

} // verus!
