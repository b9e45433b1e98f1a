use telnet_server::tcp::{
    connection_read_step, frame_push_chunk, ConnectionStep, FrameStatus, TcpStreamHandler,
    MAX_MESSAGE_SIZE,
};
use telnet_server::telnet::TelnetSession;

#[test]
fn zero_byte_read_closes_the_connection_without_a_write() {
    let mut session = TelnetSession::create();
    // A connection that sends zero bytes on its first read closed: the unit
    // terminates, and no response bytes exist that could be written.
    let step = connection_read_step(&mut session, &[]);
    assert_eq!(step, ConnectionStep::Close);
}

#[test]
fn telnet_handler_drives_responses_through_the_loop() {
    let mut session = TelnetSession::create();
    let step = connection_read_step(&mut session, &[255, 253, 1]);
    assert_eq!(step, ConnectionStep::Send(vec![255, 251, 1]));
    let step = connection_read_step(&mut session, &[255, 251, 1]);
    assert_eq!(step, ConnectionStep::Continue);
}

#[test]
fn short_chunk_completes_the_frame() {
    let mut message: Vec<u8> = vec![];
    let status = frame_push_chunk(&mut message, &[1, 2, 3], 100);
    assert_eq!(status, FrameStatus::Complete);
    assert_eq!(message, vec![1, 2, 3]);
}

#[test]
fn full_chunk_keeps_the_frame_filling() {
    let mut message: Vec<u8> = vec![];
    let status = frame_push_chunk(&mut message, &[9; 100], 100);
    assert_eq!(status, FrameStatus::Filling);
    assert_eq!(message.len(), 100);
}

#[test]
fn unbroken_stream_past_the_bound_overflows() {
    // A connection whose accumulated unbroken read stream exceeds
    // MAX_MESSAGE_SIZE is forcibly closed: the accumulator reports overflow.
    let mut message: Vec<u8> = vec![];
    let mut status = FrameStatus::Filling;
    for _ in 0..41 {
        status = frame_push_chunk(&mut message, &[7; 100], 100);
        if status != FrameStatus::Filling {
            break;
        }
    }
    assert_eq!(status, FrameStatus::Overflow);
    assert!(message.len() > MAX_MESSAGE_SIZE);
}

#[test]
fn final_short_chunk_completes_even_at_the_bound() {
    let mut message: Vec<u8> = vec![0; MAX_MESSAGE_SIZE];
    // A short read ends the frame before the overflow check applies.
    let status = frame_push_chunk(&mut message, &[1, 2], 100);
    assert_eq!(status, FrameStatus::Complete);
    assert_eq!(message.len(), MAX_MESSAGE_SIZE + 2);
}

struct SilentHandler;

impl TcpStreamHandler for SilentHandler {
    fn accept(&mut self, _data: &[u8]) -> Option<Vec<u8>> {
        None
    }
}

#[test]
fn silent_handler_keeps_the_loop_reading() {
    let mut handler = SilentHandler;
    let step = connection_read_step(&mut handler, &[1, 2, 3]);
    assert_eq!(step, ConnectionStep::Continue);
}
