use telnet_server::telnet::{erase_current_line, TelnetSession};

#[test]
fn erase_current_line_should_work() {
    let mut buffer = vec!['a', 'b', 'c', '\r', '\n', 'd', 'e', 'f'];
    erase_current_line(&mut buffer);
    // RFC-854: The recipient should delete characters from the data stream
    // back to, but not including, the last "CR LF" sequence sent over the
    // TELNET connection.
    assert_eq!(buffer, ['a', 'b', 'c', '\r', '\n']);

    erase_current_line(&mut buffer);
    assert_eq!(buffer, ['a', 'b', 'c', '\r', '\n']);

    let mut buffer = vec!['a', 'b', 'c', 'd', 'e', 'f'];
    erase_current_line(&mut buffer);
    assert!(buffer.is_empty());
}

#[test]
fn erase_current_line_on_empty_buffer_is_no_op() {
    let mut buffer: Vec<char> = vec![];
    erase_current_line(&mut buffer);
    assert!(buffer.is_empty());
}

#[test]
fn do_echo_enables_echoing_and_echoes_data() {
    let mut session = TelnetSession::create();
    // IAC DO ECHO is answered with IAC WILL ECHO and flips echoing on.
    let response = session.accept_data(&[255, 253, 1]);
    assert_eq!(response, Some(vec![255, 251, 1]));
    // An ordinary byte is now buffered and echoed back.
    let response = session.accept_data(b"A");
    assert_eq!(response, Some(vec![65]));
    assert_eq!(session.get_data_buffer(), &vec!['A']);
}

#[test]
fn dont_echo_disables_echoing() {
    let mut session = TelnetSession::create();
    let response = session.accept_data(&[255, 253, 1]);
    assert_eq!(response, Some(vec![255, 251, 1]));
    // IAC DONT ECHO is answered with IAC WONT ECHO and disables echoing.
    let response = session.accept_data(&[255, 254, 1]);
    assert_eq!(response, Some(vec![255, 252, 1]));
    // An ordinary byte is buffered but no longer echoed.
    let response = session.accept_data(b"B");
    assert_eq!(response, None);
    assert_eq!(session.get_data_buffer(), &vec!['B']);
}

#[test]
fn unsupported_do_option_is_refused() {
    let mut session = TelnetSession::create();
    // Any DO option we do not implement is answered with IAC WONT option.
    let response = session.accept_data(&[255, 253, 99]);
    assert_eq!(response, Some(vec![255, 252, 99]));
    // The session is back in its idle state: ordinary bytes are data again.
    let response = session.accept_data(b"x");
    assert_eq!(response, None);
    assert_eq!(session.get_data_buffer(), &vec!['x']);
}

#[test]
fn unsupported_dont_option_is_refused() {
    let mut session = TelnetSession::create();
    let response = session.accept_data(&[255, 254, 99]);
    assert_eq!(response, Some(vec![255, 252, 99]));
}

#[test]
fn will_and_wont_are_acknowledged_silently() {
    let mut session = TelnetSession::create();
    assert_eq!(session.accept_data(&[255, 251, 1]), None);
    assert_eq!(session.accept_data(&[255, 252, 1]), None);
    assert_eq!(session.get_data_buffer(), &Vec::<char>::new());
}

#[test]
fn sub_negotiation_is_discarded() {
    let mut session = TelnetSession::create();
    session.accept_data(b"hi");
    // IAC SB LINEMODE 1 IAC SE: no output, data buffer untouched.
    let response = session.accept_data(&[255, 250, 34, 1, 255, 240]);
    assert_eq!(response, None);
    assert_eq!(session.get_data_buffer(), &vec!['h', 'i']);
}

#[test]
fn unknown_command_byte_keeps_waiting_for_a_verb() {
    let mut session = TelnetSession::create();
    // 241 (NOP) is not an implemented command verb: it is ignored, and the
    // session keeps interpreting command bytes until a known verb arrives.
    let response = session.accept_data(&[255, 241, 253, 99]);
    assert_eq!(response, Some(vec![255, 252, 99]));
    assert_eq!(session.get_data_buffer(), &Vec::<char>::new());
}

#[test]
fn erase_character_removes_last_char() {
    let mut session = TelnetSession::create();
    session.accept_data(b"ab");
    let response = session.accept_data(&[127]);
    assert_eq!(response, None);
    assert_eq!(session.get_data_buffer(), &vec!['a']);
}

#[test]
fn erase_character_echoes_fake_backspace() {
    let mut session = TelnetSession::create();
    session.accept_data(&[255, 253, 1]);
    session.accept_data(b"ab");
    // Backspace, space, backspace: visually erases on the client terminal.
    let response = session.accept_data(&[8]);
    assert_eq!(response, Some(vec![8, 32, 8]));
    assert_eq!(session.get_data_buffer(), &vec!['a']);
}

#[test]
fn erase_line_keeps_previous_completed_line() {
    let mut session = TelnetSession::create();
    session.accept_data(b"abc\r\ndef");
    let response = session.accept_data(&[248]);
    assert_eq!(response, None);
    assert_eq!(session.get_data_buffer(), &vec!['a', 'b', 'c', '\r', '\n']);
}

#[test]
fn ansi_escape_sequence_is_swallowed_with_a_bell() {
    let mut session = TelnetSession::create();
    // ESC [ 2 J (clear screen): the sequence is discarded and acknowledged
    // with a bell; the data buffer stays untouched.
    let response = session.accept_data(&[27, b'[', b'2', b'J']);
    assert_eq!(response, Some(vec![7]));
    assert_eq!(session.get_data_buffer(), &Vec::<char>::new());
}

#[test]
fn clear_data_buffer_empties_the_buffer() {
    let mut session = TelnetSession::create();
    session.accept_data(b"admin");
    assert_eq!(session.get_data_buffer().len(), 5);
    session.clear_data_buffer();
    assert!(session.get_data_buffer().is_empty());
}

#[test]
fn command_split_across_reads_still_parses() {
    let mut session = TelnetSession::create();
    assert_eq!(session.accept_data(&[255]), None);
    assert_eq!(session.accept_data(&[253]), None);
    assert_eq!(session.accept_data(&[1]), Some(vec![255, 251, 1]));
}
