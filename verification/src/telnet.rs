//! The per-connection Telnet session engine.

use vstd::prelude::*;

use crate::iter::dequeue;

verus! {

/// Option code of the Telnet ECHO option.
pub const CHAR_ECHO: u8 = 1;

/// Bell.
pub const CHAR_BEL: u8 = 7;

/// Backspace; erases one character.
pub const CHAR_BACK_SPACE: u8 = 8;

/// Start of an ANSI escape sequence.
pub const CHAR_ESCAPE: u8 = 27;

/// An ordinary space; stands between the two backspaces of the fake-backspace
/// sequence that visually erases a character on the client terminal.
pub const CHAR_SPACE: u8 = 32;

/// Delete; erases one character.
pub const CHAR_DELETE: u8 = 127;

/// End of a Telnet sub-negotiation (SE).
pub const CHAR_SUB_NEGOTIATION_END: u8 = 240;

/// Telnet erase-character control function (EC).
pub const CHAR_ERASE_CHARACTER: u8 = 247;

/// Telnet erase-line control function (EL).
pub const CHAR_ERASE_LINE: u8 = 248;

/// Start of a Telnet sub-negotiation (SB).
pub const CHAR_SUB_NEGOTIATION: u8 = 250;

/// Telnet WILL negotiation verb.
pub const CHAR_WILL: u8 = 251;

/// Telnet WONT negotiation verb.
pub const CHAR_WONT: u8 = 252;

/// Telnet DO negotiation verb.
pub const CHAR_DO: u8 = 253;

/// Telnet DONT negotiation verb.
pub const CHAR_DONT: u8 = 254;

/// Interpret As Command: introduces a Telnet control sequence.
pub const CHAR_IAC: u8 = 255;

/// Enumeration of states that a `TelnetSession` may have on the server side.
#[derive(Clone, Copy, PartialEq, Eq, Structural)]
pub enum TelnetState {
    /// Incoming, non-command data (e.g. text)
    Idle,
    /// Incoming command data (e.g. WILL, WONT, DO, DONT)
    Command,
    /// Incoming command data for WILL command
    CommandWill,
    /// Incoming command data for WONT command
    CommandWont,
    /// Incoming command data for DO command
    CommandDo,
    /// Incoming command data for DONT command
    CommandDont,
    /// Incoming command data for sub negotiation command
    SubNegotiation,
    /// Incoming escape sequence
    AnsiEscapeSequence,
}

/// Telnet session "state machine", represents the current state
/// of a Telnet session.
pub struct TelnetSession {
    /// Buffer for read non-command data (aka. incoming message)
    data: Vec<char>,
    /// Stream of incoming, not interpreted data
    stream: Vec<u8>,
    /// Current state of the session
    state: TelnetState,
    /// Whether every incoming, non-command char is echoed back to the client
    is_echoing: bool,
}

impl TelnetSession {
    /// The interpreting part of the session: everything but the stream of
    /// bytes still awaiting interpretation.
    pub closed spec fn engine(&self) -> EngineView {
        EngineView { state: self.state, data: self.data@, echo: self.is_echoing }
    }

    /// The raw bytes that have arrived but have not been interpreted yet.
    pub closed spec fn pending(&self) -> Seq<u8> {
        self.stream@
    }

    /// Accepts incoming TCP stream data and maybe returns a response that
    /// should be sent back to the client: the bytes are appended to the
    /// pending stream, the whole stream is then interpreted byte by byte, and
    /// everything the single steps sent back comes out as one response
    /// (`None` when nothing was produced).
    pub fn accept_data(&mut self, data: &[u8]) -> (response: Option<Vec<u8>>)
        ensures
            ({
                let r = engine_run(old(self).engine(), old(self).pending() + data@);
                &&& final(self).engine() == r.0
                &&& final(self).pending() == Seq::<u8>::empty()
                &&& match response {
                    Some(v) => v@ == r.1 && r.1.len() > 0,
                    None => r.1.len() == 0,
                }
            }),
    {
        let ghost start_engine = self.engine();
        let ghost whole_stream = self.pending() + data@;
        // Append incoming data
        self.stream.extend_from_slice(data);
        proof {
            assert forall|i: int| 0 <= i < self.pending().len() implies self.pending()[i]
                == whole_stream[i] by {
                if i >= old(self).pending().len() {
                    assert(cloned::<u8>(data@[i - old(self).pending().len()], self.pending()[i]));
                }
            }
            assert(self.pending() =~= whole_stream);
        }
        let mut response: Vec<u8> = Vec::new();
        while self.stream.len() != 0
            invariant
                engine_run(start_engine, whole_stream).0 == engine_run(
                    self.engine(),
                    self.pending(),
                ).0,
                engine_run(start_engine, whole_stream).1 == response@ + engine_run(
                    self.engine(),
                    self.pending(),
                ).1,
            decreases self.stream@.len(),
        {
            let ghost pre_engine = self.engine();
            let ghost pre_pending = self.pending();
            let next = dequeue(&mut self.stream).unwrap();
            let result = match self.state {
                TelnetState::Idle => update_session_idle(self, next),
                TelnetState::Command => update_session_command(self, next),
                TelnetState::CommandWill => update_session_will(self, next),
                TelnetState::CommandWont => update_session_wont(self, next),
                TelnetState::CommandDo => update_session_do(self, next),
                TelnetState::CommandDont => update_session_dont(self, next),
                TelnetState::SubNegotiation => update_session_sub_negotiation(self, next),
                TelnetState::AnsiEscapeSequence => update_session_escape_sequence(self, next),
            };
            proof {
                let step = engine_step(pre_engine, next);
                assert(engine_run(pre_engine, pre_pending).0 == engine_run(
                    self.engine(),
                    self.pending(),
                ).0);
                assert(engine_run(pre_engine, pre_pending).1 == step.1 + engine_run(
                    self.engine(),
                    self.pending(),
                ).1);
            }
            if let Some(v) = result {
                let ghost response_before = response@;
                response.extend_from_slice(v.as_slice());
                proof {
                    assert forall|i: int| 0 <= i < response@.len() implies response@[i]
                        == (response_before + v@)[i] by {
                        if i >= response_before.len() {
                            assert(cloned::<u8>(v@[i - response_before.len()], response@[i]));
                        }
                    }
                    assert(response@ =~= response_before + v@);
                    assert(engine_run(start_engine, whole_stream).1 =~= response@ + engine_run(
                        self.engine(),
                        self.pending(),
                    ).1);
                }
            }
        }
        proof {
            assert(self.pending() =~= Seq::<u8>::empty());
            assert(engine_run(self.engine(), self.pending()).0 == self.engine());
            assert(engine_run(self.engine(), self.pending()).1 == Seq::<u8>::empty());
            assert(engine_run(start_engine, whole_stream).1 =~= response@);
        }
        if !response.is_empty() {
            Some(response)
        } else {
            None
        }
    }

    /// Creates a new `TelnetSession`.
    pub fn create() -> (session: TelnetSession)
        ensures
            session.engine() == EngineView::initial(),
            session.pending() == Seq::<u8>::empty(),
    {
        TelnetSession { data: Vec::new(), stream: Vec::new(), state: TelnetState::Idle, is_echoing: false }
    }

    /// Returns currently read (non-command) data from the data stream, e.g.
    /// the text a client has typed so far.
    pub fn get_data_buffer(&self) -> (buffer: &Vec<char>)
        ensures
            buffer@ == self.engine().data,
    {
        &self.data
    }

    /// Clears currently read (non-command) data from the buffer. This can be
    /// useful if you already handled the data and don't need it anymore.
    pub fn clear_data_buffer(&mut self)
        ensures
            final(self).engine() == (EngineView {
                data: Seq::<char>::empty(),
                ..old(self).engine()
            }),
            final(self).pending() == old(self).pending(),
    {
        self.data.clear()
    }
}

/// The Telnet session engine is the canonical per-connection handler: the
/// acceptance layer feeds it each read's bytes through this capability.
impl crate::tcp::TcpStreamHandler for TelnetSession {
    fn accept(&mut self, data: &[u8]) -> (response: Option<Vec<u8>>)
        ensures
            ({
                let r = engine_run(old(self).engine(), old(self).pending() + data@);
                &&& final(self).engine() == r.0
                &&& final(self).pending() == Seq::<u8>::empty()
                &&& match response {
                    Some(v) => v@ == r.1 && r.1.len() > 0,
                    None => r.1.len() == 0,
                }
            }),
    {
        self.accept_data(data)
    }
}

/// The interpreting state of a session, as specifications see it: the parser
/// state, the accumulated non-command text, and the echo flag.
pub ghost struct EngineView {
    /// Current parser state.
    pub state: TelnetState,
    /// Accumulated, already-interpreted non-command text.
    pub data: Seq<char>,
    /// Whether ordinary characters are echoed back to the sender.
    pub echo: bool,
}

impl EngineView {
    /// The state of a freshly created session: idle, nothing read, no echo.
    pub open spec fn initial() -> EngineView {
        EngineView { state: TelnetState::Idle, data: Seq::empty(), echo: false }
    }
}

/// Whether `c` is one of the final bytes of the common ANSI CSI sequences,
/// and so may identify the end of an ANSI escape sequence.
pub open spec fn is_escape_sequence_end(c: char) -> bool {
    ||| c == 'A'  // CUU
    ||| c == 'B'  // CUD
    ||| c == 'C'  // CUF
    ||| c == 'D'  // CUB
    ||| c == 'E'  // CNL
    ||| c == 'F'  // CPL
    ||| c == 'G'  // CHA
    ||| c == 'H'  // CUP
    ||| c == 'J'  // ED
    ||| c == 'K'  // EL
    ||| c == 'S'  // SU
    ||| c == 'T'  // SD
    ||| c == 'f'  // HVP
    ||| c == 'm'  // SGR
    ||| c == 'i'  // AUX
    ||| c == 'n'  // DSR
    ||| c == 's'  // SCP, SCOSC
    ||| c == 'u'  // RCP, SCORC
    ||| c == 'h'  // DECTCEM
    ||| c == 'l'  // DECTCEM
}

/// What one byte does to the engine in the `Idle` state: the next engine and
/// the bytes sent back to the client.
pub open spec fn step_idle(e: EngineView, next: u8) -> (EngineView, Seq<u8>) {
    if next == CHAR_IAC {
        (EngineView { state: TelnetState::Command, ..e }, Seq::empty())
    } else if next == CHAR_DELETE || next == CHAR_BACK_SPACE || next == CHAR_ERASE_CHARACTER {
        let erased = if e.data.len() == 0 {
            e.data
        } else {
            e.data.drop_last()
        };
        let out = if e.echo {
            seq![CHAR_BACK_SPACE, CHAR_SPACE, CHAR_BACK_SPACE]
        } else {
            Seq::empty()
        };
        (EngineView { data: erased, ..e }, out)
    } else if next == CHAR_ERASE_LINE {
        (EngineView { data: erased_line(e.data), ..e }, Seq::empty())
    } else if next == CHAR_ESCAPE {
        (EngineView { state: TelnetState::AnsiEscapeSequence, ..e }, Seq::empty())
    } else {
        let out = if e.echo {
            seq![next]
        } else {
            Seq::empty()
        };
        (EngineView { data: e.data.push(next as char), ..e }, out)
    }
}

/// What one byte does to the engine in the `Command` state: a recognized
/// command verb selects the matching sub-state; any other byte is ignored
/// (non-fatal) and the engine keeps waiting for a recognized verb.
pub open spec fn step_command(e: EngineView, next: u8) -> (EngineView, Seq<u8>) {
    if next == CHAR_WILL {
        (EngineView { state: TelnetState::CommandWill, ..e }, Seq::empty())
    } else if next == CHAR_WONT {
        (EngineView { state: TelnetState::CommandWont, ..e }, Seq::empty())
    } else if next == CHAR_DO {
        (EngineView { state: TelnetState::CommandDo, ..e }, Seq::empty())
    } else if next == CHAR_DONT {
        (EngineView { state: TelnetState::CommandDont, ..e }, Seq::empty())
    } else if next == CHAR_SUB_NEGOTIATION {
        (EngineView { state: TelnetState::SubNegotiation, ..e }, Seq::empty())
    } else {
        (e, Seq::empty())
    }
}

/// What the option byte does after a DO verb: ECHO is honored (echo on,
/// answered with IAC WILL ECHO); any other option is refused with
/// IAC WONT option, per RFC 854 a DO is always answered.
pub open spec fn step_do(e: EngineView, next: u8) -> (EngineView, Seq<u8>) {
    if next == CHAR_ECHO {
        (
            EngineView { state: TelnetState::Idle, echo: true, ..e },
            seq![CHAR_IAC, CHAR_WILL, CHAR_ECHO],
        )
    } else {
        (EngineView { state: TelnetState::Idle, ..e }, seq![CHAR_IAC, CHAR_WONT, next])
    }
}

/// What the option byte does after a DONT verb: ECHO turns echoing off; every
/// option, ECHO included, is answered with IAC WONT option.
pub open spec fn step_dont(e: EngineView, next: u8) -> (EngineView, Seq<u8>) {
    let echo = if next == CHAR_ECHO {
        false
    } else {
        e.echo
    };
    (EngineView { state: TelnetState::Idle, echo, ..e }, seq![CHAR_IAC, CHAR_WONT, next])
}

/// What one byte does to the engine: the total transition function of the
/// session state machine, with the bytes sent back to the client.
pub open spec fn engine_step(e: EngineView, next: u8) -> (EngineView, Seq<u8>) {
    match e.state {
        TelnetState::Idle => step_idle(e, next),
        TelnetState::Command => step_command(e, next),
        // The peer informs us of its own intent; acknowledge silently.
        TelnetState::CommandWill => (EngineView { state: TelnetState::Idle, ..e }, Seq::empty()),
        TelnetState::CommandWont => (EngineView { state: TelnetState::Idle, ..e }, Seq::empty()),
        TelnetState::CommandDo => step_do(e, next),
        TelnetState::CommandDont => step_dont(e, next),
        // Sub-negotiation payloads are not interpreted: discard until SE.
        TelnetState::SubNegotiation => (
            EngineView {
                state: if next == CHAR_SUB_NEGOTIATION_END {
                    TelnetState::Idle
                } else {
                    TelnetState::SubNegotiation
                },
                ..e
            },
            Seq::empty(),
        ),
        // Escape sequences are not interpreted: discard until a final byte,
        // then ring the bell to signal that the sequence was swallowed.
        TelnetState::AnsiEscapeSequence => if is_escape_sequence_end(next as char) {
            (EngineView { state: TelnetState::Idle, ..e }, seq![CHAR_BEL])
        } else {
            (e, Seq::empty())
        },
    }
}

/// Runs the engine over a whole stream of bytes, concatenating everything the
/// single steps send back.
pub open spec fn engine_run(e: EngineView, input: Seq<u8>) -> (EngineView, Seq<u8>)
    decreases input.len(),
{
    if input.len() == 0 {
        (e, Seq::empty())
    } else {
        let first = engine_step(e, input.first());
        let rest = engine_run(first.0, input.drop_first());
        (rest.0, first.1 + rest.1)
    }
}

/// One interpreting step was carried out on a session: the engine moved as
/// the spec step `r` says, the bytes awaiting interpretation were left alone,
/// and the returned response holds exactly the step's output (`None` when the
/// step produced nothing).
pub open spec fn applies_step(
    pre: TelnetSession,
    post: TelnetSession,
    response: Option<Vec<u8>>,
    r: (EngineView, Seq<u8>),
) -> bool {
    &&& post.engine() == r.0
    &&& post.pending() == pre.pending()
    &&& match response {
        Some(v) => v@ == r.1 && r.1.len() > 0,
        None => r.1.len() == 0,
    }
}

/// Updates given `session` in `TelnetState::Idle` based on `next` incoming
/// byte; a returned `Some` should be sent to the Telnet client.
fn update_session_idle(session: &mut TelnetSession, next: u8) -> (response: Option<Vec<u8>>)
    requires
        old(session).engine().state == TelnetState::Idle,
    ensures
        applies_step(
            *old(session),
            *final(session),
            response,
            engine_step(old(session).engine(), next),
        ),
{
    if next == CHAR_IAC {
        session.state = TelnetState::Command;
        None
    } else if next == CHAR_DELETE || next == CHAR_BACK_SPACE || next == CHAR_ERASE_CHARACTER {
        session.data.pop();
        if session.is_echoing {
            // Return fake backspace on echo mode
            let fake_backspace = vec![CHAR_BACK_SPACE, CHAR_SPACE, CHAR_BACK_SPACE];
            proof {
                assert(fake_backspace@ =~= seq![CHAR_BACK_SPACE, CHAR_SPACE, CHAR_BACK_SPACE]);
            }
            Some(fake_backspace)
        } else {
            None
        }
    } else if next == CHAR_ERASE_LINE {
        erase_current_line(&mut session.data);
        None
    } else if next == CHAR_ESCAPE {
        session.state = TelnetState::AnsiEscapeSequence;
        None
    } else {
        session.data.push(next as char);
        if session.is_echoing {
            let echoed = vec![next];
            proof {
                assert(echoed@ =~= seq![next]);
            }
            Some(echoed)
        } else {
            None
        }
    }
}

/// Updates given `session` in `TelnetState::Command` based on `next` incoming
/// byte. An unrecognized command byte is non-fatal: it is ignored and the
/// session stays in the command state, awaiting a recognized command.
fn update_session_command(session: &mut TelnetSession, next: u8) -> (response: Option<Vec<u8>>)
    requires
        old(session).engine().state == TelnetState::Command,
    ensures
        applies_step(
            *old(session),
            *final(session),
            response,
            engine_step(old(session).engine(), next),
        ),
{
    if next == CHAR_WILL {
        session.state = TelnetState::CommandWill;
    } else if next == CHAR_WONT {
        session.state = TelnetState::CommandWont;
    } else if next == CHAR_DO {
        session.state = TelnetState::CommandDo;
    } else if next == CHAR_DONT {
        session.state = TelnetState::CommandDont;
    } else if next == CHAR_SUB_NEGOTIATION {
        session.state = TelnetState::SubNegotiation;
    }
    None
}

/// Updates given `session` in `TelnetState::CommandWill`: the option byte is
/// ignored (the peer announces its own intent) and the session goes back to
/// idle with no response.
fn update_session_will(session: &mut TelnetSession, _next: u8) -> (response: Option<Vec<u8>>)
    requires
        old(session).engine().state == TelnetState::CommandWill,
    ensures
        applies_step(
            *old(session),
            *final(session),
            response,
            engine_step(old(session).engine(), _next),
        ),
{
    // Ignore message, just go back to idle state
    session.state = TelnetState::Idle;
    None
}

/// Updates given `session` in `TelnetState::CommandWont`: the option byte is
/// ignored (the peer announces its own intent) and the session goes back to
/// idle with no response.
fn update_session_wont(session: &mut TelnetSession, _next: u8) -> (response: Option<Vec<u8>>)
    requires
        old(session).engine().state == TelnetState::CommandWont,
    ensures
        applies_step(
            *old(session),
            *final(session),
            response,
            engine_step(old(session).engine(), _next),
        ),
{
    // Ignore message, just go back to idle state
    session.state = TelnetState::Idle;
    None
}

/// Updates given `session` in `TelnetState::CommandDo` based on the `next`
/// option byte: ECHO is honored and answered with IAC WILL ECHO; any other
/// option is refused with IAC WONT option.
fn update_session_do(session: &mut TelnetSession, next: u8) -> (response: Option<Vec<u8>>)
    requires
        old(session).engine().state == TelnetState::CommandDo,
    ensures
        applies_step(
            *old(session),
            *final(session),
            response,
            engine_step(old(session).engine(), next),
        ),
{
    session.state = TelnetState::Idle;
    if next == CHAR_ECHO {
        session.is_echoing = true;
        let answer = vec![CHAR_IAC, CHAR_WILL, CHAR_ECHO];
        proof {
            assert(answer@ =~= seq![CHAR_IAC, CHAR_WILL, CHAR_ECHO]);
        }
        return Some(answer);
    }
    // Whatever they're asking for, we're not supporting it probably.
    let refusal = vec![CHAR_IAC, CHAR_WONT, next];
    proof {
        assert(refusal@ =~= seq![CHAR_IAC, CHAR_WONT, next]);
    }
    Some(refusal)
}

/// Updates given `session` in `TelnetState::CommandDont` based on the `next`
/// option byte: ECHO turns echoing off; every option is answered with
/// IAC WONT option.
fn update_session_dont(session: &mut TelnetSession, next: u8) -> (response: Option<Vec<u8>>)
    requires
        old(session).engine().state == TelnetState::CommandDont,
    ensures
        applies_step(
            *old(session),
            *final(session),
            response,
            engine_step(old(session).engine(), next),
        ),
{
    session.state = TelnetState::Idle;
    if next == CHAR_ECHO {
        session.is_echoing = false;
    }
    // Whatever they're asking for, we're not supporting it probably. So it's
    // fine to say that we won't do it.
    let refusal = vec![CHAR_IAC, CHAR_WONT, next];
    proof {
        assert(refusal@ =~= seq![CHAR_IAC, CHAR_WONT, next]);
    }
    Some(refusal)
}

/// Updates given `session` in `TelnetState::SubNegotiation`: payload bytes
/// are discarded without a response until the sub-negotiation end byte.
fn update_session_sub_negotiation(session: &mut TelnetSession, next: u8) -> (response: Option<
    Vec<u8>,
>)
    requires
        old(session).engine().state == TelnetState::SubNegotiation,
    ensures
        applies_step(
            *old(session),
            *final(session),
            response,
            engine_step(old(session).engine(), next),
        ),
{
    // We're NOT handling sub negotiations right now.
    if next == CHAR_SUB_NEGOTIATION_END {
        session.state = TelnetState::Idle;
    }
    None
}

/// Updates given `session` in `TelnetState::AnsiEscapeSequence`: bytes are
/// discarded until one of the usual ANSI final bytes, then the session goes
/// back to idle and a bell acknowledges the swallowed sequence.
fn update_session_escape_sequence(session: &mut TelnetSession, next: u8) -> (response: Option<
    Vec<u8>,
>)
    requires
        old(session).engine().state == TelnetState::AnsiEscapeSequence,
    ensures
        applies_step(
            *old(session),
            *final(session),
            response,
            engine_step(old(session).engine(), next),
        ),
{
    // We're NOT handling those escape sequences.
    if !is_escape_sequence_end_byte(next) {
        return None;
    }
    session.state = TelnetState::Idle;
    let bell = vec![CHAR_BEL];
    proof {
        assert(bell@ =~= seq![CHAR_BEL]);
    }
    Some(bell)
}

/// Whether `next`, read as a character, may identify the end of an ANSI
/// escape sequence.
fn is_escape_sequence_end_byte(next: u8) -> (r: bool)
    ensures
        r == is_escape_sequence_end(next as char),
{
    let c = next as char;
    c == 'A' || c == 'B' || c == 'C' || c == 'D' || c == 'E' || c == 'F' || c == 'G' || c == 'H'
        || c == 'J' || c == 'K' || c == 'S' || c == 'T' || c == 'f' || c == 'm' || c == 'i' || c
        == 'n' || c == 's' || c == 'u' || c == 'h' || c == 'l'
}

/// The contents of a text buffer after a line erase: characters are removed
/// from the end until the last two are CR, LF (the previous completed line is
/// kept, per RFC 854); a buffer with no such pair is cleared entirely.
pub open spec fn erased_line(buffer: Seq<char>) -> Seq<char>
    decreases buffer.len(),
{
    if buffer.len() < 2 {
        Seq::empty()
    } else if buffer[buffer.len() - 2] == '\r' && buffer[buffer.len() - 1] == '\n' {
        buffer
    } else {
        erased_line(buffer.drop_last())
    }
}

/// A line-erase on a buffer that already ends in CR, LF — or that is already
/// empty — is a no-op.
pub proof fn lemma_erased_line_no_op(buffer: Seq<char>)
    requires
        buffer.len() == 0 || (buffer.len() >= 2 && buffer[buffer.len() - 2] == '\r'
            && buffer[buffer.len() - 1] == '\n'),
    ensures
        erased_line(buffer) == buffer,
{
    if buffer.len() == 0 {
        assert(erased_line(buffer) =~= buffer);
    }
}

/// A second line-erase is a no-op: the first one leaves the buffer empty or
/// ending in CR, LF, and there a further erase changes nothing.
pub proof fn lemma_erased_line_idempotent(buffer: Seq<char>)
    ensures
        erased_line(erased_line(buffer)) == erased_line(buffer),
    decreases buffer.len(),
{
    if buffer.len() < 2 {
        assert(erased_line(Seq::<char>::empty()) =~= Seq::<char>::empty());
    } else if buffer[buffer.len() - 2] == '\r' && buffer[buffer.len() - 1] == '\n' {
    } else {
        lemma_erased_line_idempotent(buffer.drop_last());
    }
}

/// Erases the current line from given text buffer. According to RFC 854, the
/// last CR LF should be kept: characters are removed from the end of the
/// buffer until its last two characters are CR, LF; a buffer holding no such
/// pair is cleared entirely.
pub fn erase_current_line(buffer: &mut Vec<char>)
    ensures
        final(buffer)@ == erased_line(old(buffer)@),
{
    loop
        invariant
            erased_line(buffer@) == erased_line(old(buffer)@),
        ensures
            buffer@ == erased_line(old(buffer)@),
        decreases buffer@.len(),
    {
        // Remove all chars until \r\n reached
        if buffer.len() < 2 {
            buffer.clear();
            break ;
        }
        if buffer[buffer.len() - 2] == '\r' && buffer[buffer.len() - 1] == '\n' {
            break ;
        }
        buffer.pop();
    }
}

} // verus!
