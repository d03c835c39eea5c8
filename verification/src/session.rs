//! The decisions of the polling loop. The loop itself reads from the
//! pseudo-terminal and from the keyboard and writes to both ends; each
//! result is handed to the session, which keeps the state of the loop and
//! answers with the next step.

use vstd::prelude::*;
use crate::encode::{encode_utf8, lemma_utf8_len, utf8_len_of, utf8_of};
use crate::geometry::{translate, view_geometry, Geometry};
use crate::grid::Grid;
use crate::render::{
    all_named, first_refusal, frame, lemma_refusal_exists, painted, render_term_to_win,
};
use crate::report::{
    classify_read_error, classify_write_error, colour_report, describe_colour_error,
    describe_io_failure, describe_stalled_write, describe_unhandled_input, farewell,
    farewell_of, input_report,
    io_report, read_class_of, stalled_report, write_class_of, IoClass, IoFailure,
};
use crate::window::Window;

verus! {

/// The number of bytes that one read from the pseudo-terminal asks for.
pub const READ_CHUNK: usize = 0x1000;

/// The byte that is kept from the pseudo-terminal and changes the border
/// instead: the control character "end of transmission".
pub const BORDER_TOGGLE: u8 = 4;

/// How a read from the pseudo-terminal ended.
#[derive(Clone, Debug, PartialEq, Eq)]
pub enum ReadOutcome {
    /// The read gave this many bytes.
    Read(usize),
    /// The read failed.
    Failed(IoFailure),
}

/// What the loop does after a read from the pseudo-terminal.
#[derive(Clone, Copy, Debug, PartialEq, Eq, Structural)]
pub enum ReadStep {
    /// The loop ends.
    Stop,
    /// The loop feeds this many bytes to the parser of the terminal, one
    /// after the other, and then paints the frame.
    Feed(usize),
    /// The loop goes on to the keyboard.
    Pass,
}

/// One event from the keyboard.
#[derive(Clone, Debug, PartialEq, Eq)]
pub enum KeyInput {
    /// A character was typed.
    Character(char),
    /// The size of the host window has changed.
    KeyResize,
    /// Any other event, as the description that it prints for debugging.
    Other(String),
}

/// What the loop does after it has asked the keyboard for an event.
#[derive(Clone, Debug, PartialEq, Eq)]
pub enum KeyStep {
    /// There was no event: nothing is done.
    Idle,
    /// The border has changed: the loop paints the frame.
    Redraw,
    /// The loop writes these bytes to the pseudo-terminal.
    Forward(Vec<u8>),
    /// The loop takes the new size of the window and passes the geometry
    /// of the view on to the terminal and to the pseudo-terminal.
    Resize,
    /// The loop ends.
    Stop,
}

/// How a write to the pseudo-terminal ended.
#[derive(Clone, Debug, PartialEq, Eq)]
pub enum WriteOutcome {
    /// The write took this many bytes.
    Accepted(usize),
    /// The write failed.
    Failed(IoFailure),
}

/// What the loop does after a write to the pseudo-terminal.
#[derive(Clone, Copy, Debug, PartialEq, Eq, Structural)]
pub enum WriteStep {
    /// Every byte is written.
    Done,
    /// The loop writes what is still pending.
    Again,
    /// The loop ends.
    Stop,
}

/// The state of the loop as a value: the border characters in the order
/// of their rotation, the number of the one in use, whether the loop is
/// running, and the report that it ended with.
pub struct LoopState {
    pub styles: Seq<char>,
    pub style: int,
    pub running: bool,
    pub reason: Option<Seq<char>>,
}

impl LoopState {
    /// There is a border character, the one in use is one of them, and
    /// only a loop that has ended has a report.
    pub open spec fn wf(self) -> bool {
        &&& 0 <= self.style < self.styles.len()
        &&& self.reason.is_some() ==> !self.running
    }

    /// The border character in use.
    pub open spec fn border(self) -> char {
        self.styles[self.style]
    }

    /// The state of a loop that has ended, with this report or none.
    pub open spec fn stopped(self, reason: Option<Seq<char>>) -> LoopState {
        LoopState { running: false, reason, ..self }
    }

    /// The state with the next border character in use: after the last
    /// comes the first.
    pub open spec fn toggled(self) -> LoopState {
        LoopState { style: (self.style + 1) % (self.styles.len() as int), ..self }
    }
}

/// The character is sent as the single byte that changes the border.
pub open spec fn is_toggle(c: char) -> bool {
    utf8_of(c) == seq![BORDER_TOGGLE]
}

/// The state after a read from the pseudo-terminal. The end of the stream
/// ends the loop without a report, and so does a failure that says that
/// the process has ended; a failure that is passed over changes nothing;
/// any other failure ends the loop with its report.
pub open spec fn after_read(s: LoopState, outcome: &ReadOutcome) -> LoopState {
    if !s.running {
        s
    } else {
        match outcome {
            ReadOutcome::Read(n) => if *n == 0 {
                s.stopped(None)
            } else {
                s
            },
            ReadOutcome::Failed(failure) => match read_class_of(failure.kind, failure.os_error) {
                IoClass::ChildExited => s.stopped(None),
                IoClass::Transient => s,
                IoClass::Fatal => s.stopped(Some(io_report(failure))),
            },
        }
    }
}

/// The step after a read from the pseudo-terminal.
pub open spec fn read_step_of(running: bool, outcome: &ReadOutcome) -> ReadStep {
    if !running {
        ReadStep::Stop
    } else {
        match outcome {
            ReadOutcome::Read(n) => if *n == 0 {
                ReadStep::Stop
            } else {
                ReadStep::Feed(*n)
            },
            ReadOutcome::Failed(failure) => match read_class_of(failure.kind, failure.os_error) {
                IoClass::Transient => ReadStep::Pass,
                _ => ReadStep::Stop,
            },
        }
    }
}

/// The state after the frame was painted, or could not be: a refused
/// colour ends the loop with its report.
pub open spec fn after_redraw(s: LoopState, term: &Grid) -> LoopState {
    if !s.running {
        s
    } else {
        match first_refusal(term) {
            None => s,
            Some(err) => s.stopped(Some(colour_report(err))),
        }
    }
}

/// The state after an event from the keyboard: the character that changes
/// the border moves on to the next border character; an event that is
/// neither a character nor a change of size ends the loop with its report.
pub open spec fn after_key(s: LoopState, input: &Option<KeyInput>) -> LoopState {
    if !s.running {
        s
    } else {
        match input {
            None => s,
            Some(KeyInput::Character(c)) => if is_toggle(*c) {
                s.toggled()
            } else {
                s
            },
            Some(KeyInput::KeyResize) => s,
            Some(KeyInput::Other(description)) => s.stopped(Some(input_report(description@))),
        }
    }
}

/// The step is the one that follows an event from the keyboard: a typed
/// character is forwarded in its UTF-8 form, unless it is the character
/// that changes the border, which is never forwarded.
pub open spec fn key_step_fits(step: &KeyStep, running: bool, input: &Option<KeyInput>) -> bool {
    if !running {
        step is Stop
    } else {
        match input {
            None => step is Idle,
            Some(KeyInput::Character(c)) => if is_toggle(*c) {
                step is Redraw
            } else {
                match step {
                    KeyStep::Forward(bytes) => bytes@ == utf8_of(*c),
                    _ => false,
                }
            },
            Some(KeyInput::KeyResize) => step is Resize,
            Some(KeyInput::Other(_)) => step is Stop,
        }
    }
}

/// The bytes of one typed character on their way to the pseudo-terminal,
/// and how many of them are written.
#[derive(Clone, Debug, PartialEq, Eq)]
pub struct PtyWrite {
    pub bytes: Vec<u8>,
    pub sent: usize,
}

impl PtyWrite {
    /// No more is written than there is.
    pub open spec fn wf(&self) -> bool {
        self.sent <= self.bytes.len()
    }

    /// The bytes that are not written yet.
    pub open spec fn rest(&self) -> Seq<u8> {
        self.bytes@.subrange(self.sent as int, self.bytes.len() as int)
    }

    /// A write of `bytes` of which nothing is written yet.
    pub fn new(bytes: Vec<u8>) -> (write: PtyWrite)
        ensures
            write.wf(),
            write.bytes == bytes,
            write.sent == 0,
    {
        PtyWrite { bytes, sent: 0 }
    }

    /// Whether every byte is written.
    pub fn is_done(&self) -> (done: bool)
        requires
            self.wf(),
        ensures
            done <==> self.sent == self.bytes.len(),
    {
        self.sent >= self.bytes.len()
    }

    /// The number of bytes that are written.
    pub fn sent(&self) -> (n: usize)
        ensures
            n == self.sent,
    {
        self.sent
    }

    /// The bytes that the next write is made with: those not written yet.
    pub fn pending(&self) -> (rest: &[u8])
        requires
            self.wf(),
        ensures
            rest@ == self.rest(),
    {
        vstd::slice::slice_subrange(self.bytes.as_slice(), self.sent, self.bytes.len())
    }
}

/// The number of bytes written after a write that began with `sent` of
/// `len` bytes written: a write that took bytes adds them, and no write
/// takes more than was pending; a failed write adds nothing.
pub open spec fn sent_after(sent: int, len: int, outcome: &WriteOutcome) -> int {
    match outcome {
        WriteOutcome::Accepted(n) => if sent + *n <= len {
            sent + *n
        } else {
            len
        },
        WriteOutcome::Failed(_) => sent,
    }
}

/// The step after a write that began with `sent` of `len` bytes written.
/// A write that took nothing ends the loop, and so does a failure that is
/// not passed over.
pub open spec fn write_step_of(running: bool, sent: int, len: int, outcome: &WriteOutcome)
    -> WriteStep {
    if !running {
        WriteStep::Stop
    } else {
        match outcome {
            WriteOutcome::Accepted(n) => if *n == 0 {
                WriteStep::Stop
            } else if sent + *n >= len {
                WriteStep::Done
            } else {
                WriteStep::Again
            },
            WriteOutcome::Failed(failure) => match write_class_of(failure.kind) {
                IoClass::Transient => WriteStep::Again,
                _ => WriteStep::Stop,
            },
        }
    }
}

/// The state after a write to the pseudo-terminal.
pub open spec fn after_write(s: LoopState, outcome: &WriteOutcome) -> LoopState {
    if !s.running {
        s
    } else {
        match outcome {
            WriteOutcome::Accepted(n) => if *n == 0 {
                s.stopped(Some(stalled_report()))
            } else {
                s
            },
            WriteOutcome::Failed(failure) => match write_class_of(failure.kind) {
                IoClass::Transient => s,
                _ => s.stopped(Some(io_report(failure))),
            },
        }
    }
}

/// The state of the polling loop.
#[derive(Clone, Debug, PartialEq, Eq)]
pub struct EventLoop {
    pub border_chars: Vec<char>,
    pub cur_border_char: usize,
    pub running: bool,
    pub exit_reason: Option<String>,
}

impl View for EventLoop {
    type V = LoopState;

    open spec fn view(&self) -> LoopState {
        LoopState {
            styles: self.border_chars@,
            style: self.cur_border_char as int,
            running: self.running,
            reason: match self.exit_reason {
                Some(text) => Some(text@),
                None => None,
            },
        }
    }
}

impl EventLoop {
    /// The state is well formed.
    pub open spec fn wf(&self) -> bool {
        self@.wf()
    }

    /// A running loop with the border characters `*`, `+` and `-`, the
    /// first of them in use.
    pub fn new() -> (session: EventLoop)
        ensures
            session.wf(),
            session@ == (LoopState {
                styles: seq!['*', '+', '-'],
                style: 0,
                running: true,
                reason: None,
            }),
    {
        let mut border_chars: Vec<char> = Vec::new();
        border_chars.push('*');
        border_chars.push('+');
        border_chars.push('-');
        assert(border_chars@ =~= seq!['*', '+', '-']);
        EventLoop { border_chars, cur_border_char: 0, running: true, exit_reason: None }
    }

    /// A running loop with the given border characters, the first of them
    /// in use, or nothing where there is no border character.
    pub fn with_border_chars(border_chars: Vec<char>) -> (session: Option<EventLoop>)
        ensures
            session.is_some() <==> border_chars.len() > 0,
            session.is_some() ==> session.unwrap().wf() && session.unwrap()@ == (LoopState {
                styles: border_chars@,
                style: 0,
                running: true,
                reason: None,
            }),
    {
        if border_chars.len() == 0 {
            None
        } else {
            Some(EventLoop { border_chars, cur_border_char: 0, running: true, exit_reason: None })
        }
    }

    /// Whether the loop is running.
    pub fn is_running(&self) -> (running: bool)
        ensures
            running == self@.running,
    {
        self.running
    }

    /// The border character in use.
    pub fn border_char(&self) -> (c: char)
        requires
            self.wf(),
        ensures
            c == self@.border(),
    {
        self.border_chars[self.cur_border_char]
    }

    /// The line to print once the loop has ended: the report that it ended
    /// with, behind the words that introduce it, or nothing where the loop
    /// ended without a report or is still running.
    pub fn farewell(&self) -> (line: Option<String>)
        ensures
            line.is_some() <==> self@.reason.is_some(),
            line.is_some() ==> line.unwrap()@ == farewell_of(self@.reason.unwrap()),
    {
        match &self.exit_reason {
            Some(reason) => Some(farewell(reason.as_str())),
            None => None,
        }
    }

    /// Ends the loop, with a report or without one.
    fn stop(&mut self, reason: Option<String>)
        requires
            old(self).wf(),
        ensures
            final(self).wf(),
            final(self)@ == old(self)@.stopped(
                match reason {
                    Some(text) => Some(text@),
                    None => None,
                },
            ),
    {
        self.running = false;
        self.exit_reason = reason;
    }

    /// Takes the result of a read from the pseudo-terminal and says what
    /// the loop does next. A loop that has ended stays as it is.
    pub fn on_pty_read(&mut self, outcome: &ReadOutcome) -> (step: ReadStep)
        requires
            old(self).wf(),
        ensures
            final(self).wf(),
            final(self)@ == after_read(old(self)@, outcome),
            step == read_step_of(old(self)@.running, outcome),
    {
        if !self.running {
            return ReadStep::Stop;
        }
        match outcome {
            ReadOutcome::Read(n) => {
                if *n == 0 {
                    self.stop(None);
                    ReadStep::Stop
                } else {
                    ReadStep::Feed(*n)
                }
            },
            ReadOutcome::Failed(failure) => {
                match classify_read_error(failure.kind, failure.os_error) {
                    IoClass::ChildExited => {
                        self.stop(None);
                        ReadStep::Stop
                    },
                    IoClass::Transient => ReadStep::Pass,
                    IoClass::Fatal => {
                        self.stop(Some(describe_io_failure(failure)));
                        ReadStep::Stop
                    },
                }
            },
        }
    }

    /// Paints the frame of the grid into the window, with the border
    /// character in use, and says whether the frame is shown. A refused
    /// colour ends the loop with its report, and the unfinished frame is
    /// not shown. A loop that has ended paints nothing.
    pub fn redraw(&mut self, term: &Grid, win: &mut Window) -> (shown: bool)
        requires
            old(self).wf(),
            term.wf(),
            old(win).wf(),
        ensures
            final(self).wf(),
            final(win).wf(),
            final(win)@.height() == old(win)@.height(),
            final(win)@.width == old(win)@.width,
            final(self)@ == after_redraw(old(self)@, term),
            shown <==> old(self)@.running && all_named(term),
            shown ==> final(self)@ == old(self)@,
            shown ==> final(win)@ == frame(old(win)@, term, old(self)@.border()),
            final(win)@ == (if old(self)@.running {
                painted(old(win)@, term, old(self)@.border())
            } else {
                old(win)@
            }),
            old(self)@.running && !all_named(term) ==> {
                &&& !final(self)@.running
                &&& final(self)@.reason.is_some()
                &&& final(self)@.reason == Some(colour_report(first_refusal(term).unwrap()))
                &&& !final(win)@.shown
            },
    {
        if !self.running {
            return false;
        }
        let border_char = self.border_chars[self.cur_border_char];
        match render_term_to_win(term, win, border_char) {
            Ok(()) => true,
            Err(err) => {
                self.stop(Some(describe_colour_error(err)));
                false
            },
        }
    }

    /// Takes the event that the keyboard had, if it had one, and says what
    /// the loop does next. A loop that has ended stays as it is.
    pub fn on_key(&mut self, input: &Option<KeyInput>) -> (step: KeyStep)
        requires
            old(self).wf(),
        ensures
            final(self).wf(),
            final(self)@ == after_key(old(self)@, input),
            key_step_fits(&step, old(self)@.running, input),
            match step {
                KeyStep::Forward(bytes) => bytes@ != seq![BORDER_TOGGLE] && 1 <= bytes.len() <= 4,
                _ => true,
            },
    {
        if !self.running {
            return KeyStep::Stop;
        }
        match input {
            None => KeyStep::Idle,
            Some(KeyInput::Character(c)) => {
                let bytes = encode_utf8(*c);
                if bytes.len() == 1 && bytes[0] == BORDER_TOGGLE {
                    assert(bytes@ =~= seq![BORDER_TOGGLE]);
                    let len = self.border_chars.len();
                    let cur = self.cur_border_char;
                    assert(cur < len);
                    self.cur_border_char = (cur + 1) % len;
                    KeyStep::Redraw
                } else {
                    KeyStep::Forward(bytes)
                }
            },
            Some(KeyInput::KeyResize) => KeyStep::Resize,
            Some(KeyInput::Other(description)) => {
                self.stop(Some(describe_unhandled_input(description.as_str())));
                KeyStep::Stop
            },
        }
    }

    /// Takes the result of a write of the pending bytes and says what the
    /// loop does next. A loop that has ended stays as it is, and so does
    /// the write.
    pub fn on_write(&mut self, write: &mut PtyWrite, outcome: &WriteOutcome) -> (step: WriteStep)
        requires
            old(self).wf(),
            old(write).wf(),
        ensures
            final(self).wf(),
            final(write).wf(),
            final(write).bytes == old(write).bytes,
            final(self)@ == after_write(old(self)@, outcome),
            step == write_step_of(
                old(self)@.running,
                old(write).sent as int,
                old(write).bytes.len() as int,
                outcome,
            ),
            final(write).sent == (if old(self)@.running {
                sent_after(old(write).sent as int, old(write).bytes.len() as int, outcome)
            } else {
                old(write).sent as int
            }),
            step == WriteStep::Done ==> final(write).sent == final(write).bytes.len(),
    {
        if !self.running {
            return WriteStep::Stop;
        }
        match outcome {
            WriteOutcome::Accepted(n) => {
                if *n == 0 {
                    self.stop(Some(describe_stalled_write()));
                    WriteStep::Stop
                } else if *n >= write.bytes.len() - write.sent {
                    write.sent = write.bytes.len();
                    WriteStep::Done
                } else {
                    write.sent = write.sent + *n;
                    WriteStep::Again
                }
            },
            WriteOutcome::Failed(failure) => {
                match classify_write_error(failure.kind) {
                    IoClass::Transient => WriteStep::Again,
                    _ => {
                        self.stop(Some(describe_io_failure(failure)));
                        WriteStep::Stop
                    },
                }
            },
        }
    }
}

/// Takes the new size of the host window: the window is made anew with
/// that size, blank, and keeps its colour pair; the result is the
/// geometry of the view in it, which the terminal and the pseudo-terminal
/// are to have.
pub fn on_resize(win: &mut Window, lines: i32, cols: i32) -> (size: Geometry)
    requires
        old(win).wf(),
        lines - 2 >= i32::MIN,
        cols - 2 >= i32::MIN,
    ensures
        final(win).wf(),
        final(win)@.height() == (if lines < 0 { 0 } else { lines as int }),
        final(win)@.width == (if cols < 0 { 0 } else { cols as int }),
        final(win)@ == final(win)@.cleared(),
        final(win)@.attr == old(win)@.attr,
        size == view_geometry(cols - 2, lines - 2),
{
    let pair = win.attrget();
    let mut fresh = Window::new(lines, cols);
    fresh.attrset(pair);
    *win = fresh;
    assert(win@.glyphs =~~= win@.cleared().glyphs);
    translate(cols, lines)
}

/// The event of the keyboard that changes the border.
pub open spec fn toggle_key() -> Option<KeyInput> {
    Some(KeyInput::Character('\u{4}'))
}

/// The state after the key that changes the border was pressed `n` times.
pub open spec fn after_toggles(s: LoopState, n: nat) -> LoopState
    decreases n,
{
    if n == 0 {
        s
    } else {
        after_key(after_toggles(s, (n - 1) as nat), &toggle_key())
    }
}

/// One character is sent as the byte that changes the border: the
/// control character with the number 4.
pub proof fn lemma_toggle_char(c: char)
    ensures
        is_toggle(c) <==> c == '\u{4}',
{
    lemma_utf8_len(c);
    lemma_utf8_len('\u{4}');
    let v = c as u32;
    if is_toggle(c) {
        assert(utf8_of(c).len() == 1);
        assert(utf8_of(c)[0] == BORDER_TOGGLE);
        assert(v < 0x80);
        assert(c as u8 == 4);
        vstd::utf8::char_u32_cast(c, 4u32);
    }
}

/// A loop that has ended stays as it is, whatever is handed to it: its
/// report, once set, is never replaced.
pub proof fn lemma_stopped_stays(
    s: LoopState,
    read: &ReadOutcome,
    key: &Option<KeyInput>,
    write: &WriteOutcome,
    term: &Grid,
)
    requires
        !s.running,
    ensures
        after_read(s, read) == s,
        after_key(s, key) == s,
        after_write(s, write) == s,
        after_redraw(s, term) == s,
{
}

/// A grid with a cell whose colour is not a named one ends a running
/// loop when it is painted, and the loop then has a report.
pub proof fn lemma_refused_redraw_stops(s: LoopState, term: &Grid)
    requires
        s.running,
        !all_named(term),
    ensures
        !after_redraw(s, term).running,
        after_redraw(s, term).reason == Some(colour_report(first_refusal(term).unwrap())),
{
    lemma_refusal_exists(term);
}

/// Every step keeps the state well formed, and a running loop has no
/// report: a report is set only by the step that ends the loop.
pub proof fn lemma_steps_keep_wf(
    s: LoopState,
    read: &ReadOutcome,
    key: &Option<KeyInput>,
    write: &WriteOutcome,
    term: &Grid,
)
    requires
        s.wf(),
    ensures
        after_read(s, read).wf(),
        after_key(s, key).wf(),
        after_write(s, write).wf(),
        after_redraw(s, term).wf(),
        s.running ==> s.reason.is_none(),
{
}

/// After `n` presses of the key that changes the border, a running loop
/// uses the border character `n` places on in the rotation, and nothing
/// else has changed.
pub proof fn lemma_toggles_advance(s: LoopState, n: nat)
    requires
        s.wf(),
        s.running,
    ensures
        after_toggles(s, n) == (LoopState {
            style: (s.style + n) % (s.styles.len() as int),
            ..s
        }),
    decreases n,
{
    let len = s.styles.len() as int;
    if n == 0 {
        vstd::arithmetic::div_mod::lemma_small_mod(s.style as nat, len as nat);
    } else {
        lemma_toggles_advance(s, (n - 1) as nat);
        lemma_toggle_char('\u{4}');
        let before = after_toggles(s, (n - 1) as nat);
        assert(after_toggles(s, n) == before.toggled());
        vstd::arithmetic::div_mod::lemma_add_mod_noop(s.style + n - 1, 1, len);
        vstd::arithmetic::div_mod::lemma_mod_twice(s.style + n - 1, len);
        if len == 1 {
            assert((s.style + n) % len == 0);
            assert((before.style + 1) % len == 0);
        } else {
            vstd::arithmetic::div_mod::lemma_small_mod(1, len as nat);
        }
    }
}

/// The rotation of the border is a cycle: after as many presses of the
/// key that changes the border as there are border characters, a running
/// loop is in the state in which it began.
pub proof fn lemma_toggles_cycle(s: LoopState)
    requires
        s.wf(),
        s.running,
    ensures
        after_toggles(s, s.styles.len()) == s,
{
    let len = s.styles.len() as int;
    lemma_toggles_advance(s, s.styles.len());
    vstd::arithmetic::div_mod::lemma_mod_add_multiples_vanish(s.style, len);
    vstd::arithmetic::div_mod::lemma_small_mod(s.style as nat, len as nat);
}

/// The number of bytes written after a run of writes that took
/// `counts[0]`, `counts[1]`, ... bytes, one after the other, beginning
/// with `sent` of `len` bytes written.
pub open spec fn sent_after_all(sent: int, len: int, counts: Seq<usize>) -> int
    decreases counts.len(),
{
    if counts.len() == 0 {
        sent
    } else {
        sent_after_all(
            sent_after(sent, len, &WriteOutcome::Accepted(counts[0])),
            len,
            counts.drop_first(),
        )
    }
}

/// The sum of the counts.
pub open spec fn total(counts: Seq<usize>) -> int
    decreases counts.len(),
{
    if counts.len() == 0 {
        0
    } else {
        counts[0] + total(counts.drop_first())
    }
}

/// Each write of the run took at least one byte and no more than was
/// pending when it was made.
pub open spec fn each_fits(sent: int, len: int, counts: Seq<usize>) -> bool
    decreases counts.len(),
{
    counts.len() == 0 || (1 <= counts[0] <= len - sent && each_fits(
        sent + counts[0],
        len,
        counts.drop_first(),
    ))
}

/// However a writer splits the bytes, the bytes written add up: after a
/// run of writes, each of which took some of what was pending, the number
/// of bytes written is the sum of what the writes took, and it is never
/// more than there was to write.
pub proof fn lemma_writes_add_up(sent: int, len: int, counts: Seq<usize>)
    requires
        0 <= sent <= len,
        each_fits(sent, len, counts),
    ensures
        sent_after_all(sent, len, counts) == sent + total(counts),
        sent_after_all(sent, len, counts) <= len,
    decreases counts.len(),
{
    if counts.len() > 0 {
        lemma_writes_add_up(sent + counts[0], len, counts.drop_first());
    }
}

/// With a writer that takes one byte at a time, the bytes of a character
/// are written after exactly as many writes as its UTF-8 form has bytes:
/// each write but the last asks for another, the last one says that the
/// write is done, and the number of bytes written is then the length of
/// that form.
pub proof fn lemma_one_byte_writer(c: char, k: nat)
    requires
        k <= utf8_len_of(c),
    ensures
        sent_after_all(0, utf8_len_of(c) as int, Seq::new(k, |i: int| 1usize)) == k,
        k < utf8_len_of(c) ==> write_step_of(
            true,
            k as int,
            utf8_len_of(c) as int,
            &WriteOutcome::Accepted(1),
        ) == (if k + 1 == utf8_len_of(c) {
            WriteStep::Done
        } else {
            WriteStep::Again
        }),
{
    let len = utf8_len_of(c) as int;
    lemma_ones_fit(0, len, k);
    lemma_writes_add_up(0, len, Seq::new(k, |i: int| 1usize));
}

/// A run of `k` writes of one byte each fits where at least `k` bytes are
/// pending, and takes `k` bytes in all.
pub proof fn lemma_ones_fit(sent: int, len: int, k: nat)
    requires
        0 <= sent,
        sent + k <= len,
    ensures
        each_fits(sent, len, Seq::new(k, |i: int| 1usize)),
        total(Seq::new(k, |i: int| 1usize)) == k,
    decreases k,
{
    let ones = Seq::new(k, |i: int| 1usize);
    if k > 0 {
        lemma_ones_fit(sent + 1, len, (k - 1) as nat);
        assert(ones.drop_first() =~= Seq::new((k - 1) as nat, |i: int| 1usize));
    }
}

} // verus!
