//! One interpreter session: a bounded line buffer fed one character at a
//! time, dispatching each completed line to the interpreter.

use vstd::prelude::*;
use vstd::string::*;

use crate::config::{default_config_v, Config, ConfigV};
use crate::interp::{handle_line, line_outcome};
use crate::signal::RunSignal;
use crate::text::{opt_view, push_char, views_of};

verus! {

/// Most characters one line may hold; further input is dropped until the
/// line terminator.
pub const LINE_CAPACITY: usize = 64;

/// The bounded buffer collecting one line of operator input.
pub struct LineBuffer {
    buf: String,
}

impl View for LineBuffer {
    type V = Seq<char>;

    closed spec fn view(&self) -> Seq<char> {
        self.buf@
    }
}

/// What one input character does to the line buffer: the buffer afterwards,
/// and the completed line on a terminator.
pub open spec fn line_step(b: Seq<char>, c: char) -> (Seq<char>, Option<Seq<char>>) {
    if c == '\n' || c == '\r' {
        (Seq::empty(), Some(b))
    } else if b.len() < LINE_CAPACITY as int {
        (b.push(c), None)
    } else {
        (b, None)
    }
}

impl LineBuffer {
    pub fn new() -> (r: LineBuffer)
        ensures
            r@ == Seq::<char>::empty(),
    {
        LineBuffer { buf: String::new() }
    }

    /// Accepts one character: a terminator completes the line and empties
    /// the buffer; anything else is appended while there is room.
    pub fn push_input(&mut self, c: char) -> (done: Option<String>)
        ensures
            final(self)@ == line_step(old(self)@, c).0,
            opt_view(done) == line_step(old(self)@, c).1,
    {
        if c == '\n' || c == '\r' {
            let line = self.buf.clone();
            self.buf = String::new();
            Some(line)
        } else if self.buf.as_str().unicode_len() < LINE_CAPACITY {
            push_char(&mut self.buf, c);
            None
        } else {
            None
        }
    }
}

/// The whole console state: the shared record, the run-control signal, and
/// the line being typed.
pub struct Session {
    pub config: Config,
    pub signal: RunSignal,
    pub line: LineBuffer,
}

/// Mathematical form of a session.
pub ghost struct SessionV {
    pub cfg: ConfigV,
    pub pending: Option<u64>,
    pub line: Seq<char>,
}

impl View for Session {
    type V = SessionV;

    open spec fn view(&self) -> SessionV {
        SessionV { cfg: self.config@, pending: self.signal@, line: self.line@ }
    }
}

/// What one input character does to the whole session.
pub open spec fn session_step(s: SessionV, c: char) -> (SessionV, Seq<Seq<char>>) {
    let (b, done) = line_step(s.line, c);
    match done {
        None => (SessionV { line: b, ..s }, Seq::empty()),
        Some(l) => {
            let o = line_outcome(s.cfg, s.pending, l);
            (SessionV { cfg: o.cfg, pending: o.pending, line: b }, o.out)
        },
    }
}

impl Session {
    /// A fresh console: default record, no pending request, empty line.
    pub fn new() -> (r: Session)
        ensures
            r@.cfg == default_config_v(),
            r@.cfg.wf(),
            r@.pending == None::<u64>,
            r@.line == Seq::<char>::empty(),
    {
        Session { config: Config::new_default(), signal: RunSignal::new(), line: LineBuffer::new() }
    }

    /// Feeds one character of operator input; on a line terminator the
    /// completed line is interpreted and its response returned.
    pub fn input_char(&mut self, c: char) -> (out: Vec<String>)
        requires
            old(self)@.cfg.wf(),
        ensures
            final(self)@.cfg.wf(),
            final(self)@ == session_step(old(self)@, c).0,
            views_of(out@) == session_step(old(self)@, c).1,
    {
        match self.line.push_input(c) {
            None => {
                let out: Vec<String> = Vec::new();
                proof {
                    assert(views_of(out@) =~= Seq::<Seq<char>>::empty());
                }
                out
            },
            Some(l) => handle_line(&mut self.config, &mut self.signal, &l),
        }
    }
}

} // verus!
