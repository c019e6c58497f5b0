//! The run of one script as a state machine.
//!
//! A [`RunDirector`] decides what to do next; the caller performs each
//! [`Action`] (create the run directory, read the script, pipe bytes through a
//! filter command, start the shell, write a log file) and reports the outcome
//! back as an [`Event`]. The order of work, the size ceiling, the decode and
//! encode stages and the failure reports are all decided here.

use vstd::prelude::*;
use vstd::utf8::*;

use crate::error::{message_of, Error, ErrorView};
use crate::script::MAX_SCRIPT_SIZE;

verus! {

/// Where a run stands.
#[derive(Clone, Copy, PartialEq, Eq, Debug, Structural)]
pub enum Phase {
    /// Waiting for the run directory to be created.
    Creating,
    /// Waiting for the size of the script file.
    Sizing,
    /// Waiting for the bytes of the script file.
    Reading,
    /// Waiting for the decoder's result.
    Decoding,
    /// Waiting for the shell running the script.
    Executing,
    /// Waiting for the encoder's result on standard output.
    EncodingOut,
    /// Waiting for `stdout.log` to be written.
    WritingOut,
    /// Waiting for the encoder's result on standard error.
    EncodingErr,
    /// Waiting for `stderr.log` to be written.
    WritingErr,
    /// Waiting for `error.log` to be written.
    Reporting,
    /// The run is over.
    Done,
}

/// Log files of a run directory.
#[derive(Clone, Copy, PartialEq, Eq, Debug, Structural)]
pub enum Log {
    Stdout,
    Stderr,
    Error,
}

impl Log {
    /// Name of the log file inside the run directory.
    pub fn file_name(&self) -> (r: &'static str)
        ensures
            r@ == log_file_name(*self),
    {
        match self {
            Log::Stdout => "stdout.log",
            Log::Stderr => "stderr.log",
            Log::Error => "error.log",
        }
    }
}

pub open spec fn log_file_name(l: Log) -> Seq<char> {
    match l {
        Log::Stdout => "stdout.log"@,
        Log::Stderr => "stderr.log"@,
        Log::Error => "error.log"@,
    }
}

/// What the caller observed while performing the last action.
#[derive(Debug, PartialEq, Eq)]
pub enum Event {
    /// The action completed and has nothing to report.
    Done,
    /// Size in bytes of the script file.
    Size(u64),
    /// Contents of the script file.
    Contents(Vec<u8>),
    /// A filter command ran: whether it exited successfully, and its standard output.
    Filtered { success: bool, output: Vec<u8> },
    /// The script ran to completion with this standard output and standard error.
    Output { stdout: Vec<u8>, stderr: Vec<u8> },
    /// The action failed with an I/O error, described.
    Failed(String),
}

/// What the caller is asked to do next.
#[derive(Debug, PartialEq, Eq)]
pub enum Action {
    /// Create the run directory.
    CreateDir,
    /// Report the size of the script file.
    MeasureScript,
    /// Report the contents of the script file.
    ReadScript,
    /// Run `command` under the shell in the run directory, with `input` on its
    /// standard input, and report its exit status and standard output.
    Filter { command: String, input: Vec<u8> },
    /// Run `text` under the shell in the run directory. In wait mode report its
    /// output once it exits; otherwise only start it.
    Execute { text: String },
    /// Write `contents` to the log file inside the run directory.
    WriteLog { log: Log, contents: Vec<u8> },
    /// The run is over, with this outcome.
    Finish(Result<(), Error>),
}

pub enum EventView {
    Done,
    Size(u64),
    Contents(Seq<u8>),
    Filtered(bool, Seq<u8>),
    Output(Seq<u8>, Seq<u8>),
    Failed(Seq<char>),
}

pub enum ActionView {
    CreateDir,
    MeasureScript,
    ReadScript,
    Filter(Seq<char>, Seq<u8>),
    Execute(Seq<char>),
    WriteLog(Log, Seq<u8>),
    Finish(Option<ErrorView>),
}

impl View for Event {
    type V = EventView;

    open spec fn view(&self) -> EventView {
        match self {
            Event::Done => EventView::Done,
            Event::Size(n) => EventView::Size(*n),
            Event::Contents(b) => EventView::Contents(b@),
            Event::Filtered { success, output } => EventView::Filtered(*success, output@),
            Event::Output { stdout, stderr } => EventView::Output(stdout@, stderr@),
            Event::Failed(m) => EventView::Failed(m@),
        }
    }
}

impl View for Action {
    type V = ActionView;

    open spec fn view(&self) -> ActionView {
        match self {
            Action::CreateDir => ActionView::CreateDir,
            Action::MeasureScript => ActionView::MeasureScript,
            Action::ReadScript => ActionView::ReadScript,
            Action::Filter { command, input } => ActionView::Filter(command@, input@),
            Action::Execute { text } => ActionView::Execute(text@),
            Action::WriteLog { log, contents } => ActionView::WriteLog(*log, contents@),
            Action::Finish(Ok(())) => ActionView::Finish(None),
            Action::Finish(Err(e)) => ActionView::Finish(Some(e@)),
        }
    }
}

/// Mathematical state of a run.
pub struct RunState {
    pub phase: Phase,
    /// Canonical path of the script, used in error reports.
    pub script: Seq<char>,
    pub decoder: Option<Seq<char>>,
    pub encoder: Option<Seq<char>>,
    /// Whether the caller waits for the script and captures its output.
    pub wait: bool,
    /// Standard error of the script, kept until standard output is dealt with.
    pub held: Seq<u8>,
    /// The failure being reported.
    pub failure: Option<ErrorView>,
}

pub open spec fn opt_view(o: Option<String>) -> Option<Seq<char>> {
    match o {
        Some(s) => Some(s@),
        None => None,
    }
}

/// Whether a run in phase `p`, with wait mode `wait`, takes event `e`.
pub open spec fn accepts(p: Phase, wait: bool, e: EventView) -> bool {
    match e {
        EventView::Failed(_) => p != Phase::Done,
        EventView::Done => match p {
            Phase::Creating | Phase::WritingOut | Phase::WritingErr | Phase::Reporting => true,
            Phase::Executing => !wait,
            _ => false,
        },
        EventView::Size(_) => p == Phase::Sizing,
        EventView::Contents(_) => p == Phase::Reading,
        EventView::Filtered(_, _) => p == Phase::Decoding || p == Phase::EncodingOut || p
            == Phase::EncodingErr,
        EventView::Output(_, _) => p == Phase::Executing && wait,
    }
}

/// Ends the run with `outcome`.
pub open spec fn finish(s: RunState, outcome: Option<ErrorView>) -> (RunState, ActionView) {
    (RunState { phase: Phase::Done, failure: None, ..s }, ActionView::Finish(outcome))
}

/// Records `e` in `error.log` before ending the run.
pub open spec fn report(s: RunState, e: ErrorView) -> (RunState, ActionView) {
    (
        RunState { phase: Phase::Reporting, failure: Some(e), ..s },
        ActionView::WriteLog(Log::Error, encode_utf8(message_of(e))),
    )
}

/// Runs the decoded script when it is text; rejects it otherwise.
pub open spec fn execute(s: RunState, b: Seq<u8>) -> (RunState, ActionView) {
    if valid_utf8(b) {
        (RunState { phase: Phase::Executing, ..s }, ActionView::Execute(decode_utf8(b)))
    } else {
        report(s, ErrorView::UnsupportedScript(s.script))
    }
}

/// Deals with captured standard error: encode it, write it, or skip it when empty.
pub open spec fn emit_err(s: RunState, err: Seq<u8>) -> (RunState, ActionView) {
    if err.len() == 0 {
        finish(s, None)
    } else {
        match s.encoder {
            None => (
                RunState { phase: Phase::WritingErr, held: Seq::empty(), ..s },
                ActionView::WriteLog(Log::Stderr, err),
            ),
            Some(c) => (
                RunState { phase: Phase::EncodingErr, held: Seq::empty(), ..s },
                ActionView::Filter(c, err),
            ),
        }
    }
}

/// Deals with captured standard output, keeping standard error for later.
pub open spec fn emit_out(s: RunState, out: Seq<u8>, err: Seq<u8>) -> (RunState, ActionView) {
    if out.len() == 0 {
        emit_err(s, err)
    } else {
        match s.encoder {
            None => (
                RunState { phase: Phase::WritingOut, held: err, ..s },
                ActionView::WriteLog(Log::Stdout, out),
            ),
            Some(c) => (
                RunState { phase: Phase::EncodingOut, held: err, ..s },
                ActionView::Filter(c, out),
            ),
        }
    }
}

/// The next state and action of a run in state `s` that observes `e`.
pub open spec fn next(s: RunState, e: EventView) -> (RunState, ActionView) {
    match e {
        EventView::Failed(m) => if s.phase == Phase::Creating {
            finish(s, Some(ErrorView::IO(m)))
        } else if s.phase == Phase::Reporting {
            finish(s, s.failure)
        } else {
            report(s, ErrorView::IO(m))
        },
        EventView::Done => match s.phase {
            Phase::Creating => (RunState { phase: Phase::Sizing, ..s }, ActionView::MeasureScript),
            Phase::WritingOut => emit_err(RunState { held: Seq::empty(), ..s }, s.held),
            Phase::Reporting => finish(s, s.failure),
            _ => finish(s, None),
        },
        EventView::Size(n) => if n > MAX_SCRIPT_SIZE {
            report(s, ErrorView::UnsupportedScript(s.script))
        } else {
            (RunState { phase: Phase::Reading, ..s }, ActionView::ReadScript)
        },
        EventView::Contents(b) => match s.decoder {
            None => execute(s, b),
            Some(c) => (RunState { phase: Phase::Decoding, ..s }, ActionView::Filter(c, b)),
        },
        EventView::Filtered(ok, out) => if s.phase == Phase::Decoding {
            if ok {
                execute(s, out)
            } else {
                report(s, ErrorView::DecodeFailed(s.script))
            }
        } else if !ok {
            report(s, ErrorView::EncodeFailed(s.script))
        } else if s.phase == Phase::EncodingOut {
            (RunState { phase: Phase::WritingOut, ..s }, ActionView::WriteLog(Log::Stdout, out))
        } else {
            (RunState { phase: Phase::WritingErr, ..s }, ActionView::WriteLog(Log::Stderr, out))
        },
        EventView::Output(out, err) => emit_out(s, out, err),
    }
}

/// Relies on `String::from_utf8`, which accepts exactly the valid UTF-8
/// byte strings and keeps their bytes.
#[verifier::external_body]
fn utf8_text(b: Vec<u8>) -> (r: Option<String>)
    ensures
        r is Some <==> valid_utf8(b@),
        r matches Some(s) ==> s@ == decode_utf8(b@),
{
    String::from_utf8(b).ok()
}

/// Decisions of one script run.
#[derive(Debug)]
pub struct RunDirector {
    phase: Phase,
    script: String,
    decoder: Option<String>,
    encoder: Option<String>,
    wait: bool,
    held: Vec<u8>,
    failure: Option<Error>,
}

impl View for RunDirector {
    type V = RunState;

    closed spec fn view(&self) -> RunState {
        RunState {
            phase: self.phase,
            script: self.script@,
            decoder: opt_view(self.decoder),
            encoder: opt_view(self.encoder),
            wait: self.wait,
            held: self.held@,
            failure: match self.failure {
                Some(e) => Some(e@),
                None => None,
            },
        }
    }
}

impl RunDirector {
    /// A run of the script at canonical path `script`, with its first action:
    /// creating the run directory.
    pub fn new(script: String, decoder: Option<String>, encoder: Option<String>, wait: bool) -> (r: (
        RunDirector,
        Action,
    ))
        ensures
            r.1@ == ActionView::CreateDir,
            r.0@ == (RunState {
                phase: Phase::Creating,
                script: script@,
                decoder: opt_view(decoder),
                encoder: opt_view(encoder),
                wait,
                held: Seq::empty(),
                failure: None,
            }),
    {
        (
            RunDirector {
                phase: Phase::Creating,
                script,
                decoder,
                encoder,
                wait,
                held: Vec::new(),
                failure: None,
            },
            Action::CreateDir,
        )
    }

    /// Where the run stands.
    pub fn phase(&self) -> (r: Phase)
        ensures
            r == self@.phase,
    {
        self.phase
    }

    /// Whether the run is in a state that takes `e`.
    pub fn accepts(&self, e: &Event) -> (r: bool)
        ensures
            r == accepts(self@.phase, self@.wait, e@),
    {
        match e {
            Event::Failed(_) => self.phase != Phase::Done,
            Event::Done => match self.phase {
                Phase::Creating | Phase::WritingOut | Phase::WritingErr | Phase::Reporting => true,
                Phase::Executing => !self.wait,
                _ => false,
            },
            Event::Size(_) => self.phase == Phase::Sizing,
            Event::Contents(_) => self.phase == Phase::Reading,
            Event::Filtered { .. } => self.phase == Phase::Decoding || self.phase == Phase::EncodingOut
                || self.phase == Phase::EncodingErr,
            Event::Output { .. } => self.phase == Phase::Executing && self.wait,
        }
    }

    fn finish(&mut self, outcome: Result<(), Error>) -> (r: Action)
        ensures
            (final(self)@, r@) == finish(old(self)@, match outcome {
                Ok(()) => None,
                Err(e) => Some(e@),
            }),
    {
        self.phase = Phase::Done;
        self.failure = None;
        Action::Finish(outcome)
    }

    /// Ends the run with the failure being reported, if any.
    fn conclude(&mut self) -> (r: Action)
        ensures
            (final(self)@, r@) == finish(old(self)@, old(self)@.failure),
    {
        let mut f: Option<Error> = None;
        core::mem::swap(&mut f, &mut self.failure);
        match f {
            Some(x) => self.finish(Err(x)),
            None => self.finish(Ok(())),
        }
    }

    fn report(&mut self, e: Error) -> (r: Action)
        ensures
            (final(self)@, r@) == report(old(self)@, e@),
    {
        let text = e.message();
        let contents = text.as_str().as_bytes_vec();
        self.phase = Phase::Reporting;
        self.failure = Some(e);
        Action::WriteLog { log: Log::Error, contents }
    }

    fn script_path(&self) -> (r: String)
        ensures
            r@ == self@.script,
    {
        self.script.as_str().to_owned()
    }

    fn execute(&mut self, b: Vec<u8>) -> (r: Action)
        ensures
            (final(self)@, r@) == execute(old(self)@, b@),
    {
        match utf8_text(b) {
            Some(text) => {
                self.phase = Phase::Executing;
                Action::Execute { text }
            },
            None => {
                let p = self.script_path();
                self.report(Error::UnsupportedScript(p))
            },
        }
    }

    fn emit_err(&mut self, err: Vec<u8>) -> (r: Action)
        ensures
            (final(self)@, r@) == emit_err(old(self)@, err@),
    {
        if err.len() == 0 {
            return self.finish(Ok(()));
        }
        self.held = Vec::new();
        match &self.encoder {
            None => {
                self.phase = Phase::WritingErr;
                Action::WriteLog { log: Log::Stderr, contents: err }
            },
            Some(c) => {
                let command = c.as_str().to_owned();
                self.phase = Phase::EncodingErr;
                Action::Filter { command, input: err }
            },
        }
    }

    fn emit_out(&mut self, out: Vec<u8>, err: Vec<u8>) -> (r: Action)
        ensures
            (final(self)@, r@) == emit_out(old(self)@, out@, err@),
    {
        if out.len() == 0 {
            return self.emit_err(err);
        }
        self.held = err;
        match &self.encoder {
            None => {
                self.phase = Phase::WritingOut;
                Action::WriteLog { log: Log::Stdout, contents: out }
            },
            Some(c) => {
                let command = c.as_str().to_owned();
                self.phase = Phase::EncodingOut;
                Action::Filter { command, input: out }
            },
        }
    }

    fn failed(&mut self, m: String) -> (r: Action)
        requires
            old(self)@.phase != Phase::Done,
        ensures
            (final(self)@, r@) == next(old(self)@, EventView::Failed(m@)),
    {
        if self.phase == Phase::Creating {
            self.finish(Err(Error::IO(m)))
        } else if self.phase == Phase::Reporting {
            self.conclude()
        } else {
            self.report(Error::IO(m))
        }
    }

    fn done(&mut self) -> (r: Action)
        requires
            accepts(old(self)@.phase, old(self)@.wait, EventView::Done),
        ensures
            (final(self)@, r@) == next(old(self)@, EventView::Done),
    {
        match self.phase {
            Phase::Creating => {
                self.phase = Phase::Sizing;
                Action::MeasureScript
            },
            Phase::WritingOut => {
                let mut held: Vec<u8> = Vec::new();
                core::mem::swap(&mut held, &mut self.held);
                self.emit_err(held)
            },
            Phase::Reporting => self.conclude(),
            _ => self.finish(Ok(())),
        }
    }

    fn sized(&mut self, n: u64) -> (r: Action)
        ensures
            (final(self)@, r@) == next(old(self)@, EventView::Size(n)),
    {
        if n > MAX_SCRIPT_SIZE {
            let p = self.script_path();
            self.report(Error::UnsupportedScript(p))
        } else {
            self.phase = Phase::Reading;
            Action::ReadScript
        }
    }

    fn read(&mut self, b: Vec<u8>) -> (r: Action)
        ensures
            (final(self)@, r@) == next(old(self)@, EventView::Contents(b@)),
    {
        match &self.decoder {
            None => self.execute(b),
            Some(c) => {
                let command = c.as_str().to_owned();
                self.phase = Phase::Decoding;
                Action::Filter { command, input: b }
            },
        }
    }

    fn filtered(&mut self, success: bool, output: Vec<u8>) -> (r: Action)
        ensures
            (final(self)@, r@) == next(old(self)@, EventView::Filtered(success, output@)),
    {
        if self.phase == Phase::Decoding {
            if success {
                self.execute(output)
            } else {
                let p = self.script_path();
                self.report(Error::DecodeFailed(p))
            }
        } else if !success {
            let p = self.script_path();
            self.report(Error::EncodeFailed(p))
        } else if self.phase == Phase::EncodingOut {
            self.phase = Phase::WritingOut;
            Action::WriteLog { log: Log::Stdout, contents: output }
        } else {
            self.phase = Phase::WritingErr;
            Action::WriteLog { log: Log::Stderr, contents: output }
        }
    }

    /// Takes the outcome of the last action and returns the next one.
    pub fn step(&mut self, e: Event) -> (r: Action)
        requires
            accepts(old(self)@.phase, old(self)@.wait, e@),
        ensures
            (final(self)@, r@) == next(old(self)@, e@),
    {
        match e {
            Event::Failed(m) => self.failed(m),
            Event::Done => self.done(),
            Event::Size(n) => self.sized(n),
            Event::Contents(b) => self.read(b),
            Event::Filtered { success, output } => self.filtered(success, output),
            Event::Output { stdout, stderr } => self.emit_out(stdout, stderr),
        }
    }
}

/// The actions a run in state `s` takes over the events `es`, up to the first
/// event it does not take.
pub open spec fn actions(s: RunState, es: Seq<EventView>) -> Seq<ActionView>
    decreases es.len(),
{
    if es.len() == 0 || !accepts(s.phase, s.wait, es[0]) {
        seq![]
    } else {
        seq![next(s, es[0]).1] + actions(next(s, es[0]).0, es.drop_first())
    }
}

/// Once a failure is being reported, or the run is over, the only action left
/// is to end the run with that failure.
pub proof fn lemma_report_ends_run(s: RunState, es: Seq<EventView>)
    requires
        s.phase == Phase::Reporting || s.phase == Phase::Done,
    ensures
        actions(s, es).len() <= 1,
        s.phase == Phase::Done ==> actions(s, es).len() == 0,
        forall|k: int|
            0 <= k < actions(s, es).len() ==> actions(s, es)[k] == ActionView::Finish(s.failure),
{
    if es.len() > 0 && accepts(s.phase, s.wait, es[0]) {
        let t = next(s, es[0]).0;
        assert(t.phase == Phase::Done);
        assert(actions(t, es.drop_first()) == Seq::<ActionView>::empty());
    }
}

/// A script larger than the ceiling is rejected as unsupported: the run writes
/// `error.log` and ends with that failure, and neither a filter nor the script
/// itself is ever run.
pub proof fn lemma_oversized_never_runs(s: RunState, n: u64, es: Seq<EventView>)
    requires
        s.phase == Phase::Sizing,
        n > MAX_SCRIPT_SIZE,
    ensures
        ({
            let acts = actions(s, seq![EventView::Size(n)] + es);
            let e = ErrorView::UnsupportedScript(s.script);
            &&& acts.len() >= 1
            &&& acts[0] == ActionView::WriteLog(Log::Error, encode_utf8(message_of(e)))
            &&& forall|k: int| 1 <= k < acts.len() ==> acts[k] == ActionView::Finish(Some(e))
            &&& forall|k: int| 0 <= k < acts.len() ==> !(acts[k] is Execute) && !(acts[k] is Filter)
        }),
{
    let all = seq![EventView::Size(n)] + es;
    let e = ErrorView::UnsupportedScript(s.script);
    assert(all[0] == EventView::Size(n));
    assert(all.drop_first() =~= es);
    let t = report(s, e).0;
    lemma_report_ends_run(t, es);
    assert(actions(s, all) == seq![next(s, all[0]).1] + actions(t, es));
}

/// A filter that exits with a failure status ends its stage: the decode
/// failure, or the encode failure, is written to `error.log`, and the run then
/// only ends with it; nothing is executed and no output log is written.
pub proof fn lemma_failed_filter_stops(s: RunState, out: Seq<u8>, es: Seq<EventView>)
    requires
        s.phase == Phase::Decoding || s.phase == Phase::EncodingOut || s.phase
            == Phase::EncodingErr,
    ensures
        ({
            let acts = actions(s, seq![EventView::Filtered(false, out)] + es);
            let e = if s.phase == Phase::Decoding {
                ErrorView::DecodeFailed(s.script)
            } else {
                ErrorView::EncodeFailed(s.script)
            };
            &&& acts.len() >= 1
            &&& acts[0] == ActionView::WriteLog(Log::Error, encode_utf8(message_of(e)))
            &&& forall|k: int| 1 <= k < acts.len() ==> acts[k] == ActionView::Finish(Some(e))
        }),
{
    let all = seq![EventView::Filtered(false, out)] + es;
    let e = if s.phase == Phase::Decoding {
        ErrorView::DecodeFailed(s.script)
    } else {
        ErrorView::EncodeFailed(s.script)
    };
    assert(all[0] == EventView::Filtered(false, out));
    assert(all.drop_first() =~= es);
    let t = report(s, e).0;
    lemma_report_ends_run(t, es);
    assert(actions(s, all) == seq![next(s, all[0]).1] + actions(t, es));
}

/// With no decoder, the text handed to the shell is the script file's bytes
/// unchanged: its UTF-8 encoding is exactly those bytes. Bytes that are not
/// UTF-8 are rejected as unsupported.
pub proof fn lemma_passthrough(s: RunState, b: Seq<u8>)
    requires
        s.phase == Phase::Reading,
        s.decoder is None,
    ensures
        valid_utf8(b) ==> (next(s, EventView::Contents(b)).1 matches ActionView::Execute(t)
            && encode_utf8(t) == b),
        !valid_utf8(b) ==> next(s, EventView::Contents(b)).1 == ActionView::WriteLog(
            Log::Error,
            encode_utf8(message_of(ErrorView::UnsupportedScript(s.script))),
        ),
{
    if valid_utf8(b) {
        decode_utf8_encode_utf8(b);
    }
}

} // verus!
