//! The state of a child-process pump.
//!
//! A pump thread copies the child's standard output and standard error, one
//! byte per read, into two buffers that the owner drains without blocking.
//! After each empty read a backoff counter grows; once it reaches its limit
//! the thread pauses between rounds so that non-blocking pipes do not make it
//! spin. Terminating asks the thread to exit at the end of its next idle round.

use vstd::prelude::*;
use crate::text::{str_equals, utf8_to_string};

verus! {

/// Consecutive empty reads after which the pump pauses between rounds.
pub const BACKOFF_LIMIT: u32 = 10;

/// How long the pump pauses once it backs off, in milliseconds.
pub const BACKOFF_PAUSE_MS: u64 = 1000;

/// One of the child's two output streams.
#[derive(Clone, Copy, Debug, PartialEq, Eq, Structural)]
pub enum PumpStream {
    Stdout,
    Stderr,
}

/// The outcome of one read of one byte from a stream.
#[derive(Clone, Copy, Debug, PartialEq, Eq, Structural)]
pub enum PumpRead {
    Byte(u8),
    /// The read returned no data.
    Empty,
    /// The read failed.
    Failed,
}

/// What the pump thread does next.
#[derive(Clone, Copy, Debug, PartialEq, Eq, Structural)]
pub enum PumpAction {
    /// Read one byte from this stream.
    Read(PumpStream),
    /// Sleep this many milliseconds, then read from standard output.
    Pause(u64),
    /// Exit the thread.
    Exit,
}

pub struct ProcessModel {
    pub stdout: Seq<u8>,
    pub stderr: Seq<u8>,
    pub backoff: u32,
    pub shutdown: bool,
    pub running: bool,
}

pub open spec fn model_fresh() -> ProcessModel {
    ProcessModel { stdout: seq![], stderr: seq![], backoff: 0, shutdown: false, running: true }
}

pub open spec fn bumped(backoff: u32) -> u32 {
    if backoff == u32::MAX {
        backoff
    } else {
        (backoff + 1) as u32
    }
}

/// The pump's next action after reading `read` from `from`: a byte starts a
/// new round at standard output; an empty standard output moves on to
/// standard error; an empty standard error or a failed read ends the round,
/// where a requested shutdown makes the thread exit and a long run of reads
/// without data makes it pause.
pub open spec fn model_pump_result(m: ProcessModel, from: PumpStream, read: PumpRead) -> PumpAction {
    if !m.running {
        PumpAction::Exit
    } else {
        match read {
            PumpRead::Byte(_) => PumpAction::Read(PumpStream::Stdout),
            _ => {
                if read == PumpRead::Empty && from == PumpStream::Stdout {
                    PumpAction::Read(PumpStream::Stderr)
                } else if m.shutdown {
                    PumpAction::Exit
                } else if bumped(m.backoff) >= BACKOFF_LIMIT {
                    PumpAction::Pause(BACKOFF_PAUSE_MS)
                } else {
                    PumpAction::Read(PumpStream::Stdout)
                }
            },
        }
    }
}

/// A byte is appended to its stream's buffer and clears the backoff; a read
/// without data grows the backoff, and the round it ends stops a pump that
/// was asked to shut down.
pub open spec fn model_pump(m: ProcessModel, from: PumpStream, read: PumpRead) -> ProcessModel {
    if !m.running {
        m
    } else {
        match read {
            PumpRead::Byte(b) => {
                if from == PumpStream::Stdout {
                    ProcessModel { stdout: m.stdout.push(b), backoff: 0, ..m }
                } else {
                    ProcessModel { stderr: m.stderr.push(b), backoff: 0, ..m }
                }
            },
            _ => {
                if !(read == PumpRead::Empty && from == PumpStream::Stdout) && m.shutdown {
                    ProcessModel { backoff: bumped(m.backoff), running: false, ..m }
                } else {
                    ProcessModel { backoff: bumped(m.backoff), ..m }
                }
            },
        }
    }
}

/// The text of a drained buffer: its characters where it is well-formed
/// UTF-8, and no text where it is not.
pub open spec fn decoded_or_empty(bytes: Seq<u8>) -> Seq<char> {
    if vstd::utf8::valid_utf8(bytes) {
        vstd::utf8::decode_utf8(bytes)
    } else {
        seq![]
    }
}

/// `Some("error")` selects standard error; anything else standard output.
pub open spec fn requested_stream(request: Option<Seq<char>>) -> PumpStream {
    if request == Some("error"@) {
        PumpStream::Stderr
    } else {
        PumpStream::Stdout
    }
}

pub open spec fn model_get_result(m: ProcessModel, s: PumpStream) -> Seq<char> {
    if s == PumpStream::Stderr {
        decoded_or_empty(m.stderr)
    } else {
        decoded_or_empty(m.stdout)
    }
}

pub open spec fn model_get(m: ProcessModel, s: PumpStream) -> ProcessModel {
    if s == PumpStream::Stderr {
        ProcessModel { stderr: seq![], ..m }
    } else {
        ProcessModel { stdout: seq![], ..m }
    }
}

pub open spec fn model_terminate(m: ProcessModel) -> ProcessModel {
    ProcessModel { shutdown: true, ..m }
}

pub open spec fn view_request(request: Option<&str>) -> Option<Seq<char>> {
    match request {
        Some(s) => Some(s@),
        None => None,
    }
}

/// Pumps each of `bytes`, in order, as read from `from`.
pub open spec fn model_pump_bytes(m: ProcessModel, from: PumpStream, bytes: Seq<u8>) -> ProcessModel
    decreases bytes.len(),
{
    if bytes.len() == 0 {
        m
    } else {
        model_pump(model_pump_bytes(m, from, bytes.drop_last()), from, PumpRead::Byte(bytes.last()))
    }
}

proof fn lemma_pump_bytes(m: ProcessModel, bytes: Seq<u8>)
    requires
        m.running,
    ensures
        model_pump_bytes(m, PumpStream::Stdout, bytes).stdout == m.stdout + bytes,
        model_pump_bytes(m, PumpStream::Stdout, bytes).running,
    decreases bytes.len(),
{
    if bytes.len() == 0 {
        assert(m.stdout + bytes =~= m.stdout);
    } else {
        lemma_pump_bytes(m, bytes.drop_last());
        assert((m.stdout + bytes.drop_last()).push(bytes.last()) =~= m.stdout + bytes);
    }
}

/// What the child writes to standard output comes back unchanged: after the
/// pump copies well-formed UTF-8 `bytes` into an empty buffer, `get_message`
/// returns exactly the text they encode and leaves the buffer empty.
pub proof fn lemma_process_output_round_trip(m: ProcessModel, bytes: Seq<u8>)
    requires
        m.running,
        m.stdout.len() == 0,
        vstd::utf8::valid_utf8(bytes),
    ensures
        model_get_result(model_pump_bytes(m, PumpStream::Stdout, bytes), PumpStream::Stdout)
            == vstd::utf8::decode_utf8(bytes),
        model_get(model_pump_bytes(m, PumpStream::Stdout, bytes), PumpStream::Stdout).stdout.len()
            == 0,
{
    lemma_pump_bytes(m, bytes);
    assert(m.stdout + bytes =~= bytes);
}

/// Terminating twice is the same as terminating once; after a requested
/// shutdown the pump exits at the end of its next round without data, and
/// at its next failed read; a pump that has exited never runs again.
pub proof fn lemma_process_terminate(m: ProcessModel, from: PumpStream, read: PumpRead)
    ensures
        model_terminate(model_terminate(m)) == model_terminate(m),
        !model_pump(model_terminate(m), PumpStream::Stderr, PumpRead::Empty).running,
        !model_pump(model_terminate(m), from, PumpRead::Failed).running,
        m.running ==> model_pump_result(model_terminate(m), from, PumpRead::Failed)
            == PumpAction::Exit,
        !m.running ==> !model_pump(m, from, read).running && !model_terminate(m).running,
        !m.running ==> model_pump_result(m, from, read) == PumpAction::Exit,
{
}

/// The state shared by a process handle and its pump thread.
pub struct ProcessState {
    stdout: Vec<u8>,
    stderr: Vec<u8>,
    backoff: u32,
    shutdown: bool,
    running: bool,
}

impl View for ProcessState {
    type V = ProcessModel;

    closed spec fn view(&self) -> ProcessModel {
        ProcessModel {
            stdout: self.stdout@,
            stderr: self.stderr@,
            backoff: self.backoff,
            shutdown: self.shutdown,
            running: self.running,
        }
    }
}

/// Which stream a `get_message` request selects.
pub fn request_stream(request: Option<&str>) -> (r: PumpStream)
    ensures
        r == requested_stream(view_request(request)),
{
    match request {
        Some(s) => {
            if str_equals(s, "error") {
                PumpStream::Stderr
            } else {
                PumpStream::Stdout
            }
        },
        None => PumpStream::Stdout,
    }
}

/// Decodes drained bytes as UTF-8; bytes that are not well-formed UTF-8 give
/// no text and are dropped.
pub fn decode_output(bytes: Vec<u8>) -> (r: String)
    ensures
        r@ == decoded_or_empty(bytes@),
{
    match utf8_to_string(bytes) {
        Some(s) => s,
        None => String::new(),
    }
}

impl ProcessState {
    /// A running pump with both buffers empty.
    pub fn new() -> (r: Self)
        ensures
            r@ == model_fresh(),
    {
        ProcessState {
            stdout: Vec::new(),
            stderr: Vec::new(),
            backoff: 0,
            shutdown: false,
            running: true,
        }
    }

    pub fn is_running(&self) -> (r: bool)
        ensures
            r == self@.running,
    {
        self.running
    }

    /// Called by the pump thread with the outcome of its last read.
    pub fn pump(&mut self, from: PumpStream, read: PumpRead) -> (r: PumpAction)
        ensures
            r == model_pump_result(old(self)@, from, read),
            final(self)@ == model_pump(old(self)@, from, read),
    {
        if !self.running {
            return PumpAction::Exit;
        }
        match read {
            PumpRead::Byte(b) => {
                self.backoff = 0;
                if from == PumpStream::Stdout {
                    self.stdout.push(b);
                } else {
                    self.stderr.push(b);
                }
                PumpAction::Read(PumpStream::Stdout)
            },
            _ => {
                if self.backoff < u32::MAX {
                    self.backoff = self.backoff + 1;
                }
                if read == PumpRead::Empty && from == PumpStream::Stdout {
                    PumpAction::Read(PumpStream::Stderr)
                } else if self.shutdown {
                    self.running = false;
                    PumpAction::Exit
                } else if self.backoff >= BACKOFF_LIMIT {
                    PumpAction::Pause(BACKOFF_PAUSE_MS)
                } else {
                    PumpAction::Read(PumpStream::Stdout)
                }
            },
        }
    }

    /// Drains the stream that `request` selects and decodes what it held.
    pub fn get_message(&mut self, request: Option<&str>) -> (r: String)
        ensures
            r@ == model_get_result(old(self)@, requested_stream(view_request(request))),
            final(self)@ == model_get(old(self)@, requested_stream(view_request(request))),
    {
        let bytes = if request_stream(request) == PumpStream::Stderr {
            let b = self.stderr.split_off(0);
            assert(self.stderr@ =~= seq![]);
            assert(b@ =~= old(self)@.stderr);
            b
        } else {
            let b = self.stdout.split_off(0);
            assert(self.stdout@ =~= seq![]);
            assert(b@ =~= old(self)@.stdout);
            b
        };
        decode_output(bytes)
    }

    /// Asks the pump thread to exit at the end of its next idle round.
    pub fn terminate(&mut self)
        ensures
            final(self)@ == model_terminate(old(self)@),
    {
        self.shutdown = true;
    }
}

} // verus!
