//! The loop that drains the sidecar's output.
//!
//! Events are taken one at a time, in the order the child emitted them. Output
//! lines are decoded, stripped of their line terminators and handed on for
//! logging; the child's termination is logged, triggers the teardown, and ends
//! the loop.

use vstd::prelude::*;
use vstd::string::*;
use vstd::utf8::{decode_utf8, valid_utf8};

verus! {

/// How the child ended, as the process layer reports it.
#[derive(Clone, Copy, Debug, PartialEq, Eq)]
pub struct ExitStatus {
    pub code: Option<i32>,
    pub signal: Option<i32>,
}

/// One event of the child's event stream.
#[derive(Debug, PartialEq, Eq)]
pub enum SidecarEvent {
    /// A line the child wrote to its standard output, as raw bytes.
    Stdout(Vec<u8>),
    /// A line the child wrote to its standard error, as raw bytes.
    Stderr(Vec<u8>),
    /// An error the process layer reported while the child runs or starts.
    Error(String),
    /// The child has exited.
    Terminated(ExitStatus),
    /// Anything else the process layer emits.
    Other,
}

/// Which stream a logged line came from.
#[derive(Clone, Copy, Debug, PartialEq, Eq)]
pub enum StreamOrigin {
    Stdout,
    Stderr,
}

/// What the loop does with one event.
#[derive(Debug, PartialEq, Eq)]
pub enum DrainAction {
    /// Log a line of the child's output.
    Log { origin: StreamOrigin, line: String },
    /// Log an error of the process layer; the child is left alone.
    LogError(String),
    /// Log the child's exit, run the termination sequencer, stop reading.
    Terminate(ExitStatus),
    /// Nothing to do.
    Ignore,
}

/// What lossy UTF-8 decoding makes of `bytes`: each invalid sequence becomes
/// U+FFFD.
pub uninterp spec fn lossy_utf8(bytes: Seq<u8>) -> Seq<char>;

/// Relies on `String::from_utf8_lossy`: the text of `bytes`, with each invalid
/// sequence replaced; valid UTF-8 is decoded as it is.
#[verifier::external_body]
fn decode_lossy(bytes: &Vec<u8>) -> (s: String)
    ensures
        s@ == lossy_utf8(bytes@),
        valid_utf8(bytes@) ==> s@ == decode_utf8(bytes@),
{
    String::from_utf8_lossy(bytes.as_slice()).into_owned()
}

pub open spec fn is_line_terminator(c: char) -> bool {
    c == '\r' || c == '\n'
}

/// `s` without the carriage returns and line feeds at its end.
pub open spec fn trim_line_end(s: Seq<char>) -> Seq<char>
    decreases s.len(),
{
    if s.len() > 0 && is_line_terminator(s.last()) {
        trim_line_end(s.drop_last())
    } else {
        s
    }
}

/// Strips every trailing `\r` and `\n` from `s`.
pub fn trim_line_terminators(s: &str) -> (r: String)
    ensures
        r@ == trim_line_end(s@),
{
    let mut n = s.unicode_len();
    assert(s@.subrange(0, n as int) =~= s@);
    while n > 0 && (s.get_char(n - 1) == '\r' || s.get_char(n - 1) == '\n')
        invariant
            n <= s@.len(),
            trim_line_end(s@.subrange(0, n as int)) == trim_line_end(s@),
        decreases n,
    {
        assert(s@.subrange(0, n as int).drop_last() =~= s@.subrange(0, n - 1));
        n = n - 1;
    }
    let r = s.substring_char(0, n);
    r.to_owned()
}

/// Whether `action` is what the loop does with `event`; an output line is
/// decoded lossily and stripped of its line terminators.
pub open spec fn action_for(event: SidecarEvent, action: DrainAction) -> bool {
    match event {
        SidecarEvent::Stdout(bytes) => action matches DrainAction::Log { origin, line } && origin
            == StreamOrigin::Stdout && line@ == trim_line_end(lossy_utf8(bytes@)),
        SidecarEvent::Stderr(bytes) => action matches DrainAction::Log { origin, line } && origin
            == StreamOrigin::Stderr && line@ == trim_line_end(lossy_utf8(bytes@)),
        SidecarEvent::Error(detail) => action == DrainAction::LogError(detail),
        SidecarEvent::Terminated(status) => action == DrainAction::Terminate(status),
        SidecarEvent::Other => action == DrainAction::Ignore,
    }
}

/// The state of the drain loop: whether it still reads events.
pub struct DrainLoop {
    open: bool,
}

impl DrainLoop {
    /// Whether the loop still reads events.
    pub closed spec fn reading(&self) -> bool {
        self.open
    }

    /// A loop that has read nothing yet.
    pub fn new() -> (d: Self)
        ensures
            d.reading(),
    {
        DrainLoop { open: true }
    }

    /// Whether the next event should be read.
    pub fn is_reading(&self) -> (b: bool)
        ensures
            b == self.reading(),
    {
        self.open
    }

    /// Handles the next event. The loop stops reading after the child's
    /// termination and only then.
    pub fn on_event(&mut self, event: SidecarEvent) -> (action: DrainAction)
        requires
            old(self).reading(),
        ensures
            action_for(event, action),
            final(self).reading() == !(event is Terminated),
    {
        match event {
            SidecarEvent::Stdout(bytes) => {
                let text = decode_lossy(&bytes);
                DrainAction::Log {
                    origin: StreamOrigin::Stdout,
                    line: trim_line_terminators(text.as_str()),
                }
            },
            SidecarEvent::Stderr(bytes) => {
                let text = decode_lossy(&bytes);
                DrainAction::Log {
                    origin: StreamOrigin::Stderr,
                    line: trim_line_terminators(text.as_str()),
                }
            },
            SidecarEvent::Error(detail) => DrainAction::LogError(detail),
            SidecarEvent::Terminated(status) => {
                self.open = false;
                DrainAction::Terminate(status)
            },
            SidecarEvent::Other => DrainAction::Ignore,
        }
    }
}

} // verus!
