//! Explicit process-exit and input-delivery outcomes, the decision taken when
//! feeding a child's stdin ends, and the error precedence that turns an
//! outcome into a result.

use vstd::prelude::*;
use vstd::string::*;

use crate::text::{decimal, decimal_spec};
use crate::utf8::utf8_text;

verus! {

/// What happened while supplying a child's stdin. `S` is the error of the
/// input source, `W` the error of writing to the pipe.
pub enum InputCompletion<S, W> {
    /// The source reached EOF and all bytes were written, or input was ignored.
    /// This confirms delivery to the pipe, not processing by the child.
    Complete,
    /// The child exited while its input feed was still pending; the source was
    /// cancelled.
    Interrupted,
    /// Reading the source failed; the child was terminated.
    SourceFailed(S),
    /// Writing or closing stdin failed. A broken pipe lets the child finish so
    /// that its exit diagnostics are kept; other write errors terminate it.
    WriteFailed { error: W, broken_pipe: bool },
}

/// How the child exited.
#[derive(Clone, Copy, Debug, PartialEq, Eq, Structural)]
pub struct ExitInfo {
    /// Whether the exit was successful (code zero).
    pub success: bool,
    /// The exit code, or `None` when the child ended without one (a signal).
    pub code: Option<i32>,
}

/// A reaped child's output and input-delivery outcome, including unsuccessful exits.
pub struct ExecutionCompletion<S, W> {
    /// How the child exited.
    pub status: ExitInfo,
    /// Captured stdout; empty when stdout was not captured.
    pub stdout: Vec<u8>,
    /// Captured stderr bytes.
    pub stderr: Vec<u8>,
    /// Whether the input source finished and all its bytes reached the pipe.
    pub input: InputCompletion<S, W>,
}

/// Why a completion is not a success.
pub enum CompletionError<S, W> {
    /// The input source failed.
    Source(S),
    /// Writing the input failed.
    Write(W),
    /// The child exited unsuccessfully; stderr is its captured text when that
    /// is valid UTF-8.
    Exit { code: Option<i32>, stderr: Option<String> },
    /// The child exited successfully before all input was delivered.
    IncompleteInput,
}

/// `text` is the UTF-8 decoding of `bytes`, or `None` when they are not valid UTF-8.
pub open spec fn decoded_text(bytes: Seq<u8>, text: Option<String>) -> bool {
    match text {
        Some(t) => vstd::utf8::valid_utf8(bytes) && t@ == vstd::utf8::decode_utf8(bytes),
        None => !vstd::utf8::valid_utf8(bytes),
    }
}

/// The result of a completion, by precedence: a source error, then a write
/// error other than a broken pipe (both terminate the child), then an
/// unsuccessful exit with its stderr, then a broken pipe or an interrupted
/// feed. So an exit failure is not hidden by a downstream broken pipe, and an
/// upstream error is not hidden by the termination it caused.
pub open spec fn completion_result<S, W>(
    c: ExecutionCompletion<S, W>,
    r: Result<Vec<u8>, CompletionError<S, W>>,
) -> bool {
    match c.input {
        InputCompletion::SourceFailed(e) => r == Err::<Vec<u8>, CompletionError<S, W>>(
            CompletionError::Source(e),
        ),
        InputCompletion::WriteFailed { error, broken_pipe: false } => r == Err::<
            Vec<u8>,
            CompletionError<S, W>,
        >(CompletionError::Write(error)),
        _ => if !c.status.success {
            r matches Err(CompletionError::Exit { code, stderr }) && code == c.status.code
                && decoded_text(c.stderr@, stderr)
        } else {
            match c.input {
                InputCompletion::Complete => r matches Ok(out) && out@ == c.stdout@,
                InputCompletion::Interrupted => r matches Err(CompletionError::IncompleteInput),
                InputCompletion::WriteFailed { error, .. } => r == Err::<
                    Vec<u8>,
                    CompletionError<S, W>,
                >(CompletionError::Write(error)),
                InputCompletion::SourceFailed(_) => false,
            }
        },
    }
}

impl<S, W> ExecutionCompletion<S, W> {
    /// Requires a successful exit and complete input delivery, returning stdout.
    pub fn into_result(self) -> (r: Result<Vec<u8>, CompletionError<S, W>>)
        ensures
            completion_result(self, r),
            r is Ok ==> self.status.success && self.input is Complete,
            r matches Ok(out) ==> out@ == self.stdout@,
            !self.status.success && !(self.input is SourceFailed) && !(self.input matches InputCompletion::WriteFailed { broken_pipe: false, .. })
                ==> (r matches Err(CompletionError::Exit { code, .. }) && code == self.status.code),
    {
        let ExecutionCompletion { status, stdout, stderr, input } = self;
        match input {
            InputCompletion::SourceFailed(e) => Err(CompletionError::Source(e)),
            InputCompletion::WriteFailed { error, broken_pipe } => {
                if !broken_pipe {
                    Err(CompletionError::Write(error))
                } else if !status.success {
                    Err(CompletionError::Exit { code: status.code, stderr: utf8_text(&stderr) })
                } else {
                    Err(CompletionError::Write(error))
                }
            },
            InputCompletion::Complete => {
                if !status.success {
                    Err(CompletionError::Exit { code: status.code, stderr: utf8_text(&stderr) })
                } else {
                    Ok(stdout)
                }
            },
            InputCompletion::Interrupted => {
                if !status.success {
                    Err(CompletionError::Exit { code: status.code, stderr: utf8_text(&stderr) })
                } else {
                    Err(CompletionError::IncompleteInput)
                }
            },
        }
    }
}

/// How feeding a child's stdin ended, as observed while supervising it.
pub enum FeedEvent<S, W> {
    /// The source reached EOF and stdin was closed.
    Finished,
    /// Reading the source failed.
    SourceError(S),
    /// Writing or closing stdin failed.
    WriteError { error: W, broken_pipe: bool },
    /// The child exited first; the pending feed is cancelled.
    ChildExited,
}

/// The input outcome of an event, and whether the child must be terminated:
/// a source error or a write error other than a broken pipe terminates it;
/// otherwise the child is left to finish so its diagnostics are collected.
pub open spec fn feed_outcome<S, W>(event: FeedEvent<S, W>, r: (InputCompletion<S, W>, bool)) -> bool {
    match event {
        FeedEvent::Finished => r.0 is Complete && !r.1,
        FeedEvent::SourceError(e) => r.0 == InputCompletion::<S, W>::SourceFailed(e) && r.1,
        FeedEvent::WriteError { error, broken_pipe } => r.0 == InputCompletion::<
            S,
            W,
        >::WriteFailed { error, broken_pipe } && r.1 == !broken_pipe,
        FeedEvent::ChildExited => r.0 is Interrupted && !r.1,
    }
}

impl<S, W> FeedEvent<S, W> {
    /// Settles the input outcome of this event and whether to kill the child.
    pub fn settle(self) -> (r: (InputCompletion<S, W>, bool))
        ensures
            feed_outcome(self, r),
    {
        match self {
            FeedEvent::Finished => (InputCompletion::Complete, false),
            FeedEvent::SourceError(e) => (InputCompletion::SourceFailed(e), true),
            FeedEvent::WriteError { error, broken_pipe } => (
                InputCompletion::WriteFailed { error, broken_pipe },
                !broken_pipe,
            ),
            FeedEvent::ChildExited => (InputCompletion::Interrupted, false),
        }
    }
}

/// The decimal text of a signed number, with a leading `-` when negative.
pub open spec fn signed_decimal(n: int) -> Seq<char> {
    if n < 0 {
        seq!['-'] + decimal_spec((-n) as nat)
    } else {
        decimal_spec(n as nat)
    }
}

/// The message of an unsuccessful exit.
pub open spec fn exit_message(recognized: bool, code: Option<i32>, stderr: Option<Seq<char>>) -> Seq<
    char,
> {
    let shown = match code {
        Some(c) => c as int,
        None => -1,
    };
    let head = if recognized {
        "Command failed with exit code "@
    } else {
        "Command failed with unexpected exit code: "@
    };
    head + signed_decimal(shown) + match stderr {
        Some(t) => seq!['\n'] + t,
        None => Seq::empty(),
    }
}

/// Formats the message of an unsuccessful exit: the exit code (`-1` when
/// there is none), with "unexpected" for a code outside the recognized
/// sysexits set, followed on a new line by the captured stderr text if any.
pub fn exit_failure_message(recognized: bool, code: Option<i32>, stderr: Option<&str>) -> (r: String)
    ensures
        r@ == exit_message(
            recognized,
            code,
            match stderr {
                Some(t) => Some(t@),
                None => None,
            },
        ),
{
    let mut s = if recognized {
        String::from_str("Command failed with exit code ")
    } else {
        String::from_str("Command failed with unexpected exit code: ")
    };
    let shown: i64 = match code {
        Some(c) => c as i64,
        None => -1,
    };
    if shown < 0 {
        proof {
            reveal_strlit("-");
        }
        s.append("-");
        let magnitude = (0 - shown) as usize;
        let digits = decimal(magnitude);
        s.append(digits.as_str());
    } else {
        let digits = decimal(shown as usize);
        s.append(digits.as_str());
    }
    match stderr {
        Some(t) => {
            proof {
                reveal_strlit("\n");
            }
            s.append("\n");
            s.append(t);
        },
        None => {},
    }
    proof {
        let ghost shown_int: int = match code {
            Some(c) => c as int,
            None => -1,
        };
        assert(shown == shown_int);
    }
    s
}

/// Decodes captured stderr text, when it is valid UTF-8.
pub fn stderr_text(bytes: &[u8]) -> (r: Option<String>)
    ensures
        decoded_text(bytes@, r),
{
    utf8_text(bytes)
}

/// What happened while streaming a child's captured stdout.
pub enum PumpEvent<L, R, E> {
    /// The child was reaped; this is its completion (or the failure to get one).
    Exited(R),
    /// The next framed line of stdout.
    Line(L),
    /// Reading stdout failed.
    ReadError(E),
    /// Stdout ended.
    End,
}

/// What the stream does next.
pub enum PumpAction<L, R, E> {
    /// Keep reading; the completion is kept until stdout ends.
    Continue,
    /// Yield this line.
    Yield(L),
    /// End the stream with this read error.
    Fail(E),
    /// Stdout ended: settle with the kept completion, or await it when `None`.
    Settle(Option<R>),
}

/// Streaming state of a child's stdout: its completion, once observed. Lines
/// read before the completion is settled are delivered first, so a failure is
/// reported after every complete line.
pub struct OutputPump<R> {
    exited: Option<R>,
}

impl<R> OutputPump<R> {
    /// No completion observed yet.
    pub closed spec fn completion(self) -> Option<R> {
        self.exited
    }

    /// Starts streaming.
    pub fn new() -> (r: Self)
        ensures
            r.completion() is None,
    {
        OutputPump { exited: None }
    }

    /// Whether the child's completion has been observed (and must not be
    /// awaited again).
    pub fn has_exited(&self) -> (r: bool)
        ensures
            r == self.completion() is Some,
    {
        self.exited.is_some()
    }

    /// Decides the response to one event.
    pub fn step<L, E>(&mut self, event: PumpEvent<L, R, E>) -> (r: PumpAction<L, R, E>)
        requires
            old(self).completion() is Some ==> !(event is Exited),
        ensures
            match event {
                PumpEvent::Exited(c) => final(self).completion() == Some(c) && r is Continue,
                PumpEvent::Line(l) => r == PumpAction::<L, R, E>::Yield(l) && final(self).completion()
                    == old(self).completion(),
                PumpEvent::ReadError(e) => r == PumpAction::<L, R, E>::Fail(e)
                    && final(self).completion() == old(self).completion(),
                PumpEvent::End => r == PumpAction::<L, R, E>::Settle(old(self).completion())
                    && final(self).completion() is None,
            },
    {
        match event {
            PumpEvent::Exited(c) => {
                self.exited = Some(c);
                PumpAction::Continue
            },
            PumpEvent::Line(l) => PumpAction::Yield(l),
            PumpEvent::ReadError(e) => PumpAction::Fail(e),
            PumpEvent::End => {
                let mut kept: Option<R> = None;
                core::mem::swap(&mut kept, &mut self.exited);
                PumpAction::Settle(kept)
            },
        }
    }
}

/// A completion succeeds only when the child exited successfully and all of
/// its input was delivered, and then its result is the captured stdout. An
/// unsuccessful exit is an error carrying the exit code whenever the input
/// outcome is not a source error or a write error that terminated the child.
pub proof fn lemma_success_requires_clean_exit<S, W>(
    c: ExecutionCompletion<S, W>,
    r: Result<Vec<u8>, CompletionError<S, W>>,
)
    requires
        completion_result(c, r),
    ensures
        r is Ok <==> c.status.success && c.input is Complete,
        r matches Ok(out) ==> out@ == c.stdout@,
        !c.status.success && !(c.input is SourceFailed) && !(c.input matches InputCompletion::WriteFailed { broken_pipe: false, .. })
            ==> (r matches Err(CompletionError::Exit { code, .. }) && code == c.status.code),
        c.input matches InputCompletion::SourceFailed(e) ==> r == Err::<Vec<u8>, CompletionError<S, W>>(CompletionError::Source(e)),
{
}

} // verus!
