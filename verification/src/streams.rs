//! Standard-stream policies for a child process: where its stdin bytes come
//! from and where its stdout goes. The reader, batch-stream and writer types
//! are parameters, so the policies hold whatever transport a host uses.

use vstd::prelude::*;

verus! {

/// How one standard stream of a child is connected.
#[derive(Clone, Copy, Debug, PartialEq, Eq, Structural)]
pub enum StdioMode {
    /// The null device.
    Null,
    /// The parent's corresponding stream.
    Inherit,
    /// A pipe owned by the parent.
    Piped,
}

/// The source of a child's stdin.
pub enum Input<R, J> {
    /// Supplies no bytes: stdin reads from the null device.
    Ignored,
    /// Supplies bytes from an asynchronous reader through a pipe.
    AsyncRead(R),
    /// Supplies JSONL batches through a pipe; an LF is appended to any line
    /// that lacks one.
    Jsonl(J),
}

/// How stdin is configured for an input.
pub open spec fn input_stdio<R, J>(input: Input<R, J>) -> StdioMode {
    match input {
        Input::Ignored => StdioMode::Null,
        _ => StdioMode::Piped,
    }
}

impl<R, J> Input<R, J> {
    /// Selects the child's stdin configuration without consuming the input.
    pub fn as_stdio(&self) -> (r: StdioMode)
        ensures
            r == input_stdio(*self),
    {
        match self {
            Input::Ignored => StdioMode::Null,
            Input::AsyncRead(_) => StdioMode::Piped,
            Input::Jsonl(_) => StdioMode::Piped,
        }
    }

    /// Whether the input supplies no bytes.
    pub fn is_ignored(&self) -> (r: bool)
        ensures
            r == (*self is Ignored),
    {
        match self {
            Input::Ignored => true,
            _ => false,
        }
    }
}

/// How a child's stdout is connected or collected.
pub enum Output<W> {
    /// Discards output through the null device.
    Ignored,
    /// Connects output to the parent's stdout.
    Inherited,
    /// Pipes output so that it is returned to the caller.
    Captured,
    /// Pipes output and forwards it to a writer, flushing at EOF.
    AsyncWrite(W),
}

/// How stdout is configured for an output policy.
pub open spec fn output_stdio<W>(output: Output<W>) -> StdioMode {
    match output {
        Output::Ignored => StdioMode::Null,
        Output::Inherited => StdioMode::Inherit,
        Output::Captured => StdioMode::Piped,
        Output::AsyncWrite(_) => StdioMode::Piped,
    }
}

impl<W> Output<W> {
    /// Selects the child's stdout configuration without consuming the policy.
    /// Captured and forwarded output both request a pipe.
    pub fn as_stdio(&self) -> (r: StdioMode)
        ensures
            r == output_stdio(*self),
    {
        match self {
            Output::Ignored => StdioMode::Null,
            Output::Inherited => StdioMode::Inherit,
            Output::Captured => StdioMode::Piped,
            Output::AsyncWrite(_) => StdioMode::Piped,
        }
    }

    /// Whether stdout is returned to the caller.
    pub fn is_captured(&self) -> (r: bool)
        ensures
            r == (*self is Captured),
    {
        match self {
            Output::Captured => true,
            _ => false,
        }
    }

    /// Whether stdout is forwarded to a writer.
    pub fn is_forwarded(&self) -> (r: bool)
        ensures
            r == (*self is AsyncWrite),
    {
        match self {
            Output::AsyncWrite(_) => true,
            _ => false,
        }
    }

    /// Hands the policy to a stream. A writer moves into the returned value and
    /// leaves `Ignored` behind, so a later execution discards stdout; the other
    /// policies are copied and stay in place.
    pub fn take_for_stream(&mut self) -> (r: Self)
        ensures
            match *old(self) {
                Output::AsyncWrite(w) => r == Output::AsyncWrite(w) && *final(self) is Ignored,
                Output::Ignored => r is Ignored && *final(self) is Ignored,
                Output::Inherited => r is Inherited && *final(self) is Inherited,
                Output::Captured => r is Captured && *final(self) is Captured,
            },
    {
        match self {
            Output::Ignored => Output::Ignored,
            Output::Inherited => Output::Inherited,
            Output::Captured => Output::Captured,
            Output::AsyncWrite(_) => {
                let mut taken = Output::Ignored;
                core::mem::swap(&mut taken, self);
                taken
            },
        }
    }
}

} // verus!
