//! External programs as plain data: what to run, and how it ended.
//!
//! Nothing here starts a process. An [`Invocation`] is a command line for the
//! caller to run; an [`ExitStatus`] is what the caller saw when it ended.

use vstd::prelude::*;

verus! {

/// How a process ended: its exit code, or `None` when it ended without one
/// (killed by a signal, or its end could not be observed).
#[derive(Clone, Copy, Debug, PartialEq, Eq, Structural)]
pub struct ExitStatus {
    pub code: Option<i32>,
}

impl ExitStatus {
    /// Success is exit code zero and nothing else.
    pub open spec fn succeeded(self) -> bool {
        self.code == Some(0i32)
    }

    #[verifier::when_used_as_spec(succeeded)]
    pub fn success(self) -> (ok: bool)
        ensures
            ok == self.succeeded(),
    {
        match self.code {
            Some(code) => code == 0,
            None => false,
        }
    }

    /// The status of a process that exited with `code`.
    pub fn exited(code: i32) -> (status: ExitStatus)
        ensures
            status.code == Some(code),
    {
        ExitStatus { code: Some(code) }
    }

    /// The status of a process that ended without an exit code.
    pub fn without_code() -> (status: ExitStatus)
        ensures
            status.code.is_none(),
    {
        ExitStatus { code: None }
    }
}

/// A command line: the program's name and its arguments in order.
#[derive(Debug)]
pub struct Invocation {
    pub program: String,
    pub args: Vec<String>,
}

/// Mathematical value of an [`Invocation`].
pub struct InvocationView {
    pub program: Seq<char>,
    pub args: Seq<Seq<char>>,
}

impl View for Invocation {
    type V = InvocationView;

    open spec fn view(&self) -> InvocationView {
        InvocationView { program: self.program@, args: self.args.deep_view() }
    }
}

} // verus!
