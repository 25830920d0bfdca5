//! Exit codes of an application's `main`.
use vstd::prelude::*;

verus! {

/// A value `main` may return, which stands for an exit code.
pub trait Termination: Sized {
    /// The exit code this value stands for.
    spec fn exit_code(self) -> i32;

    /// The exit code this value stands for.
    fn report(self) -> (code: i32)
        ensures
            code == self.exit_code(),
    ;
}

impl Termination for i32 {
    /// An integer is its own exit code.
    open spec fn exit_code(self) -> i32 {
        self
    }

    fn report(self) -> (code: i32)
        ensures
            code == self,
    {
        self
    }
}

impl Termination for () {
    /// Returning nothing means success.
    open spec fn exit_code(self) -> i32 {
        0
    }

    fn report(self) -> (code: i32)
        ensures
            code == 0,
    {
        0
    }
}

impl<T: Termination> Termination for Option<T> {
    /// `Some` reports its content; `None` is a failure (-1).
    open spec fn exit_code(self) -> i32 {
        match self {
            Some(t) => t.exit_code(),
            None => -1i32,
        }
    }

    fn report(self) -> (code: i32) {
        match self {
            Some(t) => t.report(),
            None => -1,
        }
    }
}

impl<T: Termination, E: Termination> Termination for Result<T, E> {
    /// Either side reports its content.
    open spec fn exit_code(self) -> i32 {
        match self {
            Ok(t) => t.exit_code(),
            Err(e) => e.exit_code(),
        }
    }

    fn report(self) -> (code: i32) {
        match self {
            Ok(t) => t.report(),
            Err(e) => e.report(),
        }
    }
}

/// Law: an integer returned by `main` is its own exit code, and returning
/// nothing means success (0).
pub proof fn lemma_integer_is_own_exit_code(x: i32)
    ensures
        x.exit_code() == x,
        ().exit_code() == 0,
{
}

} // verus!
