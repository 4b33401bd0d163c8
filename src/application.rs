use crate::error::Error as ShellError;
use vstd::prelude::*;

verus! {

/// An error that occurred while running an application; `G` is the error
/// type of the graphics backend.
#[derive(Debug)]
pub enum Error<G> {
    /// The futures executor could not be created.
    ExecutorCreationFailed(std::io::Error),
    /// The application graphics context could not be created.
    GraphicsCreationFailed(G),
}

/// The application error that stands for a shell error: the same variant,
/// holding the same cause.
pub open spec fn from_shell<G>(e: ShellError<G>) -> Error<G> {
    match e {
        ShellError::ExecutorCreationFailed(io) => Error::ExecutorCreationFailed(io),
        ShellError::GraphicsCreationFailed(g) => Error::GraphicsCreationFailed(g),
    }
}

impl<G> From<ShellError<G>> for Error<G> {
    fn from(error: ShellError<G>) -> (r: Error<G>)
        ensures
            r == from_shell(error),
    {
        match error {
            ShellError::ExecutorCreationFailed(error) => Error::ExecutorCreationFailed(error),
            ShellError::GraphicsCreationFailed(error) => Error::GraphicsCreationFailed(error),
        }
    }
}

impl<G> vstd::std_specs::convert::FromSpecImpl<ShellError<G>> for Error<G> {
    open spec fn obeys_from_spec() -> bool {
        true
    }

    open spec fn from_spec(v: ShellError<G>) -> Error<G> {
        from_shell(v)
    }
}

} // verus!
