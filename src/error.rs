use vstd::prelude::*;

verus! {

#[verifier::external_type_specification]
#[verifier::external_body]
pub struct ExIoError(std::io::Error);

/// An error that occurred while starting the shell; `G` is the error type of
/// the graphics backend.
#[derive(Debug)]
pub enum Error<G> {
    /// The futures executor could not be created.
    ExecutorCreationFailed(std::io::Error),
    /// The application graphics context could not be created.
    GraphicsCreationFailed(G),
}

impl<G> From<G> for Error<G> {
    fn from(error: G) -> (r: Error<G>)
        ensures
            r == Error::<G>::GraphicsCreationFailed(error),
    {
        Error::GraphicsCreationFailed(error)
    }
}

impl<G> vstd::std_specs::convert::FromSpecImpl<G> for Error<G> {
    open spec fn obeys_from_spec() -> bool {
        true
    }

    open spec fn from_spec(v: G) -> Error<G> {
        Error::GraphicsCreationFailed(v)
    }
}

} // verus!
