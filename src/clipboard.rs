use vstd::prelude::*;

verus! {

/// The clipboard of the shell. It is not yet wired to the compositor's data
/// device, so it carries no state.
#[derive(Debug)]
pub struct Clipboard {}

impl Clipboard {
    /// A clipboard that no data device backs.
    pub fn unconnected() -> (r: Clipboard) {
        Clipboard {}
    }
}

} // verus!
