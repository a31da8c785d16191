use vstd::prelude::*;

verus! {

/// An error reported to the user who ran a command; `cause` is the text shown.
#[derive(Clone, Debug)]
pub struct RaincoatError {
    pub cause: String,
}

} // verus!
