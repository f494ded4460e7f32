use vstd::prelude::*;

verus! {

/// An error that the API reported in place of a page.
#[derive(Clone, Debug)]
pub struct Error {
    pub code: i32,
    pub message: String,
}

impl Error {
    /// The text shown for the error: its message.
    pub fn description(&self) -> (r: String)
        ensures
            r@ == self.message@,
    {
        self.message.clone()
    }
}

} // verus!
