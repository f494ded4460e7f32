use vstd::prelude::*;

use super::error::Error;

verus! {

/// One page of a response: its items, the cursor of the next page, or the
/// error that the API reported instead.
#[derive(Debug)]
pub struct Envelop<T> {
    pub items: Option<Vec<T>>,
    pub next_page_token: Option<String>,
    pub error: Option<Error>,
}

} // verus!
