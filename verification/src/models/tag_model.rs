use vstd::prelude::*;

verus! {

/// The body of a request that creates a tag.
#[derive(Debug)]
pub struct CreateTagSchema {
    pub title: String,
}

} // verus!
