use vstd::prelude::*;

verus! {

/// A path parameter that names a deal.
#[derive(Debug)]
pub struct ParamOptions {
    pub id: String,
}

} // verus!
