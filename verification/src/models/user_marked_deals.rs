use vstd::prelude::*;

verus! {

/// A user's mark on a deal, with both ids as text.
#[derive(Debug)]
pub struct UserMarkedDealsSchema {
    pub user_id: String,
    pub deal_id: String,
}

} // verus!
