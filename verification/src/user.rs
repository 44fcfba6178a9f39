use vstd::prelude::*;

verus! {

/// A visitor as the page templates see them.
pub struct User {
    pub is_signed_in: bool,
    pub user_name: String,
}

} // verus!
