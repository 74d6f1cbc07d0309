use vstd::prelude::*;

pub mod api;
pub mod auth;
pub mod util;

verus! {

/// One platform account, as the data endpoints report it.
pub struct User {
    pub id: String,
    pub login: String,
}

} // verus!
