//! The signed-in visitor.

use vstd::prelude::*;

verus! {

/// A visitor as the identity provider describes them.
#[derive(Debug)]
pub struct User {
    pub id: String,
    pub avatar: Option<String>,
    pub username: String,
    pub discriminator: String,
}

} // verus!
