use vstd::prelude::*;

verus! {

/// The role that a member badge grants.
#[derive(Clone, Copy, PartialEq, Eq, Structural, Debug)]
pub enum Role {
    Member,
    Admin,
}

/// The data of a member badge: its number, the account it was issued to,
/// and the role it grants.
pub struct ArcaneNFT {
    pub id: u64,
    pub owner: String,
    pub role: Role,
}

} // verus!
