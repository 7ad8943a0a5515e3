//! The ways in which an operation on the registry can be refused.

use vstd::prelude::*;

verus! {

/// Why an operation was refused. A refused operation changes nothing.
#[derive(Clone, Copy, Debug, PartialEq, Eq, Structural)]
pub enum RegistryError {
    /// No token has the given id.
    NotFound,
    /// The caller has no authority over the token.
    NotOwner,
    /// The delegate holds no approval, or not the one that was claimed.
    NotApproved,
    /// The id that was to be issued is already taken.
    AlreadyExists,
    /// The registry's state exists already.
    AlreadyInitialized,
    /// The call does not carry the one unit of value that it must.
    InsufficientAttachment,
}

impl RegistryError {
    /// The refusal in words.
    pub open spec fn text(self) -> Seq<char> {
        match self {
            RegistryError::NotFound => "No NFT with this ID"@,
            RegistryError::NotOwner => "Caller must be the owner of the NFT"@,
            RegistryError::NotApproved => "Account was not approved"@,
            RegistryError::AlreadyExists => "NFT already exists"@,
            RegistryError::AlreadyInitialized => "Already initialized"@,
            RegistryError::InsufficientAttachment =>
                "Requires attached deposit of exactly 1 yoctoNEAR"@,
        }
    }

    /// The refusal in words, for whoever reports it.
    pub fn message(&self) -> (out: &'static str)
        ensures
            out@ == self.text(),
    {
        match self {
            RegistryError::NotFound => "No NFT with this ID",
            RegistryError::NotOwner => "Caller must be the owner of the NFT",
            RegistryError::NotApproved => "Account was not approved",
            RegistryError::AlreadyExists => "NFT already exists",
            RegistryError::AlreadyInitialized => "Already initialized",
            RegistryError::InsufficientAttachment =>
                "Requires attached deposit of exactly 1 yoctoNEAR",
        }
    }
}

} // verus!
