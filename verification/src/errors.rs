use vstd::prelude::*;

verus! {

/// Every failure the core can report, one named condition per variant.
///
/// Each error is detected synchronously and aborts the whole operation with
/// no partial state change; none is retried by the core.
#[derive(Clone, Copy, PartialEq, Eq, Structural, Debug)]
pub enum TokenError {
    /// The claimed signer is not the asset's mint authority.
    InvalidMintAuthority,
    /// The claimed signer does not own the account it acts on.
    InvalidOwner,
    /// The source account holds less than the requested amount.
    InsufficientBalance,
    /// Minting would overflow the aggregate supply counter.
    SupplyOverflow,
    /// Burning would drive the aggregate supply counter below zero.
    SupplyUnderflow,
    /// A record already exists for the token identity being created.
    DuplicateRecord,
    /// The external ledger service rejected the delegated call.
    EnvironmentError,
}

impl TokenError {
    /// A short display name for the condition, one per variant.
    pub fn describe(&self) -> (r: &'static str)
        ensures
            self is InvalidMintAuthority ==> r@ == "invalid mint authority"@,
            self is InvalidOwner ==> r@ == "invalid owner"@,
            self is InsufficientBalance ==> r@ == "insufficient balance"@,
            self is SupplyOverflow ==> r@ == "supply overflow"@,
            self is SupplyUnderflow ==> r@ == "supply underflow"@,
            self is DuplicateRecord ==> r@ == "duplicate record"@,
            self is EnvironmentError ==> r@ == "environment error"@,
    {
        match self {
            TokenError::InvalidMintAuthority => "invalid mint authority",
            TokenError::InvalidOwner => "invalid owner",
            TokenError::InsufficientBalance => "insufficient balance",
            TokenError::SupplyOverflow => "supply overflow",
            TokenError::SupplyUnderflow => "supply underflow",
            TokenError::DuplicateRecord => "duplicate record",
            TokenError::EnvironmentError => "environment error",
        }
    }
}

} // verus!
