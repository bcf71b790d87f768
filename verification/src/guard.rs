use vstd::prelude::*;

use crate::errors::TokenError;
use crate::ids::AccountId;
use crate::record::SupplyLedgerRecord;

verus! {

/// Authority guard for mint and burn: the mutation is permitted only if the
/// claimed signer equals the authority reported by the external asset itself.
///
/// The source of truth lives with the external asset; the record's cached
/// `mint_authority` is informational only and is deliberately not consulted,
/// so a diverged cached copy can never be exploited.
#[allow(unused_variables)]
pub fn verify_mint_authority(
    record: &SupplyLedgerRecord,
    claimed_authority: AccountId,
    asset_authority: AccountId,
) -> (r: Result<(), TokenError>)
    ensures
        r is Ok <==> claimed_authority == asset_authority,
        r is Err ==> r matches Err(TokenError::InvalidMintAuthority),
{
    if claimed_authority == asset_authority {
        Ok(())
    } else {
        Err(TokenError::InvalidMintAuthority)
    }
}

/// Ownership guard for transfer and burn: the claimed owner must be the
/// recorded owner of the account acted on. A hard rejection on mismatch,
/// with no retry and no partial effect.
pub fn verify_owner(claimed_owner: AccountId, account_owner: AccountId) -> (r: Result<
    (),
    TokenError,
>)
    ensures
        r is Ok <==> claimed_owner == account_owner,
        r is Err ==> r matches Err(TokenError::InvalidOwner),
{
    if claimed_owner == account_owner {
        Ok(())
    } else {
        Err(TokenError::InvalidOwner)
    }
}

/// Balance precondition for transfer: the source balance, read at call time
/// inside the same atomic unit of work, must cover the amount strictly.
pub fn verify_sufficient_balance(source_balance: u64, amount: u64) -> (r: Result<(), TokenError>)
    ensures
        r is Ok <==> source_balance >= amount,
        r is Err ==> r matches Err(TokenError::InsufficientBalance),
{
    if source_balance >= amount {
        Ok(())
    } else {
        Err(TokenError::InsufficientBalance)
    }
}

} // verus!
