use vstd::prelude::*;

use crate::errors::TokenError;
use crate::guard;
use crate::ids::AccountId;
use crate::record::RecordModel;
use crate::record::SupplyLedgerRecord;

verus! {

/// A delegated call to the external ledger service: computed and checked by
/// the core, performed by the host environment. The core never mutates a
/// balance itself; every balance change goes through one of these requests.
#[derive(Clone, Copy, PartialEq, Eq, Structural, Debug)]
pub enum LedgerRequest {
    /// Create the backing mintable asset for a fresh record.
    CreateAsset { decimals: u8, authority: AccountId },
    /// Mint `amount` new tokens into `destination`.
    MintTo { asset: AccountId, destination: AccountId, amount: u64 },
    /// Move `amount` tokens from `source` to `destination` on behalf of `owner`.
    Transfer { source: AccountId, destination: AccountId, amount: u64, owner: AccountId },
    /// Destroy `amount` tokens held by `source` on behalf of `owner`.
    Burn { asset: AccountId, source: AccountId, amount: u64, owner: AccountId },
}

/// A staged supply mutation, paired with the delegated call whose acceptance
/// it awaits. The staged value becomes visible only through [`commit`], so a
/// rejected delegation leaves no trace of the operation.
#[derive(Clone, Copy, PartialEq, Eq, Structural, Debug)]
pub struct StagedOperation {
    /// The record's supply counter as it will stand if the host accepts.
    pub new_total_supply: u64,
    /// The delegated call the host must perform before the commit.
    pub request: LedgerRequest,
}

/// Stage the creation of a record: a fresh record with supply zero and the
/// request to create its backing asset, or `DuplicateRecord` if the slot the
/// token identity derives to is already occupied.
///
/// The existing record is never touched; the new one is installed by
/// [`commit_create`] only once the host has accepted the asset creation.
pub fn create(
    existing: &Option<SupplyLedgerRecord>,
    name: String,
    symbol: String,
    decimals: u8,
    mint_authority: AccountId,
    mint_reference: AccountId,
) -> (r: Result<(SupplyLedgerRecord, LedgerRequest), TokenError>)
    requires
        name@.len() > 0,
        symbol@.len() > 0,
    ensures
        existing is Some ==> r matches Err(TokenError::DuplicateRecord),
        existing is None ==> (r matches Ok((record, request))
            && record@ == (RecordModel {
                name: name@,
                symbol: symbol@,
                decimals,
                mint_reference,
                mint_authority,
                total_supply: 0u64,
            })
            && request == (LedgerRequest::CreateAsset { decimals, authority: mint_authority })),
{
    match existing {
        Some(_) => Err(TokenError::DuplicateRecord),
        None => {
            let record = SupplyLedgerRecord::new(name, symbol, decimals, mint_reference, mint_authority);
            let request = LedgerRequest::CreateAsset { decimals, authority: mint_authority };
            Ok((record, request))
        },
    }
}

/// Commit a staged creation: install the record if the host accepted the
/// asset creation, otherwise leave the slot exactly as it was and report
/// `EnvironmentError` — both or neither, never a half-created state.
pub fn commit_create(
    slot: &mut Option<SupplyLedgerRecord>,
    created: SupplyLedgerRecord,
    env_accepted: bool,
) -> (r: Result<(), TokenError>)
    requires
        *old(slot) is None,
    ensures
        env_accepted ==> *final(slot) == Some(created) && r is Ok,
        !env_accepted ==> *final(slot) == *old(slot) && r matches Err(TokenError::EnvironmentError),
{
    if env_accepted {
        *slot = Some(created);
        Ok(())
    } else {
        Err(TokenError::EnvironmentError)
    }
}

/// Stage a mint: verify the claimed authority against the asset's own
/// authority, grow the supply counter with overflow detection, and produce
/// the delegated mint call. The record itself is untouched: a rejection has
/// no side effect, and a staged grow becomes visible only through [`commit`].
pub fn mint(
    record: &SupplyLedgerRecord,
    amount: u64,
    destination: AccountId,
    claimed_authority: AccountId,
    asset_authority: AccountId,
) -> (r: Result<StagedOperation, TokenError>)
    ensures
        claimed_authority != asset_authority ==> r matches Err(TokenError::InvalidMintAuthority),
        claimed_authority == asset_authority && record.total_supply + amount > u64::MAX
            ==> r matches Err(TokenError::SupplyOverflow),
        claimed_authority == asset_authority && record.total_supply + amount <= u64::MAX
            ==> (r matches Ok(staged)
                && staged.new_total_supply == record.total_supply + amount
                && staged.request == (LedgerRequest::MintTo {
                    asset: record.mint_reference,
                    destination,
                    amount,
                })),
{
    match guard::verify_mint_authority(record, claimed_authority, asset_authority) {
        Err(e) => Err(e),
        Ok(()) => {
            if amount > u64::MAX - record.total_supply {
                Err(TokenError::SupplyOverflow)
            } else {
                Ok(StagedOperation {
                    new_total_supply: record.total_supply + amount,
                    request: LedgerRequest::MintTo {
                        asset: record.mint_reference,
                        destination,
                        amount,
                    },
                })
            }
        },
    }
}

/// Stage a burn: verify that the claimed owner owns the source account,
/// shrink the supply counter with underflow detection, and produce the
/// delegated burn call. As with [`mint`], nothing is mutated here.
pub fn burn(
    record: &SupplyLedgerRecord,
    amount: u64,
    source: AccountId,
    claimed_owner: AccountId,
    source_owner: AccountId,
) -> (r: Result<StagedOperation, TokenError>)
    ensures
        claimed_owner != source_owner ==> r matches Err(TokenError::InvalidOwner),
        claimed_owner == source_owner && amount > record.total_supply
            ==> r matches Err(TokenError::SupplyUnderflow),
        claimed_owner == source_owner && amount <= record.total_supply
            ==> (r matches Ok(staged)
                && staged.new_total_supply == record.total_supply - amount
                && staged.request == (LedgerRequest::Burn {
                    asset: record.mint_reference,
                    source,
                    amount,
                    owner: claimed_owner,
                })),
{
    match guard::verify_owner(claimed_owner, source_owner) {
        Err(e) => Err(e),
        Ok(()) => {
            if amount > record.total_supply {
                Err(TokenError::SupplyUnderflow)
            } else {
                Ok(StagedOperation {
                    new_total_supply: record.total_supply - amount,
                    request: LedgerRequest::Burn {
                        asset: record.mint_reference,
                        source,
                        amount,
                        owner: claimed_owner,
                    },
                })
            }
        },
    }
}

/// Check a transfer: the claimed owner must own the source account and the
/// source balance, read at call time, must cover the amount. A transfer
/// never touches the supply counter, so on success only the delegated move
/// is produced; on rejection nothing is produced and no balance can change.
pub fn transfer(
    amount: u64,
    source: AccountId,
    destination: AccountId,
    claimed_owner: AccountId,
    source_owner: AccountId,
    source_balance: u64,
) -> (r: Result<LedgerRequest, TokenError>)
    ensures
        claimed_owner != source_owner ==> r matches Err(TokenError::InvalidOwner),
        claimed_owner == source_owner && source_balance < amount
            ==> r matches Err(TokenError::InsufficientBalance),
        claimed_owner == source_owner && source_balance >= amount
            ==> r == Ok::<LedgerRequest, TokenError>(LedgerRequest::Transfer {
                source,
                destination,
                amount,
                owner: claimed_owner,
            }),
{
    match guard::verify_owner(claimed_owner, source_owner) {
        Err(e) => Err(e),
        Ok(()) => {
            match guard::verify_sufficient_balance(source_balance, amount) {
                Err(e) => Err(e),
                Ok(()) => Ok(LedgerRequest::Transfer {
                    source,
                    destination,
                    amount,
                    owner: claimed_owner,
                }),
            }
        },
    }
}

/// Commit a staged mint or burn: apply the staged supply counter if the host
/// accepted the delegated call, otherwise leave the record exactly as it was
/// and report `EnvironmentError`. This is the only place the core ever
/// writes to an existing record, so a rejected delegation is never
/// observable to any subsequent operation.
pub fn commit(
    record: &mut SupplyLedgerRecord,
    staged: StagedOperation,
    env_accepted: bool,
) -> (r: Result<(), TokenError>)
    ensures
        env_accepted ==> final(record)@ == old(record)@.with_supply(staged.new_total_supply)
            && r is Ok,
        !env_accepted ==> final(record)@ == old(record)@
            && r matches Err(TokenError::EnvironmentError),
{
    if env_accepted {
        record.total_supply = staged.new_total_supply;
        Ok(())
    } else {
        Err(TokenError::EnvironmentError)
    }
}

} // verus!
