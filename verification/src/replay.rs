use vstd::prelude::*;

use crate::errors::TokenError;
use crate::facade;
use crate::facade::LedgerRequest;
use crate::ids::AccountId;
use crate::record::RecordModel;
use crate::record::SupplyLedgerRecord;

verus! {

/// One supply-changing operation as it stands in a history: the request's
/// inputs together with the host's verdict on the delegated call.
#[derive(Clone, Copy, PartialEq, Eq, Structural, Debug)]
pub enum SupplyOp {
    /// A mint of `amount` into `destination`, claimed by `claimed_authority`.
    Mint { amount: u64, destination: AccountId, claimed_authority: AccountId, env_accepted: bool },
    /// A burn of `amount` from `source`, claimed by `claimed_owner` against
    /// the account's recorded `source_owner`.
    Burn {
        amount: u64,
        source: AccountId,
        claimed_owner: AccountId,
        source_owner: AccountId,
        env_accepted: bool,
    },
}

/// Whether an operation succeeds against the given supply: its guard check
/// passes, its checked arithmetic does not overflow or underflow, and the
/// host accepted the delegated call.
pub open spec fn op_succeeds(supply: u64, asset_authority: AccountId, op: SupplyOp) -> bool {
    match op {
        SupplyOp::Mint { amount, claimed_authority, env_accepted, .. } => {
            claimed_authority == asset_authority && supply + amount <= u64::MAX && env_accepted
        },
        SupplyOp::Burn { amount, claimed_owner, source_owner, env_accepted, .. } => {
            claimed_owner == source_owner && amount <= supply && env_accepted
        },
    }
}

/// The supply after one operation: grown or shrunk by the amount if the
/// operation succeeds, unchanged otherwise.
pub open spec fn next_supply(supply: u64, asset_authority: AccountId, op: SupplyOp) -> u64 {
    if op_succeeds(supply, asset_authority, op) {
        match op {
            SupplyOp::Mint { amount, .. } => (supply + amount) as u64,
            SupplyOp::Burn { amount, .. } => (supply - amount) as u64,
        }
    } else {
        supply
    }
}

/// The supply after replaying a whole history of operations, first to last.
pub open spec fn replay_supply(supply: u64, asset_authority: AccountId, ops: Seq<SupplyOp>) -> u64
    decreases ops.len(),
{
    if ops.len() == 0 {
        supply
    } else {
        replay_supply(next_supply(supply, asset_authority, ops[0]), asset_authority, ops.drop_first())
    }
}

/// Sum of the amounts of exactly those mints that succeed at their place in
/// the history.
pub open spec fn minted_total(supply: u64, asset_authority: AccountId, ops: Seq<SupplyOp>) -> int
    decreases ops.len(),
{
    if ops.len() == 0 {
        0
    } else {
        (if op_succeeds(supply, asset_authority, ops[0]) && ops[0] is Mint {
            ops[0]->Mint_amount as int
        } else {
            0
        }) + minted_total(next_supply(supply, asset_authority, ops[0]), asset_authority, ops.drop_first())
    }
}

/// Sum of the amounts of exactly those burns that succeed at their place in
/// the history.
pub open spec fn burned_total(supply: u64, asset_authority: AccountId, ops: Seq<SupplyOp>) -> int
    decreases ops.len(),
{
    if ops.len() == 0 {
        0
    } else {
        (if op_succeeds(supply, asset_authority, ops[0]) && ops[0] is Burn {
            ops[0]->Burn_amount as int
        } else {
            0
        }) + burned_total(next_supply(supply, asset_authority, ops[0]), asset_authority, ops.drop_first())
    }
}

/// Supply accounting law: after replaying any history of mint and burn
/// operations, the supply equals the starting supply plus the amounts of the
/// mints that succeeded minus the amounts of the burns that succeeded.
pub proof fn lemma_replay_net_supply(supply: u64, asset_authority: AccountId, ops: Seq<SupplyOp>)
    ensures
        replay_supply(supply, asset_authority, ops) == supply + minted_total(
            supply,
            asset_authority,
            ops,
        ) - burned_total(supply, asset_authority, ops),
    decreases ops.len(),
{
    if ops.len() > 0 {
        let s1 = next_supply(supply, asset_authority, ops[0]);
        lemma_replay_net_supply(s1, asset_authority, ops.drop_first());
    }
}

/// Authority rejection law: a mint whose claimed authority does not match
/// the asset's own authority never succeeds and never changes the supply.
pub proof fn lemma_mint_wrong_authority(supply: u64, asset_authority: AccountId, op: SupplyOp)
    requires
        op is Mint,
        op->Mint_claimed_authority != asset_authority,
    ensures
        !op_succeeds(supply, asset_authority, op),
        next_supply(supply, asset_authority, op) == supply,
{
}

/// Burn accounting law: burning more than the supply is detected as
/// underflow and leaves the supply unchanged; burning exactly the supply
/// drives it to zero; burning zero by the rightful owner, once the host
/// accepts, succeeds and leaves the supply unchanged.
pub proof fn lemma_burn_supply(supply: u64, asset_authority: AccountId, op: SupplyOp)
    requires
        op is Burn,
    ensures
        op->Burn_amount > supply ==> !op_succeeds(supply, asset_authority, op) && next_supply(
            supply,
            asset_authority,
            op,
        ) == supply,
        op_succeeds(supply, asset_authority, op) && op->Burn_amount == supply ==> next_supply(
            supply,
            asset_authority,
            op,
        ) == 0,
        op->Burn_amount == 0 && op->Burn_claimed_owner == op->Burn_source_owner
            && op->Burn_env_accepted ==> op_succeeds(supply, asset_authority, op) && next_supply(
            supply,
            asset_authority,
            op,
        ) == supply,
{
}

/// The delegated call an operation produces once its checks have passed.
pub open spec fn op_request(record: RecordModel, op: SupplyOp) -> LedgerRequest {
    match op {
        SupplyOp::Mint { amount, destination, .. } => LedgerRequest::MintTo {
            asset: record.mint_reference,
            destination,
            amount,
        },
        SupplyOp::Burn { amount, source, claimed_owner, .. } => LedgerRequest::Burn {
            asset: record.mint_reference,
            source,
            amount,
            owner: claimed_owner,
        },
    }
}

/// Run one operation against the record: stage it through the facade, then
/// commit or discard the staged supply on the host's verdict. The record
/// moves to exactly the supply the replay model prescribes, and the result
/// is `Ok` with the delegated call exactly when the model says the
/// operation succeeds.
pub fn apply_op(record: &mut SupplyLedgerRecord, asset_authority: AccountId, op: SupplyOp) -> (r:
    Result<LedgerRequest, TokenError>)
    ensures
        final(record)@ == old(record)@.with_supply(
            next_supply(old(record).total_supply, asset_authority, op),
        ),
        r is Ok <==> op_succeeds(old(record).total_supply, asset_authority, op),
        op_succeeds(old(record).total_supply, asset_authority, op) ==> r == Ok::<
            LedgerRequest,
            TokenError,
        >(op_request(old(record)@, op)),
        op matches SupplyOp::Mint { claimed_authority, .. } && claimed_authority != asset_authority
            ==> r matches Err(TokenError::InvalidMintAuthority),
        op matches SupplyOp::Mint { amount, claimed_authority, .. } && claimed_authority
            == asset_authority && old(record).total_supply + amount > u64::MAX ==> r matches Err(
            TokenError::SupplyOverflow,
        ),
        op matches SupplyOp::Mint { amount, claimed_authority, env_accepted, .. }
            && claimed_authority == asset_authority && old(record).total_supply + amount
            <= u64::MAX && !env_accepted ==> r matches Err(TokenError::EnvironmentError),
        op matches SupplyOp::Burn { claimed_owner, source_owner, .. } && claimed_owner
            != source_owner ==> r matches Err(TokenError::InvalidOwner),
        op matches SupplyOp::Burn { amount, claimed_owner, source_owner, .. } && claimed_owner
            == source_owner && amount > old(record).total_supply ==> r matches Err(
            TokenError::SupplyUnderflow,
        ),
        op matches SupplyOp::Burn { amount, claimed_owner, source_owner, env_accepted, .. }
            && claimed_owner == source_owner && amount <= old(record).total_supply
            && !env_accepted ==> r matches Err(TokenError::EnvironmentError),
{
    match op {
        SupplyOp::Mint { amount, destination, claimed_authority, env_accepted } => {
            match facade::mint(record, amount, destination, claimed_authority, asset_authority) {
                Err(e) => Err(e),
                Ok(staged) => {
                    let request = staged.request;
                    match facade::commit(record, staged, env_accepted) {
                        Ok(()) => Ok(request),
                        Err(e) => Err(e),
                    }
                },
            }
        },
        SupplyOp::Burn { amount, source, claimed_owner, source_owner, env_accepted } => {
            match facade::burn(record, amount, source, claimed_owner, source_owner) {
                Err(e) => Err(e),
                Ok(staged) => {
                    let request = staged.request;
                    match facade::commit(record, staged, env_accepted) {
                        Ok(()) => Ok(request),
                        Err(e) => Err(e),
                    }
                },
            }
        },
    }
}

/// Extending a history by one operation advances the replayed supply by
/// exactly that operation's step.
proof fn lemma_replay_snoc(supply: u64, asset_authority: AccountId, ops: Seq<SupplyOp>, op: SupplyOp)
    ensures
        replay_supply(supply, asset_authority, ops.push(op)) == next_supply(
            replay_supply(supply, asset_authority, ops),
            asset_authority,
            op,
        ),
    decreases ops.len(),
{
    if ops.len() == 0 {
        assert(ops.push(op)[0] == op);
        assert(ops.push(op).drop_first() =~= Seq::<SupplyOp>::empty());
        assert(replay_supply(
            next_supply(supply, asset_authority, op),
            asset_authority,
            Seq::<SupplyOp>::empty(),
        ) == next_supply(supply, asset_authority, op));
    } else {
        assert(ops.push(op).drop_first() =~= ops.drop_first().push(op));
        assert(ops.push(op)[0] == ops[0]);
        lemma_replay_snoc(
            next_supply(supply, asset_authority, ops[0]),
            asset_authority,
            ops.drop_first(),
            op,
        );
        assert(replay_supply(supply, asset_authority, ops.push(op)) == replay_supply(
            next_supply(supply, asset_authority, ops[0]),
            asset_authority,
            ops.drop_first().push(op),
        ));
    }
}

/// Replay a whole history of operations against the record, first to last.
/// The record ends at exactly the supply the replay model prescribes, and
/// the recorded outcomes mark `Ok` exactly the operations that the model
/// says succeeded at their place in the history.
pub fn replay(
    record: &mut SupplyLedgerRecord,
    asset_authority: AccountId,
    ops: &Vec<SupplyOp>,
) -> (results: Vec<Result<LedgerRequest, TokenError>>)
    ensures
        final(record)@ == old(record)@.with_supply(
            replay_supply(old(record).total_supply, asset_authority, ops@),
        ),
        results@.len() == ops@.len(),
        forall|j: int|
            0 <= j < ops@.len() ==> (results@[j] is Ok <==> op_succeeds(
                replay_supply(old(record).total_supply, asset_authority, ops@.take(j)),
                asset_authority,
                ops@[j],
            )),
        forall|j: int|
            0 <= j < ops@.len() && results@[j] is Ok ==> results@[j] == Ok::<
                LedgerRequest,
                TokenError,
            >(op_request(old(record)@, ops@[j])),
{
    let ghost initial = record@;
    let mut results: Vec<Result<LedgerRequest, TokenError>> = Vec::new();
    let mut i: usize = 0;
    proof {
        assert(ops@.take(0) =~= Seq::<SupplyOp>::empty());
    }
    while i < ops.len()
        invariant
            i <= ops@.len(),
            record@ == initial.with_supply(
                replay_supply(initial.total_supply, asset_authority, ops@.take(i as int)),
            ),
            results@.len() == i,
            forall|j: int|
                0 <= j < i ==> (results@[j] is Ok <==> op_succeeds(
                    replay_supply(initial.total_supply, asset_authority, ops@.take(j)),
                    asset_authority,
                    ops@[j],
                )),
            forall|j: int|
                0 <= j < i && results@[j] is Ok ==> results@[j] == Ok::<
                    LedgerRequest,
                    TokenError,
                >(op_request(initial, ops@[j])),
        decreases ops@.len() - i,
    {
        let op = ops[i];
        let res = apply_op(record, asset_authority, op);
        results.push(res);
        proof {
            assert(ops@.take(i as int + 1) =~= ops@.take(i as int).push(ops@[i as int]));
            lemma_replay_snoc(
                initial.total_supply,
                asset_authority,
                ops@.take(i as int),
                ops@[i as int],
            );
        }
        i = i + 1;
    }
    proof {
        assert(ops@.take(ops@.len() as int) =~= ops@);
    }
    results
}

} // verus!
