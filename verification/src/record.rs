use vstd::prelude::*;

use crate::ids::AccountId;

verus! {

/// Persisted metadata and aggregate-supply counter for one token type.
///
/// `name`, `symbol`, `decimals`, `mint_reference` and `mint_authority` are
/// set exactly once, at creation, and never mutated afterwards; only
/// `total_supply` changes, and only through the facade's mint and burn
/// operations. The cached `mint_authority` is informational: authority
/// checks go against the external asset's own authority field.
#[derive(Debug)]
pub struct SupplyLedgerRecord {
    /// Display string, immutable after creation.
    pub name: String,
    /// Display string, immutable after creation.
    pub symbol: String,
    /// Fixed-point scale, immutable after creation.
    pub decimals: u8,
    /// Identifier of the underlying mintable asset this record governs.
    pub mint_reference: AccountId,
    /// Informational copy of the entity permitted to mint and burn.
    pub mint_authority: AccountId,
    /// Sum of all successful mint amounts minus all successful burn amounts.
    pub total_supply: u64,
}

/// Mathematical model of a [`SupplyLedgerRecord`]: the display strings as
/// character sequences, the remaining fields as plain values.
pub struct RecordModel {
    pub name: Seq<char>,
    pub symbol: Seq<char>,
    pub decimals: u8,
    pub mint_reference: AccountId,
    pub mint_authority: AccountId,
    pub total_supply: u64,
}

impl View for SupplyLedgerRecord {
    type V = RecordModel;

    open spec fn view(&self) -> RecordModel {
        RecordModel {
            name: self.name@,
            symbol: self.symbol@,
            decimals: self.decimals,
            mint_reference: self.mint_reference,
            mint_authority: self.mint_authority,
            total_supply: self.total_supply,
        }
    }
}

impl RecordModel {
    /// The same record with its supply counter replaced: the only mutation
    /// any operation of the core ever makes to a record.
    pub open spec fn with_supply(self, supply: u64) -> RecordModel {
        RecordModel { total_supply: supply, ..self }
    }
}

impl SupplyLedgerRecord {
    /// A fresh record: the given immutable metadata, aggregate supply zero.
    pub fn new(
        name: String,
        symbol: String,
        decimals: u8,
        mint_reference: AccountId,
        mint_authority: AccountId,
    ) -> (r: SupplyLedgerRecord)
        ensures
            r@ == (RecordModel {
                name: name@,
                symbol: symbol@,
                decimals,
                mint_reference,
                mint_authority,
                total_supply: 0u64,
            }),
    {
        SupplyLedgerRecord { name, symbol, decimals, mint_reference, mint_authority, total_supply: 0 }
    }
}

} // verus!
