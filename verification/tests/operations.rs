use token_core::errors::TokenError;
use token_core::facade;
use token_core::facade::LedgerRequest;
use token_core::guard;
use token_core::ids::AccountId;
use token_core::record::SupplyLedgerRecord;

fn record_with_supply(supply: u64) -> SupplyLedgerRecord {
    let mut record = SupplyLedgerRecord::new(
        String::from("Example Token"),
        String::from("EXT"),
        9,
        AccountId(7),
        AccountId(1),
    );
    record.total_supply = supply;
    record
}

#[test]
fn create_fresh_record() {
    let slot: Option<SupplyLedgerRecord> = None;
    let created = facade::create(
        &slot,
        String::from("Example Token"),
        String::from("EXT"),
        9,
        AccountId(1),
        AccountId(7),
    );
    let (record, request) = created.unwrap();
    assert_eq!(record.name, "Example Token");
    assert_eq!(record.symbol, "EXT");
    assert_eq!(record.decimals, 9);
    assert_eq!(record.mint_reference, AccountId(7));
    assert_eq!(record.mint_authority, AccountId(1));
    assert_eq!(record.total_supply, 0);
    assert_eq!(request, LedgerRequest::CreateAsset { decimals: 9, authority: AccountId(1) });

    let mut slot = slot;
    assert!(facade::commit_create(&mut slot, record, true).is_ok());
    assert_eq!(slot.unwrap().total_supply, 0);
}

#[test]
fn create_duplicate_rejected() {
    let first = record_with_supply(42);
    let slot = Some(first);
    let second = facade::create(
        &slot,
        String::from("Example Token"),
        String::from("EXT"),
        9,
        AccountId(1),
        AccountId(7),
    );
    assert_eq!(second.unwrap_err(), TokenError::DuplicateRecord);
    let first = slot.unwrap();
    assert_eq!(first.total_supply, 42);
    assert_eq!(first.name, "Example Token");
}

#[test]
fn create_environment_rejected() {
    let mut slot: Option<SupplyLedgerRecord> = None;
    let (record, _request) = facade::create(
        &slot,
        String::from("Example Token"),
        String::from("EXT"),
        9,
        AccountId(1),
        AccountId(7),
    )
    .unwrap();
    let committed = facade::commit_create(&mut slot, record, false);
    assert_eq!(committed.unwrap_err(), TokenError::EnvironmentError);
    assert!(slot.is_none());
}

#[test]
fn mint_success_grows_supply() {
    let mut record = record_with_supply(100);
    let staged = facade::mint(&record, 25, AccountId(20), AccountId(1), AccountId(1)).unwrap();
    assert_eq!(staged.new_total_supply, 125);
    assert_eq!(
        staged.request,
        LedgerRequest::MintTo { asset: AccountId(7), destination: AccountId(20), amount: 25 }
    );
    assert!(facade::commit(&mut record, staged, true).is_ok());
    assert_eq!(record.total_supply, 125);
}

#[test]
fn mint_wrong_authority_rejected() {
    let record = record_with_supply(100);
    let staged = facade::mint(&record, 25, AccountId(20), AccountId(2), AccountId(1));
    assert_eq!(staged.unwrap_err(), TokenError::InvalidMintAuthority);
    assert_eq!(record.total_supply, 100);
}

#[test]
fn mint_overflow_detected() {
    let record = record_with_supply(u64::MAX - 1);
    let staged = facade::mint(&record, 2, AccountId(20), AccountId(1), AccountId(1));
    assert_eq!(staged.unwrap_err(), TokenError::SupplyOverflow);
    assert_eq!(record.total_supply, u64::MAX - 1);
}

#[test]
fn mint_environment_rejected_leaves_supply() {
    let mut record = record_with_supply(100);
    let staged = facade::mint(&record, 25, AccountId(20), AccountId(1), AccountId(1)).unwrap();
    let committed = facade::commit(&mut record, staged, false);
    assert_eq!(committed.unwrap_err(), TokenError::EnvironmentError);
    assert_eq!(record.total_supply, 100);
}

#[test]
fn burn_more_than_supply_underflows() {
    let record = record_with_supply(100);
    let staged = facade::burn(&record, 101, AccountId(20), AccountId(20), AccountId(20));
    assert_eq!(staged.unwrap_err(), TokenError::SupplyUnderflow);
    assert_eq!(record.total_supply, 100);
}

#[test]
fn burn_exact_supply_drives_to_zero() {
    let mut record = record_with_supply(100);
    let staged = facade::burn(&record, 100, AccountId(20), AccountId(20), AccountId(20)).unwrap();
    assert_eq!(staged.new_total_supply, 0);
    assert!(facade::commit(&mut record, staged, true).is_ok());
    assert_eq!(record.total_supply, 0);
}

#[test]
fn burn_zero_succeeds_as_noop() {
    let mut record = record_with_supply(100);
    let staged = facade::burn(&record, 0, AccountId(20), AccountId(20), AccountId(20)).unwrap();
    assert_eq!(staged.new_total_supply, 100);
    assert_eq!(
        staged.request,
        LedgerRequest::Burn {
            asset: AccountId(7),
            source: AccountId(20),
            amount: 0,
            owner: AccountId(20),
        }
    );
    assert!(facade::commit(&mut record, staged, true).is_ok());
    assert_eq!(record.total_supply, 100);
}

#[test]
fn burn_wrong_owner_rejected() {
    let record = record_with_supply(100);
    let staged = facade::burn(&record, 10, AccountId(20), AccountId(21), AccountId(20));
    assert_eq!(staged.unwrap_err(), TokenError::InvalidOwner);
    assert_eq!(record.total_supply, 100);
}

#[test]
fn transfer_insufficient_balance_rejected() {
    let mut source_balance: u64 = 30;
    let mut destination_balance: u64 = 5;
    let request = facade::transfer(31, AccountId(20), AccountId(21), AccountId(20), AccountId(20), source_balance);
    assert_eq!(request.unwrap_err(), TokenError::InsufficientBalance);
    // No request was produced, so no balance moves.
    assert_eq!(source_balance, 30);
    assert_eq!(destination_balance, 5);
    // The boundary case is allowed: a balance exactly equal to the amount.
    let request = facade::transfer(30, AccountId(20), AccountId(21), AccountId(20), AccountId(20), source_balance);
    match request.unwrap() {
        LedgerRequest::Transfer { amount, .. } => {
            source_balance -= amount;
            destination_balance += amount;
        }
        other => panic!("unexpected request {:?}", other),
    }
    assert_eq!(source_balance, 0);
    assert_eq!(destination_balance, 35);
}

#[test]
fn transfer_wrong_owner_rejected() {
    let request = facade::transfer(10, AccountId(20), AccountId(21), AccountId(22), AccountId(20), 100);
    assert_eq!(request.unwrap_err(), TokenError::InvalidOwner);
}

#[test]
fn transfer_success_produces_request() {
    let request = facade::transfer(10, AccountId(20), AccountId(21), AccountId(20), AccountId(20), 100);
    assert_eq!(
        request.unwrap(),
        LedgerRequest::Transfer {
            source: AccountId(20),
            destination: AccountId(21),
            amount: 10,
            owner: AccountId(20),
        }
    );
}

#[test]
fn guards_answer_by_equality_alone() {
    let record = record_with_supply(0);
    assert!(guard::verify_mint_authority(&record, AccountId(3), AccountId(3)).is_ok());
    assert_eq!(
        guard::verify_mint_authority(&record, AccountId(3), AccountId(4)).unwrap_err(),
        TokenError::InvalidMintAuthority
    );
    assert!(guard::verify_owner(AccountId(5), AccountId(5)).is_ok());
    assert_eq!(
        guard::verify_owner(AccountId(5), AccountId(6)).unwrap_err(),
        TokenError::InvalidOwner
    );
    assert!(guard::verify_sufficient_balance(10, 10).is_ok());
    assert_eq!(
        guard::verify_sufficient_balance(9, 10).unwrap_err(),
        TokenError::InsufficientBalance
    );
}

#[test]
fn error_descriptions_are_distinct() {
    let all = [
        TokenError::InvalidMintAuthority,
        TokenError::InvalidOwner,
        TokenError::InsufficientBalance,
        TokenError::SupplyOverflow,
        TokenError::SupplyUnderflow,
        TokenError::DuplicateRecord,
        TokenError::EnvironmentError,
    ];
    for (i, a) in all.iter().enumerate() {
        for (j, b) in all.iter().enumerate() {
            assert_eq!(i == j, a.describe() == b.describe());
        }
    }
    assert_eq!(TokenError::SupplyUnderflow.describe(), "supply underflow");
}
