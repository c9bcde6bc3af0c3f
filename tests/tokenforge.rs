use tokenforge::address::{derive_mint_authority, derive_token_data};
use tokenforge::{
    distribute_revenue, enable_trading, launch_token, Address, DistributeRevenue, EnableTrading,
    ErrorCode, LaunchToken, Registry, TokenData,
};

fn addr(b: u8) -> Address {
    Address::new([b; 32])
}

fn program() -> Address {
    addr(7)
}

fn accounts(creator: u8, mint: u8, holding: u8) -> LaunchToken {
    LaunchToken { creator: addr(creator), mint: addr(mint), creator_token_account: addr(holding) }
}

fn launch_foo(reg: &mut Registry, acc: &LaunchToken) -> Result<Address, ErrorCode> {
    launch_token(reg, acc, "Foo".to_string(), "FOO".to_string(), 1_000_000, 6, 1_700_000_000, true)
}

#[test]
fn derivation_is_deterministic() {
    let a = derive_token_data(&program(), &addr(1), "Foo").unwrap();
    let b = derive_token_data(&program(), &addr(1), "Foo").unwrap();
    assert_eq!(a.0, b.0);
    assert_eq!(a.1, b.1);
    let m1 = derive_mint_authority(&program()).unwrap();
    let m2 = derive_mint_authority(&program()).unwrap();
    assert_eq!(m1.0, m2.0);
    assert_eq!(m1.1, m2.1);
}

#[test]
fn derivation_is_not_the_identity() {
    let a = derive_token_data(&program(), &addr(1), "Foo").unwrap();
    assert_ne!(a.0, program());
    assert_ne!(a.0, addr(1));
    let m = derive_mint_authority(&program()).unwrap();
    assert_ne!(m.0, program());
    assert_ne!(m.0, a.0);
}

#[test]
fn derivation_distinct_inputs_distinct_addresses() {
    let names = ["Foo", "Bar", "Fo", "oFoo", "Foo ", ""];
    let mut seen: Vec<Address> = Vec::new();
    for c in 0u8..6 {
        for n in names.iter() {
            let (a, _) = derive_token_data(&program(), &addr(c), n).unwrap();
            assert!(!seen.contains(&a));
            seen.push(a);
        }
    }
    assert_eq!(seen.len(), 36);
}

#[test]
fn derivation_depends_on_program() {
    let a = derive_token_data(&program(), &addr(1), "Foo").unwrap();
    let b = derive_token_data(&addr(8), &addr(1), "Foo").unwrap();
    assert_ne!(a.0, b.0);
}

#[test]
fn derivation_refuses_long_seed() {
    let name = "n".repeat(33);
    assert!(derive_token_data(&program(), &addr(1), &name).is_none());
    let name = "n".repeat(32);
    assert!(derive_token_data(&program(), &addr(1), &name).is_some());
}

#[test]
fn launch_mints_supply_to_creator() {
    let mut reg = Registry::new(program());
    let acc = accounts(1, 2, 3);
    let a = launch_foo(&mut reg, &acc).unwrap();
    let (expected, bump) = derive_token_data(&program(), &addr(1), "Foo").unwrap();
    assert_eq!(a, expected);
    assert_eq!(reg.records.len(), 1);
    let rec = &reg.records[0];
    assert_eq!(rec.address, expected);
    assert_eq!(rec.bump, bump);
    assert_eq!(rec.data.creator, addr(1));
    assert_eq!(rec.data.name, "Foo");
    assert_eq!(rec.data.symbol, "FOO");
    assert_eq!(rec.data.supply, 1_000_000);
    assert_eq!(rec.data.decimals, 6);
    assert_eq!(rec.data.created_at, 1_700_000_000);
    assert!(!rec.data.trading_enabled);
    assert_eq!(rec.data.total_revenue_distributed, 0);
    assert_eq!(reg.holdings.len(), 1);
    assert_eq!(reg.holdings[0].owner, addr(1));
    assert_eq!(reg.holdings[0].address, addr(3));
    assert_eq!(reg.holdings[0].asset_class, addr(2));
    assert_eq!(reg.holdings[0].balance, 1_000_000);
    assert_eq!(reg.asset_classes.len(), 1);
    assert_eq!(reg.asset_classes[0].decimals, 6);
    assert_eq!(reg.asset_classes[0].supply, 1_000_000);
    assert_eq!(reg.asset_classes[0].mint_authority, derive_mint_authority(&program()).unwrap().0);
}

#[test]
fn second_launch_is_duplicate() {
    let mut reg = Registry::new(program());
    launch_foo(&mut reg, &accounts(1, 2, 3)).unwrap();
    let r = launch_token(&mut reg, &accounts(1, 4, 5), "Foo".to_string(), "BAR".to_string(), 5, 0, 9, true);
    assert_eq!(r, Err(ErrorCode::DuplicateIssuance));
    assert_eq!(reg.records.len(), 1);
    assert_eq!(reg.holdings.len(), 1);
    assert_eq!(reg.holdings[0].balance, 1_000_000);
    assert_eq!(reg.asset_classes.len(), 1);
}

#[test]
fn other_creator_or_name_may_launch() {
    let mut reg = Registry::new(program());
    launch_foo(&mut reg, &accounts(1, 2, 3)).unwrap();
    launch_foo(&mut reg, &accounts(9, 4, 5)).unwrap();
    launch_token(&mut reg, &accounts(1, 10, 11), "Bar".to_string(), "BAR".to_string(), 5, 0, 9, true).unwrap();
    assert_eq!(reg.records.len(), 3);
    assert_ne!(reg.records[0].address, reg.records[1].address);
    assert_ne!(reg.records[0].address, reg.records[2].address);
}

#[test]
fn rejected_mint_leaves_nothing() {
    let mut reg = Registry::new(program());
    let r = launch_token(&mut reg, &accounts(1, 2, 3), "Foo".to_string(), "FOO".to_string(), 1_000_000, 6, 0, false);
    assert_eq!(r, Err(ErrorCode::ExternalLedgerRejected));
    assert!(reg.records.is_empty());
    assert!(reg.asset_classes.is_empty());
    assert!(reg.holdings.is_empty());
    // the name is still free afterwards
    assert!(launch_foo(&mut reg, &accounts(1, 2, 3)).is_ok());
}

#[test]
fn staged_launch_discarded_on_rejection() {
    let mut reg = Registry::new(program());
    let plan = reg.prepare_launch(&accounts(1, 2, 3), "Foo".to_string(), "FOO".to_string(), 10, 2, 0).unwrap();
    assert_eq!(plan.holding.balance, 10);
    assert_eq!(reg.commit_launch(plan, false), Err(ErrorCode::ExternalLedgerRejected));
    assert!(reg.records.is_empty());
    assert!(reg.holdings.is_empty());
}

#[test]
fn launch_zero_supply_is_invalid() {
    let mut reg = Registry::new(program());
    let r = launch_token(&mut reg, &accounts(1, 2, 3), "Foo".to_string(), "FOO".to_string(), 0, 6, 0, true);
    assert_eq!(r, Err(ErrorCode::InvalidSupply));
    assert!(reg.records.is_empty());
}

#[test]
fn launch_long_fields_refused() {
    let mut reg = Registry::new(program());
    let r = launch_token(&mut reg, &accounts(1, 2, 3), "n".repeat(51), "FOO".to_string(), 1, 6, 0, true);
    assert_eq!(r, Err(ErrorCode::FieldTooLong));
    let r = launch_token(&mut reg, &accounts(1, 2, 3), "Foo".to_string(), "S".repeat(11), 1, 6, 0, true);
    assert_eq!(r, Err(ErrorCode::FieldTooLong));
    let r = launch_token(&mut reg, &accounts(1, 2, 3), "Foo".to_string(), "S".repeat(10), 1, 6, 0, true);
    assert!(r.is_ok());
}

#[test]
fn launch_name_past_seed_bound_exhausts_derivation() {
    let mut reg = Registry::new(program());
    let r = launch_token(&mut reg, &accounts(1, 2, 3), "n".repeat(40), "FOO".to_string(), 1, 6, 0, true);
    assert_eq!(r, Err(ErrorCode::AddressDerivationExhausted));
    assert!(reg.records.is_empty());
}

#[test]
fn launch_into_used_ledger_record_rejected() {
    let mut reg = Registry::new(program());
    launch_foo(&mut reg, &accounts(1, 2, 3)).unwrap();
    let r = launch_token(&mut reg, &accounts(1, 2, 5), "Bar".to_string(), "BAR".to_string(), 1, 0, 0, true);
    assert_eq!(r, Err(ErrorCode::ExternalLedgerRejected));
    let r = launch_token(&mut reg, &accounts(1, 6, 6), "Bar".to_string(), "BAR".to_string(), 1, 0, 0, true);
    assert_eq!(r, Err(ErrorCode::ExternalLedgerRejected));
    assert_eq!(reg.records.len(), 1);
}

#[test]
fn non_creator_cannot_enable_trading() {
    let mut reg = Registry::new(program());
    let a = launch_foo(&mut reg, &accounts(1, 2, 3)).unwrap();
    let r = enable_trading(&mut reg, &EnableTrading { creator: addr(9), token_data: a });
    assert_eq!(r, Err(ErrorCode::Unauthorized));
    assert!(!reg.records[0].data.trading_enabled);
}

#[test]
fn creator_enables_trading_once() {
    let mut reg = Registry::new(program());
    let a = launch_foo(&mut reg, &accounts(1, 2, 3)).unwrap();
    let acc = EnableTrading { creator: addr(1), token_data: a };
    assert_eq!(enable_trading(&mut reg, &acc), Ok(()));
    assert!(reg.records[0].data.trading_enabled);
    assert_eq!(enable_trading(&mut reg, &acc), Err(ErrorCode::TradingAlreadyEnabled));
    assert!(reg.records[0].data.trading_enabled);
}

#[test]
fn enable_trading_without_record() {
    let mut reg = Registry::new(program());
    let r = enable_trading(&mut reg, &EnableTrading { creator: addr(1), token_data: addr(4) });
    assert_eq!(r, Err(ErrorCode::AccountNotInitialized));
}

#[test]
fn revenue_total_only_grows() {
    let mut reg = Registry::new(program());
    let a = launch_foo(&mut reg, &accounts(1, 2, 3)).unwrap();
    let acc = DistributeRevenue { authority: addr(1), token_data: a };
    let mut last = 0u64;
    for amount in [5u64, 0, 17, 1_000] {
        assert_eq!(distribute_revenue(&mut reg, &acc, amount), Ok(()));
        let now = reg.records[0].data.total_revenue_distributed;
        assert_eq!(now, last + amount);
        assert!(now >= last);
        last = now;
    }
    assert_eq!(last, 1_022);
}

#[test]
fn revenue_refused_for_stranger_and_overflow() {
    let mut reg = Registry::new(program());
    let a = launch_foo(&mut reg, &accounts(1, 2, 3)).unwrap();
    let stranger = DistributeRevenue { authority: addr(9), token_data: a };
    assert_eq!(distribute_revenue(&mut reg, &stranger, 5), Err(ErrorCode::Unauthorized));
    let acc = DistributeRevenue { authority: addr(1), token_data: a };
    assert_eq!(distribute_revenue(&mut reg, &acc, u64::MAX - 1), Ok(()));
    assert_eq!(distribute_revenue(&mut reg, &acc, 2), Err(ErrorCode::RevenueOverflow));
    assert_eq!(reg.records[0].data.total_revenue_distributed, u64::MAX - 1);
    assert_eq!(distribute_revenue(&mut reg, &acc, 1), Ok(()));
    assert_eq!(reg.records[0].data.total_revenue_distributed, u64::MAX);
    let missing = DistributeRevenue { authority: addr(1), token_data: addr(4) };
    assert_eq!(distribute_revenue(&mut reg, &missing, 1), Err(ErrorCode::AccountNotInitialized));
}

#[test]
fn record_state_machine_on_its_own() {
    let mut d = TokenData {
        creator: addr(1),
        name: "Foo".to_string(),
        symbol: "FOO".to_string(),
        supply: 1,
        decimals: 0,
        created_at: 0,
        trading_enabled: false,
        total_revenue_distributed: 0,
    };
    assert_eq!(d.enable_trading(&addr(2)), Err(ErrorCode::Unauthorized));
    assert_eq!(d.enable_trading(&addr(1)), Ok(()));
    assert_eq!(d.enable_trading(&addr(1)), Err(ErrorCode::TradingAlreadyEnabled));
    assert_eq!(d.record_revenue(&addr(1), 3), Ok(()));
    assert_eq!(d.total_revenue_distributed, 3);
}

#[test]
fn record_size_is_fixed() {
    assert_eq!(TokenData::SIZE, 126);
    assert_eq!(tokenforge::token::RECORD_TAG_LEN + TokenData::SIZE, 134);
}

fn sample_record(name: &str, symbol: &str) -> TokenData {
    TokenData {
        creator: addr(1),
        name: name.to_string(),
        symbol: symbol.to_string(),
        supply: 1_000_000,
        decimals: 6,
        created_at: -2,
        trading_enabled: true,
        total_revenue_distributed: 258,
    }
}

#[test]
fn encode_lays_fields_out_in_order() {
    let bytes = sample_record("Foo", "FOO").encode().unwrap();
    let mut expected: Vec<u8> = vec![1u8; 32];
    expected.extend_from_slice(&[3, 0, 0, 0]);
    expected.extend_from_slice(b"Foo");
    expected.extend_from_slice(&[3, 0, 0, 0]);
    expected.extend_from_slice(b"FOO");
    expected.extend_from_slice(&[0x40, 0x42, 0x0f, 0, 0, 0, 0, 0]);
    expected.push(6);
    expected.extend_from_slice(&[0xfe, 0xff, 0xff, 0xff, 0xff, 0xff, 0xff, 0xff]);
    expected.push(1);
    expected.extend_from_slice(&[2, 1, 0, 0, 0, 0, 0, 0]);
    assert_eq!(bytes, expected);
}

#[test]
fn encode_of_largest_fields_fills_size() {
    let bytes = sample_record(&"n".repeat(50), &"s".repeat(10)).encode().unwrap();
    assert_eq!(bytes.len(), TokenData::SIZE);
}

#[test]
fn encode_refuses_oversized_fields() {
    assert_eq!(sample_record(&"n".repeat(51), "S").encode(), Err(ErrorCode::FieldTooLong));
    assert_eq!(sample_record("Foo", &"s".repeat(11)).encode(), Err(ErrorCode::FieldTooLong));
    // the bound is on encoded bytes, not characters
    assert_eq!(sample_record(&"é".repeat(26), "S").encode(), Err(ErrorCode::FieldTooLong));
    assert!(sample_record(&"é".repeat(25), "S").encode().is_ok());
}
