use canister_sync::store::db_write_plan;
use canister_sync::text::decimal_text;
use canister_sync::types::{
    DSwapOperation, DSwapTxRecord, Database, TokenInfo, TokenOperation, TokenTxRecord,
    DSWAP_TX_INSERT, DSWAP_TX_TABLE, TOKEN_INFO_INSERT, TOKEN_INFO_TABLE, TOKEN_TX_INSERT,
    TOKEN_TX_TABLE,
};

fn nat_leb(n: candid::Nat) -> Vec<u8> {
    let mut bytes = Vec::new();
    n.encode(&mut bytes).unwrap();
    bytes
}

fn int_leb(i: candid::Int) -> Vec<u8> {
    let mut bytes = Vec::new();
    i.encode(&mut bytes).unwrap();
    bytes
}

fn n(v: u128) -> Vec<u8> {
    nat_leb(candid::Nat::from(v))
}

fn i(v: i128) -> Vec<u8> {
    int_leb(candid::Int::from(v))
}

fn dswap(index: u64, op: DSwapOperation) -> DSwapTxRecord {
    DSwapTxRecord {
        index,
        caller: String::from("caller-a"),
        op,
        token_id: String::from("tok"),
        from: String::from("from-a"),
        to: String::from("to-b"),
        amount: 1000,
        amount0: 0,
        amount1: 18446744073709551615,
        timestamp: 1637000000,
    }
}

#[test]
fn dswap_operation_names() {
    let cases = [
        (DSwapOperation::deposit, "deposit"),
        (DSwapOperation::withdraw, "withdraw"),
        (DSwapOperation::tokenTransfer, "tokenTransfer"),
        (DSwapOperation::tokenTransferFrom, "tokenTransferFrom"),
        (DSwapOperation::tokenApprove, "tokenApprove"),
        (DSwapOperation::lpTransfer, "lpTransfer"),
        (DSwapOperation::lpTransferFrom, "lpTransferFrom"),
        (DSwapOperation::lpApprove, "lpApprove"),
        (DSwapOperation::createPair, "createPair"),
        (DSwapOperation::swap, "swap"),
        (DSwapOperation::addLiquidity, "addLiquidity"),
        (DSwapOperation::removeLiquidity, "removeLiquidity"),
    ];
    for (op, name) in cases.iter() {
        assert_eq!(op.to_text(), *name);
    }
}

#[test]
fn dswap_operation_names_are_distinct() {
    let ops = [
        DSwapOperation::deposit,
        DSwapOperation::withdraw,
        DSwapOperation::tokenTransfer,
        DSwapOperation::tokenTransferFrom,
        DSwapOperation::tokenApprove,
        DSwapOperation::lpTransfer,
        DSwapOperation::lpTransferFrom,
        DSwapOperation::lpApprove,
        DSwapOperation::createPair,
        DSwapOperation::swap,
        DSwapOperation::addLiquidity,
        DSwapOperation::removeLiquidity,
    ];
    for a in ops.iter() {
        for b in ops.iter() {
            assert_eq!(a.to_text() == b.to_text(), a == b);
        }
    }
}

#[test]
fn token_operation_names() {
    assert_eq!(TokenOperation::approve.to_text(), "approve");
    assert_eq!(TokenOperation::mint.to_text(), "mint");
    assert_eq!(TokenOperation::transfer.to_text(), "transfer");
    assert_eq!(TokenOperation::transferFrom.to_text(), "transferFrom");
    assert_eq!(TokenOperation::burn(0).to_text(), "burn 0");
    assert_eq!(TokenOperation::burn(1234567).to_text(), "burn 1234567");
    assert_eq!(TokenOperation::burn(u64::MAX).to_text(), "burn 18446744073709551615");
}

#[test]
fn burns_of_different_amounts_differ() {
    assert_ne!(TokenOperation::burn(12).to_text(), TokenOperation::burn(120).to_text());
    assert_ne!(TokenOperation::burn(1).to_text(), TokenOperation::mint.to_text());
}

#[test]
fn decimal_text_matches_display() {
    for n in [0u64, 7, 9, 10, 99, 100, 101, 65535, 1000000, u64::MAX - 1, u64::MAX] {
        assert_eq!(decimal_text(n), n.to_string());
    }
}

#[test]
fn dswap_row() {
    let r = dswap(42, DSwapOperation::swap);
    assert_eq!(r.db_init_command(), DSWAP_TX_TABLE);
    assert_eq!(r.db_insert_header(), DSWAP_TX_INSERT);
    assert!(DSWAP_TX_TABLE.starts_with("CREATE TABLE IF NOT EXISTS transactions ("));
    assert!(DSWAP_TX_INSERT.starts_with(
        "INSERT INTO transactions (caller, op, indexs, token_id, froma, toa, amount, amount0, amount1, timestamp)"
    ));
    assert_eq!(
        r.db_insert_values(),
        vec![
            "caller-a",
            "swap",
            "42",
            "tok",
            "from-a",
            "to-b",
            "1000",
            "0",
            "18446744073709551615",
            "1637000000",
        ]
    );
}

#[test]
fn token_tx_row() {
    let r = TokenTxRecord {
        index: n(1234567),
        caller: None,
        op: TokenOperation::burn(5000),
        from: vec![4],
        to: vec![],
        amount: n(1000000000000),
        fee: n(0),
        timestamp: i(-1234),
    };
    assert_eq!(r.db_init_command(), TOKEN_TX_TABLE);
    assert_eq!(r.db_insert_header(), TOKEN_TX_INSERT);
    assert!(TOKEN_TX_INSERT.starts_with(
        "INSERT INTO transactions (indexs, caller, op, froma, toa, amount, fee, timestamp)"
    ));
    assert_eq!(
        r.db_insert_values(),
        vec![
            "1_234_567",
            "None",
            "burn 5000",
            "2vxsx-fae",
            "aaaaa-aa",
            "1_000_000_000_000",
            "0",
            "-1_234",
        ]
    );
}

#[test]
fn token_tx_row_with_caller() {
    let r = TokenTxRecord {
        index: n(0),
        caller: Some(vec![0, 0, 0, 0, 0, 0, 0, 2, 1, 1]),
        op: TokenOperation::transfer,
        from: vec![4],
        to: vec![4],
        amount: n(123),
        fee: n(10000),
        timestamp: i(1637000000000000000),
    };
    assert_eq!(
        r.db_insert_values(),
        vec![
            "0",
            "ryjl3-tyaaa-aaaaa-aaaba-cai",
            "transfer",
            "2vxsx-fae",
            "2vxsx-fae",
            "123",
            "10_000",
            "1_637_000_000_000_000_000",
        ]
    );
}

#[test]
fn token_info_row() {
    let r = TokenInfo {
        canisterId: vec![0, 0, 0, 0, 0, 0, 0, 2, 1, 1],
        decimals: 8,
        fee: n(10000),
        index: n(3),
        logo: String::from("logo.png"),
        name: String::from("Wrapped ICP"),
        owner: vec![4],
        symbol: String::from("WICP"),
        timestamp: i(999),
        totalSupply: n(100000000000000),
    };
    assert_eq!(r.db_init_command(), TOKEN_INFO_TABLE);
    assert_eq!(r.db_insert_header(), TOKEN_INFO_INSERT);
    assert!(TOKEN_INFO_TABLE.starts_with("CREATE TABLE IF NOT EXISTS tokens ("));
    assert_eq!(
        r.db_insert_values(),
        vec![
            "ryjl3-tyaaa-aaaaa-aaaba-cai",
            "8",
            "10_000",
            "3",
            "logo.png",
            "Wrapped ICP",
            "2vxsx-fae",
            "WICP",
            "999",
            "100_000_000_000_000",
        ]
    );
}

#[test]
fn empty_batch_writes_nothing() {
    let data: Vec<DSwapTxRecord> = Vec::new();
    assert!(db_write_plan(&data).is_empty());
}

#[test]
fn batch_creates_table_then_one_insert_per_record() {
    let data = vec![dswap(1, DSwapOperation::deposit), dswap(2, DSwapOperation::withdraw)];
    let plan = db_write_plan(&data);
    assert_eq!(plan.len(), 3);
    assert_eq!(plan[0].sql, DSWAP_TX_TABLE);
    assert!(plan[0].params.is_empty());
    assert_eq!(plan[1].sql, DSWAP_TX_INSERT);
    assert_eq!(plan[1].params, data[0].db_insert_values());
    assert_eq!(plan[2].sql, DSWAP_TX_INSERT);
    assert_eq!(plan[2].params, data[1].db_insert_values());
    assert_eq!(plan[2].params[1], "withdraw");
    assert_eq!(plan[2].params[2], "2");
}

#[test]
fn signed_timestamps_are_grouped_after_the_sign() {
    let cases: [(i128, &str); 6] = [
        (-123, "-123"),
        (-1234, "-1_234"),
        (-123456, "-123_456"),
        (-12345, "-12_345"),
        (0, "0"),
        (i128::MIN, "-170_141_183_460_469_231_731_687_303_715_884_105_728"),
    ];
    for (t, text) in cases.iter() {
        let r = TokenTxRecord {
            index: n(u128::MAX),
            caller: None,
            op: TokenOperation::mint,
            from: vec![4],
            to: vec![4],
            amount: n(999),
            fee: n(1000),
            timestamp: i(*t),
        };
        let values = r.db_insert_values();
        assert_eq!(values[7], *text);
        assert_eq!(values[0], "340_282_366_920_938_463_463_374_607_431_768_211_455");
        assert_eq!(values[5], "999");
        assert_eq!(values[6], "1_000");
    }
}

#[test]
fn values_beyond_128_bits_are_kept() {
    let big = candid::Nat::parse(b"123456789012345678901234567890123456789012345").unwrap();
    let negative = candid::Int::parse(b"-98765432109876543210987654321098765432109").unwrap();
    let r = TokenTxRecord {
        index: nat_leb(big.clone()),
        caller: Some(vec![4]),
        op: TokenOperation::approve,
        from: vec![4],
        to: vec![4],
        amount: nat_leb(big.clone()),
        fee: n(1),
        timestamp: int_leb(negative.clone()),
    };
    let values = r.db_insert_values();
    assert_eq!(values[0], big.to_string());
    assert_eq!(values[0], "123_456_789_012_345_678_901_234_567_890_123_456_789_012_345");
    assert_eq!(values[1], "2vxsx-fae");
    assert_eq!(values[5], big.to_string());
    assert_eq!(values[7], "-98_765_432_109_876_543_210_987_654_321_098_765_432_109");
    let info = TokenInfo {
        canisterId: vec![4],
        decimals: 255,
        fee: n(0),
        index: n(0),
        logo: String::new(),
        name: String::new(),
        owner: vec![],
        symbol: String::new(),
        timestamp: i(0),
        totalSupply: nat_leb(big.clone()),
    };
    let values = info.db_insert_values();
    assert_eq!(values[1], "255");
    assert_eq!(values[9], big.to_string());
}

#[test]
fn missing_caller_reads_none() {
    let with = |caller: Option<Vec<u8>>| TokenTxRecord {
        index: n(1),
        caller,
        op: TokenOperation::mint,
        from: vec![4],
        to: vec![4],
        amount: n(1),
        fee: n(1),
        timestamp: i(1),
    };
    assert_eq!(with(None).db_insert_values()[1], "None");
    assert_eq!(with(Some(vec![])).db_insert_values()[1], "aaaaa-aa");
    assert_ne!(with(Some(vec![4])).db_insert_values()[1], "None");
}
