use canister_sync::sync::{
    decode_history_size, query_for, start_sync, step, CanisterConfig, CanisterKind, QueryError,
    SyncAction, SyncEvent, SyncPhase, SyncState, INTERVAL, INTERVAL_S, QUERY_NUM, QUERY_NUM_S,
};

fn kind(t: &str) -> CanisterKind {
    CanisterKind::from_type(&String::from(t))
}

#[test]
fn kinds_of_configured_types() {
    assert_eq!(kind("token"), CanisterKind::Token);
    assert_eq!(kind("wicp"), CanisterKind::Wicp);
    assert_eq!(kind("token-registry"), CanisterKind::TokenRegistry);
    assert_eq!(kind("dswap-storage"), CanisterKind::DSwapStorage);
    assert_eq!(kind("Token"), CanisterKind::Unknown);
    assert_eq!(kind(""), CanisterKind::Unknown);
    let config = CanisterConfig {
        canister_id: String::from("aaaaa-aa"),
        canister_type: String::from("token-registry"),
        db: String::from("./b.db"),
    };
    assert_eq!(CanisterKind::from_type(&config.canister_type), CanisterKind::TokenRegistry);
}

#[test]
fn sync_starts_at_zero_with_a_large_batch() {
    let s = start_sync(CanisterKind::Token);
    assert_eq!(s.begin, 0);
    assert_eq!(s.num, QUERY_NUM_S);
    assert_eq!(s.num, 13000);
    assert_eq!(s.result_len, 0);
    assert_eq!(s.phase, SyncPhase::Idle);
}

#[test]
fn token_round_short_batch() {
    let s = start_sync(CanisterKind::Token);
    let (s, a) = step(s, SyncEvent::Tick);
    assert_eq!(a, SyncAction::QueryHistorySize);
    assert_eq!(s.phase, SyncPhase::AwaitHistorySize);
    let (s, a) = step(s, SyncEvent::HistorySize(250));
    assert_eq!(a, SyncAction::QueryTransactions { start: 0, limit: 250 });
    let (s, a) = step(s, SyncEvent::Saved(60));
    assert_eq!(a, SyncAction::Sleep { millis: INTERVAL });
    assert_eq!(INTERVAL, 60000);
    assert_eq!(s.begin, 60);
    assert_eq!(s.num, QUERY_NUM);
    assert_eq!(s.num, 100);
    assert_eq!(s.result_len, 60);
    assert_eq!(s.phase, SyncPhase::Idle);
    // The next batch starts at the position and asks for at most the batch size.
    let (s, _) = step(s, SyncEvent::Tick);
    let (_, a) = step(s, SyncEvent::HistorySize(1000));
    assert_eq!(a, SyncAction::QueryTransactions { start: 60, limit: 100 });
}

#[test]
fn full_batch_keeps_catching_up() {
    let s = start_sync(CanisterKind::DSwapStorage);
    let (s, _) = step(s, SyncEvent::Tick);
    let (s, a) = step(s, SyncEvent::HistorySize(20000));
    assert_eq!(a, SyncAction::QueryTransactions { start: 0, limit: 13000 });
    let (s, a) = step(s, SyncEvent::Saved(13000));
    assert_eq!(a, SyncAction::Sleep { millis: INTERVAL_S });
    assert_eq!(INTERVAL_S, 0);
    assert_eq!(s.begin, 13000);
    assert_eq!(s.num, QUERY_NUM_S);
    let (s, _) = step(s, SyncEvent::Tick);
    let (s, a) = step(s, SyncEvent::HistorySize(20000));
    assert_eq!(a, SyncAction::QueryTransactions { start: 13000, limit: 7000 });
    let (s, a) = step(s, SyncEvent::Saved(7000));
    assert_eq!(a, SyncAction::Sleep { millis: INTERVAL });
    assert_eq!(s.begin, 20000);
    assert_eq!(s.num, QUERY_NUM);
    // Caught up: nothing new, nothing asked beyond the history.
    let (s, _) = step(s, SyncEvent::Tick);
    let (_, a) = step(s, SyncEvent::HistorySize(20000));
    assert_eq!(a, SyncAction::QueryTransactions { start: 20000, limit: 0 });
}

#[test]
fn follows_a_growing_history() {
    let s = start_sync(CanisterKind::Token);
    let (s, _) = step(s, SyncEvent::Tick);
    let (s, a) = step(s, SyncEvent::HistorySize(500));
    assert_eq!(a, SyncAction::QueryTransactions { start: 0, limit: 500 });
    let (s, _) = step(s, SyncEvent::Saved(500));
    assert_eq!(s.begin, 500);
    assert_eq!(s.num, QUERY_NUM);
    let (s, _) = step(s, SyncEvent::Tick);
    let (s, a) = step(s, SyncEvent::HistorySize(520));
    assert_eq!(a, SyncAction::QueryTransactions { start: 500, limit: 20 });
    let (s, _) = step(s, SyncEvent::Saved(20));
    assert_eq!(s.begin, 520);
    let (s, _) = step(s, SyncEvent::Tick);
    let (_, a) = step(s, SyncEvent::HistorySize(1000));
    assert_eq!(a, SyncAction::QueryTransactions { start: 520, limit: 100 });
}

#[test]
fn registry_round() {
    let s = start_sync(CanisterKind::TokenRegistry);
    let (s, a) = step(s, SyncEvent::Tick);
    assert_eq!(a, SyncAction::QueryTokens { start: 0, limit: 13000 });
    assert_eq!(s.phase, SyncPhase::AwaitRecords);
    let (s, a) = step(s, SyncEvent::Saved(7));
    assert_eq!(a, SyncAction::Sleep { millis: 60000 });
    assert_eq!(s.begin, 7);
    let (_, a) = step(s, SyncEvent::Tick);
    assert_eq!(a, SyncAction::QueryTokens { start: 7, limit: 100 });
}

#[test]
fn unknown_kind_only_waits() {
    let s = start_sync(CanisterKind::Unknown);
    let (s, a) = step(s, SyncEvent::Tick);
    assert_eq!(a, SyncAction::Sleep { millis: 60000 });
    assert_eq!(
        s,
        SyncState { kind: CanisterKind::Unknown, begin: 0, num: 100, result_len: 0, phase: SyncPhase::Idle }
    );
    let (s, a) = step(s, SyncEvent::Tick);
    assert_eq!(a, SyncAction::Sleep { millis: 60000 });
    assert_eq!(s.begin, 0);
}

#[test]
fn queries_for_actions() {
    let id = "ryjl3-tyaaa-aaaaa-aaaba-cai";
    let ledger = vec![0u8, 0, 0, 0, 0, 0, 0, 2, 1, 1];
    assert!(query_for(id, &SyncAction::Sleep { millis: 0 }).is_none());

    let q = query_for(id, &SyncAction::QueryHistorySize).unwrap().unwrap();
    assert_eq!(q.canister, ledger);
    assert_eq!(q.method, "historySize");
    assert_eq!(q.arg, candid::encode_args((0i32,)).unwrap());
    assert_eq!(q.arg, vec![b'D', b'I', b'D', b'L', 0, 1, 0x75, 0, 0, 0, 0]);

    let q = query_for(id, &SyncAction::QueryTransactions { start: 5, limit: 300 }).unwrap().unwrap();
    assert_eq!(q.canister, ledger);
    assert_eq!(q.method, "getTransactions");
    assert_eq!(
        q.arg,
        candid::encode_args((candid::Nat::from(5u32), candid::Nat::from(300u32))).unwrap()
    );
    assert_eq!(q.arg, vec![b'D', b'I', b'D', b'L', 0, 2, 0x7d, 0x7d, 5, 0xac, 0x02]);
    let (start, limit): (candid::Nat, candid::Nat) = candid::decode_args(&q.arg).unwrap();
    assert_eq!(start, candid::Nat::from(5u32));
    assert_eq!(limit, candid::Nat::from(300u32));

    let q = query_for("aaaaa-aa", &SyncAction::QueryTokens { start: 0, limit: 100 }).unwrap().unwrap();
    assert!(q.canister.is_empty());
    assert_eq!(q.method, "getTokens");
    assert_eq!(q.arg, vec![b'D', b'I', b'D', b'L', 0, 2, 0x7d, 0x7d, 0, 100]);

    let q = query_for(id, &SyncAction::QueryTransactions { start: u128::MAX, limit: 13000 })
        .unwrap()
        .unwrap();
    assert_eq!(
        q.arg,
        candid::encode_args((candid::Nat::from(u128::MAX), candid::Nat::from(13000u32))).unwrap()
    );
}

#[test]
fn invalid_canister_id_is_refused() {
    let r = query_for("not a principal", &SyncAction::QueryHistorySize).unwrap();
    assert_eq!(r.err(), Some(QueryError::InvalidCanisterId));
    let r = query_for("ryjl3-tyaaa-aaaaa-aaaba-caa", &SyncAction::QueryHistorySize).unwrap();
    assert_eq!(r.err(), Some(QueryError::InvalidCanisterId));
    let r = query_for("ryjl3tyaaaaaaaaaaabacai", &SyncAction::QueryHistorySize).unwrap();
    assert_eq!(r.err(), Some(QueryError::InvalidCanisterId));
    // Parsing ignores case.
    let q = query_for("RYJL3-TYAAA-AAAAA-AAABA-CAI", &SyncAction::QueryHistorySize).unwrap().unwrap();
    assert_eq!(q.canister, vec![0u8, 0, 0, 0, 0, 0, 0, 2, 1, 1]);
}

#[test]
fn history_size_replies() {
    let reply = candid::encode_one(candid::Nat::from(123456789u64)).unwrap();
    assert_eq!(decode_history_size(&reply), Some(123456789));
    let zero = candid::encode_one(candid::Nat::from(0u8)).unwrap();
    assert_eq!(decode_history_size(&zero), Some(0));
    let too_big = candid::encode_one(candid::Nat::from(u128::MAX) + candid::Nat::from(1u8)).unwrap();
    assert_eq!(decode_history_size(&too_big), Some(u128::MAX));
    let max = candid::encode_one(candid::Nat::from(u128::MAX)).unwrap();
    assert_eq!(decode_history_size(&max), Some(u128::MAX));
    let just_below = candid::encode_one(candid::Nat::from(u128::MAX - 1)).unwrap();
    assert_eq!(decode_history_size(&just_below), Some(u128::MAX - 1));
    let huge = candid::encode_one(candid::Nat::parse(b"1000000000000000000000000000000000000000000000000000").unwrap()).unwrap();
    assert_eq!(decode_history_size(&huge), Some(u128::MAX));
    let not_nat = candid::encode_one(String::from("12")).unwrap();
    assert_eq!(decode_history_size(&not_nat), None);
    assert_eq!(decode_history_size(&vec![1, 2, 3]), None);
}
