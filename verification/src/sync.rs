//! How a sync with one canister proceeds: which kind of canister it is, what to ask
//! it for next, and how far the copy has come.

use vstd::prelude::*;
use vstd::string::StringExecFns;
use crate::leb128::{
    leb128_form, leb128_of, leb128_saturating_u128, leb128_value, lemma_leb128_round_trip,
};
use crate::wire::{
    candid_nat_reply, decode_nat_reply, encode_int32, encode_nat_pair, int32_message,
    nat_pair_message, principal_from_text, principal_of_text,
};

verus! {

/// Records asked for while catching up, while the last batch came back full.
pub const QUERY_NUM_S: usize = 13000;

/// Records asked for once the copy has caught up.
pub const QUERY_NUM: usize = 100;

/// Milliseconds to wait once the copy has caught up.
pub const INTERVAL: u64 = 60 * 1000;

/// Milliseconds to wait while catching up.
pub const INTERVAL_S: u64 = 0;

/// One entry of the configuration: a canister, its type and the database file its
/// data goes to.
pub struct CanisterConfig {
    pub canister_id: String,
    pub canister_type: String,
    pub db: String,
}

/// The kinds of canister that a sync knows.
#[derive(Clone, Copy, Debug, PartialEq, Eq, Structural)]
pub enum CanisterKind {
    /// `token`: token transactions.
    Token,
    /// `wicp`: token transactions that include burns.
    Wicp,
    /// `token-registry`: the registered tokens.
    TokenRegistry,
    /// `dswap-storage`: DSwap transactions.
    DSwapStorage,
    /// Any other type: nothing is read.
    Unknown,
}

impl CanisterKind {
    /// The kind that a configured type names.
    pub open spec fn of_type(t: Seq<char>) -> CanisterKind {
        if t == "token"@ {
            CanisterKind::Token
        } else if t == "wicp"@ {
            CanisterKind::Wicp
        } else if t == "token-registry"@ {
            CanisterKind::TokenRegistry
        } else if t == "dswap-storage"@ {
            CanisterKind::DSwapStorage
        } else {
            CanisterKind::Unknown
        }
    }

    /// Kinds whose records are read by history index, after asking for the history size.
    pub open spec fn reads_history(self) -> bool {
        self is Token || self is Wicp || self is DSwapStorage
    }

    pub fn from_type(canister_type: &String) -> (r: CanisterKind)
        ensures
            r == CanisterKind::of_type(canister_type@),
    {
        if *canister_type == String::from_str("token") {
            CanisterKind::Token
        } else if *canister_type == String::from_str("wicp") {
            CanisterKind::Wicp
        } else if *canister_type == String::from_str("token-registry") {
            CanisterKind::TokenRegistry
        } else if *canister_type == String::from_str("dswap-storage") {
            CanisterKind::DSwapStorage
        } else {
            CanisterKind::Unknown
        }
    }
}

/// Where a sync stands within one round.
#[derive(Clone, Copy, Debug, PartialEq, Eq, Structural)]
pub enum SyncPhase {
    /// Between rounds.
    Idle,
    /// The history size was asked for.
    AwaitHistorySize,
    /// A batch of records was asked for.
    AwaitRecords,
}

/// The state of a sync with one canister.
#[derive(Clone, Copy, Debug, PartialEq, Eq, Structural)]
pub struct SyncState {
    pub kind: CanisterKind,
    /// The first index not yet copied.
    pub begin: u128,
    /// How many records the next batch asks for.
    pub num: usize,
    /// How many records the last batch held.
    pub result_len: usize,
    pub phase: SyncPhase,
}

/// What happened since the last step.
#[derive(Clone, Copy, Debug, PartialEq, Eq, Structural)]
pub enum SyncEvent {
    /// A round begins (at start, and after each wait).
    Tick,
    /// The canister reported its history size.
    HistorySize(u128),
    /// A batch of this many records came back and was written.
    Saved(usize),
}

/// What to do next.
#[derive(Clone, Copy, Debug, PartialEq, Eq, Structural)]
pub enum SyncAction {
    /// Ask the canister for its history size (`historySize`).
    QueryHistorySize,
    /// Ask for the transactions `start .. start + limit` (`getTransactions`).
    QueryTransactions { start: u128, limit: u128 },
    /// Ask for `limit` tokens from `start` on (`getTokens`).
    QueryTokens { start: u128, limit: u128 },
    /// Wait this many milliseconds, then begin the next round.
    Sleep { millis: u64 },
}

/// The state a sync starts in.
pub open spec fn start_state(kind: CanisterKind) -> SyncState {
    SyncState { kind, begin: 0, num: QUERY_NUM_S, result_len: 0, phase: SyncPhase::Idle }
}

/// The states that a sync can be in.
pub open spec fn well_formed(s: SyncState) -> bool {
    &&& (s.num == QUERY_NUM || s.num == QUERY_NUM_S)
    &&& (s.phase is AwaitHistorySize ==> s.kind.reads_history())
    &&& (s.phase is AwaitRecords ==> !(s.kind is Unknown))
    &&& (s.kind is Unknown ==> s.result_len == 0 && s.begin == 0)
}

/// The end of a round in which `n` records were read: a short batch means the copy
/// has caught up, so the position moves by `n` and the next batch is small, after a
/// minute; a full batch moves the position by the batch size and the next batch is
/// large, at once.
pub open spec fn finish_round(s: SyncState, n: usize) -> (SyncState, SyncAction) {
    if n < s.num {
        (
            SyncState { begin: (s.begin + n) as u128, num: QUERY_NUM, result_len: n, phase: SyncPhase::Idle, ..s },
            SyncAction::Sleep { millis: INTERVAL },
        )
    } else {
        (
            SyncState { begin: (s.begin + s.num) as u128, num: QUERY_NUM_S, result_len: n, phase: SyncPhase::Idle, ..s },
            SyncAction::Sleep { millis: INTERVAL_S },
        )
    }
}

/// The smaller of two numbers.
pub open spec fn min_u128(a: u128, b: u128) -> u128 {
    if a <= b { a } else { b }
}

/// How many transactions a round asks for, at the position of `s`, of a history of
/// `size` entries: those left, at most the batch size.
pub open spec fn window_limit(s: SyncState, size: u128) -> u128 {
    min_u128((size - s.begin) as u128, s.num as u128)
}

/// The events that a state expects, with what each needs: the reported history size
/// must not lie below the position (the records left to read are the size less the
/// position), and the new position must fit in a `u128`.
pub open spec fn expects(s: SyncState, e: SyncEvent) -> bool {
    match (s.phase, e) {
        (SyncPhase::Idle, SyncEvent::Tick) =>
            s.kind is Unknown ==> s.begin + s.result_len <= u128::MAX && s.begin + s.num <= u128::MAX,
        (SyncPhase::AwaitHistorySize, SyncEvent::HistorySize(size)) =>
            s.begin <= size,
        (SyncPhase::AwaitRecords, SyncEvent::Saved(n)) =>
            s.begin + n <= u128::MAX && s.begin + s.num <= u128::MAX,
        _ => false,
    }
}

/// The next state and action. A round asks a history-reading canister for its size,
/// then for the transactions from the position on, as many as the history holds and
/// at most the batch size; a registry is asked for a batch of
/// tokens from the position on; a canister of unknown type is asked for nothing and
/// the round ends as if the last batch came back again.
pub open spec fn next(s: SyncState, e: SyncEvent) -> (SyncState, SyncAction) {
    match (s.phase, e) {
        (SyncPhase::Idle, SyncEvent::Tick) => match s.kind {
            CanisterKind::TokenRegistry => (
                SyncState { phase: SyncPhase::AwaitRecords, ..s },
                SyncAction::QueryTokens { start: s.begin, limit: s.num as u128 },
            ),
            CanisterKind::Unknown => finish_round(s, s.result_len),
            _ => (SyncState { phase: SyncPhase::AwaitHistorySize, ..s }, SyncAction::QueryHistorySize),
        },
        (SyncPhase::AwaitHistorySize, SyncEvent::HistorySize(size)) => (
            SyncState { phase: SyncPhase::AwaitRecords, ..s },
            SyncAction::QueryTransactions {
                start: s.begin,
                limit: window_limit(s, size),
            },
        ),
        (SyncPhase::AwaitRecords, SyncEvent::Saved(n)) => finish_round(s, n),
        _ => (s, SyncAction::Sleep { millis: INTERVAL_S }),
    }
}

/// A new sync with a canister of this kind.
pub fn start_sync(kind: CanisterKind) -> (s: SyncState)
    ensures
        s == start_state(kind),
{
    SyncState { kind, begin: 0, num: QUERY_NUM_S, result_len: 0, phase: SyncPhase::Idle }
}

fn end_round(s: SyncState, n: usize) -> (r: (SyncState, SyncAction))
    requires
        s.begin + n <= u128::MAX,
        s.begin + s.num <= u128::MAX,
    ensures
        r == finish_round(s, n),
{
    if n < s.num {
        (
            SyncState { begin: s.begin + n as u128, num: QUERY_NUM, result_len: n, phase: SyncPhase::Idle, ..s },
            SyncAction::Sleep { millis: INTERVAL },
        )
    } else {
        (
            SyncState { begin: s.begin + s.num as u128, num: QUERY_NUM_S, result_len: n, phase: SyncPhase::Idle, ..s },
            SyncAction::Sleep { millis: INTERVAL_S },
        )
    }
}

/// One step of a sync: the next state and what to do, for an event that the state
/// expects.
pub fn step(s: SyncState, e: SyncEvent) -> (r: (SyncState, SyncAction))
    requires
        expects(s, e),
    ensures
        r == next(s, e),
{
    match (s.phase, e) {
        (SyncPhase::Idle, SyncEvent::Tick) => match s.kind {
            CanisterKind::TokenRegistry => (
                SyncState { phase: SyncPhase::AwaitRecords, ..s },
                SyncAction::QueryTokens { start: s.begin, limit: s.num as u128 },
            ),
            CanisterKind::Unknown => end_round(s, s.result_len),
            _ => (SyncState { phase: SyncPhase::AwaitHistorySize, ..s }, SyncAction::QueryHistorySize),
        },
        (SyncPhase::AwaitHistorySize, SyncEvent::HistorySize(size)) => {
            let available = size - s.begin;
            let room = s.num as u128;
            let limit = if available <= room { available } else { room };
            (
                SyncState { phase: SyncPhase::AwaitRecords, ..s },
                SyncAction::QueryTransactions { start: s.begin, limit },
            )
        },
        (SyncPhase::AwaitRecords, SyncEvent::Saved(n)) => end_round(s, n),
        _ => (s, SyncAction::Sleep { millis: INTERVAL_S }),
    }
}

/// A sync starts well formed, at position zero, between rounds, with a large batch.
pub proof fn lemma_start_well_formed(kind: CanisterKind)
    ensures
        well_formed(start_state(kind)),
{
}

/// A sync started for a canister of some kind is a sync of that kind, at position
/// zero, between rounds, with the large batch; its first round asks a
/// history-reading canister for its history size, a registry for its first large
/// batch of tokens, and a canister of unknown type for nothing.
pub proof fn lemma_start_keeps_kind(kind: CanisterKind)
    ensures
        start_state(kind).kind == kind,
        start_state(kind).begin == 0,
        start_state(kind).num == 13000,
        start_state(kind).phase is Idle,
        expects(start_state(kind), SyncEvent::Tick),
        kind.reads_history() ==> next(start_state(kind), SyncEvent::Tick).1
            == SyncAction::QueryHistorySize,
        kind is TokenRegistry ==> next(start_state(kind), SyncEvent::Tick).1
            == (SyncAction::QueryTokens { start: 0, limit: 13000 }),
        kind is Unknown ==> next(start_state(kind), SyncEvent::Tick).1 is Sleep,
{
}

/// The configured types name their kinds: `token`, `wicp` and `dswap-storage` are
/// read by history, `token-registry` is a registry, and any other type is unknown.
pub proof fn lemma_configured_types()
    ensures
        CanisterKind::of_type("token"@) == CanisterKind::Token,
        CanisterKind::of_type("wicp"@) == CanisterKind::Wicp,
        CanisterKind::of_type("token-registry"@) == CanisterKind::TokenRegistry,
        CanisterKind::of_type("dswap-storage"@) == CanisterKind::DSwapStorage,
        CanisterKind::of_type("token"@).reads_history(),
        CanisterKind::of_type("wicp"@).reads_history(),
        CanisterKind::of_type("dswap-storage"@).reads_history(),
{
    reveal_strlit("token");
    reveal_strlit("wicp");
    reveal_strlit("token-registry");
    reveal_strlit("dswap-storage");
    assert("wicp"@.len() != "token"@.len());
    assert("token-registry"@.len() != "token"@.len());
    assert("token-registry"@.len() != "wicp"@.len());
    assert("dswap-storage"@.len() != "token"@.len());
    assert("dswap-storage"@.len() != "wicp"@.len());
    assert("dswap-storage"@.len() != "token-registry"@.len());
}

/// Every step keeps a sync well formed: the batch size is always one of the two
/// sizes, only history-reading canisters wait for a history size, and a canister of
/// unknown type never reads a record and stays at position zero.
pub proof fn lemma_step_keeps_well_formed(s: SyncState, e: SyncEvent)
    requires
        well_formed(s),
        expects(s, e),
    ensures
        well_formed(next(s, e).0),
        next(s, e).0.kind == s.kind,
{
}

/// The copy never moves backwards: no step lowers the position.
pub proof fn lemma_position_never_moves_back(s: SyncState, e: SyncEvent)
    requires
        expects(s, e),
    ensures
        next(s, e).0.begin >= s.begin,
{
}

/// The transactions asked for lie in the canister's history, from the position on:
/// `[begin, begin + limit)` ends at or before the history size, and `limit` is at most
/// the batch size; it is short of the batch size only where the history ends.
pub proof fn lemma_window_within_history(s: SyncState, size: u128)
    requires
        expects(s, SyncEvent::HistorySize(size)),
    ensures
        next(s, SyncEvent::HistorySize(size)).1 matches SyncAction::QueryTransactions { start, limit }
            && start == s.begin && start + limit <= size && limit <= s.num
            && (limit < s.num ==> start + limit == size),
{
}

/// A round with a history-reading canister, between rounds: it asks for the history
/// size, then for the transactions from the position on, and after `n` records were
/// written it is between rounds again, the position moved by `n` if the batch came
/// back short and by the batch size otherwise.
pub proof fn lemma_history_round(s: SyncState, size: u128, n: usize)
    requires
        well_formed(s),
        s.phase is Idle,
        s.kind.reads_history(),
        s.begin <= size,
        s.begin + n <= u128::MAX,
        s.begin + s.num <= u128::MAX,
    ensures
        ({
            let (s1, a1) = next(s, SyncEvent::Tick);
            let (s2, a2) = next(s1, SyncEvent::HistorySize(size));
            let (s3, a3) = next(s2, SyncEvent::Saved(n));
            &&& expects(s, SyncEvent::Tick)
            &&& a1 == SyncAction::QueryHistorySize
            &&& expects(s1, SyncEvent::HistorySize(size))
            &&& a2 is QueryTransactions
            &&& expects(s2, SyncEvent::Saved(n))
            &&& s3.phase is Idle
            &&& s3.begin == s.begin + (if n < s.num { n } else { s.num })
            &&& a3 == SyncAction::Sleep { millis: if n < s.num { INTERVAL } else { INTERVAL_S } }
            &&& well_formed(s3)
        }),
{
}

/// A round with a token registry, between rounds: it asks for a batch of tokens from
/// the position on, and after `n` were written it is between rounds again, the
/// position moved as for any round.
pub proof fn lemma_registry_round(s: SyncState, n: usize)
    requires
        well_formed(s),
        s.phase is Idle,
        s.kind is TokenRegistry,
        s.begin + n <= u128::MAX,
        s.begin + s.num <= u128::MAX,
    ensures
        ({
            let (s1, a1) = next(s, SyncEvent::Tick);
            let (s2, a2) = next(s1, SyncEvent::Saved(n));
            &&& a1 == SyncAction::QueryTokens { start: s.begin, limit: s.num as u128 }
            &&& expects(s1, SyncEvent::Saved(n))
            &&& s2.phase is Idle
            &&& s2.begin == s.begin + (if n < s.num { n } else { s.num })
            &&& well_formed(s2)
        }),
{
}

/// A canister of unknown type is never asked anything and its copy never moves:
/// each round only waits a minute.
pub proof fn lemma_unknown_kind_stays(s: SyncState)
    requires
        well_formed(s),
        s.phase is Idle,
        s.kind is Unknown,
    ensures
        expects(s, SyncEvent::Tick),
        next(s, SyncEvent::Tick).0 == (SyncState { num: QUERY_NUM, ..s }),
        next(s, SyncEvent::Tick).1 == (SyncAction::Sleep { millis: INTERVAL }),
{
}

/// How every round ends, with `n` records read: a short batch (`n` below the batch
/// size) moves the position by `n`, makes the next batch 100 records and waits a
/// minute (60000 ms); a full batch moves the position by the batch size, makes the
/// next batch 13000 records and goes on at once.
pub proof fn lemma_round_end(s: SyncState, n: usize)
    requires
        s.phase is AwaitRecords,
        expects(s, SyncEvent::Saved(n)),
    ensures
        ({
            let (s1, a1) = next(s, SyncEvent::Saved(n));
            &&& s1.phase is Idle
            &&& s1.kind == s.kind
            &&& s1.result_len == n
            &&& n < s.num ==> s1.begin == s.begin + n && s1.num == 100
                && a1 == SyncAction::Sleep { millis: 60000 }
            &&& n >= s.num ==> s1.begin == s.begin + s.num && s1.num == 13000
                && a1 == SyncAction::Sleep { millis: 0 }
        }),
{
}

/// What a canister that follows its API answers to a range request on the history
/// `h`: the entries `[start, start + limit)`, cut off where the history ends.
pub open spec fn answer<T>(h: Seq<T>, start: int, limit: int) -> Seq<T> {
    h.subrange(start, if start + limit <= h.len() { start + limit } else { h.len() as int })
}

/// The copy is whole: it holds the history's first `begin` entries, in order, with
/// no gap and nothing twice.
pub open spec fn copy_is_whole<T>(s: SyncState, h: Seq<T>, copy: Seq<T>) -> bool {
    s.begin <= h.len() && copy == h.take(s.begin as int)
}

/// A whole copy stays whole while the canister's history grows.
pub proof fn lemma_copy_survives_growth<T>(s: SyncState, h: Seq<T>, grown: Seq<T>, copy: Seq<T>)
    requires
        copy_is_whole(s, h, copy),
        h.len() <= grown.len(),
        h == grown.take(h.len() as int),
    ensures
        copy_is_whole(s, grown, copy),
{
    assert(grown.take(s.begin as int) =~= h.take(s.begin as int));
}

/// A round with a history-reading canister keeps the copy whole and moves it on: with
/// a whole copy of the history `h` between rounds, the canister reporting `h`'s size
/// and answering the range request as its API says, appending that answer to the copy
/// leaves a whole copy of `h` at the new position, which has moved by every entry
/// read, and past the old one whenever `h` held anything new. A sync starts whole (an empty copy at position zero), so after every round
/// the copy holds exactly the history's entries `[0, begin)`.
pub proof fn lemma_history_round_copies_without_gap<T>(s: SyncState, h: Seq<T>, copy: Seq<T>)
    requires
        well_formed(s),
        s.phase is Idle,
        s.kind.reads_history(),
        copy_is_whole(s, h, copy),
        h.len() <= u128::MAX,
        s.begin + s.num <= u128::MAX,
    ensures
        ({
            let (s1, a1) = next(s, SyncEvent::Tick);
            let (s2, a2) = next(s1, SyncEvent::HistorySize(h.len() as u128));
            let batch = answer(h, s.begin as int, window_limit(s, h.len() as u128) as int);
            let (s3, a3) = next(s2, SyncEvent::Saved(batch.len() as usize));
            &&& a1 == SyncAction::QueryHistorySize
            &&& expects(s1, SyncEvent::HistorySize(h.len() as u128))
            &&& a2 == (SyncAction::QueryTransactions { start: s.begin, limit: window_limit(s, h.len() as u128) })
            &&& batch.len() <= s.num
            &&& expects(s2, SyncEvent::Saved(batch.len() as usize))
            &&& s3.phase is Idle
            &&& well_formed(s3)
            &&& copy_is_whole(s3, h, copy + batch)
            &&& s3.begin == s.begin + batch.len()
            &&& s.begin < h.len() ==> s3.begin > s.begin
        }),
{
    let (s1, a1) = next(s, SyncEvent::Tick);
    let (s2, a2) = next(s1, SyncEvent::HistorySize(h.len() as u128));
    let batch = answer(h, s.begin as int, window_limit(s, h.len() as u128) as int);
    let (s3, a3) = next(s2, SyncEvent::Saved(batch.len() as usize));
    assert(batch.len() == window_limit(s, h.len() as u128));
    assert(copy + batch =~= h.take(s3.begin as int));
}

/// A round with a token registry keeps the copy of its token list `h` whole in the
/// same way: the batch asked for starts at the position, and appending the answer
/// leaves a whole copy at the new position, which has moved by every token read.
pub proof fn lemma_registry_round_copies_without_gap<T>(s: SyncState, h: Seq<T>, copy: Seq<T>)
    requires
        well_formed(s),
        s.phase is Idle,
        s.kind is TokenRegistry,
        copy_is_whole(s, h, copy),
        s.begin + s.num <= u128::MAX,
    ensures
        ({
            let (s1, a1) = next(s, SyncEvent::Tick);
            let batch = answer(h, s.begin as int, s.num as int);
            let (s2, a2) = next(s1, SyncEvent::Saved(batch.len() as usize));
            &&& a1 == (SyncAction::QueryTokens { start: s.begin, limit: s.num as u128 })
            &&& batch.len() <= s.num
            &&& expects(s1, SyncEvent::Saved(batch.len() as usize))
            &&& s2.phase is Idle
            &&& well_formed(s2)
            &&& copy_is_whole(s2, h, copy + batch)
            &&& s2.begin == s.begin + batch.len()
            &&& s.begin < h.len() ==> s2.begin > s.begin
        }),
{
    let batch = answer(h, s.begin as int, s.num as int);
    let (s1, a1) = next(s, SyncEvent::Tick);
    let (s2, a2) = next(s1, SyncEvent::Saved(batch.len() as usize));
    assert(copy + batch =~= h.take(s2.begin as int));
}

/// A sync starts with a whole copy: nothing copied, at position zero.
pub proof fn lemma_start_copy_is_whole<T>(kind: CanisterKind, h: Seq<T>)
    ensures
        copy_is_whole(start_state(kind), h, Seq::<T>::empty()),
{
    assert(h.take(0) =~= Seq::<T>::empty());
}

/// A query to send to a canister: the canister's principal (its bytes), the method
/// and the candid-encoded argument.
pub struct CanisterQuery {
    pub canister: Vec<u8>,
    pub method: String,
    pub arg: Vec<u8>,
}

/// Why a query could not be made.
#[derive(Clone, Copy, Debug, PartialEq, Eq, Structural)]
pub enum QueryError {
    /// The configured canister id is not the text of a principal.
    InvalidCanisterId,
}

/// Whether an action sends a query.
pub open spec fn is_query(a: SyncAction) -> bool {
    !(a is Sleep)
}

/// The method that a query action calls.
pub open spec fn method_of(a: SyncAction) -> Seq<char> {
    match a {
        SyncAction::QueryHistorySize => "historySize"@,
        SyncAction::QueryTransactions { .. } => "getTransactions"@,
        SyncAction::QueryTokens { .. } => "getTokens"@,
        SyncAction::Sleep { .. } => Seq::empty(),
    }
}

/// The encoded argument of a query action: a placeholder `int32` zero for the
/// history size, the start and the limit as two `Nat` values for a range.
pub open spec fn arg_of(a: SyncAction) -> Seq<u8> {
    match a {
        SyncAction::QueryHistorySize => int32_message(0),
        SyncAction::QueryTransactions { start, limit } => nat_pair_message(start as nat, limit as nat),
        SyncAction::QueryTokens { start, limit } => nat_pair_message(start as nat, limit as nat),
        SyncAction::Sleep { .. } => Seq::empty(),
    }
}

/// The query that an action sends to the configured canister: none for a wait; an
/// error when the canister id is not a principal's text; otherwise the canister's
/// principal, the action's method and its encoded argument.
pub fn query_for(canister_id: &str, action: &SyncAction) -> (r: Option<Result<CanisterQuery, QueryError>>)
    ensures
        r is None <==> !is_query(*action),
        r == Some(Err::<CanisterQuery, QueryError>(QueryError::InvalidCanisterId)) <==> is_query(*action)
            && principal_of_text(canister_id@) is None,
        r matches Some(Ok(q)) ==> {
            &&& Some(q.canister@) == principal_of_text(canister_id@)
            &&& q.canister@.len() <= 29
            &&& q.method@ == method_of(*action)
            &&& q.arg@ == arg_of(*action)
        },
{
    if let SyncAction::Sleep { .. } = action {
        return None;
    }
    let canister = match principal_from_text(canister_id) {
        Some(bytes) => bytes,
        None => return Some(Err(QueryError::InvalidCanisterId)),
    };
    let (method, arg) = match action {
        SyncAction::QueryHistorySize => {
            let empty_arg: i32 = 0;
            (String::from_str("historySize"), encode_int32(empty_arg))
        },
        SyncAction::QueryTransactions { start, limit } => {
            (String::from_str("getTransactions"), encode_nat_pair(*start, *limit))
        },
        SyncAction::QueryTokens { start, limit } => {
            (String::from_str("getTokens"), encode_nat_pair(*start, *limit))
        },
        SyncAction::Sleep { .. } => {
            return None;
        },
    };
    Some(Ok(CanisterQuery { canister, method, arg }))
}

/// A range query's argument carries the action's start and limit, in that order, as
/// the two `Nat` values of a candid message: after `DIDL`, an empty type table and
/// the two `nat` argument types come the LEB128 bytes of `start`, then those of
/// `limit`. The same range gives the same argument for transactions and for tokens.
pub proof fn lemma_range_query_carries_start_and_limit(start: u128, limit: u128)
    ensures
        arg_of(SyncAction::QueryTransactions { start, limit })
            == arg_of(SyncAction::QueryTokens { start, limit }),
        ({
            let m = arg_of(SyncAction::QueryTokens { start, limit });
            &&& m.take(8) == seq![68u8, 73u8, 68u8, 76u8, 0u8, 2u8, 0x7du8, 0x7du8]
            &&& exists|p: int| {
                &&& 8 <= p <= m.len()
                &&& leb128_form(m.subrange(8, p))
                &&& leb128_value(m.subrange(8, p)) == start
                &&& leb128_form(#[trigger] m.skip(p))
                &&& leb128_value(m.skip(p)) == limit
            }
        }),
{
    lemma_leb128_round_trip(start as nat);
    lemma_leb128_round_trip(limit as nat);
    let m = arg_of(SyncAction::QueryTokens { start, limit });
    let a = leb128_of(start as nat);
    let b = leb128_of(limit as nat);
    let p: int = 8 + a.len() as int;
    assert(m.take(8) =~= seq![68u8, 73u8, 68u8, 76u8, 0u8, 2u8, 0x7du8, 0x7du8]);
    assert(m.subrange(8, p) =~= a);
    assert(m.skip(p) =~= b);
}

/// The three queries call the canister API's three methods.
pub proof fn lemma_query_methods(start: u128, limit: u128)
    ensures
        method_of(SyncAction::QueryHistorySize) == "historySize"@,
        method_of(SyncAction::QueryTransactions { start, limit }) == "getTransactions"@,
        method_of(SyncAction::QueryTokens { start, limit }) == "getTokens"@,
{
}

/// The history size query's argument is the candid message of the single `int32`
/// zero: `DIDL`, an empty type table, one `int32` argument type, four zero bytes.
pub proof fn lemma_history_size_query_argument()
    ensures
        arg_of(SyncAction::QueryHistorySize) == seq![68u8, 73u8, 68u8, 76u8, 0u8, 1u8, 0x75u8, 0u8, 0u8, 0u8, 0u8],
{
    assert(arg_of(SyncAction::QueryHistorySize) =~= seq![68u8, 73u8, 68u8, 76u8, 0u8, 1u8, 0x75u8, 0u8, 0u8, 0u8, 0u8]);
}

/// The history size that a `historySize` reply carries, or `u128::MAX` for a larger
/// one; `None` when the reply is not a candid `Nat`.
pub fn decode_history_size(reply: &Vec<u8>) -> (r: Option<u128>)
    ensures
        match candid_nat_reply(reply@) {
            Some(value) => r == Some(
                (if leb128_value(value) <= u128::MAX { leb128_value(value) } else { u128::MAX as nat }) as u128,
            ),
            None => r is None,
        },
{
    match decode_nat_reply(reply.as_slice()) {
        Some(value) => Some(leb128_saturating_u128(&value)),
        None => None,
    }
}

/// A history size past `u128::MAX`, read as `u128::MAX`, asks for the same window
/// as the true size would: while the position and a batch fit in a `u128`, either
/// size leaves at least a full batch to read.
pub proof fn lemma_saturated_size_same_window(s: SyncState, size: nat)
    requires
        size > u128::MAX,
        s.begin + s.num <= u128::MAX,
    ensures
        window_limit(s, u128::MAX) as int == (if size - s.begin <= s.num { size - s.begin } else { s.num as int }),
{
}

} // verus!
