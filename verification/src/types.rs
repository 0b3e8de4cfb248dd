//! The operations and records that the canisters report, and the rows they become.

use vstd::prelude::*;
use vstd::string::StringExecFns;
use crate::text::{
    decimal, decimal_text, decimal_value, int_display, lemma_decimal_value,
    lemma_nat_display_reads_back, nat_display, without_underscores,
};
use crate::leb128::{leb128_form, leb128_value, sleb128_value};
use crate::wire::{int_sleb128_to_text, nat_leb128_to_text, principal_text, principal_to_text};

verus! {

/// An operation recorded by a DSwap storage canister.
#[allow(non_camel_case_types)]
#[derive(Clone, Copy, Debug, PartialEq, Eq, Structural)]
pub enum DSwapOperation {
    deposit,
    withdraw,
    tokenTransfer,
    tokenTransferFrom,
    tokenApprove,
    lpTransfer,
    lpTransferFrom,
    lpApprove,
    createPair,
    swap,
    addLiquidity,
    removeLiquidity,
}

impl DSwapOperation {
    /// The name under which the operation is stored: the variant's own name.
    pub open spec fn text(self) -> Seq<char> {
        match self {
            DSwapOperation::deposit => "deposit"@,
            DSwapOperation::withdraw => "withdraw"@,
            DSwapOperation::tokenTransfer => "tokenTransfer"@,
            DSwapOperation::tokenTransferFrom => "tokenTransferFrom"@,
            DSwapOperation::tokenApprove => "tokenApprove"@,
            DSwapOperation::lpTransfer => "lpTransfer"@,
            DSwapOperation::lpTransferFrom => "lpTransferFrom"@,
            DSwapOperation::lpApprove => "lpApprove"@,
            DSwapOperation::createPair => "createPair"@,
            DSwapOperation::swap => "swap"@,
            DSwapOperation::addLiquidity => "addLiquidity"@,
            DSwapOperation::removeLiquidity => "removeLiquidity"@,
        }
    }

    /// The operation's stored name.
    pub fn to_text(&self) -> (r: String)
        ensures
            r@ == self.text(),
    {
        match self {
            DSwapOperation::deposit => String::from_str("deposit"),
            DSwapOperation::withdraw => String::from_str("withdraw"),
            DSwapOperation::tokenTransfer => String::from_str("tokenTransfer"),
            DSwapOperation::tokenTransferFrom => String::from_str("tokenTransferFrom"),
            DSwapOperation::tokenApprove => String::from_str("tokenApprove"),
            DSwapOperation::lpTransfer => String::from_str("lpTransfer"),
            DSwapOperation::lpTransferFrom => String::from_str("lpTransferFrom"),
            DSwapOperation::lpApprove => String::from_str("lpApprove"),
            DSwapOperation::createPair => String::from_str("createPair"),
            DSwapOperation::swap => String::from_str("swap"),
            DSwapOperation::addLiquidity => String::from_str("addLiquidity"),
            DSwapOperation::removeLiquidity => String::from_str("removeLiquidity"),
        }
    }
}

/// Different DSwap operations are stored under different names, so the stored
/// name tells the operation.
pub proof fn lemma_dswap_text_distinct(a: DSwapOperation, b: DSwapOperation)
    ensures
        a.text() == b.text() ==> a == b,
{
    reveal_strlit("deposit");
    reveal_strlit("withdraw");
    reveal_strlit("tokenTransfer");
    reveal_strlit("tokenTransferFrom");
    reveal_strlit("tokenApprove");
    reveal_strlit("lpTransfer");
    reveal_strlit("lpTransferFrom");
    reveal_strlit("lpApprove");
    reveal_strlit("createPair");
    reveal_strlit("swap");
    reveal_strlit("addLiquidity");
    reveal_strlit("removeLiquidity");
    if a.text() == b.text() {
        assert(a.text().len() == b.text().len());
        assert(a.text()[0] == b.text()[0]);
    }
}

/// An operation recorded by a token canister.
#[allow(non_camel_case_types)]
#[derive(Clone, Copy, Debug, PartialEq, Eq, Structural)]
pub enum TokenOperation {
    mint,
    burn(u64),
    transfer,
    transferFrom,
    approve,
}

impl TokenOperation {
    /// The name under which the operation is stored; a burn carries its amount
    /// in decimal after `burn `.
    pub open spec fn text(self) -> Seq<char> {
        match self {
            TokenOperation::approve => "approve"@,
            TokenOperation::mint => "mint"@,
            TokenOperation::burn(c) => "burn "@ + decimal(c as nat),
            TokenOperation::transfer => "transfer"@,
            TokenOperation::transferFrom => "transferFrom"@,
        }
    }

    /// The operation's stored name.
    pub fn to_text(&self) -> (r: String)
        ensures
            r@ == self.text(),
    {
        match self {
            TokenOperation::approve => String::from_str("approve"),
            TokenOperation::mint => String::from_str("mint"),
            TokenOperation::burn(c) => {
                let mut s = String::from_str("burn ");
                let amount = decimal_text(*c);
                s.append(amount.as_str());
                s
            },
            TokenOperation::transfer => String::from_str("transfer"),
            TokenOperation::transferFrom => String::from_str("transferFrom"),
        }
    }
}

/// Different token operations, burns of different amounts among them, are stored
/// under different names.
pub proof fn lemma_token_text_distinct(a: TokenOperation, b: TokenOperation)
    ensures
        a.text() == b.text() ==> a == b,
{
    reveal_strlit("approve");
    reveal_strlit("mint");
    reveal_strlit("burn ");
    reveal_strlit("transfer");
    reveal_strlit("transferFrom");
    if a.text() == b.text() {
        assert(a.text().len() == b.text().len());
        assert(a.text()[0] == b.text()[0]);
        if let (TokenOperation::burn(x), TokenOperation::burn(y)) = (a, b) {
            crate::text::lemma_decimal_value(x as nat);
            crate::text::lemma_decimal_value(y as nat);
            assert(decimal(x as nat) =~= a.text().subrange(5, a.text().len() as int));
            assert(decimal(y as nat) =~= b.text().subrange(5, b.text().len() as int));
            crate::text::lemma_decimal_injective(x as nat, y as nat);
        }
    }
}

/// What each kind of record writes: the table it creates, the statement that inserts
/// one row, and the row's values as text.
pub trait Database {
    /// Whether the record can be turned into a row.
    spec fn row_ready(&self) -> bool;

    /// The statement that creates the record's table.
    spec fn init_command(&self) -> Seq<char>;

    /// The statement that inserts one row, with a placeholder per value.
    spec fn insert_header(&self) -> Seq<char>;

    /// The row's values, in the order of the placeholders.
    spec fn insert_values(&self) -> Seq<Seq<char>>;

    fn db_init_command(&self) -> (r: &str)
        ensures
            r@ == self.init_command(),
    ;

    fn db_insert_header(&self) -> (r: &str)
        ensures
            r@ == self.insert_header(),
    ;

    fn db_insert_values(&self) -> (r: Vec<String>)
        requires
            self.row_ready(),
        ensures
            r@.map_values(|s: String| s@) == self.insert_values(),
    ;
}

/// The bytes of a principal, as `Principal::as_slice` gives them, fit in 29 bytes.
pub open spec fn principal_bytes(bytes: Seq<u8>) -> bool {
    bytes.len() <= 29
}

pub const TOKEN_TX_TABLE: &'static str = "CREATE TABLE IF NOT EXISTS transactions (
                    id            INTEGER PRIMARY KEY,
                    indexs        INTEGER NOT NULL,
                    caller        TEXT NOT NULL,
                    op            TEXT NOT NULL,
                    froma         TEXT NOT NULL,
                    toa           TEXT NOT NULL,
                    amount        INTEGER NOT NULL,
                    fee           INTEGER NOT NULL,
                    timestamp     INTEGER NOT NULL
                )";

pub const TOKEN_TX_INSERT: &'static str = "INSERT INTO transactions (indexs, caller, op, froma, toa, amount, fee, timestamp)
                values (?1, ?2, ?3, ?4, ?5, ?6, ?7, ?8)";

pub const TOKEN_INFO_TABLE: &'static str = "CREATE TABLE IF NOT EXISTS tokens (
                    id            INTEGER PRIMARY KEY,
                    canisterId    TEXT NOT NULL,
                    decimals      INTEGER NOT NULL,
                    fee           INTEGER NOT NULL,
                    indexs        INTEGER NOT NULL,
                    logo          TEXT NOT NULL,
                    name          TEXT NOT NULL,
                    owner         TEXT NOT NULL,
                    symbol        TEXT NOT NULL,
                    timestamp     INTEGER NOT NULL,
                    totalSupply   INTEGER NOT NULL
                )";

pub const TOKEN_INFO_INSERT: &'static str = "INSERT INTO tokens (canisterId, decimals, fee, indexs, logo, name, owner, symbol, timestamp, totalSupply)
                values (?1, ?2, ?3, ?4, ?5, ?6, ?7, ?8, ?9, ?10)";

pub const DSWAP_TX_TABLE: &'static str = "CREATE TABLE IF NOT EXISTS transactions (
                    id            INTEGER PRIMARY KEY,
                    caller        TEXT NOT NULL,
                    op            TEXT NOT NULL,
                    indexs        INTEGER NOT NULL,
                    token_id      TEXT NOT NULL,
                    froma          TEXT NOT NULL,
                    toa            TEXT NOT NULL,
                    amount        INTEGER NOT NULL,
                    amount0       INTEGER NOT NULL,
                    amount1       INTEGER NOT NULL,
                    timestamp     INTEGER NOT NULL
                )";

pub const DSWAP_TX_INSERT: &'static str = "INSERT INTO transactions (caller, op, indexs, token_id, froma, toa, amount, amount0, amount1, timestamp)
                values (?1, ?2, ?3, ?4, ?5, ?6, ?7, ?8, ?9, ?10)";

/// A transaction of a DSwap storage canister.
#[derive(Debug)]
pub struct DSwapTxRecord {
    pub index: u64,
    pub caller: String,
    pub op: DSwapOperation,
    pub token_id: String,
    pub from: String,
    pub to: String,
    pub amount: u64,
    pub amount0: u64,
    pub amount1: u64,
    pub timestamp: u64,
}

/// A transaction of a token canister. Principals are held by their bytes, `Nat`
/// values by their LEB128 bytes and `Int` values by their signed LEB128 bytes, as
/// candid writes them, so values of any size are kept.
#[derive(Debug)]
pub struct TokenTxRecord {
    pub index: Vec<u8>,
    pub caller: Option<Vec<u8>>,
    pub op: TokenOperation,
    pub from: Vec<u8>,
    pub to: Vec<u8>,
    pub amount: Vec<u8>,
    pub fee: Vec<u8>,
    pub timestamp: Vec<u8>,
}

/// A token listed by a token registry canister. Principals are held by their bytes,
/// `Nat` values by their LEB128 bytes and `Int` values by their signed LEB128 bytes,
/// as candid writes them.
#[allow(non_snake_case)]
#[derive(Debug)]
pub struct TokenInfo {
    pub canisterId: Vec<u8>,
    pub decimals: u8,
    pub fee: Vec<u8>,
    pub index: Vec<u8>,
    pub logo: String,
    pub name: String,
    pub owner: Vec<u8>,
    pub symbol: String,
    pub timestamp: Vec<u8>,
    pub totalSupply: Vec<u8>,
}

impl Database for TokenTxRecord {
    open spec fn row_ready(&self) -> bool {
        &&& (self.caller matches Some(c) ==> principal_bytes(c@))
        &&& principal_bytes(self.from@)
        &&& principal_bytes(self.to@)
        &&& leb128_form(self.index@)
        &&& leb128_form(self.amount@)
        &&& leb128_form(self.fee@)
        &&& leb128_form(self.timestamp@)
    }

    open spec fn init_command(&self) -> Seq<char> {
        TOKEN_TX_TABLE@
    }

    open spec fn insert_header(&self) -> Seq<char> {
        TOKEN_TX_INSERT@
    }

    /// Index, caller (`None` when there is none), operation, from, to, amount,
    /// fee and timestamp.
    open spec fn insert_values(&self) -> Seq<Seq<char>> {
        seq![
            nat_display(leb128_value(self.index@)),
            match self.caller {
                Some(c) => principal_text(c@),
                None => "None"@,
            },
            self.op.text(),
            principal_text(self.from@),
            principal_text(self.to@),
            nat_display(leb128_value(self.amount@)),
            nat_display(leb128_value(self.fee@)),
            int_display(sleb128_value(self.timestamp@)),
        ]
    }

    fn db_init_command(&self) -> (r: &str) {
        TOKEN_TX_TABLE
    }

    fn db_insert_header(&self) -> (r: &str) {
        TOKEN_TX_INSERT
    }

    /// The caller's column reads `None` exactly when there is no caller: a
    /// principal's text is never that word.
    fn db_insert_values(&self) -> (r: Vec<String>)
        ensures
            (r@[1]@ == "None"@) <==> self.caller is None,
    {
        proof {
            reveal_strlit("None");
        }
        let caller_or_none = match &self.caller {
            Some(c) => principal_to_text(c.as_slice()),
            None => String::from_str("None"),
        };
        let mut ret: Vec<String> = Vec::new();
        ret.push(nat_leb128_to_text(self.index.as_slice()));
        ret.push(caller_or_none);
        ret.push(self.op.to_text());
        ret.push(principal_to_text(self.from.as_slice()));
        ret.push(principal_to_text(self.to.as_slice()));
        ret.push(nat_leb128_to_text(self.amount.as_slice()));
        ret.push(nat_leb128_to_text(self.fee.as_slice()));
        ret.push(int_sleb128_to_text(self.timestamp.as_slice()));
        assert(ret@.map_values(|s: String| s@) =~= self.insert_values());
        ret
    }
}

impl Database for TokenInfo {
    open spec fn row_ready(&self) -> bool {
        &&& principal_bytes(self.canisterId@)
        &&& principal_bytes(self.owner@)
        &&& leb128_form(self.fee@)
        &&& leb128_form(self.index@)
        &&& leb128_form(self.timestamp@)
        &&& leb128_form(self.totalSupply@)
    }

    open spec fn init_command(&self) -> Seq<char> {
        TOKEN_INFO_TABLE@
    }

    open spec fn insert_header(&self) -> Seq<char> {
        TOKEN_INFO_INSERT@
    }

    /// Canister, decimals, fee, index, logo, name, owner, symbol, timestamp and
    /// total supply.
    open spec fn insert_values(&self) -> Seq<Seq<char>> {
        seq![
            principal_text(self.canisterId@),
            decimal(self.decimals as nat),
            nat_display(leb128_value(self.fee@)),
            nat_display(leb128_value(self.index@)),
            self.logo@,
            self.name@,
            principal_text(self.owner@),
            self.symbol@,
            int_display(sleb128_value(self.timestamp@)),
            nat_display(leb128_value(self.totalSupply@)),
        ]
    }

    fn db_init_command(&self) -> (r: &str) {
        TOKEN_INFO_TABLE
    }

    fn db_insert_header(&self) -> (r: &str) {
        TOKEN_INFO_INSERT
    }

    fn db_insert_values(&self) -> (r: Vec<String>) {
        let mut ret: Vec<String> = Vec::new();
        ret.push(principal_to_text(self.canisterId.as_slice()));
        ret.push(decimal_text(self.decimals as u64));
        ret.push(nat_leb128_to_text(self.fee.as_slice()));
        ret.push(nat_leb128_to_text(self.index.as_slice()));
        ret.push(self.logo.clone());
        ret.push(self.name.clone());
        ret.push(principal_to_text(self.owner.as_slice()));
        ret.push(self.symbol.clone());
        ret.push(int_sleb128_to_text(self.timestamp.as_slice()));
        ret.push(nat_leb128_to_text(self.totalSupply.as_slice()));
        assert(ret@.map_values(|s: String| s@) =~= self.insert_values());
        ret
    }
}

impl Database for DSwapTxRecord {
    open spec fn row_ready(&self) -> bool {
        true
    }

    open spec fn init_command(&self) -> Seq<char> {
        DSWAP_TX_TABLE@
    }

    open spec fn insert_header(&self) -> Seq<char> {
        DSWAP_TX_INSERT@
    }

    /// Caller, operation, index, token, from, to, the three amounts and timestamp.
    open spec fn insert_values(&self) -> Seq<Seq<char>> {
        seq![
            self.caller@,
            self.op.text(),
            decimal(self.index as nat),
            self.token_id@,
            self.from@,
            self.to@,
            decimal(self.amount as nat),
            decimal(self.amount0 as nat),
            decimal(self.amount1 as nat),
            decimal(self.timestamp as nat),
        ]
    }

    fn db_init_command(&self) -> (r: &str) {
        DSWAP_TX_TABLE
    }

    fn db_insert_header(&self) -> (r: &str) {
        DSWAP_TX_INSERT
    }

    fn db_insert_values(&self) -> (r: Vec<String>) {
        let mut ret: Vec<String> = Vec::new();
        ret.push(self.caller.clone());
        ret.push(self.op.to_text());
        ret.push(decimal_text(self.index));
        ret.push(self.token_id.clone());
        ret.push(self.from.clone());
        ret.push(self.to.clone());
        ret.push(decimal_text(self.amount));
        ret.push(decimal_text(self.amount0));
        ret.push(decimal_text(self.amount1));
        ret.push(decimal_text(self.timestamp));
        assert(ret@.map_values(|s: String| s@) =~= self.insert_values());
        ret
    }
}

/// Each column of a token transaction's row shows its own field, whatever the
/// operation and the caller: the index, the caller (`None` when there is none), the
/// operation's name, the principal the tokens came from, the one they went to, the
/// amount, the fee and the timestamp, in the order of the insert's columns. Every
/// number column, with candid's `_` separators left out, reads back as its field's
/// value.
pub proof fn lemma_token_tx_row(r: TokenTxRecord)
    ensures
        r.insert_values().len() == 8,
        r.insert_values()[0] == nat_display(leb128_value(r.index@)),
        r.caller is None ==> r.insert_values()[1] == "None"@,
        r.caller matches Some(c) ==> r.insert_values()[1] == principal_text(c@),
        r.insert_values()[2] == r.op.text(),
        r.insert_values()[3] == principal_text(r.from@),
        r.insert_values()[4] == principal_text(r.to@),
        r.insert_values()[5] == nat_display(leb128_value(r.amount@)),
        r.insert_values()[6] == nat_display(leb128_value(r.fee@)),
        r.insert_values()[7] == int_display(sleb128_value(r.timestamp@)),
        decimal_value(without_underscores(r.insert_values()[0])) == leb128_value(r.index@),
        decimal_value(without_underscores(r.insert_values()[5])) == leb128_value(r.amount@),
        decimal_value(without_underscores(r.insert_values()[6])) == leb128_value(r.fee@),
{
    lemma_nat_display_reads_back(leb128_value(r.index@));
    lemma_nat_display_reads_back(leb128_value(r.amount@));
    lemma_nat_display_reads_back(leb128_value(r.fee@));
}

/// Each column of a registry token's row shows its own field: the canister, the
/// decimals, the fee, the index, the logo, the name, the owner, the symbol, the
/// timestamp and the total supply, in the order of the insert's columns. Number
/// columns are never empty: a zero fee reads `0`, and every `Nat` column, with the
/// `_` separators left out, reads back as its field's value.
pub proof fn lemma_token_info_row(r: TokenInfo)
    ensures
        r.insert_values().len() == 10,
        r.insert_values()[0] == principal_text(r.canisterId@),
        r.insert_values()[1] == decimal(r.decimals as nat),
        r.insert_values()[2] == nat_display(leb128_value(r.fee@)),
        r.insert_values()[3] == nat_display(leb128_value(r.index@)),
        r.insert_values()[4] == r.logo@,
        r.insert_values()[5] == r.name@,
        r.insert_values()[6] == principal_text(r.owner@),
        r.insert_values()[7] == r.symbol@,
        r.insert_values()[8] == int_display(sleb128_value(r.timestamp@)),
        r.insert_values()[9] == nat_display(leb128_value(r.totalSupply@)),
        leb128_value(r.fee@) == 0 ==> r.insert_values()[2] == seq!['0'],
        decimal_value(r.insert_values()[1]) == r.decimals,
        decimal_value(without_underscores(r.insert_values()[2])) == leb128_value(r.fee@),
        decimal_value(without_underscores(r.insert_values()[3])) == leb128_value(r.index@),
        decimal_value(without_underscores(r.insert_values()[9])) == leb128_value(r.totalSupply@),
{
    lemma_decimal_value(r.decimals as nat);
    lemma_nat_display_reads_back(leb128_value(r.fee@));
    lemma_nat_display_reads_back(leb128_value(r.index@));
    lemma_nat_display_reads_back(leb128_value(r.totalSupply@));
}

/// Each column of a DSwap transaction's row shows its own field, whatever the
/// operation: the caller, the operation's name, the index, the token, from, to, the
/// amount, `amount0`, `amount1` and the timestamp, in the order of the insert's
/// columns; each number column reads back as its field's value.
pub proof fn lemma_dswap_tx_row(r: DSwapTxRecord)
    ensures
        r.insert_values().len() == 10,
        r.insert_values()[0] == r.caller@,
        r.insert_values()[1] == r.op.text(),
        r.insert_values()[3] == r.token_id@,
        r.insert_values()[4] == r.from@,
        r.insert_values()[5] == r.to@,
        decimal_value(r.insert_values()[2]) == r.index,
        decimal_value(r.insert_values()[6]) == r.amount,
        decimal_value(r.insert_values()[7]) == r.amount0,
        decimal_value(r.insert_values()[8]) == r.amount1,
        decimal_value(r.insert_values()[9]) == r.timestamp,
        r.insert_values()[7] == decimal(r.amount0 as nat),
        r.insert_values()[8] == decimal(r.amount1 as nat),
{
    lemma_decimal_value(r.index as nat);
    lemma_decimal_value(r.amount as nat);
    lemma_decimal_value(r.amount0 as nat);
    lemma_decimal_value(r.amount1 as nat);
    lemma_decimal_value(r.timestamp as nat);
}

} // verus!
