//! How each record's statements line up: the insert names the table that the
//! creation makes, lists that table's columns (all but the `id` key) in order, with
//! one placeholder per column, and each row holds one value per column.

use vstd::prelude::*;
use crate::text::decimal;
use crate::types::{
    DSwapTxRecord, Database, TokenInfo, TokenTxRecord, DSWAP_TX_INSERT, DSWAP_TX_TABLE,
    TOKEN_INFO_INSERT, TOKEN_INFO_TABLE, TOKEN_TX_INSERT, TOKEN_TX_TABLE,
};

verus! {

/// The column names, separated by `, `.
pub open spec fn column_list(cols: Seq<Seq<char>>) -> Seq<char>
    decreases cols.len(),
{
    if cols.len() == 0 {
        Seq::empty()
    } else if cols.len() == 1 {
        cols[0]
    } else {
        column_list(cols.drop_last()) + ", "@ + cols.last()
    }
}

/// The placeholders `?1` to `?n`, separated by `, `.
pub open spec fn placeholders(n: nat) -> Seq<char>
    decreases n,
{
    if n == 0 {
        Seq::empty()
    } else if n == 1 {
        "?1"@
    } else {
        placeholders((n - 1) as nat) + ", ?"@ + decimal(n)
    }
}

/// An insertion into `table` of one value per column of `cols`, in order.
pub open spec fn insert_statement(table: Seq<char>, cols: Seq<Seq<char>>) -> Seq<char> {
    "INSERT INTO "@ + table + " ("@ + column_list(cols) + ")\n                values ("@
        + placeholders(cols.len()) + ")"@
}

/// The column definitions, one indented line each (name, then padding and type),
/// separated by `,` and a line break.
pub open spec fn column_lines(defs: Seq<(Seq<char>, Seq<char>)>) -> Seq<char>
    decreases defs.len(),
{
    if defs.len() == 0 {
        Seq::empty()
    } else if defs.len() == 1 {
        "                    "@ + defs[0].0 + defs[0].1
    } else {
        column_lines(defs.drop_last()) + ",\n"@ + "                    "@ + defs.last().0
            + defs.last().1
    }
}

/// The creation of `table`, unless it exists, with the columns `defs`.
pub open spec fn create_statement(table: Seq<char>, defs: Seq<(Seq<char>, Seq<char>)>) -> Seq<char> {
    "CREATE TABLE IF NOT EXISTS "@ + table + " (\n"@ + column_lines(defs) + "\n                )"@
}

/// A creation and an insert line up on `table` and the columns `defs`: the creation
/// makes `table` with `defs`, the first of which is the `id` key, and the insert
/// fills `table`'s other columns, in the order of `defs`, one placeholder each.
pub open spec fn statements_line_up(
    init: Seq<char>,
    header: Seq<char>,
    table: Seq<char>,
    defs: Seq<(Seq<char>, Seq<char>)>,
) -> bool {
    &&& defs.len() >= 1
    &&& defs[0].0 == "id"@
    &&& init == create_statement(table, defs)
    &&& header == insert_statement(table, defs.drop_first().map_values(|c: (Seq<char>, Seq<char>)| c.0))
}

/// The columns of the `transactions` table that TokenTxRecord rows go to, each with the padding
/// and type that follow its name, the `id` key first.
pub open spec fn token_tx_columns() -> Seq<(Seq<char>, Seq<char>)> {
    seq![
        ("id"@, "            INTEGER PRIMARY KEY"@),
        ("indexs"@, "        INTEGER NOT NULL"@),
        ("caller"@, "        TEXT NOT NULL"@),
        ("op"@, "            TEXT NOT NULL"@),
        ("froma"@, "         TEXT NOT NULL"@),
        ("toa"@, "           TEXT NOT NULL"@),
        ("amount"@, "        INTEGER NOT NULL"@),
        ("fee"@, "           INTEGER NOT NULL"@),
        ("timestamp"@, "     INTEGER NOT NULL"@),
    ]
}

/// A TokenTxRecord creates the `transactions` table with its `id` key and then the columns its
/// insert fills, in the same order, one placeholder and one row value per column.
pub proof fn lemma_token_tx_statements(r: TokenTxRecord)
    ensures
        statements_line_up(r.init_command(), r.insert_header(), "transactions"@, token_tx_columns()),
        r.insert_values().len() == token_tx_columns().len() - 1,
{
    reveal_strlit("CREATE TABLE IF NOT EXISTS transactions (
                    id            INTEGER PRIMARY KEY,
                    indexs        INTEGER NOT NULL,
                    caller        TEXT NOT NULL,
                    op            TEXT NOT NULL,
                    froma         TEXT NOT NULL,
                    toa           TEXT NOT NULL,
                    amount        INTEGER NOT NULL,
                    fee           INTEGER NOT NULL,
                    timestamp     INTEGER NOT NULL
                )");
    reveal_strlit("INSERT INTO transactions (indexs, caller, op, froma, toa, amount, fee, timestamp)
                values (?1, ?2, ?3, ?4, ?5, ?6, ?7, ?8)");
    reveal_strlit("transactions");
    reveal_strlit("            INTEGER PRIMARY KEY");
    reveal_strlit("            TEXT NOT NULL");
    reveal_strlit("           INTEGER NOT NULL");
    reveal_strlit("           TEXT NOT NULL");
    reveal_strlit("         TEXT NOT NULL");
    reveal_strlit("        INTEGER NOT NULL");
    reveal_strlit("        TEXT NOT NULL");
    reveal_strlit("     INTEGER NOT NULL");
    reveal_strlit("amount");
    reveal_strlit("caller");
    reveal_strlit("fee");
    reveal_strlit("froma");
    reveal_strlit("id");
    reveal_strlit("indexs");
    reveal_strlit("op");
    reveal_strlit("timestamp");
    reveal_strlit("toa");
    reveal_strlit("INSERT INTO ");
    reveal_strlit(" (");
    reveal_strlit(")\n                values (");
    reveal_strlit(")");
    reveal_strlit(", ");
    reveal_strlit(", ?");
    reveal_strlit("?1");
    reveal_strlit("CREATE TABLE IF NOT EXISTS ");
    reveal_strlit(" (\n");
    reveal_strlit("\n                )");
    reveal_strlit(",\n");
    reveal_strlit("                    ");
    reveal_with_fuel(column_list, 10);
    reveal_with_fuel(placeholders, 10);
    reveal_with_fuel(column_lines, 10);
    reveal_with_fuel(decimal, 2);
    assert(TOKEN_TX_TABLE@ =~= create_statement("transactions"@, token_tx_columns()));
    assert(token_tx_columns().drop_first().map_values(|c: (Seq<char>, Seq<char>)| c.0) =~= seq!["indexs"@, "caller"@, "op"@, "froma"@, "toa"@, "amount"@, "fee"@, "timestamp"@]);
    assert(TOKEN_TX_INSERT@ =~= insert_statement("transactions"@, token_tx_columns().drop_first().map_values(|c: (Seq<char>, Seq<char>)| c.0)));
}

/// The columns of the `tokens` table that TokenInfo rows go to, each with the padding
/// and type that follow its name, the `id` key first.
pub open spec fn token_info_columns() -> Seq<(Seq<char>, Seq<char>)> {
    seq![
        ("id"@, "            INTEGER PRIMARY KEY"@),
        ("canisterId"@, "    TEXT NOT NULL"@),
        ("decimals"@, "      INTEGER NOT NULL"@),
        ("fee"@, "           INTEGER NOT NULL"@),
        ("indexs"@, "        INTEGER NOT NULL"@),
        ("logo"@, "          TEXT NOT NULL"@),
        ("name"@, "          TEXT NOT NULL"@),
        ("owner"@, "         TEXT NOT NULL"@),
        ("symbol"@, "        TEXT NOT NULL"@),
        ("timestamp"@, "     INTEGER NOT NULL"@),
        ("totalSupply"@, "   INTEGER NOT NULL"@),
    ]
}

/// A TokenInfo creates the `tokens` table with its `id` key and then the columns its
/// insert fills, in the same order, one placeholder and one row value per column.
pub proof fn lemma_token_info_statements(r: TokenInfo)
    ensures
        statements_line_up(r.init_command(), r.insert_header(), "tokens"@, token_info_columns()),
        r.insert_values().len() == token_info_columns().len() - 1,
{
    reveal_strlit("CREATE TABLE IF NOT EXISTS tokens (
                    id            INTEGER PRIMARY KEY,
                    canisterId    TEXT NOT NULL,
                    decimals      INTEGER NOT NULL,
                    fee           INTEGER NOT NULL,
                    indexs        INTEGER NOT NULL,
                    logo          TEXT NOT NULL,
                    name          TEXT NOT NULL,
                    owner         TEXT NOT NULL,
                    symbol        TEXT NOT NULL,
                    timestamp     INTEGER NOT NULL,
                    totalSupply   INTEGER NOT NULL
                )");
    reveal_strlit("INSERT INTO tokens (canisterId, decimals, fee, indexs, logo, name, owner, symbol, timestamp, totalSupply)
                values (?1, ?2, ?3, ?4, ?5, ?6, ?7, ?8, ?9, ?10)");
    reveal_strlit("tokens");
    reveal_strlit("            INTEGER PRIMARY KEY");
    reveal_strlit("           INTEGER NOT NULL");
    reveal_strlit("          TEXT NOT NULL");
    reveal_strlit("         TEXT NOT NULL");
    reveal_strlit("        INTEGER NOT NULL");
    reveal_strlit("        TEXT NOT NULL");
    reveal_strlit("      INTEGER NOT NULL");
    reveal_strlit("     INTEGER NOT NULL");
    reveal_strlit("    TEXT NOT NULL");
    reveal_strlit("   INTEGER NOT NULL");
    reveal_strlit("canisterId");
    reveal_strlit("decimals");
    reveal_strlit("fee");
    reveal_strlit("id");
    reveal_strlit("indexs");
    reveal_strlit("logo");
    reveal_strlit("name");
    reveal_strlit("owner");
    reveal_strlit("symbol");
    reveal_strlit("timestamp");
    reveal_strlit("totalSupply");
    reveal_strlit("INSERT INTO ");
    reveal_strlit(" (");
    reveal_strlit(")\n                values (");
    reveal_strlit(")");
    reveal_strlit(", ");
    reveal_strlit(", ?");
    reveal_strlit("?1");
    reveal_strlit("CREATE TABLE IF NOT EXISTS ");
    reveal_strlit(" (\n");
    reveal_strlit("\n                )");
    reveal_strlit(",\n");
    reveal_strlit("                    ");
    reveal_with_fuel(column_list, 12);
    reveal_with_fuel(placeholders, 12);
    reveal_with_fuel(column_lines, 12);
    reveal_with_fuel(decimal, 2);
    assert(TOKEN_INFO_TABLE@ =~= create_statement("tokens"@, token_info_columns()));
    assert(token_info_columns().drop_first().map_values(|c: (Seq<char>, Seq<char>)| c.0) =~= seq!["canisterId"@, "decimals"@, "fee"@, "indexs"@, "logo"@, "name"@, "owner"@, "symbol"@, "timestamp"@, "totalSupply"@]);
    assert(TOKEN_INFO_INSERT@ =~= insert_statement("tokens"@, token_info_columns().drop_first().map_values(|c: (Seq<char>, Seq<char>)| c.0)));
}

/// The columns of the `transactions` table that DSwapTxRecord rows go to, each with the padding
/// and type that follow its name, the `id` key first.
pub open spec fn dswap_tx_columns() -> Seq<(Seq<char>, Seq<char>)> {
    seq![
        ("id"@, "            INTEGER PRIMARY KEY"@),
        ("caller"@, "        TEXT NOT NULL"@),
        ("op"@, "            TEXT NOT NULL"@),
        ("indexs"@, "        INTEGER NOT NULL"@),
        ("token_id"@, "      TEXT NOT NULL"@),
        ("froma"@, "          TEXT NOT NULL"@),
        ("toa"@, "            TEXT NOT NULL"@),
        ("amount"@, "        INTEGER NOT NULL"@),
        ("amount0"@, "       INTEGER NOT NULL"@),
        ("amount1"@, "       INTEGER NOT NULL"@),
        ("timestamp"@, "     INTEGER NOT NULL"@),
    ]
}

/// A DSwapTxRecord creates the `transactions` table with its `id` key and then the columns its
/// insert fills, in the same order, one placeholder and one row value per column.
pub proof fn lemma_dswap_tx_statements(r: DSwapTxRecord)
    ensures
        statements_line_up(r.init_command(), r.insert_header(), "transactions"@, dswap_tx_columns()),
        r.insert_values().len() == dswap_tx_columns().len() - 1,
{
    reveal_strlit("CREATE TABLE IF NOT EXISTS transactions (
                    id            INTEGER PRIMARY KEY,
                    caller        TEXT NOT NULL,
                    op            TEXT NOT NULL,
                    indexs        INTEGER NOT NULL,
                    token_id      TEXT NOT NULL,
                    froma          TEXT NOT NULL,
                    toa            TEXT NOT NULL,
                    amount        INTEGER NOT NULL,
                    amount0       INTEGER NOT NULL,
                    amount1       INTEGER NOT NULL,
                    timestamp     INTEGER NOT NULL
                )");
    reveal_strlit("INSERT INTO transactions (caller, op, indexs, token_id, froma, toa, amount, amount0, amount1, timestamp)
                values (?1, ?2, ?3, ?4, ?5, ?6, ?7, ?8, ?9, ?10)");
    reveal_strlit("transactions");
    reveal_strlit("            INTEGER PRIMARY KEY");
    reveal_strlit("            TEXT NOT NULL");
    reveal_strlit("          TEXT NOT NULL");
    reveal_strlit("        INTEGER NOT NULL");
    reveal_strlit("        TEXT NOT NULL");
    reveal_strlit("       INTEGER NOT NULL");
    reveal_strlit("      TEXT NOT NULL");
    reveal_strlit("     INTEGER NOT NULL");
    reveal_strlit("amount");
    reveal_strlit("amount0");
    reveal_strlit("amount1");
    reveal_strlit("caller");
    reveal_strlit("froma");
    reveal_strlit("id");
    reveal_strlit("indexs");
    reveal_strlit("op");
    reveal_strlit("timestamp");
    reveal_strlit("toa");
    reveal_strlit("token_id");
    reveal_strlit("INSERT INTO ");
    reveal_strlit(" (");
    reveal_strlit(")\n                values (");
    reveal_strlit(")");
    reveal_strlit(", ");
    reveal_strlit(", ?");
    reveal_strlit("?1");
    reveal_strlit("CREATE TABLE IF NOT EXISTS ");
    reveal_strlit(" (\n");
    reveal_strlit("\n                )");
    reveal_strlit(",\n");
    reveal_strlit("                    ");
    reveal_with_fuel(column_list, 12);
    reveal_with_fuel(placeholders, 12);
    reveal_with_fuel(column_lines, 12);
    reveal_with_fuel(decimal, 2);
    assert(DSWAP_TX_TABLE@ =~= create_statement("transactions"@, dswap_tx_columns()));
    assert(dswap_tx_columns().drop_first().map_values(|c: (Seq<char>, Seq<char>)| c.0) =~= seq!["caller"@, "op"@, "indexs"@, "token_id"@, "froma"@, "toa"@, "amount"@, "amount0"@, "amount1"@, "timestamp"@]);
    assert(DSWAP_TX_INSERT@ =~= insert_statement("transactions"@, dswap_tx_columns().drop_first().map_values(|c: (Seq<char>, Seq<char>)| c.0)));
}

} // verus!
