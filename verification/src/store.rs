//! What a batch of records writes to its database.

use vstd::prelude::*;
use vstd::string::StringExecFns;
use crate::types::Database;

verus! {

/// One statement to execute, with the text of each of its parameters.
pub struct DbStatement {
    pub sql: String,
    pub params: Vec<String>,
}

/// A statement as text, with its parameters as texts.
pub struct StatementView {
    pub sql: Seq<char>,
    pub params: Seq<Seq<char>>,
}

impl View for DbStatement {
    type V = StatementView;

    open spec fn view(&self) -> StatementView {
        StatementView { sql: self.sql@, params: self.params@.map_values(|s: String| s@) }
    }
}

/// The statements that writing `data` executes, in order: nothing for no records;
/// otherwise the first record's table creation, without parameters, then one
/// insertion per record with that record's values.
pub open spec fn write_plan<T: Database>(data: Seq<T>) -> Seq<StatementView> {
    if data.len() == 0 {
        Seq::empty()
    } else {
        seq![StatementView { sql: data[0].init_command(), params: Seq::empty() }]
            + Seq::new(
            data.len(),
            |i: int| StatementView { sql: data[i].insert_header(), params: data[i].insert_values() },
        )
    }
}

/// Every record of `data` can be turned into a row.
pub open spec fn rows_ready<T: Database>(data: Seq<T>) -> bool {
    forall|i: int| 0 <= i < data.len() ==> #[trigger] data[i].row_ready()
}

/// The statements that save a batch of records; the database work itself is left
/// to the caller, which runs them in order on one connection.
pub fn db_write_plan<T: Database>(data: &Vec<T>) -> (plan: Vec<DbStatement>)
    requires
        rows_ready(data@),
    ensures
        plan@.map_values(|s: DbStatement| s@) == write_plan(data@),
{
    let mut plan: Vec<DbStatement> = Vec::new();
    if data.len() < 1 {
        assert(plan@.map_values(|s: DbStatement| s@) =~= write_plan(data@));
        return plan;
    }
    let init = String::from_str(data[0].db_init_command());
    let no_params: Vec<String> = Vec::new();
    assert(no_params@.map_values(|s: String| s@) =~= Seq::<Seq<char>>::empty());
    plan.push(DbStatement { sql: init, params: no_params });
    let ghost first = StatementView { sql: data@[0].init_command(), params: Seq::empty() };
    for i in 0..data.len()
        invariant
            rows_ready(data@),
            plan@.len() == i + 1,
            plan@[0]@ == first,
            forall|j: int|
                0 <= j < i ==> #[trigger] plan@[j + 1]@ == (StatementView {
                    sql: data@[j].insert_header(),
                    params: data@[j].insert_values(),
                }),
    {
        assert(data@[i as int].row_ready());
        let sql = String::from_str(data[i].db_insert_header());
        let params = data[i].db_insert_values();
        plan.push(DbStatement { sql, params });
    }
    let ghost spec_plan = write_plan(data@);
    assert forall|k: int| 1 <= k < plan@.len() implies plan@[k]@ == spec_plan[k] by {
        assert(plan@[(k - 1) + 1]@ == spec_plan[k]);
    }
    assert(plan@.map_values(|s: DbStatement| s@) =~= spec_plan);
    plan
}

/// Saving a batch creates the table once, before anything else, and then inserts
/// exactly one row per record, in the order of the records, with that record's
/// values; an empty batch writes nothing.
pub proof fn lemma_one_row_per_record<T: Database>(data: Seq<T>)
    ensures
        data.len() == 0 ==> write_plan(data).len() == 0,
        data.len() > 0 ==> {
            &&& write_plan(data).len() == data.len() + 1
            &&& write_plan(data)[0].sql == data[0].init_command()
            &&& write_plan(data)[0].params.len() == 0
            &&& forall|i: int|
                0 <= i < data.len() ==> #[trigger] write_plan(data)[i + 1].sql
                    == data[i].insert_header() && write_plan(data)[i + 1].params
                    == data[i].insert_values()
        },
{
}

} // verus!
