use vstd::prelude::*;
use crate::utils::db::{lemma_prepares_within, lemma_setup_prepares, prepares, create_table, create_view, setup_steps};
use crate::utils::steps::{append_steps, steps_view, DbStep, StepView};

verus! {

/// The steps that prepare the ledger table and its view.
pub open spec fn ledger_setup(clean: bool) -> Seq<StepView> {
    setup_steps(
        "TABLE"@,
        "Table"@,
        "transaction_history"@,
        "consolidation/sql/create_transaction_history.sql"@,
        clean,
    ) + setup_steps(
        "VIEW"@,
        "View"@,
        "transaction_view"@,
        "consolidation/sql/create_transaction_view.sql"@,
        clean,
    )
}

pub fn create_tables(clean: bool) -> (steps: Vec<DbStep>)
    ensures
        steps_view(steps@) == ledger_setup(clean),
{
    let mut steps = create_table(
        "transaction_history",
        "consolidation/sql/create_transaction_history.sql",
        clean,
    );
    append_steps(
        &mut steps,
        create_view("transaction_view", "consolidation/sql/create_transaction_view.sql", clean),
    );
    steps
}

/// The ledger setup prepares the ledger table and its view.
pub proof fn lemma_ledger_setup_prepares_table_and_view(clean: bool)
    ensures
        prepares(ledger_setup(clean), "TABLE"@, "Table"@, "transaction_history"@, "consolidation/sql/create_transaction_history.sql"@, clean),
        prepares(ledger_setup(clean), "VIEW"@, "View"@, "transaction_view"@, "consolidation/sql/create_transaction_view.sql"@, clean),
{
    let p0 = setup_steps("TABLE"@, "Table"@, "transaction_history"@, "consolidation/sql/create_transaction_history.sql"@, clean);
    let p1 = setup_steps("VIEW"@, "View"@, "transaction_view"@, "consolidation/sql/create_transaction_view.sql"@, clean);
    assert(ledger_setup(clean) == p0 + p1);
    lemma_setup_prepares("TABLE"@, "Table"@, "transaction_history"@, "consolidation/sql/create_transaction_history.sql"@, clean);
    lemma_prepares_within(p0, p1, "TABLE"@, "Table"@, "transaction_history"@, "consolidation/sql/create_transaction_history.sql"@, clean);
    lemma_setup_prepares("VIEW"@, "View"@, "transaction_view"@, "consolidation/sql/create_transaction_view.sql"@, clean);
    lemma_prepares_within(p1, p0, "VIEW"@, "View"@, "transaction_view"@, "consolidation/sql/create_transaction_view.sql"@, clean);
}

} // verus!
