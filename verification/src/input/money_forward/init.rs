use vstd::prelude::*;
use crate::utils::db::{lemma_prepares_within, lemma_setup_prepares, prepares, create_table, setup_steps};
use crate::utils::steps::{append_steps, steps_view, DbStep, StepView};

verus! {

/// The steps that prepare the Money Forward tables.
pub open spec fn mf_setup(clean: bool) -> Seq<StepView> {
    setup_steps(
        "TABLE"@,
        "Table"@,
        "mf_transaction"@,
        "input/money_forward/sql/create_mf_transaction.sql"@,
        clean,
    ) + setup_steps(
        "TABLE"@,
        "Table"@,
        "mapping_mf_financial_institution_to_channel"@,
        "input/money_forward/sql/create_mapping_mf_financial_institution_to_channel.sql"@,
        clean,
    ) + setup_steps(
        "TABLE"@,
        "Table"@,
        "mf_transaction_manual_categorization"@,
        "input/money_forward/sql/create_mf_transaction_manual_categorization.sql"@,
        clean,
    ) + setup_steps(
        "TABLE"@,
        "Table"@,
        "mf_transaction_categorization_rule"@,
        "input/money_forward/sql/create_mf_transaction_categorization_rule.sql"@,
        clean,
    )
}

pub fn create_tables(clean: bool) -> (steps: Vec<DbStep>)
    ensures
        steps_view(steps@) == mf_setup(clean),
{
    let mut steps = create_table(
        "mf_transaction",
        "input/money_forward/sql/create_mf_transaction.sql",
        clean,
    );
    append_steps(
        &mut steps,
        create_table(
            "mapping_mf_financial_institution_to_channel",
            "input/money_forward/sql/create_mapping_mf_financial_institution_to_channel.sql",
            clean,
        ),
    );
    append_steps(
        &mut steps,
        create_table(
            "mf_transaction_manual_categorization",
            "input/money_forward/sql/create_mf_transaction_manual_categorization.sql",
            clean,
        ),
    );
    append_steps(
        &mut steps,
        create_table(
            "mf_transaction_categorization_rule",
            "input/money_forward/sql/create_mf_transaction_categorization_rule.sql",
            clean,
        ),
    );
    steps
}

/// The Money Forward setup prepares every table that its loaders fill: the
/// transactions, the institution-to-channel map, the manual
/// categorizations and the rules.
pub proof fn lemma_mf_setup_prepares_every_table(clean: bool)
    ensures
        prepares(mf_setup(clean), "TABLE"@, "Table"@, "mf_transaction"@, "input/money_forward/sql/create_mf_transaction.sql"@, clean),
        prepares(mf_setup(clean), "TABLE"@, "Table"@, "mapping_mf_financial_institution_to_channel"@, "input/money_forward/sql/create_mapping_mf_financial_institution_to_channel.sql"@, clean),
        prepares(mf_setup(clean), "TABLE"@, "Table"@, "mf_transaction_manual_categorization"@, "input/money_forward/sql/create_mf_transaction_manual_categorization.sql"@, clean),
        prepares(mf_setup(clean), "TABLE"@, "Table"@, "mf_transaction_categorization_rule"@, "input/money_forward/sql/create_mf_transaction_categorization_rule.sql"@, clean),
{
    let p0 = setup_steps("TABLE"@, "Table"@, "mf_transaction"@, "input/money_forward/sql/create_mf_transaction.sql"@, clean);
    let p1 = setup_steps("TABLE"@, "Table"@, "mapping_mf_financial_institution_to_channel"@, "input/money_forward/sql/create_mapping_mf_financial_institution_to_channel.sql"@, clean);
    let p2 = setup_steps("TABLE"@, "Table"@, "mf_transaction_manual_categorization"@, "input/money_forward/sql/create_mf_transaction_manual_categorization.sql"@, clean);
    let p3 = setup_steps("TABLE"@, "Table"@, "mf_transaction_categorization_rule"@, "input/money_forward/sql/create_mf_transaction_categorization_rule.sql"@, clean);
    assert(mf_setup(clean) == p0 + p1 + p2 + p3);
    lemma_setup_prepares("TABLE"@, "Table"@, "mf_transaction"@, "input/money_forward/sql/create_mf_transaction.sql"@, clean);
    lemma_prepares_within(p0, p1, "TABLE"@, "Table"@, "mf_transaction"@, "input/money_forward/sql/create_mf_transaction.sql"@, clean);
    lemma_prepares_within(p0 + p1, p2, "TABLE"@, "Table"@, "mf_transaction"@, "input/money_forward/sql/create_mf_transaction.sql"@, clean);
    lemma_prepares_within(p0 + p1 + p2, p3, "TABLE"@, "Table"@, "mf_transaction"@, "input/money_forward/sql/create_mf_transaction.sql"@, clean);
    lemma_setup_prepares("TABLE"@, "Table"@, "mapping_mf_financial_institution_to_channel"@, "input/money_forward/sql/create_mapping_mf_financial_institution_to_channel.sql"@, clean);
    lemma_prepares_within(p1, p0, "TABLE"@, "Table"@, "mapping_mf_financial_institution_to_channel"@, "input/money_forward/sql/create_mapping_mf_financial_institution_to_channel.sql"@, clean);
    lemma_prepares_within(p0 + p1, p2, "TABLE"@, "Table"@, "mapping_mf_financial_institution_to_channel"@, "input/money_forward/sql/create_mapping_mf_financial_institution_to_channel.sql"@, clean);
    lemma_prepares_within(p0 + p1 + p2, p3, "TABLE"@, "Table"@, "mapping_mf_financial_institution_to_channel"@, "input/money_forward/sql/create_mapping_mf_financial_institution_to_channel.sql"@, clean);
    lemma_setup_prepares("TABLE"@, "Table"@, "mf_transaction_manual_categorization"@, "input/money_forward/sql/create_mf_transaction_manual_categorization.sql"@, clean);
    lemma_prepares_within(p2, p0 + p1, "TABLE"@, "Table"@, "mf_transaction_manual_categorization"@, "input/money_forward/sql/create_mf_transaction_manual_categorization.sql"@, clean);
    lemma_prepares_within(p0 + p1 + p2, p3, "TABLE"@, "Table"@, "mf_transaction_manual_categorization"@, "input/money_forward/sql/create_mf_transaction_manual_categorization.sql"@, clean);
    lemma_setup_prepares("TABLE"@, "Table"@, "mf_transaction_categorization_rule"@, "input/money_forward/sql/create_mf_transaction_categorization_rule.sql"@, clean);
    lemma_prepares_within(p3, p0 + p1 + p2, "TABLE"@, "Table"@, "mf_transaction_categorization_rule"@, "input/money_forward/sql/create_mf_transaction_categorization_rule.sql"@, clean);
}

} // verus!
