use vstd::prelude::*;
use crate::utils::db::{lemma_prepares_within, lemma_setup_prepares, prepares, create_table, setup_steps};
use crate::utils::steps::{append_steps, steps_view, DbStep, StepView};

verus! {

/// The steps that prepare the Amazon order history tables.
pub open spec fn amazon_setup(clean: bool) -> Seq<StepView> {
    setup_steps(
        "TABLE"@,
        "Table"@,
        "amazon_ohfd"@,
        "input/amazon_ohfd/sql/create_amazon_ohfd.sql"@,
        clean,
    ) + setup_steps(
        "TABLE"@,
        "Table"@,
        "mapping_amazon_ohfd_credit_card_to_channel"@,
        "input/amazon_ohfd/sql/create_mapping_amazon_ohfd_credit_card_to_channel.sql"@,
        clean,
    ) + setup_steps(
        "TABLE"@,
        "Table"@,
        "amazon_ohfd_manual_categorization"@,
        "input/amazon_ohfd/sql/create_amazon_ohfd_manual_categorization.sql"@,
        clean,
    ) + setup_steps(
        "TABLE"@,
        "Table"@,
        "amazon_ohfd_categorization_rule"@,
        "input/amazon_ohfd/sql/create_amazon_ohfd_categorization_rule.sql"@,
        clean,
    )
}

pub fn create_tables(clean: bool) -> (steps: Vec<DbStep>)
    ensures
        steps_view(steps@) == amazon_setup(clean),
{
    let mut steps = create_table(
        "amazon_ohfd",
        "input/amazon_ohfd/sql/create_amazon_ohfd.sql",
        clean,
    );
    append_steps(
        &mut steps,
        create_table(
            "mapping_amazon_ohfd_credit_card_to_channel",
            "input/amazon_ohfd/sql/create_mapping_amazon_ohfd_credit_card_to_channel.sql",
            clean,
        ),
    );
    append_steps(
        &mut steps,
        create_table(
            "amazon_ohfd_manual_categorization",
            "input/amazon_ohfd/sql/create_amazon_ohfd_manual_categorization.sql",
            clean,
        ),
    );
    append_steps(
        &mut steps,
        create_table(
            "amazon_ohfd_categorization_rule",
            "input/amazon_ohfd/sql/create_amazon_ohfd_categorization_rule.sql",
            clean,
        ),
    );
    steps
}

/// The Amazon setup prepares every table that its loaders fill: the orders,
/// the credit-card-to-channel map, the manual categorizations and the rules.
pub proof fn lemma_amazon_setup_prepares_every_table(clean: bool)
    ensures
        prepares(amazon_setup(clean), "TABLE"@, "Table"@, "amazon_ohfd"@, "input/amazon_ohfd/sql/create_amazon_ohfd.sql"@, clean),
        prepares(amazon_setup(clean), "TABLE"@, "Table"@, "mapping_amazon_ohfd_credit_card_to_channel"@, "input/amazon_ohfd/sql/create_mapping_amazon_ohfd_credit_card_to_channel.sql"@, clean),
        prepares(amazon_setup(clean), "TABLE"@, "Table"@, "amazon_ohfd_manual_categorization"@, "input/amazon_ohfd/sql/create_amazon_ohfd_manual_categorization.sql"@, clean),
        prepares(amazon_setup(clean), "TABLE"@, "Table"@, "amazon_ohfd_categorization_rule"@, "input/amazon_ohfd/sql/create_amazon_ohfd_categorization_rule.sql"@, clean),
{
    let p0 = setup_steps("TABLE"@, "Table"@, "amazon_ohfd"@, "input/amazon_ohfd/sql/create_amazon_ohfd.sql"@, clean);
    let p1 = setup_steps("TABLE"@, "Table"@, "mapping_amazon_ohfd_credit_card_to_channel"@, "input/amazon_ohfd/sql/create_mapping_amazon_ohfd_credit_card_to_channel.sql"@, clean);
    let p2 = setup_steps("TABLE"@, "Table"@, "amazon_ohfd_manual_categorization"@, "input/amazon_ohfd/sql/create_amazon_ohfd_manual_categorization.sql"@, clean);
    let p3 = setup_steps("TABLE"@, "Table"@, "amazon_ohfd_categorization_rule"@, "input/amazon_ohfd/sql/create_amazon_ohfd_categorization_rule.sql"@, clean);
    assert(amazon_setup(clean) == p0 + p1 + p2 + p3);
    lemma_setup_prepares("TABLE"@, "Table"@, "amazon_ohfd"@, "input/amazon_ohfd/sql/create_amazon_ohfd.sql"@, clean);
    lemma_prepares_within(p0, p1, "TABLE"@, "Table"@, "amazon_ohfd"@, "input/amazon_ohfd/sql/create_amazon_ohfd.sql"@, clean);
    lemma_prepares_within(p0 + p1, p2, "TABLE"@, "Table"@, "amazon_ohfd"@, "input/amazon_ohfd/sql/create_amazon_ohfd.sql"@, clean);
    lemma_prepares_within(p0 + p1 + p2, p3, "TABLE"@, "Table"@, "amazon_ohfd"@, "input/amazon_ohfd/sql/create_amazon_ohfd.sql"@, clean);
    lemma_setup_prepares("TABLE"@, "Table"@, "mapping_amazon_ohfd_credit_card_to_channel"@, "input/amazon_ohfd/sql/create_mapping_amazon_ohfd_credit_card_to_channel.sql"@, clean);
    lemma_prepares_within(p1, p0, "TABLE"@, "Table"@, "mapping_amazon_ohfd_credit_card_to_channel"@, "input/amazon_ohfd/sql/create_mapping_amazon_ohfd_credit_card_to_channel.sql"@, clean);
    lemma_prepares_within(p0 + p1, p2, "TABLE"@, "Table"@, "mapping_amazon_ohfd_credit_card_to_channel"@, "input/amazon_ohfd/sql/create_mapping_amazon_ohfd_credit_card_to_channel.sql"@, clean);
    lemma_prepares_within(p0 + p1 + p2, p3, "TABLE"@, "Table"@, "mapping_amazon_ohfd_credit_card_to_channel"@, "input/amazon_ohfd/sql/create_mapping_amazon_ohfd_credit_card_to_channel.sql"@, clean);
    lemma_setup_prepares("TABLE"@, "Table"@, "amazon_ohfd_manual_categorization"@, "input/amazon_ohfd/sql/create_amazon_ohfd_manual_categorization.sql"@, clean);
    lemma_prepares_within(p2, p0 + p1, "TABLE"@, "Table"@, "amazon_ohfd_manual_categorization"@, "input/amazon_ohfd/sql/create_amazon_ohfd_manual_categorization.sql"@, clean);
    lemma_prepares_within(p0 + p1 + p2, p3, "TABLE"@, "Table"@, "amazon_ohfd_manual_categorization"@, "input/amazon_ohfd/sql/create_amazon_ohfd_manual_categorization.sql"@, clean);
    lemma_setup_prepares("TABLE"@, "Table"@, "amazon_ohfd_categorization_rule"@, "input/amazon_ohfd/sql/create_amazon_ohfd_categorization_rule.sql"@, clean);
    lemma_prepares_within(p3, p0 + p1 + p2, "TABLE"@, "Table"@, "amazon_ohfd_categorization_rule"@, "input/amazon_ohfd/sql/create_amazon_ohfd_categorization_rule.sql"@, clean);
}

} // verus!
