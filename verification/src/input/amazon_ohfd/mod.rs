//! Amazon order history (digital) exports and the tables that categorize them.

pub mod init;
pub mod load;
pub mod transform;

use vstd::prelude::*;
use crate::input::{tasks_view, LoadTask, LoadTaskView};
use crate::utils::etl::{etl_turn_spec, EtlStage};
use crate::utils::steps::{steps_view, DbStep};

verus! {

/// The steps that prepare the tables of this input (see `init::amazon_setup`).
pub fn create_tables(clean: bool) -> (steps: Vec<DbStep>)
    ensures
        steps_view(steps@) == init::amazon_setup(clean),
{
    init::create_tables(clean)
}

/// The loaders of this input, in order: the order exports, the
/// credit-card-to-channel map, the manual categorizations, the rules.
pub open spec fn amazon_load_tasks() -> Seq<LoadTaskView> {
    seq![
        LoadTaskView::AmazonOrders("data/input/amazon-ohfd/transactions/"@),
        LoadTaskView::AmazonCreditCardChannels(
            "data/input/amazon-ohfd/channel-mapping-from-credit-card.yaml"@,
        ),
        LoadTaskView::AmazonManualCategorization(
            "data/input/amazon-ohfd/transaction-manual-categorization.yaml"@,
        ),
        LoadTaskView::AmazonCategorizationRules(
            "data/input/amazon-ohfd/transaction-categorization-rules/"@,
        ),
    ]
}

/// The loaders of this input (see `amazon_load_tasks`).
pub fn load_files() -> (tasks: Vec<LoadTask>)
    ensures
        tasks_view(tasks@) == amazon_load_tasks(),
{
    let mut tasks: Vec<LoadTask> = Vec::new();
    tasks.push(LoadTask::AmazonOrders("data/input/amazon-ohfd/transactions/".to_string()));
    tasks.push(
        LoadTask::AmazonCreditCardChannels(
            "data/input/amazon-ohfd/channel-mapping-from-credit-card.yaml".to_string(),
        ),
    );
    tasks.push(
        LoadTask::AmazonManualCategorization(
            "data/input/amazon-ohfd/transaction-manual-categorization.yaml".to_string(),
        ),
    );
    tasks.push(
        LoadTask::AmazonCategorizationRules(
            "data/input/amazon-ohfd/transaction-categorization-rules/".to_string(),
        ),
    );
    assert(tasks_view(tasks@) =~= amazon_load_tasks());
    tasks
}

/// One turn of the transfer of this input's records to the ledger (see
/// `transform::amazon_etl_config` and `etl_turn_spec`).
pub fn transform_transactions(stage: EtlStage, reply: bool) -> (r: (EtlStage, Vec<DbStep>))
    ensures
        (r.0, steps_view(r.1@)) == etl_turn_spec(transform::amazon_etl_config(), stage, reply),
{
    transform::etl_amazon_ohfd_to_transaction_history(stage, reply)
}

} // verus!
