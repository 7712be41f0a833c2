//! Money Forward transaction exports and the tables that categorize them.

pub mod init;
pub mod load;
pub mod print;
pub mod transform;

use vstd::prelude::*;
use crate::input::{tasks_view, LoadTask, LoadTaskView};
use crate::utils::etl::{etl_turn_spec, EtlStage};
use crate::utils::steps::{steps_view, DbStep};

verus! {

/// The steps that prepare the tables of this input (see `init::mf_setup`).
pub fn create_tables(clean: bool) -> (steps: Vec<DbStep>)
    ensures
        steps_view(steps@) == init::mf_setup(clean),
{
    init::create_tables(clean)
}

/// The loaders of this input, in order: the transaction exports, the
/// institution-to-channel map, the manual categorizations, the rules.
pub open spec fn mf_load_tasks() -> Seq<LoadTaskView> {
    seq![
        LoadTaskView::MfTransactions("data/input/money-forward/transactions/"@),
        LoadTaskView::MfInstitutionChannels(
            "data/input/money-forward/channel-mapping-from-financial-institution.yaml"@,
        ),
        LoadTaskView::MfManualCategorization(
            "data/input/money-forward/transaction-manual-categorization.yaml"@,
        ),
        LoadTaskView::MfCategorizationRules(
            "data/input/money-forward//transaction-categorization-rules/"@,
        ),
    ]
}

/// The loaders of this input (see `mf_load_tasks`).
pub fn load_files() -> (tasks: Vec<LoadTask>)
    ensures
        tasks_view(tasks@) == mf_load_tasks(),
{
    let mut tasks: Vec<LoadTask> = Vec::new();
    tasks.push(LoadTask::MfTransactions("data/input/money-forward/transactions/".to_string()));
    tasks.push(
        LoadTask::MfInstitutionChannels(
            "data/input/money-forward/channel-mapping-from-financial-institution.yaml".to_string(),
        ),
    );
    tasks.push(
        LoadTask::MfManualCategorization(
            "data/input/money-forward/transaction-manual-categorization.yaml".to_string(),
        ),
    );
    tasks.push(
        LoadTask::MfCategorizationRules(
            "data/input/money-forward//transaction-categorization-rules/".to_string(),
        ),
    );
    assert(tasks_view(tasks@) =~= mf_load_tasks());
    tasks
}

/// One turn of the transfer of this input's records to the ledger (see
/// `transform::mf_etl_config` and `etl_turn_spec`).
pub fn transform_transactions(stage: EtlStage, reply: bool) -> (r: (EtlStage, Vec<DbStep>))
    ensures
        (r.0, steps_view(r.1@)) == etl_turn_spec(transform::mf_etl_config(), stage, reply),
{
    transform::etl_mf_transaction_to_transaction_history(stage, reply)
}

} // verus!
