use vstd::prelude::*;
use crate::utils::etl::{
    asks_confirmation, config_view, etl_outcome, etl_run, etl_turn, etl_turn_spec,
    lemma_etl_follows_the_database, lemma_etl_run_outcome, etl_run_on, runs_script, EtlConfig, EtlConfigView, EtlStage,
};
use crate::utils::steps::{columns_of, steps_view, DbStep, SqlView};

verus! {

/// Scripts, messages and columns of the transfer of Money Forward records.
pub open spec fn mf_etl_config() -> EtlConfigView {
    EtlConfigView {
        unknown_query: "input/money_forward/sql/select_mf_unknown_financial_institutions.sql"@,
        unknown_message: "下記の金融機関は channel がマッピングされていないため、処理対象外となります。"@,
        unknown_columns: seq![("[保有金融機関]"@, 0usize)],
        tmp_table_script: "input/money_forward/sql/create_tmp_categorized_mf_transaction.sql"@,
        categorize_script: "input/money_forward/sql/categorize_mf_transaction.sql"@,
        uncategorized_query: "input/money_forward/sql/select_uncategorized_mf_transaction.sql"@,
        uncategorized_message: "下記の明細が分類できませんでした:"@,
        uncategorized_columns: seq![
            ("id"@, 0usize),
            ("計算対象"@, 0usize),
            ("日付"@, 0usize),
            ("内容"@, 20usize),
            ("金額"@, 0usize),
            ("保有金融機関"@, 0usize),
            ("大項目"@, 0usize),
            ("中項目"@, 0usize),
            ("メモ"@, 0usize),
            ("振替"@, 0usize),
            ("MF ID"@, 0usize),
        ],
        insert_script: "input/money_forward/sql/insert_categorized_mf_transaction_to_transaction_history.sql"@,
        success_message: "Successfully transferred MF records to transaction_history."@,
        cancel_message: "Cancelled transferring MF records to transaction_history."@,
    }
}

fn config() -> (c: EtlConfig)
    ensures
        config_view(c) == mf_etl_config(),
{
    let unknown_columns = columns_of(&["[保有金融機関]"], &[0]);
    let uncategorized_columns = columns_of(
        &["id", "計算対象", "日付", "内容", "金額", "保有金融機関", "大項目", "中項目", "メモ", "振替", "MF ID"],
        &[0, 0, 0, 20, 0, 0, 0, 0, 0, 0, 0],
    );
    let c = EtlConfig {
        unknown_query: "input/money_forward/sql/select_mf_unknown_financial_institutions.sql".to_string(),
        unknown_message: "下記の金融機関は channel がマッピングされていないため、処理対象外となります。".to_string(),
        unknown_columns,
        tmp_table_script: "input/money_forward/sql/create_tmp_categorized_mf_transaction.sql".to_string(),
        categorize_script: "input/money_forward/sql/categorize_mf_transaction.sql".to_string(),
        uncategorized_query: "input/money_forward/sql/select_uncategorized_mf_transaction.sql".to_string(),
        uncategorized_message: "下記の明細が分類できませんでした:".to_string(),
        uncategorized_columns,
        insert_script: "input/money_forward/sql/insert_categorized_mf_transaction_to_transaction_history.sql".to_string(),
        success_message: "Successfully transferred MF records to transaction_history.".to_string(),
        cancel_message: "Cancelled transferring MF records to transaction_history.".to_string(),
    };
    assert(config_view(c).unknown_columns =~= mf_etl_config().unknown_columns);
    assert(config_view(c).uncategorized_columns =~= mf_etl_config().uncategorized_columns);
    c
}

/// One turn of the transfer of Money Forward records to the ledger.
pub fn etl_mf_transaction_to_transaction_history(stage: EtlStage, reply: bool) -> (r: (
    EtlStage,
    Vec<DbStep>,
))
    ensures
        (r.0, steps_view(r.1@)) == etl_turn_spec(mf_etl_config(), stage, reply),
{
    etl_turn(config(), stage, reply)
}

/// The transfer of Money Forward records, from its start, on any four or more replies:
/// it ends, transferring exactly as `etl_outcome` says and running the
/// insertion script exactly then; it asks for confirmation exactly when
/// something was found; with unknown channels it never categorizes.
pub proof fn lemma_mf_etl_outcome(replies: Seq<bool>)
    requires
        replies.len() >= 4,
    ensures
        ({
            let (stage, steps) = etl_run(mf_etl_config(), EtlStage::Start, replies);
            let transferred = etl_outcome(replies[1], replies[2], replies[3]);
            &&& stage == EtlStage::Done(transferred)
            &&& runs_script(steps, mf_etl_config().insert_script) == transferred
            &&& asks_confirmation(steps) == (replies[1] || replies[2])
            &&& (replies[1] ==> !runs_script(steps, mf_etl_config().categorize_script))
        }),
{
    reveal_strlit("input/money_forward/sql/create_tmp_categorized_mf_transaction.sql");
    reveal_strlit("input/money_forward/sql/categorize_mf_transaction.sql");
    reveal_strlit("input/money_forward/sql/insert_categorized_mf_transaction_to_transaction_history.sql");
    assert(mf_etl_config().insert_script.len() != mf_etl_config().tmp_table_script.len());
    assert(mf_etl_config().insert_script.len() != mf_etl_config().categorize_script.len());
    lemma_etl_run_outcome(mf_etl_config(), replies);
}

/// The transfer of Money Forward records against a database, in four turns
/// from its start: with transactions of unknown financial institutions
/// (`select_mf_unknown_financial_institutions.sql` returns rows) the user is
/// asked and nothing is categorized; with none but uncategorized
/// transactions (`select_uncategorized_mf_transaction.sql` returns rows) the
/// user is asked after categorizing; with neither the records are
/// transferred without asking. The insertion script runs exactly when the
/// records are transferred.
pub proof fn lemma_mf_etl_follows_the_database(has_rows: spec_fn(SqlView) -> bool, confirm: bool)
    ensures
        ({
            let (stage, steps) = etl_run_on(mf_etl_config(), EtlStage::Start, false, has_rows, confirm, 4);
            let unknown = has_rows(SqlView::Script("input/money_forward/sql/select_mf_unknown_financial_institutions.sql"@));
            let uncategorized = has_rows(SqlView::Script("input/money_forward/sql/select_uncategorized_mf_transaction.sql"@));
            &&& stage is Done
            &&& runs_script(steps, "input/money_forward/sql/insert_categorized_mf_transaction_to_transaction_history.sql"@) == (stage == EtlStage::Done(true))
            &&& unknown ==> asks_confirmation(steps) && stage == EtlStage::Done(confirm)
                && !runs_script(steps, "input/money_forward/sql/categorize_mf_transaction.sql"@)
            &&& !unknown && uncategorized ==> asks_confirmation(steps) && stage == EtlStage::Done(
                confirm,
            ) && runs_script(steps, "input/money_forward/sql/categorize_mf_transaction.sql"@)
            &&& !unknown && !uncategorized ==> !asks_confirmation(steps) && stage == EtlStage::Done(
                true,
            )
        }),
{
    reveal_strlit("input/money_forward/sql/create_tmp_categorized_mf_transaction.sql");
    reveal_strlit("input/money_forward/sql/categorize_mf_transaction.sql");
    reveal_strlit("input/money_forward/sql/insert_categorized_mf_transaction_to_transaction_history.sql");
    assert(mf_etl_config().insert_script.len() != mf_etl_config().tmp_table_script.len());
    assert(mf_etl_config().insert_script.len() != mf_etl_config().categorize_script.len());
    lemma_etl_follows_the_database(mf_etl_config(), has_rows, confirm);
}

} // verus!
