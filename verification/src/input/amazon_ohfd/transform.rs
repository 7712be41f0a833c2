use vstd::prelude::*;
use crate::utils::etl::{
    asks_confirmation, config_view, etl_outcome, etl_run, etl_turn, etl_turn_spec,
    lemma_etl_follows_the_database, lemma_etl_run_outcome, etl_run_on, runs_script, EtlConfig, EtlConfigView, EtlStage,
};
use crate::utils::steps::{columns_of, steps_view, DbStep, SqlView};

verus! {

/// Scripts, messages and columns of the transfer of Amazon orders.
pub open spec fn amazon_etl_config() -> EtlConfigView {
    EtlConfigView {
        unknown_query: "input/amazon_ohfd/sql/select_amazon_ohfd_unknown_credit_card.sql"@,
        unknown_message: "下記のクレカ種類は channel がマッピングされていないため、処理対象外となります。"@,
        unknown_columns: seq![("[保有金融機関]"@, 0usize)],
        tmp_table_script: "input/amazon_ohfd/sql/create_tmp_categorized_amazon_ohfd.sql"@,
        categorize_script: "input/amazon_ohfd/sql/categorize_amazon_ohfd.sql"@,
        uncategorized_query: "input/amazon_ohfd/sql/select_uncategorized_amazon_ohfd.sql"@,
        uncategorized_message: "下記の明細が分類できませんでした:"@,
        uncategorized_columns: seq![
            ("注文日"@, 0usize),
            ("注文番号"@, 0usize),
            ("商品名"@, 0usize),
            ("付帯情報"@, 0usize),
            ("金額"@, 0usize),
            ("クレカ種類"@, 0usize),
        ],
        insert_script: "input/amazon_ohfd/sql/insert_categorized_amazon_ohfd_to_transaction_history.sql"@,
        success_message: "Successfully transferred Amazon Order History Filter records to transaction_history."@,
        cancel_message: "Cancelled transferring Amazon Order History Filter records to transaction_history."@,
    }
}

fn config() -> (c: EtlConfig)
    ensures
        config_view(c) == amazon_etl_config(),
{
    let unknown_columns = columns_of(&["[保有金融機関]"], &[0]);
    let uncategorized_columns = columns_of(
        &["注文日", "注文番号", "商品名", "付帯情報", "金額", "クレカ種類"],
        &[0, 0, 0, 0, 0, 0],
    );
    let c = EtlConfig {
        unknown_query: "input/amazon_ohfd/sql/select_amazon_ohfd_unknown_credit_card.sql".to_string(),
        unknown_message: "下記のクレカ種類は channel がマッピングされていないため、処理対象外となります。".to_string(),
        unknown_columns,
        tmp_table_script: "input/amazon_ohfd/sql/create_tmp_categorized_amazon_ohfd.sql".to_string(),
        categorize_script: "input/amazon_ohfd/sql/categorize_amazon_ohfd.sql".to_string(),
        uncategorized_query: "input/amazon_ohfd/sql/select_uncategorized_amazon_ohfd.sql".to_string(),
        uncategorized_message: "下記の明細が分類できませんでした:".to_string(),
        uncategorized_columns,
        insert_script: "input/amazon_ohfd/sql/insert_categorized_amazon_ohfd_to_transaction_history.sql".to_string(),
        success_message: "Successfully transferred Amazon Order History Filter records to transaction_history.".to_string(),
        cancel_message: "Cancelled transferring Amazon Order History Filter records to transaction_history.".to_string(),
    };
    assert(config_view(c).unknown_columns =~= amazon_etl_config().unknown_columns);
    assert(config_view(c).uncategorized_columns =~= amazon_etl_config().uncategorized_columns);
    c
}

/// One turn of the transfer of Amazon orders to the ledger.
pub fn etl_amazon_ohfd_to_transaction_history(stage: EtlStage, reply: bool) -> (r: (
    EtlStage,
    Vec<DbStep>,
))
    ensures
        (r.0, steps_view(r.1@)) == etl_turn_spec(amazon_etl_config(), stage, reply),
{
    etl_turn(config(), stage, reply)
}

/// The transfer of Amazon order-history records, from its start, on any four or more replies:
/// it ends, transferring exactly as `etl_outcome` says and running the
/// insertion script exactly then; it asks for confirmation exactly when
/// something was found; with unknown channels it never categorizes.
pub proof fn lemma_amazon_etl_outcome(replies: Seq<bool>)
    requires
        replies.len() >= 4,
    ensures
        ({
            let (stage, steps) = etl_run(amazon_etl_config(), EtlStage::Start, replies);
            let transferred = etl_outcome(replies[1], replies[2], replies[3]);
            &&& stage == EtlStage::Done(transferred)
            &&& runs_script(steps, amazon_etl_config().insert_script) == transferred
            &&& asks_confirmation(steps) == (replies[1] || replies[2])
            &&& (replies[1] ==> !runs_script(steps, amazon_etl_config().categorize_script))
        }),
{
    reveal_strlit("input/amazon_ohfd/sql/create_tmp_categorized_amazon_ohfd.sql");
    reveal_strlit("input/amazon_ohfd/sql/categorize_amazon_ohfd.sql");
    reveal_strlit("input/amazon_ohfd/sql/insert_categorized_amazon_ohfd_to_transaction_history.sql");
    assert(amazon_etl_config().insert_script.len() != amazon_etl_config().tmp_table_script.len());
    assert(amazon_etl_config().insert_script.len() != amazon_etl_config().categorize_script.len());
    lemma_etl_run_outcome(amazon_etl_config(), replies);
}

/// The transfer of Amazon orders against a database, in four turns from its
/// start: with orders of unknown credit card
/// (`select_amazon_ohfd_unknown_credit_card.sql` returns rows) the user is
/// asked and nothing is categorized; with none but uncategorized orders
/// (`select_uncategorized_amazon_ohfd.sql` returns rows) the user is asked
/// after categorizing; with neither the orders are transferred without
/// asking. The insertion script runs exactly when the orders are
/// transferred.
pub proof fn lemma_amazon_etl_follows_the_database(has_rows: spec_fn(SqlView) -> bool, confirm: bool)
    ensures
        ({
            let (stage, steps) = etl_run_on(amazon_etl_config(), EtlStage::Start, false, has_rows, confirm, 4);
            let unknown = has_rows(SqlView::Script("input/amazon_ohfd/sql/select_amazon_ohfd_unknown_credit_card.sql"@));
            let uncategorized = has_rows(SqlView::Script("input/amazon_ohfd/sql/select_uncategorized_amazon_ohfd.sql"@));
            &&& stage is Done
            &&& runs_script(steps, "input/amazon_ohfd/sql/insert_categorized_amazon_ohfd_to_transaction_history.sql"@) == (stage == EtlStage::Done(true))
            &&& unknown ==> asks_confirmation(steps) && stage == EtlStage::Done(confirm)
                && !runs_script(steps, "input/amazon_ohfd/sql/categorize_amazon_ohfd.sql"@)
            &&& !unknown && uncategorized ==> asks_confirmation(steps) && stage == EtlStage::Done(
                confirm,
            ) && runs_script(steps, "input/amazon_ohfd/sql/categorize_amazon_ohfd.sql"@)
            &&& !unknown && !uncategorized ==> !asks_confirmation(steps) && stage == EtlStage::Done(
                true,
            )
        }),
{
    reveal_strlit("input/amazon_ohfd/sql/create_tmp_categorized_amazon_ohfd.sql");
    reveal_strlit("input/amazon_ohfd/sql/categorize_amazon_ohfd.sql");
    reveal_strlit("input/amazon_ohfd/sql/insert_categorized_amazon_ohfd_to_transaction_history.sql");
    assert(amazon_etl_config().insert_script.len() != amazon_etl_config().tmp_table_script.len());
    assert(amazon_etl_config().insert_script.len() != amazon_etl_config().categorize_script.len());
    lemma_etl_follows_the_database(amazon_etl_config(), has_rows, confirm);
}

} // verus!
