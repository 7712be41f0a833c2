use vstd::prelude::*;
use crate::utils::steps::{columns_of, steps_view, DbStep, Sql, SqlView, StepView};

verus! {

/// The steps that print the ledger's summary: its number of records, then
/// its first ten records as a table.
pub open spec fn ledger_summary() -> Seq<StepView> {
    seq![
        StepView::PrintCount(
            SqlView::Text("SELECT COUNT(*) FROM transaction_history"@),
            "transaction_history total records: "@,
        ),
        StepView::PrintLine("transaction_history first 10 records:"@),
        StepView::ShowQuery(
            SqlView::Text("SELECT * FROM transaction_history LIMIT 10;"@),
            seq![
                ("ID"@, 0usize),
                ("年"@, 0usize),
                ("月"@, 0usize),
                ("日付"@, 0usize),
                ("摘要"@, 30usize),
                ("金額"@, 0usize),
                ("チャネル"@, 0usize),
                ("カテゴリー"@, 0usize),
                ("サブカテゴリー"@, 0usize),
                ("メモ"@, 30usize),
            ],
        ),
    ]
}

pub fn print_transaction_summary() -> (steps: Vec<DbStep>)
    ensures
        steps_view(steps@) == ledger_summary(),
{
    let columns = columns_of(
        &["ID", "年", "月", "日付", "摘要", "金額", "チャネル", "カテゴリー", "サブカテゴリー", "メモ"],
        &[0, 0, 0, 0, 30, 0, 0, 0, 0, 30],
    );
    assert(crate::utils::steps::columns_view(columns@) =~= seq![
        ("ID"@, 0usize),
        ("年"@, 0usize),
        ("月"@, 0usize),
        ("日付"@, 0usize),
        ("摘要"@, 30usize),
        ("金額"@, 0usize),
        ("チャネル"@, 0usize),
        ("カテゴリー"@, 0usize),
        ("サブカテゴリー"@, 0usize),
        ("メモ"@, 30usize),
    ]);
    let mut steps: Vec<DbStep> = Vec::new();
    steps.push(
        DbStep::PrintCount(
            Sql::Text("SELECT COUNT(*) FROM transaction_history".to_string()),
            "transaction_history total records: ".to_string(),
        ),
    );
    steps.push(DbStep::PrintLine("transaction_history first 10 records:".to_string()));
    steps.push(
        DbStep::ShowQuery(Sql::Text("SELECT * FROM transaction_history LIMIT 10;".to_string()), columns),
    );
    assert(steps_view(steps@) =~= ledger_summary());
    steps
}

} // verus!
