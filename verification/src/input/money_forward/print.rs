use vstd::prelude::*;
use crate::utils::steps::{columns_of, steps_view, DbStep, Sql, SqlView, StepView};

verus! {

/// The steps that print the summary of the imported Money Forward
/// transactions: their number, then the first ten of them as a table.
pub open spec fn mf_summary() -> Seq<StepView> {
    seq![
        StepView::PrintCount(
            SqlView::Text("SELECT COUNT(*) FROM mf_transaction"@),
            "mf_transaction total records: "@,
        ),
        StepView::PrintLine("mf_transaction first 10 records:"@),
        StepView::ShowQuery(
            SqlView::Text("SELECT * FROM mf_transaction LIMIT 10;"@),
            seq![
                ("ID"@, 0usize),
                ("計算対象"@, 0usize),
                ("日付"@, 0usize),
                ("内容"@, 30usize),
                ("金額"@, 0usize),
                ("金融機関"@, 0usize),
                ("大項目"@, 0usize),
                ("中項目"@, 0usize),
                ("メモ"@, 30usize),
                ("振替"@, 0usize),
            ],
        ),
    ]
}

/// The steps that print the summary of the imported Money Forward transactions.
pub fn print_mf_transaction_summary() -> (steps: Vec<DbStep>)
    ensures
        steps_view(steps@) == mf_summary(),
{
    let columns = columns_of(
        &["ID", "計算対象", "日付", "内容", "金額", "金融機関", "大項目", "中項目", "メモ", "振替"],
        &[0, 0, 0, 30, 0, 0, 0, 0, 30, 0],
    );
    assert(crate::utils::steps::columns_view(columns@) =~= seq![
        ("ID"@, 0usize),
        ("計算対象"@, 0usize),
        ("日付"@, 0usize),
        ("内容"@, 30usize),
        ("金額"@, 0usize),
        ("金融機関"@, 0usize),
        ("大項目"@, 0usize),
        ("中項目"@, 0usize),
        ("メモ"@, 30usize),
        ("振替"@, 0usize),
    ]);
    let mut steps: Vec<DbStep> = Vec::new();
    steps.push(
        DbStep::PrintCount(
            Sql::Text("SELECT COUNT(*) FROM mf_transaction".to_string()),
            "mf_transaction total records: ".to_string(),
        ),
    );
    steps.push(DbStep::PrintLine("mf_transaction first 10 records:".to_string()));
    steps.push(
        DbStep::ShowQuery(Sql::Text("SELECT * FROM mf_transaction LIMIT 10;".to_string()), columns),
    );
    assert(steps_view(steps@) =~= mf_summary());
    steps
}

} // verus!
