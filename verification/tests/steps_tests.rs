use transaction_etl::consolidation;
use transaction_etl::input::{amazon_ohfd, common, money_forward, LoadTask};
use transaction_etl::utils::db::{create_table, create_view};
use transaction_etl::utils::etl::EtlStage;
use transaction_etl::utils::steps::{count_line, DbStep, Sql};

fn text(s: &Sql) -> (&'static str, String) {
    match s {
        Sql::Text(t) => ("text", t.clone()),
        Sql::Script(p) => ("script", p.clone()),
    }
}

fn describe(step: &DbStep) -> String {
    match step {
        DbStep::Execute(q) => format!("execute {:?}", text(q)),
        DbStep::ExecuteBatch(q) => format!("batch {:?}", text(q)),
        DbStep::PrintLine(l) => format!("print {}", l),
        DbStep::PrintCount(q, l) => format!("count {:?} {}", text(q), l),
        DbStep::ShowQuery(q, c) => format!("show {:?} {:?}", text(q), c),
        DbStep::QueryExists(q) => format!("exists {:?}", text(q)),
        DbStep::Confirm => "confirm".to_string(),
    }
}

#[test]
fn create_table_steps() {
    let steps: Vec<String> = create_table("t", "dir/create_t.sql", true).iter().map(describe).collect();
    assert_eq!(steps, vec![
        "execute (\"text\", \"DROP TABLE IF EXISTS t;\")".to_string(),
        "batch (\"script\", \"dir/create_t.sql\")".to_string(),
        "print Table 't' created successfully.".to_string(),
    ]);
    let steps: Vec<String> = create_view("v", "dir/create_v.sql", false).iter().map(describe).collect();
    assert_eq!(steps, vec![
        "batch (\"script\", \"dir/create_v.sql\")".to_string(),
        "print View 'v' created successfully.".to_string(),
    ]);
}

#[test]
fn clean_setup_is_drops_added_to_plain_setup() {
    for (clean, plain) in [
        (common::create_tables(true), common::create_tables(false)),
        (money_forward::create_tables(true), money_forward::create_tables(false)),
        (amazon_ohfd::create_tables(true), amazon_ohfd::create_tables(false)),
        (consolidation::create_tables(true), consolidation::create_tables(false)),
    ] {
        let clean: Vec<String> = clean.iter().map(describe).collect();
        let plain: Vec<String> = plain.iter().map(describe).collect();
        let kept: Vec<String> = clean.iter().filter(|s| !s.contains("DROP ")).cloned().collect();
        assert_eq!(kept, plain);
        assert_eq!(clean.len(), plain.len() * 3 / 2);
    }
}

#[test]
fn ledger_setup() {
    let steps: Vec<String> = consolidation::create_tables(false).iter().map(describe).collect();
    assert_eq!(steps, vec![
        "batch (\"script\", \"consolidation/sql/create_transaction_history.sql\")".to_string(),
        "print Table 'transaction_history' created successfully.".to_string(),
        "batch (\"script\", \"consolidation/sql/create_transaction_view.sql\")".to_string(),
        "print View 'transaction_view' created successfully.".to_string(),
    ]);
    assert_eq!(money_forward::create_tables(false).len(), 8);
}

#[test]
fn summaries() {
    let steps = consolidation::print_summary();
    assert_eq!(steps.len(), 3);
    assert_eq!(
        describe(&steps[0]),
        "count (\"text\", \"SELECT COUNT(*) FROM transaction_history\") transaction_history total records: "
    );
    assert_eq!(describe(&steps[1]), "print transaction_history first 10 records:");
    match &steps[2] {
        DbStep::ShowQuery(Sql::Text(q), cols) => {
            assert_eq!(q, "SELECT * FROM transaction_history LIMIT 10;");
            assert_eq!(cols.len(), 10);
            assert_eq!(cols[4], ("摘要".to_string(), 30));
            assert_eq!(cols[9], ("メモ".to_string(), 30));
        },
        other => panic!("{:?}", other),
    }
    let steps = money_forward::print::print_mf_transaction_summary();
    match &steps[2] {
        DbStep::ShowQuery(Sql::Text(q), cols) => {
            assert_eq!(q, "SELECT * FROM mf_transaction LIMIT 10;");
            assert_eq!(cols[3], ("内容".to_string(), 30));
            assert_eq!(cols[9], ("振替".to_string(), 0));
        },
        other => panic!("{:?}", other),
    }
    assert_eq!(count_line("total: ", -12), "total: -12");
}

#[test]
fn load_task_lists() {
    let tasks = common::load_files();
    assert!(matches!(&tasks[..], [LoadTask::ChannelGroups(p)] if p == "data/input/channel-groups.yaml"));
    let tasks = money_forward::load_files();
    assert_eq!(tasks.len(), 4);
    assert!(matches!(&tasks[0], LoadTask::MfTransactions(p) if p == "data/input/money-forward/transactions/"));
    assert!(matches!(&tasks[3], LoadTask::MfCategorizationRules(_)));
    let tasks = amazon_ohfd::load_files();
    assert_eq!(tasks.len(), 4);
    assert!(matches!(&tasks[0], LoadTask::AmazonOrders(_)));
}

fn run(replies: &[bool]) -> (EtlStage, Vec<String>) {
    let mut stage = EtlStage::Start;
    let mut all = Vec::new();
    for &r in replies {
        let (next, steps) = money_forward::transform_transactions(stage, r);
        all.extend(steps.iter().map(describe));
        stage = next;
    }
    (stage, all)
}

#[test]
fn etl_without_findings_transfers_without_asking() {
    let (stage, steps) = run(&[false, false, false, false]);
    assert_eq!(stage, EtlStage::Done(true));
    assert_eq!(steps.len(), 6);
    assert!(steps[0].starts_with("exists"));
    assert!(steps[1].contains("create_tmp_categorized_mf_transaction.sql"));
    assert!(steps[2].contains("categorize_mf_transaction.sql"));
    assert!(steps[4].contains("insert_categorized_mf_transaction_to_transaction_history.sql"));
    assert_eq!(steps[5], "print Successfully transferred MF records to transaction_history.");
    assert!(!steps.iter().any(|s| s == "confirm"));
}

#[test]
fn etl_with_unknown_channels_asks_and_skips_categorization() {
    let (stage, steps) = run(&[false, true, true, false]);
    assert_eq!(stage, EtlStage::Done(true));
    assert!(steps.iter().any(|s| s == "confirm"));
    assert!(!steps.iter().any(|s| s.contains("categorize_mf_transaction.sql")));
    assert!(steps.iter().any(|s| s.contains("insert_categorized")));
    let (stage, steps) = run(&[false, true, false, true]);
    assert_eq!(stage, EtlStage::Done(false));
    assert!(!steps.iter().any(|s| s.contains("insert_categorized")));
    assert_eq!(steps.last().unwrap(), "print Cancelled transferring MF records to transaction_history.");
}

#[test]
fn etl_with_uncategorized_records_asks() {
    let (stage, steps) = run(&[false, false, true, false]);
    assert_eq!(stage, EtlStage::Done(false));
    assert!(steps.iter().any(|s| s == "confirm"));
    let (stage, _) = run(&[false, false, true, true]);
    assert_eq!(stage, EtlStage::Done(true));
}

#[test]
fn etl_done_is_final() {
    for b in [true, false] {
        let (next, steps) = amazon_ohfd::transform_transactions(EtlStage::Done(b), true);
        assert_eq!(next, EtlStage::Done(b));
        assert!(steps.is_empty());
    }
    let (next, steps) = amazon_ohfd::transform_transactions(EtlStage::Start, true);
    assert_eq!(next, EtlStage::AwaitUnknownCheck);
    assert!(matches!(&steps[..], [DbStep::QueryExists(Sql::Script(p))] if p.ends_with(".sql")));
}
