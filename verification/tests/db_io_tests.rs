use std::io::Write;
use transaction_etl::error::DbError;
use transaction_etl::utils::db::{db_value_to_string, format_row, render_select_query, DbValue};
use transaction_etl::utils::io::{confirm_answer, list_files_with_extensions, render_table};

fn aligned(text: &str) -> String {
    let mut tw = tabwriter::TabWriter::new(Vec::new());
    tw.write_all(text.as_bytes()).unwrap();
    tw.flush().unwrap();
    String::from_utf8(tw.into_inner().unwrap()).unwrap()
}

fn strings(v: &[&str]) -> Vec<String> {
    v.iter().map(|s| s.to_string()).collect()
}

#[test]
fn value_texts() {
    assert_eq!(db_value_to_string(&DbValue::Null), "[NULL]");
    assert_eq!(db_value_to_string(&DbValue::Blob), "[BLOB]");
    assert_eq!(db_value_to_string(&DbValue::Integer(-42)), "-42");
    assert_eq!(db_value_to_string(&DbValue::Real(1.5f64.to_string())), "1.5");
    assert_eq!(db_value_to_string(&DbValue::Text("テキスト".to_string())), "テキスト");
}

#[test]
fn rows_are_cut_per_column() {
    let values = vec![DbValue::Text("hello".to_string()), DbValue::Text("world!".to_string())];
    let cells = format_row(&values, &vec![0, 3]).unwrap();
    assert_eq!(cells, strings(&["hello", "wor..."]));
    let cells = format_row(&values, &vec![2]).unwrap();
    assert_eq!(cells, strings(&["he..."]));
    match format_row(&values, &vec![0, 0, 0]) {
        Err(e) => {
            assert!(matches!(e, DbError::Sqlite(_)));
            assert_eq!(
                e.message(),
                format!("SQLite Error: {}", rusqlite::Error::InvalidColumnIndex(2))
            );
        },
        Ok(c) => panic!("{:?}", c),
    }
}

#[test]
fn tables_are_aligned() {
    let t = render_table(&strings(&["a", "bb"]), &vec![strings(&["ccc", "d"])]);
    assert_eq!(t, "\na    bb\nccc  d\n\n");
    assert_eq!(t, format!("\n{}\n", aligned("a\tbb\nccc\td\n")));
    let t = render_table(&vec![], &vec![vec![], strings(&["x"])]);
    assert_eq!(t, "\nx\n\n");
}

#[test]
fn query_rows_as_table() {
    let rows = vec![
        vec![DbValue::Integer(1), DbValue::Text("日本語テキスト".to_string())],
        vec![DbValue::Integer(22), DbValue::Null],
    ];
    let columns = vec![("ID".to_string(), 0), ("内容".to_string(), 4)];
    let t = render_select_query(&rows, &columns).unwrap();
    assert_eq!(t, format!("\n{}\n", aligned("ID\t内容\n1\t日本...\n22\t[NUL...\n")));
    let short = vec![vec![DbValue::Integer(1)]];
    assert!(matches!(render_select_query(&short, &columns), Err(DbError::Sqlite(_))));
}

#[test]
fn files_with_listed_extensions_in_name_order() {
    let names = strings(&["b.CSV", "a.csv", "c.txt", "noext", ".csv", "d.Csv", "x.yaml", "y.yml", "archive.csv.bak"]);
    assert_eq!(list_files_with_extensions(&names, &["csv"]), strings(&["a.csv", "b.CSV", "d.Csv"]));
    assert_eq!(list_files_with_extensions(&names, &["yaml", "yml"]), strings(&["x.yaml", "y.yml"]));
    assert!(list_files_with_extensions(&names, &[]).is_empty());
    assert!(list_files_with_extensions(&vec![], &["csv"]).is_empty());
}

#[test]
fn listing_is_sorted_and_complete() {
    let names = strings(&["z.csv", "m.csv", "m.csv", "A.csv", "k.txt", "é.csv"]);
    let out = list_files_with_extensions(&names, &["csv"]);
    assert_eq!(out, strings(&["A.csv", "m.csv", "m.csv", "z.csv", "é.csv"]));
    assert!(out.windows(2).all(|w| w[0] <= w[1]));
}

#[test]
fn confirmation_answers() {
    assert_eq!(confirm_answer("y\n"), Some(true));
    assert_eq!(confirm_answer("  n \r\n"), Some(false));
    assert_eq!(confirm_answer("\u{3000}y\u{3000}"), Some(true));
    assert_eq!(confirm_answer("yes\n"), None);
    assert_eq!(confirm_answer("Y\n"), None);
    assert_eq!(confirm_answer("\n"), None);
    assert_eq!(confirm_answer(""), None);
}

#[test]
fn error_messages() {
    assert_eq!(DbError::Other("x".to_string()).message(), "Error: x");
    let io = std::io::Error::new(std::io::ErrorKind::Other, "boom");
    assert_eq!(DbError::Std(io).message(), "Std Error: boom");
    let e = serde_yaml::from_str::<serde_yaml::Value>("a: [").unwrap_err();
    let expected = format!("YAML Error: {}", e);
    assert_eq!(DbError::Yaml(e).message(), expected);
    let c = transaction_etl::utils::csv_table::read_csv_utf8(b"a\n1,2\n").unwrap();
    let e = c.error.unwrap();
    let expected = format!("CSV Error: {}", e);
    assert_eq!(DbError::Csv(e).message(), expected);
    let from: DbError = String::from("m").into();
    assert!(matches!(from, DbError::Other(ref m) if m == "m"));
}
