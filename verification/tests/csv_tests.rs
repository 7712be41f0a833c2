use transaction_etl::error::DbError;
use transaction_etl::input::amazon_ohfd::load::load_amazon_ohfd_csv;
use transaction_etl::input::money_forward::load::load_mf_transactions_csv;
use transaction_etl::utils::csv_table::{
    check_headers, header_mismatch_message, read_csv_shift_jis, read_csv_utf8, HeaderCheck,
};

const AMAZON_HEADER: &str =
    "注文日,注文番号,商品名,付帯情報,価格,個数,小計,注文合計,a,b,c,d,e,f,クレカ種類\n";
const MF_HEADER: &str = "計算対象,日付,内容,金額（円）,保有金融機関,大項目,中項目,メモ,振替,ID\n";

fn shift_jis(text: &str) -> Vec<u8> {
    let (bytes, _, had_errors) = encoding_rs::SHIFT_JIS.encode(text);
    assert!(!had_errors);
    bytes.into_owned()
}

fn strings(v: &[&str]) -> Vec<String> {
    v.iter().map(|s| s.to_string()).collect()
}

#[test]
fn utf8_csv_records_before_the_first_error() {
    let c = read_csv_utf8(b"a,b\n1,2\n3,4,5\n6,7\n").unwrap();
    assert_eq!(c.headers, strings(&["a", "b"]));
    assert_eq!(c.records, vec![strings(&["1", "2"])]);
    assert!(c.error.is_some());
    let c = read_csv_utf8(b"a,b\n1,2\n6,7\n").unwrap();
    assert_eq!(c.records, vec![strings(&["1", "2"]), strings(&["6", "7"])]);
    assert!(c.error.is_none());
    let c = read_csv_utf8(b"").unwrap();
    assert!(c.headers.is_empty() && c.records.is_empty() && c.error.is_none());
}

#[test]
fn shift_jis_csv_is_decoded() {
    let c = read_csv_shift_jis(&shift_jis("名前,金額\nりんご,100\n")).unwrap();
    assert_eq!(c.headers, strings(&["名前", "金額"]));
    assert_eq!(c.records, vec![strings(&["りんご", "100"])]);
}

#[test]
fn header_checks() {
    let expected = strings(&["a", "", "c"]);
    assert_eq!(check_headers(&strings(&["a", "zzz", "c"]), &expected), HeaderCheck::Pass);
    assert_eq!(check_headers(&strings(&["a", "b", "x"]), &expected), HeaderCheck::Mismatch(2));
    assert_eq!(check_headers(&strings(&["a", "b"]), &expected), HeaderCheck::TooShort);
    assert_eq!(check_headers(&strings(&["q"]), &expected), HeaderCheck::Mismatch(0));
    assert_eq!(
        header_mismatch_message(3, &"金額".to_string(), &"価格".to_string()),
        "Column index: 3, Expected header: 金額, actual header: 価格"
    );
}

#[test]
fn amazon_orders() {
    let text = format!(
        "{}{}{}",
        AMAZON_HEADER,
        "2024/1/5,111-222,本,Kindle版,1200,1,1200,1500,,,,,,,VISA\n",
        "2024/02/10,333-444,洗剤,,,1,,980,,,,,,,MASTER\n"
    );
    let orders = load_amazon_ohfd_csv(text.as_bytes()).unwrap().unwrap();
    assert_eq!(orders.len(), 2);
    assert_eq!(orders[0].order_date, "2024-01-05");
    assert_eq!(orders[0].order_no, "111-222");
    assert_eq!(orders[0].product_name, "本");
    assert_eq!(orders[0].product_info, "Kindle版");
    assert_eq!(orders[0].amount, 1200);
    assert_eq!(orders[0].credit_card, "VISA");
    assert_eq!(orders[1].order_date, "2024-02-10");
    assert_eq!(orders[1].amount, 980);
    assert_eq!(orders[1].credit_card, "MASTER");
}

#[test]
fn amazon_errors() {
    let wrong = AMAZON_HEADER.replace("商品名", "品名");
    match load_amazon_ohfd_csv(wrong.as_bytes()) {
        Some(Err(DbError::Other(m))) => {
            assert_eq!(m, "Column index: 2, Expected header: 商品名, actual header: 品名")
        },
        other => panic!("{:?}", other),
    }
    assert!(load_amazon_ohfd_csv("注文日,注文番号\n".as_bytes()).is_none());
    let bad_amount = format!("{}{}", AMAZON_HEADER, "2024/1/5,1,n,i,12x,,,,,,,,,,V\n");
    match load_amazon_ohfd_csv(bad_amount.as_bytes()) {
        Some(Err(DbError::Other(m))) => assert_eq!(m, "invalid digit found in string"),
        other => panic!("{:?}", other),
    }
    let bad_date = format!("{}{}", AMAZON_HEADER, "2024-1-5,1,n,i,12,,,,,,,,,,V\n");
    match load_amazon_ohfd_csv(bad_date.as_bytes()) {
        Some(Err(DbError::Other(m))) => assert_eq!(m, "Invalid date format: 2024-1-5"),
        other => panic!("{:?}", other),
    }
    let short_record = format!("{}{}", AMAZON_HEADER, "2024/1/5,1,n\n");
    assert!(matches!(load_amazon_ohfd_csv(short_record.as_bytes()), Some(Err(DbError::Csv(_)))));
}

#[test]
fn mf_transactions() {
    let text = format!(
        "{}{}{}",
        MF_HEADER,
        "1,2024/03/05,コンビニ,-500,カードA,食費,食料品,,0,abc123\n",
        "0,2024/3/6,振替,10000,銀行B,振替,振替,メモ,1,def456\n"
    );
    let rows = load_mf_transactions_csv(&shift_jis(&text)).unwrap().unwrap();
    assert_eq!(rows.len(), 2);
    assert_eq!(rows[0].include_flag, 1);
    assert_eq!(rows[0].occurrence_date, "2024-03-05");
    assert_eq!(rows[0].particulars, "コンビニ");
    assert_eq!(rows[0].amount, -500);
    assert_eq!(rows[0].financial_institution, "カードA");
    assert_eq!(rows[0].major_category, "食費");
    assert_eq!(rows[0].intermediate_category, "食料品");
    assert_eq!(rows[0].memo, "");
    assert_eq!(rows[0].transfer_flag, 0);
    assert_eq!(rows[0].mf_original_id, "abc123");
    assert_eq!(rows[1].occurrence_date, "2024-03-06");
    assert_eq!(rows[1].memo, "メモ");
    assert_eq!(rows[1].transfer_flag, 1);
}

#[test]
fn mf_errors() {
    let wrong = MF_HEADER.replace("金額（円）", "金額");
    match load_mf_transactions_csv(&shift_jis(&wrong)) {
        Some(Err(DbError::Other(m))) => {
            assert_eq!(m, "Column index: 3, Expected header: 金額（円）, actual header: 金額")
        },
        other => panic!("{:?}", other),
    }
    assert!(load_mf_transactions_csv(&shift_jis("計算対象,日付\n")).is_none());
    let overflow = format!("{}{}", MF_HEADER, "1,2024/03/05,x,99999999999,c,d,e,,0,id\n");
    match load_mf_transactions_csv(&shift_jis(&overflow)) {
        Some(Err(DbError::Other(m))) => assert_eq!(m, "number too large to fit in target type"),
        other => panic!("{:?}", other),
    }
    let month = format!("{}{}", MF_HEADER, "1,2024/13/05,x,1,c,d,e,,0,id\n");
    match load_mf_transactions_csv(&shift_jis(&month)) {
        Some(Err(DbError::Other(m))) => assert_eq!(m, "Month out of range: 13"),
        other => panic!("{:?}", other),
    }
    let empty_flag = format!("{}{}", MF_HEADER, ",2024/12/05,x,1,c,d,e,,0,id\n");
    match load_mf_transactions_csv(&shift_jis(&empty_flag)) {
        Some(Err(DbError::Other(m))) => assert_eq!(m, "cannot parse integer from empty string"),
        other => panic!("{:?}", other),
    }
}
