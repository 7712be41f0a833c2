//! Amazon order history (digital) inputs: the order CSV exports, the map from
//! credit card to channel, the manual categorizations, and the
//! categorization rules.

use vstd::prelude::*;
use crate::utils::yaml::{
    lemma_collect_singletons, lemma_collect_tags, lemma_index_tags, lemma_lookup_tags, lemma_mapping_tags, lemma_sequence_tags,
    result_tags_nonempty, tags_nonempty,
};
use crate::error::DbError;
use crate::utils::csv_table::{
    check_headers, content_view, csv_content, header_mismatch_message, header_mismatch_text,
    header_scan, lemma_header_scan, read_csv_utf8, records_match_header, records_view,
    strings_view, CsvContent, HeaderCheck,
};
use crate::utils::num::{int_error_message, int_error_text, parse_i32, spec_parse_i32};
use crate::utils::str::{normalize_slashed_date, slashed_date_result};
use crate::input::common::load::{load_string_mapping_yaml, string_mapping_rows};
use crate::utils::yaml::{pairs_view, parse_yaml, yaml_document, yaml_error_message, yaml_error_text};

use crate::utils::yaml::{
    collect_all, get, lemma_collect_step, lemma_collect_stops, lemma_collect_whole,
    lemma_values_view, nested_i64_field, nested_str_field, opt_i64_view, opt_str_view,
    pairs_result_view, sequence_field, str_field, value_view, values_view, view_as_sequence,
    view_get, view_index, view_nested_i64_field, view_nested_str_field, view_str_field, YamlError,
    YamlErrorView, YamlValue, YamlView,
};

verus! {

/// Reads the `(credit card, channel)` rows of the mapping YAML file's text.
pub fn load_mapping_amazon_ohfd_credit_card_to_channel_yaml(text: &str) -> (r: Result<Vec<(String, String)>, DbError>)
    ensures
        match yaml_document(text@) {
            None => r matches Err(e) && e is Yaml,
            Some(doc) => match string_mapping_rows(doc) {
                Ok(rows) => r matches Ok(v) && pairs_view(v@) == rows,
                Err(e) => r matches Err(DbError::Other(m)) && m@ == yaml_error_text(e),
            },
        },
{
    load_string_mapping_yaml(text)
}
/// A categorization rule for Amazon orders: the conditions under `if:` (each
/// absent one is `None`) and the category set under `set:`.
#[derive(Debug)]
pub struct AmazonOhfdCategorizationRule {
    pub order_date_min: Option<String>,
    pub order_date_max: Option<String>,
    pub product_name_glob: Option<String>,
    pub product_info_glob: Option<String>,
    pub amount_min: Option<i64>,
    pub amount_max: Option<i64>,
    pub credit_card: Option<String>,
    pub new_category: String,
    pub new_sub_category: Option<String>,
}

pub struct AmazonRuleView {
    pub order_date_min: Option<Seq<char>>,
    pub order_date_max: Option<Seq<char>>,
    pub product_name_glob: Option<Seq<char>>,
    pub product_info_glob: Option<Seq<char>>,
    pub amount_min: Option<int>,
    pub amount_max: Option<int>,
    pub credit_card: Option<Seq<char>>,
    pub new_category: Seq<char>,
    pub new_sub_category: Option<Seq<char>>,
}

pub open spec fn amazon_rule_view(r: AmazonOhfdCategorizationRule) -> AmazonRuleView {
    AmazonRuleView {
        order_date_min: opt_str_view(r.order_date_min),
        order_date_max: opt_str_view(r.order_date_max),
        product_name_glob: opt_str_view(r.product_name_glob),
        product_info_glob: opt_str_view(r.product_info_glob),
        amount_min: opt_i64_view(r.amount_min),
        amount_max: opt_i64_view(r.amount_max),
        credit_card: opt_str_view(r.credit_card),
        new_category: r.new_category@,
        new_sub_category: opt_str_view(r.new_sub_category),
    }
}

/// The rule read from the conditions `cond` (the rule's `if:`) with the
/// category `category` and sub-category `sub` of its `set:`.
pub open spec fn amazon_rule_from(cond: YamlView, category: Seq<char>, sub: Option<Seq<char>>) -> AmazonRuleView {
    AmazonRuleView {
        order_date_min: view_nested_str_field(cond, "注文日"@, "min"@),
        order_date_max: view_nested_str_field(cond, "注文日"@, "max"@),
        product_name_glob: view_str_field(cond, "商品名"@),
        product_info_glob: view_str_field(cond, "付帯情報"@),
        amount_min: view_nested_i64_field(cond, "金額"@, "min"@),
        amount_max: view_nested_i64_field(cond, "金額"@, "max"@),
        credit_card: view_str_field(cond, "クレカ種類"@),
        new_category: category,
        new_sub_category: sub,
    }
}

/// The rule of one element of `rules:`.
pub open spec fn amazon_rule_entry() -> spec_fn(YamlView) -> Result<
    Seq<AmazonRuleView>,
    YamlErrorView,
> {
    |rule: YamlView|
        match view_get(rule, "set"@) {
            None => Err(YamlErrorView::Message("ルールに `set` ブロックがありません"@)),
            Some(set) => match view_str_field(set, "category"@) {
                None => Err(YamlErrorView::Message("`set` ブロックに `category` がありません"@)),
                Some(category) => Ok(
                    seq![
                        amazon_rule_from(
                            view_index(rule, "if"@),
                            category,
                            view_str_field(set, "sub-category"@),
                        ),
                    ],
                ),
            },
        }
}

/// The rules of a rules document (a sequence under `rules:`), in order.
pub open spec fn amazon_rule_rows(doc: YamlView) -> Result<Seq<AmazonRuleView>, YamlErrorView> {
    match view_as_sequence(view_index(doc, "rules"@)) {
        None => Err(YamlErrorView::Message("YAML の `rules` が配列ではありません"@)),
        Some(rules) => collect_all(rules, amazon_rule_entry()),
    }
}

pub open spec fn amazon_rules_result_view(r: Result<Vec<AmazonOhfdCategorizationRule>, YamlError>) -> Result<
    Seq<AmazonRuleView>,
    YamlErrorView,
> {
    match r {
        Ok(v) => Ok(v@.map_values(|x: AmazonOhfdCategorizationRule| amazon_rule_view(x))),
        Err(e) => Err(e@),
    }
}

fn amazon_rule_of(rule: &YamlValue) -> (r: Result<AmazonOhfdCategorizationRule, YamlError>)
    ensures
        amazon_rule_entry()(rule@) == (match r {
            Ok(x) => Ok(seq![amazon_rule_view(x)]),
            Err(e) => Err(e@),
        }),
{
    let null = YamlValue::Null;
    let cond = match get(rule, "if") {
        Some(c) => c,
        None => &null,
    };
    assert(cond@ == view_index(rule@, "if"@));
    let set = match get(rule, "set") {
        Some(s) => s,
        None => {
            return Err(YamlError::Message("ルールに `set` ブロックがありません".to_string()));
        },
    };
    let order_date_min = nested_str_field(cond, "注文日", "min");
    let order_date_max = nested_str_field(cond, "注文日", "max");
    let product_name_glob = str_field(cond, "商品名");
    let product_info_glob = str_field(cond, "付帯情報");
    let amount_min = nested_i64_field(cond, "金額", "min");
    let amount_max = nested_i64_field(cond, "金額", "max");
    let credit_card = str_field(cond, "クレカ種類");
    let new_category = match str_field(set, "category") {
        Some(c) => c,
        None => {
            return Err(YamlError::Message("`set` ブロックに `category` がありません".to_string()));
        },
    };
    let new_sub_category = str_field(set, "sub-category");
    let x = AmazonOhfdCategorizationRule {
        order_date_min,
        order_date_max,
        product_name_glob,
        product_info_glob,
        amount_min,
        amount_max,
        credit_card,
        new_category,
        new_sub_category,
    };
    assert(amazon_rule_view(x) == amazon_rule_from(
        cond@,
        new_category@,
        opt_str_view(new_sub_category),
    ));
    Ok(x)
}

/// Reads the categorization rules of a rules document, in order, or the
/// first error met.
pub fn amazon_categorization_rules(doc: &YamlValue) -> (r: Result<
    Vec<AmazonOhfdCategorizationRule>,
    YamlError,
>)
    ensures
        amazon_rules_result_view(r) == amazon_rule_rows(doc@),
{
    let rules = match sequence_field(doc, "rules") {
        Some(s) => s,
        None => {
            return Err(YamlError::Message("YAML の `rules` が配列ではありません".to_string()));
        },
    };
    let ghost rv = values_view(rules@);
    proof {
        lemma_values_view(rules@);
    }
    let mut rows: Vec<AmazonOhfdCategorizationRule> = Vec::new();
    let mut i: usize = 0;
    assert(rv.take(0) =~= Seq::<YamlView>::empty());
    assert(rows@.map_values(|x: AmazonOhfdCategorizationRule| amazon_rule_view(x)) =~= Seq::<
        AmazonRuleView,
    >::empty());
    while i < rules.len()
        invariant
            i <= rules@.len(),
            rv == values_view(rules@),
            rv.len() == rules@.len(),
            forall|j: int| 0 <= j < rules@.len() ==> #[trigger] rv[j] == value_view(rules@[j]),
            collect_all(rv.take(i as int), amazon_rule_entry()) == Ok::<
                Seq<AmazonRuleView>,
                YamlErrorView,
            >(rows@.map_values(|x: AmazonOhfdCategorizationRule| amazon_rule_view(x))),
            view_as_sequence(view_index(doc@, "rules"@)) == Some(rv),
        decreases rules@.len() - i,
    {
        proof {
            lemma_collect_step(rv, amazon_rule_entry(), i as int);
        }
        match amazon_rule_of(&rules[i]) {
            Ok(x) => {
                let ghost before = rows@;
                let ghost xv = amazon_rule_view(x);
                rows.push(x);
                assert(rows@.map_values(|x: AmazonOhfdCategorizationRule| amazon_rule_view(x))
                    =~= before.map_values(|x: AmazonOhfdCategorizationRule| amazon_rule_view(x))
                    + seq![xv]);
            },
            Err(e) => {
                proof {
                    lemma_collect_stops(rv, amazon_rule_entry(), i + 1);
                }
                return Err(e);
            },
        }
        i = i + 1;
    }
    proof {
        lemma_collect_whole(rv, amazon_rule_entry());
    }
    Ok(rows)
}

/// A manual categorization of Amazon orders: the order number and product
/// name it applies to (each may be absent) and the category it sets.
#[derive(Debug)]
pub struct AmazonManualCategorization {
    pub order_no: Option<String>,
    pub product_name: Option<String>,
    pub category: String,
    pub sub_category: Option<String>,
}

pub open spec fn amazon_manual_view(c: AmazonManualCategorization) -> (
    Option<Seq<char>>,
    Option<Seq<char>>,
    Seq<char>,
    Option<Seq<char>>,
) {
    (opt_str_view(c.order_no), opt_str_view(c.product_name), c.category@, opt_str_view(c.sub_category))
}

/// The row of one `{if: .., set: ..}` element of `mapping:`.
pub open spec fn amazon_manual_entry() -> spec_fn(YamlView) -> Result<
    Seq<(Option<Seq<char>>, Option<Seq<char>>, Seq<char>, Option<Seq<char>>)>,
    YamlErrorView,
> {
    |entry: YamlView|
        match view_get(entry, "if"@) {
            None => Err(YamlErrorView::Message("ルールに `if` ブロックがありません"@)),
            Some(cond) => match view_get(entry, "set"@) {
                None => Err(YamlErrorView::Message("ルールに `set` ブロックがありません"@)),
                Some(set) => match view_str_field(set, "category"@) {
                    None => Err(YamlErrorView::Message("`set` ブロックに `category` がありません"@)),
                    Some(category) => Ok(
                        seq![
                            (
                                view_str_field(cond, "注文番号"@),
                                view_str_field(cond, "商品名"@),
                                category,
                                view_str_field(set, "sub-category"@),
                            ),
                        ],
                    ),
                },
            },
        }
}

/// The manual categorizations of a document whose `mapping:` is a sequence of
/// `{if: {注文番号, 商品名}, set: {category, sub-category}}`, in order.
pub open spec fn amazon_manual_rows(doc: YamlView) -> Result<
    Seq<(Option<Seq<char>>, Option<Seq<char>>, Seq<char>, Option<Seq<char>>)>,
    YamlErrorView,
> {
    match view_as_sequence(view_index(doc, "mapping"@)) {
        None => Err(YamlErrorView::Message("YAML の `mapping` が配列ではありません"@)),
        Some(entries) => collect_all(entries, amazon_manual_entry()),
    }
}

pub open spec fn amazon_manuals_result_view(r: Result<Vec<AmazonManualCategorization>, YamlError>) -> Result<
    Seq<(Option<Seq<char>>, Option<Seq<char>>, Seq<char>, Option<Seq<char>>)>,
    YamlErrorView,
> {
    match r {
        Ok(v) => Ok(v@.map_values(|c: AmazonManualCategorization| amazon_manual_view(c))),
        Err(e) => Err(e@),
    }
}

fn amazon_manual_of(entry: &YamlValue) -> (r: Result<AmazonManualCategorization, YamlError>)
    ensures
        amazon_manual_entry()(entry@) == (match r {
            Ok(c) => Ok(seq![amazon_manual_view(c)]),
            Err(e) => Err(e@),
        }),
{
    let cond = match get(entry, "if") {
        Some(c) => c,
        None => {
            return Err(YamlError::Message("ルールに `if` ブロックがありません".to_string()));
        },
    };
    let set = match get(entry, "set") {
        Some(s) => s,
        None => {
            return Err(YamlError::Message("ルールに `set` ブロックがありません".to_string()));
        },
    };
    let order_no = str_field(cond, "注文番号");
    let product_name = str_field(cond, "商品名");
    let category = match str_field(set, "category") {
        Some(c) => c,
        None => {
            return Err(YamlError::Message("`set` ブロックに `category` がありません".to_string()));
        },
    };
    let sub_category = str_field(set, "sub-category");
    Ok(AmazonManualCategorization { order_no, product_name, category, sub_category })
}

/// Reads the manual categorizations of a manual-categorization document, in
/// order, or the first error met.
pub fn amazon_manual_categorizations(doc: &YamlValue) -> (r: Result<
    Vec<AmazonManualCategorization>,
    YamlError,
>)
    ensures
        amazon_manuals_result_view(r) == amazon_manual_rows(doc@),
{
    let entries = match sequence_field(doc, "mapping") {
        Some(s) => s,
        None => {
            return Err(YamlError::Message("YAML の `mapping` が配列ではありません".to_string()));
        },
    };
    let ghost ev = values_view(entries@);
    proof {
        lemma_values_view(entries@);
    }
    let mut rows: Vec<AmazonManualCategorization> = Vec::new();
    let mut i: usize = 0;
    assert(ev.take(0) =~= Seq::<YamlView>::empty());
    assert(rows@.map_values(|c: AmazonManualCategorization| amazon_manual_view(c)) =~= Seq::<
        (Option<Seq<char>>, Option<Seq<char>>, Seq<char>, Option<Seq<char>>),
    >::empty());
    while i < entries.len()
        invariant
            i <= entries@.len(),
            ev == values_view(entries@),
            ev.len() == entries@.len(),
            forall|j: int| 0 <= j < entries@.len() ==> #[trigger] ev[j] == value_view(entries@[j]),
            collect_all(ev.take(i as int), amazon_manual_entry()) == Ok::<
                Seq<(Option<Seq<char>>, Option<Seq<char>>, Seq<char>, Option<Seq<char>>)>,
                YamlErrorView,
            >(rows@.map_values(|c: AmazonManualCategorization| amazon_manual_view(c))),
            view_as_sequence(view_index(doc@, "mapping"@)) == Some(ev),
        decreases entries@.len() - i,
    {
        proof {
            lemma_collect_step(ev, amazon_manual_entry(), i as int);
        }
        match amazon_manual_of(&entries[i]) {
            Ok(c) => {
                let ghost before = rows@;
                let ghost cv = amazon_manual_view(c);
                rows.push(c);
                assert(rows@.map_values(|c: AmazonManualCategorization| amazon_manual_view(c))
                    =~= before.map_values(|c: AmazonManualCategorization| amazon_manual_view(c))
                    + seq![cv]);
            },
            Err(e) => {
                proof {
                    lemma_collect_stops(ev, amazon_manual_entry(), i + 1);
                }
                return Err(e);
            },
        }
        i = i + 1;
    }
    proof {
        lemma_collect_whole(ev, amazon_manual_entry());
    }
    Ok(rows)
}

/// The header row of an order history export; an empty name is a column
/// whose header is not checked.
pub open spec fn amazon_expected_headers() -> Seq<Seq<char>> {
    seq![
        "注文日"@,
        "注文番号"@,
        "商品名"@,
        "付帯情報"@,
        "価格"@,
        ""@,
        ""@,
        "注文合計"@,
        ""@,
        ""@,
        ""@,
        ""@,
        ""@,
        ""@,
        "クレカ種類"@,
    ]
}

fn amazon_expected_headers_vec() -> (v: Vec<String>)
    ensures
        strings_view(v@) == amazon_expected_headers(),
{
    let mut v: Vec<String> = Vec::new();
    v.push("注文日".to_string());
    v.push("注文番号".to_string());
    v.push("商品名".to_string());
    v.push("付帯情報".to_string());
    v.push("価格".to_string());
    v.push("".to_string());
    v.push("".to_string());
    v.push("注文合計".to_string());
    v.push("".to_string());
    v.push("".to_string());
    v.push("".to_string());
    v.push("".to_string());
    v.push("".to_string());
    v.push("".to_string());
    v.push("クレカ種類".to_string());
    assert(strings_view(v@) =~= amazon_expected_headers());
    v
}

/// One order line of an order history export, as it is added to the
/// ledger's staging table.
#[derive(Debug)]
pub struct AmazonOhfdOrder {
    pub order_date: String,
    pub order_no: String,
    pub product_name: String,
    pub product_info: String,
    pub amount: i32,
    pub credit_card: String,
}

pub struct AmazonOrderView {
    pub order_date: Seq<char>,
    pub order_no: Seq<char>,
    pub product_name: Seq<char>,
    pub product_info: Seq<char>,
    pub amount: int,
    pub credit_card: Seq<char>,
}

pub open spec fn amazon_order_view(o: AmazonOhfdOrder) -> AmazonOrderView {
    AmazonOrderView {
        order_date: o.order_date@,
        order_no: o.order_no@,
        product_name: o.product_name@,
        product_info: o.product_info@,
        amount: o.amount as int,
        credit_card: o.credit_card@,
    }
}

/// The order of one record (at least fifteen fields): 注文日 is normalized,
/// then the amount is read as `i32` from 価格, or from 注文合計 where 価格 is
/// empty; the first that fails gives its message.
pub open spec fn amazon_record_entry() -> spec_fn(Seq<Seq<char>>) -> Result<
    Seq<AmazonOrderView>,
    Option<Seq<char>>,
> {
    |r: Seq<Seq<char>>|
        match slashed_date_result(r[0]) {
            Err(m) => Err(Some(m)),
            Ok(date) => match spec_parse_i32(if r[4].len() > 0 { r[4] } else { r[7] }) {
                Err(k) => Err(Some(int_error_text(k))),
                Ok(amount) => Ok(
                    seq![
                        AmazonOrderView {
                            order_date: date,
                            order_no: r[1],
                            product_name: r[2],
                            product_info: r[3],
                            amount,
                            credit_card: r[14],
                        },
                    ],
                ),
            },
        }
}

/// What reading an order history export gives: `Err(Some(message))` for a
/// header row that differs from the expected one or a record that does not
/// convert, `Err(None)` for the CSV reader's error after the records read,
/// else the orders in file order.
pub open spec fn amazon_csv_rows(c: (Seq<Seq<char>>, Seq<Seq<Seq<char>>>, bool)) -> Result<
    Seq<AmazonOrderView>,
    Option<Seq<char>>,
> {
    match header_scan(c.0, amazon_expected_headers(), 0) {
        HeaderCheck::Mismatch(i) => Err(
            Some(header_mismatch_text(i as nat, amazon_expected_headers()[i as int], c.0[i as int])),
        ),
        _ => match collect_all(c.1, amazon_record_entry()) {
            Err(e) => Err(e),
            Ok(rows) => if c.2 {
                Err(None)
            } else {
                Ok(rows)
            },
        },
    }
}

pub open spec fn amazon_result_view(r: Result<Vec<AmazonOhfdOrder>, DbError>) -> Result<
    Seq<AmazonOrderView>,
    Option<Seq<char>>,
> {
    match r {
        Ok(v) => Ok(v@.map_values(|o: AmazonOhfdOrder| amazon_order_view(o))),
        Err(DbError::Other(m)) => Err(Some(m@)),
        Err(_) => Err(None),
    }
}

fn amazon_order_of(r: &Vec<String>) -> (res: Result<AmazonOhfdOrder, String>)
    requires
        r@.len() >= 15,
    ensures
        amazon_record_entry()(strings_view(r@)) == (match res {
            Ok(o) => Ok(seq![amazon_order_view(o)]),
            Err(m) => Err(Some(m@)),
        }),
{
    let ghost rv = strings_view(r@);
    assert(forall|k: int| 0 <= k < r@.len() ==> #[trigger] rv[k] == r@[k]@);
    let order_date = match normalize_slashed_date(r[0].as_str()) {
        Ok(d) => d,
        Err(m) => {
            return Err(m);
        },
    };
    let amount_text = if !r[4].as_str().is_empty() {
        &r[4]
    } else {
        &r[7]
    };
    let amount = match parse_i32(amount_text.as_str()) {
        Ok(n) => n,
        Err(k) => {
            return Err(int_error_message(k));
        },
    };
    Ok(
        AmazonOhfdOrder {
            order_date,
            order_no: r[1].clone(),
            product_name: r[2].clone(),
            product_info: r[3].clone(),
            amount,
            credit_card: r[14].clone(),
        },
    )
}

/// Converts an order history export read by the CSV reader: checks its
/// header row, then converts each record in order; a header or record that
/// fails gives `DbError::Other` with its message, and the reader's own error
/// (after the records read) gives `DbError::Csv`.
pub fn amazon_orders_from_csv(content: CsvContent) -> (r: Result<Vec<AmazonOhfdOrder>, DbError>)
    requires
        header_scan(content_view(content).0, amazon_expected_headers(), 0) != HeaderCheck::TooShort,
        records_match_header(content_view(content)),
    ensures
        amazon_result_view(r) == amazon_csv_rows(content_view(content)),
        r matches Err(e) ==> (e is Other || e is Csv),
        r matches Err(DbError::Csv(e)) ==> content.error == Some(e),
{
    let ghost c = content_view(content);
    let expected = amazon_expected_headers_vec();
    match check_headers(&content.headers, &expected) {
        HeaderCheck::Mismatch(i) => {
            proof {
                lemma_header_scan(c.0, amazon_expected_headers(), 0);
            }
            assert(strings_view(expected@)[i as int] == expected@[i as int]@);
            assert(c.0[i as int] == content.headers@[i as int]@);
            return Err(DbError::Other(header_mismatch_message(i, &expected[i], &content.headers[i])));
        },
        _ => {},
    }
    proof {
        lemma_header_scan(c.0, amazon_expected_headers(), 0);
        reveal_strlit("クレカ種類");
        assert(amazon_expected_headers()[14].len() > 0);
    }
    let records = &content.records;
    let ghost rv = records_view(records@);
    let mut rows: Vec<AmazonOhfdOrder> = Vec::new();
    let mut i: usize = 0;
    assert(rv.take(0) =~= Seq::<Seq<Seq<char>>>::empty());
    assert(rows@.map_values(|o: AmazonOhfdOrder| amazon_order_view(o)) =~= Seq::<
        AmazonOrderView,
    >::empty());
    while i < records.len()
        invariant
            i <= records@.len(),
            rv == records_view(records@),
            rv == c.1,
            c == content_view(content),
            !(header_scan(c.0, amazon_expected_headers(), 0) is Mismatch),
            c.0.len() >= 15,
            records_match_header(c),
            collect_all(rv.take(i as int), amazon_record_entry()) == Ok::<
                Seq<AmazonOrderView>,
                Option<Seq<char>>,
            >(rows@.map_values(|o: AmazonOhfdOrder| amazon_order_view(o))),
        decreases records@.len() - i,
    {
        proof {
            lemma_collect_step(rv, amazon_record_entry(), i as int);
        }
        assert(rv[i as int] == strings_view(records@[i as int]@));
        assert(rv[i as int].len() == c.0.len());
        match amazon_order_of(&records[i]) {
            Ok(o) => {
                let ghost before = rows@;
                let ghost ov = amazon_order_view(o);
                rows.push(o);
                assert(rows@.map_values(|o: AmazonOhfdOrder| amazon_order_view(o)) =~= before.map_values(
                    |o: AmazonOhfdOrder| amazon_order_view(o),
                ) + seq![ov]);
            },
            Err(m) => {
                proof {
                    lemma_collect_stops(rv, amazon_record_entry(), i + 1);
                }
                return Err(DbError::Other(m));
            },
        }
        i = i + 1;
    }
    proof {
        lemma_collect_whole(rv, amazon_record_entry());
    }
    match content.error {
        Some(e) => Err(DbError::Csv(e)),
        None => Ok(rows),
    }
}

/// Reads an order history export (UTF-8 CSV bytes). `None` stands for a
/// header row that ends before an expected column whose name is reached
/// (where indexing the header row would panic); otherwise the result of
/// `amazon_orders_from_csv`, or `DbError::Csv` when the header row cannot
/// be read.
pub fn load_amazon_ohfd_csv(bytes: &[u8]) -> (r: Option<Result<Vec<AmazonOhfdOrder>, DbError>>)
    ensures
        csv_content(bytes@) is None ==> (r matches Some(Err(e)) && e is Csv),
        csv_content(bytes@) matches Some(c) ==> {
            &&& r is None <==> header_scan(c.0, amazon_expected_headers(), 0) == HeaderCheck::TooShort
            &&& r matches Some(res) ==> amazon_result_view(res) == amazon_csv_rows(c)
        },
        !(r matches Some(Err(DbError::Std(_)))),
{
    match read_csv_utf8(bytes) {
        Err(e) => Some(Err(DbError::Csv(e))),
        Ok(content) => {
            let expected = amazon_expected_headers_vec();
            if check_headers(&content.headers, &expected) == HeaderCheck::TooShort {
                None
            } else {
                Some(amazon_orders_from_csv(content))
            }
        },
    }
}

/// Reads the categorization rules of a YAML file's text (see
/// `amazon_categorization_rules`).
pub fn load_categorization_rules_yaml(text: &str) -> (r: Result<Vec<AmazonOhfdCategorizationRule>, DbError>)
    ensures
        match yaml_document(text@) {
            None => r matches Err(e) && e is Yaml,
            Some(doc) => match amazon_rule_rows(doc) {
                Ok(rows) => r matches Ok(v) && v@.map_values(|x: AmazonOhfdCategorizationRule| amazon_rule_view(x)) == rows,
                Err(e) => r matches Err(DbError::Other(m)) && m@ == yaml_error_text(e),
            },
        },
{
    let doc = match parse_yaml(text) {
        Ok(d) => d,
        Err(e) => {
            return Err(DbError::Yaml(e));
        },
    };
    proof {
        lemma_amazon_rule_tags(doc@);
    }
    match amazon_categorization_rules(&doc) {
        Ok(v) => Ok(v),
        Err(e) => Err(DbError::Other(yaml_error_message(&e))),
    }
}

/// Reads the manual categorizations of a YAML file's text (see
/// `amazon_manual_categorizations`).
pub fn load_amazon_ohfd_manual_categorization_yaml(text: &str) -> (r: Result<Vec<AmazonManualCategorization>, DbError>)
    ensures
        match yaml_document(text@) {
            None => r matches Err(e) && e is Yaml,
            Some(doc) => match amazon_manual_rows(doc) {
                Ok(rows) => r matches Ok(v) && v@.map_values(|c: AmazonManualCategorization| amazon_manual_view(c)) == rows,
                Err(e) => r matches Err(DbError::Other(m)) && m@ == yaml_error_text(e),
            },
        },
{
    let doc = match parse_yaml(text) {
        Ok(d) => d,
        Err(e) => {
            return Err(DbError::Yaml(e));
        },
    };
    proof {
        lemma_amazon_manual_tags(doc@);
    }
    match amazon_manual_categorizations(&doc) {
        Ok(v) => Ok(v),
        Err(e) => Err(DbError::Other(yaml_error_message(&e))),
    }
}

/// A rules document's errors name no value.
proof fn lemma_amazon_rule_tags(doc: YamlView)
    ensures
        result_tags_nonempty(amazon_rule_rows(doc)),
{
    if let Some(rules) = view_as_sequence(view_index(doc, "rules"@)) {
        assert forall|i: int| 0 <= i < rules.len() implies result_tags_nonempty(
            #[trigger] amazon_rule_entry()(rules[i]),
        ) by {}
        lemma_collect_tags(rules, amazon_rule_entry());
    }
}

/// A manual-categorization document's errors name no value.
proof fn lemma_amazon_manual_tags(doc: YamlView)
    ensures
        result_tags_nonempty(amazon_manual_rows(doc)),
{
    if let Some(entries) = view_as_sequence(view_index(doc, "mapping"@)) {
        assert forall|i: int| 0 <= i < entries.len() implies result_tags_nonempty(
            #[trigger] amazon_manual_entry()(entries[i]),
        ) by {}
        lemma_collect_tags(entries, amazon_manual_entry());
    }
}

/// Each rule read from a rules document comes from the element of `rules:`
/// at the same position, and takes every condition from the key of that
/// name in the element's `if:` block (注文日's `min`/`max`, 商品名, 付帯情報,
/// 金額's `min`/`max`, クレカ種類), its category from the `set:` block's
/// `category` and its sub-category from `sub-category`.
pub proof fn lemma_amazon_rules_read_their_keys(doc: YamlView)
    ensures
        amazon_rule_rows(doc) is Ok ==> view_as_sequence(view_index(doc, "rules"@)) is Some,
        amazon_rule_rows(doc) is Ok ==> ({
            let rules = amazon_rule_rows(doc)->Ok_0;
            let items = view_as_sequence(view_index(doc, "rules"@))->Some_0;
            &&& rules.len() == items.len()
            &&& forall|i: int|
                #![trigger rules[i]]
                0 <= i < items.len() ==> {
                    let cond = view_index(items[i], "if"@);
                    let set = view_index(items[i], "set"@);
                    &&& rules[i].order_date_min == view_nested_str_field(cond, "注文日"@, "min"@)
                    &&& rules[i].order_date_max == view_nested_str_field(cond, "注文日"@, "max"@)
                    &&& rules[i].product_name_glob == view_str_field(cond, "商品名"@)
                    &&& rules[i].product_info_glob == view_str_field(cond, "付帯情報"@)
                    &&& rules[i].amount_min == view_nested_i64_field(cond, "金額"@, "min"@)
                    &&& rules[i].amount_max == view_nested_i64_field(cond, "金額"@, "max"@)
                    &&& rules[i].credit_card == view_str_field(cond, "クレカ種類"@)
                    &&& view_str_field(set, "category"@) == Some(rules[i].new_category)
                    &&& rules[i].new_sub_category == view_str_field(set, "sub-category"@)
                }
        }),
{
    if let Some(items) = view_as_sequence(view_index(doc, "rules"@)) {
        assert forall|j: int| 0 <= j < items.len() implies (#[trigger] amazon_rule_entry()(items[j]) matches Ok(
            r,
        ) ==> r.len() == 1) by {}
        lemma_collect_singletons(items, amazon_rule_entry());
        if amazon_rule_rows(doc) is Ok {
            let rules = amazon_rule_rows(doc)->Ok_0;
            assert forall|i: int| #![trigger rules[i]] 0 <= i < items.len() implies {
                let cond = view_index(items[i], "if"@);
                let set = view_index(items[i], "set"@);
                &&& rules[i].order_date_min == view_nested_str_field(cond, "注文日"@, "min"@)
                &&& rules[i].order_date_max == view_nested_str_field(cond, "注文日"@, "max"@)
                &&& rules[i].product_name_glob == view_str_field(cond, "商品名"@)
                &&& rules[i].product_info_glob == view_str_field(cond, "付帯情報"@)
                &&& rules[i].amount_min == view_nested_i64_field(cond, "金額"@, "min"@)
                &&& rules[i].amount_max == view_nested_i64_field(cond, "金額"@, "max"@)
                &&& rules[i].credit_card == view_str_field(cond, "クレカ種類"@)
                &&& view_str_field(set, "category"@) == Some(rules[i].new_category)
                &&& rules[i].new_sub_category == view_str_field(set, "sub-category"@)
            } by {
                let e = amazon_rule_entry()(items[i]);
                assert(e == Ok::<Seq<AmazonRuleView>, YamlErrorView>(seq![rules[i]]));
                assert(view_get(items[i], "set"@) is Some);
                let set0 = view_get(items[i], "set"@)->Some_0;
                assert(view_index(items[i], "set"@) == set0);
                assert(view_str_field(set0, "category"@) is Some);
                let c = view_str_field(set0, "category"@)->Some_0;
                let x = amazon_rule_from(view_index(items[i], "if"@), c, view_str_field(set0, "sub-category"@));
                assert(e == Ok::<Seq<AmazonRuleView>, YamlErrorView>(seq![x]));
                assert(seq![x][0] == seq![rules[i]][0]);
                assert(x == rules[i]);
            }
        }
    }
}

/// An order history export reads as orders only when the CSV reader read
/// every record (its error is never dropped), and then as one order per
/// record, in order: the date normalized, 価格 (or 注文合計 where 価格 is
/// empty) read as `i32`, the other columns as they are.
pub proof fn lemma_amazon_csv_rows_law(c: (Seq<Seq<char>>, Seq<Seq<Seq<char>>>, bool))
    ensures
        c.2 ==> amazon_csv_rows(c) is Err,
        amazon_csv_rows(c) is Ok ==> ({
            let rows = amazon_csv_rows(c)->Ok_0;
            &&& !c.2
            &&& rows.len() == c.1.len()
            &&& forall|i: int|
                #![trigger rows[i]]
                0 <= i < c.1.len() ==> {
                    let r = c.1[i];
                    &&& rows[i].order_date == slashed_date_result(r[0])->Ok_0
                    &&& rows[i].order_no == r[1]
                    &&& rows[i].product_name == r[2]
                    &&& rows[i].product_info == r[3]
                    &&& rows[i].amount == spec_parse_i32(if r[4].len() > 0 { r[4] } else { r[7] })->Ok_0
                    &&& rows[i].credit_card == r[14]
                    &&& slashed_date_result(r[0]) is Ok
                }
        }),
{
    if !(header_scan(c.0, amazon_expected_headers(), 0) is Mismatch) {
        assert forall|j: int| 0 <= j < c.1.len() implies (#[trigger] amazon_record_entry()(c.1[j]) matches Ok(
            r,
        ) ==> r.len() == 1) by {}
        lemma_collect_singletons(c.1, amazon_record_entry());
        if amazon_csv_rows(c) is Ok {
            let rows = amazon_csv_rows(c)->Ok_0;
            assert forall|i: int| #![trigger rows[i]] 0 <= i < c.1.len() implies {
                let r = c.1[i];
                &&& rows[i].order_date == slashed_date_result(r[0])->Ok_0
                &&& rows[i].order_no == r[1]
                &&& rows[i].product_name == r[2]
                &&& rows[i].product_info == r[3]
                &&& rows[i].amount == spec_parse_i32(if r[4].len() > 0 { r[4] } else { r[7] })->Ok_0
                &&& rows[i].credit_card == r[14]
                &&& slashed_date_result(r[0]) is Ok
            } by {
                let e = amazon_record_entry()(c.1[i]);
                assert(e == Ok::<Seq<AmazonOrderView>, Option<Seq<char>>>(seq![rows[i]]));
                assert(e->Ok_0[0] == rows[i]);
            }
        }
    }
}

} // verus!
