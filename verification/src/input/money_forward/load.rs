//! Money Forward inputs: the transaction CSV exports, the map from financial
//! institution to channel, the manual categorizations, and the
//! categorization rules.

use vstd::prelude::*;
use crate::utils::yaml::{
    lemma_collect_singletons, lemma_collect_tags, lemma_index_tags, lemma_lookup_tags, lemma_entries_of_tags, lemma_mapping_tags, lemma_sequence_tags,
    result_tags_nonempty, tags_nonempty,
};
use crate::error::DbError;
use crate::utils::csv_table::{
    check_headers, content_view, csv_content, shift_jis_decoded, header_mismatch_message,
    header_mismatch_text, header_scan, lemma_header_scan, read_csv_shift_jis, records_match_header,
    records_view, strings_view, CsvContent, HeaderCheck,
};
use crate::utils::num::{int_error_message, int_error_text, parse_i32, spec_parse_i32};
use crate::utils::str::{normalize_slashed_date, slashed_date_result};
use crate::input::common::load::{load_string_mapping_yaml, message3, string_mapping_rows};
use crate::utils::yaml::{pairs_view, parse_yaml, yaml_document, yaml_error_message, yaml_error_text};

use crate::utils::yaml::{
    as_mapping, as_str, clone_value, collect_all, entries_view, get, lemma_collect_step,
    lemma_collect_stops, lemma_collect_whole, lemma_entries_view, lemma_values_view, lookup,
    mapping_field, mapping_get, nested_i64_field, nested_str_field, i64_field, opt_i64_view,
    opt_str_view, pairs_result_view, sequence_field, str_field, value_view, values_view,
    view_as_mapping, view_as_sequence, view_as_str, view_get, view_i64_field, view_index,
    view_nested_i64_field, view_nested_str_field, view_str_field, YamlError, YamlErrorView,
    YamlValue, YamlView,
};

verus! {

/// Reads the `(financial institution, channel)` rows of the mapping YAML
/// file's text.
pub fn load_mapping_mf_financial_institution_to_channel_yaml(text: &str) -> (r: Result<Vec<(String, String)>, DbError>)
    ensures
        match yaml_document(text@) {
            None => r matches Err(e) && e is Yaml,
            Some(doc) => match string_mapping_rows(doc) {
                Ok(rows) => r matches Ok(v) && pairs_view(v@) == rows,
                Err(e) => r matches Err(DbError::Other(m)) && m@ == yaml_error_text(e),
            },
        },
{
    load_string_mapping_yaml(text)
}
/// A manual categorization of one transaction, by its Money Forward id.
#[derive(Debug)]
pub struct ManualCategorization {
    pub mf_original_id: String,
    pub category: String,
    pub sub_category: Option<String>,
}

pub open spec fn manual_view(c: ManualCategorization) -> (Seq<char>, Seq<char>, Option<Seq<char>>) {
    (c.mf_original_id@, c.category@, opt_str_view(c.sub_category))
}

pub open spec fn manuals_result_view(r: Result<Vec<ManualCategorization>, YamlError>) -> Result<
    Seq<(Seq<char>, Seq<char>, Option<Seq<char>>)>,
    YamlErrorView,
> {
    match r {
        Ok(v) => Ok(v@.map_values(|c: ManualCategorization| manual_view(c))),
        Err(e) => Err(e@),
    }
}

/// The row of one `id: {category: .., sub-category: ..}` entry.
pub open spec fn manual_entry() -> spec_fn((YamlView, YamlView)) -> Result<
    Seq<(Seq<char>, Seq<char>, Option<Seq<char>>)>,
    YamlErrorView,
> {
    |e: (YamlView, YamlView)|
        match view_as_str(e.0) {
            None => Err(YamlErrorView::WithValue("Invalid key: "@, e.0)),
            Some(id) => match view_as_mapping(e.1) {
                None => Err(YamlErrorView::WithValue("Invalid value for id '"@ + id + "': "@, e.1)),
                Some(cats) => match lookup(cats, "category"@) {
                    None => Err(YamlErrorView::Message("category がありません"@)),
                    Some(cv) => match view_as_str(cv) {
                        None => Err(
                            YamlErrorView::WithValue("Invalid category for id "@ + id + ": "@, cv),
                        ),
                        Some(category) => match lookup(cats, "sub-category"@) {
                            None => Ok(seq![(id, category, None::<Seq<char>>)]),
                            Some(sv) => match view_as_str(sv) {
                                None => Err(
                                    YamlErrorView::WithValue(
                                        "Invalid category for id "@ + id + ": "@,
                                        sv,
                                    ),
                                ),
                                Some(sub) => Ok(seq![(id, category, Some(sub))]),
                            },
                        },
                    },
                },
            },
        }
}

/// The manual categorizations of a document whose `mapping:` maps each
/// transaction id to its category and optional sub-category.
pub open spec fn manual_rows(doc: YamlView) -> Result<
    Seq<(Seq<char>, Seq<char>, Option<Seq<char>>)>,
    YamlErrorView,
> {
    match view_as_mapping(view_index(doc, "mapping"@)) {
        None => Err(YamlErrorView::Message("YAML の `mapping` がハッシュではありません"@)),
        Some(m) => collect_all(m, manual_entry()),
    }
}

fn manual_entry_row(key: &YamlValue, value: &YamlValue) -> (r: Result<ManualCategorization, YamlError>)
    ensures
        manual_entry()((key@, value@)) == (match r {
            Ok(c) => Ok(seq![manual_view(c)]),
            Err(e) => Err(e@),
        }),
{
    let id = match as_str(key) {
        Some(id) => id,
        None => {
            return Err(YamlError::WithValue("Invalid key: ".to_string(), clone_value(key)));
        },
    };
    let categories = match as_mapping(value) {
        Some(c) => c,
        None => {
            return Err(
                YamlError::WithValue(message3("Invalid value for id '", id, "': "), clone_value(value)),
            );
        },
    };
    let category = match mapping_get(categories, "category") {
        None => {
            return Err(YamlError::Message("category がありません".to_string()));
        },
        Some(v) => match as_str(v) {
            Some(c) => c.clone(),
            None => {
                return Err(
                    YamlError::WithValue(message3("Invalid category for id ", id, ": "), clone_value(v)),
                );
            },
        },
    };
    let sub_category = match mapping_get(categories, "sub-category") {
        None => None,
        Some(v) => match as_str(v) {
            Some(c) => Some(c.clone()),
            None => {
                return Err(
                    YamlError::WithValue(message3("Invalid category for id ", id, ": "), clone_value(v)),
                );
            },
        },
    };
    Ok(ManualCategorization { mf_original_id: id.clone(), category, sub_category })
}

/// Reads the manual categorizations of a document whose `mapping:` maps each
/// transaction id to `{category, sub-category}`, in document order, or the
/// first error met.
pub fn mf_manual_categorizations(doc: &YamlValue) -> (r: Result<
    Vec<ManualCategorization>,
    YamlError,
>)
    ensures
        manuals_result_view(r) == manual_rows(doc@),
{
    let m = match mapping_field(doc, "mapping") {
        Some(m) => m,
        None => {
            return Err(YamlError::Message("YAML の `mapping` がハッシュではありません".to_string()));
        },
    };
    let ghost mv = entries_view(m@);
    proof {
        lemma_entries_view(m@);
    }
    let mut rows: Vec<ManualCategorization> = Vec::new();
    let mut i: usize = 0;
    assert(mv.take(0) =~= Seq::<(YamlView, YamlView)>::empty());
    assert(rows@.map_values(|c: ManualCategorization| manual_view(c)) =~= Seq::<
        (Seq<char>, Seq<char>, Option<Seq<char>>),
    >::empty());
    while i < m.len()
        invariant
            i <= m@.len(),
            mv == entries_view(m@),
            mv.len() == m@.len(),
            forall|j: int|
                0 <= j < m@.len() ==> #[trigger] mv[j] == (value_view(m@[j].0), value_view(m@[j].1)),
            collect_all(mv.take(i as int), manual_entry()) == Ok::<
                Seq<(Seq<char>, Seq<char>, Option<Seq<char>>)>,
                YamlErrorView,
            >(rows@.map_values(|c: ManualCategorization| manual_view(c))),
            view_as_mapping(view_index(doc@, "mapping"@)) == Some(mv),
        decreases m@.len() - i,
    {
        proof {
            lemma_collect_step(mv, manual_entry(), i as int);
        }
        match manual_entry_row(&m[i].0, &m[i].1) {
            Ok(c) => {
                let ghost before = rows@;
                let ghost cv = manual_view(c);
                rows.push(c);
                assert(rows@.map_values(|c: ManualCategorization| manual_view(c)) =~= before.map_values(
                    |c: ManualCategorization| manual_view(c),
                ) + seq![cv]);
            },
            Err(e) => {
                proof {
                    lemma_collect_stops(mv, manual_entry(), i + 1);
                }
                return Err(e);
            },
        }
        i = i + 1;
    }
    proof {
        lemma_collect_whole(mv, manual_entry());
    }
    Ok(rows)
}

/// A categorization rule for Money Forward transactions: the conditions under
/// `if:` (each absent one is `None`) and the category set under `set:`.
#[derive(Debug)]
pub struct MfCategorizationRule {
    pub include_flag: Option<i64>,
    pub occurrence_date_min: Option<String>,
    pub occurrence_date_max: Option<String>,
    pub particulars_glob: Option<String>,
    pub amount_min: Option<i64>,
    pub amount_max: Option<i64>,
    pub financial_institution: Option<String>,
    pub major_category: Option<String>,
    pub intermediate_category: Option<String>,
    pub memo_glob: Option<String>,
    pub transfer_flag: Option<i64>,
    pub new_category: String,
    pub new_sub_category: Option<String>,
}

pub struct MfRuleView {
    pub include_flag: Option<int>,
    pub occurrence_date_min: Option<Seq<char>>,
    pub occurrence_date_max: Option<Seq<char>>,
    pub particulars_glob: Option<Seq<char>>,
    pub amount_min: Option<int>,
    pub amount_max: Option<int>,
    pub financial_institution: Option<Seq<char>>,
    pub major_category: Option<Seq<char>>,
    pub intermediate_category: Option<Seq<char>>,
    pub memo_glob: Option<Seq<char>>,
    pub transfer_flag: Option<int>,
    pub new_category: Seq<char>,
    pub new_sub_category: Option<Seq<char>>,
}

pub open spec fn mf_rule_view(r: MfCategorizationRule) -> MfRuleView {
    MfRuleView {
        include_flag: opt_i64_view(r.include_flag),
        occurrence_date_min: opt_str_view(r.occurrence_date_min),
        occurrence_date_max: opt_str_view(r.occurrence_date_max),
        particulars_glob: opt_str_view(r.particulars_glob),
        amount_min: opt_i64_view(r.amount_min),
        amount_max: opt_i64_view(r.amount_max),
        financial_institution: opt_str_view(r.financial_institution),
        major_category: opt_str_view(r.major_category),
        intermediate_category: opt_str_view(r.intermediate_category),
        memo_glob: opt_str_view(r.memo_glob),
        transfer_flag: opt_i64_view(r.transfer_flag),
        new_category: r.new_category@,
        new_sub_category: opt_str_view(r.new_sub_category),
    }
}

/// The rule read from the conditions `cond` (the rule's `if:`) with the
/// category `category` and sub-category `sub` of its `set:`.
pub open spec fn mf_rule_from(cond: YamlView, category: Seq<char>, sub: Option<Seq<char>>) -> MfRuleView {
    MfRuleView {
        include_flag: view_i64_field(cond, "計算対象"@),
        occurrence_date_min: view_nested_str_field(cond, "日付"@, "min"@),
        occurrence_date_max: view_nested_str_field(cond, "日付"@, "max"@),
        particulars_glob: view_str_field(cond, "内容"@),
        amount_min: view_nested_i64_field(cond, "金額"@, "min"@),
        amount_max: view_nested_i64_field(cond, "金額"@, "max"@),
        financial_institution: view_str_field(cond, "金融機関"@),
        major_category: view_str_field(cond, "大項目"@),
        intermediate_category: view_str_field(cond, "中項目"@),
        memo_glob: view_str_field(cond, "メモ"@),
        transfer_flag: view_i64_field(cond, "振替"@),
        new_category: category,
        new_sub_category: sub,
    }
}

/// The rule of one element of `rules:`.
pub open spec fn mf_rule_entry() -> spec_fn(YamlView) -> Result<Seq<MfRuleView>, YamlErrorView> {
    |rule: YamlView|
        match view_get(rule, "set"@) {
            None => Err(YamlErrorView::Message("ルールに `set` ブロックがありません"@)),
            Some(set) => match view_str_field(set, "category"@) {
                None => Err(YamlErrorView::Message("`set` ブロックに `category` がありません"@)),
                Some(category) => Ok(
                    seq![
                        mf_rule_from(
                            view_index(rule, "if"@),
                            category,
                            view_str_field(set, "sub-category"@),
                        ),
                    ],
                ),
            },
        }
}

/// The rules of a rules document (a sequence under `rules:`), in order.
pub open spec fn mf_rule_rows(doc: YamlView) -> Result<Seq<MfRuleView>, YamlErrorView> {
    match view_as_sequence(view_index(doc, "rules"@)) {
        None => Err(YamlErrorView::Message("YAML の `rules` が配列ではありません"@)),
        Some(rules) => collect_all(rules, mf_rule_entry()),
    }
}

pub open spec fn mf_rules_result_view(r: Result<Vec<MfCategorizationRule>, YamlError>) -> Result<
    Seq<MfRuleView>,
    YamlErrorView,
> {
    match r {
        Ok(v) => Ok(v@.map_values(|x: MfCategorizationRule| mf_rule_view(x))),
        Err(e) => Err(e@),
    }
}

fn mf_rule_of(rule: &YamlValue) -> (r: Result<MfCategorizationRule, YamlError>)
    ensures
        mf_rule_entry()(rule@) == (match r {
            Ok(x) => Ok(seq![mf_rule_view(x)]),
            Err(e) => Err(e@),
        }),
{
    let null = YamlValue::Null;
    let cond = match get(rule, "if") {
        Some(c) => c,
        None => &null,
    };
    assert(cond@ == view_index(rule@, "if"@));
    let set = match get(rule, "set") {
        Some(s) => s,
        None => {
            return Err(YamlError::Message("ルールに `set` ブロックがありません".to_string()));
        },
    };
    let include_flag = i64_field(cond, "計算対象");
    let occurrence_date_min = nested_str_field(cond, "日付", "min");
    let occurrence_date_max = nested_str_field(cond, "日付", "max");
    let particulars_glob = str_field(cond, "内容");
    let amount_min = nested_i64_field(cond, "金額", "min");
    let amount_max = nested_i64_field(cond, "金額", "max");
    let financial_institution = str_field(cond, "金融機関");
    let major_category = str_field(cond, "大項目");
    let intermediate_category = str_field(cond, "中項目");
    let memo_glob = str_field(cond, "メモ");
    let transfer_flag = i64_field(cond, "振替");
    let new_category = match str_field(set, "category") {
        Some(c) => c,
        None => {
            return Err(YamlError::Message("`set` ブロックに `category` がありません".to_string()));
        },
    };
    let new_sub_category = str_field(set, "sub-category");
    let x = MfCategorizationRule {
        include_flag,
        occurrence_date_min,
        occurrence_date_max,
        particulars_glob,
        amount_min,
        amount_max,
        financial_institution,
        major_category,
        intermediate_category,
        memo_glob,
        transfer_flag,
        new_category,
        new_sub_category,
    };
    assert(mf_rule_view(x) == mf_rule_from(cond@, new_category@, opt_str_view(new_sub_category)));
    Ok(x)
}

/// Reads the categorization rules of a rules document, in order, or the
/// first error met.
pub fn mf_categorization_rules(doc: &YamlValue) -> (r: Result<
    Vec<MfCategorizationRule>,
    YamlError,
>)
    ensures
        mf_rules_result_view(r) == mf_rule_rows(doc@),
{
    let rules = match sequence_field(doc, "rules") {
        Some(s) => s,
        None => {
            return Err(YamlError::Message("YAML の `rules` が配列ではありません".to_string()));
        },
    };
    let ghost rv = values_view(rules@);
    proof {
        lemma_values_view(rules@);
    }
    let mut rows: Vec<MfCategorizationRule> = Vec::new();
    let mut i: usize = 0;
    assert(rv.take(0) =~= Seq::<YamlView>::empty());
    assert(rows@.map_values(|x: MfCategorizationRule| mf_rule_view(x)) =~= Seq::<
        MfRuleView,
    >::empty());
    while i < rules.len()
        invariant
            i <= rules@.len(),
            rv == values_view(rules@),
            rv.len() == rules@.len(),
            forall|j: int| 0 <= j < rules@.len() ==> #[trigger] rv[j] == value_view(rules@[j]),
            collect_all(rv.take(i as int), mf_rule_entry()) == Ok::<Seq<MfRuleView>, YamlErrorView>(
                rows@.map_values(|x: MfCategorizationRule| mf_rule_view(x)),
            ),
            view_as_sequence(view_index(doc@, "rules"@)) == Some(rv),
        decreases rules@.len() - i,
    {
        proof {
            lemma_collect_step(rv, mf_rule_entry(), i as int);
        }
        match mf_rule_of(&rules[i]) {
            Ok(x) => {
                let ghost before = rows@;
                let ghost xv = mf_rule_view(x);
                rows.push(x);
                assert(rows@.map_values(|x: MfCategorizationRule| mf_rule_view(x)) =~= before.map_values(
                    |x: MfCategorizationRule| mf_rule_view(x),
                ) + seq![xv]);
            },
            Err(e) => {
                proof {
                    lemma_collect_stops(rv, mf_rule_entry(), i + 1);
                }
                return Err(e);
            },
        }
        i = i + 1;
    }
    proof {
        lemma_collect_whole(rv, mf_rule_entry());
    }
    Ok(rows)
}

/// The header row of a Money Forward transaction export.
pub open spec fn mf_expected_headers() -> Seq<Seq<char>> {
    seq![
        "計算対象"@,
        "日付"@,
        "内容"@,
        "金額（円）"@,
        "保有金融機関"@,
        "大項目"@,
        "中項目"@,
        "メモ"@,
        "振替"@,
        "ID"@,
    ]
}

fn mf_expected_headers_vec() -> (v: Vec<String>)
    ensures
        strings_view(v@) == mf_expected_headers(),
{
    let mut v: Vec<String> = Vec::new();
    v.push("計算対象".to_string());
    v.push("日付".to_string());
    v.push("内容".to_string());
    v.push("金額（円）".to_string());
    v.push("保有金融機関".to_string());
    v.push("大項目".to_string());
    v.push("中項目".to_string());
    v.push("メモ".to_string());
    v.push("振替".to_string());
    v.push("ID".to_string());
    assert(strings_view(v@) =~= mf_expected_headers());
    v
}

/// One transaction of a Money Forward export, as it is added to the ledger's
/// staging table.
#[derive(Debug)]
pub struct MfTransaction {
    pub include_flag: i32,
    pub occurrence_date: String,
    pub particulars: String,
    pub amount: i32,
    pub financial_institution: String,
    pub major_category: String,
    pub intermediate_category: String,
    pub memo: String,
    pub transfer_flag: i32,
    pub mf_original_id: String,
}

pub struct MfTransactionView {
    pub include_flag: int,
    pub occurrence_date: Seq<char>,
    pub particulars: Seq<char>,
    pub amount: int,
    pub financial_institution: Seq<char>,
    pub major_category: Seq<char>,
    pub intermediate_category: Seq<char>,
    pub memo: Seq<char>,
    pub transfer_flag: int,
    pub mf_original_id: Seq<char>,
}

pub open spec fn mf_transaction_view(t: MfTransaction) -> MfTransactionView {
    MfTransactionView {
        include_flag: t.include_flag as int,
        occurrence_date: t.occurrence_date@,
        particulars: t.particulars@,
        amount: t.amount as int,
        financial_institution: t.financial_institution@,
        major_category: t.major_category@,
        intermediate_category: t.intermediate_category@,
        memo: t.memo@,
        transfer_flag: t.transfer_flag as int,
        mf_original_id: t.mf_original_id@,
    }
}

/// The transaction of one record (at least ten fields): 計算対象, 金額 and 振替
/// are read as `i32` and 日付 is normalized, in that order of fields; the first
/// that fails gives its message.
pub open spec fn mf_record_entry() -> spec_fn(Seq<Seq<char>>) -> Result<
    Seq<MfTransactionView>,
    Option<Seq<char>>,
> {
    |r: Seq<Seq<char>>|
        match spec_parse_i32(r[0]) {
            Err(k) => Err(Some(int_error_text(k))),
            Ok(include_flag) => match slashed_date_result(r[1]) {
                Err(m) => Err(Some(m)),
                Ok(date) => match spec_parse_i32(r[3]) {
                    Err(k) => Err(Some(int_error_text(k))),
                    Ok(amount) => match spec_parse_i32(r[8]) {
                        Err(k) => Err(Some(int_error_text(k))),
                        Ok(transfer_flag) => Ok(
                            seq![
                                MfTransactionView {
                                    include_flag,
                                    occurrence_date: date,
                                    particulars: r[2],
                                    amount,
                                    financial_institution: r[4],
                                    major_category: r[5],
                                    intermediate_category: r[6],
                                    memo: r[7],
                                    transfer_flag,
                                    mf_original_id: r[9],
                                },
                            ],
                        ),
                    },
                },
            },
        }
}

/// What reading a Money Forward export gives: `Err(Some(message))` for a
/// header row that differs from the expected one or a record that does not
/// convert, `Err(None)` for the CSV reader's error after the records read,
/// else the transactions in file order.
pub open spec fn mf_csv_rows(c: (Seq<Seq<char>>, Seq<Seq<Seq<char>>>, bool)) -> Result<
    Seq<MfTransactionView>,
    Option<Seq<char>>,
> {
    match header_scan(c.0, mf_expected_headers(), 0) {
        HeaderCheck::Mismatch(i) => Err(
            Some(header_mismatch_text(i as nat, mf_expected_headers()[i as int], c.0[i as int])),
        ),
        _ => match collect_all(c.1, mf_record_entry()) {
            Err(e) => Err(e),
            Ok(rows) => if c.2 {
                Err(None)
            } else {
                Ok(rows)
            },
        },
    }
}

pub open spec fn mf_result_view(r: Result<Vec<MfTransaction>, DbError>) -> Result<
    Seq<MfTransactionView>,
    Option<Seq<char>>,
> {
    match r {
        Ok(v) => Ok(v@.map_values(|t: MfTransaction| mf_transaction_view(t))),
        Err(DbError::Other(m)) => Err(Some(m@)),
        Err(_) => Err(None),
    }
}

fn mf_transaction_of(r: &Vec<String>) -> (res: Result<MfTransaction, String>)
    requires
        r@.len() >= 10,
    ensures
        mf_record_entry()(strings_view(r@)) == (match res {
            Ok(t) => Ok(seq![mf_transaction_view(t)]),
            Err(m) => Err(Some(m@)),
        }),
{
    let ghost rv = strings_view(r@);
    assert(forall|k: int| 0 <= k < r@.len() ==> #[trigger] rv[k] == r@[k]@);
    let include_flag = match parse_i32(r[0].as_str()) {
        Ok(n) => n,
        Err(k) => {
            return Err(int_error_message(k));
        },
    };
    let occurrence_date = match normalize_slashed_date(r[1].as_str()) {
        Ok(d) => d,
        Err(m) => {
            return Err(m);
        },
    };
    let amount = match parse_i32(r[3].as_str()) {
        Ok(n) => n,
        Err(k) => {
            return Err(int_error_message(k));
        },
    };
    let transfer_flag = match parse_i32(r[8].as_str()) {
        Ok(n) => n,
        Err(k) => {
            return Err(int_error_message(k));
        },
    };
    let t = MfTransaction {
        include_flag,
        occurrence_date,
        particulars: r[2].clone(),
        amount,
        financial_institution: r[4].clone(),
        major_category: r[5].clone(),
        intermediate_category: r[6].clone(),
        memo: r[7].clone(),
        transfer_flag,
        mf_original_id: r[9].clone(),
    };
    Ok(t)
}

/// Converts a Money Forward export read by the CSV reader: checks its header
/// row, then converts each record in order; a header or record that fails
/// gives `DbError::Other` with its message, and the reader's own error
/// (after the records read) gives `DbError::Csv`.
pub fn mf_transactions_from_csv(content: CsvContent) -> (r: Result<Vec<MfTransaction>, DbError>)
    requires
        header_scan(content_view(content).0, mf_expected_headers(), 0) != HeaderCheck::TooShort,
        records_match_header(content_view(content)),
    ensures
        mf_result_view(r) == mf_csv_rows(content_view(content)),
        r matches Err(e) ==> (e is Other || e is Csv),
        r matches Err(DbError::Csv(e)) ==> content.error == Some(e),
{
    let ghost c = content_view(content);
    let expected = mf_expected_headers_vec();
    match check_headers(&content.headers, &expected) {
        HeaderCheck::Mismatch(i) => {
            proof {
                lemma_header_scan(c.0, mf_expected_headers(), 0);
            }
            assert(strings_view(expected@)[i as int] == expected@[i as int]@);
            assert(c.0[i as int] == content.headers@[i as int]@);
            return Err(DbError::Other(header_mismatch_message(i, &expected[i], &content.headers[i])));
        },
        _ => {},
    }
    proof {
        lemma_header_scan(c.0, mf_expected_headers(), 0);
        reveal_strlit("ID");
        assert(mf_expected_headers()[9].len() > 0);
    }
    let records = &content.records;
    let ghost rv = records_view(records@);
    let mut rows: Vec<MfTransaction> = Vec::new();
    let mut i: usize = 0;
    assert(rv.take(0) =~= Seq::<Seq<Seq<char>>>::empty());
    assert(rows@.map_values(|t: MfTransaction| mf_transaction_view(t)) =~= Seq::<
        MfTransactionView,
    >::empty());
    while i < records.len()
        invariant
            i <= records@.len(),
            rv == records_view(records@),
            rv == c.1,
            c == content_view(content),
            !(header_scan(c.0, mf_expected_headers(), 0) is Mismatch),
            c.0.len() >= 10,
            records_match_header(c),
            collect_all(rv.take(i as int), mf_record_entry()) == Ok::<
                Seq<MfTransactionView>,
                Option<Seq<char>>,
            >(rows@.map_values(|t: MfTransaction| mf_transaction_view(t))),
        decreases records@.len() - i,
    {
        proof {
            lemma_collect_step(rv, mf_record_entry(), i as int);
        }
        assert(rv[i as int] == strings_view(records@[i as int]@));
        assert(rv[i as int].len() == c.0.len());
        match mf_transaction_of(&records[i]) {
            Ok(t) => {
                let ghost before = rows@;
                let ghost tv = mf_transaction_view(t);
                rows.push(t);
                assert(rows@.map_values(|t: MfTransaction| mf_transaction_view(t)) =~= before.map_values(
                    |t: MfTransaction| mf_transaction_view(t),
                ) + seq![tv]);
            },
            Err(m) => {
                proof {
                    lemma_collect_stops(rv, mf_record_entry(), i + 1);
                }
                return Err(DbError::Other(m));
            },
        }
        i = i + 1;
    }
    proof {
        lemma_collect_whole(rv, mf_record_entry());
    }
    match content.error {
        Some(e) => Err(DbError::Csv(e)),
        None => Ok(rows),
    }
}

/// Reads a Money Forward transaction export (Shift_JIS CSV bytes). `None`
/// stands for a header row that ends before an expected column whose name
/// is reached (where indexing the header row would panic); otherwise the
/// result of `mf_transactions_from_csv`, or `DbError::Csv` when the header
/// row cannot be read.
pub fn load_mf_transactions_csv(bytes: &[u8]) -> (r: Option<Result<Vec<MfTransaction>, DbError>>)
    ensures
        csv_content(shift_jis_decoded(bytes@)) is None ==> (r matches Some(Err(e)) && e is Csv),
        csv_content(shift_jis_decoded(bytes@)) matches Some(c) ==> {
            &&& r is None <==> header_scan(c.0, mf_expected_headers(), 0) == HeaderCheck::TooShort
            &&& r matches Some(res) ==> mf_result_view(res) == mf_csv_rows(c)
        },
        !(r matches Some(Err(DbError::Std(_)))),
{
    match read_csv_shift_jis(bytes) {
        Err(e) => Some(Err(DbError::Csv(e))),
        Ok(content) => {
            let expected = mf_expected_headers_vec();
            if check_headers(&content.headers, &expected) == HeaderCheck::TooShort {
                None
            } else {
                Some(mf_transactions_from_csv(content))
            }
        },
    }
}

/// Reads the manual categorizations of a YAML file's text (see
/// `mf_manual_categorizations`).
pub fn load_mf_transaction_manual_categorization_yaml(text: &str) -> (r: Result<Vec<ManualCategorization>, DbError>)
    ensures
        match yaml_document(text@) {
            None => r matches Err(e) && e is Yaml,
            Some(doc) => match manual_rows(doc) {
                Ok(rows) => r matches Ok(v) && v@.map_values(|c: ManualCategorization| manual_view(c)) == rows,
                Err(e) => r matches Err(DbError::Other(m)) && m@ == yaml_error_text(e),
            },
        },
{
    let doc = match parse_yaml(text) {
        Ok(d) => d,
        Err(e) => {
            return Err(DbError::Yaml(e));
        },
    };
    proof {
        lemma_manual_tags(doc@);
    }
    match mf_manual_categorizations(&doc) {
        Ok(v) => Ok(v),
        Err(e) => Err(DbError::Other(yaml_error_message(&e))),
    }
}

/// Reads the categorization rules of a YAML file's text (see
/// `mf_categorization_rules`).
pub fn load_categorization_rules_yaml(text: &str) -> (r: Result<Vec<MfCategorizationRule>, DbError>)
    ensures
        match yaml_document(text@) {
            None => r matches Err(e) && e is Yaml,
            Some(doc) => match mf_rule_rows(doc) {
                Ok(rows) => r matches Ok(v) && v@.map_values(|x: MfCategorizationRule| mf_rule_view(x)) == rows,
                Err(e) => r matches Err(DbError::Other(m)) && m@ == yaml_error_text(e),
            },
        },
{
    let doc = match parse_yaml(text) {
        Ok(d) => d,
        Err(e) => {
            return Err(DbError::Yaml(e));
        },
    };
    proof {
        lemma_mf_rule_tags(doc@);
    }
    match mf_categorization_rules(&doc) {
        Ok(v) => Ok(v),
        Err(e) => Err(DbError::Other(yaml_error_message(&e))),
    }
}

/// The values named in the errors of a manual-categorization document with
/// non-empty tags have non-empty tags.
proof fn lemma_manual_tags(doc: YamlView)
    requires
        tags_nonempty(doc),
    ensures
        result_tags_nonempty(manual_rows(doc)),
{
    lemma_index_tags(doc, "mapping"@);
    let v = view_index(doc, "mapping"@);
    if let Some(m) = view_as_mapping(v) {
        lemma_entries_of_tags(v, m);
        assert forall|i: int| 0 <= i < m.len() implies result_tags_nonempty(
            #[trigger] manual_entry()(m[i]),
        ) by {
            let e = m[i];
            assert(tags_nonempty(m[i].0));
            assert(tags_nonempty(m[i].1));
            if let Some(cats) = view_as_mapping(e.1) {
                lemma_entries_of_tags(e.1, cats);
                assert forall|k: int| 0 <= k < cats.len() implies tags_nonempty(#[trigger] cats[k].1) by {
                    assert(tags_nonempty(cats[k].0));
                }
                lemma_lookup_tags(cats, "category"@);
                lemma_lookup_tags(cats, "sub-category"@);
            }
        }
        lemma_collect_tags(m, manual_entry());
    }
}

/// A rules document's errors name no value.
proof fn lemma_mf_rule_tags(doc: YamlView)
    ensures
        result_tags_nonempty(mf_rule_rows(doc)),
{
    if let Some(rules) = view_as_sequence(view_index(doc, "rules"@)) {
        assert forall|i: int| 0 <= i < rules.len() implies result_tags_nonempty(
            #[trigger] mf_rule_entry()(rules[i]),
        ) by {}
        lemma_collect_tags(rules, mf_rule_entry());
    }
}

/// Each rule read from a rules document comes from the element of `rules:`
/// at the same position, and takes every condition from the key of that
/// name in the element's `if:` block (计算対象, 日付's `min`/`max`, 内容, 金額's
/// `min`/`max`, 金融機関, 大項目, 中項目, メモ, 振替), its category from the
/// `set:` block's `category` and its sub-category from `sub-category`.
pub proof fn lemma_mf_rules_read_their_keys(doc: YamlView)
    ensures
        mf_rule_rows(doc) is Ok ==> view_as_sequence(view_index(doc, "rules"@)) is Some,
        mf_rule_rows(doc) is Ok ==> ({
            let rules = mf_rule_rows(doc)->Ok_0;
            let items = view_as_sequence(view_index(doc, "rules"@))->Some_0;
            &&& rules.len() == items.len()
            &&& forall|i: int|
                #![trigger rules[i]]
                0 <= i < items.len() ==> {
                    let cond = view_index(items[i], "if"@);
                    let set = view_index(items[i], "set"@);
                    &&& rules[i].include_flag == view_i64_field(cond, "計算対象"@)
                    &&& rules[i].occurrence_date_min == view_nested_str_field(cond, "日付"@, "min"@)
                    &&& rules[i].occurrence_date_max == view_nested_str_field(cond, "日付"@, "max"@)
                    &&& rules[i].particulars_glob == view_str_field(cond, "内容"@)
                    &&& rules[i].amount_min == view_nested_i64_field(cond, "金額"@, "min"@)
                    &&& rules[i].amount_max == view_nested_i64_field(cond, "金額"@, "max"@)
                    &&& rules[i].financial_institution == view_str_field(cond, "金融機関"@)
                    &&& rules[i].major_category == view_str_field(cond, "大項目"@)
                    &&& rules[i].intermediate_category == view_str_field(cond, "中項目"@)
                    &&& rules[i].memo_glob == view_str_field(cond, "メモ"@)
                    &&& rules[i].transfer_flag == view_i64_field(cond, "振替"@)
                    &&& view_str_field(set, "category"@) == Some(rules[i].new_category)
                    &&& rules[i].new_sub_category == view_str_field(set, "sub-category"@)
                }
        }),
{
    if let Some(items) = view_as_sequence(view_index(doc, "rules"@)) {
        assert forall|j: int| 0 <= j < items.len() implies (#[trigger] mf_rule_entry()(items[j]) matches Ok(
            r,
        ) ==> r.len() == 1) by {}
        lemma_collect_singletons(items, mf_rule_entry());
        if mf_rule_rows(doc) is Ok {
            let rules = mf_rule_rows(doc)->Ok_0;
            assert forall|i: int| #![trigger rules[i]] 0 <= i < items.len() implies {
                let cond = view_index(items[i], "if"@);
                let set = view_index(items[i], "set"@);
                &&& rules[i].include_flag == view_i64_field(cond, "計算対象"@)
                &&& rules[i].occurrence_date_min == view_nested_str_field(cond, "日付"@, "min"@)
                &&& rules[i].occurrence_date_max == view_nested_str_field(cond, "日付"@, "max"@)
                &&& rules[i].particulars_glob == view_str_field(cond, "内容"@)
                &&& rules[i].amount_min == view_nested_i64_field(cond, "金額"@, "min"@)
                &&& rules[i].amount_max == view_nested_i64_field(cond, "金額"@, "max"@)
                &&& rules[i].financial_institution == view_str_field(cond, "金融機関"@)
                &&& rules[i].major_category == view_str_field(cond, "大項目"@)
                &&& rules[i].intermediate_category == view_str_field(cond, "中項目"@)
                &&& rules[i].memo_glob == view_str_field(cond, "メモ"@)
                &&& rules[i].transfer_flag == view_i64_field(cond, "振替"@)
                &&& view_str_field(set, "category"@) == Some(rules[i].new_category)
                &&& rules[i].new_sub_category == view_str_field(set, "sub-category"@)
            } by {
                let e = mf_rule_entry()(items[i]);
                assert(e == Ok::<Seq<MfRuleView>, YamlErrorView>(seq![rules[i]]));
                assert(view_get(items[i], "set"@) is Some);
                let set0 = view_get(items[i], "set"@)->Some_0;
                assert(view_index(items[i], "set"@) == set0);
                assert(view_str_field(set0, "category"@) is Some);
                let c = view_str_field(set0, "category"@)->Some_0;
                let x = mf_rule_from(view_index(items[i], "if"@), c, view_str_field(set0, "sub-category"@));
                assert(e == Ok::<Seq<MfRuleView>, YamlErrorView>(seq![x]));
                assert(seq![x][0] == seq![rules[i]][0]);
                assert(x == rules[i]);
            }
        }
    }
}

/// A Money Forward export reads as transactions only when the CSV reader
/// read every record (its error is never dropped), and then as one
/// transaction per record, in order, each taking its fields from the
/// record's columns: 計算対象, 金額 and 振替 read as `i32`, 日付 normalized,
/// the other columns as they are.
pub proof fn lemma_mf_csv_rows_law(c: (Seq<Seq<char>>, Seq<Seq<Seq<char>>>, bool))
    ensures
        c.2 ==> mf_csv_rows(c) is Err,
        mf_csv_rows(c) is Ok ==> ({
            let rows = mf_csv_rows(c)->Ok_0;
            &&& !c.2
            &&& rows.len() == c.1.len()
            &&& forall|i: int|
                #![trigger rows[i]]
                0 <= i < c.1.len() ==> {
                    let r = c.1[i];
                    &&& rows[i].include_flag == spec_parse_i32(r[0])->Ok_0
                    &&& rows[i].occurrence_date == slashed_date_result(r[1])->Ok_0
                    &&& rows[i].particulars == r[2]
                    &&& rows[i].amount == spec_parse_i32(r[3])->Ok_0
                    &&& rows[i].financial_institution == r[4]
                    &&& rows[i].major_category == r[5]
                    &&& rows[i].intermediate_category == r[6]
                    &&& rows[i].memo == r[7]
                    &&& rows[i].transfer_flag == spec_parse_i32(r[8])->Ok_0
                    &&& rows[i].mf_original_id == r[9]
                    &&& spec_parse_i32(r[0]) is Ok && slashed_date_result(r[1]) is Ok && spec_parse_i32(r[3]) is Ok && spec_parse_i32(r[8]) is Ok
                }
        }),
{
    if !(header_scan(c.0, mf_expected_headers(), 0) is Mismatch) {
        assert forall|j: int| 0 <= j < c.1.len() implies (#[trigger] mf_record_entry()(c.1[j]) matches Ok(
            r,
        ) ==> r.len() == 1) by {}
        lemma_collect_singletons(c.1, mf_record_entry());
        if mf_csv_rows(c) is Ok {
            let rows = mf_csv_rows(c)->Ok_0;
            assert forall|i: int| #![trigger rows[i]] 0 <= i < c.1.len() implies {
                let r = c.1[i];
                &&& rows[i].include_flag == spec_parse_i32(r[0])->Ok_0
                &&& rows[i].occurrence_date == slashed_date_result(r[1])->Ok_0
                &&& rows[i].particulars == r[2]
                &&& rows[i].amount == spec_parse_i32(r[3])->Ok_0
                &&& rows[i].financial_institution == r[4]
                &&& rows[i].major_category == r[5]
                &&& rows[i].intermediate_category == r[6]
                &&& rows[i].memo == r[7]
                &&& rows[i].transfer_flag == spec_parse_i32(r[8])->Ok_0
                &&& rows[i].mf_original_id == r[9]
                &&& spec_parse_i32(r[0]) is Ok && slashed_date_result(r[1]) is Ok && spec_parse_i32(r[3]) is Ok && spec_parse_i32(r[8]) is Ok
            } by {
                let e = mf_record_entry()(c.1[i]);
                assert(e == Ok::<Seq<MfTransactionView>, Option<Seq<char>>>(seq![rows[i]]));
                assert(e->Ok_0[0] == rows[i]);
            }
        }
    }
}

} // verus!
