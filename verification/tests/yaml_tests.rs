use transaction_etl::error::DbError;
use transaction_etl::input::amazon_ohfd::load::{
    amazon_categorization_rules as load_amazon_rules, amazon_manual_categorizations,
    load_amazon_ohfd_manual_categorization_yaml, load_categorization_rules_yaml as load_amazon_rules_text,
    load_mapping_amazon_ohfd_credit_card_to_channel_yaml,
};
use transaction_etl::input::common::load::{
    channel_group_pairs, load_map_channel_group_to_channel_yaml, string_mapping_pairs,
};
use transaction_etl::input::money_forward::load::{
    load_categorization_rules_yaml as load_mf_rules_text, load_mapping_mf_financial_institution_to_channel_yaml,
    load_mf_transaction_manual_categorization_yaml, mf_categorization_rules as load_mf_rules,
    mf_manual_categorizations,
};
use transaction_etl::utils::yaml::{
    as_i64, as_str, get, nested_i64_field, nested_str_field, str_field, YamlError, YamlNumber,
    YamlValue,
};

fn s(x: &str) -> YamlValue {
    YamlValue::String(x.to_string())
}

fn n(x: i64) -> YamlValue {
    if x >= 0 {
        YamlValue::Number(YamlNumber::PosInt(x as u64))
    } else {
        YamlValue::Number(YamlNumber::NegInt(x))
    }
}

fn map(entries: Vec<(&str, YamlValue)>) -> YamlValue {
    YamlValue::Mapping(entries.into_iter().map(|(k, v)| (s(k), v)).collect())
}

fn message_of(e: &YamlError) -> String {
    match e {
        YamlError::Message(m) => m.clone(),
        YamlError::WithValue(m, _) => m.clone(),
    }
}

#[test]
fn lookups_see_through_tags() {
    let tagged = YamlValue::Tagged("!t".to_string(), Box::new(s("x")));
    assert_eq!(as_str(&tagged).map(|v| v.as_str()), Some("x"));
    assert_eq!(as_i64(&n(-3)), Some(-3));
    assert_eq!(as_i64(&YamlValue::Number(YamlNumber::PosInt(u64::MAX))), None);
    assert_eq!(as_i64(&YamlValue::Number(YamlNumber::Float("1.5".to_string()))), None);
    let doc = map(vec![("a", map(vec![("min", s("2024-01-01")), ("max", n(5))]))]);
    assert!(get(&doc, "a").is_some());
    assert!(get(&doc, "b").is_none());
    assert_eq!(nested_str_field(&doc, "a", "min"), Some("2024-01-01".to_string()));
    assert_eq!(nested_str_field(&doc, "a", "max"), None);
    assert_eq!(nested_i64_field(&doc, "a", "max"), Some(5));
    assert_eq!(str_field(&doc, "a"), None);
}

#[test]
fn tagged_keys_do_not_match_string_lookups() {
    let doc = YamlValue::Mapping(vec![(
        YamlValue::Tagged("!k".to_string(), Box::new(s("a"))),
        s("v"),
    )]);
    assert!(get(&doc, "a").is_none());
}

#[test]
fn channel_groups_in_document_order() {
    let doc = map(vec![(
        "mapping",
        map(vec![
            ("G1", YamlValue::Sequence(vec![s("c1"), s("c2")])),
            ("G2", YamlValue::Sequence(vec![s("c3")])),
            ("G3", YamlValue::Sequence(vec![])),
        ]),
    )]);
    let rows = channel_group_pairs(&doc).unwrap();
    let expected = vec![("G1", "c1"), ("G1", "c2"), ("G2", "c3")];
    assert_eq!(rows.len(), expected.len());
    for (r, e) in rows.iter().zip(expected) {
        assert_eq!((r.0.as_str(), r.1.as_str()), e);
    }
}

#[test]
fn channel_group_errors() {
    let e = channel_group_pairs(&map(vec![("other", n(1))])).unwrap_err();
    assert!(matches!(&e, YamlError::Message(m) if m == "YAML の `mapping` がハッシュではありません"));
    let doc = map(vec![("mapping", map(vec![("G1", s("c1"))]))]);
    let e = channel_group_pairs(&doc).unwrap_err();
    assert_eq!(message_of(&e), "Invalid value for group 'G1': ");
    assert!(matches!(e, YamlError::WithValue(_, YamlValue::String(ref v)) if v == "c1"));
    let doc = map(vec![("mapping", map(vec![("G1", YamlValue::Sequence(vec![s("c1"), n(2)]))]))]);
    let e = channel_group_pairs(&doc).unwrap_err();
    assert_eq!(message_of(&e), "Invalid channel code in group 'G1': ");
    let doc = map(vec![("mapping", YamlValue::Mapping(vec![(n(1), YamlValue::Sequence(vec![]))]))]);
    let e = channel_group_pairs(&doc).unwrap_err();
    assert_eq!(message_of(&e), "Invalid key: ");
}

#[test]
fn string_mappings() {
    let doc = map(vec![("mapping", map(vec![("銀行A", s("bank-a")), ("カードB", s("card-b"))]))]);
    let rows = string_mapping_pairs(&doc).unwrap();
    assert_eq!(rows, vec![
        ("銀行A".to_string(), "bank-a".to_string()),
        ("カードB".to_string(), "card-b".to_string()),
    ]);
    let rows = string_mapping_pairs(&doc).unwrap();
    assert_eq!(rows.len(), 2);
    let bad = map(vec![("mapping", map(vec![("銀行A", n(3))]))]);
    let e = string_mapping_pairs(&bad).unwrap_err();
    assert_eq!(message_of(&e), "Invalid value: ");
    let e = string_mapping_pairs(&s("x")).unwrap_err();
    assert_eq!(message_of(&e), "YAML の `mapping` がハッシュではありません");
}

#[test]
fn mf_manual_categorizations_in_document_order() {
    let doc = map(vec![(
        "mapping",
        map(vec![
            ("id1", map(vec![("category", s("食費")), ("sub-category", s("外食"))])),
            ("id2", map(vec![("category", s("交通費"))])),
        ]),
    )]);
    let rows = mf_manual_categorizations(&doc).unwrap();
    assert_eq!(rows.len(), 2);
    assert_eq!(rows[0].mf_original_id, "id1");
    assert_eq!(rows[0].category, "食費");
    assert_eq!(rows[0].sub_category.as_deref(), Some("外食"));
    assert_eq!(rows[1].mf_original_id, "id2");
    assert_eq!(rows[1].sub_category, None);

    let missing = map(vec![("mapping", map(vec![("id1", map(vec![("sub-category", s("x"))]))]))]);
    let e = mf_manual_categorizations(&missing).unwrap_err();
    assert_eq!(message_of(&e), "category がありません");
    let wrong = map(vec![("mapping", map(vec![("id1", map(vec![("category", n(1))]))]))]);
    let e = mf_manual_categorizations(&wrong).unwrap_err();
    assert_eq!(message_of(&e), "Invalid category for id id1: ");
    let not_map = map(vec![("mapping", map(vec![("id1", s("食費"))]))]);
    let e = mf_manual_categorizations(&not_map).unwrap_err();
    assert_eq!(message_of(&e), "Invalid value for id 'id1': ");
}

#[test]
fn mf_rules() {
    let rule = map(vec![
        (
            "if",
            map(vec![
                ("計算対象", n(1)),
                ("日付", map(vec![("min", s("2024-01-01")), ("max", s("2024-12-31"))])),
                ("内容", s("*コンビニ*")),
                ("金額", map(vec![("min", n(-5000)), ("max", n(0))])),
                ("金融機関", s("カードA")),
                ("振替", n(0)),
            ]),
        ),
        ("set", map(vec![("category", s("食費")), ("sub-category", s("間食"))])),
    ]);
    let no_if = map(vec![("set", map(vec![("category", s("その他"))]))]);
    let doc = map(vec![("rules", YamlValue::Sequence(vec![rule, no_if]))]);
    let rules = load_mf_rules(&doc).unwrap();
    assert_eq!(rules.len(), 2);
    let r = &rules[0];
    assert_eq!(r.include_flag, Some(1));
    assert_eq!(r.occurrence_date_min.as_deref(), Some("2024-01-01"));
    assert_eq!(r.occurrence_date_max.as_deref(), Some("2024-12-31"));
    assert_eq!(r.particulars_glob.as_deref(), Some("*コンビニ*"));
    assert_eq!(r.amount_min, Some(-5000));
    assert_eq!(r.amount_max, Some(0));
    assert_eq!(r.financial_institution.as_deref(), Some("カードA"));
    assert_eq!(r.major_category, None);
    assert_eq!(r.intermediate_category, None);
    assert_eq!(r.memo_glob, None);
    assert_eq!(r.transfer_flag, Some(0));
    assert_eq!(r.new_category, "食費");
    assert_eq!(r.new_sub_category.as_deref(), Some("間食"));
    let r = &rules[1];
    assert_eq!(r.include_flag, None);
    assert_eq!(r.new_category, "その他");
    assert_eq!(r.new_sub_category, None);
}

#[test]
fn mf_rule_errors() {
    let e = load_mf_rules(&map(vec![("rules", map(vec![]))])).unwrap_err();
    assert_eq!(message_of(&e), "YAML の `rules` が配列ではありません");
    let doc = map(vec![("rules", YamlValue::Sequence(vec![map(vec![("if", map(vec![]))])]))]);
    let e = load_mf_rules(&doc).unwrap_err();
    assert_eq!(message_of(&e), "ルールに `set` ブロックがありません");
    let doc = map(vec![("rules", YamlValue::Sequence(vec![map(vec![("set", map(vec![("category", n(1))]))])]))]);
    let e = load_mf_rules(&doc).unwrap_err();
    assert_eq!(message_of(&e), "`set` ブロックに `category` がありません");
}

#[test]
fn amazon_rules_and_manual_categorizations() {
    let rule = map(vec![
        (
            "if",
            map(vec![
                ("注文日", map(vec![("min", s("2024-01-01"))])),
                ("商品名", s("*本*")),
                ("付帯情報", s("*Kindle*")),
                ("金額", map(vec![("max", n(3000))])),
                ("クレカ種類", s("VISA")),
            ]),
        ),
        ("set", map(vec![("category", s("書籍"))])),
    ]);
    let rules = load_amazon_rules(&map(vec![("rules", YamlValue::Sequence(vec![rule]))])).unwrap();
    assert_eq!(rules.len(), 1);
    let r = &rules[0];
    assert_eq!(r.order_date_min.as_deref(), Some("2024-01-01"));
    assert_eq!(r.order_date_max, None);
    assert_eq!(r.product_name_glob.as_deref(), Some("*本*"));
    assert_eq!(r.product_info_glob.as_deref(), Some("*Kindle*"));
    assert_eq!(r.amount_min, None);
    assert_eq!(r.amount_max, Some(3000));
    assert_eq!(r.credit_card.as_deref(), Some("VISA"));
    assert_eq!(r.new_category, "書籍");
    assert_eq!(r.new_sub_category, None);

    let entry = map(vec![
        ("if", map(vec![("注文番号", s("123-456"))])),
        ("set", map(vec![("category", s("日用品")), ("sub-category", s("洗剤"))])),
    ]);
    let doc = map(vec![("mapping", YamlValue::Sequence(vec![entry]))]);
    let rows = amazon_manual_categorizations(&doc).unwrap();
    assert_eq!(rows.len(), 1);
    assert_eq!(rows[0].order_no.as_deref(), Some("123-456"));
    assert_eq!(rows[0].product_name, None);
    assert_eq!(rows[0].category, "日用品");
    assert_eq!(rows[0].sub_category.as_deref(), Some("洗剤"));

    let no_if = map(vec![("mapping", YamlValue::Sequence(vec![map(vec![("set", map(vec![]))])]))]);
    let e = amazon_manual_categorizations(&no_if).unwrap_err();
    assert_eq!(message_of(&e), "ルールに `if` ブロックがありません");
    let e = amazon_manual_categorizations(&map(vec![("mapping", map(vec![]))])).unwrap_err();
    assert_eq!(message_of(&e), "YAML の `mapping` が配列ではありません");
}

fn other_message(r: Result<impl std::fmt::Debug, DbError>) -> String {
    match r {
        Err(DbError::Other(m)) => m,
        other => panic!("{:?}", other),
    }
}

#[test]
fn text_loaders_parse_yaml() {
    let rows = load_map_channel_group_to_channel_yaml("mapping:\n  G1: [c1, c2]\n  G2:\n    - c3\n").unwrap();
    assert_eq!(rows, vec![
        ("G1".to_string(), "c1".to_string()),
        ("G1".to_string(), "c2".to_string()),
        ("G2".to_string(), "c3".to_string()),
    ]);
    let rows = load_mapping_mf_financial_institution_to_channel_yaml("mapping:\n  銀行A: bank-a\n").unwrap();
    assert_eq!(rows, vec![("銀行A".to_string(), "bank-a".to_string())]);
    let rows = load_mapping_amazon_ohfd_credit_card_to_channel_yaml("mapping: {VISA: card-v}").unwrap();
    assert_eq!(rows, vec![("VISA".to_string(), "card-v".to_string())]);
    let rules = load_mf_rules_text("rules:\n  - if: {金額: {min: -100}}\n    set: {category: 食費}\n").unwrap();
    assert_eq!(rules.len(), 1);
    assert_eq!(rules[0].amount_min, Some(-100));
    let rules = load_amazon_rules_text("rules: []").unwrap();
    assert!(rules.is_empty());
    let rows = load_mf_transaction_manual_categorization_yaml("mapping:\n  id9: {category: 雑費}\n").unwrap();
    assert_eq!(rows[0].mf_original_id, "id9");
    let rows = load_amazon_ohfd_manual_categorization_yaml(
        "mapping:\n  - if: {商品名: 本}\n    set: {category: 書籍, sub-category: 漫画}\n",
    )
    .unwrap();
    assert_eq!(rows[0].product_name.as_deref(), Some("本"));
}

#[test]
fn text_loaders_report_invalid_yaml() {
    assert!(matches!(load_map_channel_group_to_channel_yaml("mapping: [\n"), Err(DbError::Yaml(_))));
    assert!(matches!(load_mf_rules_text("a: b: c"), Err(DbError::Yaml(_))));
}

#[test]
fn text_loaders_print_offending_values_as_serde_yaml_does() {
    let m = other_message(load_map_channel_group_to_channel_yaml("mapping:\n  G1: c1\n"));
    assert_eq!(m, format!("Invalid value for group 'G1': {:?}", serde_yaml::Value::String("c1".to_string())));
    let m = other_message(load_map_channel_group_to_channel_yaml("mapping:\n  G1: [1.5]\n"));
    let v: serde_yaml::Value = serde_yaml::from_str("1.5").unwrap();
    assert_eq!(m, format!("Invalid channel code in group 'G1': {:?}", v));
    let m = other_message(load_mapping_mf_financial_institution_to_channel_yaml("mapping:\n  A: {x: [1, -2, null, true]}\n"));
    let v: serde_yaml::Value = serde_yaml::from_str("{x: [1, -2, null, true]}").unwrap();
    assert_eq!(m, format!("Invalid value: {:?}", v));
    let m = other_message(load_mf_transaction_manual_categorization_yaml("mapping:\n  1: {category: x}\n"));
    let v: serde_yaml::Value = serde_yaml::from_str("1").unwrap();
    assert_eq!(m, format!("Invalid key: {:?}", v));
    let m = other_message(load_mf_rules_text("rules: {}"));
    assert_eq!(m, "YAML の `rules` が配列ではありません");
}

#[test]
fn tagged_offending_values_are_printed_with_their_tag() {
    let m = other_message(load_map_channel_group_to_channel_yaml("mapping:\n  G1: !grp [c1]\n  G2: !x 3\n"));
    let v: serde_yaml::Value = serde_yaml::from_str("!x 3").unwrap();
    assert_eq!(m, format!("Invalid value for group 'G2': {:?}", v));
}
