//! A YAML document as plain values (the shape of `serde_yaml::Value`), and
//! the lookups that the loaders make on it, with the semantics that
//! `serde_yaml` gives them: `get`, `[..]`, `as_str`, `as_i64`, `as_sequence`
//! and `as_mapping` all look through tags, and a key given as a string
//! matches only an untagged string key.

use vstd::prelude::*;

verus! {

/// A YAML number: a non-negative integer, a negative integer, or a float
/// (held as the text that `serde_yaml::Number`'s `Display` prints for it).
#[derive(Debug)]
pub enum YamlNumber {
    PosInt(u64),
    NegInt(i64),
    Float(String),
}

/// A YAML value. A mapping keeps its entries in document order.
#[derive(Debug)]
pub enum YamlValue {
    Null,
    Bool(bool),
    Number(YamlNumber),
    String(String),
    Sequence(Vec<YamlValue>),
    Mapping(Vec<(YamlValue, YamlValue)>),
    /// A tag (its text, `!` included) on a value.
    Tagged(String, Box<YamlValue>),
}

pub enum NumberView {
    PosInt(u64),
    NegInt(i64),
    Float(Seq<char>),
}

/// The mathematical content of a `YamlValue`.
pub enum YamlView {
    Null,
    Bool(bool),
    Number(NumberView),
    String(Seq<char>),
    Sequence(Seq<YamlView>),
    Mapping(Seq<(YamlView, YamlView)>),
    Tagged(Seq<char>, Box<YamlView>),
}

pub open spec fn number_view(n: YamlNumber) -> NumberView {
    match n {
        YamlNumber::PosInt(u) => NumberView::PosInt(u),
        YamlNumber::NegInt(i) => NumberView::NegInt(i),
        YamlNumber::Float(s) => NumberView::Float(s@),
    }
}

pub open spec fn value_view(v: YamlValue) -> YamlView
    decreases v, 0int,
{
    match v {
        YamlValue::Null => YamlView::Null,
        YamlValue::Bool(b) => YamlView::Bool(b),
        YamlValue::Number(n) => YamlView::Number(number_view(n)),
        YamlValue::String(s) => YamlView::String(s@),
        YamlValue::Sequence(items) => YamlView::Sequence(values_view(items@)),
        YamlValue::Mapping(entries) => YamlView::Mapping(entries_view(entries@)),
        YamlValue::Tagged(tag, inner) => YamlView::Tagged(tag@, Box::new(value_view(*inner))),
    }
}

pub open spec fn values_view(s: Seq<YamlValue>) -> Seq<YamlView>
    decreases s, s.len(),
{
    if s.len() == 0 {
        Seq::<YamlView>::empty()
    } else {
        values_view(s.subrange(0, s.len() - 1)).push(value_view(s[s.len() - 1]))
    }
}

pub open spec fn entries_view(s: Seq<(YamlValue, YamlValue)>) -> Seq<(YamlView, YamlView)>
    decreases s, s.len(),
{
    if s.len() == 0 {
        Seq::<(YamlView, YamlView)>::empty()
    } else {
        entries_view(s.subrange(0, s.len() - 1)).push(
            (value_view(s[s.len() - 1].0), value_view(s[s.len() - 1].1)),
        )
    }
}

impl View for YamlValue {
    type V = YamlView;

    open spec fn view(&self) -> YamlView {
        value_view(*self)
    }
}

pub proof fn lemma_values_view(s: Seq<YamlValue>)
    ensures
        values_view(s).len() == s.len(),
        forall|i: int| 0 <= i < s.len() ==> #[trigger] values_view(s)[i] == value_view(s[i]),
    decreases s.len(),
{
    if s.len() > 0 {
        lemma_values_view(s.subrange(0, s.len() - 1));
    }
}

pub proof fn lemma_entries_view(s: Seq<(YamlValue, YamlValue)>)
    ensures
        entries_view(s).len() == s.len(),
        forall|i: int|
            0 <= i < s.len() ==> #[trigger] entries_view(s)[i] == (
                value_view(s[i].0),
                value_view(s[i].1),
            ),
    decreases s.len(),
{
    if s.len() > 0 {
        lemma_entries_view(s.subrange(0, s.len() - 1));
    }
}

/// Every tag in `v` is non-empty (as in every document `serde_yaml` parses:
/// a tag's text always starts with `!`).
pub open spec fn tags_nonempty(v: YamlView) -> bool
    decreases v, 0int,
{
    match v {
        YamlView::Tagged(t, inner) => t.len() > 0 && tags_nonempty(*inner),
        YamlView::Sequence(s) => all_tags_nonempty(s),
        YamlView::Mapping(m) => entries_tags_nonempty(m),
        _ => true,
    }
}

pub open spec fn all_tags_nonempty(s: Seq<YamlView>) -> bool
    decreases s, s.len(),
{
    if s.len() == 0 {
        true
    } else {
        all_tags_nonempty(s.subrange(0, s.len() - 1)) && tags_nonempty(s[s.len() - 1])
    }
}

pub open spec fn entries_tags_nonempty(m: Seq<(YamlView, YamlView)>) -> bool
    decreases m, m.len(),
{
    if m.len() == 0 {
        true
    } else {
        entries_tags_nonempty(m.subrange(0, m.len() - 1)) && tags_nonempty(m[m.len() - 1].0)
            && tags_nonempty(m[m.len() - 1].1)
    }
}

pub proof fn lemma_all_tags_nonempty(s: Seq<YamlView>)
    requires
        all_tags_nonempty(s),
    ensures
        forall|i: int| 0 <= i < s.len() ==> tags_nonempty(#[trigger] s[i]),
    decreases s.len(),
{
    if s.len() > 0 {
        let t = s.subrange(0, s.len() - 1);
        lemma_all_tags_nonempty(t);
        assert forall|i: int| 0 <= i < s.len() implies tags_nonempty(#[trigger] s[i]) by {
            if i < s.len() - 1 {
                assert(t[i] == s[i]);
            }
        }
    }
}

pub proof fn lemma_entries_tags_nonempty(m: Seq<(YamlView, YamlView)>)
    requires
        entries_tags_nonempty(m),
    ensures
        forall|i: int| 0 <= i < m.len() ==> tags_nonempty(#[trigger] m[i].0) && tags_nonempty(m[i].1),
    decreases m.len(),
{
    if m.len() > 0 {
        let t = m.subrange(0, m.len() - 1);
        lemma_entries_tags_nonempty(t);
        assert forall|i: int| 0 <= i < m.len() implies tags_nonempty(#[trigger] m[i].0) && tags_nonempty(
            m[i].1,
        ) by {
            if i < m.len() - 1 {
                assert(t[i] == m[i]);
            }
        }
    }
}

proof fn lemma_untagged_tags(v: YamlView)
    requires
        tags_nonempty(v),
    ensures
        tags_nonempty(untagged(v)),
    decreases v,
{
    if let YamlView::Tagged(_, inner) = v {
        lemma_untagged_tags(*inner);
    }
}

/// The entries of a mapping with non-empty tags have non-empty tags.
pub proof fn lemma_mapping_tags(v: YamlView)
    requires
        tags_nonempty(v),
    ensures
        view_as_mapping(v) matches Some(m) ==> forall|i: int|
            0 <= i < m.len() ==> tags_nonempty(#[trigger] m[i].0) && tags_nonempty(m[i].1),
{
    lemma_untagged_tags(v);
    if let Some(m) = view_as_mapping(v) {
        lemma_entries_tags_nonempty(m);
    }
}

/// The entries `m` of a mapping with non-empty tags have non-empty tags.
pub proof fn lemma_entries_of_tags(v: YamlView, m: Seq<(YamlView, YamlView)>)
    requires
        tags_nonempty(v),
        view_as_mapping(v) == Some(m),
    ensures
        forall|i: int| 0 <= i < m.len() ==> tags_nonempty(#[trigger] m[i].0) && tags_nonempty(m[i].1),
{
    lemma_untagged_tags(v);
    lemma_entries_tags_nonempty(m);
}

/// The items of a sequence with non-empty tags have non-empty tags.
pub proof fn lemma_sequence_tags(v: YamlView)
    requires
        tags_nonempty(v),
    ensures
        view_as_sequence(v) matches Some(s) ==> forall|i: int|
            0 <= i < s.len() ==> tags_nonempty(#[trigger] s[i]),
{
    lemma_untagged_tags(v);
    if let Some(s) = view_as_sequence(v) {
        lemma_all_tags_nonempty(s);
    }
}

/// A value looked up among entries whose values have non-empty tags has
/// non-empty tags.
pub proof fn lemma_lookup_tags(m: Seq<(YamlView, YamlView)>, name: Seq<char>)
    requires
        forall|i: int| 0 <= i < m.len() ==> tags_nonempty(#[trigger] m[i].1),
    ensures
        lookup(m, name) matches Some(x) ==> tags_nonempty(x),
    decreases m.len(),
{
    if m.len() > 0 {
        let t = m.drop_first();
        assert(tags_nonempty(m[0].1));
        assert forall|i: int| 0 <= i < t.len() implies tags_nonempty(#[trigger] t[i].1) by {
            assert(t[i] == m[i + 1]);
        }
        lemma_lookup_tags(t, name);
    }
}

/// `value[name]` of a value with non-empty tags has non-empty tags.
pub proof fn lemma_index_tags(v: YamlView, name: Seq<char>)
    requires
        tags_nonempty(v),
    ensures
        tags_nonempty(view_index(v, name)),
{
    lemma_mapping_tags(v);
    if let Some(m) = view_as_mapping(v) {
        assert forall|i: int| 0 <= i < m.len() implies tags_nonempty(#[trigger] m[i].1) by {
            assert(tags_nonempty(m[i].0));
        }
        lemma_lookup_tags(m, name);
    }
}

/// The value under any number of tags.
pub open spec fn untagged(v: YamlView) -> YamlView
    decreases v,
{
    match v {
        YamlView::Tagged(_, inner) => untagged(*inner),
        _ => v,
    }
}

/// `Value::as_str`.
pub open spec fn view_as_str(v: YamlView) -> Option<Seq<char>> {
    match untagged(v) {
        YamlView::String(s) => Some(s),
        _ => None,
    }
}

/// `Value::as_i64`.
pub open spec fn view_as_i64(v: YamlView) -> Option<int> {
    match untagged(v) {
        YamlView::Number(NumberView::PosInt(n)) => if n <= i64::MAX {
            Some(n as int)
        } else {
            None
        },
        YamlView::Number(NumberView::NegInt(n)) => Some(n as int),
        _ => None,
    }
}

/// `Value::as_sequence`.
pub open spec fn view_as_sequence(v: YamlView) -> Option<Seq<YamlView>> {
    match untagged(v) {
        YamlView::Sequence(s) => Some(s),
        _ => None,
    }
}

/// `Value::as_mapping`.
pub open spec fn view_as_mapping(v: YamlView) -> Option<Seq<(YamlView, YamlView)>> {
    match untagged(v) {
        YamlView::Mapping(m) => Some(m),
        _ => None,
    }
}

/// `Mapping::get` with a string key: the value of the first entry whose key
/// is (untagged) that string.
pub open spec fn lookup(entries: Seq<(YamlView, YamlView)>, name: Seq<char>) -> Option<YamlView>
    decreases entries.len(),
{
    if entries.len() == 0 {
        None
    } else if entries[0].0 == YamlView::String(name) {
        Some(entries[0].1)
    } else {
        lookup(entries.drop_first(), name)
    }
}

/// `Value::get` with a string key.
pub open spec fn view_get(v: YamlView, name: Seq<char>) -> Option<YamlView> {
    match view_as_mapping(v) {
        Some(m) => lookup(m, name),
        None => None,
    }
}

/// `value[name]`: `Null` where `get` finds nothing.
pub open spec fn view_index(v: YamlView, name: Seq<char>) -> YamlView {
    match view_get(v, name) {
        Some(x) => x,
        None => YamlView::Null,
    }
}

/// `value[name].as_str()`.
pub open spec fn view_str_field(v: YamlView, name: Seq<char>) -> Option<Seq<char>> {
    view_as_str(view_index(v, name))
}

/// `value[name].as_i64()`.
pub open spec fn view_i64_field(v: YamlView, name: Seq<char>) -> Option<int> {
    view_as_i64(view_index(v, name))
}

/// `value[name].as_mapping().and_then(|m| m.get(key)).and_then(|x| x.as_str())`.
pub open spec fn view_nested_str_field(v: YamlView, name: Seq<char>, key: Seq<char>) -> Option<
    Seq<char>,
> {
    match view_as_mapping(view_index(v, name)) {
        Some(m) => match lookup(m, key) {
            Some(x) => view_as_str(x),
            None => None,
        },
        None => None,
    }
}

/// `value[name].as_mapping().and_then(|m| m.get(key)).and_then(|x| x.as_i64())`.
pub open spec fn view_nested_i64_field(v: YamlView, name: Seq<char>, key: Seq<char>) -> Option<int> {
    match view_as_mapping(view_index(v, name)) {
        Some(m) => match lookup(m, key) {
            Some(x) => view_as_i64(x),
            None => None,
        },
        None => None,
    }
}

pub open spec fn opt_str_view(o: Option<String>) -> Option<Seq<char>> {
    match o {
        Some(s) => Some(s@),
        None => None,
    }
}

pub open spec fn opt_i64_view(o: Option<i64>) -> Option<int> {
    match o {
        Some(n) => Some(n as int),
        None => None,
    }
}

/// Runs `f` over `items` in order and concatenates what it gives, stopping
/// at the first error.
pub open spec fn collect_all<X, T, E>(items: Seq<X>, f: spec_fn(X) -> Result<Seq<T>, E>) -> Result<
    Seq<T>,
    E,
>
    decreases items.len(),
{
    if items.len() == 0 {
        Ok(Seq::<T>::empty())
    } else {
        match collect_all(items.drop_last(), f) {
            Err(e) => Err(e),
            Ok(rows) => match f(items.last()) {
                Err(e) => Err(e),
                Ok(r) => Ok(rows + r),
            },
        }
    }
}

/// Where each item gives at most one row, running over all of them without
/// error gives one row per item, in order: the row of item `i` is at `i`.
pub proof fn lemma_collect_singletons<X, T, E>(items: Seq<X>, f: spec_fn(X) -> Result<Seq<T>, E>)
    requires
        forall|j: int|
            0 <= j < items.len() ==> (#[trigger] f(items[j]) matches Ok(r) ==> r.len() == 1),
    ensures
        collect_all(items, f) matches Ok(rows) ==> rows.len() == items.len() && forall|i: int|
            0 <= i < items.len() ==> #[trigger] f(items[i]) == Ok::<Seq<T>, E>(seq![rows[i]]),
    decreases items.len(),
{
    if items.len() > 0 {
        let t = items.drop_last();
        assert forall|j: int| 0 <= j < t.len() implies (#[trigger] f(t[j]) matches Ok(r) ==> r.len()
            == 1) by {
            assert(t[j] == items[j]);
        }
        lemma_collect_singletons(t, f);
        let last = items.len() - 1;
        assert(items.last() == items[last]);
        if collect_all(items, f) is Ok {
            let rows = collect_all(items, f)->Ok_0;
            let rows0 = collect_all(t, f)->Ok_0;
            let r = f(items[last])->Ok_0;
            assert(collect_all(t, f) is Ok);
            assert(f(items[last]) is Ok);
            assert(rows == rows0 + r);
            assert(r.len() == 1);
            assert forall|i: int| 0 <= i < items.len() implies #[trigger] f(items[i]) == Ok::<
                Seq<T>,
                E,
            >(seq![rows[i]]) by {
                if i < last {
                    assert(t[i] == items[i]);
                    assert(f(t[i]) == Ok::<Seq<T>, E>(seq![rows0[i]]));
                    assert(rows[i] == rows0[i]);
                } else {
                    assert(rows[i] == r[0]);
                    assert(r =~= seq![r[0]]);
                }
            }
        }
    }
}

pub proof fn lemma_collect_step<X, T, E>(
    items: Seq<X>,
    f: spec_fn(X) -> Result<Seq<T>, E>,
    i: int,
)
    requires
        0 <= i < items.len(),
    ensures
        collect_all(items.take(i + 1), f) == (match collect_all(items.take(i), f) {
            Err(e) => Err(e),
            Ok(rows) => match f(items[i]) {
                Err(e) => Err(e),
                Ok(r) => Ok(rows + r),
            },
        }),
{
    assert(items.take(i + 1).drop_last() =~= items.take(i));
    assert(items.take(i + 1).last() == items[i]);
}

pub proof fn lemma_collect_stops<X, T, E>(
    items: Seq<X>,
    f: spec_fn(X) -> Result<Seq<T>, E>,
    i: int,
)
    requires
        0 <= i <= items.len(),
        collect_all(items.take(i), f) is Err,
    ensures
        collect_all(items, f) == collect_all(items.take(i), f),
    decreases items.len() - i,
{
    if i == items.len() {
        assert(items.take(i) =~= items);
    } else {
        lemma_collect_step(items, f, i);
        lemma_collect_stops(items, f, i + 1);
    }
}

pub proof fn lemma_collect_whole<X, T, E>(items: Seq<X>, f: spec_fn(X) -> Result<Seq<T>, E>)
    ensures
        collect_all(items.take(items.len() as int), f) == collect_all(items, f),
{
    assert(items.take(items.len() as int) =~= items);
}

/// Why a YAML document could not be read: a message, or a message prefix
/// followed by the `Debug` rendering of the offending value.
#[derive(Debug)]
pub enum YamlError {
    Message(String),
    WithValue(String, YamlValue),
}

pub enum YamlErrorView {
    Message(Seq<char>),
    WithValue(Seq<char>, YamlView),
}

impl View for YamlError {
    type V = YamlErrorView;

    open spec fn view(&self) -> YamlErrorView {
        match self {
            YamlError::Message(m) => YamlErrorView::Message(m@),
            YamlError::WithValue(p, v) => YamlErrorView::WithValue(p@, v@),
        }
    }
}

#[verifier::external_type_specification]
#[verifier::external_body]
pub struct ExYamlValue(serde_yaml::Value);

/// The document that `serde_yaml::from_str::<serde_yaml::Value>` reads from
/// `text`, or `None` where it returns an error.
pub uninterp spec fn yaml_document(text: Seq<char>) -> Option<YamlView>;

/// What `{:?}` prints for the `serde_yaml::Value` that `v` stands for.
pub uninterp spec fn yaml_debug(v: YamlView) -> Seq<char>;

#[verifier::external_type_specification]
#[verifier::external_body]
pub struct ExYamlNumber(serde_yaml::Number);

#[verifier::external_type_specification]
#[verifier::external_body]
pub struct ExYamlMapping(serde_yaml::Mapping);

#[verifier::external_type_specification]
#[verifier::external_body]
pub struct ExYamlTaggedValue(serde_yaml::value::TaggedValue);

// The conversions between `serde_yaml` values and the library's values are
// what `parse_yaml` and `yaml_debug_text` apply around their call. A single
// wrapper body cannot recurse, so they stand on their own; nothing is stated
// of them, since one side of each is opaque.

/// A `serde_yaml::Number` as the library holds it: `as_u64`, else `as_i64`,
/// else its `Display` text.
#[verifier::external_body]
fn yaml_number_of(n: &serde_yaml::Number) -> YamlNumber {
    match (n.as_u64(), n.as_i64()) {
        (Some(u), _) => YamlNumber::PosInt(u),
        (None, Some(i)) => YamlNumber::NegInt(i),
        (None, None) => YamlNumber::Float(n.to_string()),
    }
}

/// The entries of a `serde_yaml::Mapping`, in order, each converted.
#[verifier::external_body]
fn yaml_entries_of(m: &serde_yaml::Mapping) -> Vec<(YamlValue, YamlValue)> {
    m.iter().map(|(k, x)| (yaml_value_of(k), yaml_value_of(x))).collect()
}

/// A tagged value: its tag's `Display` text and its converted value.
#[verifier::external_body]
fn yaml_tagged_of(t: &serde_yaml::value::TaggedValue) -> YamlValue {
    YamlValue::Tagged(t.tag.to_string(), Box::new(yaml_value_of(&t.value)))
}

/// The library's value for a `serde_yaml::Value`, variant for variant.
#[verifier::external_body]
fn yaml_value_of(v: &serde_yaml::Value) -> YamlValue {
    match v {
        serde_yaml::Value::Null => YamlValue::Null,
        serde_yaml::Value::Bool(b) => YamlValue::Bool(*b),
        serde_yaml::Value::Number(n) => YamlValue::Number(yaml_number_of(n)),
        serde_yaml::Value::String(t) => YamlValue::String(t.clone()),
        serde_yaml::Value::Sequence(items) => YamlValue::Sequence(items.iter().map(yaml_value_of).collect()),
        serde_yaml::Value::Mapping(m) => YamlValue::Mapping(yaml_entries_of(m)),
        serde_yaml::Value::Tagged(t) => yaml_tagged_of(t),
    }
}

/// The `serde_yaml::Number` that a library number stands for (a float from
/// its text, which `Number`'s `FromStr` reads back).
#[verifier::external_body]
fn serde_number_of(n: &YamlNumber) -> serde_yaml::Value {
    match n {
        YamlNumber::PosInt(u) => serde_yaml::Value::Number((*u).into()),
        YamlNumber::NegInt(i) => serde_yaml::Value::Number((*i).into()),
        YamlNumber::Float(t) => t.parse::<serde_yaml::Number>().map_or(serde_yaml::Value::String(t.clone()), serde_yaml::Value::Number),
    }
}

/// The `serde_yaml::Mapping` of the library's entries, in order.
#[verifier::external_body]
fn serde_mapping_of(m: &Vec<(YamlValue, YamlValue)>) -> serde_yaml::Value
    requires
        entries_tags_nonempty(entries_view(m@)),
{
    serde_yaml::Value::Mapping(m.iter().map(|(k, x)| (serde_value_of(k), serde_value_of(x))).collect())
}

/// The tagged `serde_yaml::Value` of a tag's text and a value.
/// `serde_yaml::value::Tag::new` panics on an empty tag, hence the first
/// requirement.
#[verifier::external_body]
fn serde_tagged_of(tag: &String, x: &YamlValue) -> serde_yaml::Value
    requires
        tag@.len() > 0,
        tags_nonempty(x@),
{
    let tag = serde_yaml::value::Tag::new(tag.clone());
    serde_yaml::Value::Tagged(Box::new(serde_yaml::value::TaggedValue { tag, value: serde_value_of(x) }))
}

/// The `serde_yaml::Value` that `v` stands for, variant for variant.
#[verifier::external_body]
fn serde_value_of(v: &YamlValue) -> serde_yaml::Value
    requires
        tags_nonempty(v@),
{
    match v {
        YamlValue::Null => serde_yaml::Value::Null,
        YamlValue::Bool(b) => serde_yaml::Value::Bool(*b),
        YamlValue::Number(n) => serde_number_of(n),
        YamlValue::String(t) => serde_yaml::Value::String(t.clone()),
        YamlValue::Sequence(items) => serde_yaml::Value::Sequence(items.iter().map(serde_value_of).collect()),
        YamlValue::Mapping(m) => serde_mapping_of(m),
        YamlValue::Tagged(t, x) => serde_tagged_of(t, x),
    }
}

/// Parses `text` with `serde_yaml::from_str::<serde_yaml::Value>` and
/// returns the document as the library's value; the parser's error is
/// returned. The result is the name applied to the text.
#[verifier::external_body]
pub(crate) fn parse_yaml(text: &str) -> (r: Result<YamlValue, serde_yaml::Error>)
    ensures
        r is Err <==> yaml_document(text@) is None,
        r matches Ok(v) ==> yaml_document(text@) == Some(v@),
        r matches Ok(v) ==> tags_nonempty(v@),
{
    serde_yaml::from_str::<serde_yaml::Value>(text).map(|v| yaml_value_of(&v))
}

/// `format!("{:?}", value)` of the `serde_yaml::Value` that `v` stands for
/// (a value whose tags are non-empty, as `serde_yaml` requires of a tag).
#[verifier::external_body]
pub(crate) fn yaml_debug_text(v: &YamlValue) -> (s: String)
    requires
        tags_nonempty(v@),
    ensures
        s@ == yaml_debug(v@),
{
    format!("{:?}", serde_value_of(v))
}

/// The message of a loader's error: the message, or the prefix followed by
/// the offending value as `{:?}` prints it.
pub open spec fn yaml_error_text(e: YamlErrorView) -> Seq<char> {
    match e {
        YamlErrorView::Message(m) => m,
        YamlErrorView::WithValue(p, v) => p + yaml_debug(v),
    }
}

/// The offending value of an error, if any, has non-empty tags.
pub open spec fn error_tags_nonempty(e: YamlErrorView) -> bool {
    match e {
        YamlErrorView::WithValue(_, v) => tags_nonempty(v),
        YamlErrorView::Message(_) => true,
    }
}

/// The error of a result, if any, has a value with non-empty tags.
pub open spec fn result_tags_nonempty<T>(r: Result<T, YamlErrorView>) -> bool {
    match r {
        Err(e) => error_tags_nonempty(e),
        Ok(_) => true,
    }
}

/// Where every item's result has an error value with non-empty tags, so has
/// the result of running over all of them.
pub proof fn lemma_collect_tags<X, T>(items: Seq<X>, f: spec_fn(X) -> Result<Seq<T>, YamlErrorView>)
    requires
        forall|i: int| 0 <= i < items.len() ==> result_tags_nonempty(#[trigger] f(items[i])),
    ensures
        result_tags_nonempty(collect_all(items, f)),
    decreases items.len(),
{
    if items.len() > 0 {
        let t = items.drop_last();
        assert forall|i: int| 0 <= i < t.len() implies result_tags_nonempty(#[trigger] f(t[i])) by {
            assert(t[i] == items[i]);
            assert(result_tags_nonempty(f(items[i])));
        }
        lemma_collect_tags(t, f);
        assert(result_tags_nonempty(f(items[items.len() - 1])));
    }
}

/// The message of a loader's error (see `yaml_error_text`).
pub fn yaml_error_message(e: &YamlError) -> (s: String)
    requires
        error_tags_nonempty(e@),
    ensures
        s@ == yaml_error_text(e@),
{
    match e {
        YamlError::Message(m) => m.clone(),
        YamlError::WithValue(p, v) => {
            let mut out = p.clone();
            let d = yaml_debug_text(v);
            out.append(d.as_str());
            out
        },
    }
}

/// A copy of `v`.
pub fn clone_value(v: &YamlValue) -> (r: YamlValue)
    ensures
        r@ == v@,
    decreases v,
{
    match v {
        YamlValue::Null => YamlValue::Null,
        YamlValue::Bool(b) => YamlValue::Bool(*b),
        YamlValue::Number(n) => YamlValue::Number(
            match n {
                YamlNumber::PosInt(u) => YamlNumber::PosInt(*u),
                YamlNumber::NegInt(i) => YamlNumber::NegInt(*i),
                YamlNumber::Float(s) => YamlNumber::Float(s.clone()),
            },
        ),
        YamlValue::String(s) => YamlValue::String(s.clone()),
        YamlValue::Sequence(items) => {
            let mut out: Vec<YamlValue> = Vec::new();
            let mut i: usize = 0;
            while i < items.len()
                invariant
                    i <= items@.len(),
                    values_view(out@) == values_view(items@.take(i as int)),
                    *v == YamlValue::Sequence(*items),
                decreases items@.len() - i,
            {
                assert(decreases_to!(*v => v->Sequence_0));
                assert(decreases_to!(*items => items@));
                assert(decreases_to!(items@ => items@[i as int]));
                let x = clone_value(&items[i]);
                let ghost before = out@;
                out.push(x);
                proof {
                    assert(out@.subrange(0, out@.len() - 1) =~= before);
                    assert(items@.take(i + 1).subrange(0, i as int) =~= items@.take(i as int));
                }
                i = i + 1;
            }
            assert(items@.take(items@.len() as int) =~= items@);
            YamlValue::Sequence(out)
        },
        YamlValue::Mapping(entries) => {
            let mut out: Vec<(YamlValue, YamlValue)> = Vec::new();
            let mut i: usize = 0;
            while i < entries.len()
                invariant
                    i <= entries@.len(),
                    entries_view(out@) == entries_view(entries@.take(i as int)),
                    *v == YamlValue::Mapping(*entries),
                decreases entries@.len() - i,
            {
                assert(decreases_to!(*v => v->Mapping_0));
                assert(decreases_to!(*entries => entries@));
                assert(decreases_to!(entries@ => entries@[i as int]));
                assert(decreases_to!(entries@[i as int] => entries@[i as int].0));
                assert(decreases_to!(entries@[i as int] => entries@[i as int].1));
                let k = clone_value(&entries[i].0);
                let x = clone_value(&entries[i].1);
                let ghost before = out@;
                out.push((k, x));
                proof {
                    assert(out@.subrange(0, out@.len() - 1) =~= before);
                    assert(entries@.take(i + 1).subrange(0, i as int) =~= entries@.take(i as int));
                }
                i = i + 1;
            }
            assert(entries@.take(entries@.len() as int) =~= entries@);
            YamlValue::Mapping(out)
        },
        YamlValue::Tagged(tag, inner) => {
            let x = clone_value(inner);
            YamlValue::Tagged(tag.clone(), Box::new(x))
        },
    }
}

/// The value under any number of tags.
pub fn untag(v: &YamlValue) -> (r: &YamlValue)
    ensures
        r@ == untagged(v@),
        !(r is Tagged),
    decreases v,
{
    match v {
        YamlValue::Tagged(_, inner) => untag(inner),
        _ => v,
    }
}

pub fn as_str(v: &YamlValue) -> (r: Option<&String>)
    ensures
        opt_str_view(match r { Some(s) => Some(*s), None => None }) == view_as_str(v@),
{
    match untag(v) {
        YamlValue::String(s) => Some(s),
        _ => None,
    }
}

pub fn as_i64(v: &YamlValue) -> (r: Option<i64>)
    ensures
        opt_i64_view(r) == view_as_i64(v@),
{
    match untag(v) {
        YamlValue::Number(YamlNumber::PosInt(n)) => if *n <= 0x7fff_ffff_ffff_ffffu64 {
            Some(*n as i64)
        } else {
            None
        },
        YamlValue::Number(YamlNumber::NegInt(n)) => Some(*n),
        _ => None,
    }
}

pub fn as_sequence(v: &YamlValue) -> (r: Option<&Vec<YamlValue>>)
    ensures
        match r {
            Some(s) => view_as_sequence(v@) == Some(values_view(s@)),
            None => view_as_sequence(v@) is None,
        },
{
    match untag(v) {
        YamlValue::Sequence(s) => Some(s),
        _ => None,
    }
}

pub fn as_mapping(v: &YamlValue) -> (r: Option<&Vec<(YamlValue, YamlValue)>>)
    ensures
        match r {
            Some(m) => view_as_mapping(v@) == Some(entries_view(m@)),
            None => view_as_mapping(v@) is None,
        },
{
    match untag(v) {
        YamlValue::Mapping(m) => Some(m),
        _ => None,
    }
}

/// `Mapping::get` with a string key.
pub fn mapping_get<'a>(entries: &'a Vec<(YamlValue, YamlValue)>, name: &str) -> (r: Option<
    &'a YamlValue,
>)
    ensures
        match r {
            Some(x) => lookup(entries_view(entries@), name@) == Some(x@),
            None => lookup(entries_view(entries@), name@) is None,
        },
{
    let key = name.to_string();
    proof {
        lemma_entries_view(entries@);
    }
    let ghost all = entries_view(entries@);
    assert(all.subrange(0, all.len() as int) =~= all);
    let mut i: usize = 0;
    while i < entries.len()
        invariant
            i <= entries@.len(),
            all == entries_view(entries@),
            all.len() == entries@.len(),
            key@ == name@,
            forall|j: int|
                0 <= j < entries@.len() ==> #[trigger] all[j] == (
                    value_view(entries@[j].0),
                    value_view(entries@[j].1),
                ),
            lookup(all, name@) == lookup(all.subrange(i as int, all.len() as int), name@),
        decreases entries@.len() - i,
    {
        let ghost rest = all.subrange(i as int, all.len() as int);
        assert(rest[0] == all[i as int]);
        assert(rest.drop_first() =~= all.subrange(i + 1, all.len() as int));
        match &entries[i].0 {
            YamlValue::String(s) => {
                if *s == key {
                    return Some(&entries[i].1);
                }
            },
            _ => {},
        }
        i = i + 1;
    }
    None
}

/// `Value::get` with a string key.
pub fn get<'a>(v: &'a YamlValue, name: &str) -> (r: Option<&'a YamlValue>)
    ensures
        match r {
            Some(x) => view_get(v@, name@) == Some(x@),
            None => view_get(v@, name@) is None,
        },
{
    match as_mapping(v) {
        Some(m) => mapping_get(m, name),
        None => None,
    }
}

/// `value[name].as_str()`.
pub fn str_field(v: &YamlValue, name: &str) -> (r: Option<String>)
    ensures
        opt_str_view(r) == view_str_field(v@, name@),
{
    match get(v, name) {
        Some(x) => match as_str(x) {
            Some(s) => Some(s.clone()),
            None => None,
        },
        None => None,
    }
}

/// `value[name].as_i64()`.
pub fn i64_field(v: &YamlValue, name: &str) -> (r: Option<i64>)
    ensures
        opt_i64_view(r) == view_i64_field(v@, name@),
{
    match get(v, name) {
        Some(x) => as_i64(x),
        None => None,
    }
}

/// `value[name].as_mapping().and_then(|m| m.get(key)).and_then(|x| x.as_str())`.
pub fn nested_str_field(v: &YamlValue, name: &str, key: &str) -> (r: Option<String>)
    ensures
        opt_str_view(r) == view_nested_str_field(v@, name@, key@),
{
    let inner = match get(v, name) {
        Some(x) => x,
        None => {
            return None;
        },
    };
    match as_mapping(inner) {
        Some(m) => match mapping_get(m, key) {
            Some(x) => match as_str(x) {
                Some(s) => Some(s.clone()),
                None => None,
            },
            None => None,
        },
        None => None,
    }
}

/// `value[name].as_mapping().and_then(|m| m.get(key)).and_then(|x| x.as_i64())`.
pub fn nested_i64_field(v: &YamlValue, name: &str, key: &str) -> (r: Option<i64>)
    ensures
        opt_i64_view(r) == view_nested_i64_field(v@, name@, key@),
{
    let inner = match get(v, name) {
        Some(x) => x,
        None => {
            return None;
        },
    };
    match as_mapping(inner) {
        Some(m) => match mapping_get(m, key) {
            Some(x) => as_i64(x),
            None => None,
        },
        None => None,
    }
}

pub open spec fn pairs_view(v: Seq<(String, String)>) -> Seq<(Seq<char>, Seq<char>)> {
    v.map_values(|p: (String, String)| (p.0@, p.1@))
}

/// The content of what a loader that yields string pairs returns.
pub open spec fn pairs_result_view(r: Result<Vec<(String, String)>, YamlError>) -> Result<
    Seq<(Seq<char>, Seq<char>)>,
    YamlErrorView,
> {
    match r {
        Ok(v) => Ok(pairs_view(v@)),
        Err(e) => Err(e@),
    }
}

/// `value[name].as_mapping()`.
pub fn mapping_field<'a>(v: &'a YamlValue, name: &str) -> (r: Option<
    &'a Vec<(YamlValue, YamlValue)>,
>)
    ensures
        match r {
            Some(m) => view_as_mapping(view_index(v@, name@)) == Some(entries_view(m@)),
            None => view_as_mapping(view_index(v@, name@)) is None,
        },
{
    match get(v, name) {
        Some(x) => as_mapping(x),
        None => None,
    }
}

/// `value[name].as_sequence()`.
pub fn sequence_field<'a>(v: &'a YamlValue, name: &str) -> (r: Option<&'a Vec<YamlValue>>)
    ensures
        match r {
            Some(s) => view_as_sequence(view_index(v@, name@)) == Some(values_view(s@)),
            None => view_as_sequence(view_index(v@, name@)) is None,
        },
{
    match get(v, name) {
        Some(x) => as_sequence(x),
        None => None,
    }
}

} // verus!
