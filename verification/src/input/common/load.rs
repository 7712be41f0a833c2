//! Reading the channel-group map, and string-to-string mappings, from YAML.

use vstd::prelude::*;
use crate::utils::yaml::{
    lemma_collect_tags, lemma_index_tags, lemma_lookup_tags, lemma_entries_of_tags, lemma_mapping_tags, lemma_sequence_tags,
    result_tags_nonempty, tags_nonempty,
};
use crate::error::DbError;
use crate::utils::yaml::{parse_yaml, yaml_document, yaml_error_message, yaml_error_text};
use crate::utils::chars::{chars_to_string, push_str};
use crate::utils::yaml::{
    as_sequence, as_str, clone_value, collect_all, entries_view, lemma_collect_step, lemma_collect_stops, lemma_collect_whole, lemma_entries_view,
    lemma_values_view, mapping_field, pairs_result_view, pairs_view, value_view, values_view, view_as_mapping,
    view_as_sequence, view_as_str, view_index, YamlError, YamlErrorView, YamlValue, YamlView,
};

verus! {

/// The error for an entry of `group` whose channel code `c` is not a string.
pub open spec fn channel_code_rows(group: Seq<char>) -> spec_fn(YamlView) -> Result<
    Seq<(Seq<char>, Seq<char>)>,
    YamlErrorView,
> {
    |c: YamlView|
        match view_as_str(c) {
            Some(ch) => Ok(seq![(group, ch)]),
            None => Err(
                YamlErrorView::WithValue("Invalid channel code in group '"@ + group + "': "@, c),
            ),
        }
}

/// The rows of one `group: [channel, ...]` entry.
pub open spec fn channel_group_entry_rows() -> spec_fn((YamlView, YamlView)) -> Result<
    Seq<(Seq<char>, Seq<char>)>,
    YamlErrorView,
> {
    |e: (YamlView, YamlView)|
        match view_as_str(e.0) {
            None => Err(YamlErrorView::WithValue("Invalid key: "@, e.0)),
            Some(group) => match view_as_sequence(e.1) {
                None => Err(
                    YamlErrorView::WithValue("Invalid value for group '"@ + group + "': "@, e.1),
                ),
                Some(channels) => collect_all(channels, channel_code_rows(group)),
            },
        }
}

/// The `(channel_group, channel)` rows of a channel-group document: one row
/// per channel code of each group, in document order.
pub open spec fn channel_group_rows(doc: YamlView) -> Result<
    Seq<(Seq<char>, Seq<char>)>,
    YamlErrorView,
> {
    match view_as_mapping(view_index(doc, "mapping"@)) {
        None => Err(YamlErrorView::Message("YAML の `mapping` がハッシュではありません"@)),
        Some(m) => collect_all(m, channel_group_entry_rows()),
    }
}

/// A message made of `prefix`, `middle` and `suffix`.
pub fn message3(prefix: &str, middle: &String, suffix: &str) -> (s: String)
    ensures
        s@ == prefix@ + middle@ + suffix@,
{
    let mut out: Vec<char> = Vec::new();
    push_str(&mut out, prefix);
    push_str(&mut out, middle.as_str());
    push_str(&mut out, suffix);
    chars_to_string(out.as_slice())
}

/// Reads the rows of a channel-group document (`mapping:` from each group
/// code to the list of its channel codes): one `(group, channel)` pair per
/// channel, in document order, or the first error met.
pub fn channel_group_pairs(doc: &YamlValue) -> (r: Result<
    Vec<(String, String)>,
    YamlError,
>)
    ensures
        pairs_result_view(r) == channel_group_rows(doc@),
{
    let m = match mapping_field(doc, "mapping") {
        Some(m) => m,
        None => {
            return Err(YamlError::Message("YAML の `mapping` がハッシュではありません".to_string()));
        },
    };
    let ghost mv = entries_view(m@);
    proof {
        lemma_entries_view(m@);
    }
    let mut rows: Vec<(String, String)> = Vec::new();
    let mut i: usize = 0;
    assert(mv.take(0) =~= Seq::<(YamlView, YamlView)>::empty());
    assert(pairs_view(rows@) =~= Seq::<(Seq<char>, Seq<char>)>::empty());
    while i < m.len()
        invariant
            i <= m@.len(),
            mv == entries_view(m@),
            mv.len() == m@.len(),
            forall|j: int|
                0 <= j < m@.len() ==> #[trigger] mv[j] == (value_view(m@[j].0), value_view(m@[j].1)),
            collect_all(mv.take(i as int), channel_group_entry_rows()) == Ok::<
                Seq<(Seq<char>, Seq<char>)>,
                YamlErrorView,
            >(pairs_view(rows@)),
            view_as_mapping(view_index(doc@, "mapping"@)) == Some(mv),
        decreases m@.len() - i,
    {
        proof {
            lemma_collect_step(mv, channel_group_entry_rows(), i as int);
        }
        let key = &m[i].0;
        let value = &m[i].1;
        let group = match as_str(key) {
            Some(g) => g,
            None => {
                let e = YamlError::WithValue("Invalid key: ".to_string(), clone_value(key));
                proof {
                    lemma_collect_stops(mv, channel_group_entry_rows(), i + 1);
                }
                return Err(e);
            },
        };
        let channels = match as_sequence(value) {
            Some(c) => c,
            None => {
                let e = YamlError::WithValue(
                    message3("Invalid value for group '", group, "': "),
                    clone_value(value),
                );
                proof {
                    lemma_collect_stops(mv, channel_group_entry_rows(), i + 1);
                }
                return Err(e);
            },
        };
        let ghost cv = values_view(channels@);
        let ghost f = channel_code_rows(group@);
        let ghost rows_before = pairs_view(rows@);
        proof {
            lemma_values_view(channels@);
            assert(cv.take(0) =~= Seq::<YamlView>::empty());
        }
        let mut j: usize = 0;
        assert(channel_group_entry_rows()(mv[i as int]) == collect_all(cv, f));
        while j < channels.len()
            invariant
                j <= channels@.len(),
                i < m@.len(),
                mv == entries_view(m@),
                mv.len() == m@.len(),
                view_as_mapping(view_index(doc@, "mapping"@)) == Some(mv),
                cv == values_view(channels@),
                cv.len() == channels@.len(),
                forall|k: int| 0 <= k < channels@.len() ==> #[trigger] cv[k] == value_view(channels@[k]),
                f == channel_code_rows(group@),
                collect_all(cv.take(j as int), f) matches Ok(inner) && pairs_view(rows@)
                    == rows_before + inner,
                channel_group_entry_rows()(mv[i as int]) == collect_all(cv, f),
                collect_all(mv.take(i as int), channel_group_entry_rows()) == Ok::<
                    Seq<(Seq<char>, Seq<char>)>,
                    YamlErrorView,
                >(rows_before),
                collect_all(mv.take(i as int + 1), channel_group_entry_rows()) == (match
                    channel_group_entry_rows()(mv[i as int]) {
                    Err(e) => Err(e),
                    Ok(r) => Ok(rows_before + r),
                }),
            decreases channels@.len() - j,
        {
            proof {
                lemma_collect_step(cv, f, j as int);
            }
            let c = &channels[j];
            match as_str(c) {
                Some(ch) => {
                    let ghost before = rows@;
                    rows.push((group.clone(), ch.clone()));
                    assert(pairs_view(rows@) =~= pairs_view(before).push((group@, ch@)));
                    proof {
                        let inner = collect_all(cv.take(j as int), f)->Ok_0;
                        assert(rows_before + inner + seq![(group@, ch@)] =~= rows_before + (inner
                            + seq![(group@, ch@)]));
                    }
                },
                None => {
                    let e = YamlError::WithValue(
                        message3("Invalid channel code in group '", group, "': "),
                        clone_value(c),
                    );
                    proof {
                        lemma_collect_stops(cv, f, j + 1);
                        lemma_collect_stops(mv, channel_group_entry_rows(), i + 1);
                    }
                    return Err(e);
                },
            }
            j = j + 1;
        }
        proof {
            lemma_collect_whole(cv, f);
        }
        i = i + 1;
    }
    proof {
        lemma_collect_whole(mv, channel_group_entry_rows());
    }
    Ok(rows)
}

/// The row of one `key: value` entry of a string-to-string mapping.
pub open spec fn string_mapping_entry() -> spec_fn((YamlView, YamlView)) -> Result<
    Seq<(Seq<char>, Seq<char>)>,
    YamlErrorView,
> {
    |e: (YamlView, YamlView)|
        match view_as_str(e.0) {
            None => Err(YamlErrorView::WithValue("Invalid key: "@, e.0)),
            Some(k) => match view_as_str(e.1) {
                None => Err(YamlErrorView::WithValue("Invalid value: "@, e.1)),
                Some(v) => Ok(seq![(k, v)]),
            },
        }
}

/// The `(key, value)` rows of a document whose `mapping:` maps strings to
/// strings, in document order.
pub open spec fn string_mapping_rows(doc: YamlView) -> Result<
    Seq<(Seq<char>, Seq<char>)>,
    YamlErrorView,
> {
    match view_as_mapping(view_index(doc, "mapping"@)) {
        None => Err(YamlErrorView::Message("YAML の `mapping` がハッシュではありません"@)),
        Some(m) => collect_all(m, string_mapping_entry()),
    }
}

/// Reads the `(key, value)` rows of a document whose `mapping:` maps strings
/// to strings, or the first error met.
pub fn string_mapping_pairs(doc: &YamlValue) -> (r: Result<Vec<(String, String)>, YamlError>)
    ensures
        pairs_result_view(r) == string_mapping_rows(doc@),
{
    let m = match mapping_field(doc, "mapping") {
        Some(m) => m,
        None => {
            return Err(YamlError::Message("YAML の `mapping` がハッシュではありません".to_string()));
        },
    };
    let ghost mv = entries_view(m@);
    proof {
        lemma_entries_view(m@);
    }
    let mut rows: Vec<(String, String)> = Vec::new();
    let mut i: usize = 0;
    assert(mv.take(0) =~= Seq::<(YamlView, YamlView)>::empty());
    assert(pairs_view(rows@) =~= Seq::<(Seq<char>, Seq<char>)>::empty());
    while i < m.len()
        invariant
            i <= m@.len(),
            mv == entries_view(m@),
            mv.len() == m@.len(),
            forall|j: int|
                0 <= j < m@.len() ==> #[trigger] mv[j] == (value_view(m@[j].0), value_view(m@[j].1)),
            collect_all(mv.take(i as int), string_mapping_entry()) == Ok::<
                Seq<(Seq<char>, Seq<char>)>,
                YamlErrorView,
            >(pairs_view(rows@)),
            view_as_mapping(view_index(doc@, "mapping"@)) == Some(mv),
        decreases m@.len() - i,
    {
        proof {
            lemma_collect_step(mv, string_mapping_entry(), i as int);
        }
        let key = &m[i].0;
        let value = &m[i].1;
        let k = match as_str(key) {
            Some(k) => k,
            None => {
                let e = YamlError::WithValue("Invalid key: ".to_string(), clone_value(key));
                proof {
                    lemma_collect_stops(mv, string_mapping_entry(), i + 1);
                }
                return Err(e);
            },
        };
        let v = match as_str(value) {
            Some(v) => v,
            None => {
                let e = YamlError::WithValue("Invalid value: ".to_string(), clone_value(value));
                proof {
                    lemma_collect_stops(mv, string_mapping_entry(), i + 1);
                }
                return Err(e);
            },
        };
        let ghost before = rows@;
        rows.push((k.clone(), v.clone()));
        assert(pairs_view(rows@) =~= pairs_view(before) + seq![(k@, v@)]);
        i = i + 1;
    }
    proof {
        lemma_collect_whole(mv, string_mapping_entry());
    }
    Ok(rows)
}

/// Reads the rows of a channel-group YAML file's text (see
/// `channel_group_pairs`): an unparsable text is `DbError::Yaml`, an error in
/// the document `DbError::Other` with its message.
pub fn load_map_channel_group_to_channel_yaml(text: &str) -> (r: Result<Vec<(String, String)>, DbError>)
    ensures
        match yaml_document(text@) {
            None => r matches Err(e) && e is Yaml,
            Some(doc) => match channel_group_rows(doc) {
                Ok(rows) => r matches Ok(v) && pairs_view(v@) == rows,
                Err(e) => r matches Err(DbError::Other(m)) && m@ == yaml_error_text(e),
            },
        },
{
    let doc = match parse_yaml(text) {
        Ok(d) => d,
        Err(e) => {
            return Err(DbError::Yaml(e));
        },
    };
    proof {
        lemma_channel_group_tags(doc@);
    }
    match channel_group_pairs(&doc) {
        Ok(v) => Ok(v),
        Err(e) => Err(DbError::Other(yaml_error_message(&e))),
    }
}

/// Reads the rows of a string-to-string mapping YAML file's text (see
/// `string_mapping_pairs`): an unparsable text is `DbError::Yaml`, an error
/// in the document `DbError::Other` with its message.
pub fn load_string_mapping_yaml(text: &str) -> (r: Result<Vec<(String, String)>, DbError>)
    ensures
        match yaml_document(text@) {
            None => r matches Err(e) && e is Yaml,
            Some(doc) => match string_mapping_rows(doc) {
                Ok(rows) => r matches Ok(v) && pairs_view(v@) == rows,
                Err(e) => r matches Err(DbError::Other(m)) && m@ == yaml_error_text(e),
            },
        },
{
    let doc = match parse_yaml(text) {
        Ok(d) => d,
        Err(e) => {
            return Err(DbError::Yaml(e));
        },
    };
    proof {
        lemma_string_mapping_tags(doc@);
    }
    match string_mapping_pairs(&doc) {
        Ok(v) => Ok(v),
        Err(e) => Err(DbError::Other(yaml_error_message(&e))),
    }
}

/// The values named in the errors of a channel-group document with
/// non-empty tags have non-empty tags.
proof fn lemma_channel_group_tags(doc: YamlView)
    requires
        tags_nonempty(doc),
    ensures
        result_tags_nonempty(channel_group_rows(doc)),
{
    lemma_index_tags(doc, "mapping"@);
    let v = view_index(doc, "mapping"@);
    if let Some(m) = view_as_mapping(v) {
        lemma_entries_of_tags(v, m);
        assert forall|i: int| 0 <= i < m.len() implies result_tags_nonempty(
            #[trigger] channel_group_entry_rows()(m[i]),
        ) by {
            let e = m[i];
            assert(tags_nonempty(m[i].0));
            assert(tags_nonempty(m[i].1));
            if let Some(group) = view_as_str(e.0) {
                lemma_sequence_tags(e.1);
                if let Some(chs) = view_as_sequence(e.1) {
                    assert forall|j: int| 0 <= j < chs.len() implies result_tags_nonempty(
                        #[trigger] channel_code_rows(group)(chs[j]),
                    ) by {
                        assert(tags_nonempty(chs[j]));
                    }
                    lemma_collect_tags(chs, channel_code_rows(group));
                }
            }
        }
        lemma_collect_tags(m, channel_group_entry_rows());
    }
}

/// The values named in the errors of a string-mapping document with
/// non-empty tags have non-empty tags.
proof fn lemma_string_mapping_tags(doc: YamlView)
    requires
        tags_nonempty(doc),
    ensures
        result_tags_nonempty(string_mapping_rows(doc)),
{
    lemma_index_tags(doc, "mapping"@);
    let v = view_index(doc, "mapping"@);
    if let Some(m) = view_as_mapping(v) {
        lemma_entries_of_tags(v, m);
        assert forall|i: int| 0 <= i < m.len() implies result_tags_nonempty(
            #[trigger] string_mapping_entry()(m[i]),
        ) by {
            assert(tags_nonempty(m[i].0));
            assert(tags_nonempty(m[i].1));
        }
        lemma_collect_tags(m, string_mapping_entry());
    }
}

} // verus!
