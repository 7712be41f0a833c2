//! Tables laid out in aligned columns, file selection by extension, and the
//! reading of a yes/no answer.

use vstd::prelude::*;
use std::io::Write;
use crate::utils::chars::{chars_to_string, push_str, str_to_chars};
use vstd::relations::{sorted_by, total_ordering};

verus! {

/// `cols` joined with tabs.
pub open spec fn join_tab(cols: Seq<Seq<char>>) -> Seq<char>
    decreases cols.len(),
{
    if cols.len() == 0 {
        Seq::<char>::empty()
    } else if cols.len() == 1 {
        cols[0]
    } else {
        join_tab(cols.drop_last()) + seq!['\t'] + cols.last()
    }
}

/// The line written for a row: its cells joined with tabs and ended by a
/// newline; nothing at all for a row without cells.
pub open spec fn row_line(cols: Seq<Seq<char>>) -> Seq<char> {
    if cols.len() == 0 {
        Seq::<char>::empty()
    } else {
        join_tab(cols).push('\n')
    }
}

pub open spec fn rows_text(rows: Seq<Seq<Seq<char>>>) -> Seq<char>
    decreases rows.len(),
{
    if rows.len() == 0 {
        Seq::<char>::empty()
    } else {
        rows_text(rows.drop_last()) + row_line(rows.last())
    }
}

/// The tab-separated text of a table: the header line, then one line per row.
pub open spec fn table_text(headers: Seq<Seq<char>>, rows: Seq<Seq<Seq<char>>>) -> Seq<char> {
    row_line(headers) + rows_text(rows)
}

/// What a `tabwriter::TabWriter` with its default settings writes for `text`.
pub uninterp spec fn tab_aligned(text: Seq<char>) -> Seq<char>;

/// Writes `text` through `tabwriter::TabWriter::new` (default settings) into
/// a `Vec<u8>` and returns what it wrote. The writer's errors come only from
/// the writer it wraps, and writing into a `Vec` does not fail; its output
/// is the input's cells (cut at tabs and newlines of UTF-8 text) with ASCII
/// padding, so it is UTF-8 again. Hence the result is always `Ok`.
#[verifier::external_body]
fn tab_align(text: &str) -> (r: Result<String, std::io::Error>)
    ensures
        r is Ok,
        r matches Ok(s) ==> s@ == tab_aligned(text@),
{
    let mut tw = tabwriter::TabWriter::new(Vec::<u8>::new());
    tw.write_all(text.as_bytes())?;
    tw.flush()?;
    let bytes = tw.into_inner().map_err(|e| std::io::Error::new(e.error().kind(), e.to_string()))?;
    String::from_utf8(bytes).map_err(|e| std::io::Error::new(std::io::ErrorKind::InvalidData, e))
}

pub open spec fn strings_of(v: Seq<String>) -> Seq<Seq<char>> {
    v.map_values(|s: String| s@)
}

pub open spec fn rows_of(v: Seq<Vec<String>>) -> Seq<Seq<Seq<char>>> {
    v.map_values(|r: Vec<String>| strings_of(r@))
}

/// Appends the line of a row.
fn push_row_line(out: &mut Vec<char>, cols: &Vec<String>)
    ensures
        final(out)@ == old(out)@ + row_line(strings_of(cols@)),
{
    let ghost start = out@;
    let ghost cv = strings_of(cols@);
    if cols.len() == 0 {
        assert(out@ =~= start + row_line(cv));
        return;
    }
    let mut i: usize = 0;
    while i < cols.len()
        invariant
            1 <= cols@.len(),
            i <= cols@.len(),
            cv == strings_of(cols@),
            i == 0 ==> out@ == start,
            i > 0 ==> out@ == start + join_tab(cv.take(i as int)),
        decreases cols@.len() - i,
    {
        let ghost before = out@;
        if i > 0 {
            out.push('\t');
        }
        push_str(out, cols[i].as_str());
        proof {
            let t = cv.take(i + 1);
            assert(t.drop_last() =~= cv.take(i as int));
            assert(t.last() == cols@[i as int]@);
            if i == 0 {
                assert(out@ =~= start + join_tab(t));
            } else {
                assert(out@ =~= start + join_tab(t));
            }
        }
        i = i + 1;
    }
    assert(cv.take(cols@.len() as int) =~= cv);
    out.push('\n');
    assert(out@ =~= start + row_line(cv));
}

/// The text printed for a table: a blank line, the header and rows laid out
/// by `TabWriter`, and a blank line.
pub fn render_table(headers: &Vec<String>, rows: &Vec<Vec<String>>) -> (r: String)
    ensures
        r@ == seq!['\n'] + tab_aligned(table_text(strings_of(headers@), rows_of(rows@))) + seq!['\n'],
{
    let mut text: Vec<char> = Vec::new();
    push_row_line(&mut text, headers);
    let ghost head = text@;
    let ghost rv = rows_of(rows@);
    let mut i: usize = 0;
    assert(rv.take(0) =~= Seq::<Seq<Seq<char>>>::empty());
    while i < rows.len()
        invariant
            i <= rows@.len(),
            rv == rows_of(rows@),
            text@ == head + rows_text(rv.take(i as int)),
        decreases rows@.len() - i,
    {
        push_row_line(&mut text, &rows[i]);
        proof {
            let t = rv.take(i + 1);
            assert(t.drop_last() =~= rv.take(i as int));
            assert(t.last() == strings_of(rows@[i as int]@));
        }
        i = i + 1;
        assert(text@ =~= head + rows_text(rv.take(i as int)));
    }
    assert(rv.take(rows@.len() as int) =~= rv);
    let text = chars_to_string(text.as_slice());
    let aligned = match tab_align(text.as_str()) {
        Ok(a) => a,
        Err(_) => {
            proof {
                assert(false);
            }
            String::new()
        },
    };
    let mut out: Vec<char> = Vec::new();
    out.push('\n');
    push_str(&mut out, aligned.as_str());
    out.push('\n');
    chars_to_string(out.as_slice())
}

/// Index of the last `.` in `s`, or `-1`.
pub open spec fn last_dot(s: Seq<char>) -> int
    decreases s.len(),
{
    if s.len() == 0 {
        -1
    } else if s.last() == '.' {
        s.len() - 1
    } else {
        last_dot(s.drop_last())
    }
}

pub proof fn lemma_last_dot(s: Seq<char>)
    ensures
        -1 <= last_dot(s) < s.len(),
        last_dot(s) >= 0 ==> s[last_dot(s)] == '.',
        forall|k: int| last_dot(s) < k < s.len() ==> s[k] != '.',
    decreases s.len(),
{
    if s.len() > 0 {
        lemma_last_dot(s.drop_last());
        assert forall|k: int| last_dot(s) < k < s.len() implies s[k] != '.' by {
            if k < s.len() - 1 {
                assert(s.drop_last()[k] == s[k]);
            }
        }
    }
}

/// The extension of a file name, as `Path::extension` gives it: the part
/// after the last `.`, where that `.` is not the first character; none for
/// `..`.
pub open spec fn extension_of(name: Seq<char>) -> Option<Seq<char>> {
    if name.len() == 2 && name[0] == '.' && name[1] == '.' {
        None
    } else if last_dot(name) <= 0 {
        None
    } else {
        Some(name.subrange(last_dot(name) + 1, name.len() as int))
    }
}

pub open spec fn ascii_lower(c: char) -> char {
    if 'A' <= c && c <= 'Z' {
        ((c as u32) + 32) as char
    } else {
        c
    }
}

/// `str::eq_ignore_ascii_case`.
pub open spec fn eq_ignore_ascii_case(a: Seq<char>, b: Seq<char>) -> bool {
    a.len() == b.len() && forall|i: int| 0 <= i < a.len() ==> ascii_lower(a[i]) == ascii_lower(b[i])
}

/// The file name has one of `extensions`, compared ignoring ASCII case.
pub open spec fn has_listed_extension(name: Seq<char>, extensions: Seq<Seq<char>>) -> bool {
    match extension_of(name) {
        Some(e) => exists|k: int| 0 <= k < extensions.len() && eq_ignore_ascii_case(e, #[trigger] extensions[k]),
        None => false,
    }
}

pub open spec fn listed(extensions: Seq<Seq<char>>) -> spec_fn(Seq<char>) -> bool {
    |name: Seq<char>| has_listed_extension(name, extensions)
}

/// Lexicographic order of character sequences (that of `String`).
pub open spec fn lex_le(a: Seq<char>, b: Seq<char>) -> bool
    decreases a.len(),
{
    if a.len() == 0 {
        true
    } else if b.len() == 0 {
        false
    } else if (a[0] as int) < (b[0] as int) {
        true
    } else if (a[0] as int) > (b[0] as int) {
        false
    } else {
        lex_le(a.drop_first(), b.drop_first())
    }
}

pub open spec fn name_order() -> spec_fn(Seq<char>, Seq<char>) -> bool {
    |a: Seq<char>, b: Seq<char>| lex_le(a, b)
}

/// The file names that `list_files_with_extensions` keeps, in the order it
/// returns them: those with a listed extension, sorted by name.
pub open spec fn listed_files(names: Seq<Seq<char>>, extensions: Seq<Seq<char>>) -> Seq<Seq<char>> {
    names.filter(listed(extensions)).sort_by(name_order())
}

pub proof fn lemma_lex_reflexive(a: Seq<char>)
    ensures
        lex_le(a, a),
    decreases a.len(),
{
    if a.len() > 0 {
        lemma_lex_reflexive(a.drop_first());
    }
}

pub proof fn lemma_lex_antisymmetric(a: Seq<char>, b: Seq<char>)
    requires
        lex_le(a, b),
        lex_le(b, a),
    ensures
        a == b,
    decreases a.len(),
{
    if a.len() > 0 && b.len() > 0 {
        lemma_lex_antisymmetric(a.drop_first(), b.drop_first());
        assert(a[0] as int == b[0] as int);
        assert(a[0] == b[0]);
        assert(a =~= seq![a[0]] + a.drop_first());
        assert(b =~= seq![b[0]] + b.drop_first());
    } else {
        assert(a.len() == 0 && b.len() == 0);
        assert(a =~= b);
    }
}

pub proof fn lemma_lex_transitive(a: Seq<char>, b: Seq<char>, c: Seq<char>)
    requires
        lex_le(a, b),
        lex_le(b, c),
    ensures
        lex_le(a, c),
    decreases a.len(),
{
    if a.len() > 0 && b.len() > 0 && c.len() > 0 {
        if (a[0] as int) == (b[0] as int) && (b[0] as int) == (c[0] as int) {
            lemma_lex_transitive(a.drop_first(), b.drop_first(), c.drop_first());
        }
    }
}

pub proof fn lemma_lex_total(a: Seq<char>, b: Seq<char>)
    ensures
        lex_le(a, b) || lex_le(b, a),
    decreases a.len(),
{
    if a.len() > 0 && b.len() > 0 {
        lemma_lex_total(a.drop_first(), b.drop_first());
    }
}

/// File names are ordered totally.
pub proof fn lemma_name_order_total()
    ensures
        total_ordering(name_order()),
{
    assert forall|a: Seq<char>| #[trigger] name_order()(a, a) by {
        lemma_lex_reflexive(a);
    }
    assert forall|a: Seq<char>, b: Seq<char>|
        #[trigger] name_order()(a, b) && #[trigger] name_order()(b, a) implies a == b by {
        lemma_lex_antisymmetric(a, b);
    }
    assert forall|a: Seq<char>, b: Seq<char>, c: Seq<char>|
        #[trigger] name_order()(a, b) && #[trigger] name_order()(b, c) implies name_order()(
        a,
        c,
    ) by {
        lemma_lex_transitive(a, b, c);
    }
    assert forall|a: Seq<char>, b: Seq<char>|
        #[trigger] name_order()(a, b) || #[trigger] name_order()(b, a) by {
        lemma_lex_total(a, b);
    }
}

fn lex_le_exec(a: &Vec<char>, b: &Vec<char>) -> (r: bool)
    ensures
        r == lex_le(a@, b@),
{
    let mut i: usize = 0;
    assert(a@.subrange(0, a@.len() as int) =~= a@);
    assert(b@.subrange(0, b@.len() as int) =~= b@);
    while i < a.len() && i < b.len()
        invariant
            i <= a@.len(),
            i <= b@.len(),
            lex_le(a@, b@) == lex_le(
                a@.subrange(i as int, a@.len() as int),
                b@.subrange(i as int, b@.len() as int),
            ),
        decreases a@.len() - i,
    {
        let ghost sa = a@.subrange(i as int, a@.len() as int);
        let ghost sb = b@.subrange(i as int, b@.len() as int);
        assert(sa[0] == a@[i as int]);
        assert(sb[0] == b@[i as int]);
        let ca = a[i];
        let cb = b[i];
        if ca < cb {
            assert((ca as int) < (cb as int));
            return true;
        }
        if ca > cb {
            return false;
        }
        assert(ca == cb);
        assert(sa.drop_first() =~= a@.subrange(i + 1, a@.len() as int));
        assert(sb.drop_first() =~= b@.subrange(i + 1, b@.len() as int));
        i = i + 1;
    }
    proof {
        assert(a@.subrange(0, a@.len() as int) =~= a@);
        assert(b@.subrange(0, b@.len() as int) =~= b@);
    }
    i == a.len()
}

fn extension_chars(name: &Vec<char>) -> (r: Option<Vec<char>>)
    ensures
        match r {
            Some(e) => extension_of(name@) == Some(e@),
            None => extension_of(name@) is None,
        },
{
    if name.len() == 2 && name[0] == '.' && name[1] == '.' {
        return None;
    }
    proof {
        lemma_last_dot(name@);
    }
    let mut i: usize = name.len();
    assert(name@.take(name@.len() as int) =~= name@);
    while i > 0 && name[i - 1] != '.'
        invariant
            i <= name@.len(),
            forall|k: int| i <= k < name@.len() ==> name@[k] != '.',
            last_dot(name@) == last_dot(name@.take(i as int)),
        decreases i,
    {
        let ghost t = name@.take(i as int);
        assert(t.last() == name@[i - 1]);
        assert(t.drop_last() =~= name@.take(i - 1));
        i = i - 1;
    }
    if i <= 1 {
        proof {
            if i == 1 {
                assert(name@.take(1).last() == name@[0]);
            }
        }
        return None;
    }
    let ghost t = name@.take(i as int);
    assert(t.last() == '.') by {
        assert(t.last() == name@[i - 1]);
    }
    assert(last_dot(name@) == i - 1);
    let mut ext: Vec<char> = Vec::new();
    let mut k: usize = i;
    while k < name.len()
        invariant
            i <= k <= name@.len(),
            ext@ == name@.subrange(i as int, k as int),
        decreases name@.len() - k,
    {
        ext.push(name[k]);
        k = k + 1;
        assert(ext@ =~= name@.subrange(i as int, k as int));
    }
    Some(ext)
}

fn ascii_lower_exec(c: char) -> (r: char)
    ensures
        r == ascii_lower(c),
{
    if 'A' <= c && c <= 'Z' {
        ((c as u32) + 32) as u8 as char
    } else {
        c
    }
}

fn eq_ignore_ascii_case_exec(a: &Vec<char>, b: &Vec<char>) -> (r: bool)
    ensures
        r == eq_ignore_ascii_case(a@, b@),
{
    if a.len() != b.len() {
        return false;
    }
    let mut i: usize = 0;
    while i < a.len()
        invariant
            i <= a@.len(),
            a@.len() == b@.len(),
            forall|k: int| 0 <= k < i ==> ascii_lower(a@[k]) == ascii_lower(b@[k]),
        decreases a@.len() - i,
    {
        if ascii_lower_exec(a[i]) != ascii_lower_exec(b[i]) {
            return false;
        }
        i = i + 1;
    }
    true
}

pub open spec fn chars_views(v: Seq<Vec<char>>) -> Seq<Seq<char>> {
    v.map_values(|x: Vec<char>| x@)
}

/// What `list_files_with_extensions` returns, in words: the names come in
/// ascending order, each is one of the given names that has a listed
/// extension, every such name is there, and each as many times as it is
/// given.
pub proof fn lemma_listed_files_law(names: Seq<Seq<char>>, extensions: Seq<Seq<char>>)
    ensures
        sorted_by(listed_files(names, extensions), name_order()),
        forall|x: Seq<char>| #[trigger]
            listed_files(names, extensions).contains(x) <==> (names.contains(x)
                && has_listed_extension(x, extensions)),
        listed_files(names, extensions).to_multiset() =~= names.filter(listed(extensions)).to_multiset(),
{
    let pred = listed(extensions);
    let filtered = names.filter(pred);
    let out = listed_files(names, extensions);
    lemma_name_order_total();
    filtered.lemma_sort_by_ensures(name_order());
    broadcast use vstd::seq_lib::group_filter_ensures;
    out.to_multiset_ensures();
    filtered.to_multiset_ensures();
    assert forall|x: Seq<char>| #[trigger] out.contains(x) implies names.contains(x)
        && has_listed_extension(x, extensions) by {
        assert(out.to_multiset().count(x) > 0);
        assert(filtered.to_multiset().count(x) > 0);
        assert(filtered.contains(x));
        let j = choose|j: int| 0 <= j < filtered.len() && filtered[j] == x;
        assert(pred(filtered[j]));
        names.lemma_filter_contains_rev(pred, x);
    }
    assert forall|x: Seq<char>| names.contains(x) && has_listed_extension(x, extensions) implies #[trigger] out.contains(x) by {
        let i = choose|i: int| 0 <= i < names.len() && names[i] == x;
        assert(pred(names[i]));
        names.lemma_filter_contains(pred, i);
        assert(filtered.to_multiset().count(x) > 0);
        assert(out.to_multiset().count(x) > 0);
    }
}

pub open spec fn str_views(v: Seq<&str>) -> Seq<Seq<char>> {
    v.map_values(|x: &str| x@)
}

/// The names among `file_names` whose extension is one of `extensions`
/// (ignoring ASCII case), sorted by name.
pub fn list_files_with_extensions(file_names: &Vec<String>, extensions: &[&str]) -> (r: Vec<String>)
    ensures
        strings_of(r@) == listed_files(strings_of(file_names@), str_views(extensions@)),
{
    let ghost exts = str_views(extensions@);
    let ghost names = strings_of(file_names@);
    let ghost pred = listed(exts);
    let mut ext_chars: Vec<Vec<char>> = Vec::new();
    let mut k: usize = 0;
    while k < extensions.len()
        invariant
            k <= extensions@.len(),
            exts == str_views(extensions@),
            chars_views(ext_chars@) == exts.take(k as int),
        decreases extensions@.len() - k,
    {
        let ghost before = ext_chars@;
        let e = str_to_chars(extensions[k]);
        assert(exts[k as int] == extensions@[k as int]@);
        assert(e@ == exts[k as int]);
        ext_chars.push(e);
        assert(chars_views(ext_chars@) =~= chars_views(before).push(e@));
        assert(chars_views(ext_chars@) =~= exts.take(k + 1));
        k = k + 1;
    }
    assert(exts.take(exts.len() as int) =~= exts);
    let mut kept: Vec<Vec<char>> = Vec::new();
    let mut i: usize = 0;
    assert(names.take(0).filter(pred) =~= Seq::<Seq<char>>::empty()) by {
        reveal_with_fuel(Seq::<_>::filter, 1);
    }
    while i < file_names.len()
        invariant
            i <= file_names@.len(),
            names == strings_of(file_names@),
            pred == listed(exts),
            chars_views(ext_chars@) == exts,
            chars_views(kept@) == names.take(i as int).filter(pred),
        decreases file_names@.len() - i,
    {
        let name = str_to_chars(file_names[i].as_str());
        let mut keep = false;
        match extension_chars(&name) {
            Some(e) => {
                let mut j: usize = 0;
                while j < ext_chars.len()
                    invariant
                        j <= ext_chars@.len(),
                        chars_views(ext_chars@) == exts,
                        keep <==> exists|q: int| 0 <= q < j && eq_ignore_ascii_case(e@, #[trigger] exts[q]),
                    decreases ext_chars@.len() - j,
                {
                    assert(exts[j as int] == ext_chars@[j as int]@);
                    if eq_ignore_ascii_case_exec(&e, &ext_chars[j]) {
                        keep = true;
                    }
                    j = j + 1;
                }
            },
            None => {},
        }
        assert(name@ == names[i as int]);
        assert(keep == pred(names[i as int]));
        proof {
            let t = names.take(i + 1);
            assert(t.drop_last() =~= names.take(i as int));
            assert(t.last() == names[i as int]);
            reveal_with_fuel(Seq::<_>::filter, 1);
        }
        if keep {
            let ghost before = kept@;
            kept.push(name);
            assert(chars_views(kept@) =~= chars_views(before).push(name@));
        }
        i = i + 1;
    }
    assert(names.take(names.len() as int) =~= names);
    let ghost filtered = names.filter(pred);
    proof {
        lemma_name_order_total();
    }
    let mut sorted: Vec<Vec<char>> = Vec::new();
    let mut j: usize = 0;
    assert(filtered.take(0) =~= Seq::<Seq<char>>::empty());
    assert(chars_views(sorted@) =~= Seq::<Seq<char>>::empty());
    while j < kept.len()
        invariant
            j <= kept@.len(),
            chars_views(kept@) == filtered,
            total_ordering(name_order()),
            sorted_by(chars_views(sorted@), name_order()),
            chars_views(sorted@).to_multiset() == filtered.take(j as int).to_multiset(),
        decreases kept@.len() - j,
    {
        let x = kept[j].clone();
        let mut p: usize = 0;
        while p < sorted.len() && lex_le_exec(&sorted[p], &x)
            invariant
                p <= sorted@.len(),
                forall|q: int| 0 <= q < p ==> lex_le(#[trigger] sorted@[q]@, x@),
            decreases sorted@.len() - p,
        {
            p = p + 1;
        }
        let ghost sv = chars_views(sorted@);
        proof {
            if p < sorted@.len() {
                lemma_lex_total(sorted@[p as int]@, x@);
            }
            assert forall|q: int| p <= q < sv.len() implies lex_le(x@, #[trigger] sv[q]) by {
                if q > p {
                    assert(name_order()(sv[p as int], sv[q]));
                    lemma_lex_transitive(x@, sv[p as int], sv[q]);
                }
            }
        }
        sorted.insert(p, x);
        proof {
            let nv = chars_views(sorted@);
            assert(nv =~= sv.insert(p as int, kept@[j as int]@));
            assert forall|a: int, b: int| 0 <= a < b < nv.len() implies #[trigger] name_order()(
                nv[a],
                nv[b],
            ) by {
                if b < p {
                    assert(name_order()(sv[a], sv[b]));
                } else if a < p && b == p {
                } else if a < p && b > p {
                    lemma_lex_transitive(sv[a], x@, sv[b - 1]);
                } else if a == p {
                } else {
                    assert(name_order()(sv[a - 1], sv[b - 1]));
                }
            }
            vstd::seq_lib::to_multiset_insert(sv, p as int, kept@[j as int]@);
            assert(filtered.take(j + 1) =~= filtered.take(j as int).push(filtered[j as int]));
            vstd::seq_lib::to_multiset_build(filtered.take(j as int), filtered[j as int]);
        }
        j = j + 1;
    }
    proof {
        assert(filtered.take(filtered.len() as int) =~= filtered);
        filtered.lemma_sort_by_ensures(name_order());
        vstd::seq_lib::lemma_sorted_unique(
            chars_views(sorted@),
            filtered.sort_by(name_order()),
            name_order(),
        );
    }
    let mut out: Vec<String> = Vec::new();
    let mut q: usize = 0;
    while q < sorted.len()
        invariant
            q <= sorted@.len(),
            strings_of(out@) == chars_views(sorted@).take(q as int),
        decreases sorted@.len() - q,
    {
        let ghost before = out@;
        let st = chars_to_string(sorted[q].as_slice());
        out.push(st);
        assert(chars_views(sorted@)[q as int] == sorted@[q as int]@);
        assert(strings_of(out@) =~= strings_of(before).push(st@));
        assert(strings_of(out@) =~= chars_views(sorted@).take(q + 1));
        q = q + 1;
    }
    assert(chars_views(sorted@).take(sorted@.len() as int) =~= chars_views(sorted@));
    out
}

/// `char::is_whitespace`: the characters with the Unicode `White_Space` property.
pub open spec fn is_whitespace(c: char) -> bool {
    let n = c as int;
    (0x09 <= n <= 0x0d) || n == 0x20 || n == 0x85 || n == 0xa0 || n == 0x1680 || (0x2000 <= n
        <= 0x200a) || n == 0x2028 || n == 0x2029 || n == 0x202f || n == 0x205f || n == 0x3000
}

pub open spec fn trim_start(s: Seq<char>) -> Seq<char>
    decreases s.len(),
{
    if s.len() > 0 && is_whitespace(s[0]) {
        trim_start(s.drop_first())
    } else {
        s
    }
}

pub open spec fn trim_end(s: Seq<char>) -> Seq<char>
    decreases s.len(),
{
    if s.len() > 0 && is_whitespace(s.last()) {
        trim_end(s.drop_last())
    } else {
        s
    }
}

/// `str::trim`.
pub open spec fn trimmed(s: Seq<char>) -> Seq<char> {
    trim_end(trim_start(s))
}

/// The answer that a line typed at the continue prompt gives: `y` is yes,
/// `n` is no (surrounding whitespace ignored); anything else asks again.
pub open spec fn confirmation(line: Seq<char>) -> Option<bool> {
    if trimmed(line) == seq!['y'] {
        Some(true)
    } else if trimmed(line) == seq!['n'] {
        Some(false)
    } else {
        None
    }
}

fn is_whitespace_exec(c: char) -> (r: bool)
    ensures
        r == is_whitespace(c),
{
    let n = c as u32;
    (0x09 <= n && n <= 0x0d) || n == 0x20 || n == 0x85 || n == 0xa0 || n == 0x1680 || (0x2000 <= n
        && n <= 0x200a) || n == 0x2028 || n == 0x2029 || n == 0x202f || n == 0x205f || n == 0x3000
}

/// Reads a line typed at the continue prompt (see `confirmation`).
pub fn confirm_answer(line: &str) -> (r: Option<bool>)
    ensures
        r == confirmation(line@),
{
    let c = str_to_chars(line);
    let mut start: usize = 0;
    assert(c@.subrange(0, c@.len() as int) =~= c@);
    while start < c.len() && is_whitespace_exec(c[start])
        invariant
            start <= c@.len(),
            trim_start(c@) == trim_start(c@.subrange(start as int, c@.len() as int)),
        decreases c@.len() - start,
    {
        assert(c@.subrange(start as int, c@.len() as int).drop_first() =~= c@.subrange(
            start + 1,
            c@.len() as int,
        ));
        start = start + 1;
    }
    let ghost ts = c@.subrange(start as int, c@.len() as int);
    assert(trim_start(c@) == ts);
    let mut end: usize = c.len();
    assert(ts =~= c@.subrange(start as int, end as int));
    while end > start && is_whitespace_exec(c[end - 1])
        invariant
            start <= end <= c@.len(),
            trim_end(ts) == trim_end(c@.subrange(start as int, end as int)),
        decreases end - start,
    {
        assert(c@.subrange(start as int, end as int).drop_last() =~= c@.subrange(
            start as int,
            end - 1,
        ));
        end = end - 1;
    }
    let ghost t = c@.subrange(start as int, end as int);
    assert(trimmed(line@) == t);
    if end - start == 1 && c[start] == 'y' {
        assert(t =~= seq!['y']);
        Some(true)
    } else if end - start == 1 && c[start] == 'n' {
        assert(t =~= seq!['n']);
        Some(false)
    } else {
        assert(t != seq!['y'] && t != seq!['n']) by {
            if t.len() == 1 {
                assert(t[0] == c@[start as int]);
            }
        }
        None
    }
}

} // verus!
