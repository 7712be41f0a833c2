//! Date normalization and width-limited truncation of strings.

use vstd::prelude::*;
use crate::utils::chars::{chars_to_string, push_chars, push_str, str_to_chars};
use crate::utils::num::{
    all_digits, decimal, is_ascii_digit, lemma_decimal_len, lemma_parse_u32_zero_padded, lemma_zero_padded_digits, parse_u32,
    push_decimal, push_zero_padded, spec_parse_u32, zero_pad,
};

verus! {

/// `s` split at every occurrence of `sep`, as `str::split` with a `char`
/// pattern gives it (always at least one piece).
pub open spec fn split_on(s: Seq<char>, sep: char) -> Seq<Seq<char>>
    decreases s.len(),
{
    if s.len() == 0 {
        seq![Seq::<char>::empty()]
    } else {
        let p = split_on(s.drop_last(), sep);
        if s.last() == sep {
            p.push(Seq::<char>::empty())
        } else {
            p.update(p.len() - 1, p.last().push(s.last()))
        }
    }
}

pub proof fn lemma_split_on_nonempty(s: Seq<char>, sep: char)
    ensures
        split_on(s, sep).len() >= 1,
    decreases s.len(),
{
    if s.len() > 0 {
        lemma_split_on_nonempty(s.drop_last(), sep);
    }
}

/// A piece without the separator splits into itself alone.
proof fn lemma_split_on_piece(s: Seq<char>, sep: char)
    requires
        forall|i: int| 0 <= i < s.len() ==> s[i] != sep,
    ensures
        split_on(s, sep) == seq![s],
    decreases s.len(),
{
    if s.len() > 0 {
        lemma_split_on_piece(s.drop_last(), sep);
        assert(s.drop_last().push(s.last()) =~= s);
        assert(seq![s.drop_last()].update(0, s) =~= seq![s]);
    } else {
        assert(s =~= Seq::<char>::empty());
    }
}

/// Splitting `p`, a separator and `q` gives the pieces of `p` followed by
/// those of `q`.
proof fn lemma_split_on_join(p: Seq<char>, q: Seq<char>, sep: char)
    ensures
        split_on(p + seq![sep] + q, sep) == split_on(p, sep) + split_on(q, sep),
    decreases q.len(),
{
    let s = p + seq![sep] + q;
    lemma_split_on_nonempty(p, sep);
    if q.len() == 0 {
        assert(s.drop_last() =~= p);
        assert(split_on(q, sep) =~= seq![Seq::<char>::empty()]);
        assert(split_on(p, sep).push(Seq::<char>::empty()) =~= split_on(p, sep) + split_on(q, sep));
    } else {
        assert(s.drop_last() =~= p + seq![sep] + q.drop_last());
        assert(s.last() == q.last());
        lemma_split_on_join(p, q.drop_last(), sep);
        lemma_split_on_nonempty(q.drop_last(), sep);
        let a = split_on(p, sep);
        let b = split_on(q.drop_last(), sep);
        if q.last() == sep {
            assert((a + b).push(Seq::<char>::empty()) =~= a + b.push(Seq::<char>::empty()));
        } else {
            assert((a + b).update((a + b).len() - 1, (a + b).last().push(q.last())) =~= a + b.update(
                b.len() - 1,
                b.last().push(q.last()),
            ));
        }
    }
}

proof fn lemma_digits_have_no_slash(s: Seq<char>)
    requires
        all_digits(s),
    ensures
        forall|i: int| 0 <= i < s.len() ==> s[i] != '/',
{
    assert forall|i: int| 0 <= i < s.len() implies s[i] != '/' by {
        assert(crate::utils::num::is_ascii_digit(s[i]));
    }
}

/// A valid date written `Y/M/D`, each part in decimal with any number of
/// leading zeros, normalizes to its zero-padded `YYYY-MM-DD` form.
pub proof fn lemma_normalize_slashed_date_valid(
    year: nat,
    month: nat,
    day: nat,
    year_width: nat,
    month_width: nat,
    day_width: nat,
)
    requires
        1 <= year <= 9999,
        1 <= month <= 12,
        1 <= day <= 31,
    ensures
        slashed_date_result(
            zero_pad(decimal(year), year_width) + seq!['/'] + zero_pad(decimal(month), month_width)
                + seq!['/'] + zero_pad(decimal(day), day_width),
        ) == Ok::<Seq<char>, Seq<char>>(
            zero_pad(decimal(year), 4) + "-"@ + zero_pad(decimal(month), 2) + "-"@ + zero_pad(
                decimal(day),
                2,
            ),
        ),
{
    let y = zero_pad(decimal(year), year_width);
    let m = zero_pad(decimal(month), month_width);
    let d = zero_pad(decimal(day), day_width);
    lemma_zero_padded_digits(year, year_width);
    lemma_zero_padded_digits(month, month_width);
    lemma_zero_padded_digits(day, day_width);
    lemma_digits_have_no_slash(y);
    lemma_digits_have_no_slash(m);
    lemma_digits_have_no_slash(d);
    lemma_split_on_piece(y, '/');
    lemma_split_on_piece(m, '/');
    lemma_split_on_piece(d, '/');
    lemma_split_on_join(y, m, '/');
    lemma_split_on_join(y + seq!['/'] + m, d, '/');
    let parts = split_on(y + seq!['/'] + m + seq!['/'] + d, '/');
    assert(parts =~= seq![y, m, d]);
    lemma_parse_u32_zero_padded(year, year_width);
    lemma_parse_u32_zero_padded(month, month_width);
    lemma_parse_u32_zero_padded(day, day_width);
}

/// The number that a part of a date stands for: a non-empty run of ASCII
/// digits whose value fits a `u32`; anything else (a sign, a space, an
/// empty part) stands for none.
pub open spec fn date_part(p: Seq<char>) -> Option<int> {
    if p.len() > 0 && all_digits(p) {
        match spec_parse_u32(p) {
            Ok(n) => Some(n),
            Err(_) => None,
        }
    } else {
        None
    }
}

/// What `normalize_slashed_date` returns for `input`: the three `/`-separated
/// parts are read as year, month and day (in that order; the first that is
/// not a number, see `date_part`, is named), then checked against 1..=9999,
/// 1..=12 and 1..=31 (in that order), and printed as `YYYY-MM-DD` with zero
/// padding.
pub open spec fn slashed_date_result(input: Seq<char>) -> Result<Seq<char>, Seq<char>> {
    let parts = split_on(input, '/');
    if parts.len() != 3 {
        Err("Invalid date format: "@ + input)
    } else {
        match date_part(parts[0]) {
            None => Err("Invalid year: "@ + parts[0]),
            Some(year) => match date_part(parts[1]) {
                None => Err("Invalid month: "@ + parts[1]),
                Some(month) => match date_part(parts[2]) {
                    None => Err("Invalid day: "@ + parts[2]),
                    Some(day) => if !(1 <= year <= 9999) {
                        Err("Year out of range: "@ + decimal(year as nat))
                    } else if !(1 <= month <= 12) {
                        Err("Month out of range: "@ + decimal(month as nat))
                    } else if !(1 <= day <= 31) {
                        Err("Day out of range: "@ + decimal(day as nat))
                    } else {
                        Ok(
                            zero_pad(decimal(year as nat), 4) + "-"@ + zero_pad(
                                decimal(month as nat),
                                2,
                            ) + "-"@ + zero_pad(decimal(day as nat), 2),
                        )
                    },
                },
            },
        }
    }
}

/// `s` with every `-` replaced by `/` (`str::replace('-', "/")`).
pub open spec fn dashes_to_slashes(s: Seq<char>) -> Seq<char> {
    s.map_values(|c: char| if c == '-' { '/' } else { c })
}

proof fn lemma_digits_unchanged(s: Seq<char>)
    requires
        all_digits(s),
    ensures
        dashes_to_slashes(s) == s,
{
    assert forall|i: int| 0 <= i < s.len() implies dashes_to_slashes(s)[i] == s[i] by {
        assert(is_ascii_digit(s[i]));
    }
    assert(dashes_to_slashes(s) =~= s);
}

/// Normalizing is idempotent on its results: a normalized date, written
/// back with `/` in place of `-`, normalizes to itself.
pub proof fn lemma_normalize_slashed_date_idempotent(input: Seq<char>)
    requires
        slashed_date_result(input) is Ok,
    ensures
        slashed_date_result(dashes_to_slashes(slashed_date_result(input)->Ok_0)) == slashed_date_result(
            input,
        ),
{
    let parts = split_on(input, '/');
    let year = date_part(parts[0])->Some_0;
    let month = date_part(parts[1])->Some_0;
    let day = date_part(parts[2])->Some_0;
    let y = zero_pad(decimal(year as nat), 4);
    let m = zero_pad(decimal(month as nat), 2);
    let d = zero_pad(decimal(day as nat), 2);
    reveal_strlit("-");
    let out = y + "-"@ + m + "-"@ + d;
    assert(slashed_date_result(input) == Ok::<Seq<char>, Seq<char>>(out));
    lemma_zero_padded_digits(year as nat, 4);
    lemma_zero_padded_digits(month as nat, 2);
    lemma_zero_padded_digits(day as nat, 2);
    lemma_digits_unchanged(y);
    lemma_digits_unchanged(m);
    lemma_digits_unchanged(d);
    let slashed = y + seq!['/'] + m + seq!['/'] + d;
    assert(dashes_to_slashes(out) =~= slashed) by {
        assert forall|i: int| 0 <= i < out.len() implies dashes_to_slashes(out)[i] == slashed[i] by {
            if i < y.len() {
                assert(out[i] == y[i]);
                assert(dashes_to_slashes(y)[i] == y[i]);
            } else if i == y.len() {
            } else if i < y.len() + 1 + m.len() {
                assert(out[i] == m[i - y.len() - 1]);
                assert(dashes_to_slashes(m)[i - y.len() - 1] == m[i - y.len() - 1]);
            } else if i == y.len() + 1 + m.len() {
            } else {
                assert(out[i] == d[i - y.len() - 2 - m.len()]);
                assert(dashes_to_slashes(d)[i - y.len() - 2 - m.len()] == d[i - y.len() - 2 - m.len()]);
            }
        }
    }
    lemma_normalize_slashed_date_valid(year as nat, month as nat, day as nat, 4, 2, 2);
}

/// What `normalize_slashed_date` returns is always `YYYY-MM-DD`: ten
/// characters, `-` at positions 4 and 7, ASCII digits everywhere else.
pub proof fn lemma_normalized_date_shape(input: Seq<char>)
    requires
        slashed_date_result(input) is Ok,
    ensures
        ({
            let s = slashed_date_result(input)->Ok_0;
            &&& s.len() == 10
            &&& s[4] == '-'
            &&& s[7] == '-'
            &&& forall|i: int| 0 <= i < 10 && i != 4 && i != 7 ==> is_ascii_digit(#[trigger] s[i])
        }),
{
    let parts = split_on(input, '/');
    let year = date_part(parts[0])->Some_0;
    let month = date_part(parts[1])->Some_0;
    let day = date_part(parts[2])->Some_0;
    lemma_decimal_len(year as nat);
    lemma_decimal_len(month as nat);
    lemma_decimal_len(day as nat);
    lemma_zero_padded_digits(year as nat, 4);
    lemma_zero_padded_digits(month as nat, 2);
    lemma_zero_padded_digits(day as nat, 2);
    let y = zero_pad(decimal(year as nat), 4);
    let m = zero_pad(decimal(month as nat), 2);
    let d = zero_pad(decimal(day as nat), 2);
    reveal_strlit("-");
    let s = y + "-"@ + m + "-"@ + d;
    assert(y.len() == 4 && m.len() == 2 && d.len() == 2);
    assert(slashed_date_result(input) == Ok::<Seq<char>, Seq<char>>(s));
    assert forall|i: int| 0 <= i < 10 && i != 4 && i != 7 implies is_ascii_digit(#[trigger] s[i]) by {
        if i < 4 {
            assert(s[i] == y[i]);
        } else if i < 7 {
            assert(s[i] == m[i - 5]);
        } else {
            assert(s[i] == d[i - 8]);
        }
    }
}

pub open spec fn result_view(r: Result<String, String>) -> Result<Seq<char>, Seq<char>> {
    match r {
        Ok(s) => Ok(s@),
        Err(e) => Err(e@),
    }
}

/// Splits `s` at `/`.
fn split_slashes(s: &Vec<char>) -> (parts: Vec<Vec<char>>)
    ensures
        parts@.len() == split_on(s@, '/').len(),
        forall|k: int| 0 <= k < parts@.len() ==> #[trigger] parts@[k]@ == split_on(s@, '/')[k],
{
    let mut done: Vec<Vec<char>> = Vec::new();
    let mut cur: Vec<char> = Vec::new();
    let mut i: usize = 0;
    while i < s.len()
        invariant
            i <= s@.len(),
            done@.len() + 1 == split_on(s@.subrange(0, i as int), '/').len(),
            forall|k: int|
                0 <= k < done@.len() ==> #[trigger] done@[k]@ == split_on(
                    s@.subrange(0, i as int),
                    '/',
                )[k],
            cur@ == split_on(s@.subrange(0, i as int), '/').last(),
        decreases s@.len() - i,
    {
        let ghost prev = s@.subrange(0, i as int);
        proof {
            lemma_split_on_nonempty(prev, '/');
        }
        let c = s[i];
        i = i + 1;
        let ghost next = s@.subrange(0, i as int);
        assert(next.drop_last() =~= prev);
        assert(next.last() == c);
        if c == '/' {
            let piece = cur;
            cur = Vec::new();
            done.push(piece);
            assert(cur@ =~= split_on(next, '/').last());
        } else {
            cur.push(c);
        }
    }
    proof {
        lemma_split_on_nonempty(s@, '/');
        assert(s@.subrange(0, s@.len() as int) =~= s@);
    }
    done.push(cur);
    done
}

/// Reads a part of a date (see `date_part`).
fn read_date_part(p: &Vec<char>) -> (r: Option<u32>)
    ensures
        match r {
            Some(n) => date_part(p@) == Some(n as int),
            None => date_part(p@) is None,
        },
{
    if p.len() == 0 {
        return None;
    }
    let mut i: usize = 0;
    while i < p.len()
        invariant
            i <= p@.len(),
            forall|k: int| 0 <= k < i ==> is_ascii_digit(#[trigger] p@[k]),
        decreases p@.len() - i,
    {
        if !('0' <= p[i] && p[i] <= '9') {
            assert(!all_digits(p@));
            return None;
        }
        i = i + 1;
    }
    let text = chars_to_string(p.as_slice());
    match parse_u32(text.as_str()) {
        Ok(n) => Some(n),
        Err(_) => None,
    }
}

/// Converts a date written `YYYY/MM/DD` or `Y/M/D` to `YYYY-MM-DD`; any other
/// form gives `Err` with a message that names the offending part.
pub fn normalize_slashed_date(input: &str) -> (r: Result<String, String>)
    ensures
        result_view(r) == slashed_date_result(input@),
{
    let chars = str_to_chars(input);
    let parts = split_slashes(&chars);
    if parts.len() != 3 {
        let mut msg: Vec<char> = Vec::new();
        push_str(&mut msg, "Invalid date format: ");
        push_str(&mut msg, input);
        return Err(chars_to_string(msg.as_slice()));
    }
    let year = match read_date_part(&parts[0]) {
        Some(y) => y,
        None => {
            let mut msg: Vec<char> = Vec::new();
            push_str(&mut msg, "Invalid year: ");
            push_chars(&mut msg, parts[0].as_slice());
            return Err(chars_to_string(msg.as_slice()));
        },
    };
    let month = match read_date_part(&parts[1]) {
        Some(m) => m,
        None => {
            let mut msg: Vec<char> = Vec::new();
            push_str(&mut msg, "Invalid month: ");
            push_chars(&mut msg, parts[1].as_slice());
            return Err(chars_to_string(msg.as_slice()));
        },
    };
    let day = match read_date_part(&parts[2]) {
        Some(d) => d,
        None => {
            let mut msg: Vec<char> = Vec::new();
            push_str(&mut msg, "Invalid day: ");
            push_chars(&mut msg, parts[2].as_slice());
            return Err(chars_to_string(msg.as_slice()));
        },
    };
    if !(1 <= year && year <= 9999) {
        let mut msg: Vec<char> = Vec::new();
        push_str(&mut msg, "Year out of range: ");
        push_decimal(&mut msg, year as u64);
        return Err(chars_to_string(msg.as_slice()));
    }
    if !(1 <= month && month <= 12) {
        let mut msg: Vec<char> = Vec::new();
        push_str(&mut msg, "Month out of range: ");
        push_decimal(&mut msg, month as u64);
        return Err(chars_to_string(msg.as_slice()));
    }
    if !(1 <= day && day <= 31) {
        let mut msg: Vec<char> = Vec::new();
        push_str(&mut msg, "Day out of range: ");
        push_decimal(&mut msg, day as u64);
        return Err(chars_to_string(msg.as_slice()));
    }
    let mut out: Vec<char> = Vec::new();
    push_zero_padded(&mut out, year as u64, 4);
    push_str(&mut out, "-");
    push_zero_padded(&mut out, month as u64, 2);
    push_str(&mut out, "-");
    push_zero_padded(&mut out, day as u64, 2);
    Ok(chars_to_string(out.as_slice()))
}

/// The display width that `truncate_string` counts for a character: 1 for
/// ASCII, 2 for anything else.
pub open spec fn char_width(c: char) -> int {
    if (c as u32) < 128 {
        1
    } else {
        2
    }
}

/// Total width of `s`.
pub open spec fn text_width(s: Seq<char>) -> int
    decreases s.len(),
{
    if s.len() == 0 {
        0
    } else {
        text_width(s.drop_last()) + char_width(s.last())
    }
}

/// What `truncate_string(s, max_width)` returns: the characters of `s` are
/// kept while their total width stays within `max_width`; at the first one
/// that would exceed it, `"..."` is appended in its place and the rest dropped.
pub open spec fn truncated(s: Seq<char>, max_width: int) -> Seq<char>
    decreases s.len(),
{
    if s.len() == 0 {
        Seq::<char>::empty()
    } else if char_width(s[0]) > max_width {
        "..."@
    } else {
        seq![s[0]] + truncated(s.drop_first(), max_width - char_width(s[0]))
    }
}

/// Cuts `s` down to at most `max_width` columns, counting ASCII characters
/// as one column and all others as two; when anything is cut, `"..."` is
/// appended.
pub fn truncate_string(s: &str, max_width: usize) -> (r: String)
    ensures
        r@ == truncated(s@, max_width as int),
{
    let chars = str_to_chars(s);
    let mut width: usize = 0;
    let mut result: Vec<char> = Vec::new();
    let mut i: usize = 0;
    assert(chars@.subrange(0, chars@.len() as int) =~= s@);
    assert(result@ =~= Seq::<char>::empty());
    while i < chars.len()
        invariant
            i <= chars@.len(),
            chars@ == s@,
            width <= max_width,
            result@ + truncated(chars@.subrange(i as int, chars@.len() as int), max_width - width)
                == truncated(s@, max_width as int),
        decreases chars@.len() - i,
    {
        let ch = chars[i];
        let ghost rest = chars@.subrange(i as int, chars@.len() as int);
        assert(rest[0] == ch);
        assert(rest.drop_first() =~= chars@.subrange(i + 1, chars@.len() as int));
        let char_width: usize = if (ch as u32) < 128 { 1 } else { 2 };
        if char_width > max_width - width {
            let ghost before = result@;
            push_str(&mut result, "...");
            assert(result@ + truncated(
                chars@.subrange(chars@.len() as int, chars@.len() as int),
                max_width - width,
            ) =~= before + "..."@);
            i = chars.len();
        } else {
            let ghost before = result@;
            result.push(ch);
            width = width + char_width;
            i = i + 1;
            assert(before + (seq![ch] + truncated(
                chars@.subrange(i as int, chars@.len() as int),
                max_width - width,
            )) =~= result@ + truncated(
                chars@.subrange(i as int, chars@.len() as int),
                max_width - width,
            ));
        }
    }
    assert(chars@.subrange(i as int, chars@.len() as int) =~= Seq::<char>::empty());
    assert(result@ =~= truncated(s@, max_width as int));
    chars_to_string(result.as_slice())
}

proof fn lemma_width_cons(c: char, t: Seq<char>)
    ensures
        text_width(seq![c] + t) == char_width(c) + text_width(t),
    decreases t.len(),
{
    let u = seq![c] + t;
    if t.len() == 0 {
        assert(u.drop_last() =~= Seq::<char>::empty());
        assert(u.last() == c);
        assert(text_width(Seq::<char>::empty()) == 0);
    } else {
        assert(u.drop_last() =~= seq![c] + t.drop_last());
        assert(u.last() == t.last());
        lemma_width_cons(c, t.drop_last());
    }
}

proof fn lemma_width_nonnegative(s: Seq<char>)
    ensures
        text_width(s) >= 0,
    decreases s.len(),
{
    if s.len() > 0 {
        lemma_width_nonnegative(s.drop_last());
    }
}

/// What `truncate_string` does, in words: a string whose width is within
/// the limit comes back unchanged; a wider one comes back as its longest
/// prefix whose width is within the limit, followed by `"..."`.
pub proof fn lemma_truncate_string_law(s: Seq<char>, max_width: int)
    requires
        max_width >= 0,
    ensures
        text_width(s) <= max_width ==> truncated(s, max_width) == s,
        text_width(s) > max_width ==> exists|k: int|
            0 <= k < s.len() && truncated(s, max_width) == s.take(k) + "..."@ && text_width(
                #[trigger] s.take(k),
            ) <= max_width && text_width(s.take(k + 1)) > max_width,
    decreases s.len(),
{
    if s.len() == 0 {
        assert(truncated(s, max_width) =~= s);
    } else {
        let c = s[0];
        let t = s.drop_first();
        assert(s =~= seq![c] + t);
        lemma_width_cons(c, t);
        lemma_width_nonnegative(t);
        if char_width(c) > max_width {
            assert(s.take(0) + "..."@ =~= "..."@);
            assert(s.take(1) =~= seq![c] + Seq::<char>::empty());
            lemma_width_cons(c, Seq::<char>::empty());
            assert(text_width(s.take(0)) == 0);
        } else {
            let w2 = max_width - char_width(c);
            lemma_truncate_string_law(t, w2);
            if text_width(t) <= w2 {
                assert(truncated(s, max_width) =~= s);
            } else {
                let k2 = choose|k: int|
                    0 <= k < t.len() && truncated(t, w2) == t.take(k) + "..."@ && text_width(
                        #[trigger] t.take(k),
                    ) <= w2 && text_width(t.take(k + 1)) > w2;
                assert(s.take(k2 + 1) =~= seq![c] + t.take(k2));
                assert(s.take(k2 + 2) =~= seq![c] + t.take(k2 + 1));
                lemma_width_cons(c, t.take(k2));
                lemma_width_cons(c, t.take(k2 + 1));
                assert(truncated(s, max_width) =~= s.take(k2 + 1) + "..."@);
            }
        }
    }
}

} // verus!
