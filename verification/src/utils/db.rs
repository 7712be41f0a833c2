//! Database values as text, and the rows of a query as a table.

use vstd::prelude::*;
use crate::error::DbError;
use crate::utils::chars::{chars_to_string, push_str};
use crate::utils::steps::{steps_view, DbStep, Sql, SqlView, StepView};
use crate::utils::io::{render_table, rows_of, strings_of, table_text, tab_aligned};
use crate::utils::num::{i64_to_decimal, signed_decimal};
use crate::utils::str::{truncate_string, truncated};

verus! {

/// A value read from a column of a result row. A real number is held as the
/// text that `f64`'s `Display` prints for it; of a blob only its kind matters.
#[derive(Debug)]
pub enum DbValue {
    Null,
    Integer(i64),
    Real(String),
    Text(String),
    Blob,
}

/// The text shown for a value.
pub open spec fn db_value_text(v: DbValue) -> Seq<char> {
    match v {
        DbValue::Null => "[NULL]"@,
        DbValue::Integer(n) => signed_decimal(n as int),
        DbValue::Real(t) => t@,
        DbValue::Text(s) => s@,
        DbValue::Blob => "[BLOB]"@,
    }
}

/// The text shown for a value in a column of maximum width `max_len`
/// (`0` for no limit).
pub open spec fn cell_text(v: DbValue, max_len: usize) -> Seq<char> {
    if max_len > 0 {
        truncated(db_value_text(v), max_len as int)
    } else {
        db_value_text(v)
    }
}

/// The text shown for a value.
pub fn db_value_to_string(value: &DbValue) -> (s: String)
    ensures
        s@ == db_value_text(*value),
{
    match value {
        DbValue::Integer(n) => i64_to_decimal(*n),
        DbValue::Real(t) => t.clone(),
        DbValue::Text(s) => s.clone(),
        DbValue::Null => "[NULL]".to_string(),
        DbValue::Blob => "[BLOB]".to_string(),
    }
}

/// `rusqlite::Error::InvalidColumnIndex(i)`, the error of reading column `i`
/// of a row that has no such column.
#[verifier::external_body]
fn invalid_column_index(i: usize) -> rusqlite::Error {
    rusqlite::Error::InvalidColumnIndex(i)
}

/// The texts of the first `max_lens.len()` columns of a row, each cut to its
/// maximum width (a width of `0` keeps the whole text). Reading a column that
/// the row does not have is `DbError::Sqlite` (invalid column index).
pub fn format_row(values: &Vec<DbValue>, max_lens: &Vec<usize>) -> (r: Result<Vec<String>, DbError>)
    ensures
        r is Err <==> max_lens@.len() > values@.len(),
        r matches Err(e) ==> e is Sqlite,
        r matches Ok(cells) ==> {
            &&& cells@.len() == max_lens@.len()
            &&& forall|i: int|
                0 <= i < max_lens@.len() ==> #[trigger] cells@[i]@ == cell_text(
                    values@[i],
                    max_lens@[i],
                )
        },
{
    let mut cells: Vec<String> = Vec::new();
    let mut i: usize = 0;
    while i < max_lens.len()
        invariant
            i <= max_lens@.len(),
            cells@.len() == i,
            i <= values@.len(),
            forall|k: int| 0 <= k < i ==> #[trigger] cells@[k]@ == cell_text(values@[k], max_lens@[k]),
        decreases max_lens@.len() - i,
    {
        if i >= values.len() {
            return Err(DbError::Sqlite(invalid_column_index(i)));
        }
        let s = db_value_to_string(&values[i]);
        let max_len = max_lens[i];
        if max_len > 0 {
            cells.push(truncate_string(s.as_str(), max_len));
        } else {
            cells.push(s);
        }
        i = i + 1;
    }
    Ok(cells)
}

/// The rows of a query as they are shown: each row formatted by
/// `format_row`, stopping at the first that fails.
pub open spec fn formatted_rows(rows: Seq<Vec<DbValue>>, max_lens: Seq<usize>) -> Option<
    Seq<Seq<Seq<char>>>,
> {
    if exists|i: int| 0 <= i < rows.len() && max_lens.len() > #[trigger] rows[i]@.len() {
        None
    } else {
        Some(
            Seq::new(
                rows.len(),
                |i: int| Seq::new(max_lens.len(), |k: int| cell_text(rows[i]@[k], max_lens[k])),
            ),
        )
    }
}

/// The maximum widths of the columns.
pub open spec fn column_widths(columns: Seq<(String, usize)>) -> Seq<usize> {
    columns.map_values(|c: (String, usize)| c.1)
}

/// The header names of the columns.
pub open spec fn column_names(columns: Seq<(String, usize)>) -> Seq<Seq<char>> {
    columns.map_values(|c: (String, usize)| c.0@)
}

/// The text printed for the rows of a query under the given columns (a
/// header and a maximum width each, `0` for no limit): the table that
/// `render_table` makes of the header names and the formatted rows.
pub fn render_select_query(rows: &Vec<Vec<DbValue>>, columns: &Vec<(String, usize)>) -> (r: Result<
    String,
    DbError,
>)
    ensures
        formatted_rows(rows@, column_widths(columns@)) is None ==> (r matches Err(
            e,
        ) && e is Sqlite),
        formatted_rows(rows@, column_widths(columns@)) matches Some(cells) ==> (r matches Ok(s)
            && s@ == seq!['\n'] + tab_aligned(table_text(column_names(columns@), cells)) + seq![
            '\n',
        ]),
{
    let mut max_lens: Vec<usize> = Vec::new();
    let mut headers: Vec<String> = Vec::new();
    let mut k: usize = 0;
    while k < columns.len()
        invariant
            k <= columns@.len(),
            max_lens@ == column_widths(columns@.take(k as int)),
            strings_of(headers@) == column_names(columns@.take(k as int)),
        decreases columns@.len() - k,
    {
        let ghost mb = max_lens@;
        let ghost hb = headers@;
        max_lens.push(columns[k].1);
        headers.push(columns[k].0.clone());
        assert(max_lens@ =~= column_widths(columns@.take(k + 1))) by {
            assert(column_widths(columns@.take(k + 1)) =~= columns@.take(
                k as int,
            ).map_values(|c: (String, usize)| c.1).push(columns@[k as int].1));
        }
        assert(strings_of(headers@) =~= column_names(columns@.take(k + 1))) by {
            assert(headers@ =~= hb.push(columns@[k as int].0));
            assert(column_names(columns@.take(k + 1)) =~= column_names(columns@.take(k as int)).push(columns@[k as int].0@));
        }
        k = k + 1;
    }
    assert(columns@.take(columns@.len() as int) =~= columns@);
    let ghost ml = column_widths(columns@);
    let mut formatted: Vec<Vec<String>> = Vec::new();
    let mut i: usize = 0;
    while i < rows.len()
        invariant
            i <= rows@.len(),
            max_lens@ == ml,
            ml == column_widths(columns@),
            formatted@.len() == i,
            forall|j: int|
                0 <= j < i ==> #[trigger] strings_of(formatted@[j]@) == Seq::new(
                    ml.len(),
                    |kk: int| cell_text(rows@[j]@[kk], ml[kk]),
                ),
            forall|j: int| 0 <= j < i ==> ml.len() <= #[trigger] rows@[j]@.len(),
        decreases rows@.len() - i,
    {
        match format_row(&rows[i], &max_lens) {
            Ok(cells) => {
                assert(strings_of(cells@) =~= Seq::new(
                    ml.len(),
                    |kk: int| cell_text(rows@[i as int]@[kk], ml[kk]),
                ));
                formatted.push(cells);
            },
            Err(e) => {
                assert(max_lens@.len() > rows@[i as int]@.len());
                assert(ml.len() > rows@[i as int]@.len());
                assert(formatted_rows(rows@, ml) is None);
                return Err(e);
            },
        }
        i = i + 1;
    }
    let ghost cells = rows_of(formatted@);
    assert(formatted_rows(rows@, ml) == Some(cells)) by {
        assert(cells =~= Seq::new(
            rows@.len(),
            |ii: int| Seq::new(ml.len(), |kk: int| cell_text(rows@[ii]@[kk], ml[kk])),
        ));
    }
    Ok(render_table(&headers, &formatted))
}

/// The steps that prepare a table or view (`kind` is `TABLE` or `VIEW`,
/// `label` is `Table` or `View`): with `clean`, drop it if it exists; then run
/// its creation script and report it.
pub open spec fn setup_steps(kind: Seq<char>, label: Seq<char>, name: Seq<char>, script: Seq<char>, clean: bool) -> Seq<StepView> {
    (if clean {
        seq![StepView::Execute(SqlView::Text("DROP "@ + kind + " IF EXISTS "@ + name + ";"@))]
    } else {
        Seq::<StepView>::empty()
    }) + seq![
        StepView::ExecuteBatch(SqlView::Script(script)),
        StepView::PrintLine(label + " '"@ + name + "' created successfully."@),
    ]
}

/// Preparing with `clean` is preparing without it, preceded by dropping the
/// table or view.
pub proof fn lemma_clean_setup_drops_first(
    kind: Seq<char>,
    label: Seq<char>,
    name: Seq<char>,
    script: Seq<char>,
)
    ensures
        setup_steps(kind, label, name, script, true) == seq![
            StepView::Execute(SqlView::Text("DROP "@ + kind + " IF EXISTS "@ + name + ";"@)),
        ] + setup_steps(kind, label, name, script, false),
{
    assert(Seq::<StepView>::empty() + seq![
        StepView::ExecuteBatch(SqlView::Script(script)),
        StepView::PrintLine(label + " '"@ + name + "' created successfully."@),
    ] =~= setup_steps(kind, label, name, script, false));
}

/// `steps` prepare the table or view `name`: they run its creation script
/// and report it, and with `clean` they also drop it if it exists.
pub open spec fn prepares(
    steps: Seq<StepView>,
    kind: Seq<char>,
    label: Seq<char>,
    name: Seq<char>,
    script: Seq<char>,
    clean: bool,
) -> bool {
    &&& steps.contains(StepView::ExecuteBatch(SqlView::Script(script)))
    &&& steps.contains(StepView::PrintLine(label + " '"@ + name + "' created successfully."@))
    &&& clean ==> steps.contains(
        StepView::Execute(SqlView::Text("DROP "@ + kind + " IF EXISTS "@ + name + ";"@)),
    )
}

/// The steps that prepare a table or view prepare it.
pub proof fn lemma_setup_prepares(
    kind: Seq<char>,
    label: Seq<char>,
    name: Seq<char>,
    script: Seq<char>,
    clean: bool,
)
    ensures
        prepares(setup_steps(kind, label, name, script, clean), kind, label, name, script, clean),
{
    let s = setup_steps(kind, label, name, script, clean);
    let n = s.len();
    if clean {
        assert(s[0] == StepView::Execute(SqlView::Text("DROP "@ + kind + " IF EXISTS "@ + name + ";"@)));
    }
    assert(s[n - 2] == StepView::ExecuteBatch(SqlView::Script(script)));
    assert(s[n - 1] == StepView::PrintLine(label + " '"@ + name + "' created successfully."@));
}

/// Steps that prepare a table still do so with other steps before or after them.
pub proof fn lemma_prepares_within(
    a: Seq<StepView>,
    b: Seq<StepView>,
    kind: Seq<char>,
    label: Seq<char>,
    name: Seq<char>,
    script: Seq<char>,
    clean: bool,
)
    requires
        prepares(a, kind, label, name, script, clean),
    ensures
        prepares(a + b, kind, label, name, script, clean),
        prepares(b + a, kind, label, name, script, clean),
{
    assert forall|x: StepView| a.contains(x) implies (a + b).contains(x) && (b + a).contains(x) by {
        let i = choose|i: int| 0 <= i < a.len() && a[i] == x;
        assert((a + b)[i] == x);
        assert((b + a)[b.len() + i] == x);
    }
}

fn setup(kind: &str, label: &str, name: &str, script: &str, clean: bool) -> (steps: Vec<DbStep>)
    ensures
        steps_view(steps@) == setup_steps(kind@, label@, name@, script@, clean),
{
    let mut steps: Vec<DbStep> = Vec::new();
    if clean {
        let mut drop: Vec<char> = Vec::new();
        push_str(&mut drop, "DROP ");
        push_str(&mut drop, kind);
        push_str(&mut drop, " IF EXISTS ");
        push_str(&mut drop, name);
        push_str(&mut drop, ";");
        steps.push(DbStep::Execute(Sql::Text(chars_to_string(drop.as_slice()))));
    }
    steps.push(DbStep::ExecuteBatch(Sql::Script(script.to_string())));
    let mut line: Vec<char> = Vec::new();
    push_str(&mut line, label);
    push_str(&mut line, " '");
    push_str(&mut line, name);
    push_str(&mut line, "' created successfully.");
    steps.push(DbStep::PrintLine(chars_to_string(line.as_slice())));
    assert(steps_view(steps@) =~= setup_steps(kind@, label@, name@, script@, clean));
    steps
}

/// The steps that prepare the table `name` from the creation script
/// `script`: with `clean`, `DROP TABLE IF EXISTS name;` first.
pub fn create_table(name: &str, script: &str, clean: bool) -> (steps: Vec<DbStep>)
    ensures
        steps_view(steps@) == setup_steps("TABLE"@, "Table"@, name@, script@, clean),
{
    setup("TABLE", "Table", name, script, clean)
}

/// The steps that prepare the view `name` from the creation script
/// `script`: with `clean`, `DROP VIEW IF EXISTS name;` first.
pub fn create_view(name: &str, script: &str, clean: bool) -> (steps: Vec<DbStep>)
    ensures
        steps_view(steps@) == setup_steps("VIEW"@, "View"@, name@, script@, clean),
{
    setup("VIEW", "View", name, script, clean)
}

} // verus!
