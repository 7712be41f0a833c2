//! The database and console steps that the table setup, the summaries and
//! the transfer to the ledger consist of. The library decides the steps;
//! the program that runs them performs them in order and stops at the
//! first that fails.

use vstd::prelude::*;
use crate::utils::chars::{chars_to_string, push_str};
use crate::utils::num::{i64_to_decimal, signed_decimal};

verus! {

/// A SQL statement: given as text, or as the path (from the crate's source
/// directory) of a script file that holds it.
#[derive(Debug)]
pub enum Sql {
    Text(String),
    Script(String),
}

pub enum SqlView {
    Text(Seq<char>),
    Script(Seq<char>),
}

pub open spec fn sql_view(s: Sql) -> SqlView {
    match s {
        Sql::Text(t) => SqlView::Text(t@),
        Sql::Script(p) => SqlView::Script(p@),
    }
}

/// One step.
#[derive(Debug)]
pub enum DbStep {
    /// Run one statement (`Connection::execute`).
    Execute(Sql),
    /// Run a batch of statements (`Connection::execute_batch`).
    ExecuteBatch(Sql),
    /// Print a line.
    PrintLine(String),
    /// Run a `COUNT(*)` query and print its count after the label.
    PrintCount(Sql, String),
    /// Run a query and print its rows as a table under these columns (header,
    /// maximum width or `0`).
    ShowQuery(Sql, Vec<(String, usize)>),
    /// Ask whether a query returns any row; the answer is the reply to the step.
    QueryExists(Sql),
    /// Ask whether to continue; the answer is the reply to the step.
    Confirm,
}

pub enum StepView {
    Execute(SqlView),
    ExecuteBatch(SqlView),
    PrintLine(Seq<char>),
    PrintCount(SqlView, Seq<char>),
    ShowQuery(SqlView, Seq<(Seq<char>, usize)>),
    QueryExists(SqlView),
    Confirm,
}

pub open spec fn columns_view(c: Seq<(String, usize)>) -> Seq<(Seq<char>, usize)> {
    c.map_values(|x: (String, usize)| (x.0@, x.1))
}

pub open spec fn step_view(s: DbStep) -> StepView {
    match s {
        DbStep::Execute(q) => StepView::Execute(sql_view(q)),
        DbStep::ExecuteBatch(q) => StepView::ExecuteBatch(sql_view(q)),
        DbStep::PrintLine(t) => StepView::PrintLine(t@),
        DbStep::PrintCount(q, l) => StepView::PrintCount(sql_view(q), l@),
        DbStep::ShowQuery(q, c) => StepView::ShowQuery(sql_view(q), columns_view(c@)),
        DbStep::QueryExists(q) => StepView::QueryExists(sql_view(q)),
        DbStep::Confirm => StepView::Confirm,
    }
}

pub open spec fn steps_view(v: Seq<DbStep>) -> Seq<StepView> {
    v.map_values(|s: DbStep| step_view(s))
}

/// Appends `more` to `steps`.
pub fn append_steps(steps: &mut Vec<DbStep>, more: Vec<DbStep>)
    ensures
        steps_view(final(steps)@) == steps_view(old(steps)@) + steps_view(more@),
{
    let mut more = more;
    let ghost a = old(steps)@;
    let ghost b = more@;
    steps.append(&mut more);
    assert(steps_view(steps@) =~= steps_view(a) + steps_view(b));
}

/// Columns from `(header, width)` pairs.
pub fn columns_of(names: &[&str], widths: &[usize]) -> (c: Vec<(String, usize)>)
    requires
        names@.len() == widths@.len(),
    ensures
        columns_view(c@) == Seq::new(names@.len(), |i: int| (names@[i]@, widths@[i])),
{
    let mut c: Vec<(String, usize)> = Vec::new();
    let mut i: usize = 0;
    while i < names.len()
        invariant
            i <= names@.len(),
            names@.len() == widths@.len(),
            columns_view(c@) == Seq::new(i as nat, |k: int| (names@[k]@, widths@[k])),
        decreases names@.len() - i,
    {
        let ghost before = c@;
        let name = names[i].to_string();
        assert(name@ == names@[i as int]@);
        c.push((name, widths[i]));
        assert(columns_view(c@) =~= columns_view(before).push((names@[i as int]@, widths@[i as int])));
        assert(columns_view(c@) =~= Seq::new((i + 1) as nat, |k: int| (names@[k]@, widths@[k])));
        i = i + 1;
    }
    c
}

/// The line that a `PrintCount` step prints for `count`: the label, then
/// the count in decimal.
pub fn count_line(label: &str, count: i64) -> (s: String)
    ensures
        s@ == label@ + signed_decimal(count as int),
{
    let mut out: Vec<char> = Vec::new();
    push_str(&mut out, label);
    let digits = i64_to_decimal(count);
    push_str(&mut out, digits.as_str());
    chars_to_string(out.as_slice())
}

} // verus!
