//! The transfer of one source's records to the ledger (`transaction_history`),
//! as a dialogue: each turn takes the reply to the last step of the previous
//! turn and gives the next steps. First the source's records whose channel is
//! unknown are looked for; if there are any they are shown and the user is
//! asked whether to go on (and on a yes the records are transferred without
//! being categorized). Otherwise the records are categorized, those left
//! uncategorized are looked for, shown and asked about in the same way.
//! The transfer happens on a yes, or when nothing was left uncategorized.

use vstd::prelude::*;
use crate::utils::steps::{columns_view, steps_view, DbStep, Sql, SqlView, StepView};

verus! {

/// Where the dialogue stands: which reply it waits for, or how it ended
/// (`Done(true)` when the records were transferred).
#[derive(Debug, Clone, Copy, PartialEq, Eq, Structural)]
pub enum EtlStage {
    Start,
    AwaitUnknownCheck,
    AwaitUnknownConfirm,
    AwaitUncategorizedCheck,
    AwaitUncategorizedConfirm,
    Done(bool),
}

/// What differs between sources: scripts, messages and shown columns.
pub struct EtlConfig {
    pub unknown_query: String,
    pub unknown_message: String,
    pub unknown_columns: Vec<(String, usize)>,
    pub tmp_table_script: String,
    pub categorize_script: String,
    pub uncategorized_query: String,
    pub uncategorized_message: String,
    pub uncategorized_columns: Vec<(String, usize)>,
    pub insert_script: String,
    pub success_message: String,
    pub cancel_message: String,
}

pub struct EtlConfigView {
    pub unknown_query: Seq<char>,
    pub unknown_message: Seq<char>,
    pub unknown_columns: Seq<(Seq<char>, usize)>,
    pub tmp_table_script: Seq<char>,
    pub categorize_script: Seq<char>,
    pub uncategorized_query: Seq<char>,
    pub uncategorized_message: Seq<char>,
    pub uncategorized_columns: Seq<(Seq<char>, usize)>,
    pub insert_script: Seq<char>,
    pub success_message: Seq<char>,
    pub cancel_message: Seq<char>,
}

pub open spec fn config_view(c: EtlConfig) -> EtlConfigView {
    EtlConfigView {
        unknown_query: c.unknown_query@,
        unknown_message: c.unknown_message@,
        unknown_columns: columns_view(c.unknown_columns@),
        tmp_table_script: c.tmp_table_script@,
        categorize_script: c.categorize_script@,
        uncategorized_query: c.uncategorized_query@,
        uncategorized_message: c.uncategorized_message@,
        uncategorized_columns: columns_view(c.uncategorized_columns@),
        insert_script: c.insert_script@,
        success_message: c.success_message@,
        cancel_message: c.cancel_message@,
    }
}

/// The last turn: transfer and report it, or report the cancellation.
pub open spec fn finish_turn(c: EtlConfigView, transfer: bool) -> (EtlStage, Seq<StepView>) {
    if transfer {
        (
            EtlStage::Done(true),
            seq![
                StepView::Execute(SqlView::Script(c.insert_script)),
                StepView::PrintLine(c.success_message),
            ],
        )
    } else {
        (EtlStage::Done(false), seq![StepView::PrintLine(c.cancel_message)])
    }
}

/// One turn of the dialogue.
pub open spec fn etl_turn_spec(c: EtlConfigView, stage: EtlStage, reply: bool) -> (
    EtlStage,
    Seq<StepView>,
) {
    match stage {
        EtlStage::Start => (
            EtlStage::AwaitUnknownCheck,
            seq![StepView::QueryExists(SqlView::Script(c.unknown_query))],
        ),
        EtlStage::AwaitUnknownCheck => if reply {
            (
                EtlStage::AwaitUnknownConfirm,
                seq![
                    StepView::PrintLine(c.unknown_message),
                    StepView::ShowQuery(SqlView::Script(c.unknown_query), c.unknown_columns),
                    StepView::Confirm,
                ],
            )
        } else {
            (
                EtlStage::AwaitUncategorizedCheck,
                seq![
                    StepView::Execute(SqlView::Script(c.tmp_table_script)),
                    StepView::Execute(SqlView::Script(c.categorize_script)),
                    StepView::QueryExists(SqlView::Script(c.uncategorized_query)),
                ],
            )
        },
        EtlStage::AwaitUnknownConfirm => finish_turn(c, reply),
        EtlStage::AwaitUncategorizedCheck => if reply {
            (
                EtlStage::AwaitUncategorizedConfirm,
                seq![
                    StepView::PrintLine(c.uncategorized_message),
                    StepView::ShowQuery(
                        SqlView::Script(c.uncategorized_query),
                        c.uncategorized_columns,
                    ),
                    StepView::Confirm,
                ],
            )
        } else {
            finish_turn(c, true)
        },
        EtlStage::AwaitUncategorizedConfirm => finish_turn(c, reply),
        EtlStage::Done(b) => (EtlStage::Done(b), Seq::<StepView>::empty()),
    }
}

fn finish(c: EtlConfig, transfer: bool) -> (r: (EtlStage, Vec<DbStep>))
    ensures
        (r.0, steps_view(r.1@)) == finish_turn(config_view(c), transfer),
{
    let mut steps: Vec<DbStep> = Vec::new();
    let ghost cv = config_view(c);
    if transfer {
        steps.push(DbStep::Execute(Sql::Script(c.insert_script)));
        steps.push(DbStep::PrintLine(c.success_message));
        assert(steps_view(steps@) =~= finish_turn(cv, transfer).1);
        (EtlStage::Done(true), steps)
    } else {
        steps.push(DbStep::PrintLine(c.cancel_message));
        assert(steps_view(steps@) =~= finish_turn(cv, transfer).1);
        (EtlStage::Done(false), steps)
    }
}

/// One turn of the dialogue: from the stage it stands at and the reply to
/// the last step of the previous turn (ignored where none is awaited), the
/// next stage and the steps to run.
pub fn etl_turn(c: EtlConfig, stage: EtlStage, reply: bool) -> (r: (EtlStage, Vec<DbStep>))
    ensures
        (r.0, steps_view(r.1@)) == etl_turn_spec(config_view(c), stage, reply),
{
    let ghost cv = config_view(c);
    let mut steps: Vec<DbStep> = Vec::new();
    match stage {
        EtlStage::Start => {
            steps.push(DbStep::QueryExists(Sql::Script(c.unknown_query)));
            assert(steps_view(steps@) =~= etl_turn_spec(cv, stage, reply).1);
            (EtlStage::AwaitUnknownCheck, steps)
        },
        EtlStage::AwaitUnknownCheck => {
            if reply {
                let query = c.unknown_query;
                steps.push(DbStep::PrintLine(c.unknown_message));
                steps.push(DbStep::ShowQuery(Sql::Script(query), c.unknown_columns));
                steps.push(DbStep::Confirm);
                assert(steps_view(steps@) =~= etl_turn_spec(cv, stage, reply).1);
                (EtlStage::AwaitUnknownConfirm, steps)
            } else {
                steps.push(DbStep::Execute(Sql::Script(c.tmp_table_script)));
                steps.push(DbStep::Execute(Sql::Script(c.categorize_script)));
                steps.push(DbStep::QueryExists(Sql::Script(c.uncategorized_query)));
                assert(steps_view(steps@) =~= etl_turn_spec(cv, stage, reply).1);
                (EtlStage::AwaitUncategorizedCheck, steps)
            }
        },
        EtlStage::AwaitUnknownConfirm => finish(c, reply),
        EtlStage::AwaitUncategorizedCheck => {
            if reply {
                let query = c.uncategorized_query;
                steps.push(DbStep::PrintLine(c.uncategorized_message));
                steps.push(DbStep::ShowQuery(Sql::Script(query), c.uncategorized_columns));
                steps.push(DbStep::Confirm);
                assert(steps_view(steps@) =~= etl_turn_spec(cv, stage, reply).1);
                (EtlStage::AwaitUncategorizedConfirm, steps)
            } else {
                finish(c, true)
            }
        },
        EtlStage::AwaitUncategorizedConfirm => finish(c, reply),
        EtlStage::Done(b) => {
            assert(steps_view(steps@) =~= Seq::<StepView>::empty());
            (EtlStage::Done(b), steps)
        },
    }
}

/// The dialogue run from `stage` on the given replies, one reply per turn,
/// until the replies run out: the stage it reaches and all the steps given.
pub open spec fn etl_run(c: EtlConfigView, stage: EtlStage, replies: Seq<bool>) -> (
    EtlStage,
    Seq<StepView>,
)
    decreases replies.len(),
{
    if replies.len() == 0 {
        (stage, Seq::<StepView>::empty())
    } else {
        let (next, steps) = etl_turn_spec(c, stage, replies[0]);
        let (last, rest) = etl_run(c, next, replies.drop_first());
        (last, steps + rest)
    }
}

/// Whether `steps` runs the script at `path`.
pub open spec fn runs_script(steps: Seq<StepView>, path: Seq<char>) -> bool {
    exists|i: int| 0 <= i < steps.len() && steps[i] == StepView::Execute(SqlView::Script(path))
}

/// Whether `steps` asks the user whether to go on.
pub open spec fn asks_confirmation(steps: Seq<StepView>) -> bool {
    exists|i: int| 0 <= i < steps.len() && steps[i] == StepView::Confirm
}

/// How the dialogue ends, from the replies to its checks and confirmations:
/// with unknown channels the answer to the confirmation decides; otherwise,
/// with uncategorized records, the answer to that confirmation decides;
/// otherwise the records are transferred.
pub open spec fn etl_outcome(unknown_found: bool, first_answer: bool, second_answer: bool) -> bool {
    if unknown_found {
        first_answer
    } else if first_answer {
        second_answer
    } else {
        true
    }
}

proof fn lemma_finish_run(c: EtlConfigView, transfer: bool, rest: Seq<bool>)
    ensures
        etl_run(c, finish_turn(c, transfer).0, rest) == (
            finish_turn(c, transfer).0,
            Seq::<StepView>::empty(),
        ),
    decreases rest.len(),
{
    if rest.len() > 0 {
        lemma_finish_run(c, transfer, rest.drop_first());
        assert(finish_turn(c, transfer).1 + Seq::<StepView>::empty() =~= finish_turn(c, transfer).1);
        assert(Seq::<StepView>::empty() + Seq::<StepView>::empty() =~= Seq::<StepView>::empty());
    }
}

/// The dialogue from its start, on any four or more replies (the first is
/// not read): it has ended, and it has transferred the records exactly when
/// it reports so. It transfers exactly as `etl_outcome` says; it asks for
/// confirmation exactly when unknown channels or uncategorized records were
/// found; and it never categorizes when unknown channels were found. (The
/// source's scripts are taken to be three different files.)
pub proof fn lemma_etl_run_outcome(c: EtlConfigView, replies: Seq<bool>)
    requires
        replies.len() >= 4,
        c.insert_script != c.tmp_table_script,
        c.insert_script != c.categorize_script,
    ensures
        ({
            let (stage, steps) = etl_run(c, EtlStage::Start, replies);
            let transferred = etl_outcome(replies[1], replies[2], replies[3]);
            &&& stage == EtlStage::Done(transferred)
            &&& runs_script(steps, c.insert_script) == transferred
            &&& asks_confirmation(steps) == (replies[1] || replies[2])
            &&& (replies[1] ==> !runs_script(steps, c.categorize_script))
        }),
{
    let r0 = replies;
    let r1 = r0.drop_first();
    let r2 = r1.drop_first();
    let r3 = r2.drop_first();
    let r4 = r3.drop_first();
    assert(r1[0] == replies[1]);
    assert(r2[0] == replies[2]);
    assert(r3[0] == replies[3]);
    let t0 = etl_turn_spec(c, EtlStage::Start, r0[0]);
    let t1 = etl_turn_spec(c, t0.0, r1[0]);
    let (stage, steps) = etl_run(c, EtlStage::Start, replies);
    let ins = StepView::Execute(SqlView::Script(c.insert_script));
    let cat = StepView::Execute(SqlView::Script(c.categorize_script));
    if replies[1] {
        // unknown channels: shown, then the confirmation decides
        let t2 = finish_turn(c, replies[2]);
        lemma_finish_run(c, replies[2], r3);
        assert(etl_run(c, t1.0, r2) == (t2.0, t2.1 + Seq::<StepView>::empty()));
        assert(etl_run(c, t0.0, r1) == (t2.0, t1.1 + (t2.1 + Seq::<StepView>::empty())));
        let all = t0.1 + (t1.1 + (t2.1 + Seq::<StepView>::empty()));
        assert(steps == all);
        if replies[2] {
            assert(all =~= seq![
                StepView::QueryExists(SqlView::Script(c.unknown_query)),
                StepView::PrintLine(c.unknown_message),
                StepView::ShowQuery(SqlView::Script(c.unknown_query), c.unknown_columns),
                StepView::Confirm,
                ins,
                StepView::PrintLine(c.success_message),
            ]);
            assert(all[4] == ins);
            assert(all[3] == StepView::Confirm);
        } else {
            assert(all =~= seq![
                StepView::QueryExists(SqlView::Script(c.unknown_query)),
                StepView::PrintLine(c.unknown_message),
                StepView::ShowQuery(SqlView::Script(c.unknown_query), c.unknown_columns),
                StepView::Confirm,
                StepView::PrintLine(c.cancel_message),
            ]);
            assert(all[3] == StepView::Confirm);
        }
    } else {
        let t2 = etl_turn_spec(c, t1.0, r2[0]);
        if replies[2] {
            let t3 = finish_turn(c, replies[3]);
            lemma_finish_run(c, replies[3], r4);
            assert(etl_run(c, t2.0, r3) == (t3.0, t3.1 + Seq::<StepView>::empty()));
            assert(etl_run(c, t1.0, r2) == (t3.0, t2.1 + (t3.1 + Seq::<StepView>::empty())));
            assert(etl_run(c, t0.0, r1) == (
                t3.0,
                t1.1 + (t2.1 + (t3.1 + Seq::<StepView>::empty())),
            ));
            let all = t0.1 + (t1.1 + (t2.1 + (t3.1 + Seq::<StepView>::empty())));
            assert(steps == all);
            let head = seq![
                StepView::QueryExists(SqlView::Script(c.unknown_query)),
                StepView::Execute(SqlView::Script(c.tmp_table_script)),
                cat,
                StepView::QueryExists(SqlView::Script(c.uncategorized_query)),
                StepView::PrintLine(c.uncategorized_message),
                StepView::ShowQuery(
                    SqlView::Script(c.uncategorized_query),
                    c.uncategorized_columns,
                ),
                StepView::Confirm,
            ];
            if replies[3] {
                assert(all =~= head + seq![ins, StepView::PrintLine(c.success_message)]);
                assert(all[7] == ins);
            } else {
                assert(all =~= head + seq![StepView::PrintLine(c.cancel_message)]);
            }
            assert(all[6] == StepView::Confirm);
        } else {
            // nothing left uncategorized: transferred without asking
            assert(t2 == finish_turn(c, true));
            lemma_finish_run(c, true, r3);
            assert(etl_run(c, t1.0, r2) == (t2.0, t2.1 + Seq::<StepView>::empty()));
            assert(etl_run(c, t0.0, r1) == (t2.0, t1.1 + (t2.1 + Seq::<StepView>::empty())));
            let all = t0.1 + (t1.1 + (t2.1 + Seq::<StepView>::empty()));
            assert(steps == all);
            assert(all =~= seq![
                StepView::QueryExists(SqlView::Script(c.unknown_query)),
                StepView::Execute(SqlView::Script(c.tmp_table_script)),
                cat,
                StepView::QueryExists(SqlView::Script(c.uncategorized_query)),
                ins,
                StepView::PrintLine(c.success_message),
            ]);
            assert(all[4] == ins);
        }
    }
}

/// The reply that the database and the user give to the last of `steps`:
/// an existence query is answered by whether the query returns a row
/// (`has_rows`), a confirmation by the user's answer (`confirm`).
pub open spec fn reply_to(steps: Seq<StepView>, has_rows: spec_fn(SqlView) -> bool, confirm: bool) -> bool {
    if steps.len() == 0 {
        false
    } else {
        match steps.last() {
            StepView::QueryExists(q) => has_rows(q),
            StepView::Confirm => confirm,
            _ => false,
        }
    }
}

/// The dialogue run for `turns` turns from `stage` (the reply to the
/// previous turn being `reply`) against a database in which exactly the
/// queries that `has_rows` holds of return rows, and a user who answers
/// `confirm`: the stage it reaches and all the steps given.
pub open spec fn etl_run_on(
    c: EtlConfigView,
    stage: EtlStage,
    reply: bool,
    has_rows: spec_fn(SqlView) -> bool,
    confirm: bool,
    turns: nat,
) -> (EtlStage, Seq<StepView>)
    decreases turns,
{
    if turns == 0 {
        (stage, Seq::<StepView>::empty())
    } else {
        let (next, steps) = etl_turn_spec(c, stage, reply);
        let (last, rest) = etl_run_on(c, next, reply_to(steps, has_rows, confirm), has_rows, confirm, (turns - 1) as nat);
        (last, steps + rest)
    }
}

proof fn lemma_finished_run_on(
    c: EtlConfigView,
    b: bool,
    reply: bool,
    has_rows: spec_fn(SqlView) -> bool,
    confirm: bool,
    turns: nat,
)
    ensures
        etl_run_on(c, EtlStage::Done(b), reply, has_rows, confirm, turns) == (
            EtlStage::Done(b),
            Seq::<StepView>::empty(),
        ),
    decreases turns,
{
    if turns > 0 {
        lemma_finished_run_on(c, b, false, has_rows, confirm, (turns - 1) as nat);
        assert(Seq::<StepView>::empty() + Seq::<StepView>::empty() =~= Seq::<StepView>::empty());
    }
}

/// The dialogue against a database, in four turns from its start: it has
/// ended. Where the source has records of unknown channel, they are shown,
/// the user is asked, and the answer decides; nothing is categorized. Where
/// it has none but records left uncategorized, the user is asked and the
/// answer decides. Where it has neither, the records are transferred
/// without asking. The records are transferred exactly when the insertion
/// script runs. (The source's scripts are taken to be three different
/// files.)
pub proof fn lemma_etl_follows_the_database(
    c: EtlConfigView,
    has_rows: spec_fn(SqlView) -> bool,
    confirm: bool,
)
    requires
        c.insert_script != c.tmp_table_script,
        c.insert_script != c.categorize_script,
    ensures
        ({
            let (stage, steps) = etl_run_on(c, EtlStage::Start, false, has_rows, confirm, 4);
            let unknown = has_rows(SqlView::Script(c.unknown_query));
            let uncategorized = has_rows(SqlView::Script(c.uncategorized_query));
            &&& stage is Done
            &&& runs_script(steps, c.insert_script) == (stage == EtlStage::Done(true))
            &&& unknown ==> asks_confirmation(steps) && stage == EtlStage::Done(confirm)
                && !runs_script(steps, c.categorize_script)
            &&& !unknown && uncategorized ==> asks_confirmation(steps) && stage == EtlStage::Done(
                confirm,
            ) && runs_script(steps, c.categorize_script)
            &&& !unknown && !uncategorized ==> !asks_confirmation(steps) && stage == EtlStage::Done(
                true,
            )
        }),
{
    let unknown = has_rows(SqlView::Script(c.unknown_query));
    let uncategorized = has_rows(SqlView::Script(c.uncategorized_query));
    let ins = StepView::Execute(SqlView::Script(c.insert_script));
    let cat = StepView::Execute(SqlView::Script(c.categorize_script));
    let t0 = etl_turn_spec(c, EtlStage::Start, false);
    let r1 = reply_to(t0.1, has_rows, confirm);
    assert(r1 == unknown);
    let t1 = etl_turn_spec(c, t0.0, r1);
    let r2 = reply_to(t1.1, has_rows, confirm);
    let t2 = etl_turn_spec(c, t1.0, r2);
    let r3 = reply_to(t2.1, has_rows, confirm);
    let (stage, steps) = etl_run_on(c, EtlStage::Start, false, has_rows, confirm, 4);
    if unknown {
        assert(r2 == confirm);
        assert(t2 == finish_turn(c, confirm));
        lemma_finished_run_on(c, confirm, r3, has_rows, confirm, 1);
        assert(etl_run_on(c, t2.0, r3, has_rows, confirm, 1) == (t2.0, Seq::<StepView>::empty()));
        assert(etl_run_on(c, t1.0, r2, has_rows, confirm, 2) == (t2.0, t2.1 + Seq::<StepView>::empty()));
        assert(etl_run_on(c, t0.0, r1, has_rows, confirm, 3) == (
            t2.0,
            t1.1 + (t2.1 + Seq::<StepView>::empty()),
        ));
        let all = t0.1 + (t1.1 + (t2.1 + Seq::<StepView>::empty()));
        assert(steps == all);
        if confirm {
            assert(all =~= seq![
                StepView::QueryExists(SqlView::Script(c.unknown_query)),
                StepView::PrintLine(c.unknown_message),
                StepView::ShowQuery(SqlView::Script(c.unknown_query), c.unknown_columns),
                StepView::Confirm,
                ins,
                StepView::PrintLine(c.success_message),
            ]);
            assert(all[4] == ins);
        } else {
            assert(all =~= seq![
                StepView::QueryExists(SqlView::Script(c.unknown_query)),
                StepView::PrintLine(c.unknown_message),
                StepView::ShowQuery(SqlView::Script(c.unknown_query), c.unknown_columns),
                StepView::Confirm,
                StepView::PrintLine(c.cancel_message),
            ]);
        }
        assert(all[3] == StepView::Confirm);
    } else {
        assert(r2 == uncategorized);
        if uncategorized {
            assert(r3 == confirm);
            let t3 = finish_turn(c, confirm);
            assert(etl_turn_spec(c, t2.0, r3) == t3);
            lemma_finished_run_on(c, confirm, reply_to(t3.1, has_rows, confirm), has_rows, confirm, 0);
            assert(etl_run_on(c, t2.0, r3, has_rows, confirm, 1) == (t3.0, t3.1 + Seq::<StepView>::empty()));
            assert(etl_run_on(c, t1.0, r2, has_rows, confirm, 2) == (
                t3.0,
                t2.1 + (t3.1 + Seq::<StepView>::empty()),
            ));
            assert(etl_run_on(c, t0.0, r1, has_rows, confirm, 3) == (
                t3.0,
                t1.1 + (t2.1 + (t3.1 + Seq::<StepView>::empty())),
            ));
            let all = t0.1 + (t1.1 + (t2.1 + (t3.1 + Seq::<StepView>::empty())));
            assert(steps == all);
            let head = seq![
                StepView::QueryExists(SqlView::Script(c.unknown_query)),
                StepView::Execute(SqlView::Script(c.tmp_table_script)),
                cat,
                StepView::QueryExists(SqlView::Script(c.uncategorized_query)),
                StepView::PrintLine(c.uncategorized_message),
                StepView::ShowQuery(SqlView::Script(c.uncategorized_query), c.uncategorized_columns),
                StepView::Confirm,
            ];
            if confirm {
                assert(all =~= head + seq![ins, StepView::PrintLine(c.success_message)]);
                assert(all[7] == ins);
            } else {
                assert(all =~= head + seq![StepView::PrintLine(c.cancel_message)]);
            }
            assert(all[6] == StepView::Confirm);
            assert(all[2] == cat);
        } else {
            assert(t2 == finish_turn(c, true));
            lemma_finished_run_on(c, true, r3, has_rows, confirm, 1);
            assert(etl_run_on(c, t1.0, r2, has_rows, confirm, 2) == (t2.0, t2.1 + Seq::<StepView>::empty()));
            assert(etl_run_on(c, t0.0, r1, has_rows, confirm, 3) == (
                t2.0,
                t1.1 + (t2.1 + Seq::<StepView>::empty()),
            ));
            let all = t0.1 + (t1.1 + (t2.1 + Seq::<StepView>::empty()));
            assert(steps == all);
            assert(all =~= seq![
                StepView::QueryExists(SqlView::Script(c.unknown_query)),
                StepView::Execute(SqlView::Script(c.tmp_table_script)),
                cat,
                StepView::QueryExists(SqlView::Script(c.uncategorized_query)),
                ins,
                StepView::PrintLine(c.success_message),
            ]);
            assert(all[4] == ins);
        }
    }
}

} // verus!
