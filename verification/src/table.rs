//! A model of the table of entries, and what recordings against it yield.
//!
//! The store is outside the service, and nothing here says how it behaves.
//! What can be said is what the recorder's requests amount to when the store
//! answers as a table does: rows are kept in the order in which they were
//! inserted, and a count is the number of rows at the moment it is taken.
//! The model lives in proofs only; the service never runs it.

use vstd::prelude::*;
use crate::config::DescriptorView;
use crate::recorder::{first_action, step, ActionView, EventView, RecordedView, RecorderView};
use crate::service::{entry_reply, turn_of, TurnView};

verus! {

/// The cause that the model reports where a statement touches a table that
/// was never created.
pub open spec fn no_table() -> Seq<char> {
    "relation \"entries\" does not exist"@
}

/// The table of entries: whether it was created, and the tokens of its rows
/// in the order of their insertion.
pub struct Table {
    pub exists: bool,
    pub rows: Seq<Seq<char>>,
}

/// A table that was never created holds no rows.
pub open spec fn table_ok(table: Table) -> bool {
    !table.exists ==> table.rows.len() == 0
}

/// What a store that never fails does on `action`, and how it answers.
pub open spec fn answer(table: Table, action: ActionView) -> (Table, EventView) {
    match action {
        ActionView::Connect { .. } => (table, EventView::Completed),
        ActionView::CreateTable { .. } => (
            Table { exists: true, rows: table.rows },
            EventView::Completed,
        ),
        ActionView::Insert { data, .. } => if table.exists {
            (Table { exists: true, rows: table.rows.push(data) }, EventView::Completed)
        } else {
            (table, EventView::Failed(no_table()))
        },
        ActionView::Count { .. } => if table.exists {
            (table, EventView::Counted(table.rows.len() as int))
        } else {
            (table, EventView::Failed(no_table()))
        },
        ActionView::Stop => (table, EventView::Completed),
    }
}

/// A recording under way: its state, the request that it has pending, and
/// the token that it inserts.
pub struct Recording {
    pub state: RecorderView,
    pub pending: ActionView,
    pub fresh: Seq<char>,
}

/// A recording that has just been started.
pub open spec fn started(d: DescriptorView, fresh: Seq<char>) -> Recording {
    Recording { state: RecorderView::Connecting, pending: first_action(d), fresh }
}

/// One turn of a recording against the table: the store does what is
/// pending and the recording takes its step. A recording with nothing
/// pending leaves the table alone.
pub open spec fn turn(recording: Recording, table: Table) -> (Recording, Table) {
    if recording.pending is Stop {
        (recording, table)
    } else {
        let answered = answer(table, recording.pending);
        let next = step(recording.state, answered.1, recording.fresh);
        (Recording { state: next.0, pending: next.1, fresh: recording.fresh }, answered.0)
    }
}

/// `turns` turns of one recording that has the table to itself.
pub open spec fn run(recording: Recording, table: Table, turns: nat) -> (Recording, Table)
    decreases turns,
{
    if turns == 0 {
        (recording, table)
    } else {
        let next = turn(recording, table);
        run(next.0, next.1, (turns - 1) as nat)
    }
}

/// Two recordings that share the table and take their turns as `schedule`
/// says: `true` is a turn of the first, `false` a turn of the second.
pub open spec fn run_pair(first: Recording, second: Recording, table: Table, schedule: Seq<bool>) -> (
    Recording,
    Recording,
    Table,
)
    decreases schedule.len(),
{
    if schedule.len() == 0 {
        (first, second, table)
    } else if schedule[0] {
        let next = turn(first, table);
        run_pair(next.0, second, next.1, schedule.drop_first())
    } else {
        let next = turn(second, table);
        run_pair(first, next.0, next.1, schedule.drop_first())
    }
}

/// How many turns `schedule` gives to the first recording (`whose` true) or
/// to the second.
pub open spec fn turns_of(schedule: Seq<bool>, whose: bool) -> nat
    decreases schedule.len(),
{
    if schedule.len() == 0 {
        0
    } else {
        turns_of(schedule.drop_first(), whose) + if schedule[0] == whose {
            1nat
        } else {
            0nat
        }
    }
}

/// The number of requests that a recording makes before it is over.
pub open spec fn request_count() -> nat {
    4
}

/// A recording that has the table to itself succeeds in four turns: the
/// table then exists and holds one row more, the new token at its end, and
/// the count that is reported to the client is the number of rows before
/// plus one, which is at least one.
pub proof fn lemma_exclusive_recording(d: DescriptorView, fresh: Seq<char>, table: Table)
    requires
        table_ok(table),
    ensures
        ({
            let end = run(started(d, fresh), table, request_count());
            let recorded = RecordedView { token: fresh, count: (table.rows.len() + 1) as int };
            &&& end.0 == Recording {
                state: RecorderView::Finished(recorded),
                pending: ActionView::Stop,
                fresh,
            }
            &&& end.1 == Table { exists: true, rows: table.rows.push(fresh) }
            &&& turn_of(end.0.state, end.0.pending) == TurnView::Reply(entry_reply(recorded))
            &&& recorded.count >= 1
        }),
{
    reveal_with_fuel(run, 5);
}

/// Of two recordings that have the table to themselves one after the other,
/// the second reports a count that is greater by exactly one than the count
/// that the first reported.
pub proof fn lemma_consecutive_recordings(
    d: DescriptorView,
    earlier: Seq<char>,
    later: Seq<char>,
    table: Table,
)
    requires
        table_ok(table),
    ensures
        ({
            let first = run(started(d, earlier), table, request_count());
            let second = run(started(d, later), first.1, request_count());
            &&& first.0.state matches RecorderView::Finished(one)
            &&& second.0.state matches RecorderView::Finished(other)
            &&& one.count >= 1
            &&& other.count == one.count + 1
            &&& second.1.rows == table.rows.push(earlier).push(later)
        }),
{
    lemma_exclusive_recording(d, earlier, table);
    let first = run(started(d, earlier), table, request_count());
    lemma_exclusive_recording(d, later, first.1);
}

/// How many of its requests a recording has had answered.
pub open spec fn progress(recording: Recording) -> nat {
    match recording.state {
        RecorderView::Connecting => 0,
        RecorderView::CreatingTable => 1,
        RecorderView::Inserting(_) => 2,
        RecorderView::Counting(_) => 3,
        RecorderView::Finished(_) => 4,
        RecorderView::Failed(_) => 4,
    }
}

/// Whether a recording has not failed, has pending the request that its
/// state asks for, and carries its own token.
pub open spec fn on_track(recording: Recording) -> bool {
    match recording.state {
        RecorderView::Connecting => recording.pending is Connect,
        RecorderView::CreatingTable => recording.pending is CreateTable,
        RecorderView::Inserting(token) => {
            &&& token == recording.fresh
            &&& recording.pending matches ActionView::Insert { data, .. }
            &&& data == recording.fresh
        },
        RecorderView::Counting(token) => token == recording.fresh && recording.pending is Count,
        RecorderView::Finished(recorded) => recorded.token == recording.fresh
            && recording.pending is Stop,
        RecorderView::Failed(_) => false,
    }
}

/// Whether a recording's row is in the table.
pub open spec fn has_inserted(recording: Recording) -> bool {
    progress(recording) >= 3
}

/// The rows that two recordings have added to the table between them, in
/// one of the orders in which they can stand.
pub open spec fn added_rows(first: Recording, second: Recording, first_leads: bool) -> Seq<
    Seq<char>,
> {
    if has_inserted(first) && has_inserted(second) {
        if first_leads {
            seq![first.fresh, second.fresh]
        } else {
            seq![second.fresh, first.fresh]
        }
    } else if has_inserted(first) {
        seq![first.fresh]
    } else if has_inserted(second) {
        seq![second.fresh]
    } else {
        seq![]
    }
}

/// What holds of two recordings on a table that held the rows `before` when
/// they started, whatever turns they have taken since.
pub open spec fn pair_ok(
    before: Seq<Seq<char>>,
    first: Recording,
    second: Recording,
    table: Table,
) -> bool {
    &&& on_track(first)
    &&& on_track(second)
    &&& table_ok(table)
    &&& (progress(first) >= 2 || progress(second) >= 2) ==> table.exists
    &&& (table.rows == before + added_rows(first, second, true) || table.rows == before
        + added_rows(first, second, false))
    &&& first.state matches RecorderView::Finished(one) ==> before.len() + 1 <= one.count
        <= table.rows.len()
    &&& second.state matches RecorderView::Finished(other) ==> before.len() + 1 <= other.count
        <= table.rows.len()
    &&& (first.state is Finished && second.state is Finished) ==> (first.state->Finished_0.count
        == before.len() + 2 || second.state->Finished_0.count == before.len() + 2)
}

/// The smaller of two numbers.
pub open spec fn at_most(limit: nat, n: nat) -> nat {
    if n < limit {
        n
    } else {
        limit
    }
}

proof fn lemma_turn_keeps_pair(
    before: Seq<Seq<char>>,
    first: Recording,
    second: Recording,
    table: Table,
    whose: bool,
)
    requires
        pair_ok(before, first, second, table),
    ensures
        whose ==> ({
            let next = turn(first, table);
            &&& pair_ok(before, next.0, second, next.1)
            &&& progress(next.0) == at_most(request_count(), progress(first) + 1)
        }),
        !whose ==> ({
            let next = turn(second, table);
            &&& pair_ok(before, first, next.0, next.1)
            &&& progress(next.0) == at_most(request_count(), progress(second) + 1)
        }),
{
    let moved = if whose {
        first
    } else {
        second
    };
    let waiting = if whose {
        second
    } else {
        first
    };
    let next = turn(moved, table);
    if moved.state is Inserting {
        if has_inserted(waiting) {
            assert(next.1.rows =~= before + seq![waiting.fresh, moved.fresh]);
        } else {
            assert(next.1.rows =~= before + seq![moved.fresh]);
        }
    }
}

proof fn lemma_schedule_keeps_pair(
    before: Seq<Seq<char>>,
    first: Recording,
    second: Recording,
    table: Table,
    schedule: Seq<bool>,
)
    requires
        pair_ok(before, first, second, table),
    ensures
        ({
            let end = run_pair(first, second, table, schedule);
            &&& pair_ok(before, end.0, end.1, end.2)
            &&& end.0.fresh == first.fresh
            &&& end.1.fresh == second.fresh
            &&& progress(end.0) == at_most(
                request_count(),
                progress(first) + turns_of(schedule, true),
            )
            &&& progress(end.1) == at_most(
                request_count(),
                progress(second) + turns_of(schedule, false),
            )
        }),
    decreases schedule.len(),
{
    if schedule.len() > 0 {
        lemma_turn_keeps_pair(before, first, second, table, schedule[0]);
        if schedule[0] {
            let next = turn(first, table);
            lemma_schedule_keeps_pair(before, next.0, second, next.1, schedule.drop_first());
        } else {
            let next = turn(second, table);
            lemma_schedule_keeps_pair(before, first, next.0, next.1, schedule.drop_first());
        }
    }
}

/// Two recordings that share the table, their turns interleaved in any way
/// that lets each make its four requests, both succeed. The table then holds
/// two rows more, the two new tokens at its end in the order of their
/// insertion. Each reports a count that is one or two more than the number
/// of rows before, and the one that counted last reports two more: a
/// recording may or may not have counted the other's row.
pub proof fn lemma_concurrent_recordings(
    d: DescriptorView,
    one: Seq<char>,
    other: Seq<char>,
    table: Table,
    schedule: Seq<bool>,
)
    requires
        table_ok(table),
        turns_of(schedule, true) >= request_count(),
        turns_of(schedule, false) >= request_count(),
    ensures
        ({
            let end = run_pair(started(d, one), started(d, other), table, schedule);
            let before = table.rows.len();
            &&& end.0.state matches RecorderView::Finished(first)
            &&& end.1.state matches RecorderView::Finished(second)
            &&& first.token == one
            &&& second.token == other
            &&& end.2.exists
            &&& (end.2.rows == table.rows + seq![one, other] || end.2.rows == table.rows
                + seq![other, one])
            &&& end.2.rows.len() == before + 2
            &&& (first.count == before + 1 || first.count == before + 2)
            &&& (second.count == before + 1 || second.count == before + 2)
            &&& (first.count == before + 2 || second.count == before + 2)
        }),
{
    let first = started(d, one);
    let second = started(d, other);
    assert(table.rows =~= table.rows + added_rows(first, second, true));
    lemma_schedule_keeps_pair(table.rows, first, second, table, schedule);
    let end = run_pair(first, second, table, schedule);
    assert(progress(end.0) == request_count() && progress(end.1) == request_count());
}

} // verus!
