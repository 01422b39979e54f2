//! Whole sessions: what holds of a session however the events fall, and how
//! it ends when they fall in a given way.
use crate::editor::Seed;
use crate::error::ScrawlErrorView;
use crate::session::{
    begin, captured, conclude, launch, ActionView, EventView, Phase, Plan, SessionView,
};
use crate::text::trimmed;
use vstd::prelude::*;
use vstd::utf8::{encode_utf8, encode_utf8_decode_utf8, encode_utf8_valid_utf8, valid_utf8};

verus! {

/// The session after each of `events` in turn.
pub open spec fn run(session: SessionView, events: Seq<EventView>) -> SessionView
    decreases events.len(),
{
    if events.len() == 0 {
        session
    } else {
        run(session, events.drop_last()).next(events.last())
    }
}

/// How far a session has come. No event takes a session back.
pub open spec fn progress(phase: Phase) -> nat {
    match phase {
        Phase::Directory => 0,
        Phase::Create => 1,
        Phase::Seed => 2,
        Phase::Launch(_) => 3,
        Phase::Read => 4,
        Phase::Remove(_) => 5,
        Phase::Finished(_) => 6,
    }
}

/// Whether `action` changes or removes the file at `path`.
pub open spec fn touches(action: ActionView, path: Seq<char>) -> bool {
    match action {
        ActionView::CreateFile { path: target } => target == path,
        ActionView::WriteFile { path: target, .. } => target == path,
        ActionView::CopyFile { to, .. } => to == path,
        ActionView::RemoveFile { path: target } => target == path,
        _ => false,
    }
}

/// The events that make a scratch buffer ready for the editor: the
/// directory is there, the file is created and, where there is a seed, filled.
pub open spec fn prepared(plan: Plan) -> Seq<EventView> {
    if !plan.temporary {
        Seq::empty()
    } else if plan.seed is Empty {
        seq![EventView::Done, EventView::Done]
    } else {
        seq![EventView::Done, EventView::Done, EventView::Done]
    }
}

/// `count` editors in a row that do not start.
pub open spec fn not_starting(count: nat) -> Seq<EventView> {
    Seq::new(count, |i: int| EventView::Failed)
}

/// What ends a session whose buffer was read: for a scratch file, the
/// answer to its removal, whatever it is.
pub open spec fn cleaned_up(plan: Plan, answer: EventView) -> Seq<EventView> {
    if plan.temporary {
        seq![answer]
    } else {
        Seq::empty()
    }
}

/// The events of a session on a seeded scratch file in which everything
/// works, but for the first `failures` editors, which do not start: the
/// buffer is made ready, the next editor exits with success, the buffer is
/// read and holds `bytes`, and its removal is answered by `answer`.
pub open spec fn edited(failures: nat, bytes: Seq<u8>, answer: EventView) -> Seq<EventView> {
    seq![EventView::Done, EventView::Done, EventView::Done] + not_starting(failures) + seq![
        EventView::Exited { success: true },
        EventView::Contents(bytes),
        answer,
    ]
}

/// Running through one list of events and then another is running through both.
pub proof fn lemma_run_in_two_parts(
    session: SessionView,
    first: Seq<EventView>,
    second: Seq<EventView>,
)
    ensures
        run(session, first + second) == run(run(session, first), second),
    decreases second.len(),
{
    if second.len() == 0 {
        assert(first + second =~= first);
    } else {
        assert((first + second).drop_last() =~= first + second.drop_last());
        lemma_run_in_two_parts(session, first, second.drop_last());
    }
}

/// The session after the first `count + 1` events is the one after the
/// first `count`, moved on by the next event.
pub proof fn lemma_run_one_more(session: SessionView, events: Seq<EventView>, count: int)
    requires
        0 <= count < events.len(),
    ensures
        run(session, events.take(count + 1)) == run(session, events.take(count)).next(
            events[count],
        ),
{
    assert(events.take(count + 1).drop_last() =~= events.take(count));
}

/// Running through up to three events is taking them in one after another.
pub proof fn lemma_run_few(session: SessionView, a: EventView, b: EventView, c: EventView)
    ensures
        run(session, Seq::empty()) == session,
        run(session, seq![a]) == session.next(a),
        run(session, seq![a, b]) == session.next(a).next(b),
        run(session, seq![a, b, c]) == session.next(a).next(b).next(c),
{
    assert(seq![a].drop_last() =~= Seq::<EventView>::empty());
    assert(seq![a, b].drop_last() =~= seq![a]);
    assert(seq![a, b, c].drop_last() =~= seq![a, b]);
}

/// However the events fall, a session keeps its plan and stays well formed.
pub proof fn lemma_run_keeps_plan(plan: Plan, events: Seq<EventView>)
    ensures
        run(begin(plan), events).plan == plan,
        run(begin(plan), events).wf(),
    decreases events.len(),
{
    if events.len() > 0 {
        lemma_run_keeps_plan(plan, events.drop_last());
    }
}

/// A session never goes back, and it moves on with every event but in two
/// places: while editors fail to start, and once it is over.
pub proof fn lemma_progress_is_monotone(
    plan: Plan,
    events: Seq<EventView>,
    earlier: int,
    later: int,
)
    requires
        0 <= earlier <= later <= events.len(),
    ensures
        progress(run(begin(plan), events.take(earlier)).phase) <= progress(
            run(begin(plan), events.take(later)).phase,
        ),
        earlier < later && !(run(begin(plan), events.take(earlier)).phase is Launch) && !(run(
            begin(plan),
            events.take(earlier),
        ).phase is Finished) ==> progress(run(begin(plan), events.take(earlier)).phase) < progress(
            run(begin(plan), events.take(later)).phase,
        ),
    decreases later - earlier,
{
    if earlier < later {
        lemma_progress_is_monotone(plan, events, earlier + 1, later);
        lemma_run_one_more(begin(plan), events, earlier);
        lemma_run_keeps_plan(plan, events.take(earlier));
    }
}

/// How many events a session can still take in before it is over, at most.
pub open spec fn remaining(session: SessionView) -> nat {
    match session.phase {
        Phase::Directory => session.plan.programs.len() + 5,
        Phase::Create => session.plan.programs.len() + 4,
        Phase::Seed => session.plan.programs.len() + 3,
        Phase::Launch(index) => (session.plan.programs.len() - index + 2) as nat,
        Phase::Read => 2,
        Phase::Remove(_) => 1,
        Phase::Finished(_) => 0,
    }
}

/// Every event brings a session nearer to its end.
pub proof fn lemma_every_event_counts(session: SessionView, event: EventView)
    requires
        session.wf(),
        !(session.phase is Finished),
    ensures
        remaining(session.next(event)) < remaining(session),
{
}

/// Every session comes to an end: it is over once it has taken in five
/// events and one for each editor of its list, whatever they were. Until
/// then, the events it has taken in and those it can still take in never
/// add up to more.
pub proof fn lemma_session_ends(plan: Plan, events: Seq<EventView>)
    ensures
        remaining(run(begin(plan), events)) + events.len() <= plan.programs.len() + 5
            || run(begin(plan), events).phase is Finished,
        events.len() >= plan.programs.len() + 5 ==> run(begin(plan), events).phase is Finished,
    decreases events.len(),
{
    if events.len() > 0 {
        lemma_session_ends(plan, events.drop_last());
        lemma_run_keeps_plan(plan, events.drop_last());
        let before = run(begin(plan), events.drop_last());
        if !(before.phase is Finished) {
            lemma_every_event_counts(before, events.last());
        }
    }
}

/// The buffer is read only when an editor has exited with success: no
/// other event makes a session ask for the buffer's bytes.
pub proof fn lemma_buffer_is_read_after_success_only(session: SessionView, event: EventView)
    requires
        session.next(event).pending() matches Some(action) && action is ReadFile,
    ensures
        session.phase is Launch,
        event == (EventView::Exited { success: true }),
{
}

/// A session asks at most once for its file to be created, at most once
/// for it to be read, and at most once for it to be removed.
pub proof fn lemma_buffer_is_used_once(
    plan: Plan,
    events: Seq<EventView>,
    earlier: int,
    later: int,
)
    requires
        0 <= earlier < later <= events.len(),
    ensures
        ({
            let first = run(begin(plan), events.take(earlier)).pending();
            let second = run(begin(plan), events.take(later)).pending();
            &&& !(first is Some && first->0 is CreateFile && second is Some
                && second->0 is CreateFile)
            &&& !(first is Some && first->0 is ReadFile && second is Some && second->0 is ReadFile)
            &&& !(first is Some && first->0 is RemoveFile && second is Some
                && second->0 is RemoveFile)
        }),
{
    lemma_progress_is_monotone(plan, events, earlier, later);
}

/// Whatever happens, a session acts on its own buffer only: every file
/// that it asks to have created, written, copied to or removed is the
/// buffer, every editor is handed the buffer first, and a session on a file
/// of the caller's asks for none of these file operations at all.
pub proof fn lemma_actions_stay_with_the_buffer(plan: Plan, events: Seq<EventView>)
    ensures
        match run(begin(plan), events).pending() {
            Some(ActionView::CreateDirectory { path }) => plan.temporary && path == plan.directory,
            Some(ActionView::CreateFile { path }) => plan.temporary && path == plan.buffer,
            Some(ActionView::WriteFile { path, contents }) => plan.temporary && path == plan.buffer
                && plan.seed == Seed::Text(contents),
            Some(ActionView::CopyFile { from, to }) => plan.temporary && to == plan.buffer
                && plan.seed == Seed::File(from),
            Some(ActionView::Launch { program, arguments }) => arguments == seq![plan.buffer]
                + plan.arguments && exists|index: int|
                0 <= index < plan.programs.len() && plan.programs[index] == program,
            Some(ActionView::ReadFile { path }) => path == plan.buffer,
            Some(ActionView::RemoveFile { path }) => plan.temporary && path == plan.buffer,
            None => true,
        },
{
    lemma_run_keeps_plan(plan, events);
    let session = run(begin(plan), events);
    if let Phase::Launch(index) = session.phase {
        assert(plan.programs[index as int] == session.pending()->0->program);
    }
}

/// A file that a session copies its seed from is never changed by the
/// session: unless it is the scratch file itself, no action touches it.
pub proof fn lemma_source_file_is_left_alone(
    plan: Plan,
    source: Seq<char>,
    events: Seq<EventView>,
)
    requires
        plan.seed == Seed::File(source),
        source != plan.buffer,
    ensures
        run(begin(plan), events).pending() matches Some(action) ==> !touches(action, source),
{
    lemma_actions_stay_with_the_buffer(plan, events);
}

/// A scratch file that came to exist is removed before the session is
/// over, on whatever path the session got there: where the session is over
/// after `events`, and the file's creation was confirmed by the event at
/// place `created`, a later place holds the answer to the request to remove it.
pub proof fn lemma_scratch_file_is_removed(
    plan: Plan,
    events: Seq<EventView>,
    created: int,
) -> (removed: int)
    requires
        0 <= created < events.len(),
        run(begin(plan), events.take(created)).phase is Create,
        events[created] is Done,
        run(begin(plan), events).phase is Finished,
    ensures
        created < removed < events.len(),
        run(begin(plan), events.take(removed)).pending() == Some(
            ActionView::RemoveFile { path: plan.buffer },
        ),
    decreases events.len(),
{
    let last = events.len() - 1;
    let before = run(begin(plan), events.take(last));
    assert(events.take(last + 1) =~= events);
    lemma_run_one_more(begin(plan), events, last);
    lemma_run_keeps_plan(plan, events.take(last));
    lemma_run_keeps_plan(plan, events.take(created));
    assert(last != created) by {
        let made = run(begin(plan), events.take(created));
        assert(made.plan.temporary);
        assert(!(made.next(events[created]).phase is Finished));
    }
    if before.phase is Finished {
        assert(events.take(last).take(created) =~= events.take(created));
        let removed = lemma_scratch_file_is_removed(plan, events.take(last), created);
        assert(events.take(last).take(removed) =~= events.take(removed));
        removed
    } else {
        lemma_progress_is_monotone(plan, events, created, last);
        last
    }
}

/// While editors fail to start and others are left to try, the session
/// tries the next.
pub proof fn lemma_failed_editors_are_skipped(session: SessionView, index: nat, count: nat)
    requires
        session.phase == Phase::Launch(index),
        index < session.plan.programs.len(),
        index + count <= session.plan.programs.len(),
        session.plan.fallback || count == 0,
    ensures
        run(session, not_starting(count)) == (SessionView {
            plan: session.plan,
            phase: launch(session.plan, index + count),
        }),
    decreases count,
{
    if count == 0 {
        assert(not_starting(0) =~= Seq::<EventView>::empty());
    } else {
        assert(not_starting(count).drop_last() =~= not_starting((count - 1) as nat));
        lemma_failed_editors_are_skipped(session, index, (count - 1) as nat);
    }
}

/// Once its buffer is prepared, a session is about to start the first editor.
pub proof fn lemma_prepared_session_launches(plan: Plan)
    requires
        plan.programs.len() > 0,
    ensures
        run(begin(plan), prepared(plan)) == (SessionView { plan, phase: Phase::Launch(0) }),
{
    lemma_run_few(begin(plan), EventView::Done, EventView::Done, EventView::Done);
}

/// When the buffer is prepared, `failures` editors do not start, the next
/// one exits with success and the buffer then holds `bytes`, the session
/// ends with the text captured from `bytes`, whatever the answer to the
/// removal of a scratch file.
pub proof fn lemma_edited_buffer_is_returned(
    plan: Plan,
    failures: nat,
    bytes: Seq<u8>,
    answer: EventView,
)
    requires
        failures < plan.programs.len(),
        plan.fallback || failures == 0,
    ensures
        run(
            begin(plan),
            prepared(plan) + not_starting(failures) + seq![
                EventView::Exited { success: true },
                EventView::Contents(bytes),
            ] + cleaned_up(plan, answer),
        ).outcome() == Some(captured(bytes, plan.trim)),
{
    let ready = run(begin(plan), prepared(plan));
    lemma_prepared_session_launches(plan);
    lemma_failed_editors_are_skipped(ready, 0, failures);
    let started = run(ready, not_starting(failures));
    lemma_run_in_two_parts(begin(plan), prepared(plan), not_starting(failures));
    let edited = seq![EventView::Exited { success: true }, EventView::Contents(bytes)];
    lemma_run_few(
        started,
        EventView::Exited { success: true },
        EventView::Contents(bytes),
        answer,
    );
    let read = run(started, edited);
    assert(read.phase == conclude(plan, captured(bytes, plan.trim)));
    lemma_run_in_two_parts(begin(plan), prepared(plan) + not_starting(failures), edited);
    let rest = cleaned_up(plan, answer);
    lemma_run_few(read, answer, answer, answer);
    lemma_run_in_two_parts(
        begin(plan),
        prepared(plan) + not_starting(failures) + edited,
        rest,
    );
}

/// An editor that leaves its buffer as it found it hands the seed back:
/// a session seeded with the UTF-8 encoding of `text` returns `text`,
/// trimmed where the plan says so, when the editor that starts exits with
/// success and the scratch file still holds what was written to it.
pub proof fn lemma_untouched_seed_comes_back(
    plan: Plan,
    text: Seq<char>,
    failures: nat,
    answer: EventView,
)
    requires
        plan.temporary,
        plan.seed == Seed::Text(encode_utf8(text)),
        failures < plan.programs.len(),
        plan.fallback || failures == 0,
    ensures
        run(begin(plan), edited(failures, encode_utf8(text), answer)).outcome() == Some(
            Ok::<Seq<char>, ScrawlErrorView>(
                if plan.trim {
                    trimmed(text)
                } else {
                    text
                },
            ),
        ),
{
    let bytes = encode_utf8(text);
    encode_utf8_valid_utf8(text);
    encode_utf8_decode_utf8(text);
    lemma_edited_buffer_is_returned(plan, failures, bytes, answer);
    assert(edited(failures, bytes, answer) =~= prepared(plan) + not_starting(failures) + seq![
        EventView::Exited { success: true },
        EventView::Contents(bytes),
    ] + cleaned_up(plan, answer));
}

/// Editing a file in place returns what the editor saved: a session on a
/// file of the caller's starts each editor on that very file, reads that
/// file when the editor has exited with success, and ends with the text
/// captured from what it then holds.
pub proof fn lemma_edit_in_place_returns_what_was_saved(
    plan: Plan,
    failures: nat,
    saved: Seq<u8>,
)
    requires
        !plan.temporary,
        failures < plan.programs.len(),
        plan.fallback || failures == 0,
    ensures
        run(begin(plan), not_starting(failures)).pending() == Some(
            ActionView::Launch {
                program: plan.programs[failures as int],
                arguments: seq![plan.buffer] + plan.arguments,
            },
        ),
        run(
            begin(plan),
            not_starting(failures) + seq![EventView::Exited { success: true }],
        ).pending() == Some(ActionView::ReadFile { path: plan.buffer }),
        run(
            begin(plan),
            not_starting(failures) + seq![
                EventView::Exited { success: true },
                EventView::Contents(saved),
            ],
        ).outcome() == Some(captured(saved, plan.trim)),
{
    lemma_failed_editors_are_skipped(begin(plan), 0, failures);
    let started = run(begin(plan), not_starting(failures));
    let exited = seq![EventView::Exited { success: true }];
    lemma_run_few(started, EventView::Exited { success: true }, EventView::Done, EventView::Done);
    lemma_run_in_two_parts(begin(plan), not_starting(failures), exited);
    lemma_edited_buffer_is_returned(plan, failures, saved, EventView::Done);
    assert(prepared(plan) + not_starting(failures) + seq![
        EventView::Exited { success: true },
        EventView::Contents(saved),
    ] + cleaned_up(plan, EventView::Done) =~= not_starting(failures) + seq![
        EventView::Exited { success: true },
        EventView::Contents(saved),
    ]);
}

/// Where none of the editors of a list starts, the session ends with
/// `EditorNotFound`, and not before it has asked for a scratch file to be
/// removed.
pub proof fn lemma_no_editor_starts(plan: Plan, answer: EventView)
    requires
        plan.fallback,
    ensures
        run(begin(plan), prepared(plan) + not_starting(plan.programs.len())).phase == conclude(
            plan,
            Err(ScrawlErrorView::EditorNotFound),
        ),
        plan.temporary ==> run(
            begin(plan),
            prepared(plan) + not_starting(plan.programs.len()),
        ).pending() == Some(ActionView::RemoveFile { path: plan.buffer }),
        run(
            begin(plan),
            prepared(plan) + not_starting(plan.programs.len()) + cleaned_up(plan, answer),
        ).outcome() == Some(Err::<Seq<char>, ScrawlErrorView>(ScrawlErrorView::EditorNotFound)),
{
    let count = plan.programs.len();
    let ready = run(begin(plan), prepared(plan));
    lemma_run_in_two_parts(begin(plan), prepared(plan), not_starting(count));
    if count > 0 {
        lemma_prepared_session_launches(plan);
        lemma_failed_editors_are_skipped(ready, 0, count);
    } else {
        assert(not_starting(0) =~= Seq::<EventView>::empty());
        lemma_run_few(begin(plan), EventView::Done, EventView::Done, EventView::Done);
    }
    let given_up = run(ready, not_starting(count));
    lemma_run_few(given_up, answer, answer, answer);
    lemma_run_in_two_parts(
        begin(plan),
        prepared(plan) + not_starting(count),
        cleaned_up(plan, answer),
    );
}

/// A buffer that does not hold UTF-8 is an error and nothing worse: the
/// session goes on to its end, which is `FailedToCaptureInput`.
pub proof fn lemma_invalid_text_is_an_error(session: SessionView, bytes: Seq<u8>)
    requires
        session.phase is Read,
        !valid_utf8(bytes),
    ensures
        captured(bytes, session.plan.trim) == Err::<Seq<char>, ScrawlErrorView>(
            ScrawlErrorView::FailedToCaptureInput,
        ),
        session.next(EventView::Contents(bytes)).phase == conclude(
            session.plan,
            Err(ScrawlErrorView::FailedToCaptureInput),
        ),
{
}

} // verus!
