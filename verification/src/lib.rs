//! Hands text to a person's editor and takes back what they wrote.
//!
//! The library decides and its caller acts. Each function here plans one
//! editing session from what the caller has read of the machine (a
//! [`host::Host`]) and hands back a [`session::Session`]. The caller asks
//! the session what to do next, does it, and reports what came of it, until
//! the session is over and holds the text or the reason why there is none.
pub mod editor;
pub mod error;
pub mod host;
pub mod naming;
pub mod session;
pub mod text;
pub mod trace;

use crate::editor::{direct_plan, editor_programs, scratch_plan, Contents, Seed, DEFAULT_EXT};
use crate::error::ScrawlErrorView;
use crate::host::{Host, HostView};
use crate::session::{begin, captured, ActionView, EventView, Plan, Session};
use crate::text::trimmed;
use crate::trace::{
    cleaned_up, edited, lemma_actions_stay_with_the_buffer,
    lemma_edit_in_place_returns_what_was_saved, lemma_edited_buffer_is_returned,
    lemma_source_file_is_left_alone, lemma_untouched_seed_comes_back, not_starting, prepared,
    run, touches,
};
use vstd::prelude::*;
use vstd::slice::slice_to_vec;
use vstd::utf8::encode_utf8;

verus! {

/// The plan of a session on a scratch file with everything left as it is
/// by default: the editor is the first that starts of those the environment
/// names and the usual ones, the file is a `.txt`, the text is trimmed.
pub open spec fn default_plan(seed: Seed, host: HostView) -> Plan {
    scratch_plan(editor_programs(host), true, Seq::empty(), DEFAULT_EXT@, true, seed, host)
}

/// The plan of a session on the caller's file at `path`, with everything
/// else left as it is by default.
pub open spec fn default_plan_in_place(path: Seq<char>, host: HostView) -> Plan {
    direct_plan(editor_programs(host), true, Seq::empty(), true, path)
}

/// Plans a session in which the editor opens on an empty scratch file.
pub fn new(host: &Host) -> (session: Session)
    ensures
        session@ == begin(default_plan(Seed::Empty, host@)),
{
    editor::new().open(Contents::Empty, host)
}

/// Plans a session in which the editor opens on a scratch file that holds `input`.
pub fn with(input: &[u8], host: &Host) -> (session: Session)
    ensures
        session@ == begin(default_plan(Seed::Text(input@), host@)),
{
    editor::new().open(Contents::FromString(slice_to_vec(input)), host)
}

/// Plans a session in which the editor opens on a scratch copy of the file
/// at `path`. The file itself is only read.
pub fn from_file(path: &str, host: &Host) -> (session: Session)
    ensures
        session@ == begin(default_plan(Seed::File(path@), host@)),
{
    editor::new().open(Contents::FromFile(path.to_owned()), host)
}

/// Plans a session in which the editor opens the file at `path` itself. No
/// scratch file is made, and what the editor saved is what the session
/// returns.
pub fn edit_file(path: &str, host: &Host) -> (session: Session)
    ensures
        session@ == begin(default_plan_in_place(path@, host@)),
{
    editor::new().edit(path, host)
}

/// What `with` is given comes back when the editor changes nothing: where
/// the input is the UTF-8 encoding of `text`, the editor that starts exits
/// with success and the scratch file still holds the input, the session
/// returns `text` without the whitespace around it.
pub proof fn lemma_with_returns_its_input(
    text: Seq<char>,
    host: HostView,
    failures: nat,
    answer: EventView,
)
    requires
        failures < editor_programs(host).len(),
    ensures
        run(
            begin(default_plan(Seed::Text(encode_utf8(text)), host)),
            edited(failures, encode_utf8(text), answer),
        ).outcome() == Some(Ok::<Seq<char>, ScrawlErrorView>(trimmed(text))),
{
    lemma_untouched_seed_comes_back(
        default_plan(Seed::Text(encode_utf8(text)), host),
        text,
        failures,
        answer,
    );
}

/// The file that `from_file` copies is never changed by the session,
/// whatever happens in it: no action creates, writes, overwrites or
/// removes it. The one file for which this cannot hold is the scratch file
/// that the session itself is about to make.
pub proof fn lemma_from_file_leaves_the_file_alone(
    path: Seq<char>,
    host: HostView,
    events: Seq<EventView>,
)
    requires
        path != host.temp_file_path(DEFAULT_EXT@),
    ensures
        run(begin(default_plan(Seed::File(path), host)), events).pending() matches Some(action)
            ==> !touches(action, path),
{
    lemma_source_file_is_left_alone(default_plan(Seed::File(path), host), path, events);
}

/// What `from_file` returns is what the scratch copy holds when the editor
/// has exited with success, as text without the whitespace around it.
pub proof fn lemma_from_file_returns_the_edited_copy(
    path: Seq<char>,
    host: HostView,
    failures: nat,
    bytes: Seq<u8>,
    answer: EventView,
)
    requires
        failures < editor_programs(host).len(),
    ensures
        run(
            begin(default_plan(Seed::File(path), host)),
            edited(failures, bytes, answer),
        ).outcome() == Some(captured(bytes, true)),
{
    let plan = default_plan(Seed::File(path), host);
    lemma_edited_buffer_is_returned(plan, failures, bytes, answer);
    assert(edited(failures, bytes, answer) =~= prepared(plan) + not_starting(failures) + seq![
        EventView::Exited { success: true },
        EventView::Contents(bytes),
    ] + cleaned_up(plan, answer));
}

/// `edit_file` has the editor work on the file itself and returns what the
/// editor saved: the editor is handed `path`, `path` is what is read when
/// the editor has exited with success, and the session ends with what was
/// read, as text without the whitespace around it.
pub proof fn lemma_edit_file_returns_what_was_saved(
    path: Seq<char>,
    host: HostView,
    failures: nat,
    saved: Seq<u8>,
)
    requires
        failures < editor_programs(host).len(),
    ensures
        run(begin(default_plan_in_place(path, host)), not_starting(failures)).pending() == Some(
            ActionView::Launch {
                program: editor_programs(host)[failures as int],
                arguments: seq![path],
            },
        ),
        run(
            begin(default_plan_in_place(path, host)),
            not_starting(failures) + seq![EventView::Exited { success: true }],
        ).pending() == Some(ActionView::ReadFile { path }),
        run(
            begin(default_plan_in_place(path, host)),
            not_starting(failures) + seq![
                EventView::Exited { success: true },
                EventView::Contents(saved),
            ],
        ).outcome() == Some(captured(saved, true)),
{
    lemma_edit_in_place_returns_what_was_saved(
        default_plan_in_place(path, host),
        failures,
        saved,
    );
    assert(seq![path] + Seq::<Seq<char>>::empty() =~= seq![path]);
}

/// `edit_file` makes no scratch file: whatever happens, the session asks
/// for nothing but to start an editor on the file and to read the file.
pub proof fn lemma_edit_file_makes_no_scratch_file(
    path: Seq<char>,
    host: HostView,
    events: Seq<EventView>,
)
    ensures
        match run(begin(default_plan_in_place(path, host)), events).pending() {
            Some(ActionView::Launch { arguments, .. }) => arguments == seq![path],
            Some(ActionView::ReadFile { path: read }) => read == path,
            Some(_) => false,
            None => true,
        },
{
    lemma_actions_stay_with_the_buffer(default_plan_in_place(path, host), events);
    assert(seq![path] + Seq::<Seq<char>>::empty() =~= seq![path]);
}

} // verus!
