use scrawl::editor::{Contents, Reader};
use scrawl::error::ScrawlError;
use scrawl::host::Host;
use scrawl::session::{Action, Event, Session};

const SCRATCH: &str = "/tmp/xvrqt_scrawl/scrawl_4321_17_1674864208.txt";

fn host() -> Host {
    Host {
        temp_dir: String::from("/tmp"),
        visual: None,
        editor: Some(String::from("ed")),
        windows: false,
        process_id: 4321,
        timestamp: 1674864208,
        counter: 17,
    }
}

fn host_with(visual: Option<&str>, editor: Option<&str>) -> Host {
    Host { visual: visual.map(String::from), editor: editor.map(String::from), ..host() }
}

fn scratch() -> String {
    String::from(SCRATCH)
}

/// Feeds `events` to the session and returns what it asked for on the way,
/// beginning with what it asks for before any event.
fn drive(session: &mut Session, events: Vec<Event>) -> Vec<Action> {
    let mut actions = Vec::new();
    for event in events {
        if let Some(action) = session.action() {
            actions.push(action);
        }
        session.handle(event);
    }
    if let Some(action) = session.action() {
        actions.push(action);
    }
    actions
}

fn launch(program: &str, arguments: &[&str]) -> Action {
    Action::Launch {
        program: String::from(program),
        arguments: arguments.iter().map(|argument| String::from(*argument)).collect(),
    }
}

#[test]
fn with_returns_the_trimmed_seed_when_the_editor_changes_nothing() {
    let seed = b"  hello world\n".to_vec();
    let mut session = scrawl::with(&seed, &host());
    let actions = drive(
        &mut session,
        vec![
            Event::Done,
            Event::Done,
            Event::Done,
            Event::Exited(true),
            Event::Contents(seed.clone()),
            Event::Done,
        ],
    );
    assert_eq!(
        actions,
        vec![
            Action::CreateDirectory { path: String::from("/tmp/xvrqt_scrawl") },
            Action::CreateFile { path: scratch() },
            Action::WriteFile { path: scratch(), contents: seed },
            launch("ed", &[SCRATCH]),
            Action::ReadFile { path: scratch() },
            Action::RemoveFile { path: scratch() },
        ]
    );
    assert_eq!(session.into_outcome(), Some(Ok(String::from("hello world"))));
}

#[test]
fn with_returns_the_seed_as_it_is_when_nothing_is_trimmed() {
    let seed = b"  hello world\n".to_vec();
    let mut editor = scrawl::editor::new();
    editor.trim(false);
    let mut session = editor.open(Contents::FromString(seed.clone()), &host());
    drive(
        &mut session,
        vec![
            Event::Done,
            Event::Done,
            Event::Done,
            Event::Exited(true),
            Event::Contents(seed),
            Event::Done,
        ],
    );
    assert_eq!(session.into_outcome(), Some(Ok(String::from("  hello world\n"))));
}

#[test]
fn with_a_seed_beyond_ascii() {
    let seed = "  naïve 日本語 😀\n";
    let mut session = scrawl::with(seed.as_bytes(), &host());
    drive(
        &mut session,
        vec![
            Event::Done,
            Event::Done,
            Event::Done,
            Event::Exited(true),
            Event::Contents(seed.as_bytes().to_vec()),
            Event::Done,
        ],
    );
    assert_eq!(session.into_outcome(), Some(Ok(String::from("naïve 日本語 😀"))));
}

#[test]
fn new_opens_the_editor_on_an_empty_scratch_file() {
    let mut session = scrawl::new(&host());
    let actions = drive(
        &mut session,
        vec![
            Event::Done,
            Event::Done,
            Event::Exited(true),
            Event::Contents(b"typed\n".to_vec()),
            Event::Done,
        ],
    );
    assert_eq!(
        actions,
        vec![
            Action::CreateDirectory { path: String::from("/tmp/xvrqt_scrawl") },
            Action::CreateFile { path: scratch() },
            launch("ed", &[SCRATCH]),
            Action::ReadFile { path: scratch() },
            Action::RemoveFile { path: scratch() },
        ]
    );
    assert_eq!(session.into_outcome(), Some(Ok(String::from("typed"))));
}

#[test]
fn new_with_nothing_typed_is_empty_text() {
    let mut session = scrawl::new(&host());
    drive(
        &mut session,
        vec![
            Event::Done,
            Event::Done,
            Event::Exited(true),
            Event::Contents(Vec::new()),
            Event::Done,
        ],
    );
    assert_eq!(session.into_outcome(), Some(Ok(String::new())));
}

#[test]
fn from_file_edits_a_copy_and_leaves_the_file_alone() {
    let mut session = scrawl::from_file("notes/todo.md", &host());
    let actions = drive(
        &mut session,
        vec![
            Event::Done,
            Event::Done,
            Event::Done,
            Event::Exited(true),
            Event::Contents(b"- buy milk\n- call home\n".to_vec()),
            Event::Done,
        ],
    );
    assert_eq!(
        actions,
        vec![
            Action::CreateDirectory { path: String::from("/tmp/xvrqt_scrawl") },
            Action::CreateFile { path: scratch() },
            Action::CopyFile { from: String::from("notes/todo.md"), to: scratch() },
            launch("ed", &[SCRATCH]),
            Action::ReadFile { path: scratch() },
            Action::RemoveFile { path: scratch() },
        ]
    );
    assert_eq!(session.into_outcome(), Some(Ok(String::from("- buy milk\n- call home"))));
}

#[test]
fn edit_file_works_on_the_file_itself() {
    let mut session = scrawl::edit_file("src/bar.rs", &host());
    let actions = drive(
        &mut session,
        vec![Event::Exited(true), Event::Contents(b"fn bar() {}\n".to_vec())],
    );
    assert_eq!(
        actions,
        vec![launch("ed", &["src/bar.rs"]), Action::ReadFile { path: String::from("src/bar.rs") }]
    );
    assert_eq!(session.into_outcome(), Some(Ok(String::from("fn bar() {}"))));
}

#[test]
fn edit_file_never_asks_for_a_file_to_be_created_or_removed() {
    let scripts: Vec<Vec<Event>> = vec![
        vec![Event::Exited(true), Event::Contents(b"x".to_vec())],
        vec![Event::Exited(true), Event::Failed],
        vec![Event::Exited(false)],
        (0..12).map(|_| Event::Failed).collect(),
        vec![Event::Failed, Event::Failed, Event::Exited(true), Event::Contents(vec![0xff])],
    ];
    for script in scripts {
        let mut session = scrawl::edit_file("src/bar.rs", &host());
        for action in drive(&mut session, script) {
            assert!(matches!(action, Action::Launch { .. } | Action::ReadFile { .. }));
        }
        assert!(session.into_outcome().is_some());
    }
}

#[test]
fn directory_that_cannot_be_made_ends_the_session_at_once() {
    let mut session = scrawl::new(&host());
    let actions = drive(&mut session, vec![Event::Failed]);
    assert_eq!(actions, vec![Action::CreateDirectory { path: String::from("/tmp/xvrqt_scrawl") }]);
    assert_eq!(
        session.into_outcome(),
        Some(Err(ScrawlError::FailedToCreateTempfile(String::from("/tmp/xvrqt_scrawl"))))
    );
}

#[test]
fn directory_that_is_there_already_is_used() {
    let mut session = scrawl::new(&host());
    let actions = drive(&mut session, vec![Event::AlreadyExists]);
    assert_eq!(
        actions,
        vec![
            Action::CreateDirectory { path: String::from("/tmp/xvrqt_scrawl") },
            Action::CreateFile { path: scratch() },
        ]
    );
    assert_eq!(session.into_outcome(), None);
}

#[test]
fn only_a_directory_may_be_there_already() {
    let mut session = scrawl::new(&host());
    drive(&mut session, vec![Event::Done, Event::AlreadyExists]);
    assert_eq!(session.into_outcome(), Some(Err(ScrawlError::FailedToCreateTempfile(scratch()))));
    let mut session = scrawl::with(b"seed", &host());
    drive(&mut session, vec![Event::Done, Event::Done, Event::AlreadyExists, Event::Done]);
    assert_eq!(
        session.into_outcome(),
        Some(Err(ScrawlError::FailedToCopyToTempFile(String::from("[String]"))))
    );
}

#[test]
fn scratch_file_that_cannot_be_created_is_not_removed() {
    let mut session = scrawl::with(b"seed", &host());
    let actions = drive(&mut session, vec![Event::Done, Event::Failed]);
    assert_eq!(
        actions,
        vec![
            Action::CreateDirectory { path: String::from("/tmp/xvrqt_scrawl") },
            Action::CreateFile { path: scratch() },
        ]
    );
    assert_eq!(session.into_outcome(), Some(Err(ScrawlError::FailedToCreateTempfile(scratch()))));
}

#[test]
fn seed_that_cannot_be_written_removes_the_scratch_file() {
    let mut session = scrawl::with(b"seed", &host());
    let actions = drive(&mut session, vec![Event::Done, Event::Done, Event::Failed]);
    assert_eq!(actions.last(), Some(&Action::RemoveFile { path: scratch() }));
    assert_eq!(session.into_outcome(), None);
    let mut session = scrawl::with(b"seed", &host());
    drive(&mut session, vec![Event::Done, Event::Done, Event::Failed, Event::Done]);
    assert_eq!(
        session.into_outcome(),
        Some(Err(ScrawlError::FailedToCopyToTempFile(String::from("[String]"))))
    );
}

#[test]
fn file_that_cannot_be_copied_is_named_in_the_error() {
    let mut session = scrawl::from_file("missing.txt", &host());
    let actions =
        drive(&mut session, vec![Event::Done, Event::Done, Event::Failed, Event::Failed]);
    assert_eq!(
        actions,
        vec![
            Action::CreateDirectory { path: String::from("/tmp/xvrqt_scrawl") },
            Action::CreateFile { path: scratch() },
            Action::CopyFile { from: String::from("missing.txt"), to: scratch() },
            Action::RemoveFile { path: scratch() },
        ]
    );
    assert_eq!(
        session.into_outcome(),
        Some(Err(ScrawlError::FailedToCopyToTempFile(String::from("missing.txt"))))
    );
}

#[test]
fn editor_that_exits_with_an_error_fails_and_the_buffer_is_not_read() {
    let mut session = scrawl::with(b"seed", &host());
    let actions = drive(
        &mut session,
        vec![Event::Done, Event::Done, Event::Done, Event::Exited(false), Event::Done],
    );
    assert!(!actions.iter().any(|action| matches!(action, Action::ReadFile { .. })));
    assert_eq!(actions.last(), Some(&Action::RemoveFile { path: scratch() }));
    assert_eq!(
        session.into_outcome(),
        Some(Err(ScrawlError::FailedToOpenEditor(String::from("ed"))))
    );
}

#[test]
fn editor_that_exits_with_an_error_is_not_followed_by_another() {
    let mut session = scrawl::edit_file("a.txt", &host_with(Some("code"), Some("ed")));
    let actions = drive(&mut session, vec![Event::Exited(false)]);
    assert_eq!(actions, vec![launch("code", &["a.txt"])]);
    assert_eq!(
        session.into_outcome(),
        Some(Err(ScrawlError::FailedToOpenEditor(String::from("code"))))
    );
}

#[test]
fn visual_is_tried_before_editor_and_editor_before_the_usual_ones() {
    let mut session = scrawl::edit_file("a.txt", &host_with(Some("code"), Some("ed")));
    let actions = drive(
        &mut session,
        vec![Event::Failed, Event::Failed, Event::Exited(true), Event::Contents(b"ok".to_vec())],
    );
    assert_eq!(
        actions,
        vec![
            launch("code", &["a.txt"]),
            launch("ed", &["a.txt"]),
            launch("vim", &["a.txt"]),
            Action::ReadFile { path: String::from("a.txt") },
        ]
    );
    assert_eq!(session.into_outcome(), Some(Ok(String::from("ok"))));
}

#[test]
fn first_editor_that_starts_is_used() {
    let mut session = scrawl::new(&host_with(Some("code"), Some("ed")));
    let actions = drive(
        &mut session,
        vec![
            Event::Done,
            Event::Done,
            Event::Failed,
            Event::Exited(true),
            Event::Contents(b"from ed".to_vec()),
            Event::Done,
        ],
    );
    let launched: Vec<&Action> =
        actions.iter().filter(|action| matches!(action, Action::Launch { .. })).collect();
    assert_eq!(launched, vec![&launch("code", &[SCRATCH]), &launch("ed", &[SCRATCH])]);
    assert_eq!(session.into_outcome(), Some(Ok(String::from("from ed"))));
}

#[test]
fn no_editor_that_starts_is_editor_not_found() {
    let mut session = scrawl::new(&host());
    session.handle(Event::Done);
    session.handle(Event::Done);
    let mut tried = Vec::new();
    while let Some(Action::Launch { program, .. }) = session.action() {
        tried.push(program);
        session.handle(Event::Failed);
    }
    assert_eq!(
        tried,
        vec![
            "ed", "vim", "neovim", "nvim", "nano", "emacs", "mcedit", "tilde", "micro", "helix",
            "ne", "vi"
        ]
    );
    assert_eq!(session.action(), Some(Action::RemoveFile { path: scratch() }));
    session.handle(Event::Failed);
    assert_eq!(session.action(), None);
    assert_eq!(session.into_outcome(), Some(Err(ScrawlError::EditorNotFound)));
}

#[test]
fn no_editor_for_a_file_of_the_callers_is_editor_not_found() {
    let windows = Host { windows: true, editor: None, ..host() };
    let mut session = scrawl::edit_file("a.txt", &windows);
    let actions = drive(&mut session, vec![Event::Failed]);
    assert_eq!(actions, vec![launch("notepad.exe", &["a.txt"])]);
    assert_eq!(session.into_outcome(), Some(Err(ScrawlError::EditorNotFound)));
}

#[test]
fn buffer_that_is_no_utf8_fails_to_capture() {
    let mut session = scrawl::new(&host());
    let actions = drive(
        &mut session,
        vec![
            Event::Done,
            Event::Done,
            Event::Exited(true),
            Event::Contents(vec![b'o', b'k', 0xff]),
            Event::Done,
        ],
    );
    assert_eq!(actions.last(), Some(&Action::RemoveFile { path: scratch() }));
    assert_eq!(session.into_outcome(), Some(Err(ScrawlError::FailedToCaptureInput)));
}

#[test]
fn buffer_that_cannot_be_read_fails_to_capture() {
    let mut session = scrawl::edit_file("a.txt", &host());
    drive(&mut session, vec![Event::Exited(true), Event::Failed]);
    assert_eq!(session.into_outcome(), Some(Err(ScrawlError::FailedToCaptureInput)));
}

#[test]
fn answer_to_the_removal_does_not_change_the_outcome() {
    for answer in [
        Event::Done,
        Event::AlreadyExists,
        Event::Failed,
        Event::Exited(true),
        Event::Contents(vec![1]),
    ] {
        let mut session = scrawl::new(&host());
        drive(
            &mut session,
            vec![
                Event::Done,
                Event::Done,
                Event::Exited(true),
                Event::Contents(b"kept".to_vec()),
                answer,
            ],
        );
        assert_eq!(session.into_outcome(), Some(Ok(String::from("kept"))));
    }
}

#[test]
fn events_after_the_end_change_nothing() {
    let mut session = scrawl::edit_file("a.txt", &host());
    drive(&mut session, vec![Event::Exited(true), Event::Contents(b"done".to_vec())]);
    assert_eq!(session.action(), None);
    session.handle(Event::Failed);
    session.handle(Event::Contents(b"other".to_vec()));
    session.handle(Event::Exited(false));
    assert_eq!(session.action(), None);
    assert_eq!(session.into_outcome(), Some(Ok(String::from("done"))));
}

#[test]
fn session_that_is_not_over_has_no_outcome() {
    assert_eq!(scrawl::new(&host()).into_outcome(), None);
    let mut session = scrawl::edit_file("a.txt", &host());
    session.handle(Event::Exited(true));
    assert_eq!(session.into_outcome(), None);
}

#[test]
fn answer_of_the_wrong_kind_counts_as_a_failure() {
    let mut session = scrawl::new(&host());
    session.handle(Event::Exited(true));
    assert_eq!(
        session.into_outcome(),
        Some(Err(ScrawlError::FailedToCreateTempfile(String::from("/tmp/xvrqt_scrawl"))))
    );
    let mut session = scrawl::edit_file("a.txt", &host_with(None, None));
    session.handle(Event::Done);
    assert_eq!(session.action(), Some(launch("neovim", &["a.txt"])));
    let mut session = scrawl::edit_file("a.txt", &host());
    drive(&mut session, vec![Event::Exited(true), Event::Done]);
    assert_eq!(session.into_outcome(), Some(Err(ScrawlError::FailedToCaptureInput)));
}

#[test]
fn session_without_editors_ends_with_editor_not_found() {
    let session = Session::begin(
        Vec::new(),
        true,
        Vec::new(),
        String::from("a.txt"),
        String::new(),
        false,
        Contents::Empty,
        true,
    );
    assert_eq!(session.action(), None);
    assert_eq!(session.into_outcome(), Some(Err(ScrawlError::EditorNotFound)));
    let mut session = Session::begin(
        Vec::new(),
        false,
        Vec::new(),
        scratch(),
        String::from("/tmp/xvrqt_scrawl"),
        true,
        Contents::Empty,
        true,
    );
    let actions = drive(&mut session, vec![Event::Done, Event::Done, Event::Done]);
    assert_eq!(actions.last(), Some(&Action::RemoveFile { path: scratch() }));
    assert_eq!(session.into_outcome(), Some(Err(ScrawlError::EditorNotFound)));
}

fn alphabet() -> Vec<Event> {
    vec![
        Event::Done,
        Event::AlreadyExists,
        Event::Failed,
        Event::Exited(true),
        Event::Exited(false),
        Event::Contents(b" text ".to_vec()),
        Event::Contents(vec![0xff]),
    ]
}

fn copy(event: &Event) -> Event {
    match event {
        Event::Done => Event::Done,
        Event::AlreadyExists => Event::AlreadyExists,
        Event::Failed => Event::Failed,
        Event::Exited(success) => Event::Exited(*success),
        Event::Contents(bytes) => Event::Contents(bytes.clone()),
    }
}

fn two_editors(temporary: bool, seed: Contents) -> Session {
    Session::begin(
        vec![String::from("one"), String::from("two")],
        true,
        vec![String::from("+1")],
        if temporary { scratch() } else { String::from("mine.txt") },
        if temporary { String::from("/tmp/xvrqt_scrawl") } else { String::new() },
        temporary,
        seed,
        true,
    )
}

/// Every list of events that takes a session begun by `begin` to its end,
/// with nothing after the end.
fn scripts_to_the_end(begin: &dyn Fn() -> Session) -> Vec<Vec<Event>> {
    let mut finished = Vec::new();
    let mut open: Vec<Vec<Event>> = vec![Vec::new()];
    while let Some(script) = open.pop() {
        let mut session = begin();
        for event in &script {
            session.handle(copy(event));
        }
        if session.action().is_none() {
            finished.push(script);
        } else {
            for event in alphabet() {
                let mut longer: Vec<Event> = script.iter().map(copy).collect();
                longer.push(event);
                open.push(longer);
            }
        }
    }
    finished
}

#[test]
fn every_scratch_session_ends_in_time_and_cleans_up() {
    let begin = || two_editors(true, Contents::FromString(b"seed".to_vec()));
    let scripts = scripts_to_the_end(&begin);
    assert!(scripts.len() > 1000);
    for events in scripts {
        assert!(events.len() <= 7);
        let mut session = begin();
        let mut created = false;
        let (mut creates, mut reads, mut removes) = (0, 0, 0);
        for event in events {
            match session.action() {
                Some(Action::CreateFile { path }) => {
                    assert_eq!(path, SCRATCH);
                    creates += 1;
                    created = matches!(event, Event::Done);
                },
                Some(Action::ReadFile { path }) => {
                    assert_eq!(path, SCRATCH);
                    reads += 1;
                },
                Some(Action::RemoveFile { path }) => {
                    assert_eq!(path, SCRATCH);
                    removes += 1;
                },
                Some(Action::WriteFile { path, contents }) => {
                    assert_eq!(path, SCRATCH);
                    assert_eq!(contents, b"seed");
                },
                Some(Action::Launch { arguments, .. }) => {
                    assert_eq!(arguments, vec![SCRATCH, "+1"]);
                },
                Some(Action::CreateDirectory { path }) => assert_eq!(path, "/tmp/xvrqt_scrawl"),
                Some(Action::CopyFile { .. }) => unreachable!(),
                None => unreachable!(),
            }
            session.handle(event);
        }
        assert_eq!(session.action(), None);
        assert!(creates <= 1 && reads <= 1 && removes <= 1);
        assert_eq!(removes == 1, created);
        assert!(session.into_outcome().is_some());
    }
}

#[test]
fn every_session_on_a_copy_leaves_the_source_alone() {
    let begin = || two_editors(true, Contents::FromFile(String::from("source.txt")));
    for events in scripts_to_the_end(&begin) {
        let mut session = begin();
        for action in drive(&mut session, events) {
            match action {
                Action::CopyFile { from, to } => {
                    assert_eq!(from, "source.txt");
                    assert_eq!(to, SCRATCH);
                },
                Action::CreateDirectory { path } => assert_eq!(path, "/tmp/xvrqt_scrawl"),
                Action::CreateFile { path }
                | Action::ReadFile { path }
                | Action::RemoveFile { path } => assert_eq!(path, SCRATCH),
                Action::Launch { arguments, .. } => assert_eq!(arguments, vec![SCRATCH, "+1"]),
                Action::WriteFile { .. } => unreachable!(),
            }
        }
    }
}

#[test]
fn every_session_on_a_file_of_the_callers_leaves_it_in_place() {
    let begin = || two_editors(false, Contents::Empty);
    let scripts = scripts_to_the_end(&begin);
    assert!(scripts.len() > 50);
    for events in scripts {
        assert!(events.len() <= 3);
        let mut session = begin();
        let mut reads = 0;
        for action in drive(&mut session, events) {
            match action {
                Action::Launch { arguments, .. } => assert_eq!(arguments, vec!["mine.txt", "+1"]),
                Action::ReadFile { path } => {
                    assert_eq!(path, "mine.txt");
                    reads += 1;
                },
                other => unreachable!("{:?}", other),
            }
        }
        assert!(reads <= 1);
        assert!(session.into_outcome().is_some());
    }
}

#[test]
fn reader_of_a_session_reads_its_buffer() {
    let session = scrawl::new(&host());
    let reader = session.reader();
    assert_eq!(reader.buffer(), SCRATCH);
    assert_eq!(reader.to_string(b" x \n".to_vec()), Ok(String::from("x")));
    let session = scrawl::edit_file("a.txt", &host());
    assert_eq!(session.reader().buffer(), "a.txt");
}

#[test]
fn reader_trims_where_it_is_told_to() {
    let text = " kept \n".as_bytes().to_vec();
    let trimming = Reader::new(String::from("a.txt"), true);
    assert_eq!(trimming.to_string(text.clone()), Ok(String::from("kept")));
    let plain = Reader::new(String::from("a.txt"), false);
    assert_eq!(plain.to_string(text), Ok(String::from(" kept \n")));
}

#[test]
fn reader_refuses_bytes_that_are_no_utf8() {
    for trim in [true, false] {
        let reader = Reader::new(String::from("a.txt"), trim);
        assert_eq!(reader.to_string(vec![0xc3, 0x28]), Err(ScrawlError::FailedToCaptureInput));
        assert_eq!(reader.to_string(vec![b' ', 0x80]), Err(ScrawlError::FailedToCaptureInput));
    }
}
