//! One editing session as a state machine. The session decides what has to
//! happen next; its caller does it and reports what came of it.
use crate::editor::{Contents, Reader, Seed};
use crate::error::{ScrawlError, ScrawlErrorView};
use crate::text::{decoded, trimmed};
use vstd::prelude::*;

verus! {

/// What a session ends with: the text that was written, or why there is none.
pub type Outcome = Result<Seq<char>, ScrawlErrorView>;

/// What is settled before a session starts, and never changes while it runs.
pub struct Plan {
    /// The editors to try, in this order.
    pub programs: Seq<Seq<char>>,
    /// Whether the next editor is tried when one does not start.
    pub fallback: bool,
    /// What the editor is handed after the buffer's path.
    pub arguments: Seq<Seq<char>>,
    /// The path of the file that the editor works on.
    pub buffer: Seq<char>,
    /// The directory that a scratch buffer is created in.
    pub directory: Seq<char>,
    /// Whether the buffer is a scratch file that the session creates and removes.
    pub temporary: bool,
    /// What a scratch buffer holds when the editor opens it.
    pub seed: Seed,
    /// Whether the whitespace around the text is stripped.
    pub trim: bool,
}

/// Where a session stands: what it waits for.
pub enum Phase {
    /// For the scratch directory to exist.
    Directory,
    /// For the scratch file to be created.
    Create,
    /// For the scratch file to be filled.
    Seed,
    /// For the editor at this place in the list to exit.
    Launch(nat),
    /// For the buffer's bytes.
    Read,
    /// For the scratch file to be removed; the outcome is settled.
    Remove(Outcome),
    /// For nothing: the session is over.
    Finished(Outcome),
}

/// A session: its plan and where it stands.
pub struct SessionView {
    pub plan: Plan,
    pub phase: Phase,
}

/// `Action` with its texts as character sequences.
pub enum ActionView {
    CreateDirectory { path: Seq<char> },
    CreateFile { path: Seq<char> },
    WriteFile { path: Seq<char>, contents: Seq<u8> },
    CopyFile { from: Seq<char>, to: Seq<char> },
    Launch { program: Seq<char>, arguments: Seq<Seq<char>> },
    ReadFile { path: Seq<char> },
    RemoveFile { path: Seq<char> },
}

/// `Event` with its bytes as a sequence.
pub enum EventView {
    Done,
    AlreadyExists,
    Failed,
    Exited { success: bool },
    Contents(Seq<u8>),
}

/// What the source of a failed seed is called in the error.
pub open spec fn seed_source(seed: Seed) -> Seq<char> {
    match seed {
        Seed::File(path) => path,
        Seed::Text(_) => "[String]"@,
        Seed::Empty => Seq::empty(),
    }
}

/// The text captured from the buffer's bytes: they must be UTF-8, and the
/// whitespace around the text goes where `trim` is set.
pub open spec fn captured(bytes: Seq<u8>, trim: bool) -> Outcome {
    match decoded(bytes) {
        Some(text) => Ok(
            if trim {
                trimmed(text)
            } else {
                text
            },
        ),
        None => Err(ScrawlErrorView::FailedToCaptureInput),
    }
}

/// The end of a session whose buffer exists: a scratch file is removed
/// first, a file of the caller's is left alone.
pub open spec fn conclude(plan: Plan, outcome: Outcome) -> Phase {
    if plan.temporary {
        Phase::Remove(outcome)
    } else {
        Phase::Finished(outcome)
    }
}

/// Trying the editor at place `index`, or giving up where the list is exhausted.
pub open spec fn launch(plan: Plan, index: nat) -> Phase {
    if index < plan.programs.len() {
        Phase::Launch(index)
    } else {
        conclude(plan, Err(ScrawlErrorView::EditorNotFound))
    }
}

/// The session that carries out `plan`, before anything has happened.
pub open spec fn begin(plan: Plan) -> SessionView {
    SessionView {
        plan,
        phase: if plan.temporary {
            Phase::Directory
        } else {
            launch(plan, 0)
        },
    }
}

/// Where a session stands after `event`, which answers what it asked for.
///
/// - The directory was made, or is there already: the file is created.
///   Anything else ends the session with `FailedToCreateTempfile`.
/// - The file was created: it is filled if there is a seed, else the first
///   editor is started. Anything else ends the session with
///   `FailedToCreateTempfile`; there is no file to remove.
/// - The file was filled: the first editor is started. Anything else is
///   `FailedToCopyToTempFile`.
/// - The editor exited with success: the buffer is read. It exited
///   otherwise: `FailedToOpenEditor`. It did not start: the next editor of
///   the list is started, or, for an editor that the caller chose,
///   `FailedToOpenEditor`. A list that is exhausted is `EditorNotFound`.
/// - The buffer was read: its text is the outcome, if it is UTF-8. Anything
///   else is `FailedToCaptureInput`.
/// - From the moment the scratch file exists, no outcome ends the session
///   before the file's removal was asked for and answered. The answer does
///   not matter.
/// - Once the session is over, events change nothing.
pub open spec fn next_phase(plan: Plan, phase: Phase, event: EventView) -> Phase {
    match phase {
        Phase::Directory => {
            if event is Done || event is AlreadyExists {
                Phase::Create
            } else {
                Phase::Finished(Err(ScrawlErrorView::FailedToCreateTempfile(plan.directory)))
            }
        },
        Phase::Create => {
            if event is Done {
                if plan.seed is Empty {
                    launch(plan, 0)
                } else {
                    Phase::Seed
                }
            } else {
                Phase::Finished(Err(ScrawlErrorView::FailedToCreateTempfile(plan.buffer)))
            }
        },
        Phase::Seed => {
            if event is Done {
                launch(plan, 0)
            } else {
                conclude(
                    plan,
                    Err(ScrawlErrorView::FailedToCopyToTempFile(seed_source(plan.seed))),
                )
            }
        },
        Phase::Launch(index) => {
            if event == (EventView::Exited { success: true }) {
                Phase::Read
            } else if event is Exited || !plan.fallback {
                conclude(
                    plan,
                    Err(ScrawlErrorView::FailedToOpenEditor(plan.programs[index as int])),
                )
            } else {
                launch(plan, index + 1)
            }
        },
        Phase::Read => {
            match event {
                EventView::Contents(bytes) => conclude(plan, captured(bytes, plan.trim)),
                _ => conclude(plan, Err(ScrawlErrorView::FailedToCaptureInput)),
            }
        },
        Phase::Remove(outcome) => Phase::Finished(outcome),
        Phase::Finished(outcome) => Phase::Finished(outcome),
    }
}

impl SessionView {
    /// What holds of every session that was begun from a plan and fed events.
    pub open spec fn wf(self) -> bool {
        &&& self.phase matches Phase::Launch(index) ==> index < self.plan.programs.len()
        &&& self.phase is Seed ==> !(self.plan.seed is Empty)
        &&& self.phase is Directory || self.phase is Create || self.phase is Seed
            || self.phase is Remove ==> self.plan.temporary
    }

    /// The session after `event`. The plan stays.
    pub open spec fn next(self, event: EventView) -> SessionView {
        SessionView { plan: self.plan, phase: next_phase(self.plan, self.phase, event) }
    }

    /// What the session asks its caller to do now. Nothing, once it is over.
    pub open spec fn pending(self) -> Option<ActionView> {
        match self.phase {
            Phase::Directory => Some(ActionView::CreateDirectory { path: self.plan.directory }),
            Phase::Create => Some(ActionView::CreateFile { path: self.plan.buffer }),
            Phase::Seed => Some(
                match self.plan.seed {
                    Seed::File(source) => ActionView::CopyFile {
                        from: source,
                        to: self.plan.buffer,
                    },
                    Seed::Text(bytes) => ActionView::WriteFile {
                        path: self.plan.buffer,
                        contents: bytes,
                    },
                    Seed::Empty => ActionView::WriteFile {
                        path: self.plan.buffer,
                        contents: Seq::empty(),
                    },
                },
            ),
            Phase::Launch(index) => Some(
                ActionView::Launch {
                    program: self.plan.programs[index as int],
                    arguments: seq![self.plan.buffer] + self.plan.arguments,
                },
            ),
            Phase::Read => Some(ActionView::ReadFile { path: self.plan.buffer }),
            Phase::Remove(_) => Some(ActionView::RemoveFile { path: self.plan.buffer }),
            Phase::Finished(_) => None,
        }
    }

    /// How the session ended, once it is over.
    pub open spec fn outcome(self) -> Option<Outcome> {
        match self.phase {
            Phase::Finished(outcome) => Some(outcome),
            _ => None,
        }
    }
}

/// A session is well formed when it begins and stays so, whatever happens.
pub proof fn lemma_wf_is_kept(plan: Plan, session: SessionView, event: EventView)
    ensures
        begin(plan).wf(),
        session.wf() ==> session.next(event).wf(),
{
}

/// The characters of each text in a list.
pub open spec fn texts(list: Seq<String>) -> Seq<Seq<char>> {
    list.map_values(|text: String| text@)
}

/// The model of an outcome.
pub open spec fn outcome_view(outcome: Result<String, ScrawlError>) -> Outcome {
    match outcome {
        Ok(text) => Ok(text@),
        Err(error) => Err(error@),
    }
}

/// What the caller of a session is asked to do.
#[derive(Debug, PartialEq, Eq)]
pub enum Action {
    /// Create the directory. That it is there already is to be told apart
    /// from other failures.
    CreateDirectory { path: String },
    /// Create the file, empty.
    CreateFile { path: String },
    /// Write the bytes to the file.
    WriteFile { path: String, contents: Vec<u8> },
    /// Copy what one file holds into the other.
    CopyFile { from: String, to: String },
    /// Run the program with these arguments and wait until it exits.
    Launch { program: String, arguments: Vec<String> },
    /// Read all of the file.
    ReadFile { path: String },
    /// Remove the file.
    RemoveFile { path: String },
}

impl View for Action {
    type V = ActionView;

    open spec fn view(&self) -> ActionView {
        match self {
            Action::CreateDirectory { path } => ActionView::CreateDirectory { path: path@ },
            Action::CreateFile { path } => ActionView::CreateFile { path: path@ },
            Action::WriteFile { path, contents } => ActionView::WriteFile {
                path: path@,
                contents: contents@,
            },
            Action::CopyFile { from, to } => ActionView::CopyFile { from: from@, to: to@ },
            Action::Launch { program, arguments } => ActionView::Launch {
                program: program@,
                arguments: texts(arguments@),
            },
            Action::ReadFile { path } => ActionView::ReadFile { path: path@ },
            Action::RemoveFile { path } => ActionView::RemoveFile { path: path@ },
        }
    }
}

/// What came of the action that a session asked for.
#[derive(Debug, PartialEq, Eq)]
pub enum Event {
    /// It was done.
    Done,
    /// It was not done, because what was to be created is there already.
    AlreadyExists,
    /// It could not be done; for a launch, the program did not start.
    Failed,
    /// The program ran and exited, with success or without.
    Exited(bool),
    /// The file was read, and these are its bytes.
    Contents(Vec<u8>),
}

impl View for Event {
    type V = EventView;

    open spec fn view(&self) -> EventView {
        match self {
            Event::Done => EventView::Done,
            Event::AlreadyExists => EventView::AlreadyExists,
            Event::Failed => EventView::Failed,
            Event::Exited(success) => EventView::Exited { success: *success },
            Event::Contents(bytes) => EventView::Contents(bytes@),
        }
    }
}

enum Stage {
    Directory,
    Create,
    Seed,
    Launch(usize),
    Read,
    Remove(Result<String, ScrawlError>),
    Finished(Result<String, ScrawlError>),
}

impl View for Stage {
    type V = Phase;

    closed spec fn view(&self) -> Phase {
        match self {
            Stage::Directory => Phase::Directory,
            Stage::Create => Phase::Create,
            Stage::Seed => Phase::Seed,
            Stage::Launch(index) => Phase::Launch(*index as nat),
            Stage::Read => Phase::Read,
            Stage::Remove(outcome) => Phase::Remove(outcome_view(*outcome)),
            Stage::Finished(outcome) => Phase::Finished(outcome_view(*outcome)),
        }
    }
}

/// An editing session in progress.
pub struct Session {
    programs: Vec<String>,
    fallback: bool,
    arguments: Vec<String>,
    buffer: String,
    directory: String,
    temporary: bool,
    seed: Contents,
    trim: bool,
    stage: Stage,
}

impl View for Session {
    type V = SessionView;

    closed spec fn view(&self) -> SessionView {
        SessionView { plan: self.plan(), phase: self.stage@ }
    }
}

fn copy_bytes(bytes: &Vec<u8>) -> (copy: Vec<u8>)
    ensures
        copy@ == bytes@,
{
    let mut copy: Vec<u8> = Vec::new();
    let mut at: usize = 0;
    while at < bytes.len()
        invariant
            at <= bytes.len(),
            copy@ == bytes@.subrange(0, at as int),
        decreases bytes.len() - at,
    {
        copy.push(bytes[at]);
        at = at + 1;
        assert(copy@ =~= bytes@.subrange(0, at as int));
    }
    assert(bytes@.subrange(0, at as int) =~= bytes@);
    copy
}

impl Session {
    #[verifier::type_invariant]
    spec fn sound(self) -> bool {
        self@.wf()
    }

    spec fn plan(&self) -> Plan {
        Plan {
            programs: texts(self.programs@),
            fallback: self.fallback,
            arguments: texts(self.arguments@),
            buffer: self.buffer@,
            directory: self.directory@,
            temporary: self.temporary,
            seed: self.seed@,
            trim: self.trim,
        }
    }

    /// Begins the session that works on the file at `buffer`: a scratch file
    /// that the session creates in `directory`, fills from `seed` and
    /// removes in the end where `temporary` is set, else a file of the
    /// caller's.
    pub fn begin(
        programs: Vec<String>,
        fallback: bool,
        arguments: Vec<String>,
        buffer: String,
        directory: String,
        temporary: bool,
        seed: Contents,
        trim: bool,
    ) -> (session: Session)
        ensures
            session@ == begin(
                Plan {
                    programs: texts(programs@),
                    fallback,
                    arguments: texts(arguments@),
                    buffer: buffer@,
                    directory: directory@,
                    temporary,
                    seed: seed@,
                    trim,
                },
            ),
    {
        let stage = if temporary {
            Stage::Directory
        } else if programs.len() > 0 {
            Stage::Launch(0)
        } else {
            Stage::Finished(Err(ScrawlError::EditorNotFound))
        };
        Session { programs, fallback, arguments, buffer, directory, temporary, seed, trim, stage }
    }

    /// The stage at which the editor at place `index` runs, if there is one.
    fn launch(&self, index: usize) -> (stage: Stage)
        ensures
            stage@ == launch(self.plan(), index as nat),
    {
        if index < self.programs.len() {
            Stage::Launch(index)
        } else {
            self.conclude(Err(ScrawlError::EditorNotFound))
        }
    }

    /// The stage that ends the session with `outcome`.
    fn conclude(&self, outcome: Result<String, ScrawlError>) -> (stage: Stage)
        ensures
            stage@ == conclude(self.plan(), outcome_view(outcome)),
    {
        if self.temporary {
            Stage::Remove(outcome)
        } else {
            Stage::Finished(outcome)
        }
    }

    /// What the editor is started with: the buffer's path, then the extra arguments.
    fn launch_arguments(&self) -> (arguments: Vec<String>)
        ensures
            texts(arguments@) == seq![self.plan().buffer] + self.plan().arguments,
    {
        let mut arguments: Vec<String> = Vec::new();
        arguments.push(self.buffer.clone());
        let mut at: usize = 0;
        while at < self.arguments.len()
            invariant
                at <= self.arguments.len(),
                arguments.len() == at + 1,
                arguments@[0]@ == self.buffer@,
                forall|k: int| 0 <= k < at ==> (#[trigger] arguments@[k + 1])@ == self.arguments@[k]@,
            decreases self.arguments.len() - at,
        {
            arguments.push(self.arguments[at].clone());
            at = at + 1;
        }
        assert(texts(arguments@) =~= seq![self.plan().buffer] + self.plan().arguments) by {
            assert forall|k: int| 0 <= k < arguments.len() implies texts(arguments@)[k] == (
            seq![self.plan().buffer] + self.plan().arguments)[k] by {
                if k > 0 {
                    assert(arguments@[(k - 1) + 1]@ == self.arguments@[k - 1]@);
                }
            }
        }
        arguments
    }

    /// What to do next, or `None` once the session is over. The caller does
    /// it and reports to `handle` what came of it.
    pub fn action(&self) -> (action: Option<Action>)
        ensures
            match action {
                Some(action) => self@.pending() == Some(action@),
                None => self@.pending() is None,
            },
    {
        proof {
            use_type_invariant(self);
        }
        match &self.stage {
            Stage::Directory => Some(Action::CreateDirectory { path: self.directory.clone() }),
            Stage::Create => Some(Action::CreateFile { path: self.buffer.clone() }),
            Stage::Seed => {
                match &self.seed {
                    Contents::FromFile(source) => Some(
                        Action::CopyFile { from: source.clone(), to: self.buffer.clone() },
                    ),
                    Contents::FromString(bytes) => Some(
                        Action::WriteFile {
                            path: self.buffer.clone(),
                            contents: copy_bytes(bytes),
                        },
                    ),
                    Contents::Empty => Some(
                        Action::WriteFile { path: self.buffer.clone(), contents: Vec::new() },
                    ),
                }
            },
            Stage::Launch(index) => Some(
                Action::Launch {
                    program: self.programs[*index].clone(),
                    arguments: self.launch_arguments(),
                },
            ),
            Stage::Read => Some(Action::ReadFile { path: self.buffer.clone() }),
            Stage::Remove(_) => Some(Action::RemoveFile { path: self.buffer.clone() }),
            Stage::Finished(_) => None,
        }
    }

    /// The reader that turns the buffer's bytes into the session's text.
    pub fn reader(&self) -> (reader: Reader)
        ensures
            reader.path() == self@.plan.buffer,
            reader.trims() == self@.plan.trim,
    {
        Reader::new(self.buffer.clone(), self.trim)
    }

    /// Takes in what came of the last action and moves the session on.
    pub fn handle(&mut self, event: Event)
        ensures
            final(self)@ == old(self)@.next(event@),
    {
        proof {
            use_type_invariant(&*self);
        }
        let mut stage = Stage::Read;
        core::mem::swap(&mut self.stage, &mut stage);
        let count = self.programs.len();
        assert(stage@ matches Phase::Launch(index) ==> index < count);
        let next = match stage {
            Stage::Directory => {
                match event {
                    Event::Done | Event::AlreadyExists => Stage::Create,
                    _ => Stage::Finished(
                        Err(ScrawlError::FailedToCreateTempfile(self.directory.clone())),
                    ),
                }
            },
            Stage::Create => {
                match event {
                    Event::Done => {
                        match &self.seed {
                            Contents::Empty => self.launch(0),
                            _ => Stage::Seed,
                        }
                    },
                    _ => Stage::Finished(
                        Err(ScrawlError::FailedToCreateTempfile(self.buffer.clone())),
                    ),
                }
            },
            Stage::Seed => {
                match event {
                    Event::Done => self.launch(0),
                    _ => self.conclude(
                        Err(ScrawlError::FailedToCopyToTempFile(self.seed.source())),
                    ),
                }
            },
            Stage::Launch(index) => {
                match event {
                    Event::Exited(true) => Stage::Read,
                    Event::Exited(false) => self.conclude(
                        Err(ScrawlError::FailedToOpenEditor(self.programs[index].clone())),
                    ),
                    _ => {
                        if self.fallback {
                            self.launch(index + 1)
                        } else {
                            self.conclude(
                                Err(
                                    ScrawlError::FailedToOpenEditor(
                                        self.programs[index].clone(),
                                    ),
                                ),
                            )
                        }
                    },
                }
            },
            Stage::Read => {
                match event {
                    Event::Contents(bytes) => self.conclude(self.reader().to_string(bytes)),
                    _ => self.conclude(Err(ScrawlError::FailedToCaptureInput)),
                }
            },
            Stage::Remove(outcome) => Stage::Finished(outcome),
            Stage::Finished(outcome) => Stage::Finished(outcome),
        };
        self.stage = next;
    }

    /// How the session ended, or `None` while it is not over.
    pub fn into_outcome(self) -> (outcome: Option<Result<String, ScrawlError>>)
        ensures
            match outcome {
                Some(outcome) => self@.outcome() == Some(outcome_view(outcome)),
                None => self@.outcome() is None,
            },
    {
        match self.stage {
            Stage::Finished(outcome) => Some(outcome),
            _ => None,
        }
    }
}

} // verus!
