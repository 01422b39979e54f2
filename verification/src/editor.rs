//! The editor as its caller configures it: which program, which extension
//! for the scratch file, what the buffer starts with.
use crate::error::ScrawlError;
use crate::host::{Host, HostView};
use crate::session::{begin, captured, outcome_view, seed_source, texts, Plan, Session};
use crate::text::{from_utf8, trim};
use vstd::prelude::*;
use vstd::string::*;

verus! {

/// The extension that a scratch file gets unless the caller names another.
pub const DEFAULT_EXT: &'static str = ".txt";

/// Marks the types that say how far an `Editor` has been configured.
pub trait EditorState {

}

/// The state of an `Editor` that opens whatever editor the environment names.
#[derive(Debug, Clone, Copy)]
pub struct DefaultState {}

impl EditorState for DefaultState {

}

/// The state of an `Editor` that opens one given program, with given arguments.
#[derive(Debug)]
pub struct SpecificEditorState {
    args: Vec<String>,
    editor: String,
}

impl EditorState for SpecificEditorState {

}

impl SpecificEditorState {
    /// The program to run.
    pub closed spec fn program(&self) -> Seq<char> {
        self.editor@
    }

    /// What the program is handed after the buffer's path.
    pub closed spec fn arguments(&self) -> Seq<Seq<char>> {
        texts(self.args@)
    }
}

/// What the editor's buffer holds when it opens.
#[derive(Debug)]
pub enum Contents {
    /// Nothing.
    Empty,
    /// These bytes.
    FromString(Vec<u8>),
    /// A copy of what the file at this path holds.
    FromFile(String),
}

/// `Contents` with its bytes and its path as sequences.
pub enum Seed {
    Empty,
    Text(Seq<u8>),
    File(Seq<char>),
}

impl View for Contents {
    type V = Seed;

    open spec fn view(&self) -> Seed {
        match self {
            Contents::Empty => Seed::Empty,
            Contents::FromString(bytes) => Seed::Text(bytes@),
            Contents::FromFile(path) => Seed::File(path@),
        }
    }
}

impl Contents {
    /// What the source of these contents is called when copying them fails.
    pub fn source(&self) -> (name: String)
        ensures
            name@ == seed_source(self@),
    {
        match self {
            Contents::FromFile(path) => path.clone(),
            Contents::FromString(_) => String::from_str("[String]"),
            Contents::Empty => String::new(),
        }
    }
}

/// Configures an editing session: the extension of the scratch file,
/// whether the text is trimmed, and in state `S` which program is run.
#[derive(Debug)]
pub struct Editor<S: EditorState> {
    extension: String,
    trim: bool,
    state: S,
}

/// The editors that are tried where the environment names none that starts.
pub open spec fn default_editors(windows: bool) -> Seq<Seq<char>> {
    if windows {
        seq!["notepad.exe"@]
    } else {
        seq![
            "vim"@,
            "neovim"@,
            "nvim"@,
            "nano"@,
            "emacs"@,
            "mcedit"@,
            "tilde"@,
            "micro"@,
            "helix"@,
            "ne"@,
            "vi"@,
        ]
    }
}

/// A list of the one text, or of none.
pub open spec fn listed(text: Option<Seq<char>>) -> Seq<Seq<char>> {
    match text {
        Some(text) => seq![text],
        None => Seq::empty(),
    }
}

/// The editors to try on `host`, in order: what `VISUAL` names, what
/// `EDITOR` names, then the usual ones of the platform.
pub open spec fn editor_programs(host: HostView) -> Seq<Seq<char>> {
    listed(host.visual) + listed(host.editor) + default_editors(host.windows)
}

/// There is always an editor to try.
pub proof fn lemma_there_is_an_editor_to_try(host: HostView)
    ensures
        editor_programs(host).len() >= 1,
{
}

/// The plan of a session on a scratch file.
pub open spec fn scratch_plan(
    programs: Seq<Seq<char>>,
    fallback: bool,
    arguments: Seq<Seq<char>>,
    extension: Seq<char>,
    trim: bool,
    seed: Seed,
    host: HostView,
) -> Plan {
    Plan {
        programs,
        fallback,
        arguments,
        buffer: host.temp_file_path(extension),
        directory: host.temp_directory(),
        temporary: true,
        seed,
        trim,
    }
}

/// The plan of a session on the caller's file at `path`.
pub open spec fn direct_plan(
    programs: Seq<Seq<char>>,
    fallback: bool,
    arguments: Seq<Seq<char>>,
    trim: bool,
    path: Seq<char>,
) -> Plan {
    Plan {
        programs,
        fallback,
        arguments,
        buffer: path,
        directory: Seq::empty(),
        temporary: false,
        seed: Seed::Empty,
        trim,
    }
}

/// An editor that opens what the environment names, on a `.txt` scratch
/// file, and trims the text.
pub fn new() -> (editor: Editor<DefaultState>)
    ensures
        editor.extension() == DEFAULT_EXT@,
        editor.trims(),
{
    Editor { extension: String::from_str(DEFAULT_EXT), trim: true, state: DefaultState {  } }
}

impl<S: EditorState> Editor<S> {
    /// The extension of the scratch file.
    pub closed spec fn extension(&self) -> Seq<char> {
        self.extension@
    }

    /// Whether the whitespace around the text is stripped.
    pub closed spec fn trims(&self) -> bool {
        self.trim
    }

    /// What else is configured.
    pub closed spec fn state(&self) -> S {
        self.state
    }

    /// Sets whether the whitespace around the text is stripped.
    pub fn trim(&mut self, trim: bool) -> (editor: &mut Self)
        ensures
            editor.trims() == trim,
            editor.extension() == old(self).extension(),
            editor.state() == old(self).state(),
            *final(self) == *final(editor),
    {
        self.trim = trim;
        self
    }

    /// Plans a session on a new scratch file, which gets the name that is
    /// next on `host` and is filled with `contents` once it exists.
    fn create_buffer_file(
        &self,
        contents: Contents,
        host: &Host,
        programs: Vec<String>,
        fallback: bool,
        arguments: Vec<String>,
    ) -> (session: Session)
        ensures
            session@ == begin(
                scratch_plan(
                    texts(programs@),
                    fallback,
                    texts(arguments@),
                    self.extension(),
                    self.trims(),
                    contents@,
                    host@,
                ),
            ),
    {
        let directory = host.temp_directory();
        let buffer = host.temp_file_path(self.extension.as_str());
        Session::begin(programs, fallback, arguments, buffer, directory, true, contents, self.trim)
    }

    /// The editors to try on `host`, in order: what `VISUAL` names, what
    /// `EDITOR` names, then the usual ones of the platform.
    pub fn get_editor_programs(&self, host: &Host) -> (programs: Vec<String>)
        ensures
            texts(programs@) == editor_programs(host@),
    {
        let mut programs: Vec<String> = Vec::new();
        if let Some(program) = &host.visual {
            programs.push(program.clone());
        }
        if let Some(program) = &host.editor {
            programs.push(program.clone());
        }
        assert(texts(programs@) =~= listed(host@.visual) + listed(host@.editor));
        let ghost named = programs@;
        if host.windows {
            programs.push(String::from_str("notepad.exe"));
        } else {
            programs.push(String::from_str("vim"));
            programs.push(String::from_str("neovim"));
            programs.push(String::from_str("nvim"));
            programs.push(String::from_str("nano"));
            programs.push(String::from_str("emacs"));
            programs.push(String::from_str("mcedit"));
            programs.push(String::from_str("tilde"));
            programs.push(String::from_str("micro"));
            programs.push(String::from_str("helix"));
            programs.push(String::from_str("ne"));
            programs.push(String::from_str("vi"));
        }
        assert(texts(programs@) =~= texts(named) + default_editors(host.windows));
        programs
    }
}

impl Editor<DefaultState> {
    /// Sets the extension of the scratch file, by which many editors pick
    /// their syntax highlighting.
    pub fn ext(&mut self, ext: &str) -> (editor: &mut Self)
        ensures
            editor.extension() == ext@,
            editor.trims() == old(self).trims(),
            *final(self) == *final(editor),
    {
        self.extension = String::from_str(ext);
        self
    }

    /// Has `editor` opened instead of what the environment names. No other
    /// program is tried if it does not start.
    pub fn editor(self, editor: &str) -> (specific: Editor<SpecificEditorState>)
        ensures
            specific.extension() == self.extension(),
            specific.trims() == self.trims(),
            specific.program() == editor@,
            specific.arguments() == Seq::<Seq<char>>::empty(),
    {
        let specific = Editor {
            extension: self.extension,
            trim: self.trim,
            state: SpecificEditorState { editor: String::from_str(editor), args: Vec::new() },
        };
        assert(specific.arguments() =~= Seq::<Seq<char>>::empty());
        specific
    }

    /// Begins a session on a scratch file that holds `contents`, with the
    /// first editor that starts among those the environment of `host` names
    /// and the usual ones.
    pub fn open(&self, contents: Contents, host: &Host) -> (session: Session)
        ensures
            session@ == begin(
                scratch_plan(
                    editor_programs(host@),
                    true,
                    Seq::empty(),
                    self.extension(),
                    self.trims(),
                    contents@,
                    host@,
                ),
            ),
    {
        let programs = self.get_editor_programs(host);
        let arguments: Vec<String> = Vec::new();
        assert(texts(arguments@) =~= Seq::<Seq<char>>::empty());
        self.create_buffer_file(contents, host, programs, true, arguments)
    }

    /// Begins a session on the caller's own file at `path`, with the first
    /// editor that starts among those the environment of `host` names and
    /// the usual ones.
    pub fn edit(&self, path: &str, host: &Host) -> (session: Session)
        ensures
            session@ == begin(
                direct_plan(editor_programs(host@), true, Seq::empty(), self.trims(), path@),
            ),
    {
        let programs = self.get_editor_programs(host);
        let arguments: Vec<String> = Vec::new();
        assert(texts(arguments@) =~= Seq::<Seq<char>>::empty());
        Session::begin(
            programs,
            true,
            arguments,
            String::from_str(path),
            String::new(),
            false,
            Contents::Empty,
            self.trim,
        )
    }
}

impl Editor<SpecificEditorState> {
    /// The program to run.
    pub open spec fn program(&self) -> Seq<char> {
        self.state().program()
    }

    /// What the program is handed after the buffer's path.
    pub open spec fn arguments(&self) -> Seq<Seq<char>> {
        self.state().arguments()
    }

    /// Adds an argument for the editor. The buffer's path always comes
    /// first; these follow it in the order in which they were added.
    pub fn arg(&mut self, arg: &str) -> (editor: &mut Self)
        ensures
            editor.arguments() == old(self).arguments().push(arg@),
            editor.program() == old(self).program(),
            editor.extension() == old(self).extension(),
            editor.trims() == old(self).trims(),
            *final(self) == *final(editor),
    {
        self.state.args.push(String::from_str(arg));
        assert(self.arguments() =~= old(self).arguments().push(arg@));
        self
    }

    /// Sets the extension of the scratch file, by which many editors pick
    /// their syntax highlighting.
    pub fn ext(&mut self, ext: &str) -> (editor: &mut Self)
        ensures
            editor.extension() == ext@,
            editor.trims() == old(self).trims(),
            editor.program() == old(self).program(),
            editor.arguments() == old(self).arguments(),
            *final(self) == *final(editor),
    {
        self.extension = String::from_str(ext);
        self
    }

    fn programs(&self) -> (programs: Vec<String>)
        ensures
            texts(programs@) == seq![self.program()],
    {
        let mut programs: Vec<String> = Vec::new();
        programs.push(self.state.editor.clone());
        assert(texts(programs@) =~= seq![self.program()]);
        programs
    }

    fn args(&self) -> (arguments: Vec<String>)
        ensures
            texts(arguments@) == self.arguments(),
    {
        let mut arguments: Vec<String> = Vec::new();
        let mut at: usize = 0;
        while at < self.state.args.len()
            invariant
                at <= self.state.args.len(),
                arguments.len() == at,
                forall|k: int| 0 <= k < at ==> (#[trigger] arguments@[k])@ == self.state.args@[k]@,
            decreases self.state.args.len() - at,
        {
            arguments.push(self.state.args[at].clone());
            at = at + 1;
        }
        assert(texts(arguments@) =~= self.arguments());
        arguments
    }

    /// Begins a session on a scratch file that holds `contents`, with the
    /// configured program and no other.
    pub fn open(&self, contents: Contents, host: &Host) -> (session: Session)
        ensures
            session@ == begin(
                scratch_plan(
                    seq![self.program()],
                    false,
                    self.arguments(),
                    self.extension(),
                    self.trims(),
                    contents@,
                    host@,
                ),
            ),
    {
        let programs = self.programs();
        let arguments = self.args();
        self.create_buffer_file(contents, host, programs, false, arguments)
    }

    /// Begins a session on the caller's own file at `path`, with the
    /// configured program and no other.
    pub fn edit(&self, path: &str) -> (session: Session)
        ensures
            session@ == begin(
                direct_plan(
                    seq![self.program()],
                    false,
                    self.arguments(),
                    self.trims(),
                    path@,
                ),
            ),
    {
        Session::begin(
            self.programs(),
            false,
            self.args(),
            String::from_str(path),
            String::new(),
            false,
            Contents::Empty,
            self.trim,
        )
    }
}

/// Turns the bytes of the buffer at its path into the text that the session
/// returns.
#[derive(Debug)]
pub struct Reader {
    path: String,
    trim: bool,
}

impl Reader {
    /// The path of the buffer.
    pub closed spec fn path(&self) -> Seq<char> {
        self.path@
    }

    /// Whether the whitespace around the text is stripped.
    pub closed spec fn trims(&self) -> bool {
        self.trim
    }

    /// The reader of the buffer at `path`.
    pub fn new(path: String, trim: bool) -> (reader: Reader)
        ensures
            reader.path() == path@,
            reader.trims() == trim,
    {
        Reader { path, trim }
    }

    /// The path of the buffer, to read its bytes from.
    pub fn buffer(&self) -> (path: &String)
        ensures
            path@ == self.path(),
    {
        &self.path
    }

    /// The text in `bytes`, which are what the buffer held when the editor
    /// exited: decoded as UTF-8 and, where the reader trims, stripped of the
    /// whitespace around it. Bytes that are not UTF-8 are an error.
    pub fn to_string(&self, bytes: Vec<u8>) -> (text: Result<String, ScrawlError>)
        ensures
            outcome_view(text) == captured(bytes@, self.trims()),
    {
        match from_utf8(bytes) {
            Some(text) => {
                if self.trim {
                    Ok(trim(text.as_str()))
                } else {
                    Ok(text)
                }
            },
            None => Err(ScrawlError::FailedToCaptureInput),
        }
    }
}

} // verus!
