//! The failures an editor session can end in.
use vstd::prelude::*;
use vstd::string::*;

verus! {

/// Why an editor session did not produce any text.
#[derive(Debug, PartialEq, Eq)]
pub enum ScrawlError {
    /// The scratch directory or the scratch file at this path could not be created.
    FailedToCreateTempfile(String),
    /// The named editor could not be started, or it quit with an error.
    FailedToOpenEditor(String),
    /// The buffer could not be read back, or what it held was not valid UTF-8.
    FailedToCaptureInput,
    /// The scratch file could not be filled from the named source.
    FailedToCopyToTempFile(String),
    /// None of the editors that were tried could be started.
    EditorNotFound,
}

/// A `ScrawlError` with its texts as character sequences.
pub enum ScrawlErrorView {
    FailedToCreateTempfile(Seq<char>),
    FailedToOpenEditor(Seq<char>),
    FailedToCaptureInput,
    FailedToCopyToTempFile(Seq<char>),
    EditorNotFound,
}

impl View for ScrawlError {
    type V = ScrawlErrorView;

    open spec fn view(&self) -> ScrawlErrorView {
        match self {
            ScrawlError::FailedToCreateTempfile(path) => ScrawlErrorView::FailedToCreateTempfile(
                path@,
            ),
            ScrawlError::FailedToOpenEditor(program) => ScrawlErrorView::FailedToOpenEditor(
                program@,
            ),
            ScrawlError::FailedToCaptureInput => ScrawlErrorView::FailedToCaptureInput,
            ScrawlError::FailedToCopyToTempFile(source) => ScrawlErrorView::FailedToCopyToTempFile(
                source@,
            ),
            ScrawlError::EditorNotFound => ScrawlErrorView::EditorNotFound,
        }
    }
}

impl ScrawlErrorView {
    /// The sentence that describes the failure to a person.
    pub open spec fn message(self) -> Seq<char> {
        match self {
            ScrawlErrorView::FailedToCreateTempfile(path) => {
                "Could not create a temporary file to serve as a buffer for the editor. Path: \""@
                    + path + "\" not writeable."@
            },
            ScrawlErrorView::FailedToOpenEditor(program) => {
                "Failed to open `"@ + program
                    + "` as a text editor or editor was terminated with errors."@
            },
            ScrawlErrorView::FailedToCaptureInput => {
                "Failed to capture input. Was not a valid UTF-8 String."@
            },
            ScrawlErrorView::FailedToCopyToTempFile(source) => {
                "Failed to copy the contents of the `"@ + source + "` to the buffer for editing."@
            },
            ScrawlErrorView::EditorNotFound => "Could not find a text editing program"@,
        }
    }
}

impl ScrawlError {
    /// Describes the failure in one sentence, naming the path, program or source it is about.
    pub fn message(&self) -> (text: String)
        ensures
            text@ == self@.message(),
    {
        match self {
            ScrawlError::FailedToCreateTempfile(path) => {
                let mut text = String::from_str(
                    "Could not create a temporary file to serve as a buffer for the editor. Path: \"",
                );
                text.append(path.as_str());
                text.append("\" not writeable.");
                text
            },
            ScrawlError::FailedToOpenEditor(program) => {
                let mut text = String::from_str("Failed to open `");
                text.append(program.as_str());
                text.append("` as a text editor or editor was terminated with errors.");
                text
            },
            ScrawlError::FailedToCaptureInput => String::from_str(
                "Failed to capture input. Was not a valid UTF-8 String.",
            ),
            ScrawlError::FailedToCopyToTempFile(source) => {
                let mut text = String::from_str("Failed to copy the contents of the `");
                text.append(source.as_str());
                text.append("` to the buffer for editing.");
                text
            },
            ScrawlError::EditorNotFound => String::from_str(
                "Could not find a text editing program",
            ),
        }
    }
}

} // verus!
