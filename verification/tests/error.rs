use scrawl::error::ScrawlError;

#[test]
fn message_of_a_scratch_file_that_could_not_be_created() {
    let error = ScrawlError::FailedToCreateTempfile(String::from("/tmp/xvrqt_scrawl/a.txt"));
    assert_eq!(
        error.message(),
        "Could not create a temporary file to serve as a buffer for the editor. \
         Path: \"/tmp/xvrqt_scrawl/a.txt\" not writeable."
    );
}

#[test]
fn message_of_an_editor_that_failed() {
    let error = ScrawlError::FailedToOpenEditor(String::from("vim"));
    assert_eq!(
        error.message(),
        "Failed to open `vim` as a text editor or editor was terminated with errors."
    );
}

#[test]
fn message_of_text_that_could_not_be_captured() {
    assert_eq!(
        ScrawlError::FailedToCaptureInput.message(),
        "Failed to capture input. Was not a valid UTF-8 String."
    );
}

#[test]
fn message_of_a_seed_that_could_not_be_copied() {
    let error = ScrawlError::FailedToCopyToTempFile(String::from("notes.md"));
    assert_eq!(
        error.message(),
        "Failed to copy the contents of the `notes.md` to the buffer for editing."
    );
}

#[test]
fn message_of_no_editor() {
    assert_eq!(ScrawlError::EditorNotFound.message(), "Could not find a text editing program");
}

#[test]
fn message_with_an_empty_name() {
    assert_eq!(
        ScrawlError::FailedToOpenEditor(String::new()).message(),
        "Failed to open `` as a text editor or editor was terminated with errors."
    );
}

#[test]
fn errors_compare_by_kind_and_name() {
    assert_eq!(
        ScrawlError::FailedToOpenEditor(String::from("vi")),
        ScrawlError::FailedToOpenEditor(String::from("vi"))
    );
    assert_ne!(
        ScrawlError::FailedToOpenEditor(String::from("vi")),
        ScrawlError::FailedToOpenEditor(String::from("vim"))
    );
    assert_ne!(
        ScrawlError::FailedToOpenEditor(String::from("vi")),
        ScrawlError::FailedToCopyToTempFile(String::from("vi"))
    );
    assert_ne!(ScrawlError::EditorNotFound, ScrawlError::FailedToCaptureInput);
}
