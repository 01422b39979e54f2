//! What a session needs to know of the machine it runs on, as plain values
//! that the caller has read, and the scratch file names made from them.
use crate::naming::{
    decimal, join, joined, lemma_decimal_is_digits, lemma_decimal_is_injective,
    lemma_digits_field_splits, lemma_joined_keeps_names_apart, push_decimal, push_underscore,
};
use vstd::prelude::*;
use vstd::string::*;

verus! {

/// The directory, inside the system's temporary directory, that holds the scratch files.
pub const SCRAWL_TEMP_DIR: &'static str = "xvrqt_scrawl";

/// What the name of every scratch file begins with.
pub const TEMP_FILE_PREFIX: &'static str = "scrawl";

/// The facts of the running process that a session is planned from.
#[derive(Debug)]
pub struct Host {
    /// The system's directory for temporary files.
    pub temp_dir: String,
    /// The value of `VISUAL`, where it is set.
    pub visual: Option<String>,
    /// The value of `EDITOR`, where it is set.
    pub editor: Option<String>,
    /// Whether this is a Windows machine.
    pub windows: bool,
    /// The identifier of this process.
    pub process_id: u32,
    /// The time in seconds since the Unix epoch.
    pub timestamp: u64,
    /// How many scratch files this process has named before this one.
    pub counter: usize,
}

/// A `Host` with its texts as character sequences.
pub struct HostView {
    pub temp_dir: Seq<char>,
    pub visual: Option<Seq<char>>,
    pub editor: Option<Seq<char>>,
    pub windows: bool,
    pub process_id: nat,
    pub timestamp: nat,
    pub counter: nat,
}

/// The characters of a text that may be absent.
pub open spec fn option_text(text: Option<String>) -> Option<Seq<char>> {
    match text {
        Some(s) => Some(s@),
        None => None,
    }
}

impl View for Host {
    type V = HostView;

    open spec fn view(&self) -> HostView {
        HostView {
            temp_dir: self.temp_dir@,
            visual: option_text(self.visual),
            editor: option_text(self.editor),
            windows: self.windows,
            process_id: self.process_id as nat,
            timestamp: self.timestamp as nat,
            counter: self.counter as nat,
        }
    }
}

impl HostView {
    /// The directory that the scratch files are created in.
    pub open spec fn temp_directory(self) -> Seq<char> {
        joined(self.temp_dir, SCRAWL_TEMP_DIR@, self.windows)
    }

    /// The name of the next scratch file: the prefix, the process, the
    /// counter and the time, parted by underscores, then the extension.
    pub open spec fn temp_file_name(self, extension: Seq<char>) -> Seq<char> {
        TEMP_FILE_PREFIX@.push('_') + decimal(self.process_id).push('_') + decimal(
            self.counter,
        ).push('_') + decimal(self.timestamp) + extension
    }

    /// The path of the next scratch file.
    pub open spec fn temp_file_path(self, extension: Seq<char>) -> Seq<char> {
        joined(self.temp_directory(), self.temp_file_name(extension), self.windows)
    }
}

/// Every scratch file lies in the scratch directory, and that in the
/// system's temporary directory.
pub proof fn lemma_temp_file_lies_in_temp_dir(host: HostView, extension: Seq<char>)
    ensures
        host.temp_dir.is_prefix_of(host.temp_directory()),
        host.temp_directory().is_prefix_of(host.temp_file_path(extension)),
{
}

/// Scratch files named in one temporary directory by different processes,
/// or by one process at different counts, have different names, whenever
/// they were named and whatever their extensions.
pub proof fn lemma_temp_file_names_are_distinct(
    a: HostView,
    extension_a: Seq<char>,
    b: HostView,
    extension_b: Seq<char>,
)
    requires
        a.process_id != b.process_id || a.counter != b.counter,
    ensures
        a.temp_file_name(extension_a) != b.temp_file_name(extension_b),
{
    if a.temp_file_name(extension_a) == b.temp_file_name(extension_b) {
        let front = TEMP_FILE_PREFIX@.push('_');
        let tail_a = decimal(a.counter).push('_') + (decimal(a.timestamp) + extension_a);
        let tail_b = decimal(b.counter).push('_') + (decimal(b.timestamp) + extension_b);
        let rest_a = decimal(a.process_id).push('_') + tail_a;
        let rest_b = decimal(b.process_id).push('_') + tail_b;
        assert(a.temp_file_name(extension_a) =~= front + rest_a);
        assert(b.temp_file_name(extension_b) =~= front + rest_b);
        assert(rest_a =~= (front + rest_a).subrange(
            front.len() as int,
            (front + rest_a).len() as int,
        ));
        assert(rest_b =~= (front + rest_b).subrange(
            front.len() as int,
            (front + rest_b).len() as int,
        ));
        lemma_decimal_is_digits(a.process_id);
        lemma_decimal_is_digits(b.process_id);
        lemma_digits_field_splits(decimal(a.process_id), tail_a, decimal(b.process_id), tail_b);
        lemma_decimal_is_injective(a.process_id, b.process_id);
        lemma_decimal_is_digits(a.counter);
        lemma_decimal_is_digits(b.counter);
        lemma_digits_field_splits(
            decimal(a.counter),
            decimal(a.timestamp) + extension_a,
            decimal(b.counter),
            decimal(b.timestamp) + extension_b,
        );
        lemma_decimal_is_injective(a.counter, b.counter);
    }
}

/// Sessions that share a temporary directory never share a scratch file:
/// the paths differ as soon as the process or the counter does.
pub proof fn lemma_temp_file_paths_are_distinct(
    a: HostView,
    extension_a: Seq<char>,
    b: HostView,
    extension_b: Seq<char>,
)
    requires
        a.temp_dir == b.temp_dir,
        a.windows == b.windows,
        a.process_id != b.process_id || a.counter != b.counter,
    ensures
        a.temp_file_path(extension_a) != b.temp_file_path(extension_b),
{
    lemma_temp_file_names_are_distinct(a, extension_a, b, extension_b);
    if a.temp_file_path(extension_a) == b.temp_file_path(extension_b) {
        lemma_joined_keeps_names_apart(
            a.temp_directory(),
            a.temp_file_name(extension_a),
            b.temp_file_name(extension_b),
            a.windows,
        );
    }
}

impl Host {
    /// The directory that the scratch files are created in.
    pub fn temp_directory(&self) -> (path: String)
        ensures
            path@ == self@.temp_directory(),
    {
        join(self.temp_dir.as_str(), SCRAWL_TEMP_DIR, self.windows)
    }

    /// The name of the next scratch file.
    pub fn temp_file_name(&self, extension: &str) -> (name: String)
        ensures
            name@ == self@.temp_file_name(extension@),
    {
        let mut name = String::from_str(TEMP_FILE_PREFIX);
        push_underscore(&mut name);
        push_decimal(&mut name, self.process_id as u64);
        push_underscore(&mut name);
        push_decimal(&mut name, self.counter as u64);
        push_underscore(&mut name);
        push_decimal(&mut name, self.timestamp);
        name.append(extension);
        name
    }

    /// The path of the next scratch file.
    pub fn temp_file_path(&self, extension: &str) -> (path: String)
        ensures
            path@ == self@.temp_file_path(extension@),
    {
        let directory = self.temp_directory();
        let name = self.temp_file_name(extension);
        join(directory.as_str(), name.as_str(), self.windows)
    }
}

} // verus!
