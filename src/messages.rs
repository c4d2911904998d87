use vstd::prelude::*;

verus! {

/// The file whose contents are read and printed.
pub const INPUT_PATH: &'static str = "hello.txt";

/// The file that receives the fixed text.
pub const OUTPUT_PATH: &'static str = "out/lorem_ipsum.txt";

/// The directory whose entries are listed, and whose presence is reported.
pub const LISTED_DIR: &'static str = "src";

/// The nested directory that is created.
pub const NESTED_DIR: &'static str = "some/two/four";

/// Every directory above `NESTED_DIR`, created first.
pub const NESTED_PARENT: &'static str = "some/two";

/// The reason given when the listed path is not a directory.
pub const NOT_A_DIRECTORY: &'static str = "Is not a directory!";

/// The text written to `OUTPUT_PATH`, byte for byte.
pub const LOREM_IPSUM: &'static str = "Lorem ipsum dolor sit amet, consectetur adipisicing elit, sed do eiusmod
    tempor incididunt ut labore et dolore magna aliqua. Ut enim ad minim veniam,
    quis nostrud exercitation ullamco laboris nisi ut aliquip ex ea commodo
    consequat. Duis aute irure dolor in reprehenderit in voluptate velit esse
    cillum dolore eu fugiat nulla pariatur. Excepteur sint occaecat cupidatat non
    proident, sunt in culpa qui officia deserunt mollit anim id est laborum.
    ";

/// How an operation on one of the two fixed files failed, with the cause
/// that the operating system gave.
#[derive(Debug)]
pub enum FileFailure {
    /// The file could not be opened (for reading) or created (for writing).
    Open(String),
    /// The file was opened but its contents could not be read or written.
    Transfer(String),
}

/// The abstract value of a `FileFailure`.
pub ghost enum FileFailureModel {
    Open(Seq<char>),
    Transfer(Seq<char>),
}

impl View for FileFailure {
    type V = FileFailureModel;

    open spec fn view(&self) -> FileFailureModel {
        match self {
            FileFailure::Open(c) => FileFailureModel::Open(c@),
            FileFailure::Transfer(c) => FileFailureModel::Transfer(c@),
        }
    }
}

/// What is printed after the input file was read.
pub open spec fn contents_text(path: Seq<char>, contents: Seq<char>) -> Seq<char> {
    path + " contains:\n"@ + contents
}

/// What is printed after the output file was written.
pub open spec fn written_text(path: Seq<char>) -> Seq<char> {
    "successfully wrote to "@ + path + "\n"@
}

/// The message that ends the run when a fixed file could not be used;
/// `writing` tells the output file from the input file.
pub open spec fn fatal_text(writing: bool, path: Seq<char>, failure: FileFailureModel) -> Seq<char> {
    let (verb, cause) = match failure {
        FileFailureModel::Open(c) => (if writing { "couldn't create "@ } else { "couldn't open "@ }, c),
        FileFailureModel::Transfer(c) => (if writing { "couldn't write to "@ } else { "couldn't read "@ }, c),
    };
    verb + path + ": "@ + cause
}

/// One listed entry, on a line of its own.
pub open spec fn entry_text(name: Seq<char>) -> Seq<char> {
    name + "\n"@
}

/// A recoverable failure, reported on a line of its own.
pub open spec fn error_text(cause: Seq<char>) -> Seq<char> {
    "Error: "@ + cause + "\n"@
}

/// The line that reports whether the listed directory is present.
pub open spec fn flag_text(path: Seq<char>, is_dir: bool) -> Seq<char> {
    path + " exists: "@ + (if is_dir { "true"@ } else { "false"@ }) + "\n"@
}

/// The line printed once the nested directory was made.
pub open spec fn created_text() -> Seq<char> {
    "Successfully created directory\n"@
}

/// Builds `contents_text(path, contents)`.
pub fn file_contents_report(path: &str, contents: &str) -> (r: String)
    ensures
        r@ == contents_text(path@, contents@),
{
    let mut r = String::from_str(path);
    r.append(" contains:\n");
    r.append(contents);
    r
}

/// Builds `written_text(path)`.
pub fn write_report(path: &str) -> (r: String)
    ensures
        r@ == written_text(path@),
{
    let mut r = String::from_str("successfully wrote to ");
    r.append(path);
    r.append("\n");
    r
}

/// Builds `fatal_text(writing, path, failure@)`.
pub fn fatal_message(writing: bool, path: &str, failure: &FileFailure) -> (r: String)
    ensures
        r@ == fatal_text(writing, path@, failure@),
{
    let (verb, cause) = match failure {
        FileFailure::Open(c) => (if writing { "couldn't create " } else { "couldn't open " }, c),
        FileFailure::Transfer(c) => (if writing { "couldn't write to " } else { "couldn't read " }, c),
    };
    let mut r = String::from_str(verb);
    r.append(path);
    r.append(": ");
    r.append(cause.as_str());
    r
}

/// Builds `entry_text(name)`.
pub fn entry_line(name: &str) -> (r: String)
    ensures
        r@ == entry_text(name@),
{
    let mut r = String::from_str(name);
    r.append("\n");
    r
}

/// Builds `error_text(cause)`.
pub fn listing_failure_report(cause: &str) -> (r: String)
    ensures
        r@ == error_text(cause@),
{
    let mut r = String::from_str("Error: ");
    r.append(cause);
    r.append("\n");
    r
}

/// Builds `flag_text(path, is_dir)`.
pub fn directory_flag_report(path: &str, is_dir: bool) -> (r: String)
    ensures
        r@ == flag_text(path@, is_dir),
{
    let mut r = String::from_str(path);
    r.append(" exists: ");
    r.append(if is_dir { "true" } else { "false" });
    r.append("\n");
    r
}

/// What is printed after trying to make the nested directory: the success
/// line, or the cause of the failure.
pub fn creation_report(outcome: &Result<(), String>) -> (r: String)
    ensures
        r@ == match outcome {
            Ok(()) => created_text(),
            Err(cause) => error_text(cause@),
        },
{
    match outcome {
        Ok(()) => String::from_str("Successfully created directory\n"),
        Err(cause) => listing_failure_report(cause.as_str()),
    }
}

} // verus!
