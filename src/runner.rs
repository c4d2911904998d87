use vstd::prelude::*;

use crate::messages::{
    contents_text, created_text, entry_line, entry_text, error_text, fatal_message, fatal_text,
    file_contents_report, flag_text, listing_failure_report, creation_report,
    directory_flag_report, write_report, written_text, FileFailure, FileFailureModel, INPUT_PATH,
    LISTED_DIR, LOREM_IPSUM, NESTED_DIR, NESTED_PARENT, NOT_A_DIRECTORY, OUTPUT_PATH,
};

verus! {

/// Where a run stands: the operation whose outcome is awaited next.
#[derive(Clone, Copy, Debug, PartialEq, Eq, Structural)]
pub enum Stage {
    /// Nothing has been asked for yet.
    Start,
    /// The input file is being read.
    ReadInput,
    /// The fixed text is being written to the output file.
    WriteOutput,
    /// It is being checked whether the listed path is a directory.
    CheckListing,
    /// The entries of the listed directory are being read.
    ListEntries,
    /// It is being checked, for the report, whether the listed path is a directory.
    CheckSource,
    /// The directories above the nested directory are being created.
    CreateParents,
    /// The nested directory itself is being created.
    CreateNested,
    /// The run is over; nothing more is asked for.
    Finished,
}

/// The outcome of the operation last asked for, handed back by the caller.
#[derive(Debug)]
pub enum Event {
    /// The run begins.
    Started,
    /// The input file's contents, or how reading it failed.
    InputRead(Result<String, FileFailure>),
    /// Whether the output file was written.
    OutputWritten(Result<(), FileFailure>),
    /// Whether the path last checked exists and is a directory.
    DirChecked(bool),
    /// The base names of the entries read, in the order the filesystem gave
    /// them, and the cause of a failure that stopped the reading, if any.
    EntriesRead { names: Vec<String>, failure: Option<String> },
    /// Whether the parent directories were created, or why not.
    ParentsCreated(Result<(), String>),
    /// Whether the nested directory was created, or why not.
    NestedCreated(Result<(), String>),
}

/// The abstract value of an `Event`.
pub ghost enum EventModel {
    Started,
    InputRead(Result<Seq<char>, FileFailureModel>),
    OutputWritten(Result<(), FileFailureModel>),
    DirChecked(bool),
    EntriesRead { names: Seq<Seq<char>>, failure: Option<Seq<char>> },
    ParentsCreated(Result<(), Seq<char>>),
    NestedCreated(Result<(), Seq<char>>),
}

/// The views of a sequence of strings.
pub open spec fn views(v: Seq<String>) -> Seq<Seq<char>> {
    v.map_values(|s: String| s@)
}

impl View for Event {
    type V = EventModel;

    open spec fn view(&self) -> EventModel {
        match self {
            Event::Started => EventModel::Started,
            Event::InputRead(r) => EventModel::InputRead(
                match r {
                    Ok(c) => Ok(c@),
                    Err(f) => Err(f@),
                },
            ),
            Event::OutputWritten(r) => EventModel::OutputWritten(
                match r {
                    Ok(()) => Ok(()),
                    Err(f) => Err(f@),
                },
            ),
            Event::DirChecked(b) => EventModel::DirChecked(*b),
            Event::EntriesRead { names, failure } => EventModel::EntriesRead {
                names: views(names@),
                failure: match failure {
                    Some(c) => Some(c@),
                    None => None,
                },
            },
            Event::ParentsCreated(r) => EventModel::ParentsCreated(
                match r {
                    Ok(()) => Ok(()),
                    Err(c) => Err(c@),
                },
            ),
            Event::NestedCreated(r) => EventModel::NestedCreated(
                match r {
                    Ok(()) => Ok(()),
                    Err(c) => Err(c@),
                },
            ),
        }
    }
}

/// The operation that the caller is to perform next.
#[derive(Debug)]
pub enum Request {
    /// Read the whole file at `path` as text.
    ReadFile { path: String },
    /// Create or truncate the file at `path` and write `contents` to it.
    WriteFile { path: String, contents: String },
    /// Tell whether `path` exists and is a directory.
    CheckDir { path: String },
    /// Read the base names of the entries of the directory `path`.
    ReadDir { path: String },
    /// Create the directory `path` together with any missing parents.
    CreateDirAll { path: String },
    /// Create the single directory `path`.
    CreateDir { path: String },
    /// End the run at once with a failure, reporting `message`.
    Abort { message: String },
    /// End the run normally.
    Exit,
}

/// The abstract value of a `Request`.
pub ghost enum RequestModel {
    ReadFile { path: Seq<char> },
    WriteFile { path: Seq<char>, contents: Seq<char> },
    CheckDir { path: Seq<char> },
    ReadDir { path: Seq<char> },
    CreateDirAll { path: Seq<char> },
    CreateDir { path: Seq<char> },
    Abort { message: Seq<char> },
    Exit,
}

impl View for Request {
    type V = RequestModel;

    open spec fn view(&self) -> RequestModel {
        match self {
            Request::ReadFile { path } => RequestModel::ReadFile { path: path@ },
            Request::WriteFile { path, contents } => RequestModel::WriteFile {
                path: path@,
                contents: contents@,
            },
            Request::CheckDir { path } => RequestModel::CheckDir { path: path@ },
            Request::ReadDir { path } => RequestModel::ReadDir { path: path@ },
            Request::CreateDirAll { path } => RequestModel::CreateDirAll { path: path@ },
            Request::CreateDir { path } => RequestModel::CreateDir { path: path@ },
            Request::Abort { message } => RequestModel::Abort { message: message@ },
            Request::Exit => RequestModel::Exit,
        }
    }
}

/// What one step of a run hands the caller: text to print to standard
/// output, piece by piece and verbatim, and then the operation to perform.
#[derive(Debug)]
pub struct Action {
    pub output: Vec<String>,
    pub request: Request,
}

/// The abstract value of an `Action`.
pub ghost struct ActionModel {
    pub output: Seq<Seq<char>>,
    pub request: RequestModel,
}

impl View for Action {
    type V = ActionModel;

    open spec fn view(&self) -> ActionModel {
        ActionModel { output: views(self.output@), request: self.request@ }
    }
}

/// Whether `event` is the outcome that a run at `stage` waits for.
pub open spec fn accepts(stage: Stage, event: EventModel) -> bool {
    match (stage, event) {
        (Stage::Start, EventModel::Started) => true,
        (Stage::ReadInput, EventModel::InputRead(_)) => true,
        (Stage::WriteOutput, EventModel::OutputWritten(_)) => true,
        (Stage::CheckListing, EventModel::DirChecked(_)) => true,
        (Stage::ListEntries, EventModel::EntriesRead { .. }) => true,
        (Stage::CheckSource, EventModel::DirChecked(_)) => true,
        (Stage::CreateParents, EventModel::ParentsCreated(_)) => true,
        (Stage::CreateNested, EventModel::NestedCreated(_)) => true,
        _ => false,
    }
}

/// The lines printed for a directory listing: each entry on a line of its
/// own, then `Done`, or the cause of the failure that stopped the reading.
pub open spec fn listing_output(names: Seq<Seq<char>>, failure: Option<Seq<char>>) -> Seq<Seq<char>> {
    names.map_values(|n: Seq<char>| entry_text(n)).push(
        match failure {
            None => entry_text("Done"@),
            Some(c) => error_text(c),
        },
    )
}

/// One step of a run: the stage that follows `stage` once `event` has come,
/// and what the caller is told to print and to do.
pub open spec fn transition(stage: Stage, event: EventModel) -> (Stage, ActionModel)
    recommends
        accepts(stage, event),
{
    match event {
        EventModel::InputRead(Ok(contents)) => (
            Stage::WriteOutput,
            ActionModel {
                output: seq![contents_text(INPUT_PATH@, contents)],
                request: RequestModel::WriteFile { path: OUTPUT_PATH@, contents: LOREM_IPSUM@ },
            },
        ),
        EventModel::InputRead(Err(f)) => (
            Stage::Finished,
            ActionModel {
                output: seq![],
                request: RequestModel::Abort { message: fatal_text(false, INPUT_PATH@, f) },
            },
        ),
        EventModel::OutputWritten(Ok(())) => (
            Stage::CheckListing,
            ActionModel {
                output: seq![written_text(OUTPUT_PATH@)],
                request: RequestModel::CheckDir { path: LISTED_DIR@ },
            },
        ),
        EventModel::OutputWritten(Err(f)) => (
            Stage::Finished,
            ActionModel {
                output: seq![],
                request: RequestModel::Abort { message: fatal_text(true, OUTPUT_PATH@, f) },
            },
        ),
        EventModel::DirChecked(is_dir) => if stage == Stage::CheckListing {
            if is_dir {
                (
                    Stage::ListEntries,
                    ActionModel { output: seq![], request: RequestModel::ReadDir { path: LISTED_DIR@ } },
                )
            } else {
                (
                    Stage::CheckSource,
                    ActionModel {
                        output: seq![error_text(NOT_A_DIRECTORY@)],
                        request: RequestModel::CheckDir { path: LISTED_DIR@ },
                    },
                )
            }
        } else {
            (
                Stage::CreateParents,
                ActionModel {
                    output: seq![flag_text(LISTED_DIR@, is_dir)],
                    request: RequestModel::CreateDirAll { path: NESTED_PARENT@ },
                },
            )
        },
        EventModel::EntriesRead { names, failure } => (
            Stage::CheckSource,
            ActionModel {
                output: listing_output(names, failure),
                request: RequestModel::CheckDir { path: LISTED_DIR@ },
            },
        ),
        EventModel::ParentsCreated(Ok(())) => (
            Stage::CreateNested,
            ActionModel { output: seq![], request: RequestModel::CreateDir { path: NESTED_DIR@ } },
        ),
        EventModel::ParentsCreated(Err(c)) => (
            Stage::Finished,
            ActionModel { output: seq![error_text(c)], request: RequestModel::Exit },
        ),
        EventModel::NestedCreated(Ok(())) => (
            Stage::Finished,
            ActionModel { output: seq![created_text()], request: RequestModel::Exit },
        ),
        EventModel::NestedCreated(Err(c)) => (
            Stage::Finished,
            ActionModel { output: seq![error_text(c)], request: RequestModel::Exit },
        ),
        EventModel::Started => (
            Stage::ReadInput,
            ActionModel { output: seq![], request: RequestModel::ReadFile { path: INPUT_PATH@ } },
        ),
    }
}

/// The lines of a directory listing, built from what was read.
fn listing_lines(names: &Vec<String>, failure: &Option<String>) -> (r: Vec<String>)
    ensures
        views(r@) == listing_output(
            views(names@),
            match failure {
                Some(c) => Some(c@),
                None => None,
            },
        ),
{
    let mut out: Vec<String> = Vec::new();
    let mut i: usize = 0;
    while i < names.len()
        invariant
            i <= names.len(),
            out@.len() == i,
            forall|k: int| 0 <= k < i ==> #[trigger] out@[k]@ == entry_text(names@[k]@),
        decreases names.len() - i,
    {
        out.push(entry_line(names[i].as_str()));
        i = i + 1;
    }
    let last = match failure {
        None => entry_line("Done"),
        Some(c) => listing_failure_report(c.as_str()),
    };
    out.push(last);
    let ghost fm = match failure {
        Some(c) => Some(c@),
        None => None,
    };
    assert(views(out@) =~= listing_output(views(names@), fm));
    out
}

/// A run of the program, one operation at a time.
pub struct Runner {
    stage: Stage,
}

impl View for Runner {
    type V = Stage;

    closed spec fn view(&self) -> Stage {
        self.stage
    }
}

impl Runner {
    /// A run that has not begun; it waits for `Event::Started`.
    pub fn new() -> (r: Runner)
        ensures
            r@ == Stage::Start,
    {
        Runner { stage: Stage::Start }
    }

    /// Where the run stands.
    pub fn stage(&self) -> (r: Stage)
        ensures
            r == self@,
    {
        self.stage
    }

    /// Whether the run is over.
    pub fn is_finished(&self) -> (r: bool)
        ensures
            r == (self@ == Stage::Finished),
    {
        self.stage == Stage::Finished
    }

    /// Whether `event` is the outcome that the run waits for now.
    pub fn expects(&self, event: &Event) -> (r: bool)
        ensures
            r == accepts(self@, event@),
    {
        match (self.stage, event) {
            (Stage::Start, Event::Started) => true,
            (Stage::ReadInput, Event::InputRead(_)) => true,
            (Stage::WriteOutput, Event::OutputWritten(_)) => true,
            (Stage::CheckListing, Event::DirChecked(_)) => true,
            (Stage::ListEntries, Event::EntriesRead { .. }) => true,
            (Stage::CheckSource, Event::DirChecked(_)) => true,
            (Stage::CreateParents, Event::ParentsCreated(_)) => true,
            (Stage::CreateNested, Event::NestedCreated(_)) => true,
            _ => false,
        }
    }

    /// Takes the outcome of the last operation and says what to print and
    /// what to do next.
    pub fn step(&mut self, event: Event) -> (r: Action)
        requires
            accepts(old(self)@, event@),
        ensures
            (final(self)@, r@) == transition(old(self)@, event@),
    {
        let (next, output, request) = match event {
            Event::Started => (
                Stage::ReadInput,
                Vec::new(),
                Request::ReadFile { path: String::from_str(INPUT_PATH) },
            ),
            Event::InputRead(Ok(contents)) => (
                Stage::WriteOutput,
                vec![file_contents_report(INPUT_PATH, contents.as_str())],
                Request::WriteFile {
                    path: String::from_str(OUTPUT_PATH),
                    contents: String::from_str(LOREM_IPSUM),
                },
            ),
            Event::InputRead(Err(f)) => (
                Stage::Finished,
                Vec::new(),
                Request::Abort { message: fatal_message(false, INPUT_PATH, &f) },
            ),
            Event::OutputWritten(Ok(())) => (
                Stage::CheckListing,
                vec![write_report(OUTPUT_PATH)],
                Request::CheckDir { path: String::from_str(LISTED_DIR) },
            ),
            Event::OutputWritten(Err(f)) => (
                Stage::Finished,
                Vec::new(),
                Request::Abort { message: fatal_message(true, OUTPUT_PATH, &f) },
            ),
            Event::DirChecked(is_dir) => if self.stage == Stage::CheckSource {
                (
                    Stage::CreateParents,
                    vec![directory_flag_report(LISTED_DIR, is_dir)],
                    Request::CreateDirAll { path: String::from_str(NESTED_PARENT) },
                )
            } else {
                if is_dir {
                    (
                        Stage::ListEntries,
                        Vec::new(),
                        Request::ReadDir { path: String::from_str(LISTED_DIR) },
                    )
                } else {
                    (
                        Stage::CheckSource,
                        vec![listing_failure_report(NOT_A_DIRECTORY)],
                        Request::CheckDir { path: String::from_str(LISTED_DIR) },
                    )
                }
            },
            Event::EntriesRead { names, failure } => (
                Stage::CheckSource,
                listing_lines(&names, &failure),
                Request::CheckDir { path: String::from_str(LISTED_DIR) },
            ),
            Event::ParentsCreated(Ok(())) => (
                Stage::CreateNested,
                Vec::new(),
                Request::CreateDir { path: String::from_str(NESTED_DIR) },
            ),
            Event::ParentsCreated(Err(cause)) => (
                Stage::Finished,
                vec![listing_failure_report(cause.as_str())],
                Request::Exit,
            ),
            Event::NestedCreated(outcome) => (
                Stage::Finished,
                vec![creation_report(&outcome)],
                Request::Exit,
            ),
        };
        self.stage = next;
        let r = Action { output, request };
        assert(r@.output =~= transition(old(self)@, event@).1.output);
        r
    }
}

} // verus!
