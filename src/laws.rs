//! Properties of a whole run, stated over the transition function.
use vstd::prelude::*;

use crate::messages::{FileFailureModel, INPUT_PATH, LISTED_DIR, LOREM_IPSUM, NOT_A_DIRECTORY, OUTPUT_PATH};
use crate::runner::{accepts, transition, EventModel, RequestModel, Stage};

verus! {

/// Once the input file has been read, its path, the words ` contains:`, a
/// line break and then the contents exactly are printed, and the run goes on
/// to write the output file.
pub proof fn lemma_input_contents_printed(contents: Seq<char>)
    ensures
        transition(Stage::ReadInput, EventModel::InputRead(Ok(contents))).0 == Stage::WriteOutput,
        transition(Stage::ReadInput, EventModel::InputRead(Ok(contents))).1.output
            == seq![INPUT_PATH@ + " contains:\n"@ + contents],
{
}

/// When the input file cannot be opened or read, the run ends at once with a
/// failure whose message holds the file's path, and accepts no further event.
pub proof fn lemma_unreadable_input_aborts(failure: FileFailureModel)
    ensures
        transition(Stage::ReadInput, EventModel::InputRead(Err(failure))).0 == Stage::Finished,
        transition(Stage::ReadInput, EventModel::InputRead(Err(failure))).1.request matches
            RequestModel::Abort { message } && exists|i: int|
            0 <= i && i + INPUT_PATH@.len() <= message.len() && #[trigger] message.subrange(
                i,
                i + INPUT_PATH@.len(),
            ) == INPUT_PATH@,
        forall|e: EventModel| !accepts(Stage::Finished, e),
{
    let message = transition(Stage::ReadInput, EventModel::InputRead(Err(failure))).1.request->message;
    let verb = match failure {
        FileFailureModel::Open(_) => "couldn't open "@,
        FileFailureModel::Transfer(_) => "couldn't read "@,
    };
    let i = verb.len() as int;
    assert(message.subrange(i, i + INPUT_PATH@.len()) =~= INPUT_PATH@);
}

/// The output file is asked to hold the fixed text and nothing else.
pub proof fn lemma_output_holds_fixed_text(contents: Seq<char>)
    ensures
        transition(Stage::ReadInput, EventModel::InputRead(Ok(contents))).1.request
            == (RequestModel::WriteFile { path: OUTPUT_PATH@, contents: LOREM_IPSUM@ }),
{
}

/// When the listed directory was read in full, each of its distinct entries
/// is printed exactly once, on a line of its own, before the line `Done`.
pub proof fn lemma_each_entry_listed_once(names: Seq<Seq<char>>, name: Seq<char>)
    requires
        names.no_duplicates(),
        names.contains(name),
    ensures
        ({
            let out = transition(
                Stage::ListEntries,
                EventModel::EntriesRead { names, failure: None },
            ).1.output;
            &&& out.len() == names.len() + 1
            &&& out.last() == "Done\n"@
            &&& exists|i: int| 0 <= i < names.len() && #[trigger] out[i] == name + "\n"@
            &&& forall|i: int, j: int|
                0 <= i < names.len() && 0 <= j < names.len() && #[trigger] out[i] == name + "\n"@
                    && #[trigger] out[j] == name + "\n"@ ==> i == j
        }),
{
    let out = transition(Stage::ListEntries, EventModel::EntriesRead { names, failure: None }).1.output;
    let k = names.index_of(name);
    assert(out[k] == name + "\n"@);
    assert forall|i: int, j: int|
        0 <= i < names.len() && 0 <= j < names.len() && #[trigger] out[i] == name + "\n"@
            && #[trigger] out[j] == name + "\n"@ implies i == j by {
        assert(out[i] == names[i] + "\n"@);
        assert(out[j] == names[j] + "\n"@);
        assert(names[i] =~= out[i].subrange(0, names[i].len() as int));
        assert(names[j] =~= out[j].subrange(0, names[j].len() as int));
        assert(names[i] =~= name);
        assert(names[j] =~= name);
    }
    assert(out.last() == "Done"@ + "\n"@);
    assert("Done"@ + "\n"@ =~= "Done\n"@) by {
        reveal_strlit("Done");
        reveal_strlit("\n");
        reveal_strlit("Done\n");
    }
}

/// When the listed path is not a directory, `Error: Is not a directory!` is
/// printed and the run goes on to its next operation.
pub proof fn lemma_not_a_directory_reported()
    ensures
        transition(Stage::CheckListing, EventModel::DirChecked(false)).0 == Stage::CheckSource,
        transition(Stage::CheckListing, EventModel::DirChecked(false)).1.output
            == seq!["Error: "@ + NOT_A_DIRECTORY@ + "\n"@],
        transition(Stage::CheckListing, EventModel::DirChecked(false)).1.request
            == (RequestModel::CheckDir { path: LISTED_DIR@ }),
{
}

/// The report on the listed path prints exactly the answer that the
/// directory check gave.
pub proof fn lemma_directory_flag_reported(is_dir: bool)
    ensures
        transition(Stage::CheckSource, EventModel::DirChecked(is_dir)).1.output == seq![
            LISTED_DIR@ + " exists: "@ + (if is_dir { "true"@ } else { "false"@ }) + "\n"@,
        ],
{
}

/// Whatever came of creating the nested directory, the run ends normally:
/// success is reported, and so is the cause of a failure.
pub proof fn lemma_nested_creation_never_fatal(outcome: Result<(), Seq<char>>)
    ensures
        transition(Stage::CreateNested, EventModel::NestedCreated(outcome)).0 == Stage::Finished,
        transition(Stage::CreateNested, EventModel::NestedCreated(outcome)).1.request
            == RequestModel::Exit,
        transition(Stage::CreateNested, EventModel::NestedCreated(outcome)).1.output == seq![
            match outcome {
                Ok(()) => "Successfully created directory\n"@,
                Err(cause) => "Error: "@ + cause + "\n"@,
            },
        ],
{
}

/// A run ends with a failure only when one of the two fixed files could not
/// be used; every other outcome lets it go on or end normally.
pub proof fn lemma_only_file_failures_abort(stage: Stage, event: EventModel)
    requires
        accepts(stage, event),
        transition(stage, event).1.request is Abort,
    ensures
        stage == Stage::ReadInput || stage == Stage::WriteOutput,
        event matches EventModel::InputRead(Err(_)) || event matches EventModel::OutputWritten(
            Err(_),
        ),
{
}

} // verus!
