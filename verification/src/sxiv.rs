//! The picker: how `sxiv` is invoked and how its answer is read.

use crate::command::{Command, CommandView};
use crate::text::{find_from, first_index_of};
use vstd::prelude::*;
use vstd::string::*;

verus! {

/// Why the picker gave no selection.
#[derive(Clone, Copy, Debug, PartialEq, Eq, Structural)]
pub enum PickerError {
    /// The picker could not be run.
    ExecutionFailed,
    /// What the picker printed is not valid UTF-8.
    InvalidOutput,
    /// The user selected nothing.
    NoSelection,
}

impl PickerError {
    /// The message of the error.
    pub open spec fn message_of(self) -> Seq<char> {
        match self {
            PickerError::ExecutionFailed => "Failed to execute sxiv"@,
            PickerError::InvalidOutput => "sxiv output is not valid utf8"@,
            PickerError::NoSelection => "No wallpaper selected."@,
        }
    }

    /// The message of the error.
    pub fn message(&self) -> (r: String)
        ensures
            r@ == self.message_of(),
    {
        match self {
            PickerError::ExecutionFailed => "Failed to execute sxiv".to_owned(),
            PickerError::InvalidOutput => "sxiv output is not valid utf8".to_owned(),
            PickerError::NoSelection => "No wallpaper selected.".to_owned(),
        }
    }
}

/// The invocation of the picker that shows the files of the directory
/// `path` as thumbnails and prints the marked ones, one to a line.
pub open spec fn ask_user_input_of(path: Seq<char>) -> CommandView {
    CommandView { program: "sxiv"@, args: seq!["-t"@, "-o"@, path] }
}

/// The invocation of the picker over the directory `path`.
pub fn ask_user_input(path: &str) -> (r: Command)
    ensures
        r@ == ask_user_input_of(path@),
{
    let r = Command::new("sxiv").arg("-t").arg("-o").arg(path);
    assert(r@.args =~= ask_user_input_of(path@).args);
    r
}

/// The first line of `output`: what stands before its first line feed.
pub open spec fn first_line_of(output: Seq<char>) -> Seq<char> {
    output.take(first_index_of(output, '\n'))
}

/// The one selection that the picker's output states: its first line,
/// unless that is empty.
pub open spec fn single_selection_of(output: Seq<char>) -> Result<Seq<char>, PickerError> {
    if first_line_of(output).len() == 0 {
        Err(PickerError::NoSelection)
    } else {
        Ok(first_line_of(output))
    }
}

/// The view of a selection.
pub open spec fn selection_view(r: Result<String, PickerError>) -> Result<Seq<char>, PickerError> {
    match r {
        Ok(path) => Ok(path@),
        Err(error) => Err(error),
    }
}

/// Reads the path of the selected file from what the picker printed. An
/// empty selection is an error, `NoSelection`.
pub fn ask_user_input_single(output: &str) -> (r: Result<String, PickerError>)
    ensures
        selection_view(r) == single_selection_of(output@),
{
    let end = find_from(output, 0, '\n');
    proof {
        assert(output@.skip(0) =~= output@);
        assert(output@.subrange(0, end as int) =~= first_line_of(output@));
    }
    if end == 0 {
        Err(PickerError::NoSelection)
    } else {
        Ok(output.substring_char(0, end).to_owned())
    }
}

} // verus!
