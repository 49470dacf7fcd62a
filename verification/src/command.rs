//! The command a front end invokes: its name, what it asks the embedding
//! program to do, and what it answers.

use vstd::prelude::*;
use crate::failure::CopyFailure;
use crate::options::{merge_copy, CopyOptions};

verus! {

/// The commands a front end can invoke by name.
#[derive(Clone, Copy, Debug, PartialEq, Eq, Structural)]
pub enum Command {
    /// Copy the contents of one directory into another.
    CopyDirectory,
}

/// The name under which a command is invoked.
pub open spec fn name_of(command: Command) -> Seq<char> {
    match command {
        Command::CopyDirectory => "copy_directory"@,
    }
}

/// The command that is invoked under a name, if there is one.
pub open spec fn command_of(name: Seq<char>) -> Option<Command> {
    if name == name_of(Command::CopyDirectory) {
        Some(Command::CopyDirectory)
    } else {
        None
    }
}

/// Every command is found under its own name, and under no name but its own.
pub proof fn found_under_own_name_only(command: Command, name: Seq<char>)
    ensures
        command_of(name) == Some(command) <==> name == name_of(command),
{
}

impl Command {
    /// The name under which this command is invoked.
    pub fn name(&self) -> (name: &'static str)
        ensures
            name@ == name_of(*self),
    {
        match self {
            Command::CopyDirectory => "copy_directory",
        }
    }

    /// The command invoked under `name`, if there is one.
    pub fn named(name: &str) -> (found: Option<Command>)
        ensures
            found == command_of(name@),
    {
        if name.to_owned() == "copy_directory".to_owned() {
            Some(Command::CopyDirectory)
        } else {
            None
        }
    }
}

/// One copy for the embedding program to carry out.
#[derive(Debug, PartialEq, Eq)]
pub struct CopyTask {
    /// The directory whose contents are copied.
    pub source: String,
    /// The directory that receives them.
    pub destination: String,
    /// The options the copy runs with.
    pub options: CopyOptions,
}

/// The copy that the command asks for.
///
/// Neither path is looked at: whatever is wrong with one of them shows when
/// the copy is tried, and is reported by `reply`.
pub fn prepare(source: String, destination: String) -> (task: CopyTask)
    ensures
        task.source@ == source@,
        task.destination@ == destination@,
        task.options == merge_copy(),
{
    CopyTask { source, destination, options: CopyOptions::merging() }
}

/// What the command answers, given how the copy ended.
///
/// A copy that ran through answers with nothing, however many bytes it moved.
/// A copy that stopped answers with the description of its failure, unchanged.
pub fn reply(outcome: Result<u64, CopyFailure>) -> (answer: Result<(), String>)
    ensures
        match outcome {
            Ok(_) => answer == Ok::<(), String>(()),
            Err(failure) => answer matches Err(text) && text@ == failure.message@,
        },
{
    match outcome {
        Ok(_) => Ok(()),
        Err(failure) => Err(failure.into_text()),
    }
}

} // verus!
