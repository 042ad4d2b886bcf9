//! The three commands, and what each tells the user.

use vstd::prelude::*;
use crate::error::LabelsError;

verus! {

/// The name of the command that prints the labels of the repository.
pub const LIST_CMD: &'static str = "list";

/// The name of the command that updates the labels of the repository.
pub const UPDATE_CMD: &'static str = "update";

/// The name of the command that removes the labels of the repository.
pub const REMOVE_CMD: &'static str = "remove";

/// What the user asks for.
#[derive(Clone, Copy, Debug, PartialEq, Eq, Structural)]
pub enum Command {
    /// Print the labels of the repository.
    List,
    /// Replace the labels of the repository with the declared ones.
    Update,
    /// Remove every label of the repository.
    Remove,
}

impl Command {
    /// The command of a given name, if there is one.
    pub open spec fn named(name: Seq<char>) -> Option<Command> {
        if name == LIST_CMD@ {
            Some(Command::List)
        } else if name == UPDATE_CMD@ {
            Some(Command::Update)
        } else if name == REMOVE_CMD@ {
            Some(Command::Remove)
        } else {
            None
        }
    }

    /// What is shown while the command is at work on the repository `repo`.
    pub open spec fn progress_text(self, repo: Seq<char>) -> Seq<char> {
        match self {
            Command::List => "Getting labels from repo '"@ + repo + "'..."@,
            Command::Update => "Updating labels in repo '"@ + repo + "'"@,
            Command::Remove => "Removing all labels from repo '"@ + repo + "'"@,
        }
    }

    /// What is shown when the command has succeeded on the repository `repo`.
    pub open spec fn success_text(self, repo: Seq<char>) -> Seq<char> {
        match self {
            Command::List => "Labels in repo '"@ + repo + "':"@,
            Command::Update => "Successfully updated labels in repo '"@ + repo + "'"@,
            Command::Remove => "Successfully removed all labels in repo '"@ + repo + "'"@,
        }
    }

    /// The command that the user names: `list`, `update` or `remove`. Any
    /// other name is no command.
    pub fn from_name(name: &str) -> (command: Option<Command>)
        ensures
            command == Command::named(name@),
    {
        let name = String::from_str(name);
        if name == String::from_str(LIST_CMD) {
            Some(Command::List)
        } else if name == String::from_str(UPDATE_CMD) {
            Some(Command::Update)
        } else if name == String::from_str(REMOVE_CMD) {
            Some(Command::Remove)
        } else {
            None
        }
    }

    /// The message to show while the command is at work.
    pub fn progress(&self, repo: &str) -> (text: String)
        ensures
            text@ == self.progress_text(repo@),
    {
        match self {
            Command::List => String::from_str("Getting labels from repo '").concat(repo).concat(
                "'...",
            ),
            Command::Update => String::from_str("Updating labels in repo '").concat(repo).concat(
                "'",
            ),
            Command::Remove => String::from_str("Removing all labels from repo '").concat(
                repo,
            ).concat("'"),
        }
    }

    /// The message to show when the command has succeeded.
    pub fn success(&self, repo: &str) -> (text: String)
        ensures
            text@ == self.success_text(repo@),
    {
        match self {
            Command::List => String::from_str("Labels in repo '").concat(repo).concat("':"),
            Command::Update => String::from_str("Successfully updated labels in repo '").concat(
                repo,
            ).concat("'"),
            Command::Remove => String::from_str(
                "Successfully removed all labels in repo '",
            ).concat(repo).concat("'"),
        }
    }
}

/// The message to show when a command has failed.
pub fn failure(error: LabelsError) -> (text: String)
    ensures
        text@ == "Error: "@ + error.message_text(),
{
    String::from_str("Error: ").concat(error.message())
}

} // verus!
