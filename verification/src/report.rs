//! The lines that tell the user how an operation on the store went, and on
//! which channel each belongs.

use crate::todo_core::{line_of, Task};
use vstd::prelude::*;
use vstd::string::*;

verus! {

/// An operation that reaches the store.
#[derive(Copy, Clone, PartialEq, Eq, Structural, Debug)]
pub enum Operation {
    Create,
    Add,
    SetDone,
    Clear,
    Load,
}

/// Where a line is written: with the ordinary output, or with the errors.
#[derive(Copy, Clone, PartialEq, Eq, Structural, Debug)]
pub enum Channel {
    Output,
    Error,
}

/// A notice as contracts see it.
pub struct NoticeView {
    pub channel: Channel,
    pub text: Seq<char>,
}

/// One line for the user and the channel it belongs on.
#[derive(PartialEq, Eq, Debug)]
pub struct Notice {
    channel: Channel,
    text: String,
}

impl View for Notice {
    type V = NoticeView;

    closed spec fn view(&self) -> NoticeView {
        NoticeView { channel: self.channel, text: self.text@ }
    }
}

/// The line that confirms an operation; creating the store names its path.
pub open spec fn success_spec(op: Operation, path: Seq<char>) -> Seq<char> {
    match op {
        Operation::Create => "DB creato con successo o esistente in "@ + path,
        Operation::Add => "Inserted"@,
        Operation::SetDone => "set done"@,
        Operation::Clear => "Lista cancellata"@,
        Operation::Load => "Lista caricata"@,
    }
}

/// What stands before the store's own message where an operation failed.
pub open spec fn failure_prefix_spec(op: Operation) -> Seq<char> {
    match op {
        Operation::Create => "Errore in creazione db: "@,
        Operation::Add => "Errore in inserimento: "@,
        Operation::SetDone => "Errore in update stato: "@,
        Operation::Clear => "Errore: "@,
        Operation::Load => "Errore "@,
    }
}

/// The notice for an operation and its outcome.
pub open spec fn report_spec(op: Operation, path: Seq<char>, outcome: Result<(), String>)
    -> NoticeView {
    match outcome {
        Ok(_) => NoticeView { channel: Channel::Output, text: success_spec(op, path) },
        Err(e) => NoticeView { channel: Channel::Error, text: failure_prefix_spec(op) + e@ },
    }
}

impl Notice {
    pub fn channel(&self) -> (r: Channel)
        ensures
            r == self@.channel,
    {
        self.channel
    }

    pub fn text(&self) -> (r: &str)
        ensures
            r@ == self@.text,
    {
        self.text.as_str()
    }
}

/// The notice for an operation on the store at `path`: a confirmation on the
/// ordinary output where it went well, and else the store's message, behind
/// the operation's prefix, with the errors.
pub fn report(op: Operation, path: &str, outcome: &Result<(), String>) -> (r: Notice)
    ensures
        r@ == report_spec(op, path@, *outcome),
{
    match outcome {
        Ok(_) => {
            let text = match op {
                Operation::Create => String::from_str(
                    "DB creato con successo o esistente in ",
                ).concat(path),
                Operation::Add => String::from_str("Inserted"),
                Operation::SetDone => String::from_str("set done"),
                Operation::Clear => String::from_str("Lista cancellata"),
                Operation::Load => String::from_str("Lista caricata"),
            };
            Notice { channel: Channel::Output, text }
        },
        Err(e) => {
            let prefix = match op {
                Operation::Create => "Errore in creazione db: ",
                Operation::Add => "Errore in inserimento: ",
                Operation::SetDone => "Errore in update stato: ",
                Operation::Clear => "Errore: ",
                Operation::Load => "Errore ",
            };
            Notice { channel: Channel::Error, text: String::from_str(prefix).concat(e.as_str()) }
        },
    }
}

/// The notice that the list holds no task with the text of `task`, with the
/// task's line for the terminal behind it. It is no error.
pub fn not_present(task: &Task) -> (r: Notice)
    ensures
        r@.channel == Channel::Output,
        exists|line: Seq<char>|
            line_of(task@, line) && r@.text == #[trigger] ("task not present: "@ + line),
{
    let line = task.to_string();
    Notice {
        channel: Channel::Output,
        text: String::from_str("task not present: ").concat(line.as_str()),
    }
}

/// The notice that no task has the text that was asked for. It is no error.
pub fn not_found() -> (r: Notice)
    ensures
        r@ == (NoticeView { channel: Channel::Output, text: "task not found"@ }),
{
    Notice { channel: Channel::Output, text: String::from_str("task not found") }
}

} // verus!
