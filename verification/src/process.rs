//! Output of a build process, and the message that reports it to clients.

use crate::level::MessageLevel;
use crate::message::{Message, MessageView};
use crate::text::{contains, lowercase, occurs_in, same_text, to_lowercase};
use vstd::prelude::*;

verus! {

/// One item of what a running process gives out.
#[derive(Debug, PartialEq, Eq)]
pub enum ProcessItem {
    /// A chunk that the process wrote to its standard output.
    Output(String),
    /// A chunk that the process wrote to its standard error, or the text of
    /// an error met while running it.
    Error(String),
    /// The exit code with which the process ended.
    Exit(String),
}

/// A [`ProcessItem`] with its text as a sequence of characters.
pub enum ProcessItemView {
    Output(Seq<char>),
    Error(Seq<char>),
    Exit(Seq<char>),
}

impl View for ProcessItem {
    type V = ProcessItemView;

    open spec fn view(&self) -> ProcessItemView {
        match *self {
            ProcessItem::Output(value) => ProcessItemView::Output(value@),
            ProcessItem::Error(value) => ProcessItemView::Error(value@),
            ProcessItem::Exit(code) => ProcessItemView::Exit(code@),
        }
    }
}

/// Whether `process_stream` takes the exit code `code` for a success.
pub uninterp spec fn exit_succeeded(code: Seq<char>) -> bool;

/// Trusted: `process_stream::ProcessItem::is_success`, on an exit item with
/// the code handed in. For an exit item the answer is always present; what it
/// says is named by [`exit_succeeded`].
#[verifier::external_body]
fn exit_is_success(code: &str) -> (r: Option<bool>)
    ensures
        r == Some(exit_succeeded(code@)),
{
    process_stream::ProcessItem::Exit(code.to_owned()).is_success()
}

/// The line that is passed over in silence.
pub open spec fn quiet_line() -> Seq<char> {
    "Resolving Packages"@
}

/// The message for a chunk of standard output, given the chunk in lower case.
///
/// A chunk that mentions an error is logged as an error, one that mentions a
/// warning as a warning, any other as information; the quiet line is logged
/// with no text.
pub open spec fn message_of_output(value: Seq<char>, lowered: Seq<char>) -> MessageView {
    if occurs_in("error"@, lowered) {
        MessageView::Log { msg: value, level: MessageLevel::Error }
    } else if occurs_in("warn"@, lowered) {
        MessageView::Log { msg: value, level: MessageLevel::Warn }
    } else if value == quiet_line() {
        MessageView::Log { msg: Seq::empty(), level: MessageLevel::Info }
    } else {
        MessageView::Log { msg: value, level: MessageLevel::Info }
    }
}

/// The message for the end of a process, given whether it succeeded.
pub open spec fn message_of_exit(code: Seq<char>, succeeded: bool) -> MessageView {
    if succeeded {
        MessageView::Log { msg: Seq::empty(), level: MessageLevel::Info }
    } else {
        MessageView::Log { msg: "[Error] "@ + code + " code"@, level: MessageLevel::Error }
    }
}

/// The message that reports a process item.
pub open spec fn message_of_process(item: ProcessItemView) -> MessageView {
    match item {
        ProcessItemView::Output(value) => message_of_output(value, lowercase(value)),
        ProcessItemView::Error(value) => MessageView::Log { msg: value, level: MessageLevel::Error },
        ProcessItemView::Exit(code) => message_of_exit(code, exit_succeeded(code)),
    }
}

impl Message {
    /// The message for a chunk of standard output. `lowered` is the chunk in
    /// lower case.
    pub fn of_output(value: String, lowered: &str) -> (r: Message)
        ensures
            r@ == message_of_output(value@, lowered@),
    {
        if contains(lowered, "error") {
            Message::Log { msg: value, level: MessageLevel::Error }
        } else if contains(lowered, "warn") {
            Message::Log { msg: value, level: MessageLevel::Warn }
        } else if same_text(value.as_str(), "Resolving Packages") {
            Message::Log { msg: String::new(), level: MessageLevel::Info }
        } else {
            Message::Log { msg: value, level: MessageLevel::Info }
        }
    }

    /// The message for the end of a process that gave the exit code `code`.
    pub fn of_exit(code: &str, succeeded: bool) -> (r: Message)
        ensures
            r@ == message_of_exit(code@, succeeded),
    {
        if succeeded {
            Message::Log { msg: String::new(), level: MessageLevel::Info }
        } else {
            let msg = "[Error] ".to_owned().concat(code).concat(" code");
            Message::Log { msg, level: MessageLevel::Error }
        }
    }
}

impl From<ProcessItem> for Message {
    fn from(item: ProcessItem) -> (r: Message)
        ensures
            r@ == message_of_process(item@),
    {
        match item {
            ProcessItem::Output(value) => {
                let lowered = to_lowercase(value.as_str());
                Message::of_output(value, lowered.as_str())
            },
            ProcessItem::Error(value) => Message::Log { msg: value, level: MessageLevel::Error },
            ProcessItem::Exit(code) => {
                let succeeded = exit_is_success(code.as_str());
                Message::of_exit(code.as_str(), succeeded.unwrap())
            },
        }
    }
}

impl vstd::std_specs::convert::FromSpecImpl<ProcessItem> for Message {
    /// Some results hold a fresh string, which cannot be named in ghost
    /// code: the contract of `from` speaks of the view instead.
    open spec fn obeys_from_spec() -> bool {
        false
    }

    open spec fn from_spec(item: ProcessItem) -> Message {
        arbitrary()
    }
}

} // verus!
