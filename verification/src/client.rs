//! What a client does with a message that reaches it.

use crate::level::MessageLevel;
use crate::message::{Message, MessageView, StatuslineState, Task};
use vstd::prelude::*;

verus! {

/// An action in the editor.
#[derive(Debug, PartialEq, Eq)]
pub enum ClientAction {
    /// Show a notification.
    Notify { msg: String, level: MessageLevel },
    /// Write a line to the log.
    Log { msg: String, level: MessageLevel },
    /// Set the text of the build status.
    SetBuildStatus { text: String },
    /// Open or close the log window.
    ToggleLogger,
    /// Restart the language server.
    RestartLsp,
}

/// A [`ClientAction`] as plain values.
pub enum ClientActionView {
    Notify { msg: Seq<char>, level: MessageLevel },
    Log { msg: Seq<char>, level: MessageLevel },
    SetBuildStatus { text: Seq<char> },
    ToggleLogger,
    RestartLsp,
}

impl View for ClientAction {
    type V = ClientActionView;

    open spec fn view(&self) -> ClientActionView {
        match *self {
            ClientAction::Notify { msg, level } => ClientActionView::Notify { msg: msg@, level },
            ClientAction::Log { msg, level } => ClientActionView::Log { msg: msg@, level },
            ClientAction::SetBuildStatus { text } => ClientActionView::SetBuildStatus {
                text: text@,
            },
            ClientAction::ToggleLogger => ClientActionView::ToggleLogger,
            ClientAction::RestartLsp => ClientActionView::RestartLsp,
        }
    }
}

/// The action that a message asks of a client.
pub open spec fn action_of(msg: MessageView) -> ClientActionView {
    match msg {
        MessageView::Notify { msg, level } => ClientActionView::Notify { msg, level },
        MessageView::Log { msg, level } => ClientActionView::Log { msg, level },
        MessageView::Execute(Task::UpdateStatusline { value }) => ClientActionView::SetBuildStatus {
            text: value.label(),
        },
        MessageView::Execute(Task::OpenLogger) => ClientActionView::ToggleLogger,
        MessageView::Execute(Task::ReloadLspServer) => ClientActionView::RestartLsp,
    }
}

/// Decides what a client does with a message. Text and level are handed on
/// as they are; a state of the status line is handed on as its label.
pub fn handle(msg: Message) -> (action: ClientAction)
    ensures
        action@ == action_of(msg@),
{
    match msg {
        Message::Notify { msg, level } => ClientAction::Notify { msg, level },
        Message::Log { msg, level } => ClientAction::Log { msg, level },
        Message::Execute(task) => match task {
            Task::UpdateStatusline { value } => ClientAction::SetBuildStatus {
                text: value.to_string(),
            },
            Task::OpenLogger => ClientAction::ToggleLogger,
            Task::ReloadLspServer => ClientAction::RestartLsp,
        },
    }
}

} // verus!
