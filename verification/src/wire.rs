//! The shape in which messages travel between the daemon and its clients.
//!
//! A message travels as an [`Envelope`]: a discriminant that names the
//! variant, and the content of the variant. A level travels as its code, a
//! task and a state of the status line as the names of their variants. How
//! an envelope is written down as bytes is not decided here.

use crate::level::MessageLevel;
use crate::message::{Message, MessageView, StatuslineState, Task};
use crate::text::same_text;
use vstd::prelude::*;

verus! {

/// The content of an [`Envelope`].
#[derive(Debug, PartialEq, Eq)]
pub enum Payload {
    /// The content of a notification or of a log line.
    Text { msg: String, level: u8 },
    /// The content of a task: its name and, where the task has one, the
    /// name of a state of the status line.
    Task { task: String, value: Option<String> },
}

/// A message in the shape in which it travels.
#[derive(Debug, PartialEq, Eq)]
pub struct Envelope {
    /// The discriminant, sent in the field `type`.
    pub kind: String,
    /// The content, sent in the field `args`.
    pub args: Payload,
}

/// A [`Payload`] as plain values.
pub enum PayloadView {
    Text { msg: Seq<char>, level: u8 },
    Task { task: Seq<char>, value: Option<Seq<char>> },
}

/// An [`Envelope`] as plain values.
pub struct EnvelopeView {
    pub kind: Seq<char>,
    pub args: PayloadView,
}

impl View for Payload {
    type V = PayloadView;

    open spec fn view(&self) -> PayloadView {
        match *self {
            Payload::Text { msg, level } => PayloadView::Text { msg: msg@, level },
            Payload::Task { task, value } => PayloadView::Task {
                task: task@,
                value: match value {
                    Some(name) => Some(name@),
                    None => None,
                },
            },
        }
    }
}

impl View for Envelope {
    type V = EnvelopeView;

    open spec fn view(&self) -> EnvelopeView {
        EnvelopeView { kind: self.kind@, args: self.args@ }
    }
}

/// Why an envelope holds no message.
#[derive(Debug, Clone, Copy, PartialEq, Eq, Structural, Hash)]
pub enum WireError {
    /// The discriminant names no variant of a message.
    UnknownType,
    /// The content is not of the shape that the discriminant asks for.
    WrongArgs,
    /// The code stands for no level.
    UnknownLevel,
    /// The name is not that of a task.
    UnknownTask,
    /// The task needs a state of the status line and has none.
    MissingValue,
    /// The name is not that of a state of the status line.
    UnknownState,
}

/// The name under which a state of the status line travels.
pub open spec fn state_tag(state: StatuslineState) -> Seq<char> {
    match state {
        StatuslineState::Clear => "Clear"@,
        StatuslineState::Failure => "Failure"@,
        StatuslineState::Processing => "Processing"@,
        StatuslineState::Running => "Running"@,
        StatuslineState::Success => "Success"@,
        StatuslineState::Watching => "Watching"@,
    }
}

/// The state of the status line that travels under a name.
pub open spec fn state_tagged(tag: Seq<char>) -> Option<StatuslineState> {
    if tag == "Clear"@ {
        Some(StatuslineState::Clear)
    } else if tag == "Failure"@ {
        Some(StatuslineState::Failure)
    } else if tag == "Processing"@ {
        Some(StatuslineState::Processing)
    } else if tag == "Running"@ {
        Some(StatuslineState::Running)
    } else if tag == "Success"@ {
        Some(StatuslineState::Success)
    } else if tag == "Watching"@ {
        Some(StatuslineState::Watching)
    } else {
        None
    }
}

/// The content under which a task travels.
pub open spec fn task_payload(task: Task) -> PayloadView {
    match task {
        Task::OpenLogger => PayloadView::Task { task: "OpenLogger"@, value: None },
        Task::ReloadLspServer => PayloadView::Task { task: "ReloadLspServer"@, value: None },
        Task::UpdateStatusline { value } => PayloadView::Task {
            task: "UpdateStatusline"@,
            value: Some(state_tag(value)),
        },
    }
}

/// The task that travels as a name and, maybe, the name of a state. A state
/// that comes with a task that has none is passed over.
pub open spec fn task_decoded(task: Seq<char>, value: Option<Seq<char>>) -> Result<
    Task,
    WireError,
> {
    if task == "OpenLogger"@ {
        Ok(Task::OpenLogger)
    } else if task == "ReloadLspServer"@ {
        Ok(Task::ReloadLspServer)
    } else if task == "UpdateStatusline"@ {
        match value {
            Some(tag) => match state_tagged(tag) {
                Some(state) => Ok(Task::UpdateStatusline { value: state }),
                None => Err(WireError::UnknownState),
            },
            None => Err(WireError::MissingValue),
        }
    } else {
        Err(WireError::UnknownTask)
    }
}

/// The envelope in which a message travels.
pub open spec fn encoded(message: MessageView) -> EnvelopeView {
    match message {
        MessageView::Notify { msg, level } => EnvelopeView {
            kind: "Notify"@,
            args: PayloadView::Text { msg, level: level.spec_code() },
        },
        MessageView::Log { msg, level } => EnvelopeView {
            kind: "Log"@,
            args: PayloadView::Text { msg, level: level.spec_code() },
        },
        MessageView::Execute(task) => EnvelopeView { kind: "Execute"@, args: task_payload(task) },
    }
}

/// The message that an envelope holds, or why it holds none.
pub open spec fn decoded(envelope: EnvelopeView) -> Result<MessageView, WireError> {
    if envelope.kind == "Notify"@ || envelope.kind == "Log"@ {
        match envelope.args {
            PayloadView::Text { msg, level } => match MessageLevel::spec_from_code(level) {
                Some(level) => if envelope.kind == "Notify"@ {
                    Ok(MessageView::Notify { msg, level })
                } else {
                    Ok(MessageView::Log { msg, level })
                },
                None => Err(WireError::UnknownLevel),
            },
            PayloadView::Task { .. } => Err(WireError::WrongArgs),
        }
    } else if envelope.kind == "Execute"@ {
        match envelope.args {
            PayloadView::Task { task, value } => match task_decoded(task, value) {
                Ok(task) => Ok(MessageView::Execute(task)),
                Err(error) => Err(error),
            },
            PayloadView::Text { .. } => Err(WireError::WrongArgs),
        }
    } else {
        Err(WireError::UnknownType)
    }
}

impl StatuslineState {
    /// The name under which the state travels: that of its variant.
    pub fn tag(&self) -> (r: &'static str)
        ensures
            r@ == state_tag(*self),
    {
        match self {
            StatuslineState::Clear => "Clear",
            StatuslineState::Failure => "Failure",
            StatuslineState::Processing => "Processing",
            StatuslineState::Running => "Running",
            StatuslineState::Success => "Success",
            StatuslineState::Watching => "Watching",
        }
    }

    /// The state that travels under a name, if the name is that of a state.
    pub fn from_tag(tag: &str) -> (r: Option<StatuslineState>)
        ensures
            r == state_tagged(tag@),
    {
        if same_text(tag, "Clear") {
            Some(StatuslineState::Clear)
        } else if same_text(tag, "Failure") {
            Some(StatuslineState::Failure)
        } else if same_text(tag, "Processing") {
            Some(StatuslineState::Processing)
        } else if same_text(tag, "Running") {
            Some(StatuslineState::Running)
        } else if same_text(tag, "Success") {
            Some(StatuslineState::Success)
        } else if same_text(tag, "Watching") {
            Some(StatuslineState::Watching)
        } else {
            None
        }
    }
}

impl Task {
    /// The content under which the task travels.
    pub fn encode(&self) -> (r: Payload)
        ensures
            r@ == task_payload(*self),
    {
        match self {
            Task::OpenLogger => Payload::Task { task: "OpenLogger".to_owned(), value: None },
            Task::ReloadLspServer => Payload::Task {
                task: "ReloadLspServer".to_owned(),
                value: None,
            },
            Task::UpdateStatusline { value } => Payload::Task {
                task: "UpdateStatusline".to_owned(),
                value: Some(value.tag().to_owned()),
            },
        }
    }

    /// The task that travels as `task` and `value`.
    pub fn decode(task: &str, value: Option<&str>) -> (r: Result<Task, WireError>)
        ensures
            r == task_decoded(
                task@,
                match value {
                    Some(tag) => Some(tag@),
                    None => None,
                },
            ),
    {
        if same_text(task, "OpenLogger") {
            Ok(Task::OpenLogger)
        } else if same_text(task, "ReloadLspServer") {
            Ok(Task::ReloadLspServer)
        } else if same_text(task, "UpdateStatusline") {
            match value {
                Some(tag) => match StatuslineState::from_tag(tag) {
                    Some(state) => Ok(Task::UpdateStatusline { value: state }),
                    None => Err(WireError::UnknownState),
                },
                None => Err(WireError::MissingValue),
            }
        } else {
            Err(WireError::UnknownTask)
        }
    }
}

impl Message {
    /// Puts the message into the envelope in which it travels.
    pub fn encode(&self) -> (r: Envelope)
        ensures
            r@ == encoded(self@),
    {
        match self {
            Message::Notify { msg, level } => Envelope {
                kind: "Notify".to_owned(),
                args: Payload::Text { msg: msg.clone(), level: level.code() },
            },
            Message::Log { msg, level } => Envelope {
                kind: "Log".to_owned(),
                args: Payload::Text { msg: msg.clone(), level: level.code() },
            },
            Message::Execute(task) => Envelope { kind: "Execute".to_owned(), args: task.encode() },
        }
    }

    /// Takes the message out of an envelope. Fails where the envelope holds
    /// none, with the first fault met: in the discriminant, in the shape of
    /// the content, or in the content.
    pub fn decode(envelope: &Envelope) -> (r: Result<Message, WireError>)
        ensures
            match r {
                Ok(message) => decoded(envelope@) == Ok::<MessageView, WireError>(message@),
                Err(error) => decoded(envelope@) == Err::<MessageView, WireError>(error),
            },
    {
        let notify = same_text(envelope.kind.as_str(), "Notify");
        if notify || same_text(envelope.kind.as_str(), "Log") {
            match &envelope.args {
                Payload::Text { msg, level } => match MessageLevel::from_code(*level) {
                    Some(level) => if notify {
                        Ok(Message::Notify { msg: msg.clone(), level })
                    } else {
                        Ok(Message::Log { msg: msg.clone(), level })
                    },
                    None => Err(WireError::UnknownLevel),
                },
                Payload::Task { .. } => Err(WireError::WrongArgs),
            }
        } else if same_text(envelope.kind.as_str(), "Execute") {
            match &envelope.args {
                Payload::Task { task, value } => {
                    let tag: Option<&str> = match value {
                        Some(name) => Some(name.as_str()),
                        None => None,
                    };
                    match Task::decode(task.as_str(), tag) {
                        Ok(task) => Ok(Message::Execute(task)),
                        Err(error) => Err(error),
                    }
                },
                Payload::Text { .. } => Err(WireError::WrongArgs),
            }
        } else {
            Err(WireError::UnknownType)
        }
    }
}

/// A state of the status line is read back from the name under which it
/// travels.
pub proof fn lemma_state_tag_round_trip(state: StatuslineState)
    ensures
        state_tagged(state_tag(state)) == Some(state),
{
    reveal_strlit("Clear");
    reveal_strlit("Failure");
    reveal_strlit("Processing");
    reveal_strlit("Running");
    reveal_strlit("Success");
    reveal_strlit("Watching");
    assert("Clear"@.len() == 5 && "Failure"@.len() == 7 && "Processing"@.len() == 10
        && "Running"@.len() == 7 && "Success"@.len() == 7 && "Watching"@.len() == 8);
    assert("Failure"@[0] == 'F' && "Running"@[0] == 'R' && "Success"@[0] == 'S');
}

/// A task is read back from the content under which it travels.
pub proof fn lemma_task_round_trip(task: Task)
    ensures
        task_payload(task) matches PayloadView::Task { task: name, value } && task_decoded(
            name,
            value,
        ) == Ok::<Task, WireError>(task),
{
    reveal_strlit("OpenLogger");
    reveal_strlit("ReloadLspServer");
    reveal_strlit("UpdateStatusline");
    assert("OpenLogger"@.len() == 10 && "ReloadLspServer"@.len() == 15 && "UpdateStatusline"@.len()
        == 16);
    match task {
        Task::UpdateStatusline { value } => {
            lemma_state_tag_round_trip(value);
        },
        _ => {},
    }
}

/// Every message is read back from the envelope in which it travels; so is
/// the state of the status line in a task that updates it.
pub proof fn lemma_message_round_trip(message: MessageView)
    ensures
        decoded(encoded(message)) == Ok::<MessageView, WireError>(message),
{
    reveal_strlit("Notify");
    reveal_strlit("Log");
    reveal_strlit("Execute");
    assert("Notify"@.len() == 6 && "Log"@.len() == 3 && "Execute"@.len() == 7);
    match message {
        MessageView::Notify { msg, level } => {
            crate::level::lemma_level_code_round_trip(level);
        },
        MessageView::Log { msg, level } => {
            crate::level::lemma_level_code_round_trip(level);
        },
        MessageView::Execute(task) => {
            lemma_task_round_trip(task);
        },
    }
}

} // verus!
