//! Messages that the daemon sends to its clients.

use crate::level::{compare_ranks, order_of_ranks, MessageLevel};
use crate::text::{same_text, text_less, text_precedes};
use core::cmp::Ordering;
use vstd::prelude::*;
use vstd::std_specs::cmp::PartialOrdSpec;

verus! {

/// State shown in a client's status line. The states are ordered as they
/// are declared.
#[derive(Debug, Clone, Copy, PartialEq, Eq, Structural, Ord, Hash)]
pub enum StatuslineState {
    /// Clear the status line.
    Clear,
    /// The last task failed.
    Failure,
    /// A request is being processed.
    Processing,
    /// Something is running.
    Running,
    /// The last task was successful.
    Success,
    /// Something is being watched.
    Watching,
}

impl StatuslineState {
    /// The place of a state in the order of states.
    pub open spec fn rank(self) -> u8 {
        match self {
            StatuslineState::Clear => 0,
            StatuslineState::Failure => 1,
            StatuslineState::Processing => 2,
            StatuslineState::Running => 3,
            StatuslineState::Success => 4,
            StatuslineState::Watching => 5,
        }
    }

    fn exec_rank(self) -> (r: u8)
        ensures
            r == self.rank(),
    {
        match self {
            StatuslineState::Clear => 0,
            StatuslineState::Failure => 1,
            StatuslineState::Processing => 2,
            StatuslineState::Running => 3,
            StatuslineState::Success => 4,
            StatuslineState::Watching => 5,
        }
    }

    /// The text that a state is displayed as: its name in lower case, and
    /// nothing at all for [`StatuslineState::Clear`].
    pub open spec fn label(self) -> Seq<char> {
        match self {
            StatuslineState::Clear => ""@,
            StatuslineState::Failure => "failure"@,
            StatuslineState::Processing => "processing"@,
            StatuslineState::Running => "running"@,
            StatuslineState::Success => "success"@,
            StatuslineState::Watching => "watching"@,
        }
    }

    /// Renders the state for display.
    pub fn to_string(&self) -> (r: String)
        ensures
            r@ == self.label(),
    {
        match self {
            StatuslineState::Clear => "".to_owned(),
            StatuslineState::Failure => "failure".to_owned(),
            StatuslineState::Processing => "processing".to_owned(),
            StatuslineState::Running => "running".to_owned(),
            StatuslineState::Success => "success".to_owned(),
            StatuslineState::Watching => "watching".to_owned(),
        }
    }
}

/// The label of [`StatuslineState::Clear`] is empty, and no other label is.
pub proof fn lemma_only_clear_is_blank(state: StatuslineState)
    ensures
        state.label().len() == 0 <==> state == StatuslineState::Clear,
{
    reveal_strlit("");
    reveal_strlit("failure");
    reveal_strlit("processing");
    reveal_strlit("running");
    reveal_strlit("success");
    reveal_strlit("watching");
}

impl PartialOrd for StatuslineState {
    fn partial_cmp(&self, other: &StatuslineState) -> (r: Option<Ordering>) {
        Some(compare_ranks(self.exec_rank(), other.exec_rank()))
    }
}

impl vstd::std_specs::cmp::PartialOrdSpecImpl for StatuslineState {
    open spec fn obeys_partial_cmp_spec() -> bool {
        true
    }

    open spec fn partial_cmp_spec(&self, other: &StatuslineState) -> Option<Ordering> {
        Some(order_of_ranks(self.rank(), other.rank()))
    }
}

/// A task that clients carry out. The tasks are ordered as they are
/// declared; two updates of the status line are ordered by their states.
#[derive(Debug, Clone, Copy, PartialEq, Eq, Structural, Ord, Hash)]
pub enum Task {
    /// Open the log window.
    OpenLogger,
    /// Restart the language server.
    ReloadLspServer,
    /// Show a state in the status line.
    UpdateStatusline { value: StatuslineState },
}

impl Task {
    /// The place of the variant of a task in the order of tasks.
    pub open spec fn rank(self) -> u8 {
        match self {
            Task::OpenLogger => 0,
            Task::ReloadLspServer => 1,
            Task::UpdateStatusline { .. } => 2,
        }
    }

    fn exec_rank(self) -> (r: u8)
        ensures
            r == self.rank(),
    {
        match self {
            Task::OpenLogger => 0,
            Task::ReloadLspServer => 1,
            Task::UpdateStatusline { .. } => 2,
        }
    }
}

/// How two tasks stand to each other.
pub open spec fn order_of_tasks(a: Task, b: Task) -> Ordering {
    match (a, b) {
        (Task::UpdateStatusline { value: x }, Task::UpdateStatusline { value: y }) => order_of_ranks(
            x.rank(),
            y.rank(),
        ),
        _ => order_of_ranks(a.rank(), b.rank()),
    }
}

impl PartialOrd for Task {
    fn partial_cmp(&self, other: &Task) -> (r: Option<Ordering>) {
        match (self, other) {
            (Task::UpdateStatusline { value: x }, Task::UpdateStatusline { value: y }) => Some(
                compare_ranks(x.exec_rank(), y.exec_rank()),
            ),
            _ => Some(compare_ranks(self.exec_rank(), other.exec_rank())),
        }
    }
}

impl vstd::std_specs::cmp::PartialOrdSpecImpl for Task {
    open spec fn obeys_partial_cmp_spec() -> bool {
        true
    }

    open spec fn partial_cmp_spec(&self, other: &Task) -> Option<Ordering> {
        Some(order_of_tasks(*self, *other))
    }
}

/// What clients are told. Messages are ordered by their variant as declared,
/// then by their text in the order of strings, then by their level; two
/// tasks to execute are ordered as tasks.
#[derive(Debug, PartialEq, Eq, Ord)]
pub enum Message {
    /// Notify the user with a message.
    Notify { msg: String, level: MessageLevel },
    /// Log a message.
    Log { msg: String, level: MessageLevel },
    /// Execute a task.
    Execute(Task),
}

/// A [`Message`] with its text as a sequence of characters.
pub enum MessageView {
    Notify { msg: Seq<char>, level: MessageLevel },
    Log { msg: Seq<char>, level: MessageLevel },
    Execute(Task),
}

impl View for Message {
    type V = MessageView;

    open spec fn view(&self) -> MessageView {
        match *self {
            Message::Notify { msg, level } => MessageView::Notify { msg: msg@, level },
            Message::Log { msg, level } => MessageView::Log { msg: msg@, level },
            Message::Execute(task) => MessageView::Execute(task),
        }
    }
}

impl MessageView {
    /// The place of the variant of a message in the order of messages.
    pub open spec fn rank(self) -> u8 {
        match self {
            MessageView::Notify { .. } => 0,
            MessageView::Log { .. } => 1,
            MessageView::Execute(_) => 2,
        }
    }
}

/// How two texts with their levels stand to each other: by the text first,
/// and by the level where the texts are equal.
pub open spec fn order_of_lines(
    a: Seq<char>,
    level_a: MessageLevel,
    b: Seq<char>,
    level_b: MessageLevel,
) -> Ordering {
    if a == b {
        order_of_ranks(level_a.spec_code(), level_b.spec_code())
    } else if text_precedes(a, b) {
        Ordering::Less
    } else {
        Ordering::Greater
    }
}

/// How two messages stand to each other.
pub open spec fn order_of_messages(a: MessageView, b: MessageView) -> Ordering {
    match (a, b) {
        (
            MessageView::Notify { msg: x, level: level_x },
            MessageView::Notify { msg: y, level: level_y },
        ) => order_of_lines(x, level_x, y, level_y),
        (
            MessageView::Log { msg: x, level: level_x },
            MessageView::Log { msg: y, level: level_y },
        ) => order_of_lines(x, level_x, y, level_y),
        (MessageView::Execute(x), MessageView::Execute(y)) => order_of_tasks(x, y),
        _ => order_of_ranks(a.rank(), b.rank()),
    }
}

fn compare_lines(a: &str, level_a: MessageLevel, b: &str, level_b: MessageLevel) -> (r: Ordering)
    ensures
        r == order_of_lines(a@, level_a, b@, level_b),
{
    if same_text(a, b) {
        compare_ranks(level_a.code(), level_b.code())
    } else if text_less(a, b) {
        Ordering::Less
    } else {
        Ordering::Greater
    }
}

impl Message {
    fn exec_rank(&self) -> (r: u8)
        ensures
            r == self@.rank(),
    {
        match self {
            Message::Notify { .. } => 0,
            Message::Log { .. } => 1,
            Message::Execute(_) => 2,
        }
    }
}

impl PartialOrd for Message {
    fn partial_cmp(&self, other: &Message) -> (r: Option<Ordering>) {
        match (self, other) {
            (
                Message::Notify { msg: x, level: level_x },
                Message::Notify { msg: y, level: level_y },
            ) => Some(compare_lines(x.as_str(), *level_x, y.as_str(), *level_y)),
            (
                Message::Log { msg: x, level: level_x },
                Message::Log { msg: y, level: level_y },
            ) => Some(compare_lines(x.as_str(), *level_x, y.as_str(), *level_y)),
            (Message::Execute(x), Message::Execute(y)) => x.partial_cmp(y),
            _ => Some(compare_ranks(self.exec_rank(), other.exec_rank())),
        }
    }
}

impl vstd::std_specs::cmp::PartialOrdSpecImpl for Message {
    open spec fn obeys_partial_cmp_spec() -> bool {
        true
    }

    open spec fn partial_cmp_spec(&self, other: &Message) -> Option<Ordering> {
        Some(order_of_messages(self@, other@))
    }
}

/// Two notifications, or two log lines, with the same text are ordered as
/// their levels are: trace, debug, info, warn, error, success.
pub proof fn lemma_messages_order_by_level(a: Message, b: Message)
    requires
        a@.rank() == b@.rank(),
        a@.rank() != 2,
        a@ matches MessageView::Notify { msg, .. } ==> b@ matches MessageView::Notify {
            msg: other,
            ..
        } && msg == other,
        a@ matches MessageView::Log { msg, .. } ==> b@ matches MessageView::Log { msg: other, .. }
            && msg == other,
    ensures
        a@ matches MessageView::Notify { level, .. } ==> b@ matches MessageView::Notify {
            level: other,
            ..
        } && a.partial_cmp_spec(&b) == level.partial_cmp_spec(&other),
        a@ matches MessageView::Log { level, .. } ==> b@ matches MessageView::Log {
            level: other,
            ..
        } && a.partial_cmp_spec(&b) == level.partial_cmp_spec(&other),
{
}

impl Clone for Message {
    fn clone(&self) -> (r: Message)
        ensures
            r@ == self@,
    {
        match self {
            Message::Notify { msg, level } => Message::Notify { msg: msg.clone(), level: *level },
            Message::Log { msg, level } => Message::Log { msg: msg.clone(), level: *level },
            Message::Execute(task) => Message::Execute(*task),
        }
    }
}

impl Message {
    /// A notification at error level.
    pub fn notify_error(value: &str) -> (r: Message)
        ensures
            r@ == (MessageView::Notify { msg: value@, level: MessageLevel::Error }),
    {
        Message::Notify { msg: value.to_owned(), level: MessageLevel::Error }
    }

    /// A notification at warn level.
    pub fn notify_warn(value: &str) -> (r: Message)
        ensures
            r@ == (MessageView::Notify { msg: value@, level: MessageLevel::Warn }),
    {
        Message::Notify { msg: value.to_owned(), level: MessageLevel::Warn }
    }

    /// A notification at trace level.
    pub fn notify_trace(value: &str) -> (r: Message)
        ensures
            r@ == (MessageView::Notify { msg: value@, level: MessageLevel::Trace }),
    {
        Message::Notify { msg: value.to_owned(), level: MessageLevel::Trace }
    }

    /// A notification at debug level.
    pub fn notify_debug(value: &str) -> (r: Message)
        ensures
            r@ == (MessageView::Notify { msg: value@, level: MessageLevel::Debug }),
    {
        Message::Notify { msg: value.to_owned(), level: MessageLevel::Debug }
    }

    /// A log line at error level.
    pub fn log_error(value: &str) -> (r: Message)
        ensures
            r@ == (MessageView::Log { msg: value@, level: MessageLevel::Error }),
    {
        Message::Log { msg: value.to_owned(), level: MessageLevel::Error }
    }

    /// A log line at info level.
    pub fn log_info(value: &str) -> (r: Message)
        ensures
            r@ == (MessageView::Log { msg: value@, level: MessageLevel::Info }),
    {
        Message::Log { msg: value.to_owned(), level: MessageLevel::Info }
    }

    /// A log line at warn level.
    pub fn log_warn(value: &str) -> (r: Message)
        ensures
            r@ == (MessageView::Log { msg: value@, level: MessageLevel::Warn }),
    {
        Message::Log { msg: value.to_owned(), level: MessageLevel::Warn }
    }

    /// A log line at trace level.
    pub fn log_trace(value: &str) -> (r: Message)
        ensures
            r@ == (MessageView::Log { msg: value@, level: MessageLevel::Trace }),
    {
        Message::Log { msg: value.to_owned(), level: MessageLevel::Trace }
    }

    /// A log line at debug level.
    pub fn log_debug(value: &str) -> (r: Message)
        ensures
            r@ == (MessageView::Log { msg: value@, level: MessageLevel::Debug }),
    {
        Message::Log { msg: value.to_owned(), level: MessageLevel::Debug }
    }
}

impl From<&str> for Message {
    fn from(value: &str) -> (r: Message)
        ensures
            r@ == (MessageView::Notify { msg: value@, level: MessageLevel::Info }),
    {
        Message::Notify { msg: value.to_owned(), level: MessageLevel::Info }
    }
}

impl vstd::std_specs::convert::FromSpecImpl<&str> for Message {
    /// The text of the result is a fresh string, which cannot be named in
    /// ghost code: the contract of `from` speaks of its view instead.
    open spec fn obeys_from_spec() -> bool {
        false
    }

    open spec fn from_spec(value: &str) -> Message {
        arbitrary()
    }
}

impl From<String> for Message {
    fn from(value: String) -> (r: Message)
        ensures
            r@ == (MessageView::Notify { msg: value@, level: MessageLevel::Info }),
    {
        Message::Notify { msg: value, level: MessageLevel::Info }
    }
}

impl vstd::std_specs::convert::FromSpecImpl<String> for Message {
    open spec fn obeys_from_spec() -> bool {
        true
    }

    open spec fn from_spec(value: String) -> Message {
        Message::Notify { msg: value, level: MessageLevel::Info }
    }
}

} // verus!
