//! Severity levels of messages, with their numeric wire codes.

use core::cmp::Ordering;
use vstd::std_specs::cmp::PartialOrdSpec;
use vstd::prelude::*;

verus! {

/// Level of a message. The declaration order is the severity order, and the
/// position of a variant is its wire code.
#[derive(Debug, Clone, Copy, PartialEq, Eq, Structural, Ord, Hash)]
pub enum MessageLevel {
    /// Trace message, code 0.
    Trace,
    /// Debug message, code 1.
    Debug,
    /// Info message, code 2.
    Info,
    /// Warn message, code 3.
    Warn,
    /// Error message, code 4.
    Error,
    /// Success message, code 5.
    Success,
}

/// The largest wire code in use.
pub const MAX_LEVEL_CODE: u8 = 5;

impl MessageLevel {
    /// The wire code of a level.
    pub open spec fn spec_code(self) -> u8 {
        match self {
            MessageLevel::Trace => 0,
            MessageLevel::Debug => 1,
            MessageLevel::Info => 2,
            MessageLevel::Warn => 3,
            MessageLevel::Error => 4,
            MessageLevel::Success => 5,
        }
    }

    /// The level that a wire code stands for, if any.
    pub open spec fn spec_from_code(code: u8) -> Option<MessageLevel> {
        if code == 0 {
            Some(MessageLevel::Trace)
        } else if code == 1 {
            Some(MessageLevel::Debug)
        } else if code == 2 {
            Some(MessageLevel::Info)
        } else if code == 3 {
            Some(MessageLevel::Warn)
        } else if code == 4 {
            Some(MessageLevel::Error)
        } else if code == 5 {
            Some(MessageLevel::Success)
        } else {
            None
        }
    }

    /// Encodes the level as its unsigned 8-bit wire code.
    #[verifier::when_used_as_spec(spec_code)]
    pub fn code(self) -> (c: u8)
        ensures
            c == self.spec_code(),
            c <= MAX_LEVEL_CODE,
    {
        match self {
            MessageLevel::Trace => 0,
            MessageLevel::Debug => 1,
            MessageLevel::Info => 2,
            MessageLevel::Warn => 3,
            MessageLevel::Error => 4,
            MessageLevel::Success => 5,
        }
    }

    /// Decodes a wire code; codes above [`MAX_LEVEL_CODE`] stand for no
    /// level.
    pub fn from_code(code: u8) -> (r: Option<MessageLevel>)
        ensures
            r == MessageLevel::spec_from_code(code),
            r is Some <==> code <= MAX_LEVEL_CODE,
    {
        match code {
            0 => Some(MessageLevel::Trace),
            1 => Some(MessageLevel::Debug),
            2 => Some(MessageLevel::Info),
            3 => Some(MessageLevel::Warn),
            4 => Some(MessageLevel::Error),
            5 => Some(MessageLevel::Success),
            _ => None,
        }
    }

    /// A level precedes another when its code is smaller.
    pub open spec fn precedes(self, other: MessageLevel) -> bool {
        self.spec_code() < other.spec_code()
    }
}

/// How two ranks stand to each other.
pub open spec fn order_of_ranks(a: u8, b: u8) -> Ordering {
    if a < b {
        Ordering::Less
    } else if a == b {
        Ordering::Equal
    } else {
        Ordering::Greater
    }
}

/// How two ranks stand to each other.
pub fn compare_ranks(a: u8, b: u8) -> (r: Ordering)
    ensures
        r == order_of_ranks(a, b),
{
    if a < b {
        Ordering::Less
    } else if a == b {
        Ordering::Equal
    } else {
        Ordering::Greater
    }
}

impl PartialOrd for MessageLevel {
    fn partial_cmp(&self, other: &MessageLevel) -> (r: Option<Ordering>) {
        Some(compare_ranks(self.code(), other.code()))
    }
}

impl vstd::std_specs::cmp::PartialOrdSpecImpl for MessageLevel {
    open spec fn obeys_partial_cmp_spec() -> bool {
        true
    }

    open spec fn partial_cmp_spec(&self, other: &MessageLevel) -> Option<Ordering> {
        Some(order_of_ranks(self.spec_code(), other.spec_code()))
    }
}

/// Decoding the code of a level gives the level back.
pub proof fn lemma_level_code_round_trip(level: MessageLevel)
    ensures
        level.spec_code() <= MAX_LEVEL_CODE,
        MessageLevel::spec_from_code(level.spec_code()) == Some(level),
{
}

/// A code that decodes to a level is the code of that level, and the codes
/// that decode are exactly those up to [`MAX_LEVEL_CODE`].
pub proof fn lemma_level_decode_round_trip(code: u8)
    ensures
        MessageLevel::spec_from_code(code) is Some <==> code <= MAX_LEVEL_CODE,
        MessageLevel::spec_from_code(code) matches Some(level) ==> level.spec_code() == code,
{
}

/// The order of levels is total and is the order of their codes:
/// trace, debug, info, warn, error, success.
pub proof fn lemma_level_order(a: MessageLevel, b: MessageLevel)
    ensures
        a.partial_cmp_spec(&b) == Some(Ordering::Less) <==> a.spec_code() < b.spec_code(),
        a.partial_cmp_spec(&b) == Some(Ordering::Equal) <==> a == b,
        a.partial_cmp_spec(&b) == Some(Ordering::Greater) <==> a.spec_code() > b.spec_code(),
        MessageLevel::Trace.partial_cmp_spec(&MessageLevel::Debug) == Some(Ordering::Less),
        MessageLevel::Debug.partial_cmp_spec(&MessageLevel::Info) == Some(Ordering::Less),
        MessageLevel::Info.partial_cmp_spec(&MessageLevel::Warn) == Some(Ordering::Less),
        MessageLevel::Warn.partial_cmp_spec(&MessageLevel::Error) == Some(Ordering::Less),
        MessageLevel::Error.partial_cmp_spec(&MessageLevel::Success) == Some(Ordering::Less),
{
}

} // verus!
