//! The commands that caller threads send to the command loop.
//!
//! A command travels over the channel as a pair: a [`Message`] kind and a
//! [`MessageValue`] payload. Exactly one payload slot is populated, and the
//! kind says which one; transport commands carry no payload at all.

use vstd::prelude::*;

verus! {

/// The kind tag of a command.
#[derive(Debug, PartialEq, Eq, Structural, Clone, Copy)]
pub enum Message {
    /// Carries nothing and asks for nothing; the command loop ignores it.
    Noop,
    /// A notification kind with no transport effect; ignored like `Noop`.
    PlaylistUpdated,
    /// Ask the command loop to pause the live session, if it is playing.
    PlaybackPause,
    /// Ask the command loop to resume the live session, if it is paused.
    PlaybackResume,
    /// Ask the command loop to set the gain of the live session from the
    /// payload's `float` slot.
    EffectVolume,
}

/// The payload of a command: at most one slot is populated.
///
/// The `float` slot carries a gain as the raw bit pattern of the caller's
/// double-precision value, so that the verified core never touches the
/// number itself and hands back exactly the bits it was given.
#[derive(Clone, Debug)]
pub struct MessageValue {
    pub float: Option<u64>,
    pub integer: Option<i32>,
    pub string: Option<String>,
}

/// The mathematical image of a [`MessageValue`].
pub struct MessageValueView {
    pub float: Option<u64>,
    pub integer: Option<i32>,
    pub string: Option<Seq<char>>,
}

impl View for MessageValue {
    type V = MessageValueView;

    open spec fn view(&self) -> MessageValueView {
        MessageValueView {
            float: self.float,
            integer: self.integer,
            string: self.string.deep_view(),
        }
    }
}

impl MessageValue {
    /// The empty payload, for kinds that carry nothing.
    pub fn none() -> (v: MessageValue)
        ensures
            v@.float is None,
            v@.integer is None,
            v@.string is None,
    {
        MessageValue { float: None, integer: None, string: None }
    }

    /// A payload carrying one gain, as its raw bit pattern.
    pub fn float(float: u64) -> (v: MessageValue)
        ensures
            v@.float == Some(float),
            v@.integer is None,
            v@.string is None,
    {
        MessageValue { float: Some(float), integer: None, string: None }
    }

    /// A payload carrying an integer slot.
    pub fn integer(integer: Option<i32>) -> (v: MessageValue)
        ensures
            v@.float is None,
            v@.integer == integer,
            v@.string is None,
    {
        MessageValue { float: None, integer, string: None }
    }

    /// A payload carrying a string slot.
    pub fn string(string: Option<String>) -> (v: MessageValue)
        ensures
            v@.float is None,
            v@.integer is None,
            v@.string == string.deep_view(),
    {
        MessageValue { float: None, integer: None, string }
    }
}

} // verus!
