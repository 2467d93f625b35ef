//! The kinds of notice that engines send one another about a block.

use vstd::prelude::*;
use crate::text::str_equal;

verus! {

/// The kind of a peer message. On the wire it is a lower-case word.
#[derive(Clone, Copy, Debug, PartialEq, Eq, Structural)]
pub enum DevmodeMessage {
    /// A peer confirms that its notice of receipt arrived.
    Ack,
    /// A peer has published a block.
    Published,
    /// A peer has received a block.
    Received,
}

impl DevmodeMessage {
    /// The word that stands for this kind on the wire.
    pub open spec fn wire_name(self) -> Seq<char> {
        match self {
            DevmodeMessage::Ack => "ack"@,
            DevmodeMessage::Published => "published"@,
            DevmodeMessage::Received => "received"@,
        }
    }

    /// The kind that a wire word stands for, if it stands for any.
    pub open spec fn parse(word: Seq<char>) -> Option<DevmodeMessage> {
        if word == "ack"@ {
            Some(DevmodeMessage::Ack)
        } else if word == "published"@ {
            Some(DevmodeMessage::Published)
        } else if word == "received"@ {
            Some(DevmodeMessage::Received)
        } else {
            None
        }
    }

    /// Reads a message kind from its wire word. Any other word is an error.
    pub fn from_str(s: &str) -> (parsed: Result<DevmodeMessage, &'static str>)
        ensures
            match Self::parse(s@) {
                Some(kind) => parsed == Ok::<DevmodeMessage, &'static str>(kind),
                None => parsed matches Err(reason) && reason@ == "Invalid message type"@,
            },
    {
        if str_equal(s, "ack") {
            Ok(DevmodeMessage::Ack)
        } else if str_equal(s, "published") {
            Ok(DevmodeMessage::Published)
        } else if str_equal(s, "received") {
            Ok(DevmodeMessage::Received)
        } else {
            Err("Invalid message type")
        }
    }

    /// The wire word of this kind.
    pub fn as_str(&self) -> (word: &'static str)
        ensures
            word@ == self.wire_name(),
    {
        match self {
            DevmodeMessage::Ack => "ack",
            DevmodeMessage::Published => "published",
            DevmodeMessage::Received => "received",
        }
    }
}

/// Reading the wire word of a kind gives that kind back.
pub proof fn lemma_wire_name_round_trip(kind: DevmodeMessage)
    ensures
        DevmodeMessage::parse(kind.wire_name()) == Some(kind),
{
    reveal_strlit("ack");
    reveal_strlit("published");
    reveal_strlit("received");
    assert("ack"@.len() == 3);
    assert("published"@.len() == 9);
    assert("received"@.len() == 8);
}

} // verus!
