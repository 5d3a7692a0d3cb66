//! Records as the driver sees them: what was consumed, and what is to be
//! published.

use vstd::prelude::*;

verus! {

/// The bytes of an optional byte string.
pub open spec fn bytes_view(bytes: Option<Vec<u8>>) -> Option<Seq<u8>> {
    match bytes {
        Some(b) => Some(b@),
        None => None,
    }
}

/// A record consumed from the source topic.
#[derive(Clone, Debug, PartialEq, Eq)]
pub struct Record {
    /// The record's key, if it has one.
    pub key: Option<Vec<u8>>,
    /// The record's payload, if it has one.
    pub payload: Option<Vec<u8>>,
    /// The topic it was read from.
    pub topic: String,
    /// The partition it was read from.
    pub partition: i32,
    /// Its offset within the partition.
    pub offset: i64,
}

/// The mathematical value of a `Record`.
pub struct RecordView {
    pub key: Option<Seq<u8>>,
    pub payload: Option<Seq<u8>>,
    pub topic: Seq<char>,
    pub partition: i32,
    pub offset: i64,
}

impl View for Record {
    type V = RecordView;

    open spec fn view(&self) -> RecordView {
        RecordView {
            key: bytes_view(self.key),
            payload: bytes_view(self.payload),
            topic: self.topic@,
            partition: self.partition,
            offset: self.offset,
        }
    }
}

/// A record to be published: the consumed key and payload, and the topic
/// they go to.
#[derive(Clone, Debug, PartialEq, Eq)]
pub struct Outgoing {
    /// The destination topic.
    pub topic: String,
    /// The key of the consumed record.
    pub key: Option<Vec<u8>>,
    /// The payload of the consumed record.
    pub payload: Vec<u8>,
}

/// The mathematical value of an `Outgoing`.
pub struct OutgoingView {
    pub topic: Seq<char>,
    pub key: Option<Seq<u8>>,
    pub payload: Seq<u8>,
}

impl View for Outgoing {
    type V = OutgoingView;

    open spec fn view(&self) -> OutgoingView {
        OutgoingView { topic: self.topic@, key: bytes_view(self.key), payload: self.payload@ }
    }
}

} // verus!
