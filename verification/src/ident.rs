//! The values that the UUID operations take and give.

use vstd::prelude::*;
use vstd::utf8::encode_utf8;
use crate::ring_calls::random_node;
use crate::uuid_calls::{format_hyphenated, get_version};
use crate::uuid_text::{canonical_text, version_number};

verus! {

/// A UUID: 16 bytes, the first of them first in its text.
#[derive(Clone, Copy, Debug, PartialEq, Eq)]
pub struct Uuid {
    pub bytes: [u8; 16],
}

impl View for Uuid {
    type V = Seq<u8>;

    open spec fn view(&self) -> Seq<u8> {
        self.bytes@
    }
}

impl Uuid {
    /// The canonical form of the UUID.
    pub fn hyphenated(&self) -> (r: String)
        ensures
            r@ == canonical_text(self@),
    {
        format_hyphenated(&self.bytes)
    }

    /// The version of the UUID, 0 where it has no known one.
    pub fn version(&self) -> (r: u8)
        ensures
            r == version_number(self@),
    {
        get_version(&self.bytes).unwrap_or(0)
    }
}

/// The node that a process puts into its time-based UUIDs.
#[derive(Clone, Copy, Debug, PartialEq, Eq)]
pub struct NodeId {
    pub bytes: [u8; 6],
}

impl View for NodeId {
    type V = Seq<u8>;

    open spec fn view(&self) -> Seq<u8> {
        self.bytes@
    }
}

impl NodeId {
    /// The node of six bytes that were drawn; none where the draw failed.
    pub fn from_random(drawn: Result<[u8; 6], ring::error::Unspecified>) -> (r: Option<NodeId>)
        ensures
            match drawn {
                Ok(bytes) => r == Some(NodeId { bytes }),
                Err(_) => r.is_none(),
            },
    {
        match drawn {
            Ok(bytes) => Some(NodeId { bytes }),
            Err(_) => None,
        }
    }

    /// A node from the system's random source; none where the source fails.
    /// A process makes one and keeps it.
    pub fn generate() -> (r: Option<NodeId>) {
        NodeId::from_random(random_node())
    }
}

/// A script value after coercion: text, or the bytes of a buffer.
#[derive(Clone, Debug)]
pub enum Input {
    Text(String),
    Bytes(Vec<u8>),
}

/// The bytes that an input stands for: those of a buffer, or the UTF-8
/// bytes of a text.
pub open spec fn input_bytes(value: Input) -> Seq<u8> {
    match value {
        Input::Text(text) => encode_utf8(text@),
        Input::Bytes(bytes) => bytes@,
    }
}

} // verus!
