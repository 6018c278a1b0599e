//! Queued requests: the immutable payloads handed to the dispatcher.

use vstd::prelude::*;

verus! {

/// An immutable, ordered byte payload: one command byte followed by zero or
/// more data bytes.  Ownership transfers from the producer to the dispatcher
/// at enqueue time; the payload is destroyed once its transfer finishes.
pub struct QueuedRequest {
    bytes: Vec<u8>,
}

impl View for QueuedRequest {
    type V = Seq<u8>;

    closed spec fn view(&self) -> Seq<u8> {
        self.bytes@
    }
}

impl QueuedRequest {
    /// Wraps a complete payload.  The payload always starts with the command
    /// byte, so it is never empty.
    pub fn from_bytes(bytes: Vec<u8>) -> (r: Self)
        requires
            bytes@.len() >= 1,
        ensures
            r@ == bytes@,
    {
        QueuedRequest { bytes }
    }

    /// The command byte: the first byte of the payload.
    pub fn command_byte(&self) -> (c: u8)
        requires
            self@.len() >= 1,
        ensures
            c == self@[0],
    {
        self.bytes[0]
    }

    /// The full payload, command byte first.
    pub fn bytes(&self) -> (r: &Vec<u8>)
        ensures
            r@ == self@,
    {
        &self.bytes
    }

    /// Unwraps the payload, consuming the request.
    pub fn into_bytes(self) -> (r: Vec<u8>)
        ensures
            r@ == self@,
    {
        self.bytes
    }
}

} // verus!
