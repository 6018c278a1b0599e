//! The pending-write accumulator.
//!
//! A producer coalesces one logical request here before it is queued: first a
//! command byte, then zero or more runs of data bytes.  The accumulated
//! request is handed off as one payload at flush time and the accumulator is
//! cleared for the next request.

use vstd::prelude::*;

use crate::buffer::{buf_bytes, buf_clear, buf_extend, buf_len, buf_new, buf_to_vec};

verus! {

/// The abstract state of a pending request: an optional command byte and the
/// data bytes accumulated so far, in submission order.
pub ghost struct PendingView {
    pub cmd: Option<u8>,
    pub data: Seq<u8>,
}

/// The payload a pending request hands to the submission queue: the command
/// byte followed by the data bytes.
pub open spec fn pending_payload(v: PendingView) -> Seq<u8> {
    match v.cmd {
        Some(c) => seq![c] + v.data,
        None => v.data,
    }
}

/// One request being accumulated before it is queued.
pub struct PendingRequest {
    cmd: Option<u8>,
    data: heapless::Vec<u8, 8192>,
}

impl View for PendingRequest {
    type V = PendingView;

    closed spec fn view(&self) -> PendingView {
        PendingView { cmd: self.cmd, data: buf_bytes(self.data) }
    }
}

impl PendingRequest {
    /// An empty accumulator: no command byte, no data.
    pub fn new() -> (r: Self)
        ensures
            r@.cmd is None,
            r@.data == Seq::<u8>::empty(),
    {
        PendingRequest { cmd: None, data: buf_new() }
    }

    /// Whether a command byte has been set since the last flush.
    pub fn has_command(&self) -> (b: bool)
        ensures
            b == (self@.cmd is Some),
    {
        self.cmd.is_some()
    }

    /// The number of data bytes accumulated so far.
    pub fn data_len(&self) -> (n: usize)
        ensures
            n == self@.data.len(),
    {
        buf_len(&self.data)
    }

    /// Sets the command byte, leaving the data bytes untouched.
    pub fn set_command(&mut self, cmd: u8)
        ensures
            final(self)@.cmd == Some(cmd),
            final(self)@.data == old(self)@.data,
    {
        self.cmd = Some(cmd);
    }

    /// Appends data bytes to the pending request.
    pub fn append_data(&mut self, data: &[u8])
        requires
            old(self)@.data.len() + data@.len() <= crate::buffer::DATA_CAPACITY as int,
        ensures
            final(self)@.cmd == old(self)@.cmd,
            final(self)@.data == old(self)@.data + data@,
    {
        let _ = buf_extend(&mut self.data, data);
    }

    /// Hands off the accumulated payload (command byte followed by the data
    /// bytes) and clears the accumulator.
    pub fn take_payload(&mut self) -> (r: Vec<u8>)
        requires
            old(self)@.cmd is Some,
        ensures
            r@ == pending_payload(old(self)@),
            r@.len() >= 1,
            final(self)@.cmd is None,
            final(self)@.data == Seq::<u8>::empty(),
    {
        let c = self.cmd.unwrap();
        self.cmd = None;
        let mut payload: Vec<u8> = Vec::new();
        payload.push(c);
        let mut data_bytes = buf_to_vec(&self.data);
        payload.append(&mut data_bytes);
        buf_clear(&mut self.data);
        assert(payload@ =~= pending_payload(old(self)@));
        payload
    }

    /// Clears any pending command byte and data bytes.
    pub fn reset(&mut self)
        ensures
            final(self)@.cmd is None,
            final(self)@.data == Seq::<u8>::empty(),
    {
        self.cmd = None;
        buf_clear(&mut self.data);
    }
}

} // verus!
