//! Commands for the guest-scoped encrypted-operation `ioctl` on a VM handle.
use vstd::prelude::*;

use crate::sev::{Id, Payload};
use crate::wire::{le32, le64, push_u32, push_u64, push_zeros, read_u32, zeros};

pub mod types;

verus! {

/// Length of the guest command record on the wire.
pub const COMMAND_SIZE: usize = 24;

/// A command for the VM handle: operation code, payload, the firmware status
/// that the kernel writes back, and the platform handle that carries it out.
pub struct Command<'a, T: Id> {
    /// The operation code, fixed by the payload type.
    pub code: u32,
    /// The payload; the command borrows it and does not own it.
    pub data: Payload<'a, T>,
    /// The firmware status; written by the kernel on return.
    pub error: u32,
    /// The descriptor of the platform handle that carries the command out.
    pub sev_fd: u32,
}

/// Wire form of a guest command (C layout): code, 4 bytes of padding, payload
/// address, status, platform handle.
pub open spec fn command_bytes(code: u32, data_address: u64, error: u32, sev_fd: u32) -> Seq<
    u8,
> {
    le32(code) + zeros(4) + le64(data_address) + le32(error) + le32(sev_fd)
}

impl<'a, T: Id> Command<'a, T> {
    /// A command whose payload the kernel may write back into.
    pub fn from_mut(sev_fd: u32, subcmd: &'a mut T) -> (r: Command<'a, T>)
        ensures
            r.code == T::spec_id(),
            r.error == 0,
            r.sev_fd == sev_fd,
            r.data is Exclusive,
            r.data.value() == *old(subcmd),
    {
        Command { code: T::id(), data: Payload::Exclusive(subcmd), error: 0, sev_fd }
    }

    /// A command whose payload the kernel is expected only to read.
    pub fn from(sev_fd: u32, subcmd: &'a T) -> (r: Command<'a, T>)
        ensures
            r.code == T::spec_id(),
            r.error == 0,
            r.sev_fd == sev_fd,
            r.data is Shared,
            r.data.value() == *subcmd,
    {
        Command { code: T::id(), data: Payload::Shared(subcmd), error: 0, sev_fd }
    }

    /// The record handed to the kernel, given where the encoded payload lives.
    pub fn to_bytes(&self, data_address: u64) -> (r: Vec<u8>)
        ensures
            r@ == command_bytes(self.code, data_address, self.error, self.sev_fd),
            r@.len() == COMMAND_SIZE,
    {
        let mut out: Vec<u8> = Vec::new();
        push_u32(&mut out, self.code);
        push_zeros(&mut out, 4);
        push_u64(&mut out, data_address);
        push_u32(&mut out, self.error);
        push_u32(&mut out, self.sev_fd);
        assert(out@ =~= command_bytes(self.code, data_address, self.error, self.sev_fd));
        out
    }

    /// Takes in the firmware status from a record that the kernel has returned.
    pub fn record_status(&mut self, record: &[u8])
        requires
            record@.len() == COMMAND_SIZE,
        ensures
            le32(final(self).error) == record@.subrange(16, 20),
            final(self).code == old(self).code,
            final(self).sev_fd == old(self).sev_fd,
            final(self).data == old(self).data,
    {
        self.error = read_u32(record, 16);
    }
}

} // verus!
