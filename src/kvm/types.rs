//! Payloads of the guest launch commands.
use vstd::prelude::*;

use std::marker::PhantomData;

use crate::launch::{Finish, PageType, Start, Update};
use crate::sev::{Encode, Id};
use crate::wire::{le32, le64, push_bytes, push_u32, push_u64, push_u8, push_zeros, zeros};

verus! {

/// Length of the opaque host data that completes a launch.
pub const KVM_SEV_SNP_FINISH_DATA_SIZE: usize = 32;

/// Relies on `<[u8]>::as_ptr`: the address at which the buffer starts.
#[verifier::external_body]
fn address_of(data: &[u8]) -> u64 {
    data.as_ptr() as u64
}

/// 1 for true, 0 for false.
pub open spec fn flag_byte(b: bool) -> u8 {
    if b {
        1
    } else {
        0
    }
}

fn to_flag_byte(b: bool) -> (r: u8)
    ensures
        r == flag_byte(b),
{
    if b {
        1
    } else {
        0
    }
}

/// Initialize the SEV-SNP platform in KVM.
pub struct Init {
    /// Reserved space, always 0 when the command is issued.
    flags: u64,
}

impl Init {
    #[verifier::type_invariant]
    spec fn reserved_zero(&self) -> bool {
        self.flags == 0
    }
}

impl Default for Init {
    fn default() -> (r: Self)
        ensures
            r.spec_bytes() == zeros(8),
    {
        Init { flags: 0 }
    }
}

impl Id for Init {
    open spec fn spec_id() -> u32 {
        256
    }

    fn id() -> (r: u32) {
        256
    }
}

impl Encode for Init {
    /// Eight reserved bytes, all zero.
    open spec fn spec_bytes(&self) -> Seq<u8> {
        zeros(8)
    }

    fn to_bytes(&self) -> (r: Vec<u8>) {
        proof {
            use_type_invariant(self);
        }
        let mut out: Vec<u8> = Vec::new();
        push_u64(&mut out, self.flags);
        assert(le64(0) =~= zeros(8)) by {
            assert((0u64 >> 8) as u8 == 0 && (0u64 >> 16) as u8 == 0 && (0u64 >> 24) as u8 == 0
                && (0u64 >> 32) as u8 == 0 && (0u64 >> 40) as u8 == 0 && (0u64 >> 48) as u8 == 0
                && (0u64 >> 56) as u8 == 0 && 0u64 as u8 == 0) by (bit_vector);
        }
        assert(out@ =~= zeros(8));
        out
    }
}

/// Initialize the flow to launch a guest.
pub struct LaunchStart<'a> {
    /// Guest policy word.
    pub policy: u64,
    /// Userspace address of migration agent.
    pub ma_uaddr: u64,
    /// 1 if this guest is associated with a migration agent. Otherwise 0.
    pub ma_en: u8,
    /// 1 if this launch flow is launching an IMI for the purpose of
    /// guest-assisted migration. Otherwise 0.
    pub imi_en: u8,
    /// Hypervisor provided value to indicate guest OS visible workarounds.
    pub gosvw: [u8; 16],
    /// Ties the payload to the borrow it was made from.
    pub _phantom: PhantomData<&'a ()>,
}

impl<'a> LaunchStart<'a> {
    pub fn new(start: &'a Start) -> (r: Self)
        ensures
            r.policy == start.policy.spec_u64(),
            r.ma_uaddr == start.ma_uaddr,
            r.ma_en == flag_byte(start.ma_en),
            r.imi_en == flag_byte(start.imi_en),
            r.gosvw == start.gosvw,
    {
        LaunchStart {
            policy: start.policy.as_u64(),
            ma_uaddr: start.ma_uaddr,
            ma_en: to_flag_byte(start.ma_en),
            imi_en: to_flag_byte(start.imi_en),
            gosvw: start.gosvw,
            _phantom: PhantomData,
        }
    }
}

impl<'a> Id for LaunchStart<'a> {
    open spec fn spec_id() -> u32 {
        257
    }

    fn id() -> (r: u32) {
        257
    }
}

impl<'a> Encode for LaunchStart<'a> {
    /// C layout: policy, migration agent address, the two enable bytes, the
    /// workaround bytes, and 6 bytes of tail padding (40 in all).
    open spec fn spec_bytes(&self) -> Seq<u8> {
        le64(self.policy) + le64(self.ma_uaddr) + seq![self.ma_en, self.imi_en] + self.gosvw@
            + zeros(6)
    }

    fn to_bytes(&self) -> (r: Vec<u8>) {
        let mut out: Vec<u8> = Vec::new();
        push_u64(&mut out, self.policy);
        push_u64(&mut out, self.ma_uaddr);
        push_u8(&mut out, self.ma_en);
        push_u8(&mut out, self.imi_en);
        push_bytes(&mut out, &self.gosvw);
        push_zeros(&mut out, 6);
        assert(out@ =~= self.spec_bytes());
        out
    }
}

/// Insert pages into the guest physical address space.
pub struct LaunchUpdate<'a> {
    /// Userspace address of the page needed to be encrypted.
    pub uaddr: u64,
    /// Length of the page needed to be encrypted.
    pub len: u32,
    /// Indicates that this page is part of the IMI of the guest.
    pub imi_page: u8,
    /// Encoded page type.
    pub page_type: u8,
    /// VMPL permission mask for VMPL3.
    pub vmpl3_perms: u8,
    /// VMPL permission mask for VMPL2.
    pub vmpl2_perms: u8,
    /// VMPL permission mask for VMPL1.
    pub vmpl1_perms: u8,
    /// Ties the payload to the borrow it was made from.
    pub _phantom: PhantomData<&'a ()>,
}

impl<'a> LaunchUpdate<'a> {
    /// The update of the pages in `data`, which stays borrowed while the update
    /// lives. The length field holds 32 bits, so `data` may be no longer.
    pub fn new(data: &'a [u8], update: &Update) -> (r: Self)
        requires
            data@.len() <= u32::MAX,
        ensures
            r.len == data@.len(),
            r.imi_page == flag_byte(update.imi_page),
            r.page_type == update.page_type.code(),
            r.vmpl3_perms == update.vmpl3_perms.bits,
            r.vmpl2_perms == update.vmpl2_perms.bits,
            r.vmpl1_perms == update.vmpl1_perms.bits,
    {
        LaunchUpdate {
            uaddr: address_of(data),
            len: data.len() as u32,
            imi_page: to_flag_byte(update.imi_page),
            page_type: update.page_type.value(),
            vmpl3_perms: update.vmpl3_perms.bits(),
            vmpl2_perms: update.vmpl2_perms.bits(),
            vmpl1_perms: update.vmpl1_perms.bits(),
            _phantom: PhantomData,
        }
    }
}

impl<'a> Id for LaunchUpdate<'a> {
    open spec fn spec_id() -> u32 {
        258
    }

    fn id() -> (r: u32) {
        258
    }
}

impl<'a> Encode for LaunchUpdate<'a> {
    /// C layout: address, length, the five one-byte fields, and 7 bytes of tail
    /// padding (24 in all).
    open spec fn spec_bytes(&self) -> Seq<u8> {
        le64(self.uaddr) + le32(self.len) + seq![
            self.imi_page,
            self.page_type,
            self.vmpl3_perms,
            self.vmpl2_perms,
            self.vmpl1_perms,
        ] + zeros(7)
    }

    fn to_bytes(&self) -> (r: Vec<u8>) {
        let mut out: Vec<u8> = Vec::new();
        push_u64(&mut out, self.uaddr);
        push_u32(&mut out, self.len);
        push_u8(&mut out, self.imi_page);
        push_u8(&mut out, self.page_type);
        push_u8(&mut out, self.vmpl3_perms);
        push_u8(&mut out, self.vmpl2_perms);
        push_u8(&mut out, self.vmpl1_perms);
        push_zeros(&mut out, 7);
        assert(out@ =~= self.spec_bytes());
        out
    }
}

/// Complete the guest launch flow.
pub struct LaunchFinish<'a> {
    /// Userspace address of the ID block.
    pub id_block_uaddr: u64,
    /// Userspace address of the authentication information of the ID block.
    pub id_auth_uaddr: u64,
    /// 1 if the ID block is present. Otherwise 0.
    pub id_block_en: u8,
    /// 1 if the author key is present. Otherwise 0.
    pub auth_key_en: u8,
    /// Opaque host-supplied data to describe the guest.
    pub host_data: [u8; KVM_SEV_SNP_FINISH_DATA_SIZE],
    /// Ties the payload to the borrow it was made from.
    pub _phantom: PhantomData<&'a ()>,
}

impl<'a> LaunchFinish<'a> {
    pub fn new(finish: &'a Finish) -> (r: Self)
        ensures
            r.id_block_uaddr == finish.id_block_uaddr,
            r.id_auth_uaddr == finish.id_auth_uaddr,
            r.id_block_en == flag_byte(finish.id_block_en),
            r.auth_key_en == flag_byte(finish.auth_key_en),
            r.host_data == finish.host_data,
    {
        LaunchFinish {
            id_block_uaddr: finish.id_block_uaddr,
            id_auth_uaddr: finish.id_auth_uaddr,
            id_block_en: to_flag_byte(finish.id_block_en),
            auth_key_en: to_flag_byte(finish.auth_key_en),
            host_data: finish.host_data,
            _phantom: PhantomData,
        }
    }
}

impl<'a> Id for LaunchFinish<'a> {
    open spec fn spec_id() -> u32 {
        259
    }

    fn id() -> (r: u32) {
        259
    }
}

impl<'a> Encode for LaunchFinish<'a> {
    /// C layout: the two addresses, the two enable bytes, the host data, and 6
    /// bytes of tail padding (56 in all).
    open spec fn spec_bytes(&self) -> Seq<u8> {
        le64(self.id_block_uaddr) + le64(self.id_auth_uaddr) + seq![
            self.id_block_en,
            self.auth_key_en,
        ] + self.host_data@ + zeros(6)
    }

    fn to_bytes(&self) -> (r: Vec<u8>) {
        let mut out: Vec<u8> = Vec::new();
        push_u64(&mut out, self.id_block_uaddr);
        push_u64(&mut out, self.id_auth_uaddr);
        push_u8(&mut out, self.id_block_en);
        push_u8(&mut out, self.auth_key_en);
        push_bytes(&mut out, &self.host_data);
        push_zeros(&mut out, 6);
        assert(out@ =~= self.spec_bytes());
        out
    }
}

} // verus!
