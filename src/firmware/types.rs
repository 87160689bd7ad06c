//! Payloads of the platform commands.
use vstd::prelude::*;

use std::marker::PhantomData;

use crate::sev::{Encode, Id, Version};
use crate::wire::{
    le32, le64, lemma_le32_injective, lemma_le64_injective, push_u32, push_u64, push_u8, read_u32,
    read_u64,
};

verus! {

/// Length of the platform status payload on the wire.
pub const PLATFORM_STATUS_SIZE: usize = 19;

/// Length of the extended configuration payloads on the wire.
pub const EXT_CONFIG_SIZE: usize = 20;

/// Query the SEV-SNP platform status.
#[derive(Default)]
pub struct PlatformStatus {
    /// The firmware API version (major.minor).
    pub version: Version,
    /// The platform state.
    pub state: u8,
    /// The platform build ID.
    pub build_id: u32,
    /// The number of valid guests maintained by the SEV-SNP firmware.
    pub guest_count: u32,
    /// The installed TCB version.
    pub tcb_version: u64,
}

impl Id for PlatformStatus {
    open spec fn spec_id() -> u32 {
        256
    }

    fn id() -> (r: u32) {
        256
    }
}

impl Encode for PlatformStatus {
    /// Packed layout: major, minor, state, build ID, guest count, TCB version.
    open spec fn spec_bytes(&self) -> Seq<u8> {
        seq![self.version.major, self.version.minor, self.state] + le32(self.build_id) + le32(
            self.guest_count,
        ) + le64(self.tcb_version)
    }

    fn to_bytes(&self) -> (r: Vec<u8>) {
        let mut out: Vec<u8> = Vec::new();
        push_u8(&mut out, self.version.major);
        push_u8(&mut out, self.version.minor);
        push_u8(&mut out, self.state);
        push_u32(&mut out, self.build_id);
        push_u32(&mut out, self.guest_count);
        push_u64(&mut out, self.tcb_version);
        assert(out@ =~= self.spec_bytes());
        out
    }
}

impl PlatformStatus {
    /// Reads back the payload that the kernel filled in; `None` when `bytes`
    /// is not exactly one payload long.
    pub fn from_bytes(bytes: &[u8]) -> (r: Option<PlatformStatus>)
        ensures
            r is Some <==> bytes@.len() == PLATFORM_STATUS_SIZE,
            r matches Some(s) ==> s.spec_bytes() == bytes@,
    {
        if bytes.len() != PLATFORM_STATUS_SIZE {
            return None;
        }
        let s = PlatformStatus {
            version: Version { major: bytes[0], minor: bytes[1] },
            state: bytes[2],
            build_id: read_u32(bytes, 3),
            guest_count: read_u32(bytes, 7),
            tcb_version: read_u64(bytes, 11),
        };
        assert(s.spec_bytes() =~= bytes@);
        Some(s)
    }
}

/// A status payload is determined by its bytes, so reading back what was
/// written gives the same payload.
pub proof fn lemma_platform_status_bytes_determine(a: PlatformStatus, b: PlatformStatus)
    requires
        a.spec_bytes() == b.spec_bytes(),
    ensures
        a == b,
{
    let x = a.spec_bytes();
    let y = b.spec_bytes();
    assert(x[0] == y[0] && x[1] == y[1] && x[2] == y[2]);
    assert(le32(a.build_id) =~= x.subrange(3, 7) && le32(b.build_id) =~= y.subrange(3, 7));
    assert(le32(a.guest_count) =~= x.subrange(7, 11) && le32(b.guest_count) =~= y.subrange(7, 11));
    assert(le64(a.tcb_version) =~= x.subrange(11, 19) && le64(b.tcb_version) =~= y.subrange(11, 19));
    lemma_le32_injective(a.build_id, b.build_id);
    lemma_le32_injective(a.guest_count, b.guest_count);
    lemma_le64_injective(a.tcb_version, b.tcb_version);
}

/// Set the system wide SNP variables.
#[derive(Default)]
pub struct SetExtConfig<'a> {
    /// Address of the SNP configuration, or 0 when the reported TCB does not
    /// need to be updated.
    pub config_address: u64,
    /// Address of the extended guest request certificate chain, or 0 when the
    /// previous certificates should be removed.
    pub certs_address: u64,
    /// Length of the certs.
    pub certs_len: u32,
    /// Ties the payload to the borrow it was made from.
    pub _phantom: PhantomData<&'a ()>,
}

/// Packed layout shared by both extended configuration payloads.
pub open spec fn ext_config_bytes(config_address: u64, certs_address: u64, certs_len: u32) -> Seq<
    u8,
> {
    le64(config_address) + le64(certs_address) + le32(certs_len)
}

fn ext_config_to_bytes(config_address: u64, certs_address: u64, certs_len: u32) -> (r: Vec<u8>)
    ensures
        r@ == ext_config_bytes(config_address, certs_address, certs_len),
{
    let mut out: Vec<u8> = Vec::new();
    push_u64(&mut out, config_address);
    push_u64(&mut out, certs_address);
    push_u32(&mut out, certs_len);
    assert(out@ =~= ext_config_bytes(config_address, certs_address, certs_len));
    out
}

impl<'a> SetExtConfig<'a> {
    /// The configuration update; 0 for either address is a request, not a
    /// null pointer (see the fields).
    pub fn new(config_address: u64, certs_address: u64, certs_len: u32) -> (r: Self)
        ensures
            r.config_address == config_address,
            r.certs_address == certs_address,
            r.certs_len == certs_len,
    {
        Self { config_address, certs_address, certs_len, _phantom: PhantomData }
    }
}

impl<'a> Id for SetExtConfig<'a> {
    open spec fn spec_id() -> u32 {
        257
    }

    fn id() -> (r: u32) {
        257
    }
}

impl<'a> Encode for SetExtConfig<'a> {
    open spec fn spec_bytes(&self) -> Seq<u8> {
        ext_config_bytes(self.config_address, self.certs_address, self.certs_len)
    }

    fn to_bytes(&self) -> (r: Vec<u8>) {
        ext_config_to_bytes(self.config_address, self.certs_address, self.certs_len)
    }
}

/// Get the system wide SNP variables.
#[derive(Default)]
pub struct GetExtConfig<'a> {
    /// Address of the SNP configuration, or 0 when none is installed.
    pub config_address: u64,
    /// Address of the extended guest request certificate chain, or 0.
    pub certs_address: u64,
    /// Length of the certs.
    pub certs_len: u32,
    /// Ties the payload to the borrow it was made from.
    pub _phantom: PhantomData<&'a ()>,
}

impl<'a> Id for GetExtConfig<'a> {
    open spec fn spec_id() -> u32 {
        258
    }

    fn id() -> (r: u32) {
        258
    }
}

impl<'a> Encode for GetExtConfig<'a> {
    open spec fn spec_bytes(&self) -> Seq<u8> {
        ext_config_bytes(self.config_address, self.certs_address, self.certs_len)
    }

    fn to_bytes(&self) -> (r: Vec<u8>) {
        ext_config_to_bytes(self.config_address, self.certs_address, self.certs_len)
    }
}

/// The configuration payload bytes determine the three fields.
pub proof fn lemma_ext_config_bytes_determine(
    config_address: u64,
    certs_address: u64,
    certs_len: u32,
    config_address2: u64,
    certs_address2: u64,
    certs_len2: u32,
)
    requires
        ext_config_bytes(config_address, certs_address, certs_len) == ext_config_bytes(
            config_address2,
            certs_address2,
            certs_len2,
        ),
    ensures
        config_address == config_address2,
        certs_address == certs_address2,
        certs_len == certs_len2,
{
    let x = ext_config_bytes(config_address, certs_address, certs_len);
    let y = ext_config_bytes(config_address2, certs_address2, certs_len2);
    assert(le64(config_address) =~= x.subrange(0, 8) && le64(config_address2) =~= y.subrange(0, 8));
    assert(le64(certs_address) =~= x.subrange(8, 16) && le64(certs_address2) =~= y.subrange(8, 16));
    assert(le32(certs_len) =~= x.subrange(16, 20) && le32(certs_len2) =~= y.subrange(16, 20));
    lemma_le64_injective(config_address, config_address2);
    lemma_le64_injective(certs_address, certs_address2);
    lemma_le32_injective(certs_len, certs_len2);
}

impl<'a> GetExtConfig<'a> {
    /// Reads back the payload that the kernel filled in; `None` when `bytes`
    /// is not exactly one payload long.
    pub fn from_bytes(bytes: &[u8]) -> (r: Option<GetExtConfig<'a>>)
        ensures
            r is Some <==> bytes@.len() == EXT_CONFIG_SIZE,
            r matches Some(c) ==> c.spec_bytes() == bytes@,
    {
        if bytes.len() != EXT_CONFIG_SIZE {
            return None;
        }
        let c = GetExtConfig {
            config_address: read_u64(bytes, 0),
            certs_address: read_u64(bytes, 8),
            certs_len: read_u32(bytes, 16),
            _phantom: PhantomData,
        };
        assert(c.spec_bytes() =~= bytes@);
        Some(c)
    }
}

} // verus!
