//! Guest launch parameters and their wire encodings.
use vstd::prelude::*;

use crate::sev::Version;

pub mod launcher;

verus! {

/// Configurable SNP policy options, as a set of bits.
///
/// Bits beyond the named flags are kept as they are.
#[derive(Copy, Clone, Debug, Default, PartialEq, Eq, PartialOrd, Ord, Hash, Structural)]
pub struct PolicyFlags {
    /// The raw bit pattern.
    pub bits: u16,
}

impl PolicyFlags {
    /// Enable if SMT is enabled in the host machine.
    pub fn smt() -> (r: PolicyFlags)
        ensures
            r.bits == 1,
    {
        PolicyFlags { bits: 1 }
    }

    /// If enabled, association with a migration agent is allowed.
    pub fn migrate_ma() -> (r: PolicyFlags)
        ensures
            r.bits == 4,
    {
        PolicyFlags { bits: 4 }
    }

    /// If enabled, debugging is allowed.
    pub fn debug() -> (r: PolicyFlags)
        ensures
            r.bits == 8,
    {
        PolicyFlags { bits: 8 }
    }

    /// No flag set.
    pub fn empty() -> (r: PolicyFlags)
        ensures
            r.bits == 0,
    {
        PolicyFlags { bits: 0 }
    }

    /// The flags with exactly the given bits, named or not.
    pub fn from_bits_retain(bits: u16) -> (r: PolicyFlags)
        ensures
            r.bits == bits,
    {
        PolicyFlags { bits }
    }

    /// The raw bit pattern.
    pub fn bits(&self) -> (r: u16)
        ensures
            r == self.bits,
    {
        self.bits
    }

    /// The flags set in either operand.
    pub fn union(self, other: PolicyFlags) -> (r: PolicyFlags)
        ensures
            r.bits == self.bits | other.bits,
    {
        PolicyFlags { bits: self.bits | other.bits }
    }

    /// Whether every flag of `other` is set here.
    pub fn contains(&self, other: PolicyFlags) -> (r: bool)
        ensures
            r == (self.bits & other.bits == other.bits),
    {
        self.bits & other.bits == other.bits
    }
}

/// Describes a policy that the AMD Secure Processor will enforce.
#[derive(Copy, Clone, Debug, Default, PartialEq, Eq, Structural)]
pub struct Policy {
    /// The various policy options are encoded as bit flags.
    pub flags: PolicyFlags,
    /// The desired minimum platform firmware version.
    pub minfw: Version,
}

/// The 64-bit policy word: minor version in bits 0-7, major version in bits
/// 8-15, the low byte of the flags with the reserved bit 1 forced on in bits
/// 16-23, and nothing above.
pub open spec fn policy_word(flags: u16, major: u8, minor: u8) -> u64 {
    (minor as int + major as int * 0x100 + ((flags | 0b10) as int % 0x100) * 0x10000) as u64
}

impl Policy {
    /// The policy word that the firmware receives for this policy.
    pub open spec fn spec_u64(&self) -> u64 {
        policy_word(self.flags.bits, self.minfw.major, self.minfw.minor)
    }

    /// Convert a Policy to its u64 counterpart.
    pub fn as_u64(&self) -> (r: u64)
        ensures
            r == self.spec_u64(),
    {
        let mut val: u64 = 0;

        let minor_version = self.minfw.minor as u64;
        let mut major_version = self.minfw.major as u64;

        // Bit 1 of the policy flags is reserved by the firmware and must always be set.
        let flags: u16 = self.flags.bits | 0b10;
        let mut flags_64 = flags as u64;

        major_version = major_version << 8;
        flags_64 = flags_64 << 16;

        val = val | minor_version;
        val = val | major_version;
        val = val | flags_64;
        val = val & 0x00FFFFFF;

        let fl = self.flags.bits;
        let ma = self.minfw.major;
        let mi = self.minfw.minor;
        assert(val == policy_word(fl, ma, mi)) by (bit_vector)
            requires
                val == (0u64 | (mi as u64) | ((ma as u64) << 8) | (((fl | 0b10u16) as u64) << 16))
                    & 0x00FFFFFF,
        ;
        val
    }
}

/// Whatever the flags, the flags field of the packed policy (bits 16-23) has its
/// reserved bit 1 set.
pub proof fn lemma_policy_reserved_bit(p: Policy)
    ensures
        (p.spec_u64() >> 16) & 0b10 == 0b10,
{
    let fl = p.flags.bits;
    let ma = p.minfw.major;
    let mi = p.minfw.minor;
    assert((policy_word(fl, ma, mi) >> 16) & 0b10 == 0b10) by (bit_vector);
}

/// Bit 1 of the whole packed word is bit 1 of the minor version, so it is set
/// whenever that bit of the minor version is set, whatever the flags.
pub proof fn lemma_policy_word_bit_one(p: Policy)
    requires
        p.minfw.minor & 0b10 == 0b10,
    ensures
        p.spec_u64() & 0b10 == 0b10,
{
    let fl = p.flags.bits;
    let ma = p.minfw.major;
    let mi = p.minfw.minor;
    assert(policy_word(fl, ma, mi) & 0b10 == 0b10) by (bit_vector)
        requires
            mi & 0b10 == 0b10,
    ;
}

/// The packed policy carries the minimum firmware version: the minor number in
/// its low byte and the major number in the byte above.
pub proof fn lemma_policy_version_bytes(p: Policy)
    ensures
        p.spec_u64() & 0xFF == p.minfw.minor as u64,
        (p.spec_u64() >> 8) & 0xFF == p.minfw.major as u64,
{
    let fl = p.flags.bits;
    let ma = p.minfw.major;
    let mi = p.minfw.minor;
    assert(policy_word(fl, ma, mi) & 0xFF == mi as u64) by (bit_vector);
    assert((policy_word(fl, ma, mi) >> 8) & 0xFF == ma as u64) by (bit_vector);
}

/// The packed policy fits in 24 bits, so masking it to them changes nothing, as
/// often as it is done.
pub proof fn lemma_policy_fits_24_bits(p: Policy)
    ensures
        p.spec_u64() == p.spec_u64() & 0x00FFFFFF,
        p.spec_u64() & 0x00FFFFFF == (p.spec_u64() & 0x00FFFFFF) & 0x00FFFFFF,
{
    let fl = p.flags.bits;
    let ma = p.minfw.major;
    let mi = p.minfw.minor;
    assert(policy_word(fl, ma, mi) == policy_word(fl, ma, mi) & 0x00FFFFFF) by (bit_vector);
}

/// Encapsulates the various data needed to begin the launch process.
#[derive(Copy, Clone, Debug, Default, PartialEq, Eq)]
pub struct Start {
    /// Describes a policy that the AMD Secure Processor will enforce.
    pub policy: Policy,
    /// Userspace address of migration agent. Ignored if `ma_en` is false.
    pub ma_uaddr: u64,
    /// Indicates if this guest is associated with a migration agent.
    pub ma_en: bool,
    /// Indicates that this launch flow is launching an IMI for the purpose of
    /// guest-assisted migration.
    pub imi_en: bool,
    /// Hypervisor provided value to indicate guest OS visible workarounds. The
    /// format is hypervisor defined.
    pub gosvw: [u8; 16],
}

/// Encapsulates the various data needed to begin the update process.
#[derive(Copy, Clone, Debug, PartialEq, Eq)]
pub struct Update {
    /// Indicates that this page is part of the IMI of the guest.
    pub imi_page: bool,
    /// Encoded page type.
    pub page_type: PageType,
    /// VMPL3 permission mask.
    pub vmpl3_perms: VmplPerms,
    /// VMPL2 permission mask.
    pub vmpl2_perms: VmplPerms,
    /// VMPL1 permission mask.
    pub vmpl1_perms: VmplPerms,
}

/// VMPL permission masks, as a set of bits.
#[derive(Copy, Clone, Debug, Default, PartialEq, Eq, PartialOrd, Ord, Hash, Structural)]
pub struct VmplPerms {
    /// The raw bit pattern.
    pub bits: u8,
}

impl VmplPerms {
    /// Page is readable by the VMPL.
    pub fn read() -> (r: VmplPerms)
        ensures
            r.bits == 1,
    {
        VmplPerms { bits: 1 }
    }

    /// Page is writeable by the VMPL.
    pub fn write() -> (r: VmplPerms)
        ensures
            r.bits == 2,
    {
        VmplPerms { bits: 2 }
    }

    /// Page is executable by the VMPL in CPL3.
    pub fn execute_user() -> (r: VmplPerms)
        ensures
            r.bits == 4,
    {
        VmplPerms { bits: 4 }
    }

    /// Page is executable by the VMPL in CPL2, CPL1, and CPL0.
    pub fn execute_supervisor() -> (r: VmplPerms)
        ensures
            r.bits == 8,
    {
        VmplPerms { bits: 8 }
    }

    /// No permission.
    pub fn empty() -> (r: VmplPerms)
        ensures
            r.bits == 0,
    {
        VmplPerms { bits: 0 }
    }

    /// The permissions with exactly the given bits.
    pub fn from_bits_retain(bits: u8) -> (r: VmplPerms)
        ensures
            r.bits == bits,
    {
        VmplPerms { bits }
    }

    /// The raw bit pattern, as the firmware receives it.
    pub fn bits(&self) -> (r: u8)
        ensures
            r == self.bits,
    {
        self.bits
    }

    /// The permissions granted by either operand.
    pub fn union(self, other: VmplPerms) -> (r: VmplPerms)
        ensures
            r.bits == self.bits | other.bits,
    {
        VmplPerms { bits: self.bits | other.bits }
    }

    /// Whether every permission of `other` is granted here.
    pub fn contains(&self, other: VmplPerms) -> (r: bool)
        ensures
            r == (self.bits & other.bits == other.bits),
    {
        self.bits & other.bits == other.bits
    }
}

/// Encoded page types for a launch update.
#[derive(Copy, Clone, Debug, PartialEq, Eq, Structural)]
pub enum PageType {
    /// A normal data page.
    Normal,
    /// A VMSA page.
    Vmsa,
    /// A page full of zeroes.
    Zero,
    /// A page that is encrypted but not measured.
    Unmeasured,
    /// A page for the firmware to store secrets for the guest.
    Secrets,
    /// A page for the hypervisor to provide CPUID function values.
    Cpuid,
}

impl PageType {
    /// The firmware's code for this page type.
    pub open spec fn code(self) -> u8 {
        match self {
            PageType::Normal => 1,
            PageType::Vmsa => 2,
            PageType::Zero => 3,
            PageType::Unmeasured => 4,
            PageType::Secrets => 5,
            PageType::Cpuid => 6,
        }
    }

    /// Get the encoded value for a page type.
    pub fn value(self) -> (r: u8)
        ensures
            r == self.code(),
    {
        match self {
            PageType::Normal => 0x1,
            PageType::Vmsa => 0x2,
            PageType::Zero => 0x3,
            PageType::Unmeasured => 0x4,
            PageType::Secrets => 0x5,
            PageType::Cpuid => 0x6,
        }
    }
}

/// Distinct page types have distinct codes, all within 1 to 6.
pub proof fn lemma_page_type_codes_distinct(a: PageType, b: PageType)
    ensures
        1 <= a.code() <= 6,
        a.code() == b.code() <==> a == b,
{
}

/// Encapsulates the data needed to complete a guest launch.
#[derive(Copy, Clone, Debug, Default, PartialEq, Eq)]
pub struct Finish {
    /// Userspace address of the ID block. Ignored if `id_block_en` is false.
    pub id_block_uaddr: u64,
    /// Userspace address of the authentication information of the ID block.
    /// Ignored if `id_block_en` is false.
    pub id_auth_uaddr: u64,
    /// Indicates that the ID block is present.
    pub id_block_en: bool,
    /// Indicates that the author key is present in the ID authentication
    /// information structure. Ignored if `id_block_en` is false.
    pub auth_key_en: bool,
    /// Opaque host-supplied data to describe the guest. The firmware does not
    /// interpret this value.
    pub host_data: [u8; 32],
}

} // verus!
