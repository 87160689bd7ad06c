//! Typed, verified building blocks for the AMD SEV-SNP platform and guest-launch
//! interfaces that the Linux kernel exposes through `ioctl`s.
//!
//! The kernel takes its commands as fixed binary records. This crate builds
//! those records byte for byte, packs guest policies, translates firmware
//! status codes, and sequences a guest launch so that its steps can only be
//! taken in order. Opening the devices and issuing the `ioctl`s is left to the
//! caller, who hands the outcomes back.
use vstd::prelude::*;

pub mod firmware;
pub mod kvm;
pub mod launch;
pub mod sev;
pub mod wire;

pub use sev::Version;

use wire::{le32, lemma_le32_injective, push_u32, push_u8, push_zeros, read_u32, zeros};

verus! {

/// A description of the SEV-SNP platform's build information.
///
/// Builds are ordered by major version, then minor version, then build ID.
#[derive(Copy, Clone, Debug, Default, PartialEq, Eq, Ord, Hash, Structural)]
pub struct Build {
    /// The version information.
    pub version: Version,
    /// The build ID.
    pub build: u32,
}

/// How `a` compares with `b`: by major version, then minor version, then
/// build ID.
pub open spec fn build_order(a: Build, b: Build) -> std::cmp::Ordering {
    if a.version.major != b.version.major {
        if a.version.major < b.version.major {
            std::cmp::Ordering::Less
        } else {
            std::cmp::Ordering::Greater
        }
    } else if a.version.minor != b.version.minor {
        if a.version.minor < b.version.minor {
            std::cmp::Ordering::Less
        } else {
            std::cmp::Ordering::Greater
        }
    } else if a.build != b.build {
        if a.build < b.build {
            std::cmp::Ordering::Less
        } else {
            std::cmp::Ordering::Greater
        }
    } else {
        std::cmp::Ordering::Equal
    }
}

fn order_u32(a: u32, b: u32) -> (r: std::cmp::Ordering)
    ensures
        r == (if a < b {
            std::cmp::Ordering::Less
        } else if a > b {
            std::cmp::Ordering::Greater
        } else {
            std::cmp::Ordering::Equal
        }),
{
    if a < b {
        std::cmp::Ordering::Less
    } else if a > b {
        std::cmp::Ordering::Greater
    } else {
        std::cmp::Ordering::Equal
    }
}

impl PartialOrd for Build {
    fn partial_cmp(&self, other: &Build) -> (r: Option<std::cmp::Ordering>) {
        match order_u32(self.version.major as u32, other.version.major as u32) {
            std::cmp::Ordering::Equal => {},
            unequal => {
                return Some(unequal);
            },
        }
        match order_u32(self.version.minor as u32, other.version.minor as u32) {
            std::cmp::Ordering::Equal => {},
            unequal => {
                return Some(unequal);
            },
        }
        Some(order_u32(self.build, other.build))
    }
}

impl vstd::std_specs::cmp::PartialOrdSpecImpl for Build {
    open spec fn obeys_partial_cmp_spec() -> bool {
        true
    }

    open spec fn partial_cmp_spec(&self, other: &Build) -> Option<std::cmp::Ordering> {
        Some(build_order(*self, *other))
    }
}

/// The build order is total and antisymmetric: exactly one of less, equal and
/// greater holds, equal only for equal builds, and swapping the operands swaps
/// less and greater.
pub proof fn lemma_build_order_total(a: Build, b: Build)
    ensures
        build_order(a, b) is Equal <==> a == b,
        build_order(a, b) is Less <==> build_order(b, a) is Greater,
{
}

/// The build order is transitive.
pub proof fn lemma_build_order_transitive(a: Build, b: Build, c: Build)
    requires
        build_order(a, b) is Less,
        build_order(b, c) is Less,
    ensures
        build_order(a, c) is Less,
{
}

/// Length of a build description on the wire.
pub const BUILD_SIZE: usize = 8;

/// C layout of a build description: major, minor, 2 bytes of padding, build ID.
pub open spec fn build_bytes(b: Build) -> Seq<u8> {
    seq![b.version.major, b.version.minor] + zeros(2) + le32(b.build)
}

/// A build description is determined by its bytes.
pub proof fn lemma_build_bytes_determine(a: Build, b: Build)
    requires
        build_bytes(a) == build_bytes(b),
    ensures
        a == b,
{
    let x = build_bytes(a);
    let y = build_bytes(b);
    assert(x[0] == y[0] && x[1] == y[1]);
    assert(le32(a.build) =~= x.subrange(4, 8) && le32(b.build) =~= y.subrange(4, 8));
    lemma_le32_injective(a.build, b.build);
}

impl Build {
    pub fn to_bytes(&self) -> (r: Vec<u8>)
        ensures
            r@ == build_bytes(*self),
    {
        let mut out: Vec<u8> = Vec::new();
        push_u8(&mut out, self.version.major);
        push_u8(&mut out, self.version.minor);
        push_zeros(&mut out, 2);
        push_u32(&mut out, self.build);
        assert(out@ =~= build_bytes(*self));
        out
    }

    /// Reads a build description; the padding bytes are not looked at.
    /// `None` when `bytes` is not exactly one description long.
    pub fn from_bytes(bytes: &[u8]) -> (r: Option<Build>)
        ensures
            r is Some <==> bytes@.len() == BUILD_SIZE,
            r matches Some(b) ==> b.version.major == bytes@[0] && b.version.minor == bytes@[1]
                && le32(b.build) == bytes@.subrange(4, 8),
    {
        if bytes.len() != BUILD_SIZE {
            return None;
        }
        Some(
            Build {
                version: Version { major: bytes[0], minor: bytes[1] },
                build: read_u32(bytes, 4),
            },
        )
    }
}

} // verus!
