//! The platform command record, the payload tagging traits, and the firmware's
//! error taxonomy.
use vstd::prelude::*;

use crate::wire::{le32, le64, push_u32, push_u64, read_u32};

verus! {

/// std's I/O error, carried through unopened: a transport failure, or the
/// OS-level error that a zero firmware status refers to.
#[verifier::external_type_specification]
#[verifier::external_body]
pub struct ExIoError(std::io::Error);

/// A firmware or API version: `major.minor`.
#[derive(Copy, Clone, Debug, Default, PartialEq, Eq, PartialOrd, Ord, Hash, Structural)]
pub struct Version {
    /// The major version number.
    pub major: u8,
    /// The minor version number.
    pub minor: u8,
}

/// A payload type with a fixed operation code in its device's command namespace.
pub trait Id {
    /// The operation code that the kernel associates with this payload.
    spec fn spec_id() -> u32;

    fn id() -> (r: u32)
        ensures
            r == Self::spec_id(),
    ;
}

/// A payload type with a fixed, padding-free byte layout understood by the kernel.
pub trait Encode {
    /// The exact bytes that the kernel reads for this value.
    spec fn spec_bytes(&self) -> Seq<u8>;

    fn to_bytes(&self) -> (r: Vec<u8>)
        ensures
            r@ == self.spec_bytes(),
    ;
}

/// How a command refers to its payload: read-only, or open to write-back by the kernel.
pub enum Payload<'a, T> {
    /// The kernel is expected only to read the payload.
    Shared(&'a T),
    /// The kernel may write results back into the payload.
    Exclusive(&'a mut T),
}

impl<'a, T> Payload<'a, T> {
    /// The payload value that is referred to.
    pub open spec fn value(&self) -> T {
        match self {
            Payload::Shared(t) => **t,
            Payload::Exclusive(t) => **t,
        }
    }

}

/// Length of the platform command record on the wire.
pub const COMMAND_SIZE: usize = 16;

/// A command for the platform device: operation code, payload, and the firmware
/// status that the kernel writes back.
pub struct Command<'a, T: Id> {
    /// The operation code, fixed by the payload type.
    pub code: u32,
    /// The payload; the command borrows it and does not own it.
    pub data: Payload<'a, T>,
    /// The firmware status; written by the kernel on return.
    pub error: u32,
}

/// Wire form of a platform command (packed): code, payload address, status.
pub open spec fn command_bytes(code: u32, data_address: u64, error: u32) -> Seq<u8> {
    le32(code) + le64(data_address) + le32(error)
}

impl<'a, T: Id> Command<'a, T> {
    /// A command whose payload the kernel may write back into.
    pub fn from_mut(subcmd: &'a mut T) -> (r: Command<'a, T>)
        ensures
            r.code == T::spec_id(),
            r.error == 0,
            r.data is Exclusive,
            r.data.value() == *old(subcmd),
    {
        Command { code: T::id(), data: Payload::Exclusive(subcmd), error: 0 }
    }

    /// A command whose payload the kernel is expected only to read.
    pub fn from(subcmd: &'a T) -> (r: Command<'a, T>)
        ensures
            r.code == T::spec_id(),
            r.error == 0,
            r.data is Shared,
            r.data.value() == *subcmd,
    {
        Command { code: T::id(), data: Payload::Shared(subcmd), error: 0 }
    }

    /// The record handed to the kernel, given where the encoded payload lives.
    pub fn to_bytes(&self, data_address: u64) -> (r: Vec<u8>)
        ensures
            r@ == command_bytes(self.code, data_address, self.error),
            r@.len() == COMMAND_SIZE,
    {
        let mut out: Vec<u8> = Vec::new();
        push_u32(&mut out, self.code);
        push_u64(&mut out, data_address);
        push_u32(&mut out, self.error);
        assert(out@ =~= command_bytes(self.code, data_address, self.error));
        out
    }

    /// Takes in the firmware status from a record that the kernel has returned.
    pub fn record_status(&mut self, record: &[u8])
        requires
            record@.len() == COMMAND_SIZE,
        ensures
            le32(final(self).error) == record@.subrange(12, 16),
            final(self).code == old(self).code,
            final(self).data == old(self).data,
    {
        self.error = read_u32(record, 12);
    }

    /// The firmware's verdict on a failed call: the OS error when no status was
    /// set, else the status translated.
    pub fn encapsulate(&self, err: std::io::Error) -> (r: Indeterminate<Error>)
        ensures
            r == translate_status(self.error, err),
    {
        Indeterminate::<Error>::from_status(self.error, err)
    }
}

/// The error kinds that the SEV firmware reports.
#[derive(Debug)]
pub enum Error {
    /// The failure happened below the firmware: in the ioctl transport.
    IoError(std::io::Error),
    /// The platform state is invalid for this command.
    InvalidPlatformState,
    /// The guest state is invalid for this command.
    InvalidGuestState,
    /// The platform configuration is invalid.
    InvalidConfig,
    /// A memory buffer is too small.
    InvalidLen,
    /// The platform is already owned.
    AlreadyOwned,
    /// The certificate is invalid.
    InvalidCertificate,
    /// Request is not allowed by guest policy.
    PolicyFailure,
    /// The guest is inactive.
    Inactive,
    /// The address provided is invalid.
    InvalidAddress,
    /// The provided signature is invalid.
    BadSignature,
    /// The provided measurement is invalid.
    BadMeasurement,
    /// The ASID is already owned.
    AsidOwned,
    /// The ASID is invalid.
    InvalidAsid,
    /// WBINVD instruction required.
    WbinvdRequired,
    /// DF_FLUSH invocation required.
    DfFlushRequired,
    /// The guest handle is invalid.
    InvalidGuest,
    /// The command issued is invalid.
    InvalidCommand,
    /// The guest is active.
    Active,
    /// A hardware condition has occurred affecting the platform; it is safe to
    /// re-allocate parameter buffers.
    HardwarePlatform,
    /// A hardware condition has occurred affecting the platform; it is unsafe to
    /// re-allocate parameter buffers.
    HardwareUnsafe,
    /// Feature is unsupported.
    Unsupported,
    /// A parameter is invalid.
    InvalidParam,
    /// The firmware has run out of a resource required to carry out the command.
    ResourceLimit,
    /// The firmware detected an integrity check failure of the secure data.
    SecureDataInvalid,
}

/// An outcome that may or may not be understood.
#[derive(Debug)]
pub enum Indeterminate<T> {
    /// The outcome is known.
    Known(T),
    /// The outcome could not be identified.
    Unknown,
}

/// The named kind for a nonzero firmware status code, if the code is one of the
/// firmware's published codes.
pub open spec fn status_error(code: u32) -> Option<Error> {
    match code {
        0x01 => Some(Error::InvalidPlatformState),
        0x02 => Some(Error::InvalidGuestState),
        0x03 => Some(Error::InvalidConfig),
        0x04 => Some(Error::InvalidLen),
        0x05 => Some(Error::AlreadyOwned),
        0x06 => Some(Error::InvalidCertificate),
        0x07 => Some(Error::PolicyFailure),
        0x08 => Some(Error::Inactive),
        0x09 => Some(Error::InvalidAddress),
        0x0A => Some(Error::BadSignature),
        0x0B => Some(Error::BadMeasurement),
        0x0C => Some(Error::AsidOwned),
        0x0D => Some(Error::InvalidAsid),
        0x0E => Some(Error::WbinvdRequired),
        0x0F => Some(Error::DfFlushRequired),
        0x10 => Some(Error::InvalidGuest),
        0x11 => Some(Error::InvalidCommand),
        0x12 => Some(Error::Active),
        0x13 => Some(Error::HardwarePlatform),
        0x14 => Some(Error::HardwareUnsafe),
        0x15 => Some(Error::Unsupported),
        0x16 => Some(Error::InvalidParam),
        0x17 => Some(Error::ResourceLimit),
        0x18 => Some(Error::SecureDataInvalid),
        _ => None,
    }
}

/// What a failed call with firmware status `code` means: status 0 says the
/// failure lies in the OS-level error `os`; a published code names its kind;
/// any other code is not understood.
pub open spec fn translate_status(code: u32, os: std::io::Error) -> Indeterminate<Error> {
    if code == 0 {
        Indeterminate::Known(Error::IoError(os))
    } else {
        match status_error(code) {
            Some(e) => Indeterminate::Known(e),
            None => Indeterminate::Unknown,
        }
    }
}

/// Every code above the published range is not understood, whatever the OS
/// error.
pub proof fn lemma_unpublished_status_unknown(code: u32, os: std::io::Error)
    requires
        code > 0x18,
    ensures
        translate_status(code, os) is Unknown,
{
}

/// Every published nonzero code is understood, as a kind of its own: no two
/// codes share a kind.
pub proof fn lemma_published_status_known(code: u32, other: u32, os: std::io::Error)
    requires
        1 <= code <= 0x18,
        1 <= other <= 0x18,
        code != other,
    ensures
        translate_status(code, os) is Known,
        status_error(code) != status_error(other),
{
}

impl Indeterminate<Error> {
    /// Translates a firmware status code; `os` is the OS-level error of the call,
    /// which status 0 refers to.
    pub fn from_status(code: u32, os: std::io::Error) -> (r: Indeterminate<Error>)
        ensures
            r == translate_status(code, os),
    {
        let e = match code {
            0x00 => Error::IoError(os),
            0x01 => Error::InvalidPlatformState,
            0x02 => Error::InvalidGuestState,
            0x03 => Error::InvalidConfig,
            0x04 => Error::InvalidLen,
            0x05 => Error::AlreadyOwned,
            0x06 => Error::InvalidCertificate,
            0x07 => Error::PolicyFailure,
            0x08 => Error::Inactive,
            0x09 => Error::InvalidAddress,
            0x0A => Error::BadSignature,
            0x0B => Error::BadMeasurement,
            0x0C => Error::AsidOwned,
            0x0D => Error::InvalidAsid,
            0x0E => Error::WbinvdRequired,
            0x0F => Error::DfFlushRequired,
            0x10 => Error::InvalidGuest,
            0x11 => Error::InvalidCommand,
            0x12 => Error::Active,
            0x13 => Error::HardwarePlatform,
            0x14 => Error::HardwareUnsafe,
            0x15 => Error::Unsupported,
            0x16 => Error::InvalidParam,
            0x17 => Error::ResourceLimit,
            0x18 => Error::SecureDataInvalid,
            _ => {
                return Indeterminate::Unknown;
            },
        };
        Indeterminate::Known(e)
    }
}

} // verus!
