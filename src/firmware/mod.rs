//! Platform state, status and configuration, as read from the platform's
//! payloads.
use vstd::prelude::*;

use crate::sev::{Error, Indeterminate, Version};
use crate::Build;
use types::{GetExtConfig, PlatformStatus};

pub mod types;

verus! {

/// The platform state.
///
/// The underlying SEV-SNP platform behaves like a state machine and can only
/// perform certain actions while it is in certain states.
#[derive(Copy, Clone, Debug, PartialEq, Eq, Structural)]
pub enum State {
    /// The platform is uninitialized.
    Uninitialized,
    /// The platform is initialized, but not currently managing any guests.
    Initialized,
}

/// The state that a raw state byte names: 0 and 1 only.
pub open spec fn state_of(byte: u8) -> Option<State> {
    if byte == 0 {
        Some(State::Uninitialized)
    } else if byte == 1 {
        Some(State::Initialized)
    } else {
        None
    }
}

impl State {
    /// The state that a raw state byte names, if any.
    pub fn from_byte(byte: u8) -> (r: Option<State>)
        ensures
            r == state_of(byte),
    {
        match byte {
            0 => Some(State::Uninitialized),
            1 => Some(State::Initialized),
            _ => None,
        }
    }

    /// The state's name.
    pub fn name(&self) -> (r: &'static str)
        ensures
            *self is Uninitialized ==> r@ == "Uninitialized"@,
            *self is Initialized ==> r@ == "Initialized"@,
    {
        match self {
            State::Uninitialized => "Uninitialized",
            State::Initialized => "Initialized",
        }
    }
}

/// Information regarding the SEV-SNP platform's current status.
#[derive(Copy, Clone, Debug, PartialEq, Eq, Structural)]
pub struct Status {
    /// The build number.
    pub build: Build,
    /// The platform's current state.
    pub state: State,
    /// The number of valid guests supervised by this platform.
    pub guests: u32,
    /// The installed TCB version.
    pub tcb_version: u64,
}

impl Status {
    /// The status that a filled-in status payload reports. A state byte other
    /// than 0 or 1 is not understood, and is reported so rather than mapped to
    /// either state.
    pub fn from_platform_status(info: &PlatformStatus) -> (r: Result<Status, Indeterminate<Error>>)
        ensures
            state_of(info.state) is None <==> r is Err,
            r matches Err(e) ==> e is Unknown,
            r matches Ok(s) ==> s == (Status {
                build: Build {
                    version: Version { major: info.version.major, minor: info.version.minor },
                    build: info.build_id,
                },
                state: state_of(info.state)->Some_0,
                guests: info.guest_count,
                tcb_version: info.tcb_version,
            }),
    {
        let state = match State::from_byte(info.state) {
            Some(s) => s,
            None => {
                return Err(Indeterminate::Unknown);
            },
        };
        Ok(Status {
            build: Build {
                version: Version { major: info.version.major, minor: info.version.minor },
                build: info.build_id,
            },
            state,
            guests: info.guest_count,
            tcb_version: info.tcb_version,
        })
    }
}

/// System wide configuration value for SNP.
#[derive(Copy, Clone, Debug, Default, PartialEq, Eq, PartialOrd, Ord, Structural)]
pub struct ExtConfig {
    /// Address of the SNP configuration, or 0 when the reported TCB does not
    /// need to be updated.
    pub config_address: u64,
    /// Address of the extended guest request certificate chain, or 0 when the
    /// previous certificates should be removed.
    pub certs_address: u64,
    /// Length of the certs.
    pub certs_len: u32,
}

impl ExtConfig {
    /// The configuration that a filled-in payload reports, field for field.
    pub fn from_get_ext_config(info: &GetExtConfig) -> (r: ExtConfig)
        ensures
            r.config_address == info.config_address,
            r.certs_address == info.certs_address,
            r.certs_len == info.certs_len,
    {
        ExtConfig {
            config_address: info.config_address,
            certs_address: info.certs_address,
            certs_len: info.certs_len,
        }
    }
}

} // verus!
