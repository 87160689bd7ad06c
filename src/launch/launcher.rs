//! The launch sequencer: a guest launch taken one ordered step at a time.
//!
//! Each step is a command that the caller issues on the VM handle; the caller
//! then hands the outcome of that `ioctl` to the matching transition. A
//! transition consumes the launcher in its prior state and returns it in the
//! next one only when the step succeeded, so a launcher in a later state exists
//! only once every earlier step has succeeded, and each state offers only its
//! own steps.
use vstd::prelude::*;

use crate::kvm::types::{Init, LaunchFinish, LaunchStart, LaunchUpdate};
use crate::kvm::Command;

verus! {

/// A new SNP-encrypted VM instance, one that was not previously running.
pub struct New;

/// An SNP-encrypted VM instance whose launch has been started.
pub struct Started;

/// An SNP-encrypted VM instance whose launch is complete.
pub struct Finished;

/// Facilitates the correct execution of the SNP launch process.
pub struct Launcher<T> {
    _state: T,
    sev_fd: u32,
}

impl<T> Launcher<T> {
    /// The platform handle that this launch's commands name.
    pub closed spec fn spec_sev_fd(&self) -> u32 {
        self.sev_fd
    }

    /// The platform handle that this launch's commands name.
    pub fn sev_fd(&self) -> (r: u32)
        ensures
            r == self.spec_sev_fd(),
    {
        self.sev_fd
    }
}

impl Launcher<New> {
    /// The command that initializes SEV-SNP in KVM, for the platform handle
    /// `sev_fd`. Its outcome goes to [`Launcher::new`].
    pub fn init_command<'b>(sev_fd: u32, init: &'b Init) -> (r: Command<'b, Init>)
        ensures
            r.code == 256,
            r.sev_fd == sev_fd,
            r.error == 0,
            r.data is Shared,
    {
        Command::from(sev_fd, init)
    }

    /// Begins the launch once the initialization command has succeeded; its
    /// failure is returned as it came.
    pub fn new(sev_fd: u32, init: Result<u32, std::io::Error>) -> (r: Result<
        Launcher<New>,
        std::io::Error,
    >)
        ensures
            r is Ok <==> init is Ok,
            r matches Ok(l) ==> l.spec_sev_fd() == sev_fd,
            r matches Err(e) ==> init == Err::<u32, std::io::Error>(e),
    {
        match init {
            Ok(_) => Ok(Launcher { _state: New, sev_fd }),
            Err(e) => Err(e),
        }
    }

    /// The command that starts the launch flow.
    pub fn start_command<'b, 'c>(&self, launch_start: &'b mut LaunchStart<'c>) -> (r: Command<
        'b,
        LaunchStart<'c>,
    >)
        ensures
            r.code == 257,
            r.sev_fd == self.spec_sev_fd(),
            r.error == 0,
            r.data is Exclusive,
            r.data.value() == *old(launch_start),
    {
        Command::from_mut(self.sev_fd, launch_start)
    }

    /// Moves to [`Started`] once the start command has succeeded. On failure
    /// the launcher is gone: the guest cannot be launched any further.
    pub fn start(self, outcome: Result<u32, std::io::Error>) -> (r: Result<
        Launcher<Started>,
        std::io::Error,
    >)
        ensures
            r is Ok <==> outcome is Ok,
            r matches Ok(l) ==> l.spec_sev_fd() == self.spec_sev_fd(),
            r matches Err(e) ==> outcome == Err::<u32, std::io::Error>(e),
    {
        match outcome {
            Ok(_) => Ok(Launcher { _state: Started, sev_fd: self.sev_fd }),
            Err(e) => Err(e),
        }
    }
}

impl Launcher<Started> {
    /// The command that encrypts one region of guest memory into the guest.
    pub fn update_command<'b, 'c>(&self, launch_update: &'b LaunchUpdate<'c>) -> (r: Command<
        'b,
        LaunchUpdate<'c>,
    >)
        ensures
            r.code == 258,
            r.sev_fd == self.spec_sev_fd(),
            r.error == 0,
            r.data is Shared,
            r.data.value() == *launch_update,
    {
        Command::from(self.sev_fd, launch_update)
    }

    /// Takes the outcome of an update command: the launch stays started, and
    /// the outcome's failure, if any, is returned as it came.
    pub fn update_data(&mut self, outcome: Result<u32, std::io::Error>) -> (r: Result<
        (),
        std::io::Error,
    >)
        ensures
            r is Ok <==> outcome is Ok,
            r matches Err(e) ==> outcome == Err::<u32, std::io::Error>(e),
            final(self).spec_sev_fd() == old(self).spec_sev_fd(),
    {
        match outcome {
            Ok(_) => Ok(()),
            Err(e) => Err(e),
        }
    }

    /// The command that completes the launch flow.
    pub fn finish_command<'b, 'c>(&self, launch_finish: &'b LaunchFinish<'c>) -> (r: Command<
        'b,
        LaunchFinish<'c>,
    >)
        ensures
            r.code == 259,
            r.sev_fd == self.spec_sev_fd(),
            r.error == 0,
            r.data is Shared,
            r.data.value() == *launch_finish,
    {
        Command::from(self.sev_fd, launch_finish)
    }

    /// Moves to [`Finished`] once the finish command has succeeded; no update
    /// can follow.
    pub fn finish(self, outcome: Result<u32, std::io::Error>) -> (r: Result<
        Launcher<Finished>,
        std::io::Error,
    >)
        ensures
            r is Ok <==> outcome is Ok,
            r matches Ok(l) ==> l.spec_sev_fd() == self.spec_sev_fd(),
            r matches Err(e) ==> outcome == Err::<u32, std::io::Error>(e),
    {
        match outcome {
            Ok(_) => Ok(Launcher { _state: Finished, sev_fd: self.sev_fd }),
            Err(e) => Err(e),
        }
    }
}

} // verus!
