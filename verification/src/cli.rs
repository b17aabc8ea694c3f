//! The shape of the command line.
//!
//! Parsing the arguments is the caller's business; what the flags mean is
//! decided here.

use vstd::prelude::*;

verus! {

/// The whole command line.
#[derive(Debug, Clone, Copy, PartialEq, Eq, Structural)]
pub struct Cli {
    pub command: Option<Command>,
    /// Run in test mode: Enter toggles the recording.
    pub test: bool,
}

/// A subcommand.
#[derive(Debug, Clone, Copy, PartialEq, Eq, Structural)]
pub enum Command {
    /// Install integration components.
    Install(InstallArgs),
}

/// The flags of the install subcommand.
#[derive(Debug, Clone, Copy, PartialEq, Eq, Structural)]
pub struct InstallArgs {
    /// Install the status bar module and its style.
    pub waybar: bool,
    /// Install the user service.
    pub service: bool,
    /// Install the launcher menu.
    pub elephant: bool,
    /// Install every component, without asking.
    pub all: bool,
    /// Overwrite existing files without asking.
    pub force: bool,
}

impl InstallArgs {
    /// Whether any flag names what to install.
    pub fn has_specific_flags(&self) -> (out: bool)
        ensures
            out == (self.waybar || self.service || self.elephant || self.all),
    {
        self.waybar || self.service || self.elephant || self.all
    }
}

/// What the program is to do.
#[derive(Debug, Clone, Copy, PartialEq, Eq, Structural)]
pub enum RunMode {
    /// Run the installer with these flags.
    Install(InstallArgs),
    /// Run in test mode.
    Test,
    /// Run as the dictation daemon.
    Daemon,
}

impl Cli {
    /// What the command line asks for: a subcommand comes before the test
    /// flag, and the daemon is the default.
    pub fn run_mode(&self) -> (out: RunMode)
        ensures
            out == match self.command {
                Some(Command::Install(args)) => RunMode::Install(args),
                None => if self.test {
                    RunMode::Test
                } else {
                    RunMode::Daemon
                },
            },
    {
        match self.command {
            Some(Command::Install(args)) => RunMode::Install(args),
            None => if self.test {
                RunMode::Test
            } else {
                RunMode::Daemon
            },
        }
    }
}

} // verus!
