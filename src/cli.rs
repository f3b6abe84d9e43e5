use vstd::prelude::*;

verus! {

/// The command-line options of the service program.
pub struct Options {
    pub install: bool,
    pub uninstall: bool,
    pub restart: bool,
    pub log_file: Option<String>,
    pub ip_log_file: Option<String>,
    pub time_delay: Option<u64>,
    pub verbose: bool,
}

/// What one invocation of the program does once the configuration is written.
#[derive(Clone, Copy, Debug, PartialEq, Eq, Structural)]
pub enum Command {
    Install,
    Uninstall,
    Restart,
    /// Only the configuration was to be changed: nothing more to do.
    Configure,
    /// Hand the process to the service dispatcher and run the polling loop.
    Run,
}

impl Options {
    /// True when the options change a setting.
    pub open spec fn sets_config(&self) -> bool {
        self.log_file is Some || self.ip_log_file is Some || self.time_delay is Some
    }

    /// The command to carry out: install, uninstall and restart in that order
    /// of precedence; otherwise nothing more when a setting was given, and
    /// the service loop when none was.
    pub fn command(&self) -> (r: Command)
        ensures
            r == Command::Install <==> self.install,
            r == Command::Uninstall <==> !self.install && self.uninstall,
            r == Command::Restart <==> !self.install && !self.uninstall && self.restart,
            r == Command::Configure <==> !self.install && !self.uninstall && !self.restart
                && self.sets_config(),
            r == Command::Run <==> !self.install && !self.uninstall && !self.restart
                && !self.sets_config(),
    {
        if self.install {
            Command::Install
        } else if self.uninstall {
            Command::Uninstall
        } else if self.restart {
            Command::Restart
        } else if self.log_file.is_some() || self.ip_log_file.is_some()
            || self.time_delay.is_some() {
            Command::Configure
        } else {
            Command::Run
        }
    }

    /// A failure while writing the configuration ends the program, except
    /// during an install, which goes on without it.
    pub fn config_errors_are_fatal(&self) -> (r: bool)
        ensures
            r == !self.install,
    {
        !self.install
    }
}

} // verus!
