//! Command-line shape of the daemon, and the choices made from it.

use vstd::prelude::*;

verus! {

/// Parsed command line.
#[derive(Debug)]
pub struct Cli {
    /// Override of the config file path.
    pub config: Option<String>,
    /// Override of the health socket path.
    pub socket: Option<String>,
    pub command: Option<Command>,
}

/// Subcommands.
#[derive(Debug)]
pub enum Command {
    /// Run the daemon in the foreground (the default).
    Run(RunArgs),
    /// Query a running daemon for status.
    Status,
    /// Ask a running daemon to reload its configuration.
    Reload,
    /// Validate a configuration file without running the daemon.
    Validate(ValidateArgs),
    /// Report whether the required macOS permissions are granted.
    CheckPermissions,
}

/// Arguments of `run`.
#[derive(Debug, Clone, Copy, PartialEq, Eq, Structural)]
pub struct RunArgs {
    /// Write logs to stdout as well as the log file.
    pub stdout_logs: bool,
}

impl Default for RunArgs {
    fn default() -> (r: RunArgs)
        ensures
            r == (RunArgs { stdout_logs: false }),
    {
        RunArgs { stdout_logs: false }
    }
}

/// Arguments of `validate`.
#[derive(Debug)]
pub struct ValidateArgs {
    pub path: String,
}

impl Cli {
    /// Take the subcommand to run, leaving none behind; without one, run
    /// the daemon with default arguments.
    pub fn take_command(&mut self) -> (r: Command)
        ensures
            final(self).command is None,
            final(self).config == old(self).config,
            final(self).socket == old(self).socket,
            r == match old(self).command {
                Some(c) => c,
                None => Command::Run(RunArgs { stdout_logs: false }),
            },
    {
        match self.command.take() {
            Some(c) => c,
            None => Command::Run(RunArgs::default()),
        }
    }
}

/// The config file to load: the command-line override, else the
/// `SLEDGE_CONFIG` environment value, else the default path; `None` if
/// there is none of the three.
pub fn choose_config_path(cli_config: Option<String>, env_config: Option<String>, default_path: Option<String>) -> (r:
    Option<String>)
    ensures
        r == match cli_config {
            Some(p) => Some(p),
            None => match env_config {
                Some(p) => Some(p),
                None => default_path,
            },
        },
{
    match cli_config {
        Some(p) => Some(p),
        None => match env_config {
            Some(p) => Some(p),
            None => default_path,
        },
    }
}

} // verus!
