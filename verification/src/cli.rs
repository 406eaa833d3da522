//! What the user asks for on the command line.

use vstd::prelude::*;

verus! {

/// The forms in which a build script and what it refers to are handed over.
#[derive(Clone, Copy, Debug, PartialEq, Eq, Structural)]
pub enum PackageType {
    /// A compressed archive of a directory.
    TarGz,
    /// An archive of a directory.
    Tar,
    /// A directory with the build script in it.
    Directory,
    /// The build script alone.
    BuildScript,
}

impl PackageType {
    /// The name of the form as it is shown to the user.
    pub open spec fn name_text(self) -> Seq<char> {
        match self {
            PackageType::TarGz => "TarGz"@,
            PackageType::Tar => "Tar"@,
            PackageType::Directory => "Directory"@,
            PackageType::BuildScript => "BuildScript"@,
        }
    }

    /// Whether the form can hold files beside the build script.
    pub open spec fn holds_files(self) -> bool {
        self != PackageType::BuildScript
    }

    /// Whether the form is an archive, which is unpacked before use.
    pub open spec fn is_archive(self) -> bool {
        self == PackageType::Tar || self == PackageType::TarGz
    }

    /// The name of the form as it is shown to the user.
    pub fn name(&self) -> (text: String)
        ensures
            text@ == self.name_text(),
    {
        match self {
            PackageType::TarGz => String::from_str("TarGz"),
            PackageType::Tar => String::from_str("Tar"),
            PackageType::Directory => String::from_str("Directory"),
            PackageType::BuildScript => String::from_str("BuildScript"),
        }
    }
}

impl Default for PackageType {
    fn default() -> (package_type: Self)
        ensures
            package_type == PackageType::BuildScript,
    {
        PackageType::BuildScript
    }
}

/// How much is logged: each level includes those after it.
#[derive(Clone, Copy, Debug, PartialEq, Eq, Structural)]
pub enum LogLevel {
    Trace,
    Debug,
    Info,
    Warn,
    Error,
}

impl Default for LogLevel {
    fn default() -> (level: Self)
        ensures
            level == LogLevel::Info,
    {
        LogLevel::Info
    }
}

/// What `unpack` is called with.
#[derive(Debug, PartialEq, Eq)]
pub struct UnpackArgs {
    /// The package to unpack.
    pub source_path: String,
    /// Where its content goes.
    pub destination_path: String,
}

/// What `pack` is called with.
#[derive(Debug, PartialEq, Eq)]
pub struct PackArgs {
    /// The build script to pack.
    pub source_path: String,
    /// Where the package goes.
    pub destination_path: String,
    /// The form of the package.
    pub package_type: PackageType,
}

/// What `dry-run` is called with.
#[derive(Debug, PartialEq, Eq)]
pub struct DryRunArgs {
    pub package: String,
}

/// What `run` is called with.
#[derive(Debug, PartialEq, Eq)]
pub struct RunArgs {
    pub dry_run_args: DryRunArgs,
    /// Where the image is written.
    pub output_path: String,
}

/// The four things the program does.
#[derive(Debug, PartialEq, Eq)]
pub enum CliCommand {
    Pack { args: PackArgs },
    Unpack { args: UnpackArgs },
    DryRun { args: DryRunArgs },
    Run { args: RunArgs },
}

/// A whole command line.
#[derive(Debug, PartialEq, Eq)]
pub struct Cli {
    pub command: CliCommand,
    /// The number of threads for asynchronous work.
    pub async_threads: usize,
    /// The most threads for blocking work, if limited.
    pub max_blocking_threads: Option<usize>,
    pub log_level: LogLevel,
    /// Whether the output of commands and tools is thrown away.
    pub no_exec_logs: bool,
}

impl Cli {
    /// A command line with nothing set but the command: one thread for
    /// asynchronous work, no limit on blocking threads, logging from
    /// `Info` on, and the output of commands shown.
    pub fn with_defaults(command: CliCommand) -> (cli: Cli)
        ensures
            cli.command == command,
            cli.async_threads == 1,
            cli.max_blocking_threads is None,
            cli.log_level == LogLevel::Info,
            !cli.no_exec_logs,
    {
        Cli {
            command,
            async_threads: 1,
            max_blocking_threads: None,
            log_level: LogLevel::Info,
            no_exec_logs: false,
        }
    }
}

} // verus!
