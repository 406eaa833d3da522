//! Why a run stops.

use crate::text::{decimal, decimal_string};
use vstd::prelude::*;

verus! {

/// The kinds of failure of a run.
#[derive(Clone, Copy, Debug, PartialEq, Eq, Structural)]
pub enum ErrorKind {
    /// The build script is malformed or contradicts itself.
    ConfigError,
    EngineUnreachable,
    ImagePullFailed,
    ContainerCreateFailed,
    ContainerStartFailed,
    ExecStartFailed,
    ExportFailed,
    ContainerRemoveFailed,
    FilesystemAllocationFailed,
    FormatFailed,
    MountFailed,
    OverlayApplyFailed,
    ExportStageFailed,
    /// Something that is no longer needed could not be removed.
    CleanupFailed,
}

impl ErrorKind {
    /// The kind's name.
    pub open spec fn name_text(self) -> Seq<char> {
        match self {
            ErrorKind::ConfigError => "ConfigError"@,
            ErrorKind::EngineUnreachable => "EngineUnreachable"@,
            ErrorKind::ImagePullFailed => "ImagePullFailed"@,
            ErrorKind::ContainerCreateFailed => "ContainerCreateFailed"@,
            ErrorKind::ContainerStartFailed => "ContainerStartFailed"@,
            ErrorKind::ExecStartFailed => "ExecStartFailed"@,
            ErrorKind::ExportFailed => "ExportFailed"@,
            ErrorKind::ContainerRemoveFailed => "ContainerRemoveFailed"@,
            ErrorKind::FilesystemAllocationFailed => "FilesystemAllocationFailed"@,
            ErrorKind::FormatFailed => "FormatFailed"@,
            ErrorKind::MountFailed => "MountFailed"@,
            ErrorKind::OverlayApplyFailed => "OverlayApplyFailed"@,
            ErrorKind::ExportStageFailed => "ExportStageFailed"@,
            ErrorKind::CleanupFailed => "CleanupFailed"@,
        }
    }

    /// The kind's name.
    pub fn name(&self) -> (text: String)
        ensures
            text@ == self.name_text(),
    {
        match self {
            ErrorKind::ConfigError => String::from_str("ConfigError"),
            ErrorKind::EngineUnreachable => String::from_str("EngineUnreachable"),
            ErrorKind::ImagePullFailed => String::from_str("ImagePullFailed"),
            ErrorKind::ContainerCreateFailed => String::from_str("ContainerCreateFailed"),
            ErrorKind::ContainerStartFailed => String::from_str("ContainerStartFailed"),
            ErrorKind::ExecStartFailed => String::from_str("ExecStartFailed"),
            ErrorKind::ExportFailed => String::from_str("ExportFailed"),
            ErrorKind::ContainerRemoveFailed => String::from_str("ContainerRemoveFailed"),
            ErrorKind::FilesystemAllocationFailed => String::from_str("FilesystemAllocationFailed"),
            ErrorKind::FormatFailed => String::from_str("FormatFailed"),
            ErrorKind::MountFailed => String::from_str("MountFailed"),
            ErrorKind::OverlayApplyFailed => String::from_str("OverlayApplyFailed"),
            ErrorKind::ExportStageFailed => String::from_str("ExportStageFailed"),
            ErrorKind::CleanupFailed => String::from_str("CleanupFailed"),
        }
    }
}

/// What is wrong with a build script or with how it was handed over.
#[derive(Clone, Copy, Debug, PartialEq, Eq, Structural)]
pub enum ConfigError {
    /// The package is a file without an extension.
    NoExtension,
    /// The package is a file whose extension names no kind of package.
    UnknownExtension,
    /// The connection address does not start in a way the engine accepts.
    UnsupportedConnection,
    /// A script without a package refers to `count` files outside itself.
    UnpackagedReferences { count: usize },
    /// The reference at `index` does not start at the package's root.
    ReferenceNotAbsolute { index: usize },
    /// The reference at `index` names nothing inside the package.
    ReferenceMissing { index: usize },
    /// `count` commands say nothing of what to run.
    EmptyCommands { count: usize },
    /// The command at `index` says in more than one way what to run.
    AmbiguousCommand { index: usize },
    /// The overlay at `index` has no source, or more than one, or is a
    /// directory with inline content.
    MalformedOverlay { index: usize },
    /// The image has no name.
    EmptyImageName,
    /// A variable or a host path is given twice.
    RepeatedKey,
    /// The block size is zero.
    ZeroBlockSize,
    /// The size of the image is not a whole number of blocks.
    SizeNotInBlocks,
}

impl ConfigError {
    /// What the user is told.
    pub open spec fn message_text(self) -> Seq<char> {
        match self {
            ConfigError::NoExtension => "File has no extension"@,
            ConfigError::UnknownExtension => "File extension is not recognizable as a type of package"@,
            ConfigError::UnsupportedConnection => "The connection address is not one that the container engine accepts"@,
            ConfigError::UnpackagedReferences { count } => "Build script validation failed: A non-packaged script contains "@
                + decimal(count as nat) + " reference(s) to outside resources"@,
            ConfigError::ReferenceNotAbsolute { index } => "Build script validation failed: reference "@
                + decimal(index as nat) + " isn't absolute (relative to package root)"@,
            ConfigError::ReferenceMissing { index } => "Build script validation failed: reference "@
                + decimal(index as nat) + " doesn't exist"@,
            ConfigError::EmptyCommands { count } => "Build script validation failed: "@ + decimal(
                count as nat,
            ) + " command(s) contain no reference to a script, a script path or an inline command"@,
            ConfigError::AmbiguousCommand { index } => "Build script validation failed: command "@
                + decimal(index as nat) + " says in more than one way what to run"@,
            ConfigError::MalformedOverlay { index } => "Build script validation failed: overlay "@
                + decimal(index as nat) + " does not have exactly the source that its kind needs"@,
            ConfigError::EmptyImageName => "Build script validation failed: the image has no name"@,
            ConfigError::RepeatedKey => "Build script validation failed: a variable or a host path is given twice"@,
            ConfigError::ZeroBlockSize => "Build script validation failed: the block size is zero"@,
            ConfigError::SizeNotInBlocks => "Build script validation failed: the size of the image is not a whole number of blocks"@,
        }
    }

    /// Writes what the user is told.
    pub fn message(&self) -> (text: String)
        ensures
            text@ == self.message_text(),
    {
        match self {
            ConfigError::NoExtension => String::from_str("File has no extension"),
            ConfigError::UnknownExtension => String::from_str(
                "File extension is not recognizable as a type of package",
            ),
            ConfigError::UnsupportedConnection => String::from_str(
                "The connection address is not one that the container engine accepts",
            ),
            ConfigError::UnpackagedReferences { count } => numbered(
                "Build script validation failed: A non-packaged script contains ",
                *count,
                " reference(s) to outside resources",
            ),
            ConfigError::ReferenceNotAbsolute { index } => numbered(
                "Build script validation failed: reference ",
                *index,
                " isn't absolute (relative to package root)",
            ),
            ConfigError::ReferenceMissing { index } => numbered(
                "Build script validation failed: reference ",
                *index,
                " doesn't exist",
            ),
            ConfigError::EmptyCommands { count } => numbered(
                "Build script validation failed: ",
                *count,
                " command(s) contain no reference to a script, a script path or an inline command",
            ),
            ConfigError::AmbiguousCommand { index } => numbered(
                "Build script validation failed: command ",
                *index,
                " says in more than one way what to run",
            ),
            ConfigError::MalformedOverlay { index } => numbered(
                "Build script validation failed: overlay ",
                *index,
                " does not have exactly the source that its kind needs",
            ),
            ConfigError::EmptyImageName => String::from_str(
                "Build script validation failed: the image has no name",
            ),
            ConfigError::RepeatedKey => String::from_str(
                "Build script validation failed: a variable or a host path is given twice",
            ),
            ConfigError::ZeroBlockSize => String::from_str(
                "Build script validation failed: the block size is zero",
            ),
            ConfigError::SizeNotInBlocks => String::from_str(
                "Build script validation failed: the size of the image is not a whole number of blocks",
            ),
        }
    }

    /// The failure that ends a run before it begins.
    pub fn into_failure(self) -> (failure: BuildError)
        ensures
            failure.kind == ErrorKind::ConfigError,
            failure.detail@ == self.message_text(),
    {
        BuildError { kind: ErrorKind::ConfigError, detail: self.message() }
    }
}

/// Writes a number between two texts.
fn numbered(before: &str, number: usize, after: &str) -> (text: String)
    ensures
        text@ == before@ + decimal(number as nat) + after@,
{
    let mut text = String::from_str(before);
    text.append(decimal_string(number as u64).as_str());
    text.append(after);
    text
}

/// A failure with the text of the tool or transport that reported it.
#[derive(Debug, PartialEq, Eq)]
pub struct BuildError {
    pub kind: ErrorKind,
    pub detail: String,
}

/// The failure kind of a result: none where it is a success.
pub open spec fn failure_of<T>(result: Result<T, BuildError>) -> Option<ErrorKind> {
    match result {
        Ok(_) => None,
        Err(e) => Some(e.kind),
    }
}

/// Turns the text of a failed request into a failure of kind `kind`; a
/// success is handed on as it is.
pub fn tagged<T>(result: Result<T, String>, kind: ErrorKind) -> (tagged: Result<T, BuildError>)
    ensures
        match (result, tagged) {
            (Ok(value), Ok(same)) => value == same,
            (Err(text), Err(e)) => e.kind == kind && e.detail == text,
            _ => false,
        },
{
    match result {
        Ok(value) => Ok(value),
        Err(detail) => Err(BuildError { kind, detail }),
    }
}

} // verus!
