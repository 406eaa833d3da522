//! The build script: the declarative document that one run is made from.
//!
//! Paths are `/`-separated text. Mappings (environment, bind mounts) are
//! lists of pairs in the order in which they were written; a well-formed
//! document holds each key once.

use crate::text::joined;
use vstd::prelude::*;

verus! {

/// The container backend that runs the build.
#[derive(Clone, Copy, Debug, PartialEq, Eq, Structural)]
pub enum ContainerEngineType {
    Docker,
    Podman,
}

impl ContainerEngineType {
    /// The backend's name as it is shown to the user.
    pub open spec fn name_text(self) -> Seq<char> {
        match self {
            ContainerEngineType::Docker => "Docker"@,
            ContainerEngineType::Podman => "Podman"@,
        }
    }

    /// The backend's name as it is shown to the user.
    pub fn name(&self) -> (text: String)
        ensures
            text@ == self.name_text(),
    {
        match self {
            ContainerEngineType::Docker => String::from_str("Docker"),
            ContainerEngineType::Podman => String::from_str("Podman"),
        }
    }
}

impl Default for ContainerEngineType {
    fn default() -> (engine: Self)
        ensures
            engine == ContainerEngineType::Docker,
    {
        ContainerEngineType::Docker
    }
}

/// The filesystem that the image is formatted with.
#[derive(Clone, Copy, Debug, PartialEq, Eq, Structural)]
pub enum FilesystemType {
    Ext4,
    Btrfs,
    Squashfs,
    Vfat,
    Xfs,
}

impl FilesystemType {
    /// The name of the tool that formats an image with this filesystem.
    pub open spec fn mkfs_text(self) -> Seq<char> {
        match self {
            FilesystemType::Ext4 => "mkfs.ext4"@,
            FilesystemType::Btrfs => "mkfs.btrfs"@,
            FilesystemType::Squashfs => "mksquashfs"@,
            FilesystemType::Vfat => "mkfs.vfat"@,
            FilesystemType::Xfs => "mkfs.xfs"@,
        }
    }

    /// The name under which the kernel mounts this filesystem.
    pub open spec fn fstype_text(self) -> Seq<char> {
        match self {
            FilesystemType::Ext4 => "ext4"@,
            FilesystemType::Btrfs => "btrfs"@,
            FilesystemType::Squashfs => "squashfs"@,
            FilesystemType::Vfat => "vfat"@,
            FilesystemType::Xfs => "xfs"@,
        }
    }

    /// The name of the tool that formats an image with this filesystem.
    pub fn mkfs_name(&self) -> (text: String)
        ensures
            text@ == self.mkfs_text(),
    {
        match self {
            FilesystemType::Ext4 => String::from_str("mkfs.ext4"),
            FilesystemType::Btrfs => String::from_str("mkfs.btrfs"),
            FilesystemType::Squashfs => String::from_str("mksquashfs"),
            FilesystemType::Vfat => String::from_str("mkfs.vfat"),
            FilesystemType::Xfs => String::from_str("mkfs.xfs"),
        }
    }

    /// The name under which the kernel mounts this filesystem.
    pub fn fstype_name(&self) -> (text: String)
        ensures
            text@ == self.fstype_text(),
    {
        match self {
            FilesystemType::Ext4 => String::from_str("ext4"),
            FilesystemType::Btrfs => String::from_str("btrfs"),
            FilesystemType::Squashfs => String::from_str("squashfs"),
            FilesystemType::Vfat => String::from_str("vfat"),
            FilesystemType::Xfs => String::from_str("xfs"),
        }
    }
}

impl Default for FilesystemType {
    fn default() -> (filesystem: Self)
        ensures
            filesystem == FilesystemType::Ext4,
    {
        FilesystemType::Ext4
    }
}

/// The image to create: its size, its filesystem and how the tools that
/// make it are called.
#[derive(Debug, PartialEq, Eq)]
pub struct BuildScriptFilesystem {
    pub filesystem_type: FilesystemType,
    pub size_mib: u32,
    pub block_size_mib: Option<u32>,
    pub dd_args: Vec<String>,
    pub mkfs_args: Vec<String>,
}

/// The image that the build container is created from.
#[derive(Debug, PartialEq, Eq)]
pub struct BuildScriptContainerImage {
    pub name: String,
    pub tag: String,
}

impl BuildScriptContainerImage {
    /// The image reference: name and tag with a colon between them.
    pub fn full_name(&self) -> (reference: String)
        ensures
            reference@ == joined(self.name@, ':', self.tag@),
    {
        let mut reference = self.name.clone();
        proof {
            reveal_strlit(":");
        }
        reference.append(":");
        reference.append(self.tag.as_str());
        assert(reference@ =~= joined(self.name@, ':', self.tag@));
        reference
    }

    /// An image reference needs a name.
    pub open spec fn well_formed(&self) -> bool {
        self.name@.len() > 0
    }
}

/// The container in which the commands run.
#[derive(Debug, PartialEq, Eq)]
pub struct BuildScriptContainer {
    pub engine: ContainerEngineType,
    pub image: BuildScriptContainerImage,
    pub rootful: bool,
    pub connection_uri: Option<String>,
    /// Host path and container path of each bind mount.
    pub volumes: Vec<(String, String)>,
    /// Name and value of each environment variable.
    pub env: Vec<(String, String)>,
    pub hostname: Option<String>,
    pub oci_runtime: Option<String>,
    pub timeout: Option<u64>,
    pub cap_add: Option<Vec<String>>,
    pub cap_drop: Option<Vec<String>>,
}

/// One step of the build, run inside the container.
#[derive(Debug, PartialEq, Eq)]
pub struct BuildScriptCommand {
    pub command: Option<String>,
    pub script_inline: Option<String>,
    pub script_path: Option<String>,
    pub uid: Option<u32>,
    pub gid: Option<u32>,
    pub working_dir: Option<String>,
    pub privileged: Option<bool>,
    pub env: Vec<(String, String)>,
}

impl BuildScriptCommand {
    /// How many of the three ways to say what is run this command uses.
    pub open spec fn source_count(&self) -> nat {
        (if self.command is Some { 1nat } else { 0nat })
        + (if self.script_inline is Some { 1nat } else { 0nat })
        + (if self.script_path is Some { 1nat } else { 0nat })
    }

    /// A command says what is run in exactly one way.
    pub open spec fn well_formed(&self) -> bool {
        self.source_count() == 1
    }
}

/// Content that is put into the mounted image after the container is gone.
#[derive(Debug, PartialEq, Eq)]
pub struct BuildScriptOverlay {
    pub source: Option<String>,
    pub source_inline: Option<String>,
    pub destination: String,
    pub is_directory: bool,
}

impl BuildScriptOverlay {
    /// A directory overlay names a source directory and nothing else; a
    /// file overlay has either a source file or inline content.
    pub open spec fn well_formed(&self) -> bool {
        if self.is_directory {
            self.source is Some && self.source_inline is None
        } else {
            (self.source is Some) != (self.source_inline is Some)
        }
    }
}

/// Paths taken over from the container's filesystem, and empty ones made
/// in the image.
#[derive(Debug, PartialEq, Eq)]
pub struct Export {
    pub included: Vec<String>,
    pub create: Vec<String>,
}

/// What is exported into the image, as files and as directories.
#[derive(Debug, PartialEq, Eq)]
pub struct BuildScriptExport {
    pub files: Export,
    pub directories: Export,
}

/// The whole document.
#[derive(Debug, PartialEq, Eq)]
pub struct BuildScript {
    pub filesystem: BuildScriptFilesystem,
    pub container: BuildScriptContainer,
    pub commands: Vec<BuildScriptCommand>,
    pub overlays: Vec<BuildScriptOverlay>,
    pub export: BuildScriptExport,
}

/// The keys of a mapping, in the order in which they were written.
pub open spec fn keys_of(pairs: Seq<(Seq<char>, Seq<char>)>) -> Seq<Seq<char>> {
    Seq::new(pairs.len(), |i: int| pairs[i].0)
}

/// A mapping holds each key once.
pub open spec fn unique_keys(pairs: Seq<(Seq<char>, Seq<char>)>) -> bool {
    forall|i: int, j: int| 0 <= i < j < pairs.len() ==> pairs[i].0 != pairs[j].0
}

impl BuildScriptContainer {
    /// The image has a name, and no variable and no host path is given twice.
    pub open spec fn well_formed(&self) -> bool {
        &&& self.image.well_formed()
        &&& unique_keys(self.env.deep_view())
        &&& unique_keys(self.volumes.deep_view())
    }
}

impl BuildScript {
    /// Every part of the document is well formed.
    pub open spec fn well_formed(&self) -> bool {
        &&& self.container.well_formed()
        &&& forall|i: int| 0 <= i < self.commands.len() ==> (#[trigger] self.commands[i]).well_formed()
        &&& forall|i: int|
            0 <= i < self.commands.len() ==> unique_keys((#[trigger] self.commands[i]).env.deep_view())
        &&& forall|i: int| 0 <= i < self.overlays.len() ==> (#[trigger] self.overlays[i]).well_formed()
    }
}

impl Default for Export {
    fn default() -> (export: Self)
        ensures
            export.included@.len() == 0,
            export.create@.len() == 0,
    {
        Export { included: Vec::new(), create: Vec::new() }
    }
}

impl Default for BuildScriptExport {
    fn default() -> (export: Self)
        ensures
            export.files.included@.len() == 0,
            export.files.create@.len() == 0,
            export.directories.included@.len() == 0,
            export.directories.create@.len() == 0,
    {
        BuildScriptExport { files: Export::default(), directories: Export::default() }
    }
}

} // verus!
