//! Packages: the forms in which a build script is handed over, how one is
//! recognised, made and opened.

use crate::action::{FsAction, FsActionView};
use crate::cli::{PackArgs, PackageType, UnpackArgs};
use crate::error::ConfigError;
use crate::pairs::{same_text, upsert, upsert_pair};
use crate::path::{join, join_str, parent, parent_of};
use crate::run::{get_tmp_path, is_random_below};
use crate::schema::{BuildScript, BuildScriptCommand, BuildScriptOverlay};
use crate::text::{count_trailing_other, trailing_other};
use vstd::prelude::*;

verus! {

/// The name of the build script inside a package.
pub const BUILD_SCRIPT_FILENAME: &'static str = "build.toml";

/// The place of the dot before the extension of a file name: the last
/// dot, unless the name begins with it. A name without such a dot has no
/// extension.
pub open spec fn extension_dot(name: Seq<char>) -> Option<int> {
    let tail = trailing_other(name, '.');
    if tail < name.len() && name.len() - tail - 1 > 0 {
        Some(name.len() - tail - 1)
    } else {
        None
    }
}

/// The name of the file that a path ends in: what follows its last
/// separator.
pub open spec fn file_name(path: Seq<char>) -> Seq<char> {
    path.skip(path.len() - trailing_other(path, '/'))
}

/// The extension by which a package is told: what follows the dot of
/// the extension of its file name, and `tar.gz` for a name that ends in
/// `.tar.gz`.
pub open spec fn package_extension(path: Seq<char>) -> Option<Seq<char>> {
    let name = file_name(path);
    match extension_dot(name) {
        None => None,
        Some(dot) => {
            let stem = name.take(dot);
            if name.skip(dot + 1) == "gz"@ && extension_dot(stem) is Some && stem.skip(
                extension_dot(stem)->0 + 1,
            ) == "tar"@ {
                Some("tar.gz"@)
            } else {
                Some(name.skip(dot + 1))
            }
        },
    }
}

/// The form of a package, judged by what it is on disk: a directory is a
/// directory package whatever its name; a file is told by its extension.
pub open spec fn package_type_of(is_dir: bool, extension: Option<Seq<char>>) -> Result<
    PackageType,
    ConfigError,
> {
    if is_dir {
        Ok(PackageType::Directory)
    } else {
        match extension {
            None => Err(ConfigError::NoExtension),
            Some(e) => if e == "toml"@ {
                Ok(PackageType::BuildScript)
            } else if e == "tar"@ {
                Ok(PackageType::Tar)
            } else if e == "tar.gz"@ {
                Ok(PackageType::TarGz)
            } else {
                Err(ConfigError::UnknownExtension)
            },
        }
    }
}

/// Finds the dot before the extension of a file name.
fn find_extension_dot(name: &str) -> (dot: Option<usize>)
    ensures
        match dot {
            Some(d) => extension_dot(name@) == Some(d as int) && 0 < d < name@.len(),
            None => extension_dot(name@) is None,
        },
{
    let n: usize = name.unicode_len();
    let tail: usize = count_trailing_other(name, '.');
    if tail < n && n - tail - 1 > 0 {
        Some(n - tail - 1)
    } else {
        None
    }
}

/// Finds the extension by which the package at `path` is told.
pub fn extension_of_package(path: &str) -> (extension: Option<String>)
    ensures
        extension.deep_view() == package_extension(path@),
{
    let n: usize = path.unicode_len();
    let name_len: usize = count_trailing_other(path, '/');
    let name = path.substring_char(n - name_len, n);
    assert(name@ =~= file_name(path@));
    match find_extension_dot(name) {
        None => None,
        Some(dot) => {
            let found = name.substring_char(dot + 1, name_len);
            let stem = name.substring_char(0, dot);
            assert(found@ =~= name@.skip(dot + 1));
            assert(stem@ =~= name@.take(dot as int));
            if same_text(found, "gz") {
                match find_extension_dot(stem) {
                    Some(inner) => {
                        let before = stem.substring_char(inner + 1, dot);
                        assert(before@ =~= stem@.skip(inner + 1));
                        if same_text(before, "tar") {
                            return Some(String::from_str("tar.gz"));
                        }
                    },
                    None => {},
                }
            }
            Some(String::from_str(found))
        },
    }
}

/// Tells the form of a package by its extension, or finds it to be a
/// directory.
pub fn classify_extension(is_dir: bool, extension: Option<&str>) -> (package_type: Result<
    PackageType,
    ConfigError,
>)
    ensures
        package_type == package_type_of(
            is_dir,
            match extension {
                Some(e) => Some(e@),
                None => None,
            },
        ),
{
    if is_dir {
        return Ok(PackageType::Directory);
    }
    match extension {
        None => Err(ConfigError::NoExtension),
        Some(e) => {
            if same_text(e, "toml") {
                Ok(PackageType::BuildScript)
            } else if same_text(e, "tar") {
                Ok(PackageType::Tar)
            } else if same_text(e, "tar.gz") {
                Ok(PackageType::TarGz)
            } else {
                Err(ConfigError::UnknownExtension)
            }
        },
    }
}

/// Tells the form of the package at `path` from whether it is a
/// directory and from its name: a directory is a directory package,
/// `.toml` is a bare build script, `.tar` an archive and `.tar.gz` a
/// compressed archive.
pub fn get_package_type(is_dir: bool, path: &str) -> (package_type: Result<PackageType, ConfigError>)
    ensures
        package_type == package_type_of(is_dir, package_extension(path@)),
{
    match extension_of_package(path) {
        Some(extension) => classify_extension(is_dir, Some(extension.as_str())),
        None => classify_extension(is_dir, None),
    }
}

/// How a package is opened.
#[derive(Debug, PartialEq, Eq)]
pub struct UnpackPlan {
    /// Makes the directory that the content goes to.
    pub prepare: FsAction,
    /// Whether there is an archive to extract; only an archive is.
    pub extract: bool,
    /// Whether the archive is compressed.
    pub compressed: bool,
    pub source_path: String,
    pub destination_path: String,
}

/// Plans the opening of a package: the destination is made in any case,
/// and an archive is extracted into it.
pub fn unpack_command(package_type: PackageType, unpack_args: &UnpackArgs) -> (plan: UnpackPlan)
    ensures
        plan.prepare.deep_view() == (FsActionView::CreateDirAll {
            path: unpack_args.destination_path@,
        }),
        plan.extract == package_type.is_archive(),
        plan.compressed == (package_type == PackageType::TarGz),
        plan.source_path@ == unpack_args.source_path@,
        plan.destination_path@ == unpack_args.destination_path@,
{
    let extract = match package_type {
        PackageType::TarGz => true,
        PackageType::Tar => true,
        _ => false,
    };
    let compressed = match package_type {
        PackageType::TarGz => true,
        _ => false,
    };
    UnpackPlan {
        prepare: FsAction::CreateDirAll { path: unpack_args.destination_path.clone() },
        extract,
        compressed,
        source_path: unpack_args.source_path.clone(),
        destination_path: unpack_args.destination_path.clone(),
    }
}

/// The turning of a directory into an archive of the same name.
#[derive(Debug, PartialEq, Eq)]
pub struct ArchivePlan {
    /// The name under which the directory is set aside.
    pub staging_path: String,
    /// The archive's name, which was the directory's.
    pub archive_path: String,
    pub compressed: bool,
}

/// How a package is made.
#[derive(Debug, PartialEq, Eq)]
pub struct PackPlan {
    /// Whether the destination is made as a directory first.
    pub create_destination: bool,
    /// The files to copy: from where, and to where.
    pub copies: Vec<(String, String)>,
    /// How the directory becomes an archive, where it does.
    pub archive: Option<ArchivePlan>,
}

/// The copies for the script files of `commands`: each from beside the
/// build script to the same place in the package.
pub open spec fn script_copies(
    copies: Seq<(Seq<char>, Seq<char>)>,
    commands: Seq<BuildScriptCommand>,
    beside: Seq<char>,
    destination: Seq<char>,
) -> Seq<(Seq<char>, Seq<char>)>
    decreases commands.len(),
{
    if commands.len() == 0 {
        copies
    } else {
        let before = script_copies(copies, commands.drop_last(), beside, destination);
        match commands.last().script_path {
            Some(path) => upsert(before, join(beside, path@), join(destination, path@)),
            None => before,
        }
    }
}

/// The copies for the sources of `overlays`: each from beside the build
/// script to the same place in the package.
pub open spec fn overlay_copies(
    copies: Seq<(Seq<char>, Seq<char>)>,
    overlays: Seq<BuildScriptOverlay>,
    beside: Seq<char>,
    destination: Seq<char>,
) -> Seq<(Seq<char>, Seq<char>)>
    decreases overlays.len(),
{
    if overlays.len() == 0 {
        copies
    } else {
        let before = overlay_copies(copies, overlays.drop_last(), beside, destination);
        match overlays.last().source {
            Some(path) => upsert(before, join(beside, path@), join(destination, path@)),
            None => before,
        }
    }
}

/// The files that make up a package with more than the build script: the
/// build script under its fixed name, and every script file and overlay
/// source that it names. A file that is named twice is copied once.
pub open spec fn pack_copies(script: BuildScript, source: Seq<char>, beside: Seq<char>, destination: Seq<char>) -> Seq<
    (Seq<char>, Seq<char>),
> {
    overlay_copies(
        script_copies(
            seq![(source, join(destination, BUILD_SCRIPT_FILENAME@))],
            script.commands@,
            beside,
            destination,
        ),
        script.overlays@,
        beside,
        destination,
    )
}

impl PackPlan {
    /// Whether this is the plan that packs the build script found at the
    /// source path of `args`, in the form and at the place that `args`
    /// name. A bare script is packed unread; for any other form `script`
    /// is what was read from it.
    pub open spec fn packs(&self, args: PackArgs, script: Option<&BuildScript>) -> bool {
        let source = args.source_path@;
        let destination = args.destination_path@;
        if args.package_type == PackageType::BuildScript {
            &&& !self.create_destination
            &&& self.copies.deep_view() == seq![(source, destination)]
            &&& self.archive is None
        } else {
            &&& script is Some
            &&& parent(source) is Some
            &&& self.create_destination
            &&& self.copies.deep_view() == pack_copies(
                *script->0,
                source,
                parent(source)->0,
                destination,
            )
            &&& match self.archive {
                None => args.package_type == PackageType::Directory,
                Some(archive) => {
                    &&& args.package_type.is_archive()
                    &&& archive.staging_path@ == destination + "_tmp"@
                    &&& archive.archive_path@ == destination
                    &&& archive.compressed == (args.package_type == PackageType::TarGz)
                },
            }
        }
    }
}

/// Whether the build script has to be read before a package of this
/// form is made: a bare script is copied unread.
pub fn needs_build_script(package_type: PackageType) -> (needed: bool)
    ensures
        needed == package_type.holds_files(),
{
    match package_type {
        PackageType::BuildScript => false,
        _ => true,
    }
}

/// Plans the making of a package. A bare build script is copied as it
/// is, unread. For the other forms the destination is made as a
/// directory and filled with what `build_script`, read from the source,
/// names; for an archive that directory is then set aside, archived
/// under the destination's name, and deleted. There is no plan for such
/// a form where the build script was not read or has no directory
/// beside which its files are found.
pub fn pack_command(pack_args: &PackArgs, build_script: Option<&BuildScript>) -> (plan: Option<
    PackPlan,
>)
    ensures
        plan is None == (pack_args.package_type != PackageType::BuildScript && (build_script is None
            || parent(pack_args.source_path@) is None)),
        plan matches Some(p) ==> p.packs(*pack_args, build_script),
{
    let source = pack_args.source_path.as_str();
    let destination = pack_args.destination_path.as_str();
    let mut copies: Vec<(String, String)> = Vec::new();
    if let PackageType::BuildScript = pack_args.package_type {
        copies.push((String::from_str(source), String::from_str(destination)));
        assert(copies.deep_view() =~= seq![(source@, destination@)]);
        return Some(PackPlan { create_destination: false, copies, archive: None });
    }
    let build_script: &BuildScript = match build_script {
        Some(script) => script,
        None => {
            return None;
        },
    };
    let beside: String = match parent_of(source) {
        Some(dir) => dir,
        None => {
            return None;
        },
    };
    copies.push((String::from_str(source), join_str(destination, BUILD_SCRIPT_FILENAME)));
    assert(copies.deep_view() =~= seq![(source@, join(destination@, BUILD_SCRIPT_FILENAME@))]);
    let ghost first = copies.deep_view();
    let mut i: usize = 0;
    assert(build_script.commands@.take(0) =~= Seq::empty());
    while i < build_script.commands.len()
        invariant
            i <= build_script.commands.len(),
            copies.deep_view() == script_copies(
                first,
                build_script.commands@.take(i as int),
                beside@,
                destination@,
            ),
        decreases build_script.commands.len() - i,
    {
        assert(build_script.commands@.take(i + 1).drop_last() =~= build_script.commands@.take(i as int));
        match &build_script.commands[i].script_path {
            Some(path) => {
                upsert_pair(
                    &mut copies,
                    join_str(beside.as_str(), path.as_str()),
                    join_str(destination, path.as_str()),
                );
            },
            None => {},
        }
        i += 1;
    }
    assert(build_script.commands@.take(build_script.commands.len() as int) =~= build_script.commands@);
    let ghost scripts = copies.deep_view();
    let mut k: usize = 0;
    assert(build_script.overlays@.take(0) =~= Seq::empty());
    while k < build_script.overlays.len()
        invariant
            k <= build_script.overlays.len(),
            copies.deep_view() == overlay_copies(
                scripts,
                build_script.overlays@.take(k as int),
                beside@,
                destination@,
            ),
        decreases build_script.overlays.len() - k,
    {
        assert(build_script.overlays@.take(k + 1).drop_last() =~= build_script.overlays@.take(k as int));
        match &build_script.overlays[k].source {
            Some(path) => {
                upsert_pair(
                    &mut copies,
                    join_str(beside.as_str(), path.as_str()),
                    join_str(destination, path.as_str()),
                );
            },
            None => {},
        }
        k += 1;
    }
    assert(build_script.overlays@.take(build_script.overlays.len() as int) =~= build_script.overlays@);
    let archive: Option<ArchivePlan> = match pack_args.package_type {
        PackageType::Directory => None,
        PackageType::BuildScript => None,
        PackageType::Tar => {
            let mut staging_path = String::from_str(destination);
            staging_path.append("_tmp");
            Some(
                ArchivePlan {
                    staging_path,
                    archive_path: String::from_str(destination),
                    compressed: false,
                },
            )
        },
        PackageType::TarGz => {
            let mut staging_path = String::from_str(destination);
            staging_path.append("_tmp");
            Some(
                ArchivePlan {
                    staging_path,
                    archive_path: String::from_str(destination),
                    compressed: true,
                },
            )
        },
    };
    Some(PackPlan { create_destination: true, copies, archive })
}

/// Where a package's content is found for a run.
#[derive(Debug, PartialEq, Eq)]
pub struct PackageLocation {
    /// The root against which the build script's references are taken.
    pub unpack_path: String,
    pub build_script_path: String,
    /// Whether the package has to be unpacked to `unpack_path` first;
    /// the directory is then the run's own and is deleted at its end.
    pub disposable: bool,
}

impl PackageLocation {
    /// Whether this is where the package `package` of form `package_type`
    /// is found, `scratch` being the place to unpack an archive to: a
    /// bare script is its own root, a directory holds the script under
    /// its fixed name, and so does an unpacked archive.
    pub open spec fn locates(&self, package_type: PackageType, package: Seq<char>, scratch: Seq<char>) -> bool {
        match package_type {
            PackageType::BuildScript => {
                &&& self.unpack_path@ == package
                &&& self.build_script_path@ == package
                &&& !self.disposable
            },
            PackageType::Directory => {
                &&& self.unpack_path@ == package
                &&& self.build_script_path@ == join(package, BUILD_SCRIPT_FILENAME@)
                &&& !self.disposable
            },
            _ => {
                &&& self.unpack_path@ == scratch
                &&& self.build_script_path@ == join(scratch, BUILD_SCRIPT_FILENAME@)
                &&& self.disposable
            },
        }
    }
}

/// Says where the content of a package is found, given the place to
/// unpack an archive to.
pub fn package_location(package_type: PackageType, package: &str, scratch: &str) -> (location:
    PackageLocation)
    ensures
        location.locates(package_type, package@, scratch@),
{
    match package_type {
        PackageType::BuildScript => PackageLocation {
            unpack_path: String::from_str(package),
            build_script_path: String::from_str(package),
            disposable: false,
        },
        PackageType::Directory => PackageLocation {
            unpack_path: String::from_str(package),
            build_script_path: join_str(package, BUILD_SCRIPT_FILENAME),
            disposable: false,
        },
        _ => PackageLocation {
            unpack_path: String::from_str(scratch),
            build_script_path: join_str(scratch, BUILD_SCRIPT_FILENAME),
            disposable: true,
        },
    }
}

/// Says where the content of a package is found; an archive is to be
/// unpacked to a directory of the run's own.
pub fn locate_package(package_type: PackageType, package: &str) -> (location: PackageLocation)
    ensures
        package_type.is_archive() ==> is_random_below(location.unpack_path@, "/tmp"@),
        location.locates(package_type, package@, location.unpack_path@),
{
    match package_type {
        PackageType::Tar => package_location(package_type, package, get_tmp_path().as_str()),
        PackageType::TarGz => package_location(package_type, package, get_tmp_path().as_str()),
        _ => package_location(package_type, package, package),
    }
}

} // verus!
