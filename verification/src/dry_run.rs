//! What is settled before a run begins: that the build script is sound,
//! that what it refers to is there, and which engine runs it.

use crate::action::{FsAction, FsActionView};
use crate::cli::{PackageType, UnpackArgs};
use crate::container_engine::{answer_in, engine_ping, fails_only_as, ContainerEngine};
use crate::error::{BuildError, ErrorKind};
use crate::package::{unpack_command, PackageLocation, UnpackPlan};
use crate::container_engine::docker::{is_http_address, is_local_address, DockerContainerEngine};
use crate::container_engine::podman::{resolved_address, PodmanContainerEngine};
use crate::error::ConfigError;
use crate::pairs::same_text;
use crate::path::{adjoin, adjoin_str, is_rooted, starts_at_root};
use crate::pipeline::Op;
use crate::run::{
    allocatable, askable, block_size, lemma_export_possible_below_tmp, lemma_staged_run_is_askable,
    repeats_destination, RunContext,
};
use crate::schema::{
    keys_of, unique_keys, BuildScript, BuildScriptCommand, BuildScriptContainer,
    BuildScriptFilesystem, BuildScriptOverlay, ContainerEngineType,
};
use crate::text::copy_optional;
use vstd::prelude::*;

verus! {

/// The engine that a run talks to.
#[derive(Debug, PartialEq, Eq)]
pub enum Engine {
    Docker(DockerContainerEngine),
    Podman(PodmanContainerEngine),
}

/// The script files that `commands` name, in the order of the commands.
pub open spec fn script_references(commands: Seq<BuildScriptCommand>) -> Seq<Seq<char>>
    decreases commands.len(),
{
    if commands.len() == 0 {
        Seq::empty()
    } else {
        match commands.last().script_path {
            Some(path) => script_references(commands.drop_last()).push(path@),
            None => script_references(commands.drop_last()),
        }
    }
}

/// The sources that `overlays` name, in the order of the overlays.
pub open spec fn overlay_references(overlays: Seq<BuildScriptOverlay>) -> Seq<Seq<char>>
    decreases overlays.len(),
{
    if overlays.len() == 0 {
        Seq::empty()
    } else {
        match overlays.last().source {
            Some(path) => overlay_references(overlays.drop_last()).push(path@),
            None => overlay_references(overlays.drop_last()),
        }
    }
}

/// Everything outside itself that a build script refers to: the script
/// files of its commands, the sources of its overlays and the host paths
/// of its bind mounts.
pub open spec fn references(script: BuildScript) -> Seq<Seq<char>> {
    script_references(script.commands@) + overlay_references(script.overlays@) + keys_of(
        script.container.volumes.deep_view(),
    )
}

/// Collects everything outside itself that a build script refers to.
pub fn collect_references(build_script: &BuildScript) -> (found: Vec<String>)
    ensures
        found.deep_view() == references(*build_script),
{
    let mut found: Vec<String> = Vec::new();
    let commands = &build_script.commands;
    let overlays = &build_script.overlays;
    let volumes = &build_script.container.volumes;
    let mut i: usize = 0;
    assert(commands@.take(0) =~= Seq::empty());
    assert(found.deep_view() =~= Seq::empty());
    while i < commands.len()
        invariant
            i <= commands.len(),
            found.deep_view() == script_references(commands@.take(i as int)),
        decreases commands.len() - i,
    {
        assert(commands@.take(i + 1).drop_last() =~= commands@.take(i as int));
        match &commands[i].script_path {
            Some(path) => {
                let ghost before = found.deep_view();
                found.push(path.clone());
                assert(found.deep_view() =~= before.push(path@));
            },
            None => {},
        }
        i += 1;
    }
    assert(commands@.take(commands.len() as int) =~= commands@);
    let ghost scripts = found.deep_view();
    let mut j: usize = 0;
    assert(overlays@.take(0) =~= Seq::empty());
    assert(found.deep_view() =~= scripts + overlay_references(overlays@.take(0)));
    while j < overlays.len()
        invariant
            j <= overlays.len(),
            found.deep_view() == scripts + overlay_references(overlays@.take(j as int)),
        decreases overlays.len() - j,
    {
        assert(overlays@.take(j + 1).drop_last() =~= overlays@.take(j as int));
        match &overlays[j].source {
            Some(path) => {
                let ghost before = found.deep_view();
                found.push(path.clone());
                assert(found.deep_view() =~= before.push(path@));
                assert(scripts + overlay_references(overlays@.take(j as int)).push(path@) =~= (scripts
                    + overlay_references(overlays@.take(j as int))).push(path@));
            },
            None => {},
        }
        j += 1;
    }
    assert(overlays@.take(overlays.len() as int) =~= overlays@);
    let ghost sources = found.deep_view();
    let ghost keys = keys_of(volumes.deep_view());
    let mut k: usize = 0;
    assert(found.deep_view() =~= sources + keys.take(0));
    while k < volumes.len()
        invariant
            k <= volumes.len(),
            keys == keys_of(volumes.deep_view()),
            found.deep_view() == sources + keys.take(k as int),
        decreases volumes.len() - k,
    {
        let ghost before = found.deep_view();
        found.push(volumes[k].0.clone());
        assert(found.deep_view() =~= before.push(volumes[k as int].0@));
        assert(sources + keys.take(k + 1) =~= (sources + keys.take(k as int)).push(keys[k as int]));
        k += 1;
    }
    assert(keys.take(volumes.len() as int) =~= keys);
    found
}

/// Where each reference is looked for: below the root of the package.
pub fn reference_paths(references: &Vec<String>, unpack_path: &str) -> (paths: Vec<String>)
    ensures
        paths.deep_view() == Seq::new(
            references.len() as nat,
            |i: int| adjoin(unpack_path@, references[i]@),
        ),
{
    let mut paths: Vec<String> = Vec::new();
    let mut i: usize = 0;
    while i < references.len()
        invariant
            i <= references.len(),
            paths.len() == i,
            forall|k: int| 0 <= k < i ==> paths[k]@ == adjoin(unpack_path@, references[k]@),
        decreases references.len() - i,
    {
        paths.push(adjoin_str(unpack_path, references[i].as_str()));
        i += 1;
    }
    assert(paths.deep_view() =~= Seq::new(
        references.len() as nat,
        |i: int| adjoin(unpack_path@, references[i]@),
    ));
    paths
}

/// Whether the reference at `index` was found; one that nothing is known
/// of counts as not found.
pub open spec fn was_found(exists: Seq<bool>, index: int) -> bool {
    0 <= index < exists.len() && exists[index]
}

/// Whether the reference at `index` starts at the package's root and
/// names something that is there.
pub open spec fn reference_ok(references: Seq<Seq<char>>, exists: Seq<bool>, index: int) -> bool {
    is_rooted(references[index]) && was_found(exists, index)
}

/// What is wrong with the reference at `index`: that it is not
/// absolute, before that it is missing.
pub open spec fn reference_fault(references: Seq<Seq<char>>, index: int) -> ConfigError {
    if !is_rooted(references[index]) {
        ConfigError::ReferenceNotAbsolute { index: index as usize }
    } else {
        ConfigError::ReferenceMissing { index: index as usize }
    }
}

/// The fault of the first reference from `from` on that has one.
pub open spec fn first_reference_fault(references: Seq<Seq<char>>, exists: Seq<bool>, from: int) -> Option<
    ConfigError,
>
    decreases references.len() - from,
{
    if from < 0 || from >= references.len() {
        None
    } else if !reference_ok(references, exists, from) {
        Some(reference_fault(references, from))
    } else {
        first_reference_fault(references, exists, from + 1)
    }
}

/// What is wrong with the references of a package: a bare script may
/// have none at all; in any other form each must start at the package's
/// root and name something that is there.
pub open spec fn reference_violation(
    package_type: PackageType,
    references: Seq<Seq<char>>,
    exists: Seq<bool>,
) -> Option<ConfigError> {
    if package_type == PackageType::BuildScript {
        if references.len() > 0 {
            Some(ConfigError::UnpackagedReferences { count: references.len() as usize })
        } else {
            None
        }
    } else {
        first_reference_fault(references, exists, 0)
    }
}

/// The first fault is the fault of the first reference that is not in
/// order, and there is none exactly if every reference is in order.
pub proof fn lemma_first_reference_fault(references: Seq<Seq<char>>, exists: Seq<bool>, from: int)
    requires
        0 <= from,
    ensures
        match first_reference_fault(references, exists, from) {
            None => forall|i: int| from <= i < references.len() ==> reference_ok(references, exists, i),
            Some(fault) => exists|at: int|
                {
                    &&& from <= at < references.len()
                    &&& !reference_ok(references, exists, at)
                    &&& fault == #[trigger] reference_fault(references, at)
                    &&& forall|i: int| from <= i < at ==> reference_ok(references, exists, i)
                },
        },
    decreases references.len() - from,
{
    if from < references.len() {
        if !reference_ok(references, exists, from) {
            assert(first_reference_fault(references, exists, from) == Some(
                reference_fault(references, from),
            ));
        } else {
            lemma_first_reference_fault(references, exists, from + 1);
            match first_reference_fault(references, exists, from + 1) {
                None => {},
                Some(fault) => {
                    let at = choose|at: int|
                        {
                            &&& from + 1 <= at < references.len()
                            &&& !reference_ok(references, exists, at)
                            &&& fault == #[trigger] reference_fault(references, at)
                            &&& forall|i: int| from + 1 <= i < at ==> reference_ok(references, exists, i)
                        };
                    assert(fault == reference_fault(references, at));
                },
            }
        }
    }
}

/// Checks the references of a package against what was found on disk:
/// `exists` says of each reference, in their order, whether the path
/// that it names below the package's root is there.
pub fn check_references(package_type: PackageType, references: &Vec<String>, exists: &Vec<bool>) -> (verdict:
    Result<(), ConfigError>)
    ensures
        match verdict {
            Ok(_) => reference_violation(package_type, references.deep_view(), exists@) is None,
            Err(fault) => reference_violation(package_type, references.deep_view(), exists@) == Some(
                fault,
            ),
        },
{
    if let PackageType::BuildScript = package_type {
        if references.len() > 0 {
            return Err(ConfigError::UnpackagedReferences { count: references.len() });
        }
        return Ok(());
    }
    let ghost refs = references.deep_view();
    let mut i: usize = 0;
    while i < references.len()
        invariant
            i <= references.len(),
            refs == references.deep_view(),
            package_type != PackageType::BuildScript,
            first_reference_fault(refs, exists@, 0) == first_reference_fault(refs, exists@, i as int),
        decreases references.len() - i,
    {
        assert(refs[i as int] == references[i as int]@);
        if !starts_at_root(references[i].as_str()) {
            return Err(ConfigError::ReferenceNotAbsolute { index: i });
        }
        if i >= exists.len() || !exists[i] {
            return Err(ConfigError::ReferenceMissing { index: i });
        }
        i += 1;
    }
    Ok(())
}

/// The number of commands that say nothing of what to run.
pub open spec fn empty_commands(commands: Seq<BuildScriptCommand>) -> nat
    decreases commands.len(),
{
    if commands.len() == 0 {
        0
    } else {
        empty_commands(commands.drop_last()) + (if commands.last().source_count() == 0 {
            1nat
        } else {
            0nat
        })
    }
}

/// The first command from `from` on that says in more than one way what
/// to run.
pub open spec fn first_ambiguous_command(commands: Seq<BuildScriptCommand>, from: int) -> Option<int>
    decreases commands.len() - from,
{
    if from < 0 || from >= commands.len() {
        None
    } else if commands[from].source_count() > 1 {
        Some(from)
    } else {
        first_ambiguous_command(commands, from + 1)
    }
}

/// What is wrong with the commands: that some say nothing of what to
/// run, before that one says it in more than one way.
pub open spec fn command_violation(commands: Seq<BuildScriptCommand>) -> Option<ConfigError> {
    if empty_commands(commands) > 0 {
        Some(ConfigError::EmptyCommands { count: empty_commands(commands) as usize })
    } else {
        match first_ambiguous_command(commands, 0) {
            Some(index) => Some(ConfigError::AmbiguousCommand { index: index as usize }),
            None => None,
        }
    }
}

/// Where no command is empty or ambiguous, every command is well formed.
pub proof fn lemma_commands_well_formed(commands: Seq<BuildScriptCommand>)
    requires
        command_violation(commands) is None,
    ensures
        forall|i: int| 0 <= i < commands.len() ==> (#[trigger] commands[i]).well_formed(),
{
    lemma_empty_commands(commands);
    lemma_first_ambiguous(commands, 0);
}

/// Where no command is counted as empty, none is.
proof fn lemma_empty_commands(commands: Seq<BuildScriptCommand>)
    ensures
        empty_commands(commands) <= commands.len(),
        empty_commands(commands) == 0 ==> forall|i: int|
            0 <= i < commands.len() ==> (#[trigger] commands[i]).source_count() != 0,
    decreases commands.len(),
{
    if commands.len() > 0 {
        lemma_empty_commands(commands.drop_last());
        if empty_commands(commands) == 0 {
            assert forall|i: int| 0 <= i < commands.len() implies (#[trigger] commands[i]).source_count()
                != 0 by {
                if i < commands.len() - 1 {
                    assert(commands[i] == commands.drop_last()[i]);
                }
            }
        }
    }
}

/// Where no ambiguous command is found from `from` on, there is none.
proof fn lemma_first_ambiguous(commands: Seq<BuildScriptCommand>, from: int)
    requires
        0 <= from,
    ensures
        first_ambiguous_command(commands, from) is None ==> forall|i: int|
            from <= i < commands.len() ==> (#[trigger] commands[i]).source_count() <= 1,
        first_ambiguous_command(commands, from) matches Some(at) ==> from <= at < commands.len()
            && commands[at].source_count() > 1,
    decreases commands.len() - from,
{
    if from < commands.len() && commands[from].source_count() <= 1 {
        lemma_first_ambiguous(commands, from + 1);
    }
}

/// Checks that every command says in exactly one way what to run.
pub fn check_commands(commands: &Vec<BuildScriptCommand>) -> (verdict: Result<(), ConfigError>)
    ensures
        match verdict {
            Ok(_) => command_violation(commands@) is None,
            Err(fault) => command_violation(commands@) == Some(fault),
        },
{
    let mut empty: usize = 0;
    let mut i: usize = 0;
    assert(commands@.take(0) =~= Seq::empty());
    while i < commands.len()
        invariant
            i <= commands.len(),
            empty == empty_commands(commands@.take(i as int)),
            empty <= i,
        decreases commands.len() - i,
    {
        assert(commands@.take(i + 1).drop_last() =~= commands@.take(i as int));
        let command = &commands[i];
        if command.command.is_none() && command.script_inline.is_none() && command.script_path.is_none() {
            empty += 1;
        }
        i += 1;
    }
    assert(commands@.take(commands.len() as int) =~= commands@);
    if empty > 0 {
        return Err(ConfigError::EmptyCommands { count: empty });
    }
    let mut k: usize = 0;
    while k < commands.len()
        invariant
            k <= commands.len(),
            empty_commands(commands@) == 0,
            first_ambiguous_command(commands@, 0) == first_ambiguous_command(commands@, k as int),
        decreases commands.len() - k,
    {
        let command = &commands[k];
        let mut sources: u8 = 0;
        if command.command.is_some() {
            sources += 1;
        }
        if command.script_inline.is_some() {
            sources += 1;
        }
        if command.script_path.is_some() {
            sources += 1;
        }
        if sources > 1 {
            return Err(ConfigError::AmbiguousCommand { index: k });
        }
        k += 1;
    }
    Ok(())
}

/// The first overlay from `from` on that is not well formed.
pub open spec fn first_malformed_overlay(overlays: Seq<BuildScriptOverlay>, from: int) -> Option<int>
    decreases overlays.len() - from,
{
    if from < 0 || from >= overlays.len() {
        None
    } else if !overlays[from].well_formed() {
        Some(from)
    } else {
        first_malformed_overlay(overlays, from + 1)
    }
}

/// What is wrong with the overlays: the first that is not well formed.
pub open spec fn overlay_violation(overlays: Seq<BuildScriptOverlay>) -> Option<ConfigError> {
    match first_malformed_overlay(overlays, 0) {
        Some(index) => Some(ConfigError::MalformedOverlay { index: index as usize }),
        None => None,
    }
}

/// Where no overlay is found malformed, every overlay is well formed.
pub proof fn lemma_overlays_well_formed(overlays: Seq<BuildScriptOverlay>, from: int)
    requires
        0 <= from,
        first_malformed_overlay(overlays, from) is None,
    ensures
        forall|i: int| from <= i < overlays.len() ==> (#[trigger] overlays[i]).well_formed(),
    decreases overlays.len() - from,
{
    if from < overlays.len() {
        lemma_overlays_well_formed(overlays, from + 1);
    }
}

/// Checks that every overlay has exactly the source that its kind needs.
pub fn check_overlays(overlays: &Vec<BuildScriptOverlay>) -> (verdict: Result<(), ConfigError>)
    ensures
        match verdict {
            Ok(_) => overlay_violation(overlays@) is None,
            Err(fault) => overlay_violation(overlays@) == Some(fault),
        },
{
    let mut i: usize = 0;
    while i < overlays.len()
        invariant
            i <= overlays.len(),
            first_malformed_overlay(overlays@, 0) == first_malformed_overlay(overlays@, i as int),
        decreases overlays.len() - i,
    {
        let overlay = &overlays[i];
        let sound = if overlay.is_directory {
            overlay.source.is_some() && overlay.source_inline.is_none()
        } else {
            overlay.source.is_some() != overlay.source_inline.is_some()
        };
        if !sound {
            return Err(ConfigError::MalformedOverlay { index: i });
        }
        i += 1;
    }
    Ok(())
}

/// Whether a mapping holds each key once.
pub fn has_unique_keys(pairs: &Vec<(String, String)>) -> (unique: bool)
    ensures
        unique == unique_keys(pairs.deep_view()),
{
    let mut j: usize = 0;
    while j < pairs.len()
        invariant
            j <= pairs.len(),
            forall|a: int, b: int| 0 <= a < b < j ==> pairs.deep_view()[a].0 != pairs.deep_view()[b].0,
        decreases pairs.len() - j,
    {
        let mut i: usize = 0;
        while i < j
            invariant
                j < pairs.len(),
                i <= j,
                forall|a: int| 0 <= a < i ==> pairs.deep_view()[a].0 != pairs.deep_view()[j as int].0,
            decreases j - i,
        {
            if same_text(pairs[i].0.as_str(), pairs[j].0.as_str()) {
                assert(pairs.deep_view()[i as int].0 == pairs.deep_view()[j as int].0);
                return false;
            }
            i += 1;
        }
        j += 1;
    }
    true
}

/// The first command from `from` on that sets a variable twice.
pub open spec fn first_repeated_env(commands: Seq<BuildScriptCommand>, from: int) -> Option<int>
    decreases commands.len() - from,
{
    if from < 0 || from >= commands.len() {
        None
    } else if !unique_keys(commands[from].env.deep_view()) {
        Some(from)
    } else {
        first_repeated_env(commands, from + 1)
    }
}

/// What is wrong with the container and the mappings of the script: an
/// image without a name, before a variable or a host path given twice.
pub open spec fn container_violation(script: BuildScript) -> Option<ConfigError> {
    if !script.container.image.well_formed() {
        Some(ConfigError::EmptyImageName)
    } else if !unique_keys(script.container.env.deep_view()) || !unique_keys(
        script.container.volumes.deep_view(),
    ) || first_repeated_env(script.commands@, 0) is Some {
        Some(ConfigError::RepeatedKey)
    } else {
        None
    }
}

/// Where no command from `from` on is found to set a variable twice,
/// none does.
proof fn lemma_first_repeated_env(commands: Seq<BuildScriptCommand>, from: int)
    requires
        0 <= from,
        first_repeated_env(commands, from) is None,
    ensures
        forall|i: int|
            from <= i < commands.len() ==> unique_keys((#[trigger] commands[i]).env.deep_view()),
    decreases commands.len() - from,
{
    if from < commands.len() {
        lemma_first_repeated_env(commands, from + 1);
    }
}

/// Checks that the image has a name and that no mapping of the script
/// holds a key twice.
pub fn check_container(build_script: &BuildScript) -> (verdict: Result<(), ConfigError>)
    ensures
        match verdict {
            Ok(_) => container_violation(*build_script) is None,
            Err(fault) => container_violation(*build_script) == Some(fault),
        },
{
    if build_script.container.image.name.as_str().unicode_len() == 0 {
        return Err(ConfigError::EmptyImageName);
    }
    if !has_unique_keys(&build_script.container.env) || !has_unique_keys(
        &build_script.container.volumes,
    ) {
        return Err(ConfigError::RepeatedKey);
    }
    let mut i: usize = 0;
    while i < build_script.commands.len()
        invariant
            i <= build_script.commands.len(),
            build_script.container.image.well_formed(),
            unique_keys(build_script.container.env.deep_view()),
            unique_keys(build_script.container.volumes.deep_view()),
            first_repeated_env(build_script.commands@, 0) == first_repeated_env(
                build_script.commands@,
                i as int,
            ),
        decreases build_script.commands.len() - i,
    {
        if !has_unique_keys(&build_script.commands[i].env) {
            return Err(ConfigError::RepeatedKey);
        }
        i += 1;
    }
    Ok(())
}

/// What is wrong with the image to create: a block size of zero, before
/// a size that is not made of whole blocks.
pub open spec fn filesystem_violation(filesystem: BuildScriptFilesystem) -> Option<ConfigError> {
    if block_size(filesystem) == 0 {
        Some(ConfigError::ZeroBlockSize)
    } else if filesystem.size_mib as nat % block_size(filesystem) != 0 {
        Some(ConfigError::SizeNotInBlocks)
    } else {
        None
    }
}

/// What is wrong with the address of the engine: for Podman one that is
/// not of a local socket, for Docker one that is neither that nor one
/// for HTTP.
pub open spec fn connection_violation(container: BuildScriptContainer, euid: u32) -> Option<ConfigError> {
    match container.engine {
        ContainerEngineType::Docker => match container.connection_uri {
            Some(uri) => if is_http_address(uri@) || is_local_address(uri@) {
                None
            } else {
                Some(ConfigError::UnsupportedConnection)
            },
            None => None,
        },
        ContainerEngineType::Podman => if "unix://"@.is_prefix_of(
            resolved_address(container.connection_uri, euid),
        ) {
            None
        } else {
            Some(ConfigError::UnsupportedConnection)
        },
    }
}

/// The first of two findings.
pub open spec fn or_else(first: Option<ConfigError>, second: Option<ConfigError>) -> Option<ConfigError> {
    if first is Some {
        first
    } else {
        second
    }
}

/// What keeps a run from beginning, if anything: the first of a wrong
/// engine address, a fault of the references, of the commands, of the
/// overlays, of the container, and of the image to create.
pub open spec fn violation(package_type: PackageType, script: BuildScript, exists: Seq<bool>, euid: u32) -> Option<
    ConfigError,
> {
    or_else(
        connection_violation(script.container, euid),
        or_else(
            reference_violation(package_type, references(script), exists),
            or_else(
                command_violation(script.commands@),
                or_else(
                    overlay_violation(script.overlays@),
                    or_else(container_violation(script), filesystem_violation(script.filesystem)),
                ),
            ),
        ),
    )
}

/// Decides which engine runs the script and how it is reached.
pub fn connect(container: &BuildScriptContainer, euid: u32) -> (engine: Result<Engine, ConfigError>)
    ensures
        match engine {
            Ok(e) => connection_violation(*container, euid) is None && (e is Docker) == (
            container.engine == ContainerEngineType::Docker),
            Err(fault) => connection_violation(*container, euid) == Some(fault),
        },
{
    match container.engine {
        ContainerEngineType::Docker => {
            match DockerContainerEngine::new(copy_optional(&container.connection_uri)) {
                Ok(docker) => Ok(Engine::Docker(docker)),
                Err(fault) => Err(fault),
            }
        },
        ContainerEngineType::Podman => {
            match PodmanContainerEngine::new(copy_optional(&container.connection_uri), euid) {
                Ok(podman) => Ok(Engine::Podman(podman)),
                Err(fault) => Err(fault),
            }
        },
    }
}

/// Settles everything that has to be settled before a run: the engine
/// is chosen, and the script is checked against the form of its package
/// and against `exists`, which says of each reference of the script, in
/// their order, whether it was found below the package's root. `euid` is
/// the effective user id of the process.
///
/// The run may begin exactly if nothing is wrong; else the first thing
/// that is wrong is reported.
pub fn prepare_for_run(package_type: PackageType, build_script: &BuildScript, exists: &Vec<bool>, euid: u32) -> (prepared:
    Result<Engine, ConfigError>)
    ensures
        match prepared {
            Ok(engine) => violation(package_type, *build_script, exists@, euid) is None && (
            engine is Docker) == (build_script.container.engine == ContainerEngineType::Docker),
            Err(fault) => violation(package_type, *build_script, exists@, euid) == Some(fault),
        },
{
    let engine = match connect(&build_script.container, euid) {
        Ok(engine) => engine,
        Err(fault) => {
            return Err(fault);
        },
    };
    let found = collect_references(build_script);
    match check_references(package_type, &found, exists) {
        Ok(_) => {},
        Err(fault) => {
            return Err(fault);
        },
    }
    match check_commands(&build_script.commands) {
        Ok(_) => {},
        Err(fault) => {
            return Err(fault);
        },
    }
    match check_overlays(&build_script.overlays) {
        Ok(_) => {},
        Err(fault) => {
            return Err(fault);
        },
    }
    match check_container(build_script) {
        Ok(_) => {},
        Err(fault) => {
            return Err(fault);
        },
    }
    let block: u32 = match build_script.filesystem.block_size_mib {
        Some(size) => size,
        None => 1,
    };
    if block == 0 {
        return Err(ConfigError::ZeroBlockSize);
    }
    if build_script.filesystem.size_mib % block != 0 {
        return Err(ConfigError::SizeNotInBlocks);
    }
    Ok(engine)
}

/// A bare script that refers to anything outside itself is never
/// accepted, whatever it refers to and whether or not that is there.
pub proof fn lemma_unpackaged_references_refused(script: BuildScript, exists: Seq<bool>, euid: u32)
    requires
        references(script).len() > 0,
    ensures
        violation(PackageType::BuildScript, script, exists, euid) is Some,
{
}

/// In a package that can hold files, a reference that does not start at
/// the package's root, or that names nothing that is there, keeps the
/// run from beginning.
pub proof fn lemma_bad_reference_refused(
    package_type: PackageType,
    script: BuildScript,
    exists: Seq<bool>,
    euid: u32,
    index: int,
)
    requires
        package_type.holds_files(),
        0 <= index < references(script).len(),
        !is_rooted(references(script)[index]) || !was_found(exists, index),
    ensures
        violation(package_type, script, exists, euid) is Some,
{
    lemma_first_reference_fault(references(script), exists, 0);
    assert(!reference_ok(references(script), exists, index));
}

/// A script that is accepted is well formed: every command says in
/// exactly one way what to run, every overlay has exactly the source its
/// kind needs, the image has a name, and no mapping holds a key twice.
pub proof fn lemma_accepted_is_well_formed(
    package_type: PackageType,
    script: BuildScript,
    exists: Seq<bool>,
    euid: u32,
)
    requires
        violation(package_type, script, exists, euid) is None,
    ensures
        script.well_formed(),
        allocatable(script.filesystem),
        package_type.holds_files() ==> forall|i: int|
            0 <= i < references(script).len() ==> reference_ok(references(script), exists, i),
        !package_type.holds_files() ==> references(script).len() == 0,
{
    lemma_first_reference_fault(references(script), exists, 0);
    lemma_commands_well_formed(script.commands@);
    lemma_overlays_well_formed(script.overlays@, 0);
    lemma_first_repeated_env(script.commands@, 0);
}

/// What a dry run does on the host: nothing, unless the package is an
/// archive, which is unpacked to a directory of the run's own that is
/// deleted again at the end.
#[derive(Debug, PartialEq, Eq)]
pub struct DryRunPlan {
    /// The unpacking, before the script is read.
    pub unpack: Option<UnpackPlan>,
    /// What is deleted at the end.
    pub cleanup: Vec<FsAction>,
}

/// Plans what a dry run of the package `package` does on the host.
pub fn plan_dry_run(package_type: PackageType, package: &str, location: &PackageLocation) -> (plan:
    DryRunPlan)
    ensures
        !location.disposable ==> plan.unpack is None && plan.cleanup@.len() == 0,
        location.disposable ==> {
            &&& plan.unpack matches Some(unpack)
            &&& unpack.source_path@ == package@
            &&& unpack.destination_path@ == location.unpack_path@
            &&& unpack.extract == package_type.is_archive()
            &&& unpack.compressed == (package_type == PackageType::TarGz)
            &&& unpack.prepare.deep_view() == (FsActionView::CreateDirAll {
                path: location.unpack_path@,
            })
            &&& plan.cleanup.deep_view() == seq![
                FsActionView::RemoveTree { path: location.unpack_path@ },
            ]
        },
{
    let mut cleanup: Vec<FsAction> = Vec::new();
    if !location.disposable {
        return DryRunPlan { unpack: None, cleanup };
    }
    let args = UnpackArgs {
        source_path: String::from_str(package),
        destination_path: location.unpack_path.clone(),
    };
    let unpack = unpack_command(package_type, &args);
    cleanup.push(FsAction::RemoveTree { path: location.unpack_path.clone() });
    assert(cleanup.deep_view() =~= seq![FsActionView::RemoveTree { path: location.unpack_path@ }]);
    DryRunPlan { unpack: Some(unpack), cleanup }
}

/// A dry run of a package that is no archive changes nothing on the
/// host: all it does is reach the engine and ask whether it is there.
pub proof fn lemma_dry_run_changes_nothing(
    package_type: PackageType,
    package: Seq<char>,
    scratch: Seq<char>,
    location: PackageLocation,
)
    requires
        !package_type.is_archive(),
        location.locates(package_type, package, scratch),
    ensures
        !location.disposable,
        location.unpack_path@ == package,
{
}

/// The dry run proper, once the script is accepted and the engine is
/// reached: the engine is asked whether it is there, and nothing else.
/// The reply is the engine's own answer to that one request.
pub fn dry_run_command<E: ContainerEngine>(engine: &E) -> (reply: Result<(), BuildError>)
    ensures
        fails_only_as(reply, ErrorKind::EngineUnreachable),
        call_ensures(E::ping, (engine,), answer_in(reply)),
{
    engine_ping(engine)
}

/// A run of a script that was accepted can be asked for everything it
/// has to do, with one exception: an overlay that would write where an
/// overlay before it has written. Whatever else fails in such a run
/// fails while it is carried out.
pub proof fn lemma_accepted_run_is_askable(
    package_type: PackageType,
    script: BuildScript,
    exists: Seq<bool>,
    euid: u32,
    context: RunContext,
    location: PackageLocation,
    output: Seq<char>,
    no_exec_logs: bool,
    at: int,
)
    requires
        violation(package_type, script, exists, euid) is None,
        context.is_for(script, location, output, no_exec_logs),
        0 <= at < context.shape(script).plan_len(),
    ensures
        ({
            let op = context.shape(script).plan_op(at);
            askable(op, script, context) || (op matches Op::ApplyOverlay(i) && repeats_destination(
                script.overlays@,
                i as int,
                context.mount_path@,
            ))
        }),
{
    lemma_accepted_is_well_formed(package_type, script, exists, euid);
    lemma_staged_run_is_askable(script, context);
    lemma_export_possible_below_tmp(script.export, context.mount_path@, ".mount"@);
    let op = context.shape(script).plan_op(at);
    match op {
        Op::ApplyOverlay(i) => {
            assert(script.overlays@[i as int].well_formed());
        },
        _ => {},
    }
}

} // verus!
