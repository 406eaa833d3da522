//! The stages of a run after validation, each as the requests it makes.

use crate::action::{
    copy_preserving, preserving_copy, FsAction, FsActionView, MountRequest, ToolCall, EXECUTE_ONLY,
};
use crate::cli::{PackageType, RunArgs};
use crate::dry_run::{prepare_for_run, violation, Engine};
use crate::error::ConfigError;
use crate::container_engine::{ExecParams, ExecParamsView};
use crate::package::PackageLocation;
use crate::pipeline::{Op, Pipeline, Shape};
use crate::pairs::{merge_pairs, merged, upsert, upsert_pair};
use crate::path::{adjoin, adjoin_str, parent, parent_of};
use crate::schema::{
    BuildScript, BuildScriptCommand, BuildScriptContainer, BuildScriptExport,
    BuildScriptFilesystem, BuildScriptOverlay, ContainerEngineType,
};
use crate::text::{copy_optional, copy_texts, decimal, decimal_string, lemma_decimal_injective};
use vstd::prelude::*;

verus! {

/// Making the directory that holds `inner` below `root`, if `inner` has one.
pub open spec fn parent_dir_actions(root: Seq<char>, inner: Seq<char>) -> Seq<FsActionView> {
    match parent(inner) {
        Some(up) => seq![FsActionView::CreateDirAll { path: adjoin(root, up) }],
        None => Seq::empty(),
    }
}

/// What applying a well-formed overlay does to the mounted image.
///
/// A directory is copied as a whole into the destination, where it
/// replaces no file. For a file the directory that holds the destination
/// is made first; then the source file is copied or the inline content
/// is written, in both cases only to a destination that does not exist
/// yet.
pub open spec fn overlay_actions(overlay: BuildScriptOverlay, unpack: Seq<char>, mount: Seq<char>) -> Seq<
    FsActionView,
> {
    let target = adjoin(mount, overlay.destination@);
    if overlay.is_directory {
        seq![FsActionView::CopyTree { source: adjoin(unpack, overlay.source->0@), target }]
    } else if overlay.source is Some {
        parent_dir_actions(mount, overlay.destination@).push(
            FsActionView::CopyFileNew { source: adjoin(unpack, overlay.source->0@), target },
        )
    } else {
        parent_dir_actions(mount, overlay.destination@).push(
            FsActionView::WriteNewFile { path: target, content: overlay.source_inline->0@ },
        )
    }
}

/// Whether the file overlay at `index` has the destination of a file
/// overlay before it.
pub open spec fn repeats_destination(overlays: Seq<BuildScriptOverlay>, index: int, mount: Seq<char>) -> bool {
    &&& 0 <= index < overlays.len()
    &&& !overlays[index].is_directory
    &&& exists|i: int|
        0 <= i < index && !(#[trigger] overlays[i]).is_directory && adjoin(mount, overlays[i].destination@)
            == adjoin(mount, overlays[index].destination@)
}

/// The actions of the overlay at `index`, or none where the overlay cannot
/// be applied: there is no such overlay, it is not well formed, or it
/// would write where an earlier overlay has written.
pub open spec fn overlay_plan(
    overlays: Seq<BuildScriptOverlay>,
    index: int,
    unpack: Seq<char>,
    mount: Seq<char>,
) -> Option<Seq<FsActionView>> {
    if 0 <= index < overlays.len() && overlays[index].well_formed() && !repeats_destination(
        overlays,
        index,
        mount,
    ) {
        Some(overlay_actions(overlays[index], unpack, mount))
    } else {
        None
    }
}

/// Plans the making of the directory that holds `inner` below `root`.
fn parent_dir_plan(root: &str, inner: &str) -> (actions: Vec<FsAction>)
    ensures
        actions.deep_view() == parent_dir_actions(root@, inner@),
{
    let mut actions: Vec<FsAction> = Vec::new();
    match parent_of(inner) {
        Some(up) => {
            actions.push(FsAction::CreateDirAll { path: adjoin_str(root, up.as_str()) });
            assert(actions.deep_view() =~= parent_dir_actions(root@, inner@));
        },
        None => {
            assert(actions.deep_view() =~= parent_dir_actions(root@, inner@));
        },
    }
    actions
}

/// Whether the file overlay at `index` has the destination of a file
/// overlay before it.
fn overlay_repeats(overlays: &Vec<BuildScriptOverlay>, index: usize, mount_path: &str) -> (repeats: bool)
    requires
        index < overlays.len(),
    ensures
        repeats == repeats_destination(overlays@, index as int, mount_path@),
{
    if overlays[index].is_directory {
        return false;
    }
    let target = adjoin_str(mount_path, overlays[index].destination.as_str());
    let mut i: usize = 0;
    while i < index
        invariant
            index < overlays.len(),
            i <= index,
            !overlays[index as int].is_directory,
            target@ == adjoin(mount_path@, overlays[index as int].destination@),
            forall|k: int|
                0 <= k < i ==> !(!(#[trigger] overlays[k]).is_directory && adjoin(
                    mount_path@,
                    overlays[k].destination@,
                ) == target@),
        decreases index - i,
    {
        if !overlays[i].is_directory {
            let earlier = adjoin_str(mount_path, overlays[i].destination.as_str());
            if crate::pairs::same_text(earlier.as_str(), target.as_str()) {
                assert(!overlays@[i as int].is_directory && adjoin(
                    mount_path@,
                    overlays@[i as int].destination@,
                ) == adjoin(mount_path@, overlays@[index as int].destination@));
                return true;
            }
        }
        i += 1;
    }
    false
}

/// Plans the overlay at `index`: what is done to the mounted image, or
/// that the overlay cannot be applied.
pub fn plan_overlay(
    overlays: &Vec<BuildScriptOverlay>,
    index: usize,
    unpack_path: &str,
    mount_path: &str,
) -> (plan: Option<Vec<FsAction>>)
    ensures
        plan.deep_view() == overlay_plan(overlays@, index as int, unpack_path@, mount_path@),
{
    if index >= overlays.len() {
        return None;
    }
    let overlay = &overlays[index];
    let target = adjoin_str(mount_path, overlay.destination.as_str());
    if overlay.is_directory {
        match (&overlay.source, &overlay.source_inline) {
            (Some(source), None) => {
                let mut actions: Vec<FsAction> = Vec::new();
                actions.push(
                    FsAction::CopyTree { source: adjoin_str(unpack_path, source.as_str()), target },
                );
                assert(actions.deep_view() =~= overlay_actions(*overlay, unpack_path@, mount_path@));
                Some(actions)
            },
            _ => None,
        }
    } else {
        if overlay_repeats(overlays, index, mount_path) {
            return None;
        }
        match (&overlay.source, &overlay.source_inline) {
            (Some(source), None) => {
                let mut actions = parent_dir_plan(mount_path, overlay.destination.as_str());
                let ghost before = actions.deep_view();
                actions.push(
                    FsAction::CopyFileNew { source: adjoin_str(unpack_path, source.as_str()), target },
                );
                assert(actions.deep_view() =~= before.push(
                    FsActionView::CopyFileNew {
                        source: adjoin(unpack_path@, source@),
                        target: target@,
                    },
                ));
                Some(actions)
            },
            (None, Some(content)) => {
                let mut actions = parent_dir_plan(mount_path, overlay.destination.as_str());
                let ghost before = actions.deep_view();
                actions.push(FsAction::WriteNewFile { path: target, content: content.clone() });
                assert(actions.deep_view() =~= before.push(
                    FsActionView::WriteNewFile { path: target@, content: content@ },
                ));
                Some(actions)
            },
            _ => None,
        }
    }
}

/// An overlay never replaces a file: where it puts a file, it puts it
/// only at a destination that does not exist yet.
pub proof fn lemma_overlay_never_replaces_file(
    overlays: Seq<BuildScriptOverlay>,
    index: int,
    unpack: Seq<char>,
    mount: Seq<char>,
)
    requires
        overlay_plan(overlays, index, unpack, mount) is Some,
    ensures
        forall|k: int|
            0 <= k < overlay_plan(overlays, index, unpack, mount)->0.len() ==> !(
            #[trigger] overlay_plan(overlays, index, unpack, mount)->0[k]).may_replace_file(),
{
}

/// Of two file overlays with one destination the second cannot be
/// applied, whatever the first one wrote.
pub proof fn lemma_second_write_refused(
    overlays: Seq<BuildScriptOverlay>,
    first: int,
    second: int,
    unpack: Seq<char>,
    mount: Seq<char>,
)
    requires
        0 <= first < second < overlays.len(),
        !overlays[first].is_directory,
        !overlays[second].is_directory,
        overlays[first].destination@ == overlays[second].destination@,
    ensures
        overlay_plan(overlays, second, unpack, mount) is None,
{
    assert(repeats_destination(overlays, second, mount));
}

/// Copying an exported directory out of the container's filesystem, with
/// ownership, modes and times, into the directory that holds its place
/// in the image.
pub open spec fn export_directory_task(path: Seq<char>, rootfs: Seq<char>, mount: Seq<char>) -> Seq<
    FsActionView,
> {
    seq![
        FsActionView::RunTool(
            preserving_copy(adjoin(rootfs, path), parent(adjoin(mount, path))->0),
        ),
    ]
}

/// Making an exported empty directory in the image.
pub open spec fn export_new_directory_task(path: Seq<char>, mount: Seq<char>) -> Seq<FsActionView> {
    seq![FsActionView::CreateDirAll { path: adjoin(mount, path) }]
}

/// Copying an exported file out of the container's filesystem, after the
/// directory that holds it is made.
pub open spec fn export_file_task(path: Seq<char>, rootfs: Seq<char>, mount: Seq<char>) -> Seq<
    FsActionView,
> {
    parent_dir_actions(mount, path).push(
        FsActionView::CopyFile { source: adjoin(rootfs, path), target: adjoin(mount, path) },
    )
}

/// Making an exported empty file in the image, after the directory that
/// holds it is made.
pub open spec fn export_new_file_task(path: Seq<char>, mount: Seq<char>) -> Seq<FsActionView> {
    parent_dir_actions(mount, path).push(FsActionView::CreateNewFile { path: adjoin(mount, path) })
}

/// The tasks of the export stage: first the directories to copy, then the
/// directories to make, the files to copy and the files to make. The
/// actions of one task follow each other; the tasks do not depend on
/// each other.
pub open spec fn export_tasks(export: BuildScriptExport, rootfs: Seq<char>, mount: Seq<char>) -> Seq<
    Seq<FsActionView>,
> {
    Seq::new(
        export.directories.included.len() as nat,
        |i: int| export_directory_task(export.directories.included[i]@, rootfs, mount),
    ) + Seq::new(
        export.directories.create.len() as nat,
        |i: int| export_new_directory_task(export.directories.create[i]@, mount),
    ) + Seq::new(
        export.files.included.len() as nat,
        |i: int| export_file_task(export.files.included[i]@, rootfs, mount),
    ) + Seq::new(
        export.files.create.len() as nat,
        |i: int| export_new_file_task(export.files.create[i]@, mount),
    )
}

/// Whether every directory to copy has a directory to be copied into:
/// none of them is the root of an image that is mounted at the root.
pub open spec fn export_possible(export: BuildScriptExport, mount: Seq<char>) -> bool {
    forall|i: int|
        0 <= i < export.directories.included.len() ==> parent(
            adjoin(mount, (#[trigger] export.directories.included[i])@),
        ) is Some
}

/// Plans the export stage, or finds that a directory cannot be copied.
pub fn plan_export(export: &BuildScriptExport, rootfs_path: &str, mount_path: &str) -> (plan: Option<
    Vec<Vec<FsAction>>,
>)
    ensures
        plan is Some == export_possible(*export, mount_path@),
        plan matches Some(tasks) ==> tasks.deep_view() == export_tasks(
            *export,
            rootfs_path@,
            mount_path@,
        ),
{
    let ghost want = export_tasks(*export, rootfs_path@, mount_path@);
    let mut tasks: Vec<Vec<FsAction>> = Vec::new();
    let n1 = export.directories.included.len();
    let n2 = export.directories.create.len();
    let n3 = export.files.included.len();
    let n4 = export.files.create.len();
    let mut i: usize = 0;
    while i < n1
        invariant
            n1 == export.directories.included.len(),
            i <= n1,
            tasks.len() == i,
            want == export_tasks(*export, rootfs_path@, mount_path@),
            forall|k: int| 0 <= k < i ==> (#[trigger] tasks[k]).deep_view() == want[k],
            forall|k: int|
                0 <= k < i ==> parent(
                    adjoin(mount_path@, (#[trigger] export.directories.included[k])@),
                ) is Some,
        decreases n1 - i,
    {
        let path = export.directories.included[i].as_str();
        let target = adjoin_str(mount_path, path);
        match parent_of(target.as_str()) {
            Some(into) => {
                let mut task: Vec<FsAction> = Vec::new();
                task.push(FsAction::RunTool(copy_preserving(adjoin_str(rootfs_path, path), into)));
                assert(task.deep_view() =~= export_directory_task(path@, rootfs_path@, mount_path@));
                tasks.push(task);
            },
            None => {
                return None;
            },
        }
        i += 1;
    }
    let mut j: usize = 0;
    while j < n2
        invariant
            n1 == export.directories.included.len(),
            n2 == export.directories.create.len(),
            j <= n2,
            tasks.len() == n1 + j,
            want == export_tasks(*export, rootfs_path@, mount_path@),
            forall|k: int| 0 <= k < n1 + j ==> (#[trigger] tasks[k]).deep_view() == want[k],
        decreases n2 - j,
    {
        let path = export.directories.create[j].as_str();
        let mut task: Vec<FsAction> = Vec::new();
        task.push(FsAction::CreateDirAll { path: adjoin_str(mount_path, path) });
        assert(task.deep_view() =~= export_new_directory_task(path@, mount_path@));
        tasks.push(task);
        j += 1;
    }
    let mut k3: usize = 0;
    while k3 < n3
        invariant
            n1 == export.directories.included.len(),
            n2 == export.directories.create.len(),
            n3 == export.files.included.len(),
            k3 <= n3,
            tasks.len() == n1 + n2 + k3,
            want == export_tasks(*export, rootfs_path@, mount_path@),
            forall|k: int| 0 <= k < n1 + n2 + k3 ==> (#[trigger] tasks[k]).deep_view() == want[k],
        decreases n3 - k3,
    {
        let path = export.files.included[k3].as_str();
        let mut task = parent_dir_plan(mount_path, path);
        let ghost before = task.deep_view();
        task.push(
            FsAction::CopyFile {
                source: adjoin_str(rootfs_path, path),
                target: adjoin_str(mount_path, path),
            },
        );
        assert(task.deep_view() =~= before.push(
            FsActionView::CopyFile {
                source: adjoin(rootfs_path@, path@),
                target: adjoin(mount_path@, path@),
            },
        ));
        tasks.push(task);
        k3 += 1;
    }
    let mut k4: usize = 0;
    while k4 < n4
        invariant
            n1 == export.directories.included.len(),
            n2 == export.directories.create.len(),
            n3 == export.files.included.len(),
            n4 == export.files.create.len(),
            k4 <= n4,
            tasks.len() == n1 + n2 + n3 + k4,
            want == export_tasks(*export, rootfs_path@, mount_path@),
            forall|k: int| 0 <= k < n1 + n2 + n3 + k4 ==> (#[trigger] tasks[k]).deep_view() == want[k],
        decreases n4 - k4,
    {
        let path = export.files.create[k4].as_str();
        let mut task = parent_dir_plan(mount_path, path);
        let ghost before = task.deep_view();
        task.push(FsAction::CreateNewFile { path: adjoin_str(mount_path, path) });
        assert(task.deep_view() =~= before.push(
            FsActionView::CreateNewFile { path: adjoin(mount_path@, path@) },
        ));
        tasks.push(task);
        k4 += 1;
    }
    assert(tasks.deep_view() =~= want);
    Some(tasks)
}

/// The block size of the allocation in MiB: one where the script names none.
pub open spec fn block_size(filesystem: BuildScriptFilesystem) -> nat {
    match filesystem.block_size_mib {
        Some(size) => size as nat,
        None => 1,
    }
}

/// Whether the image can be allocated in whole blocks: the block size is
/// not zero and divides the size of the image.
pub open spec fn allocatable(filesystem: BuildScriptFilesystem) -> bool {
    block_size(filesystem) != 0 && filesystem.size_mib as nat % block_size(filesystem) == 0
}

/// The number of blocks that make up the image.
pub open spec fn block_count(filesystem: BuildScriptFilesystem) -> nat {
    filesystem.size_mib as nat / block_size(filesystem)
}

/// The blocks of an image that can be allocated are the size that the
/// script asks for, no more and no less.
pub proof fn lemma_blocks_make_the_size(filesystem: BuildScriptFilesystem)
    requires
        allocatable(filesystem),
    ensures
        block_count(filesystem) * block_size(filesystem) == filesystem.size_mib,
{
    let size = filesystem.size_mib as nat;
    let block = block_size(filesystem);
    assert(size == block * (size / block) + size % block) by (nonlinear_arith)
        requires
            block != 0,
    ;
    assert((size / block) * block == block * (size / block)) by (nonlinear_arith);
}

/// The arguments of the tool that allocates the image file: zeros are
/// read, `output` is written, in blocks of the block size and as many of
/// them as make up the size of the image; the script's own arguments
/// follow as they are.
pub open spec fn allocation_args(filesystem: BuildScriptFilesystem, output: Seq<char>) -> Seq<Seq<char>> {
    seq![
        "if=/dev/zero"@,
        "of="@ + output,
        "bs="@ + decimal(block_size(filesystem)) + "M"@,
        "count="@ + decimal(block_count(filesystem)),
    ] + filesystem.dd_args.deep_view()
}

/// The arguments of the tool that formats the image file: the file, then
/// the script's own arguments as they are.
pub open spec fn format_args(filesystem: BuildScriptFilesystem, output: Seq<char>) -> Seq<Seq<char>> {
    seq![output] + filesystem.mkfs_args.deep_view()
}

/// How the image file is made and mounted.
#[derive(Debug, PartialEq, Eq)]
pub struct RootfsPlan {
    /// Fills the image file with zeros.
    pub allocate: ToolCall,
    /// Makes the filesystem in the image file.
    pub format: ToolCall,
    /// Makes the directory at which the image is mounted.
    pub mount_point: FsAction,
    /// Mounts the image file there.
    pub mount: MountRequest,
}

impl RootfsPlan {
    /// Whether this is the plan for `filesystem` in the file `output`,
    /// mounted at `mount`.
    pub open spec fn is_for(
        &self,
        filesystem: BuildScriptFilesystem,
        output: Seq<char>,
        mount: Seq<char>,
        quiet: bool,
    ) -> bool {
        &&& self.allocate.program@ == "dd"@
        &&& self.allocate.args.deep_view() == allocation_args(filesystem, output)
        &&& self.allocate.quiet == quiet
        &&& self.format.program@ == filesystem.filesystem_type.mkfs_text()
        &&& self.format.args.deep_view() == format_args(filesystem, output)
        &&& self.format.quiet == quiet
        &&& self.mount_point.deep_view() == (FsActionView::CreateDir { path: mount })
        &&& self.mount.fstype@ == filesystem.filesystem_type.fstype_text()
        &&& self.mount.source@ == output
        &&& self.mount.target@ == mount
    }
}

/// Appends copies of `more` to `list`.
fn append_texts(list: &mut Vec<String>, more: &Vec<String>)
    ensures
        final(list).deep_view() == old(list).deep_view() + more.deep_view(),
{
    let mut i: usize = 0;
    while i < more.len()
        invariant
            i <= more.len(),
            list.len() == old(list).len() + i,
            forall|k: int| 0 <= k < old(list).len() ==> list[k]@ == old(list)[k]@,
            forall|k: int| 0 <= k < i ==> list[old(list).len() + k]@ == more[k]@,
        decreases more.len() - i,
    {
        list.push(more[i].clone());
        i += 1;
    }
    assert(list.deep_view() =~= old(list).deep_view() + more.deep_view());
}

/// Plans the making of the image file `output_path` and its mounting at
/// `mount_path`. There is a plan exactly where the image can be
/// allocated in whole blocks; the image then has the size that the
/// script asks for.
pub fn plan_rootfs(
    filesystem: &BuildScriptFilesystem,
    output_path: &str,
    mount_path: &str,
    no_exec_logs: bool,
) -> (plan: Option<RootfsPlan>)
    ensures
        plan is Some == allocatable(*filesystem),
        plan matches Some(p) ==> p.is_for(*filesystem, output_path@, mount_path@, no_exec_logs),
{
    let block: u32 = match filesystem.block_size_mib {
        Some(size) => size,
        None => 1,
    };
    if block == 0 || filesystem.size_mib % block != 0 {
        return None;
    }
    let mut of = String::from_str("of=");
    of.append(output_path);
    let mut bs = String::from_str("bs=");
    bs.append(decimal_string(block as u64).as_str());
    bs.append("M");
    let mut count = String::from_str("count=");
    count.append(decimal_string((filesystem.size_mib / block) as u64).as_str());
    let mut dd: Vec<String> = Vec::new();
    dd.push(String::from_str("if=/dev/zero"));
    dd.push(of);
    dd.push(bs);
    dd.push(count);
    assert(dd.deep_view() =~= seq![
        "if=/dev/zero"@,
        "of="@ + output_path@,
        "bs="@ + decimal(block as nat) + "M"@,
        "count="@ + decimal(filesystem.size_mib as nat / block as nat),
    ]);
    append_texts(&mut dd, &filesystem.dd_args);
    let mut mkfs: Vec<String> = Vec::new();
    mkfs.push(String::from_str(output_path));
    assert(mkfs.deep_view() =~= seq![output_path@]);
    append_texts(&mut mkfs, &filesystem.mkfs_args);
    Some(
        RootfsPlan {
            allocate: ToolCall { program: String::from_str("dd"), args: dd, quiet: no_exec_logs },
            format: ToolCall {
                program: filesystem.filesystem_type.mkfs_name(),
                args: mkfs,
                quiet: no_exec_logs,
            },
            mount_point: FsAction::CreateDir { path: String::from_str(mount_path) },
            mount: MountRequest {
                fstype: filesystem.filesystem_type.fstype_name(),
                source: String::from_str(output_path),
                target: String::from_str(mount_path),
            },
        },
    )
}

/// Whether `c` can stand in a random name: a lower-case hexadecimal digit
/// or a hyphen.
pub open spec fn is_token_char(c: char) -> bool {
    ('0' <= c <= '9') || ('a' <= c <= 'f') || c == '-'
}

/// Whether `s` has the form of a random name: 36 characters, each a
/// lower-case hexadecimal digit or a hyphen.
pub open spec fn is_token(s: Seq<char>) -> bool {
    s.len() == 36 && forall|i: int| 0 <= i < s.len() ==> is_token_char(#[trigger] s[i])
}

/// Whether `s` is a name below `dir` that is made of a random name and
/// `ending`.
pub open spec fn is_named_below(s: Seq<char>, dir: Seq<char>, ending: Seq<char>) -> bool {
    exists|token: Seq<char>| is_token(token) && s == dir + #[trigger] seq!['/'].add(token) + ending
}

/// Whether `s` is a random name below `dir`.
pub open spec fn is_random_below(s: Seq<char>, dir: Seq<char>) -> bool {
    is_named_below(s, dir, Seq::empty())
}

/// Two names below one directory with two endings differ, whatever
/// chance made of their random parts.
pub proof fn lemma_names_differ(a: Seq<char>, b: Seq<char>, dir: Seq<char>, first: Seq<char>, second: Seq<char>)
    requires
        is_named_below(a, dir, first),
        is_named_below(b, dir, second),
        first != second,
    ensures
        a != b,
{
    let s = choose|token: Seq<char>| is_token(token) && a == dir + #[trigger] seq!['/'].add(token) + first;
    let t = choose|token: Seq<char>| is_token(token) && b == dir + #[trigger] seq!['/'].add(token) + second;
    let head = dir.len() + 37;
    if a == b {
        assert(a.skip(head as int) =~= first);
        assert(b.skip(head as int) =~= second);
    }
}

/// A random name.
///
/// Calls `uuid::Uuid::new_v4` and writes the identifier with its
/// `Display`, which is the hyphenated lower-case form: 32 hexadecimal
/// digits in five groups with a hyphen between them. Which name comes out
/// is left open; two calls give two names only as far as chance has it.
/// The call does not come back where the system has no random bytes to
/// give.
#[verifier::external_body]
fn random_token() -> (token: String)
    ensures
        is_token(token@),
{
    uuid::Uuid::new_v4().to_string()
}

/// The ending of the name of what belongs to the command with the number
/// `command`: a hyphen and the number.
pub open spec fn command_ending(command: nat) -> Seq<char> {
    seq!['-'] + decimal(command)
}

/// Whether `s` is a name below `dir` for what belongs to the command
/// with the number `command`: a random name, a hyphen and the number.
pub open spec fn is_staged_below(s: Seq<char>, dir: Seq<char>, command: nat) -> bool {
    is_named_below(s, dir, command_ending(command))
}

/// Names below one directory for two commands differ, whatever chance
/// made of their random parts.
pub proof fn lemma_staged_names_differ(a: Seq<char>, b: Seq<char>, dir: Seq<char>, n: nat, m: nat)
    requires
        is_staged_below(a, dir, n),
        is_staged_below(b, dir, m),
        n != m,
    ensures
        a != b,
{
    if command_ending(n) == command_ending(m) {
        assert(command_ending(n).skip(1) =~= decimal(n));
        assert(command_ending(m).skip(1) =~= decimal(m));
        lemma_decimal_injective(n, m);
    }
    lemma_names_differ(a, b, dir, command_ending(n), command_ending(m));
}

/// A name below `dir` that is made of a random name and `ending`.
pub fn named_path_below(dir: &str, ending: &str) -> (path: String)
    ensures
        is_named_below(path@, dir@, ending@),
{
    let token = random_token();
    let mut path = String::from_str(dir);
    proof {
        reveal_strlit("/");
    }
    path.append("/");
    path.append(token.as_str());
    path.append(ending);
    assert(path@ =~= dir@ + seq!['/'].add(token@) + ending@);
    path
}

/// A random name below `dir` for what belongs to the command with the
/// number `command`.
pub fn staged_path_below(dir: &str, command: usize) -> (path: String)
    ensures
        is_staged_below(path@, dir@, command as nat),
{
    let mut ending = String::from_str("-");
    proof {
        reveal_strlit("-");
    }
    ending.append(decimal_string(command as u64).as_str());
    assert(ending@ =~= command_ending(command as nat));
    named_path_below(dir, ending.as_str())
}

/// A random name below `dir`.
pub fn random_path_below(dir: &str) -> (path: String)
    ensures
        is_random_below(path@, dir@),
{
    proof {
        reveal_strlit("");
    }
    assert(""@ =~= Seq::<char>::empty());
    named_path_below(dir, "")
}

/// A path for something that lives as long as the run: a random name
/// below `/tmp`.
pub fn get_tmp_path() -> (path: String)
    ensures
        is_random_below(path@, "/tmp"@),
{
    random_path_below("/tmp")
}

/// Plans the making of the image file `output_path` and its mounting at a
/// directory of the run's own. There is a plan exactly where the image
/// can be allocated in whole blocks.
pub fn init_rootfs(filesystem: &BuildScriptFilesystem, output_path: &str, no_exec_logs: bool) -> (plan:
    Option<RootfsPlan>)
    ensures
        plan is Some == allocatable(*filesystem),
        plan matches Some(p) ==> is_random_below(p.mount.target@, "/tmp"@) && p.is_for(
            *filesystem,
            output_path@,
            p.mount.target@,
            no_exec_logs,
        ),
{
    let mount_path = get_tmp_path();
    plan_rootfs(filesystem, output_path, mount_path.as_str(), no_exec_logs)
}

/// Where the inline script of one command is kept on the host, and where
/// the container sees it.
#[derive(Debug, PartialEq, Eq)]
pub struct StagedScript {
    /// The number of the command in the script.
    pub command: usize,
    pub host_path: String,
    pub mount_path: String,
}

/// The numbers of the commands that have an inline script, in the order
/// of the script.
pub open spec fn inline_commands(commands: Seq<BuildScriptCommand>) -> Seq<int>
    decreases commands.len(),
{
    if commands.len() == 0 {
        Seq::empty()
    } else if commands.last().script_inline is Some {
        inline_commands(commands.drop_last()).push(commands.len() - 1)
    } else {
        inline_commands(commands.drop_last())
    }
}

/// Whether `staged` gives each inline script of `commands`, in their
/// order, a file of its own on the host and a place of its own among the
/// scripts in the container: each under a random name that ends in the
/// number of the command.
pub open spec fn stages(staged: Seq<StagedScript>, commands: Seq<BuildScriptCommand>) -> bool {
    &&& staged.len() == inline_commands(commands).len()
    &&& forall|k: int|
        0 <= k < staged.len() ==> {
            &&& (#[trigger] staged[k]).command == inline_commands(commands)[k]
            &&& is_staged_below(staged[k].host_path@, "/tmp"@, staged[k].command as nat)
            &&& is_staged_below(staged[k].mount_path@, "/__scripts"@, staged[k].command as nat)
        }
}

/// The numbers of the commands with an inline script are numbers of
/// commands, in rising order.
pub proof fn lemma_inline_commands(commands: Seq<BuildScriptCommand>)
    ensures
        inline_commands(commands).len() <= commands.len(),
        forall|k: int|
            0 <= k < inline_commands(commands).len() ==> {
                &&& 0 <= #[trigger] inline_commands(commands)[k] < commands.len()
                &&& commands[inline_commands(commands)[k]].script_inline is Some
            },
        forall|j: int, k: int|
            0 <= j < k < inline_commands(commands).len() ==> inline_commands(commands)[j]
                < inline_commands(commands)[k],
    decreases commands.len(),
{
    if commands.len() > 0 {
        lemma_inline_commands(commands.drop_last());
    }
}

/// No two staged scripts share their file on the host or their place in
/// the container.
pub proof fn lemma_staged_paths_differ(
    staged: Seq<StagedScript>,
    commands: Seq<BuildScriptCommand>,
    j: int,
    k: int,
)
    requires
        stages(staged, commands),
        0 <= j < staged.len(),
        0 <= k < staged.len(),
        j != k,
    ensures
        staged[j].command != staged[k].command,
        staged[j].host_path@ != staged[k].host_path@,
        staged[j].mount_path@ != staged[k].mount_path@,
{
    lemma_inline_commands(commands);
    let listed = inline_commands(commands);
    assert(staged[j].command == listed[j]);
    assert(staged[k].command == listed[k]);
    if j < k {
        assert(listed[j] < listed[k]);
    } else {
        assert(listed[k] < listed[j]);
    }
    lemma_staged_names_differ(
        staged[j].host_path@,
        staged[k].host_path@,
        "/tmp"@,
        staged[j].command as nat,
        staged[k].command as nat,
    );
    lemma_staged_names_differ(
        staged[j].mount_path@,
        staged[k].mount_path@,
        "/__scripts"@,
        staged[j].command as nat,
        staged[k].command as nat,
    );
}

/// Gives each inline script a file of its own on the host and a place of
/// its own among the scripts in the container.
pub fn stage_inline_scripts(commands: &Vec<BuildScriptCommand>) -> (staged: Vec<StagedScript>)
    ensures
        stages(staged@, commands@),
{
    let mut staged: Vec<StagedScript> = Vec::new();
    let mut i: usize = 0;
    assert(commands@.take(0) =~= Seq::empty());
    while i < commands.len()
        invariant
            i <= commands.len(),
            stages(staged@, commands@.take(i as int)),
        decreases commands.len() - i,
    {
        assert(commands@.take(i + 1).drop_last() =~= commands@.take(i as int));
        if commands[i].script_inline.is_some() {
            let host_path = staged_path_below("/tmp", i);
            let mount_path = staged_path_below("/__scripts", i);
            staged.push(StagedScript { command: i, host_path, mount_path });
        }
        i += 1;
    }
    assert(commands@.take(commands.len() as int) =~= commands@);
    staged
}

/// Writing the inline script of `entry` to its file on the host and
/// making the file executable, and nothing but executable.
pub open spec fn staging_actions(commands: Seq<BuildScriptCommand>, entry: StagedScript) -> Option<
    Seq<FsActionView>,
> {
    if entry.command < commands.len() && commands[entry.command as int].script_inline is Some {
        Some(
            seq![
                FsActionView::WriteNewFile {
                    path: entry.host_path@,
                    content: commands[entry.command as int].script_inline->0@,
                },
                FsActionView::SetMode { path: entry.host_path@, mode: EXECUTE_ONLY },
            ],
        )
    } else {
        None
    }
}

/// Plans the staging of the inline script at place `index` of `staged`;
/// there is nothing to plan where there is no such script.
pub fn plan_staging(commands: &Vec<BuildScriptCommand>, staged: &Vec<StagedScript>, index: usize) -> (plan:
    Option<Vec<FsAction>>)
    ensures
        plan.deep_view() == (if index < staged.len() {
            staging_actions(commands@, staged[index as int])
        } else {
            None
        }),
{
    if index >= staged.len() {
        return None;
    }
    let entry = &staged[index];
    if entry.command >= commands.len() {
        return None;
    }
    match &commands[entry.command].script_inline {
        Some(body) => {
            let mut actions: Vec<FsAction> = Vec::new();
            actions.push(
                FsAction::WriteNewFile { path: entry.host_path.clone(), content: body.clone() },
            );
            actions.push(FsAction::SetMode { path: entry.host_path.clone(), mode: EXECUTE_ONLY });
            assert(actions.deep_view() =~= staging_actions(commands@, *entry)->0);
            Some(actions)
        },
        None => None,
    }
}

/// The directory in the container below which the scripts are mounted.
pub open spec fn scripts_root() -> Seq<char> {
    "/__scripts"@
}

/// The bind mounts of the script files of `commands`: each file, found
/// in the package at `unpack`, is seen below the scripts' directory under
/// its path in the package.
pub open spec fn script_volumes(commands: Seq<BuildScriptCommand>, unpack: Seq<char>) -> Seq<
    (Seq<char>, Seq<char>),
>
    decreases commands.len(),
{
    if commands.len() == 0 {
        Seq::empty()
    } else {
        let before = script_volumes(commands.drop_last(), unpack);
        match commands.last().script_path {
            Some(path) => upsert(before, adjoin(unpack, path@), adjoin(scripts_root(), path@)),
            None => before,
        }
    }
}

/// `volumes` and the bind mounts of the staged inline scripts.
pub open spec fn with_staged(volumes: Seq<(Seq<char>, Seq<char>)>, staged: Seq<StagedScript>) -> Seq<
    (Seq<char>, Seq<char>),
>
    decreases staged.len(),
{
    if staged.len() == 0 {
        volumes
    } else {
        upsert(
            with_staged(volumes, staged.drop_last()),
            staged.last().host_path@,
            staged.last().mount_path@,
        )
    }
}

/// The bind mounts that a run adds to those of the script: the script
/// files of the commands and the staged inline scripts.
pub fn script_mounts(commands: &Vec<BuildScriptCommand>, unpack_path: &str, staged: &Vec<StagedScript>) -> (volumes:
    Vec<(String, String)>)
    ensures
        volumes.deep_view() == with_staged(script_volumes(commands@, unpack_path@), staged@),
{
    let mut volumes: Vec<(String, String)> = Vec::new();
    let mut i: usize = 0;
    assert(commands@.take(0) =~= Seq::empty());
    assert(volumes.deep_view() =~= Seq::empty());
    while i < commands.len()
        invariant
            i <= commands.len(),
            volumes.deep_view() == script_volumes(commands@.take(i as int), unpack_path@),
        decreases commands.len() - i,
    {
        assert(commands@.take(i + 1).drop_last() =~= commands@.take(i as int));
        match &commands[i].script_path {
            Some(path) => {
                upsert_pair(
                    &mut volumes,
                    adjoin_str(unpack_path, path.as_str()),
                    adjoin_str("/__scripts", path.as_str()),
                );
            },
            None => {},
        }
        i += 1;
    }
    assert(commands@.take(commands.len() as int) =~= commands@);
    let mut k: usize = 0;
    assert(staged@.take(0) =~= Seq::empty());
    while k < staged.len()
        invariant
            k <= staged.len(),
            volumes.deep_view() == with_staged(
                script_volumes(commands@, unpack_path@),
                staged@.take(k as int),
            ),
        decreases staged.len() - k,
    {
        assert(staged@.take(k + 1).drop_last() =~= staged@.take(k as int));
        upsert_pair(&mut volumes, staged[k].host_path.clone(), staged[k].mount_path.clone());
        k += 1;
    }
    assert(staged@.take(staged.len() as int) =~= staged@);
    volumes
}

/// Where the container sees the inline script of the command with the
/// number `command`.
pub open spec fn staged_mount(staged: Seq<StagedScript>, command: int) -> Option<Seq<char>>
    decreases staged.len(),
{
    if staged.len() == 0 {
        None
    } else if staged[0].command == command {
        Some(staged[0].mount_path@)
    } else {
        staged_mount(staged.drop_first(), command)
    }
}

/// What a command runs: its inline script where it has one, else its
/// script file, seen below the scripts' directory, else its command line.
/// An inline script that was not staged cannot be run.
pub open spec fn command_line(command: BuildScriptCommand, index: int, staged: Seq<StagedScript>) -> Option<
    Seq<char>,
> {
    if command.script_inline is Some {
        staged_mount(staged, index)
    } else if command.script_path is Some {
        Some(adjoin(scripts_root(), command.script_path->0@))
    } else if command.command is Some {
        Some(command.command->0@)
    } else {
        Some(Seq::empty())
    }
}

/// The request that runs the command with the number `index`: the
/// command's own user, group, directory and privilege, and the
/// container's environment overlaid by the command's.
pub open spec fn exec_params_for(
    commands: Seq<BuildScriptCommand>,
    index: int,
    staged: Seq<StagedScript>,
    container: BuildScriptContainer,
    container_id: Seq<char>,
    container_name: Seq<char>,
) -> Option<ExecParamsView> {
    if 0 <= index < commands.len() {
        match command_line(commands[index], index, staged) {
            Some(cmd) => Some(
                ExecParamsView {
                    container_name,
                    container_id,
                    cmd,
                    uid: commands[index].uid,
                    gid: commands[index].gid,
                    working_dir: commands[index].working_dir.deep_view(),
                    privileged: commands[index].privileged,
                    env: merged(container.env.deep_view(), commands[index].env.deep_view()),
                },
            ),
            None => None,
        }
    } else {
        None
    }
}

/// Finds where the container sees the inline script of a command.
fn find_staged(staged: &Vec<StagedScript>, command: usize) -> (mount: Option<String>)
    ensures
        mount.deep_view() == staged_mount(staged@, command as int),
{
    let mut i: usize = 0;
    assert(staged@.skip(0) =~= staged@);
    while i < staged.len()
        invariant
            i <= staged.len(),
            staged_mount(staged@, command as int) == staged_mount(staged@.skip(i as int), command as int),
        decreases staged.len() - i,
    {
        assert(staged@.skip(i as int).drop_first() =~= staged@.skip(i + 1));
        if staged[i].command == command {
            return Some(staged[i].mount_path.clone());
        }
        i += 1;
    }
    None
}

/// Builds the request that runs the command with the number `index`.
pub fn exec_params(
    commands: &Vec<BuildScriptCommand>,
    index: usize,
    staged: &Vec<StagedScript>,
    container: &BuildScriptContainer,
    container_id: &str,
    container_name: &str,
) -> (params: Option<ExecParams>)
    ensures
        params.deep_view() == exec_params_for(
            commands@,
            index as int,
            staged@,
            *container,
            container_id@,
            container_name@,
        ),
{
    if index >= commands.len() {
        return None;
    }
    let command = &commands[index];
    let cmd: Option<String> = if command.script_inline.is_some() {
        find_staged(staged, index)
    } else {
        match &command.script_path {
            Some(path) => Some(adjoin_str("/__scripts", path.as_str())),
            None => match &command.command {
                Some(text) => Some(text.clone()),
                None => Some(String::new()),
            },
        }
    };
    match cmd {
        Some(cmd) => Some(
            ExecParams {
                container_name: String::from_str(container_name),
                container_id: String::from_str(container_id),
                cmd,
                uid: command.uid,
                gid: command.gid,
                working_dir: copy_optional(&command.working_dir),
                privileged: command.privileged,
                env: merge_pairs(&container.env, &command.env),
            },
        ),
        None => None,
    }
}

/// What a run deletes at its end: the files of the staged inline
/// scripts, the archive of the container's filesystem if it is still
/// there, the directory it was unpacked into, the directory at which the
/// image was mounted, and the directory into which the package was
/// unpacked if the run made it.
pub open spec fn cleanup_actions(
    staged: Seq<StagedScript>,
    tar: Seq<char>,
    rootfs: Seq<char>,
    mount: Seq<char>,
    unpack: Seq<char>,
    disposable: bool,
) -> Seq<FsActionView> {
    Seq::new(staged.len(), |k: int| FsActionView::RemoveFile { path: staged[k].host_path@ }) + seq![
        FsActionView::RemoveFile { path: tar },
        FsActionView::RemoveTree { path: rootfs },
        FsActionView::RemoveDir { path: mount },
    ] + (if disposable {
        seq![FsActionView::RemoveTree { path: unpack }]
    } else {
        Seq::empty()
    })
}

/// Plans what a run deletes at its end.
pub fn plan_cleanup(
    staged: &Vec<StagedScript>,
    tar_path: &str,
    rootfs_path: &str,
    mount_path: &str,
    unpack_path: &str,
    can_delete_unpack_path: bool,
) -> (actions: Vec<FsAction>)
    ensures
        actions.deep_view() == cleanup_actions(
            staged@,
            tar_path@,
            rootfs_path@,
            mount_path@,
            unpack_path@,
            can_delete_unpack_path,
        ),
{
    let mut actions: Vec<FsAction> = Vec::new();
    let mut k: usize = 0;
    while k < staged.len()
        invariant
            k <= staged.len(),
            actions.len() == k,
            forall|j: int|
                0 <= j < k ==> (#[trigger] actions[j]).deep_view() == (FsActionView::RemoveFile {
                    path: staged[j].host_path@,
                }),
        decreases staged.len() - k,
    {
        actions.push(FsAction::RemoveFile { path: staged[k].host_path.clone() });
        k += 1;
    }
    actions.push(FsAction::RemoveFile { path: String::from_str(tar_path) });
    actions.push(FsAction::RemoveTree { path: String::from_str(rootfs_path) });
    actions.push(FsAction::RemoveDir { path: String::from_str(mount_path) });
    if can_delete_unpack_path {
        actions.push(FsAction::RemoveTree { path: String::from_str(unpack_path) });
    }
    assert(actions.deep_view() =~= cleanup_actions(
        staged@,
        tar_path@,
        rootfs_path@,
        mount_path@,
        unpack_path@,
        can_delete_unpack_path,
    ));
    actions
}

/// What one run works with: where things are, and the names it has
/// given to what it makes.
#[derive(Debug, PartialEq, Eq)]
pub struct RunContext {
    /// The root against which the script's references are taken.
    pub unpack_path: String,
    /// Whether that root is the run's own and is deleted at its end.
    pub can_delete_unpack_path: bool,
    /// Where the image is written.
    pub output_path: String,
    /// Whether the output of commands and tools is thrown away.
    pub no_exec_logs: bool,
    pub container_name: String,
    /// The archive of the container's filesystem.
    pub tar_path: String,
    /// The directory that the archive is unpacked into.
    pub rootfs_path: String,
    /// The directory at which the image is mounted.
    pub mount_path: String,
    pub staged: Vec<StagedScript>,
}

impl RunContext {
    /// Whether this is a context for running `script` from the package
    /// at `location` with the output at `output`: the places are those
    /// of the package, every inline script is staged, and everything
    /// that the run makes has a random name with an ending that says
    /// what it is.
    pub open spec fn is_for(
        &self,
        script: BuildScript,
        location: PackageLocation,
        output: Seq<char>,
        no_exec_logs: bool,
    ) -> bool {
        &&& self.unpack_path@ == location.unpack_path@
        &&& self.can_delete_unpack_path == location.disposable
        &&& self.output_path@ == output
        &&& self.no_exec_logs == no_exec_logs
        &&& is_token(self.container_name@)
        &&& is_named_below(self.tar_path@, "/tmp"@, ".tar"@)
        &&& is_named_below(self.rootfs_path@, "/tmp"@, ".rootfs"@)
        &&& is_named_below(self.mount_path@, "/tmp"@, ".mount"@)
        &&& stages(self.staged@, script.commands@)
    }

    /// How much a run in this context has to do.
    pub open spec fn shape(&self, script: BuildScript) -> Shape {
        Shape {
            scripts: self.staged.len(),
            commands: script.commands.len(),
            overlays: script.overlays.len(),
        }
    }
}

/// Names what a run will make and stages the inline scripts.
fn set_up_run(
    run_args: &RunArgs,
    build_script: &BuildScript,
    location: &PackageLocation,
    no_exec_logs: bool,
) -> (run: (RunContext, Pipeline))
    ensures
        run.0.is_for(*build_script, *location, run_args.output_path@, no_exec_logs),
        run.1.wf(),
        run.1.shape() == run.0.shape(*build_script),
        run.1.done() == 0,
        run.1.failed_place() is None,
        run.1.left_over() == 0,
        run.1.current_op() == Some(Op::PullImage),
{
    let staged = stage_inline_scripts(&build_script.commands);
    let shape = Shape {
        scripts: staged.len(),
        commands: build_script.commands.len(),
        overlays: build_script.overlays.len(),
    };
    let context = RunContext {
        unpack_path: location.unpack_path.clone(),
        can_delete_unpack_path: location.disposable,
        output_path: run_args.output_path.clone(),
        no_exec_logs,
        container_name: random_token(),
        tar_path: named_path_below("/tmp", ".tar"),
        rootfs_path: named_path_below("/tmp", ".rootfs"),
        mount_path: named_path_below("/tmp", ".mount"),
        staged,
    };
    (context, Pipeline::new(shape))
}

/// A run that may begin: the engine that it talks to, what it works
/// with, and its progress, which stands before the first operation.
#[derive(Debug, PartialEq, Eq)]
pub struct Run {
    pub engine: Engine,
    pub context: RunContext,
    pub pipeline: Pipeline,
}

/// Begins a run, if the script may be run at all.
///
/// The script is checked as `prepare_for_run` checks it: against the
/// form of its package, against `exists`, which says of each reference
/// whether it was found below the package's root, and with `euid`, the
/// effective user id of the process. A script that is refused is not
/// run: the first thing that is wrong with it is handed back, and
/// nothing is set up. For a script that is accepted the engine is
/// chosen, what the run will make is named, the inline scripts are
/// staged, and the run stands before its first operation.
pub fn run_command(
    package_type: PackageType,
    build_script: &BuildScript,
    exists: &Vec<bool>,
    euid: u32,
    run_args: &RunArgs,
    location: &PackageLocation,
    no_exec_logs: bool,
) -> (begun: Result<Run, ConfigError>)
    ensures
        match begun {
            Ok(run) => {
                &&& violation(package_type, *build_script, exists@, euid) is None
                &&& (run.engine is Docker) == (build_script.container.engine
                    == ContainerEngineType::Docker)
                &&& run.context.is_for(*build_script, *location, run_args.output_path@, no_exec_logs)
                &&& run.pipeline.wf()
                &&& run.pipeline.shape() == run.context.shape(*build_script)
                &&& run.pipeline.done() == 0
                &&& run.pipeline.failed_place() is None
                &&& run.pipeline.left_over() == 0
                &&& run.pipeline.current_op() == Some(Op::PullImage)
            },
            Err(fault) => violation(package_type, *build_script, exists@, euid) == Some(fault),
        },
{
    match prepare_for_run(package_type, build_script, exists, euid) {
        Ok(engine) => {
            let (context, pipeline) = set_up_run(run_args, build_script, location, no_exec_logs);
            Ok(Run { engine, context, pipeline })
        },
        Err(fault) => Err(fault),
    }
}

/// What the caller is asked to do for one operation of a run.
#[derive(Debug, PartialEq, Eq)]
pub enum Request {
    /// Have the engine fetch the script's image.
    PullImage,
    /// Perform the actions in their order; the first that fails fails
    /// the operation.
    Host(Vec<FsAction>),
    /// Have the engine create the script's container under this name,
    /// with these bind mounts added to the script's, whose host paths
    /// are taken below the package's root.
    CreateContainer {
        container_name: String,
        extra_volumes: Vec<(String, String)>,
        package_root: String,
    },
    /// Have the engine start the container.
    StartContainer { container_name: String },
    /// Have the engine run the command, and read what it prints to the end.
    Exec(ExecParams),
    /// Have the engine write the container's filesystem to the archive.
    ExportContainer { container_name: String, tar_path: String },
    /// Unpack the archive into the directory, then delete the archive.
    UnpackRootfs { tar_path: String, rootfs_path: String },
    /// Have the engine stop and remove the container.
    RemoveContainer { container_name: String, timeout: Option<u64> },
    /// Run the tool and wait for it; it fails unless it exits with zero.
    Tool(ToolCall),
    /// Mount the image.
    Mount(MountRequest),
    /// Perform the tasks, in any order or at once; wait for all of them,
    /// and fail the operation if one of them failed.
    Tasks(Vec<Vec<FsAction>>),
    /// Unmount what is mounted at the directory.
    Unmount { mount_path: String },
    /// Try every action, whether or not one before it failed; the
    /// operation fails if one of them failed.
    Cleanup(Vec<FsAction>),
}

impl Request {
    /// Whether this is the request for the operation `op` of a run of
    /// `script` in the context `context`, the container having the id
    /// `container_id` once it is created.
    pub open spec fn answers(
        &self,
        op: Op,
        script: BuildScript,
        context: RunContext,
        container_id: Seq<char>,
    ) -> bool {
        match op {
            Op::PullImage => self is PullImage,
            Op::StageScript(i) => self matches Request::Host(actions) && i < context.staged.len()
                && Some(actions.deep_view()) == staging_actions(
                script.commands@,
                context.staged[i as int],
            ),
            Op::CreateContainer => self matches Request::CreateContainer {
                container_name,
                extra_volumes,
                package_root,
            } && container_name@ == context.container_name@ && package_root@
                == context.unpack_path@ && extra_volumes.deep_view()
                == with_staged(
                script_volumes(script.commands@, context.unpack_path@),
                context.staged@,
            ),
            Op::StartContainer => self matches Request::StartContainer { container_name }
                && container_name@ == context.container_name@,
            Op::Exec(i) => self matches Request::Exec(params) && Some(params.deep_view())
                == exec_params_for(
                script.commands@,
                i as int,
                context.staged@,
                script.container,
                container_id,
                context.container_name@,
            ),
            Op::ExportContainer => self matches Request::ExportContainer { container_name, tar_path }
                && container_name@ == context.container_name@ && tar_path@ == context.tar_path@,
            Op::UnpackRootfs => self matches Request::UnpackRootfs { tar_path, rootfs_path }
                && tar_path@ == context.tar_path@ && rootfs_path@ == context.rootfs_path@,
            Op::RemoveContainer => self matches Request::RemoveContainer { container_name, timeout }
                && container_name@ == context.container_name@ && timeout
                == script.container.timeout,
            Op::AllocateImage => self matches Request::Tool(call) && allocatable(script.filesystem)
                && call.program@ == "dd"@ && call.args.deep_view() == allocation_args(
                script.filesystem,
                context.output_path@,
            ) && call.quiet == context.no_exec_logs,
            Op::FormatImage => self matches Request::Tool(call) && allocatable(script.filesystem)
                && call.program@ == script.filesystem.filesystem_type.mkfs_text()
                && call.args.deep_view() == format_args(script.filesystem, context.output_path@)
                && call.quiet == context.no_exec_logs,
            Op::CreateMountPoint => self matches Request::Host(actions) && actions.deep_view()
                == seq![FsActionView::CreateDir { path: context.mount_path@ }],
            Op::Mount => self matches Request::Mount(mount) && allocatable(script.filesystem)
                && mount.fstype@ == script.filesystem.filesystem_type.fstype_text() && mount.source@
                == context.output_path@ && mount.target@ == context.mount_path@,
            Op::ApplyOverlay(i) => self matches Request::Host(actions) && Some(actions.deep_view())
                == overlay_plan(
                script.overlays@,
                i as int,
                context.unpack_path@,
                context.mount_path@,
            ),
            Op::Export => self matches Request::Tasks(tasks) && export_possible(
                script.export,
                context.mount_path@,
            ) && tasks.deep_view() == export_tasks(
                script.export,
                context.rootfs_path@,
                context.mount_path@,
            ),
            Op::Unmount => self matches Request::Unmount { mount_path } && mount_path@
                == context.mount_path@,
            Op::CleanupTemp => self matches Request::Cleanup(actions) && actions.deep_view()
                == cleanup_actions(
                context.staged@,
                context.tar_path@,
                context.rootfs_path@,
                context.mount_path@,
                context.unpack_path@,
                context.can_delete_unpack_path,
            ),
        }
    }
}

/// Whether the operation `op` of a run can be asked for at all: an
/// inline script must be staged and a command's script known, an
/// overlay must be applicable, an exported directory must have a place
/// to go, and the image must be made of whole blocks.
pub open spec fn askable(op: Op, script: BuildScript, context: RunContext) -> bool {
    match op {
        Op::StageScript(i) => i < context.staged.len() && staging_actions(
            script.commands@,
            context.staged[i as int],
        ) is Some,
        Op::Exec(i) => 0 <= i < script.commands.len() && command_line(
            script.commands[i as int],
            i as int,
            context.staged@,
        ) is Some,
        Op::AllocateImage => allocatable(script.filesystem),
        Op::FormatImage => allocatable(script.filesystem),
        Op::Mount => allocatable(script.filesystem),
        Op::ApplyOverlay(i) => overlay_plan(
            script.overlays@,
            i as int,
            context.unpack_path@,
            context.mount_path@,
        ) is Some,
        Op::Export => export_possible(script.export, context.mount_path@),
        _ => true,
    }
}

/// Says what the caller has to do for the operation `op`. Where the
/// operation cannot be asked for there is no request, and the operation
/// has failed without anything being done.
pub fn request_for(op: Op, build_script: &BuildScript, context: &RunContext, container_id: &str) -> (request:
    Option<Request>)
    ensures
        request is Some == askable(op, *build_script, *context),
        request matches Some(r) ==> r.answers(op, *build_script, *context, container_id@),
{
    match op {
        Op::PullImage => Some(Request::PullImage),
        Op::StageScript(i) => {
            match plan_staging(&build_script.commands, &context.staged, i) {
                Some(actions) => Some(Request::Host(actions)),
                None => None,
            }
        },
        Op::CreateContainer => Some(
            Request::CreateContainer {
                container_name: context.container_name.clone(),
                extra_volumes: script_mounts(
                    &build_script.commands,
                    context.unpack_path.as_str(),
                    &context.staged,
                ),
                package_root: context.unpack_path.clone(),
            },
        ),
        Op::StartContainer => Some(
            Request::StartContainer { container_name: context.container_name.clone() },
        ),
        Op::Exec(i) => {
            match exec_params(
                &build_script.commands,
                i,
                &context.staged,
                &build_script.container,
                container_id,
                context.container_name.as_str(),
            ) {
                Some(params) => Some(Request::Exec(params)),
                None => None,
            }
        },
        Op::ExportContainer => Some(
            Request::ExportContainer {
                container_name: context.container_name.clone(),
                tar_path: context.tar_path.clone(),
            },
        ),
        Op::UnpackRootfs => Some(
            Request::UnpackRootfs {
                tar_path: context.tar_path.clone(),
                rootfs_path: context.rootfs_path.clone(),
            },
        ),
        Op::RemoveContainer => Some(
            Request::RemoveContainer {
                container_name: context.container_name.clone(),
                timeout: build_script.container.timeout,
            },
        ),
        Op::AllocateImage => {
            match plan_rootfs(
                &build_script.filesystem,
                context.output_path.as_str(),
                context.mount_path.as_str(),
                context.no_exec_logs,
            ) {
                Some(plan) => Some(Request::Tool(plan.allocate)),
                None => None,
            }
        },
        Op::FormatImage => {
            match plan_rootfs(
                &build_script.filesystem,
                context.output_path.as_str(),
                context.mount_path.as_str(),
                context.no_exec_logs,
            ) {
                Some(plan) => Some(Request::Tool(plan.format)),
                None => None,
            }
        },
        Op::CreateMountPoint => {
            let mut actions: Vec<FsAction> = Vec::new();
            actions.push(FsAction::CreateDir { path: context.mount_path.clone() });
            assert(actions.deep_view() =~= seq![FsActionView::CreateDir { path: context.mount_path@ }]);
            Some(Request::Host(actions))
        },
        Op::Mount => {
            match plan_rootfs(
                &build_script.filesystem,
                context.output_path.as_str(),
                context.mount_path.as_str(),
                context.no_exec_logs,
            ) {
                Some(plan) => Some(Request::Mount(plan.mount)),
                None => None,
            }
        },
        Op::ApplyOverlay(i) => {
            match plan_overlay(
                &build_script.overlays,
                i,
                context.unpack_path.as_str(),
                context.mount_path.as_str(),
            ) {
                Some(actions) => Some(Request::Host(actions)),
                None => None,
            }
        },
        Op::Export => {
            match plan_export(
                &build_script.export,
                context.rootfs_path.as_str(),
                context.mount_path.as_str(),
            ) {
                Some(tasks) => Some(Request::Tasks(tasks)),
                None => None,
            }
        },
        Op::Unmount => Some(Request::Unmount { mount_path: context.mount_path.clone() }),
        Op::CleanupTemp => Some(
            Request::Cleanup(
                plan_cleanup(
                    &context.staged,
                    context.tar_path.as_str(),
                    context.rootfs_path.as_str(),
                    context.mount_path.as_str(),
                    context.unpack_path.as_str(),
                    context.can_delete_unpack_path,
                ),
            ),
        ),
    }
}

/// What comes next in a run.
#[derive(Debug, PartialEq, Eq)]
pub enum Step {
    /// This operation is to be performed as the request says, and its
    /// outcome reported to the run.
    Perform(Op, Request),
    /// This operation could not be asked for. It has failed without
    /// anything being done, and the run has gone on from there.
    Refused(Op),
    /// The run has ended.
    Finished,
}

/// Says what comes next in a run.
///
/// Where the current operation can be asked for, its request is handed
/// out and the run waits for the outcome. Where it cannot, the operation
/// counts as failed: the run takes the failure as it takes any other and
/// goes on to what follows a failure. A run that has ended stays as it
/// is.
pub fn next_step(
    pipeline: &mut Pipeline,
    build_script: &BuildScript,
    context: &RunContext,
    container_id: &str,
) -> (step: Step)
    ensures
        final(pipeline).wf(),
        match old(pipeline).current_op() {
            None => step is Finished && final(pipeline).same_as(*old(pipeline)),
            Some(op) => if askable(op, *build_script, *context) {
                &&& step matches Step::Perform(asked, request)
                &&& asked == op
                &&& request.answers(op, *build_script, *context, container_id@)
                &&& final(pipeline).same_as(*old(pipeline))
            } else {
                &&& step matches Step::Refused(refused)
                &&& refused == op
                &&& old(pipeline).after(*final(pipeline), false)
            },
        },
{
    match pipeline.current() {
        None => Step::Finished,
        Some(op) => match request_for(op, build_script, context, container_id) {
            Some(request) => Step::Perform(op, request),
            None => {
                pipeline.advance(false);
                Step::Refused(op)
            },
        },
    }
}

/// Every command with an inline script has its number among the numbers
/// of the commands with an inline script.
pub proof fn lemma_inline_command_listed(commands: Seq<BuildScriptCommand>, index: int)
    requires
        0 <= index < commands.len(),
        commands[index].script_inline is Some,
    ensures
        exists|k: int|
            0 <= k < inline_commands(commands).len() && #[trigger] inline_commands(commands)[k] == index,
    decreases commands.len(),
{
    let front = commands.drop_last();
    if index == commands.len() - 1 {
        assert(inline_commands(commands)[inline_commands(front).len() as int] == index);
    } else {
        lemma_inline_command_listed(front, index);
        let k = choose|k: int|
            0 <= k < inline_commands(front).len() && #[trigger] inline_commands(front)[k] == index;
        assert(inline_commands(commands)[k] == index);
    }
}

/// A staged script is found under the number of its command.
pub proof fn lemma_staged_is_found(staged: Seq<StagedScript>, command: int, at: int)
    requires
        0 <= at < staged.len(),
        staged[at].command == command,
    ensures
        staged_mount(staged, command) is Some,
    decreases staged.len(),
{
    if staged[0].command != command {
        lemma_staged_is_found(staged.drop_first(), command, at - 1);
    }
}

/// Once the inline scripts are staged, every staging and every command
/// of the plan can be asked for.
pub proof fn lemma_staged_run_is_askable(script: BuildScript, context: RunContext)
    requires
        stages(context.staged@, script.commands@),
    ensures
        forall|i: usize| i < context.staged.len() ==> askable(Op::StageScript(i), script, context),
        forall|i: usize| i < script.commands.len() ==> askable(Op::Exec(i), script, context),
{
    lemma_inline_commands(script.commands@);
    assert forall|i: usize| i < context.staged.len() implies askable(
        Op::StageScript(i),
        script,
        context,
    ) by {
        let listed = inline_commands(script.commands@)[i as int];
        assert(context.staged@[i as int].command == listed);
    }
    assert forall|i: usize| i < script.commands.len() implies askable(Op::Exec(i), script, context) by {
        if script.commands[i as int].script_inline is Some {
            lemma_inline_command_listed(script.commands@, i as int);
            let k = choose|k: int|
                0 <= k < inline_commands(script.commands@).len() && #[trigger] inline_commands(
                    script.commands@,
                )[k] == i;
            assert(context.staged@[k].command == i);
            lemma_staged_is_found(context.staged@, i as int, k);
        }
    }
}

/// A path that holds a character other than the separator has a parent.
pub proof fn lemma_named_path_has_parent(path: Seq<char>, at: int)
    requires
        0 <= at < path.len(),
        path[at] != '/',
    ensures
        parent(path) is Some,
{
    lemma_separators_end_before(path, at);
}

/// The separators at the end of a path end before a character that is
/// none.
proof fn lemma_separators_end_before(path: Seq<char>, at: int)
    requires
        0 <= at < path.len(),
        path[at] != '/',
    ensures
        crate::path::trailing_run(path, true) < path.len() - at,
    decreases path.len(),
{
    if path.last() == '/' {
        lemma_separators_end_before(path.drop_last(), at);
    }
}

/// Into an image that is mounted at a directory of the run's own,
/// everything can be exported: every directory has a place to go.
pub proof fn lemma_export_possible_below_tmp(
    export: BuildScriptExport,
    mount: Seq<char>,
    ending: Seq<char>,
)
    requires
        is_named_below(mount, "/tmp"@, ending),
    ensures
        export_possible(export, mount),
{
    reveal_strlit("/tmp");
    assert forall|i: int| 0 <= i < export.directories.included.len() implies parent(
        adjoin(mount, (#[trigger] export.directories.included[i])@),
    ) is Some by {
        let target = adjoin(mount, export.directories.included[i]@);
        crate::path::lemma_adjoin_stays_below_root(mount, export.directories.included[i]@);
        assert(mount[1] == 't');
        assert(target[1] == mount[1]) by {
            assert(target.subrange(0, mount.len() as int)[1] == target[1]);
        }
        lemma_named_path_has_parent(target, 1);
    }
}

/// Everything that a run makes on the host has a name of its own: the
/// archive, the directory it is unpacked into, the directory at which
/// the image is mounted and the file of every staged script are
/// different paths, whatever chance made of their random parts.
pub proof fn lemma_run_names_differ(
    script: BuildScript,
    location: PackageLocation,
    output: Seq<char>,
    no_exec_logs: bool,
    context: RunContext,
)
    requires
        context.is_for(script, location, output, no_exec_logs),
    ensures
        context.tar_path@ != context.rootfs_path@,
        context.tar_path@ != context.mount_path@,
        context.rootfs_path@ != context.mount_path@,
        forall|k: int|
            0 <= k < context.staged.len() ==> {
                &&& (#[trigger] context.staged[k]).host_path@ != context.tar_path@
                &&& context.staged[k].host_path@ != context.rootfs_path@
                &&& context.staged[k].host_path@ != context.mount_path@
            },
        forall|j: int, k: int|
            0 <= j < context.staged.len() && 0 <= k < context.staged.len() && j != k
                ==> context.staged[j].host_path@ != context.staged[k].host_path@,
{
    reveal_strlit(".tar");
    reveal_strlit(".rootfs");
    reveal_strlit(".mount");
    let tmp = "/tmp"@;
    assert(".tar"@.len() != ".rootfs"@.len());
    assert(".tar"@.len() != ".mount"@.len());
    assert(".rootfs"@.len() != ".mount"@.len());
    lemma_names_differ(context.tar_path@, context.rootfs_path@, tmp, ".tar"@, ".rootfs"@);
    lemma_names_differ(context.tar_path@, context.mount_path@, tmp, ".tar"@, ".mount"@);
    lemma_names_differ(context.rootfs_path@, context.mount_path@, tmp, ".rootfs"@, ".mount"@);
    assert forall|k: int| 0 <= k < context.staged.len() implies {
        &&& (#[trigger] context.staged[k]).host_path@ != context.tar_path@
        &&& context.staged[k].host_path@ != context.rootfs_path@
        &&& context.staged[k].host_path@ != context.mount_path@
    } by {
        let ending = command_ending(context.staged[k].command as nat);
        assert(ending[0] == '-');
        assert(".tar"@[0] == '.');
        assert(".rootfs"@[0] == '.');
        assert(".mount"@[0] == '.');
        lemma_names_differ(context.staged[k].host_path@, context.tar_path@, tmp, ending, ".tar"@);
        lemma_names_differ(context.staged[k].host_path@, context.rootfs_path@, tmp, ending, ".rootfs"@);
        lemma_names_differ(context.staged[k].host_path@, context.mount_path@, tmp, ending, ".mount"@);
    }
    assert forall|j: int, k: int|
        0 <= j < context.staged.len() && 0 <= k < context.staged.len() && j != k implies context.staged[j].host_path@
        != context.staged[k].host_path@ by {
        lemma_staged_paths_differ(context.staged@, script.commands@, j, k);
    }
}

} // verus!
