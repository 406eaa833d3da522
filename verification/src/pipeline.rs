//! The order of a run.
//!
//! A run is a fixed list of operations, one after the other. The first
//! operation that fails ends the list; what then still has to be undone
//! is undone, and the failure is reported. Nothing is tried twice.

use crate::error::ErrorKind;
use vstd::prelude::*;

verus! {

/// One operation of a run. The caller performs it and reports whether it
/// succeeded.
#[derive(Clone, Copy, Debug, PartialEq, Eq, Structural)]
pub enum Op {
    /// Fetch the image.
    PullImage,
    /// Write the inline script with this number to a file of its own.
    StageScript(usize),
    /// Create the container, with the scripts mounted into it.
    CreateContainer,
    /// Start the container.
    StartContainer,
    /// Run the command with this number and read its output to the end.
    Exec(usize),
    /// Write the container's filesystem to an archive.
    ExportContainer,
    /// Unpack that archive into a directory and delete it.
    UnpackRootfs,
    /// Stop and remove the container.
    RemoveContainer,
    /// Fill the image file with zeros.
    AllocateImage,
    /// Make the filesystem in the image file.
    FormatImage,
    /// Make the directory at which the image is mounted.
    CreateMountPoint,
    /// Mount the image.
    Mount,
    /// Apply the overlay with this number.
    ApplyOverlay(usize),
    /// Copy and create what the script exports.
    Export,
    /// Unmount the image.
    Unmount,
    /// Delete what the run made for itself.
    CleanupTemp,
}

/// The stages of a run, in their order.
#[derive(Clone, Copy, Debug, PartialEq, Eq, Structural)]
pub enum Stage {
    Validate,
    Connect,
    PullImage,
    StageVolumes,
    StartContainer,
    RunCommands,
    ExportRootfs,
    RemoveContainer,
    AllocateImage,
    FormatImage,
    Mount,
    ApplyOverlays,
    Export,
    Unmount,
    CleanupTemp,
}

impl Op {
    /// The stage that the operation belongs to.
    pub open spec fn stage(self) -> Stage {
        match self {
            Op::PullImage => Stage::PullImage,
            Op::StageScript(_) => Stage::StageVolumes,
            Op::CreateContainer => Stage::StartContainer,
            Op::StartContainer => Stage::StartContainer,
            Op::Exec(_) => Stage::RunCommands,
            Op::ExportContainer => Stage::ExportRootfs,
            Op::UnpackRootfs => Stage::ExportRootfs,
            Op::RemoveContainer => Stage::RemoveContainer,
            Op::AllocateImage => Stage::AllocateImage,
            Op::FormatImage => Stage::FormatImage,
            Op::CreateMountPoint => Stage::Mount,
            Op::Mount => Stage::Mount,
            Op::ApplyOverlay(_) => Stage::ApplyOverlays,
            Op::Export => Stage::Export,
            Op::Unmount => Stage::Unmount,
            Op::CleanupTemp => Stage::CleanupTemp,
        }
    }

    /// The kind of failure that is reported when the operation fails.
    pub open spec fn failure(self) -> ErrorKind {
        match self {
            Op::PullImage => ErrorKind::ImagePullFailed,
            Op::StageScript(_) => ErrorKind::ContainerCreateFailed,
            Op::CreateContainer => ErrorKind::ContainerCreateFailed,
            Op::StartContainer => ErrorKind::ContainerStartFailed,
            Op::Exec(_) => ErrorKind::ExecStartFailed,
            Op::ExportContainer => ErrorKind::ExportFailed,
            Op::UnpackRootfs => ErrorKind::ExportFailed,
            Op::RemoveContainer => ErrorKind::ContainerRemoveFailed,
            Op::AllocateImage => ErrorKind::FilesystemAllocationFailed,
            Op::FormatImage => ErrorKind::FormatFailed,
            Op::CreateMountPoint => ErrorKind::MountFailed,
            Op::Mount => ErrorKind::MountFailed,
            Op::ApplyOverlay(_) => ErrorKind::OverlayApplyFailed,
            Op::Export => ErrorKind::ExportStageFailed,
            Op::Unmount => ErrorKind::MountFailed,
            Op::CleanupTemp => ErrorKind::CleanupFailed,
        }
    }

    /// The stage that the operation belongs to.
    pub fn stage_of(&self) -> (stage: Stage)
        ensures
            stage == self.stage(),
    {
        match self {
            Op::PullImage => Stage::PullImage,
            Op::StageScript(_) => Stage::StageVolumes,
            Op::CreateContainer => Stage::StartContainer,
            Op::StartContainer => Stage::StartContainer,
            Op::Exec(_) => Stage::RunCommands,
            Op::ExportContainer => Stage::ExportRootfs,
            Op::UnpackRootfs => Stage::ExportRootfs,
            Op::RemoveContainer => Stage::RemoveContainer,
            Op::AllocateImage => Stage::AllocateImage,
            Op::FormatImage => Stage::FormatImage,
            Op::CreateMountPoint => Stage::Mount,
            Op::Mount => Stage::Mount,
            Op::ApplyOverlay(_) => Stage::ApplyOverlays,
            Op::Export => Stage::Export,
            Op::Unmount => Stage::Unmount,
            Op::CleanupTemp => Stage::CleanupTemp,
        }
    }

    /// The kind of failure that is reported when the operation fails.
    pub fn failure_kind(&self) -> (kind: ErrorKind)
        ensures
            kind == self.failure(),
    {
        match self {
            Op::PullImage => ErrorKind::ImagePullFailed,
            Op::StageScript(_) => ErrorKind::ContainerCreateFailed,
            Op::CreateContainer => ErrorKind::ContainerCreateFailed,
            Op::StartContainer => ErrorKind::ContainerStartFailed,
            Op::Exec(_) => ErrorKind::ExecStartFailed,
            Op::ExportContainer => ErrorKind::ExportFailed,
            Op::UnpackRootfs => ErrorKind::ExportFailed,
            Op::RemoveContainer => ErrorKind::ContainerRemoveFailed,
            Op::AllocateImage => ErrorKind::FilesystemAllocationFailed,
            Op::FormatImage => ErrorKind::FormatFailed,
            Op::CreateMountPoint => ErrorKind::MountFailed,
            Op::Mount => ErrorKind::MountFailed,
            Op::ApplyOverlay(_) => ErrorKind::OverlayApplyFailed,
            Op::Export => ErrorKind::ExportStageFailed,
            Op::Unmount => ErrorKind::MountFailed,
            Op::CleanupTemp => ErrorKind::CleanupFailed,
        }
    }
}

/// How much a run has to do: the inline scripts to stage, the commands to
/// run and the overlays to apply.
#[derive(Clone, Copy, Debug, PartialEq, Eq, Structural)]
pub struct Shape {
    pub scripts: usize,
    pub commands: usize,
    pub overlays: usize,
}

impl Shape {
    /// The place of `CreateContainer` in the plan.
    pub open spec fn create_at(self) -> int {
        1 + self.scripts
    }

    /// The place of the first command in the plan.
    pub open spec fn exec_at(self) -> int {
        3 + self.scripts
    }

    /// The place of `ExportContainer` in the plan.
    pub open spec fn export_container_at(self) -> int {
        3 + self.scripts + self.commands
    }

    /// The place of `RemoveContainer` in the plan.
    pub open spec fn remove_at(self) -> int {
        self.export_container_at() + 2
    }

    /// The place of `Mount` in the plan.
    pub open spec fn mount_at(self) -> int {
        self.export_container_at() + 6
    }

    /// The place of the first overlay in the plan.
    pub open spec fn overlay_at(self) -> int {
        self.export_container_at() + 7
    }

    /// The place of `Export` in the plan.
    pub open spec fn export_at(self) -> int {
        self.overlay_at() + self.overlays
    }

    /// The place of `Unmount` in the plan.
    pub open spec fn unmount_at(self) -> int {
        self.export_at() + 1
    }

    /// The place of `CleanupTemp` in the plan, which is its last.
    pub open spec fn cleanup_at(self) -> int {
        self.export_at() + 2
    }

    /// The number of operations of a run in which nothing fails.
    pub open spec fn plan_len(self) -> int {
        self.cleanup_at() + 1
    }

    /// The operation at place `i` of a run in which nothing fails.
    pub open spec fn plan_op(self, i: int) -> Op {
        if i <= 0 {
            Op::PullImage
        } else if i < self.create_at() {
            Op::StageScript((i - 1) as usize)
        } else if i == self.create_at() {
            Op::CreateContainer
        } else if i == self.create_at() + 1 {
            Op::StartContainer
        } else if i < self.export_container_at() {
            Op::Exec((i - self.exec_at()) as usize)
        } else if i == self.export_container_at() {
            Op::ExportContainer
        } else if i == self.export_container_at() + 1 {
            Op::UnpackRootfs
        } else if i == self.remove_at() {
            Op::RemoveContainer
        } else if i == self.remove_at() + 1 {
            Op::AllocateImage
        } else if i == self.remove_at() + 2 {
            Op::FormatImage
        } else if i == self.remove_at() + 3 {
            Op::CreateMountPoint
        } else if i == self.mount_at() {
            Op::Mount
        } else if i < self.export_at() {
            Op::ApplyOverlay((i - self.overlay_at()) as usize)
        } else if i == self.export_at() {
            Op::Export
        } else if i == self.unmount_at() {
            Op::Unmount
        } else {
            Op::CleanupTemp
        }
    }

    /// A run in which nothing fails: the image is pulled, the inline
    /// scripts are staged, the container is created and started, the
    /// commands run in the order of the script, the container's
    /// filesystem is exported and unpacked and the container removed;
    /// then the image file is allocated, formatted and mounted, the
    /// overlays are applied in the order of the script, the exports are
    /// made, the image is unmounted and what is left over is deleted.
    pub open spec fn plan(self) -> Seq<Op> {
        Seq::new(self.plan_len() as nat, |i: int| self.plan_op(i))
    }

    /// What is still done after the operation at place `failed` of the
    /// plan has failed: the container is removed if it was created and
    /// its removal has not been tried, the image is unmounted if it was
    /// mounted and unmounting has not been tried, and what is left
    /// over is deleted.
    pub open spec fn recovery(self, failed: int) -> Seq<Op> {
        (if self.create_at() < failed < self.remove_at() {
            seq![Op::RemoveContainer]
        } else {
            Seq::empty()
        }) + (if self.mount_at() < failed < self.unmount_at() {
            seq![Op::Unmount]
        } else {
            Seq::empty()
        }) + seq![Op::CleanupTemp]
    }

    /// The operations of a whole run, given the place of the first
    /// operation that failed, if one did: the plan up to and including
    /// that operation, then the recovery.
    pub open spec fn schedule(self, failed: Option<int>) -> Seq<Op> {
        match failed {
            None => self.plan(),
            Some(f) => self.plan().take(f + 1) + self.recovery(f),
        }
    }

    /// The place of an operation in the plan.
    pub open spec fn rank(self, op: Op) -> int {
        match op {
            Op::PullImage => 0,
            Op::StageScript(i) => 1 + i,
            Op::CreateContainer => self.create_at(),
            Op::StartContainer => self.create_at() + 1,
            Op::Exec(i) => self.exec_at() + i,
            Op::ExportContainer => self.export_container_at(),
            Op::UnpackRootfs => self.export_container_at() + 1,
            Op::RemoveContainer => self.remove_at(),
            Op::AllocateImage => self.remove_at() + 1,
            Op::FormatImage => self.remove_at() + 2,
            Op::CreateMountPoint => self.remove_at() + 3,
            Op::Mount => self.mount_at(),
            Op::ApplyOverlay(i) => self.overlay_at() + i,
            Op::Export => self.export_at(),
            Op::Unmount => self.unmount_at(),
            Op::CleanupTemp => self.cleanup_at(),
        }
    }

    /// Whether `failed` can be the place of a first failure. The last
    /// operation, the deleting of what is left over, is none: where it
    /// fails the run has still done all it had to do.
    pub open spec fn can_fail_at(self, failed: Option<int>) -> bool {
        match failed {
            None => true,
            Some(f) => 0 <= f < self.cleanup_at(),
        }
    }
}

/// Every operation of the plan stands at its rank.
pub proof fn lemma_plan_rank(shape: Shape, i: int)
    requires
        0 <= i < shape.plan_len(),
    ensures
        shape.rank(shape.plan_op(i)) == i,
        shape.plan()[i] == shape.plan_op(i),
{
}

/// The length of a schedule, and what stands where in it.
pub proof fn lemma_schedule_shape(shape: Shape, failed: Option<int>)
    requires
        shape.can_fail_at(failed),
    ensures
        match failed {
            None => shape.schedule(failed).len() == shape.plan_len(),
            Some(f) => shape.schedule(failed).len() == f + 1 + shape.recovery(f).len(),
        },
        forall|i: int|
            0 <= i < shape.schedule(failed).len() && (failed is None || i <= failed->0)
                ==> #[trigger] shape.schedule(failed)[i] == shape.plan_op(i),
        forall|i: int|
            failed is Some && failed->0 < i < shape.schedule(failed).len()
                ==> #[trigger] shape.schedule(failed)[i] == shape.recovery(failed->0)[i - failed->0 - 1],
{
}

/// A run goes forward only: of two operations of a schedule the later
/// one stands later in the plan.
pub proof fn lemma_schedule_in_order(shape: Shape, failed: Option<int>, i: int, j: int)
    requires
        shape.can_fail_at(failed),
        0 <= i < j < shape.schedule(failed).len(),
    ensures
        shape.rank(shape.schedule(failed)[i]) < shape.rank(shape.schedule(failed)[j]),
{
    lemma_schedule_shape(shape, failed);
    match failed {
        None => {
            lemma_plan_rank(shape, i);
            lemma_plan_rank(shape, j);
        },
        Some(f) => {
            if j <= f {
                lemma_plan_rank(shape, i);
                lemma_plan_rank(shape, j);
            } else if i <= f {
                lemma_plan_rank(shape, i);
            } else {
            }
        },
    }
}

/// No operation is performed twice in a run.
pub proof fn lemma_nothing_twice(shape: Shape, failed: Option<int>, i: int, j: int)
    requires
        shape.can_fail_at(failed),
        0 <= i < shape.schedule(failed).len(),
        0 <= j < shape.schedule(failed).len(),
        i != j,
    ensures
        shape.schedule(failed)[i] != shape.schedule(failed)[j],
{
    if i < j {
        lemma_schedule_in_order(shape, failed, i, j);
    } else {
        lemma_schedule_in_order(shape, failed, j, i);
    }
}

/// Whether the image was mounted in a run: the run got past `Mount`.
pub open spec fn mount_succeeded(shape: Shape, failed: Option<int>) -> bool {
    failed is None || failed->0 > shape.mount_at()
}

/// Whether the container was created in a run: the run got past
/// `CreateContainer`.
pub open spec fn container_created(shape: Shape, failed: Option<int>) -> bool {
    failed is None || failed->0 > shape.create_at()
}

/// An image that was mounted is unmounted exactly once, wherever the run
/// failed after that, and only after every overlay and export of the run;
/// an image that was not mounted is not unmounted.
pub proof fn lemma_unmounted_exactly_once(shape: Shape, failed: Option<int>)
    requires
        shape.can_fail_at(failed),
    ensures
        mount_succeeded(shape, failed) ==> exists|u: int|
            {
                &&& 0 <= u < shape.schedule(failed).len()
                &&& #[trigger] shape.schedule(failed)[u] == Op::Unmount
                &&& forall|j: int|
                    0 <= j < shape.schedule(failed).len() && j != u ==> shape.schedule(failed)[j]
                        != Op::Unmount
                &&& forall|j: int|
                    0 <= j < shape.schedule(failed).len() && (shape.schedule(failed)[j] is ApplyOverlay
                        || shape.schedule(failed)[j] == Op::Export || shape.schedule(failed)[j] == Op::Mount)
                        ==> j < u
            },
        !mount_succeeded(shape, failed) ==> forall|j: int|
            0 <= j < shape.schedule(failed).len() ==> shape.schedule(failed)[j] != Op::Unmount,
{
    lemma_schedule_shape(shape, failed);
    let sched = shape.schedule(failed);
    if mount_succeeded(shape, failed) {
        let u: int = match failed {
            None => shape.unmount_at(),
            Some(f) => if f >= shape.unmount_at() {
                shape.unmount_at()
            } else {
                f + 1
            },
        };
        assert(sched[u] == Op::Unmount);
        assert forall|j: int| 0 <= j < sched.len() && j != u implies sched[j] != Op::Unmount by {
            lemma_nothing_twice(shape, failed, j, u);
        }
        assert forall|j: int|
            0 <= j < sched.len() && (sched[j] is ApplyOverlay || sched[j] == Op::Export || sched[j]
                == Op::Mount) implies j < u by {
            if j > u {
                lemma_schedule_in_order(shape, failed, u, j);
            }
        }
    } else {
        assert forall|j: int| 0 <= j < sched.len() implies sched[j] != Op::Unmount by {
            if j <= failed->0 {
                lemma_plan_rank(shape, j);
            }
        }
    }
}

/// Commands run in the order of the script, one after the other: when
/// a command is run, every command before it has been run, each right
/// before the next.
pub proof fn lemma_commands_in_declared_order(shape: Shape, failed: Option<int>, at: int, command: usize)
    requires
        shape.can_fail_at(failed),
        0 <= at < shape.schedule(failed).len(),
        shape.schedule(failed)[at] == Op::Exec(command),
    ensures
        command < shape.commands,
        at == shape.exec_at() + command,
        forall|earlier: int|
            0 <= earlier <= command ==> #[trigger] shape.schedule(failed)[shape.exec_at() + earlier]
                == Op::Exec(earlier as usize),
        shape.schedule(failed)[shape.exec_at() - 1] == Op::StartContainer,
{
    lemma_schedule_shape(shape, failed);
}

/// Every run ends with the deleting of what is left over, and deletes
/// once.
pub proof fn lemma_cleanup_is_last(shape: Shape, failed: Option<int>)
    requires
        shape.can_fail_at(failed),
    ensures
        shape.schedule(failed).len() > 0,
        shape.schedule(failed).last() == Op::CleanupTemp,
        forall|j: int|
            0 <= j < shape.schedule(failed).len() - 1 ==> shape.schedule(failed)[j] != Op::CleanupTemp,
{
    lemma_schedule_shape(shape, failed);
    let sched = shape.schedule(failed);
    assert forall|j: int| 0 <= j < sched.len() - 1 implies sched[j] != Op::CleanupTemp by {
        lemma_nothing_twice(shape, failed, j, sched.len() - 1);
    }
}

/// A container that was created is removed exactly once, whether or not
/// the run failed; where none was created, none is removed.
pub proof fn lemma_container_removed_exactly_once(shape: Shape, failed: Option<int>)
    requires
        shape.can_fail_at(failed),
    ensures
        container_created(shape, failed) ==> exists|r: int|
            {
                &&& 0 <= r < shape.schedule(failed).len()
                &&& #[trigger] shape.schedule(failed)[r] == Op::RemoveContainer
                &&& forall|j: int|
                    0 <= j < shape.schedule(failed).len() && j != r ==> shape.schedule(failed)[j]
                        != Op::RemoveContainer
            },
        !container_created(shape, failed) ==> forall|j: int|
            0 <= j < shape.schedule(failed).len() ==> shape.schedule(failed)[j] != Op::RemoveContainer,
{
    lemma_schedule_shape(shape, failed);
    let sched = shape.schedule(failed);
    if container_created(shape, failed) {
        let r: int = match failed {
            None => shape.remove_at(),
            Some(f) => if f >= shape.remove_at() {
                shape.remove_at()
            } else {
                f + 1
            },
        };
        assert(sched[r] == Op::RemoveContainer);
        assert forall|j: int| 0 <= j < sched.len() && j != r implies sched[j] != Op::RemoveContainer by {
            lemma_nothing_twice(shape, failed, j, r);
        }
    } else {
        assert forall|j: int| 0 <= j < sched.len() implies sched[j] != Op::RemoveContainer by {
            if j <= failed->0 {
                lemma_plan_rank(shape, j);
            }
        }
    }
}

/// After a failure nothing of the plan is done any more but the undoing:
/// no further command, overlay or export, and no new container or mount.
pub proof fn lemma_failure_aborts(shape: Shape, failed: int, j: int)
    requires
        shape.can_fail_at(Some(failed)),
        failed < j < shape.schedule(Some(failed)).len(),
    ensures
        shape.schedule(Some(failed))[j] == Op::RemoveContainer || shape.schedule(Some(failed))[j]
            == Op::Unmount || shape.schedule(Some(failed))[j] == Op::CleanupTemp,
{
    lemma_schedule_shape(shape, Some(failed));
}

impl Shape {
    /// The place of `ExportContainer` in the plan.
    fn export_container_place(&self) -> (at: u128)
        ensures
            at == self.export_container_at(),
    {
        3 + self.scripts as u128 + self.commands as u128
    }

    /// The place of `Export` in the plan.
    fn export_place(&self) -> (at: u128)
        ensures
            at == self.export_at(),
    {
        self.export_container_place() + 7 + self.overlays as u128
    }

    /// The operation at place `i` of a run in which nothing fails.
    fn plan_op_at(&self, i: u128) -> (op: Op)
        requires
            i < self.plan_len(),
        ensures
            op == self.plan_op(i as int),
    {
        let create: u128 = 1 + self.scripts as u128;
        let export_container: u128 = self.export_container_place();
        let export: u128 = self.export_place();
        if i == 0 {
            Op::PullImage
        } else if i < create {
            Op::StageScript((i - 1) as usize)
        } else if i == create {
            Op::CreateContainer
        } else if i == create + 1 {
            Op::StartContainer
        } else if i < export_container {
            Op::Exec((i - create - 2) as usize)
        } else if i == export_container {
            Op::ExportContainer
        } else if i == export_container + 1 {
            Op::UnpackRootfs
        } else if i == export_container + 2 {
            Op::RemoveContainer
        } else if i == export_container + 3 {
            Op::AllocateImage
        } else if i == export_container + 4 {
            Op::FormatImage
        } else if i == export_container + 5 {
            Op::CreateMountPoint
        } else if i == export_container + 6 {
            Op::Mount
        } else if i < export {
            Op::ApplyOverlay((i - export_container - 7) as usize)
        } else if i == export {
            Op::Export
        } else if i == export + 1 {
            Op::Unmount
        } else {
            Op::CleanupTemp
        }
    }

    /// The operation at place `k` of what is done after a failure at
    /// place `failed` of the plan.
    fn recovery_op_at(&self, failed: u128, k: u128) -> (op: Option<Op>)
        requires
            failed < self.cleanup_at(),
        ensures
            op == (if k < self.recovery(failed as int).len() {
                Some(self.recovery(failed as int)[k as int])
            } else {
                None
            }),
    {
        let create: u128 = 1 + self.scripts as u128;
        let export_container: u128 = self.export_container_place();
        let export: u128 = self.export_place();
        let undo: Option<Op> = if create < failed && failed < export_container + 2 {
            Some(Op::RemoveContainer)
        } else if export_container + 6 < failed && failed < export + 1 {
            Some(Op::Unmount)
        } else {
            None
        };
        match undo {
            Some(op) => if k == 0 {
                Some(op)
            } else if k == 1 {
                Some(Op::CleanupTemp)
            } else {
                None
            },
            None => if k == 0 {
                Some(Op::CleanupTemp)
            } else {
                None
            },
        }
    }
}

/// A run as it goes: how far it has come, and where it first failed.
#[derive(Debug, PartialEq, Eq)]
pub struct Pipeline {
    shape: Shape,
    done: u128,
    failed: Option<u128>,
    left_over: usize,
}

impl Pipeline {
    #[verifier::type_invariant]
    spec fn inv(self) -> bool {
        self.wf()
    }

    /// How much the run has to do.
    pub closed spec fn shape(&self) -> Shape {
        self.shape
    }

    /// The number of operations whose outcome has been reported.
    pub closed spec fn done(&self) -> int {
        self.done as int
    }

    /// The place in the plan of the first operation that failed.
    pub closed spec fn failed_place(&self) -> Option<int> {
        match self.failed {
            Some(f) => Some(f as int),
            None => None,
        }
    }

    /// The number of failures that were passed over: of an undoing after
    /// the run had failed, or of the deleting of what is left over.
    pub closed spec fn left_over(&self) -> int {
        self.left_over as int
    }

    /// A run is somewhere in its schedule, behind its first failure.
    pub open spec fn wf(&self) -> bool {
        &&& self.shape().can_fail_at(self.failed_place())
        &&& 0 <= self.done() <= self.shape().schedule(self.failed_place()).len()
        &&& self.failed_place() matches Some(f) ==> self.done() > f
    }

    /// Whether two runs have come equally far in the same way.
    pub open spec fn same_as(&self, other: Pipeline) -> bool {
        &&& self.shape() == other.shape()
        &&& self.done() == other.done()
        &&& self.failed_place() == other.failed_place()
        &&& self.left_over() == other.left_over()
    }

    /// The operation to perform now; none once the run has ended.
    pub open spec fn current_op(&self) -> Option<Op> {
        let schedule = self.shape().schedule(self.failed_place());
        if self.done() < schedule.len() {
            Some(schedule[self.done()])
        } else {
            None
        }
    }

    /// How the run ended: nothing while it goes on; then the kind of the
    /// first failure, or success where nothing failed that had to succeed.
    pub open spec fn verdict(&self) -> Option<Result<(), ErrorKind>> {
        if self.current_op() is Some {
            None
        } else {
            match self.failed_place() {
                Some(f) => Some(Err(self.shape().plan_op(f).failure())),
                None => Some(Ok(())),
            }
        }
    }

    /// The run after the outcome of its current operation is known.
    ///
    /// A success leads to the next operation. The first failure is kept,
    /// and the recovery follows. A failure of the recovery, or of the
    /// deleting that ends every run, is counted and passed over: it
    /// neither ends the run nor replaces the failure that is reported.
    pub open spec fn after(&self, next: Pipeline, succeeded: bool) -> bool {
        match self.current_op() {
            None => next.shape() == self.shape() && next.done() == self.done() && next.failed_place()
                == self.failed_place() && next.left_over() == self.left_over(),
            Some(op) => {
                let fatal = !succeeded && self.failed_place() is None && op != Op::CleanupTemp;
                &&& next.shape() == self.shape()
                &&& next.done() == self.done() + 1
                &&& next.failed_place() == (if fatal {
                    Some(self.done())
                } else {
                    self.failed_place()
                })
                &&& next.left_over() == (if succeeded || fatal || self.left_over() == usize::MAX {
                    self.left_over()
                } else {
                    self.left_over() + 1
                })
            },
        }
    }

    /// A run that has not begun.
    pub fn new(shape: Shape) -> (run: Pipeline)
        ensures
            run.wf(),
            run.shape() == shape,
            run.done() == 0,
            run.failed_place() is None,
            run.left_over() == 0,
            run.current_op() == Some(Op::PullImage),
    {
        Pipeline { shape, done: 0, failed: None, left_over: 0 }
    }

    /// How much the run has to do.
    pub fn get_shape(&self) -> (shape: Shape)
        ensures
            shape == self.shape(),
    {
        self.shape
    }

    /// The number of failures that were passed over.
    pub fn failures_passed_over(&self) -> (count: usize)
        ensures
            count == self.left_over(),
    {
        self.left_over
    }

    /// The operation to perform now; none once the run has ended.
    pub fn current(&self) -> (op: Option<Op>)
        ensures
            self.wf(),
            op == self.current_op(),
    {
        proof {
            use_type_invariant(self);
            lemma_schedule_shape(self.shape, self.failed_place());
        }
        match self.failed {
            None => {
                let len: u128 = self.shape.export_place() + 3;
                if self.done < len {
                    Some(self.shape.plan_op_at(self.done))
                } else {
                    None
                }
            },
            Some(f) => self.shape.recovery_op_at(f, self.done - f - 1),
        }
    }

    /// Whether the run has ended.
    pub fn is_finished(&self) -> (finished: bool)
        ensures
            finished == (self.current_op() is None),
    {
        self.current().is_none()
    }

    /// The operation whose failure ended the plan, if one did.
    pub fn failed_operation(&self) -> (op: Option<Op>)
        ensures
            op == (match self.failed_place() {
                Some(f) => Some(self.shape().plan_op(f)),
                None => None,
            }),
    {
        proof {
            use_type_invariant(self);
        }
        match self.failed {
            Some(f) => Some(self.shape.plan_op_at(f)),
            None => None,
        }
    }

    /// How the run ended: nothing while it goes on.
    pub fn result(&self) -> (verdict: Option<Result<(), ErrorKind>>)
        ensures
            verdict == self.verdict(),
    {
        proof {
            use_type_invariant(self);
        }
        if self.current().is_some() {
            None
        } else {
            match self.failed {
                Some(f) => Some(Err(self.shape.plan_op_at(f).failure_kind())),
                None => Some(Ok(())),
            }
        }
    }

    /// Takes the outcome of the current operation and goes on to the next.
    /// Once the run has ended nothing changes any more.
    pub fn advance(&mut self, succeeded: bool)
        ensures
            old(self).wf(),
            final(self).wf(),
            old(self).after(*final(self), succeeded),
    {
        proof {
            use_type_invariant(&*self);
            lemma_schedule_shape(self.shape, self.failed_place());
        }
        match self.current() {
            None => {},
            Some(op) => {
                let fatal = !succeeded && self.failed.is_none() && op != Op::CleanupTemp;
                let failed: Option<u128> = if fatal {
                    Some(self.done)
                } else {
                    self.failed
                };
                let left_over: usize = if !fatal && !succeeded && self.left_over < usize::MAX {
                    self.left_over + 1
                } else {
                    self.left_over
                };
                proof {
                    if fatal {
                        lemma_plan_rank(self.shape, self.done as int);
                        lemma_schedule_shape(self.shape, Some(self.done as int));
                    }
                }
                *self = Pipeline { shape: self.shape, done: self.done + 1, failed, left_over };
            },
        }
    }
}

/// The verdict of a run is the kind of its first failure: what fails
/// later, while the run undoes what it did, changes neither the
/// verdict nor what is still undone.
pub proof fn lemma_first_failure_is_reported(before: Pipeline, after: Pipeline, succeeded: bool)
    requires
        before.wf(),
        before.after(after, succeeded),
        before.failed_place() is Some,
    ensures
        after.failed_place() == before.failed_place(),
        after.shape().schedule(after.failed_place()) == before.shape().schedule(before.failed_place()),
{
}

/// A run succeeds only if every operation of the plan was performed and
/// none but the last, the deleting of what is left over, failed.
pub proof fn lemma_success_is_complete(run: Pipeline)
    requires
        run.wf(),
        run.verdict() == Some(Ok::<(), ErrorKind>(())),
    ensures
        run.done() == run.shape().plan_len(),
        run.shape().schedule(run.failed_place()) == run.shape().plan(),
{
    lemma_schedule_shape(run.shape(), run.failed_place());
}

/// How far a run has come: the number of operations whose outcome is
/// known, the place in the plan of the first one that failed, and the
/// number of failures that were passed over.
pub ghost struct Progress {
    pub shape: Shape,
    pub done: int,
    pub failed: Option<int>,
    pub passed_over: int,
}

impl Progress {
    /// A run that has not begun.
    pub open spec fn start(shape: Shape) -> Progress {
        Progress { shape, done: 0, failed: None, passed_over: 0 }
    }

    /// The operation to perform now; none once the run has ended.
    pub open spec fn current(self) -> Option<Op> {
        let schedule = self.shape.schedule(self.failed);
        if 0 <= self.done < schedule.len() {
            Some(schedule[self.done])
        } else {
            None
        }
    }

    /// The run after the outcome of its current operation is known: the
    /// first failure of an operation other than the deleting that ends
    /// every run is kept; any other failure is counted, as far as the
    /// machine can count, and passed over.
    pub open spec fn next(self, succeeded: bool) -> Progress {
        match self.current() {
            None => self,
            Some(op) => {
                let fatal = !succeeded && self.failed is None && op != Op::CleanupTemp;
                Progress {
                    shape: self.shape,
                    done: self.done + 1,
                    failed: if fatal {
                        Some(self.done)
                    } else {
                        self.failed
                    },
                    passed_over: if succeeded || fatal || self.passed_over == usize::MAX {
                        self.passed_over
                    } else {
                        self.passed_over + 1
                    },
                }
            },
        }
    }

    /// The run after the outcomes `outcomes` have come in, one by one,
    /// each for the operation that was current then.
    pub open spec fn after(shape: Shape, outcomes: Seq<bool>) -> Progress
        decreases outcomes.len(),
    {
        if outcomes.len() == 0 {
            Progress::start(shape)
        } else {
            Progress::after(shape, outcomes.drop_last()).next(outcomes.last())
        }
    }

    /// The operations that were performed while the outcomes `outcomes`
    /// came in: each outcome is that of the operation that was current
    /// then, and outcomes that come in after the run has ended belong to
    /// no operation.
    pub open spec fn performed(shape: Shape, outcomes: Seq<bool>) -> Seq<Op>
        decreases outcomes.len(),
    {
        if outcomes.len() == 0 {
            Seq::empty()
        } else {
            let before = Progress::performed(shape, outcomes.drop_last());
            match Progress::after(shape, outcomes.drop_last()).current() {
                Some(op) => before.push(op),
                None => before,
            }
        }
    }
}

impl Pipeline {
    /// How far the run has come.
    pub open spec fn progress(&self) -> Progress {
        Progress {
            shape: self.shape(),
            done: self.done(),
            failed: self.failed_place(),
            passed_over: self.left_over(),
        }
    }
}

/// A step of a run is a step of its progress.
pub proof fn lemma_advance_is_next(before: Pipeline, after: Pipeline, succeeded: bool)
    requires
        before.wf(),
        before.after(after, succeeded),
    ensures
        after.progress() == before.progress().next(succeeded),
        before.current_op() == before.progress().current(),
{
}

/// Whatever the outcomes, the operations of a run are those of a
/// schedule, in its order and without a gap: the schedule of the first
/// operation that failed other than the deleting that ends every run,
/// or the plan where there is none. The run has ended exactly when the
/// schedule is through.
pub proof fn lemma_run_follows_schedule(shape: Shape, outcomes: Seq<bool>)
    ensures
        shape.can_fail_at(Progress::after(shape, outcomes).failed),
        Progress::after(shape, outcomes).shape == shape,
        0 <= Progress::after(shape, outcomes).done <= shape.schedule(
            Progress::after(shape, outcomes).failed,
        ).len(),
        Progress::after(shape, outcomes).done <= outcomes.len(),
        Progress::after(shape, outcomes).done < outcomes.len() ==> Progress::after(shape, outcomes).done
            == shape.schedule(Progress::after(shape, outcomes).failed).len(),
        Progress::performed(shape, outcomes) == shape.schedule(
            Progress::after(shape, outcomes).failed,
        ).take(Progress::after(shape, outcomes).done),
        Progress::after(shape, outcomes).failed matches Some(f) ==> f < Progress::after(
            shape,
            outcomes,
        ).done && !outcomes[f] && forall|j: int| 0 <= j < f ==> outcomes[j],
        Progress::after(shape, outcomes).failed is None ==> forall|j: int|
            0 <= j < Progress::after(shape, outcomes).done && j < shape.cleanup_at() ==> outcomes[j],
    decreases outcomes.len(),
{
    if outcomes.len() == 0 {
        lemma_schedule_shape(shape, None);
        assert(shape.schedule(None).take(0) =~= Seq::<Op>::empty());
    } else {
        let earlier = outcomes.drop_last();
        lemma_run_follows_schedule(shape, earlier);
        let before = Progress::after(shape, earlier);
        let end = Progress::after(shape, outcomes);
        assert(end == before.next(outcomes.last()));
        lemma_schedule_shape(shape, before.failed);
        assert forall|j: int| 0 <= j < earlier.len() implies earlier[j] == outcomes[j] by {}
        let old_schedule = shape.schedule(before.failed);
        match before.current() {
            None => {
                assert(end == before);
            },
            Some(op) => {
                let d = before.done;
                assert(0 <= d < old_schedule.len());
                assert(op == old_schedule[d]);
                assert(d == earlier.len());
                assert(outcomes[d] == outcomes.last());
                assert(end.done == d + 1);
                if !outcomes.last() && before.failed is None && op != Op::CleanupTemp {
                    lemma_plan_rank(shape, d);
                    lemma_schedule_shape(shape, Some(d));
                    let new_schedule = shape.schedule(Some(d));
                    assert(end.failed == Some(d));
                    assert(new_schedule.take(d + 1) =~= old_schedule.take(d).push(op));
                } else {
                    assert(end.failed == before.failed);
                    assert(old_schedule.take(d + 1) =~= old_schedule.take(d).push(op));
                    if before.failed is None {
                        if d < shape.cleanup_at() {
                            lemma_plan_rank(shape, d);
                        }
                    }
                }
            },
        }
    }
}

/// A run that is given an outcome for each of its operations comes to
/// its end, and has then performed a whole schedule.
pub proof fn lemma_run_ends(shape: Shape, outcomes: Seq<bool>)
    requires
        outcomes.len() >= shape.plan_len(),
    ensures
        Progress::after(shape, outcomes).current() is None,
        Progress::performed(shape, outcomes) == shape.schedule(Progress::after(shape, outcomes).failed),
{
    lemma_run_follows_schedule(shape, outcomes);
    let end = Progress::after(shape, outcomes);
    lemma_schedule_shape(shape, end.failed);
    let schedule = shape.schedule(end.failed);
    assert(schedule.len() <= shape.plan_len());
    assert(end.done == schedule.len());
    assert(schedule.take(end.done) =~= schedule);
}

/// In every run the commands are run in the order of the script, one
/// after the other: when a command is run, the container has been
/// started, and every command before it has been run, right before the
/// next, and has succeeded.
pub proof fn lemma_every_run_keeps_command_order(shape: Shape, outcomes: Seq<bool>, at: int, command: usize)
    requires
        0 <= at < Progress::performed(shape, outcomes).len(),
        Progress::performed(shape, outcomes)[at] == Op::Exec(command),
    ensures
        command < shape.commands,
        at == shape.exec_at() + command,
        Progress::performed(shape, outcomes)[shape.exec_at() - 1] == Op::StartContainer,
        outcomes[shape.exec_at() - 1],
        forall|earlier: int|
            0 <= earlier < command ==> #[trigger] Progress::performed(shape, outcomes)[shape.exec_at()
                + earlier] == Op::Exec(earlier as usize) && outcomes[shape.exec_at() + earlier],
{
    lemma_run_follows_schedule(shape, outcomes);
    let end = Progress::after(shape, outcomes);
    lemma_schedule_shape(shape, end.failed);
    let schedule = shape.schedule(end.failed);
    assert(schedule[at] == Op::Exec(command));
    lemma_commands_in_declared_order(shape, end.failed, at, command);
    assert forall|earlier: int| 0 <= earlier < command implies #[trigger] Progress::performed(
        shape,
        outcomes,
    )[shape.exec_at() + earlier] == Op::Exec(earlier as usize) && outcomes[shape.exec_at()
        + earlier] by {
        assert(schedule[shape.exec_at() + earlier] == Op::Exec(earlier as usize));
    }
}

/// In every run that has come to its end, an image that was mounted is
/// unmounted exactly once, whether or not an overlay or the export
/// failed, and only after the last of them; an image that was not
/// mounted is not unmounted.
pub proof fn lemma_every_run_unmounts_once(shape: Shape, outcomes: Seq<bool>)
    requires
        outcomes.len() >= shape.plan_len(),
    ensures
        ({
            let performed = Progress::performed(shape, outcomes);
            let mounted = exists|m: int|
                0 <= m < performed.len() && #[trigger] performed[m] == Op::Mount && outcomes[m];
            &&& mounted ==> exists|u: int|
                {
                    &&& 0 <= u < performed.len()
                    &&& #[trigger] performed[u] == Op::Unmount
                    &&& forall|j: int| 0 <= j < performed.len() && j != u ==> performed[j] != Op::Unmount
                    &&& forall|j: int|
                        0 <= j < performed.len() && (performed[j] is ApplyOverlay || performed[j]
                            == Op::Export || performed[j] == Op::Mount) ==> j < u
                }
            &&& !mounted ==> forall|j: int| 0 <= j < performed.len() ==> performed[j] != Op::Unmount
        }),
{
    lemma_run_follows_schedule(shape, outcomes);
    lemma_run_ends(shape, outcomes);
    let end = Progress::after(shape, outcomes);
    let performed = Progress::performed(shape, outcomes);
    lemma_schedule_shape(shape, end.failed);
    lemma_unmounted_exactly_once(shape, end.failed);
    let mounted = exists|m: int|
        0 <= m < performed.len() && #[trigger] performed[m] == Op::Mount && outcomes[m];
    if mount_succeeded(shape, end.failed) {
        assert(performed[shape.mount_at()] == Op::Mount && outcomes[shape.mount_at()]);
    } else {
        if mounted {
            let m = choose|m: int|
                0 <= m < performed.len() && #[trigger] performed[m] == Op::Mount && outcomes[m];
            if m <= end.failed->0 {
                lemma_plan_rank(shape, m);
            }
        }
    }
}

} // verus!
