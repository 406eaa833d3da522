use buildfs::error::ErrorKind;
use buildfs::pipeline::{Op, Pipeline, Shape, Stage};

fn run(shape: Shape, fail: &[Op]) -> (Vec<Op>, Pipeline) {
    let mut pipeline = Pipeline::new(shape);
    let mut performed = Vec::new();
    while let Some(op) = pipeline.current() {
        assert!(!pipeline.is_finished());
        assert_eq!(pipeline.result(), None);
        performed.push(op);
        pipeline.advance(!fail.contains(&op));
    }
    assert!(pipeline.is_finished());
    (performed, pipeline)
}

fn count(ops: &[Op], op: Op) -> usize {
    ops.iter().filter(|o| **o == op).count()
}

fn happy(shape: Shape) -> Vec<Op> {
    let mut plan = vec![Op::PullImage];
    plan.extend((0..shape.scripts).map(Op::StageScript));
    plan.extend([Op::CreateContainer, Op::StartContainer]);
    plan.extend((0..shape.commands).map(Op::Exec));
    plan.extend([
        Op::ExportContainer,
        Op::UnpackRootfs,
        Op::RemoveContainer,
        Op::AllocateImage,
        Op::FormatImage,
        Op::CreateMountPoint,
        Op::Mount,
    ]);
    plan.extend((0..shape.overlays).map(Op::ApplyOverlay));
    plan.extend([Op::Export, Op::Unmount, Op::CleanupTemp]);
    plan
}

#[test]
fn a_run_without_failure_follows_the_plan() {
    for shape in [
        Shape { scripts: 0, commands: 0, overlays: 0 },
        Shape { scripts: 2, commands: 3, overlays: 1 },
        Shape { scripts: 0, commands: 1, overlays: 4 },
    ] {
        let (performed, pipeline) = run(shape, &[]);
        assert_eq!(performed, happy(shape));
        assert_eq!(pipeline.result(), Some(Ok(())));
        assert_eq!(pipeline.failed_operation(), None);
        assert_eq!(pipeline.failures_passed_over(), 0);
        assert_eq!(pipeline.get_shape(), shape);
    }
}

#[test]
fn every_failure_ends_the_plan_and_runs_the_recovery() {
    let shape = Shape { scripts: 1, commands: 2, overlays: 2 };
    let plan = happy(shape);
    let create = plan.iter().position(|op| *op == Op::CreateContainer).unwrap();
    let remove = plan.iter().position(|op| *op == Op::RemoveContainer).unwrap();
    let mount = plan.iter().position(|op| *op == Op::Mount).unwrap();
    let unmount = plan.iter().position(|op| *op == Op::Unmount).unwrap();
    for (at, failing) in plan.iter().enumerate() {
        if *failing == Op::CleanupTemp {
            continue;
        }
        let (performed, pipeline) = run(shape, &[*failing]);
        let mut expected: Vec<Op> = plan[..=at].to_vec();
        if create < at && at < remove {
            expected.push(Op::RemoveContainer);
        }
        if mount < at && at < unmount {
            expected.push(Op::Unmount);
        }
        expected.push(Op::CleanupTemp);
        assert_eq!(performed, expected, "failure of {:?}", failing);
        assert_eq!(pipeline.result(), Some(Err(failing.failure_kind())));
        assert_eq!(pipeline.failed_operation(), Some(*failing));
        assert_eq!(performed.last(), Some(&Op::CleanupTemp));
        assert_eq!(count(&performed, Op::CleanupTemp), 1);
        assert_eq!(count(&performed, Op::Unmount), if at > mount { 1 } else { 0 });
        assert_eq!(count(&performed, Op::RemoveContainer), if at > create { 1 } else { 0 });
    }
}

#[test]
fn mount_is_released_once_when_an_overlay_or_the_export_fails() {
    let shape = Shape { scripts: 0, commands: 1, overlays: 3 };
    for failing in [Op::ApplyOverlay(0), Op::ApplyOverlay(1), Op::ApplyOverlay(2), Op::Export] {
        let (performed, pipeline) = run(shape, &[failing]);
        assert_eq!(count(&performed, Op::Unmount), 1);
        let unmount = performed.iter().position(|op| *op == Op::Unmount).unwrap();
        let failed = performed.iter().position(|op| *op == failing).unwrap();
        assert_eq!(unmount, failed + 1);
        assert_eq!(pipeline.result(), Some(Err(failing.failure_kind())));
    }
    let (performed, _) = run(shape, &[Op::Mount]);
    assert_eq!(count(&performed, Op::Unmount), 0);
}

#[test]
fn failures_of_the_recovery_are_passed_over() {
    let shape = Shape { scripts: 0, commands: 2, overlays: 0 };
    let (performed, pipeline) = run(shape, &[Op::Exec(1), Op::RemoveContainer, Op::CleanupTemp]);
    assert_eq!(
        performed,
        vec![
            Op::PullImage,
            Op::CreateContainer,
            Op::StartContainer,
            Op::Exec(0),
            Op::Exec(1),
            Op::RemoveContainer,
            Op::CleanupTemp,
        ]
    );
    assert_eq!(pipeline.result(), Some(Err(ErrorKind::ExecStartFailed)));
    assert_eq!(pipeline.failures_passed_over(), 2);
}

#[test]
fn failed_cleanup_alone_does_not_fail_the_run() {
    let shape = Shape { scripts: 0, commands: 0, overlays: 0 };
    let (performed, pipeline) = run(shape, &[Op::CleanupTemp]);
    assert_eq!(performed, happy(shape));
    assert_eq!(pipeline.result(), Some(Ok(())));
    assert_eq!(pipeline.failures_passed_over(), 1);
}

#[test]
fn failed_removal_of_the_container_fails_a_run_that_went_well() {
    let shape = Shape { scripts: 0, commands: 1, overlays: 0 };
    let (performed, pipeline) = run(shape, &[Op::RemoveContainer]);
    assert_eq!(pipeline.result(), Some(Err(ErrorKind::ContainerRemoveFailed)));
    assert_eq!(count(&performed, Op::RemoveContainer), 1);
    assert_eq!(performed.last(), Some(&Op::CleanupTemp));
    assert!(!performed.contains(&Op::AllocateImage));
}

#[test]
fn a_finished_run_stays_finished() {
    let (_, mut pipeline) = run(Shape { scripts: 0, commands: 0, overlays: 0 }, &[Op::PullImage]);
    let before = pipeline.result();
    pipeline.advance(true);
    pipeline.advance(false);
    assert_eq!(pipeline.current(), None);
    assert_eq!(pipeline.result(), before);
    assert_eq!(pipeline.failures_passed_over(), 0);
}

#[test]
fn operations_have_stages_and_failure_kinds() {
    let table = [
        (Op::PullImage, Stage::PullImage, ErrorKind::ImagePullFailed),
        (Op::StageScript(0), Stage::StageVolumes, ErrorKind::ContainerCreateFailed),
        (Op::CreateContainer, Stage::StartContainer, ErrorKind::ContainerCreateFailed),
        (Op::StartContainer, Stage::StartContainer, ErrorKind::ContainerStartFailed),
        (Op::Exec(3), Stage::RunCommands, ErrorKind::ExecStartFailed),
        (Op::ExportContainer, Stage::ExportRootfs, ErrorKind::ExportFailed),
        (Op::UnpackRootfs, Stage::ExportRootfs, ErrorKind::ExportFailed),
        (Op::RemoveContainer, Stage::RemoveContainer, ErrorKind::ContainerRemoveFailed),
        (Op::AllocateImage, Stage::AllocateImage, ErrorKind::FilesystemAllocationFailed),
        (Op::FormatImage, Stage::FormatImage, ErrorKind::FormatFailed),
        (Op::CreateMountPoint, Stage::Mount, ErrorKind::MountFailed),
        (Op::Mount, Stage::Mount, ErrorKind::MountFailed),
        (Op::ApplyOverlay(1), Stage::ApplyOverlays, ErrorKind::OverlayApplyFailed),
        (Op::Export, Stage::Export, ErrorKind::ExportStageFailed),
        (Op::Unmount, Stage::Unmount, ErrorKind::MountFailed),
        (Op::CleanupTemp, Stage::CleanupTemp, ErrorKind::CleanupFailed),
    ];
    for (op, stage, kind) in table {
        assert_eq!(op.stage_of(), stage);
        assert_eq!(op.failure_kind(), kind);
    }
}

#[test]
fn the_largest_shape_does_not_overflow() {
    let shape = Shape { scripts: usize::MAX, commands: usize::MAX, overlays: usize::MAX };
    let mut pipeline = Pipeline::new(shape);
    assert_eq!(pipeline.current(), Some(Op::PullImage));
    pipeline.advance(true);
    assert_eq!(pipeline.current(), Some(Op::StageScript(0)));
    pipeline.advance(false);
    assert_eq!(pipeline.current(), Some(Op::CleanupTemp));
    pipeline.advance(true);
    assert_eq!(pipeline.result(), Some(Err(ErrorKind::ContainerCreateFailed)));
}
