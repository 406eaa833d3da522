use buildfs::action::{FsAction, MountRequest, ToolCall};
use buildfs::cli::{DryRunArgs, PackageType, RunArgs};
use buildfs::container_engine::{
    engine_exec, ContainerEngine, ExecParams, ExecReader, StreamType,
};
use buildfs::dry_run::Engine;
use buildfs::error::{ConfigError, ErrorKind};
use buildfs::package::{locate_package, package_location};
use buildfs::pipeline::{Op, Pipeline, Shape};
use buildfs::run::{
    exec_params, random_path_below, get_tmp_path, init_rootfs, plan_cleanup, plan_export,
    next_step, plan_overlay, plan_rootfs, plan_staging, request_for, run_command, script_mounts,
    named_path_below, stage_inline_scripts, staged_path_below, Request, RunContext, StagedScript,
    Step,
};
use buildfs::schema::{
    BuildScript, BuildScriptCommand, BuildScriptContainer, BuildScriptContainerImage,
    BuildScriptExport, BuildScriptFilesystem, BuildScriptOverlay, ContainerEngineType, Export,
    FilesystemType,
};
use std::cell::RefCell;
use std::rc::Rc;

fn pair(a: &str, b: &str) -> (String, String) {
    (String::from(a), String::from(b))
}

fn text(s: &str) -> String {
    String::from(s)
}

fn command(line: &str) -> BuildScriptCommand {
    BuildScriptCommand {
        command: Some(text(line)),
        script_inline: None,
        script_path: None,
        uid: None,
        gid: None,
        working_dir: None,
        privileged: None,
        env: Vec::new(),
    }
}

fn inline(body: &str) -> BuildScriptCommand {
    BuildScriptCommand { command: None, script_inline: Some(text(body)), ..command("") }
}

fn script_file(path: &str) -> BuildScriptCommand {
    BuildScriptCommand { command: None, script_path: Some(text(path)), ..command("") }
}

fn file_overlay(source: &str, destination: &str) -> BuildScriptOverlay {
    BuildScriptOverlay {
        source: Some(text(source)),
        source_inline: None,
        destination: text(destination),
        is_directory: false,
    }
}

fn inline_overlay(content: &str, destination: &str) -> BuildScriptOverlay {
    BuildScriptOverlay {
        source: None,
        source_inline: Some(text(content)),
        destination: text(destination),
        is_directory: false,
    }
}

fn dir_overlay(source: &str, destination: &str) -> BuildScriptOverlay {
    BuildScriptOverlay {
        source: Some(text(source)),
        source_inline: None,
        destination: text(destination),
        is_directory: true,
    }
}

fn filesystem() -> BuildScriptFilesystem {
    BuildScriptFilesystem {
        filesystem_type: FilesystemType::Ext4,
        size_mib: 128,
        block_size_mib: None,
        dd_args: Vec::new(),
        mkfs_args: Vec::new(),
    }
}

fn container() -> BuildScriptContainer {
    BuildScriptContainer {
        engine: ContainerEngineType::Docker,
        image: BuildScriptContainerImage { name: text("alpine"), tag: text("latest") },
        rootful: false,
        connection_uri: None,
        volumes: Vec::new(),
        env: vec![pair("LANG", "C"), pair("MODE", "container")],
        hostname: None,
        oci_runtime: None,
        timeout: Some(7),
        cap_add: None,
        cap_drop: None,
    }
}

fn script(commands: Vec<BuildScriptCommand>, overlays: Vec<BuildScriptOverlay>) -> BuildScript {
    BuildScript {
        filesystem: filesystem(),
        container: container(),
        commands,
        overlays,
        export: BuildScriptExport::default(),
    }
}

fn is_token(s: &str) -> bool {
    s.len() == 36 && s.chars().all(|c| c.is_ascii_digit() || ('a'..='f').contains(&c) || c == '-')
}

fn context(staged: Vec<StagedScript>) -> RunContext {
    RunContext {
        unpack_path: text("/pkg"),
        can_delete_unpack_path: false,
        output_path: text("/out/rootfs.img"),
        no_exec_logs: true,
        container_name: text("the-container"),
        tar_path: text("/tmp/tar"),
        rootfs_path: text("/tmp/rootfs"),
        mount_path: text("/tmp/mnt"),
        staged,
    }
}

#[test]
fn temporary_paths_are_random_names_below_tmp() {
    let a = get_tmp_path();
    let b = get_tmp_path();
    assert!(a.starts_with("/tmp/"));
    assert!(is_token(&a["/tmp/".len()..]));
    assert!(is_token(&b["/tmp/".len()..]));
    assert_ne!(a, b);
    let c = random_path_below("/__scripts");
    assert!(c.starts_with("/__scripts/"));
    assert!(is_token(&c["/__scripts/".len()..]));
    assert_ne!(random_path_below("/x"), text("/x"));
}

#[test]
fn directory_overlay_is_copied_as_a_whole() {
    let overlays = vec![dir_overlay("/files/etc", "/etc")];
    assert_eq!(
        plan_overlay(&overlays, 0, "/pkg", "/mnt"),
        Some(vec![FsAction::CopyTree { source: text("/pkg/files/etc"), target: text("/mnt/etc") }])
    );
}

#[test]
fn file_overlay_makes_the_parent_and_copies_without_replacing() {
    let overlays = vec![file_overlay("/files/motd", "/etc/motd")];
    assert_eq!(
        plan_overlay(&overlays, 0, "/pkg", "/mnt"),
        Some(vec![
            FsAction::CreateDirAll { path: text("/mnt/etc") },
            FsAction::CopyFileNew { source: text("/pkg/files/motd"), target: text("/mnt/etc/motd") },
        ])
    );
}

#[test]
fn inline_overlay_writes_a_new_file() {
    let overlays = vec![inline_overlay("hello\n", "greeting")];
    assert_eq!(
        plan_overlay(&overlays, 0, "/pkg", "/mnt"),
        Some(vec![
            FsAction::CreateDirAll { path: text("/mnt/") },
            FsAction::WriteNewFile { path: text("/mnt/greeting"), content: text("hello\n") },
        ])
    );
}

#[test]
fn overlay_that_cannot_be_applied_has_no_plan() {
    let neither = BuildScriptOverlay { source: None, ..file_overlay("x", "/a") };
    let both = BuildScriptOverlay { source_inline: Some(text("c")), ..file_overlay("x", "/a") };
    let dir_without_source = BuildScriptOverlay { source: None, ..dir_overlay("x", "/a") };
    let dir_with_content = BuildScriptOverlay { source_inline: Some(text("c")), ..dir_overlay("x", "/a") };
    for overlay in [neither, both, dir_without_source, dir_with_content] {
        assert_eq!(plan_overlay(&vec![overlay], 0, "/pkg", "/mnt"), None);
    }
    assert_eq!(plan_overlay(&vec![file_overlay("/a", "/b")], 1, "/pkg", "/mnt"), None);
    assert_eq!(plan_overlay(&Vec::new(), 0, "/pkg", "/mnt"), None);
}

#[test]
fn second_overlay_to_one_destination_is_refused() {
    let overlays = vec![
        inline_overlay("first", "/etc/motd"),
        dir_overlay("/files", "/etc/motd"),
        file_overlay("/files/motd", "etc/motd"),
        inline_overlay("third", "/etc/other"),
    ];
    assert!(plan_overlay(&overlays, 0, "/pkg", "/mnt").is_some());
    assert!(plan_overlay(&overlays, 1, "/pkg", "/mnt").is_some());
    assert_eq!(plan_overlay(&overlays, 2, "/pkg", "/mnt"), None);
    assert!(plan_overlay(&overlays, 3, "/pkg", "/mnt").is_some());
}

#[test]
fn export_tasks_come_in_four_groups() {
    let export = BuildScriptExport {
        files: Export { included: vec![text("/etc/passwd")], create: vec![text("/etc/machine-id")] },
        directories: Export { included: vec![text("/usr/lib")], create: vec![text("/proc"), text("sys")] },
    };
    assert_eq!(
        plan_export(&export, "/rootfs", "/mnt"),
        Some(vec![
            vec![FsAction::RunTool(ToolCall {
                program: text("cp"),
                args: vec![text("-r"), text("-p"), text("/rootfs/usr/lib"), text("/mnt/usr")],
                quiet: false,
            })],
            vec![FsAction::CreateDirAll { path: text("/mnt/proc") }],
            vec![FsAction::CreateDirAll { path: text("/mnt/sys") }],
            vec![
                FsAction::CreateDirAll { path: text("/mnt/etc") },
                FsAction::CopyFile { source: text("/rootfs/etc/passwd"), target: text("/mnt/etc/passwd") },
            ],
            vec![
                FsAction::CreateDirAll { path: text("/mnt/etc") },
                FsAction::CreateNewFile { path: text("/mnt/etc/machine-id") },
            ],
        ])
    );
    assert_eq!(plan_export(&BuildScriptExport::default(), "/rootfs", "/mnt"), Some(Vec::new()));
}

#[test]
fn export_of_the_root_into_a_root_mount_is_impossible() {
    let export = BuildScriptExport {
        files: Export::default(),
        directories: Export { included: vec![text("/")], create: Vec::new() },
    };
    assert_eq!(plan_export(&export, "/rootfs", "/"), None);
    assert!(plan_export(&export, "/rootfs", "/mnt").is_some());
}

#[test]
fn image_of_128_mib_in_blocks_of_one() {
    let plan = plan_rootfs(&filesystem(), "/out/rootfs.img", "/tmp/mnt", false).unwrap();
    assert_eq!(
        plan.allocate,
        ToolCall {
            program: text("dd"),
            args: vec![text("if=/dev/zero"), text("of=/out/rootfs.img"), text("bs=1M"), text("count=128")],
            quiet: false,
        }
    );
    assert_eq!(
        plan.format,
        ToolCall { program: text("mkfs.ext4"), args: vec![text("/out/rootfs.img")], quiet: false }
    );
    assert_eq!(plan.mount_point, FsAction::CreateDir { path: text("/tmp/mnt") });
    assert_eq!(
        plan.mount,
        MountRequest { fstype: text("ext4"), source: text("/out/rootfs.img"), target: text("/tmp/mnt") }
    );
}

#[test]
fn image_with_block_size_and_extra_arguments() {
    let fs = BuildScriptFilesystem {
        filesystem_type: FilesystemType::Btrfs,
        size_mib: 96,
        block_size_mib: Some(8),
        dd_args: vec![text("status=none")],
        mkfs_args: vec![text("-L"), text("root")],
    };
    let plan = plan_rootfs(&fs, "img", "/m", true).unwrap();
    assert_eq!(
        plan.allocate.args,
        vec!["if=/dev/zero", "of=img", "bs=8M", "count=12", "status=none"]
    );
    assert!(plan.allocate.quiet && plan.format.quiet);
    assert_eq!(plan.format.program, "mkfs.btrfs");
    assert_eq!(plan.format.args, vec!["img", "-L", "root"]);
    assert_eq!(plan.mount.fstype, "btrfs");
}

#[test]
fn each_filesystem_has_its_tool() {
    let names = [
        (FilesystemType::Ext4, "mkfs.ext4", "ext4"),
        (FilesystemType::Btrfs, "mkfs.btrfs", "btrfs"),
        (FilesystemType::Squashfs, "mksquashfs", "squashfs"),
        (FilesystemType::Vfat, "mkfs.vfat", "vfat"),
        (FilesystemType::Xfs, "mkfs.xfs", "xfs"),
    ];
    for (kind, tool, fstype) in names {
        assert_eq!(kind.mkfs_name(), tool);
        assert_eq!(kind.fstype_name(), fstype);
    }
    assert_eq!(FilesystemType::default(), FilesystemType::Ext4);
    assert_eq!(ContainerEngineType::default(), ContainerEngineType::Docker);
    assert_eq!(ContainerEngineType::Docker.name(), "Docker");
    assert_eq!(ContainerEngineType::Podman.name(), "Podman");
}

#[test]
fn zero_block_size_has_no_plan() {
    let fs = BuildScriptFilesystem { block_size_mib: Some(0), ..filesystem() };
    assert_eq!(plan_rootfs(&fs, "img", "/m", false), None);
    assert_eq!(init_rootfs(&fs, "img", false), None);
}

#[test]
fn image_is_never_smaller_than_asked() {
    let uneven = BuildScriptFilesystem { size_mib: 100, block_size_mib: Some(64), ..filesystem() };
    assert_eq!(plan_rootfs(&uneven, "img", "/m", false), None);
    assert_eq!(init_rootfs(&uneven, "img", false), None);
    let smaller = BuildScriptFilesystem { size_mib: 3, block_size_mib: Some(4), ..filesystem() };
    assert_eq!(plan_rootfs(&smaller, "img", "/m", false), None);
    for (size, block) in [(128u32, 64u32), (100, 100), (100, 25), (7, 1), (0, 5), (4096, 512)] {
        let fs = BuildScriptFilesystem { size_mib: size, block_size_mib: Some(block), ..filesystem() };
        let plan = plan_rootfs(&fs, "img", "/m", false).unwrap();
        assert_eq!(plan.allocate.args[2], format!("bs={}M", block));
        assert_eq!(plan.allocate.args[3], format!("count={}", size / block));
        assert_eq!((size / block) * block, size);
    }
}

#[test]
fn init_rootfs_mounts_at_a_directory_of_its_own() {
    let plan = init_rootfs(&filesystem(), "img", true).unwrap();
    assert!(plan.mount.target.starts_with("/tmp/"));
    assert!(is_token(&plan.mount.target["/tmp/".len()..]));
    assert_eq!(plan.mount_point, FsAction::CreateDir { path: plan.mount.target.clone() });
    assert_eq!(plan.mount.source, "img");
    assert_eq!(plan.allocate.args, vec!["if=/dev/zero", "of=img", "bs=1M", "count=128"]);
}

#[test]
fn image_reference_is_name_and_tag() {
    let image = BuildScriptContainerImage { name: text("debian"), tag: text("bookworm") };
    assert_eq!(image.full_name(), "debian:bookworm");
    let untagged = BuildScriptContainerImage { name: text("debian"), tag: String::new() };
    assert_eq!(untagged.full_name(), "debian:");
}

#[test]
fn inline_scripts_are_staged_in_order() {
    let commands = vec![command("a"), inline("echo 1"), script_file("/s.sh"), inline("echo 2")];
    let staged = stage_inline_scripts(&commands);
    assert_eq!(staged.len(), 2);
    assert_eq!(staged[0].command, 1);
    assert_eq!(staged[1].command, 3);
    for entry in &staged {
        let ending = format!("-{}", entry.command);
        assert!(entry.host_path.starts_with("/tmp/"));
        assert!(entry.host_path.ends_with(&ending));
        assert!(is_token(&entry.host_path["/tmp/".len()..entry.host_path.len() - ending.len()]));
        assert!(entry.mount_path.starts_with("/__scripts/"));
        assert!(entry.mount_path.ends_with(&ending));
        assert!(is_token(&entry.mount_path["/__scripts/".len()..entry.mount_path.len() - ending.len()]));
    }
    assert_ne!(staged[0].host_path, staged[1].host_path);
    assert_ne!(staged[0].mount_path, staged[1].mount_path);
    let named = staged_path_below("/dir", 17);
    assert!(named.starts_with("/dir/") && named.ends_with("-17"));
    assert!(is_token(&named["/dir/".len()..named.len() - 3]));
    assert_eq!(
        plan_staging(&commands, &staged, 1),
        Some(vec![
            FsAction::WriteNewFile { path: staged[1].host_path.clone(), content: text("echo 2") },
            FsAction::SetMode { path: staged[1].host_path.clone(), mode: 0o111 },
        ])
    );
    assert_eq!(plan_staging(&commands, &staged, 2), None);
    let wrong = vec![StagedScript { command: 0, host_path: text("/tmp/h"), mount_path: text("/m") }];
    assert_eq!(plan_staging(&commands, &wrong, 0), None);
    assert!(stage_inline_scripts(&vec![command("x")]).is_empty());
}

#[test]
fn script_files_and_staged_scripts_are_mounted() {
    let commands = vec![script_file("/scripts/a.sh"), inline("x"), script_file("scripts/a.sh")];
    let staged = vec![StagedScript { command: 1, host_path: text("/tmp/h"), mount_path: text("/__scripts/m") }];
    assert_eq!(
        script_mounts(&commands, "/pkg", &staged),
        vec![pair("/pkg/scripts/a.sh", "/__scripts/scripts/a.sh"), pair("/tmp/h", "/__scripts/m")]
    );
}

#[test]
fn exec_params_of_each_kind_of_command() {
    let mut with_options = command("apk add bash");
    with_options.uid = Some(1);
    with_options.gid = Some(2);
    with_options.working_dir = Some(text("/w"));
    with_options.privileged = Some(true);
    with_options.env = vec![pair("MODE", "command"), pair("EXTRA", "1")];
    let commands = vec![with_options, script_file("/scripts/a.sh"), inline("echo hi")];
    let staged = vec![StagedScript { command: 2, host_path: text("/tmp/h"), mount_path: text("/__scripts/m") }];
    let first = exec_params(&commands, 0, &staged, &container(), "id", "name").unwrap();
    assert_eq!(
        first,
        ExecParams {
            container_name: text("name"),
            container_id: text("id"),
            cmd: text("apk add bash"),
            uid: Some(1),
            gid: Some(2),
            working_dir: Some(text("/w")),
            privileged: Some(true),
            env: vec![pair("LANG", "C"), pair("MODE", "command"), pair("EXTRA", "1")],
        }
    );
    let second = exec_params(&commands, 1, &staged, &container(), "id", "name").unwrap();
    assert_eq!(second.cmd, "/__scripts/scripts/a.sh");
    assert_eq!(second.env, vec![pair("LANG", "C"), pair("MODE", "container")]);
    let third = exec_params(&commands, 2, &staged, &container(), "id", "name").unwrap();
    assert_eq!(third.cmd, "/__scripts/m");
    assert_eq!(exec_params(&commands, 2, &Vec::new(), &container(), "id", "name"), None);
    assert_eq!(exec_params(&commands, 3, &staged, &container(), "id", "name"), None);
    let nothing = BuildScriptCommand { command: None, ..command("") };
    assert_eq!(exec_params(&vec![nothing], 0, &staged, &container(), "i", "n").unwrap().cmd, "");
}

#[test]
fn cleanup_deletes_what_the_run_made() {
    let staged = vec![
        StagedScript { command: 0, host_path: text("/tmp/h0"), mount_path: text("/__scripts/m0") },
        StagedScript { command: 2, host_path: text("/tmp/h2"), mount_path: text("/__scripts/m2") },
    ];
    assert_eq!(
        plan_cleanup(&staged, "/tmp/tar", "/tmp/rootfs", "/tmp/mnt", "/tmp/unpacked", true),
        vec![
            FsAction::RemoveFile { path: text("/tmp/h0") },
            FsAction::RemoveFile { path: text("/tmp/h2") },
            FsAction::RemoveFile { path: text("/tmp/tar") },
            FsAction::RemoveTree { path: text("/tmp/rootfs") },
            FsAction::RemoveDir { path: text("/tmp/mnt") },
            FsAction::RemoveTree { path: text("/tmp/unpacked") },
        ]
    );
    assert_eq!(
        plan_cleanup(&Vec::new(), "/tmp/tar", "/tmp/rootfs", "/tmp/mnt", "/home/me/pkg", false),
        vec![
            FsAction::RemoveFile { path: text("/tmp/tar") },
            FsAction::RemoveTree { path: text("/tmp/rootfs") },
            FsAction::RemoveDir { path: text("/tmp/mnt") },
        ]
    );
}

#[test]
fn run_is_set_up_with_names_of_its_own() {
    let build = script(vec![inline("a"), command("b")], vec![inline_overlay("c", "/d")]);
    let location = package_location(PackageType::Directory, "/home/me/pkg", "/unused");
    let args = RunArgs { dry_run_args: DryRunArgs { package: text("/home/me/pkg") }, output_path: text("/out.img") };
    let run = run_command(PackageType::Directory, &build, &Vec::new(), 0, &args, &location, true).unwrap();
    assert!(matches!(run.engine, Engine::Docker(_)));
    let (context, pipeline) = (run.context, run.pipeline);
    assert_eq!(context.unpack_path, "/home/me/pkg");
    assert!(!context.can_delete_unpack_path);
    assert_eq!(context.output_path, "/out.img");
    assert!(context.no_exec_logs);
    assert!(is_token(&context.container_name));
    let named = [(&context.tar_path, ".tar"), (&context.rootfs_path, ".rootfs"), (&context.mount_path, ".mount")];
    for (path, ending) in named {
        assert!(path.starts_with("/tmp/") && path.ends_with(ending));
        assert!(is_token(&path["/tmp/".len()..path.len() - ending.len()]));
    }
    assert_ne!(context.tar_path, context.rootfs_path);
    assert_ne!(context.rootfs_path, context.mount_path);
    assert_ne!(context.tar_path, context.mount_path);
    assert_ne!(context.staged[0].host_path, context.tar_path);
    let plain = named_path_below("/var", ".x");
    assert!(plain.starts_with("/var/") && plain.ends_with(".x"));
    assert!(is_token(&plain["/var/".len()..plain.len() - 2]));
    assert_eq!(context.staged.len(), 1);
    assert_eq!(context.staged[0].command, 0);
    let shape = pipeline.get_shape();
    assert_eq!((shape.scripts, shape.commands, shape.overlays), (1, 2, 1));
    assert_eq!(pipeline.current(), Some(Op::PullImage));

    let archive = locate_package(PackageType::Tar, "/home/me/pkg.tar");
    let context = run_command(PackageType::Tar, &build, &Vec::new(), 0, &args, &archive, false).unwrap().context;
    assert!(context.can_delete_unpack_path);
    assert_eq!(context.unpack_path, archive.unpack_path);
}

#[test]
fn refused_script_is_not_run() {
    let args = RunArgs { dry_run_args: DryRunArgs { package: text("/home/me/pkg") }, output_path: text("/out.img") };
    let location = package_location(PackageType::Directory, "/home/me/pkg", "/unused");
    let relative = script(vec![script_file("scripts/a.sh")], Vec::new());
    assert_eq!(
        run_command(PackageType::Directory, &relative, &vec![true], 0, &args, &location, true),
        Err(ConfigError::ReferenceNotAbsolute { index: 0 })
    );
    let missing = script(vec![script_file("/scripts/a.sh")], Vec::new());
    assert_eq!(
        run_command(PackageType::Directory, &missing, &vec![false], 0, &args, &location, true),
        Err(ConfigError::ReferenceMissing { index: 0 })
    );
    assert!(run_command(PackageType::Directory, &missing, &vec![true], 0, &args, &location, true).is_ok());
    let bare = package_location(PackageType::BuildScript, "/home/me/b.toml", "/unused");
    assert_eq!(
        run_command(PackageType::BuildScript, &missing, &vec![true], 0, &args, &bare, true),
        Err(ConfigError::UnpackagedReferences { count: 1 })
    );
    let uneven = BuildScript {
        filesystem: BuildScriptFilesystem { size_mib: 100, block_size_mib: Some(64), ..filesystem() },
        ..script(Vec::new(), Vec::new())
    };
    assert_eq!(
        run_command(PackageType::Directory, &uneven, &Vec::new(), 0, &args, &location, true),
        Err(ConfigError::SizeNotInBlocks)
    );
}

#[test]
fn an_operation_that_cannot_be_asked_for_has_failed() {
    let build = script(Vec::new(), vec![inline_overlay("one", "/a"), inline_overlay("two", "/a")]);
    let ctx = context(Vec::new());
    let mut pipeline = Pipeline::new(Shape { scripts: 0, commands: 0, overlays: 2 });
    let mut seen = Vec::new();
    loop {
        match next_step(&mut pipeline, &build, &ctx, "the-id") {
            Step::Finished => break,
            Step::Refused(op) => seen.push((op, false)),
            Step::Perform(op, request) => {
                assert_eq!(pipeline.current(), Some(op));
                assert_eq!(Some(request), request_for(op, &build, &ctx, "the-id"));
                seen.push((op, true));
                pipeline.advance(true);
            }
        }
    }
    let tail: Vec<(Op, bool)> = seen.iter().rev().take(4).rev().cloned().collect();
    assert_eq!(
        tail,
        vec![(Op::ApplyOverlay(0), true), (Op::ApplyOverlay(1), false), (Op::Unmount, true), (Op::CleanupTemp, true)]
    );
    assert_eq!(pipeline.result(), Some(Err(ErrorKind::OverlayApplyFailed)));
    assert_eq!(pipeline.failed_operation(), Some(Op::ApplyOverlay(1)));
    assert_eq!(next_step(&mut pipeline, &build, &ctx, "the-id"), Step::Finished);
    assert_eq!(pipeline.result(), Some(Err(ErrorKind::OverlayApplyFailed)));
}

#[test]
fn request_for_each_operation() {
    let build = script(vec![command("/bin/true")], vec![inline_overlay("c", "/d")]);
    let ctx = context(Vec::new());
    assert_eq!(request_for(Op::PullImage, &build, &ctx, ""), Some(Request::PullImage));
    assert_eq!(request_for(Op::StageScript(0), &build, &ctx, ""), None);
    assert_eq!(
        request_for(Op::CreateContainer, &build, &ctx, ""),
        Some(Request::CreateContainer {
            container_name: text("the-container"),
            extra_volumes: Vec::new(),
            package_root: text("/pkg"),
        })
    );
    assert_eq!(
        request_for(Op::StartContainer, &build, &ctx, ""),
        Some(Request::StartContainer { container_name: text("the-container") })
    );
    match request_for(Op::Exec(0), &build, &ctx, "the-id") {
        Some(Request::Exec(params)) => {
            assert_eq!(params.cmd, "/bin/true");
            assert_eq!(params.container_id, "the-id");
            assert_eq!(params.container_name, "the-container");
        }
        other => panic!("{:?}", other),
    }
    assert_eq!(request_for(Op::Exec(1), &build, &ctx, "the-id"), None);
    assert_eq!(
        request_for(Op::ExportContainer, &build, &ctx, ""),
        Some(Request::ExportContainer { container_name: text("the-container"), tar_path: text("/tmp/tar") })
    );
    assert_eq!(
        request_for(Op::UnpackRootfs, &build, &ctx, ""),
        Some(Request::UnpackRootfs { tar_path: text("/tmp/tar"), rootfs_path: text("/tmp/rootfs") })
    );
    assert_eq!(
        request_for(Op::RemoveContainer, &build, &ctx, ""),
        Some(Request::RemoveContainer { container_name: text("the-container"), timeout: Some(7) })
    );
    match request_for(Op::AllocateImage, &build, &ctx, "") {
        Some(Request::Tool(call)) => {
            assert_eq!(call.program, "dd");
            assert_eq!(call.args, vec!["if=/dev/zero", "of=/out/rootfs.img", "bs=1M", "count=128"]);
            assert!(call.quiet);
        }
        other => panic!("{:?}", other),
    }
    match request_for(Op::FormatImage, &build, &ctx, "") {
        Some(Request::Tool(call)) => {
            assert_eq!(call.program, "mkfs.ext4");
            assert_eq!(call.args, vec!["/out/rootfs.img"]);
        }
        other => panic!("{:?}", other),
    }
    assert_eq!(
        request_for(Op::CreateMountPoint, &build, &ctx, ""),
        Some(Request::Host(vec![FsAction::CreateDir { path: text("/tmp/mnt") }]))
    );
    assert_eq!(
        request_for(Op::Mount, &build, &ctx, ""),
        Some(Request::Mount(MountRequest {
            fstype: text("ext4"),
            source: text("/out/rootfs.img"),
            target: text("/tmp/mnt")
        }))
    );
    assert_eq!(
        request_for(Op::ApplyOverlay(0), &build, &ctx, ""),
        Some(Request::Host(vec![
            FsAction::CreateDirAll { path: text("/tmp/mnt/") },
            FsAction::WriteNewFile { path: text("/tmp/mnt/d"), content: text("c") },
        ]))
    );
    assert_eq!(request_for(Op::ApplyOverlay(1), &build, &ctx, ""), None);
    assert_eq!(request_for(Op::Export, &build, &ctx, ""), Some(Request::Tasks(Vec::new())));
    assert_eq!(
        request_for(Op::Unmount, &build, &ctx, ""),
        Some(Request::Unmount { mount_path: text("/tmp/mnt") })
    );
    assert_eq!(
        request_for(Op::CleanupTemp, &build, &ctx, ""),
        Some(Request::Cleanup(vec![
            FsAction::RemoveFile { path: text("/tmp/tar") },
            FsAction::RemoveTree { path: text("/tmp/rootfs") },
            FsAction::RemoveDir { path: text("/tmp/mnt") },
        ]))
    );
    let broken = BuildScript {
        filesystem: BuildScriptFilesystem { block_size_mib: Some(0), ..filesystem() },
        ..script(Vec::new(), Vec::new())
    };
    for op in [Op::AllocateImage, Op::FormatImage, Op::Mount] {
        assert_eq!(request_for(op, &broken, &ctx, ""), None);
    }
}

fn perform(build: &BuildScript, ctx: &RunContext, mut pipeline: Pipeline, fail: &[Op]) -> (Vec<Op>, Pipeline) {
    let mut performed = Vec::new();
    while let Some(op) = pipeline.current() {
        performed.push(op);
        let asked = request_for(op, build, ctx, "the-id").is_some();
        pipeline.advance(asked && !fail.contains(&op));
    }
    (performed, pipeline)
}

#[test]
fn plain_run_of_one_command_succeeds() {
    let build = script(vec![command("/bin/true")], Vec::new());
    let location = package_location(PackageType::BuildScript, "/home/me/build.toml", "/unused");
    let args = RunArgs { dry_run_args: DryRunArgs { package: text("/home/me/build.toml") }, output_path: text("/out.img") };
    let run = run_command(PackageType::BuildScript, &build, &Vec::new(), 0, &args, &location, false).unwrap();
    let (ctx, pipeline) = (run.context, run.pipeline);
    let (performed, pipeline) = perform(&build, &ctx, pipeline, &[]);
    assert_eq!(
        performed,
        vec![
            Op::PullImage,
            Op::CreateContainer,
            Op::StartContainer,
            Op::Exec(0),
            Op::ExportContainer,
            Op::UnpackRootfs,
            Op::RemoveContainer,
            Op::AllocateImage,
            Op::FormatImage,
            Op::CreateMountPoint,
            Op::Mount,
            Op::Export,
            Op::Unmount,
            Op::CleanupTemp,
        ]
    );
    assert_eq!(pipeline.result(), Some(Ok(())));
    assert_eq!(pipeline.failures_passed_over(), 0);
    match request_for(Op::AllocateImage, &build, &ctx, "") {
        Some(Request::Tool(call)) => {
            assert_eq!(call.args, vec!["if=/dev/zero", "of=/out.img", "bs=1M", "count=128"])
        }
        other => panic!("{:?}", other),
    }
    match request_for(Op::FormatImage, &build, &ctx, "") {
        Some(Request::Tool(call)) => assert_eq!(call.program, "mkfs.ext4"),
        other => panic!("{:?}", other),
    }
    assert_eq!(request_for(Op::Export, &build, &ctx, ""), Some(Request::Tasks(Vec::new())));
}

#[test]
fn two_overlays_to_one_destination_fail_the_run() {
    let build = script(
        vec![command("/bin/true")],
        vec![inline_overlay("one", "/etc/motd"), inline_overlay("two", "/etc/motd")],
    );
    let location = package_location(PackageType::Directory, "/pkg", "/unused");
    let args = RunArgs { dry_run_args: DryRunArgs { package: text("/pkg") }, output_path: text("/out.img") };
    let run = run_command(PackageType::Directory, &build, &Vec::new(), 0, &args, &location, false).unwrap();
    let (ctx, pipeline) = (run.context, run.pipeline);
    let (performed, pipeline) = perform(&build, &ctx, pipeline, &[]);
    assert_eq!(pipeline.result(), Some(Err(ErrorKind::OverlayApplyFailed)));
    let tail: Vec<Op> = performed.iter().rev().take(4).rev().cloned().collect();
    assert_eq!(tail, vec![Op::ApplyOverlay(0), Op::ApplyOverlay(1), Op::Unmount, Op::CleanupTemp]);
    assert!(!performed.contains(&Op::Export));
    assert_eq!(performed.iter().filter(|op| **op == Op::Unmount).count(), 1);
}

struct Recorder {
    started: Rc<RefCell<Vec<String>>>,
    running: Rc<RefCell<usize>>,
}

struct RecordedOutput {
    left: usize,
    running: Rc<RefCell<usize>>,
}

impl ExecReader for RecordedOutput {
    fn read(&mut self) -> Option<(String, StreamType)> {
        if self.left == 0 {
            *self.running.borrow_mut() = 0;
            return None;
        }
        self.left -= 1;
        Some((text("line\n"), StreamType::Stdout))
    }
}

impl ContainerEngine for Recorder {
    type Reader = RecordedOutput;

    fn ping(&self) -> Result<(), String> {
        Ok(())
    }

    fn pull_image(&self, _image: &BuildScriptContainerImage) -> Result<(), String> {
        Ok(())
    }

    fn create_container(
        &self,
        _container: &BuildScriptContainer,
        _extra_volumes: &Vec<(String, String)>,
        _package_root: &str,
        _container_name: &str,
    ) -> Result<String, String> {
        Ok(text("the-id"))
    }

    fn start_container(&self, _container_name: &str) -> Result<(), String> {
        Ok(())
    }

    fn exec_in_container(&self, exec_params: &ExecParams) -> Result<RecordedOutput, String> {
        assert_eq!(*self.running.borrow(), 0, "a command was started while another one ran");
        *self.running.borrow_mut() = 1;
        self.started.borrow_mut().push(exec_params.cmd.clone());
        Ok(RecordedOutput { left: 3, running: self.running.clone() })
    }

    fn export_container(&self, _container_name: &str, _tar_path: &str) -> Result<(), String> {
        Ok(())
    }

    fn remove_container(&self, _container_name: &str, _timeout: Option<u64>) -> Result<(), String> {
        Ok(())
    }
}

#[test]
fn commands_are_run_in_the_order_of_the_script() {
    let build = script(vec![command("A"), command("B"), command("C")], Vec::new());
    let location = package_location(PackageType::BuildScript, "/b.toml", "/unused");
    let args = RunArgs { dry_run_args: DryRunArgs { package: text("/b.toml") }, output_path: text("/out.img") };
    let run = run_command(PackageType::BuildScript, &build, &Vec::new(), 0, &args, &location, true).unwrap();
    let (ctx, mut pipeline) = (run.context, run.pipeline);
    let started = Rc::new(RefCell::new(Vec::new()));
    let engine = Recorder { started: started.clone(), running: Rc::new(RefCell::new(0)) };
    let mut lines = 0;
    while let Some(op) = pipeline.current() {
        let ok = match request_for(op, &build, &ctx, "the-id") {
            Some(Request::Exec(params)) => match engine_exec(&engine, &params) {
                Ok(mut reader) => {
                    while let Some(_) = reader.read() {
                        lines += 1;
                    }
                    true
                }
                Err(_) => false,
            },
            Some(_) => true,
            None => false,
        };
        pipeline.advance(ok);
    }
    assert_eq!(*started.borrow(), vec![text("A"), text("B"), text("C")]);
    assert_eq!(lines, 9);
    assert_eq!(pipeline.result(), Some(Ok(())));
}
