use buildfs::action::ToolCall;
use buildfs::container_engine::docker::{
    DockerContainerEngine, DockerEndpoint, API_MAJOR_VERSION, API_MINOR_VERSION,
    REQUEST_TIMEOUT_SECONDS,
};
use buildfs::container_engine::podman::PodmanContainerEngine;
use buildfs::container_engine::{
    client_failed, collect_bind_mounts, convert_stop_timeout, engine_create_container, engine_exec,
    engine_export_container, engine_ping, engine_pull_image, engine_remove_container,
    engine_start_container, format_uid_gid_string, line_output, ContainerEngine, ExecParams,
    ExecReader, StreamType,
};
use buildfs::error::{tagged, ConfigError, ErrorKind};
use buildfs::schema::{BuildScriptContainer, BuildScriptContainerImage, ContainerEngineType};

fn pair(a: &str, b: &str) -> (String, String) {
    (String::from(a), String::from(b))
}

fn container() -> BuildScriptContainer {
    BuildScriptContainer {
        engine: ContainerEngineType::Docker,
        image: BuildScriptContainerImage { name: String::from("alpine"), tag: String::from("3.20") },
        rootful: true,
        connection_uri: None,
        volumes: vec![pair("/host/data", "/data"), pair("/host/shared", "/from-script")],
        env: vec![pair("LANG", "C"), pair("TERM", "xterm")],
        hostname: Some(String::from("builder")),
        oci_runtime: Some(String::from("crun")),
        timeout: Some(30),
        cap_add: Some(vec![String::from("SYS_ADMIN")]),
        cap_drop: None,
    }
}

fn params() -> ExecParams {
    ExecParams {
        container_name: String::from("name-1"),
        container_id: String::from("id-1"),
        cmd: String::from("  apk add   bash "),
        uid: Some(1000),
        gid: Some(100),
        working_dir: Some(String::from("/work")),
        privileged: Some(true),
        env: vec![pair("A", "1"), pair("B", "two")],
    }
}

#[test]
fn user_and_group_are_written_as_engines_take_them() {
    assert_eq!(format_uid_gid_string(Some(1000), Some(100)), Some(String::from("1000:100")));
    assert_eq!(format_uid_gid_string(Some(0), None), Some(String::from("0")));
    assert_eq!(format_uid_gid_string(None, Some(100)), None);
    assert_eq!(format_uid_gid_string(None, None), None);
    assert_eq!(
        format_uid_gid_string(Some(u32::MAX), Some(u32::MAX)),
        Some(String::from("4294967295:4294967295"))
    );
}

#[test]
fn stop_timeout_wraps_like_a_cast() {
    assert_eq!(convert_stop_timeout(None), None);
    assert_eq!(convert_stop_timeout(Some(0)), Some(0));
    assert_eq!(convert_stop_timeout(Some(30)), Some(30));
    assert_eq!(convert_stop_timeout(Some(i64::MAX as u64)), Some(i64::MAX));
    assert_eq!(convert_stop_timeout(Some(i64::MAX as u64 + 1)), Some(i64::MIN));
    assert_eq!(convert_stop_timeout(Some(u64::MAX)), Some(-1));
}

#[test]
fn docker_endpoint_is_chosen_by_the_address() {
    assert_eq!(
        DockerContainerEngine::new(None),
        Ok(DockerContainerEngine { endpoint: DockerEndpoint::Defaults })
    );
    assert_eq!(
        DockerContainerEngine::new(Some(String::from("http://10.0.0.1:2375"))),
        Ok(DockerContainerEngine {
            endpoint: DockerEndpoint::Http(String::from("http://10.0.0.1:2375"))
        })
    );
    assert_eq!(
        DockerContainerEngine::new(Some(String::from("unix:///var/run/docker.sock"))),
        Ok(DockerContainerEngine {
            endpoint: DockerEndpoint::Local(String::from("unix:///var/run/docker.sock"))
        })
    );
    assert_eq!(
        DockerContainerEngine::new(Some(String::from("/var/run/docker.sock"))),
        Ok(DockerContainerEngine { endpoint: DockerEndpoint::Local(String::from("/var/run/docker.sock")) })
    );
    assert_eq!(
        DockerContainerEngine::new(Some(String::from("ftp://host"))),
        Err(ConfigError::UnsupportedConnection)
    );
    assert_eq!(DockerContainerEngine::new(Some(String::new())), Err(ConfigError::UnsupportedConnection));
    assert_eq!((API_MAJOR_VERSION, API_MINOR_VERSION, REQUEST_TIMEOUT_SECONDS), (1, 46, 5));
}

#[test]
fn docker_ping_needs_ok() {
    let engine = DockerContainerEngine::new(None).unwrap();
    assert!(engine.ping("OK"));
    assert!(!engine.ping("pong"));
    assert!(!engine.ping(""));
}

#[test]
fn docker_requests() {
    let engine = DockerContainerEngine::new(None).unwrap();
    let pull = engine.pull_image(&container().image);
    assert_eq!(pull.from_image, "alpine:3.20");
    assert_eq!(pull.tag, "3.20");

    let extra = vec![pair("/tmp/s1", "/__scripts/s1"), pair("/host/shared", "/from-run")];
    let create = engine.start_container(&container(), &extra, "/pkg", "the-name");
    assert_eq!(create.name, "the-name");
    assert_eq!(create.image, "alpine:3.20");
    assert!(create.tty);
    assert!(create.privileged);
    assert_eq!(create.hostname, Some(String::from("builder")));
    assert_eq!(create.env, vec!["LANG=C", "TERM=xterm"]);
    assert_eq!(
        create.binds,
        vec!["/tmp/s1:/__scripts/s1", "/host/shared:/from-run", "/pkg/host/data:/data", "/pkg/host/shared:/from-script"]
    );
    assert_eq!(create.runtime, Some(String::from("crun")));
    assert_eq!(create.cap_add, Some(vec![String::from("SYS_ADMIN")]));
    assert_eq!(create.cap_drop, None);

    let exec = engine.exec_in_container(&params());
    assert_eq!(exec.container_name, "name-1");
    assert!(!exec.attach_stdin);
    assert!(exec.attach_stdout && exec.attach_stderr && exec.tty);
    assert_eq!(exec.env, vec!["A=1", "B=two"]);
    assert_eq!(exec.cmd, vec!["apk", "add", "bash"]);
    assert_eq!(exec.privileged, Some(true));
    assert_eq!(exec.user, Some(String::from("1000:100")));
    assert_eq!(exec.working_dir, Some(String::from("/work")));

    let remove = engine.remove_container("the-name", Some(10));
    assert_eq!(remove.container_name, "the-name");
    assert_eq!(remove.stop_timeout, Some(10));
    assert!(remove.force);
}

#[test]
fn podman_socket_is_resolved() {
    assert_eq!(
        PodmanContainerEngine::new(None, 0),
        Ok(PodmanContainerEngine { socket_path: String::from("/run/podman/podman.sock") })
    );
    assert_eq!(
        PodmanContainerEngine::new(None, 1000),
        Ok(PodmanContainerEngine { socket_path: String::from("/run/user/1000/podman/podman.sock") })
    );
    assert_eq!(
        PodmanContainerEngine::new(Some(String::from("unix:///custom/p.sock")), 1000),
        Ok(PodmanContainerEngine { socket_path: String::from("/custom/p.sock") })
    );
    assert_eq!(
        PodmanContainerEngine::new(Some(String::from("http://host:8080")), 0),
        Err(ConfigError::UnsupportedConnection)
    );
    assert_eq!(
        PodmanContainerEngine::new(Some(String::from("/run/podman/podman.sock")), 0),
        Err(ConfigError::UnsupportedConnection)
    );
}

#[test]
fn podman_requests() {
    let engine = PodmanContainerEngine::new(None, 0).unwrap();
    assert_eq!(engine.pull_image(&container().image), "alpine:3.20");
    let extra = vec![pair("/tmp/s1", "/__scripts/s1")];
    let create = engine.start_container(&container(), &extra, "/tmp/unpacked/", "n");
    assert_eq!(create.name, "n");
    assert_eq!(create.image, "alpine:3.20");
    assert!(create.privileged && create.terminal && create.remove && create.create_mountpoint);
    assert_eq!(create.env, vec![pair("LANG", "C"), pair("TERM", "xterm")]);
    assert_eq!(create.timeout, Some(30));
    assert_eq!(create.mount_type, "bind");
    assert_eq!(
        create.mounts,
        vec![
            pair("/tmp/s1", "/__scripts/s1"),
            pair("/tmp/unpacked/host/data", "/data"),
            pair("/tmp/unpacked/host/shared", "/from-script")
        ]
    );
    let remove = engine.remove_container("n", None);
    assert_eq!(remove.container_name, "n");
    assert_eq!(remove.stop_timeout, None);
    assert!(remove.force);
    assert!(remove.ignore_missing);
    assert_eq!(engine.remove_container("n", Some(12)).stop_timeout, Some(12));
}

#[test]
fn script_mount_wins_over_a_mount_of_the_run() {
    let engine = DockerContainerEngine::new(None).unwrap();
    let extra = vec![pair("/pkg/host/shared", "/from-run"), pair("/tmp/s1", "/__scripts/s1")];
    let create = engine.start_container(&container(), &extra, "/pkg", "n");
    assert_eq!(
        create.binds,
        vec!["/pkg/host/shared:/from-script", "/tmp/s1:/__scripts/s1", "/pkg/host/data:/data"]
    );
    assert_eq!(
        collect_bind_mounts(&container(), &Vec::new(), ""),
        vec![pair("host/data", "/data"), pair("host/shared", "/from-script")]
    );
}

#[test]
fn podman_client_command_line() {
    let engine = PodmanContainerEngine::new(None, 0).unwrap();
    let call = engine.exec_in_container(&params());
    let expected: Vec<String> = [
        "exec", "--user", "1000:100", "--tty", "--workdir", "/work", "--privileged", "--env=A=1",
        "--env=B=two", "id-1", "apk", "add", "bash",
    ]
    .iter()
    .map(|s| s.to_string())
    .collect();
    assert_eq!(call, ToolCall { program: String::from("podman"), args: expected, quiet: false });

    let bare = ExecParams {
        container_name: String::from("n"),
        container_id: String::from("i"),
        cmd: String::from("/bin/true"),
        uid: None,
        gid: Some(5),
        working_dir: None,
        privileged: Some(false),
        env: Vec::new(),
    };
    assert_eq!(engine.exec_in_container(&bare).args, vec!["exec", "--tty", "i", "/bin/true"]);
}

#[test]
fn client_lines_are_standard_output() {
    assert_eq!(line_output(Some(String::from("hello"))), Some((String::from("hello"), StreamType::Stdout)));
    assert_eq!(line_output(None), None);
    assert!(!client_failed(Some(0)));
    assert!(client_failed(Some(1)));
    assert!(client_failed(None));
}

#[test]
fn failures_get_their_kind() {
    let failed: Result<u8, String> = Err(String::from("no route"));
    let tagged_failure = tagged(failed, ErrorKind::EngineUnreachable).unwrap_err();
    assert_eq!(tagged_failure.kind, ErrorKind::EngineUnreachable);
    assert_eq!(tagged_failure.detail, "no route");
    assert_eq!(tagged(Ok::<u8, String>(7), ErrorKind::EngineUnreachable).unwrap(), 7);
    assert_eq!(ErrorKind::OverlayApplyFailed.name(), "OverlayApplyFailed");
    assert_eq!(ErrorKind::ConfigError.name(), "ConfigError");
}

struct NoOutput;

impl ExecReader for NoOutput {
    fn read(&mut self) -> Option<(String, StreamType)> {
        None
    }
}

struct Broken;

impl ContainerEngine for Broken {
    type Reader = NoOutput;

    fn ping(&self) -> Result<(), String> {
        Err(String::from("ping"))
    }

    fn pull_image(&self, _image: &BuildScriptContainerImage) -> Result<(), String> {
        Err(String::from("pull"))
    }

    fn create_container(
        &self,
        _container: &BuildScriptContainer,
        _extra_volumes: &Vec<(String, String)>,
        _package_root: &str,
        _container_name: &str,
    ) -> Result<String, String> {
        Err(String::from("create"))
    }

    fn start_container(&self, _container_name: &str) -> Result<(), String> {
        Err(String::from("start"))
    }

    fn exec_in_container(&self, _exec_params: &ExecParams) -> Result<NoOutput, String> {
        Err(String::from("exec"))
    }

    fn export_container(&self, _container_name: &str, _tar_path: &str) -> Result<(), String> {
        Err(String::from("export"))
    }

    fn remove_container(&self, _container_name: &str, _timeout: Option<u64>) -> Result<(), String> {
        Err(String::from("remove"))
    }
}

#[test]
fn each_engine_request_fails_with_its_own_kind() {
    let engine = Broken;
    let unreachable = engine_ping(&engine).unwrap_err();
    assert_eq!(unreachable.kind, ErrorKind::EngineUnreachable);
    assert_eq!(unreachable.detail, "ping");
    let pulled = engine_pull_image(&engine, &container().image).unwrap_err();
    assert_eq!(pulled.kind, ErrorKind::ImagePullFailed);
    assert_eq!(pulled.detail, "pull");
    let created = engine_create_container(&engine, &container(), &Vec::new(), "/pkg", "n").unwrap_err();
    assert_eq!(created.kind, ErrorKind::ContainerCreateFailed);
    assert_eq!(created.detail, "create");
    let started = engine_start_container(&engine, "n").unwrap_err();
    assert_eq!(started.kind, ErrorKind::ContainerStartFailed);
    assert_eq!(started.detail, "start");
    let run = engine_exec(&engine, &params()).err().unwrap();
    assert_eq!(run.kind, ErrorKind::ExecStartFailed);
    assert_eq!(run.detail, "exec");
    let exported = engine_export_container(&engine, "n", "/tmp/t").unwrap_err();
    assert_eq!(exported.kind, ErrorKind::ExportFailed);
    assert_eq!(exported.detail, "export");
    let removed = engine_remove_container(&engine, "n", None).unwrap_err();
    assert_eq!(removed.kind, ErrorKind::ContainerRemoveFailed);
    assert_eq!(removed.detail, "remove");
}

struct Echo;

impl ContainerEngine for Echo {
    type Reader = NoOutput;

    fn ping(&self) -> Result<(), String> {
        Ok(())
    }

    fn pull_image(&self, image: &BuildScriptContainerImage) -> Result<(), String> {
        if image.tag == "latest" {
            Ok(())
        } else {
            Err(image.full_name())
        }
    }

    fn create_container(
        &self,
        container: &BuildScriptContainer,
        extra_volumes: &Vec<(String, String)>,
        package_root: &str,
        container_name: &str,
    ) -> Result<String, String> {
        Ok(format!("{}/{}/{}/{}", container.image.name, extra_volumes.len(), package_root, container_name))
    }

    fn start_container(&self, container_name: &str) -> Result<(), String> {
        if container_name == "made" {
            Ok(())
        } else {
            Err(container_name.to_string())
        }
    }

    fn exec_in_container(&self, exec_params: &ExecParams) -> Result<NoOutput, String> {
        if exec_params.cmd.is_empty() {
            Err(exec_params.container_id.clone())
        } else {
            Ok(NoOutput)
        }
    }

    fn export_container(&self, container_name: &str, tar_path: &str) -> Result<(), String> {
        Err(format!("{container_name}>{tar_path}"))
    }

    fn remove_container(&self, container_name: &str, timeout: Option<u64>) -> Result<(), String> {
        Err(format!("{container_name}:{timeout:?}"))
    }
}

#[test]
fn each_engine_request_hands_on_the_answer_to_what_was_asked() {
    let engine = Echo;
    assert!(engine_ping(&engine).is_ok());
    assert!(engine_pull_image(&engine, &BuildScriptContainerImage {
        name: String::from("alpine"),
        tag: String::from("latest")
    })
    .is_ok());
    assert_eq!(engine_pull_image(&engine, &container().image).unwrap_err().detail, "alpine:3.20");
    let extra = vec![pair("/a", "/b")];
    assert_eq!(
        engine_create_container(&engine, &container(), &extra, "root", "n").unwrap(),
        "alpine/1/root/n"
    );
    assert!(engine_start_container(&engine, "made").is_ok());
    assert_eq!(engine_start_container(&engine, "other").unwrap_err().detail, "other");
    assert!(engine_exec(&engine, &params()).is_ok());
    let nothing = ExecParams { cmd: String::new(), ..params() };
    assert_eq!(engine_exec(&engine, &nothing).err().unwrap().detail, "id-1");
    assert_eq!(engine_export_container(&engine, "n", "/tmp/t").unwrap_err().detail, "n>/tmp/t");
    assert_eq!(engine_remove_container(&engine, "n", Some(3)).unwrap_err().detail, "n:Some(3)");
}
