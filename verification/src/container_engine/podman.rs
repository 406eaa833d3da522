//! Requests as the Podman service takes them, and the command line of
//! its client where a command is run through the client.

use crate::action::ToolCall;
use crate::container_engine::{
    bind_mounts, collect_bind_mounts, convert_stop_timeout, format_uid_gid_string, stop_timeout, uid_gid_text, ExecParams,
};
use crate::error::ConfigError;
use crate::schema::{BuildScriptContainer, BuildScriptContainerImage};
use crate::text::{
    copy_optional, copy_optional_texts, copy_pairs, decimal, decimal_string, joined,
    split_whitespace, starts_with, trim_prefixes, trim_start_matches, words,
};
use vstd::prelude::*;

verus! {

/// The Podman backend: the local socket of its service.
#[derive(Debug, PartialEq, Eq)]
pub struct PodmanContainerEngine {
    pub socket_path: String,
}

/// The address of the service where the script names none: the system's
/// socket for the privileged user, else the socket of the user with the
/// effective user id `euid`.
pub open spec fn default_address(euid: u32) -> Seq<char> {
    if euid == 0 {
        "unix:///run/podman/podman.sock"@
    } else {
        "unix:///run/user/"@ + decimal(euid as nat) + "/podman/podman.sock"@
    }
}

/// The address that is used: the script's, else the default.
pub open spec fn resolved_address(connection_uri: Option<String>, euid: u32) -> Seq<char> {
    match connection_uri {
        Some(uri) => uri@,
        None => default_address(euid),
    }
}

/// Creating a container.
#[derive(Debug, PartialEq, Eq)]
pub struct PodmanCreateRequest {
    pub name: String,
    pub image: String,
    pub privileged: bool,
    /// Whether the container gets a terminal.
    pub terminal: bool,
    /// Whether the container is removed when it stops.
    pub remove: bool,
    /// Name and value of each variable.
    pub env: Vec<(String, String)>,
    pub hostname: Option<String>,
    pub oci_runtime: Option<String>,
    pub timeout: Option<u64>,
    pub cap_add: Option<Vec<String>>,
    pub cap_drop: Option<Vec<String>>,
    /// Host path and container path of each mount.
    pub mounts: Vec<(String, String)>,
    /// The kind of every mount.
    pub mount_type: String,
    /// Whether the place of a mount is made where the image lacks it.
    pub create_mountpoint: bool,
}

/// Stopping a container and removing it.
#[derive(Debug, PartialEq, Eq)]
pub struct PodmanRemoveRequest {
    pub container_name: String,
    /// The seconds to wait before the container is killed.
    pub stop_timeout: Option<i64>,
    /// Whether the container is removed even if it still runs.
    pub force: bool,
    /// Whether it counts as removed if it is gone already: a container
    /// of this backend removes itself when it stops.
    pub ignore_missing: bool,
}

impl PodmanCreateRequest {
    /// Whether this is the request that creates `container` under `name`
    /// with the bind mounts `extra` added: the container has a terminal,
    /// removes itself when it stops, is privileged where the script asks
    /// for a rootful one, the host paths of the script's bind mounts are
    /// taken below `package_root`, and where `extra` and the script both
    /// mount a host path the script's mount counts.
    pub open spec fn creates(
        &self,
        container: BuildScriptContainer,
        extra: Seq<(Seq<char>, Seq<char>)>,
        package_root: Seq<char>,
        name: Seq<char>,
    ) -> bool {
        &&& self.name@ == name
        &&& self.image@ == joined(container.image.name@, ':', container.image.tag@)
        &&& self.privileged == container.rootful
        &&& self.terminal
        &&& self.remove
        &&& self.env.deep_view() == container.env.deep_view()
        &&& self.hostname.deep_view() == container.hostname.deep_view()
        &&& self.oci_runtime.deep_view() == container.oci_runtime.deep_view()
        &&& self.timeout == container.timeout
        &&& self.cap_add.deep_view() == container.cap_add.deep_view()
        &&& self.cap_drop.deep_view() == container.cap_drop.deep_view()
        &&& self.mounts.deep_view() == bind_mounts(container, extra, package_root)
        &&& self.mount_type@ == "bind"@
        &&& self.create_mountpoint
    }
}

/// The arguments with which the client runs a command in a container:
/// the user, a terminal, the directory, the privilege and the variables
/// as far as they are given, then the container and the command line,
/// split at white space.
pub open spec fn exec_args(params: ExecParams) -> Seq<Seq<char>> {
    seq!["exec"@] + (match uid_gid_text(params.uid, params.gid) {
        Some(user) => seq!["--user"@, user],
        None => Seq::empty(),
    }) + seq!["--tty"@] + (match params.working_dir {
        Some(dir) => seq!["--workdir"@, dir@],
        None => Seq::empty(),
    }) + (if params.privileged == Some(true) {
        seq!["--privileged"@]
    } else {
        Seq::empty()
    }) + Seq::new(
        params.env.len() as nat,
        |i: int| "--env="@ + params.env[i].0@ + "="@ + params.env[i].1@,
    ) + seq![params.container_id@] + words(params.cmd@)
}

impl PodmanContainerEngine {
    /// Decides where the service's socket is. The address is the
    /// script's or, without one, the default for the user with the
    /// effective user id `euid`; it must be one of a local socket, and
    /// what follows `unix://` is the socket's path.
    pub fn new(connection_uri: Option<String>, euid: u32) -> (engine: Result<
        PodmanContainerEngine,
        ConfigError,
    >)
        ensures
            match engine {
                Ok(e) => "unix://"@.is_prefix_of(resolved_address(connection_uri, euid))
                    && e.socket_path@ == trim_prefixes(
                    resolved_address(connection_uri, euid),
                    "unix://"@,
                ),
                Err(e) => e == ConfigError::UnsupportedConnection && !"unix://"@.is_prefix_of(
                    resolved_address(connection_uri, euid),
                ),
            },
    {
        let uri: String = match connection_uri {
            Some(uri) => uri,
            None => {
                if euid == 0 {
                    String::from_str("unix:///run/podman/podman.sock")
                } else {
                    let mut address = String::from_str("unix:///run/user/");
                    address.append(decimal_string(euid as u64).as_str());
                    address.append("/podman/podman.sock");
                    address
                }
            },
        };
        if !starts_with(uri.as_str(), "unix://") {
            return Err(ConfigError::UnsupportedConnection);
        }
        let socket_path = String::from_str(trim_start_matches(uri.as_str(), "unix://"));
        Ok(PodmanContainerEngine { socket_path })
    }

    /// The reference of the image to fetch.
    pub fn pull_image(&self, image: &BuildScriptContainerImage) -> (reference: String)
        ensures
            reference@ == joined(image.name@, ':', image.tag@),
    {
        image.full_name()
    }

    /// The request that creates `container`, found in the package at
    /// `package_root`, under `container_name` with the bind mounts
    /// `extra_volumes` added.
    pub fn start_container(
        &self,
        container: &BuildScriptContainer,
        extra_volumes: &Vec<(String, String)>,
        package_root: &str,
        container_name: &str,
    ) -> (request: PodmanCreateRequest)
        ensures
            request.creates(*container, extra_volumes.deep_view(), package_root@, container_name@),
    {
        PodmanCreateRequest {
            name: String::from_str(container_name),
            image: container.image.full_name(),
            privileged: container.rootful,
            terminal: true,
            remove: true,
            env: copy_pairs(&container.env),
            hostname: copy_optional(&container.hostname),
            oci_runtime: copy_optional(&container.oci_runtime),
            timeout: container.timeout,
            cap_add: copy_optional_texts(&container.cap_add),
            cap_drop: copy_optional_texts(&container.cap_drop),
            mounts: collect_bind_mounts(container, extra_volumes, package_root),
            mount_type: String::from_str("bind"),
            create_mountpoint: true,
        }
    }

    /// The call of the client that runs `exec_params`; what the command
    /// prints is read from the client's output.
    pub fn exec_in_container(&self, exec_params: &ExecParams) -> (call: ToolCall)
        ensures
            call.program@ == "podman"@,
            call.args.deep_view() == exec_args(*exec_params),
            !call.quiet,
    {
        let mut args: Vec<String> = Vec::new();
        args.push(String::from_str("exec"));
        assert(args.deep_view() =~= seq!["exec"@]);
        match format_uid_gid_string(exec_params.uid, exec_params.gid) {
            Some(user) => {
                let ghost before = args.deep_view();
                args.push(String::from_str("--user"));
                args.push(user);
                assert(args.deep_view() =~= before + seq!["--user"@, user@]);
            },
            None => {
                assert(args.deep_view() =~= args.deep_view() + Seq::<Seq<char>>::empty());
            },
        }
        let ghost with_user = args.deep_view();
        args.push(String::from_str("--tty"));
        assert(args.deep_view() =~= with_user + seq!["--tty"@]);
        match &exec_params.working_dir {
            Some(dir) => {
                let ghost before = args.deep_view();
                args.push(String::from_str("--workdir"));
                args.push(dir.clone());
                assert(args.deep_view() =~= before + seq!["--workdir"@, dir@]);
            },
            None => {
                assert(args.deep_view() =~= args.deep_view() + Seq::<Seq<char>>::empty());
            },
        }
        let ghost with_dir = args.deep_view();
        let privileged: bool = match exec_params.privileged {
            Some(p) => p,
            None => false,
        };
        if privileged {
            args.push(String::from_str("--privileged"));
            assert(args.deep_view() =~= with_dir + seq!["--privileged"@]);
        } else {
            assert(args.deep_view() =~= with_dir + Seq::<Seq<char>>::empty());
        }
        let ghost head = args.deep_view();
        let ghost env_args = Seq::new(
            exec_params.env.len() as nat,
            |i: int| "--env="@ + exec_params.env[i].0@ + "="@ + exec_params.env[i].1@,
        );
        let mut i: usize = 0;
        assert(args.deep_view() =~= head + env_args.take(0));
        while i < exec_params.env.len()
            invariant
                i <= exec_params.env.len(),
                env_args == Seq::new(
                    exec_params.env.len() as nat,
                    |i: int| "--env="@ + exec_params.env[i].0@ + "="@ + exec_params.env[i].1@,
                ),
                args.deep_view() == head + env_args.take(i as int),
            decreases exec_params.env.len() - i,
        {
            let mut arg = String::from_str("--env=");
            arg.append(exec_params.env[i].0.as_str());
            arg.append("=");
            arg.append(exec_params.env[i].1.as_str());
            let ghost before = args.deep_view();
            args.push(arg);
            assert(args.deep_view() =~= before.push(arg@));
            assert(env_args.take(i + 1) =~= env_args.take(i as int).push(env_args[i as int]));
            assert(head + env_args.take(i + 1) =~= (head + env_args.take(i as int)).push(
                env_args[i as int],
            ));
            i += 1;
        }
        assert(env_args.take(exec_params.env.len() as int) =~= env_args);
        let ghost with_env = args.deep_view();
        args.push(exec_params.container_id.clone());
        assert(args.deep_view() =~= with_env + seq![exec_params.container_id@]);
        let ghost with_id = args.deep_view();
        let parts = split_whitespace(exec_params.cmd.as_str());
        let mut k: usize = 0;
        assert(args.deep_view() =~= with_id + parts.deep_view().take(0));
        while k < parts.len()
            invariant
                k <= parts.len(),
                args.deep_view() == with_id + parts.deep_view().take(k as int),
            decreases parts.len() - k,
        {
            let ghost before = args.deep_view();
            args.push(parts[k].clone());
            assert(args.deep_view() =~= before.push(parts[k as int]@));
            assert(parts.deep_view().take(k + 1) =~= parts.deep_view().take(k as int).push(
                parts[k as int]@,
            ));
            assert(with_id + parts.deep_view().take(k + 1) =~= (with_id + parts.deep_view().take(
                k as int,
            )).push(parts[k as int]@));
            k += 1;
        }
        assert(parts.deep_view().take(parts.len() as int) =~= parts.deep_view());
        ToolCall { program: String::from_str("podman"), args, quiet: false }
    }

    /// The requests that stop the container, killing it after `timeout`
    /// seconds, and then remove it whether or not it stopped. That the
    /// container has removed itself by then is no failure.
    pub fn remove_container(&self, container_name: &str, timeout: Option<u64>) -> (request:
        PodmanRemoveRequest)
        ensures
            request.container_name@ == container_name@,
            request.stop_timeout == stop_timeout(timeout),
            request.force,
            request.ignore_missing,
    {
        PodmanRemoveRequest {
            container_name: String::from_str(container_name),
            stop_timeout: convert_stop_timeout(timeout),
            force: true,
            ignore_missing: true,
        }
    }
}

} // verus!
