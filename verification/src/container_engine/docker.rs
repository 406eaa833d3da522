//! Requests as the Docker daemon takes them.

use crate::container_engine::{
    bind_mounts, collect_bind_mounts, convert_stop_timeout, format_uid_gid_string, stop_timeout, uid_gid_text, ExecParams,
};
use crate::error::ConfigError;
use crate::schema::{BuildScriptContainer, BuildScriptContainerImage};
use crate::text::{
    colon, contains, contains_text, copy_optional, copy_optional_texts, equals_sign, format_pairs,
    joined, pair_texts, split_whitespace, starts_with, words,
};
use vstd::prelude::*;

verus! {

/// The version of the daemon's interface that requests are written for.
pub const API_MAJOR_VERSION: usize = 1;

/// The version of the daemon's interface that requests are written for.
pub const API_MINOR_VERSION: usize = 46;

/// The seconds after which a request to the daemon is given up.
pub const REQUEST_TIMEOUT_SECONDS: u64 = 5;

/// How the daemon is reached.
#[derive(Debug, PartialEq, Eq)]
pub enum DockerEndpoint {
    /// Over HTTP at this address.
    Http(String),
    /// Through the local socket with this address.
    Local(String),
    /// The way this platform reaches it by default.
    Defaults,
}

/// The Docker backend: where its daemon is.
#[derive(Debug, PartialEq, Eq)]
pub struct DockerContainerEngine {
    pub endpoint: DockerEndpoint,
}

/// Whether an address is one of a local socket: a path from the root, or
/// such a path behind `unix://`.
pub open spec fn is_local_address(uri: Seq<char>) -> bool {
    "unix://"@.is_prefix_of(uri) || "/"@.is_prefix_of(uri)
}

/// Whether an address is one that is reached over HTTP.
pub open spec fn is_http_address(uri: Seq<char>) -> bool {
    "http://"@.is_prefix_of(uri)
}

/// Fetching an image from its registry.
#[derive(Debug, PartialEq, Eq)]
pub struct DockerPullRequest {
    pub from_image: String,
    pub tag: String,
}

/// Creating a container.
#[derive(Debug, PartialEq, Eq)]
pub struct DockerCreateRequest {
    pub name: String,
    pub image: String,
    /// Whether the container gets a terminal.
    pub tty: bool,
    pub hostname: Option<String>,
    /// Each variable as `NAME=value`.
    pub env: Vec<String>,
    /// Each bind mount as `host path:container path`.
    pub binds: Vec<String>,
    pub runtime: Option<String>,
    pub cap_add: Option<Vec<String>>,
    pub cap_drop: Option<Vec<String>>,
    pub privileged: bool,
}

/// Running a command in a container.
#[derive(Debug, PartialEq, Eq)]
pub struct DockerExecRequest {
    pub container_name: String,
    pub attach_stdin: bool,
    pub attach_stdout: bool,
    pub attach_stderr: bool,
    pub tty: bool,
    /// Each variable as `NAME=value`.
    pub env: Vec<String>,
    /// The command and its arguments.
    pub cmd: Vec<String>,
    pub privileged: Option<bool>,
    pub user: Option<String>,
    pub working_dir: Option<String>,
}

/// Stopping a container and removing it.
#[derive(Debug, PartialEq, Eq)]
pub struct DockerRemoveRequest {
    pub container_name: String,
    /// The seconds to wait before the container is killed.
    pub stop_timeout: Option<i64>,
    /// Whether the container is removed even if it still runs.
    pub force: bool,
}

impl DockerCreateRequest {
    /// Whether this is the request that creates `container` under `name`
    /// with the bind mounts `extra` added: the container has a terminal,
    /// is privileged where the script asks for a rootful one, the host
    /// paths of the script's bind mounts are taken below `package_root`,
    /// and where `extra` and the script both mount a host path the
    /// script's mount counts.
    pub open spec fn creates(
        &self,
        container: BuildScriptContainer,
        extra: Seq<(Seq<char>, Seq<char>)>,
        package_root: Seq<char>,
        name: Seq<char>,
    ) -> bool {
        &&& self.name@ == name
        &&& self.image@ == joined(container.image.name@, ':', container.image.tag@)
        &&& self.tty
        &&& self.hostname.deep_view() == container.hostname.deep_view()
        &&& self.env.deep_view() == pair_texts(container.env.deep_view(), equals_sign())
        &&& self.binds.deep_view() == pair_texts(bind_mounts(container, extra, package_root), colon())
        &&& self.runtime.deep_view() == container.oci_runtime.deep_view()
        &&& self.cap_add.deep_view() == container.cap_add.deep_view()
        &&& self.cap_drop.deep_view() == container.cap_drop.deep_view()
        &&& self.privileged == container.rootful
    }
}

impl DockerExecRequest {
    /// Whether this is the request that runs `params`: output and errors
    /// are attached and input is not, the command line is split at white
    /// space, and the user is written as the daemon takes it.
    pub open spec fn runs(&self, params: ExecParams) -> bool {
        &&& self.container_name@ == params.container_name@
        &&& !self.attach_stdin
        &&& self.attach_stdout
        &&& self.attach_stderr
        &&& self.tty
        &&& self.env.deep_view() == pair_texts(params.env.deep_view(), equals_sign())
        &&& self.cmd.deep_view() == words(params.cmd@)
        &&& self.privileged == params.privileged
        &&& self.user.deep_view() == uid_gid_text(params.uid, params.gid)
        &&& self.working_dir.deep_view() == params.working_dir.deep_view()
    }
}

impl DockerContainerEngine {
    /// Decides how the daemon is reached. Without an address it is the
    /// platform's default; an address must be one of a local socket or
    /// one for HTTP.
    pub fn new(connection_uri: Option<String>) -> (engine: Result<DockerContainerEngine, ConfigError>)
        ensures
            match connection_uri {
                None => engine matches Ok(e) && e.endpoint is Defaults,
                Some(uri) => if is_http_address(uri@) {
                    engine matches Ok(e) && e.endpoint matches DockerEndpoint::Http(a) && a@ == uri@
                } else if is_local_address(uri@) {
                    engine matches Ok(e) && e.endpoint matches DockerEndpoint::Local(a) && a@ == uri@
                } else {
                    engine == Err::<DockerContainerEngine, ConfigError>(ConfigError::UnsupportedConnection)
                },
            },
    {
        match connection_uri {
            None => Ok(DockerContainerEngine { endpoint: DockerEndpoint::Defaults }),
            Some(uri) => {
                if starts_with(uri.as_str(), "http://") {
                    Ok(DockerContainerEngine { endpoint: DockerEndpoint::Http(uri) })
                } else if starts_with(uri.as_str(), "unix://") || starts_with(uri.as_str(), "/") {
                    Ok(DockerContainerEngine { endpoint: DockerEndpoint::Local(uri) })
                } else {
                    Err(ConfigError::UnsupportedConnection)
                }
            },
        }
    }

    /// Whether the daemon's answer to a ping says that it is there: the
    /// answer holds `OK`.
    pub fn ping(&self, response: &str) -> (reachable: bool)
        ensures
            reachable == contains_text(response@, "OK"@),
    {
        contains(response, "OK")
    }

    /// The request that fetches `image`.
    pub fn pull_image(&self, image: &BuildScriptContainerImage) -> (request: DockerPullRequest)
        ensures
            request.from_image@ == joined(image.name@, ':', image.tag@),
            request.tag@ == image.tag@,
    {
        DockerPullRequest { from_image: image.full_name(), tag: image.tag.clone() }
    }

    /// The request that creates `container`, found in the package at
    /// `package_root`, under `container_name` with the bind mounts
    /// `extra_volumes` added.
    pub fn start_container(
        &self,
        container: &BuildScriptContainer,
        extra_volumes: &Vec<(String, String)>,
        package_root: &str,
        container_name: &str,
    ) -> (request: DockerCreateRequest)
        ensures
            request.creates(*container, extra_volumes.deep_view(), package_root@, container_name@),
    {
        proof {
            reveal_strlit("=");
            reveal_strlit(":");
            assert("="@ =~= equals_sign());
            assert(":"@ =~= colon());
        }
        let volumes = collect_bind_mounts(container, extra_volumes, package_root);
        DockerCreateRequest {
            name: String::from_str(container_name),
            image: container.image.full_name(),
            tty: true,
            hostname: copy_optional(&container.hostname),
            env: format_pairs(&container.env, "="),
            binds: format_pairs(&volumes, ":"),
            runtime: copy_optional(&container.oci_runtime),
            cap_add: copy_optional_texts(&container.cap_add),
            cap_drop: copy_optional_texts(&container.cap_drop),
            privileged: container.rootful,
        }
    }

    /// The request that runs `exec_params`.
    pub fn exec_in_container(&self, exec_params: &ExecParams) -> (request: DockerExecRequest)
        ensures
            request.runs(*exec_params),
    {
        proof {
            reveal_strlit("=");
            assert("="@ =~= equals_sign());
        }
        DockerExecRequest {
            container_name: exec_params.container_name.clone(),
            attach_stdin: false,
            attach_stdout: true,
            attach_stderr: true,
            tty: true,
            env: format_pairs(&exec_params.env, "="),
            cmd: split_whitespace(exec_params.cmd.as_str()),
            privileged: exec_params.privileged,
            user: format_uid_gid_string(exec_params.uid, exec_params.gid),
            working_dir: copy_optional(&exec_params.working_dir),
        }
    }

    /// The request that stops the container, killing it after `timeout`
    /// seconds, and removes it whether or not it stopped.
    pub fn remove_container(&self, container_name: &str, timeout: Option<u64>) -> (request:
        DockerRemoveRequest)
        ensures
            request.container_name@ == container_name@,
            request.stop_timeout == stop_timeout(timeout),
            request.force,
    {
        DockerRemoveRequest {
            container_name: String::from_str(container_name),
            stop_timeout: convert_stop_timeout(timeout),
            force: true,
        }
    }
}

} // verus!
