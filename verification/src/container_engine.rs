//! What a container engine is asked to do, whichever backend answers.

use crate::error::{tagged, BuildError, ErrorKind};
use crate::pairs::{merge_pairs, merged};
use crate::path::{adjoin, adjoin_str};
use crate::schema::{BuildScriptContainer, BuildScriptContainerImage};
use crate::text::{colon, decimal, decimal_string, joined};
use vstd::prelude::*;

pub mod docker;
pub mod podman;

verus! {

/// Where a piece of a command's output came from.
#[derive(Clone, Copy, Debug, PartialEq, Eq, Structural)]
pub enum StreamType {
    Stdout,
    Stderr,
    /// Input that the engine echoed back.
    Stdin,
    Unknown,
}

/// One command to run in a running container.
#[derive(Debug, PartialEq, Eq)]
pub struct ExecParams {
    pub container_name: String,
    pub container_id: String,
    pub cmd: String,
    pub uid: Option<u32>,
    pub gid: Option<u32>,
    pub working_dir: Option<String>,
    pub privileged: Option<bool>,
    pub env: Vec<(String, String)>,
}

/// An [`ExecParams`] as a value of specifications.
pub ghost struct ExecParamsView {
    pub container_name: Seq<char>,
    pub container_id: Seq<char>,
    pub cmd: Seq<char>,
    pub uid: Option<u32>,
    pub gid: Option<u32>,
    pub working_dir: Option<Seq<char>>,
    pub privileged: Option<bool>,
    pub env: Seq<(Seq<char>, Seq<char>)>,
}

impl DeepView for ExecParams {
    type V = ExecParamsView;

    open spec fn deep_view(&self) -> ExecParamsView {
        ExecParamsView {
            container_name: self.container_name@,
            container_id: self.container_id@,
            cmd: self.cmd@,
            uid: self.uid,
            gid: self.gid,
            working_dir: self.working_dir.deep_view(),
            privileged: self.privileged,
            env: self.env.deep_view(),
        }
    }
}

/// The user that a command runs as, the way engines take it: the user
/// id, followed by a colon and the group id where there is one. Without
/// a user id there is nothing to say, whatever the group id.
pub open spec fn uid_gid_text(uid: Option<u32>, gid: Option<u32>) -> Option<Seq<char>> {
    match uid {
        Some(u) => match gid {
            Some(g) => Some(joined(decimal(u as nat), ':', decimal(g as nat))),
            None => Some(decimal(u as nat)),
        },
        None => None,
    }
}

/// Writes the user that a command runs as, the way engines take it.
pub fn format_uid_gid_string(uid: Option<u32>, gid: Option<u32>) -> (user: Option<String>)
    ensures
        user.deep_view() == uid_gid_text(uid, gid),
{
    match uid {
        Some(u) => match gid {
            Some(g) => {
                let mut text = decimal_string(u as u64);
                proof {
                    reveal_strlit(":");
                }
                text.append(":");
                let group = decimal_string(g as u64);
                text.append(group.as_str());
                assert(text@ =~= joined(decimal(u as nat), ':', decimal(g as nat)));
                Some(text)
            },
            None => Some(decimal_string(u as u64)),
        },
        None => None,
    }
}

/// The time an engine waits before it kills a container, as the signed
/// number that engines take: a number of seconds too large for it wraps
/// around.
pub open spec fn stop_timeout(timeout: Option<u64>) -> Option<i64> {
    match timeout {
        Some(t) => Some(
            if t <= i64::MAX as u64 {
                t as i64
            } else {
                (t - 0x1_0000_0000_0000_0000) as i64
            },
        ),
        None => None,
    }
}

/// The time an engine waits before it kills a container, as the signed
/// number that engines take.
pub fn convert_stop_timeout(timeout: Option<u64>) -> (seconds: Option<i64>)
    ensures
        seconds == stop_timeout(timeout),
{
    match timeout {
        Some(t) => {
            let s: i64 = #[verifier::truncate]
            (t as i64);
            assert(s == if t <= 0x7fff_ffff_ffff_ffffu64 {
                t as int
            } else {
                t - 0x1_0000_0000_0000_0000
            }) by (bit_vector)
                requires
                    s == #[verifier::truncate]
                    (t as i64),
            ;
            Some(s)
        },
        None => None,
    }
}

/// The bind mounts of a script as the host has them: each host path is
/// a path inside the package and is taken below the package's root.
pub open spec fn rooted_volumes(volumes: Seq<(Seq<char>, Seq<char>)>, package_root: Seq<char>) -> Seq<
    (Seq<char>, Seq<char>),
> {
    Seq::new(volumes.len(), |i: int| (adjoin(package_root, volumes[i].0), volumes[i].1))
}

/// All bind mounts of a container: those that the run adds, overlaid by
/// the script's own, taken below the package's root. Where both mount
/// one host path, the script's mount counts.
pub open spec fn bind_mounts(
    container: BuildScriptContainer,
    extra: Seq<(Seq<char>, Seq<char>)>,
    package_root: Seq<char>,
) -> Seq<(Seq<char>, Seq<char>)> {
    merged(extra, rooted_volumes(container.volumes.deep_view(), package_root))
}

/// Collects all bind mounts of a container.
pub fn collect_bind_mounts(
    container: &BuildScriptContainer,
    extra_volumes: &Vec<(String, String)>,
    package_root: &str,
) -> (mounts: Vec<(String, String)>)
    ensures
        mounts.deep_view() == bind_mounts(*container, extra_volumes.deep_view(), package_root@),
        crate::schema::unique_keys(mounts.deep_view()),
{
    let mut rooted: Vec<(String, String)> = Vec::new();
    let mut i: usize = 0;
    while i < container.volumes.len()
        invariant
            i <= container.volumes.len(),
            rooted.len() == i,
            forall|k: int|
                0 <= k < i ==> rooted[k].deep_view() == (
                    adjoin(package_root@, container.volumes[k].0@),
                    container.volumes[k].1@,
                ),
        decreases container.volumes.len() - i,
    {
        rooted.push(
            (
                adjoin_str(package_root, container.volumes[i].0.as_str()),
                container.volumes[i].1.clone(),
            ),
        );
        i += 1;
    }
    assert(rooted.deep_view() =~= rooted_volumes(container.volumes.deep_view(), package_root@));
    merge_pairs(extra_volumes, &rooted)
}

/// A source of the output of one command.
pub trait ExecReader {
    /// The next piece of output and where it came from, or nothing once
    /// the output has ended.
    fn read(&mut self) -> Option<(String, StreamType)>;
}

/// A backend that runs containers. Each request either succeeds or
/// reports the text of what went wrong.
pub trait ContainerEngine {
    type Reader: ExecReader;

    /// Asks the engine whether it is there.
    fn ping(&self) -> Result<(), String>;

    /// Fetches the image, which may be present already.
    fn pull_image(&self, image: &BuildScriptContainerImage) -> Result<(), String>;

    /// Creates a container under `container_name` with the bind mounts
    /// of `container`, whose host paths are taken below `package_root`,
    /// and with `extra_volumes`; hands back its id.
    fn create_container(
        &self,
        container: &BuildScriptContainer,
        extra_volumes: &Vec<(String, String)>,
        package_root: &str,
        container_name: &str,
    ) -> Result<String, String>;

    /// Starts a container that was created.
    fn start_container(&self, container_name: &str) -> Result<(), String>;

    /// Starts a command in a running container, without input, and hands
    /// back the source of what it prints.
    fn exec_in_container(&self, exec_params: &ExecParams) -> Result<Self::Reader, String>;

    /// Writes the container's whole filesystem to `tar_path` as a tar archive.
    fn export_container(&self, container_name: &str, tar_path: &str) -> Result<(), String>;

    /// Stops the container, killing it after `timeout` seconds, and
    /// removes it.
    fn remove_container(&self, container_name: &str, timeout: Option<u64>) -> Result<(), String>;
}

/// Whether a reply is a success or a failure of kind `kind`.
pub open spec fn fails_only_as<T>(reply: Result<T, BuildError>, kind: ErrorKind) -> bool {
    reply matches Err(e) ==> e.kind == kind
}

/// The answer of an engine that a reply hands on: what a success
/// brought, or the text of a failure.
pub open spec fn answer_in<T>(reply: Result<T, BuildError>) -> Result<T, String> {
    match reply {
        Ok(value) => Ok(value),
        Err(e) => Err(e.detail),
    }
}

/// Asks the engine whether it is there; an engine that does not answer
/// is unreachable. The reply is the engine's own answer to this
/// request: its success, or its failure under the kind of an engine
/// that cannot be reached.
pub fn engine_ping<E: ContainerEngine>(engine: &E) -> (reply: Result<(), BuildError>)
    ensures
        fails_only_as(reply, ErrorKind::EngineUnreachable),
        call_ensures(E::ping, (engine,), answer_in(reply)),
{
    tagged(engine.ping(), ErrorKind::EngineUnreachable)
}

/// Has the engine fetch `image`. The reply is the engine's own answer
/// to the request for this image.
pub fn engine_pull_image<E: ContainerEngine>(engine: &E, image: &BuildScriptContainerImage) -> (reply:
    Result<(), BuildError>)
    ensures
        fails_only_as(reply, ErrorKind::ImagePullFailed),
        call_ensures(E::pull_image, (engine, image), answer_in(reply)),
{
    tagged(engine.pull_image(image), ErrorKind::ImagePullFailed)
}

/// Has the engine create `container` and hands back the container's id.
/// The reply is the engine's own answer to the request for this
/// container, these bind mounts, this package root and this name.
pub fn engine_create_container<E: ContainerEngine>(
    engine: &E,
    container: &BuildScriptContainer,
    extra_volumes: &Vec<(String, String)>,
    package_root: &str,
    container_name: &str,
) -> (reply: Result<String, BuildError>)
    ensures
        fails_only_as(reply, ErrorKind::ContainerCreateFailed),
        call_ensures(
            E::create_container,
            (engine, container, extra_volumes, package_root, container_name),
            answer_in(reply),
        ),
{
    tagged(
        engine.create_container(container, extra_volumes, package_root, container_name),
        ErrorKind::ContainerCreateFailed,
    )
}

/// Has the engine start a container. The reply is the engine's own
/// answer to the request for the container of this name.
pub fn engine_start_container<E: ContainerEngine>(engine: &E, container_name: &str) -> (reply:
    Result<(), BuildError>)
    ensures
        fails_only_as(reply, ErrorKind::ContainerStartFailed),
        call_ensures(E::start_container, (engine, container_name), answer_in(reply)),
{
    tagged(engine.start_container(container_name), ErrorKind::ContainerStartFailed)
}

/// Has the engine start a command and hands back the source of its
/// output. The reply is the engine's own answer to the request for this
/// command.
pub fn engine_exec<E: ContainerEngine>(engine: &E, exec_params: &ExecParams) -> (reply: Result<
    E::Reader,
    BuildError,
>)
    ensures
        fails_only_as(reply, ErrorKind::ExecStartFailed),
        call_ensures(E::exec_in_container, (engine, exec_params), answer_in(reply)),
{
    tagged(engine.exec_in_container(exec_params), ErrorKind::ExecStartFailed)
}

/// Has the engine write a container's filesystem to an archive. The
/// reply is the engine's own answer to the request for this container
/// and this archive.
pub fn engine_export_container<E: ContainerEngine>(engine: &E, container_name: &str, tar_path: &str) -> (reply:
    Result<(), BuildError>)
    ensures
        fails_only_as(reply, ErrorKind::ExportFailed),
        call_ensures(E::export_container, (engine, container_name, tar_path), answer_in(reply)),
{
    tagged(engine.export_container(container_name, tar_path), ErrorKind::ExportFailed)
}

/// Has the engine stop and remove a container. The reply is the
/// engine's own answer to the request for this container and this time
/// to wait.
pub fn engine_remove_container<E: ContainerEngine>(
    engine: &E,
    container_name: &str,
    timeout: Option<u64>,
) -> (reply: Result<(), BuildError>)
    ensures
        fails_only_as(reply, ErrorKind::ContainerRemoveFailed),
        call_ensures(E::remove_container, (engine, container_name, timeout), answer_in(reply)),
{
    tagged(engine.remove_container(container_name, timeout), ErrorKind::ContainerRemoveFailed)
}

/// What a reader hands on for a line that the engine's client printed:
/// the line as standard output, since the client does not say where a
/// line came from; nothing once the client's output has ended.
pub fn line_output(line: Option<String>) -> (piece: Option<(String, StreamType)>)
    ensures
        match (line, piece) {
            (Some(text), Some((same, origin))) => same == text && origin == StreamType::Stdout,
            (None, None) => true,
            _ => false,
        },
{
    match line {
        Some(text) => Some((text, StreamType::Stdout)),
        None => None,
    }
}

/// Whether the way the engine's client ended is to be logged as a
/// failure: it ended with a status other than zero. What it printed
/// before counts as output all the same.
pub fn client_failed(exit_status: Option<i32>) -> (failed: bool)
    ensures
        failed == (exit_status != Some(0i32)),
{
    match exit_status {
        Some(code) => code != 0,
        None => true,
    }
}

} // verus!
