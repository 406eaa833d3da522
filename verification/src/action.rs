//! What a build asks of the host: changes to the file tree and calls of
//! tools, as plain values that the caller carries out.

use vstd::prelude::*;

verus! {

/// One call of a tool on the host.
#[derive(Debug, PartialEq, Eq)]
pub struct ToolCall {
    /// The tool's name, to be found on the search path.
    pub program: String,
    pub args: Vec<String>,
    /// Whether what the tool prints is thrown away.
    pub quiet: bool,
}

/// A [`ToolCall`] as a value of specifications.
pub ghost struct ToolCallView {
    pub program: Seq<char>,
    pub args: Seq<Seq<char>>,
    pub quiet: bool,
}

impl DeepView for ToolCall {
    type V = ToolCallView;

    open spec fn deep_view(&self) -> ToolCallView {
        ToolCallView { program: self.program@, args: self.args.deep_view(), quiet: self.quiet }
    }
}

/// The permission bits of a staged script: everyone may execute it, and
/// nothing else.
pub const EXECUTE_ONLY: u32 = 0o111;

/// The tool that copies a directory with all below it.
pub open spec fn copy_tool() -> Seq<char> {
    "cp"@
}

/// The call that copies `source` and all below it into the directory
/// `into`, keeping ownership, modes and times.
pub open spec fn preserving_copy(source: Seq<char>, into: Seq<char>) -> ToolCallView {
    ToolCallView { program: copy_tool(), args: seq!["-r"@, "-p"@, source, into], quiet: false }
}

/// Builds the call that copies `source` and all below it into the
/// directory `into`, keeping ownership, modes and times.
pub fn copy_preserving(source: String, into: String) -> (call: ToolCall)
    ensures
        call.deep_view() == preserving_copy(source@, into@),
{
    let mut args: Vec<String> = Vec::new();
    args.push(String::from_str("-r"));
    args.push(String::from_str("-p"));
    args.push(source);
    args.push(into);
    assert(args.deep_view() =~= seq!["-r"@, "-p"@, source@, into@]);
    ToolCall { program: String::from_str("cp"), args, quiet: false }
}

/// One change to the host's file tree.
#[derive(Debug, PartialEq, Eq)]
pub enum FsAction {
    /// Copy the directory `source`, with all below it, into the directory
    /// `target` under its own name. A file that is there already is not
    /// replaced: it fails the copy, as does any part that cannot be
    /// copied.
    CopyTree { source: String, target: String },
    /// Make the directory `path` and every missing directory above it.
    CreateDirAll { path: String },
    /// Copy the file `source` to `target`, which must not exist yet.
    CopyFileNew { source: String, target: String },
    /// Copy the file `source` to `target`, replacing what is there.
    CopyFile { source: String, target: String },
    /// Create the file `path`, which must not exist yet, with `content`.
    WriteNewFile { path: String, content: String },
    /// Create the empty file `path`, which must not exist yet.
    CreateNewFile { path: String },
    /// Run a tool that changes the file tree, and wait for it; it fails
    /// unless it ends with status zero.
    RunTool(ToolCall),
    /// Make the single directory `path`.
    CreateDir { path: String },
    /// Set the permission bits of the file `path` to `mode`.
    SetMode { path: String, mode: u32 },
    /// Delete the file `path` if it is there.
    RemoveFile { path: String },
    /// Delete the directory `path` if it is there and empty.
    RemoveDir { path: String },
    /// Delete the directory `path` and all below it if it is there.
    RemoveTree { path: String },
}

/// An [`FsAction`] as a value of specifications.
pub ghost enum FsActionView {
    CopyTree { source: Seq<char>, target: Seq<char> },
    CreateDirAll { path: Seq<char> },
    CopyFileNew { source: Seq<char>, target: Seq<char> },
    CopyFile { source: Seq<char>, target: Seq<char> },
    WriteNewFile { path: Seq<char>, content: Seq<char> },
    CreateNewFile { path: Seq<char> },
    RunTool(ToolCallView),
    CreateDir { path: Seq<char> },
    SetMode { path: Seq<char>, mode: u32 },
    RemoveFile { path: Seq<char> },
    RemoveDir { path: Seq<char> },
    RemoveTree { path: Seq<char> },
}

impl DeepView for FsAction {
    type V = FsActionView;

    open spec fn deep_view(&self) -> FsActionView {
        match self {
            FsAction::CopyTree { source, target } => FsActionView::CopyTree {
                source: source@,
                target: target@,
            },
            FsAction::CreateDirAll { path } => FsActionView::CreateDirAll { path: path@ },
            FsAction::CopyFileNew { source, target } => FsActionView::CopyFileNew {
                source: source@,
                target: target@,
            },
            FsAction::CopyFile { source, target } => FsActionView::CopyFile {
                source: source@,
                target: target@,
            },
            FsAction::WriteNewFile { path, content } => FsActionView::WriteNewFile {
                path: path@,
                content: content@,
            },
            FsAction::CreateNewFile { path } => FsActionView::CreateNewFile { path: path@ },
            FsAction::RunTool(call) => FsActionView::RunTool(call.deep_view()),
            FsAction::CreateDir { path } => FsActionView::CreateDir { path: path@ },
            FsAction::SetMode { path, mode } => FsActionView::SetMode { path: path@, mode: *mode },
            FsAction::RemoveFile { path } => FsActionView::RemoveFile { path: path@ },
            FsAction::RemoveDir { path } => FsActionView::RemoveDir { path: path@ },
            FsAction::RemoveTree { path } => FsActionView::RemoveTree { path: path@ },
        }
    }
}

impl FsActionView {
    /// Whether the action can replace a file that is already there.
    pub open spec fn may_replace_file(self) -> bool {
        self is CopyFile || self is RunTool
    }
}

/// The mounting of an image file at a directory.
#[derive(Debug, PartialEq, Eq)]
pub struct MountRequest {
    pub fstype: String,
    pub source: String,
    pub target: String,
}

} // verus!
