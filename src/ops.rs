use vstd::prelude::*;

use crate::error::{ErrorKind, FixError};
use crate::paths::{config_file_path, config_path};

verus! {

/// Read and write for the owner, nothing for group and others.
pub const USER_ONLY_OCTLET: u32 = 0o600;

/// Read, write and list for the owner, nothing for group and others.
pub const USER_PLUS_LIST_OCTLET: u32 = 0o700;

/// One filesystem operation, to be carried out by the caller.
#[derive(Debug, PartialEq, Eq)]
pub enum FsOp {
    /// Create the directory and every missing ancestor; nothing if it exists.
    CreateDirAll { path: String },
    /// Read the path's metadata, then set its permission bits to exactly `mode`.
    SetMode { path: String, mode: u32 },
    /// Open the file for appending, creating it empty with `mode` if absent.
    OpenForAppend { path: String, mode: u32 },
}

/// An operation with its path as characters.
pub ghost enum OpModel {
    CreateDirAll { path: Seq<char> },
    SetMode { path: Seq<char>, mode: u32 },
    OpenForAppend { path: Seq<char>, mode: u32 },
}

impl View for FsOp {
    type V = OpModel;

    open spec fn view(&self) -> OpModel {
        match self {
            FsOp::CreateDirAll { path } => OpModel::CreateDirAll { path: path@ },
            FsOp::SetMode { path, mode } => OpModel::SetMode { path: path@, mode: *mode },
            FsOp::OpenForAppend { path, mode } => OpModel::OpenForAppend { path: path@, mode: *mode },
        }
    }
}

/// A sequence of operations as models.
pub open spec fn ops_view(ops: Seq<FsOp>) -> Seq<OpModel> {
    ops.map_values(|o: FsOp| o@)
}

/// The path an operation works on.
pub open spec fn op_path(op: OpModel) -> Seq<char> {
    match op {
        OpModel::CreateDirAll { path } => path,
        OpModel::SetMode { path, .. } => path,
        OpModel::OpenForAppend { path, .. } => path,
    }
}

/// The part of an operation that failed.
#[derive(Clone, Copy, Debug, PartialEq, Eq, Structural)]
pub enum IoStage {
    /// Reading the path's current metadata (only `SetMode` does so).
    ReadMetadata,
    /// The operation proper.
    Apply,
}

/// The kind of error that a failure of `op` at `stage` is reported as.
pub open spec fn failure_kind(op: OpModel, stage: IoStage) -> ErrorKind {
    match op {
        OpModel::CreateDirAll { .. } => ErrorKind::CreateDir,
        OpModel::OpenForAppend { .. } => ErrorKind::OpenFile,
        OpModel::SetMode { .. } => if stage == IoStage::ReadMetadata {
            ErrorKind::ReadMetadata
        } else {
            ErrorKind::WriteMetadata
        },
    }
}

/// The operations that fix the permissions of `dir` and of the file in it.
pub open spec fn fix_plan(dir: Seq<char>) -> Seq<OpModel> {
    seq![
        OpModel::CreateDirAll { path: dir },
        OpModel::SetMode { path: dir, mode: USER_PLUS_LIST_OCTLET },
        OpModel::OpenForAppend { path: config_path(dir), mode: USER_ONLY_OCTLET },
        OpModel::SetMode { path: config_path(dir), mode: USER_ONLY_OCTLET },
    ]
}

impl FsOp {
    /// The path this operation works on.
    pub fn path(&self) -> (r: &str)
        ensures
            r@ == op_path(self@),
    {
        match self {
            FsOp::CreateDirAll { path } => path.as_str(),
            FsOp::SetMode { path, .. } => path.as_str(),
            FsOp::OpenForAppend { path, .. } => path.as_str(),
        }
    }

    /// The error that reports a failure of this operation at `stage`, with
    /// the system's description `detail`.
    pub fn failure(&self, stage: IoStage, detail: String) -> (e: FixError)
        ensures
            e.kind == failure_kind(self@, stage),
            e.path@ == op_path(self@),
            e.detail@ == detail@,
    {
        let kind = match self {
            FsOp::CreateDirAll { .. } => ErrorKind::CreateDir,
            FsOp::OpenForAppend { .. } => ErrorKind::OpenFile,
            FsOp::SetMode { .. } => match stage {
                IoStage::ReadMetadata => ErrorKind::ReadMetadata,
                IoStage::Apply => ErrorKind::WriteMetadata,
            },
        };
        FixError { kind, path: String::from_str(self.path()), detail }
    }
}

/// Sets the permission bits of the existing directory `dir` to `permission`.
pub fn set_directory_permission(dir: &str, permission: u32) -> (r: Vec<FsOp>)
    ensures
        ops_view(r@) == seq![OpModel::SetMode { path: dir@, mode: permission }],
{
    let r = vec![FsOp::SetMode { path: String::from_str(dir), mode: permission }];
    assert(ops_view(r@) =~= seq![OpModel::SetMode { path: dir@, mode: permission }]);
    r
}

/// Makes sure `config_file` exists, keeping any content, and sets its
/// permission bits to `permission`, both when creating it and afterwards.
pub fn set_file_permission(config_file: &str, permission: u32) -> (r: Vec<FsOp>)
    ensures
        ops_view(r@) == seq![
            OpModel::OpenForAppend { path: config_file@, mode: permission },
            OpModel::SetMode { path: config_file@, mode: permission },
        ],
{
    let r = vec![
        FsOp::OpenForAppend { path: String::from_str(config_file), mode: permission },
        FsOp::SetMode { path: String::from_str(config_file), mode: permission },
    ];
    assert(ops_view(r@) =~= seq![
        OpModel::OpenForAppend { path: config_file@, mode: permission },
        OpModel::SetMode { path: config_file@, mode: permission },
    ]);
    r
}

/// The operations, in order, that create `gnupg_dir` if needed, restrict it
/// to its owner and restrict `gpg-agent.conf` inside it to its owner.
pub fn fix_gnupg_permissions(gnupg_dir: &str) -> (r: Vec<FsOp>)
    ensures
        ops_view(r@) == fix_plan(gnupg_dir@),
{
    let config_file = config_file_path(gnupg_dir);
    let mut r = vec![FsOp::CreateDirAll { path: String::from_str(gnupg_dir) }];
    let mut dir_ops = set_directory_permission(gnupg_dir, USER_PLUS_LIST_OCTLET);
    let mut file_ops = set_file_permission(config_file.as_str(), USER_ONLY_OCTLET);
    let ghost first = r@;
    let ghost second = dir_ops@;
    let ghost third = file_ops@;
    r.append(&mut dir_ops);
    r.append(&mut file_ops);
    assert(r@ == first + second + third);
    assert(ops_view(r@) =~= fix_plan(gnupg_dir@)) by {
        assert(ops_view(second) == seq![OpModel::SetMode { path: gnupg_dir@, mode: USER_PLUS_LIST_OCTLET }]);
        assert(second.len() == ops_view(second).len());
        assert(ops_view(third) == seq![
            OpModel::OpenForAppend { path: config_file@, mode: USER_ONLY_OCTLET },
            OpModel::SetMode { path: config_file@, mode: USER_ONLY_OCTLET },
        ]);
        assert(third.len() == ops_view(third).len());
        assert(ops_view(second)[0] == second[0]@);
        assert(ops_view(third)[0] == third[0]@);
        assert(ops_view(third)[1] == third[1]@);
    }
    r
}

} // verus!
