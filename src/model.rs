use vstd::prelude::*;

use crate::ops::{fix_plan, OpModel, USER_ONLY_OCTLET, USER_PLUS_LIST_OCTLET};
use crate::paths::config_path;

verus! {

/// What the filesystem holds at one path: a directory or a regular file,
/// its permission bits, and (for a file) its bytes.
pub ghost struct Node {
    pub is_dir: bool,
    pub mode: u32,
    pub content: Seq<u8>,
}

/// The filesystem as a map from paths to what stands there.
pub type FsModel = Map<Seq<char>, Node>;

/// `t` is a state that a successful `op` can leave behind, starting from `s`.
///
/// Creating a directory leaves an existing directory alone and otherwise
/// adds it (and perhaps ancestors) without touching anything present.
/// Opening a file for appending leaves an existing file alone and otherwise
/// creates it empty, with the requested mode less what the umask removes.
/// Setting a mode changes the permission bits of an existing path only.
pub open spec fn op_post(op: OpModel, s: FsModel, t: FsModel) -> bool {
    match op {
        OpModel::CreateDirAll { path } => {
            &&& s.contains_key(path) ==> s[path].is_dir && t == s
            &&& t.contains_key(path) && t[path].is_dir
            &&& forall|q: Seq<char>| #[trigger]
                s.contains_key(q) ==> t.contains_key(q) && t[q] == s[q]
        },
        OpModel::OpenForAppend { path, mode } => if s.contains_key(path) {
            !s[path].is_dir && t == s
        } else {
            exists|umask: u32|
                t == s.insert(
                    path,
                    Node { is_dir: false, mode: #[trigger] (mode & !umask), content: Seq::empty() },
                )
        },
        OpModel::SetMode { path, mode } => {
            &&& s.contains_key(path)
            &&& t == s.insert(path, Node { mode: mode, ..s[path] })
        },
    }
}

/// `states` is the sequence of states that a run of `ops` went through, each
/// operation having succeeded.
pub open spec fn run_trace(ops: Seq<OpModel>, states: Seq<FsModel>) -> bool {
    &&& states.len() == ops.len() + 1
    &&& forall|i: int| 0 <= i < ops.len() ==> op_post(#[trigger] ops[i], states[i], states[i + 1])
}

/// The state that a run ends in.
pub open spec fn final_state(states: Seq<FsModel>) -> FsModel {
    states[states.len() - 1]
}

proof fn lemma_paths_differ(dir: Seq<char>)
    ensures
        config_path(dir) != dir,
{
    reveal_strlit("gpg-agent.conf");
    assert(config_path(dir).len() > dir.len());
}

proof fn lemma_steps(dir: Seq<char>, states: Seq<FsModel>)
    requires
        run_trace(fix_plan(dir), states),
    ensures
        op_post(fix_plan(dir)[0], states[0], states[1]),
        op_post(fix_plan(dir)[1], states[1], states[2]),
        op_post(fix_plan(dir)[2], states[2], states[3]),
        op_post(fix_plan(dir)[3], states[3], states[4]),
        final_state(states) == states[4],
        config_path(dir) != dir,
{
    lemma_paths_differ(dir);
    let ops = fix_plan(dir);
    assert(op_post(ops[0], states[0], states[1]));
    assert(op_post(ops[1], states[1], states[2]));
    assert(op_post(ops[2], states[2], states[3]));
    assert(op_post(ops[3], states[3], states[4]));
}

/// A run can succeed: from an empty filesystem, the operations can each
/// succeed in turn.
pub proof fn lemma_run_possible(dir: Seq<char>)
    ensures
        exists|states: Seq<FsModel>| #[trigger] run_trace(fix_plan(dir), states),
{
    lemma_paths_differ(dir);
    let f = config_path(dir);
    let umask: u32 = 0o022;
    let s0 = Map::<Seq<char>, Node>::empty();
    let s1 = s0.insert(dir, Node { is_dir: true, mode: 0o755, content: Seq::empty() });
    let s2 = s1.insert(dir, Node { mode: USER_PLUS_LIST_OCTLET, ..s1[dir] });
    let s3 = s2.insert(f, Node { is_dir: false, mode: USER_ONLY_OCTLET & !umask, content: Seq::empty() });
    let s4 = s3.insert(f, Node { mode: USER_ONLY_OCTLET, ..s3[f] });
    let states = seq![s0, s1, s2, s3, s4];
    let ops = fix_plan(dir);
    assert(op_post(ops[0], states[0], states[1]));
    assert(op_post(ops[1], states[1], states[2]));
    assert(op_post(ops[2], states[2], states[3]));
    assert(op_post(ops[3], states[3], states[4]));
    assert(run_trace(ops, states));
}

/// After a successful run, whatever the directory's earlier mode, it is a
/// directory with exactly owner read, write and list permission.
pub proof fn lemma_directory_mode(dir: Seq<char>, states: Seq<FsModel>)
    requires
        run_trace(fix_plan(dir), states),
    ensures
        final_state(states).contains_key(dir),
        final_state(states)[dir].is_dir,
        final_state(states)[dir].mode == USER_PLUS_LIST_OCTLET,
{
    lemma_steps(dir, states);
}

/// After a successful run, whether or not the file existed and whatever its
/// earlier mode, it is a regular file with exactly owner read and write
/// permission.
pub proof fn lemma_file_mode(dir: Seq<char>, states: Seq<FsModel>)
    requires
        run_trace(fix_plan(dir), states),
    ensures
        final_state(states).contains_key(config_path(dir)),
        !final_state(states)[config_path(dir)].is_dir,
        final_state(states)[config_path(dir)].mode == USER_ONLY_OCTLET,
{
    lemma_steps(dir, states);
}

/// A run leaves the content of an existing configuration file unchanged.
pub proof fn lemma_content_preserved(dir: Seq<char>, states: Seq<FsModel>)
    requires
        run_trace(fix_plan(dir), states),
        states[0].contains_key(config_path(dir)),
    ensures
        final_state(states)[config_path(dir)].content == states[0][config_path(dir)].content,
{
    lemma_steps(dir, states);
}

/// Running twice ends in the same state as running once: a second run,
/// started where a successful first one ended, changes nothing.
pub proof fn lemma_idempotent(dir: Seq<char>, first: Seq<FsModel>, second: Seq<FsModel>)
    requires
        run_trace(fix_plan(dir), first),
        run_trace(fix_plan(dir), second),
        second[0] == final_state(first),
    ensures
        final_state(second) == final_state(first),
{
    lemma_steps(dir, first);
    lemma_steps(dir, second);
    let f = config_path(dir);
    let s = final_state(first);
    assert(s[dir] == Node { mode: USER_PLUS_LIST_OCTLET, ..s[dir] });
    assert(second[2] =~= s);
    assert(second[3] == s);
    assert(s[f] == Node { mode: USER_ONLY_OCTLET, ..s[f] });
    assert(second[4] =~= s);
}

} // verus!
