//! Properties that hold across operations, stated over the same predicates
//! that the operations' own contracts use.
use vstd::prelude::*;
use crate::fileobject::FileObject;
use crate::program::Program;
use crate::render::render_result;
use crate::seqs::{differs_from, lemma_filter_all, with_index, without_index};
use crate::types::{is_fd_kind, is_non_dir_kind, FileType, VariableType};

verus! {

/// Allocation hands out indices in order: from a program with no variables,
/// the `k`-th of a run of allocations returns `k`.
pub proof fn lemma_indices_in_order(
    states: Seq<Program>,
    types: Seq<VariableType>,
    kinds: Seq<FileType>,
    results: Seq<i64>,
)
    requires
        states.len() == results.len() + 1,
        types.len() == results.len(),
        kinds.len() == results.len(),
        states[0].variables@.len() == 0,
        forall|k: int|
            0 <= k < results.len() ==> #[trigger] states[k + 1].allocated(states[k], types[k], kinds[k], results[k]),
    ensures
        forall|k: int| 0 <= k < results.len() ==> results[k] == k,
{
    assert forall|k: int| 0 <= k < results.len() implies results[k] == k by {
        lemma_allocated_count(states, types, kinds, results, k);
        assert(states[k + 1].allocated(states[k], types[k], kinds[k], results[k]));
    }
}

proof fn lemma_allocated_count(
    states: Seq<Program>,
    types: Seq<VariableType>,
    kinds: Seq<FileType>,
    results: Seq<i64>,
    k: int,
)
    requires
        states.len() == results.len() + 1,
        types.len() == results.len(),
        kinds.len() == results.len(),
        states[0].variables@.len() == 0,
        forall|j: int|
            0 <= j < results.len() ==> #[trigger] states[j + 1].allocated(states[j], types[j], kinds[j], results[j]),
        0 <= k <= results.len(),
    ensures
        states[k].variables@.len() == k,
    decreases k,
{
    if k > 0 {
        lemma_allocated_count(states, types, kinds, results, k - 1);
        assert(states[(k - 1) + 1].allocated(states[k - 1], types[k - 1], kinds[k - 1], results[k - 1]));
    }
}

/// After an allocation of a descriptor kind, the new index is in
/// `active_fds` and in exactly one of the file and directory sets, the
/// directory set for a directory; after one of any other kind it is in none
/// of the three.
pub proof fn lemma_descriptor_partition(old: Program, new: Program, t: VariableType, kind: FileType, r: i64)
    requires
        old.indices_in_range(),
        new.allocated(old, t, kind, r),
    ensures
        is_fd_kind(kind) ==> new.active_fds@.contains(r),
        kind == FileType::Dir ==> new.active_dir_fds@.contains(r) && !new.active_file_fds@.contains(r),
        is_non_dir_kind(kind) ==> new.active_file_fds@.contains(r) && !new.active_dir_fds@.contains(r),
        !is_fd_kind(kind) ==> !new.active_fds@.contains(r) && !new.active_file_fds@.contains(r)
            && !new.active_dir_fds@.contains(r),
{
    lemma_fresh_not_contained(old.active_fds@, r, old.variables@.len());
    lemma_fresh_not_contained(old.active_file_fds@, r, old.variables@.len());
    lemma_fresh_not_contained(old.active_dir_fds@, r, old.variables@.len());
    lemma_with_index_contains(old.active_fds@, r);
    lemma_with_index_contains(old.active_file_fds@, r);
    lemma_with_index_contains(old.active_dir_fds@, r);
}

proof fn lemma_fresh_not_contained(s: Seq<i64>, r: i64, n: nat)
    requires
        r == n,
        forall|i: int| 0 <= i < s.len() ==> 0 <= #[trigger] s[i] < n,
    ensures
        !s.contains(r),
{
}

proof fn lemma_with_index_contains(s: Seq<i64>, r: i64)
    ensures
        with_index(s, r).contains(r),
{
    if !s.contains(r) {
        assert(s.push(r)[s.len() as int] == r);
    }
}

/// Tracking a file adds exactly one entry to `avail_files`; a directory adds
/// one to the directory cache and leaves the other as it was, and a file,
/// symlink or fifo does the reverse.
pub proof fn lemma_file_partition(old: Program, new: Program, fobj: FileObject, i: i64, r: bool)
    requires
        new.file_tracked(old, fobj, i, r),
    ensures
        new.avail_files@.len() == old.avail_files@.len() + 1,
        fobj.ftype == FileType::Dir ==> new.avail_dirs@.len() == old.avail_dirs@.len() + 1
            && new.avail_non_dirs@ == old.avail_non_dirs@,
        is_non_dir_kind(fobj.ftype) ==> new.avail_non_dirs@.len() == old.avail_non_dirs@.len() + 1
            && new.avail_dirs@ == old.avail_dirs@,
{
}

/// Undoing an allocation restores the variables and the descriptor sets of
/// a program whose descriptor sets name existing variables.
pub proof fn lemma_undo_allocation(
    start: Program,
    grown: Program,
    undone: Program,
    t: VariableType,
    kind: FileType,
    r: i64,
    b: bool,
)
    requires
        start.indices_in_range(),
        grown.allocated(start, t, kind, r),
        undone.variable_undone(grown, b),
    ensures
        b,
        undone.variables@ == start.variables@,
        undone.active_fds@ == start.active_fds@,
        undone.active_file_fds@ == start.active_file_fds@,
        undone.active_dir_fds@ == start.active_dir_fds@,
{
    assert(grown.variables@.last().kind == kind);
    lemma_add_then_remove(start.active_fds@, r, start.variables@.len());
    lemma_add_then_remove(start.active_file_fds@, r, start.variables@.len());
    lemma_add_then_remove(start.active_dir_fds@, r, start.variables@.len());
}

proof fn lemma_add_then_remove(s: Seq<i64>, r: i64, n: nat)
    requires
        r == n,
        forall|i: int| 0 <= i < s.len() ==> 0 <= #[trigger] s[i] < n,
    ensures
        without_index(with_index(s, r), r) == s,
{
    lemma_fresh_not_contained(s, r, n);
    reveal(Seq::filter);
    let t = s.push(r);
    assert(t.drop_last() =~= s);
    assert forall|i: int| 0 <= i < s.len() implies differs_from(r)(#[trigger] s[i]) by {}
    lemma_filter_all(s, differs_from(r));
}

/// Allocation keeps the descriptor sets consistent with the variables they name.
pub proof fn lemma_allocation_keeps_descriptors_consistent(
    old: Program,
    new: Program,
    t: VariableType,
    kind: FileType,
    r: i64,
)
    requires
        old.descriptors_consistent(),
        new.allocated(old, t, kind, r),
    ensures
        new.descriptors_consistent(),
{
    let n = old.variables@.len();
    assert forall|i: int| 0 <= i < n implies #[trigger] new.variables@[i] == old.variables@[i] by {
        assert(new.variables@.drop_last()[i] == new.variables@[i]);
    }
    lemma_fresh_not_contained(old.active_fds@, r, n);
    lemma_fresh_not_contained(old.active_file_fds@, r, n);
    lemma_fresh_not_contained(old.active_dir_fds@, r, n);
    assert(new.variables@[n as int] == new.variables@.last());
    assert forall|i: int| 0 <= i < new.active_file_fds@.len() implies is_non_dir_kind(
        new.variables@[#[trigger] new.active_file_fds@[i] as int].kind,
    ) && 0 <= new.active_file_fds@[i] < new.variables@.len() by {
        if i < old.active_file_fds@.len() {
            assert(new.active_file_fds@[i] == old.active_file_fds@[i]);
        }
    }
    assert forall|i: int| 0 <= i < new.active_dir_fds@.len() implies new.variables@[
        #[trigger] new.active_dir_fds@[i] as int
    ].kind == FileType::Dir && 0 <= new.active_dir_fds@[i] < new.variables@.len() by {
        if i < old.active_dir_fds@.len() {
            assert(new.active_dir_fds@[i] == old.active_dir_fds@[i]);
        }
    }
    assert forall|i: int| 0 <= i < new.active_fds@.len() implies 0 <= #[trigger] new.active_fds@[i]
        < new.variables@.len() by {
        if i < old.active_fds@.len() {
            assert(new.active_fds@[i] == old.active_fds@[i]);
        }
    }
}

/// Rendering is deterministic: two renderings of one program agree, in the
/// text or in the variable that has no declaration.
pub proof fn lemma_render_deterministic(p: Program, r1: Result<String, crate::render::RenderError>, r2: Result<String, crate::render::RenderError>)
    requires
        render_result(p, r1),
        render_result(p, r2),
    ensures
        r1 is Ok <==> r2 is Ok,
        r1 is Ok ==> r1->Ok_0@ == r2->Ok_0@,
        r1 is Err ==> r1->Err_0 == r2->Err_0,
{
    if r1 is Err && r2 is Err {
        let e1 = r1->Err_0.index;
        let e2 = r2->Err_0.index;
        assert(!(e1 < e2));
        assert(!(e2 < e1));
    }
    if r1 is Ok && r2 is Err {
        assert(false);
    }
}

} // verus!
