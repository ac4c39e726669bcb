//! The program aggregate: variables, system calls, the descriptor sets and
//! the file-object caches, with the operations that grow and shrink them.
use vstd::prelude::*;
use crate::fileobject::{same_file, FileObject};
use crate::seqs::{
    insert_index, remove_file_objects, remove_index, remove_syscall_records, with_index,
    without_file, without_index, without_syscall,
};
use crate::syscall::{same_syscall, Syscall};
use crate::text::{decimal_nat, push_decimal_u64};
use crate::types::{is_descriptor_kind, is_fd_kind, is_non_dir_descriptor_kind, is_non_dir_kind, FileType, VariableType};
use crate::variables::Variable;

verus! {

/// A candidate program. A variable's index is its position in `variables`;
/// the other lists refer to variables by that index.
#[derive(Clone, Debug)]
pub struct Program {
    pub variables: Vec<Variable>,
    pub syscalls: Vec<Syscall>,
    /// Variables that hold an open descriptor.
    pub active_fds: Vec<i64>,
    /// Of those, the ones of a file, symlink or fifo.
    pub active_file_fds: Vec<i64>,
    /// Of those, the ones of a directory.
    pub active_dir_fds: Vec<i64>,
    /// Variables that hold the base of a mapped region.
    pub active_map_base_idx: Vec<i64>,
    pub avail_files: Vec<FileObject>,
    pub avail_dirs: Vec<FileObject>,
    pub avail_non_dirs: Vec<FileObject>,
}

/// The name given to the variable at index `i`.
pub open spec fn var_name(i: nat) -> Seq<char> {
    "v"@ + decimal_nat(i)
}

/// `v` with its kind replaced by `k`.
pub open spec fn with_kind(v: Variable, k: FileType) -> Variable {
    Variable { name: v.name, var_type: v.var_type, kind: k }
}

/// `f` with its descriptor index replaced by `i`.
pub open spec fn stamped(f: FileObject, i: i64) -> FileObject {
    FileObject { rel_path: f.rel_path, ftype: f.ftype, xattrs: f.xattrs, fd_index: i }
}

impl Program {
    /// The descriptor sets and mapped bases agree.
    pub open spec fn same_index_sets(self, o: Program) -> bool {
        &&& self.active_fds@ == o.active_fds@
        &&& self.active_file_fds@ == o.active_file_fds@
        &&& self.active_dir_fds@ == o.active_dir_fds@
        &&& self.active_map_base_idx@ == o.active_map_base_idx@
    }

    /// The file-object caches agree.
    pub open spec fn same_file_caches(self, o: Program) -> bool {
        &&& self.avail_files@ == o.avail_files@
        &&& self.avail_dirs@ == o.avail_dirs@
        &&& self.avail_non_dirs@ == o.avail_non_dirs@
    }

    /// Every index in the descriptor sets names an existing variable.
    pub open spec fn indices_in_range(self) -> bool {
        &&& forall|i: int| 0 <= i < self.active_fds@.len()
            ==> 0 <= #[trigger] self.active_fds@[i] < self.variables@.len()
        &&& forall|i: int| 0 <= i < self.active_file_fds@.len()
            ==> 0 <= #[trigger] self.active_file_fds@[i] < self.variables@.len()
        &&& forall|i: int| 0 <= i < self.active_dir_fds@.len()
            ==> 0 <= #[trigger] self.active_dir_fds@[i] < self.variables@.len()
    }

    /// The descriptor sets name existing variables, the file set only
    /// variables of a file, symlink or fifo kind and the directory set only
    /// variables of the directory kind.
    pub open spec fn descriptors_consistent(self) -> bool {
        &&& self.indices_in_range()
        &&& forall|i: int| 0 <= i < self.active_file_fds@.len()
            ==> is_non_dir_kind(self.variables@[#[trigger] self.active_file_fds@[i] as int].kind)
        &&& forall|i: int| 0 <= i < self.active_dir_fds@.len()
            ==> self.variables@[#[trigger] self.active_dir_fds@[i] as int].kind == FileType::Dir
    }

    /// `self` is `old` with `idx`, a variable of kind `kind`, registered as a
    /// descriptor: into `active_fds` where `into_all` holds, and into the file
    /// or directory set as the kind says.
    pub open spec fn registered(self, old: Program, idx: i64, kind: FileType, into_all: bool) -> bool {
        &&& self.active_fds@ == (if into_all { with_index(old.active_fds@, idx) } else { old.active_fds@ })
        &&& self.active_file_fds@ == (if is_non_dir_kind(kind) {
            with_index(old.active_file_fds@, idx)
        } else {
            old.active_file_fds@
        })
        &&& self.active_dir_fds@ == (if kind == FileType::Dir {
            with_index(old.active_dir_fds@, idx)
        } else {
            old.active_dir_fds@
        })
        &&& self.active_map_base_idx@ == old.active_map_base_idx@
    }

    /// `self` is `old` with descriptor `idx`, of kind `kind`, released: taken
    /// out of `active_fds` where `from_all` holds, and out of the file or
    /// directory set as the kind says.
    pub open spec fn released(self, old: Program, idx: i64, kind: FileType, from_all: bool) -> bool {
        &&& self.active_fds@ == (if from_all { without_index(old.active_fds@, idx) } else { old.active_fds@ })
        &&& self.active_file_fds@ == (if is_non_dir_kind(kind) {
            without_index(old.active_file_fds@, idx)
        } else {
            old.active_file_fds@
        })
        &&& self.active_dir_fds@ == (if kind == FileType::Dir {
            without_index(old.active_dir_fds@, idx)
        } else {
            old.active_dir_fds@
        })
    }

    /// `self` is `old` after a variable of type `t` and kind `kind` was
    /// allocated at index `r`.
    pub open spec fn allocated(self, old: Program, t: VariableType, kind: FileType, r: i64) -> bool {
        &&& r == old.variables@.len()
        &&& self.variables@.len() == old.variables@.len() + 1
        &&& self.variables@.drop_last() == old.variables@
        &&& self.variables@.last().name@ == var_name(old.variables@.len())
        &&& *self.variables@.last().var_type == t
        &&& self.variables@.last().kind == kind
        &&& self.registered(old, r, kind, is_fd_kind(kind))
        &&& self.syscalls@ == old.syscalls@
        &&& self.same_file_caches(old)
    }

    /// `self` is `old` after an undo of the last variable, which `r` says
    /// took place.
    pub open spec fn variable_undone(self, old: Program, r: bool) -> bool {
        &&& r == (old.variables@.len() > 0)
        &&& !r ==> self == old
        &&& r ==> {
            let idx = (old.variables@.len() - 1) as i64;
            let kind = old.variables@.last().kind;
            &&& self.variables@ == old.variables@.drop_last()
            &&& self.released(old, idx, kind, is_fd_kind(kind))
            &&& self.active_map_base_idx@ == (if kind == FileType::Mmap {
                without_index(old.active_map_base_idx@, idx)
            } else {
                old.active_map_base_idx@
            })
            &&& self.syscalls@ == old.syscalls@
            &&& self.same_file_caches(old)
        }
    }

    /// `self` is `old` after `fobj` was tracked with descriptor `i`; `r` says
    /// whether its kind placed it in one of the partitions.
    pub open spec fn file_tracked(self, old: Program, fobj: FileObject, i: i64, r: bool) -> bool {
        &&& r == is_fd_kind(fobj.ftype)
        &&& self.avail_files@ == old.avail_files@.push(stamped(fobj, i))
        &&& fobj.ftype == FileType::Dir ==> {
            &&& self.avail_dirs@.len() == old.avail_dirs@.len() + 1
            &&& self.avail_dirs@.drop_last() == old.avail_dirs@
            &&& same_file(self.avail_dirs@.last(), stamped(fobj, i))
        }
        &&& fobj.ftype != FileType::Dir ==> self.avail_dirs@ == old.avail_dirs@
        &&& is_non_dir_kind(fobj.ftype) ==> {
            &&& self.avail_non_dirs@.len() == old.avail_non_dirs@.len() + 1
            &&& self.avail_non_dirs@.drop_last() == old.avail_non_dirs@
            &&& same_file(self.avail_non_dirs@.last(), stamped(fobj, i))
        }
        &&& !is_non_dir_kind(fobj.ftype) ==> self.avail_non_dirs@ == old.avail_non_dirs@
        &&& self.variables@ == old.variables@
        &&& self.syscalls@ == old.syscalls@
        &&& self.same_index_sets(old)
    }
}


impl Program {
    pub const PAGE_SIZE: u32 = 4096;
    pub const SRC8192: i64 = 0;
    pub const DEST8192: i64 = 1;
    /// Index of the first variable that holds a path.
    pub const PATHSTART: i64 = 2;

    /// An empty program.
    pub fn new() -> (r: Self)
        ensures
            r.variables@.len() == 0,
            r.syscalls@.len() == 0,
            r.active_fds@.len() == 0,
            r.active_file_fds@.len() == 0,
            r.active_dir_fds@.len() == 0,
            r.active_map_base_idx@.len() == 0,
            r.avail_files@.len() == 0,
            r.avail_dirs@.len() == 0,
            r.avail_non_dirs@.len() == 0,
    {
        Program {
            variables: Vec::new(),
            syscalls: Vec::new(),
            active_fds: Vec::new(),
            active_file_fds: Vec::new(),
            active_dir_fds: Vec::new(),
            active_map_base_idx: Vec::new(),
            avail_files: Vec::new(),
            avail_dirs: Vec::new(),
            avail_non_dirs: Vec::new(),
        }
    }

    /// Registers variable `fd_index` as a descriptor: into `active_fds`, and
    /// into the file or directory set as its kind says. An index that is
    /// there already is not added twice.
    pub fn add_fd(&mut self, fd_index: i64)
        requires
            0 <= fd_index < old(self).variables@.len(),
        ensures
            final(self).registered(*old(self), fd_index, old(self).variables@[fd_index as int].kind, true),
            final(self).variables@ == old(self).variables@,
            final(self).syscalls@ == old(self).syscalls@,
            final(self).same_file_caches(*old(self)),
    {
        let n = self.variables.len();
        assert(fd_index < n);
        insert_index(&mut self.active_fds, fd_index);
        let kind = self.variables[fd_index as usize].kind;
        match kind {
            FileType::Dir => {
                insert_index(&mut self.active_dir_fds, fd_index);
            },
            FileType::File | FileType::Symlink | FileType::Fifo => {
                insert_index(&mut self.active_file_fds, fd_index);
            },
            _ => {},
        }
    }

    /// Appends `v`; where its kind is a descriptor kind it is registered as
    /// a descriptor too.
    pub fn add_variable(&mut self, v: Variable)
        requires
            old(self).variables@.len() < i64::MAX,
        ensures
            final(self).variables@ == old(self).variables@.push(v),
            final(self).registered(*old(self), old(self).variables@.len() as i64, v.kind, is_fd_kind(v.kind)),
            final(self).syscalls@ == old(self).syscalls@,
            final(self).same_file_caches(*old(self)),
    {
        let kind = v.kind;
        self.variables.push(v);
        if is_descriptor_kind(kind) {
            self.add_fd((self.variables.len() - 1) as i64);
        }
    }

    /// Allocates a variable of type `var_type` and kind `kind`, named after
    /// its index, and returns that index.
    pub fn create_file_variable(&mut self, var_type: VariableType, kind: FileType) -> (r: i64)
        requires
            old(self).variables@.len() < i64::MAX,
        ensures
            final(self).allocated(*old(self), var_type, kind, r),
            old(self).indices_in_range() ==> {
                &&& final(self).active_fds@ == (if is_fd_kind(kind) {
                    old(self).active_fds@.push(r)
                } else {
                    old(self).active_fds@
                })
                &&& final(self).active_file_fds@ == (if is_non_dir_kind(kind) {
                    old(self).active_file_fds@.push(r)
                } else {
                    old(self).active_file_fds@
                })
                &&& final(self).active_dir_fds@ == (if kind == FileType::Dir {
                    old(self).active_dir_fds@.push(r)
                } else {
                    old(self).active_dir_fds@
                })
            },
    {
        let var_count = self.variables.len();
        let mut name = String::new();
        name.append("v");
        push_decimal_u64(&mut name, var_count as u64);
        let v = Variable::new(name.as_str(), var_type, kind);
        self.add_variable(v);
        proof {
            assert(self.variables@.drop_last() =~= old(self).variables@);
            if old(self).indices_in_range() {
                let n = var_count as i64;
                assert(!old(self).active_fds@.contains(n));
                assert(!old(self).active_file_fds@.contains(n));
                assert(!old(self).active_dir_fds@.contains(n));
            }
        }
        var_count as i64
    }

    /// Allocates a variable of type `var_type` that is no filesystem resource.
    pub fn create_variable(&mut self, var_type: VariableType) -> (r: i64)
        requires
            old(self).variables@.len() < i64::MAX,
        ensures
            final(self).allocated(*old(self), var_type, FileType::NoFile, r),
    {
        self.create_file_variable(var_type, FileType::NoFile)
    }

    /// Allocates a string variable holding `s`.
    pub fn create_str(&mut self, s: &str) -> (r: i64)
        requires
            old(self).variables@.len() < i64::MAX,
        ensures
            exists|t: String| t@ == s@ && #[trigger] final(self).allocated(*old(self), VariableType::Str(t), FileType::NoFile, r),
    {
        let t = s.to_string();
        let ghost g = t;
        let r = self.create_variable(VariableType::Str(t));
        assert(final(self).allocated(*old(self), VariableType::Str(g), FileType::NoFile, r));
        r
    }

    /// Allocates the two page-pair scratch buffers that generated programs
    /// read into and write from, at indices `SRC8192` and `DEST8192`.
    pub fn prepare_buffers(&mut self)
        requires
            old(self).variables@.len() == 0,
        ensures
            final(self).variables@.len() == 2,
            forall|i: int| 0 <= i < 2 ==> {
                &&& #[trigger] final(self).variables@[i].name@ == var_name(i as nat)
                &&& *final(self).variables@[i].var_type == VariableType::UCharPtr(None, 8192)
                &&& final(self).variables@[i].kind == FileType::NoFile
            },
            final(self).same_index_sets(*old(self)),
            final(self).syscalls@ == old(self).syscalls@,
            final(self).same_file_caches(*old(self)),
    {
        let a = self.create_variable(VariableType::UCharPtr(None, Program::PAGE_SIZE * 2));
        let ghost first = *self;
        let b = self.create_variable(VariableType::UCharPtr(None, Program::PAGE_SIZE * 2));
        assert(a == Program::SRC8192 && b == Program::DEST8192);
        assert(self.variables@[0] == first.variables@[0]);
    }

    /// Releases descriptor `fd_index`: takes it out of `active_fds`, and out
    /// of the file or directory set as its kind says. Returns whether the
    /// variable's kind is a descriptor kind at all.
    pub fn remove_fd(&mut self, fd_index: i64) -> (r: bool)
        requires
            0 <= fd_index < old(self).variables@.len(),
        ensures
            r == is_fd_kind(old(self).variables@[fd_index as int].kind),
            final(self).released(*old(self), fd_index, old(self).variables@[fd_index as int].kind, true),
            final(self).active_map_base_idx@ == old(self).active_map_base_idx@,
            final(self).variables@ == old(self).variables@,
            final(self).syscalls@ == old(self).syscalls@,
            final(self).same_file_caches(*old(self)),
    {
        let n = self.variables.len();
        assert(fd_index < n);
        let kind = self.variables[fd_index as usize].kind;
        let r = match kind {
            FileType::Dir => {
                self.remove_dir_fd(fd_index);
                true
            },
            FileType::File | FileType::Fifo | FileType::Symlink => {
                self.remove_file_fd(fd_index);
                true
            },
            _ => false,
        };
        remove_index(&mut self.active_fds, fd_index);
        r
    }

    /// Takes `fd_index` out of the set of file descriptors.
    pub fn remove_file_fd(&mut self, fd_index: i64)
        ensures
            final(self).active_file_fds@ == without_index(old(self).active_file_fds@, fd_index),
            final(self).active_fds@ == old(self).active_fds@,
            final(self).active_dir_fds@ == old(self).active_dir_fds@,
            final(self).active_map_base_idx@ == old(self).active_map_base_idx@,
            final(self).variables@ == old(self).variables@,
            final(self).syscalls@ == old(self).syscalls@,
            final(self).same_file_caches(*old(self)),
    {
        remove_index(&mut self.active_file_fds, fd_index);
    }

    /// Takes `fd_index` out of the set of directory descriptors.
    pub fn remove_dir_fd(&mut self, fd_index: i64)
        ensures
            final(self).active_dir_fds@ == without_index(old(self).active_dir_fds@, fd_index),
            final(self).active_fds@ == old(self).active_fds@,
            final(self).active_file_fds@ == old(self).active_file_fds@,
            final(self).active_map_base_idx@ == old(self).active_map_base_idx@,
            final(self).variables@ == old(self).variables@,
            final(self).syscalls@ == old(self).syscalls@,
            final(self).same_file_caches(*old(self)),
    {
        remove_index(&mut self.active_dir_fds, fd_index);
    }

    /// Marks the mapped base held by variable `map_index` as unmapped: that
    /// variable, where it exists, no longer stands for a mapping, so its kind
    /// becomes `NoFile`. The index is resolved as a variable index (not as a
    /// position in `active_map_base_idx`), must be an active mapped base, and
    /// stays listed there: the variable still exists, and only its kind says
    /// that it is unmapped. Compare `remove_last_variable`, which takes the
    /// index out of the list because the variable itself goes away.
    pub fn mark_base_unmapped(&mut self, map_index: i64)
        requires
            old(self).active_map_base_idx@.contains(map_index),
        ensures
            0 <= map_index < old(self).variables@.len() ==> final(self).variables@
                == old(self).variables@.update(map_index as int, with_kind(old(self).variables@[map_index as int], FileType::NoFile)),
            !(0 <= map_index < old(self).variables@.len()) ==> final(self).variables@ == old(self).variables@,
            final(self).same_index_sets(*old(self)),
            final(self).syscalls@ == old(self).syscalls@,
            final(self).same_file_caches(*old(self)),
    {
        let n = self.variables.len();
        if 0 <= map_index && (map_index as i128) < (n as i128) {
            let i = map_index as usize;
            let mut var = self.variables.remove(i);
            var.kind = FileType::NoFile;
            self.variables.insert(i, var);
            assert(self.variables@ =~= old(self).variables@.update(map_index as int, with_kind(old(self).variables@[map_index as int], FileType::NoFile)));
        }
    }

    /// Undoes the most recent variable allocation. A descriptor is released
    /// with it. A mapped base is unmapped by taking its index out of
    /// `active_map_base_idx`: the variable no longer exists, so there is no
    /// kind left to clear (compare `mark_base_unmapped`, which keeps the index
    /// of a variable that stays). Returns `false`, changing nothing, when
    /// there is no variable.
    pub fn remove_last_variable(&mut self) -> (r: bool)
        requires
            old(self).variables@.len() <= i64::MAX,
        ensures
            final(self).variable_undone(*old(self), r),
    {
        if self.variables.len() == 0 {
            return false;
        }
        let last = self.variables.len() - 1;
        let kind = self.variables[last].kind;
        if is_descriptor_kind(kind) {
            self.remove_fd(last as i64);
        } else if kind == FileType::Mmap {
            remove_index(&mut self.active_map_base_idx, last as i64);
        }
        self.variables.pop();
        true
    }
}

impl Program {
    /// Appends a system call record.
    pub fn add_syscall(&mut self, v: Syscall)
        ensures
            final(self).syscalls@ == old(self).syscalls@.push(v),
            final(self).variables@ == old(self).variables@,
            final(self).same_index_sets(*old(self)),
            final(self).same_file_caches(*old(self)),
    {
        self.syscalls.push(v);
    }

    /// Undoes the most recent system call record. Returns `false`, changing
    /// nothing, when there is none.
    pub fn remove_last_syscall(&mut self) -> (r: bool)
        ensures
            r == (old(self).syscalls@.len() > 0),
            r ==> final(self).syscalls@ == old(self).syscalls@.drop_last(),
            !r ==> final(self).syscalls@ == old(self).syscalls@,
            final(self).variables@ == old(self).variables@,
            final(self).same_index_sets(*old(self)),
            final(self).same_file_caches(*old(self)),
    {
        if self.syscalls.len() == 0 {
            return false;
        }
        self.syscalls.pop();
        true
    }

    /// Removes the most recent system call record if it equals `syscall`.
    /// There must be one.
    pub fn remove_last_syscall_if_same(&mut self, syscall: Syscall)
        requires
            old(self).syscalls@.len() > 0,
        ensures
            same_syscall(old(self).syscalls@.last(), syscall) ==> final(self).syscalls@
                == old(self).syscalls@.drop_last(),
            !same_syscall(old(self).syscalls@.last(), syscall) ==> final(self).syscalls@
                == old(self).syscalls@,
            final(self).variables@ == old(self).variables@,
            final(self).same_index_sets(*old(self)),
            final(self).same_file_caches(*old(self)),
    {
        let last = self.syscalls.len() - 1;
        if self.syscalls[last].eq(&syscall) {
            self.syscalls.pop();
        }
    }

    /// Removes every system call record equal to `syscall`, wherever it stands.
    pub fn remove_syscall(&mut self, syscall: Syscall)
        ensures
            final(self).syscalls@ == without_syscall(old(self).syscalls@, syscall),
            final(self).variables@ == old(self).variables@,
            final(self).same_index_sets(*old(self)),
            final(self).same_file_caches(*old(self)),
    {
        remove_syscall_records(&mut self.syscalls, &syscall);
    }

    /// Tracks `fobj` with descriptor variable `var_index`: the object, with
    /// that index stamped on it, goes to `avail_files` and to the directory
    /// or non-directory cache as its kind says. Returns `false` when its kind
    /// is no file kind; it is then in `avail_files` alone.
    pub fn add_file(&mut self, fobj: FileObject, var_index: i64) -> (r: bool)
        ensures
            final(self).file_tracked(*old(self), fobj, var_index, r),
    {
        let mut f = fobj;
        f.fd_index = var_index;
        let r = match f.ftype {
            FileType::Dir => {
                self.avail_dirs.push(f.duplicate());
                true
            },
            FileType::File | FileType::Fifo | FileType::Symlink => {
                self.avail_non_dirs.push(f.duplicate());
                true
            },
            _ => false,
        };
        self.avail_files.push(f);
        proof {
            assert(self.avail_dirs@.drop_last() =~= old(self).avail_dirs@ || fobj.ftype != FileType::Dir);
            assert(self.avail_non_dirs@.drop_last() =~= old(self).avail_non_dirs@ || !is_non_dir_kind(fobj.ftype));
        }
        r
    }

    /// Undoes the most recent `add_file`: pops `avail_files`, and the cache
    /// that its kind names. Both must be non-empty. Returns whether the kind
    /// was a file kind.
    pub fn remove_last_file(&mut self) -> (r: bool)
        requires
            old(self).avail_files@.len() > 0,
            old(self).avail_files@.last().ftype == FileType::Dir ==> old(self).avail_dirs@.len() > 0,
            is_non_dir_kind(old(self).avail_files@.last().ftype) ==> old(self).avail_non_dirs@.len() > 0,
        ensures
            r == is_fd_kind(old(self).avail_files@.last().ftype),
            final(self).avail_files@ == old(self).avail_files@.drop_last(),
            final(self).avail_dirs@ == (if old(self).avail_files@.last().ftype == FileType::Dir {
                old(self).avail_dirs@.drop_last()
            } else {
                old(self).avail_dirs@
            }),
            final(self).avail_non_dirs@ == (if is_non_dir_kind(old(self).avail_files@.last().ftype) {
                old(self).avail_non_dirs@.drop_last()
            } else {
                old(self).avail_non_dirs@
            }),
            final(self).variables@ == old(self).variables@,
            final(self).syscalls@ == old(self).syscalls@,
            final(self).same_index_sets(*old(self)),
    {
        let last = self.avail_files.len() - 1;
        let ftype = self.avail_files[last].ftype;
        self.avail_files.pop();
        match ftype {
            FileType::Dir => {
                self.avail_dirs.pop();
                true
            },
            FileType::File | FileType::Fifo | FileType::Symlink => {
                self.avail_non_dirs.pop();
                true
            },
            _ => false,
        }
    }

    /// Removes every file object equal to `fobj` from `avail_files`, and from
    /// the cache that its kind names. Returns whether the kind was a file kind.
    pub fn remove_file(&mut self, fobj: FileObject) -> (r: bool)
        ensures
            r == is_fd_kind(fobj.ftype),
            final(self).avail_files@ == without_file(old(self).avail_files@, fobj),
            final(self).avail_dirs@ == (if fobj.ftype == FileType::Dir {
                without_file(old(self).avail_dirs@, fobj)
            } else {
                old(self).avail_dirs@
            }),
            final(self).avail_non_dirs@ == (if is_non_dir_kind(fobj.ftype) {
                without_file(old(self).avail_non_dirs@, fobj)
            } else {
                old(self).avail_non_dirs@
            }),
            final(self).variables@ == old(self).variables@,
            final(self).syscalls@ == old(self).syscalls@,
            final(self).same_index_sets(*old(self)),
    {
        remove_file_objects(&mut self.avail_files, &fobj);
        match fobj.ftype {
            FileType::Dir => {
                self.remove_dir(fobj);
                true
            },
            FileType::File | FileType::Fifo | FileType::Symlink => {
                self.remove_non_dir(fobj);
                true
            },
            _ => false,
        }
    }

    /// Removes every file object equal to `fobj` from the directory cache.
    pub fn remove_dir(&mut self, fobj: FileObject)
        ensures
            final(self).avail_dirs@ == without_file(old(self).avail_dirs@, fobj),
            final(self).avail_files@ == old(self).avail_files@,
            final(self).avail_non_dirs@ == old(self).avail_non_dirs@,
            final(self).variables@ == old(self).variables@,
            final(self).syscalls@ == old(self).syscalls@,
            final(self).same_index_sets(*old(self)),
    {
        remove_file_objects(&mut self.avail_dirs, &fobj);
    }

    /// Removes every file object equal to `fobj` from the non-directory cache.
    pub fn remove_non_dir(&mut self, fobj: FileObject)
        ensures
            final(self).avail_non_dirs@ == without_file(old(self).avail_non_dirs@, fobj),
            final(self).avail_files@ == old(self).avail_files@,
            final(self).avail_dirs@ == old(self).avail_dirs@,
            final(self).variables@ == old(self).variables@,
            final(self).syscalls@ == old(self).syscalls@,
            final(self).same_index_sets(*old(self)),
    {
        remove_file_objects(&mut self.avail_non_dirs, &fobj);
    }
}

} // verus!
