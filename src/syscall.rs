//! System call records: which call, its arguments, and where its result goes.
use vstd::prelude::*;
use crate::arg::Arg;

verus! {

/// The supported filesystem system calls.
#[derive(Clone, Copy, Debug, PartialEq, Eq, Structural)]
pub enum SysNo {
    Open,
    Read,
    Write,
    Lseek,
    Getdents,
    Pread,
    Pwrite,
    Fstat,
    Stat,
    Lstat,
    Rename,
    Fsync,
    Fdatasync,
    Syncfs,
    Sendfile,
    Access,
    Ftruncate,
    Truncate,
    Mkdir,
    Rmdir,
    Link,
    Unlink,
    Symlink,
    Setxattr,
    Getxattr,
    Removexattr,
    Listxattr,
}

/// The symbolic constant that the C library's syscall table gives each call.
pub open spec fn sys_name(nr: SysNo) -> Seq<char> {
    match nr {
        SysNo::Open => "SYS_open"@,
        SysNo::Read => "SYS_read"@,
        SysNo::Write => "SYS_write"@,
        SysNo::Lseek => "SYS_lseek"@,
        SysNo::Getdents => "SYS_getdents64"@,
        SysNo::Pread => "SYS_pread64"@,
        SysNo::Pwrite => "SYS_pwrite64"@,
        SysNo::Fstat => "SYS_fstat"@,
        SysNo::Stat => "SYS_stat"@,
        SysNo::Lstat => "SYS_lstat"@,
        SysNo::Rename => "SYS_rename"@,
        SysNo::Fsync => "SYS_fsync"@,
        SysNo::Fdatasync => "SYS_fdatasync"@,
        SysNo::Syncfs => "SYS_syncfs"@,
        SysNo::Sendfile => "SYS_sendfile"@,
        SysNo::Access => "SYS_access"@,
        SysNo::Ftruncate => "SYS_ftruncate"@,
        SysNo::Truncate => "SYS_truncate"@,
        SysNo::Mkdir => "SYS_mkdir"@,
        SysNo::Rmdir => "SYS_rmdir"@,
        SysNo::Link => "SYS_link"@,
        SysNo::Unlink => "SYS_unlink"@,
        SysNo::Symlink => "SYS_symlink"@,
        SysNo::Setxattr => "SYS_setxattr"@,
        SysNo::Getxattr => "SYS_getxattr"@,
        SysNo::Removexattr => "SYS_removexattr"@,
        SysNo::Listxattr => "SYS_listxattr"@,
    }
}

/// The symbolic constant of a system call, as `syscall()` expects it.
pub fn num_to_name(nr: SysNo) -> (r: String)
    ensures
        r@ == sys_name(nr),
{
    let x = match nr {
        SysNo::Open => "SYS_open",
        SysNo::Read => "SYS_read",
        SysNo::Write => "SYS_write",
        SysNo::Lseek => "SYS_lseek",
        SysNo::Getdents => "SYS_getdents64",
        SysNo::Pread => "SYS_pread64",
        SysNo::Pwrite => "SYS_pwrite64",
        SysNo::Fstat => "SYS_fstat",
        SysNo::Stat => "SYS_stat",
        SysNo::Lstat => "SYS_lstat",
        SysNo::Rename => "SYS_rename",
        SysNo::Fsync => "SYS_fsync",
        SysNo::Fdatasync => "SYS_fdatasync",
        SysNo::Syncfs => "SYS_syncfs",
        SysNo::Sendfile => "SYS_sendfile",
        SysNo::Access => "SYS_access",
        SysNo::Ftruncate => "SYS_ftruncate",
        SysNo::Truncate => "SYS_truncate",
        SysNo::Mkdir => "SYS_mkdir",
        SysNo::Rmdir => "SYS_rmdir",
        SysNo::Link => "SYS_link",
        SysNo::Unlink => "SYS_unlink",
        SysNo::Symlink => "SYS_symlink",
        SysNo::Setxattr => "SYS_setxattr",
        SysNo::Getxattr => "SYS_getxattr",
        SysNo::Removexattr => "SYS_removexattr",
        SysNo::Listxattr => "SYS_listxattr",
    };
    x.to_string()
}

/// One invocation: the call, its arguments in order, and the index of the
/// variable that receives its result (`-1` where the result is dropped).
#[derive(Clone, Debug)]
pub struct Syscall {
    pub nr: SysNo,
    pub args: Vec<Arg>,
    pub ret_index: i64,
}

/// Two records agree in call, arguments and result slot.
pub open spec fn same_syscall(a: Syscall, b: Syscall) -> bool {
    a.nr == b.nr && a.args@ == b.args@ && a.ret_index == b.ret_index
}

impl PartialEq for Syscall {
    fn eq(&self, o: &Syscall) -> (r: bool) {
        if !(self.nr == o.nr && self.ret_index == o.ret_index) {
            return false;
        }
        if self.args.len() != o.args.len() {
            return false;
        }
        let mut i: usize = 0;
        while i < self.args.len()
            invariant
                i <= self.args@.len() == o.args@.len(),
                forall|j: int| 0 <= j < i ==> self.args@[j] == o.args@[j],
            decreases self.args@.len() - i,
        {
            if self.args[i] != o.args[i] {
                return false;
            }
            i = i + 1;
        }
        assert(self.args@ =~= o.args@);
        true
    }
}

impl vstd::std_specs::cmp::PartialEqSpecImpl for Syscall {
    open spec fn obeys_eq_spec() -> bool {
        true
    }

    open spec fn eq_spec(&self, o: &Syscall) -> bool {
        same_syscall(*self, *o)
    }
}

impl Eq for Syscall {}

impl Syscall {
    /// A call with no arguments whose result goes to variable `ret_index`.
    pub fn new_with_index(nr: SysNo, ret_index: i64) -> (r: Self)
        ensures
            r.nr == nr,
            r.ret_index == ret_index,
            r.args@.len() == 0,
    {
        Syscall { nr, ret_index, args: Vec::new() }
    }

    /// A call with no arguments whose result is dropped.
    pub fn new(nr: SysNo) -> (r: Self)
        ensures
            r.nr == nr,
            r.ret_index == -1,
            r.args@.len() == 0,
    {
        Self::new_with_index(nr, -1)
    }

    /// Appends an argument built as `Arg::new` builds it.
    pub fn add_arg(&mut self, value: i64, is_variable: bool)
        ensures
            final(self).nr == old(self).nr,
            final(self).ret_index == old(self).ret_index,
            final(self).args@.drop_last() == old(self).args@,
            final(self).args@.len() == old(self).args@.len() + 1,
            is_variable && value >= 0 ==> final(self).args@.last() == (Arg { value: None, index: Some(value as usize), is_variable: true }),
            !(is_variable && value >= 0) ==> final(self).args@.last() == (Arg { value: Some(value), index: None, is_variable: false }),
    {
        self.args.push(Arg::new(value, is_variable));
        assert(self.args@.drop_last() =~= old(self).args@);
    }
}

} // verus!
