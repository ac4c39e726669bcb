use fsprog::{FileObject, FileType, Program, SysNo, Syscall, Variable, VariableType, Xattr};

fn names(p: &Program) -> Vec<String> {
    p.variables.iter().map(|v| v.name.clone()).collect()
}

#[test]
fn indices_are_handed_out_in_order() {
    let mut p = Program::new();
    assert_eq!(p.create_variable(VariableType::Long(0)), 0);
    assert_eq!(p.create_str("x"), 1);
    assert_eq!(p.create_file_variable(VariableType::Long(0), FileType::Fifo), 2);
    assert_eq!(p.create_variable(VariableType::Unknown), 3);
    for k in 4..12 {
        assert_eq!(p.create_variable(VariableType::Long(k)), k);
    }
    assert_eq!(names(&p)[10], "v10");
    assert_eq!(p.variables[1].kind, FileType::NoFile);
}

#[test]
fn prepare_buffers_makes_two_page_pairs() {
    let mut p = Program::new();
    p.prepare_buffers();
    assert_eq!(names(&p), vec!["v0", "v1"]);
    assert!(matches!(*p.variables[1].var_type, VariableType::UCharPtr(None, 8192)));
}

#[test]
fn descriptor_kinds_are_partitioned() {
    let mut p = Program::new();
    let d = p.create_file_variable(VariableType::Long(0), FileType::Dir);
    let f = p.create_file_variable(VariableType::Long(0), FileType::File);
    let s = p.create_file_variable(VariableType::Long(0), FileType::Symlink);
    let m = p.create_file_variable(VariableType::MmapBase, FileType::Mmap);
    let n = p.create_variable(VariableType::Long(0));
    assert_eq!(p.active_fds, vec![d, f, s]);
    assert_eq!(p.active_dir_fds, vec![d]);
    assert_eq!(p.active_file_fds, vec![f, s]);
    assert!(!p.active_fds.contains(&m) && !p.active_fds.contains(&n));
}

#[test]
fn add_fd_is_idempotent() {
    let mut p = Program::new();
    let f = p.create_file_variable(VariableType::Long(0), FileType::File);
    let u = p.create_variable(VariableType::Long(0));
    p.add_fd(f);
    p.add_fd(u);
    p.add_fd(u);
    assert_eq!(p.active_fds, vec![f, u]);
    assert_eq!(p.active_file_fds, vec![f]);
    assert!(p.active_dir_fds.is_empty());
}

#[test]
fn undo_restores_plain_allocation() {
    let mut p = Program::new();
    p.create_file_variable(VariableType::Long(0), FileType::File);
    let before = names(&p);
    let fds = (p.active_fds.clone(), p.active_file_fds.clone(), p.active_dir_fds.clone());
    p.create_variable(VariableType::Long(5));
    assert!(p.remove_last_variable());
    assert_eq!(names(&p), before);
    assert_eq!((p.active_fds.clone(), p.active_file_fds.clone(), p.active_dir_fds.clone()), fds);
}

#[test]
fn undo_releases_descriptor() {
    let mut p = Program::new();
    p.create_file_variable(VariableType::Long(0), FileType::File);
    p.create_file_variable(VariableType::Long(0), FileType::Dir);
    assert!(p.remove_last_variable());
    assert_eq!(p.active_fds, vec![0]);
    assert_eq!(p.active_file_fds, vec![0]);
    assert!(p.active_dir_fds.is_empty());
    assert!(p.remove_last_variable());
    assert!(p.active_fds.is_empty() && p.active_file_fds.is_empty());
}

#[test]
fn undo_on_empty_is_reported() {
    let mut p = Program::new();
    assert!(!p.remove_last_variable());
    assert!(!p.remove_last_syscall());
    assert!(p.variables.is_empty());
}

#[test]
fn undo_of_mapped_base_leaves_active_bases() {
    let mut p = Program::new();
    let m = p.create_file_variable(VariableType::MmapBase, FileType::Mmap);
    p.active_map_base_idx.push(m);
    assert!(p.remove_last_variable());
    assert!(p.active_map_base_idx.is_empty());
}

#[test]
fn mark_base_unmapped_clears_kind() {
    let mut p = Program::new();
    p.create_variable(VariableType::Long(0));
    let m = p.create_file_variable(VariableType::MmapBase, FileType::Mmap);
    p.active_map_base_idx.push(m);
    p.mark_base_unmapped(m);
    assert_eq!(p.variables[1].kind, FileType::NoFile);
    assert_eq!(p.variables[0].kind, FileType::NoFile);
    assert_eq!(p.active_map_base_idx, vec![m]);
}

#[test]
fn remove_fd_by_kind() {
    let mut p = Program::new();
    let f = p.create_file_variable(VariableType::Long(0), FileType::File);
    let d = p.create_file_variable(VariableType::Long(0), FileType::Dir);
    let n = p.create_variable(VariableType::Long(0));
    p.add_fd(n);
    assert!(p.remove_fd(d));
    assert_eq!(p.active_fds, vec![f, n]);
    assert!(p.active_dir_fds.is_empty());
    assert!(!p.remove_fd(n));
    assert_eq!(p.active_fds, vec![f]);
    p.remove_file_fd(f);
    assert!(p.active_file_fds.is_empty());
    assert_eq!(p.active_fds, vec![f]);
}

#[test]
fn syscall_records_and_undo() {
    let mut p = Program::new();
    let a = Syscall::new(SysNo::Read);
    let b = Syscall::new(SysNo::Write);
    p.add_syscall(a.clone());
    p.add_syscall(b.clone());
    p.remove_last_syscall_if_same(a.clone());
    assert_eq!(p.syscalls.len(), 2);
    p.remove_last_syscall_if_same(b.clone());
    assert_eq!(p.syscalls, vec![a.clone()]);
    assert!(p.remove_last_syscall());
    assert!(p.syscalls.is_empty());
}

#[test]
fn remove_syscall_filters_every_copy() {
    let mut p = Program::new();
    let mut a = Syscall::new(SysNo::Lseek);
    a.add_arg(3, false);
    let mut a2 = Syscall::new(SysNo::Lseek);
    a2.add_arg(4, false);
    p.add_syscall(a.clone());
    p.add_syscall(a2.clone());
    p.add_syscall(a.clone());
    p.remove_syscall(a.clone());
    assert_eq!(p.syscalls, vec![a2]);
}

#[test]
fn track_file_partitions_by_kind() {
    let mut p = Program::new();
    assert!(p.add_file(FileObject::new("d", FileType::Dir, -1), 4));
    assert!(p.add_file(FileObject::new("f", FileType::Fifo, -1), 5));
    assert!(!p.add_file(FileObject::new("x", FileType::Mmap, -1), 6));
    assert_eq!(p.avail_files.len(), 3);
    assert_eq!(p.avail_dirs, vec![FileObject::new("d", FileType::Dir, 4)]);
    assert_eq!(p.avail_non_dirs, vec![FileObject::new("f", FileType::Fifo, 5)]);
    assert_eq!(p.avail_files[2].fd_index, 6);
}

#[test]
fn untrack_last_file_pops_partition() {
    let mut p = Program::new();
    p.add_file(FileObject::new("d", FileType::Dir, 0), 1);
    p.add_file(FileObject::new("f", FileType::File, 0), 2);
    assert!(p.remove_last_file());
    assert!(p.avail_non_dirs.is_empty());
    assert_eq!(p.avail_dirs.len(), 1);
    assert!(p.remove_last_file());
    assert!(p.avail_dirs.is_empty() && p.avail_files.is_empty());
}

#[test]
fn untrack_file_by_equality() {
    let mut p = Program::new();
    let mut f = FileObject::new("f", FileType::File, 0);
    f.xattrs.push(Xattr(String::from("user.a"), String::from("1"), 0));
    p.add_file(f.clone(), 3);
    p.add_file(FileObject::new("g", FileType::File, 0), 3);
    f.fd_index = 3;
    assert!(p.remove_file(f));
    assert_eq!(p.avail_files, vec![FileObject::new("g", FileType::File, 3)]);
    assert_eq!(p.avail_non_dirs, vec![FileObject::new("g", FileType::File, 3)]);
    p.remove_non_dir(FileObject::new("g", FileType::File, 3));
    assert!(p.avail_non_dirs.is_empty());
    assert_eq!(p.avail_files.len(), 1);
}

#[test]
fn file_description_lists_xattrs() {
    let mut f = FileObject::new("a/b", FileType::Symlink, 2);
    f.xattrs.push(Xattr(String::from("user.k"), String::from("v"), 1));
    assert_eq!(f.describe(), "Path a/b\n Type: symlink\nXattrs:\n\tuser.k:v\n\n");
    assert_eq!(FileObject::new("q", FileType::Unknown, 0).describe(), "Path q\n Type: other\nXattrs:\n\n");
}

#[test]
fn pointer_payloads() {
    assert!(Variable::new("a", VariableType::Str(String::new()), FileType::NoFile).is_pointer());
    assert!(Variable::new("a", VariableType::VoidPtr, FileType::NoFile).is_pointer());
    assert!(!Variable::new("a", VariableType::Long(1), FileType::NoFile).is_pointer());
    assert!(!Variable::new("a", VariableType::MmapBase, FileType::Mmap).is_pointer());
}
