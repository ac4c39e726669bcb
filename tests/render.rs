use fsprog::{get_headers, get_syscall, num_to_name, Arg, FileObject, FileType, Program, RenderError, SysNo, Syscall, Variable, VariableType};

#[test]
fn end_to_end_open_and_close() {
    let mut p = Program::new();
    assert_eq!(p.create_variable(VariableType::Str(String::from("/tmp/a"))), 0);
    assert_eq!(p.create_file_variable(VariableType::Str(String::from("/tmp/a")), FileType::File), 1);
    assert_eq!(p.active_fds, vec![1]);
    assert_eq!(p.active_file_fds, vec![1]);
    let mut s = Syscall::new_with_index(SysNo::Open, 1);
    s.add_arg(0, true);
    p.add_syscall(s);
    let text = p.render().unwrap();
    let call = text.find("\tv1 = syscall(SYS_open, (long)v0);\n").unwrap();
    let close = text.find("\tclose(v1);\n").unwrap();
    assert!(call < close);
    assert!(text.contains("\tchar v1[] = \"/tmp/a\\x00\";\n"));
    assert!(text.ends_with("/* Active fds: v1 */\n/*Files\n*/\n"));
}

#[test]
fn empty_program_text() {
    let p = Program::new();
    let expected = format!(
        "{}\nint main(int argc, char* argv[])\n{{\n\n\treturn 0;\n}}\n/* Active fds: */\n/*Files\n*/\n",
        get_headers()
    );
    assert_eq!(p.render().unwrap(), expected);
}

#[test]
fn headers_start_and_end() {
    let h = get_headers();
    assert!(h.starts_with("#define _GNU_SOURCE\n#include <sys/types.h>\n"));
    assert!(h.contains("#include <sys/syscall.h>\n\n#include <dirent.h>\n"));
    assert!(h.ends_with("#include <unistd.h>\n"));
}

#[test]
fn render_twice_is_identical() {
    let mut p = Program::new();
    p.prepare_buffers();
    let d = p.create_file_variable(VariableType::Long(-1), FileType::Dir);
    let mut s = Syscall::new(SysNo::Getdents);
    s.add_arg(d, true);
    s.add_arg(Program::SRC8192, true);
    s.add_arg(4096, false);
    p.add_syscall(s);
    p.add_file(FileObject::new("d", FileType::Dir, 0), d);
    let a = p.render().unwrap();
    let b = p.render().unwrap();
    assert_eq!(a, b);
    assert!(a.contains("\tsyscall(SYS_getdents64, (long)v2, (long)v0, 4096);\n "));
    assert!(a.contains("\tunsigned char v0[8192];\n\tmemset(v0, 0,8192);\n\n"));
    assert!(a.contains("/*Files\n\"wrong index provided to variable vector fmt::Display avail_files.iter()\"\n*/\n"));
}

#[test]
fn render_lists_file_paths() {
    let mut p = Program::new();
    let path = p.create_str("dir/f\"1");
    p.add_file(FileObject::new("f", FileType::File, 0), path);
    let text = p.render().unwrap();
    assert!(text.ends_with("/*Files\n\"dir/f\\\"1\"\n*/\n"));
}

#[test]
fn render_reports_first_undeclarable_variable() {
    let mut p = Program::new();
    p.create_variable(VariableType::Long(1));
    p.create_variable(VariableType::VoidPtr);
    p.create_variable(VariableType::MmapBase);
    assert_eq!(p.render(), Err(RenderError { index: 1 }));
}

#[test]
fn render_rejects_string_with_nul() {
    let mut p = Program::new();
    p.create_variable(VariableType::Str(String::from("a\0b")));
    assert_eq!(p.render(), Err(RenderError { index: 0 }));
}

#[test]
fn declaration_of_long() {
    let v = Variable::new("v3", VariableType::Long(-9223372036854775808), FileType::NoFile);
    assert_eq!(v.render().unwrap(), "\tlong v3 = -9223372036854775808;\n");
    let w = Variable::new("x", VariableType::Long(120), FileType::NoFile);
    assert_eq!(w.render().unwrap(), "\tlong x = 120;\n");
}

#[test]
fn declaration_of_string_escapes_bytes() {
    let v = Variable::new("v0", VariableType::Str(String::from("a\tb\\c'\n\u{7f}é")), FileType::NoFile);
    assert_eq!(v.render().unwrap(), "\tchar v0[] = \"a\\tb\\\\c\\'\\n\\x7f\\xc3\\xa9\\x00\";\n");
}

#[test]
fn declaration_of_zeroed_buffer() {
    let v = Variable::new("v0", VariableType::UCharPtr(None, 8192), FileType::NoFile);
    assert_eq!(v.render().unwrap(), "\tunsigned char v0[8192];\n\tmemset(v0, 0,8192);\n");
}

#[test]
fn declaration_of_filled_buffer() {
    let v = Variable::new("b", VariableType::UCharPtr(Some(vec![1, b'a', b'"', 255]), 3), FileType::NoFile);
    assert_eq!(v.render().unwrap(), "\tunsigned char b[3];\n\tmemcpy(b,\"\\x01a\\\"\\xff\",3);");
}

#[test]
fn declaration_missing_for_pointer_kinds() {
    assert!(Variable::new("p", VariableType::VoidPtr, FileType::NoFile).render().is_none());
    assert!(Variable::new("m", VariableType::MmapBase, FileType::Mmap).render().is_none());
    assert!(Variable::new("u", VariableType::Unknown, FileType::NoFile).render().is_none());
    assert!(Variable::new("z", VariableType::UCharPtr(Some(vec![0]), 1), FileType::NoFile).render().is_none());
}

#[test]
fn syscall_statement_without_result() {
    let mut p = Program::new();
    p.create_variable(VariableType::Long(3));
    let mut s = Syscall::new(SysNo::Pwrite);
    s.add_arg(0, true);
    s.add_arg(-5, false);
    s.add_arg(-1, true);
    assert_eq!(get_syscall(&p, &s), "\tsyscall(SYS_pwrite64, (long)v0, -5, -1);\n");
}

#[test]
fn syscall_names() {
    assert_eq!(num_to_name(SysNo::Open), "SYS_open");
    assert_eq!(num_to_name(SysNo::Pread), "SYS_pread64");
    assert_eq!(num_to_name(SysNo::Getdents), "SYS_getdents64");
    assert_eq!(num_to_name(SysNo::Listxattr), "SYS_listxattr");
    assert_eq!(num_to_name(SysNo::Fdatasync), "SYS_fdatasync");
}

#[test]
fn arg_construction() {
    assert_eq!(Arg::new(4, true), Arg { value: None, index: Some(4), is_variable: true });
    assert_eq!(Arg::new(4, false), Arg { value: Some(4), index: None, is_variable: false });
    assert_eq!(Arg::new(-2, true), Arg { value: Some(-2), index: None, is_variable: false });
}
