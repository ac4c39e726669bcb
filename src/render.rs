//! Turns a program into C source text: the fixed preamble, one declaration
//! per variable, one `syscall()` statement per record, a `close()` per open
//! descriptor, and a trailing comment that lists descriptors and file paths.
use vstd::prelude::*;
use vstd::utf8::encode_utf8;
use crate::arg::Arg;
use crate::fileobject::FileObject;
use crate::program::Program;
use crate::syscall::{num_to_name, sys_name, Syscall};
use crate::text::{decimal_int, push_decimal_i64, push_quoted, quoted};
use crate::types::VariableType;
use crate::variables::{has_text_form, Variable};

verus! {

/// The first variable, by index, whose payload has no C declaration.
#[derive(Clone, Copy, Debug, PartialEq, Eq, Structural)]
pub struct RenderError {
    pub index: usize,
}

/// The preamble of every generated program.
pub open spec fn headers_text() -> Seq<char> {
    "#define _GNU_SOURCE\n#include <sys/types.h>\n#include <sys/mount.h>\n#include <sys/mman.h>\n#include <sys/stat.h>\n#include <sys/xattr.h>\n#include <sys/syscall.h>\n\n#include <dirent.h>\n#include <errno.h>\n//#include <error.h>\n#include <fcntl.h>\n#include <stdio.h>\n#include <stdlib.h>\n#include <string.h>\n#include <unistd.h>\n"@
}

/// The include lines that the generated program needs.
pub fn get_headers() -> (r: String)
    ensures
        r@ == headers_text(),
{
    "#define _GNU_SOURCE\n#include <sys/types.h>\n#include <sys/mount.h>\n#include <sys/mman.h>\n#include <sys/stat.h>\n#include <sys/xattr.h>\n#include <sys/syscall.h>\n\n#include <dirent.h>\n#include <errno.h>\n//#include <error.h>\n#include <fcntl.h>\n#include <stdio.h>\n#include <stdlib.h>\n#include <string.h>\n#include <unistd.h>\n".to_string()
}

/// The argument selects a filled slot, and a reference names one of `n` variables.
pub open spec fn arg_refs_valid(a: Arg, n: nat) -> bool {
    if a.is_variable {
        a.index is Some && a.index->0 < n
    } else {
        a.value is Some
    }
}

/// The result slot and every argument refer to one of `n` variables.
pub open spec fn syscall_refs_valid(s: Syscall, n: nat) -> bool {
    &&& s.ret_index == -1 || 0 <= s.ret_index < n
    &&& forall|i: int| 0 <= i < s.args@.len() ==> arg_refs_valid(#[trigger] s.args@[i], n)
}

/// How an argument is passed: a variable by its name, widened to `long`,
/// and a literal by its decimal numeral.
pub open spec fn arg_text(vars: Seq<Variable>, a: Arg) -> Seq<char> {
    if a.is_variable {
        ", (long)"@ + vars[a.index->0 as int].name@
    } else {
        ", "@ + decimal_int(a.value->0 as int)
    }
}

pub open spec fn args_text(vars: Seq<Variable>, args: Seq<Arg>) -> Seq<char>
    decreases args.len(),
{
    if args.len() == 0 {
        Seq::empty()
    } else {
        args_text(vars, args.drop_last()) + arg_text(vars, args.last())
    }
}

/// The statement that performs one system call, assigning its result where
/// a result slot is set.
pub open spec fn syscall_text(vars: Seq<Variable>, s: Syscall) -> Seq<char> {
    (if s.ret_index != -1 {
        "\t"@ + vars[s.ret_index as int].name@ + " = syscall("@
    } else {
        "\tsyscall("@
    }) + sys_name(s.nr) + args_text(vars, s.args@) + ");\n"@
}

/// The statement for one system call of a program whose variables are `prog.variables`.
pub fn get_syscall(prog: &Program, syscall: &Syscall) -> (r: String)
    requires
        syscall_refs_valid(*syscall, prog.variables@.len()),
    ensures
        r@ == syscall_text(prog.variables@, *syscall),
{
    let n = prog.variables.len();
    let mut out = String::new();
    let sys = num_to_name(syscall.nr);
    if syscall.ret_index != -1 {
        assert(syscall.ret_index < n);
        out.append("\t");
        out.append(prog.variables[syscall.ret_index as usize].name.as_str());
        out.append(" = syscall(");
    } else {
        out.append("\tsyscall(");
    }
    out.append(sys.as_str());
    let ghost head = out@;
    let mut i: usize = 0;
    while i < syscall.args.len()
        invariant
            i <= syscall.args@.len(),
            n == prog.variables@.len(),
            syscall_refs_valid(*syscall, prog.variables@.len()),
            out@ == head + args_text(prog.variables@, syscall.args@.subrange(0, i as int)),
        decreases syscall.args@.len() - i,
    {
        let a = syscall.args[i];
        assert(arg_refs_valid(syscall.args@[i as int], n as nat));
        if a.is_variable {
            if let Some(k) = a.index {
                out.append(", (long)");
                out.append(prog.variables[k].name.as_str());
            }
        } else {
            if let Some(v) = a.value {
                out.append(", ");
                push_decimal_i64(&mut out, v);
            }
        }
        proof {
            let s = syscall.args@.subrange(0, i as int + 1);
            assert(s.drop_last() =~= syscall.args@.subrange(0, i as int));
            assert(out@ =~= head + args_text(prog.variables@, s));
        }
        i = i + 1;
    }
    assert(syscall.args@.subrange(0, syscall.args@.len() as int) =~= syscall.args@);
    out.append(");\n");
    assert(out@ =~= syscall_text(prog.variables@, *syscall));
    out
}

/// Every variable of `vars` has a C declaration.
pub open spec fn all_declarable(vars: Seq<Variable>) -> bool {
    forall|i: int| 0 <= i < vars.len() ==> has_text_form(*(#[trigger] vars[i]).var_type)
}

/// The declarations of the first `k` variables, one per line.
pub open spec fn declarations_text(vars: Seq<Variable>, k: nat) -> Seq<char>
    decreases k,
{
    if k == 0 {
        Seq::empty()
    } else {
        declarations_text(vars, (k - 1) as nat) + vars[k - 1].text() + "\n"@
    }
}

/// The call statements, each followed by a space.
pub open spec fn calls_text(vars: Seq<Variable>, ss: Seq<Syscall>) -> Seq<char>
    decreases ss.len(),
{
    if ss.len() == 0 {
        Seq::empty()
    } else {
        calls_text(vars, ss.drop_last()) + syscall_text(vars, ss.last()) + " "@
    }
}

/// A `close()` statement for each descriptor.
pub open spec fn closes_text(vars: Seq<Variable>, fds: Seq<i64>) -> Seq<char>
    decreases fds.len(),
{
    if fds.len() == 0 {
        Seq::empty()
    } else {
        closes_text(vars, fds.drop_last()) + "\tclose("@ + vars[fds.last() as int].name@ + ");\n"@
    }
}

/// The names of the descriptors, each followed by a space.
pub open spec fn fd_names_text(vars: Seq<Variable>, fds: Seq<i64>) -> Seq<char>
    decreases fds.len(),
{
    if fds.len() == 0 {
        Seq::empty()
    } else {
        fd_names_text(vars, fds.drop_last()) + vars[fds.last() as int].name@ + " "@
    }
}

/// What stands in the file list for a descriptor variable that holds no string.
pub open spec fn placeholder_text() -> Seq<char> {
    "wrong index provided to variable vector fmt::Display avail_files.iter()"@
}

/// The path bytes listed for a file object: the string its descriptor
/// variable holds, or the placeholder.
pub open spec fn listed_path(vars: Seq<Variable>, f: FileObject) -> Seq<u8> {
    match *vars[f.fd_index as int].var_type {
        VariableType::Str(s) => encode_utf8(s@),
        _ => encode_utf8(placeholder_text()),
    }
}

/// One quoted path per tracked file object.
pub open spec fn files_text(vars: Seq<Variable>, fs: Seq<FileObject>) -> Seq<char>
    decreases fs.len(),
{
    if fs.len() == 0 {
        Seq::empty()
    } else {
        files_text(vars, fs.drop_last()) + quoted(listed_path(vars, fs.last())) + "\n"@
    }
}

/// The complete source text of a program.
pub open spec fn program_text(p: Program) -> Seq<char> {
    let vars = p.variables@;
    headers_text() + "\nint main(int argc, char* argv[])\n{\n"@ + declarations_text(vars, vars.len())
        + calls_text(vars, p.syscalls@) + "\n"@ + closes_text(vars, p.active_fds@) + "\treturn 0;\n"@
        + "}\n"@ + "/* Active fds: "@ + fd_names_text(vars, p.active_fds@) + "*/\n/*Files\n"@
        + files_text(vars, p.avail_files@) + "*/\n"@
}

/// What `render` returns for `p`: the source text where every variable has a
/// declaration, and otherwise the first variable that has none.
pub open spec fn render_result(p: Program, r: Result<String, RenderError>) -> bool {
    match r {
        Ok(s) => all_declarable(p.variables@) && s@ == program_text(p),
        Err(e) => {
            &&& e.index < p.variables@.len()
            &&& !has_text_form(*p.variables@[e.index as int].var_type)
            &&& forall|j: int| 0 <= j < e.index ==> has_text_form(*(#[trigger] p.variables@[j]).var_type)
        },
    }
}

impl Program {
    /// Every index that the text refers to names an existing variable, and
    /// every argument's selected slot is filled.
    pub open spec fn refs_valid(self) -> bool {
        let n = self.variables@.len();
        &&& forall|i: int| 0 <= i < self.syscalls@.len() ==> syscall_refs_valid(#[trigger] self.syscalls@[i], n)
        &&& forall|i: int| 0 <= i < self.active_fds@.len() ==> 0 <= #[trigger] self.active_fds@[i] < n
        &&& forall|i: int| 0 <= i < self.avail_files@.len() ==> 0 <= (#[trigger] self.avail_files@[i]).fd_index < n
    }

    /// Renders the program as C source text. Rendering twice gives the same
    /// text, and the program is not changed.
    pub fn render(&self) -> (r: Result<String, RenderError>)
        requires
            self.refs_valid(),
        ensures
            render_result(*self, r),
            r is Ok <==> all_declarable(self.variables@),
    {
        let vars = &self.variables;
        let n = vars.len();
        let mut out = get_headers();
        out.append("\nint main(int argc, char* argv[])\n{\n");
        let ghost h0 = out@;
        let mut i: usize = 0;
        while i < n
            invariant
                n == vars@.len(),
                vars == &self.variables,
                i <= n,
                out@ == h0 + declarations_text(vars@, i as nat),
                forall|j: int| 0 <= j < i ==> has_text_form(*(#[trigger] vars@[j]).var_type),
            decreases n - i,
        {
            if !vars[i].write_declaration(&mut out) {
                return Err(RenderError { index: i });
            }
            out.append("\n");
            i = i + 1;
        }
        let ghost h1 = out@;
        let mut i: usize = 0;
        while i < self.syscalls.len()
            invariant
                n == vars@.len(),
                vars == &self.variables,
                self.refs_valid(),
                i <= self.syscalls@.len(),
                out@ == h1 + calls_text(vars@, self.syscalls@.subrange(0, i as int)),
            decreases self.syscalls@.len() - i,
        {
            let line = get_syscall(self, &self.syscalls[i]);
            out.append(line.as_str());
            out.append(" ");
            proof {
                let s = self.syscalls@.subrange(0, i as int + 1);
                assert(s.drop_last() =~= self.syscalls@.subrange(0, i as int));
            }
            i = i + 1;
        }
        assert(self.syscalls@.subrange(0, self.syscalls@.len() as int) =~= self.syscalls@);
        out.append("\n");
        let ghost h2 = out@;
        let mut i: usize = 0;
        while i < self.active_fds.len()
            invariant
                n == vars@.len(),
                vars == &self.variables,
                self.refs_valid(),
                i <= self.active_fds@.len(),
                out@ == h2 + closes_text(vars@, self.active_fds@.subrange(0, i as int)),
            decreases self.active_fds@.len() - i,
        {
            let k = self.active_fds[i];
            assert(0 <= k < n);
            out.append("\tclose(");
            out.append(vars[k as usize].name.as_str());
            out.append(");\n");
            proof {
                let s = self.active_fds@.subrange(0, i as int + 1);
                assert(s.drop_last() =~= self.active_fds@.subrange(0, i as int));
            }
            i = i + 1;
        }
        assert(self.active_fds@.subrange(0, self.active_fds@.len() as int) =~= self.active_fds@);
        out.append("\treturn 0;\n");
        out.append("}\n");
        out.append("/* Active fds: ");
        let ghost h3 = out@;
        let mut i: usize = 0;
        while i < self.active_fds.len()
            invariant
                n == vars@.len(),
                vars == &self.variables,
                self.refs_valid(),
                i <= self.active_fds@.len(),
                out@ == h3 + fd_names_text(vars@, self.active_fds@.subrange(0, i as int)),
            decreases self.active_fds@.len() - i,
        {
            let k = self.active_fds[i];
            assert(0 <= k < n);
            out.append(vars[k as usize].name.as_str());
            out.append(" ");
            proof {
                let s = self.active_fds@.subrange(0, i as int + 1);
                assert(s.drop_last() =~= self.active_fds@.subrange(0, i as int));
            }
            i = i + 1;
        }
        out.append("*/\n/*Files\n");
        let ghost h4 = out@;
        let mut i: usize = 0;
        while i < self.avail_files.len()
            invariant
                n == vars@.len(),
                vars == &self.variables,
                self.refs_valid(),
                i <= self.avail_files@.len(),
                out@ == h4 + files_text(vars@, self.avail_files@.subrange(0, i as int)),
            decreases self.avail_files@.len() - i,
        {
            let k = self.avail_files[i].fd_index;
            assert(0 <= k < n);
            match &*vars[k as usize].var_type {
                VariableType::Str(s) => push_quoted(&mut out, s.as_str().as_bytes()),
                _ => push_quoted(&mut out, "wrong index provided to variable vector fmt::Display avail_files.iter()".as_bytes()),
            }
            out.append("\n");
            proof {
                let s = self.avail_files@.subrange(0, i as int + 1);
                assert(s.drop_last() =~= self.avail_files@.subrange(0, i as int));
            }
            i = i + 1;
        }
        assert(self.avail_files@.subrange(0, self.avail_files@.len() as int) =~= self.avail_files@);
        assert(self.active_fds@.subrange(0, self.active_fds@.len() as int) =~= self.active_fds@);
        out.append("*/\n");
        assert(out@ =~= program_text(*self));
        Ok(out)
    }
}

} // verus!
