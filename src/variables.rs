//! Program variables: a named, typed slot and the C declaration it renders to.
use vstd::prelude::*;
use vstd::utf8::encode_utf8;
use crate::text::{decimal_int, decimal_nat, escape_bytes, push_decimal_i64, push_decimal_u64, push_escaped, push_quoted, quoted};
use crate::types::{FileType, VariableType};

verus! {

/// A named slot of the generated program.
#[derive(Clone, Debug)]
pub struct Variable {
    pub name: String,
    pub var_type: Box<VariableType>,
    pub kind: FileType,
}

/// The bytes of a value hold no NUL, so that it can stand in a C string literal.
pub open spec fn nul_free(bs: Seq<u8>) -> bool {
    !bs.contains(0u8)
}

/// The payload has a C declaration: an integer, a buffer, or a string, where
/// the string and a buffer's initial content hold no NUL byte.
pub open spec fn has_text_form(t: VariableType) -> bool {
    match t {
        VariableType::Long(_) => true,
        VariableType::Str(s) => nul_free(encode_utf8(s@)),
        VariableType::UCharPtr(None, _) => true,
        VariableType::UCharPtr(Some(c), _) => nul_free(c@),
        _ => false,
    }
}

/// The C declaration (and initialisation) of a variable named `name` of type `t`.
/// A buffer is filled or copied over its declared size, whatever the length
/// of its initial content.
pub open spec fn declaration_text(name: Seq<char>, t: VariableType) -> Seq<char> {
    match t {
        VariableType::Long(v) => "\tlong "@ + name + " = "@ + decimal_int(v as int) + ";\n"@,
        VariableType::Str(s) => "\tchar "@ + name + "[] = \""@ + escape_bytes(encode_utf8(s@))
            + "\\x00\";\n"@,
        VariableType::UCharPtr(None, size) => "\tunsigned char "@ + name + "["@ + decimal_nat(
            size as nat,
        ) + "];\n"@ + "\tmemset("@ + name + ", 0,"@ + decimal_nat(size as nat) + ");\n"@,
        VariableType::UCharPtr(Some(c), size) => "\tunsigned char "@ + name + "["@ + decimal_nat(
            size as nat,
        ) + "];\n"@ + "\tmemcpy("@ + name + ","@ + quoted(c@) + ","@ + decimal_nat(size as nat)
            + ");"@,
        _ => Seq::empty(),
    }
}

/// Whether `bs` holds a NUL byte.
pub fn contains_nul(bs: &[u8]) -> (r: bool)
    ensures
        r == bs@.contains(0u8),
{
    let mut i: usize = 0;
    while i < bs.len()
        invariant
            i <= bs@.len(),
            forall|j: int| 0 <= j < i ==> bs@[j] != 0u8,
        decreases bs@.len() - i,
    {
        if bs[i] == 0 {
            return true;
        }
        i = i + 1;
    }
    false
}

impl Variable {
    pub fn new(name: &str, var_type: VariableType, kind: FileType) -> (r: Self)
        ensures
            r.name@ == name@,
            *r.var_type == var_type,
            r.kind == kind,
    {
        Variable { name: name.to_string(), var_type: Box::new(var_type), kind }
    }

    /// The variable is passed by address: a string, a buffer or an opaque pointer.
    pub fn is_pointer(self) -> (r: bool)
        ensures
            r == (*self.var_type is UCharPtr || *self.var_type is Str || *self.var_type is VoidPtr),
    {
        match *self.var_type {
            VariableType::UCharPtr(_, _) | VariableType::Str(_) | VariableType::VoidPtr => true,
            _ => false,
        }
    }

    /// The C declaration of this variable.
    pub open spec fn text(&self) -> Seq<char> {
        declaration_text(self.name@, *self.var_type)
    }

    /// Appends the declaration of this variable, where it has one; leaves
    /// `out` as it was and returns `false` where it has none.
    pub fn write_declaration(&self, out: &mut String) -> (ok: bool)
        ensures
            ok == has_text_form(*self.var_type),
            ok ==> final(out)@ == old(out)@ + self.text(),
            !ok ==> final(out)@ == old(out)@,
    {
        let name = self.name.as_str();
        match &*self.var_type {
            VariableType::Long(v) => {
                out.append("\tlong ");
                out.append(name);
                out.append(" = ");
                push_decimal_i64(out, *v);
                out.append(";\n");
            },
            VariableType::Str(s) => {
                let bytes = s.as_str().as_bytes();
                if contains_nul(bytes) {
                    return false;
                }
                out.append("\tchar ");
                out.append(name);
                out.append("[] = \"");
                push_escaped(out, bytes);
                out.append("\\x00\";\n");
            },
            VariableType::UCharPtr(content, size) => {
                match content {
                    None => {
                        out.append("\tunsigned char ");
                        out.append(name);
                        out.append("[");
                        push_decimal_u64(out, *size as u64);
                        out.append("];\n");
                        out.append("\tmemset(");
                        out.append(name);
                        out.append(", 0,");
                        push_decimal_u64(out, *size as u64);
                        out.append(");\n");
                    },
                    Some(c) => {
                        if contains_nul(c.as_slice()) {
                            return false;
                        }
                        out.append("\tunsigned char ");
                        out.append(name);
                        out.append("[");
                        push_decimal_u64(out, *size as u64);
                        out.append("];\n");
                        out.append("\tmemcpy(");
                        out.append(name);
                        out.append(",");
                        push_quoted(out, c.as_slice());
                        out.append(",");
                        push_decimal_u64(out, *size as u64);
                        out.append(");");
                    },
                }
            },
            _ => {
                return false;
            },
        }
        assert(final(out)@ =~= old(out)@ + self.text());
        true
    }

    /// The C declaration of this variable, or `None` where its payload has none.
    pub fn render(&self) -> (r: Option<String>)
        ensures
            r is Some == has_text_form(*self.var_type),
            r is Some ==> r->0@ == self.text(),
    {
        let mut out = String::new();
        if self.write_declaration(&mut out) {
            assert(out@ =~= self.text());
            Some(out)
        } else {
            None
        }
    }
}

} // verus!
