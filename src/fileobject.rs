//! Tracked filesystem entities: a path, its kind, its extended attributes,
//! and the variable that holds its descriptor.
use vstd::prelude::*;
use crate::types::FileType;

verus! {

/// One extended attribute: name, value and flags.
#[derive(Clone, Debug, Hash)]
pub struct Xattr(pub String, pub String, pub i64);

/// A filesystem entity that the program knows of.
#[derive(Clone, Debug, Hash)]
pub struct FileObject {
    pub rel_path: String,
    pub ftype: FileType,
    pub xattrs: Vec<Xattr>,
    pub fd_index: i64,
}

/// Two attributes agree in name, value and flags.
pub open spec fn same_xattr(a: Xattr, b: Xattr) -> bool {
    a.0@ == b.0@ && a.1@ == b.1@ && a.2 == b.2
}

/// Two attribute lists agree entry by entry.
pub open spec fn same_xattrs(a: Seq<Xattr>, b: Seq<Xattr>) -> bool {
    a.len() == b.len() && forall|i: int| 0 <= i < a.len() ==> same_xattr(#[trigger] a[i], b[i])
}

/// Two file objects agree in every field.
pub open spec fn same_file(a: FileObject, b: FileObject) -> bool {
    a.rel_path@ == b.rel_path@ && a.ftype == b.ftype && same_xattrs(a.xattrs@, b.xattrs@)
        && a.fd_index == b.fd_index
}

impl PartialEq for Xattr {
    fn eq(&self, o: &Xattr) -> (r: bool) {
        self.0 == o.0 && self.1 == o.1 && self.2 == o.2
    }
}

impl vstd::std_specs::cmp::PartialEqSpecImpl for Xattr {
    open spec fn obeys_eq_spec() -> bool {
        true
    }

    open spec fn eq_spec(&self, o: &Xattr) -> bool {
        same_xattr(*self, *o)
    }
}

impl Eq for Xattr {}

impl PartialEq for FileObject {
    fn eq(&self, o: &FileObject) -> (r: bool) {
        if !(self.rel_path == o.rel_path && self.ftype == o.ftype && self.fd_index == o.fd_index) {
            return false;
        }
        if self.xattrs.len() != o.xattrs.len() {
            return false;
        }
        let mut i: usize = 0;
        while i < self.xattrs.len()
            invariant
                i <= self.xattrs@.len() == o.xattrs@.len(),
                forall|j: int| 0 <= j < i ==> same_xattr(#[trigger] self.xattrs@[j], o.xattrs@[j]),
            decreases self.xattrs@.len() - i,
        {
            if !(self.xattrs[i] == o.xattrs[i]) {
                return false;
            }
            i = i + 1;
        }
        true
    }
}

impl vstd::std_specs::cmp::PartialEqSpecImpl for FileObject {
    open spec fn obeys_eq_spec() -> bool {
        true
    }

    open spec fn eq_spec(&self, o: &FileObject) -> bool {
        same_file(*self, *o)
    }
}

impl Eq for FileObject {}

/// The word that describes a kind of file.
pub open spec fn ftype_word(t: FileType) -> Seq<char> {
    match t {
        FileType::Symlink => "symlink"@,
        FileType::File => "file"@,
        FileType::Dir => "dir"@,
        FileType::Fifo => "fifo"@,
        _ => "other"@,
    }
}

/// One line per attribute: its name and value.
pub open spec fn xattr_lines(xs: Seq<Xattr>) -> Seq<char>
    decreases xs.len(),
{
    if xs.len() == 0 {
        Seq::empty()
    } else {
        xattr_lines(xs.drop_last()) + "\t"@ + xs.last().0@ + ":"@ + xs.last().1@ + "\n"@
    }
}

/// A readable summary of a file object: path, kind and attributes.
pub open spec fn file_description(f: FileObject) -> Seq<char> {
    "Path "@ + f.rel_path@ + "\n Type: "@ + ftype_word(f.ftype) + "\nXattrs:\n"@ + xattr_lines(
        f.xattrs@,
    ) + "\n"@
}

impl Xattr {
    /// A copy that agrees in every field.
    pub fn duplicate(&self) -> (r: Xattr)
        ensures
            same_xattr(r, *self),
    {
        Xattr(self.0.clone(), self.1.clone(), self.2)
    }
}

impl FileObject {
    /// A file object at `path` of kind `ftype`, with no attributes.
    pub fn new(path: &str, ftype: FileType, fd_index: i64) -> (r: Self)
        ensures
            r.rel_path@ == path@,
            r.ftype == ftype,
            r.xattrs@.len() == 0,
            r.fd_index == fd_index,
    {
        FileObject { rel_path: path.to_string(), ftype, xattrs: Vec::new(), fd_index }
    }

    /// A copy that agrees in every field.
    pub fn duplicate(&self) -> (r: FileObject)
        ensures
            same_file(r, *self),
    {
        let mut xattrs: Vec<Xattr> = Vec::new();
        let mut i: usize = 0;
        while i < self.xattrs.len()
            invariant
                i <= self.xattrs@.len(),
                xattrs@.len() == i,
                forall|j: int| 0 <= j < i ==> same_xattr(#[trigger] xattrs@[j], self.xattrs@[j]),
            decreases self.xattrs@.len() - i,
        {
            xattrs.push(self.xattrs[i].duplicate());
            i = i + 1;
        }
        FileObject { rel_path: self.rel_path.clone(), ftype: self.ftype, xattrs, fd_index: self.fd_index }
    }

    /// A readable summary: path, kind and attributes.
    pub fn describe(&self) -> (r: String)
        ensures
            r@ == file_description(*self),
    {
        let mut out = String::new();
        out.append("Path ");
        out.append(self.rel_path.as_str());
        out.append("\n Type: ");
        match self.ftype {
            FileType::Symlink => out.append("symlink"),
            FileType::File => out.append("file"),
            FileType::Dir => out.append("dir"),
            FileType::Fifo => out.append("fifo"),
            _ => out.append("other"),
        }
        out.append("\nXattrs:\n");
        let mut i: usize = 0;
        while i < self.xattrs.len()
            invariant
                i <= self.xattrs@.len(),
                out@ == "Path "@ + self.rel_path@ + "\n Type: "@ + ftype_word(self.ftype)
                    + "\nXattrs:\n"@ + xattr_lines(self.xattrs@.subrange(0, i as int)),
            decreases self.xattrs@.len() - i,
        {
            let x = &self.xattrs[i];
            out.append("\t");
            out.append(x.0.as_str());
            out.append(":");
            out.append(x.1.as_str());
            out.append("\n");
            proof {
                let s = self.xattrs@.subrange(0, i as int + 1);
                assert(s.drop_last() =~= self.xattrs@.subrange(0, i as int));
            }
            i = i + 1;
        }
        assert(self.xattrs@.subrange(0, self.xattrs@.len() as int) =~= self.xattrs@);
        out.append("\n");
        out
    }
}

} // verus!
