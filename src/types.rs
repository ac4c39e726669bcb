//! The closed variant sets of the value model: what a variable holds and
//! which kind of filesystem resource, if any, it stands for.
use vstd::prelude::*;

verus! {

/// The declared type of a program variable, with its initial value.
#[derive(Clone, Debug)]
pub enum VariableType {
    /// A 64-bit signed integer.
    Long(i64),
    /// A character array initialised from a string.
    Str(String),
    /// A fixed-size byte buffer, optionally initialised from given content.
    UCharPtr(Option<Vec<u8>>, u32),
    VoidPtr,
    MmapBase,
    Unknown,
}

/// Which filesystem resource a variable stands for.
#[derive(Clone, Copy, Debug, PartialEq, Eq, Hash, Structural)]
pub enum FileType {
    /// Not a filesystem resource.
    NoFile,
    File,
    Dir,
    Symlink,
    Fifo,
    Mmap,
    Unknown,
}

/// A kind that is held by an open descriptor: file, directory, symlink or fifo.
pub open spec fn is_fd_kind(k: FileType) -> bool {
    k == FileType::File || k == FileType::Dir || k == FileType::Symlink || k == FileType::Fifo
}

/// A descriptor kind other than a directory.
pub open spec fn is_non_dir_kind(k: FileType) -> bool {
    k == FileType::File || k == FileType::Symlink || k == FileType::Fifo
}

pub fn is_descriptor_kind(k: FileType) -> (r: bool)
    ensures
        r == is_fd_kind(k),
{
    match k {
        FileType::File | FileType::Dir | FileType::Symlink | FileType::Fifo => true,
        _ => false,
    }
}

pub fn is_non_dir_descriptor_kind(k: FileType) -> (r: bool)
    ensures
        r == is_non_dir_kind(k),
{
    match k {
        FileType::File | FileType::Symlink | FileType::Fifo => true,
        _ => false,
    }
}

} // verus!
