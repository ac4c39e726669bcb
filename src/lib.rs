//! An intermediate representation for sequences of filesystem system calls,
//! with a deterministic renderer that turns a program into C source text.
//!
//! A `Program` is grown by allocating variables, recording system calls and
//! tracking file objects, and shrunk by the matching undo operations; each
//! operation's contract says exactly how every list of the program changes.
pub mod arg;
pub mod fileobject;
pub mod laws;
pub mod program;
pub mod render;
pub mod seqs;
pub mod syscall;
pub mod text;
pub mod types;
pub mod variables;

pub use crate::arg::Arg;
pub use crate::fileobject::{FileObject, Xattr};
pub use crate::program::Program;
pub use crate::render::{get_headers, get_syscall, RenderError};
pub use crate::syscall::{num_to_name, SysNo, Syscall};
pub use crate::types::{FileType, VariableType};
pub use crate::variables::Variable;
