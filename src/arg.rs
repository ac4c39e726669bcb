//! One argument of a system call: a literal value or a reference to a variable.
use vstd::prelude::*;

verus! {

/// A literal (`value`) or a variable reference (`index`), as `is_variable` says.
#[derive(Clone, Copy, Debug, PartialEq, Eq, Structural)]
pub struct Arg {
    pub value: Option<i64>,
    pub index: Option<usize>,
    pub is_variable: bool,
}

impl Arg {
    /// A reference to variable `x` when `is_variable` holds and `x` is not
    /// negative; a literal `x` otherwise.
    pub fn new(x: i64, is_variable: bool) -> (r: Self)
        ensures
            is_variable && x >= 0 ==> r == (Arg { value: None, index: Some(x as usize), is_variable: true }),
            !(is_variable && x >= 0) ==> r == (Arg { value: Some(x), index: None, is_variable: false }),
    {
        if is_variable && x >= 0 {
            Arg { value: None, index: Some(x as usize), is_variable: true }
        } else {
            Arg { value: Some(x), index: None, is_variable: false }
        }
    }

    /// The slot that `is_variable` selects is filled.
    pub open spec fn well_formed(&self) -> bool {
        if self.is_variable {
            self.index is Some
        } else {
            self.value is Some
        }
    }
}

} // verus!
