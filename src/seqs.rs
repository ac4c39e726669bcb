//! Membership and equality-based removal on the index lists and record lists
//! that a program keeps.
use vstd::prelude::*;
use crate::fileobject::{same_file, FileObject};
use crate::syscall::{same_syscall, Syscall};

verus! {

/// `s` with every occurrence of `x` left out, order kept.
pub open spec fn without_index(s: Seq<i64>, x: i64) -> Seq<i64> {
    s.filter(differs_from(x))
}

/// Holds of the indices other than `x`.
pub open spec fn differs_from(x: i64) -> spec_fn(i64) -> bool {
    |y: i64| y != x
}

/// `s` with every record equal to `c` left out, order kept.
pub open spec fn without_syscall(s: Seq<Syscall>, c: Syscall) -> Seq<Syscall> {
    s.filter(syscall_differs_from(c))
}

/// Holds of the records that differ from `c`.
pub open spec fn syscall_differs_from(c: Syscall) -> spec_fn(Syscall) -> bool {
    |y: Syscall| !same_syscall(y, c)
}

/// `s` with every file object equal to `f` left out, order kept.
pub open spec fn without_file(s: Seq<FileObject>, f: FileObject) -> Seq<FileObject> {
    s.filter(file_differs_from(f))
}

/// Holds of the file objects that differ from `f`.
pub open spec fn file_differs_from(f: FileObject) -> spec_fn(FileObject) -> bool {
    |y: FileObject| !same_file(y, f)
}

/// `s` with `x` added at the end, unless it is there already.
pub open spec fn with_index(s: Seq<i64>, x: i64) -> Seq<i64> {
    if s.contains(x) {
        s
    } else {
        s.push(x)
    }
}

/// Filtering a prefix one element longer keeps or drops just that element.
pub proof fn lemma_filter_extend<T>(s: Seq<T>, p: spec_fn(T) -> bool, k: int)
    requires
        0 <= k < s.len(),
    ensures
        s.subrange(0, k + 1).filter(p) == (if p(s[k]) {
            s.subrange(0, k).filter(p).push(s[k])
        } else {
            s.subrange(0, k).filter(p)
        }),
{
    reveal(Seq::filter);
    assert(s.subrange(0, k + 1).drop_last() =~= s.subrange(0, k));
}

/// Filtering keeps every element when the predicate holds of all of them.
pub proof fn lemma_filter_all<T>(s: Seq<T>, p: spec_fn(T) -> bool)
    requires
        forall|i: int| 0 <= i < s.len() ==> p(#[trigger] s[i]),
    ensures
        s.filter(p) == s,
    decreases s.len(),
{
    reveal(Seq::filter);
    if s.len() > 0 {
        lemma_filter_all(s.drop_last(), p);
        assert(s.drop_last().push(s.last()) =~= s);
    }
}

/// Whether `x` occurs in `v`.
pub fn contains_index(v: &Vec<i64>, x: i64) -> (r: bool)
    ensures
        r == v@.contains(x),
{
    let mut i: usize = 0;
    while i < v.len()
        invariant
            i <= v@.len(),
            forall|j: int| 0 <= j < i ==> v@[j] != x,
        decreases v@.len() - i,
    {
        if v[i] == x {
            return true;
        }
        i = i + 1;
    }
    false
}

/// Adds `x` at the end of `v` unless it is there already.
pub fn insert_index(v: &mut Vec<i64>, x: i64)
    ensures
        final(v)@ == with_index(old(v)@, x),
{
    if !contains_index(v, x) {
        v.push(x);
    }
}

/// Removes every occurrence of `x` from `v`, keeping the order of the rest.
pub fn remove_index(v: &mut Vec<i64>, x: i64)
    ensures
        final(v)@ == without_index(old(v)@, x),
{
    let ghost orig = v@;
    let mut i: usize = 0;
    let ghost mut k: int = 0;
    while i < v.len()
        invariant
            0 <= i <= v@.len(),
            0 <= k <= orig.len(),
            v@.len() - i == orig.len() - k,
            v@.subrange(0, i as int) == without_index(orig.subrange(0, k), x),
            v@.subrange(i as int, v@.len() as int) == orig.subrange(k, orig.len() as int),
        decreases v@.len() - i,
    {
        proof {
            assert(orig[k] == v@[i as int]) by {
                assert(orig.subrange(k, orig.len() as int)[0] == v@.subrange(i as int, v@.len() as int)[0]);
            }
            lemma_filter_extend(orig, differs_from(x), k);
        }
        if v[i] == x {
            let ghost before = v@;
            assert(orig[k] == x);
            assert(!differs_from(x)(orig[k]));
            v.remove(i);
            proof {
                assert(v@.subrange(0, i as int) =~= before.subrange(0, i as int));
                assert(v@.subrange(i as int, v@.len() as int) =~= before.subrange(i as int + 1, before.len() as int));
                assert(orig.subrange(k + 1, orig.len() as int) =~= orig.subrange(k, orig.len() as int).subrange(1, orig.len() - k));
                k = k + 1;
            }
        } else {
            proof {
                assert(orig[k] != x);
                assert(differs_from(x)(orig[k]));
                assert(v@.subrange(0, i as int + 1) =~= v@.subrange(0, i as int).push(v@[i as int]));
                assert(orig.subrange(k + 1, orig.len() as int) =~= orig.subrange(k, orig.len() as int).subrange(1, orig.len() - k));
                k = k + 1;
            }
            i = i + 1;
        }
    }
    proof {
        assert(v@.subrange(0, i as int) =~= v@);
        assert(orig.subrange(k, orig.len() as int).len() == 0);
        assert(orig.subrange(0, k) =~= orig);
    }
}

/// Removes every record equal to `x` from `v`, keeping the order of the rest.
pub fn remove_syscall_records(v: &mut Vec<Syscall>, x: &Syscall)
    ensures
        final(v)@ == without_syscall(old(v)@, *x),
{
    let ghost orig = v@;
    let mut i: usize = 0;
    let ghost mut k: int = 0;
    while i < v.len()
        invariant
            0 <= i <= v@.len(),
            0 <= k <= orig.len(),
            v@.len() - i == orig.len() - k,
            v@.subrange(0, i as int) == without_syscall(orig.subrange(0, k), *x),
            v@.subrange(i as int, v@.len() as int) == orig.subrange(k, orig.len() as int),
        decreases v@.len() - i,
    {
        proof {
            assert(orig[k] == v@[i as int]) by {
                assert(orig.subrange(k, orig.len() as int)[0] == v@.subrange(i as int, v@.len() as int)[0]);
            }
            lemma_filter_extend(orig, syscall_differs_from(*x), k);
        }
        if v[i].eq(x) {
            let ghost before = v@;
            assert(same_syscall(orig[k], *x));
            assert(!syscall_differs_from(*x)(orig[k]));
            v.remove(i);
            proof {
                assert(v@.subrange(0, i as int) =~= before.subrange(0, i as int));
                assert(v@.subrange(i as int, v@.len() as int) =~= before.subrange(i as int + 1, before.len() as int));
                assert(orig.subrange(k + 1, orig.len() as int) =~= orig.subrange(k, orig.len() as int).subrange(1, orig.len() - k));
                k = k + 1;
            }
        } else {
            proof {
                assert(!same_syscall(orig[k], *x));
                assert(syscall_differs_from(*x)(orig[k]));
                assert(v@.subrange(0, i as int + 1) =~= v@.subrange(0, i as int).push(v@[i as int]));
                assert(orig.subrange(k + 1, orig.len() as int) =~= orig.subrange(k, orig.len() as int).subrange(1, orig.len() - k));
                k = k + 1;
            }
            i = i + 1;
        }
    }
    proof {
        assert(v@.subrange(0, i as int) =~= v@);
        assert(orig.subrange(k, orig.len() as int).len() == 0);
        assert(orig.subrange(0, k) =~= orig);
    }
}

/// Removes every file object equal to `x` from `v`, keeping the order of the rest.
pub fn remove_file_objects(v: &mut Vec<FileObject>, x: &FileObject)
    ensures
        final(v)@ == without_file(old(v)@, *x),
{
    let ghost orig = v@;
    let mut i: usize = 0;
    let ghost mut k: int = 0;
    while i < v.len()
        invariant
            0 <= i <= v@.len(),
            0 <= k <= orig.len(),
            v@.len() - i == orig.len() - k,
            v@.subrange(0, i as int) == without_file(orig.subrange(0, k), *x),
            v@.subrange(i as int, v@.len() as int) == orig.subrange(k, orig.len() as int),
        decreases v@.len() - i,
    {
        proof {
            assert(orig[k] == v@[i as int]) by {
                assert(orig.subrange(k, orig.len() as int)[0] == v@.subrange(i as int, v@.len() as int)[0]);
            }
            lemma_filter_extend(orig, file_differs_from(*x), k);
        }
        if v[i].eq(x) {
            let ghost before = v@;
            assert(same_file(orig[k], *x));
            assert(!file_differs_from(*x)(orig[k]));
            v.remove(i);
            proof {
                assert(v@.subrange(0, i as int) =~= before.subrange(0, i as int));
                assert(v@.subrange(i as int, v@.len() as int) =~= before.subrange(i as int + 1, before.len() as int));
                assert(orig.subrange(k + 1, orig.len() as int) =~= orig.subrange(k, orig.len() as int).subrange(1, orig.len() - k));
                k = k + 1;
            }
        } else {
            proof {
                assert(!same_file(orig[k], *x));
                assert(file_differs_from(*x)(orig[k]));
                assert(v@.subrange(0, i as int + 1) =~= v@.subrange(0, i as int).push(v@[i as int]));
                assert(orig.subrange(k + 1, orig.len() as int) =~= orig.subrange(k, orig.len() as int).subrange(1, orig.len() - k));
                k = k + 1;
            }
            i = i + 1;
        }
    }
    proof {
        assert(v@.subrange(0, i as int) =~= v@);
        assert(orig.subrange(k, orig.len() as int).len() == 0);
        assert(orig.subrange(0, k) =~= orig);
    }
}

} // verus!
