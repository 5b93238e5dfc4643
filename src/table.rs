//! Listings of symbolic names and error numbers, and lookups in both directions.
//!
//! An architecture's listing is a sequence of `(name, number)` entries in the
//! kernel's order of declaration. Names are unique within a listing; numbers
//! need not be, since an alias shares the number of an earlier name. Every
//! lookup returns the first matching entry, so an alias never hides the name
//! that was declared before it.
use vstd::prelude::*;
use vstd::string::StringSliceAdditionalSpecFns;

verus! {

/// One line of a listing: a symbolic name and its error number.
pub type Entry = (&'static str, u16);

/// The name of the first entry of `t` whose number is `v`.
pub open spec fn first_name(t: Seq<Entry>, v: u16) -> Option<&'static str>
    decreases t.len(),
{
    if t.len() == 0 {
        None
    } else {
        match first_name(t.drop_last(), v) {
            Some(n) => Some(n),
            None => if t.last().1 == v {
                Some(t.last().0)
            } else {
                None
            },
        }
    }
}

/// The number of the first entry of `t` whose name reads `name`.
pub open spec fn first_code(t: Seq<Entry>, name: Seq<char>) -> Option<u16>
    decreases t.len(),
{
    if t.len() == 0 {
        None
    } else {
        match first_code(t.drop_last(), name) {
            Some(c) => Some(c),
            None => if t.last().0@ == name {
                Some(t.last().1)
            } else {
                None
            },
        }
    }
}

/// Whether `j` is the first index of `t` that holds the number `v`.
pub open spec fn is_first_with_code(t: Seq<Entry>, v: u16, j: int) -> bool {
    &&& 0 <= j < t.len()
    &&& t[j].1 == v
    &&& forall|k: int| 0 <= k < j ==> t[k].1 != v
}

/// Reverse lookup: the name under which `v` was first declared in `t`.
pub fn name_in(t: &[Entry], v: u16) -> (r: Option<&'static str>)
    ensures
        r == first_name(t@, v),
{
    let mut i: usize = 0;
    while i < t.len()
        invariant
            0 <= i <= t@.len(),
            first_name(t@.subrange(0, i as int), v) is None,
        decreases t@.len() - i,
    {
        assert(t@.subrange(0, i + 1).drop_last() == t@.subrange(0, i as int));
        if t[i].1 == v {
            proof {
                lemma_first_name_prefix(t@, v, i + 1);
            }
            return Some(t[i].0);
        }
        i = i + 1;
    }
    assert(t@.subrange(0, i as int) == t@);
    None
}

/// Forward lookup: the number of the first entry of `t` named `name`.
pub fn code_in(t: &[Entry], name: &str) -> (r: Option<u16>)
    ensures
        r == first_code(t@, name@),
{
    let mut i: usize = 0;
    while i < t.len()
        invariant
            0 <= i <= t@.len(),
            first_code(t@.subrange(0, i as int), name@) is None,
        decreases t@.len() - i,
    {
        assert(t@.subrange(0, i + 1).drop_last() == t@.subrange(0, i as int));
        if same_text(t[i].0, name) {
            proof {
                lemma_first_code_prefix(t@, name@, i + 1);
            }
            return Some(t[i].1);
        }
        i = i + 1;
    }
    assert(t@.subrange(0, i as int) == t@);
    None
}

/// Whether two strings hold the same characters.
pub fn same_text(a: &str, b: &str) -> (r: bool)
    ensures
        r == (a@ == b@),
{
    let x = a.as_bytes();
    let y = b.as_bytes();
    if x.len() != y.len() {
        return false;
    }
    let mut i: usize = 0;
    while i < x.len()
        invariant
            x@ == a.spec_bytes(),
            y@ == b.spec_bytes(),
            x@.len() == y@.len(),
            0 <= i <= x@.len(),
            forall|k: int| 0 <= k < i ==> x@[k] == y@[k],
        decreases x@.len() - i,
    {
        if x[i] != y[i] {
            return false;
        }
        i = i + 1;
    }
    assert(x@ == y@);
    proof {
        vstd::utf8::encode_utf8_decode_utf8(a@);
        vstd::utf8::encode_utf8_decode_utf8(b@);
    }
    true
}

/// A name found in a prefix of a listing is the name found in the whole.
proof fn lemma_first_name_prefix(t: Seq<Entry>, v: u16, k: int)
    requires
        0 <= k <= t.len(),
        first_name(t.subrange(0, k), v) is Some,
    ensures
        first_name(t, v) == first_name(t.subrange(0, k), v),
    decreases t.len() - k,
{
    if k < t.len() {
        assert(t.subrange(0, k + 1).drop_last() == t.subrange(0, k));
        lemma_first_name_prefix(t, v, k + 1);
    } else {
        assert(t.subrange(0, k) == t);
    }
}

/// A number found in a prefix of a listing is the number found in the whole.
proof fn lemma_first_code_prefix(t: Seq<Entry>, name: Seq<char>, k: int)
    requires
        0 <= k <= t.len(),
        first_code(t.subrange(0, k), name) is Some,
    ensures
        first_code(t, name) == first_code(t.subrange(0, k), name),
    decreases t.len() - k,
{
    if k < t.len() {
        assert(t.subrange(0, k + 1).drop_last() == t.subrange(0, k));
        lemma_first_code_prefix(t, name, k + 1);
    } else {
        assert(t.subrange(0, k) == t);
    }
}

/// Reverse lookup in a listing `a` followed by a listing `b` finds what `a`
/// holds, and otherwise what `b` holds.
pub proof fn lemma_first_name_concat(a: Seq<Entry>, b: Seq<Entry>, v: u16)
    ensures
        first_name(a + b, v) == (match first_name(a, v) {
            Some(n) => Some(n),
            None => first_name(b, v),
        }),
    decreases b.len(),
{
    if b.len() == 0 {
        assert(a + b == a);
    } else {
        assert((a + b).drop_last() == a + b.drop_last());
        assert((a + b).last() == b.last());
        lemma_first_name_concat(a, b.drop_last(), v);
    }
}

/// Forward lookup in a listing `a` followed by a listing `b` finds what `a`
/// holds, and otherwise what `b` holds.
pub proof fn lemma_first_code_concat(a: Seq<Entry>, b: Seq<Entry>, name: Seq<char>)
    ensures
        first_code(a + b, name) == (match first_code(a, name) {
            Some(c) => Some(c),
            None => first_code(b, name),
        }),
    decreases b.len(),
{
    if b.len() == 0 {
        assert(a + b == a);
    } else {
        assert((a + b).drop_last() == a + b.drop_last());
        assert((a + b).last() == b.last());
        lemma_first_code_concat(a, b.drop_last(), name);
    }
}

/// A number that no entry holds has no name.
pub proof fn lemma_first_name_absent(t: Seq<Entry>, v: u16)
    requires
        forall|k: int| 0 <= k < t.len() ==> t[k].1 != v,
    ensures
        first_name(t, v) is None,
    decreases t.len(),
{
    if t.len() > 0 {
        lemma_first_name_absent(t.drop_last(), v);
    }
}

/// The name of a number is the name of the first entry that holds it.
pub proof fn lemma_first_name_at(t: Seq<Entry>, v: u16, j: int)
    requires
        is_first_with_code(t, v, j),
    ensures
        first_name(t, v) == Some(t[j].0),
    decreases t.len(),
{
    if j == t.len() - 1 {
        lemma_first_name_absent(t.drop_last(), v);
    } else {
        lemma_first_name_at(t.drop_last(), v, j);
    }
}

/// Some entry at or before `i` is the first to hold the number of entry `i`.
pub proof fn lemma_first_index(t: Seq<Entry>, i: int) -> (j: int)
    requires
        0 <= i < t.len(),
    ensures
        j <= i,
        is_first_with_code(t, t[i].1, j),
    decreases i,
{
    let v = t[i].1;
    if exists|k: int| 0 <= k < i && t[k].1 == v {
        let k = choose|k: int| 0 <= k < i && t[k].1 == v;
        lemma_first_index(t, k)
    } else {
        i
    }
}

/// Reverse lookup of a declared entry's number: the entry's own name, unless
/// an earlier entry holds the same number, and then that earlier entry's name.
pub proof fn lemma_declared_name(t: Seq<Entry>, i: int)
    requires
        0 <= i < t.len(),
    ensures
        (forall|k: int| 0 <= k < i ==> t[k].1 != t[i].1) ==> first_name(t, t[i].1) == Some(
            t[i].0,
        ),
        exists|j: int|
            j <= i && #[trigger] is_first_with_code(t, t[i].1, j) && first_name(t, t[i].1)
                == Some(t[j].0),
{
    let j = lemma_first_index(t, i);
    lemma_first_name_at(t, t[i].1, j);
    if forall|k: int| 0 <= k < i ==> t[k].1 != t[i].1 {
        lemma_first_name_at(t, t[i].1, i);
    }
}

} // verus!
