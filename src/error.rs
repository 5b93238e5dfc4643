//! The validated error-number type and its equality with, and conversion
//! into, the integer types that hold raw error numbers.
use vstd::prelude::*;
use vstd::std_specs::cmp::{PartialEqSpec, PartialOrdSpec};
use vstd::std_specs::convert::FromSpec;

verus! {

/// Largest error number a Linux system call can return.
pub const MAX_ERRNO: u16 = 4095;

/// An error number returned from a Linux system call.
///
/// The value always lies in `[1, 4095]`; two errors are equal exactly when
/// their numbers are, and they are ordered by their numbers.
#[derive(Clone, Copy, Debug, Hash, Ord)]
pub struct Error(u16);

/// Whether `v` is a Linux error number.
pub open spec fn is_errno(v: int) -> bool {
    1 <= v <= MAX_ERRNO
}

impl Error {
    #[verifier::type_invariant]
    spec fn in_range(self) -> bool {
        is_errno(self.0 as int)
    }

    /// The numeric value of the error. The type invariant keeps the stored
    /// number in range, so the fallback branch is never taken by a real value.
    pub closed spec fn value(self) -> u16 {
        if is_errno(self.0 as int) {
            self.0
        } else {
            1
        }
    }

    /// Every error's number lies in `[1, 4095]`.
    pub proof fn lemma_value_in_range(self)
        ensures
            is_errno(self.value() as int),
    {
    }

    /// Create an error from a raw error number. Outside `[1, 4095]` there is
    /// no error to create, and the result is `None`.
    pub fn new(errno: u16) -> (r: Option<Error>)
        ensures
            r is Some <==> is_errno(errno as int),
            r matches Some(e) ==> e.value() == errno,
    {
        if errno > MAX_ERRNO {
            return errno_out_of_range();
        }
        if errno == 0 {
            return errno_out_of_range();
        }
        Some(Error(errno))
    }

    /// Create an error from a number the caller knows to lie in `[1, 4095]`,
    /// such as one of the constants of an architecture's listing.
    pub fn new_unchecked(errno: u16) -> (r: Error)
        requires
            is_errno(errno as int),
        ensures
            r.value() == errno,
    {
        Error(errno)
    }

    /// Returns the error number as a primitive `u16`.
    pub fn get(&self) -> (r: u16)
        ensures
            r == self.value(),
            is_errno(r as int),
    {
        proof {
            use_type_invariant(self);
        }
        self.0
    }
}

/// The result of `Error::new` on a number outside `[1, 4095]`.
fn errno_out_of_range() -> (r: Option<Error>)
    ensures
        r is None,
{
    None
}

impl PartialEq for Error {
    fn eq(&self, other: &Error) -> (r: bool) {
        self.get() == other.get()
    }
}

impl vstd::std_specs::cmp::PartialEqSpecImpl for Error {
    open spec fn obeys_eq_spec() -> bool {
        true
    }

    open spec fn eq_spec(&self, other: &Error) -> bool {
        self.value() == other.value()
    }
}

impl Eq for Error {
}

impl PartialOrd for Error {
    fn partial_cmp(&self, other: &Error) -> (r: Option<core::cmp::Ordering>) {
        let a = self.get();
        let b = other.get();
        if a < b {
            Some(core::cmp::Ordering::Less)
        } else if a == b {
            Some(core::cmp::Ordering::Equal)
        } else {
            Some(core::cmp::Ordering::Greater)
        }
    }
}

impl vstd::std_specs::cmp::PartialOrdSpecImpl for Error {
    open spec fn obeys_partial_cmp_spec() -> bool {
        true
    }

    open spec fn partial_cmp_spec(&self, other: &Error) -> Option<core::cmp::Ordering> {
        Some(value_order(self.value(), other.value()))
    }
}

/// Read as a `u16`, a negative `i16` lies above every error number.
proof fn lemma_i16_bits(x: i16)
    ensures
        x < 0 ==> (x as u16) > MAX_ERRNO,
        x >= 0 ==> (x as u16) == x,
{
    assert(x < 0 ==> (x as u16) > 4095u16) by (bit_vector);
}

/// Read as a `usize`, a negative `isize` lies above every error number.
proof fn lemma_isize_bits(x: isize)
    ensures
        x < 0 ==> (x as usize) > MAX_ERRNO,
        x >= 0 ==> (x as usize) == x,
{
    assert(x < 0 ==> (x as usize) > 4095usize) by (bit_vector);
}

/// Equality of errors is equality of their numbers. It is reflexive,
/// symmetric and transitive, and it agrees with the ordering, which is the
/// ordering of the numbers.
pub proof fn lemma_eq_by_value(a: Error, b: Error, c: Error)
    ensures
        a.eq_spec(&b) <==> a.value() == b.value(),
        a.eq_spec(&a),
        a.eq_spec(&b) ==> b.eq_spec(&a),
        a.eq_spec(&b) && b.eq_spec(&c) ==> a.eq_spec(&c),
        a.partial_cmp_spec(&b) == Some(core::cmp::Ordering::Equal) <==> a.eq_spec(&b),
        a.partial_cmp_spec(&b) == Some(core::cmp::Ordering::Less) <==> a.value() < b.value(),
        a.partial_cmp_spec(&b) == Some(core::cmp::Ordering::Greater) <==> a.value() > b.value(),
{
}

/// Converting an error into any of the integer widths keeps its number, and
/// that number, read back as a `u16`, lies in `[1, 4095]`, so `Error::new`
/// gives back an error equal to the first.
pub proof fn lemma_round_trip(e: Error)
    ensures
        is_errno(e.value() as int),
        <u16 as FromSpec<Error>>::from_spec(e) == e.value(),
        <u32 as FromSpec<Error>>::from_spec(e) as int == e.value() as int,
        <i32 as FromSpec<Error>>::from_spec(e) as int == e.value() as int,
        <u64 as FromSpec<Error>>::from_spec(e) as int == e.value() as int,
        <i64 as FromSpec<Error>>::from_spec(e) as int == e.value() as int,
        <u32 as FromSpec<Error>>::from_spec(e) as u16 == e.value(),
        <i32 as FromSpec<Error>>::from_spec(e) as u16 == e.value(),
        <u64 as FromSpec<Error>>::from_spec(e) as u16 == e.value(),
        <i64 as FromSpec<Error>>::from_spec(e) as u16 == e.value(),
{
}

/// How two error numbers compare.
pub open spec fn value_order(a: u16, b: u16) -> core::cmp::Ordering {
    if a < b {
        core::cmp::Ordering::Less
    } else if a == b {
        core::cmp::Ordering::Equal
    } else {
        core::cmp::Ordering::Greater
    }
}

impl From<Error> for u16 {
    fn from(err: Error) -> (r: u16) {
        err.get()
    }
}

impl vstd::std_specs::convert::FromSpecImpl<Error> for u16 {
    open spec fn obeys_from_spec() -> bool {
        true
    }

    open spec fn from_spec(err: Error) -> u16 {
        err.value() as u16
    }
}

impl From<Error> for u32 {
    fn from(err: Error) -> (r: u32) {
        err.get() as u32
    }
}

impl vstd::std_specs::convert::FromSpecImpl<Error> for u32 {
    open spec fn obeys_from_spec() -> bool {
        true
    }

    open spec fn from_spec(err: Error) -> u32 {
        err.value() as u32
    }
}

impl From<Error> for i32 {
    fn from(err: Error) -> (r: i32) {
        err.get() as i32
    }
}

impl vstd::std_specs::convert::FromSpecImpl<Error> for i32 {
    open spec fn obeys_from_spec() -> bool {
        true
    }

    open spec fn from_spec(err: Error) -> i32 {
        err.value() as i32
    }
}

impl From<Error> for u64 {
    fn from(err: Error) -> (r: u64) {
        err.get() as u64
    }
}

impl vstd::std_specs::convert::FromSpecImpl<Error> for u64 {
    open spec fn obeys_from_spec() -> bool {
        true
    }

    open spec fn from_spec(err: Error) -> u64 {
        err.value() as u64
    }
}

impl From<Error> for i64 {
    fn from(err: Error) -> (r: i64) {
        err.get() as i64
    }
}

impl vstd::std_specs::convert::FromSpecImpl<Error> for i64 {
    open spec fn obeys_from_spec() -> bool {
        true
    }

    open spec fn from_spec(err: Error) -> i64 {
        err.value() as i64
    }
}

impl PartialEq<i16> for Error {
    fn eq(&self, other: &i16) -> (r: bool) {
        proof {
            lemma_i16_bits(*other);
        }
        (*other as u16) == self.get()
    }
}

impl vstd::std_specs::cmp::PartialEqSpecImpl<i16> for Error {
    open spec fn obeys_eq_spec() -> bool {
        true
    }

    open spec fn eq_spec(&self, other: &i16) -> bool {
        *other as int == self.value() as int
    }
}

impl PartialEq<Error> for i16 {
    fn eq(&self, other: &Error) -> (r: bool) {
        proof {
            lemma_i16_bits(*self);
        }
        (*self as u16) == other.get()
    }
}

impl vstd::std_specs::cmp::PartialEqSpecImpl<Error> for i16 {
    open spec fn obeys_eq_spec() -> bool {
        true
    }

    open spec fn eq_spec(&self, other: &Error) -> bool {
        *self as int == other.value() as int
    }
}

impl PartialEq<isize> for Error {
    fn eq(&self, other: &isize) -> (r: bool) {
        proof {
            lemma_isize_bits(*other);
        }
        (*other as usize) == (self.get() as usize)
    }
}

impl vstd::std_specs::cmp::PartialEqSpecImpl<isize> for Error {
    open spec fn obeys_eq_spec() -> bool {
        true
    }

    open spec fn eq_spec(&self, other: &isize) -> bool {
        *other as int == self.value() as int
    }
}

impl PartialEq<Error> for isize {
    fn eq(&self, other: &Error) -> (r: bool) {
        proof {
            lemma_isize_bits(*self);
        }
        (*self as usize) == (other.get() as usize)
    }
}

impl vstd::std_specs::cmp::PartialEqSpecImpl<Error> for isize {
    open spec fn obeys_eq_spec() -> bool {
        true
    }

    open spec fn eq_spec(&self, other: &Error) -> bool {
        *self as int == other.value() as int
    }
}

impl PartialEq<i32> for Error {
    fn eq(&self, other: &i32) -> (r: bool) {
        (self.get() as i32) == *other
    }
}

impl vstd::std_specs::cmp::PartialEqSpecImpl<i32> for Error {
    open spec fn obeys_eq_spec() -> bool {
        true
    }

    open spec fn eq_spec(&self, other: &i32) -> bool {
        *other as int == self.value() as int
    }
}

impl PartialEq<Error> for i32 {
    fn eq(&self, other: &Error) -> (r: bool) {
        (other.get() as i32) == *self
    }
}

impl vstd::std_specs::cmp::PartialEqSpecImpl<Error> for i32 {
    open spec fn obeys_eq_spec() -> bool {
        true
    }

    open spec fn eq_spec(&self, other: &Error) -> bool {
        *self as int == other.value() as int
    }
}

impl PartialEq<i64> for Error {
    fn eq(&self, other: &i64) -> (r: bool) {
        (self.get() as i64) == *other
    }
}

impl vstd::std_specs::cmp::PartialEqSpecImpl<i64> for Error {
    open spec fn obeys_eq_spec() -> bool {
        true
    }

    open spec fn eq_spec(&self, other: &i64) -> bool {
        *other as int == self.value() as int
    }
}

impl PartialEq<Error> for i64 {
    fn eq(&self, other: &Error) -> (r: bool) {
        (other.get() as i64) == *self
    }
}

impl vstd::std_specs::cmp::PartialEqSpecImpl<Error> for i64 {
    open spec fn obeys_eq_spec() -> bool {
        true
    }

    open spec fn eq_spec(&self, other: &Error) -> bool {
        *self as int == other.value() as int
    }
}

impl PartialEq<u16> for Error {
    fn eq(&self, other: &u16) -> (r: bool) {
        (self.get() as u16) == *other
    }
}

impl vstd::std_specs::cmp::PartialEqSpecImpl<u16> for Error {
    open spec fn obeys_eq_spec() -> bool {
        true
    }

    open spec fn eq_spec(&self, other: &u16) -> bool {
        *other as int == self.value() as int
    }
}

impl PartialEq<Error> for u16 {
    fn eq(&self, other: &Error) -> (r: bool) {
        (other.get() as u16) == *self
    }
}

impl vstd::std_specs::cmp::PartialEqSpecImpl<Error> for u16 {
    open spec fn obeys_eq_spec() -> bool {
        true
    }

    open spec fn eq_spec(&self, other: &Error) -> bool {
        *self as int == other.value() as int
    }
}

impl PartialEq<u32> for Error {
    fn eq(&self, other: &u32) -> (r: bool) {
        (self.get() as u32) == *other
    }
}

impl vstd::std_specs::cmp::PartialEqSpecImpl<u32> for Error {
    open spec fn obeys_eq_spec() -> bool {
        true
    }

    open spec fn eq_spec(&self, other: &u32) -> bool {
        *other as int == self.value() as int
    }
}

impl PartialEq<Error> for u32 {
    fn eq(&self, other: &Error) -> (r: bool) {
        (other.get() as u32) == *self
    }
}

impl vstd::std_specs::cmp::PartialEqSpecImpl<Error> for u32 {
    open spec fn obeys_eq_spec() -> bool {
        true
    }

    open spec fn eq_spec(&self, other: &Error) -> bool {
        *self as int == other.value() as int
    }
}

impl PartialEq<u64> for Error {
    fn eq(&self, other: &u64) -> (r: bool) {
        (self.get() as u64) == *other
    }
}

impl vstd::std_specs::cmp::PartialEqSpecImpl<u64> for Error {
    open spec fn obeys_eq_spec() -> bool {
        true
    }

    open spec fn eq_spec(&self, other: &u64) -> bool {
        *other as int == self.value() as int
    }
}

impl PartialEq<Error> for u64 {
    fn eq(&self, other: &Error) -> (r: bool) {
        (other.get() as u64) == *self
    }
}

impl vstd::std_specs::cmp::PartialEqSpecImpl<Error> for u64 {
    open spec fn obeys_eq_spec() -> bool {
        true
    }

    open spec fn eq_spec(&self, other: &Error) -> bool {
        *self as int == other.value() as int
    }
}

impl PartialEq<usize> for Error {
    fn eq(&self, other: &usize) -> (r: bool) {
        (self.get() as usize) == *other
    }
}

impl vstd::std_specs::cmp::PartialEqSpecImpl<usize> for Error {
    open spec fn obeys_eq_spec() -> bool {
        true
    }

    open spec fn eq_spec(&self, other: &usize) -> bool {
        *other as int == self.value() as int
    }
}

impl PartialEq<Error> for usize {
    fn eq(&self, other: &Error) -> (r: bool) {
        (other.get() as usize) == *self
    }
}

impl vstd::std_specs::cmp::PartialEqSpecImpl<Error> for usize {
    open spec fn obeys_eq_spec() -> bool {
        true
    }

    open spec fn eq_spec(&self, other: &Error) -> bool {
        *self as int == other.value() as int
    }
}

} // verus!
