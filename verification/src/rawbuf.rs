//! The raw keystroke buffer of the replay engine: an `arrayvec::ArrayVec`
//! of at most 24 characters.

use vstd::prelude::*;
use arrayvec::ArrayVec;

verus! {

/// Capacity of the raw keystroke buffer.
pub const RAW_BUF_CAPACITY: usize = 24;

#[verifier::external_type_specification]
#[verifier::external_body]
#[verifier::reject_recursive_types(T)]
pub struct ExArrayVec<T, const CAP: usize>(ArrayVec<T, CAP>);

/// The characters held by a raw keystroke buffer, oldest first.
pub uninterp spec fn raw_buf_items(v: ArrayVec<char, 24>) -> Seq<char>;

/// An empty buffer.
///
/// Trusted: `ArrayVec::new` creates an empty vector (capacity 24 is within
/// the crate's `u32::MAX` limit, so its capacity assertion holds).
#[verifier::external_body]
pub(crate) fn raw_buf_new() -> (v: ArrayVec<char, 24>)
    ensures
        raw_buf_items(v) == Seq::<char>::empty(),
{
    ArrayVec::new()
}

/// Trusted: `ArrayVec::len` returns the number of held elements.
#[verifier::external_body]
pub(crate) fn raw_buf_len(v: &ArrayVec<char, 24>) -> (n: usize)
    ensures
        n == raw_buf_items(*v).len(),
        n <= RAW_BUF_CAPACITY,
{
    v.len()
}

/// Trusted: `ArrayVec::is_full` is `len() == capacity()`, and the capacity is 24.
#[verifier::external_body]
pub(crate) fn raw_buf_is_full(v: &ArrayVec<char, 24>) -> (r: bool)
    ensures
        r == (raw_buf_items(*v).len() == RAW_BUF_CAPACITY),
{
    v.is_full()
}

/// Trusted: `ArrayVec::is_empty` is `len() == 0`.
#[verifier::external_body]
pub(crate) fn raw_buf_is_empty(v: &ArrayVec<char, 24>) -> (r: bool)
    ensures
        r == (raw_buf_items(*v).len() == 0),
{
    v.is_empty()
}

/// Appends `ch` when there is room.
///
/// Trusted: `ArrayVec::try_push` appends and returns `Ok` when the vector is
/// not full, and otherwise returns `Err` leaving it unchanged.
#[verifier::external_body]
pub(crate) fn raw_buf_try_push(v: &mut ArrayVec<char, 24>, ch: char) -> (pushed: bool)
    ensures
        pushed == (raw_buf_items(*old(v)).len() < RAW_BUF_CAPACITY),
        pushed ==> raw_buf_items(*final(v)) == raw_buf_items(*old(v)).push(ch),
        !pushed ==> raw_buf_items(*final(v)) == raw_buf_items(*old(v)),
{
    v.try_push(ch).is_ok()
}

/// Trusted: `ArrayVec::pop` removes and returns the last element, or returns
/// `None` on an empty vector.
#[verifier::external_body]
pub(crate) fn raw_buf_pop(v: &mut ArrayVec<char, 24>) -> (r: Option<char>)
    ensures
        raw_buf_items(*old(v)).len() == 0 ==> r is None && raw_buf_items(*final(v)) == raw_buf_items(*old(v)),
        raw_buf_items(*old(v)).len() > 0 ==> r == Some(raw_buf_items(*old(v)).last())
            && raw_buf_items(*final(v)) == raw_buf_items(*old(v)).drop_last(),
{
    v.pop()
}

/// Trusted: `ArrayVec::clear` removes every element.
#[verifier::external_body]
pub(crate) fn raw_buf_clear(v: &mut ArrayVec<char, 24>)
    ensures
        raw_buf_items(*final(v)) == Seq::<char>::empty(),
{
    v.clear()
}

/// Trusted: the slice method `swap` reached through `DerefMut` exchanges the
/// elements at `a` and `b` (it panics out of bounds, hence the `requires`).
#[verifier::external_body]
pub(crate) fn raw_buf_swap(v: &mut ArrayVec<char, 24>, a: usize, b: usize)
    requires
        a < raw_buf_items(*old(v)).len(),
        b < raw_buf_items(*old(v)).len(),
    ensures
        raw_buf_items(*final(v)) == raw_buf_items(*old(v)).update(a as int, raw_buf_items(*old(v))[b as int]).update(
            b as int,
            raw_buf_items(*old(v))[a as int],
        ),
{
    v.swap(a, b)
}

/// Trusted: `ArrayVec::truncate` keeps the first `new_len` elements; a
/// larger `new_len` has no effect.
#[verifier::external_body]
pub(crate) fn raw_buf_truncate(v: &mut ArrayVec<char, 24>, new_len: usize)
    ensures
        new_len < raw_buf_items(*old(v)).len() ==> raw_buf_items(*final(v)) == raw_buf_items(*old(v)).subrange(
            0,
            new_len as int,
        ),
        new_len >= raw_buf_items(*old(v)).len() ==> raw_buf_items(*final(v)) == raw_buf_items(*old(v)),
{
    v.truncate(new_len)
}

/// Trusted: `ArrayVec::as_slice` returns the held elements as a slice.
#[verifier::external_body]
pub(crate) fn raw_buf_as_slice(v: &ArrayVec<char, 24>) -> (s: &[char])
    ensures
        s@ == raw_buf_items(*v),
{
    v.as_slice()
}

/// A buffer holding `cs`.
///
/// Trusted: `FromIterator` for `ArrayVec` collects the items in order; it
/// panics past the capacity, hence the `requires`.
#[verifier::external_body]
pub(crate) fn raw_buf_from_slice(cs: &[char]) -> (v: ArrayVec<char, 24>)
    requires
        cs@.len() <= RAW_BUF_CAPACITY,
    ensures
        raw_buf_items(v) == cs@,
{
    cs.iter().copied().collect()
}

} // verus!
