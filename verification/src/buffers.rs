//! Fixed-capacity character buffer.

use vstd::prelude::*;

verus! {

/// A stack buffer of at most `N` characters.
///
/// Only the first `len` slots of `data` are meaningful; the rest keep
/// whatever was last written there.
#[derive(Clone)]
pub struct CharVec<const N: usize> {
    data: [char; N],
    len: usize,
}

impl<const N: usize> View for CharVec<N> {
    type V = Seq<char>;

    /// The characters currently held, oldest first.
    closed spec fn view(&self) -> Seq<char> {
        self.data@.subrange(0, self.len as int)
    }
}

impl<const N: usize> CharVec<N> {
    /// Internal consistency: the length never exceeds the capacity.
    pub closed spec fn wf(&self) -> bool {
        self.len <= N
    }

    /// The whole backing array, including slots past the length.
    pub closed spec fn slots(&self) -> Seq<char> {
        self.data@
    }

    pub fn new() -> (v: Self)
        ensures
            v.wf(),
            v@ == Seq::<char>::empty(),
            v.slots() == Seq::new(N as nat, |i: int| '\0'),
    {
        let data: [char; N] = vstd::array::array_fill_for_copy_types('\0');
        assert(data@ =~= Seq::new(N as nat, |i: int| '\0'));
        CharVec { data, len: 0 }
    }

    pub fn len(&self) -> (n: usize)
        requires
            self.wf(),
        ensures
            n == self@.len(),
            n <= N,
    {
        self.len
    }

    pub fn is_empty(&self) -> (b: bool)
        requires
            self.wf(),
        ensures
            b == (self@.len() == 0),
    {
        self.len == 0
    }

    pub fn is_full(&self) -> (b: bool)
        requires
            self.wf(),
        ensures
            b == (self@.len() >= N),
    {
        self.len >= N
    }

    /// Forgets every character; the backing slots are left as they are.
    pub fn clear(&mut self)
        ensures
            final(self).wf(),
            final(self)@ == Seq::<char>::empty(),
            final(self).slots() == old(self).slots(),
    {
        self.len = 0;
    }

    /// Appends `ch` when there is room; returns whether it was appended.
    pub fn try_push(&mut self, ch: char) -> (pushed: bool)
        requires
            old(self).wf(),
        ensures
            final(self).wf(),
            pushed == (old(self)@.len() < N),
            pushed ==> final(self)@ == old(self)@.push(ch),
            pushed ==> final(self).slots() == old(self).slots().update(old(self)@.len() as int, ch),
            !pushed ==> *final(self) == *old(self),
    {
        if self.len < N {
            let i = self.len;
            self.data[i] = ch;
            self.len = i + 1;
            assert(self@ =~= old(self)@.push(ch));
            true
        } else {
            false
        }
    }

    /// Removes and returns the last character, if any.
    pub fn pop(&mut self) -> (r: Option<char>)
        requires
            old(self).wf(),
        ensures
            final(self).wf(),
            final(self).slots() == old(self).slots(),
            old(self)@.len() == 0 ==> r is None && final(self)@ == old(self)@,
            old(self)@.len() > 0 ==> r == Some(old(self)@.last())
                && final(self)@ == old(self)@.drop_last(),
    {
        if self.len > 0 {
            self.len = self.len - 1;
            assert(self@ =~= old(self)@.drop_last());
            Some(self.data[self.len])
        } else {
            None
        }
    }

    /// Shortens to `new_len` characters; a longer `new_len` changes nothing.
    pub fn truncate(&mut self, new_len: usize)
        requires
            old(self).wf(),
        ensures
            final(self).wf(),
            final(self).slots() == old(self).slots(),
            new_len < old(self)@.len() ==> final(self)@ == old(self)@.subrange(0, new_len as int),
            new_len >= old(self)@.len() ==> final(self)@ == old(self)@,
    {
        if new_len < self.len {
            self.len = new_len;
            assert(self@ =~= old(self)@.subrange(0, new_len as int));
        }
    }

    /// Exchanges the slots `a` and `b` of the backing array.
    pub fn swap(&mut self, a: usize, b: usize)
        requires
            old(self).wf(),
            a < N,
            b < N,
        ensures
            final(self).wf(),
            final(self)@.len() == old(self)@.len(),
            final(self).slots() == old(self).slots().update(a as int, old(self).slots()[b as int]).update(
                b as int,
                old(self).slots()[a as int],
            ),
            a < old(self)@.len() && b < old(self)@.len() ==> final(self)@ == old(self)@.update(
                a as int,
                old(self)@[b as int],
            ).update(b as int, old(self)@[a as int]),
    {
        let x = self.data[a];
        let y = self.data[b];
        self.data[a] = y;
        self.data[b] = x;
        proof {
            if a < old(self)@.len() && b < old(self)@.len() {
                assert(self@ =~= old(self)@.update(a as int, old(self)@[b as int]).update(
                    b as int,
                    old(self)@[a as int],
                ));
            }
        }
    }

    /// The held characters as a slice.
    pub fn as_slice(&self) -> (s: &[char])
        requires
            self.wf(),
        ensures
            s@ == self@,
    {
        &self.data[0..self.len]
    }

    /// An iterator over the held characters.
    pub fn iter(&self) -> (it: core::slice::Iter<'_, char>)
        requires
            self.wf(),
        ensures
            vstd::std_specs::slice::into_iter_elts(it) == self@,
    {
        self.as_slice().iter()
    }

    /// Builds a buffer from the first `N` characters of `cs`.
    pub fn from_chars(cs: &[char]) -> (v: Self)
        ensures
            v.wf(),
            cs@.len() <= N ==> v@ == cs@,
            cs@.len() > N ==> v@ == cs@.subrange(0, N as int),
    {
        let mut v = Self::new();
        let mut i: usize = 0;
        while i < cs.len() && i < N
            invariant
                v.wf(),
                i <= cs@.len(),
                i <= N,
                v@ == cs@.subrange(0, i as int),
            decreases cs@.len() - i,
        {
            v.try_push(cs[i]);
            i = i + 1;
            assert(v@ =~= cs@.subrange(0, i as int));
        }
        proof {
            if cs@.len() <= N {
                assert(cs@.subrange(0, cs@.len() as int) =~= cs@);
            }
        }
        v
    }
}

impl<const N: usize> Default for CharVec<N> {
    fn default() -> (v: Self)
        ensures
            v.wf(),
            v@ == Seq::<char>::empty(),
    {
        Self::new()
    }
}

impl<const N: usize> core::ops::Deref for CharVec<N> {
    type Target = [char];

    fn deref(&self) -> (s: &[char])
        ensures
            self.wf() ==> s@ == self@,
    {
        &self.data[0..if self.len <= N { self.len } else { N }]
    }
}

/// A buffer of raw keystrokes as characters.
pub type RawBuffer = Vec<char>;

/// A buffer of rendered output characters.
pub type OutBuffer = Vec<char>;

/// An empty raw-keystroke buffer with room for 32 characters.
pub fn new_raw_buffer() -> (b: RawBuffer)
    ensures
        b@ == Seq::<char>::empty(),
{
    Vec::with_capacity(32)
}

/// An empty output buffer with room for 128 characters.
pub fn new_out_buffer() -> (b: OutBuffer)
    ensures
        b@ == Seq::<char>::empty(),
{
    Vec::with_capacity(128)
}

} // verus!
