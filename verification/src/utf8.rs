//! UTF-8 helpers for the C-facing layer: assembling a character from bytes
//! fed one at a time, and cutting output at a character boundary.

use vstd::prelude::*;
use vstd::string::StrSliceExecFns;
use vstd::utf8::{
    char_is_scalar, decode_utf8, decode_utf8_encode_utf8, encode_scalar, encode_utf8,
    encode_utf8_decode_utf8, encode_utf8_first_scalar, encode_utf8_valid_utf8, length_of_first_scalar,
    pop_first_scalar, valid_first_scalar, valid_utf8,
};

verus! {

/// Outcome of decoding a byte sequence as UTF-8.
pub enum Utf8Decoded<'a> {
    /// The bytes are valid UTF-8 and spell this string.
    Valid(&'a str),
    /// The bytes stop in the middle of a character.
    Incomplete,
    /// The bytes hold a sequence that no continuation can make valid.
    Invalid,
}

/// The bytes are not valid UTF-8 but some continuation makes them valid:
/// they stop in the middle of a character.
pub open spec fn utf8_incomplete(bytes: Seq<u8>) -> bool {
    &&& !valid_utf8(bytes)
    &&& exists|ext: Seq<u8>| valid_utf8(#[trigger] (bytes + ext))
}

/// Decodes `bytes` as UTF-8.
///
/// Trusted: `std::str::from_utf8` returns `Ok` exactly for valid UTF-8, the
/// string then spelling the decoded characters. On `Err`,
/// `Utf8Error::error_len()` is `None` exactly when the end of the input was
/// reached in the middle of a character (what came before it being valid),
/// that is when more bytes could still complete the input, and `Some` when
/// an unexpected byte was met, after which no continuation is valid.
#[verifier::external_body]
fn decode_bytes(bytes: &[u8]) -> (r: Utf8Decoded<'_>)
    ensures
        (r is Valid) <==> valid_utf8(bytes@),
        (r is Incomplete) <==> utf8_incomplete(bytes@),
        r matches Utf8Decoded::Valid(s) ==> s@ == decode_utf8(bytes@),
{
    match std::str::from_utf8(bytes) {
        Ok(s) => Utf8Decoded::Valid(s),
        Err(e) => match e.error_len() {
            None => Utf8Decoded::Incomplete,
            Some(_) => Utf8Decoded::Invalid,
        },
    }
}

/// Number of bytes in the UTF-8 encoding of `c`.
pub open spec fn utf8_width(c: char) -> int {
    let u = c as u32;
    if u < 0x80 {
        1
    } else if u < 0x800 {
        2
    } else if u < 0x10000 {
        3
    } else {
        4
    }
}

pub fn len_utf8(c: char) -> (n: usize)
    ensures
        n == utf8_width(c),
        1 <= n <= 4,
{
    let u = c as u32;
    if u < 0x80 {
        1
    } else if u < 0x800 {
        2
    } else if u < 0x10000 {
        3
    } else {
        4
    }
}

/// Byte length of the longest run `chars[i..k]` whose encoding fits in
/// `max_len` bytes after the `acc` bytes already taken, plus `acc`.
pub open spec fn fitting_bytes(chars: Seq<char>, i: int, acc: int, max_len: int) -> int
    decreases chars.len() - i,
{
    if 0 <= i < chars.len() && acc + utf8_width(chars[i]) <= max_len {
        fitting_bytes(chars, i + 1, acc + utf8_width(chars[i]), max_len)
    } else {
        acc
    }
}

/// The longest prefix of whole characters of `bytes` that fits in `max_len`
/// bytes: all of `bytes` if it fits; for valid UTF-8 the bytes of the longest
/// fitting run of leading characters; 0 for invalid UTF-8.
pub open spec fn prefix_len_spec(bytes: Seq<u8>, max_len: int) -> int {
    if bytes.len() <= max_len {
        bytes.len() as int
    } else if valid_utf8(bytes) {
        fitting_bytes(decode_utf8(bytes), 0, 0, max_len)
    } else {
        0
    }
}

/// Byte length of the longest prefix of `bytes` that ends on a character
/// boundary and is at most `max_len` bytes long.
pub fn utf8_prefix_len(bytes: &[u8], max_len: usize) -> (r: usize)
    ensures
        r == prefix_len_spec(bytes@, max_len as int),
        r <= max_len || r == bytes@.len(),
{
    if bytes.len() <= max_len {
        return bytes.len();
    }
    match decode_bytes(bytes) {
        Utf8Decoded::Valid(s) => {
            let ghost chars = s@;
            let n = s.unicode_len();
            let mut cut: usize = 0;
            let mut i: usize = 0;
            let mut stop = false;
            while i < n && !stop
                invariant
                    n == chars.len(),
                    chars == s@,
                    i <= n,
                    cut <= max_len,
                    !stop ==> fitting_bytes(chars, 0, 0, max_len as int) == fitting_bytes(
                        chars,
                        i as int,
                        cut as int,
                        max_len as int,
                    ),
                    stop ==> fitting_bytes(chars, 0, 0, max_len as int) == cut,
                decreases n - i + (if stop { 0int } else { 1int }),
            {
                let w = len_utf8(s.get_char(i));
                if w > max_len - cut {
                    stop = true;
                } else {
                    cut = cut + w;
                    i = i + 1;
                }
            }
            cut
        },
        _ => 0,
    }
}

/// Total UTF-8 width of `chars`.
pub open spec fn utf8_width_sum(chars: Seq<char>) -> int
    decreases chars.len(),
{
    if chars.len() == 0 {
        0
    } else {
        utf8_width_sum(chars.drop_last()) + utf8_width(chars.last())
    }
}

proof fn lemma_width_sum_step(chars: Seq<char>, i: int)
    requires
        0 <= i < chars.len(),
    ensures
        utf8_width_sum(chars.take(i + 1)) == utf8_width_sum(chars.take(i)) + utf8_width(chars[i]),
{
    assert(chars.take(i + 1).drop_last() =~= chars.take(i));
}

proof fn lemma_width_sum_grows(chars: Seq<char>, a: int, b: int)
    requires
        0 <= a <= b <= chars.len(),
    ensures
        utf8_width_sum(chars.take(a)) + (b - a) <= utf8_width_sum(chars.take(b)),
    decreases b - a,
{
    if a < b {
        lemma_width_sum_grows(chars, a, b - 1);
        lemma_width_sum_step(chars, b - 1);
    }
}

proof fn lemma_fitting_bytes(chars: Seq<char>, i: int, acc: int, max_len: int) -> (j: int)
    requires
        0 <= i <= chars.len(),
        acc == utf8_width_sum(chars.take(i)),
        acc <= max_len,
    ensures
        i <= j <= chars.len(),
        fitting_bytes(chars, i, acc, max_len) == utf8_width_sum(chars.take(j)),
        utf8_width_sum(chars.take(j)) <= max_len,
        j < chars.len() ==> utf8_width_sum(chars.take(j)) + utf8_width(chars[j]) > max_len,
    decreases chars.len() - i,
{
    if i < chars.len() && acc + utf8_width(chars[i]) <= max_len {
        lemma_width_sum_step(chars, i);
        lemma_fitting_bytes(chars, i + 1, acc + utf8_width(chars[i]), max_len)
    } else {
        i
    }
}

proof fn lemma_encode_concat(a: Seq<char>, b: Seq<char>)
    ensures
        encode_utf8(a + b) == encode_utf8(a) + encode_utf8(b),
    decreases a.len(),
{
    if a.len() == 0 {
        assert(a + b =~= b);
        assert(encode_utf8(a) + encode_utf8(b) =~= encode_utf8(b));
    } else {
        lemma_encode_concat(a.drop_first(), b);
        assert((a + b).drop_first() =~= a.drop_first() + b);
        assert((a + b)[0] == a[0]);
        assert(encode_utf8(a + b) =~= encode_utf8(a) + encode_utf8(b));
    }
}

proof fn lemma_encode_len(cs: Seq<char>)
    ensures
        encode_utf8(cs).len() == utf8_width_sum(cs),
    decreases cs.len(),
{
    if cs.len() > 0 {
        let a = cs.drop_last();
        let c = cs.last();
        assert(cs =~= a + seq![c]);
        lemma_encode_concat(a, seq![c]);
        lemma_encode_len(a);
        char_is_scalar(c);
        lemma_encode_single(c);
    }
}

proof fn lemma_encode_single(c: char)
    ensures
        encode_utf8(seq![c]) == encode_scalar(c as u32),
{
    let one = seq![c];
    assert(one.drop_first() =~= Seq::<char>::empty());
    assert(one[0] == c);
    assert(encode_utf8(one.drop_first()) =~= Seq::<u8>::empty());
    assert(encode_utf8(one) =~= encode_scalar(c as u32));
}

/// A prefix of the encoding of `chars` that is itself valid UTF-8 ends where
/// the encoding of some number `j` of leading characters ends.
proof fn lemma_valid_prefix_at_boundary(chars: Seq<char>, k: int) -> (j: int)
    requires
        0 <= k <= encode_utf8(chars).len(),
        valid_utf8(encode_utf8(chars).subrange(0, k)),
    ensures
        0 <= j <= chars.len(),
        k == encode_utf8(chars.take(j)).len(),
    decreases chars.len(),
{
    if k == 0 {
        assert(chars.take(0) =~= Seq::<char>::empty());
        0
    } else {
        let bytes = encode_utf8(chars);
        let p = bytes.subrange(0, k);
        assert(chars.len() > 0);
        encode_utf8_first_scalar(chars);
        let head = encode_scalar(chars[0] as u32);
        let rest = chars.drop_first();
        assert(bytes == head + encode_utf8(rest));
        let n0 = head.len() as int;
        assert(p[0] == bytes[0]);
        assert(valid_first_scalar(p));
        assert(length_of_first_scalar(p) == length_of_first_scalar(bytes));
        assert(n0 <= k);
        assert(pop_first_scalar(p) =~= encode_utf8(rest).subrange(0, k - n0));
        let j1 = lemma_valid_prefix_at_boundary(rest, k - n0);
        let t = chars.take(j1 + 1);
        assert(t[0] == chars[0]);
        assert(t.drop_first() =~= rest.take(j1));
        assert(encode_utf8(t) == head + encode_utf8(rest.take(j1)));
        j1 + 1
    }
}

/// Law: the UTF-8 encoding of a character decodes to that character alone,
/// and every proper non-empty prefix of it is incomplete (not valid, but
/// completed by the remaining bytes), so fed byte by byte to
/// `decode_utf8_byte` it stays pending until the last byte.
pub proof fn utf8_char_prefixes_pending(c: char)
    ensures
        valid_utf8(encode_scalar(c as u32)),
        decode_utf8(encode_scalar(c as u32)) == seq![c],
        forall|i: int|
            1 <= i < encode_scalar(c as u32).len() ==> utf8_incomplete(
                #[trigger] encode_scalar(c as u32).subrange(0, i),
            ),
{
    let b = encode_scalar(c as u32);
    lemma_encode_single(c);
    encode_utf8_valid_utf8(seq![c]);
    encode_utf8_decode_utf8(seq![c]);
    encode_utf8_first_scalar(seq![c]);
    assert forall|i: int| 1 <= i < b.len() implies utf8_incomplete(#[trigger] b.subrange(0, i)) by {
        let p = b.subrange(0, i);
        let ext = b.subrange(i, b.len() as int);
        assert(p + ext =~= b);
        assert(p[0] == b[0]);
        assert(!valid_first_scalar(p));
    }
}

/// Law: on valid UTF-8 longer than `max_len` bytes, `utf8_prefix_len` cuts
/// after the longest run of leading characters whose encoding fits in
/// `max_len` bytes: the bytes before the cut are valid UTF-8 spelling the
/// first characters, they fit, and every longer run of whole characters
/// would not fit.
pub proof fn utf8_prefix_len_longest_fit(bytes: Seq<u8>, max_len: int)
    requires
        valid_utf8(bytes),
        0 <= max_len < bytes.len(),
    ensures
        ({
            let chars = decode_utf8(bytes);
            let r = prefix_len_spec(bytes, max_len);
            &&& r <= max_len
            &&& exists|j: int|
                0 <= j <= chars.len() && r == utf8_width_sum(#[trigger] chars.take(j)) && valid_utf8(
                    bytes.subrange(0, r),
                ) && decode_utf8(bytes.subrange(0, r)) == chars.take(j)
            &&& forall|k: int|
                0 <= k <= chars.len() && utf8_width_sum(#[trigger] chars.take(k)) <= max_len
                    ==> utf8_width_sum(chars.take(k)) <= r
            &&& forall|k: int| r < k <= max_len ==> !valid_utf8(#[trigger] bytes.subrange(0, k))
        }),
{
    let chars = decode_utf8(bytes);
    assert(chars.take(0) =~= Seq::<char>::empty());
    let j = lemma_fitting_bytes(chars, 0, 0, max_len);
    let head = chars.take(j);
    decode_utf8_encode_utf8(bytes);
    assert(chars =~= head + chars.skip(j));
    lemma_encode_concat(head, chars.skip(j));
    lemma_encode_len(head);
    assert(bytes.subrange(0, utf8_width_sum(head)) =~= encode_utf8(head));
    encode_utf8_valid_utf8(head);
    encode_utf8_decode_utf8(head);
    assert forall|k: int|
        0 <= k <= chars.len() && utf8_width_sum(#[trigger] chars.take(k)) <= max_len implies utf8_width_sum(
            chars.take(k),
        ) <= utf8_width_sum(chars.take(j)) by {
        if k <= j {
            lemma_width_sum_grows(chars, k, j);
        } else {
            lemma_width_sum_step(chars, j);
            lemma_width_sum_grows(chars, j + 1, k);
        }
    }
    assert forall|k: int| utf8_width_sum(head) < k <= max_len implies !valid_utf8(
        #[trigger] bytes.subrange(0, k),
    ) by {
        if valid_utf8(bytes.subrange(0, k)) {
            let j2 = lemma_valid_prefix_at_boundary(chars, k);
            lemma_encode_len(chars.take(j2));
            if j2 <= j {
                lemma_width_sum_grows(chars, j2, j);
            } else {
                lemma_width_sum_step(chars, j);
                lemma_width_sum_grows(chars, j + 1, j2);
            }
        }
    }
}

/// Feeds one byte of a UTF-8 stream. An ASCII byte is a character by itself
/// (and drops any partial sequence). A non-ASCII byte joins `pending`; once
/// `pending` spells exactly one character that character is returned. A
/// sequence that stops in the middle of a character is kept for the next
/// byte; one longer than 4 bytes, or one that no byte can complete, is
/// dropped.
pub fn decode_utf8_byte(pending: &mut Vec<u8>, byte: u8) -> (r: Option<char>)
    ensures
        byte < 0x80 ==> r == Some(byte as char) && final(pending)@ == Seq::<u8>::empty(),
        byte >= 0x80 && old(pending)@.len() + 1 > 4 ==> r is None && final(pending)@ == Seq::<u8>::empty(),
        byte >= 0x80 && old(pending)@.len() + 1 <= 4 ==> {
            let p = old(pending)@.push(byte);
            &&& valid_utf8(p) ==> final(pending)@ == Seq::<u8>::empty() && r == (if decode_utf8(p).len() == 1 {
                Some(decode_utf8(p)[0])
            } else {
                None
            })
            &&& !valid_utf8(p) ==> r is None
            &&& utf8_incomplete(p) ==> final(pending)@ == p
            &&& !valid_utf8(p) && !utf8_incomplete(p) ==> final(pending)@ == Seq::<u8>::empty()
        },
{
    if byte < 0x80 {
        pending.clear();
        return Some(crate::tone::char_from_ascii(byte));
    }
    pending.push(byte);
    if pending.len() > 4 {
        pending.clear();
        return None;
    }
    match decode_bytes(pending.as_slice()) {
        Utf8Decoded::Valid(s) => {
            let n = s.unicode_len();
            let ch = if n == 1 { Some(s.get_char(0)) } else { None };
            pending.clear();
            ch
        },
        Utf8Decoded::Incomplete => None,
        Utf8Decoded::Invalid => {
            pending.clear();
            None
        },
    }
}

} // verus!
