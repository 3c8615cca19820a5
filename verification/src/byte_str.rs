//! Fixed-size byte arrays that hold short strings, padded at the end with null bytes (the
//! nickname and callsign of the configuration).

use vstd::prelude::*;
use vstd::slice::slice_subrange;
use vstd::string::StringSliceAdditionalSpecFns;
use vstd::utf8::{pop_first_scalar, valid_utf8};
use core::str::Utf8Error;

verus! {

#[derive(Debug, Clone, Copy, PartialEq, Eq, Structural)]
pub enum ByteArrayStrError {
    /// Str is too long for the buffer
    TooLong,
}

/// A byte that can stand in the text of a padded string: neither null nor beyond ASCII.
pub open spec fn is_text_byte(b: u8) -> bool {
    b != 0 && b < 0x80
}

/// `prefix` is the longest prefix of `bytes` all of whose bytes satisfy `keep`.
pub open spec fn is_longest_prefix(bytes: Seq<u8>, prefix: Seq<u8>, keep: spec_fn(u8) -> bool) -> bool {
    &&& prefix.len() <= bytes.len()
    &&& prefix == bytes.take(prefix.len() as int)
    &&& forall|j: int| 0 <= j < prefix.len() ==> keep(#[trigger] bytes[j])
    &&& prefix.len() < bytes.len() ==> !keep(bytes[prefix.len() as int])
}

/// The bytes of `s` padded with null bytes to `size`.
pub open spec fn padded(s: Seq<u8>, size: nat) -> Seq<u8> {
    s + Seq::new((size - s.len()) as nat, |i: int| 0u8)
}

/// A string of text bytes that fits is read back unchanged from its padded array: there, the
/// longest prefix of text bytes (what `as_str` returns) and the longest prefix of non-null bytes
/// (what `null_terminate` returns) are both exactly the string.
pub proof fn lemma_padded_string_reads_back(s: Seq<u8>, size: nat, prefix: Seq<u8>)
    requires
        s.len() <= size,
        forall|i: int| 0 <= i < s.len() ==> is_text_byte(#[trigger] s[i]),
    ensures
        is_longest_prefix(padded(s, size), prefix, |b: u8| is_text_byte(b)) <==> prefix == s,
        is_longest_prefix(padded(s, size), prefix, |b: u8| b != 0) <==> prefix == s,
{
    let p = padded(s, size);
    assert(p.take(s.len() as int) =~= s);
    assert(forall|j: int| 0 <= j < s.len() ==> p[j] == s[j]);
    assert(forall|j: int| s.len() <= j < size ==> p[j] == 0);
    if is_longest_prefix(p, prefix, |b: u8| is_text_byte(b)) || is_longest_prefix(
        p,
        prefix,
        |b: u8| b != 0,
    ) {
        if prefix.len() < s.len() {
            assert(is_text_byte(p[prefix.len() as int]));
        }
        if prefix.len() > s.len() {
            assert(p[s.len() as int] == 0);
        }
        assert(prefix =~= s);
    }
}

/// `core::str::Utf8Error`, the error of a failed UTF-8 conversion; only carried through.
#[verifier::external_type_specification]
#[verifier::external_body]
pub struct ExUtf8Error(Utf8Error);

/// `core::str::from_utf8`: the bytes as a string slice when they are valid UTF-8 (the slice then
/// holds exactly those bytes), and an error when they are not.
#[verifier::external_body]
fn str_from_utf8<'a>(bytes: &'a [u8]) -> (r: Result<&'a str, Utf8Error>)
    ensures
        r is Ok <==> valid_utf8(bytes@),
        r matches Ok(s) ==> s.spec_bytes() == bytes@,
{
    core::str::from_utf8(bytes)
}

/// Bytes that are all below 0x80 are valid UTF-8: each is a one-byte scalar.
proof fn lemma_ascii_is_utf8(bytes: Seq<u8>)
    requires
        forall|i: int| 0 <= i < bytes.len() ==> bytes[i] < 0x80,
    ensures
        valid_utf8(bytes),
    decreases bytes.len(),
{
    if bytes.len() > 0 {
        let b = bytes[0];
        assert(b < 0x80 ==> (b & 0x7F) < 0x80) by (bit_vector);
        let rest = bytes.subrange(1, bytes.len() as int);
        assert(pop_first_scalar(bytes) =~= rest);
        lemma_ascii_is_utf8(rest);
    }
}

pub trait ByteArrayStr: Sized {
    /// The bytes of the array.
    spec fn byte_view(&self) -> Seq<u8>;

    /// The size of the array.
    spec fn byte_capacity() -> nat;

    /// Returns a byte array as `&str`, truncated before the first non-ascii or null byte.
    fn as_str(&self) -> (s: &str)
        ensures
            is_longest_prefix(self.byte_view(), s.spec_bytes(), |b: u8| is_text_byte(b)),
    ;

    /// The bytes before the first null byte.
    fn null_terminate(&self) -> (s: &[u8])
        ensures
            is_longest_prefix(self.byte_view(), s@, |b: u8| b != 0),
    ;

    /// The bytes of `str` padded with null bytes, or `TooLong` when they do not fit.
    fn from_str(str: &str) -> (r: Result<Self, ByteArrayStrError>)
        ensures
            r is Err <==> str.spec_bytes().len() > Self::byte_capacity(),
            r is Err ==> r == Err::<Self, ByteArrayStrError>(ByteArrayStrError::TooLong),
            r matches Ok(a) ==> a.byte_view() == padded(str.spec_bytes(), Self::byte_capacity()),
    ;
}

impl<const SIZE: usize> ByteArrayStr for [u8; SIZE] {
    open spec fn byte_view(&self) -> Seq<u8> {
        self@
    }

    open spec fn byte_capacity() -> nat {
        SIZE as nat
    }

    fn as_str(&self) -> (s: &str) {
        let mut i: usize = 0;
        while i < SIZE
            invariant
                i <= SIZE,
                forall|j: int| 0 <= j < i ==> is_text_byte(#[trigger] self@[j]),
            ensures
                i <= SIZE,
                forall|j: int| 0 <= j < i ==> is_text_byte(#[trigger] self@[j]),
                i < SIZE ==> !is_text_byte(self@[i as int]),
            decreases SIZE - i,
        {
            if self[i] == 0 || self[i] >= 0x80 {
                break;
            }
            i = i + 1;
        }
        let text = slice_subrange(self.as_slice(), 0, i);
        assert(text@ =~= self@.take(i as int));
        assert(forall|j: int| 0 <= j < text@.len() ==> text@[j] < 0x80) by {
            assert forall|j: int| 0 <= j < text@.len() implies text@[j] < 0x80 by {
                assert(text@[j] == self@[j]);
                assert(is_text_byte(self@[j]));
            }
        }
        proof {
            lemma_ascii_is_utf8(text@);
        }
        match str_from_utf8(text) {
            Ok(s) => s,
            Err(_) => "",
        }
    }

    fn null_terminate(&self) -> (s: &[u8]) {
        let mut len: usize = 0;
        while len < SIZE && self[len] != 0
            invariant
                len <= SIZE,
                forall|j: int| 0 <= j < len ==> #[trigger] self@[j] != 0,
            decreases SIZE - len,
        {
            len = len + 1;
        }
        let s = slice_subrange(self.as_slice(), 0, len);
        assert(s@ =~= self@.take(len as int));
        s
    }

    fn from_str(str: &str) -> (r: Result<Self, ByteArrayStrError>) {
        let bytes = str.as_bytes();
        let n = bytes.len();
        if n > SIZE {
            return Err(ByteArrayStrError::TooLong);
        }
        let mut buf = [0u8; SIZE];
        let mut i: usize = 0;
        while i < n
            invariant
                n <= SIZE,
                n == bytes@.len(),
                i <= n,
                buf@.len() == SIZE,
                forall|j: int| 0 <= j < i ==> buf@[j] == bytes@[j],
                forall|j: int| n <= j < SIZE ==> buf@[j] == 0,
            decreases n - i,
        {
            buf[i] = bytes[i];
            i = i + 1;
        }
        assert(buf@ =~= padded(str.spec_bytes(), SIZE as nat));
        Ok(buf)
    }
}

} // verus!
