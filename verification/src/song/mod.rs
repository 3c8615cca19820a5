//! The "song" binary format: every value is written as a fixed sequence of bytes, fields in
//! declaration order, integers little-endian.
//!
//! Each type describes its encoding by spec functions: [`SongSize::song_len`] is the number of
//! bytes, [`ToSong::song_bytes`] the bytes themselves and [`FromSong::song_parse`] what reading a
//! buffer gives. The executable functions are proved against them, and [`SongRoundTrip`] states
//! that reading back what was written gives the value again, whatever follows it in the buffer.

use vstd::prelude::*;

pub mod numeric;
pub mod option;
pub mod result;
pub mod bytes;
pub mod errors;
pub mod text;
pub mod magic;
pub mod maybe_unwritten_max_bytes;

verus! {

/// Why a value could not be written.
#[derive(Debug, Clone, Copy, PartialEq, Eq)]
pub enum ToSongError {
    BufferOverflow,
    NotImplemented,
    StringTooLong,
}

/// Why a value could not be read.
#[derive(Clone, Copy, Debug, PartialEq, Eq)]
pub enum FromSongError {
    BufferOverflow,
    NotImplemented,
    InvalidPacketId,
    Utf8Error,
    InvalidValue,
}

pub trait SongSize {
    /// Number of bytes that this value takes when serialized.
    spec fn song_len(&self) -> nat;

    /// Number of bytes that this should be when serialized.
    fn song_size(&self) -> (n: usize)
        requires
            self.song_len() <= usize::MAX,
        ensures
            n == self.song_len(),
    ;
}

pub trait ToSong: SongSize {
    /// The bytes that `to_song` writes for this value.
    spec fn song_bytes(&self) -> Seq<u8>;

    proof fn lemma_song_bytes_len(&self)
        ensures
            self.song_bytes().len() == self.song_len(),
    ;

    /// Serialize `self` into `buf` starting at `pos`. Fails exactly when the value does not fit
    /// in what is left of the buffer; the bytes before `pos` are never touched.
    fn to_song_at(&self, buf: &mut [u8], pos: usize) -> (r: Result<(), ToSongError>)
        requires
            pos <= old(buf)@.len(),
            self.song_len() <= usize::MAX,
        ensures
            final(buf)@.len() == old(buf)@.len(),
            final(buf)@.take(pos as int) == old(buf)@.take(pos as int),
            r == (if pos + self.song_len() <= old(buf)@.len() {
                Ok::<(), ToSongError>(())
            } else {
                Err(ToSongError::BufferOverflow)
            }),
            r is Ok ==> final(buf)@ == old(buf)@.take(pos as int) + self.song_bytes() + old(
                buf,
            )@.skip(pos + self.song_len()),
    ;

    /// Serialize `self` into the start of `buf`.
    fn to_song(&self, buf: &mut [u8]) -> (r: Result<(), ToSongError>)
        requires
            self.song_len() <= usize::MAX,
        ensures
            final(buf)@.len() == old(buf)@.len(),
            r == (if self.song_len() <= old(buf)@.len() {
                Ok::<(), ToSongError>(())
            } else {
                Err(ToSongError::BufferOverflow)
            }),
            r is Ok ==> final(buf)@ == self.song_bytes() + old(buf)@.skip(self.song_len() as int),
    {
        let r = self.to_song_at(buf, 0);
        proof {
            if r is Ok {
                assert(old(buf)@.take(0) + self.song_bytes() =~= self.song_bytes());
            }
        }
        r
    }
}

pub trait FromSong: SongSize + Sized {
    /// What reading the start of `bytes` gives.
    spec fn song_parse(bytes: Seq<u8>) -> Result<Self, FromSongError>;

    /// A value read from `bytes` never claims more bytes than there were.
    proof fn lemma_parse_len(bytes: Seq<u8>)
        ensures
            Self::song_parse(bytes) matches Ok(v) ==> v.song_len() <= bytes.len(),
    ;

    /// Deserialize a value from `buf`, starting at `pos`.
    fn from_song_at(buf: &[u8], pos: usize) -> (r: Result<Self, FromSongError>)
        requires
            pos <= buf@.len(),
        ensures
            r == Self::song_parse(buf@.skip(pos as int)),
    ;

    /// Deserialize a value from the start of `buf`.
    fn from_song(buf: &[u8]) -> (r: Result<Self, FromSongError>)
        ensures
            r == Self::song_parse(buf@),
    {
        proof {
            assert(buf@.skip(0) =~= buf@);
        }
        Self::from_song_at(buf, 0)
    }
}

/// Reading back what was written gives the value again, and only the value's own bytes are read.
pub trait SongRoundTrip: ToSong + FromSong {
    proof fn lemma_song_round_trip(&self, rest: Seq<u8>)
        ensures
            Self::song_parse(self.song_bytes() + rest) == Ok::<Self, FromSongError>(*self),
    ;
}


/// Enums written as one tag byte naming the variant, then the variant's fields in order.
pub trait TaggedSong: SongRoundTrip {
    /// The tag byte of this value's variant.
    spec fn tag(&self) -> u8;

    /// Whether some variant has the tag `b`.
    spec fn is_tag(b: u8) -> bool;

    /// The encoding starts with the variant's tag, which is a known one.
    proof fn lemma_starts_with_tag(&self)
        ensures
            self.song_bytes().len() >= 1,
            self.song_bytes()[0] == self.tag(),
            Self::is_tag(self.tag()),
    ;

    /// An empty buffer is refused with `BufferOverflow`, and a buffer that starts with a tag no
    /// variant has with `InvalidPacketId`.
    proof fn lemma_refused(bytes: Seq<u8>)
        ensures
            bytes.len() == 0 ==> Self::song_parse(bytes) == Err::<Self, FromSongError>(
                FromSongError::BufferOverflow,
            ),
            bytes.len() >= 1 && !Self::is_tag(bytes[0]) ==> Self::song_parse(bytes) == Err::<
                Self,
                FromSongError,
            >(FromSongError::InvalidPacketId),
    ;
}

/// What every tagged enum promises: its encoding starts with its variant's tag; reading back
/// what was written gives the same value (same variant, same fields), whatever follows; an
/// empty buffer is refused with `BufferOverflow`; a buffer starting with an unknown tag is
/// refused with `InvalidPacketId`.
pub proof fn lemma_tagged_song<E: TaggedSong>(v: E, rest: Seq<u8>, bytes: Seq<u8>)
    ensures
        (v.song_bytes() + rest)[0] == v.tag(),
        E::song_parse(v.song_bytes() + rest) == Ok::<E, FromSongError>(v),
        bytes.len() == 0 ==> E::song_parse(bytes) == Err::<E, FromSongError>(
            FromSongError::BufferOverflow,
        ),
        bytes.len() >= 1 && !E::is_tag(bytes[0]) ==> E::song_parse(bytes) == Err::<
            E,
            FromSongError,
        >(FromSongError::InvalidPacketId),
{
    v.lemma_starts_with_tag();
    v.lemma_song_round_trip(rest);
    E::lemma_refused(bytes);
}

/// A type whose values all take the same number of bytes.
pub trait ConstSongSize: SongSize + HasSongSize {
    /// The number of bytes of every value of the type.
    spec fn const_song_len() -> nat;

    /// Number of bytes of every value of the type.
    fn const_song_size() -> (n: usize)
        requires
            Self::const_song_len() <= usize::MAX,
        ensures
            n == Self::const_song_len(),
    ;

    /// Whether the encoding fits in `len` bytes.
    fn const_song_fits(len: usize) -> (b: bool)
        ensures
            b == (Self::const_song_len() <= len),
    ;

    proof fn lemma_const_song_len(v: &Self)
        ensures
            v.song_len() == Self::const_song_len(),
    ;

    /// The size agrees with the type-level description of it.
    proof fn lemma_const_song_len_of_type()
        ensures
            Self::const_song_len() == <Self as HasSongSize>::Size::size_value(),
    ;
}

/// A number of bytes known from a type alone: the type-level description that
/// [`HasSongSize::Size`] gives of a fixed-size encoding.
pub trait SongSizeExpr {
    spec fn size_value() -> nat;
}

impl SongSizeExpr for () {
    open spec fn size_value() -> nat {
        0
    }
}

impl<T: SongSizeExpr> SongSizeExpr for (T,) {
    open spec fn size_value() -> nat {
        T::size_value()
    }
}

/// Two sizes one after the other.
impl<A: SongSizeExpr, B: SongSizeExpr> SongSizeExpr for (A, B) {
    open spec fn size_value() -> nat {
        A::size_value() + B::size_value()
    }
}

/// The size `SIZE`.
pub struct ConstSongSizeValue<const SIZE: usize>;

impl<const SIZE: usize> SongSizeExpr for ConstSongSizeValue<SIZE> {
    open spec fn size_value() -> nat {
        SIZE as nat
    }
}

/// The product of two sizes (an array of `B` items of size `A`).
pub struct MultiplyConstSongSizeImpl<A: SongSizeExpr, B: SongSizeExpr>(pub A, pub B);

impl<A: SongSizeExpr, B: SongSizeExpr> SongSizeExpr for MultiplyConstSongSizeImpl<A, B> {
    open spec fn size_value() -> nat {
        A::size_value() * B::size_value()
    }
}

/// The size of a fixed-size type.
pub struct ConstSongSizeImplFromConstSongSize<T>(pub T);

impl<T: ConstSongSize> SongSizeExpr for ConstSongSizeImplFromConstSongSize<T> {
    open spec fn size_value() -> nat {
        T::const_song_len()
    }
}

/// Types that describe their encoded size at the type level.
pub trait HasSongSize {
    type Size: SongSizeExpr;
}

/// Enums whose encoding starts with a one-byte tag naming the variant.
pub trait SongDiscriminant {
    type Discriminant: Copy;

    /// The tag of this value.
    spec fn discriminant_of(&self) -> Self::Discriminant;

    fn song_discriminant(&self) -> (d: Self::Discriminant)
        ensures
            d == self.discriminant_of(),
    ;
}


/// Writes a tag byte at `pos` and then `inner` after it: the encoding of a tagged value. The
/// tag goes out whenever there is room for it, even if `inner` then does not fit.
pub(crate) fn write_tagged<T: ToSong>(tag: u8, inner: &T, buf: &mut [u8], pos: usize) -> (r: Result<
    (),
    ToSongError,
>)
    requires
        pos <= old(buf)@.len(),
        inner.song_len() + 1 <= usize::MAX,
    ensures
        final(buf)@.len() == old(buf)@.len(),
        final(buf)@.take(pos as int) == old(buf)@.take(pos as int),
        r == (if pos + inner.song_len() + 1 <= old(buf)@.len() {
            Ok::<(), ToSongError>(())
        } else {
            Err(ToSongError::BufferOverflow)
        }),
        r is Ok ==> final(buf)@ == old(buf)@.take(pos as int) + (seq![tag] + inner.song_bytes())
            + old(buf)@.skip(pos + inner.song_len() + 1),
{
    if buf.len() - pos == 0 {
        return Err(ToSongError::BufferOverflow);
    }
    buf[pos] = tag;
    let ghost tagged = buf@;
    let r = inner.to_song_at(buf, pos + 1);
    proof {
        assert(buf@.take(pos as int) =~= tagged.take(pos + 1).take(pos as int));
        if r is Ok {
            assert(tagged.take(pos + 1) =~= old(buf)@.take(pos as int) + seq![tag]);
            assert(tagged.skip(pos + 1 + inner.song_len()) =~= old(buf)@.skip(
                pos + inner.song_len() + 1,
            ));
            assert(old(buf)@.take(pos as int) + seq![tag] + inner.song_bytes() =~= old(buf)@.take(
                pos as int,
            ) + (seq![tag] + inner.song_bytes()));
        }
    }
    r
}

/// Writing `next` right after what was written from `pos` so far extends what was written.
pub proof fn lemma_write_after(
    start: Seq<u8>,
    before: Seq<u8>,
    after: Seq<u8>,
    pos: int,
    written: Seq<u8>,
    next: Seq<u8>,
)
    requires
        0 <= pos,
        pos + written.len() + next.len() <= start.len(),
        before == start.take(pos) + written + start.skip(pos + written.len()),
        after == before.take(pos + written.len()) + next + before.skip(
            pos + written.len() + next.len(),
        ),
    ensures
        after == start.take(pos) + (written + next) + start.skip(
            pos + written.len() + next.len(),
        ),
{
    assert(before.take(pos + written.len()) =~= start.take(pos) + written);
    assert(before.skip(pos + written.len() + next.len()) =~= start.skip(
        pos + written.len() + next.len(),
    ));
    assert(after =~= start.take(pos) + (written + next) + start.skip(
        pos + written.len() + next.len(),
    ));
}


/// What `to_song` writes, `from_song` reads back: a buffer that starts with the encoding of `v`
/// (whatever follows it) is read as `v`.
pub proof fn lemma_write_then_read<T: SongRoundTrip>(v: T, buf: Seq<u8>)
    requires
        v.song_len() <= buf.len(),
        buf.take(v.song_len() as int) == v.song_bytes(),
    ensures
        T::song_parse(buf) == Ok::<T, FromSongError>(v),
{
    v.lemma_song_bytes_len();
    assert(buf =~= v.song_bytes() + buf.skip(v.song_len() as int));
    v.lemma_song_round_trip(buf.skip(v.song_len() as int));
}

} // verus!
