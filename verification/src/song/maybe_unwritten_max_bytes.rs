//! A value that may not have been written yet, in a slot that always takes the value's full size
//! plus a tag byte. Erased NOR flash reads as 0xFF, so an absent value is all 0xFF and can be
//! written later in place.

use vstd::prelude::*;
use super::{
    write_tagged, ConstSongSize, ConstSongSizeImplFromConstSongSize, ConstSongSizeValue, FromSong,
    FromSongError, HasSongSize, SongRoundTrip, SongSize, SongSizeExpr, ToSong, ToSongError,
};

verus! {

/// The tag in front of a present value.
pub const PRESENT_TAG: u8 = 0x18;

/// The byte that fills an absent value's slot (erased flash).
pub const UNWRITTEN_BYTE: u8 = 0xFF;

#[derive(Debug, Clone)]
pub struct MaybeUnwrittenMaxBytes<T: ConstSongSize>(pub Option<T>);

/// The value itself, if it was written.
impl<T: ConstSongSize> core::ops::Deref for MaybeUnwrittenMaxBytes<T> {
    type Target = Option<T>;

    fn deref(&self) -> (value: &Option<T>)
        ensures
            *value == self.0,
    {
        &self.0
    }
}

/// The slot of an absent value: `n` unwritten bytes.
pub open spec fn unwritten_bytes(n: nat) -> Seq<u8> {
    Seq::new(n, |i: int| UNWRITTEN_BYTE)
}

impl<T: ConstSongSize> HasSongSize for MaybeUnwrittenMaxBytes<T> {
    type Size = (ConstSongSizeImplFromConstSongSize<T>, ConstSongSizeValue<1>);
}

impl<T: ConstSongSize> SongSize for MaybeUnwrittenMaxBytes<T> {
    open spec fn song_len(&self) -> nat {
        T::const_song_len() + 1
    }

    fn song_size(&self) -> (n: usize) {
        T::const_song_size() + 1
    }
}

impl<T: ConstSongSize> ConstSongSize for MaybeUnwrittenMaxBytes<T> {
    open spec fn const_song_len() -> nat {
        T::const_song_len() + 1
    }

    fn const_song_size() -> (n: usize) {
        T::const_song_size() + 1
    }

    fn const_song_fits(len: usize) -> (b: bool) {
        len >= 1 && T::const_song_fits(len - 1)
    }

    proof fn lemma_const_song_len(v: &Self) {
    }

    proof fn lemma_const_song_len_of_type() {
        assert(<(ConstSongSizeImplFromConstSongSize<T>, ConstSongSizeValue<1>) as SongSizeExpr>::size_value() == T::const_song_len() + 1);
    }
}

impl<T: ConstSongSize + FromSong> FromSong for MaybeUnwrittenMaxBytes<T> {
    open spec fn song_parse(bytes: Seq<u8>) -> Result<MaybeUnwrittenMaxBytes<T>, FromSongError> {
        if bytes.len() < T::const_song_len() + 1 {
            Err(FromSongError::BufferOverflow)
        } else if bytes[0] == UNWRITTEN_BYTE {
            Ok(MaybeUnwrittenMaxBytes(None))
        } else if bytes[0] == PRESENT_TAG {
            match T::song_parse(bytes.skip(1)) {
                Ok(value) => Ok(MaybeUnwrittenMaxBytes(Some(value))),
                Err(e) => Err(e),
            }
        } else {
            Err(FromSongError::InvalidValue)
        }
    }

    proof fn lemma_parse_len(bytes: Seq<u8>) {
    }

    fn from_song_at(buf: &[u8], pos: usize) -> (r: Result<MaybeUnwrittenMaxBytes<T>, FromSongError>) {
        if buf.len() - pos < 1 {
            return Err(FromSongError::BufferOverflow);
        }
        let ghost s = buf@.skip(pos as int);
        assert(s[0] == buf@[pos as int]);
        assert(s.skip(1) =~= buf@.skip(pos + 1));
        if !T::const_song_fits(buf.len() - pos - 1) {
            return Err(FromSongError::BufferOverflow);
        }
        let tag = buf[pos];
        if tag == UNWRITTEN_BYTE {
            Ok(MaybeUnwrittenMaxBytes(None))
        } else if tag == PRESENT_TAG {
            match T::from_song_at(buf, pos + 1) {
                Ok(value) => Ok(MaybeUnwrittenMaxBytes(Some(value))),
                Err(e) => Err(e),
            }
        } else {
            Err(FromSongError::InvalidValue)
        }
    }
}

impl<T: ConstSongSize + ToSong> ToSong for MaybeUnwrittenMaxBytes<T> {
    open spec fn song_bytes(&self) -> Seq<u8> {
        match self.0 {
            Some(value) => seq![PRESENT_TAG] + value.song_bytes(),
            None => unwritten_bytes(T::const_song_len() + 1),
        }
    }

    proof fn lemma_song_bytes_len(&self) {
        if let Some(value) = self.0 {
            value.lemma_song_bytes_len();
            T::lemma_const_song_len(&value);
        }
    }

    /// Writes the full slot, or fails with `BufferOverflow` when the slot does not fit. A present
    /// value is refused up front only when not even the value's own size is left; otherwise its
    /// tag goes out before the value is written.
    fn to_song_at(&self, buf: &mut [u8], pos: usize) -> (r: Result<(), ToSongError>) {
        let value_size = T::const_song_size();
        match &self.0 {
            Some(value) => {
                if buf.len() - pos < value_size {
                    return Err(ToSongError::BufferOverflow);
                }
                proof {
                    T::lemma_const_song_len(value);
                }
                write_tagged(PRESENT_TAG, value, buf, pos)
            },
            None => {
                let size = value_size + 1;
                if buf.len() - pos < size {
                    return Err(ToSongError::BufferOverflow);
                }
                let mut i: usize = 0;
                while i < size
                    invariant
                        0 <= i <= size,
                        size == T::const_song_len() + 1,
                        pos + size <= old(buf)@.len(),
                        pos + size <= usize::MAX,
                        buf@ == old(buf)@.take(pos as int) + unwritten_bytes(i as nat) + old(
                            buf,
                        )@.skip(pos + i),
                    decreases size - i,
                {
                    buf[pos + i] = UNWRITTEN_BYTE;
                    proof {
                        assert(buf@ =~= old(buf)@.take(pos as int) + unwritten_bytes((i + 1) as nat)
                            + old(buf)@.skip(pos + i + 1));
                    }
                    i = i + 1;
                }
                Ok(())
            },
        }
    }
}

impl<T: ConstSongSize + SongRoundTrip> SongRoundTrip for MaybeUnwrittenMaxBytes<T> {
    proof fn lemma_song_round_trip(&self, rest: Seq<u8>) {
        let b = self.song_bytes() + rest;
        self.lemma_song_bytes_len();
        assert(b[0] == self.song_bytes()[0]);
        if let Some(value) = self.0 {
            assert(b.skip(1) =~= value.song_bytes() + rest);
            value.lemma_song_round_trip(rest);
        }
    }
}


/// A present value is written as the byte 0x18 followed by the value; an absent one fills the
/// whole slot, the value's size plus one, with 0xFF. Reading gives those back, whatever follows
/// them; a slot that does not fit is refused with `BufferOverflow`, and one that starts with any
/// other byte with `InvalidValue`.
pub proof fn lemma_maybe_unwritten_layout<T: ConstSongSize + SongRoundTrip>(
    v: MaybeUnwrittenMaxBytes<T>,
    rest: Seq<u8>,
    bytes: Seq<u8>,
)
    ensures
        v.0 matches Some(x) ==> v.song_bytes() == seq![0x18u8] + x.song_bytes()
            && <MaybeUnwrittenMaxBytes<T> as FromSong>::song_parse(seq![0x18u8] + x.song_bytes() + rest)
            == Ok::<MaybeUnwrittenMaxBytes<T>, FromSongError>(v),
        v.0 is None ==> v.song_bytes().len() == T::const_song_len() + 1
            && (forall|i: int| 0 <= i < v.song_bytes().len() ==> v.song_bytes()[i] == 0xFFu8)
            && <MaybeUnwrittenMaxBytes<T> as FromSong>::song_parse(v.song_bytes() + rest)
            == Ok::<MaybeUnwrittenMaxBytes<T>, FromSongError>(v),
        bytes.len() < T::const_song_len() + 1 ==> <MaybeUnwrittenMaxBytes<T> as FromSong>::song_parse(bytes)
            == Err::<MaybeUnwrittenMaxBytes<T>, FromSongError>(FromSongError::BufferOverflow),
        bytes.len() >= T::const_song_len() + 1 && bytes[0] != 0x18 && bytes[0] != 0xFF
            ==> <MaybeUnwrittenMaxBytes<T> as FromSong>::song_parse(bytes)
            == Err::<MaybeUnwrittenMaxBytes<T>, FromSongError>(FromSongError::InvalidValue),
{
    v.lemma_song_round_trip(rest);
    v.lemma_song_bytes_len();
}

} // verus!
