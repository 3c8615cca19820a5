//! A byte that must hold one fixed value, used to guard destructive commands.

use vstd::prelude::*;
use super::{
    ConstSongSize, ConstSongSizeValue, FromSong, FromSongError, HasSongSize, SongRoundTrip,
    SongSize, ToSong, ToSongError,
};

verus! {

/// Stands for the single byte `BYTE`; reading any other byte fails.
#[derive(Debug, Clone, Copy, PartialEq, Eq)]
pub struct MagicU8<const BYTE: u8>;

impl<const BYTE: u8> HasSongSize for MagicU8<BYTE> {
    type Size = ConstSongSizeValue<1>;
}

impl<const BYTE: u8> SongSize for MagicU8<BYTE> {
    open spec fn song_len(&self) -> nat {
        1
    }

    fn song_size(&self) -> (n: usize) {
        1
    }
}

impl<const BYTE: u8> ConstSongSize for MagicU8<BYTE> {
    open spec fn const_song_len() -> nat {
        1
    }

    fn const_song_size() -> (n: usize) {
        1
    }

    fn const_song_fits(len: usize) -> (b: bool) {
        1 <= len
    }

    proof fn lemma_const_song_len(v: &Self) {
    }

    proof fn lemma_const_song_len_of_type() {
    }
}

impl<const BYTE: u8> FromSong for MagicU8<BYTE> {
    open spec fn song_parse(bytes: Seq<u8>) -> Result<MagicU8<BYTE>, FromSongError> {
        if bytes.len() < 1 {
            Err(FromSongError::BufferOverflow)
        } else if bytes[0] != BYTE {
            Err(FromSongError::InvalidValue)
        } else {
            Ok(MagicU8)
        }
    }

    proof fn lemma_parse_len(bytes: Seq<u8>) {
    }

    fn from_song_at(buf: &[u8], pos: usize) -> (r: Result<MagicU8<BYTE>, FromSongError>) {
        if buf.len() - pos < 1 {
            return Err(FromSongError::BufferOverflow);
        }
        if buf[pos] != BYTE {
            return Err(FromSongError::InvalidValue);
        }
        Ok(MagicU8)
    }
}

impl<const BYTE: u8> ToSong for MagicU8<BYTE> {
    open spec fn song_bytes(&self) -> Seq<u8> {
        seq![BYTE]
    }

    proof fn lemma_song_bytes_len(&self) {
    }

    fn to_song_at(&self, buf: &mut [u8], pos: usize) -> (r: Result<(), ToSongError>) {
        BYTE.to_song_at(buf, pos)
    }
}

impl<const BYTE: u8> SongRoundTrip for MagicU8<BYTE> {
    proof fn lemma_song_round_trip(&self, rest: Seq<u8>) {
        assert((self.song_bytes() + rest)[0] == BYTE);
    }
}


/// A `MagicU8<BYTE>` is written as the one byte `BYTE`; that byte is read back as it, and any
/// other byte is refused with `InvalidValue`.
pub proof fn lemma_magic_layout<const BYTE: u8>(v: MagicU8<BYTE>, bytes: Seq<u8>)
    ensures
        v.song_bytes() == seq![BYTE],
        bytes.len() >= 1 && bytes[0] == BYTE ==> <MagicU8<BYTE> as FromSong>::song_parse(bytes) == Ok::<MagicU8<BYTE>, FromSongError>(v),
        bytes.len() >= 1 && bytes[0] != BYTE ==> <MagicU8<BYTE> as FromSong>::song_parse(bytes) == Err::<MagicU8<BYTE>, FromSongError>(FromSongError::InvalidValue),
        bytes.len() == 0 ==> <MagicU8<BYTE> as FromSong>::song_parse(bytes) == Err::<MagicU8<BYTE>, FromSongError>(FromSongError::BufferOverflow),
{
}

} // verus!
