//! `Result<T, E>`: a tag byte, 0x12 for `Ok` and 0x34 for `Err`, then the value.

use vstd::prelude::*;
use super::{write_tagged, FromSong, FromSongError, SongRoundTrip, SongSize, ToSong, ToSongError};

verus! {

/// The tag written before an `Ok` value.
pub const RESULT_OK_TAG: u8 = 0x12;

/// The tag written before an `Err` value.
pub const RESULT_ERR_TAG: u8 = 0x34;

impl<T: SongSize, E: SongSize> SongSize for Result<T, E> {
    open spec fn song_len(&self) -> nat {
        match self {
            Ok(item) => item.song_len() + 1,
            Err(err) => err.song_len() + 1,
        }
    }

    fn song_size(&self) -> (n: usize) {
        match self {
            Ok(item) => item.song_size() + 1,
            Err(err) => err.song_size() + 1,
        }
    }
}


impl<T: ToSong, E: ToSong> ToSong for Result<T, E> {
    open spec fn song_bytes(&self) -> Seq<u8> {
        match self {
            Ok(item) => seq![RESULT_OK_TAG] + item.song_bytes(),
            Err(err) => seq![RESULT_ERR_TAG] + err.song_bytes(),
        }
    }

    proof fn lemma_song_bytes_len(&self) {
        match self {
            Ok(item) => item.lemma_song_bytes_len(),
            Err(err) => err.lemma_song_bytes_len(),
        }
    }

    fn to_song_at(&self, buf: &mut [u8], pos: usize) -> (r: Result<(), ToSongError>) {
        match self {
            Ok(item) => write_tagged(RESULT_OK_TAG, item, buf, pos),
            Err(err) => write_tagged(RESULT_ERR_TAG, err, buf, pos),
        }
    }
}

impl<T: FromSong, E: FromSong> FromSong for Result<T, E> {
    open spec fn song_parse(bytes: Seq<u8>) -> Result<Result<T, E>, FromSongError> {
        if bytes.len() == 0 {
            Err(FromSongError::BufferOverflow)
        } else if bytes[0] == RESULT_OK_TAG {
            match T::song_parse(bytes.skip(1)) {
                Ok(item) => Ok(Ok(item)),
                Err(e) => Err(e),
            }
        } else if bytes[0] == RESULT_ERR_TAG {
            match E::song_parse(bytes.skip(1)) {
                Ok(err) => Ok(Err(err)),
                Err(e) => Err(e),
            }
        } else {
            Err(FromSongError::InvalidValue)
        }
    }

    proof fn lemma_parse_len(bytes: Seq<u8>) {
        if bytes.len() > 0 {
            T::lemma_parse_len(bytes.skip(1));
            E::lemma_parse_len(bytes.skip(1));
        }
    }

    fn from_song_at(buf: &[u8], pos: usize) -> (r: Result<Result<T, E>, FromSongError>) {
        if buf.len() - pos == 0 {
            return Err(FromSongError::BufferOverflow);
        }
        let ghost s = buf@.skip(pos as int);
        assert(s[0] == buf@[pos as int]);
        assert(s.skip(1) =~= buf@.skip(pos + 1));
        let tag = buf[pos];
        if tag == RESULT_OK_TAG {
            match T::from_song_at(buf, pos + 1) {
                Ok(item) => Ok(Ok(item)),
                Err(e) => Err(e),
            }
        } else if tag == RESULT_ERR_TAG {
            match E::from_song_at(buf, pos + 1) {
                Ok(err) => Ok(Err(err)),
                Err(e) => Err(e),
            }
        } else {
            Err(FromSongError::InvalidValue)
        }
    }
}

impl<T: SongRoundTrip, E: SongRoundTrip> SongRoundTrip for Result<T, E> {
    proof fn lemma_song_round_trip(&self, rest: Seq<u8>) {
        let b = self.song_bytes() + rest;
        assert(b[0] == self.song_bytes()[0]);
        match self {
            Ok(item) => {
                assert(b.skip(1) =~= item.song_bytes() + rest);
                item.lemma_song_round_trip(rest);
            },
            Err(err) => {
                assert(b.skip(1) =~= err.song_bytes() + rest);
                err.lemma_song_round_trip(rest);
            },
        }
    }
}


/// `Ok(x)` is written as the byte 0x12 followed by `x`; `Err(e)` as the byte 0x34 followed by
/// `e`. Reading gives those back, whatever follows them; an empty buffer is refused with
/// `BufferOverflow` and any other first byte with `InvalidValue`.
pub proof fn lemma_result_layout<T: SongRoundTrip, E: SongRoundTrip>(
    v: Result<T, E>,
    rest: Seq<u8>,
    bytes: Seq<u8>,
)
    ensures
        v matches Ok(x) ==> v.song_bytes() == seq![0x12u8] + x.song_bytes()
            && <Result<T, E> as FromSong>::song_parse(seq![0x12u8] + x.song_bytes() + rest) == Ok::<Result<T, E>, FromSongError>(v),
        v matches Err(e) ==> v.song_bytes() == seq![0x34u8] + e.song_bytes()
            && <Result<T, E> as FromSong>::song_parse(seq![0x34u8] + e.song_bytes() + rest) == Ok::<Result<T, E>, FromSongError>(v),
        bytes.len() == 0 ==> <Result<T, E> as FromSong>::song_parse(bytes) == Err::<Result<T, E>, FromSongError>(FromSongError::BufferOverflow),
        bytes.len() >= 1 && bytes[0] != 0x12 && bytes[0] != 0x34 ==> <Result<T, E> as FromSong>::song_parse(bytes) == Err::<Result<T, E>, FromSongError>(FromSongError::InvalidValue),
{
    v.lemma_song_round_trip(rest);
}

} // verus!
