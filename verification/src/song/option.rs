//! `Option<T>`: a tag byte, 0 for `None` and 1 for `Some`, then the value.

use vstd::prelude::*;
use super::{FromSong, FromSongError, SongRoundTrip, SongSize, ToSong, ToSongError};

verus! {

impl<T: SongSize> SongSize for Option<T> {
    open spec fn song_len(&self) -> nat {
        match self {
            Some(val) => val.song_len() + 1,
            None => 1,
        }
    }

    fn song_size(&self) -> (n: usize) {
        match self {
            Some(val) => val.song_size() + 1,
            None => 1,
        }
    }
}

impl<T: ToSong> ToSong for Option<T> {
    open spec fn song_bytes(&self) -> Seq<u8> {
        match self {
            Some(val) => seq![1u8] + val.song_bytes(),
            None => seq![0u8],
        }
    }

    proof fn lemma_song_bytes_len(&self) {
        if let Some(val) = self {
            val.lemma_song_bytes_len();
        }
    }

    fn to_song_at(&self, buf: &mut [u8], pos: usize) -> (r: Result<(), ToSongError>) {
        if buf.len() - pos < self.song_size() {
            return Err(ToSongError::BufferOverflow);
        }
        match self {
            Some(val) => {
                buf[pos] = 1;
                let ghost tagged = buf@;
                let r = val.to_song_at(buf, pos + 1);
                proof {
                    assert(buf@.take(pos as int) =~= tagged.take(pos + 1).take(pos as int));
                    assert(tagged.take(pos + 1) =~= old(buf)@.take(pos as int) + seq![1u8]);
                    assert(tagged.skip(pos + 1 + val.song_len()) =~= old(buf)@.skip(
                        pos + self.song_len(),
                    ));
                    assert(buf@ =~= old(buf)@.take(pos as int) + self.song_bytes() + old(buf)@.skip(
                        pos + self.song_len(),
                    ));
                }
                r
            },
            None => {
                buf[pos] = 0;
                proof {
                    assert(buf@ =~= old(buf)@.take(pos as int) + self.song_bytes() + old(buf)@.skip(
                        pos + 1,
                    ));
                }
                Ok(())
            },
        }
    }
}

impl<T: FromSong> FromSong for Option<T> {
    open spec fn song_parse(bytes: Seq<u8>) -> Result<Option<T>, FromSongError> {
        if bytes.len() < 1 {
            Err(FromSongError::BufferOverflow)
        } else if bytes[0] == 0 {
            Ok(None)
        } else if bytes[0] == 1 {
            match T::song_parse(bytes.skip(1)) {
                Ok(val) => Ok(Some(val)),
                Err(e) => Err(e),
            }
        } else {
            Err(FromSongError::InvalidValue)
        }
    }

    proof fn lemma_parse_len(bytes: Seq<u8>) {
        if bytes.len() >= 1 {
            T::lemma_parse_len(bytes.skip(1));
        }
    }

    fn from_song_at(buf: &[u8], pos: usize) -> (r: Result<Option<T>, FromSongError>) {
        if buf.len() - pos < 1 {
            return Err(FromSongError::BufferOverflow);
        }
        let ghost s = buf@.skip(pos as int);
        assert(s[0] == buf@[pos as int]);
        match buf[pos] {
            0 => Ok(None),
            1 => {
                assert(s.skip(1) =~= buf@.skip(pos + 1));
                match T::from_song_at(buf, pos + 1) {
                    Ok(val) => Ok(Some(val)),
                    Err(e) => Err(e),
                }
            },
            _ => Err(FromSongError::InvalidValue),
        }
    }
}

impl<T: SongRoundTrip> SongRoundTrip for Option<T> {
    proof fn lemma_song_round_trip(&self, rest: Seq<u8>) {
        let b = self.song_bytes() + rest;
        assert(b[0] == self.song_bytes()[0]);
        if let Some(val) = self {
            assert(b.skip(1) =~= val.song_bytes() + rest);
            val.lemma_song_round_trip(rest);
        }
    }
}


/// `None` is written as the byte 0; `Some(x)` as the byte 1 followed by `x`. Reading gives those
/// back, whatever follows them; an empty buffer is refused with `BufferOverflow` and any other
/// first byte with `InvalidValue`.
pub proof fn lemma_option_layout<T: SongRoundTrip>(v: Option<T>, rest: Seq<u8>, bytes: Seq<u8>)
    ensures
        v matches Some(x) ==> v.song_bytes() == seq![1u8] + x.song_bytes()
            && <Option<T> as FromSong>::song_parse(seq![1u8] + x.song_bytes() + rest) == Ok::<Option<T>, FromSongError>(v),
        v is None ==> v.song_bytes() == seq![0u8]
            && <Option<T> as FromSong>::song_parse(seq![0u8] + rest) == Ok::<Option<T>, FromSongError>(v),
        bytes.len() == 0 ==> <Option<T> as FromSong>::song_parse(bytes) == Err::<Option<T>, FromSongError>(FromSongError::BufferOverflow),
        bytes.len() >= 1 && bytes[0] > 1 ==> <Option<T> as FromSong>::song_parse(bytes) == Err::<Option<T>, FromSongError>(FromSongError::InvalidValue),
{
    v.lemma_song_round_trip(rest);
}

} // verus!
