//! Attitude as a quaternion, in the layout shared with the C estimator.

use vstd::prelude::*;
use crate::song::{lemma_write_after, FromSong, FromSongError, SongRoundTrip, SongSize, ToSong, ToSongError};

verus! {

/// A quaternion `r + xi + yj + zk`.
#[derive(Debug, Clone)]
pub struct Quaternion<T: SongSize + ToSong + FromSong> {
    pub r: T,
    pub x: T,
    pub y: T,
    pub z: T,
}

impl<T: SongSize + ToSong + FromSong> Quaternion<T> {
    pub fn new(r: T, x: T, y: T, z: T) -> (q: Self)
        ensures
            q.r == r,
            q.x == x,
            q.y == y,
            q.z == z,
    {
        Quaternion { r, x, y, z }
    }
}

impl<T: SongSize + ToSong + FromSong> SongSize for Quaternion<T> {
    open spec fn song_len(&self) -> nat {
        self.r.song_len() + self.x.song_len() + self.y.song_len() + self.z.song_len()
    }

    fn song_size(&self) -> (n: usize) {
        self.r.song_size() + self.x.song_size() + self.y.song_size() + self.z.song_size()
    }
}

impl<T: SongSize + ToSong + FromSong> ToSong for Quaternion<T> {
    open spec fn song_bytes(&self) -> Seq<u8> {
        self.r.song_bytes() + self.x.song_bytes() + self.y.song_bytes() + self.z.song_bytes()
    }

    proof fn lemma_song_bytes_len(&self) {
        self.r.lemma_song_bytes_len();
        self.x.lemma_song_bytes_len();
        self.y.lemma_song_bytes_len();
        self.z.lemma_song_bytes_len();
    }

    fn to_song_at(&self, buf: &mut [u8], pos: usize) -> (r: Result<(), ToSongError>) {
        if buf.len() - pos < self.song_size() {
            return Err(ToSongError::BufferOverflow);
        }
        proof {
            self.r.lemma_song_bytes_len();
            self.x.lemma_song_bytes_len();
            self.y.lemma_song_bytes_len();
            self.z.lemma_song_bytes_len();
        }
        let ghost start = buf@;
        let mut i = pos;
        match self.r.to_song_at(buf, i) {
            Ok(()) => {},
            Err(e) => return Err(e),
        }
        i = i + self.r.song_size();
        let ghost before = buf@;
        match self.x.to_song_at(buf, i) {
            Ok(()) => {},
            Err(e) => return Err(e),
        }
        proof {
            lemma_write_after(start, before, buf@, pos as int, self.r.song_bytes(), self.x.song_bytes());
        }
        i = i + self.x.song_size();
        let ghost before = buf@;
        match self.y.to_song_at(buf, i) {
            Ok(()) => {},
            Err(e) => return Err(e),
        }
        proof {
            lemma_write_after(start, before, buf@, pos as int, self.r.song_bytes() + self.x.song_bytes(), self.y.song_bytes());
        }
        i = i + self.y.song_size();
        let ghost before = buf@;
        match self.z.to_song_at(buf, i) {
            Ok(()) => {},
            Err(e) => return Err(e),
        }
        proof {
            lemma_write_after(start, before, buf@, pos as int, self.r.song_bytes() + self.x.song_bytes() + self.y.song_bytes(), self.z.song_bytes());
        }
        Ok(())
    }
}

impl<T: SongSize + ToSong + FromSong> FromSong for Quaternion<T> {
    open spec fn song_parse(bytes: Seq<u8>) -> Result<Quaternion<T>, FromSongError> {
        match <T as FromSong>::song_parse(bytes) { Err(e) => Err(e), Ok(r) => match <T as FromSong>::song_parse(bytes.skip((r.song_len()) as int)) { Err(e) => Err(e), Ok(x) => match <T as FromSong>::song_parse(bytes.skip((r.song_len() + x.song_len()) as int)) { Err(e) => Err(e), Ok(y) => match <T as FromSong>::song_parse(bytes.skip((r.song_len() + x.song_len() + y.song_len()) as int)) { Err(e) => Err(e), Ok(z) => Ok(Quaternion { r, x, y, z }) } } } }
    }

    proof fn lemma_parse_len(bytes: Seq<u8>) {
        <T as FromSong>::lemma_parse_len(bytes);
        if let Ok(r) = <T as FromSong>::song_parse(bytes) {
            <T as FromSong>::lemma_parse_len(bytes.skip((r.song_len()) as int));
            if let Ok(x) = <T as FromSong>::song_parse(bytes.skip((r.song_len()) as int)) {
                assert(bytes.skip((r.song_len() + x.song_len()) as int) =~= bytes.skip((r.song_len()) as int).skip(x.song_len() as int));
                <T as FromSong>::lemma_parse_len(bytes.skip((r.song_len() + x.song_len()) as int));
                if let Ok(y) = <T as FromSong>::song_parse(bytes.skip((r.song_len() + x.song_len()) as int)) {
                    assert(bytes.skip((r.song_len() + x.song_len() + y.song_len()) as int) =~= bytes.skip((r.song_len() + x.song_len()) as int).skip(y.song_len() as int));
                    <T as FromSong>::lemma_parse_len(bytes.skip((r.song_len() + x.song_len() + y.song_len()) as int));
                }
            }
        }
    }

    fn from_song_at(buf: &[u8], pos: usize) -> (r: Result<Quaternion<T>, FromSongError>) {
        let ghost b = buf@.skip(pos as int);
        assert(buf@.len() == buf.len());
        let mut i = pos;
        assert(buf@.skip(i as int) =~= b);
        let v_r = match <T as FromSong>::from_song_at(buf, i) {
            Ok(v) => v,
            Err(e) => return Err(e),
        };
        proof {
            <T as FromSong>::lemma_parse_len(b);
        }
        i = i + v_r.song_size();
        assert(buf@.skip(i as int) =~= b.skip((v_r.song_len()) as int));
        let v_x = match <T as FromSong>::from_song_at(buf, i) {
            Ok(v) => v,
            Err(e) => return Err(e),
        };
        proof {
            <T as FromSong>::lemma_parse_len(b.skip((v_r.song_len()) as int));
        }
        i = i + v_x.song_size();
        assert(buf@.skip(i as int) =~= b.skip((v_r.song_len() + v_x.song_len()) as int));
        let v_y = match <T as FromSong>::from_song_at(buf, i) {
            Ok(v) => v,
            Err(e) => return Err(e),
        };
        proof {
            <T as FromSong>::lemma_parse_len(b.skip((v_r.song_len() + v_x.song_len()) as int));
        }
        i = i + v_y.song_size();
        assert(buf@.skip(i as int) =~= b.skip((v_r.song_len() + v_x.song_len() + v_y.song_len()) as int));
        let v_z = match <T as FromSong>::from_song_at(buf, i) {
            Ok(v) => v,
            Err(e) => return Err(e),
        };
        Ok(Quaternion { r: v_r, x: v_x, y: v_y, z: v_z })
    }
}

impl<T: SongRoundTrip> SongRoundTrip for Quaternion<T> {
    proof fn lemma_song_round_trip(&self, rest: Seq<u8>) {
        self.r.lemma_song_bytes_len();
        self.x.lemma_song_bytes_len();
        self.y.lemma_song_bytes_len();
        self.z.lemma_song_bytes_len();
        let b = self.song_bytes() + rest;
        assert(b =~= self.r.song_bytes() + (self.x.song_bytes() + self.y.song_bytes() + self.z.song_bytes() + rest));
        self.r.lemma_song_round_trip(self.x.song_bytes() + self.y.song_bytes() + self.z.song_bytes() + rest);
        assert(b.skip((self.r.song_bytes().len()) as int) =~= self.x.song_bytes() + (self.y.song_bytes() + self.z.song_bytes() + rest));
        self.x.lemma_song_round_trip(self.y.song_bytes() + self.z.song_bytes() + rest);
        assert(b.skip((self.r.song_bytes().len() + self.x.song_bytes().len()) as int) =~= self.y.song_bytes() + (self.z.song_bytes() + rest));
        self.y.lemma_song_round_trip(self.z.song_bytes() + rest);
        assert(b.skip((self.r.song_bytes().len() + self.x.song_bytes().len() + self.y.song_bytes().len()) as int) =~= self.z.song_bytes() + (rest));
        self.z.lemma_song_round_trip(rest);
    }
}


/// On the wire a `Quaternion` is its fields `r`, `x`, `y`, `z`, in that order, each in its own encoding with
/// nothing between them; reading those bytes gives the value back, whatever follows them.
pub proof fn lemma_quaternion_layout<T: SongRoundTrip>(v: Quaternion<T>, rest: Seq<u8>)
    ensures
        v.song_bytes() == v.r.song_bytes() + v.x.song_bytes() + v.y.song_bytes() + v.z.song_bytes(),
        v.song_len() == v.r.song_len() + v.x.song_len() + v.y.song_len() + v.z.song_len(),
        <Quaternion<T> as FromSong>::song_parse(v.r.song_bytes() + v.x.song_bytes() + v.y.song_bytes() + v.z.song_bytes() + rest) == Ok::<Quaternion<T>, FromSongError>(v),
{
    v.lemma_song_round_trip(rest);
}

} // verus!
