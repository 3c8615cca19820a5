//! A wall-clock reference recorded with a flight.

use vstd::prelude::*;
use crate::song::{
    lemma_write_after, ConstSongSize, ConstSongSizeImplFromConstSongSize, FromSong, FromSongError,
    HasSongSize, SongRoundTrip, SongSize, SongSizeExpr, ToSong, ToSongError,
};

verus! {

/// Milliseconds since the Unix epoch at a known moment.
#[derive(Clone, Debug, PartialEq, Eq, Structural)]
pub struct AbsoluteTimeReference {
    pub ms_since_epoch: u64,
}

impl HasSongSize for AbsoluteTimeReference {
    type Size = ((), ConstSongSizeImplFromConstSongSize<u64>);
}

impl ConstSongSize for AbsoluteTimeReference {
    open spec fn const_song_len() -> nat {
        8
    }

    fn const_song_size() -> (n: usize) {
        8
    }

    fn const_song_fits(len: usize) -> (b: bool) {
        8 <= len
    }

    proof fn lemma_const_song_len(v: &Self) {
    }

    proof fn lemma_const_song_len_of_type() {
        assert(<((), ConstSongSizeImplFromConstSongSize<u64>) as SongSizeExpr>::size_value() == 8);
    }
}

impl SongSize for AbsoluteTimeReference {
    open spec fn song_len(&self) -> nat {
        self.ms_since_epoch.song_len()
    }

    fn song_size(&self) -> (n: usize) {
        self.ms_since_epoch.song_size()
    }
}

impl ToSong for AbsoluteTimeReference {
    open spec fn song_bytes(&self) -> Seq<u8> {
        self.ms_since_epoch.song_bytes()
    }

    proof fn lemma_song_bytes_len(&self) {
        self.ms_since_epoch.lemma_song_bytes_len();
    }

    fn to_song_at(&self, buf: &mut [u8], pos: usize) -> (r: Result<(), ToSongError>) {
        if buf.len() - pos < self.song_size() {
            return Err(ToSongError::BufferOverflow);
        }
        proof {
            self.ms_since_epoch.lemma_song_bytes_len();
        }
        let ghost start = buf@;
        let mut i = pos;
        match self.ms_since_epoch.to_song_at(buf, i) {
            Ok(()) => {},
            Err(e) => return Err(e),
        }
        Ok(())
    }
}

impl FromSong for AbsoluteTimeReference {
    open spec fn song_parse(bytes: Seq<u8>) -> Result<AbsoluteTimeReference, FromSongError> {
        match <u64 as FromSong>::song_parse(bytes) { Err(e) => Err(e), Ok(ms_since_epoch) => Ok(AbsoluteTimeReference { ms_since_epoch }) }
    }

    proof fn lemma_parse_len(bytes: Seq<u8>) {
        <u64 as FromSong>::lemma_parse_len(bytes);
    }

    fn from_song_at(buf: &[u8], pos: usize) -> (r: Result<AbsoluteTimeReference, FromSongError>) {
        let ghost b = buf@.skip(pos as int);
        assert(buf@.len() == buf.len());
        let mut i = pos;
        assert(buf@.skip(i as int) =~= b);
        let v_ms_since_epoch = match <u64 as FromSong>::from_song_at(buf, i) {
            Ok(v) => v,
            Err(e) => return Err(e),
        };
        Ok(AbsoluteTimeReference { ms_since_epoch: v_ms_since_epoch })
    }
}

impl SongRoundTrip for AbsoluteTimeReference {
    proof fn lemma_song_round_trip(&self, rest: Seq<u8>) {
        self.ms_since_epoch.lemma_song_bytes_len();
        let b = self.song_bytes() + rest;
        assert(b =~= self.ms_since_epoch.song_bytes() + (rest));
        self.ms_since_epoch.lemma_song_round_trip(rest);
    }
}


/// On the wire a `AbsoluteTimeReference` is its one field `ms_since_epoch` in that field's own encoding, and reading those
/// bytes gives the value back, whatever follows them.
pub proof fn lemma_absolute_time_reference_layout(v: AbsoluteTimeReference, rest: Seq<u8>)
    ensures
        v.song_bytes() == v.ms_since_epoch.song_bytes(),
        v.song_len() == v.ms_since_epoch.song_len(),
        <AbsoluteTimeReference as FromSong>::song_parse(v.ms_since_epoch.song_bytes() + rest) == Ok::<AbsoluteTimeReference, FromSongError>(v),
{
    v.lemma_song_round_trip(rest);
}

} // verus!
