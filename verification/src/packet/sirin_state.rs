//! The state report of the flight computer.

use vstd::prelude::*;
use crate::song::{
    lemma_write_after, ConstSongSize, ConstSongSizeValue, FromSong, FromSongError, HasSongSize,
    SongDiscriminant, SongRoundTrip, SongSize, ToSong, ToSongError,
};
use crate::mode::SirinMode;
use super::gps::{default_gps_fix, GpsFix};

verus! {

/// What the flight computer reports of itself.
#[derive(Debug, Clone)]
pub struct SirinState {
    pub mode: SirinMode,
    pub gps: GpsFix,
    /// Altitude in meters, as the bits of an `f64`.
    pub altitude: u64,
    /// Apogee in meters, as the bits of an `f64`, once declared.
    pub apogee: Option<u64>,
}

impl Default for SirinState {
    fn default() -> (state: SirinState)
        ensures
            state.mode == SirinMode::Standby,
            state.gps == default_gps_fix(),
            state.altitude == 0,
            state.apogee is None,
    {
        SirinState { mode: SirinMode::Standby, gps: GpsFix::default(), altitude: 0, apogee: None }
    }
}


impl SongSize for SirinState {
    open spec fn song_len(&self) -> nat {
        self.mode.song_len() + self.gps.song_len() + self.altitude.song_len() + self.apogee.song_len()
    }

    fn song_size(&self) -> (n: usize) {
        self.mode.song_size() + self.gps.song_size() + self.altitude.song_size() + self.apogee.song_size()
    }
}

impl ToSong for SirinState {
    closed spec fn song_bytes(&self) -> Seq<u8> {
        self.mode.song_bytes() + self.gps.song_bytes() + self.altitude.song_bytes() + self.apogee.song_bytes()
    }

    proof fn lemma_song_bytes_len(&self) {
        self.mode.lemma_song_bytes_len();
        self.gps.lemma_song_bytes_len();
        self.altitude.lemma_song_bytes_len();
        self.apogee.lemma_song_bytes_len();
    }

    fn to_song_at(&self, buf: &mut [u8], pos: usize) -> (r: Result<(), ToSongError>) {
        if buf.len() - pos < self.song_size() {
            return Err(ToSongError::BufferOverflow);
        }
        proof {
            self.mode.lemma_song_bytes_len();
            self.gps.lemma_song_bytes_len();
            self.altitude.lemma_song_bytes_len();
            self.apogee.lemma_song_bytes_len();
        }
        let ghost start = buf@;
        let mut i = pos;
        match self.mode.to_song_at(buf, i) {
            Ok(()) => {},
            Err(e) => return Err(e),
        }
        i = i + self.mode.song_size();
        let ghost before = buf@;
        match self.gps.to_song_at(buf, i) {
            Ok(()) => {},
            Err(e) => return Err(e),
        }
        proof {
            lemma_write_after(start, before, buf@, pos as int, self.mode.song_bytes(), self.gps.song_bytes());
        }
        i = i + self.gps.song_size();
        let ghost before = buf@;
        match self.altitude.to_song_at(buf, i) {
            Ok(()) => {},
            Err(e) => return Err(e),
        }
        proof {
            lemma_write_after(start, before, buf@, pos as int, self.mode.song_bytes() + self.gps.song_bytes(), self.altitude.song_bytes());
        }
        i = i + self.altitude.song_size();
        let ghost before = buf@;
        match self.apogee.to_song_at(buf, i) {
            Ok(()) => {},
            Err(e) => return Err(e),
        }
        proof {
            lemma_write_after(start, before, buf@, pos as int, self.mode.song_bytes() + self.gps.song_bytes() + self.altitude.song_bytes(), self.apogee.song_bytes());
        }
        Ok(())
    }
}

impl FromSong for SirinState {
    closed spec fn song_parse(bytes: Seq<u8>) -> Result<SirinState, FromSongError> {
        match <SirinMode as FromSong>::song_parse(bytes) { Err(e) => Err(e), Ok(mode) => match <GpsFix as FromSong>::song_parse(bytes.skip((mode.song_len()) as int)) { Err(e) => Err(e), Ok(gps) => match <u64 as FromSong>::song_parse(bytes.skip((mode.song_len() + gps.song_len()) as int)) { Err(e) => Err(e), Ok(altitude) => match <Option<u64> as FromSong>::song_parse(bytes.skip((mode.song_len() + gps.song_len() + altitude.song_len()) as int)) { Err(e) => Err(e), Ok(apogee) => Ok(SirinState { mode, gps, altitude, apogee }) } } } }
    }

    proof fn lemma_parse_len(bytes: Seq<u8>) {
        <SirinMode as FromSong>::lemma_parse_len(bytes);
        if let Ok(mode) = <SirinMode as FromSong>::song_parse(bytes) {
            <GpsFix as FromSong>::lemma_parse_len(bytes.skip((mode.song_len()) as int));
            if let Ok(gps) = <GpsFix as FromSong>::song_parse(bytes.skip((mode.song_len()) as int)) {
                assert(bytes.skip((mode.song_len() + gps.song_len()) as int) =~= bytes.skip((mode.song_len()) as int).skip(gps.song_len() as int));
                <u64 as FromSong>::lemma_parse_len(bytes.skip((mode.song_len() + gps.song_len()) as int));
                if let Ok(altitude) = <u64 as FromSong>::song_parse(bytes.skip((mode.song_len() + gps.song_len()) as int)) {
                    assert(bytes.skip((mode.song_len() + gps.song_len() + altitude.song_len()) as int) =~= bytes.skip((mode.song_len() + gps.song_len()) as int).skip(altitude.song_len() as int));
                    <Option<u64> as FromSong>::lemma_parse_len(bytes.skip((mode.song_len() + gps.song_len() + altitude.song_len()) as int));
                }
            }
        }
    }

    fn from_song_at(buf: &[u8], pos: usize) -> (r: Result<SirinState, FromSongError>) {
        let ghost b = buf@.skip(pos as int);
        assert(buf@.len() == buf.len());
        let mut i = pos;
        assert(buf@.skip(i as int) =~= b);
        let v_mode = match <SirinMode as FromSong>::from_song_at(buf, i) {
            Ok(v) => v,
            Err(e) => return Err(e),
        };
        proof {
            <SirinMode as FromSong>::lemma_parse_len(b);
        }
        i = i + v_mode.song_size();
        assert(buf@.skip(i as int) =~= b.skip((v_mode.song_len()) as int));
        let v_gps = match <GpsFix as FromSong>::from_song_at(buf, i) {
            Ok(v) => v,
            Err(e) => return Err(e),
        };
        proof {
            <GpsFix as FromSong>::lemma_parse_len(b.skip((v_mode.song_len()) as int));
        }
        i = i + v_gps.song_size();
        assert(buf@.skip(i as int) =~= b.skip((v_mode.song_len() + v_gps.song_len()) as int));
        let v_altitude = match <u64 as FromSong>::from_song_at(buf, i) {
            Ok(v) => v,
            Err(e) => return Err(e),
        };
        proof {
            <u64 as FromSong>::lemma_parse_len(b.skip((v_mode.song_len() + v_gps.song_len()) as int));
        }
        i = i + v_altitude.song_size();
        assert(buf@.skip(i as int) =~= b.skip((v_mode.song_len() + v_gps.song_len() + v_altitude.song_len()) as int));
        let v_apogee = match <Option<u64> as FromSong>::from_song_at(buf, i) {
            Ok(v) => v,
            Err(e) => return Err(e),
        };
        Ok(SirinState { mode: v_mode, gps: v_gps, altitude: v_altitude, apogee: v_apogee })
    }
}

impl SongRoundTrip for SirinState {
    #[verifier::spinoff_prover]
    #[verifier::rlimit(50)]
    proof fn lemma_song_round_trip(&self, rest: Seq<u8>) {
        self.mode.lemma_song_bytes_len();
        self.gps.lemma_song_bytes_len();
        self.altitude.lemma_song_bytes_len();
        self.apogee.lemma_song_bytes_len();
        let b = self.song_bytes() + rest;
        assert(b =~= self.mode.song_bytes() + (self.gps.song_bytes() + self.altitude.song_bytes() + self.apogee.song_bytes() + rest));
        self.mode.lemma_song_round_trip(self.gps.song_bytes() + self.altitude.song_bytes() + self.apogee.song_bytes() + rest);
        assert(b.skip((self.mode.song_bytes().len()) as int) =~= self.gps.song_bytes() + (self.altitude.song_bytes() + self.apogee.song_bytes() + rest));
        self.gps.lemma_song_round_trip(self.altitude.song_bytes() + self.apogee.song_bytes() + rest);
        assert(b.skip((self.mode.song_bytes().len() + self.gps.song_bytes().len()) as int) =~= self.altitude.song_bytes() + (self.apogee.song_bytes() + rest));
        self.altitude.lemma_song_round_trip(self.apogee.song_bytes() + rest);
        assert(b.skip((self.mode.song_bytes().len() + self.gps.song_bytes().len() + self.altitude.song_bytes().len()) as int) =~= self.apogee.song_bytes() + (rest));
        self.apogee.lemma_song_round_trip(rest);
    }
}


/// On the wire a `SirinState` is its fields `mode`, `gps`, `altitude`, `apogee`, in that order, each in its own encoding with
/// nothing between them; reading those bytes gives the value back, whatever follows them.
pub proof fn lemma_sirin_state_layout(v: SirinState, rest: Seq<u8>)
    ensures
        v.song_bytes() == v.mode.song_bytes() + v.gps.song_bytes() + v.altitude.song_bytes() + v.apogee.song_bytes(),
        v.song_len() == v.mode.song_len() + v.gps.song_len() + v.altitude.song_len() + v.apogee.song_len(),
        <SirinState as FromSong>::song_parse(v.mode.song_bytes() + v.gps.song_bytes() + v.altitude.song_bytes() + v.apogee.song_bytes() + rest) == Ok::<SirinState, FromSongError>(v),
{
    v.lemma_song_round_trip(rest);
}

} // verus!
