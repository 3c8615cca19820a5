//! Everything the sensors measured in one tick.

use vstd::prelude::*;
use crate::song::{
    lemma_write_after, ConstSongSize, ConstSongSizeValue, FromSong, FromSongError, HasSongSize,
    SongDiscriminant, SongRoundTrip, SongSize, ToSong, ToSongError,
};
use super::sensors::{BaroData, HighGImuData, ImuData, MagnetometerData, Measurement};

verus! {

/// Everything the sensors measured in one tick.
#[derive(Debug, Clone)]
pub struct SirinData {
    /// Milliseconds.
    pub time: u32,
    pub baro: BaroData,
    pub imu: ImuData,
    pub high_g_imu: HighGImuData,
    pub magnetometer: MagnetometerData,
}

impl Measurement for SirinData {
    open spec fn is_unmeasured(&self) -> bool {
        &&& self.time == 0
        &&& self.baro.is_unmeasured()
        &&& self.imu.is_unmeasured()
        &&& self.high_g_imu.is_unmeasured()
        &&& self.magnetometer.is_unmeasured()
    }

    fn unmeasured() -> (m: Self) {
        SirinData {
            time: 0,
            baro: BaroData::unmeasured(),
            imu: ImuData::unmeasured(),
            high_g_imu: HighGImuData::unmeasured(),
            magnetometer: MagnetometerData::unmeasured(),
        }
    }
}


impl SongSize for SirinData {
    open spec fn song_len(&self) -> nat {
        self.time.song_len() + self.baro.song_len() + self.imu.song_len() + self.high_g_imu.song_len() + self.magnetometer.song_len()
    }

    fn song_size(&self) -> (n: usize) {
        self.time.song_size() + self.baro.song_size() + self.imu.song_size() + self.high_g_imu.song_size() + self.magnetometer.song_size()
    }
}

impl ToSong for SirinData {
    closed spec fn song_bytes(&self) -> Seq<u8> {
        self.time.song_bytes() + self.baro.song_bytes() + self.imu.song_bytes() + self.high_g_imu.song_bytes() + self.magnetometer.song_bytes()
    }

    proof fn lemma_song_bytes_len(&self) {
        self.time.lemma_song_bytes_len();
        self.baro.lemma_song_bytes_len();
        self.imu.lemma_song_bytes_len();
        self.high_g_imu.lemma_song_bytes_len();
        self.magnetometer.lemma_song_bytes_len();
    }

    fn to_song_at(&self, buf: &mut [u8], pos: usize) -> (r: Result<(), ToSongError>) {
        if buf.len() - pos < self.song_size() {
            return Err(ToSongError::BufferOverflow);
        }
        proof {
            self.time.lemma_song_bytes_len();
            self.baro.lemma_song_bytes_len();
            self.imu.lemma_song_bytes_len();
            self.high_g_imu.lemma_song_bytes_len();
            self.magnetometer.lemma_song_bytes_len();
        }
        let ghost start = buf@;
        let mut i = pos;
        match self.time.to_song_at(buf, i) {
            Ok(()) => {},
            Err(e) => return Err(e),
        }
        i = i + self.time.song_size();
        let ghost before = buf@;
        match self.baro.to_song_at(buf, i) {
            Ok(()) => {},
            Err(e) => return Err(e),
        }
        proof {
            lemma_write_after(start, before, buf@, pos as int, self.time.song_bytes(), self.baro.song_bytes());
        }
        i = i + self.baro.song_size();
        let ghost before = buf@;
        match self.imu.to_song_at(buf, i) {
            Ok(()) => {},
            Err(e) => return Err(e),
        }
        proof {
            lemma_write_after(start, before, buf@, pos as int, self.time.song_bytes() + self.baro.song_bytes(), self.imu.song_bytes());
        }
        i = i + self.imu.song_size();
        let ghost before = buf@;
        match self.high_g_imu.to_song_at(buf, i) {
            Ok(()) => {},
            Err(e) => return Err(e),
        }
        proof {
            lemma_write_after(start, before, buf@, pos as int, self.time.song_bytes() + self.baro.song_bytes() + self.imu.song_bytes(), self.high_g_imu.song_bytes());
        }
        i = i + self.high_g_imu.song_size();
        let ghost before = buf@;
        match self.magnetometer.to_song_at(buf, i) {
            Ok(()) => {},
            Err(e) => return Err(e),
        }
        proof {
            lemma_write_after(start, before, buf@, pos as int, self.time.song_bytes() + self.baro.song_bytes() + self.imu.song_bytes() + self.high_g_imu.song_bytes(), self.magnetometer.song_bytes());
        }
        Ok(())
    }
}

impl FromSong for SirinData {
    closed spec fn song_parse(bytes: Seq<u8>) -> Result<SirinData, FromSongError> {
        match <u32 as FromSong>::song_parse(bytes) { Err(e) => Err(e), Ok(time) => match <BaroData as FromSong>::song_parse(bytes.skip((time.song_len()) as int)) { Err(e) => Err(e), Ok(baro) => match <ImuData as FromSong>::song_parse(bytes.skip((time.song_len() + baro.song_len()) as int)) { Err(e) => Err(e), Ok(imu) => match <HighGImuData as FromSong>::song_parse(bytes.skip((time.song_len() + baro.song_len() + imu.song_len()) as int)) { Err(e) => Err(e), Ok(high_g_imu) => match <MagnetometerData as FromSong>::song_parse(bytes.skip((time.song_len() + baro.song_len() + imu.song_len() + high_g_imu.song_len()) as int)) { Err(e) => Err(e), Ok(magnetometer) => Ok(SirinData { time, baro, imu, high_g_imu, magnetometer }) } } } } }
    }

    proof fn lemma_parse_len(bytes: Seq<u8>) {
        <u32 as FromSong>::lemma_parse_len(bytes);
        if let Ok(time) = <u32 as FromSong>::song_parse(bytes) {
            <BaroData as FromSong>::lemma_parse_len(bytes.skip((time.song_len()) as int));
            if let Ok(baro) = <BaroData as FromSong>::song_parse(bytes.skip((time.song_len()) as int)) {
                assert(bytes.skip((time.song_len() + baro.song_len()) as int) =~= bytes.skip((time.song_len()) as int).skip(baro.song_len() as int));
                <ImuData as FromSong>::lemma_parse_len(bytes.skip((time.song_len() + baro.song_len()) as int));
                if let Ok(imu) = <ImuData as FromSong>::song_parse(bytes.skip((time.song_len() + baro.song_len()) as int)) {
                    assert(bytes.skip((time.song_len() + baro.song_len() + imu.song_len()) as int) =~= bytes.skip((time.song_len() + baro.song_len()) as int).skip(imu.song_len() as int));
                    <HighGImuData as FromSong>::lemma_parse_len(bytes.skip((time.song_len() + baro.song_len() + imu.song_len()) as int));
                    if let Ok(high_g_imu) = <HighGImuData as FromSong>::song_parse(bytes.skip((time.song_len() + baro.song_len() + imu.song_len()) as int)) {
                        assert(bytes.skip((time.song_len() + baro.song_len() + imu.song_len() + high_g_imu.song_len()) as int) =~= bytes.skip((time.song_len() + baro.song_len() + imu.song_len()) as int).skip(high_g_imu.song_len() as int));
                        <MagnetometerData as FromSong>::lemma_parse_len(bytes.skip((time.song_len() + baro.song_len() + imu.song_len() + high_g_imu.song_len()) as int));
                    }
                }
            }
        }
    }

    fn from_song_at(buf: &[u8], pos: usize) -> (r: Result<SirinData, FromSongError>) {
        let ghost b = buf@.skip(pos as int);
        assert(buf@.len() == buf.len());
        let mut i = pos;
        assert(buf@.skip(i as int) =~= b);
        let v_time = match <u32 as FromSong>::from_song_at(buf, i) {
            Ok(v) => v,
            Err(e) => return Err(e),
        };
        proof {
            <u32 as FromSong>::lemma_parse_len(b);
        }
        i = i + v_time.song_size();
        assert(buf@.skip(i as int) =~= b.skip((v_time.song_len()) as int));
        let v_baro = match <BaroData as FromSong>::from_song_at(buf, i) {
            Ok(v) => v,
            Err(e) => return Err(e),
        };
        proof {
            <BaroData as FromSong>::lemma_parse_len(b.skip((v_time.song_len()) as int));
        }
        i = i + v_baro.song_size();
        assert(buf@.skip(i as int) =~= b.skip((v_time.song_len() + v_baro.song_len()) as int));
        let v_imu = match <ImuData as FromSong>::from_song_at(buf, i) {
            Ok(v) => v,
            Err(e) => return Err(e),
        };
        proof {
            <ImuData as FromSong>::lemma_parse_len(b.skip((v_time.song_len() + v_baro.song_len()) as int));
        }
        i = i + v_imu.song_size();
        assert(buf@.skip(i as int) =~= b.skip((v_time.song_len() + v_baro.song_len() + v_imu.song_len()) as int));
        let v_high_g_imu = match <HighGImuData as FromSong>::from_song_at(buf, i) {
            Ok(v) => v,
            Err(e) => return Err(e),
        };
        proof {
            <HighGImuData as FromSong>::lemma_parse_len(b.skip((v_time.song_len() + v_baro.song_len() + v_imu.song_len()) as int));
        }
        i = i + v_high_g_imu.song_size();
        assert(buf@.skip(i as int) =~= b.skip((v_time.song_len() + v_baro.song_len() + v_imu.song_len() + v_high_g_imu.song_len()) as int));
        let v_magnetometer = match <MagnetometerData as FromSong>::from_song_at(buf, i) {
            Ok(v) => v,
            Err(e) => return Err(e),
        };
        Ok(SirinData { time: v_time, baro: v_baro, imu: v_imu, high_g_imu: v_high_g_imu, magnetometer: v_magnetometer })
    }
}

impl SongRoundTrip for SirinData {
    #[verifier::spinoff_prover]
    #[verifier::rlimit(50)]
    proof fn lemma_song_round_trip(&self, rest: Seq<u8>) {
        self.time.lemma_song_bytes_len();
        self.baro.lemma_song_bytes_len();
        self.imu.lemma_song_bytes_len();
        self.high_g_imu.lemma_song_bytes_len();
        self.magnetometer.lemma_song_bytes_len();
        let b = self.song_bytes() + rest;
        assert(b =~= self.time.song_bytes() + (self.baro.song_bytes() + self.imu.song_bytes() + self.high_g_imu.song_bytes() + self.magnetometer.song_bytes() + rest));
        self.time.lemma_song_round_trip(self.baro.song_bytes() + self.imu.song_bytes() + self.high_g_imu.song_bytes() + self.magnetometer.song_bytes() + rest);
        assert(b.skip((self.time.song_bytes().len()) as int) =~= self.baro.song_bytes() + (self.imu.song_bytes() + self.high_g_imu.song_bytes() + self.magnetometer.song_bytes() + rest));
        self.baro.lemma_song_round_trip(self.imu.song_bytes() + self.high_g_imu.song_bytes() + self.magnetometer.song_bytes() + rest);
        assert(b.skip((self.time.song_bytes().len() + self.baro.song_bytes().len()) as int) =~= self.imu.song_bytes() + (self.high_g_imu.song_bytes() + self.magnetometer.song_bytes() + rest));
        self.imu.lemma_song_round_trip(self.high_g_imu.song_bytes() + self.magnetometer.song_bytes() + rest);
        assert(b.skip((self.time.song_bytes().len() + self.baro.song_bytes().len() + self.imu.song_bytes().len()) as int) =~= self.high_g_imu.song_bytes() + (self.magnetometer.song_bytes() + rest));
        self.high_g_imu.lemma_song_round_trip(self.magnetometer.song_bytes() + rest);
        assert(b.skip((self.time.song_bytes().len() + self.baro.song_bytes().len() + self.imu.song_bytes().len() + self.high_g_imu.song_bytes().len()) as int) =~= self.magnetometer.song_bytes() + (rest));
        self.magnetometer.lemma_song_round_trip(rest);
    }
}


/// On the wire a `SirinData` is its fields `time`, `baro`, `imu`, `high_g_imu`, `magnetometer`, in that order, each in its own encoding with
/// nothing between them; reading those bytes gives the value back, whatever follows them.
pub proof fn lemma_sirin_data_layout(v: SirinData, rest: Seq<u8>)
    ensures
        v.song_bytes() == v.time.song_bytes() + v.baro.song_bytes() + v.imu.song_bytes() + v.high_g_imu.song_bytes() + v.magnetometer.song_bytes(),
        v.song_len() == v.time.song_len() + v.baro.song_len() + v.imu.song_len() + v.high_g_imu.song_len() + v.magnetometer.song_len(),
        <SirinData as FromSong>::song_parse(v.time.song_bytes() + v.baro.song_bytes() + v.imu.song_bytes() + v.high_g_imu.song_bytes() + v.magnetometer.song_bytes() + rest) == Ok::<SirinData, FromSongError>(v),
{
    v.lemma_song_round_trip(rest);
}

} // verus!
