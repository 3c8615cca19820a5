//! Position and velocity as reported by the GPS receiver.

use vstd::prelude::*;
use crate::song::{
    lemma_write_after, ConstSongSize, ConstSongSizeImplFromConstSongSize, ConstSongSizeValue,
    FromSong, FromSongError, HasSongSize, MultiplyConstSongSizeImpl, SongDiscriminant,
    SongRoundTrip, SongSize, TaggedSong, ToSong, ToSongError,
};

verus! {

#[derive(Debug, Clone, Copy)]
pub struct Vec3<T: SongSize + FromSong + ToSong> {
    pub x: T,
    pub y: T,
    pub z: T,
}

/// The kind of fix a GPS receiver has.
#[derive(Debug, Clone, Copy, PartialEq, Eq, Structural)]
pub enum GpsFixType {
    NoFix,
    FixPrediction,
    Fix2d,
    Fix3d,
    FixDifferential,
    TimeOnlyFix,
}

#[derive(Debug, Clone)]
pub struct GpsFix {
    /// Milliseconds.
    pub time: u32,
    pub satellites: u8,
    pub almanac: u8,
    pub ephemerides: u8,
    pub healthy_satellites: u8,
    pub fix_type: GpsFixType,
    /// Position in meters, each coordinate as the bits of an `f64`.
    pub pos: Vec3<u64>,
    /// Velocity in meters per second, each coordinate as the bits of an `f32`.
    pub vel: Vec3<u32>,
}

/// The fix reported before the receiver has produced one: all zero, no fix.
pub open spec fn default_gps_fix() -> GpsFix {
    GpsFix {
        time: 0,
        satellites: 0,
        almanac: 0,
        ephemerides: 0,
        healthy_satellites: 0,
        fix_type: GpsFixType::NoFix,
        pos: Vec3 { x: 0, y: 0, z: 0 },
        vel: Vec3 { x: 0, y: 0, z: 0 },
    }
}

impl Default for GpsFix {
    fn default() -> (fix: GpsFix)
        ensures
            fix == default_gps_fix(),
    {
        GpsFix {
            time: 0,
            satellites: 0,
            almanac: 0,
            ephemerides: 0,
            healthy_satellites: 0,
            fix_type: GpsFixType::NoFix,
            pos: Vec3 { x: 0, y: 0, z: 0 },
            vel: Vec3 { x: 0, y: 0, z: 0 },
        }
    }
}


/// A vector of fixed-size components takes three times a component's size.
impl<T: SongSize + ToSong + FromSong + ConstSongSize> HasSongSize for Vec3<T> {
    type Size = MultiplyConstSongSizeImpl<ConstSongSizeImplFromConstSongSize<T>, ConstSongSizeValue<3>>;
}

impl<T: SongSize + ToSong + FromSong + ConstSongSize> ConstSongSize for Vec3<T> {
    open spec fn const_song_len() -> nat {
        3 * T::const_song_len()
    }

    fn const_song_size() -> (n: usize) {
        3 * T::const_song_size()
    }

    fn const_song_fits(len: usize) -> (b: bool) {
        if !T::const_song_fits(len) {
            return false;
        }
        T::const_song_size() <= len / 3
    }

    proof fn lemma_const_song_len(v: &Self) {
        T::lemma_const_song_len(&v.x);
        T::lemma_const_song_len(&v.y);
        T::lemma_const_song_len(&v.z);
    }

    proof fn lemma_const_song_len_of_type() {
    }
}

impl<T: SongSize + ToSong + FromSong> SongSize for Vec3<T> {
    open spec fn song_len(&self) -> nat {
        self.x.song_len() + self.y.song_len() + self.z.song_len()
    }

    fn song_size(&self) -> (n: usize) {
        self.x.song_size() + self.y.song_size() + self.z.song_size()
    }
}

impl<T: SongSize + ToSong + FromSong> ToSong for Vec3<T> {
    open spec fn song_bytes(&self) -> Seq<u8> {
        self.x.song_bytes() + self.y.song_bytes() + self.z.song_bytes()
    }

    proof fn lemma_song_bytes_len(&self) {
        self.x.lemma_song_bytes_len();
        self.y.lemma_song_bytes_len();
        self.z.lemma_song_bytes_len();
    }

    fn to_song_at(&self, buf: &mut [u8], pos: usize) -> (r: Result<(), ToSongError>) {
        if buf.len() - pos < self.song_size() {
            return Err(ToSongError::BufferOverflow);
        }
        proof {
            self.x.lemma_song_bytes_len();
            self.y.lemma_song_bytes_len();
            self.z.lemma_song_bytes_len();
        }
        let ghost start = buf@;
        let mut i = pos;
        match self.x.to_song_at(buf, i) {
            Ok(()) => {},
            Err(e) => return Err(e),
        }
        i = i + self.x.song_size();
        let ghost before = buf@;
        match self.y.to_song_at(buf, i) {
            Ok(()) => {},
            Err(e) => return Err(e),
        }
        proof {
            lemma_write_after(start, before, buf@, pos as int, self.x.song_bytes(), self.y.song_bytes());
        }
        i = i + self.y.song_size();
        let ghost before = buf@;
        match self.z.to_song_at(buf, i) {
            Ok(()) => {},
            Err(e) => return Err(e),
        }
        proof {
            lemma_write_after(start, before, buf@, pos as int, self.x.song_bytes() + self.y.song_bytes(), self.z.song_bytes());
        }
        Ok(())
    }
}

impl<T: SongSize + ToSong + FromSong> FromSong for Vec3<T> {
    open spec fn song_parse(bytes: Seq<u8>) -> Result<Vec3<T>, FromSongError> {
        match <T as FromSong>::song_parse(bytes) { Err(e) => Err(e), Ok(x) => match <T as FromSong>::song_parse(bytes.skip((x.song_len()) as int)) { Err(e) => Err(e), Ok(y) => match <T as FromSong>::song_parse(bytes.skip((x.song_len() + y.song_len()) as int)) { Err(e) => Err(e), Ok(z) => Ok(Vec3 { x, y, z }) } } }
    }

    proof fn lemma_parse_len(bytes: Seq<u8>) {
        <T as FromSong>::lemma_parse_len(bytes);
        if let Ok(x) = <T as FromSong>::song_parse(bytes) {
            <T as FromSong>::lemma_parse_len(bytes.skip((x.song_len()) as int));
            if let Ok(y) = <T as FromSong>::song_parse(bytes.skip((x.song_len()) as int)) {
                assert(bytes.skip((x.song_len() + y.song_len()) as int) =~= bytes.skip((x.song_len()) as int).skip(y.song_len() as int));
                <T as FromSong>::lemma_parse_len(bytes.skip((x.song_len() + y.song_len()) as int));
            }
        }
    }

    fn from_song_at(buf: &[u8], pos: usize) -> (r: Result<Vec3<T>, FromSongError>) {
        let ghost b = buf@.skip(pos as int);
        assert(buf@.len() == buf.len());
        let mut i = pos;
        assert(buf@.skip(i as int) =~= b);
        let v_x = match <T as FromSong>::from_song_at(buf, i) {
            Ok(v) => v,
            Err(e) => return Err(e),
        };
        proof {
            <T as FromSong>::lemma_parse_len(b);
        }
        i = i + v_x.song_size();
        assert(buf@.skip(i as int) =~= b.skip((v_x.song_len()) as int));
        let v_y = match <T as FromSong>::from_song_at(buf, i) {
            Ok(v) => v,
            Err(e) => return Err(e),
        };
        proof {
            <T as FromSong>::lemma_parse_len(b.skip((v_x.song_len()) as int));
        }
        i = i + v_y.song_size();
        assert(buf@.skip(i as int) =~= b.skip((v_x.song_len() + v_y.song_len()) as int));
        let v_z = match <T as FromSong>::from_song_at(buf, i) {
            Ok(v) => v,
            Err(e) => return Err(e),
        };
        Ok(Vec3 { x: v_x, y: v_y, z: v_z })
    }
}

impl<T: SongRoundTrip> SongRoundTrip for Vec3<T> {
    proof fn lemma_song_round_trip(&self, rest: Seq<u8>) {
        self.x.lemma_song_bytes_len();
        self.y.lemma_song_bytes_len();
        self.z.lemma_song_bytes_len();
        let b = self.song_bytes() + rest;
        assert(b =~= self.x.song_bytes() + (self.y.song_bytes() + self.z.song_bytes() + rest));
        self.x.lemma_song_round_trip(self.y.song_bytes() + self.z.song_bytes() + rest);
        assert(b.skip((self.x.song_bytes().len()) as int) =~= self.y.song_bytes() + (self.z.song_bytes() + rest));
        self.y.lemma_song_round_trip(self.z.song_bytes() + rest);
        assert(b.skip((self.x.song_bytes().len() + self.y.song_bytes().len()) as int) =~= self.z.song_bytes() + (rest));
        self.z.lemma_song_round_trip(rest);
    }
}

/// The byte that stands for each value of `GpsFixType` on the wire.
pub open spec fn gps_fix_type_wire_value(value: GpsFixType) -> u8 {
    match value {
        GpsFixType::NoFix => 0,
        GpsFixType::FixPrediction => 1,
        GpsFixType::Fix2d => 2,
        GpsFixType::Fix3d => 3,
        GpsFixType::FixDifferential => 4,
        GpsFixType::TimeOnlyFix => 5,
    }
}

impl GpsFixType {
    /// The byte that stands for this value on the wire.
    pub fn wire_value(self) -> (value: u8)
        ensures
            value == gps_fix_type_wire_value(self),
    {
        match self {
            GpsFixType::NoFix => 0,
            GpsFixType::FixPrediction => 1,
            GpsFixType::Fix2d => 2,
            GpsFixType::Fix3d => 3,
            GpsFixType::FixDifferential => 4,
            GpsFixType::TimeOnlyFix => 5,
        }
    }
}

impl HasSongSize for GpsFixType {
    type Size = ConstSongSizeValue<1>;
}

impl SongSize for GpsFixType {
    open spec fn song_len(&self) -> nat {
        1
    }

    fn song_size(&self) -> (n: usize) {
        1
    }
}

impl ConstSongSize for GpsFixType {
    open spec fn const_song_len() -> nat {
        1
    }

    fn const_song_size() -> (n: usize) {
        1
    }

    fn const_song_fits(len: usize) -> (b: bool) {
        1 <= len
    }

    proof fn lemma_const_song_len(v: &Self) {
    }

    proof fn lemma_const_song_len_of_type() {
    }
}

impl ToSong for GpsFixType {
    open spec fn song_bytes(&self) -> Seq<u8> {
        seq![gps_fix_type_wire_value(*self)]
    }

    proof fn lemma_song_bytes_len(&self) {
    }

    fn to_song_at(&self, buf: &mut [u8], pos: usize) -> (r: Result<(), ToSongError>) {
        let value = self.wire_value();
        assert(value.song_bytes() == self.song_bytes());
        value.to_song_at(buf, pos)
    }
}

impl FromSong for GpsFixType {
    open spec fn song_parse(bytes: Seq<u8>) -> Result<GpsFixType, FromSongError> {
        if bytes.len() < 1 {
            Err(FromSongError::BufferOverflow)
        } else if bytes[0] == 0 {
            Ok(GpsFixType::NoFix)
        } else if bytes[0] == 1 {
            Ok(GpsFixType::FixPrediction)
        } else if bytes[0] == 2 {
            Ok(GpsFixType::Fix2d)
        } else if bytes[0] == 3 {
            Ok(GpsFixType::Fix3d)
        } else if bytes[0] == 4 {
            Ok(GpsFixType::FixDifferential)
        } else if bytes[0] == 5 {
            Ok(GpsFixType::TimeOnlyFix)
        } else {
            Err(FromSongError::InvalidPacketId)
        }
    }

    proof fn lemma_parse_len(bytes: Seq<u8>) {
    }

    fn from_song_at(buf: &[u8], pos: usize) -> (r: Result<GpsFixType, FromSongError>) {
        if buf.len() - pos < 1 {
            return Err(FromSongError::BufferOverflow);
        }
        let ghost s = buf@.skip(pos as int);
        assert(s[0] == buf@[pos as int]);
        match buf[pos] {
            0 => Ok(GpsFixType::NoFix),
            1 => Ok(GpsFixType::FixPrediction),
            2 => Ok(GpsFixType::Fix2d),
            3 => Ok(GpsFixType::Fix3d),
            4 => Ok(GpsFixType::FixDifferential),
            5 => Ok(GpsFixType::TimeOnlyFix),
            _ => Err(FromSongError::InvalidPacketId),
        }
    }
}

impl SongRoundTrip for GpsFixType {
    proof fn lemma_song_round_trip(&self, rest: Seq<u8>) {
        assert((self.song_bytes() + rest)[0] == gps_fix_type_wire_value(*self));
    }
}

/// Every fix takes 45 bytes.
impl HasSongSize for GpsFix {
    type Size = ConstSongSizeValue<45>;
}

impl ConstSongSize for GpsFix {
    open spec fn const_song_len() -> nat {
        45
    }

    fn const_song_size() -> (n: usize) {
        45
    }

    fn const_song_fits(len: usize) -> (b: bool) {
        45 <= len
    }

    proof fn lemma_const_song_len(v: &Self) {
    }

    proof fn lemma_const_song_len_of_type() {
    }
}

impl SongSize for GpsFix {
    open spec fn song_len(&self) -> nat {
        self.time.song_len() + self.satellites.song_len() + self.almanac.song_len() + self.ephemerides.song_len() + self.healthy_satellites.song_len() + self.fix_type.song_len() + self.pos.song_len() + self.vel.song_len()
    }

    fn song_size(&self) -> (n: usize) {
        self.time.song_size() + self.satellites.song_size() + self.almanac.song_size() + self.ephemerides.song_size() + self.healthy_satellites.song_size() + self.fix_type.song_size() + self.pos.song_size() + self.vel.song_size()
    }
}

impl ToSong for GpsFix {
    closed spec fn song_bytes(&self) -> Seq<u8> {
        self.time.song_bytes() + self.satellites.song_bytes() + self.almanac.song_bytes() + self.ephemerides.song_bytes() + self.healthy_satellites.song_bytes() + self.fix_type.song_bytes() + self.pos.song_bytes() + self.vel.song_bytes()
    }

    proof fn lemma_song_bytes_len(&self) {
        self.time.lemma_song_bytes_len();
        self.satellites.lemma_song_bytes_len();
        self.almanac.lemma_song_bytes_len();
        self.ephemerides.lemma_song_bytes_len();
        self.healthy_satellites.lemma_song_bytes_len();
        self.fix_type.lemma_song_bytes_len();
        self.pos.lemma_song_bytes_len();
        self.vel.lemma_song_bytes_len();
    }

    fn to_song_at(&self, buf: &mut [u8], pos: usize) -> (r: Result<(), ToSongError>) {
        if buf.len() - pos < self.song_size() {
            return Err(ToSongError::BufferOverflow);
        }
        proof {
            self.time.lemma_song_bytes_len();
            self.satellites.lemma_song_bytes_len();
            self.almanac.lemma_song_bytes_len();
            self.ephemerides.lemma_song_bytes_len();
            self.healthy_satellites.lemma_song_bytes_len();
            self.fix_type.lemma_song_bytes_len();
            self.pos.lemma_song_bytes_len();
            self.vel.lemma_song_bytes_len();
        }
        let ghost start = buf@;
        let mut i = pos;
        match self.time.to_song_at(buf, i) {
            Ok(()) => {},
            Err(e) => return Err(e),
        }
        i = i + self.time.song_size();
        let ghost before = buf@;
        match self.satellites.to_song_at(buf, i) {
            Ok(()) => {},
            Err(e) => return Err(e),
        }
        proof {
            lemma_write_after(start, before, buf@, pos as int, self.time.song_bytes(), self.satellites.song_bytes());
        }
        i = i + self.satellites.song_size();
        let ghost before = buf@;
        match self.almanac.to_song_at(buf, i) {
            Ok(()) => {},
            Err(e) => return Err(e),
        }
        proof {
            lemma_write_after(start, before, buf@, pos as int, self.time.song_bytes() + self.satellites.song_bytes(), self.almanac.song_bytes());
        }
        i = i + self.almanac.song_size();
        let ghost before = buf@;
        match self.ephemerides.to_song_at(buf, i) {
            Ok(()) => {},
            Err(e) => return Err(e),
        }
        proof {
            lemma_write_after(start, before, buf@, pos as int, self.time.song_bytes() + self.satellites.song_bytes() + self.almanac.song_bytes(), self.ephemerides.song_bytes());
        }
        i = i + self.ephemerides.song_size();
        let ghost before = buf@;
        match self.healthy_satellites.to_song_at(buf, i) {
            Ok(()) => {},
            Err(e) => return Err(e),
        }
        proof {
            lemma_write_after(start, before, buf@, pos as int, self.time.song_bytes() + self.satellites.song_bytes() + self.almanac.song_bytes() + self.ephemerides.song_bytes(), self.healthy_satellites.song_bytes());
        }
        i = i + self.healthy_satellites.song_size();
        let ghost before = buf@;
        match self.fix_type.to_song_at(buf, i) {
            Ok(()) => {},
            Err(e) => return Err(e),
        }
        proof {
            lemma_write_after(start, before, buf@, pos as int, self.time.song_bytes() + self.satellites.song_bytes() + self.almanac.song_bytes() + self.ephemerides.song_bytes() + self.healthy_satellites.song_bytes(), self.fix_type.song_bytes());
        }
        i = i + self.fix_type.song_size();
        let ghost before = buf@;
        match self.pos.to_song_at(buf, i) {
            Ok(()) => {},
            Err(e) => return Err(e),
        }
        proof {
            lemma_write_after(start, before, buf@, pos as int, self.time.song_bytes() + self.satellites.song_bytes() + self.almanac.song_bytes() + self.ephemerides.song_bytes() + self.healthy_satellites.song_bytes() + self.fix_type.song_bytes(), self.pos.song_bytes());
        }
        i = i + self.pos.song_size();
        let ghost before = buf@;
        match self.vel.to_song_at(buf, i) {
            Ok(()) => {},
            Err(e) => return Err(e),
        }
        proof {
            lemma_write_after(start, before, buf@, pos as int, self.time.song_bytes() + self.satellites.song_bytes() + self.almanac.song_bytes() + self.ephemerides.song_bytes() + self.healthy_satellites.song_bytes() + self.fix_type.song_bytes() + self.pos.song_bytes(), self.vel.song_bytes());
        }
        Ok(())
    }
}

impl FromSong for GpsFix {
    closed spec fn song_parse(bytes: Seq<u8>) -> Result<GpsFix, FromSongError> {
        match <u32 as FromSong>::song_parse(bytes) { Err(e) => Err(e), Ok(time) => match <u8 as FromSong>::song_parse(bytes.skip((time.song_len()) as int)) { Err(e) => Err(e), Ok(satellites) => match <u8 as FromSong>::song_parse(bytes.skip((time.song_len() + satellites.song_len()) as int)) { Err(e) => Err(e), Ok(almanac) => match <u8 as FromSong>::song_parse(bytes.skip((time.song_len() + satellites.song_len() + almanac.song_len()) as int)) { Err(e) => Err(e), Ok(ephemerides) => match <u8 as FromSong>::song_parse(bytes.skip((time.song_len() + satellites.song_len() + almanac.song_len() + ephemerides.song_len()) as int)) { Err(e) => Err(e), Ok(healthy_satellites) => match <GpsFixType as FromSong>::song_parse(bytes.skip((time.song_len() + satellites.song_len() + almanac.song_len() + ephemerides.song_len() + healthy_satellites.song_len()) as int)) { Err(e) => Err(e), Ok(fix_type) => match <Vec3<u64> as FromSong>::song_parse(bytes.skip((time.song_len() + satellites.song_len() + almanac.song_len() + ephemerides.song_len() + healthy_satellites.song_len() + fix_type.song_len()) as int)) { Err(e) => Err(e), Ok(pos) => match <Vec3<u32> as FromSong>::song_parse(bytes.skip((time.song_len() + satellites.song_len() + almanac.song_len() + ephemerides.song_len() + healthy_satellites.song_len() + fix_type.song_len() + pos.song_len()) as int)) { Err(e) => Err(e), Ok(vel) => Ok(GpsFix { time, satellites, almanac, ephemerides, healthy_satellites, fix_type, pos, vel }) } } } } } } } }
    }

    proof fn lemma_parse_len(bytes: Seq<u8>) {
        <u32 as FromSong>::lemma_parse_len(bytes);
        if let Ok(time) = <u32 as FromSong>::song_parse(bytes) {
            <u8 as FromSong>::lemma_parse_len(bytes.skip((time.song_len()) as int));
            if let Ok(satellites) = <u8 as FromSong>::song_parse(bytes.skip((time.song_len()) as int)) {
                assert(bytes.skip((time.song_len() + satellites.song_len()) as int) =~= bytes.skip((time.song_len()) as int).skip(satellites.song_len() as int));
                <u8 as FromSong>::lemma_parse_len(bytes.skip((time.song_len() + satellites.song_len()) as int));
                if let Ok(almanac) = <u8 as FromSong>::song_parse(bytes.skip((time.song_len() + satellites.song_len()) as int)) {
                    assert(bytes.skip((time.song_len() + satellites.song_len() + almanac.song_len()) as int) =~= bytes.skip((time.song_len() + satellites.song_len()) as int).skip(almanac.song_len() as int));
                    <u8 as FromSong>::lemma_parse_len(bytes.skip((time.song_len() + satellites.song_len() + almanac.song_len()) as int));
                    if let Ok(ephemerides) = <u8 as FromSong>::song_parse(bytes.skip((time.song_len() + satellites.song_len() + almanac.song_len()) as int)) {
                        assert(bytes.skip((time.song_len() + satellites.song_len() + almanac.song_len() + ephemerides.song_len()) as int) =~= bytes.skip((time.song_len() + satellites.song_len() + almanac.song_len()) as int).skip(ephemerides.song_len() as int));
                        <u8 as FromSong>::lemma_parse_len(bytes.skip((time.song_len() + satellites.song_len() + almanac.song_len() + ephemerides.song_len()) as int));
                        if let Ok(healthy_satellites) = <u8 as FromSong>::song_parse(bytes.skip((time.song_len() + satellites.song_len() + almanac.song_len() + ephemerides.song_len()) as int)) {
                            assert(bytes.skip((time.song_len() + satellites.song_len() + almanac.song_len() + ephemerides.song_len() + healthy_satellites.song_len()) as int) =~= bytes.skip((time.song_len() + satellites.song_len() + almanac.song_len() + ephemerides.song_len()) as int).skip(healthy_satellites.song_len() as int));
                            <GpsFixType as FromSong>::lemma_parse_len(bytes.skip((time.song_len() + satellites.song_len() + almanac.song_len() + ephemerides.song_len() + healthy_satellites.song_len()) as int));
                            if let Ok(fix_type) = <GpsFixType as FromSong>::song_parse(bytes.skip((time.song_len() + satellites.song_len() + almanac.song_len() + ephemerides.song_len() + healthy_satellites.song_len()) as int)) {
                                assert(bytes.skip((time.song_len() + satellites.song_len() + almanac.song_len() + ephemerides.song_len() + healthy_satellites.song_len() + fix_type.song_len()) as int) =~= bytes.skip((time.song_len() + satellites.song_len() + almanac.song_len() + ephemerides.song_len() + healthy_satellites.song_len()) as int).skip(fix_type.song_len() as int));
                                <Vec3<u64> as FromSong>::lemma_parse_len(bytes.skip((time.song_len() + satellites.song_len() + almanac.song_len() + ephemerides.song_len() + healthy_satellites.song_len() + fix_type.song_len()) as int));
                                if let Ok(pos) = <Vec3<u64> as FromSong>::song_parse(bytes.skip((time.song_len() + satellites.song_len() + almanac.song_len() + ephemerides.song_len() + healthy_satellites.song_len() + fix_type.song_len()) as int)) {
                                    assert(bytes.skip((time.song_len() + satellites.song_len() + almanac.song_len() + ephemerides.song_len() + healthy_satellites.song_len() + fix_type.song_len() + pos.song_len()) as int) =~= bytes.skip((time.song_len() + satellites.song_len() + almanac.song_len() + ephemerides.song_len() + healthy_satellites.song_len() + fix_type.song_len()) as int).skip(pos.song_len() as int));
                                    <Vec3<u32> as FromSong>::lemma_parse_len(bytes.skip((time.song_len() + satellites.song_len() + almanac.song_len() + ephemerides.song_len() + healthy_satellites.song_len() + fix_type.song_len() + pos.song_len()) as int));
                                }
                            }
                        }
                    }
                }
            }
        }
    }

    fn from_song_at(buf: &[u8], pos: usize) -> (r: Result<GpsFix, FromSongError>) {
        let ghost b = buf@.skip(pos as int);
        assert(buf@.len() == buf.len());
        let mut i = pos;
        assert(buf@.skip(i as int) =~= b);
        let v_time = match <u32 as FromSong>::from_song_at(buf, i) {
            Ok(v) => v,
            Err(e) => return Err(e),
        };
        proof {
            <u32 as FromSong>::lemma_parse_len(b);
        }
        i = i + v_time.song_size();
        assert(buf@.skip(i as int) =~= b.skip((v_time.song_len()) as int));
        let v_satellites = match <u8 as FromSong>::from_song_at(buf, i) {
            Ok(v) => v,
            Err(e) => return Err(e),
        };
        proof {
            <u8 as FromSong>::lemma_parse_len(b.skip((v_time.song_len()) as int));
        }
        i = i + v_satellites.song_size();
        assert(buf@.skip(i as int) =~= b.skip((v_time.song_len() + v_satellites.song_len()) as int));
        let v_almanac = match <u8 as FromSong>::from_song_at(buf, i) {
            Ok(v) => v,
            Err(e) => return Err(e),
        };
        proof {
            <u8 as FromSong>::lemma_parse_len(b.skip((v_time.song_len() + v_satellites.song_len()) as int));
        }
        i = i + v_almanac.song_size();
        assert(buf@.skip(i as int) =~= b.skip((v_time.song_len() + v_satellites.song_len() + v_almanac.song_len()) as int));
        let v_ephemerides = match <u8 as FromSong>::from_song_at(buf, i) {
            Ok(v) => v,
            Err(e) => return Err(e),
        };
        proof {
            <u8 as FromSong>::lemma_parse_len(b.skip((v_time.song_len() + v_satellites.song_len() + v_almanac.song_len()) as int));
        }
        i = i + v_ephemerides.song_size();
        assert(buf@.skip(i as int) =~= b.skip((v_time.song_len() + v_satellites.song_len() + v_almanac.song_len() + v_ephemerides.song_len()) as int));
        let v_healthy_satellites = match <u8 as FromSong>::from_song_at(buf, i) {
            Ok(v) => v,
            Err(e) => return Err(e),
        };
        proof {
            <u8 as FromSong>::lemma_parse_len(b.skip((v_time.song_len() + v_satellites.song_len() + v_almanac.song_len() + v_ephemerides.song_len()) as int));
        }
        i = i + v_healthy_satellites.song_size();
        assert(buf@.skip(i as int) =~= b.skip((v_time.song_len() + v_satellites.song_len() + v_almanac.song_len() + v_ephemerides.song_len() + v_healthy_satellites.song_len()) as int));
        let v_fix_type = match <GpsFixType as FromSong>::from_song_at(buf, i) {
            Ok(v) => v,
            Err(e) => return Err(e),
        };
        proof {
            <GpsFixType as FromSong>::lemma_parse_len(b.skip((v_time.song_len() + v_satellites.song_len() + v_almanac.song_len() + v_ephemerides.song_len() + v_healthy_satellites.song_len()) as int));
        }
        i = i + v_fix_type.song_size();
        assert(buf@.skip(i as int) =~= b.skip((v_time.song_len() + v_satellites.song_len() + v_almanac.song_len() + v_ephemerides.song_len() + v_healthy_satellites.song_len() + v_fix_type.song_len()) as int));
        let v_pos = match <Vec3<u64> as FromSong>::from_song_at(buf, i) {
            Ok(v) => v,
            Err(e) => return Err(e),
        };
        proof {
            <Vec3<u64> as FromSong>::lemma_parse_len(b.skip((v_time.song_len() + v_satellites.song_len() + v_almanac.song_len() + v_ephemerides.song_len() + v_healthy_satellites.song_len() + v_fix_type.song_len()) as int));
        }
        i = i + v_pos.song_size();
        assert(buf@.skip(i as int) =~= b.skip((v_time.song_len() + v_satellites.song_len() + v_almanac.song_len() + v_ephemerides.song_len() + v_healthy_satellites.song_len() + v_fix_type.song_len() + v_pos.song_len()) as int));
        let v_vel = match <Vec3<u32> as FromSong>::from_song_at(buf, i) {
            Ok(v) => v,
            Err(e) => return Err(e),
        };
        Ok(GpsFix { time: v_time, satellites: v_satellites, almanac: v_almanac, ephemerides: v_ephemerides, healthy_satellites: v_healthy_satellites, fix_type: v_fix_type, pos: v_pos, vel: v_vel })
    }
}

impl SongRoundTrip for GpsFix {
    #[verifier::spinoff_prover]
    #[verifier::rlimit(50)]
    proof fn lemma_song_round_trip(&self, rest: Seq<u8>) {
        self.time.lemma_song_bytes_len();
        self.satellites.lemma_song_bytes_len();
        self.almanac.lemma_song_bytes_len();
        self.ephemerides.lemma_song_bytes_len();
        self.healthy_satellites.lemma_song_bytes_len();
        self.fix_type.lemma_song_bytes_len();
        self.pos.lemma_song_bytes_len();
        self.vel.lemma_song_bytes_len();
        let b = self.song_bytes() + rest;
        assert(b =~= self.time.song_bytes() + (self.satellites.song_bytes() + self.almanac.song_bytes() + self.ephemerides.song_bytes() + self.healthy_satellites.song_bytes() + self.fix_type.song_bytes() + self.pos.song_bytes() + self.vel.song_bytes() + rest));
        self.time.lemma_song_round_trip(self.satellites.song_bytes() + self.almanac.song_bytes() + self.ephemerides.song_bytes() + self.healthy_satellites.song_bytes() + self.fix_type.song_bytes() + self.pos.song_bytes() + self.vel.song_bytes() + rest);
        assert(b.skip((self.time.song_bytes().len()) as int) =~= self.satellites.song_bytes() + (self.almanac.song_bytes() + self.ephemerides.song_bytes() + self.healthy_satellites.song_bytes() + self.fix_type.song_bytes() + self.pos.song_bytes() + self.vel.song_bytes() + rest));
        self.satellites.lemma_song_round_trip(self.almanac.song_bytes() + self.ephemerides.song_bytes() + self.healthy_satellites.song_bytes() + self.fix_type.song_bytes() + self.pos.song_bytes() + self.vel.song_bytes() + rest);
        assert(b.skip((self.time.song_bytes().len() + self.satellites.song_bytes().len()) as int) =~= self.almanac.song_bytes() + (self.ephemerides.song_bytes() + self.healthy_satellites.song_bytes() + self.fix_type.song_bytes() + self.pos.song_bytes() + self.vel.song_bytes() + rest));
        self.almanac.lemma_song_round_trip(self.ephemerides.song_bytes() + self.healthy_satellites.song_bytes() + self.fix_type.song_bytes() + self.pos.song_bytes() + self.vel.song_bytes() + rest);
        assert(b.skip((self.time.song_bytes().len() + self.satellites.song_bytes().len() + self.almanac.song_bytes().len()) as int) =~= self.ephemerides.song_bytes() + (self.healthy_satellites.song_bytes() + self.fix_type.song_bytes() + self.pos.song_bytes() + self.vel.song_bytes() + rest));
        self.ephemerides.lemma_song_round_trip(self.healthy_satellites.song_bytes() + self.fix_type.song_bytes() + self.pos.song_bytes() + self.vel.song_bytes() + rest);
        assert(b.skip((self.time.song_bytes().len() + self.satellites.song_bytes().len() + self.almanac.song_bytes().len() + self.ephemerides.song_bytes().len()) as int) =~= self.healthy_satellites.song_bytes() + (self.fix_type.song_bytes() + self.pos.song_bytes() + self.vel.song_bytes() + rest));
        self.healthy_satellites.lemma_song_round_trip(self.fix_type.song_bytes() + self.pos.song_bytes() + self.vel.song_bytes() + rest);
        assert(b.skip((self.time.song_bytes().len() + self.satellites.song_bytes().len() + self.almanac.song_bytes().len() + self.ephemerides.song_bytes().len() + self.healthy_satellites.song_bytes().len()) as int) =~= self.fix_type.song_bytes() + (self.pos.song_bytes() + self.vel.song_bytes() + rest));
        self.fix_type.lemma_song_round_trip(self.pos.song_bytes() + self.vel.song_bytes() + rest);
        assert(b.skip((self.time.song_bytes().len() + self.satellites.song_bytes().len() + self.almanac.song_bytes().len() + self.ephemerides.song_bytes().len() + self.healthy_satellites.song_bytes().len() + self.fix_type.song_bytes().len()) as int) =~= self.pos.song_bytes() + (self.vel.song_bytes() + rest));
        self.pos.lemma_song_round_trip(self.vel.song_bytes() + rest);
        assert(b.skip((self.time.song_bytes().len() + self.satellites.song_bytes().len() + self.almanac.song_bytes().len() + self.ephemerides.song_bytes().len() + self.healthy_satellites.song_bytes().len() + self.fix_type.song_bytes().len() + self.pos.song_bytes().len()) as int) =~= self.vel.song_bytes() + (rest));
        self.vel.lemma_song_round_trip(rest);
    }
}

impl TaggedSong for GpsFixType {
    open spec fn tag(&self) -> u8 {
        gps_fix_type_wire_value(*self)
    }

    open spec fn is_tag(b: u8) -> bool {
        b < 6
    }

    proof fn lemma_starts_with_tag(&self) {
    }

    proof fn lemma_refused(bytes: Seq<u8>) {
    }
}


/// On the wire a `Vec3` is its fields `x`, `y`, `z`, in that order, each in its own encoding with
/// nothing between them; reading those bytes gives the value back, whatever follows them.
pub proof fn lemma_vec3_layout<T: SongRoundTrip>(v: Vec3<T>, rest: Seq<u8>)
    ensures
        v.song_bytes() == v.x.song_bytes() + v.y.song_bytes() + v.z.song_bytes(),
        v.song_len() == v.x.song_len() + v.y.song_len() + v.z.song_len(),
        <Vec3<T> as FromSong>::song_parse(v.x.song_bytes() + v.y.song_bytes() + v.z.song_bytes() + rest) == Ok::<Vec3<T>, FromSongError>(v),
{
    v.lemma_song_round_trip(rest);
}

/// On the wire a `GpsFix` is its fields `time`, `satellites`, `almanac`, `ephemerides`, `healthy_satellites`, `fix_type`, `pos`, `vel`, in that order, each in its own encoding with
/// nothing between them; reading those bytes gives the value back, whatever follows them.
pub proof fn lemma_gps_fix_layout(v: GpsFix, rest: Seq<u8>)
    ensures
        v.song_bytes() == v.time.song_bytes() + v.satellites.song_bytes() + v.almanac.song_bytes() + v.ephemerides.song_bytes() + v.healthy_satellites.song_bytes() + v.fix_type.song_bytes() + v.pos.song_bytes() + v.vel.song_bytes(),
        v.song_len() == v.time.song_len() + v.satellites.song_len() + v.almanac.song_len() + v.ephemerides.song_len() + v.healthy_satellites.song_len() + v.fix_type.song_len() + v.pos.song_len() + v.vel.song_len(),
        <GpsFix as FromSong>::song_parse(v.time.song_bytes() + v.satellites.song_bytes() + v.almanac.song_bytes() + v.ephemerides.song_bytes() + v.healthy_satellites.song_bytes() + v.fix_type.song_bytes() + v.pos.song_bytes() + v.vel.song_bytes() + rest) == Ok::<GpsFix, FromSongError>(v),
{
    v.lemma_song_round_trip(rest);
}


/// On the wire a `GpsFixType` is one byte: `NoFix` is 0, `FixPrediction` is 1, `Fix2d` is 2, `Fix3d` is 3, `FixDifferential` is 4, `TimeOnlyFix` is 5. Reading that byte gives the value
/// back, whatever follows it.
pub proof fn lemma_gps_fix_type_layout(v: GpsFixType, rest: Seq<u8>)
    ensures
        v is NoFix ==> v.song_bytes() == seq![0u8]
            && <GpsFixType as FromSong>::song_parse(seq![0u8] + rest) == Ok::<GpsFixType, FromSongError>(v),
        v is FixPrediction ==> v.song_bytes() == seq![1u8]
            && <GpsFixType as FromSong>::song_parse(seq![1u8] + rest) == Ok::<GpsFixType, FromSongError>(v),
        v is Fix2d ==> v.song_bytes() == seq![2u8]
            && <GpsFixType as FromSong>::song_parse(seq![2u8] + rest) == Ok::<GpsFixType, FromSongError>(v),
        v is Fix3d ==> v.song_bytes() == seq![3u8]
            && <GpsFixType as FromSong>::song_parse(seq![3u8] + rest) == Ok::<GpsFixType, FromSongError>(v),
        v is FixDifferential ==> v.song_bytes() == seq![4u8]
            && <GpsFixType as FromSong>::song_parse(seq![4u8] + rest) == Ok::<GpsFixType, FromSongError>(v),
        v is TimeOnlyFix ==> v.song_bytes() == seq![5u8]
            && <GpsFixType as FromSong>::song_parse(seq![5u8] + rest) == Ok::<GpsFixType, FromSongError>(v),
{
    v.lemma_song_round_trip(rest);
}

} // verus!
