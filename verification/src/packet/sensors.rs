//! Sensor readings, each either a value or the reason there is none.

use vstd::prelude::*;
use crate::song::{
    lemma_write_after, ConstSongSize, ConstSongSizeValue, FromSong, FromSongError, HasSongSize,
    SongDiscriminant, SongRoundTrip, SongSize, TaggedSong, ToSong, ToSongError,
};
use embedded_hal::spi::ErrorKind;
use vstd::std_specs::convert::FromSpecImpl;
use super::gps::Vec3;

verus! {

/// A set of readings that starts out as "not measured yet".
pub trait Measurement: Sized {
    spec fn is_unmeasured(&self) -> bool;

    fn unmeasured() -> (m: Self)
        ensures
            m.is_unmeasured(),
    ;
}

#[derive(Debug)]
pub struct BaroData {
    /// Pressure in pascals, as the bits of an `f64`.
    pub pressure: Result<u64, SubsystemError>,
    /// Temperature in degrees Celsius, as the bits of an `f64`.
    pub temperature: Result<u64, SubsystemError>,
}

impl Clone for BaroData {
    fn clone(&self) -> (c: Self)
        ensures
            c == *self,
    {
        BaroData { pressure: self.pressure, temperature: self.temperature }
    }
}

impl Measurement for BaroData {
    open spec fn is_unmeasured(&self) -> bool {
        &&& self.pressure == Err::<u64, SubsystemError>(SubsystemError::NotYetMeasured)
        &&& self.temperature == Err::<u64, SubsystemError>(SubsystemError::NotYetMeasured)
    }

    fn unmeasured() -> (m: Self) {
        BaroData {
            pressure: Err(SubsystemError::NotYetMeasured),
            temperature: Err(SubsystemError::NotYetMeasured),
        }
    }
}

#[derive(Debug)]
pub struct ImuData {
    /// Acceleration in millionths of G.
    pub accel: Result<Vec3<i32>, SubsystemError>,
    /// Angular velocity in millionths of a degree per second.
    pub angular_vel: Result<Vec3<i64>, SubsystemError>,
}

impl Clone for ImuData {
    fn clone(&self) -> (c: Self)
        ensures
            c == *self,
    {
        ImuData { accel: self.accel, angular_vel: self.angular_vel }
    }
}

impl Measurement for ImuData {
    open spec fn is_unmeasured(&self) -> bool {
        &&& self.accel == Err::<Vec3<i32>, SubsystemError>(SubsystemError::NotYetMeasured)
        &&& self.angular_vel == Err::<Vec3<i64>, SubsystemError>(SubsystemError::NotYetMeasured)
    }

    fn unmeasured() -> (m: Self) {
        ImuData {
            accel: Err(SubsystemError::NotYetMeasured),
            angular_vel: Err(SubsystemError::NotYetMeasured),
        }
    }
}

#[derive(Debug)]
pub struct HighGImuData {
    pub accel: Result<Vec3<i32>, SubsystemError>,
}

impl Clone for HighGImuData {
    fn clone(&self) -> (c: Self)
        ensures
            c == *self,
    {
        HighGImuData { accel: self.accel }
    }
}

impl Measurement for HighGImuData {
    open spec fn is_unmeasured(&self) -> bool {
        self.accel == Err::<Vec3<i32>, SubsystemError>(SubsystemError::NotYetMeasured)
    }

    fn unmeasured() -> (m: Self) {
        HighGImuData { accel: Err(SubsystemError::NotYetMeasured) }
    }
}

#[derive(Debug)]
pub struct MagnetometerData {
    pub mag: Result<Vec3<i16>, SubsystemError>,
    pub temp: Result<i16, SubsystemError>,
}

impl Clone for MagnetometerData {
    fn clone(&self) -> (c: Self)
        ensures
            c == *self,
    {
        MagnetometerData { mag: self.mag, temp: self.temp }
    }
}

impl Measurement for MagnetometerData {
    open spec fn is_unmeasured(&self) -> bool {
        &&& self.mag == Err::<Vec3<i16>, SubsystemError>(SubsystemError::NotYetMeasured)
        &&& self.temp == Err::<i16, SubsystemError>(SubsystemError::NotYetMeasured)
    }

    fn unmeasured() -> (m: Self) {
        MagnetometerData {
            mag: Err(SubsystemError::NotYetMeasured),
            temp: Err(SubsystemError::NotYetMeasured),
        }
    }
}

/// Why a sensor has no reading.
#[derive(Debug, Clone, Copy, PartialEq, Eq, Structural)]
pub enum SubsystemError {
    SanityCheckFailed,
    SpiError,
    NotYetMeasured,
}


impl SongSize for BaroData {
    open spec fn song_len(&self) -> nat {
        self.pressure.song_len() + self.temperature.song_len()
    }

    fn song_size(&self) -> (n: usize) {
        self.pressure.song_size() + self.temperature.song_size()
    }
}

impl ToSong for BaroData {
    closed spec fn song_bytes(&self) -> Seq<u8> {
        self.pressure.song_bytes() + self.temperature.song_bytes()
    }

    proof fn lemma_song_bytes_len(&self) {
        self.pressure.lemma_song_bytes_len();
        self.temperature.lemma_song_bytes_len();
    }

    fn to_song_at(&self, buf: &mut [u8], pos: usize) -> (r: Result<(), ToSongError>) {
        if buf.len() - pos < self.song_size() {
            return Err(ToSongError::BufferOverflow);
        }
        proof {
            self.pressure.lemma_song_bytes_len();
            self.temperature.lemma_song_bytes_len();
        }
        let ghost start = buf@;
        let mut i = pos;
        match self.pressure.to_song_at(buf, i) {
            Ok(()) => {},
            Err(e) => return Err(e),
        }
        i = i + self.pressure.song_size();
        let ghost before = buf@;
        match self.temperature.to_song_at(buf, i) {
            Ok(()) => {},
            Err(e) => return Err(e),
        }
        proof {
            lemma_write_after(start, before, buf@, pos as int, self.pressure.song_bytes(), self.temperature.song_bytes());
        }
        Ok(())
    }
}

impl FromSong for BaroData {
    closed spec fn song_parse(bytes: Seq<u8>) -> Result<BaroData, FromSongError> {
        match <Result<u64, SubsystemError> as FromSong>::song_parse(bytes) { Err(e) => Err(e), Ok(pressure) => match <Result<u64, SubsystemError> as FromSong>::song_parse(bytes.skip((pressure.song_len()) as int)) { Err(e) => Err(e), Ok(temperature) => Ok(BaroData { pressure, temperature }) } }
    }

    proof fn lemma_parse_len(bytes: Seq<u8>) {
        <Result<u64, SubsystemError> as FromSong>::lemma_parse_len(bytes);
        if let Ok(pressure) = <Result<u64, SubsystemError> as FromSong>::song_parse(bytes) {
            <Result<u64, SubsystemError> as FromSong>::lemma_parse_len(bytes.skip((pressure.song_len()) as int));
        }
    }

    fn from_song_at(buf: &[u8], pos: usize) -> (r: Result<BaroData, FromSongError>) {
        let ghost b = buf@.skip(pos as int);
        assert(buf@.len() == buf.len());
        let mut i = pos;
        assert(buf@.skip(i as int) =~= b);
        let v_pressure = match <Result<u64, SubsystemError> as FromSong>::from_song_at(buf, i) {
            Ok(v) => v,
            Err(e) => return Err(e),
        };
        proof {
            <Result<u64, SubsystemError> as FromSong>::lemma_parse_len(b);
        }
        i = i + v_pressure.song_size();
        assert(buf@.skip(i as int) =~= b.skip((v_pressure.song_len()) as int));
        let v_temperature = match <Result<u64, SubsystemError> as FromSong>::from_song_at(buf, i) {
            Ok(v) => v,
            Err(e) => return Err(e),
        };
        Ok(BaroData { pressure: v_pressure, temperature: v_temperature })
    }
}

impl SongRoundTrip for BaroData {
    proof fn lemma_song_round_trip(&self, rest: Seq<u8>) {
        self.pressure.lemma_song_bytes_len();
        self.temperature.lemma_song_bytes_len();
        let b = self.song_bytes() + rest;
        assert(b =~= self.pressure.song_bytes() + (self.temperature.song_bytes() + rest));
        self.pressure.lemma_song_round_trip(self.temperature.song_bytes() + rest);
        assert(b.skip((self.pressure.song_bytes().len()) as int) =~= self.temperature.song_bytes() + (rest));
        self.temperature.lemma_song_round_trip(rest);
    }
}

impl SongSize for ImuData {
    open spec fn song_len(&self) -> nat {
        self.accel.song_len() + self.angular_vel.song_len()
    }

    fn song_size(&self) -> (n: usize) {
        self.accel.song_size() + self.angular_vel.song_size()
    }
}

impl ToSong for ImuData {
    closed spec fn song_bytes(&self) -> Seq<u8> {
        self.accel.song_bytes() + self.angular_vel.song_bytes()
    }

    proof fn lemma_song_bytes_len(&self) {
        self.accel.lemma_song_bytes_len();
        self.angular_vel.lemma_song_bytes_len();
    }

    fn to_song_at(&self, buf: &mut [u8], pos: usize) -> (r: Result<(), ToSongError>) {
        if buf.len() - pos < self.song_size() {
            return Err(ToSongError::BufferOverflow);
        }
        proof {
            self.accel.lemma_song_bytes_len();
            self.angular_vel.lemma_song_bytes_len();
        }
        let ghost start = buf@;
        let mut i = pos;
        match self.accel.to_song_at(buf, i) {
            Ok(()) => {},
            Err(e) => return Err(e),
        }
        i = i + self.accel.song_size();
        let ghost before = buf@;
        match self.angular_vel.to_song_at(buf, i) {
            Ok(()) => {},
            Err(e) => return Err(e),
        }
        proof {
            lemma_write_after(start, before, buf@, pos as int, self.accel.song_bytes(), self.angular_vel.song_bytes());
        }
        Ok(())
    }
}

impl FromSong for ImuData {
    closed spec fn song_parse(bytes: Seq<u8>) -> Result<ImuData, FromSongError> {
        match <Result<Vec3<i32>, SubsystemError> as FromSong>::song_parse(bytes) { Err(e) => Err(e), Ok(accel) => match <Result<Vec3<i64>, SubsystemError> as FromSong>::song_parse(bytes.skip((accel.song_len()) as int)) { Err(e) => Err(e), Ok(angular_vel) => Ok(ImuData { accel, angular_vel }) } }
    }

    proof fn lemma_parse_len(bytes: Seq<u8>) {
        <Result<Vec3<i32>, SubsystemError> as FromSong>::lemma_parse_len(bytes);
        if let Ok(accel) = <Result<Vec3<i32>, SubsystemError> as FromSong>::song_parse(bytes) {
            <Result<Vec3<i64>, SubsystemError> as FromSong>::lemma_parse_len(bytes.skip((accel.song_len()) as int));
        }
    }

    fn from_song_at(buf: &[u8], pos: usize) -> (r: Result<ImuData, FromSongError>) {
        let ghost b = buf@.skip(pos as int);
        assert(buf@.len() == buf.len());
        let mut i = pos;
        assert(buf@.skip(i as int) =~= b);
        let v_accel = match <Result<Vec3<i32>, SubsystemError> as FromSong>::from_song_at(buf, i) {
            Ok(v) => v,
            Err(e) => return Err(e),
        };
        proof {
            <Result<Vec3<i32>, SubsystemError> as FromSong>::lemma_parse_len(b);
        }
        i = i + v_accel.song_size();
        assert(buf@.skip(i as int) =~= b.skip((v_accel.song_len()) as int));
        let v_angular_vel = match <Result<Vec3<i64>, SubsystemError> as FromSong>::from_song_at(buf, i) {
            Ok(v) => v,
            Err(e) => return Err(e),
        };
        Ok(ImuData { accel: v_accel, angular_vel: v_angular_vel })
    }
}

impl SongRoundTrip for ImuData {
    proof fn lemma_song_round_trip(&self, rest: Seq<u8>) {
        self.accel.lemma_song_bytes_len();
        self.angular_vel.lemma_song_bytes_len();
        let b = self.song_bytes() + rest;
        assert(b =~= self.accel.song_bytes() + (self.angular_vel.song_bytes() + rest));
        self.accel.lemma_song_round_trip(self.angular_vel.song_bytes() + rest);
        assert(b.skip((self.accel.song_bytes().len()) as int) =~= self.angular_vel.song_bytes() + (rest));
        self.angular_vel.lemma_song_round_trip(rest);
    }
}

impl SongSize for HighGImuData {
    open spec fn song_len(&self) -> nat {
        self.accel.song_len()
    }

    fn song_size(&self) -> (n: usize) {
        self.accel.song_size()
    }
}

impl ToSong for HighGImuData {
    closed spec fn song_bytes(&self) -> Seq<u8> {
        self.accel.song_bytes()
    }

    proof fn lemma_song_bytes_len(&self) {
        self.accel.lemma_song_bytes_len();
    }

    fn to_song_at(&self, buf: &mut [u8], pos: usize) -> (r: Result<(), ToSongError>) {
        if buf.len() - pos < self.song_size() {
            return Err(ToSongError::BufferOverflow);
        }
        proof {
            self.accel.lemma_song_bytes_len();
        }
        let ghost start = buf@;
        let mut i = pos;
        match self.accel.to_song_at(buf, i) {
            Ok(()) => {},
            Err(e) => return Err(e),
        }
        Ok(())
    }
}

impl FromSong for HighGImuData {
    closed spec fn song_parse(bytes: Seq<u8>) -> Result<HighGImuData, FromSongError> {
        match <Result<Vec3<i32>, SubsystemError> as FromSong>::song_parse(bytes) { Err(e) => Err(e), Ok(accel) => Ok(HighGImuData { accel }) }
    }

    proof fn lemma_parse_len(bytes: Seq<u8>) {
        <Result<Vec3<i32>, SubsystemError> as FromSong>::lemma_parse_len(bytes);
    }

    fn from_song_at(buf: &[u8], pos: usize) -> (r: Result<HighGImuData, FromSongError>) {
        let ghost b = buf@.skip(pos as int);
        assert(buf@.len() == buf.len());
        let mut i = pos;
        assert(buf@.skip(i as int) =~= b);
        let v_accel = match <Result<Vec3<i32>, SubsystemError> as FromSong>::from_song_at(buf, i) {
            Ok(v) => v,
            Err(e) => return Err(e),
        };
        Ok(HighGImuData { accel: v_accel })
    }
}

impl SongRoundTrip for HighGImuData {
    proof fn lemma_song_round_trip(&self, rest: Seq<u8>) {
        self.accel.lemma_song_bytes_len();
        let b = self.song_bytes() + rest;
        assert(b =~= self.accel.song_bytes() + (rest));
        self.accel.lemma_song_round_trip(rest);
    }
}

impl SongSize for MagnetometerData {
    open spec fn song_len(&self) -> nat {
        self.mag.song_len() + self.temp.song_len()
    }

    fn song_size(&self) -> (n: usize) {
        self.mag.song_size() + self.temp.song_size()
    }
}

impl ToSong for MagnetometerData {
    closed spec fn song_bytes(&self) -> Seq<u8> {
        self.mag.song_bytes() + self.temp.song_bytes()
    }

    proof fn lemma_song_bytes_len(&self) {
        self.mag.lemma_song_bytes_len();
        self.temp.lemma_song_bytes_len();
    }

    fn to_song_at(&self, buf: &mut [u8], pos: usize) -> (r: Result<(), ToSongError>) {
        if buf.len() - pos < self.song_size() {
            return Err(ToSongError::BufferOverflow);
        }
        proof {
            self.mag.lemma_song_bytes_len();
            self.temp.lemma_song_bytes_len();
        }
        let ghost start = buf@;
        let mut i = pos;
        match self.mag.to_song_at(buf, i) {
            Ok(()) => {},
            Err(e) => return Err(e),
        }
        i = i + self.mag.song_size();
        let ghost before = buf@;
        match self.temp.to_song_at(buf, i) {
            Ok(()) => {},
            Err(e) => return Err(e),
        }
        proof {
            lemma_write_after(start, before, buf@, pos as int, self.mag.song_bytes(), self.temp.song_bytes());
        }
        Ok(())
    }
}

impl FromSong for MagnetometerData {
    closed spec fn song_parse(bytes: Seq<u8>) -> Result<MagnetometerData, FromSongError> {
        match <Result<Vec3<i16>, SubsystemError> as FromSong>::song_parse(bytes) { Err(e) => Err(e), Ok(mag) => match <Result<i16, SubsystemError> as FromSong>::song_parse(bytes.skip((mag.song_len()) as int)) { Err(e) => Err(e), Ok(temp) => Ok(MagnetometerData { mag, temp }) } }
    }

    proof fn lemma_parse_len(bytes: Seq<u8>) {
        <Result<Vec3<i16>, SubsystemError> as FromSong>::lemma_parse_len(bytes);
        if let Ok(mag) = <Result<Vec3<i16>, SubsystemError> as FromSong>::song_parse(bytes) {
            <Result<i16, SubsystemError> as FromSong>::lemma_parse_len(bytes.skip((mag.song_len()) as int));
        }
    }

    fn from_song_at(buf: &[u8], pos: usize) -> (r: Result<MagnetometerData, FromSongError>) {
        let ghost b = buf@.skip(pos as int);
        assert(buf@.len() == buf.len());
        let mut i = pos;
        assert(buf@.skip(i as int) =~= b);
        let v_mag = match <Result<Vec3<i16>, SubsystemError> as FromSong>::from_song_at(buf, i) {
            Ok(v) => v,
            Err(e) => return Err(e),
        };
        proof {
            <Result<Vec3<i16>, SubsystemError> as FromSong>::lemma_parse_len(b);
        }
        i = i + v_mag.song_size();
        assert(buf@.skip(i as int) =~= b.skip((v_mag.song_len()) as int));
        let v_temp = match <Result<i16, SubsystemError> as FromSong>::from_song_at(buf, i) {
            Ok(v) => v,
            Err(e) => return Err(e),
        };
        Ok(MagnetometerData { mag: v_mag, temp: v_temp })
    }
}

impl SongRoundTrip for MagnetometerData {
    proof fn lemma_song_round_trip(&self, rest: Seq<u8>) {
        self.mag.lemma_song_bytes_len();
        self.temp.lemma_song_bytes_len();
        let b = self.song_bytes() + rest;
        assert(b =~= self.mag.song_bytes() + (self.temp.song_bytes() + rest));
        self.mag.lemma_song_round_trip(self.temp.song_bytes() + rest);
        assert(b.skip((self.mag.song_bytes().len()) as int) =~= self.temp.song_bytes() + (rest));
        self.temp.lemma_song_round_trip(rest);
    }
}

/// The byte that stands for each value of `SubsystemError` on the wire.
pub open spec fn subsystem_error_wire_value(value: SubsystemError) -> u8 {
    match value {
        SubsystemError::SanityCheckFailed => 0,
        SubsystemError::SpiError => 1,
        SubsystemError::NotYetMeasured => 2,
    }
}

impl SubsystemError {
    /// The byte that stands for this value on the wire.
    pub fn wire_value(self) -> (value: u8)
        ensures
            value == subsystem_error_wire_value(self),
    {
        match self {
            SubsystemError::SanityCheckFailed => 0,
            SubsystemError::SpiError => 1,
            SubsystemError::NotYetMeasured => 2,
        }
    }
}

impl HasSongSize for SubsystemError {
    type Size = ConstSongSizeValue<1>;
}

impl SongSize for SubsystemError {
    open spec fn song_len(&self) -> nat {
        1
    }

    fn song_size(&self) -> (n: usize) {
        1
    }
}

impl ConstSongSize for SubsystemError {
    open spec fn const_song_len() -> nat {
        1
    }

    fn const_song_size() -> (n: usize) {
        1
    }

    fn const_song_fits(len: usize) -> (b: bool) {
        1 <= len
    }

    proof fn lemma_const_song_len(v: &Self) {
    }

    proof fn lemma_const_song_len_of_type() {
    }
}

impl ToSong for SubsystemError {
    open spec fn song_bytes(&self) -> Seq<u8> {
        seq![subsystem_error_wire_value(*self)]
    }

    proof fn lemma_song_bytes_len(&self) {
    }

    fn to_song_at(&self, buf: &mut [u8], pos: usize) -> (r: Result<(), ToSongError>) {
        let value = self.wire_value();
        assert(value.song_bytes() == self.song_bytes());
        value.to_song_at(buf, pos)
    }
}

impl FromSong for SubsystemError {
    open spec fn song_parse(bytes: Seq<u8>) -> Result<SubsystemError, FromSongError> {
        if bytes.len() < 1 {
            Err(FromSongError::BufferOverflow)
        } else if bytes[0] == 0 {
            Ok(SubsystemError::SanityCheckFailed)
        } else if bytes[0] == 1 {
            Ok(SubsystemError::SpiError)
        } else if bytes[0] == 2 {
            Ok(SubsystemError::NotYetMeasured)
        } else {
            Err(FromSongError::InvalidPacketId)
        }
    }

    proof fn lemma_parse_len(bytes: Seq<u8>) {
    }

    fn from_song_at(buf: &[u8], pos: usize) -> (r: Result<SubsystemError, FromSongError>) {
        if buf.len() - pos < 1 {
            return Err(FromSongError::BufferOverflow);
        }
        let ghost s = buf@.skip(pos as int);
        assert(s[0] == buf@[pos as int]);
        match buf[pos] {
            0 => Ok(SubsystemError::SanityCheckFailed),
            1 => Ok(SubsystemError::SpiError),
            2 => Ok(SubsystemError::NotYetMeasured),
            _ => Err(FromSongError::InvalidPacketId),
        }
    }
}

impl SongRoundTrip for SubsystemError {
    proof fn lemma_song_round_trip(&self, rest: Seq<u8>) {
        assert((self.song_bytes() + rest)[0] == subsystem_error_wire_value(*self));
    }
}

/// Any SPI bus error is a sensor's SPI error; its kind is not kept.
impl From<ErrorKind> for SubsystemError {
    fn from(_kind: ErrorKind) -> (e: SubsystemError) {
        SubsystemError::SpiError
    }
}

impl FromSpecImpl<ErrorKind> for SubsystemError {
    open spec fn obeys_from_spec() -> bool {
        true
    }

    open spec fn from_spec(kind: ErrorKind) -> SubsystemError {
        SubsystemError::SpiError
    }
}

impl TaggedSong for SubsystemError {
    open spec fn tag(&self) -> u8 {
        subsystem_error_wire_value(*self)
    }

    open spec fn is_tag(b: u8) -> bool {
        b < 3
    }

    proof fn lemma_starts_with_tag(&self) {
    }

    proof fn lemma_refused(bytes: Seq<u8>) {
    }
}


/// On the wire a `BaroData` is its fields `pressure`, `temperature`, in that order, each in its own encoding with
/// nothing between them; reading those bytes gives the value back, whatever follows them.
pub proof fn lemma_baro_data_layout(v: BaroData, rest: Seq<u8>)
    ensures
        v.song_bytes() == v.pressure.song_bytes() + v.temperature.song_bytes(),
        v.song_len() == v.pressure.song_len() + v.temperature.song_len(),
        <BaroData as FromSong>::song_parse(v.pressure.song_bytes() + v.temperature.song_bytes() + rest) == Ok::<BaroData, FromSongError>(v),
{
    v.lemma_song_round_trip(rest);
}

/// On the wire a `ImuData` is its fields `accel`, `angular_vel`, in that order, each in its own encoding with
/// nothing between them; reading those bytes gives the value back, whatever follows them.
pub proof fn lemma_imu_data_layout(v: ImuData, rest: Seq<u8>)
    ensures
        v.song_bytes() == v.accel.song_bytes() + v.angular_vel.song_bytes(),
        v.song_len() == v.accel.song_len() + v.angular_vel.song_len(),
        <ImuData as FromSong>::song_parse(v.accel.song_bytes() + v.angular_vel.song_bytes() + rest) == Ok::<ImuData, FromSongError>(v),
{
    v.lemma_song_round_trip(rest);
}

/// On the wire a `HighGImuData` is its one field `accel` in that field's own encoding, and reading those
/// bytes gives the value back, whatever follows them.
pub proof fn lemma_high_g_imu_data_layout(v: HighGImuData, rest: Seq<u8>)
    ensures
        v.song_bytes() == v.accel.song_bytes(),
        v.song_len() == v.accel.song_len(),
        <HighGImuData as FromSong>::song_parse(v.accel.song_bytes() + rest) == Ok::<HighGImuData, FromSongError>(v),
{
    v.lemma_song_round_trip(rest);
}

/// On the wire a `MagnetometerData` is its fields `mag`, `temp`, in that order, each in its own encoding with
/// nothing between them; reading those bytes gives the value back, whatever follows them.
pub proof fn lemma_magnetometer_data_layout(v: MagnetometerData, rest: Seq<u8>)
    ensures
        v.song_bytes() == v.mag.song_bytes() + v.temp.song_bytes(),
        v.song_len() == v.mag.song_len() + v.temp.song_len(),
        <MagnetometerData as FromSong>::song_parse(v.mag.song_bytes() + v.temp.song_bytes() + rest) == Ok::<MagnetometerData, FromSongError>(v),
{
    v.lemma_song_round_trip(rest);
}


/// On the wire a `SubsystemError` is one byte: `SanityCheckFailed` is 0, `SpiError` is 1, `NotYetMeasured` is 2. Reading that byte gives the value
/// back, whatever follows it.
pub proof fn lemma_subsystem_error_layout(v: SubsystemError, rest: Seq<u8>)
    ensures
        v is SanityCheckFailed ==> v.song_bytes() == seq![0u8]
            && <SubsystemError as FromSong>::song_parse(seq![0u8] + rest) == Ok::<SubsystemError, FromSongError>(v),
        v is SpiError ==> v.song_bytes() == seq![1u8]
            && <SubsystemError as FromSong>::song_parse(seq![1u8] + rest) == Ok::<SubsystemError, FromSongError>(v),
        v is NotYetMeasured ==> v.song_bytes() == seq![2u8]
            && <SubsystemError as FromSong>::song_parse(seq![2u8] + rest) == Ok::<SubsystemError, FromSongError>(v),
{
    v.lemma_song_round_trip(rest);
}

} // verus!
