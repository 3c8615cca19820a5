//! Errors reported by the flight computer: what went wrong and in which part of it.

use vstd::prelude::*;
use vstd::std_specs::convert::FromSpecImpl;
use embedded_hal::spi::ErrorKind;
use crate::song::{
    lemma_write_after, write_tagged, ConstSongSize, ConstSongSizeValue, FromSong, FromSongError,
    HasSongSize, SongDiscriminant, SongRoundTrip, SongSize, TaggedSong, ToSong, ToSongError,
};

verus! {

/// The SPI bus error kinds of `embedded-hal`, carried through as they are.
#[verifier::external_type_specification]
#[verifier::external_body]
pub struct ExSpiErrorKind(ErrorKind);

/// The part of the flight computer an error comes from.
#[derive(Debug, Copy, Clone, PartialEq, Eq, Structural)]
pub enum SirinErrorLocation {
    Init,
    Main,
    Radio,
    Imu,
    HighGImu,
    Accel,
    Baro,
    KalmanFilter,
}

/// The byte that stands for each value of `SirinErrorLocation` on the wire.
pub open spec fn sirin_error_location_wire_value(value: SirinErrorLocation) -> u8 {
    match value {
        SirinErrorLocation::Init => 0,
        SirinErrorLocation::Main => 1,
        SirinErrorLocation::Radio => 2,
        SirinErrorLocation::Imu => 3,
        SirinErrorLocation::HighGImu => 4,
        SirinErrorLocation::Accel => 5,
        SirinErrorLocation::Baro => 6,
        SirinErrorLocation::KalmanFilter => 7,
    }
}

impl SirinErrorLocation {
    /// The byte that stands for this value on the wire.
    pub fn wire_value(self) -> (value: u8)
        ensures
            value == sirin_error_location_wire_value(self),
    {
        match self {
            SirinErrorLocation::Init => 0,
            SirinErrorLocation::Main => 1,
            SirinErrorLocation::Radio => 2,
            SirinErrorLocation::Imu => 3,
            SirinErrorLocation::HighGImu => 4,
            SirinErrorLocation::Accel => 5,
            SirinErrorLocation::Baro => 6,
            SirinErrorLocation::KalmanFilter => 7,
        }
    }
}

impl HasSongSize for SirinErrorLocation {
    type Size = ConstSongSizeValue<1>;
}

impl SongSize for SirinErrorLocation {
    open spec fn song_len(&self) -> nat {
        1
    }

    fn song_size(&self) -> (n: usize) {
        1
    }
}

impl ConstSongSize for SirinErrorLocation {
    open spec fn const_song_len() -> nat {
        1
    }

    fn const_song_size() -> (n: usize) {
        1
    }

    fn const_song_fits(len: usize) -> (b: bool) {
        1 <= len
    }

    proof fn lemma_const_song_len(v: &Self) {
    }

    proof fn lemma_const_song_len_of_type() {
    }
}

impl ToSong for SirinErrorLocation {
    open spec fn song_bytes(&self) -> Seq<u8> {
        seq![sirin_error_location_wire_value(*self)]
    }

    proof fn lemma_song_bytes_len(&self) {
    }

    fn to_song_at(&self, buf: &mut [u8], pos: usize) -> (r: Result<(), ToSongError>) {
        let value = self.wire_value();
        assert(value.song_bytes() == self.song_bytes());
        value.to_song_at(buf, pos)
    }
}

impl FromSong for SirinErrorLocation {
    open spec fn song_parse(bytes: Seq<u8>) -> Result<SirinErrorLocation, FromSongError> {
        if bytes.len() < 1 {
            Err(FromSongError::BufferOverflow)
        } else if bytes[0] == 0 {
            Ok(SirinErrorLocation::Init)
        } else if bytes[0] == 1 {
            Ok(SirinErrorLocation::Main)
        } else if bytes[0] == 2 {
            Ok(SirinErrorLocation::Radio)
        } else if bytes[0] == 3 {
            Ok(SirinErrorLocation::Imu)
        } else if bytes[0] == 4 {
            Ok(SirinErrorLocation::HighGImu)
        } else if bytes[0] == 5 {
            Ok(SirinErrorLocation::Accel)
        } else if bytes[0] == 6 {
            Ok(SirinErrorLocation::Baro)
        } else if bytes[0] == 7 {
            Ok(SirinErrorLocation::KalmanFilter)
        } else {
            Err(FromSongError::InvalidPacketId)
        }
    }

    proof fn lemma_parse_len(bytes: Seq<u8>) {
    }

    fn from_song_at(buf: &[u8], pos: usize) -> (r: Result<SirinErrorLocation, FromSongError>) {
        if buf.len() - pos < 1 {
            return Err(FromSongError::BufferOverflow);
        }
        let ghost s = buf@.skip(pos as int);
        assert(s[0] == buf@[pos as int]);
        match buf[pos] {
            0 => Ok(SirinErrorLocation::Init),
            1 => Ok(SirinErrorLocation::Main),
            2 => Ok(SirinErrorLocation::Radio),
            3 => Ok(SirinErrorLocation::Imu),
            4 => Ok(SirinErrorLocation::HighGImu),
            5 => Ok(SirinErrorLocation::Accel),
            6 => Ok(SirinErrorLocation::Baro),
            7 => Ok(SirinErrorLocation::KalmanFilter),
            _ => Err(FromSongError::InvalidPacketId),
        }
    }
}

impl SongRoundTrip for SirinErrorLocation {
    proof fn lemma_song_round_trip(&self, rest: Seq<u8>) {
        assert((self.song_bytes() + rest)[0] == sirin_error_location_wire_value(*self));
    }
}

/// An error and the part of the flight computer it comes from.
#[derive(Debug, Clone, PartialEq, Eq)]
pub struct SirinError {
    pub location: SirinErrorLocation,
    pub error: SirinErrorVariant,
}

/// What went wrong.
#[derive(Debug, Clone, PartialEq, Eq)]
pub enum SirinErrorVariant {
    SanityCheckFailed,
    SpiError,
    NotYetMeasured,
    /// The flight with this number could not be found.
    FlightNotFound(u16),
    /// There was an error during serialization.
    ToSongError(ToSongError),
    /// There was an error during deserialization.
    FromSongError(FromSongError),
    CorruptedData,
    Unspecified,
}

impl SirinError {
    pub fn new(location: SirinErrorLocation, error: SirinErrorVariant) -> (e: SirinError)
        ensures
            e.location == location,
            e.error == error,
    {
        SirinError { location, error }
    }
}

/// Any SPI bus error is reported as an SPI error; its kind is not kept.
impl From<ErrorKind> for SirinErrorVariant {
    fn from(_kind: ErrorKind) -> (e: SirinErrorVariant) {
        SirinErrorVariant::SpiError
    }
}

impl FromSpecImpl<ErrorKind> for SirinErrorVariant {
    open spec fn obeys_from_spec() -> bool {
        true
    }

    open spec fn from_spec(kind: ErrorKind) -> SirinErrorVariant {
        SirinErrorVariant::SpiError
    }
}

impl From<u16> for SirinErrorVariant {
    fn from(flight: u16) -> (e: SirinErrorVariant) {
        SirinErrorVariant::FlightNotFound(flight)
    }
}

impl FromSpecImpl<u16> for SirinErrorVariant {
    open spec fn obeys_from_spec() -> bool {
        true
    }

    open spec fn from_spec(flight: u16) -> SirinErrorVariant {
        SirinErrorVariant::FlightNotFound(flight)
    }
}

impl From<ToSongError> for SirinErrorVariant {
    fn from(error: ToSongError) -> (e: SirinErrorVariant) {
        SirinErrorVariant::ToSongError(error)
    }
}

impl FromSpecImpl<ToSongError> for SirinErrorVariant {
    open spec fn obeys_from_spec() -> bool {
        true
    }

    open spec fn from_spec(error: ToSongError) -> SirinErrorVariant {
        SirinErrorVariant::ToSongError(error)
    }
}

impl From<FromSongError> for SirinErrorVariant {
    fn from(error: FromSongError) -> (e: SirinErrorVariant) {
        SirinErrorVariant::FromSongError(error)
    }
}

impl FromSpecImpl<FromSongError> for SirinErrorVariant {
    open spec fn obeys_from_spec() -> bool {
        true
    }

    open spec fn from_spec(error: FromSongError) -> SirinErrorVariant {
        SirinErrorVariant::FromSongError(error)
    }
}

// The errors of each part of the flight computer. Each holds what went wrong; converting it into
// a `SirinError` adds the part it comes from. Anything that converts into a `SirinErrorVariant`
// converts into each of them.

/// An error of the start-up.
#[derive(Debug, Clone, PartialEq, Eq)]
pub struct SirinInitError {
    pub error: SirinErrorVariant,
}

impl From<SirinInitError> for SirinErrorLocation {
    fn from(_error: SirinInitError) -> (location: SirinErrorLocation) {
        SirinErrorLocation::Init
    }
}

impl FromSpecImpl<SirinInitError> for SirinErrorLocation {
    open spec fn obeys_from_spec() -> bool {
        true
    }

    open spec fn from_spec(error: SirinInitError) -> SirinErrorLocation {
        SirinErrorLocation::Init
    }
}

impl From<SirinInitError> for SirinError {
    fn from(error: SirinInitError) -> (e: SirinError) {
        SirinError { location: SirinErrorLocation::Init, error: error.error }
    }
}

impl FromSpecImpl<SirinInitError> for SirinError {
    open spec fn obeys_from_spec() -> bool {
        true
    }

    open spec fn from_spec(error: SirinInitError) -> SirinError {
        SirinError { location: SirinErrorLocation::Init, error: error.error }
    }
}

impl From<SirinErrorVariant> for SirinInitError {
    fn from(error: SirinErrorVariant) -> (e: SirinInitError) {
        SirinInitError { error: error }
    }
}

impl FromSpecImpl<SirinErrorVariant> for SirinInitError {
    open spec fn obeys_from_spec() -> bool {
        true
    }

    open spec fn from_spec(error: SirinErrorVariant) -> SirinInitError {
        SirinInitError { error: error }
    }
}

impl From<ErrorKind> for SirinInitError {
    fn from(_kind: ErrorKind) -> (e: SirinInitError) {
        SirinInitError { error: SirinErrorVariant::SpiError }
    }
}

impl FromSpecImpl<ErrorKind> for SirinInitError {
    open spec fn obeys_from_spec() -> bool {
        true
    }

    open spec fn from_spec(kind: ErrorKind) -> SirinInitError {
        SirinInitError { error: SirinErrorVariant::SpiError }
    }
}

impl From<u16> for SirinInitError {
    fn from(flight: u16) -> (e: SirinInitError) {
        SirinInitError { error: SirinErrorVariant::FlightNotFound(flight) }
    }
}

impl FromSpecImpl<u16> for SirinInitError {
    open spec fn obeys_from_spec() -> bool {
        true
    }

    open spec fn from_spec(flight: u16) -> SirinInitError {
        SirinInitError { error: SirinErrorVariant::FlightNotFound(flight) }
    }
}

impl From<ToSongError> for SirinInitError {
    fn from(error: ToSongError) -> (e: SirinInitError) {
        SirinInitError { error: SirinErrorVariant::ToSongError(error) }
    }
}

impl FromSpecImpl<ToSongError> for SirinInitError {
    open spec fn obeys_from_spec() -> bool {
        true
    }

    open spec fn from_spec(error: ToSongError) -> SirinInitError {
        SirinInitError { error: SirinErrorVariant::ToSongError(error) }
    }
}

impl From<FromSongError> for SirinInitError {
    fn from(error: FromSongError) -> (e: SirinInitError) {
        SirinInitError { error: SirinErrorVariant::FromSongError(error) }
    }
}

impl FromSpecImpl<FromSongError> for SirinInitError {
    open spec fn obeys_from_spec() -> bool {
        true
    }

    open spec fn from_spec(error: FromSongError) -> SirinInitError {
        SirinInitError { error: SirinErrorVariant::FromSongError(error) }
    }
}

/// An error of the main loop.
#[derive(Debug, Clone, PartialEq, Eq)]
pub struct SirinMainError {
    pub error: SirinErrorVariant,
}

impl From<SirinMainError> for SirinErrorLocation {
    fn from(_error: SirinMainError) -> (location: SirinErrorLocation) {
        SirinErrorLocation::Main
    }
}

impl FromSpecImpl<SirinMainError> for SirinErrorLocation {
    open spec fn obeys_from_spec() -> bool {
        true
    }

    open spec fn from_spec(error: SirinMainError) -> SirinErrorLocation {
        SirinErrorLocation::Main
    }
}

impl From<SirinMainError> for SirinError {
    fn from(error: SirinMainError) -> (e: SirinError) {
        SirinError { location: SirinErrorLocation::Main, error: error.error }
    }
}

impl FromSpecImpl<SirinMainError> for SirinError {
    open spec fn obeys_from_spec() -> bool {
        true
    }

    open spec fn from_spec(error: SirinMainError) -> SirinError {
        SirinError { location: SirinErrorLocation::Main, error: error.error }
    }
}

impl From<SirinErrorVariant> for SirinMainError {
    fn from(error: SirinErrorVariant) -> (e: SirinMainError) {
        SirinMainError { error: error }
    }
}

impl FromSpecImpl<SirinErrorVariant> for SirinMainError {
    open spec fn obeys_from_spec() -> bool {
        true
    }

    open spec fn from_spec(error: SirinErrorVariant) -> SirinMainError {
        SirinMainError { error: error }
    }
}

impl From<ErrorKind> for SirinMainError {
    fn from(_kind: ErrorKind) -> (e: SirinMainError) {
        SirinMainError { error: SirinErrorVariant::SpiError }
    }
}

impl FromSpecImpl<ErrorKind> for SirinMainError {
    open spec fn obeys_from_spec() -> bool {
        true
    }

    open spec fn from_spec(kind: ErrorKind) -> SirinMainError {
        SirinMainError { error: SirinErrorVariant::SpiError }
    }
}

impl From<u16> for SirinMainError {
    fn from(flight: u16) -> (e: SirinMainError) {
        SirinMainError { error: SirinErrorVariant::FlightNotFound(flight) }
    }
}

impl FromSpecImpl<u16> for SirinMainError {
    open spec fn obeys_from_spec() -> bool {
        true
    }

    open spec fn from_spec(flight: u16) -> SirinMainError {
        SirinMainError { error: SirinErrorVariant::FlightNotFound(flight) }
    }
}

impl From<ToSongError> for SirinMainError {
    fn from(error: ToSongError) -> (e: SirinMainError) {
        SirinMainError { error: SirinErrorVariant::ToSongError(error) }
    }
}

impl FromSpecImpl<ToSongError> for SirinMainError {
    open spec fn obeys_from_spec() -> bool {
        true
    }

    open spec fn from_spec(error: ToSongError) -> SirinMainError {
        SirinMainError { error: SirinErrorVariant::ToSongError(error) }
    }
}

impl From<FromSongError> for SirinMainError {
    fn from(error: FromSongError) -> (e: SirinMainError) {
        SirinMainError { error: SirinErrorVariant::FromSongError(error) }
    }
}

impl FromSpecImpl<FromSongError> for SirinMainError {
    open spec fn obeys_from_spec() -> bool {
        true
    }

    open spec fn from_spec(error: FromSongError) -> SirinMainError {
        SirinMainError { error: SirinErrorVariant::FromSongError(error) }
    }
}

/// An error of the radio.
#[derive(Debug, Clone, PartialEq, Eq)]
pub struct SirinRadioError {
    pub error: SirinErrorVariant,
}

impl From<SirinRadioError> for SirinErrorLocation {
    fn from(_error: SirinRadioError) -> (location: SirinErrorLocation) {
        SirinErrorLocation::Radio
    }
}

impl FromSpecImpl<SirinRadioError> for SirinErrorLocation {
    open spec fn obeys_from_spec() -> bool {
        true
    }

    open spec fn from_spec(error: SirinRadioError) -> SirinErrorLocation {
        SirinErrorLocation::Radio
    }
}

impl From<SirinRadioError> for SirinError {
    fn from(error: SirinRadioError) -> (e: SirinError) {
        SirinError { location: SirinErrorLocation::Radio, error: error.error }
    }
}

impl FromSpecImpl<SirinRadioError> for SirinError {
    open spec fn obeys_from_spec() -> bool {
        true
    }

    open spec fn from_spec(error: SirinRadioError) -> SirinError {
        SirinError { location: SirinErrorLocation::Radio, error: error.error }
    }
}

impl From<SirinErrorVariant> for SirinRadioError {
    fn from(error: SirinErrorVariant) -> (e: SirinRadioError) {
        SirinRadioError { error: error }
    }
}

impl FromSpecImpl<SirinErrorVariant> for SirinRadioError {
    open spec fn obeys_from_spec() -> bool {
        true
    }

    open spec fn from_spec(error: SirinErrorVariant) -> SirinRadioError {
        SirinRadioError { error: error }
    }
}

impl From<ErrorKind> for SirinRadioError {
    fn from(_kind: ErrorKind) -> (e: SirinRadioError) {
        SirinRadioError { error: SirinErrorVariant::SpiError }
    }
}

impl FromSpecImpl<ErrorKind> for SirinRadioError {
    open spec fn obeys_from_spec() -> bool {
        true
    }

    open spec fn from_spec(kind: ErrorKind) -> SirinRadioError {
        SirinRadioError { error: SirinErrorVariant::SpiError }
    }
}

impl From<u16> for SirinRadioError {
    fn from(flight: u16) -> (e: SirinRadioError) {
        SirinRadioError { error: SirinErrorVariant::FlightNotFound(flight) }
    }
}

impl FromSpecImpl<u16> for SirinRadioError {
    open spec fn obeys_from_spec() -> bool {
        true
    }

    open spec fn from_spec(flight: u16) -> SirinRadioError {
        SirinRadioError { error: SirinErrorVariant::FlightNotFound(flight) }
    }
}

impl From<ToSongError> for SirinRadioError {
    fn from(error: ToSongError) -> (e: SirinRadioError) {
        SirinRadioError { error: SirinErrorVariant::ToSongError(error) }
    }
}

impl FromSpecImpl<ToSongError> for SirinRadioError {
    open spec fn obeys_from_spec() -> bool {
        true
    }

    open spec fn from_spec(error: ToSongError) -> SirinRadioError {
        SirinRadioError { error: SirinErrorVariant::ToSongError(error) }
    }
}

impl From<FromSongError> for SirinRadioError {
    fn from(error: FromSongError) -> (e: SirinRadioError) {
        SirinRadioError { error: SirinErrorVariant::FromSongError(error) }
    }
}

impl FromSpecImpl<FromSongError> for SirinRadioError {
    open spec fn obeys_from_spec() -> bool {
        true
    }

    open spec fn from_spec(error: FromSongError) -> SirinRadioError {
        SirinRadioError { error: SirinErrorVariant::FromSongError(error) }
    }
}

/// An error of the IMU.
#[derive(Debug, Clone, PartialEq, Eq)]
pub struct SirinImuError {
    pub error: SirinErrorVariant,
}

impl From<SirinImuError> for SirinErrorLocation {
    fn from(_error: SirinImuError) -> (location: SirinErrorLocation) {
        SirinErrorLocation::Imu
    }
}

impl FromSpecImpl<SirinImuError> for SirinErrorLocation {
    open spec fn obeys_from_spec() -> bool {
        true
    }

    open spec fn from_spec(error: SirinImuError) -> SirinErrorLocation {
        SirinErrorLocation::Imu
    }
}

impl From<SirinImuError> for SirinError {
    fn from(error: SirinImuError) -> (e: SirinError) {
        SirinError { location: SirinErrorLocation::Imu, error: error.error }
    }
}

impl FromSpecImpl<SirinImuError> for SirinError {
    open spec fn obeys_from_spec() -> bool {
        true
    }

    open spec fn from_spec(error: SirinImuError) -> SirinError {
        SirinError { location: SirinErrorLocation::Imu, error: error.error }
    }
}

impl From<SirinErrorVariant> for SirinImuError {
    fn from(error: SirinErrorVariant) -> (e: SirinImuError) {
        SirinImuError { error: error }
    }
}

impl FromSpecImpl<SirinErrorVariant> for SirinImuError {
    open spec fn obeys_from_spec() -> bool {
        true
    }

    open spec fn from_spec(error: SirinErrorVariant) -> SirinImuError {
        SirinImuError { error: error }
    }
}

impl From<ErrorKind> for SirinImuError {
    fn from(_kind: ErrorKind) -> (e: SirinImuError) {
        SirinImuError { error: SirinErrorVariant::SpiError }
    }
}

impl FromSpecImpl<ErrorKind> for SirinImuError {
    open spec fn obeys_from_spec() -> bool {
        true
    }

    open spec fn from_spec(kind: ErrorKind) -> SirinImuError {
        SirinImuError { error: SirinErrorVariant::SpiError }
    }
}

impl From<u16> for SirinImuError {
    fn from(flight: u16) -> (e: SirinImuError) {
        SirinImuError { error: SirinErrorVariant::FlightNotFound(flight) }
    }
}

impl FromSpecImpl<u16> for SirinImuError {
    open spec fn obeys_from_spec() -> bool {
        true
    }

    open spec fn from_spec(flight: u16) -> SirinImuError {
        SirinImuError { error: SirinErrorVariant::FlightNotFound(flight) }
    }
}

impl From<ToSongError> for SirinImuError {
    fn from(error: ToSongError) -> (e: SirinImuError) {
        SirinImuError { error: SirinErrorVariant::ToSongError(error) }
    }
}

impl FromSpecImpl<ToSongError> for SirinImuError {
    open spec fn obeys_from_spec() -> bool {
        true
    }

    open spec fn from_spec(error: ToSongError) -> SirinImuError {
        SirinImuError { error: SirinErrorVariant::ToSongError(error) }
    }
}

impl From<FromSongError> for SirinImuError {
    fn from(error: FromSongError) -> (e: SirinImuError) {
        SirinImuError { error: SirinErrorVariant::FromSongError(error) }
    }
}

impl FromSpecImpl<FromSongError> for SirinImuError {
    open spec fn obeys_from_spec() -> bool {
        true
    }

    open spec fn from_spec(error: FromSongError) -> SirinImuError {
        SirinImuError { error: SirinErrorVariant::FromSongError(error) }
    }
}

/// An error of the high-G IMU.
#[derive(Debug, Clone, PartialEq, Eq)]
pub struct SirinHighGImuError {
    pub error: SirinErrorVariant,
}

impl From<SirinHighGImuError> for SirinErrorLocation {
    fn from(_error: SirinHighGImuError) -> (location: SirinErrorLocation) {
        SirinErrorLocation::HighGImu
    }
}

impl FromSpecImpl<SirinHighGImuError> for SirinErrorLocation {
    open spec fn obeys_from_spec() -> bool {
        true
    }

    open spec fn from_spec(error: SirinHighGImuError) -> SirinErrorLocation {
        SirinErrorLocation::HighGImu
    }
}

impl From<SirinHighGImuError> for SirinError {
    fn from(error: SirinHighGImuError) -> (e: SirinError) {
        SirinError { location: SirinErrorLocation::HighGImu, error: error.error }
    }
}

impl FromSpecImpl<SirinHighGImuError> for SirinError {
    open spec fn obeys_from_spec() -> bool {
        true
    }

    open spec fn from_spec(error: SirinHighGImuError) -> SirinError {
        SirinError { location: SirinErrorLocation::HighGImu, error: error.error }
    }
}

impl From<SirinErrorVariant> for SirinHighGImuError {
    fn from(error: SirinErrorVariant) -> (e: SirinHighGImuError) {
        SirinHighGImuError { error: error }
    }
}

impl FromSpecImpl<SirinErrorVariant> for SirinHighGImuError {
    open spec fn obeys_from_spec() -> bool {
        true
    }

    open spec fn from_spec(error: SirinErrorVariant) -> SirinHighGImuError {
        SirinHighGImuError { error: error }
    }
}

impl From<ErrorKind> for SirinHighGImuError {
    fn from(_kind: ErrorKind) -> (e: SirinHighGImuError) {
        SirinHighGImuError { error: SirinErrorVariant::SpiError }
    }
}

impl FromSpecImpl<ErrorKind> for SirinHighGImuError {
    open spec fn obeys_from_spec() -> bool {
        true
    }

    open spec fn from_spec(kind: ErrorKind) -> SirinHighGImuError {
        SirinHighGImuError { error: SirinErrorVariant::SpiError }
    }
}

impl From<u16> for SirinHighGImuError {
    fn from(flight: u16) -> (e: SirinHighGImuError) {
        SirinHighGImuError { error: SirinErrorVariant::FlightNotFound(flight) }
    }
}

impl FromSpecImpl<u16> for SirinHighGImuError {
    open spec fn obeys_from_spec() -> bool {
        true
    }

    open spec fn from_spec(flight: u16) -> SirinHighGImuError {
        SirinHighGImuError { error: SirinErrorVariant::FlightNotFound(flight) }
    }
}

impl From<ToSongError> for SirinHighGImuError {
    fn from(error: ToSongError) -> (e: SirinHighGImuError) {
        SirinHighGImuError { error: SirinErrorVariant::ToSongError(error) }
    }
}

impl FromSpecImpl<ToSongError> for SirinHighGImuError {
    open spec fn obeys_from_spec() -> bool {
        true
    }

    open spec fn from_spec(error: ToSongError) -> SirinHighGImuError {
        SirinHighGImuError { error: SirinErrorVariant::ToSongError(error) }
    }
}

impl From<FromSongError> for SirinHighGImuError {
    fn from(error: FromSongError) -> (e: SirinHighGImuError) {
        SirinHighGImuError { error: SirinErrorVariant::FromSongError(error) }
    }
}

impl FromSpecImpl<FromSongError> for SirinHighGImuError {
    open spec fn obeys_from_spec() -> bool {
        true
    }

    open spec fn from_spec(error: FromSongError) -> SirinHighGImuError {
        SirinHighGImuError { error: SirinErrorVariant::FromSongError(error) }
    }
}

/// An error of the accelerometer.
#[derive(Debug, Clone, PartialEq, Eq)]
pub struct SirinAccelError {
    pub error: SirinErrorVariant,
}

impl From<SirinAccelError> for SirinErrorLocation {
    fn from(_error: SirinAccelError) -> (location: SirinErrorLocation) {
        SirinErrorLocation::Accel
    }
}

impl FromSpecImpl<SirinAccelError> for SirinErrorLocation {
    open spec fn obeys_from_spec() -> bool {
        true
    }

    open spec fn from_spec(error: SirinAccelError) -> SirinErrorLocation {
        SirinErrorLocation::Accel
    }
}

impl From<SirinAccelError> for SirinError {
    fn from(error: SirinAccelError) -> (e: SirinError) {
        SirinError { location: SirinErrorLocation::Accel, error: error.error }
    }
}

impl FromSpecImpl<SirinAccelError> for SirinError {
    open spec fn obeys_from_spec() -> bool {
        true
    }

    open spec fn from_spec(error: SirinAccelError) -> SirinError {
        SirinError { location: SirinErrorLocation::Accel, error: error.error }
    }
}

impl From<SirinErrorVariant> for SirinAccelError {
    fn from(error: SirinErrorVariant) -> (e: SirinAccelError) {
        SirinAccelError { error: error }
    }
}

impl FromSpecImpl<SirinErrorVariant> for SirinAccelError {
    open spec fn obeys_from_spec() -> bool {
        true
    }

    open spec fn from_spec(error: SirinErrorVariant) -> SirinAccelError {
        SirinAccelError { error: error }
    }
}

impl From<ErrorKind> for SirinAccelError {
    fn from(_kind: ErrorKind) -> (e: SirinAccelError) {
        SirinAccelError { error: SirinErrorVariant::SpiError }
    }
}

impl FromSpecImpl<ErrorKind> for SirinAccelError {
    open spec fn obeys_from_spec() -> bool {
        true
    }

    open spec fn from_spec(kind: ErrorKind) -> SirinAccelError {
        SirinAccelError { error: SirinErrorVariant::SpiError }
    }
}

impl From<u16> for SirinAccelError {
    fn from(flight: u16) -> (e: SirinAccelError) {
        SirinAccelError { error: SirinErrorVariant::FlightNotFound(flight) }
    }
}

impl FromSpecImpl<u16> for SirinAccelError {
    open spec fn obeys_from_spec() -> bool {
        true
    }

    open spec fn from_spec(flight: u16) -> SirinAccelError {
        SirinAccelError { error: SirinErrorVariant::FlightNotFound(flight) }
    }
}

impl From<ToSongError> for SirinAccelError {
    fn from(error: ToSongError) -> (e: SirinAccelError) {
        SirinAccelError { error: SirinErrorVariant::ToSongError(error) }
    }
}

impl FromSpecImpl<ToSongError> for SirinAccelError {
    open spec fn obeys_from_spec() -> bool {
        true
    }

    open spec fn from_spec(error: ToSongError) -> SirinAccelError {
        SirinAccelError { error: SirinErrorVariant::ToSongError(error) }
    }
}

impl From<FromSongError> for SirinAccelError {
    fn from(error: FromSongError) -> (e: SirinAccelError) {
        SirinAccelError { error: SirinErrorVariant::FromSongError(error) }
    }
}

impl FromSpecImpl<FromSongError> for SirinAccelError {
    open spec fn obeys_from_spec() -> bool {
        true
    }

    open spec fn from_spec(error: FromSongError) -> SirinAccelError {
        SirinAccelError { error: SirinErrorVariant::FromSongError(error) }
    }
}

/// An error of the barometer.
#[derive(Debug, Clone, PartialEq, Eq)]
pub struct SirinBaroError {
    pub error: SirinErrorVariant,
}

impl From<SirinBaroError> for SirinErrorLocation {
    fn from(_error: SirinBaroError) -> (location: SirinErrorLocation) {
        SirinErrorLocation::Baro
    }
}

impl FromSpecImpl<SirinBaroError> for SirinErrorLocation {
    open spec fn obeys_from_spec() -> bool {
        true
    }

    open spec fn from_spec(error: SirinBaroError) -> SirinErrorLocation {
        SirinErrorLocation::Baro
    }
}

impl From<SirinBaroError> for SirinError {
    fn from(error: SirinBaroError) -> (e: SirinError) {
        SirinError { location: SirinErrorLocation::Baro, error: error.error }
    }
}

impl FromSpecImpl<SirinBaroError> for SirinError {
    open spec fn obeys_from_spec() -> bool {
        true
    }

    open spec fn from_spec(error: SirinBaroError) -> SirinError {
        SirinError { location: SirinErrorLocation::Baro, error: error.error }
    }
}

impl From<SirinErrorVariant> for SirinBaroError {
    fn from(error: SirinErrorVariant) -> (e: SirinBaroError) {
        SirinBaroError { error: error }
    }
}

impl FromSpecImpl<SirinErrorVariant> for SirinBaroError {
    open spec fn obeys_from_spec() -> bool {
        true
    }

    open spec fn from_spec(error: SirinErrorVariant) -> SirinBaroError {
        SirinBaroError { error: error }
    }
}

impl From<ErrorKind> for SirinBaroError {
    fn from(_kind: ErrorKind) -> (e: SirinBaroError) {
        SirinBaroError { error: SirinErrorVariant::SpiError }
    }
}

impl FromSpecImpl<ErrorKind> for SirinBaroError {
    open spec fn obeys_from_spec() -> bool {
        true
    }

    open spec fn from_spec(kind: ErrorKind) -> SirinBaroError {
        SirinBaroError { error: SirinErrorVariant::SpiError }
    }
}

impl From<u16> for SirinBaroError {
    fn from(flight: u16) -> (e: SirinBaroError) {
        SirinBaroError { error: SirinErrorVariant::FlightNotFound(flight) }
    }
}

impl FromSpecImpl<u16> for SirinBaroError {
    open spec fn obeys_from_spec() -> bool {
        true
    }

    open spec fn from_spec(flight: u16) -> SirinBaroError {
        SirinBaroError { error: SirinErrorVariant::FlightNotFound(flight) }
    }
}

impl From<ToSongError> for SirinBaroError {
    fn from(error: ToSongError) -> (e: SirinBaroError) {
        SirinBaroError { error: SirinErrorVariant::ToSongError(error) }
    }
}

impl FromSpecImpl<ToSongError> for SirinBaroError {
    open spec fn obeys_from_spec() -> bool {
        true
    }

    open spec fn from_spec(error: ToSongError) -> SirinBaroError {
        SirinBaroError { error: SirinErrorVariant::ToSongError(error) }
    }
}

impl From<FromSongError> for SirinBaroError {
    fn from(error: FromSongError) -> (e: SirinBaroError) {
        SirinBaroError { error: SirinErrorVariant::FromSongError(error) }
    }
}

impl FromSpecImpl<FromSongError> for SirinBaroError {
    open spec fn obeys_from_spec() -> bool {
        true
    }

    open spec fn from_spec(error: FromSongError) -> SirinBaroError {
        SirinBaroError { error: SirinErrorVariant::FromSongError(error) }
    }
}

/// An error of the Kalman filter.
#[derive(Debug, Clone, PartialEq, Eq)]
pub struct SirinKalmanFilterError {
    pub error: SirinErrorVariant,
}

impl From<SirinKalmanFilterError> for SirinErrorLocation {
    fn from(_error: SirinKalmanFilterError) -> (location: SirinErrorLocation) {
        SirinErrorLocation::KalmanFilter
    }
}

impl FromSpecImpl<SirinKalmanFilterError> for SirinErrorLocation {
    open spec fn obeys_from_spec() -> bool {
        true
    }

    open spec fn from_spec(error: SirinKalmanFilterError) -> SirinErrorLocation {
        SirinErrorLocation::KalmanFilter
    }
}

impl From<SirinKalmanFilterError> for SirinError {
    fn from(error: SirinKalmanFilterError) -> (e: SirinError) {
        SirinError { location: SirinErrorLocation::KalmanFilter, error: error.error }
    }
}

impl FromSpecImpl<SirinKalmanFilterError> for SirinError {
    open spec fn obeys_from_spec() -> bool {
        true
    }

    open spec fn from_spec(error: SirinKalmanFilterError) -> SirinError {
        SirinError { location: SirinErrorLocation::KalmanFilter, error: error.error }
    }
}

impl From<SirinErrorVariant> for SirinKalmanFilterError {
    fn from(error: SirinErrorVariant) -> (e: SirinKalmanFilterError) {
        SirinKalmanFilterError { error: error }
    }
}

impl FromSpecImpl<SirinErrorVariant> for SirinKalmanFilterError {
    open spec fn obeys_from_spec() -> bool {
        true
    }

    open spec fn from_spec(error: SirinErrorVariant) -> SirinKalmanFilterError {
        SirinKalmanFilterError { error: error }
    }
}

impl From<ErrorKind> for SirinKalmanFilterError {
    fn from(_kind: ErrorKind) -> (e: SirinKalmanFilterError) {
        SirinKalmanFilterError { error: SirinErrorVariant::SpiError }
    }
}

impl FromSpecImpl<ErrorKind> for SirinKalmanFilterError {
    open spec fn obeys_from_spec() -> bool {
        true
    }

    open spec fn from_spec(kind: ErrorKind) -> SirinKalmanFilterError {
        SirinKalmanFilterError { error: SirinErrorVariant::SpiError }
    }
}

impl From<u16> for SirinKalmanFilterError {
    fn from(flight: u16) -> (e: SirinKalmanFilterError) {
        SirinKalmanFilterError { error: SirinErrorVariant::FlightNotFound(flight) }
    }
}

impl FromSpecImpl<u16> for SirinKalmanFilterError {
    open spec fn obeys_from_spec() -> bool {
        true
    }

    open spec fn from_spec(flight: u16) -> SirinKalmanFilterError {
        SirinKalmanFilterError { error: SirinErrorVariant::FlightNotFound(flight) }
    }
}

impl From<ToSongError> for SirinKalmanFilterError {
    fn from(error: ToSongError) -> (e: SirinKalmanFilterError) {
        SirinKalmanFilterError { error: SirinErrorVariant::ToSongError(error) }
    }
}

impl FromSpecImpl<ToSongError> for SirinKalmanFilterError {
    open spec fn obeys_from_spec() -> bool {
        true
    }

    open spec fn from_spec(error: ToSongError) -> SirinKalmanFilterError {
        SirinKalmanFilterError { error: SirinErrorVariant::ToSongError(error) }
    }
}

impl From<FromSongError> for SirinKalmanFilterError {
    fn from(error: FromSongError) -> (e: SirinKalmanFilterError) {
        SirinKalmanFilterError { error: SirinErrorVariant::FromSongError(error) }
    }
}

impl FromSpecImpl<FromSongError> for SirinKalmanFilterError {
    open spec fn obeys_from_spec() -> bool {
        true
    }

    open spec fn from_spec(error: FromSongError) -> SirinKalmanFilterError {
        SirinKalmanFilterError { error: SirinErrorVariant::FromSongError(error) }
    }
}

/// The tag that starts each kind of [`SirinErrorVariant`].
#[derive(Clone, Copy, PartialEq, Eq, Debug, Structural)]
pub enum SirinErrorVariantType {
    SanityCheckFailed,
    SpiError,
    NotYetMeasured,
    FlightNotFound,
    ToSongError,
    FromSongError,
    CorruptedData,
    Unspecified,
}

/// The byte that stands for each value of `SirinErrorVariantType` on the wire.
pub open spec fn sirin_error_variant_type_wire_value(value: SirinErrorVariantType) -> u8 {
    match value {
        SirinErrorVariantType::SanityCheckFailed => 0,
        SirinErrorVariantType::SpiError => 1,
        SirinErrorVariantType::NotYetMeasured => 2,
        SirinErrorVariantType::FlightNotFound => 3,
        SirinErrorVariantType::ToSongError => 4,
        SirinErrorVariantType::FromSongError => 5,
        SirinErrorVariantType::CorruptedData => 6,
        SirinErrorVariantType::Unspecified => 7,
    }
}

impl SirinErrorVariantType {
    /// The byte that stands for this value on the wire.
    pub fn wire_value(self) -> (value: u8)
        ensures
            value == sirin_error_variant_type_wire_value(self),
    {
        match self {
            SirinErrorVariantType::SanityCheckFailed => 0,
            SirinErrorVariantType::SpiError => 1,
            SirinErrorVariantType::NotYetMeasured => 2,
            SirinErrorVariantType::FlightNotFound => 3,
            SirinErrorVariantType::ToSongError => 4,
            SirinErrorVariantType::FromSongError => 5,
            SirinErrorVariantType::CorruptedData => 6,
            SirinErrorVariantType::Unspecified => 7,
        }
    }
}

impl HasSongSize for SirinErrorVariantType {
    type Size = ConstSongSizeValue<1>;
}

impl SongSize for SirinErrorVariantType {
    open spec fn song_len(&self) -> nat {
        1
    }

    fn song_size(&self) -> (n: usize) {
        1
    }
}

impl ConstSongSize for SirinErrorVariantType {
    open spec fn const_song_len() -> nat {
        1
    }

    fn const_song_size() -> (n: usize) {
        1
    }

    fn const_song_fits(len: usize) -> (b: bool) {
        1 <= len
    }

    proof fn lemma_const_song_len(v: &Self) {
    }

    proof fn lemma_const_song_len_of_type() {
    }
}

impl ToSong for SirinErrorVariantType {
    open spec fn song_bytes(&self) -> Seq<u8> {
        seq![sirin_error_variant_type_wire_value(*self)]
    }

    proof fn lemma_song_bytes_len(&self) {
    }

    fn to_song_at(&self, buf: &mut [u8], pos: usize) -> (r: Result<(), ToSongError>) {
        let value = self.wire_value();
        assert(value.song_bytes() == self.song_bytes());
        value.to_song_at(buf, pos)
    }
}

impl FromSong for SirinErrorVariantType {
    open spec fn song_parse(bytes: Seq<u8>) -> Result<SirinErrorVariantType, FromSongError> {
        if bytes.len() < 1 {
            Err(FromSongError::BufferOverflow)
        } else if bytes[0] == 0 {
            Ok(SirinErrorVariantType::SanityCheckFailed)
        } else if bytes[0] == 1 {
            Ok(SirinErrorVariantType::SpiError)
        } else if bytes[0] == 2 {
            Ok(SirinErrorVariantType::NotYetMeasured)
        } else if bytes[0] == 3 {
            Ok(SirinErrorVariantType::FlightNotFound)
        } else if bytes[0] == 4 {
            Ok(SirinErrorVariantType::ToSongError)
        } else if bytes[0] == 5 {
            Ok(SirinErrorVariantType::FromSongError)
        } else if bytes[0] == 6 {
            Ok(SirinErrorVariantType::CorruptedData)
        } else if bytes[0] == 7 {
            Ok(SirinErrorVariantType::Unspecified)
        } else {
            Err(FromSongError::InvalidPacketId)
        }
    }

    proof fn lemma_parse_len(bytes: Seq<u8>) {
    }

    fn from_song_at(buf: &[u8], pos: usize) -> (r: Result<SirinErrorVariantType, FromSongError>) {
        if buf.len() - pos < 1 {
            return Err(FromSongError::BufferOverflow);
        }
        let ghost s = buf@.skip(pos as int);
        assert(s[0] == buf@[pos as int]);
        match buf[pos] {
            0 => Ok(SirinErrorVariantType::SanityCheckFailed),
            1 => Ok(SirinErrorVariantType::SpiError),
            2 => Ok(SirinErrorVariantType::NotYetMeasured),
            3 => Ok(SirinErrorVariantType::FlightNotFound),
            4 => Ok(SirinErrorVariantType::ToSongError),
            5 => Ok(SirinErrorVariantType::FromSongError),
            6 => Ok(SirinErrorVariantType::CorruptedData),
            7 => Ok(SirinErrorVariantType::Unspecified),
            _ => Err(FromSongError::InvalidPacketId),
        }
    }
}

impl SongRoundTrip for SirinErrorVariantType {
    proof fn lemma_song_round_trip(&self, rest: Seq<u8>) {
        assert((self.song_bytes() + rest)[0] == sirin_error_variant_type_wire_value(*self));
    }
}

impl SongDiscriminant for SirinErrorVariant {
    type Discriminant = SirinErrorVariantType;

    open spec fn discriminant_of(&self) -> SirinErrorVariantType {
        match self {
            SirinErrorVariant::SanityCheckFailed => SirinErrorVariantType::SanityCheckFailed,
            SirinErrorVariant::SpiError => SirinErrorVariantType::SpiError,
            SirinErrorVariant::NotYetMeasured => SirinErrorVariantType::NotYetMeasured,
            SirinErrorVariant::FlightNotFound(..) => SirinErrorVariantType::FlightNotFound,
            SirinErrorVariant::ToSongError(..) => SirinErrorVariantType::ToSongError,
            SirinErrorVariant::FromSongError(..) => SirinErrorVariantType::FromSongError,
            SirinErrorVariant::CorruptedData => SirinErrorVariantType::CorruptedData,
            SirinErrorVariant::Unspecified => SirinErrorVariantType::Unspecified,
        }
    }

    fn song_discriminant(&self) -> (d: SirinErrorVariantType) {
        match self {
            SirinErrorVariant::SanityCheckFailed => SirinErrorVariantType::SanityCheckFailed,
            SirinErrorVariant::SpiError => SirinErrorVariantType::SpiError,
            SirinErrorVariant::NotYetMeasured => SirinErrorVariantType::NotYetMeasured,
            SirinErrorVariant::FlightNotFound(..) => SirinErrorVariantType::FlightNotFound,
            SirinErrorVariant::ToSongError(..) => SirinErrorVariantType::ToSongError,
            SirinErrorVariant::FromSongError(..) => SirinErrorVariantType::FromSongError,
            SirinErrorVariant::CorruptedData => SirinErrorVariantType::CorruptedData,
            SirinErrorVariant::Unspecified => SirinErrorVariantType::Unspecified,
        }
    }
}

impl SongSize for SirinErrorVariant {
    open spec fn song_len(&self) -> nat {
        match self {
            SirinErrorVariant::SanityCheckFailed => 1,
            SirinErrorVariant::SpiError => 1,
            SirinErrorVariant::NotYetMeasured => 1,
            SirinErrorVariant::FlightNotFound(t0) => 1 + t0.song_len(),
            SirinErrorVariant::ToSongError(t0) => 1 + t0.song_len(),
            SirinErrorVariant::FromSongError(t0) => 1 + t0.song_len(),
            SirinErrorVariant::CorruptedData => 1,
            SirinErrorVariant::Unspecified => 1,
        }
    }

    fn song_size(&self) -> (n: usize) {
        match self {
            SirinErrorVariant::SanityCheckFailed => 1,
            SirinErrorVariant::SpiError => 1,
            SirinErrorVariant::NotYetMeasured => 1,
            SirinErrorVariant::FlightNotFound(t0) => 1 + t0.song_size(),
            SirinErrorVariant::ToSongError(t0) => 1 + t0.song_size(),
            SirinErrorVariant::FromSongError(t0) => 1 + t0.song_size(),
            SirinErrorVariant::CorruptedData => 1,
            SirinErrorVariant::Unspecified => 1,
        }
    }
}

impl ToSong for SirinErrorVariant {
    open spec fn song_bytes(&self) -> Seq<u8> {
        match self {
            SirinErrorVariant::SanityCheckFailed => seq![0u8],
            SirinErrorVariant::SpiError => seq![1u8],
            SirinErrorVariant::NotYetMeasured => seq![2u8],
            SirinErrorVariant::FlightNotFound(t0) => seq![3u8] + t0.song_bytes(),
            SirinErrorVariant::ToSongError(t0) => seq![4u8] + t0.song_bytes(),
            SirinErrorVariant::FromSongError(t0) => seq![5u8] + t0.song_bytes(),
            SirinErrorVariant::CorruptedData => seq![6u8],
            SirinErrorVariant::Unspecified => seq![7u8],
        }
    }

    proof fn lemma_song_bytes_len(&self) {
        match self {
            SirinErrorVariant::SanityCheckFailed => {},
            SirinErrorVariant::SpiError => {},
            SirinErrorVariant::NotYetMeasured => {},
            SirinErrorVariant::FlightNotFound(t0) => { t0.lemma_song_bytes_len(); },
            SirinErrorVariant::ToSongError(t0) => { t0.lemma_song_bytes_len(); },
            SirinErrorVariant::FromSongError(t0) => { t0.lemma_song_bytes_len(); },
            SirinErrorVariant::CorruptedData => {},
            SirinErrorVariant::Unspecified => {},
        }
    }

    fn to_song_at(&self, buf: &mut [u8], pos: usize) -> (r: Result<(), ToSongError>) {
        match self {
            SirinErrorVariant::SanityCheckFailed => SirinErrorVariantType::SanityCheckFailed.to_song_at(buf, pos),
            SirinErrorVariant::SpiError => SirinErrorVariantType::SpiError.to_song_at(buf, pos),
            SirinErrorVariant::NotYetMeasured => SirinErrorVariantType::NotYetMeasured.to_song_at(buf, pos),
            SirinErrorVariant::FlightNotFound(t0) => write_tagged(3u8, t0, buf, pos),
            SirinErrorVariant::ToSongError(t0) => write_tagged(4u8, t0, buf, pos),
            SirinErrorVariant::FromSongError(t0) => write_tagged(5u8, t0, buf, pos),
            SirinErrorVariant::CorruptedData => SirinErrorVariantType::CorruptedData.to_song_at(buf, pos),
            SirinErrorVariant::Unspecified => SirinErrorVariantType::Unspecified.to_song_at(buf, pos),
        }
    }
}

impl FromSong for SirinErrorVariant {
    open spec fn song_parse(bytes: Seq<u8>) -> Result<SirinErrorVariant, FromSongError> {
        if bytes.len() < 1 {
            Err(FromSongError::BufferOverflow)
        } else if bytes[0] == 0 {
            Ok(SirinErrorVariant::SanityCheckFailed)
        } else if bytes[0] == 1 {
            Ok(SirinErrorVariant::SpiError)
        } else if bytes[0] == 2 {
            Ok(SirinErrorVariant::NotYetMeasured)
        } else if bytes[0] == 3 {
            match <u16 as FromSong>::song_parse(bytes.skip((1) as int)) { Err(e) => Err(e), Ok(t0) => Ok(SirinErrorVariant::FlightNotFound(t0)) }
        } else if bytes[0] == 4 {
            match <ToSongError as FromSong>::song_parse(bytes.skip((1) as int)) { Err(e) => Err(e), Ok(t0) => Ok(SirinErrorVariant::ToSongError(t0)) }
        } else if bytes[0] == 5 {
            match <FromSongError as FromSong>::song_parse(bytes.skip((1) as int)) { Err(e) => Err(e), Ok(t0) => Ok(SirinErrorVariant::FromSongError(t0)) }
        } else if bytes[0] == 6 {
            Ok(SirinErrorVariant::CorruptedData)
        } else if bytes[0] == 7 {
            Ok(SirinErrorVariant::Unspecified)
        } else {
            Err(FromSongError::InvalidPacketId)
        }
    }

    proof fn lemma_parse_len(bytes: Seq<u8>) {
        if bytes.len() >= 1 && bytes[0] == 3 {
            <u16 as FromSong>::lemma_parse_len(bytes.skip((1) as int));
        }
        if bytes.len() >= 1 && bytes[0] == 4 {
            <ToSongError as FromSong>::lemma_parse_len(bytes.skip((1) as int));
        }
        if bytes.len() >= 1 && bytes[0] == 5 {
            <FromSongError as FromSong>::lemma_parse_len(bytes.skip((1) as int));
        }
    }

    #[verifier::rlimit(100)]
    fn from_song_at(buf: &[u8], pos: usize) -> (r: Result<SirinErrorVariant, FromSongError>) {
        if buf.len() - pos < 1 {
            return Err(FromSongError::BufferOverflow);
        }
        let ghost b = buf@.skip(pos as int);
        assert(buf@.len() == buf.len());
        assert(b[0] == buf@[pos as int]);
        match buf[pos] {
            0 => {

                Ok(SirinErrorVariant::SanityCheckFailed)
            },
            1 => {

                Ok(SirinErrorVariant::SpiError)
            },
            2 => {

                Ok(SirinErrorVariant::NotYetMeasured)
            },
            3 => {
                let mut i = pos + 1;
                assert(buf@.skip(i as int) =~= b.skip(1));
                let t0 = match <u16 as FromSong>::from_song_at(buf, i) {
                    Ok(v) => v,
                    Err(e) => return Err(e),
                };
                Ok(SirinErrorVariant::FlightNotFound(t0))
            },
            4 => {
                let mut i = pos + 1;
                assert(buf@.skip(i as int) =~= b.skip(1));
                let t0 = match <ToSongError as FromSong>::from_song_at(buf, i) {
                    Ok(v) => v,
                    Err(e) => return Err(e),
                };
                Ok(SirinErrorVariant::ToSongError(t0))
            },
            5 => {
                let mut i = pos + 1;
                assert(buf@.skip(i as int) =~= b.skip(1));
                let t0 = match <FromSongError as FromSong>::from_song_at(buf, i) {
                    Ok(v) => v,
                    Err(e) => return Err(e),
                };
                Ok(SirinErrorVariant::FromSongError(t0))
            },
            6 => {

                Ok(SirinErrorVariant::CorruptedData)
            },
            7 => {

                Ok(SirinErrorVariant::Unspecified)
            },
            _ => Err(FromSongError::InvalidPacketId),
        }
    }
}

impl SongRoundTrip for SirinErrorVariant {
    proof fn lemma_song_round_trip(&self, rest: Seq<u8>) {
        match self {
            SirinErrorVariant::SanityCheckFailed => {
                let b = self.song_bytes() + rest;
                assert(b[0] == 0u8);
            },
            SirinErrorVariant::SpiError => {
                let b = self.song_bytes() + rest;
                assert(b[0] == 1u8);
            },
            SirinErrorVariant::NotYetMeasured => {
                let b = self.song_bytes() + rest;
                assert(b[0] == 2u8);
            },
            SirinErrorVariant::FlightNotFound(t0) => {
                t0.lemma_song_bytes_len();
                let b = self.song_bytes() + rest;
                assert(b[0] == 3u8);
                assert(b.skip((seq![3u8].len()) as int) =~= t0.song_bytes() + (rest));
                t0.lemma_song_round_trip(rest);
            },
            SirinErrorVariant::ToSongError(t0) => {
                t0.lemma_song_bytes_len();
                let b = self.song_bytes() + rest;
                assert(b[0] == 4u8);
                assert(b.skip((seq![4u8].len()) as int) =~= t0.song_bytes() + (rest));
                t0.lemma_song_round_trip(rest);
            },
            SirinErrorVariant::FromSongError(t0) => {
                t0.lemma_song_bytes_len();
                let b = self.song_bytes() + rest;
                assert(b[0] == 5u8);
                assert(b.skip((seq![5u8].len()) as int) =~= t0.song_bytes() + (rest));
                t0.lemma_song_round_trip(rest);
            },
            SirinErrorVariant::CorruptedData => {
                let b = self.song_bytes() + rest;
                assert(b[0] == 6u8);
            },
            SirinErrorVariant::Unspecified => {
                let b = self.song_bytes() + rest;
                assert(b[0] == 7u8);
            },
        }
    }
}

impl SongSize for SirinError {
    open spec fn song_len(&self) -> nat {
        self.location.song_len() + self.error.song_len()
    }

    fn song_size(&self) -> (n: usize) {
        self.location.song_size() + self.error.song_size()
    }
}

impl ToSong for SirinError {
    open spec fn song_bytes(&self) -> Seq<u8> {
        self.location.song_bytes() + self.error.song_bytes()
    }

    proof fn lemma_song_bytes_len(&self) {
        self.location.lemma_song_bytes_len();
        self.error.lemma_song_bytes_len();
    }

    fn to_song_at(&self, buf: &mut [u8], pos: usize) -> (r: Result<(), ToSongError>) {
        if buf.len() - pos < self.song_size() {
            return Err(ToSongError::BufferOverflow);
        }
        proof {
            self.location.lemma_song_bytes_len();
            self.error.lemma_song_bytes_len();
        }
        let ghost start = buf@;
        let mut i = pos;
        match self.location.to_song_at(buf, i) {
            Ok(()) => {},
            Err(e) => return Err(e),
        }
        i = i + self.location.song_size();
        let ghost before = buf@;
        match self.error.to_song_at(buf, i) {
            Ok(()) => {},
            Err(e) => return Err(e),
        }
        proof {
            lemma_write_after(start, before, buf@, pos as int, self.location.song_bytes(), self.error.song_bytes());
        }
        Ok(())
    }
}

impl FromSong for SirinError {
    open spec fn song_parse(bytes: Seq<u8>) -> Result<SirinError, FromSongError> {
        match <SirinErrorLocation as FromSong>::song_parse(bytes) { Err(e) => Err(e), Ok(location) => match <SirinErrorVariant as FromSong>::song_parse(bytes.skip((location.song_len()) as int)) { Err(e) => Err(e), Ok(error) => Ok(SirinError { location, error }) } }
    }

    proof fn lemma_parse_len(bytes: Seq<u8>) {
        <SirinErrorLocation as FromSong>::lemma_parse_len(bytes);
        if let Ok(location) = <SirinErrorLocation as FromSong>::song_parse(bytes) {
            <SirinErrorVariant as FromSong>::lemma_parse_len(bytes.skip((location.song_len()) as int));
        }
    }

    fn from_song_at(buf: &[u8], pos: usize) -> (r: Result<SirinError, FromSongError>) {
        let ghost b = buf@.skip(pos as int);
        assert(buf@.len() == buf.len());
        let mut i = pos;
        assert(buf@.skip(i as int) =~= b);
        let v_location = match <SirinErrorLocation as FromSong>::from_song_at(buf, i) {
            Ok(v) => v,
            Err(e) => return Err(e),
        };
        proof {
            <SirinErrorLocation as FromSong>::lemma_parse_len(b);
        }
        i = i + v_location.song_size();
        assert(buf@.skip(i as int) =~= b.skip((v_location.song_len()) as int));
        let v_error = match <SirinErrorVariant as FromSong>::from_song_at(buf, i) {
            Ok(v) => v,
            Err(e) => return Err(e),
        };
        Ok(SirinError { location: v_location, error: v_error })
    }
}

impl SongRoundTrip for SirinError {
    proof fn lemma_song_round_trip(&self, rest: Seq<u8>) {
        self.location.lemma_song_bytes_len();
        self.error.lemma_song_bytes_len();
        let b = self.song_bytes() + rest;
        assert(b =~= self.location.song_bytes() + (self.error.song_bytes() + rest));
        self.location.lemma_song_round_trip(self.error.song_bytes() + rest);
        assert(b.skip((self.location.song_bytes().len()) as int) =~= self.error.song_bytes() + (rest));
        self.error.lemma_song_round_trip(rest);
    }
}

impl SongSize for SirinInitError {
    open spec fn song_len(&self) -> nat {
        self.error.song_len()
    }

    fn song_size(&self) -> (n: usize) {
        self.error.song_size()
    }
}

impl ToSong for SirinInitError {
    open spec fn song_bytes(&self) -> Seq<u8> {
        self.error.song_bytes()
    }

    proof fn lemma_song_bytes_len(&self) {
        self.error.lemma_song_bytes_len();
    }

    fn to_song_at(&self, buf: &mut [u8], pos: usize) -> (r: Result<(), ToSongError>) {
        if buf.len() - pos < self.song_size() {
            return Err(ToSongError::BufferOverflow);
        }
        proof {
            self.error.lemma_song_bytes_len();
        }
        let ghost start = buf@;
        let mut i = pos;
        match self.error.to_song_at(buf, i) {
            Ok(()) => {},
            Err(e) => return Err(e),
        }
        Ok(())
    }
}

impl FromSong for SirinInitError {
    open spec fn song_parse(bytes: Seq<u8>) -> Result<SirinInitError, FromSongError> {
        match <SirinErrorVariant as FromSong>::song_parse(bytes) { Err(e) => Err(e), Ok(error) => Ok(SirinInitError { error }) }
    }

    proof fn lemma_parse_len(bytes: Seq<u8>) {
        <SirinErrorVariant as FromSong>::lemma_parse_len(bytes);
    }

    fn from_song_at(buf: &[u8], pos: usize) -> (r: Result<SirinInitError, FromSongError>) {
        let ghost b = buf@.skip(pos as int);
        assert(buf@.len() == buf.len());
        let mut i = pos;
        assert(buf@.skip(i as int) =~= b);
        let v_error = match <SirinErrorVariant as FromSong>::from_song_at(buf, i) {
            Ok(v) => v,
            Err(e) => return Err(e),
        };
        Ok(SirinInitError { error: v_error })
    }
}

impl SongRoundTrip for SirinInitError {
    proof fn lemma_song_round_trip(&self, rest: Seq<u8>) {
        self.error.lemma_song_bytes_len();
        let b = self.song_bytes() + rest;
        assert(b =~= self.error.song_bytes() + (rest));
        self.error.lemma_song_round_trip(rest);
    }
}

impl SongSize for SirinMainError {
    open spec fn song_len(&self) -> nat {
        self.error.song_len()
    }

    fn song_size(&self) -> (n: usize) {
        self.error.song_size()
    }
}

impl ToSong for SirinMainError {
    open spec fn song_bytes(&self) -> Seq<u8> {
        self.error.song_bytes()
    }

    proof fn lemma_song_bytes_len(&self) {
        self.error.lemma_song_bytes_len();
    }

    fn to_song_at(&self, buf: &mut [u8], pos: usize) -> (r: Result<(), ToSongError>) {
        if buf.len() - pos < self.song_size() {
            return Err(ToSongError::BufferOverflow);
        }
        proof {
            self.error.lemma_song_bytes_len();
        }
        let ghost start = buf@;
        let mut i = pos;
        match self.error.to_song_at(buf, i) {
            Ok(()) => {},
            Err(e) => return Err(e),
        }
        Ok(())
    }
}

impl FromSong for SirinMainError {
    open spec fn song_parse(bytes: Seq<u8>) -> Result<SirinMainError, FromSongError> {
        match <SirinErrorVariant as FromSong>::song_parse(bytes) { Err(e) => Err(e), Ok(error) => Ok(SirinMainError { error }) }
    }

    proof fn lemma_parse_len(bytes: Seq<u8>) {
        <SirinErrorVariant as FromSong>::lemma_parse_len(bytes);
    }

    fn from_song_at(buf: &[u8], pos: usize) -> (r: Result<SirinMainError, FromSongError>) {
        let ghost b = buf@.skip(pos as int);
        assert(buf@.len() == buf.len());
        let mut i = pos;
        assert(buf@.skip(i as int) =~= b);
        let v_error = match <SirinErrorVariant as FromSong>::from_song_at(buf, i) {
            Ok(v) => v,
            Err(e) => return Err(e),
        };
        Ok(SirinMainError { error: v_error })
    }
}

impl SongRoundTrip for SirinMainError {
    proof fn lemma_song_round_trip(&self, rest: Seq<u8>) {
        self.error.lemma_song_bytes_len();
        let b = self.song_bytes() + rest;
        assert(b =~= self.error.song_bytes() + (rest));
        self.error.lemma_song_round_trip(rest);
    }
}

impl SongSize for SirinRadioError {
    open spec fn song_len(&self) -> nat {
        self.error.song_len()
    }

    fn song_size(&self) -> (n: usize) {
        self.error.song_size()
    }
}

impl ToSong for SirinRadioError {
    open spec fn song_bytes(&self) -> Seq<u8> {
        self.error.song_bytes()
    }

    proof fn lemma_song_bytes_len(&self) {
        self.error.lemma_song_bytes_len();
    }

    fn to_song_at(&self, buf: &mut [u8], pos: usize) -> (r: Result<(), ToSongError>) {
        if buf.len() - pos < self.song_size() {
            return Err(ToSongError::BufferOverflow);
        }
        proof {
            self.error.lemma_song_bytes_len();
        }
        let ghost start = buf@;
        let mut i = pos;
        match self.error.to_song_at(buf, i) {
            Ok(()) => {},
            Err(e) => return Err(e),
        }
        Ok(())
    }
}

impl FromSong for SirinRadioError {
    open spec fn song_parse(bytes: Seq<u8>) -> Result<SirinRadioError, FromSongError> {
        match <SirinErrorVariant as FromSong>::song_parse(bytes) { Err(e) => Err(e), Ok(error) => Ok(SirinRadioError { error }) }
    }

    proof fn lemma_parse_len(bytes: Seq<u8>) {
        <SirinErrorVariant as FromSong>::lemma_parse_len(bytes);
    }

    fn from_song_at(buf: &[u8], pos: usize) -> (r: Result<SirinRadioError, FromSongError>) {
        let ghost b = buf@.skip(pos as int);
        assert(buf@.len() == buf.len());
        let mut i = pos;
        assert(buf@.skip(i as int) =~= b);
        let v_error = match <SirinErrorVariant as FromSong>::from_song_at(buf, i) {
            Ok(v) => v,
            Err(e) => return Err(e),
        };
        Ok(SirinRadioError { error: v_error })
    }
}

impl SongRoundTrip for SirinRadioError {
    proof fn lemma_song_round_trip(&self, rest: Seq<u8>) {
        self.error.lemma_song_bytes_len();
        let b = self.song_bytes() + rest;
        assert(b =~= self.error.song_bytes() + (rest));
        self.error.lemma_song_round_trip(rest);
    }
}

impl SongSize for SirinImuError {
    open spec fn song_len(&self) -> nat {
        self.error.song_len()
    }

    fn song_size(&self) -> (n: usize) {
        self.error.song_size()
    }
}

impl ToSong for SirinImuError {
    open spec fn song_bytes(&self) -> Seq<u8> {
        self.error.song_bytes()
    }

    proof fn lemma_song_bytes_len(&self) {
        self.error.lemma_song_bytes_len();
    }

    fn to_song_at(&self, buf: &mut [u8], pos: usize) -> (r: Result<(), ToSongError>) {
        if buf.len() - pos < self.song_size() {
            return Err(ToSongError::BufferOverflow);
        }
        proof {
            self.error.lemma_song_bytes_len();
        }
        let ghost start = buf@;
        let mut i = pos;
        match self.error.to_song_at(buf, i) {
            Ok(()) => {},
            Err(e) => return Err(e),
        }
        Ok(())
    }
}

impl FromSong for SirinImuError {
    open spec fn song_parse(bytes: Seq<u8>) -> Result<SirinImuError, FromSongError> {
        match <SirinErrorVariant as FromSong>::song_parse(bytes) { Err(e) => Err(e), Ok(error) => Ok(SirinImuError { error }) }
    }

    proof fn lemma_parse_len(bytes: Seq<u8>) {
        <SirinErrorVariant as FromSong>::lemma_parse_len(bytes);
    }

    fn from_song_at(buf: &[u8], pos: usize) -> (r: Result<SirinImuError, FromSongError>) {
        let ghost b = buf@.skip(pos as int);
        assert(buf@.len() == buf.len());
        let mut i = pos;
        assert(buf@.skip(i as int) =~= b);
        let v_error = match <SirinErrorVariant as FromSong>::from_song_at(buf, i) {
            Ok(v) => v,
            Err(e) => return Err(e),
        };
        Ok(SirinImuError { error: v_error })
    }
}

impl SongRoundTrip for SirinImuError {
    proof fn lemma_song_round_trip(&self, rest: Seq<u8>) {
        self.error.lemma_song_bytes_len();
        let b = self.song_bytes() + rest;
        assert(b =~= self.error.song_bytes() + (rest));
        self.error.lemma_song_round_trip(rest);
    }
}

impl SongSize for SirinHighGImuError {
    open spec fn song_len(&self) -> nat {
        self.error.song_len()
    }

    fn song_size(&self) -> (n: usize) {
        self.error.song_size()
    }
}

impl ToSong for SirinHighGImuError {
    open spec fn song_bytes(&self) -> Seq<u8> {
        self.error.song_bytes()
    }

    proof fn lemma_song_bytes_len(&self) {
        self.error.lemma_song_bytes_len();
    }

    fn to_song_at(&self, buf: &mut [u8], pos: usize) -> (r: Result<(), ToSongError>) {
        if buf.len() - pos < self.song_size() {
            return Err(ToSongError::BufferOverflow);
        }
        proof {
            self.error.lemma_song_bytes_len();
        }
        let ghost start = buf@;
        let mut i = pos;
        match self.error.to_song_at(buf, i) {
            Ok(()) => {},
            Err(e) => return Err(e),
        }
        Ok(())
    }
}

impl FromSong for SirinHighGImuError {
    open spec fn song_parse(bytes: Seq<u8>) -> Result<SirinHighGImuError, FromSongError> {
        match <SirinErrorVariant as FromSong>::song_parse(bytes) { Err(e) => Err(e), Ok(error) => Ok(SirinHighGImuError { error }) }
    }

    proof fn lemma_parse_len(bytes: Seq<u8>) {
        <SirinErrorVariant as FromSong>::lemma_parse_len(bytes);
    }

    fn from_song_at(buf: &[u8], pos: usize) -> (r: Result<SirinHighGImuError, FromSongError>) {
        let ghost b = buf@.skip(pos as int);
        assert(buf@.len() == buf.len());
        let mut i = pos;
        assert(buf@.skip(i as int) =~= b);
        let v_error = match <SirinErrorVariant as FromSong>::from_song_at(buf, i) {
            Ok(v) => v,
            Err(e) => return Err(e),
        };
        Ok(SirinHighGImuError { error: v_error })
    }
}

impl SongRoundTrip for SirinHighGImuError {
    proof fn lemma_song_round_trip(&self, rest: Seq<u8>) {
        self.error.lemma_song_bytes_len();
        let b = self.song_bytes() + rest;
        assert(b =~= self.error.song_bytes() + (rest));
        self.error.lemma_song_round_trip(rest);
    }
}

impl SongSize for SirinAccelError {
    open spec fn song_len(&self) -> nat {
        self.error.song_len()
    }

    fn song_size(&self) -> (n: usize) {
        self.error.song_size()
    }
}

impl ToSong for SirinAccelError {
    open spec fn song_bytes(&self) -> Seq<u8> {
        self.error.song_bytes()
    }

    proof fn lemma_song_bytes_len(&self) {
        self.error.lemma_song_bytes_len();
    }

    fn to_song_at(&self, buf: &mut [u8], pos: usize) -> (r: Result<(), ToSongError>) {
        if buf.len() - pos < self.song_size() {
            return Err(ToSongError::BufferOverflow);
        }
        proof {
            self.error.lemma_song_bytes_len();
        }
        let ghost start = buf@;
        let mut i = pos;
        match self.error.to_song_at(buf, i) {
            Ok(()) => {},
            Err(e) => return Err(e),
        }
        Ok(())
    }
}

impl FromSong for SirinAccelError {
    open spec fn song_parse(bytes: Seq<u8>) -> Result<SirinAccelError, FromSongError> {
        match <SirinErrorVariant as FromSong>::song_parse(bytes) { Err(e) => Err(e), Ok(error) => Ok(SirinAccelError { error }) }
    }

    proof fn lemma_parse_len(bytes: Seq<u8>) {
        <SirinErrorVariant as FromSong>::lemma_parse_len(bytes);
    }

    fn from_song_at(buf: &[u8], pos: usize) -> (r: Result<SirinAccelError, FromSongError>) {
        let ghost b = buf@.skip(pos as int);
        assert(buf@.len() == buf.len());
        let mut i = pos;
        assert(buf@.skip(i as int) =~= b);
        let v_error = match <SirinErrorVariant as FromSong>::from_song_at(buf, i) {
            Ok(v) => v,
            Err(e) => return Err(e),
        };
        Ok(SirinAccelError { error: v_error })
    }
}

impl SongRoundTrip for SirinAccelError {
    proof fn lemma_song_round_trip(&self, rest: Seq<u8>) {
        self.error.lemma_song_bytes_len();
        let b = self.song_bytes() + rest;
        assert(b =~= self.error.song_bytes() + (rest));
        self.error.lemma_song_round_trip(rest);
    }
}

impl SongSize for SirinBaroError {
    open spec fn song_len(&self) -> nat {
        self.error.song_len()
    }

    fn song_size(&self) -> (n: usize) {
        self.error.song_size()
    }
}

impl ToSong for SirinBaroError {
    open spec fn song_bytes(&self) -> Seq<u8> {
        self.error.song_bytes()
    }

    proof fn lemma_song_bytes_len(&self) {
        self.error.lemma_song_bytes_len();
    }

    fn to_song_at(&self, buf: &mut [u8], pos: usize) -> (r: Result<(), ToSongError>) {
        if buf.len() - pos < self.song_size() {
            return Err(ToSongError::BufferOverflow);
        }
        proof {
            self.error.lemma_song_bytes_len();
        }
        let ghost start = buf@;
        let mut i = pos;
        match self.error.to_song_at(buf, i) {
            Ok(()) => {},
            Err(e) => return Err(e),
        }
        Ok(())
    }
}

impl FromSong for SirinBaroError {
    open spec fn song_parse(bytes: Seq<u8>) -> Result<SirinBaroError, FromSongError> {
        match <SirinErrorVariant as FromSong>::song_parse(bytes) { Err(e) => Err(e), Ok(error) => Ok(SirinBaroError { error }) }
    }

    proof fn lemma_parse_len(bytes: Seq<u8>) {
        <SirinErrorVariant as FromSong>::lemma_parse_len(bytes);
    }

    fn from_song_at(buf: &[u8], pos: usize) -> (r: Result<SirinBaroError, FromSongError>) {
        let ghost b = buf@.skip(pos as int);
        assert(buf@.len() == buf.len());
        let mut i = pos;
        assert(buf@.skip(i as int) =~= b);
        let v_error = match <SirinErrorVariant as FromSong>::from_song_at(buf, i) {
            Ok(v) => v,
            Err(e) => return Err(e),
        };
        Ok(SirinBaroError { error: v_error })
    }
}

impl SongRoundTrip for SirinBaroError {
    proof fn lemma_song_round_trip(&self, rest: Seq<u8>) {
        self.error.lemma_song_bytes_len();
        let b = self.song_bytes() + rest;
        assert(b =~= self.error.song_bytes() + (rest));
        self.error.lemma_song_round_trip(rest);
    }
}

impl SongSize for SirinKalmanFilterError {
    open spec fn song_len(&self) -> nat {
        self.error.song_len()
    }

    fn song_size(&self) -> (n: usize) {
        self.error.song_size()
    }
}

impl ToSong for SirinKalmanFilterError {
    open spec fn song_bytes(&self) -> Seq<u8> {
        self.error.song_bytes()
    }

    proof fn lemma_song_bytes_len(&self) {
        self.error.lemma_song_bytes_len();
    }

    fn to_song_at(&self, buf: &mut [u8], pos: usize) -> (r: Result<(), ToSongError>) {
        if buf.len() - pos < self.song_size() {
            return Err(ToSongError::BufferOverflow);
        }
        proof {
            self.error.lemma_song_bytes_len();
        }
        let ghost start = buf@;
        let mut i = pos;
        match self.error.to_song_at(buf, i) {
            Ok(()) => {},
            Err(e) => return Err(e),
        }
        Ok(())
    }
}

impl FromSong for SirinKalmanFilterError {
    open spec fn song_parse(bytes: Seq<u8>) -> Result<SirinKalmanFilterError, FromSongError> {
        match <SirinErrorVariant as FromSong>::song_parse(bytes) { Err(e) => Err(e), Ok(error) => Ok(SirinKalmanFilterError { error }) }
    }

    proof fn lemma_parse_len(bytes: Seq<u8>) {
        <SirinErrorVariant as FromSong>::lemma_parse_len(bytes);
    }

    fn from_song_at(buf: &[u8], pos: usize) -> (r: Result<SirinKalmanFilterError, FromSongError>) {
        let ghost b = buf@.skip(pos as int);
        assert(buf@.len() == buf.len());
        let mut i = pos;
        assert(buf@.skip(i as int) =~= b);
        let v_error = match <SirinErrorVariant as FromSong>::from_song_at(buf, i) {
            Ok(v) => v,
            Err(e) => return Err(e),
        };
        Ok(SirinKalmanFilterError { error: v_error })
    }
}

impl SongRoundTrip for SirinKalmanFilterError {
    proof fn lemma_song_round_trip(&self, rest: Seq<u8>) {
        self.error.lemma_song_bytes_len();
        let b = self.song_bytes() + rest;
        assert(b =~= self.error.song_bytes() + (rest));
        self.error.lemma_song_round_trip(rest);
    }
}

impl TaggedSong for SirinErrorLocation {
    open spec fn tag(&self) -> u8 {
        sirin_error_location_wire_value(*self)
    }

    open spec fn is_tag(b: u8) -> bool {
        b < 8
    }

    proof fn lemma_starts_with_tag(&self) {
    }

    proof fn lemma_refused(bytes: Seq<u8>) {
    }
}

impl TaggedSong for SirinErrorVariantType {
    open spec fn tag(&self) -> u8 {
        sirin_error_variant_type_wire_value(*self)
    }

    open spec fn is_tag(b: u8) -> bool {
        b < 8
    }

    proof fn lemma_starts_with_tag(&self) {
    }

    proof fn lemma_refused(bytes: Seq<u8>) {
    }
}

impl TaggedSong for SirinErrorVariant {
    open spec fn tag(&self) -> u8 {
        sirin_error_variant_type_wire_value(self.discriminant_of())
    }

    open spec fn is_tag(b: u8) -> bool {
        b < 8
    }

    proof fn lemma_starts_with_tag(&self) {
        self.lemma_song_bytes_len();
    }

    proof fn lemma_refused(bytes: Seq<u8>) {
    }
}


/// On the wire a `SirinError` is its fields `location`, `error`, in that order, each in its own encoding with
/// nothing between them; reading those bytes gives the value back, whatever follows them.
pub proof fn lemma_sirin_error_layout(v: SirinError, rest: Seq<u8>)
    ensures
        v.song_bytes() == v.location.song_bytes() + v.error.song_bytes(),
        v.song_len() == v.location.song_len() + v.error.song_len(),
        <SirinError as FromSong>::song_parse(v.location.song_bytes() + v.error.song_bytes() + rest) == Ok::<SirinError, FromSongError>(v),
{
    v.lemma_song_round_trip(rest);
}

/// On the wire a `SirinInitError` is its one field `error` in that field's own encoding, and reading those
/// bytes gives the value back, whatever follows them.
pub proof fn lemma_sirin_init_error_layout(v: SirinInitError, rest: Seq<u8>)
    ensures
        v.song_bytes() == v.error.song_bytes(),
        v.song_len() == v.error.song_len(),
        <SirinInitError as FromSong>::song_parse(v.error.song_bytes() + rest) == Ok::<SirinInitError, FromSongError>(v),
{
    v.lemma_song_round_trip(rest);
}

/// On the wire a `SirinMainError` is its one field `error` in that field's own encoding, and reading those
/// bytes gives the value back, whatever follows them.
pub proof fn lemma_sirin_main_error_layout(v: SirinMainError, rest: Seq<u8>)
    ensures
        v.song_bytes() == v.error.song_bytes(),
        v.song_len() == v.error.song_len(),
        <SirinMainError as FromSong>::song_parse(v.error.song_bytes() + rest) == Ok::<SirinMainError, FromSongError>(v),
{
    v.lemma_song_round_trip(rest);
}

/// On the wire a `SirinRadioError` is its one field `error` in that field's own encoding, and reading those
/// bytes gives the value back, whatever follows them.
pub proof fn lemma_sirin_radio_error_layout(v: SirinRadioError, rest: Seq<u8>)
    ensures
        v.song_bytes() == v.error.song_bytes(),
        v.song_len() == v.error.song_len(),
        <SirinRadioError as FromSong>::song_parse(v.error.song_bytes() + rest) == Ok::<SirinRadioError, FromSongError>(v),
{
    v.lemma_song_round_trip(rest);
}

/// On the wire a `SirinImuError` is its one field `error` in that field's own encoding, and reading those
/// bytes gives the value back, whatever follows them.
pub proof fn lemma_sirin_imu_error_layout(v: SirinImuError, rest: Seq<u8>)
    ensures
        v.song_bytes() == v.error.song_bytes(),
        v.song_len() == v.error.song_len(),
        <SirinImuError as FromSong>::song_parse(v.error.song_bytes() + rest) == Ok::<SirinImuError, FromSongError>(v),
{
    v.lemma_song_round_trip(rest);
}

/// On the wire a `SirinHighGImuError` is its one field `error` in that field's own encoding, and reading those
/// bytes gives the value back, whatever follows them.
pub proof fn lemma_sirin_high_g_imu_error_layout(v: SirinHighGImuError, rest: Seq<u8>)
    ensures
        v.song_bytes() == v.error.song_bytes(),
        v.song_len() == v.error.song_len(),
        <SirinHighGImuError as FromSong>::song_parse(v.error.song_bytes() + rest) == Ok::<SirinHighGImuError, FromSongError>(v),
{
    v.lemma_song_round_trip(rest);
}

/// On the wire a `SirinAccelError` is its one field `error` in that field's own encoding, and reading those
/// bytes gives the value back, whatever follows them.
pub proof fn lemma_sirin_accel_error_layout(v: SirinAccelError, rest: Seq<u8>)
    ensures
        v.song_bytes() == v.error.song_bytes(),
        v.song_len() == v.error.song_len(),
        <SirinAccelError as FromSong>::song_parse(v.error.song_bytes() + rest) == Ok::<SirinAccelError, FromSongError>(v),
{
    v.lemma_song_round_trip(rest);
}

/// On the wire a `SirinBaroError` is its one field `error` in that field's own encoding, and reading those
/// bytes gives the value back, whatever follows them.
pub proof fn lemma_sirin_baro_error_layout(v: SirinBaroError, rest: Seq<u8>)
    ensures
        v.song_bytes() == v.error.song_bytes(),
        v.song_len() == v.error.song_len(),
        <SirinBaroError as FromSong>::song_parse(v.error.song_bytes() + rest) == Ok::<SirinBaroError, FromSongError>(v),
{
    v.lemma_song_round_trip(rest);
}

/// On the wire a `SirinKalmanFilterError` is its one field `error` in that field's own encoding, and reading those
/// bytes gives the value back, whatever follows them.
pub proof fn lemma_sirin_kalman_filter_error_layout(v: SirinKalmanFilterError, rest: Seq<u8>)
    ensures
        v.song_bytes() == v.error.song_bytes(),
        v.song_len() == v.error.song_len(),
        <SirinKalmanFilterError as FromSong>::song_parse(v.error.song_bytes() + rest) == Ok::<SirinKalmanFilterError, FromSongError>(v),
{
    v.lemma_song_round_trip(rest);
}


/// On the wire a `SirinErrorLocation` is one byte: `Init` is 0, `Main` is 1, `Radio` is 2, `Imu` is 3, `HighGImu` is 4, `Accel` is 5, `Baro` is 6, `KalmanFilter` is 7. Reading that byte gives the value
/// back, whatever follows it.
pub proof fn lemma_sirin_error_location_layout(v: SirinErrorLocation, rest: Seq<u8>)
    ensures
        v is Init ==> v.song_bytes() == seq![0u8]
            && <SirinErrorLocation as FromSong>::song_parse(seq![0u8] + rest) == Ok::<SirinErrorLocation, FromSongError>(v),
        v is Main ==> v.song_bytes() == seq![1u8]
            && <SirinErrorLocation as FromSong>::song_parse(seq![1u8] + rest) == Ok::<SirinErrorLocation, FromSongError>(v),
        v is Radio ==> v.song_bytes() == seq![2u8]
            && <SirinErrorLocation as FromSong>::song_parse(seq![2u8] + rest) == Ok::<SirinErrorLocation, FromSongError>(v),
        v is Imu ==> v.song_bytes() == seq![3u8]
            && <SirinErrorLocation as FromSong>::song_parse(seq![3u8] + rest) == Ok::<SirinErrorLocation, FromSongError>(v),
        v is HighGImu ==> v.song_bytes() == seq![4u8]
            && <SirinErrorLocation as FromSong>::song_parse(seq![4u8] + rest) == Ok::<SirinErrorLocation, FromSongError>(v),
        v is Accel ==> v.song_bytes() == seq![5u8]
            && <SirinErrorLocation as FromSong>::song_parse(seq![5u8] + rest) == Ok::<SirinErrorLocation, FromSongError>(v),
        v is Baro ==> v.song_bytes() == seq![6u8]
            && <SirinErrorLocation as FromSong>::song_parse(seq![6u8] + rest) == Ok::<SirinErrorLocation, FromSongError>(v),
        v is KalmanFilter ==> v.song_bytes() == seq![7u8]
            && <SirinErrorLocation as FromSong>::song_parse(seq![7u8] + rest) == Ok::<SirinErrorLocation, FromSongError>(v),
{
    v.lemma_song_round_trip(rest);
}

/// On the wire a `SirinErrorVariantType` is one byte: `SanityCheckFailed` is 0, `SpiError` is 1, `NotYetMeasured` is 2, `FlightNotFound` is 3, `ToSongError` is 4, `FromSongError` is 5, `CorruptedData` is 6, `Unspecified` is 7. Reading that byte gives the value
/// back, whatever follows it.
pub proof fn lemma_sirin_error_variant_type_layout(v: SirinErrorVariantType, rest: Seq<u8>)
    ensures
        v is SanityCheckFailed ==> v.song_bytes() == seq![0u8]
            && <SirinErrorVariantType as FromSong>::song_parse(seq![0u8] + rest) == Ok::<SirinErrorVariantType, FromSongError>(v),
        v is SpiError ==> v.song_bytes() == seq![1u8]
            && <SirinErrorVariantType as FromSong>::song_parse(seq![1u8] + rest) == Ok::<SirinErrorVariantType, FromSongError>(v),
        v is NotYetMeasured ==> v.song_bytes() == seq![2u8]
            && <SirinErrorVariantType as FromSong>::song_parse(seq![2u8] + rest) == Ok::<SirinErrorVariantType, FromSongError>(v),
        v is FlightNotFound ==> v.song_bytes() == seq![3u8]
            && <SirinErrorVariantType as FromSong>::song_parse(seq![3u8] + rest) == Ok::<SirinErrorVariantType, FromSongError>(v),
        v is ToSongError ==> v.song_bytes() == seq![4u8]
            && <SirinErrorVariantType as FromSong>::song_parse(seq![4u8] + rest) == Ok::<SirinErrorVariantType, FromSongError>(v),
        v is FromSongError ==> v.song_bytes() == seq![5u8]
            && <SirinErrorVariantType as FromSong>::song_parse(seq![5u8] + rest) == Ok::<SirinErrorVariantType, FromSongError>(v),
        v is CorruptedData ==> v.song_bytes() == seq![6u8]
            && <SirinErrorVariantType as FromSong>::song_parse(seq![6u8] + rest) == Ok::<SirinErrorVariantType, FromSongError>(v),
        v is Unspecified ==> v.song_bytes() == seq![7u8]
            && <SirinErrorVariantType as FromSong>::song_parse(seq![7u8] + rest) == Ok::<SirinErrorVariantType, FromSongError>(v),
{
    v.lemma_song_round_trip(rest);
}

/// On the wire a `SirinErrorVariant` is its variant's tag byte, the variants numbered from zero in declaration
/// order, then the variant's fields in order, each in its own encoding. Reading those bytes gives
/// the value back, whatever follows them.
pub proof fn lemma_sirin_error_variant_layout(v: SirinErrorVariant, rest: Seq<u8>)
    ensures
        v is SanityCheckFailed ==> v.song_bytes() == seq![0u8]
            && <SirinErrorVariant as FromSong>::song_parse(seq![0u8] + rest) == Ok::<SirinErrorVariant, FromSongError>(v),
        v is SpiError ==> v.song_bytes() == seq![1u8]
            && <SirinErrorVariant as FromSong>::song_parse(seq![1u8] + rest) == Ok::<SirinErrorVariant, FromSongError>(v),
        v is NotYetMeasured ==> v.song_bytes() == seq![2u8]
            && <SirinErrorVariant as FromSong>::song_parse(seq![2u8] + rest) == Ok::<SirinErrorVariant, FromSongError>(v),
        v matches SirinErrorVariant::FlightNotFound(t0) ==> v.song_bytes() == seq![3u8] + t0.song_bytes()
            && <SirinErrorVariant as FromSong>::song_parse(seq![3u8] + t0.song_bytes() + rest) == Ok::<SirinErrorVariant, FromSongError>(v),
        v matches SirinErrorVariant::ToSongError(t0) ==> v.song_bytes() == seq![4u8] + t0.song_bytes()
            && <SirinErrorVariant as FromSong>::song_parse(seq![4u8] + t0.song_bytes() + rest) == Ok::<SirinErrorVariant, FromSongError>(v),
        v matches SirinErrorVariant::FromSongError(t0) ==> v.song_bytes() == seq![5u8] + t0.song_bytes()
            && <SirinErrorVariant as FromSong>::song_parse(seq![5u8] + t0.song_bytes() + rest) == Ok::<SirinErrorVariant, FromSongError>(v),
        v is CorruptedData ==> v.song_bytes() == seq![6u8]
            && <SirinErrorVariant as FromSong>::song_parse(seq![6u8] + rest) == Ok::<SirinErrorVariant, FromSongError>(v),
        v is Unspecified ==> v.song_bytes() == seq![7u8]
            && <SirinErrorVariant as FromSong>::song_parse(seq![7u8] + rest) == Ok::<SirinErrorVariant, FromSongError>(v),
{
    v.lemma_song_round_trip(rest);
}

} // verus!
