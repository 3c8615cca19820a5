use embedded_hal::spi::ErrorKind;
use sirin::byte_str::{ByteArrayStr, ByteArrayStrError};
use sirin::error::{
    SirinBaroError, SirinError, SirinErrorLocation, SirinErrorVariant, SirinRadioError,
};
use sirin::lis3mdl::{
    decode_register, magnetic_from_registers, read_command, setup_writes, temp_from_registers,
    write_command, CTRL_REG1, CTRL_REG3, CTRL_REG4, OUT_X_L, WHO_AM_I,
};
use sirin::payload::{PiezoSensor, StandbyTrigger};
use sirin::song::{FromSong, FromSongError, ToSong, ToSongError};

#[test]
fn spi_command_bytes() {
    assert_eq!(read_command(WHO_AM_I), 0xCF);
    assert_eq!(read_command(OUT_X_L), 0xE8);
    assert_eq!(write_command(CTRL_REG1), 0x20);
    assert_eq!(write_command(0xFF), 0x3F);
}

#[test]
fn setup_register_values() {
    assert_eq!(
        setup_writes(),
        [(CTRL_REG1, 0b1101_0000), (CTRL_REG3, 0x00), (CTRL_REG4, 0b0000_1000)]
    );
}

#[test]
fn registers_are_twos_complement_little_endian() {
    assert_eq!(decode_register(0x34, 0x12), 0x1234);
    assert_eq!(decode_register(0xFF, 0xFF), -1);
    assert_eq!(decode_register(0x00, 0x80), i16::MIN);
    assert_eq!(temp_from_registers(0x10, 0x00), 16);
}

#[test]
fn y_axis_is_flipped() {
    assert_eq!(magnetic_from_registers(0x01, 0x00, 0x02, 0x00, 0xFD, 0xFF), (1, -2, -3));
    assert_eq!(magnetic_from_registers(0x00, 0x80, 0xFF, 0x7F, 0x00, 0x00), (i16::MIN, -i16::MAX, 0));
    // The most negative reading has no negation in an i16; it wraps to itself.
    assert_eq!(magnetic_from_registers(0x00, 0x00, 0x00, 0x80, 0x00, 0x00), (0, i16::MIN, 0));
}

#[test]
fn payload_starts_after_ten_readings_in_a_row() {
    let mut trigger = StandbyTrigger::new();
    for _ in 0..9 {
        assert!(!trigger.observe(true));
    }
    assert!(!trigger.observe(false));
    for _ in 0..9 {
        assert!(!trigger.observe(true));
    }
    assert!(trigger.observe(true));
    assert!(trigger.observe(true));
    assert!(!trigger.observe(false));
}

#[test]
fn piezo_init_changes_nothing() {
    let mut sensor = PiezoSensor;
    sensor.init();
    assert_eq!(sensor, PiezoSensor);
}

#[test]
fn byte_strings_stop_at_null_or_non_ascii() {
    let buf: [u8; 8] = ByteArrayStr::from_str("abc").unwrap();
    assert_eq!(buf, [b'a', b'b', b'c', 0, 0, 0, 0, 0]);
    assert_eq!(buf.as_str(), "abc");
    assert_eq!(buf.null_terminate(), b"abc");

    let full: [u8; 3] = ByteArrayStr::from_str("xyz").unwrap();
    assert_eq!(full.as_str(), "xyz");
    assert_eq!(full.null_terminate(), b"xyz");

    let odd = [b'h', b'i', 0xC3, b'!', 0];
    assert_eq!(odd.as_str(), "hi");
    assert_eq!(odd.null_terminate(), &[b'h', b'i', 0xC3, b'!']);

    let empty = [0u8; 4];
    assert_eq!(empty.as_str(), "");
    assert_eq!(empty.null_terminate(), b"");
}

#[test]
fn byte_string_too_long() {
    let r: Result<[u8; 2], ByteArrayStrError> = ByteArrayStr::from_str("abc");
    assert_eq!(r, Err(ByteArrayStrError::TooLong));
}

#[test]
fn errors_convert_into_variants() {
    assert_eq!(SirinErrorVariant::from(ErrorKind::Overrun), SirinErrorVariant::SpiError);
    assert_eq!(SirinErrorVariant::from(12u16), SirinErrorVariant::FlightNotFound(12));
    assert_eq!(
        SirinErrorVariant::from(ToSongError::BufferOverflow),
        SirinErrorVariant::ToSongError(ToSongError::BufferOverflow)
    );
    assert_eq!(
        SirinErrorVariant::from(FromSongError::Utf8Error),
        SirinErrorVariant::FromSongError(FromSongError::Utf8Error)
    );
    let e = SirinError::new(SirinErrorLocation::Radio, SirinErrorVariant::CorruptedData);
    assert_eq!(e.location, SirinErrorLocation::Radio);
    assert_eq!(e.error, SirinErrorVariant::CorruptedData);
}

#[test]
fn error_locations_on_the_wire() {
    assert_eq!(SirinErrorLocation::KalmanFilter.wire_value(), 7);
    let mut buf = [0u8; 1];
    SirinErrorLocation::Baro.to_song(&mut buf).unwrap();
    assert_eq!(buf, [6]);
    assert_eq!(SirinErrorLocation::from_song(&[2]), Ok(SirinErrorLocation::Radio));
    assert_eq!(SirinErrorLocation::from_song(&[8]), Err(FromSongError::InvalidPacketId));
}

#[test]
fn a_stored_name_reads_back_unchanged() {
    for name in ["", "Sirin", "KD9XYZ", "exactly8"] {
        let buf: [u8; 8] = ByteArrayStr::from_str(name).unwrap();
        assert_eq!(buf.as_str(), name);
        assert_eq!(buf.null_terminate(), name.as_bytes());
    }
}

#[test]
fn part_errors_carry_their_location() {
    let radio = SirinRadioError::from(ErrorKind::ModeFault);
    assert_eq!(radio.error, SirinErrorVariant::SpiError);
    assert_eq!(SirinErrorLocation::from(radio.clone()), SirinErrorLocation::Radio);
    let e = SirinError::from(radio);
    assert_eq!(e.location, SirinErrorLocation::Radio);
    assert_eq!(e.error, SirinErrorVariant::SpiError);

    let baro = SirinBaroError::from(FromSongError::InvalidValue);
    assert_eq!(
        SirinError::from(baro),
        SirinError::new(
            SirinErrorLocation::Baro,
            SirinErrorVariant::FromSongError(FromSongError::InvalidValue)
        )
    );
    assert_eq!(SirinBaroError::from(4u16).error, SirinErrorVariant::FlightNotFound(4));
}

#[test]
fn errors_on_the_wire() {
    let e = SirinError::new(SirinErrorLocation::Radio, SirinErrorVariant::FlightNotFound(0x0102));
    let mut buf = [0u8; 4];
    e.to_song(&mut buf).unwrap();
    assert_eq!(buf, [2, 3, 0x02, 0x01]);
    assert_eq!(SirinError::from_song(&buf), Ok(e));

    let e = SirinError::new(
        SirinErrorLocation::KalmanFilter,
        SirinErrorVariant::ToSongError(ToSongError::StringTooLong),
    );
    let mut buf = [0u8; 3];
    e.to_song(&mut buf).unwrap();
    assert_eq!(buf, [7, 4, 2]);
    assert_eq!(SirinError::from_song(&buf), Ok(e));

    let radio = SirinRadioError::from(ErrorKind::Other);
    let mut buf = [0u8; 1];
    radio.to_song(&mut buf).unwrap();
    assert_eq!(buf, [1]);
    assert_eq!(SirinRadioError::from_song(&buf), Ok(radio));

    assert_eq!(SirinErrorVariant::from_song(&[8]), Err(FromSongError::InvalidPacketId));
    assert_eq!(
        SirinErrorVariant::from_song(&[5, 9]),
        Err(FromSongError::InvalidValue)
    );
}
