use sirin::mode::SirinMode;
use sirin::song::{FromSong, FromSongError, SongSize, ToSong};

const ALL: [SirinMode; 4] = [SirinMode::Standby, SirinMode::Flight, SirinMode::Descent, SirinMode::Landed];

/// The discriminants are part of the flash and wire formats. If this test fails, logged
/// flights and the CLI will decode the wrong mode.
#[test]
fn discriminants_are_stable() {
    assert_eq!(SirinMode::Standby as u8, 0);
    assert_eq!(SirinMode::Flight as u8, 1);
    assert_eq!(SirinMode::Landed as u8, 2);
    assert_eq!(SirinMode::Descent as u8, 3);
}

#[test]
fn song_round_trip() {
    for mode in ALL {
        let mut buf = [0xFFu8; 1];
        assert_eq!(mode.song_size(), 1);
        mode.to_song(&mut buf).unwrap();
        assert_eq!(buf[0], mode as u8);
        assert_eq!(SirinMode::from_song(&buf).unwrap(), mode);
    }

    assert_eq!(SirinMode::from_song(&[4]), Err(FromSongError::InvalidPacketId));
    assert_eq!(SirinMode::from_song(&[]), Err(FromSongError::BufferOverflow));
}

#[test]
fn airborne_modes() {
    assert!(!SirinMode::Standby.is_airborne());
    assert!(SirinMode::Flight.is_airborne());
    assert!(SirinMode::Descent.is_airborne());
    assert!(!SirinMode::Landed.is_airborne());
}

#[test]
fn wire_values_match_discriminants() {
    for mode in ALL {
        assert_eq!(mode.wire_value(), mode as u8);
    }
}
