use sirin::config::SirinConfig;
use sirin::mode::SirinMode;
use sirin::packet::{
    FlightHeader, FlightHeaderStatus, GpsFix, GpsFixType, InPacket, InPacketType, IoChannel,
    IoPacket, Log, LogEntry, OutPacket, OutPacketType, Page, PacketError, RadioPacket, SirinState,
    MAX_OUT_PACKET_SIZE,
};
use sirin::song::magic::MagicU8;
use sirin::song::{ConstSongSize, FromSong, FromSongError, SongSize, ToSong, ToSongError};
use sirin::time::AbsoluteTimeReference;

#[test]
fn default_config_is_named_sirin() {
    let config = SirinConfig::default();
    assert_eq!(&config.nickname[..5], b"Sirin");
    assert!(config.nickname[5..].iter().all(|b| *b == 0));
    assert_eq!(config.callsign, [0u8; 8]);
    assert_eq!(config.id, 0);
}

#[test]
fn config_round_trip() {
    let mut config = SirinConfig::default();
    config.id = 0x0BEE;
    config.callsign[..4].copy_from_slice(b"KD9X");
    assert_eq!(config.song_size(), 42);
    let mut buf = [0u8; 42];
    config.to_song(&mut buf).unwrap();
    assert_eq!(&buf[..5], b"Sirin");
    assert_eq!(&buf[32..36], b"KD9X");
    assert_eq!(&buf[40..], &[0xEE, 0x0B]);
    assert_eq!(SirinConfig::from_song(&buf), Ok(config));
    assert_eq!(SirinConfig::from_song(&buf[..41]), Err(FromSongError::BufferOverflow));
}

#[test]
fn in_packets_start_with_their_type() {
    let mut buf = [0u8; 64];
    InPacket::ReadFlight(0x0201).to_song(&mut buf).unwrap();
    assert_eq!(&buf[..3], &[9, 0x01, 0x02]);
    assert_eq!(InPacketType::ReadFlight.wire_value(), 9);
    assert!(matches!(InPacket::from_song(&buf), Ok(InPacket::ReadFlight(0x0201))));

    InPacket::Tail(true).to_song(&mut buf).unwrap();
    assert_eq!(&buf[..2], &[10, 1]);
    assert!(matches!(InPacket::from_song(&buf), Ok(InPacket::Tail(true))));

    InPacket::SetMode(SirinMode::Descent).to_song(&mut buf).unwrap();
    assert_eq!(&buf[..2], &[7, 3]);
    assert!(matches!(InPacket::from_song(&buf), Ok(InPacket::SetMode(SirinMode::Descent))));

    InPacket::SetTime(AbsoluteTimeReference { ms_since_epoch: 5 }).to_song(&mut buf).unwrap();
    assert_eq!(&buf[..9], &[2, 5, 0, 0, 0, 0, 0, 0, 0]);

    assert_eq!(InPacket::Ping.song_size(), 1);
    assert!(matches!(InPacket::from_song(&[1]), Ok(InPacket::Ping)));
    assert!(matches!(InPacket::from_song(&[13]), Ok(InPacket::DeployApo)));
}

#[test]
fn erase_flash_needs_the_magic_byte() {
    let mut buf = [0u8; 2];
    InPacket::EraseFlash(MagicU8).to_song(&mut buf).unwrap();
    assert_eq!(buf, [11, 0xA8]);
    assert!(matches!(InPacket::from_song(&buf), Ok(InPacket::EraseFlash(_))));
    assert!(matches!(InPacket::from_song(&[11, 0x00]), Err(FromSongError::InvalidValue)));
}

#[test]
fn unknown_packet_types_are_rejected() {
    assert!(matches!(InPacket::from_song(&[14]), Err(FromSongError::InvalidPacketId)));
    assert!(matches!(InPacket::from_song(&[0xFF]), Err(FromSongError::InvalidPacketId)));
    assert!(matches!(InPacket::from_song(&[]), Err(FromSongError::BufferOverflow)));
    assert!(matches!(OutPacket::from_song(&[11]), Err(FromSongError::InvalidPacketId)));
    assert!(matches!(InPacket::from_song(&[9, 1]), Err(FromSongError::BufferOverflow)));
}

#[test]
fn out_packets_start_with_their_type() {
    let mut buf = [0u8; MAX_OUT_PACKET_SIZE];
    OutPacket::Okay.to_song(&mut buf).unwrap();
    assert_eq!(buf[0], 1);
    assert_eq!(OutPacketType::Okay.wire_value(), 1);

    OutPacket::DeployedMainAt(0x01020304).to_song(&mut buf).unwrap();
    assert_eq!(&buf[..5], &[10, 4, 3, 2, 1]);
    assert!(matches!(OutPacket::from_song(&buf), Ok(OutPacket::DeployedMainAt(0x01020304))));

    OutPacket::Mode(SirinMode::Landed).to_song(&mut buf).unwrap();
    assert_eq!(&buf[..2], &[4, 2]);

    OutPacket::Error(PacketError::FlightNotFound(3)).to_song(&mut buf).unwrap();
    assert_eq!(&buf[..4], &[2, 1, 3, 0]);
    assert!(matches!(
        OutPacket::from_song(&buf),
        Ok(OutPacket::Error(PacketError::FlightNotFound(3)))
    ));

    OutPacket::Error(PacketError::PacketNotSupportedOverChannel(IoChannel::ToLoRa, InPacketType::Reboot))
        .to_song(&mut buf)
        .unwrap();
    assert_eq!(&buf[..4], &[2, 0, 2, 3]);
}

#[test]
fn out_packet_that_does_not_fit_is_refused() {
    let mut buf = [0u8; 4];
    assert_eq!(OutPacket::DeployedApoAt(1).to_song(&mut buf), Err(ToSongError::BufferOverflow));
    let mut buf = [0u8; 5];
    assert_eq!(OutPacket::DeployedApoAt(1).to_song(&mut buf), Ok(()));
    assert_eq!(buf, [9, 1, 0, 0, 0]);
}

#[test]
fn state_packet_round_trip() {
    let mut state = SirinState::default();
    state.mode = SirinMode::Flight;
    state.altitude = 1234.5f64.to_bits();
    state.apogee = Some(2000.0f64.to_bits());
    state.gps.fix_type = GpsFixType::Fix3d;
    state.gps.satellites = 9;
    let packet = OutPacket::State(state);
    let mut buf = [0u8; MAX_OUT_PACKET_SIZE];
    packet.to_song(&mut buf).unwrap();
    assert_eq!(buf[0], 8);
    assert_eq!(buf[1], 1);
    match OutPacket::from_song(&buf) {
        Ok(OutPacket::State(back)) => {
            assert_eq!(back.mode, SirinMode::Flight);
            assert_eq!(f64::from_bits(back.altitude), 1234.5);
            assert_eq!(back.apogee.map(f64::from_bits), Some(2000.0));
            assert_eq!(back.gps.fix_type, GpsFixType::Fix3d);
            assert_eq!(back.gps.satellites, 9);
        }
        other => panic!("unexpected {:?}", other),
    }
}

#[test]
fn gps_fix_has_a_fixed_size() {
    let fix = GpsFix::default();
    assert_eq!(fix.song_size(), 45);
    assert_eq!(SirinState::default().song_size(), 55);
    assert_eq!(GpsFixType::TimeOnlyFix.wire_value(), 5);
}

#[test]
fn log_entry_round_trip() {
    let entry = LogEntry::new(77, Log::BarometricAltitude(10.0f64.to_bits()));
    assert_eq!(entry.song_size(), 4 + 1 + 8);
    let mut buf = [0u8; 13];
    entry.to_song(&mut buf).unwrap();
    assert_eq!(&buf[..5], &[77, 0, 0, 0, 2]);
    match LogEntry::from_song(&buf) {
        Ok(LogEntry { time: 77, log: Log::BarometricAltitude(bits) }) => {
            assert_eq!(f64::from_bits(bits), 10.0)
        }
        other => panic!("unexpected {:?}", other),
    }
}

#[test]
fn flight_header_keeps_the_low_address_bytes() {
    let header = FlightHeader::new(0xAB12_3456, None, 99);
    assert_eq!(header.data_addr(), 0x12_3456);
    assert_eq!(header.status, FlightHeaderStatus::Valid);
    assert_eq!(header.song_size(), 21);
    let mut buf = [0u8; 21];
    header.to_song(&mut buf).unwrap();
    assert_eq!(&buf[..4], &[0x01, 0x56, 0x34, 0x12]);
    assert!(buf[4..13].iter().all(|b| *b == 0xFF));
    assert_eq!(&buf[13..], &[99, 0, 0, 0, 0, 0, 0, 0]);
    let back = FlightHeader::from_song(&buf).unwrap();
    assert_eq!(back.data_addr(), 0x12_3456);
    assert_eq!(back.timestamp, 99);
    assert!(back.time_reference.0.is_none());
}

#[test]
fn flight_header_status_bytes() {
    assert_eq!(FlightHeaderStatus::Null.wire_value(), 0xFF);
    assert_eq!(FlightHeaderStatus::Valid.wire_value(), 0x01);
    assert_eq!(FlightHeaderStatus::Overwritten.wire_value(), 0x00);
    assert_eq!(FlightHeaderStatus::from_song(&[0x00]), Ok(FlightHeaderStatus::Overwritten));
    assert_eq!(FlightHeaderStatus::from_song(&[0xFF]), Ok(FlightHeaderStatus::Null));
    assert_eq!(FlightHeaderStatus::from_song(&[0x02]), Err(FromSongError::InvalidPacketId));
}

#[test]
fn flight_header_page_round_trip() {
    let header = FlightHeader::new(
        0x00_0100,
        Some(AbsoluteTimeReference { ms_since_epoch: 1_700_000_000_000 }),
        5,
    );
    let packet = OutPacket::FlightHeader(Page::new(4, header));
    let mut buf = [0u8; MAX_OUT_PACKET_SIZE];
    packet.to_song(&mut buf).unwrap();
    assert_eq!(&buf[..3], &[7, 4, 0]);
    match OutPacket::from_song(&buf) {
        Ok(OutPacket::FlightHeader(page)) => {
            assert_eq!(page.index, 4);
            assert_eq!(page.data.data_addr(), 0x100);
            assert_eq!(
                page.data.time_reference.0,
                Some(AbsoluteTimeReference { ms_since_epoch: 1_700_000_000_000 })
            );
        }
        other => panic!("unexpected {:?}", other),
    }
}

#[test]
fn replies_go_back_on_the_same_channel() {
    let request = IoPacket::new(IoChannel::FromLoRa, InPacket::Ping);
    let reply = request.reply(OutPacket::Okay);
    assert_eq!(reply.channel, IoChannel::FromLoRa);
    assert!(matches!(reply.packet, OutPacket::Okay));
}

#[test]
fn radio_packets_carry_the_sender() {
    let mut config = SirinConfig::default();
    config.id = 7;
    config.callsign[0] = b'W';
    let packet = RadioPacket::new(&config, OutPacket::Null);
    assert_eq!(packet.id, 7);
    assert_eq!(packet.callsign, config.callsign);
    assert_eq!(packet.song_size(), 2 + 8 + 1);
    let mut buf = [0u8; 11];
    packet.to_song(&mut buf).unwrap();
    assert_eq!(&buf[..3], &[7, 0, b'W']);
    assert_eq!(buf[10], 0);
}

#[test]
fn zeroing_the_status_byte_marks_a_header_overwritten() {
    let header = FlightHeader::new(
        0x00_4000,
        Some(AbsoluteTimeReference { ms_since_epoch: 42 }),
        1234,
    );
    let mut buf = [0u8; 21];
    header.to_song(&mut buf).unwrap();
    assert_eq!(buf[0], 0x01);
    buf[0] = 0;
    let back = FlightHeader::from_song(&buf).unwrap();
    assert_eq!(back.status, FlightHeaderStatus::Overwritten);
    assert_eq!(back.data_addr(), 0x4000);
    assert_eq!(back.timestamp, 1234);
    assert_eq!(back.time_reference.0, Some(AbsoluteTimeReference { ms_since_epoch: 42 }));
}

#[test]
fn fixed_sizes_of_records() {
    assert_eq!(<FlightHeader as ConstSongSize>::const_song_size(), 21);
    assert_eq!(<SirinConfig as ConstSongSize>::const_song_size(), 42);
    assert_eq!(<GpsFix as ConstSongSize>::const_song_size(), 45);
    assert_eq!(<sirin::packet::Vec3<u64> as ConstSongSize>::const_song_size(), 24);
    assert!(<sirin::packet::Vec3<u32> as ConstSongSize>::const_song_fits(12));
    assert!(!<sirin::packet::Vec3<u32> as ConstSongSize>::const_song_fits(11));
    assert_eq!(<sirin::packet::FlashPageDump as ConstSongSize>::const_song_size(), 260);
}

#[test]
fn a_tagged_write_that_does_not_fit_still_writes_its_tag() {
    let mut buf = [0xAAu8; 3];
    assert_eq!(OutPacket::DeployedApoAt(1).to_song(&mut buf), Err(ToSongError::BufferOverflow));
    assert_eq!(buf[0], 9);
}
