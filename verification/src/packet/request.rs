//! Requests from the ground, and the errors that answer them.

use vstd::prelude::*;
use crate::song::{
    lemma_write_after, write_tagged, ConstSongSize, ConstSongSizeValue, FromSong, FromSongError,
    HasSongSize, SongDiscriminant, SongRoundTrip, SongSize, TaggedSong, ToSong, ToSongError,
};
use crate::config::SirinConfig;
use crate::mode::SirinMode;
use crate::song::magic::MagicU8;
use crate::time::AbsoluteTimeReference;
use super::IoChannel;

verus! {

/// Why a request could not be served.
#[derive(Debug, Clone, PartialEq, Eq)]
pub enum PacketError {
    /// The packet type (second) is not supported over the channel (first).
    PacketNotSupportedOverChannel(IoChannel, InPacketType),
    /// The flight with this number could not be found.
    FlightNotFound(u16),
}

/// A raw page of flash and its address.
#[derive(Debug, Clone)]
pub struct FlashPageDump {
    addr: u32,
    data: [u8; 256],
}

/// Requests sent from the ground to the flight computer.
#[derive(Debug, Clone)]
pub enum InPacket {
    Null,
    Ping,
    SetTime(AbsoluteTimeReference),
    Reboot,
    QueryConfig,
    SetConfig(SirinConfig),
    QueryMode,
    SetMode(SirinMode),
    QueryFlights,
    ReadFlight(u16),
    Tail(bool),
    EraseFlash(MagicU8<0xA8>),
    DeployMain,
    DeployApo,
}


/// The tag that starts each kind of [`PacketError`].
#[derive(Clone, Copy, PartialEq, Eq, Debug, Structural)]
pub enum PacketErrorType {
    PacketNotSupportedOverChannel,
    FlightNotFound,
}

/// The byte that stands for each value of `PacketErrorType` on the wire.
pub open spec fn packet_error_type_wire_value(value: PacketErrorType) -> u8 {
    match value {
        PacketErrorType::PacketNotSupportedOverChannel => 0,
        PacketErrorType::FlightNotFound => 1,
    }
}

impl PacketErrorType {
    /// The byte that stands for this value on the wire.
    pub fn wire_value(self) -> (value: u8)
        ensures
            value == packet_error_type_wire_value(self),
    {
        match self {
            PacketErrorType::PacketNotSupportedOverChannel => 0,
            PacketErrorType::FlightNotFound => 1,
        }
    }
}

impl HasSongSize for PacketErrorType {
    type Size = ConstSongSizeValue<1>;
}

impl SongSize for PacketErrorType {
    open spec fn song_len(&self) -> nat {
        1
    }

    fn song_size(&self) -> (n: usize) {
        1
    }
}

impl ConstSongSize for PacketErrorType {
    open spec fn const_song_len() -> nat {
        1
    }

    fn const_song_size() -> (n: usize) {
        1
    }

    fn const_song_fits(len: usize) -> (b: bool) {
        1 <= len
    }

    proof fn lemma_const_song_len(v: &Self) {
    }

    proof fn lemma_const_song_len_of_type() {
    }
}

impl ToSong for PacketErrorType {
    open spec fn song_bytes(&self) -> Seq<u8> {
        seq![packet_error_type_wire_value(*self)]
    }

    proof fn lemma_song_bytes_len(&self) {
    }

    fn to_song_at(&self, buf: &mut [u8], pos: usize) -> (r: Result<(), ToSongError>) {
        let value = self.wire_value();
        assert(value.song_bytes() == self.song_bytes());
        value.to_song_at(buf, pos)
    }
}

impl FromSong for PacketErrorType {
    open spec fn song_parse(bytes: Seq<u8>) -> Result<PacketErrorType, FromSongError> {
        if bytes.len() < 1 {
            Err(FromSongError::BufferOverflow)
        } else if bytes[0] == 0 {
            Ok(PacketErrorType::PacketNotSupportedOverChannel)
        } else if bytes[0] == 1 {
            Ok(PacketErrorType::FlightNotFound)
        } else {
            Err(FromSongError::InvalidPacketId)
        }
    }

    proof fn lemma_parse_len(bytes: Seq<u8>) {
    }

    fn from_song_at(buf: &[u8], pos: usize) -> (r: Result<PacketErrorType, FromSongError>) {
        if buf.len() - pos < 1 {
            return Err(FromSongError::BufferOverflow);
        }
        let ghost s = buf@.skip(pos as int);
        assert(s[0] == buf@[pos as int]);
        match buf[pos] {
            0 => Ok(PacketErrorType::PacketNotSupportedOverChannel),
            1 => Ok(PacketErrorType::FlightNotFound),
            _ => Err(FromSongError::InvalidPacketId),
        }
    }
}

impl SongRoundTrip for PacketErrorType {
    proof fn lemma_song_round_trip(&self, rest: Seq<u8>) {
        assert((self.song_bytes() + rest)[0] == packet_error_type_wire_value(*self));
    }
}

impl SongDiscriminant for PacketError {
    type Discriminant = PacketErrorType;

    open spec fn discriminant_of(&self) -> PacketErrorType {
        match self {
            PacketError::PacketNotSupportedOverChannel(..) => PacketErrorType::PacketNotSupportedOverChannel,
            PacketError::FlightNotFound(..) => PacketErrorType::FlightNotFound,
        }
    }

    fn song_discriminant(&self) -> (d: PacketErrorType) {
        match self {
            PacketError::PacketNotSupportedOverChannel(..) => PacketErrorType::PacketNotSupportedOverChannel,
            PacketError::FlightNotFound(..) => PacketErrorType::FlightNotFound,
        }
    }
}

impl SongSize for PacketError {
    open spec fn song_len(&self) -> nat {
        match self {
            PacketError::PacketNotSupportedOverChannel(t0, t1) => 1 + t0.song_len() + t1.song_len(),
            PacketError::FlightNotFound(t0) => 1 + t0.song_len(),
        }
    }

    fn song_size(&self) -> (n: usize) {
        match self {
            PacketError::PacketNotSupportedOverChannel(t0, t1) => 1 + t0.song_size() + t1.song_size(),
            PacketError::FlightNotFound(t0) => 1 + t0.song_size(),
        }
    }
}

impl ToSong for PacketError {
    open spec fn song_bytes(&self) -> Seq<u8> {
        match self {
            PacketError::PacketNotSupportedOverChannel(t0, t1) => seq![0u8] + t0.song_bytes() + t1.song_bytes(),
            PacketError::FlightNotFound(t0) => seq![1u8] + t0.song_bytes(),
        }
    }

    proof fn lemma_song_bytes_len(&self) {
        match self {
            PacketError::PacketNotSupportedOverChannel(t0, t1) => { t0.lemma_song_bytes_len(); t1.lemma_song_bytes_len(); },
            PacketError::FlightNotFound(t0) => { t0.lemma_song_bytes_len(); },
        }
    }

    #[verifier::spinoff_prover]
    #[verifier::rlimit(100)]
    fn to_song_at(&self, buf: &mut [u8], pos: usize) -> (r: Result<(), ToSongError>) {
        match self {
            PacketError::PacketNotSupportedOverChannel(t0, t1) => {
                proof {
                    t0.lemma_song_bytes_len(); t1.lemma_song_bytes_len();
                }
                let ghost start = buf@;
                let mut i = pos;
                match PacketErrorType::PacketNotSupportedOverChannel.to_song_at(buf, i) {
                    Ok(()) => {},
                    Err(e) => return Err(e),
                }
                assert(i + 1 <= buf.len());
                i = i + 1;
                let ghost before = buf@;
                match t0.to_song_at(buf, i) {
                    Ok(()) => {},
                    Err(e) => return Err(e),
                }
                proof {
                    lemma_write_after(start, before, buf@, pos as int, seq![0u8], t0.song_bytes());
                }
                assert(i + t0.song_len() <= buf.len());
                i = i + t0.song_size();
                let ghost before = buf@;
                match t1.to_song_at(buf, i) {
                    Ok(()) => {},
                    Err(e) => return Err(e),
                }
                proof {
                    lemma_write_after(start, before, buf@, pos as int, seq![0u8] + t0.song_bytes(), t1.song_bytes());
                }
            },
            PacketError::FlightNotFound(t0) => {
                proof {
                    t0.lemma_song_bytes_len();
                }
                let ghost start = buf@;
                let mut i = pos;
                match PacketErrorType::FlightNotFound.to_song_at(buf, i) {
                    Ok(()) => {},
                    Err(e) => return Err(e),
                }
                assert(i + 1 <= buf.len());
                i = i + 1;
                let ghost before = buf@;
                match t0.to_song_at(buf, i) {
                    Ok(()) => {},
                    Err(e) => return Err(e),
                }
                proof {
                    lemma_write_after(start, before, buf@, pos as int, seq![1u8], t0.song_bytes());
                }
            },
        }
        Ok(())
    }
}

impl FromSong for PacketError {
    open spec fn song_parse(bytes: Seq<u8>) -> Result<PacketError, FromSongError> {
        if bytes.len() < 1 {
            Err(FromSongError::BufferOverflow)
        } else if bytes[0] == 0 {
            match <IoChannel as FromSong>::song_parse(bytes.skip((1) as int)) { Err(e) => Err(e), Ok(t0) => match <InPacketType as FromSong>::song_parse(bytes.skip((1 + t0.song_len()) as int)) { Err(e) => Err(e), Ok(t1) => Ok(PacketError::PacketNotSupportedOverChannel(t0, t1)) } }
        } else if bytes[0] == 1 {
            match <u16 as FromSong>::song_parse(bytes.skip((1) as int)) { Err(e) => Err(e), Ok(t0) => Ok(PacketError::FlightNotFound(t0)) }
        } else {
            Err(FromSongError::InvalidPacketId)
        }
    }

    proof fn lemma_parse_len(bytes: Seq<u8>) {
        if bytes.len() >= 1 && bytes[0] == 0 {
            <IoChannel as FromSong>::lemma_parse_len(bytes.skip((1) as int));
            if let Ok(t0) = <IoChannel as FromSong>::song_parse(bytes.skip((1) as int)) {
                assert(bytes.skip((1 + t0.song_len()) as int) =~= bytes.skip((1) as int).skip(t0.song_len() as int));
                <InPacketType as FromSong>::lemma_parse_len(bytes.skip((1 + t0.song_len()) as int));
            }
        }
        if bytes.len() >= 1 && bytes[0] == 1 {
            <u16 as FromSong>::lemma_parse_len(bytes.skip((1) as int));
        }
    }

    #[verifier::rlimit(100)]
    fn from_song_at(buf: &[u8], pos: usize) -> (r: Result<PacketError, FromSongError>) {
        if buf.len() - pos < 1 {
            return Err(FromSongError::BufferOverflow);
        }
        let ghost b = buf@.skip(pos as int);
        assert(buf@.len() == buf.len());
        assert(b[0] == buf@[pos as int]);
        match buf[pos] {
            0 => {
                let mut i = pos + 1;
                assert(buf@.skip(i as int) =~= b.skip(1));
                let t0 = match <IoChannel as FromSong>::from_song_at(buf, i) {
                    Ok(v) => v,
                    Err(e) => return Err(e),
                };
                proof {
                    <IoChannel as FromSong>::lemma_parse_len(b.skip((1) as int));
                }
                i = i + t0.song_size();
                assert(buf@.skip(i as int) =~= b.skip((1 + t0.song_len()) as int));
                let t1 = match <InPacketType as FromSong>::from_song_at(buf, i) {
                    Ok(v) => v,
                    Err(e) => return Err(e),
                };
                Ok(PacketError::PacketNotSupportedOverChannel(t0, t1))
            },
            1 => {
                let mut i = pos + 1;
                assert(buf@.skip(i as int) =~= b.skip(1));
                let t0 = match <u16 as FromSong>::from_song_at(buf, i) {
                    Ok(v) => v,
                    Err(e) => return Err(e),
                };
                Ok(PacketError::FlightNotFound(t0))
            },
            _ => Err(FromSongError::InvalidPacketId),
        }
    }
}

impl SongRoundTrip for PacketError {
    proof fn lemma_song_round_trip(&self, rest: Seq<u8>) {
        match self {
            PacketError::PacketNotSupportedOverChannel(t0, t1) => {
                t0.lemma_song_bytes_len(); t1.lemma_song_bytes_len();
                let b = self.song_bytes() + rest;
                assert(b[0] == 0u8);
                assert(b.skip((seq![0u8].len()) as int) =~= t0.song_bytes() + (t1.song_bytes() + rest));
                t0.lemma_song_round_trip(t1.song_bytes() + rest);
                assert(b.skip((seq![0u8].len() + t0.song_bytes().len()) as int) =~= t1.song_bytes() + (rest));
                t1.lemma_song_round_trip(rest);
            },
            PacketError::FlightNotFound(t0) => {
                t0.lemma_song_bytes_len();
                let b = self.song_bytes() + rest;
                assert(b[0] == 1u8);
                assert(b.skip((seq![1u8].len()) as int) =~= t0.song_bytes() + (rest));
                t0.lemma_song_round_trip(rest);
            },
        }
    }
}

impl FlashPageDump {
    /// The flash address the page was read from.
    pub closed spec fn spec_addr(&self) -> u32 {
        self.addr
    }

    /// The bytes of the page.
    pub closed spec fn spec_data(&self) -> [u8; 256] {
        self.data
    }
}

/// Every dump takes 260 bytes: the address and one page.
impl HasSongSize for FlashPageDump {
    type Size = ConstSongSizeValue<260>;
}

impl ConstSongSize for FlashPageDump {
    open spec fn const_song_len() -> nat {
        260
    }

    fn const_song_size() -> (n: usize) {
        260
    }

    fn const_song_fits(len: usize) -> (b: bool) {
        260 <= len
    }

    proof fn lemma_const_song_len(v: &Self) {
        <[u8; 256] as ConstSongSize>::lemma_const_song_len(&v.data);
    }

    proof fn lemma_const_song_len_of_type() {
    }
}

impl SongSize for FlashPageDump {
    closed spec fn song_len(&self) -> nat {
        self.addr.song_len() + self.data.song_len()
    }

    fn song_size(&self) -> (n: usize) {
        self.addr.song_size() + self.data.song_size()
    }
}

impl ToSong for FlashPageDump {
    closed spec fn song_bytes(&self) -> Seq<u8> {
        self.addr.song_bytes() + self.data.song_bytes()
    }

    proof fn lemma_song_bytes_len(&self) {
        self.addr.lemma_song_bytes_len();
        self.data.lemma_song_bytes_len();
    }

    fn to_song_at(&self, buf: &mut [u8], pos: usize) -> (r: Result<(), ToSongError>) {
        if buf.len() - pos < self.song_size() {
            return Err(ToSongError::BufferOverflow);
        }
        proof {
            self.addr.lemma_song_bytes_len();
            self.data.lemma_song_bytes_len();
        }
        let ghost start = buf@;
        let mut i = pos;
        match self.addr.to_song_at(buf, i) {
            Ok(()) => {},
            Err(e) => return Err(e),
        }
        i = i + self.addr.song_size();
        let ghost before = buf@;
        match self.data.to_song_at(buf, i) {
            Ok(()) => {},
            Err(e) => return Err(e),
        }
        proof {
            lemma_write_after(start, before, buf@, pos as int, self.addr.song_bytes(), self.data.song_bytes());
        }
        Ok(())
    }
}

impl FromSong for FlashPageDump {
    closed spec fn song_parse(bytes: Seq<u8>) -> Result<FlashPageDump, FromSongError> {
        match <u32 as FromSong>::song_parse(bytes) { Err(e) => Err(e), Ok(addr) => match <[u8; 256] as FromSong>::song_parse(bytes.skip((addr.song_len()) as int)) { Err(e) => Err(e), Ok(data) => Ok(FlashPageDump { addr, data }) } }
    }

    proof fn lemma_parse_len(bytes: Seq<u8>) {
        <u32 as FromSong>::lemma_parse_len(bytes);
        if let Ok(addr) = <u32 as FromSong>::song_parse(bytes) {
            <[u8; 256] as FromSong>::lemma_parse_len(bytes.skip((addr.song_len()) as int));
        }
    }

    fn from_song_at(buf: &[u8], pos: usize) -> (r: Result<FlashPageDump, FromSongError>) {
        let ghost b = buf@.skip(pos as int);
        assert(buf@.len() == buf.len());
        let mut i = pos;
        assert(buf@.skip(i as int) =~= b);
        let v_addr = match <u32 as FromSong>::from_song_at(buf, i) {
            Ok(v) => v,
            Err(e) => return Err(e),
        };
        proof {
            <u32 as FromSong>::lemma_parse_len(b);
        }
        i = i + v_addr.song_size();
        assert(buf@.skip(i as int) =~= b.skip((v_addr.song_len()) as int));
        let v_data = match <[u8; 256] as FromSong>::from_song_at(buf, i) {
            Ok(v) => v,
            Err(e) => return Err(e),
        };
        Ok(FlashPageDump { addr: v_addr, data: v_data })
    }
}

impl SongRoundTrip for FlashPageDump {
    proof fn lemma_song_round_trip(&self, rest: Seq<u8>) {
        self.addr.lemma_song_bytes_len();
        self.data.lemma_song_bytes_len();
        let b = self.song_bytes() + rest;
        assert(b =~= self.addr.song_bytes() + (self.data.song_bytes() + rest));
        self.addr.lemma_song_round_trip(self.data.song_bytes() + rest);
        assert(b.skip((self.addr.song_bytes().len()) as int) =~= self.data.song_bytes() + (rest));
        self.data.lemma_song_round_trip(rest);
    }
}

/// The tag that starts each kind of [`InPacket`].
#[derive(Clone, Copy, PartialEq, Eq, Debug, Structural)]
pub enum InPacketType {
    Null,
    Ping,
    SetTime,
    Reboot,
    QueryConfig,
    SetConfig,
    QueryMode,
    SetMode,
    QueryFlights,
    ReadFlight,
    Tail,
    EraseFlash,
    DeployMain,
    DeployApo,
}

/// The byte that stands for each value of `InPacketType` on the wire.
pub open spec fn in_packet_type_wire_value(value: InPacketType) -> u8 {
    match value {
        InPacketType::Null => 0,
        InPacketType::Ping => 1,
        InPacketType::SetTime => 2,
        InPacketType::Reboot => 3,
        InPacketType::QueryConfig => 4,
        InPacketType::SetConfig => 5,
        InPacketType::QueryMode => 6,
        InPacketType::SetMode => 7,
        InPacketType::QueryFlights => 8,
        InPacketType::ReadFlight => 9,
        InPacketType::Tail => 10,
        InPacketType::EraseFlash => 11,
        InPacketType::DeployMain => 12,
        InPacketType::DeployApo => 13,
    }
}

impl InPacketType {
    /// The byte that stands for this value on the wire.
    pub fn wire_value(self) -> (value: u8)
        ensures
            value == in_packet_type_wire_value(self),
    {
        match self {
            InPacketType::Null => 0,
            InPacketType::Ping => 1,
            InPacketType::SetTime => 2,
            InPacketType::Reboot => 3,
            InPacketType::QueryConfig => 4,
            InPacketType::SetConfig => 5,
            InPacketType::QueryMode => 6,
            InPacketType::SetMode => 7,
            InPacketType::QueryFlights => 8,
            InPacketType::ReadFlight => 9,
            InPacketType::Tail => 10,
            InPacketType::EraseFlash => 11,
            InPacketType::DeployMain => 12,
            InPacketType::DeployApo => 13,
        }
    }
}

impl HasSongSize for InPacketType {
    type Size = ConstSongSizeValue<1>;
}

impl SongSize for InPacketType {
    open spec fn song_len(&self) -> nat {
        1
    }

    fn song_size(&self) -> (n: usize) {
        1
    }
}

impl ConstSongSize for InPacketType {
    open spec fn const_song_len() -> nat {
        1
    }

    fn const_song_size() -> (n: usize) {
        1
    }

    fn const_song_fits(len: usize) -> (b: bool) {
        1 <= len
    }

    proof fn lemma_const_song_len(v: &Self) {
    }

    proof fn lemma_const_song_len_of_type() {
    }
}

impl ToSong for InPacketType {
    open spec fn song_bytes(&self) -> Seq<u8> {
        seq![in_packet_type_wire_value(*self)]
    }

    proof fn lemma_song_bytes_len(&self) {
    }

    fn to_song_at(&self, buf: &mut [u8], pos: usize) -> (r: Result<(), ToSongError>) {
        let value = self.wire_value();
        assert(value.song_bytes() == self.song_bytes());
        value.to_song_at(buf, pos)
    }
}

impl FromSong for InPacketType {
    open spec fn song_parse(bytes: Seq<u8>) -> Result<InPacketType, FromSongError> {
        if bytes.len() < 1 {
            Err(FromSongError::BufferOverflow)
        } else if bytes[0] == 0 {
            Ok(InPacketType::Null)
        } else if bytes[0] == 1 {
            Ok(InPacketType::Ping)
        } else if bytes[0] == 2 {
            Ok(InPacketType::SetTime)
        } else if bytes[0] == 3 {
            Ok(InPacketType::Reboot)
        } else if bytes[0] == 4 {
            Ok(InPacketType::QueryConfig)
        } else if bytes[0] == 5 {
            Ok(InPacketType::SetConfig)
        } else if bytes[0] == 6 {
            Ok(InPacketType::QueryMode)
        } else if bytes[0] == 7 {
            Ok(InPacketType::SetMode)
        } else if bytes[0] == 8 {
            Ok(InPacketType::QueryFlights)
        } else if bytes[0] == 9 {
            Ok(InPacketType::ReadFlight)
        } else if bytes[0] == 10 {
            Ok(InPacketType::Tail)
        } else if bytes[0] == 11 {
            Ok(InPacketType::EraseFlash)
        } else if bytes[0] == 12 {
            Ok(InPacketType::DeployMain)
        } else if bytes[0] == 13 {
            Ok(InPacketType::DeployApo)
        } else {
            Err(FromSongError::InvalidPacketId)
        }
    }

    proof fn lemma_parse_len(bytes: Seq<u8>) {
    }

    fn from_song_at(buf: &[u8], pos: usize) -> (r: Result<InPacketType, FromSongError>) {
        if buf.len() - pos < 1 {
            return Err(FromSongError::BufferOverflow);
        }
        let ghost s = buf@.skip(pos as int);
        assert(s[0] == buf@[pos as int]);
        match buf[pos] {
            0 => Ok(InPacketType::Null),
            1 => Ok(InPacketType::Ping),
            2 => Ok(InPacketType::SetTime),
            3 => Ok(InPacketType::Reboot),
            4 => Ok(InPacketType::QueryConfig),
            5 => Ok(InPacketType::SetConfig),
            6 => Ok(InPacketType::QueryMode),
            7 => Ok(InPacketType::SetMode),
            8 => Ok(InPacketType::QueryFlights),
            9 => Ok(InPacketType::ReadFlight),
            10 => Ok(InPacketType::Tail),
            11 => Ok(InPacketType::EraseFlash),
            12 => Ok(InPacketType::DeployMain),
            13 => Ok(InPacketType::DeployApo),
            _ => Err(FromSongError::InvalidPacketId),
        }
    }
}

impl SongRoundTrip for InPacketType {
    proof fn lemma_song_round_trip(&self, rest: Seq<u8>) {
        assert((self.song_bytes() + rest)[0] == in_packet_type_wire_value(*self));
    }
}

impl SongDiscriminant for InPacket {
    type Discriminant = InPacketType;

    open spec fn discriminant_of(&self) -> InPacketType {
        match self {
            InPacket::Null => InPacketType::Null,
            InPacket::Ping => InPacketType::Ping,
            InPacket::SetTime(..) => InPacketType::SetTime,
            InPacket::Reboot => InPacketType::Reboot,
            InPacket::QueryConfig => InPacketType::QueryConfig,
            InPacket::SetConfig(..) => InPacketType::SetConfig,
            InPacket::QueryMode => InPacketType::QueryMode,
            InPacket::SetMode(..) => InPacketType::SetMode,
            InPacket::QueryFlights => InPacketType::QueryFlights,
            InPacket::ReadFlight(..) => InPacketType::ReadFlight,
            InPacket::Tail(..) => InPacketType::Tail,
            InPacket::EraseFlash(..) => InPacketType::EraseFlash,
            InPacket::DeployMain => InPacketType::DeployMain,
            InPacket::DeployApo => InPacketType::DeployApo,
        }
    }

    fn song_discriminant(&self) -> (d: InPacketType) {
        match self {
            InPacket::Null => InPacketType::Null,
            InPacket::Ping => InPacketType::Ping,
            InPacket::SetTime(..) => InPacketType::SetTime,
            InPacket::Reboot => InPacketType::Reboot,
            InPacket::QueryConfig => InPacketType::QueryConfig,
            InPacket::SetConfig(..) => InPacketType::SetConfig,
            InPacket::QueryMode => InPacketType::QueryMode,
            InPacket::SetMode(..) => InPacketType::SetMode,
            InPacket::QueryFlights => InPacketType::QueryFlights,
            InPacket::ReadFlight(..) => InPacketType::ReadFlight,
            InPacket::Tail(..) => InPacketType::Tail,
            InPacket::EraseFlash(..) => InPacketType::EraseFlash,
            InPacket::DeployMain => InPacketType::DeployMain,
            InPacket::DeployApo => InPacketType::DeployApo,
        }
    }
}

impl SongSize for InPacket {
    open spec fn song_len(&self) -> nat {
        match self {
            InPacket::Null => 1,
            InPacket::Ping => 1,
            InPacket::SetTime(t0) => 1 + t0.song_len(),
            InPacket::Reboot => 1,
            InPacket::QueryConfig => 1,
            InPacket::SetConfig(t0) => 1 + t0.song_len(),
            InPacket::QueryMode => 1,
            InPacket::SetMode(t0) => 1 + t0.song_len(),
            InPacket::QueryFlights => 1,
            InPacket::ReadFlight(t0) => 1 + t0.song_len(),
            InPacket::Tail(t0) => 1 + t0.song_len(),
            InPacket::EraseFlash(t0) => 1 + t0.song_len(),
            InPacket::DeployMain => 1,
            InPacket::DeployApo => 1,
        }
    }

    fn song_size(&self) -> (n: usize) {
        match self {
            InPacket::Null => 1,
            InPacket::Ping => 1,
            InPacket::SetTime(t0) => 1 + t0.song_size(),
            InPacket::Reboot => 1,
            InPacket::QueryConfig => 1,
            InPacket::SetConfig(t0) => 1 + t0.song_size(),
            InPacket::QueryMode => 1,
            InPacket::SetMode(t0) => 1 + t0.song_size(),
            InPacket::QueryFlights => 1,
            InPacket::ReadFlight(t0) => 1 + t0.song_size(),
            InPacket::Tail(t0) => 1 + t0.song_size(),
            InPacket::EraseFlash(t0) => 1 + t0.song_size(),
            InPacket::DeployMain => 1,
            InPacket::DeployApo => 1,
        }
    }
}

impl ToSong for InPacket {
    open spec fn song_bytes(&self) -> Seq<u8> {
        match self {
            InPacket::Null => seq![0u8],
            InPacket::Ping => seq![1u8],
            InPacket::SetTime(t0) => seq![2u8] + t0.song_bytes(),
            InPacket::Reboot => seq![3u8],
            InPacket::QueryConfig => seq![4u8],
            InPacket::SetConfig(t0) => seq![5u8] + t0.song_bytes(),
            InPacket::QueryMode => seq![6u8],
            InPacket::SetMode(t0) => seq![7u8] + t0.song_bytes(),
            InPacket::QueryFlights => seq![8u8],
            InPacket::ReadFlight(t0) => seq![9u8] + t0.song_bytes(),
            InPacket::Tail(t0) => seq![10u8] + t0.song_bytes(),
            InPacket::EraseFlash(t0) => seq![11u8] + t0.song_bytes(),
            InPacket::DeployMain => seq![12u8],
            InPacket::DeployApo => seq![13u8],
        }
    }

    proof fn lemma_song_bytes_len(&self) {
        match self {
            InPacket::Null => {},
            InPacket::Ping => {},
            InPacket::SetTime(t0) => { t0.lemma_song_bytes_len(); },
            InPacket::Reboot => {},
            InPacket::QueryConfig => {},
            InPacket::SetConfig(t0) => { t0.lemma_song_bytes_len(); },
            InPacket::QueryMode => {},
            InPacket::SetMode(t0) => { t0.lemma_song_bytes_len(); },
            InPacket::QueryFlights => {},
            InPacket::ReadFlight(t0) => { t0.lemma_song_bytes_len(); },
            InPacket::Tail(t0) => { t0.lemma_song_bytes_len(); },
            InPacket::EraseFlash(t0) => { t0.lemma_song_bytes_len(); },
            InPacket::DeployMain => {},
            InPacket::DeployApo => {},
        }
    }

    fn to_song_at(&self, buf: &mut [u8], pos: usize) -> (r: Result<(), ToSongError>) {
        match self {
            InPacket::Null => InPacketType::Null.to_song_at(buf, pos),
            InPacket::Ping => InPacketType::Ping.to_song_at(buf, pos),
            InPacket::SetTime(t0) => write_tagged(2u8, t0, buf, pos),
            InPacket::Reboot => InPacketType::Reboot.to_song_at(buf, pos),
            InPacket::QueryConfig => InPacketType::QueryConfig.to_song_at(buf, pos),
            InPacket::SetConfig(t0) => write_tagged(5u8, t0, buf, pos),
            InPacket::QueryMode => InPacketType::QueryMode.to_song_at(buf, pos),
            InPacket::SetMode(t0) => write_tagged(7u8, t0, buf, pos),
            InPacket::QueryFlights => InPacketType::QueryFlights.to_song_at(buf, pos),
            InPacket::ReadFlight(t0) => write_tagged(9u8, t0, buf, pos),
            InPacket::Tail(t0) => write_tagged(10u8, t0, buf, pos),
            InPacket::EraseFlash(t0) => write_tagged(11u8, t0, buf, pos),
            InPacket::DeployMain => InPacketType::DeployMain.to_song_at(buf, pos),
            InPacket::DeployApo => InPacketType::DeployApo.to_song_at(buf, pos),
        }
    }
}

impl FromSong for InPacket {
    open spec fn song_parse(bytes: Seq<u8>) -> Result<InPacket, FromSongError> {
        if bytes.len() < 1 {
            Err(FromSongError::BufferOverflow)
        } else if bytes[0] == 0 {
            Ok(InPacket::Null)
        } else if bytes[0] == 1 {
            Ok(InPacket::Ping)
        } else if bytes[0] == 2 {
            match <AbsoluteTimeReference as FromSong>::song_parse(bytes.skip((1) as int)) { Err(e) => Err(e), Ok(t0) => Ok(InPacket::SetTime(t0)) }
        } else if bytes[0] == 3 {
            Ok(InPacket::Reboot)
        } else if bytes[0] == 4 {
            Ok(InPacket::QueryConfig)
        } else if bytes[0] == 5 {
            match <SirinConfig as FromSong>::song_parse(bytes.skip((1) as int)) { Err(e) => Err(e), Ok(t0) => Ok(InPacket::SetConfig(t0)) }
        } else if bytes[0] == 6 {
            Ok(InPacket::QueryMode)
        } else if bytes[0] == 7 {
            match <SirinMode as FromSong>::song_parse(bytes.skip((1) as int)) { Err(e) => Err(e), Ok(t0) => Ok(InPacket::SetMode(t0)) }
        } else if bytes[0] == 8 {
            Ok(InPacket::QueryFlights)
        } else if bytes[0] == 9 {
            match <u16 as FromSong>::song_parse(bytes.skip((1) as int)) { Err(e) => Err(e), Ok(t0) => Ok(InPacket::ReadFlight(t0)) }
        } else if bytes[0] == 10 {
            match <bool as FromSong>::song_parse(bytes.skip((1) as int)) { Err(e) => Err(e), Ok(t0) => Ok(InPacket::Tail(t0)) }
        } else if bytes[0] == 11 {
            match <MagicU8<0xA8> as FromSong>::song_parse(bytes.skip((1) as int)) { Err(e) => Err(e), Ok(t0) => Ok(InPacket::EraseFlash(t0)) }
        } else if bytes[0] == 12 {
            Ok(InPacket::DeployMain)
        } else if bytes[0] == 13 {
            Ok(InPacket::DeployApo)
        } else {
            Err(FromSongError::InvalidPacketId)
        }
    }

    proof fn lemma_parse_len(bytes: Seq<u8>) {
        if bytes.len() >= 1 && bytes[0] == 2 {
            <AbsoluteTimeReference as FromSong>::lemma_parse_len(bytes.skip((1) as int));
        }
        if bytes.len() >= 1 && bytes[0] == 5 {
            <SirinConfig as FromSong>::lemma_parse_len(bytes.skip((1) as int));
        }
        if bytes.len() >= 1 && bytes[0] == 7 {
            <SirinMode as FromSong>::lemma_parse_len(bytes.skip((1) as int));
        }
        if bytes.len() >= 1 && bytes[0] == 9 {
            <u16 as FromSong>::lemma_parse_len(bytes.skip((1) as int));
        }
        if bytes.len() >= 1 && bytes[0] == 10 {
            <bool as FromSong>::lemma_parse_len(bytes.skip((1) as int));
        }
        if bytes.len() >= 1 && bytes[0] == 11 {
            <MagicU8<0xA8> as FromSong>::lemma_parse_len(bytes.skip((1) as int));
        }
    }

    #[verifier::rlimit(100)]
    fn from_song_at(buf: &[u8], pos: usize) -> (r: Result<InPacket, FromSongError>) {
        if buf.len() - pos < 1 {
            return Err(FromSongError::BufferOverflow);
        }
        let ghost b = buf@.skip(pos as int);
        assert(buf@.len() == buf.len());
        assert(b[0] == buf@[pos as int]);
        match buf[pos] {
            0 => {

                Ok(InPacket::Null)
            },
            1 => {

                Ok(InPacket::Ping)
            },
            2 => {
                let mut i = pos + 1;
                assert(buf@.skip(i as int) =~= b.skip(1));
                let t0 = match <AbsoluteTimeReference as FromSong>::from_song_at(buf, i) {
                    Ok(v) => v,
                    Err(e) => return Err(e),
                };
                Ok(InPacket::SetTime(t0))
            },
            3 => {

                Ok(InPacket::Reboot)
            },
            4 => {

                Ok(InPacket::QueryConfig)
            },
            5 => {
                let mut i = pos + 1;
                assert(buf@.skip(i as int) =~= b.skip(1));
                let t0 = match <SirinConfig as FromSong>::from_song_at(buf, i) {
                    Ok(v) => v,
                    Err(e) => return Err(e),
                };
                Ok(InPacket::SetConfig(t0))
            },
            6 => {

                Ok(InPacket::QueryMode)
            },
            7 => {
                let mut i = pos + 1;
                assert(buf@.skip(i as int) =~= b.skip(1));
                let t0 = match <SirinMode as FromSong>::from_song_at(buf, i) {
                    Ok(v) => v,
                    Err(e) => return Err(e),
                };
                Ok(InPacket::SetMode(t0))
            },
            8 => {

                Ok(InPacket::QueryFlights)
            },
            9 => {
                let mut i = pos + 1;
                assert(buf@.skip(i as int) =~= b.skip(1));
                let t0 = match <u16 as FromSong>::from_song_at(buf, i) {
                    Ok(v) => v,
                    Err(e) => return Err(e),
                };
                Ok(InPacket::ReadFlight(t0))
            },
            10 => {
                let mut i = pos + 1;
                assert(buf@.skip(i as int) =~= b.skip(1));
                let t0 = match <bool as FromSong>::from_song_at(buf, i) {
                    Ok(v) => v,
                    Err(e) => return Err(e),
                };
                Ok(InPacket::Tail(t0))
            },
            11 => {
                let mut i = pos + 1;
                assert(buf@.skip(i as int) =~= b.skip(1));
                let t0 = match <MagicU8<0xA8> as FromSong>::from_song_at(buf, i) {
                    Ok(v) => v,
                    Err(e) => return Err(e),
                };
                Ok(InPacket::EraseFlash(t0))
            },
            12 => {

                Ok(InPacket::DeployMain)
            },
            13 => {

                Ok(InPacket::DeployApo)
            },
            _ => Err(FromSongError::InvalidPacketId),
        }
    }
}

impl SongRoundTrip for InPacket {
    #[verifier::spinoff_prover]
    #[verifier::rlimit(50)]
    proof fn lemma_song_round_trip(&self, rest: Seq<u8>) {
        match self {
            InPacket::Null => {
                let b = self.song_bytes() + rest;
                assert(b[0] == 0u8);
            },
            InPacket::Ping => {
                let b = self.song_bytes() + rest;
                assert(b[0] == 1u8);
            },
            InPacket::SetTime(t0) => {
                t0.lemma_song_bytes_len();
                let b = self.song_bytes() + rest;
                assert(b[0] == 2u8);
                assert(b.skip((seq![2u8].len()) as int) =~= t0.song_bytes() + (rest));
                t0.lemma_song_round_trip(rest);
            },
            InPacket::Reboot => {
                let b = self.song_bytes() + rest;
                assert(b[0] == 3u8);
            },
            InPacket::QueryConfig => {
                let b = self.song_bytes() + rest;
                assert(b[0] == 4u8);
            },
            InPacket::SetConfig(t0) => {
                t0.lemma_song_bytes_len();
                let b = self.song_bytes() + rest;
                assert(b[0] == 5u8);
                assert(b.skip((seq![5u8].len()) as int) =~= t0.song_bytes() + (rest));
                t0.lemma_song_round_trip(rest);
            },
            InPacket::QueryMode => {
                let b = self.song_bytes() + rest;
                assert(b[0] == 6u8);
            },
            InPacket::SetMode(t0) => {
                t0.lemma_song_bytes_len();
                let b = self.song_bytes() + rest;
                assert(b[0] == 7u8);
                assert(b.skip((seq![7u8].len()) as int) =~= t0.song_bytes() + (rest));
                t0.lemma_song_round_trip(rest);
            },
            InPacket::QueryFlights => {
                let b = self.song_bytes() + rest;
                assert(b[0] == 8u8);
            },
            InPacket::ReadFlight(t0) => {
                t0.lemma_song_bytes_len();
                let b = self.song_bytes() + rest;
                assert(b[0] == 9u8);
                assert(b.skip((seq![9u8].len()) as int) =~= t0.song_bytes() + (rest));
                t0.lemma_song_round_trip(rest);
            },
            InPacket::Tail(t0) => {
                t0.lemma_song_bytes_len();
                let b = self.song_bytes() + rest;
                assert(b[0] == 10u8);
                assert(b.skip((seq![10u8].len()) as int) =~= t0.song_bytes() + (rest));
                t0.lemma_song_round_trip(rest);
            },
            InPacket::EraseFlash(t0) => {
                t0.lemma_song_bytes_len();
                let b = self.song_bytes() + rest;
                assert(b[0] == 11u8);
                assert(b.skip((seq![11u8].len()) as int) =~= t0.song_bytes() + (rest));
                t0.lemma_song_round_trip(rest);
            },
            InPacket::DeployMain => {
                let b = self.song_bytes() + rest;
                assert(b[0] == 12u8);
            },
            InPacket::DeployApo => {
                let b = self.song_bytes() + rest;
                assert(b[0] == 13u8);
            },
        }
    }
}

/// Every packet's encoding starts with the byte of its type, which is how the receiver tells
/// the packets apart.
pub proof fn lemma_in_packet_starts_with_type(p: InPacket)
    ensures
        p.song_bytes().len() >= 1,
        p.song_bytes()[0] == in_packet_type_wire_value(p.discriminant_of()),
{
    p.lemma_song_bytes_len();
}

impl TaggedSong for PacketErrorType {
    open spec fn tag(&self) -> u8 {
        packet_error_type_wire_value(*self)
    }

    open spec fn is_tag(b: u8) -> bool {
        b < 2
    }

    proof fn lemma_starts_with_tag(&self) {
    }

    proof fn lemma_refused(bytes: Seq<u8>) {
    }
}

impl TaggedSong for InPacketType {
    open spec fn tag(&self) -> u8 {
        in_packet_type_wire_value(*self)
    }

    open spec fn is_tag(b: u8) -> bool {
        b < 14
    }

    proof fn lemma_starts_with_tag(&self) {
    }

    proof fn lemma_refused(bytes: Seq<u8>) {
    }
}

impl TaggedSong for PacketError {
    open spec fn tag(&self) -> u8 {
        packet_error_type_wire_value(self.discriminant_of())
    }

    open spec fn is_tag(b: u8) -> bool {
        b < 2
    }

    proof fn lemma_starts_with_tag(&self) {
        self.lemma_song_bytes_len();
    }

    proof fn lemma_refused(bytes: Seq<u8>) {
    }
}

impl TaggedSong for InPacket {
    open spec fn tag(&self) -> u8 {
        in_packet_type_wire_value(self.discriminant_of())
    }

    open spec fn is_tag(b: u8) -> bool {
        b < 14
    }

    proof fn lemma_starts_with_tag(&self) {
        self.lemma_song_bytes_len();
    }

    proof fn lemma_refused(bytes: Seq<u8>) {
    }
}


/// On the wire a `FlashPageDump` is its address, then the page's bytes, each in its own encoding
/// with nothing between them; reading those bytes gives the dump back, whatever follows them.
pub proof fn lemma_flash_page_dump_layout(v: FlashPageDump, rest: Seq<u8>)
    ensures
        v.song_bytes() == v.spec_addr().song_bytes() + v.spec_data().song_bytes(),
        v.song_len() == v.spec_addr().song_len() + v.spec_data().song_len(),
        <FlashPageDump as FromSong>::song_parse(v.spec_addr().song_bytes() + v.spec_data().song_bytes() + rest) == Ok::<FlashPageDump, FromSongError>(v),
{
    v.lemma_song_round_trip(rest);
}


/// On the wire a `PacketErrorType` is one byte: `PacketNotSupportedOverChannel` is 0, `FlightNotFound` is 1. Reading that byte gives the value
/// back, whatever follows it.
pub proof fn lemma_packet_error_type_layout(v: PacketErrorType, rest: Seq<u8>)
    ensures
        v is PacketNotSupportedOverChannel ==> v.song_bytes() == seq![0u8]
            && <PacketErrorType as FromSong>::song_parse(seq![0u8] + rest) == Ok::<PacketErrorType, FromSongError>(v),
        v is FlightNotFound ==> v.song_bytes() == seq![1u8]
            && <PacketErrorType as FromSong>::song_parse(seq![1u8] + rest) == Ok::<PacketErrorType, FromSongError>(v),
{
    v.lemma_song_round_trip(rest);
}

/// On the wire a `InPacketType` is one byte: `Null` is 0, `Ping` is 1, `SetTime` is 2, `Reboot` is 3, `QueryConfig` is 4, `SetConfig` is 5, `QueryMode` is 6, `SetMode` is 7, `QueryFlights` is 8, `ReadFlight` is 9, `Tail` is 10, `EraseFlash` is 11, `DeployMain` is 12, `DeployApo` is 13. Reading that byte gives the value
/// back, whatever follows it.
pub proof fn lemma_in_packet_type_layout(v: InPacketType, rest: Seq<u8>)
    ensures
        v is Null ==> v.song_bytes() == seq![0u8]
            && <InPacketType as FromSong>::song_parse(seq![0u8] + rest) == Ok::<InPacketType, FromSongError>(v),
        v is Ping ==> v.song_bytes() == seq![1u8]
            && <InPacketType as FromSong>::song_parse(seq![1u8] + rest) == Ok::<InPacketType, FromSongError>(v),
        v is SetTime ==> v.song_bytes() == seq![2u8]
            && <InPacketType as FromSong>::song_parse(seq![2u8] + rest) == Ok::<InPacketType, FromSongError>(v),
        v is Reboot ==> v.song_bytes() == seq![3u8]
            && <InPacketType as FromSong>::song_parse(seq![3u8] + rest) == Ok::<InPacketType, FromSongError>(v),
        v is QueryConfig ==> v.song_bytes() == seq![4u8]
            && <InPacketType as FromSong>::song_parse(seq![4u8] + rest) == Ok::<InPacketType, FromSongError>(v),
        v is SetConfig ==> v.song_bytes() == seq![5u8]
            && <InPacketType as FromSong>::song_parse(seq![5u8] + rest) == Ok::<InPacketType, FromSongError>(v),
        v is QueryMode ==> v.song_bytes() == seq![6u8]
            && <InPacketType as FromSong>::song_parse(seq![6u8] + rest) == Ok::<InPacketType, FromSongError>(v),
        v is SetMode ==> v.song_bytes() == seq![7u8]
            && <InPacketType as FromSong>::song_parse(seq![7u8] + rest) == Ok::<InPacketType, FromSongError>(v),
        v is QueryFlights ==> v.song_bytes() == seq![8u8]
            && <InPacketType as FromSong>::song_parse(seq![8u8] + rest) == Ok::<InPacketType, FromSongError>(v),
        v is ReadFlight ==> v.song_bytes() == seq![9u8]
            && <InPacketType as FromSong>::song_parse(seq![9u8] + rest) == Ok::<InPacketType, FromSongError>(v),
        v is Tail ==> v.song_bytes() == seq![10u8]
            && <InPacketType as FromSong>::song_parse(seq![10u8] + rest) == Ok::<InPacketType, FromSongError>(v),
        v is EraseFlash ==> v.song_bytes() == seq![11u8]
            && <InPacketType as FromSong>::song_parse(seq![11u8] + rest) == Ok::<InPacketType, FromSongError>(v),
        v is DeployMain ==> v.song_bytes() == seq![12u8]
            && <InPacketType as FromSong>::song_parse(seq![12u8] + rest) == Ok::<InPacketType, FromSongError>(v),
        v is DeployApo ==> v.song_bytes() == seq![13u8]
            && <InPacketType as FromSong>::song_parse(seq![13u8] + rest) == Ok::<InPacketType, FromSongError>(v),
{
    v.lemma_song_round_trip(rest);
}

/// On the wire a `InPacket` is its variant's tag byte, the variants numbered from zero in declaration
/// order, then the variant's fields in order, each in its own encoding. Reading those bytes gives
/// the value back, whatever follows them.
pub proof fn lemma_in_packet_layout(v: InPacket, rest: Seq<u8>)
    ensures
        v is Null ==> v.song_bytes() == seq![0u8]
            && <InPacket as FromSong>::song_parse(seq![0u8] + rest) == Ok::<InPacket, FromSongError>(v),
        v is Ping ==> v.song_bytes() == seq![1u8]
            && <InPacket as FromSong>::song_parse(seq![1u8] + rest) == Ok::<InPacket, FromSongError>(v),
        v matches InPacket::SetTime(t0) ==> v.song_bytes() == seq![2u8] + t0.song_bytes()
            && <InPacket as FromSong>::song_parse(seq![2u8] + t0.song_bytes() + rest) == Ok::<InPacket, FromSongError>(v),
        v is Reboot ==> v.song_bytes() == seq![3u8]
            && <InPacket as FromSong>::song_parse(seq![3u8] + rest) == Ok::<InPacket, FromSongError>(v),
        v is QueryConfig ==> v.song_bytes() == seq![4u8]
            && <InPacket as FromSong>::song_parse(seq![4u8] + rest) == Ok::<InPacket, FromSongError>(v),
        v matches InPacket::SetConfig(t0) ==> v.song_bytes() == seq![5u8] + t0.song_bytes()
            && <InPacket as FromSong>::song_parse(seq![5u8] + t0.song_bytes() + rest) == Ok::<InPacket, FromSongError>(v),
        v is QueryMode ==> v.song_bytes() == seq![6u8]
            && <InPacket as FromSong>::song_parse(seq![6u8] + rest) == Ok::<InPacket, FromSongError>(v),
        v matches InPacket::SetMode(t0) ==> v.song_bytes() == seq![7u8] + t0.song_bytes()
            && <InPacket as FromSong>::song_parse(seq![7u8] + t0.song_bytes() + rest) == Ok::<InPacket, FromSongError>(v),
        v is QueryFlights ==> v.song_bytes() == seq![8u8]
            && <InPacket as FromSong>::song_parse(seq![8u8] + rest) == Ok::<InPacket, FromSongError>(v),
        v matches InPacket::ReadFlight(t0) ==> v.song_bytes() == seq![9u8] + t0.song_bytes()
            && <InPacket as FromSong>::song_parse(seq![9u8] + t0.song_bytes() + rest) == Ok::<InPacket, FromSongError>(v),
        v matches InPacket::Tail(t0) ==> v.song_bytes() == seq![10u8] + t0.song_bytes()
            && <InPacket as FromSong>::song_parse(seq![10u8] + t0.song_bytes() + rest) == Ok::<InPacket, FromSongError>(v),
        v matches InPacket::EraseFlash(t0) ==> v.song_bytes() == seq![11u8] + t0.song_bytes()
            && <InPacket as FromSong>::song_parse(seq![11u8] + t0.song_bytes() + rest) == Ok::<InPacket, FromSongError>(v),
        v is DeployMain ==> v.song_bytes() == seq![12u8]
            && <InPacket as FromSong>::song_parse(seq![12u8] + rest) == Ok::<InPacket, FromSongError>(v),
        v is DeployApo ==> v.song_bytes() == seq![13u8]
            && <InPacket as FromSong>::song_parse(seq![13u8] + rest) == Ok::<InPacket, FromSongError>(v),
{
    v.lemma_song_round_trip(rest);
}

/// On the wire a `PacketError` is its variant's tag byte, the variants numbered from zero in declaration
/// order, then the variant's fields in order, each in its own encoding. Reading those bytes gives
/// the value back, whatever follows them.
pub proof fn lemma_packet_error_layout(v: PacketError, rest: Seq<u8>)
    ensures
        v matches PacketError::PacketNotSupportedOverChannel(t0, t1) ==> v.song_bytes() == seq![0u8] + t0.song_bytes() + t1.song_bytes()
            && <PacketError as FromSong>::song_parse(seq![0u8] + t0.song_bytes() + t1.song_bytes() + rest) == Ok::<PacketError, FromSongError>(v),
        v matches PacketError::FlightNotFound(t0) ==> v.song_bytes() == seq![1u8] + t0.song_bytes()
            && <PacketError as FromSong>::song_parse(seq![1u8] + t0.song_bytes() + rest) == Ok::<PacketError, FromSongError>(v),
{
    v.lemma_song_round_trip(rest);
}

} // verus!
