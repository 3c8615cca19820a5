//! The packets exchanged with the ground (USB and radio) and written to flash, and their song
//! encodings.
//!
//! Floating-point quantities travel as their IEEE-754 bit patterns: a field documented as the bits
//! of an `f64` holds `value.to_bits()`, which is exactly what the little-endian encoding of the
//! float writes.

use vstd::prelude::*;
use crate::song::{
    lemma_write_after, ConstSongSize, ConstSongSizeValue, FromSong, FromSongError, HasSongSize,
    SongDiscriminant, SongRoundTrip, SongSize, TaggedSong, ToSong, ToSongError,
};
use crate::config::{CallsignBuf, SirinConfig, SirinId};
use crate::song::maybe_unwritten_max_bytes::MaybeUnwrittenMaxBytes;
use crate::song::numeric::u32_le_bytes;
use crate::time::AbsoluteTimeReference;

pub mod gps;
pub mod sirin_state;
pub mod sensors;
pub mod sirin_data;
pub mod log;
pub mod request;
pub mod out_packet;

pub use self::gps::{GpsFix, GpsFixType, Vec3};
pub use self::sirin_state::SirinState;
pub use self::log::{Log, LogDataType, LogEntry};
pub use self::out_packet::{OutPacket, OutPacketType};
pub use self::request::{FlashPageDump, InPacket, InPacketType, PacketError, PacketErrorType};
pub use self::sensors::{BaroData, HighGImuData, ImuData, MagnetometerData, Measurement, SubsystemError};
pub use self::sirin_data::SirinData;

verus! {

/// The largest packet sent to the ground, in bytes.
pub const MAX_OUT_PACKET_SIZE: usize = 256;

/// One numbered page of a longer answer.
#[derive(Debug, Clone)]
pub struct Page<T: SongSize + ToSong + FromSong> {
    pub index: u16,
    pub data: T,
}

impl<T: SongSize + ToSong + FromSong> Page<T> {
    pub fn new(index: u16, data: T) -> (page: Self)
        ensures
            page.index == index,
            page.data == data,
    {
        Page { index, data }
    }
}

/// Where a packet came from or goes to.
#[derive(Debug, Clone, Copy, PartialEq, Eq, Structural)]
pub enum IoChannel {
    Broadcast,
    Usb,
    ToLoRa,
    FromLoRa,
    Flash,
}

/// A packet together with the channel it travels on.
#[derive(Debug, Clone, PartialEq, Eq)]
pub struct IoPacket<P: SongSize + ToSong + FromSong> {
    pub channel: IoChannel,
    pub packet: P,
}

impl<P: SongSize + ToSong + FromSong> IoPacket<P> {
    pub fn new(channel: IoChannel, packet: P) -> (p: Self)
        ensures
            p.channel == channel,
            p.packet == packet,
    {
        IoPacket { channel, packet }
    }

    /// An answer to this packet, on the channel it came from.
    pub fn reply<R: SongSize + ToSong + FromSong>(&self, packet: R) -> (p: IoPacket<R>)
        ensures
            p.channel == self.channel,
            p.packet == packet,
    {
        IoPacket::new(self.channel, packet)
    }
}

/// A packet as sent over the radio, with the sender's identity.
#[derive(Debug, Clone)]
pub struct RadioPacket<P: SongSize + ToSong + FromSong> {
    pub id: SirinId,
    pub callsign: CallsignBuf,
    pub packet: P,
}

impl<P: SongSize + ToSong + FromSong> RadioPacket<P> {
    pub fn new(config: &SirinConfig, packet: P) -> (p: Self)
        ensures
            p.id == config.id,
            p.callsign == config.callsign,
            p.packet == packet,
    {
        let callsign = config.callsign;
        RadioPacket { id: config.id, callsign, packet }
    }
}

/// The header of a flight in the flash log.
#[derive(Clone, Debug)]
pub struct FlightHeader {
    /// Tracking byte -- when this flight is overwritten in the cyclic flash, this byte is zeroed
    /// out. This field must be first!
    pub status: FlightHeaderStatus,
    /// Address of the start of flight logs, without offset: its three low bytes, little-endian.
    addr: [u8; 3],
    pub time_reference: MaybeUnwrittenMaxBytes<AbsoluteTimeReference>,
    /// Time of the flight in terms of ticks since boot.
    pub timestamp: u64,
}

/// The 24-bit address that the three bytes stand for, little-endian.
pub open spec fn addr24_value(addr: Seq<u8>) -> u32 {
    (addr[0] as u32) | ((addr[1] as u32) << 8) | ((addr[2] as u32) << 16)
}

impl FlightHeader {
    /// The address bytes as stored.
    pub closed spec fn spec_addr(&self) -> [u8; 3] {
        self.addr
    }

    pub closed spec fn spec_status(&self) -> FlightHeaderStatus {
        self.status
    }

    pub closed spec fn spec_time_reference(&self) -> Option<AbsoluteTimeReference> {
        self.time_reference.0
    }

    pub closed spec fn spec_timestamp(&self) -> u64 {
        self.timestamp
    }

    /// A valid header for a flight whose logs start at `addr` (of which the low 24 bits are
    /// kept).
    pub fn new(addr: u32, time_reference: Option<AbsoluteTimeReference>, timestamp: u64) -> (h: Self)
        ensures
            h.spec_status() == FlightHeaderStatus::Valid,
            h.spec_addr()@ == u32_le_bytes(addr).take(3),
            h.spec_time_reference() == time_reference,
            h.spec_timestamp() == timestamp,
    {
        let a0 = (addr & 0xff) as u8;
        let a1 = ((addr >> 8) & 0xff) as u8;
        let a2 = ((addr >> 16) & 0xff) as u8;
        let bytes = [a0, a1, a2];
        proof {
            assert(bytes@ =~= u32_le_bytes(addr).take(3));
        }
        FlightHeader {
            status: FlightHeaderStatus::Valid,
            addr: bytes,
            time_reference: MaybeUnwrittenMaxBytes(time_reference),
            timestamp,
        }
    }

    /// The tracking byte.
    pub fn status(&self) -> (status: FlightHeaderStatus)
        ensures
            status == self.spec_status(),
    {
        self.status
    }

    /// The wall-clock reference of the flight, once written.
    pub fn time_reference(&self) -> (time_reference: &Option<AbsoluteTimeReference>)
        ensures
            *time_reference == self.spec_time_reference(),
    {
        &self.time_reference.0
    }

    /// Time of the flight in terms of ticks since boot.
    pub fn timestamp(&self) -> (timestamp: u64)
        ensures
            timestamp == self.spec_timestamp(),
    {
        self.timestamp
    }

    /// The address of the start of the flight's logs.
    pub fn data_addr(&self) -> (addr: u32)
        ensures
            addr == addr24_value(self.spec_addr()@),
            addr < 0x100_0000,
    {
        let a = self.addr;
        let value = (a[0] as u32) | ((a[1] as u32) << 8) | ((a[2] as u32) << 16);
        let (b0, b1, b2) = (a[0], a[1], a[2]);
        assert((b0 as u32) | ((b1 as u32) << 8) | ((b2 as u32) << 16) < 0x100_0000) by (bit_vector);
        value
    }
}

/// The header's address is the low 24 bits of the address it was made with.
pub proof fn lemma_flight_header_addr_round_trip(addr: u32)
    ensures
        addr24_value(u32_le_bytes(addr).take(3)) == addr & 0xff_ffff,
{
    let b = u32_le_bytes(addr).take(3);
    assert(b[0] == (addr & 0xff) as u8);
    assert(b[1] == ((addr >> 8) & 0xff) as u8);
    assert(b[2] == ((addr >> 16) & 0xff) as u8);
    assert(((((addr & 0xff) as u8) as u32) | (((((addr >> 8) & 0xff) as u8) as u32) << 8) | (((((
    addr >> 16) & 0xff) as u8) as u32) << 16)) == addr & 0xff_ffff) by (bit_vector);
}

/// The tracking byte of a flight header. Erased NOR flash reads as 0xFF.
#[derive(Clone, Copy, Debug, PartialEq, Eq, Structural)]
pub enum FlightHeaderStatus {
    Null,
    Valid,
    Overwritten,
}

impl<T: SongSize + ToSong + FromSong> SongSize for Page<T> {
    open spec fn song_len(&self) -> nat {
        self.index.song_len() + self.data.song_len()
    }

    fn song_size(&self) -> (n: usize) {
        self.index.song_size() + self.data.song_size()
    }
}

impl<T: SongSize + ToSong + FromSong> ToSong for Page<T> {
    open spec fn song_bytes(&self) -> Seq<u8> {
        self.index.song_bytes() + self.data.song_bytes()
    }

    proof fn lemma_song_bytes_len(&self) {
        self.index.lemma_song_bytes_len();
        self.data.lemma_song_bytes_len();
    }

    fn to_song_at(&self, buf: &mut [u8], pos: usize) -> (r: Result<(), ToSongError>) {
        if buf.len() - pos < self.song_size() {
            return Err(ToSongError::BufferOverflow);
        }
        proof {
            self.index.lemma_song_bytes_len();
            self.data.lemma_song_bytes_len();
        }
        let ghost start = buf@;
        let mut i = pos;
        match self.index.to_song_at(buf, i) {
            Ok(()) => {},
            Err(e) => return Err(e),
        }
        i = i + self.index.song_size();
        let ghost before = buf@;
        match self.data.to_song_at(buf, i) {
            Ok(()) => {},
            Err(e) => return Err(e),
        }
        proof {
            lemma_write_after(start, before, buf@, pos as int, self.index.song_bytes(), self.data.song_bytes());
        }
        Ok(())
    }
}

impl<T: SongSize + ToSong + FromSong> FromSong for Page<T> {
    open spec fn song_parse(bytes: Seq<u8>) -> Result<Page<T>, FromSongError> {
        match <u16 as FromSong>::song_parse(bytes) { Err(e) => Err(e), Ok(index) => match <T as FromSong>::song_parse(bytes.skip((index.song_len()) as int)) { Err(e) => Err(e), Ok(data) => Ok(Page { index, data }) } }
    }

    proof fn lemma_parse_len(bytes: Seq<u8>) {
        <u16 as FromSong>::lemma_parse_len(bytes);
        if let Ok(index) = <u16 as FromSong>::song_parse(bytes) {
            <T as FromSong>::lemma_parse_len(bytes.skip((index.song_len()) as int));
        }
    }

    fn from_song_at(buf: &[u8], pos: usize) -> (r: Result<Page<T>, FromSongError>) {
        let ghost b = buf@.skip(pos as int);
        assert(buf@.len() == buf.len());
        let mut i = pos;
        assert(buf@.skip(i as int) =~= b);
        let v_index = match <u16 as FromSong>::from_song_at(buf, i) {
            Ok(v) => v,
            Err(e) => return Err(e),
        };
        proof {
            <u16 as FromSong>::lemma_parse_len(b);
        }
        i = i + v_index.song_size();
        assert(buf@.skip(i as int) =~= b.skip((v_index.song_len()) as int));
        let v_data = match <T as FromSong>::from_song_at(buf, i) {
            Ok(v) => v,
            Err(e) => return Err(e),
        };
        Ok(Page { index: v_index, data: v_data })
    }
}

impl<T: SongRoundTrip> SongRoundTrip for Page<T> {
    proof fn lemma_song_round_trip(&self, rest: Seq<u8>) {
        self.index.lemma_song_bytes_len();
        self.data.lemma_song_bytes_len();
        let b = self.song_bytes() + rest;
        assert(b =~= self.index.song_bytes() + (self.data.song_bytes() + rest));
        self.index.lemma_song_round_trip(self.data.song_bytes() + rest);
        assert(b.skip((self.index.song_bytes().len()) as int) =~= self.data.song_bytes() + (rest));
        self.data.lemma_song_round_trip(rest);
    }
}

/// The byte that stands for each value of `IoChannel` on the wire.
pub open spec fn io_channel_wire_value(value: IoChannel) -> u8 {
    match value {
        IoChannel::Broadcast => 0,
        IoChannel::Usb => 1,
        IoChannel::ToLoRa => 2,
        IoChannel::FromLoRa => 3,
        IoChannel::Flash => 4,
    }
}

impl IoChannel {
    /// The byte that stands for this value on the wire.
    pub fn wire_value(self) -> (value: u8)
        ensures
            value == io_channel_wire_value(self),
    {
        match self {
            IoChannel::Broadcast => 0,
            IoChannel::Usb => 1,
            IoChannel::ToLoRa => 2,
            IoChannel::FromLoRa => 3,
            IoChannel::Flash => 4,
        }
    }
}

impl HasSongSize for IoChannel {
    type Size = ConstSongSizeValue<1>;
}

impl SongSize for IoChannel {
    open spec fn song_len(&self) -> nat {
        1
    }

    fn song_size(&self) -> (n: usize) {
        1
    }
}

impl ConstSongSize for IoChannel {
    open spec fn const_song_len() -> nat {
        1
    }

    fn const_song_size() -> (n: usize) {
        1
    }

    fn const_song_fits(len: usize) -> (b: bool) {
        1 <= len
    }

    proof fn lemma_const_song_len(v: &Self) {
    }

    proof fn lemma_const_song_len_of_type() {
    }
}

impl ToSong for IoChannel {
    open spec fn song_bytes(&self) -> Seq<u8> {
        seq![io_channel_wire_value(*self)]
    }

    proof fn lemma_song_bytes_len(&self) {
    }

    fn to_song_at(&self, buf: &mut [u8], pos: usize) -> (r: Result<(), ToSongError>) {
        let value = self.wire_value();
        assert(value.song_bytes() == self.song_bytes());
        value.to_song_at(buf, pos)
    }
}

impl FromSong for IoChannel {
    open spec fn song_parse(bytes: Seq<u8>) -> Result<IoChannel, FromSongError> {
        if bytes.len() < 1 {
            Err(FromSongError::BufferOverflow)
        } else if bytes[0] == 0 {
            Ok(IoChannel::Broadcast)
        } else if bytes[0] == 1 {
            Ok(IoChannel::Usb)
        } else if bytes[0] == 2 {
            Ok(IoChannel::ToLoRa)
        } else if bytes[0] == 3 {
            Ok(IoChannel::FromLoRa)
        } else if bytes[0] == 4 {
            Ok(IoChannel::Flash)
        } else {
            Err(FromSongError::InvalidPacketId)
        }
    }

    proof fn lemma_parse_len(bytes: Seq<u8>) {
    }

    fn from_song_at(buf: &[u8], pos: usize) -> (r: Result<IoChannel, FromSongError>) {
        if buf.len() - pos < 1 {
            return Err(FromSongError::BufferOverflow);
        }
        let ghost s = buf@.skip(pos as int);
        assert(s[0] == buf@[pos as int]);
        match buf[pos] {
            0 => Ok(IoChannel::Broadcast),
            1 => Ok(IoChannel::Usb),
            2 => Ok(IoChannel::ToLoRa),
            3 => Ok(IoChannel::FromLoRa),
            4 => Ok(IoChannel::Flash),
            _ => Err(FromSongError::InvalidPacketId),
        }
    }
}

impl SongRoundTrip for IoChannel {
    proof fn lemma_song_round_trip(&self, rest: Seq<u8>) {
        assert((self.song_bytes() + rest)[0] == io_channel_wire_value(*self));
    }
}

impl<P: SongSize + ToSong + FromSong> SongSize for RadioPacket<P> {
    open spec fn song_len(&self) -> nat {
        self.id.song_len() + self.callsign.song_len() + self.packet.song_len()
    }

    fn song_size(&self) -> (n: usize) {
        self.id.song_size() + self.callsign.song_size() + self.packet.song_size()
    }
}

impl<P: SongSize + ToSong + FromSong> ToSong for RadioPacket<P> {
    open spec fn song_bytes(&self) -> Seq<u8> {
        self.id.song_bytes() + self.callsign.song_bytes() + self.packet.song_bytes()
    }

    proof fn lemma_song_bytes_len(&self) {
        self.id.lemma_song_bytes_len();
        self.callsign.lemma_song_bytes_len();
        self.packet.lemma_song_bytes_len();
    }

    fn to_song_at(&self, buf: &mut [u8], pos: usize) -> (r: Result<(), ToSongError>) {
        if buf.len() - pos < self.song_size() {
            return Err(ToSongError::BufferOverflow);
        }
        proof {
            self.id.lemma_song_bytes_len();
            self.callsign.lemma_song_bytes_len();
            self.packet.lemma_song_bytes_len();
        }
        let ghost start = buf@;
        let mut i = pos;
        match self.id.to_song_at(buf, i) {
            Ok(()) => {},
            Err(e) => return Err(e),
        }
        i = i + self.id.song_size();
        let ghost before = buf@;
        match self.callsign.to_song_at(buf, i) {
            Ok(()) => {},
            Err(e) => return Err(e),
        }
        proof {
            lemma_write_after(start, before, buf@, pos as int, self.id.song_bytes(), self.callsign.song_bytes());
        }
        i = i + self.callsign.song_size();
        let ghost before = buf@;
        match self.packet.to_song_at(buf, i) {
            Ok(()) => {},
            Err(e) => return Err(e),
        }
        proof {
            lemma_write_after(start, before, buf@, pos as int, self.id.song_bytes() + self.callsign.song_bytes(), self.packet.song_bytes());
        }
        Ok(())
    }
}

impl<P: SongSize + ToSong + FromSong> FromSong for RadioPacket<P> {
    open spec fn song_parse(bytes: Seq<u8>) -> Result<RadioPacket<P>, FromSongError> {
        match <u16 as FromSong>::song_parse(bytes) { Err(e) => Err(e), Ok(id) => match <[u8; 8] as FromSong>::song_parse(bytes.skip((id.song_len()) as int)) { Err(e) => Err(e), Ok(callsign) => match <P as FromSong>::song_parse(bytes.skip((id.song_len() + callsign.song_len()) as int)) { Err(e) => Err(e), Ok(packet) => Ok(RadioPacket { id, callsign, packet }) } } }
    }

    proof fn lemma_parse_len(bytes: Seq<u8>) {
        <u16 as FromSong>::lemma_parse_len(bytes);
        if let Ok(id) = <u16 as FromSong>::song_parse(bytes) {
            <[u8; 8] as FromSong>::lemma_parse_len(bytes.skip((id.song_len()) as int));
            if let Ok(callsign) = <[u8; 8] as FromSong>::song_parse(bytes.skip((id.song_len()) as int)) {
                assert(bytes.skip((id.song_len() + callsign.song_len()) as int) =~= bytes.skip((id.song_len()) as int).skip(callsign.song_len() as int));
                <P as FromSong>::lemma_parse_len(bytes.skip((id.song_len() + callsign.song_len()) as int));
            }
        }
    }

    fn from_song_at(buf: &[u8], pos: usize) -> (r: Result<RadioPacket<P>, FromSongError>) {
        let ghost b = buf@.skip(pos as int);
        assert(buf@.len() == buf.len());
        let mut i = pos;
        assert(buf@.skip(i as int) =~= b);
        let v_id = match <u16 as FromSong>::from_song_at(buf, i) {
            Ok(v) => v,
            Err(e) => return Err(e),
        };
        proof {
            <u16 as FromSong>::lemma_parse_len(b);
        }
        i = i + v_id.song_size();
        assert(buf@.skip(i as int) =~= b.skip((v_id.song_len()) as int));
        let v_callsign = match <[u8; 8] as FromSong>::from_song_at(buf, i) {
            Ok(v) => v,
            Err(e) => return Err(e),
        };
        proof {
            <[u8; 8] as FromSong>::lemma_parse_len(b.skip((v_id.song_len()) as int));
        }
        i = i + v_callsign.song_size();
        assert(buf@.skip(i as int) =~= b.skip((v_id.song_len() + v_callsign.song_len()) as int));
        let v_packet = match <P as FromSong>::from_song_at(buf, i) {
            Ok(v) => v,
            Err(e) => return Err(e),
        };
        Ok(RadioPacket { id: v_id, callsign: v_callsign, packet: v_packet })
    }
}

impl<P: SongRoundTrip> SongRoundTrip for RadioPacket<P> {
    proof fn lemma_song_round_trip(&self, rest: Seq<u8>) {
        self.id.lemma_song_bytes_len();
        self.callsign.lemma_song_bytes_len();
        self.packet.lemma_song_bytes_len();
        let b = self.song_bytes() + rest;
        assert(b =~= self.id.song_bytes() + (self.callsign.song_bytes() + self.packet.song_bytes() + rest));
        self.id.lemma_song_round_trip(self.callsign.song_bytes() + self.packet.song_bytes() + rest);
        assert(b.skip((self.id.song_bytes().len()) as int) =~= self.callsign.song_bytes() + (self.packet.song_bytes() + rest));
        self.callsign.lemma_song_round_trip(self.packet.song_bytes() + rest);
        assert(b.skip((self.id.song_bytes().len() + self.callsign.song_bytes().len()) as int) =~= self.packet.song_bytes() + (rest));
        self.packet.lemma_song_round_trip(rest);
    }
}

/// Every header takes 21 bytes: status, address, time reference slot and timestamp.
impl HasSongSize for FlightHeader {
    type Size = ConstSongSizeValue<21>;
}

impl ConstSongSize for FlightHeader {
    open spec fn const_song_len() -> nat {
        21
    }

    fn const_song_size() -> (n: usize) {
        21
    }

    fn const_song_fits(len: usize) -> (b: bool) {
        21 <= len
    }

    proof fn lemma_const_song_len(v: &Self) {
        <[u8; 3] as ConstSongSize>::lemma_const_song_len(&v.addr);
    }

    proof fn lemma_const_song_len_of_type() {
    }
}

impl SongSize for FlightHeader {
    closed spec fn song_len(&self) -> nat {
        self.status.song_len() + self.addr.song_len() + self.time_reference.song_len() + self.timestamp.song_len()
    }

    fn song_size(&self) -> (n: usize) {
        self.status.song_size() + self.addr.song_size() + self.time_reference.song_size() + self.timestamp.song_size()
    }
}

impl ToSong for FlightHeader {
    closed spec fn song_bytes(&self) -> Seq<u8> {
        self.status.song_bytes() + self.addr.song_bytes() + self.time_reference.song_bytes() + self.timestamp.song_bytes()
    }

    proof fn lemma_song_bytes_len(&self) {
        self.status.lemma_song_bytes_len();
        self.addr.lemma_song_bytes_len();
        self.time_reference.lemma_song_bytes_len();
        self.timestamp.lemma_song_bytes_len();
    }

    fn to_song_at(&self, buf: &mut [u8], pos: usize) -> (r: Result<(), ToSongError>) {
        if buf.len() - pos < self.song_size() {
            return Err(ToSongError::BufferOverflow);
        }
        proof {
            self.status.lemma_song_bytes_len();
            self.addr.lemma_song_bytes_len();
            self.time_reference.lemma_song_bytes_len();
            self.timestamp.lemma_song_bytes_len();
        }
        let ghost start = buf@;
        let mut i = pos;
        match self.status.to_song_at(buf, i) {
            Ok(()) => {},
            Err(e) => return Err(e),
        }
        i = i + self.status.song_size();
        let ghost before = buf@;
        match self.addr.to_song_at(buf, i) {
            Ok(()) => {},
            Err(e) => return Err(e),
        }
        proof {
            lemma_write_after(start, before, buf@, pos as int, self.status.song_bytes(), self.addr.song_bytes());
        }
        i = i + self.addr.song_size();
        let ghost before = buf@;
        match self.time_reference.to_song_at(buf, i) {
            Ok(()) => {},
            Err(e) => return Err(e),
        }
        proof {
            lemma_write_after(start, before, buf@, pos as int, self.status.song_bytes() + self.addr.song_bytes(), self.time_reference.song_bytes());
        }
        i = i + self.time_reference.song_size();
        let ghost before = buf@;
        match self.timestamp.to_song_at(buf, i) {
            Ok(()) => {},
            Err(e) => return Err(e),
        }
        proof {
            lemma_write_after(start, before, buf@, pos as int, self.status.song_bytes() + self.addr.song_bytes() + self.time_reference.song_bytes(), self.timestamp.song_bytes());
        }
        Ok(())
    }
}

impl FromSong for FlightHeader {
    closed spec fn song_parse(bytes: Seq<u8>) -> Result<FlightHeader, FromSongError> {
        match <FlightHeaderStatus as FromSong>::song_parse(bytes) { Err(e) => Err(e), Ok(status) => match <[u8; 3] as FromSong>::song_parse(bytes.skip((status.song_len()) as int)) { Err(e) => Err(e), Ok(addr) => match <MaybeUnwrittenMaxBytes<AbsoluteTimeReference> as FromSong>::song_parse(bytes.skip((status.song_len() + addr.song_len()) as int)) { Err(e) => Err(e), Ok(time_reference) => match <u64 as FromSong>::song_parse(bytes.skip((status.song_len() + addr.song_len() + time_reference.song_len()) as int)) { Err(e) => Err(e), Ok(timestamp) => Ok(FlightHeader { status, addr, time_reference, timestamp }) } } } }
    }

    proof fn lemma_parse_len(bytes: Seq<u8>) {
        <FlightHeaderStatus as FromSong>::lemma_parse_len(bytes);
        if let Ok(status) = <FlightHeaderStatus as FromSong>::song_parse(bytes) {
            <[u8; 3] as FromSong>::lemma_parse_len(bytes.skip((status.song_len()) as int));
            if let Ok(addr) = <[u8; 3] as FromSong>::song_parse(bytes.skip((status.song_len()) as int)) {
                assert(bytes.skip((status.song_len() + addr.song_len()) as int) =~= bytes.skip((status.song_len()) as int).skip(addr.song_len() as int));
                <MaybeUnwrittenMaxBytes<AbsoluteTimeReference> as FromSong>::lemma_parse_len(bytes.skip((status.song_len() + addr.song_len()) as int));
                if let Ok(time_reference) = <MaybeUnwrittenMaxBytes<AbsoluteTimeReference> as FromSong>::song_parse(bytes.skip((status.song_len() + addr.song_len()) as int)) {
                    assert(bytes.skip((status.song_len() + addr.song_len() + time_reference.song_len()) as int) =~= bytes.skip((status.song_len() + addr.song_len()) as int).skip(time_reference.song_len() as int));
                    <u64 as FromSong>::lemma_parse_len(bytes.skip((status.song_len() + addr.song_len() + time_reference.song_len()) as int));
                }
            }
        }
    }

    fn from_song_at(buf: &[u8], pos: usize) -> (r: Result<FlightHeader, FromSongError>) {
        let ghost b = buf@.skip(pos as int);
        assert(buf@.len() == buf.len());
        let mut i = pos;
        assert(buf@.skip(i as int) =~= b);
        let v_status = match <FlightHeaderStatus as FromSong>::from_song_at(buf, i) {
            Ok(v) => v,
            Err(e) => return Err(e),
        };
        proof {
            <FlightHeaderStatus as FromSong>::lemma_parse_len(b);
        }
        i = i + v_status.song_size();
        assert(buf@.skip(i as int) =~= b.skip((v_status.song_len()) as int));
        let v_addr = match <[u8; 3] as FromSong>::from_song_at(buf, i) {
            Ok(v) => v,
            Err(e) => return Err(e),
        };
        proof {
            <[u8; 3] as FromSong>::lemma_parse_len(b.skip((v_status.song_len()) as int));
        }
        i = i + v_addr.song_size();
        assert(buf@.skip(i as int) =~= b.skip((v_status.song_len() + v_addr.song_len()) as int));
        let v_time_reference = match <MaybeUnwrittenMaxBytes<AbsoluteTimeReference> as FromSong>::from_song_at(buf, i) {
            Ok(v) => v,
            Err(e) => return Err(e),
        };
        proof {
            <MaybeUnwrittenMaxBytes<AbsoluteTimeReference> as FromSong>::lemma_parse_len(b.skip((v_status.song_len() + v_addr.song_len()) as int));
        }
        i = i + v_time_reference.song_size();
        assert(buf@.skip(i as int) =~= b.skip((v_status.song_len() + v_addr.song_len() + v_time_reference.song_len()) as int));
        let v_timestamp = match <u64 as FromSong>::from_song_at(buf, i) {
            Ok(v) => v,
            Err(e) => return Err(e),
        };
        Ok(FlightHeader { status: v_status, addr: v_addr, time_reference: v_time_reference, timestamp: v_timestamp })
    }
}

impl SongRoundTrip for FlightHeader {
    proof fn lemma_song_round_trip(&self, rest: Seq<u8>) {
        self.status.lemma_song_bytes_len();
        self.addr.lemma_song_bytes_len();
        self.time_reference.lemma_song_bytes_len();
        self.timestamp.lemma_song_bytes_len();
        let b = self.song_bytes() + rest;
        assert(b =~= self.status.song_bytes() + (self.addr.song_bytes() + self.time_reference.song_bytes() + self.timestamp.song_bytes() + rest));
        self.status.lemma_song_round_trip(self.addr.song_bytes() + self.time_reference.song_bytes() + self.timestamp.song_bytes() + rest);
        assert(b.skip((self.status.song_bytes().len()) as int) =~= self.addr.song_bytes() + (self.time_reference.song_bytes() + self.timestamp.song_bytes() + rest));
        self.addr.lemma_song_round_trip(self.time_reference.song_bytes() + self.timestamp.song_bytes() + rest);
        assert(b.skip((self.status.song_bytes().len() + self.addr.song_bytes().len()) as int) =~= self.time_reference.song_bytes() + (self.timestamp.song_bytes() + rest));
        self.time_reference.lemma_song_round_trip(self.timestamp.song_bytes() + rest);
        assert(b.skip((self.status.song_bytes().len() + self.addr.song_bytes().len() + self.time_reference.song_bytes().len()) as int) =~= self.timestamp.song_bytes() + (rest));
        self.timestamp.lemma_song_round_trip(rest);
    }
}

/// Zeroing the first byte of a written header, which is what the cyclic flash log does to a
/// flight it overwrites, leaves a header that reads back as `Overwritten` with the same address,
/// time reference and timestamp: the status is the header's first byte.
pub proof fn lemma_overwritten_header_reads_back(h: FlightHeader, rest: Seq<u8>)
    ensures
        (h.song_bytes() + rest)[0] == flight_header_status_wire_value(h.spec_status()),
        FlightHeader::song_parse((h.song_bytes() + rest).update(0, 0u8)) matches Ok(r) && {
            &&& r.spec_status() == FlightHeaderStatus::Overwritten
            &&& r.spec_addr() == h.spec_addr()
            &&& r.spec_time_reference() == h.spec_time_reference()
            &&& r.spec_timestamp() == h.spec_timestamp()
        },
{
    let erased = FlightHeader { status: FlightHeaderStatus::Overwritten, ..h };
    let tail = h.addr.song_bytes() + h.time_reference.song_bytes() + h.timestamp.song_bytes();
    assert(h.song_bytes() + rest =~= seq![flight_header_status_wire_value(h.status)] + (tail + rest));
    assert(erased.song_bytes() + rest =~= seq![0u8] + (tail + rest));
    assert((h.song_bytes() + rest).update(0, 0u8) =~= erased.song_bytes() + rest);
    erased.lemma_song_round_trip(rest);
}

/// The byte that stands for each value of `FlightHeaderStatus` on the wire.
pub open spec fn flight_header_status_wire_value(value: FlightHeaderStatus) -> u8 {
    match value {
        FlightHeaderStatus::Null => 0xFF,
        FlightHeaderStatus::Valid => 0x01,
        FlightHeaderStatus::Overwritten => 0x00,
    }
}

impl FlightHeaderStatus {
    /// The byte that stands for this value on the wire.
    pub fn wire_value(self) -> (value: u8)
        ensures
            value == flight_header_status_wire_value(self),
    {
        match self {
            FlightHeaderStatus::Null => 0xFF,
            FlightHeaderStatus::Valid => 0x01,
            FlightHeaderStatus::Overwritten => 0x00,
        }
    }
}

impl HasSongSize for FlightHeaderStatus {
    type Size = ConstSongSizeValue<1>;
}

impl SongSize for FlightHeaderStatus {
    open spec fn song_len(&self) -> nat {
        1
    }

    fn song_size(&self) -> (n: usize) {
        1
    }
}

impl ConstSongSize for FlightHeaderStatus {
    open spec fn const_song_len() -> nat {
        1
    }

    fn const_song_size() -> (n: usize) {
        1
    }

    fn const_song_fits(len: usize) -> (b: bool) {
        1 <= len
    }

    proof fn lemma_const_song_len(v: &Self) {
    }

    proof fn lemma_const_song_len_of_type() {
    }
}

impl ToSong for FlightHeaderStatus {
    open spec fn song_bytes(&self) -> Seq<u8> {
        seq![flight_header_status_wire_value(*self)]
    }

    proof fn lemma_song_bytes_len(&self) {
    }

    fn to_song_at(&self, buf: &mut [u8], pos: usize) -> (r: Result<(), ToSongError>) {
        let value = self.wire_value();
        assert(value.song_bytes() == self.song_bytes());
        value.to_song_at(buf, pos)
    }
}

impl FromSong for FlightHeaderStatus {
    open spec fn song_parse(bytes: Seq<u8>) -> Result<FlightHeaderStatus, FromSongError> {
        if bytes.len() < 1 {
            Err(FromSongError::BufferOverflow)
        } else if bytes[0] == 0xFF {
            Ok(FlightHeaderStatus::Null)
        } else if bytes[0] == 0x01 {
            Ok(FlightHeaderStatus::Valid)
        } else if bytes[0] == 0x00 {
            Ok(FlightHeaderStatus::Overwritten)
        } else {
            Err(FromSongError::InvalidPacketId)
        }
    }

    proof fn lemma_parse_len(bytes: Seq<u8>) {
    }

    fn from_song_at(buf: &[u8], pos: usize) -> (r: Result<FlightHeaderStatus, FromSongError>) {
        if buf.len() - pos < 1 {
            return Err(FromSongError::BufferOverflow);
        }
        let ghost s = buf@.skip(pos as int);
        assert(s[0] == buf@[pos as int]);
        match buf[pos] {
            0xFF => Ok(FlightHeaderStatus::Null),
            0x01 => Ok(FlightHeaderStatus::Valid),
            0x00 => Ok(FlightHeaderStatus::Overwritten),
            _ => Err(FromSongError::InvalidPacketId),
        }
    }
}

impl SongRoundTrip for FlightHeaderStatus {
    proof fn lemma_song_round_trip(&self, rest: Seq<u8>) {
        assert((self.song_bytes() + rest)[0] == flight_header_status_wire_value(*self));
    }
}

impl TaggedSong for IoChannel {
    open spec fn tag(&self) -> u8 {
        io_channel_wire_value(*self)
    }

    open spec fn is_tag(b: u8) -> bool {
        b < 5
    }

    proof fn lemma_starts_with_tag(&self) {
    }

    proof fn lemma_refused(bytes: Seq<u8>) {
    }
}

impl TaggedSong for FlightHeaderStatus {
    open spec fn tag(&self) -> u8 {
        flight_header_status_wire_value(*self)
    }

    open spec fn is_tag(b: u8) -> bool {
        b == 0xFF || b == 0x01 || b == 0x00
    }

    proof fn lemma_starts_with_tag(&self) {
    }

    proof fn lemma_refused(bytes: Seq<u8>) {
    }
}


/// On the wire a `Page` is its fields `index`, `data`, in that order, each in its own encoding with
/// nothing between them; reading those bytes gives the value back, whatever follows them.
pub proof fn lemma_page_layout<T: SongRoundTrip>(v: Page<T>, rest: Seq<u8>)
    ensures
        v.song_bytes() == v.index.song_bytes() + v.data.song_bytes(),
        v.song_len() == v.index.song_len() + v.data.song_len(),
        <Page<T> as FromSong>::song_parse(v.index.song_bytes() + v.data.song_bytes() + rest) == Ok::<Page<T>, FromSongError>(v),
{
    v.lemma_song_round_trip(rest);
}

/// On the wire a `RadioPacket` is its fields `id`, `callsign`, `packet`, in that order, each in its own encoding with
/// nothing between them; reading those bytes gives the value back, whatever follows them.
pub proof fn lemma_radio_packet_layout<P: SongRoundTrip>(v: RadioPacket<P>, rest: Seq<u8>)
    ensures
        v.song_bytes() == v.id.song_bytes() + v.callsign.song_bytes() + v.packet.song_bytes(),
        v.song_len() == v.id.song_len() + v.callsign.song_len() + v.packet.song_len(),
        <RadioPacket<P> as FromSong>::song_parse(v.id.song_bytes() + v.callsign.song_bytes() + v.packet.song_bytes() + rest) == Ok::<RadioPacket<P>, FromSongError>(v),
{
    v.lemma_song_round_trip(rest);
}


/// On the wire a `FlightHeader` is its status, its address bytes, its time reference slot and its
/// timestamp, in that order, each in its own encoding with nothing between them; reading those
/// bytes gives the header back, whatever follows them.
pub proof fn lemma_flight_header_layout(h: FlightHeader, rest: Seq<u8>)
    ensures
        h.song_bytes() == h.spec_status().song_bytes() + h.spec_addr().song_bytes()
            + MaybeUnwrittenMaxBytes(h.spec_time_reference()).song_bytes()
            + h.spec_timestamp().song_bytes(),
        h.song_len() == h.spec_status().song_len() + h.spec_addr().song_len()
            + MaybeUnwrittenMaxBytes(h.spec_time_reference()).song_len()
            + h.spec_timestamp().song_len(),
        <FlightHeader as FromSong>::song_parse(
            h.spec_status().song_bytes() + h.spec_addr().song_bytes()
                + MaybeUnwrittenMaxBytes(h.spec_time_reference()).song_bytes()
                + h.spec_timestamp().song_bytes() + rest,
        ) == Ok::<FlightHeader, FromSongError>(h),
{
    h.lemma_song_round_trip(rest);
}


/// On the wire a `IoChannel` is one byte: `Broadcast` is 0, `Usb` is 1, `ToLoRa` is 2, `FromLoRa` is 3, `Flash` is 4. Reading that byte gives the value
/// back, whatever follows it.
pub proof fn lemma_io_channel_layout(v: IoChannel, rest: Seq<u8>)
    ensures
        v is Broadcast ==> v.song_bytes() == seq![0u8]
            && <IoChannel as FromSong>::song_parse(seq![0u8] + rest) == Ok::<IoChannel, FromSongError>(v),
        v is Usb ==> v.song_bytes() == seq![1u8]
            && <IoChannel as FromSong>::song_parse(seq![1u8] + rest) == Ok::<IoChannel, FromSongError>(v),
        v is ToLoRa ==> v.song_bytes() == seq![2u8]
            && <IoChannel as FromSong>::song_parse(seq![2u8] + rest) == Ok::<IoChannel, FromSongError>(v),
        v is FromLoRa ==> v.song_bytes() == seq![3u8]
            && <IoChannel as FromSong>::song_parse(seq![3u8] + rest) == Ok::<IoChannel, FromSongError>(v),
        v is Flash ==> v.song_bytes() == seq![4u8]
            && <IoChannel as FromSong>::song_parse(seq![4u8] + rest) == Ok::<IoChannel, FromSongError>(v),
{
    v.lemma_song_round_trip(rest);
}

/// On the wire a `FlightHeaderStatus` is one byte: `Null` is 0xFF, `Valid` is 0x01, `Overwritten` is 0x00. Reading that byte gives the value
/// back, whatever follows it.
pub proof fn lemma_flight_header_status_layout(v: FlightHeaderStatus, rest: Seq<u8>)
    ensures
        v is Null ==> v.song_bytes() == seq![0xFFu8]
            && <FlightHeaderStatus as FromSong>::song_parse(seq![0xFFu8] + rest) == Ok::<FlightHeaderStatus, FromSongError>(v),
        v is Valid ==> v.song_bytes() == seq![0x01u8]
            && <FlightHeaderStatus as FromSong>::song_parse(seq![0x01u8] + rest) == Ok::<FlightHeaderStatus, FromSongError>(v),
        v is Overwritten ==> v.song_bytes() == seq![0x00u8]
            && <FlightHeaderStatus as FromSong>::song_parse(seq![0x00u8] + rest) == Ok::<FlightHeaderStatus, FromSongError>(v),
{
    v.lemma_song_round_trip(rest);
}

} // verus!
