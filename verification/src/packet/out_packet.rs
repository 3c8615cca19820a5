//! Packets from the flight computer to the ground.

use vstd::prelude::*;
use crate::song::{
    write_tagged, ConstSongSize, ConstSongSizeValue, FromSong, FromSongError, HasSongSize,
    SongDiscriminant, SongRoundTrip, SongSize, TaggedSong, ToSong, ToSongError,
};
use crate::config::SirinConfig;
use crate::mode::SirinMode;
use super::sirin_state::SirinState;
use super::log::LogEntry;
use super::request::PacketError;
use super::{FlightHeader, Page};

verus! {

/// Packets sent from the flight computer to the ground.
#[derive(Debug, Clone)]
pub enum OutPacket {
    Null,
    /// The request was carried out.
    Okay,
    Error(PacketError),
    Config(SirinConfig),
    Mode(SirinMode),
    FlightStart(u8),
    LogEntry(LogEntry),
    FlightHeader(Page<FlightHeader>),
    State(SirinState),
    DeployedApoAt(u32),
    DeployedMainAt(u32),
}


/// The tag that starts each kind of [`OutPacket`].
#[derive(Clone, Copy, PartialEq, Eq, Debug, Structural)]
pub enum OutPacketType {
    Null,
    Okay,
    Error,
    Config,
    Mode,
    FlightStart,
    LogEntry,
    FlightHeader,
    State,
    DeployedApoAt,
    DeployedMainAt,
}

/// The byte that stands for each value of `OutPacketType` on the wire.
pub open spec fn out_packet_type_wire_value(value: OutPacketType) -> u8 {
    match value {
        OutPacketType::Null => 0,
        OutPacketType::Okay => 1,
        OutPacketType::Error => 2,
        OutPacketType::Config => 3,
        OutPacketType::Mode => 4,
        OutPacketType::FlightStart => 5,
        OutPacketType::LogEntry => 6,
        OutPacketType::FlightHeader => 7,
        OutPacketType::State => 8,
        OutPacketType::DeployedApoAt => 9,
        OutPacketType::DeployedMainAt => 10,
    }
}

impl OutPacketType {
    /// The byte that stands for this value on the wire.
    pub fn wire_value(self) -> (value: u8)
        ensures
            value == out_packet_type_wire_value(self),
    {
        match self {
            OutPacketType::Null => 0,
            OutPacketType::Okay => 1,
            OutPacketType::Error => 2,
            OutPacketType::Config => 3,
            OutPacketType::Mode => 4,
            OutPacketType::FlightStart => 5,
            OutPacketType::LogEntry => 6,
            OutPacketType::FlightHeader => 7,
            OutPacketType::State => 8,
            OutPacketType::DeployedApoAt => 9,
            OutPacketType::DeployedMainAt => 10,
        }
    }
}

impl HasSongSize for OutPacketType {
    type Size = ConstSongSizeValue<1>;
}

impl SongSize for OutPacketType {
    open spec fn song_len(&self) -> nat {
        1
    }

    fn song_size(&self) -> (n: usize) {
        1
    }
}

impl ConstSongSize for OutPacketType {
    open spec fn const_song_len() -> nat {
        1
    }

    fn const_song_size() -> (n: usize) {
        1
    }

    fn const_song_fits(len: usize) -> (b: bool) {
        1 <= len
    }

    proof fn lemma_const_song_len(v: &Self) {
    }

    proof fn lemma_const_song_len_of_type() {
    }
}

impl ToSong for OutPacketType {
    open spec fn song_bytes(&self) -> Seq<u8> {
        seq![out_packet_type_wire_value(*self)]
    }

    proof fn lemma_song_bytes_len(&self) {
    }

    fn to_song_at(&self, buf: &mut [u8], pos: usize) -> (r: Result<(), ToSongError>) {
        let value = self.wire_value();
        assert(value.song_bytes() == self.song_bytes());
        value.to_song_at(buf, pos)
    }
}

impl FromSong for OutPacketType {
    open spec fn song_parse(bytes: Seq<u8>) -> Result<OutPacketType, FromSongError> {
        if bytes.len() < 1 {
            Err(FromSongError::BufferOverflow)
        } else if bytes[0] == 0 {
            Ok(OutPacketType::Null)
        } else if bytes[0] == 1 {
            Ok(OutPacketType::Okay)
        } else if bytes[0] == 2 {
            Ok(OutPacketType::Error)
        } else if bytes[0] == 3 {
            Ok(OutPacketType::Config)
        } else if bytes[0] == 4 {
            Ok(OutPacketType::Mode)
        } else if bytes[0] == 5 {
            Ok(OutPacketType::FlightStart)
        } else if bytes[0] == 6 {
            Ok(OutPacketType::LogEntry)
        } else if bytes[0] == 7 {
            Ok(OutPacketType::FlightHeader)
        } else if bytes[0] == 8 {
            Ok(OutPacketType::State)
        } else if bytes[0] == 9 {
            Ok(OutPacketType::DeployedApoAt)
        } else if bytes[0] == 10 {
            Ok(OutPacketType::DeployedMainAt)
        } else {
            Err(FromSongError::InvalidPacketId)
        }
    }

    proof fn lemma_parse_len(bytes: Seq<u8>) {
    }

    fn from_song_at(buf: &[u8], pos: usize) -> (r: Result<OutPacketType, FromSongError>) {
        if buf.len() - pos < 1 {
            return Err(FromSongError::BufferOverflow);
        }
        let ghost s = buf@.skip(pos as int);
        assert(s[0] == buf@[pos as int]);
        match buf[pos] {
            0 => Ok(OutPacketType::Null),
            1 => Ok(OutPacketType::Okay),
            2 => Ok(OutPacketType::Error),
            3 => Ok(OutPacketType::Config),
            4 => Ok(OutPacketType::Mode),
            5 => Ok(OutPacketType::FlightStart),
            6 => Ok(OutPacketType::LogEntry),
            7 => Ok(OutPacketType::FlightHeader),
            8 => Ok(OutPacketType::State),
            9 => Ok(OutPacketType::DeployedApoAt),
            10 => Ok(OutPacketType::DeployedMainAt),
            _ => Err(FromSongError::InvalidPacketId),
        }
    }
}

impl SongRoundTrip for OutPacketType {
    proof fn lemma_song_round_trip(&self, rest: Seq<u8>) {
        assert((self.song_bytes() + rest)[0] == out_packet_type_wire_value(*self));
    }
}

impl SongDiscriminant for OutPacket {
    type Discriminant = OutPacketType;

    open spec fn discriminant_of(&self) -> OutPacketType {
        match self {
            OutPacket::Null => OutPacketType::Null,
            OutPacket::Okay => OutPacketType::Okay,
            OutPacket::Error(..) => OutPacketType::Error,
            OutPacket::Config(..) => OutPacketType::Config,
            OutPacket::Mode(..) => OutPacketType::Mode,
            OutPacket::FlightStart(..) => OutPacketType::FlightStart,
            OutPacket::LogEntry(..) => OutPacketType::LogEntry,
            OutPacket::FlightHeader(..) => OutPacketType::FlightHeader,
            OutPacket::State(..) => OutPacketType::State,
            OutPacket::DeployedApoAt(..) => OutPacketType::DeployedApoAt,
            OutPacket::DeployedMainAt(..) => OutPacketType::DeployedMainAt,
        }
    }

    fn song_discriminant(&self) -> (d: OutPacketType) {
        match self {
            OutPacket::Null => OutPacketType::Null,
            OutPacket::Okay => OutPacketType::Okay,
            OutPacket::Error(..) => OutPacketType::Error,
            OutPacket::Config(..) => OutPacketType::Config,
            OutPacket::Mode(..) => OutPacketType::Mode,
            OutPacket::FlightStart(..) => OutPacketType::FlightStart,
            OutPacket::LogEntry(..) => OutPacketType::LogEntry,
            OutPacket::FlightHeader(..) => OutPacketType::FlightHeader,
            OutPacket::State(..) => OutPacketType::State,
            OutPacket::DeployedApoAt(..) => OutPacketType::DeployedApoAt,
            OutPacket::DeployedMainAt(..) => OutPacketType::DeployedMainAt,
        }
    }
}

impl SongSize for OutPacket {
    open spec fn song_len(&self) -> nat {
        match self {
            OutPacket::Null => 1,
            OutPacket::Okay => 1,
            OutPacket::Error(t0) => 1 + t0.song_len(),
            OutPacket::Config(t0) => 1 + t0.song_len(),
            OutPacket::Mode(t0) => 1 + t0.song_len(),
            OutPacket::FlightStart(t0) => 1 + t0.song_len(),
            OutPacket::LogEntry(t0) => 1 + t0.song_len(),
            OutPacket::FlightHeader(t0) => 1 + t0.song_len(),
            OutPacket::State(t0) => 1 + t0.song_len(),
            OutPacket::DeployedApoAt(t0) => 1 + t0.song_len(),
            OutPacket::DeployedMainAt(t0) => 1 + t0.song_len(),
        }
    }

    fn song_size(&self) -> (n: usize) {
        match self {
            OutPacket::Null => 1,
            OutPacket::Okay => 1,
            OutPacket::Error(t0) => 1 + t0.song_size(),
            OutPacket::Config(t0) => 1 + t0.song_size(),
            OutPacket::Mode(t0) => 1 + t0.song_size(),
            OutPacket::FlightStart(t0) => 1 + t0.song_size(),
            OutPacket::LogEntry(t0) => 1 + t0.song_size(),
            OutPacket::FlightHeader(t0) => 1 + t0.song_size(),
            OutPacket::State(t0) => 1 + t0.song_size(),
            OutPacket::DeployedApoAt(t0) => 1 + t0.song_size(),
            OutPacket::DeployedMainAt(t0) => 1 + t0.song_size(),
        }
    }
}

impl ToSong for OutPacket {
    open spec fn song_bytes(&self) -> Seq<u8> {
        match self {
            OutPacket::Null => seq![0u8],
            OutPacket::Okay => seq![1u8],
            OutPacket::Error(t0) => seq![2u8] + t0.song_bytes(),
            OutPacket::Config(t0) => seq![3u8] + t0.song_bytes(),
            OutPacket::Mode(t0) => seq![4u8] + t0.song_bytes(),
            OutPacket::FlightStart(t0) => seq![5u8] + t0.song_bytes(),
            OutPacket::LogEntry(t0) => seq![6u8] + t0.song_bytes(),
            OutPacket::FlightHeader(t0) => seq![7u8] + t0.song_bytes(),
            OutPacket::State(t0) => seq![8u8] + t0.song_bytes(),
            OutPacket::DeployedApoAt(t0) => seq![9u8] + t0.song_bytes(),
            OutPacket::DeployedMainAt(t0) => seq![10u8] + t0.song_bytes(),
        }
    }

    proof fn lemma_song_bytes_len(&self) {
        match self {
            OutPacket::Null => {},
            OutPacket::Okay => {},
            OutPacket::Error(t0) => { t0.lemma_song_bytes_len(); },
            OutPacket::Config(t0) => { t0.lemma_song_bytes_len(); },
            OutPacket::Mode(t0) => { t0.lemma_song_bytes_len(); },
            OutPacket::FlightStart(t0) => { t0.lemma_song_bytes_len(); },
            OutPacket::LogEntry(t0) => { t0.lemma_song_bytes_len(); },
            OutPacket::FlightHeader(t0) => { t0.lemma_song_bytes_len(); },
            OutPacket::State(t0) => { t0.lemma_song_bytes_len(); },
            OutPacket::DeployedApoAt(t0) => { t0.lemma_song_bytes_len(); },
            OutPacket::DeployedMainAt(t0) => { t0.lemma_song_bytes_len(); },
        }
    }

    fn to_song_at(&self, buf: &mut [u8], pos: usize) -> (r: Result<(), ToSongError>) {
        match self {
            OutPacket::Null => OutPacketType::Null.to_song_at(buf, pos),
            OutPacket::Okay => OutPacketType::Okay.to_song_at(buf, pos),
            OutPacket::Error(t0) => write_tagged(2u8, t0, buf, pos),
            OutPacket::Config(t0) => write_tagged(3u8, t0, buf, pos),
            OutPacket::Mode(t0) => write_tagged(4u8, t0, buf, pos),
            OutPacket::FlightStart(t0) => write_tagged(5u8, t0, buf, pos),
            OutPacket::LogEntry(t0) => write_tagged(6u8, t0, buf, pos),
            OutPacket::FlightHeader(t0) => write_tagged(7u8, t0, buf, pos),
            OutPacket::State(t0) => write_tagged(8u8, t0, buf, pos),
            OutPacket::DeployedApoAt(t0) => write_tagged(9u8, t0, buf, pos),
            OutPacket::DeployedMainAt(t0) => write_tagged(10u8, t0, buf, pos),
        }
    }
}

impl FromSong for OutPacket {
    open spec fn song_parse(bytes: Seq<u8>) -> Result<OutPacket, FromSongError> {
        if bytes.len() < 1 {
            Err(FromSongError::BufferOverflow)
        } else if bytes[0] == 0 {
            Ok(OutPacket::Null)
        } else if bytes[0] == 1 {
            Ok(OutPacket::Okay)
        } else if bytes[0] == 2 {
            match <PacketError as FromSong>::song_parse(bytes.skip((1) as int)) { Err(e) => Err(e), Ok(t0) => Ok(OutPacket::Error(t0)) }
        } else if bytes[0] == 3 {
            match <SirinConfig as FromSong>::song_parse(bytes.skip((1) as int)) { Err(e) => Err(e), Ok(t0) => Ok(OutPacket::Config(t0)) }
        } else if bytes[0] == 4 {
            match <SirinMode as FromSong>::song_parse(bytes.skip((1) as int)) { Err(e) => Err(e), Ok(t0) => Ok(OutPacket::Mode(t0)) }
        } else if bytes[0] == 5 {
            match <u8 as FromSong>::song_parse(bytes.skip((1) as int)) { Err(e) => Err(e), Ok(t0) => Ok(OutPacket::FlightStart(t0)) }
        } else if bytes[0] == 6 {
            match <LogEntry as FromSong>::song_parse(bytes.skip((1) as int)) { Err(e) => Err(e), Ok(t0) => Ok(OutPacket::LogEntry(t0)) }
        } else if bytes[0] == 7 {
            match <Page<FlightHeader> as FromSong>::song_parse(bytes.skip((1) as int)) { Err(e) => Err(e), Ok(t0) => Ok(OutPacket::FlightHeader(t0)) }
        } else if bytes[0] == 8 {
            match <SirinState as FromSong>::song_parse(bytes.skip((1) as int)) { Err(e) => Err(e), Ok(t0) => Ok(OutPacket::State(t0)) }
        } else if bytes[0] == 9 {
            match <u32 as FromSong>::song_parse(bytes.skip((1) as int)) { Err(e) => Err(e), Ok(t0) => Ok(OutPacket::DeployedApoAt(t0)) }
        } else if bytes[0] == 10 {
            match <u32 as FromSong>::song_parse(bytes.skip((1) as int)) { Err(e) => Err(e), Ok(t0) => Ok(OutPacket::DeployedMainAt(t0)) }
        } else {
            Err(FromSongError::InvalidPacketId)
        }
    }

    proof fn lemma_parse_len(bytes: Seq<u8>) {
        if bytes.len() >= 1 && bytes[0] == 2 {
            <PacketError as FromSong>::lemma_parse_len(bytes.skip((1) as int));
        }
        if bytes.len() >= 1 && bytes[0] == 3 {
            <SirinConfig as FromSong>::lemma_parse_len(bytes.skip((1) as int));
        }
        if bytes.len() >= 1 && bytes[0] == 4 {
            <SirinMode as FromSong>::lemma_parse_len(bytes.skip((1) as int));
        }
        if bytes.len() >= 1 && bytes[0] == 5 {
            <u8 as FromSong>::lemma_parse_len(bytes.skip((1) as int));
        }
        if bytes.len() >= 1 && bytes[0] == 6 {
            <LogEntry as FromSong>::lemma_parse_len(bytes.skip((1) as int));
        }
        if bytes.len() >= 1 && bytes[0] == 7 {
            <Page<FlightHeader> as FromSong>::lemma_parse_len(bytes.skip((1) as int));
        }
        if bytes.len() >= 1 && bytes[0] == 8 {
            <SirinState as FromSong>::lemma_parse_len(bytes.skip((1) as int));
        }
        if bytes.len() >= 1 && bytes[0] == 9 {
            <u32 as FromSong>::lemma_parse_len(bytes.skip((1) as int));
        }
        if bytes.len() >= 1 && bytes[0] == 10 {
            <u32 as FromSong>::lemma_parse_len(bytes.skip((1) as int));
        }
    }

    #[verifier::rlimit(100)]
    fn from_song_at(buf: &[u8], pos: usize) -> (r: Result<OutPacket, FromSongError>) {
        if buf.len() - pos < 1 {
            return Err(FromSongError::BufferOverflow);
        }
        let ghost b = buf@.skip(pos as int);
        assert(buf@.len() == buf.len());
        assert(b[0] == buf@[pos as int]);
        match buf[pos] {
            0 => {

                Ok(OutPacket::Null)
            },
            1 => {

                Ok(OutPacket::Okay)
            },
            2 => {
                let mut i = pos + 1;
                assert(buf@.skip(i as int) =~= b.skip(1));
                let t0 = match <PacketError as FromSong>::from_song_at(buf, i) {
                    Ok(v) => v,
                    Err(e) => return Err(e),
                };
                Ok(OutPacket::Error(t0))
            },
            3 => {
                let mut i = pos + 1;
                assert(buf@.skip(i as int) =~= b.skip(1));
                let t0 = match <SirinConfig as FromSong>::from_song_at(buf, i) {
                    Ok(v) => v,
                    Err(e) => return Err(e),
                };
                Ok(OutPacket::Config(t0))
            },
            4 => {
                let mut i = pos + 1;
                assert(buf@.skip(i as int) =~= b.skip(1));
                let t0 = match <SirinMode as FromSong>::from_song_at(buf, i) {
                    Ok(v) => v,
                    Err(e) => return Err(e),
                };
                Ok(OutPacket::Mode(t0))
            },
            5 => {
                let mut i = pos + 1;
                assert(buf@.skip(i as int) =~= b.skip(1));
                let t0 = match <u8 as FromSong>::from_song_at(buf, i) {
                    Ok(v) => v,
                    Err(e) => return Err(e),
                };
                Ok(OutPacket::FlightStart(t0))
            },
            6 => {
                let mut i = pos + 1;
                assert(buf@.skip(i as int) =~= b.skip(1));
                let t0 = match <LogEntry as FromSong>::from_song_at(buf, i) {
                    Ok(v) => v,
                    Err(e) => return Err(e),
                };
                Ok(OutPacket::LogEntry(t0))
            },
            7 => {
                let mut i = pos + 1;
                assert(buf@.skip(i as int) =~= b.skip(1));
                let t0 = match <Page<FlightHeader> as FromSong>::from_song_at(buf, i) {
                    Ok(v) => v,
                    Err(e) => return Err(e),
                };
                Ok(OutPacket::FlightHeader(t0))
            },
            8 => {
                let mut i = pos + 1;
                assert(buf@.skip(i as int) =~= b.skip(1));
                let t0 = match <SirinState as FromSong>::from_song_at(buf, i) {
                    Ok(v) => v,
                    Err(e) => return Err(e),
                };
                Ok(OutPacket::State(t0))
            },
            9 => {
                let mut i = pos + 1;
                assert(buf@.skip(i as int) =~= b.skip(1));
                let t0 = match <u32 as FromSong>::from_song_at(buf, i) {
                    Ok(v) => v,
                    Err(e) => return Err(e),
                };
                Ok(OutPacket::DeployedApoAt(t0))
            },
            10 => {
                let mut i = pos + 1;
                assert(buf@.skip(i as int) =~= b.skip(1));
                let t0 = match <u32 as FromSong>::from_song_at(buf, i) {
                    Ok(v) => v,
                    Err(e) => return Err(e),
                };
                Ok(OutPacket::DeployedMainAt(t0))
            },
            _ => Err(FromSongError::InvalidPacketId),
        }
    }
}

impl SongRoundTrip for OutPacket {
    #[verifier::spinoff_prover]
    #[verifier::rlimit(50)]
    proof fn lemma_song_round_trip(&self, rest: Seq<u8>) {
        match self {
            OutPacket::Null => {
                let b = self.song_bytes() + rest;
                assert(b[0] == 0u8);
            },
            OutPacket::Okay => {
                let b = self.song_bytes() + rest;
                assert(b[0] == 1u8);
            },
            OutPacket::Error(t0) => {
                t0.lemma_song_bytes_len();
                let b = self.song_bytes() + rest;
                assert(b[0] == 2u8);
                assert(b.skip((seq![2u8].len()) as int) =~= t0.song_bytes() + (rest));
                t0.lemma_song_round_trip(rest);
            },
            OutPacket::Config(t0) => {
                t0.lemma_song_bytes_len();
                let b = self.song_bytes() + rest;
                assert(b[0] == 3u8);
                assert(b.skip((seq![3u8].len()) as int) =~= t0.song_bytes() + (rest));
                t0.lemma_song_round_trip(rest);
            },
            OutPacket::Mode(t0) => {
                t0.lemma_song_bytes_len();
                let b = self.song_bytes() + rest;
                assert(b[0] == 4u8);
                assert(b.skip((seq![4u8].len()) as int) =~= t0.song_bytes() + (rest));
                t0.lemma_song_round_trip(rest);
            },
            OutPacket::FlightStart(t0) => {
                t0.lemma_song_bytes_len();
                let b = self.song_bytes() + rest;
                assert(b[0] == 5u8);
                assert(b.skip((seq![5u8].len()) as int) =~= t0.song_bytes() + (rest));
                t0.lemma_song_round_trip(rest);
            },
            OutPacket::LogEntry(t0) => {
                t0.lemma_song_bytes_len();
                let b = self.song_bytes() + rest;
                assert(b[0] == 6u8);
                assert(b.skip((seq![6u8].len()) as int) =~= t0.song_bytes() + (rest));
                t0.lemma_song_round_trip(rest);
            },
            OutPacket::FlightHeader(t0) => {
                t0.lemma_song_bytes_len();
                let b = self.song_bytes() + rest;
                assert(b[0] == 7u8);
                assert(b.skip((seq![7u8].len()) as int) =~= t0.song_bytes() + (rest));
                t0.lemma_song_round_trip(rest);
            },
            OutPacket::State(t0) => {
                t0.lemma_song_bytes_len();
                let b = self.song_bytes() + rest;
                assert(b[0] == 8u8);
                assert(b.skip((seq![8u8].len()) as int) =~= t0.song_bytes() + (rest));
                t0.lemma_song_round_trip(rest);
            },
            OutPacket::DeployedApoAt(t0) => {
                t0.lemma_song_bytes_len();
                let b = self.song_bytes() + rest;
                assert(b[0] == 9u8);
                assert(b.skip((seq![9u8].len()) as int) =~= t0.song_bytes() + (rest));
                t0.lemma_song_round_trip(rest);
            },
            OutPacket::DeployedMainAt(t0) => {
                t0.lemma_song_bytes_len();
                let b = self.song_bytes() + rest;
                assert(b[0] == 10u8);
                assert(b.skip((seq![10u8].len()) as int) =~= t0.song_bytes() + (rest));
                t0.lemma_song_round_trip(rest);
            },
        }
    }
}

/// Every packet's encoding starts with the byte of its type, which is how the receiver tells
/// the packets apart.
pub proof fn lemma_out_packet_starts_with_type(p: OutPacket)
    ensures
        p.song_bytes().len() >= 1,
        p.song_bytes()[0] == out_packet_type_wire_value(p.discriminant_of()),
{
    p.lemma_song_bytes_len();
}

impl TaggedSong for OutPacketType {
    open spec fn tag(&self) -> u8 {
        out_packet_type_wire_value(*self)
    }

    open spec fn is_tag(b: u8) -> bool {
        b < 11
    }

    proof fn lemma_starts_with_tag(&self) {
    }

    proof fn lemma_refused(bytes: Seq<u8>) {
    }
}

impl TaggedSong for OutPacket {
    open spec fn tag(&self) -> u8 {
        out_packet_type_wire_value(self.discriminant_of())
    }

    open spec fn is_tag(b: u8) -> bool {
        b < 11
    }

    proof fn lemma_starts_with_tag(&self) {
        self.lemma_song_bytes_len();
    }

    proof fn lemma_refused(bytes: Seq<u8>) {
    }
}


/// On the wire a `OutPacketType` is one byte: `Null` is 0, `Okay` is 1, `Error` is 2, `Config` is 3, `Mode` is 4, `FlightStart` is 5, `LogEntry` is 6, `FlightHeader` is 7, `State` is 8, `DeployedApoAt` is 9, `DeployedMainAt` is 10. Reading that byte gives the value
/// back, whatever follows it.
pub proof fn lemma_out_packet_type_layout(v: OutPacketType, rest: Seq<u8>)
    ensures
        v is Null ==> v.song_bytes() == seq![0u8]
            && <OutPacketType as FromSong>::song_parse(seq![0u8] + rest) == Ok::<OutPacketType, FromSongError>(v),
        v is Okay ==> v.song_bytes() == seq![1u8]
            && <OutPacketType as FromSong>::song_parse(seq![1u8] + rest) == Ok::<OutPacketType, FromSongError>(v),
        v is Error ==> v.song_bytes() == seq![2u8]
            && <OutPacketType as FromSong>::song_parse(seq![2u8] + rest) == Ok::<OutPacketType, FromSongError>(v),
        v is Config ==> v.song_bytes() == seq![3u8]
            && <OutPacketType as FromSong>::song_parse(seq![3u8] + rest) == Ok::<OutPacketType, FromSongError>(v),
        v is Mode ==> v.song_bytes() == seq![4u8]
            && <OutPacketType as FromSong>::song_parse(seq![4u8] + rest) == Ok::<OutPacketType, FromSongError>(v),
        v is FlightStart ==> v.song_bytes() == seq![5u8]
            && <OutPacketType as FromSong>::song_parse(seq![5u8] + rest) == Ok::<OutPacketType, FromSongError>(v),
        v is LogEntry ==> v.song_bytes() == seq![6u8]
            && <OutPacketType as FromSong>::song_parse(seq![6u8] + rest) == Ok::<OutPacketType, FromSongError>(v),
        v is FlightHeader ==> v.song_bytes() == seq![7u8]
            && <OutPacketType as FromSong>::song_parse(seq![7u8] + rest) == Ok::<OutPacketType, FromSongError>(v),
        v is State ==> v.song_bytes() == seq![8u8]
            && <OutPacketType as FromSong>::song_parse(seq![8u8] + rest) == Ok::<OutPacketType, FromSongError>(v),
        v is DeployedApoAt ==> v.song_bytes() == seq![9u8]
            && <OutPacketType as FromSong>::song_parse(seq![9u8] + rest) == Ok::<OutPacketType, FromSongError>(v),
        v is DeployedMainAt ==> v.song_bytes() == seq![10u8]
            && <OutPacketType as FromSong>::song_parse(seq![10u8] + rest) == Ok::<OutPacketType, FromSongError>(v),
{
    v.lemma_song_round_trip(rest);
}

/// On the wire a `OutPacket` is its variant's tag byte, the variants numbered from zero in declaration
/// order, then the variant's fields in order, each in its own encoding. Reading those bytes gives
/// the value back, whatever follows them.
pub proof fn lemma_out_packet_layout(v: OutPacket, rest: Seq<u8>)
    ensures
        v is Null ==> v.song_bytes() == seq![0u8]
            && <OutPacket as FromSong>::song_parse(seq![0u8] + rest) == Ok::<OutPacket, FromSongError>(v),
        v is Okay ==> v.song_bytes() == seq![1u8]
            && <OutPacket as FromSong>::song_parse(seq![1u8] + rest) == Ok::<OutPacket, FromSongError>(v),
        v matches OutPacket::Error(t0) ==> v.song_bytes() == seq![2u8] + t0.song_bytes()
            && <OutPacket as FromSong>::song_parse(seq![2u8] + t0.song_bytes() + rest) == Ok::<OutPacket, FromSongError>(v),
        v matches OutPacket::Config(t0) ==> v.song_bytes() == seq![3u8] + t0.song_bytes()
            && <OutPacket as FromSong>::song_parse(seq![3u8] + t0.song_bytes() + rest) == Ok::<OutPacket, FromSongError>(v),
        v matches OutPacket::Mode(t0) ==> v.song_bytes() == seq![4u8] + t0.song_bytes()
            && <OutPacket as FromSong>::song_parse(seq![4u8] + t0.song_bytes() + rest) == Ok::<OutPacket, FromSongError>(v),
        v matches OutPacket::FlightStart(t0) ==> v.song_bytes() == seq![5u8] + t0.song_bytes()
            && <OutPacket as FromSong>::song_parse(seq![5u8] + t0.song_bytes() + rest) == Ok::<OutPacket, FromSongError>(v),
        v matches OutPacket::LogEntry(t0) ==> v.song_bytes() == seq![6u8] + t0.song_bytes()
            && <OutPacket as FromSong>::song_parse(seq![6u8] + t0.song_bytes() + rest) == Ok::<OutPacket, FromSongError>(v),
        v matches OutPacket::FlightHeader(t0) ==> v.song_bytes() == seq![7u8] + t0.song_bytes()
            && <OutPacket as FromSong>::song_parse(seq![7u8] + t0.song_bytes() + rest) == Ok::<OutPacket, FromSongError>(v),
        v matches OutPacket::State(t0) ==> v.song_bytes() == seq![8u8] + t0.song_bytes()
            && <OutPacket as FromSong>::song_parse(seq![8u8] + t0.song_bytes() + rest) == Ok::<OutPacket, FromSongError>(v),
        v matches OutPacket::DeployedApoAt(t0) ==> v.song_bytes() == seq![9u8] + t0.song_bytes()
            && <OutPacket as FromSong>::song_parse(seq![9u8] + t0.song_bytes() + rest) == Ok::<OutPacket, FromSongError>(v),
        v matches OutPacket::DeployedMainAt(t0) ==> v.song_bytes() == seq![10u8] + t0.song_bytes()
            && <OutPacket as FromSong>::song_parse(seq![10u8] + t0.song_bytes() + rest) == Ok::<OutPacket, FromSongError>(v),
{
    v.lemma_song_round_trip(rest);
}

} // verus!
