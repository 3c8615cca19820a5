//! The entries of the flight log in flash.

use vstd::prelude::*;
use crate::song::{
    lemma_write_after, write_tagged, ConstSongSize, ConstSongSizeValue, FromSong, FromSongError,
    HasSongSize, SongDiscriminant, SongRoundTrip, SongSize, TaggedSong, ToSong, ToSongError,
};
use super::sirin_state::SirinState;
use super::sirin_data::SirinData;

verus! {

/// One timestamped entry of the flight log.
#[derive(Debug, Clone)]
pub struct LogEntry {
    /// Milliseconds.
    pub time: u32,
    pub log: Log,
}

impl LogEntry {
    pub fn new(time: u32, log: Log) -> (entry: Self)
        ensures
            entry.time == time,
            entry.log == log,
    {
        LogEntry { time, log }
    }
}

#[derive(Debug, Clone)]
pub enum Log {
    State(SirinState),
    Data(SirinData),
    /// Barometric altitude in meters, as the bits of an `f64`.
    BarometricAltitude(u64),
    GpsNmea([u8; 200]),
}


impl SongSize for LogEntry {
    open spec fn song_len(&self) -> nat {
        self.time.song_len() + self.log.song_len()
    }

    fn song_size(&self) -> (n: usize) {
        self.time.song_size() + self.log.song_size()
    }
}

impl ToSong for LogEntry {
    closed spec fn song_bytes(&self) -> Seq<u8> {
        self.time.song_bytes() + self.log.song_bytes()
    }

    proof fn lemma_song_bytes_len(&self) {
        self.time.lemma_song_bytes_len();
        self.log.lemma_song_bytes_len();
    }

    fn to_song_at(&self, buf: &mut [u8], pos: usize) -> (r: Result<(), ToSongError>) {
        if buf.len() - pos < self.song_size() {
            return Err(ToSongError::BufferOverflow);
        }
        proof {
            self.time.lemma_song_bytes_len();
            self.log.lemma_song_bytes_len();
        }
        let ghost start = buf@;
        let mut i = pos;
        match self.time.to_song_at(buf, i) {
            Ok(()) => {},
            Err(e) => return Err(e),
        }
        i = i + self.time.song_size();
        let ghost before = buf@;
        match self.log.to_song_at(buf, i) {
            Ok(()) => {},
            Err(e) => return Err(e),
        }
        proof {
            lemma_write_after(start, before, buf@, pos as int, self.time.song_bytes(), self.log.song_bytes());
        }
        Ok(())
    }
}

impl FromSong for LogEntry {
    closed spec fn song_parse(bytes: Seq<u8>) -> Result<LogEntry, FromSongError> {
        match <u32 as FromSong>::song_parse(bytes) { Err(e) => Err(e), Ok(time) => match <Log as FromSong>::song_parse(bytes.skip((time.song_len()) as int)) { Err(e) => Err(e), Ok(log) => Ok(LogEntry { time, log }) } }
    }

    proof fn lemma_parse_len(bytes: Seq<u8>) {
        <u32 as FromSong>::lemma_parse_len(bytes);
        if let Ok(time) = <u32 as FromSong>::song_parse(bytes) {
            <Log as FromSong>::lemma_parse_len(bytes.skip((time.song_len()) as int));
        }
    }

    fn from_song_at(buf: &[u8], pos: usize) -> (r: Result<LogEntry, FromSongError>) {
        let ghost b = buf@.skip(pos as int);
        assert(buf@.len() == buf.len());
        let mut i = pos;
        assert(buf@.skip(i as int) =~= b);
        let v_time = match <u32 as FromSong>::from_song_at(buf, i) {
            Ok(v) => v,
            Err(e) => return Err(e),
        };
        proof {
            <u32 as FromSong>::lemma_parse_len(b);
        }
        i = i + v_time.song_size();
        assert(buf@.skip(i as int) =~= b.skip((v_time.song_len()) as int));
        let v_log = match <Log as FromSong>::from_song_at(buf, i) {
            Ok(v) => v,
            Err(e) => return Err(e),
        };
        Ok(LogEntry { time: v_time, log: v_log })
    }
}

impl SongRoundTrip for LogEntry {
    #[verifier::spinoff_prover]
    #[verifier::rlimit(50)]
    proof fn lemma_song_round_trip(&self, rest: Seq<u8>) {
        self.time.lemma_song_bytes_len();
        self.log.lemma_song_bytes_len();
        let b = self.song_bytes() + rest;
        assert(b =~= self.time.song_bytes() + (self.log.song_bytes() + rest));
        self.time.lemma_song_round_trip(self.log.song_bytes() + rest);
        assert(b.skip((self.time.song_bytes().len()) as int) =~= self.log.song_bytes() + (rest));
        self.log.lemma_song_round_trip(rest);
    }
}

/// The tag that starts each kind of [`Log`].
#[derive(Clone, Copy, PartialEq, Eq, Debug, Structural)]
pub enum LogDataType {
    State,
    Data,
    BarometricAltitude,
    GpsNmea,
}

/// The byte that stands for each value of `LogDataType` on the wire.
pub open spec fn log_data_type_wire_value(value: LogDataType) -> u8 {
    match value {
        LogDataType::State => 0,
        LogDataType::Data => 1,
        LogDataType::BarometricAltitude => 2,
        LogDataType::GpsNmea => 3,
    }
}

impl LogDataType {
    /// The byte that stands for this value on the wire.
    pub fn wire_value(self) -> (value: u8)
        ensures
            value == log_data_type_wire_value(self),
    {
        match self {
            LogDataType::State => 0,
            LogDataType::Data => 1,
            LogDataType::BarometricAltitude => 2,
            LogDataType::GpsNmea => 3,
        }
    }
}

impl HasSongSize for LogDataType {
    type Size = ConstSongSizeValue<1>;
}

impl SongSize for LogDataType {
    open spec fn song_len(&self) -> nat {
        1
    }

    fn song_size(&self) -> (n: usize) {
        1
    }
}

impl ConstSongSize for LogDataType {
    open spec fn const_song_len() -> nat {
        1
    }

    fn const_song_size() -> (n: usize) {
        1
    }

    fn const_song_fits(len: usize) -> (b: bool) {
        1 <= len
    }

    proof fn lemma_const_song_len(v: &Self) {
    }

    proof fn lemma_const_song_len_of_type() {
    }
}

impl ToSong for LogDataType {
    open spec fn song_bytes(&self) -> Seq<u8> {
        seq![log_data_type_wire_value(*self)]
    }

    proof fn lemma_song_bytes_len(&self) {
    }

    fn to_song_at(&self, buf: &mut [u8], pos: usize) -> (r: Result<(), ToSongError>) {
        let value = self.wire_value();
        assert(value.song_bytes() == self.song_bytes());
        value.to_song_at(buf, pos)
    }
}

impl FromSong for LogDataType {
    open spec fn song_parse(bytes: Seq<u8>) -> Result<LogDataType, FromSongError> {
        if bytes.len() < 1 {
            Err(FromSongError::BufferOverflow)
        } else if bytes[0] == 0 {
            Ok(LogDataType::State)
        } else if bytes[0] == 1 {
            Ok(LogDataType::Data)
        } else if bytes[0] == 2 {
            Ok(LogDataType::BarometricAltitude)
        } else if bytes[0] == 3 {
            Ok(LogDataType::GpsNmea)
        } else {
            Err(FromSongError::InvalidPacketId)
        }
    }

    proof fn lemma_parse_len(bytes: Seq<u8>) {
    }

    fn from_song_at(buf: &[u8], pos: usize) -> (r: Result<LogDataType, FromSongError>) {
        if buf.len() - pos < 1 {
            return Err(FromSongError::BufferOverflow);
        }
        let ghost s = buf@.skip(pos as int);
        assert(s[0] == buf@[pos as int]);
        match buf[pos] {
            0 => Ok(LogDataType::State),
            1 => Ok(LogDataType::Data),
            2 => Ok(LogDataType::BarometricAltitude),
            3 => Ok(LogDataType::GpsNmea),
            _ => Err(FromSongError::InvalidPacketId),
        }
    }
}

impl SongRoundTrip for LogDataType {
    proof fn lemma_song_round_trip(&self, rest: Seq<u8>) {
        assert((self.song_bytes() + rest)[0] == log_data_type_wire_value(*self));
    }
}

impl SongDiscriminant for Log {
    type Discriminant = LogDataType;

    open spec fn discriminant_of(&self) -> LogDataType {
        match self {
            Log::State(..) => LogDataType::State,
            Log::Data(..) => LogDataType::Data,
            Log::BarometricAltitude(..) => LogDataType::BarometricAltitude,
            Log::GpsNmea(..) => LogDataType::GpsNmea,
        }
    }

    fn song_discriminant(&self) -> (d: LogDataType) {
        match self {
            Log::State(..) => LogDataType::State,
            Log::Data(..) => LogDataType::Data,
            Log::BarometricAltitude(..) => LogDataType::BarometricAltitude,
            Log::GpsNmea(..) => LogDataType::GpsNmea,
        }
    }
}

impl SongSize for Log {
    open spec fn song_len(&self) -> nat {
        match self {
            Log::State(t0) => 1 + t0.song_len(),
            Log::Data(t0) => 1 + t0.song_len(),
            Log::BarometricAltitude(t0) => 1 + t0.song_len(),
            Log::GpsNmea(t0) => 1 + t0.song_len(),
        }
    }

    fn song_size(&self) -> (n: usize) {
        match self {
            Log::State(t0) => 1 + t0.song_size(),
            Log::Data(t0) => 1 + t0.song_size(),
            Log::BarometricAltitude(t0) => 1 + t0.song_size(),
            Log::GpsNmea(t0) => 1 + t0.song_size(),
        }
    }
}

impl ToSong for Log {
    closed spec fn song_bytes(&self) -> Seq<u8> {
        match self {
            Log::State(t0) => seq![0u8] + t0.song_bytes(),
            Log::Data(t0) => seq![1u8] + t0.song_bytes(),
            Log::BarometricAltitude(t0) => seq![2u8] + t0.song_bytes(),
            Log::GpsNmea(t0) => seq![3u8] + t0.song_bytes(),
        }
    }

    proof fn lemma_song_bytes_len(&self) {
        match self {
            Log::State(t0) => { t0.lemma_song_bytes_len(); },
            Log::Data(t0) => { t0.lemma_song_bytes_len(); },
            Log::BarometricAltitude(t0) => { t0.lemma_song_bytes_len(); },
            Log::GpsNmea(t0) => { t0.lemma_song_bytes_len(); },
        }
    }

    fn to_song_at(&self, buf: &mut [u8], pos: usize) -> (r: Result<(), ToSongError>) {
        match self {
            Log::State(t0) => write_tagged(0u8, t0, buf, pos),
            Log::Data(t0) => write_tagged(1u8, t0, buf, pos),
            Log::BarometricAltitude(t0) => write_tagged(2u8, t0, buf, pos),
            Log::GpsNmea(t0) => write_tagged(3u8, t0, buf, pos),
        }
    }
}

impl FromSong for Log {
    closed spec fn song_parse(bytes: Seq<u8>) -> Result<Log, FromSongError> {
        if bytes.len() < 1 {
            Err(FromSongError::BufferOverflow)
        } else if bytes[0] == 0 {
            match <SirinState as FromSong>::song_parse(bytes.skip((1) as int)) { Err(e) => Err(e), Ok(t0) => Ok(Log::State(t0)) }
        } else if bytes[0] == 1 {
            match <SirinData as FromSong>::song_parse(bytes.skip((1) as int)) { Err(e) => Err(e), Ok(t0) => Ok(Log::Data(t0)) }
        } else if bytes[0] == 2 {
            match <u64 as FromSong>::song_parse(bytes.skip((1) as int)) { Err(e) => Err(e), Ok(t0) => Ok(Log::BarometricAltitude(t0)) }
        } else if bytes[0] == 3 {
            match <[u8; 200] as FromSong>::song_parse(bytes.skip((1) as int)) { Err(e) => Err(e), Ok(t0) => Ok(Log::GpsNmea(t0)) }
        } else {
            Err(FromSongError::InvalidPacketId)
        }
    }

    proof fn lemma_parse_len(bytes: Seq<u8>) {
        if bytes.len() >= 1 && bytes[0] == 0 {
            <SirinState as FromSong>::lemma_parse_len(bytes.skip((1) as int));
        }
        if bytes.len() >= 1 && bytes[0] == 1 {
            <SirinData as FromSong>::lemma_parse_len(bytes.skip((1) as int));
        }
        if bytes.len() >= 1 && bytes[0] == 2 {
            <u64 as FromSong>::lemma_parse_len(bytes.skip((1) as int));
        }
        if bytes.len() >= 1 && bytes[0] == 3 {
            <[u8; 200] as FromSong>::lemma_parse_len(bytes.skip((1) as int));
        }
    }

    #[verifier::rlimit(100)]
    fn from_song_at(buf: &[u8], pos: usize) -> (r: Result<Log, FromSongError>) {
        if buf.len() - pos < 1 {
            return Err(FromSongError::BufferOverflow);
        }
        let ghost b = buf@.skip(pos as int);
        assert(buf@.len() == buf.len());
        assert(b[0] == buf@[pos as int]);
        match buf[pos] {
            0 => {
                let mut i = pos + 1;
                assert(buf@.skip(i as int) =~= b.skip(1));
                let t0 = match <SirinState as FromSong>::from_song_at(buf, i) {
                    Ok(v) => v,
                    Err(e) => return Err(e),
                };
                Ok(Log::State(t0))
            },
            1 => {
                let mut i = pos + 1;
                assert(buf@.skip(i as int) =~= b.skip(1));
                let t0 = match <SirinData as FromSong>::from_song_at(buf, i) {
                    Ok(v) => v,
                    Err(e) => return Err(e),
                };
                Ok(Log::Data(t0))
            },
            2 => {
                let mut i = pos + 1;
                assert(buf@.skip(i as int) =~= b.skip(1));
                let t0 = match <u64 as FromSong>::from_song_at(buf, i) {
                    Ok(v) => v,
                    Err(e) => return Err(e),
                };
                Ok(Log::BarometricAltitude(t0))
            },
            3 => {
                let mut i = pos + 1;
                assert(buf@.skip(i as int) =~= b.skip(1));
                let t0 = match <[u8; 200] as FromSong>::from_song_at(buf, i) {
                    Ok(v) => v,
                    Err(e) => return Err(e),
                };
                Ok(Log::GpsNmea(t0))
            },
            _ => Err(FromSongError::InvalidPacketId),
        }
    }
}

impl SongRoundTrip for Log {
    #[verifier::spinoff_prover]
    #[verifier::rlimit(50)]
    proof fn lemma_song_round_trip(&self, rest: Seq<u8>) {
        match self {
            Log::State(t0) => {
                t0.lemma_song_bytes_len();
                let b = self.song_bytes() + rest;
                assert(b[0] == 0u8);
                assert(b.skip((seq![0u8].len()) as int) =~= t0.song_bytes() + (rest));
                t0.lemma_song_round_trip(rest);
            },
            Log::Data(t0) => {
                t0.lemma_song_bytes_len();
                let b = self.song_bytes() + rest;
                assert(b[0] == 1u8);
                assert(b.skip((seq![1u8].len()) as int) =~= t0.song_bytes() + (rest));
                t0.lemma_song_round_trip(rest);
            },
            Log::BarometricAltitude(t0) => {
                t0.lemma_song_bytes_len();
                let b = self.song_bytes() + rest;
                assert(b[0] == 2u8);
                assert(b.skip((seq![2u8].len()) as int) =~= t0.song_bytes() + (rest));
                t0.lemma_song_round_trip(rest);
            },
            Log::GpsNmea(t0) => {
                t0.lemma_song_bytes_len();
                let b = self.song_bytes() + rest;
                assert(b[0] == 3u8);
                assert(b.skip((seq![3u8].len()) as int) =~= t0.song_bytes() + (rest));
                t0.lemma_song_round_trip(rest);
            },
        }
    }
}

impl TaggedSong for LogDataType {
    open spec fn tag(&self) -> u8 {
        log_data_type_wire_value(*self)
    }

    open spec fn is_tag(b: u8) -> bool {
        b < 4
    }

    proof fn lemma_starts_with_tag(&self) {
    }

    proof fn lemma_refused(bytes: Seq<u8>) {
    }
}

impl TaggedSong for Log {
    open spec fn tag(&self) -> u8 {
        log_data_type_wire_value(self.discriminant_of())
    }

    open spec fn is_tag(b: u8) -> bool {
        b < 4
    }

    proof fn lemma_starts_with_tag(&self) {
        self.lemma_song_bytes_len();
    }

    proof fn lemma_refused(bytes: Seq<u8>) {
    }
}


/// On the wire a `LogEntry` is its fields `time`, `log`, in that order, each in its own encoding with
/// nothing between them; reading those bytes gives the value back, whatever follows them.
pub proof fn lemma_log_entry_layout(v: LogEntry, rest: Seq<u8>)
    ensures
        v.song_bytes() == v.time.song_bytes() + v.log.song_bytes(),
        v.song_len() == v.time.song_len() + v.log.song_len(),
        <LogEntry as FromSong>::song_parse(v.time.song_bytes() + v.log.song_bytes() + rest) == Ok::<LogEntry, FromSongError>(v),
{
    v.lemma_song_round_trip(rest);
}


/// On the wire a `LogDataType` is one byte: `State` is 0, `Data` is 1, `BarometricAltitude` is 2, `GpsNmea` is 3. Reading that byte gives the value
/// back, whatever follows it.
pub proof fn lemma_log_data_type_layout(v: LogDataType, rest: Seq<u8>)
    ensures
        v is State ==> v.song_bytes() == seq![0u8]
            && <LogDataType as FromSong>::song_parse(seq![0u8] + rest) == Ok::<LogDataType, FromSongError>(v),
        v is Data ==> v.song_bytes() == seq![1u8]
            && <LogDataType as FromSong>::song_parse(seq![1u8] + rest) == Ok::<LogDataType, FromSongError>(v),
        v is BarometricAltitude ==> v.song_bytes() == seq![2u8]
            && <LogDataType as FromSong>::song_parse(seq![2u8] + rest) == Ok::<LogDataType, FromSongError>(v),
        v is GpsNmea ==> v.song_bytes() == seq![3u8]
            && <LogDataType as FromSong>::song_parse(seq![3u8] + rest) == Ok::<LogDataType, FromSongError>(v),
{
    v.lemma_song_round_trip(rest);
}

/// On the wire a `Log` is its variant's tag byte, the variants numbered from zero in declaration
/// order, then the variant's fields in order, each in its own encoding. Reading those bytes gives
/// the value back, whatever follows them.
pub proof fn lemma_log_layout(v: Log, rest: Seq<u8>)
    ensures
        v matches Log::State(t0) ==> v.song_bytes() == seq![0u8] + t0.song_bytes()
            && <Log as FromSong>::song_parse(seq![0u8] + t0.song_bytes() + rest) == Ok::<Log, FromSongError>(v),
        v matches Log::Data(t0) ==> v.song_bytes() == seq![1u8] + t0.song_bytes()
            && <Log as FromSong>::song_parse(seq![1u8] + t0.song_bytes() + rest) == Ok::<Log, FromSongError>(v),
        v matches Log::BarometricAltitude(t0) ==> v.song_bytes() == seq![2u8] + t0.song_bytes()
            && <Log as FromSong>::song_parse(seq![2u8] + t0.song_bytes() + rest) == Ok::<Log, FromSongError>(v),
        v matches Log::GpsNmea(t0) ==> v.song_bytes() == seq![3u8] + t0.song_bytes()
            && <Log as FromSong>::song_parse(seq![3u8] + t0.song_bytes() + rest) == Ok::<Log, FromSongError>(v),
{
    v.lemma_song_round_trip(rest);
}

} // verus!
