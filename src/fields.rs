//! Field decoders: the value families that payloads carry, and the functions
//! that turn payload bytes into them.
use vstd::prelude::*;

use crate::decimal::{decimal_value, digit_part, is_decimal, is_digit, parse_decimal};

verus! {

/// Why a frame could not be decoded. Each is local to one frame.
#[derive(Debug, Clone, Copy, PartialEq, Eq, Structural)]
pub enum ErrorKind {
    /// The line holds fewer than five bytes once terminators are removed.
    FrameTooShort,
    /// The three code bytes name no entry of the registry.
    UnknownCode,
    /// The payload does not have the length that its field requires.
    WrongPayloadLength,
    /// The byte or number is not one of the values of the field's family.
    UnrecognizedEnumValue,
    /// The payload is not a decimal number that fits the field.
    NotANumber,
    /// A numeric field with no payload at all.
    EmptyPayload,
    /// The payload holds a byte outside 7-bit ASCII.
    NonAsciiPayload,
}

/// A closed family of values, each with its own code on the wire: a byte, or
/// a small number.
pub trait CodedEnum: Sized {
    /// The value that code `c` stands for, if any.
    spec fn spec_from_code(c: u8) -> Option<Self>;

    fn from_code(c: u8) -> (r: Option<Self>)
        ensures
            r == Self::spec_from_code(c),
    ;
}

/// Operating mode of the transmitter.
#[derive(Debug, Clone, Copy, PartialEq, Eq, Structural)]
pub enum Mode {
    Sig,
    Wspr,
    Idle,
}

impl CodedEnum for Mode {
    open spec fn spec_from_code(c: u8) -> Option<Mode> {
        if c == 0x53 {  // 'S'
            Some(Mode::Sig)
        } else if c == 0x57 {  // 'W'
            Some(Mode::Wspr)
        } else if c == 0x4e {  // 'N'
            Some(Mode::Idle)
        } else {
            None
        }
    }

    fn from_code(c: u8) -> (r: Option<Mode>) {
        if c == 0x53 {  // 'S'
            Some(Mode::Sig)
        } else if c == 0x57 {  // 'W'
            Some(Mode::Wspr)
        } else if c == 0x4e {  // 'N'
            Some(Mode::Idle)
        } else {
            None
        }
    }
}

/// One of the four low-pass filter banks.
#[derive(Debug, Clone, Copy, PartialEq, Eq, Structural)]
pub enum FilterBank {
    A,
    B,
    C,
    D,
}

impl CodedEnum for FilterBank {
    open spec fn spec_from_code(c: u8) -> Option<FilterBank> {
        if c == 0x41 {  // 'A'
            Some(FilterBank::A)
        } else if c == 0x42 {  // 'B'
            Some(FilterBank::B)
        } else if c == 0x43 {  // 'C'
            Some(FilterBank::C)
        } else if c == 0x44 {  // 'D'
            Some(FilterBank::D)
        } else {
            None
        }
    }

    fn from_code(c: u8) -> (r: Option<FilterBank>) {
        if c == 0x41 {  // 'A'
            Some(FilterBank::A)
        } else if c == 0x42 {  // 'B'
            Some(FilterBank::B)
        } else if c == 0x43 {  // 'C'
            Some(FilterBank::C)
        } else if c == 0x44 {  // 'D'
            Some(FilterBank::D)
        } else {
            None
        }
    }
}

/// Frequency reference in use.
#[derive(Debug, Clone, Copy, PartialEq, Eq, Structural)]
pub enum Reference {
    External,
    Internal,
}

impl CodedEnum for Reference {
    open spec fn spec_from_code(c: u8) -> Option<Reference> {
        if c == 0x45 {  // 'E'
            Some(Reference::External)
        } else if c == 0x49 {  // 'I'
            Some(Reference::Internal)
        } else {
            None
        }
    }

    fn from_code(c: u8) -> (r: Option<Reference>) {
        if c == 0x45 {  // 'E'
            Some(Reference::External)
        } else if c == 0x49 {  // 'I'
            Some(Reference::Internal)
        } else {
            None
        }
    }
}

/// Where the transmitted locator comes from.
#[derive(Debug, Clone, Copy, PartialEq, Eq, Structural)]
pub enum LocationSource {
    Gps,
    Manual,
}

impl CodedEnum for LocationSource {
    open spec fn spec_from_code(c: u8) -> Option<LocationSource> {
        if c == 0x47 {  // 'G'
            Some(LocationSource::Gps)
        } else if c == 0x4d {  // 'M'
            Some(LocationSource::Manual)
        } else {
            None
        }
    }

    fn from_code(c: u8) -> (r: Option<LocationSource>) {
        if c == 0x47 {  // 'G'
            Some(LocationSource::Gps)
        } else if c == 0x4d {  // 'M'
            Some(LocationSource::Manual)
        } else {
            None
        }
    }
}

/// Number of Maidenhead characters in the report.
#[derive(Debug, Clone, Copy, PartialEq, Eq, Structural)]
pub enum LocatorPrecision {
    Maidenhead4,
    Maidenhead6,
}

impl CodedEnum for LocatorPrecision {
    open spec fn spec_from_code(c: u8) -> Option<LocatorPrecision> {
        if c == 0x34 {  // '4'
            Some(LocatorPrecision::Maidenhead4)
        } else if c == 0x36 {  // '6'
            Some(LocatorPrecision::Maidenhead6)
        } else {
            None
        }
    }

    fn from_code(c: u8) -> (r: Option<LocatorPrecision>) {
        if c == 0x34 {  // '4'
            Some(LocatorPrecision::Maidenhead4)
        } else if c == 0x36 {  // '6'
            Some(LocatorPrecision::Maidenhead6)
        } else {
            None
        }
    }
}

/// What the power field of a report carries.
#[derive(Debug, Clone, Copy, PartialEq, Eq, Structural)]
pub enum PowerEncoding {
    Normal,
    Altitude,
}

impl CodedEnum for PowerEncoding {
    open spec fn spec_from_code(c: u8) -> Option<PowerEncoding> {
        if c == 0x4e {  // 'N'
            Some(PowerEncoding::Normal)
        } else if c == 0x41 {  // 'A'
            Some(PowerEncoding::Altitude)
        } else {
            None
        }
    }

    fn from_code(c: u8) -> (r: Option<PowerEncoding>) {
        if c == 0x4e {  // 'N'
            Some(PowerEncoding::Normal)
        } else if c == 0x41 {  // 'A'
            Some(PowerEncoding::Altitude)
        } else {
            None
        }
    }
}

/// Whether the call sign gets a prefix, a suffix, or neither.
#[derive(Debug, Clone, Copy, PartialEq, Eq, Structural)]
pub enum PrefixSuffix {
    Prefix,
    Suffix,
    Neither,
}

impl CodedEnum for PrefixSuffix {
    open spec fn spec_from_code(c: u8) -> Option<PrefixSuffix> {
        if c == 0x50 {  // 'P'
            Some(PrefixSuffix::Prefix)
        } else if c == 0x53 {  // 'S'
            Some(PrefixSuffix::Suffix)
        } else if c == 0x4e {  // 'N'
            Some(PrefixSuffix::Neither)
        } else {
            None
        }
    }

    fn from_code(c: u8) -> (r: Option<PrefixSuffix>) {
        if c == 0x50 {  // 'P'
            Some(PrefixSuffix::Prefix)
        } else if c == 0x53 {  // 'S'
            Some(PrefixSuffix::Suffix)
        } else if c == 0x4e {  // 'N'
            Some(PrefixSuffix::Neither)
        } else {
            None
        }
    }
}

/// Satellite systems the GPS receiver uses.
#[derive(Debug, Clone, Copy, PartialEq, Eq, Structural)]
pub enum Constellation {
    GPSOnly,
    BeiDouOnly,
    All,
}

impl CodedEnum for Constellation {
    open spec fn spec_from_code(c: u8) -> Option<Constellation> {
        if c == 0x47 {  // 'G'
            Some(Constellation::GPSOnly)
        } else if c == 0x42 {  // 'B'
            Some(Constellation::BeiDouOnly)
        } else if c == 0x41 {  // 'A'
            Some(Constellation::All)
        } else {
            None
        }
    }

    fn from_code(c: u8) -> (r: Option<Constellation>) {
        if c == 0x47 {  // 'G'
            Some(Constellation::GPSOnly)
        } else if c == 0x42 {  // 'B'
            Some(Constellation::BeiDouOnly)
        } else if c == 0x41 {  // 'A'
            Some(Constellation::All)
        } else {
            None
        }
    }
}

/// Whether the GPS receiver has a fix.
#[derive(Debug, Clone, Copy, PartialEq, Eq, Structural)]
pub enum GpsLock {
    Locked,
    Unlocked,
}

impl CodedEnum for GpsLock {
    open spec fn spec_from_code(c: u8) -> Option<GpsLock> {
        if c == 0x54 {  // 'T'
            Some(GpsLock::Locked)
        } else if c == 0x46 {  // 'F'
            Some(GpsLock::Unlocked)
        } else {
            None
        }
    }

    fn from_code(c: u8) -> (r: Option<GpsLock>) {
        if c == 0x54 {  // 'T'
            Some(GpsLock::Locked)
        } else if c == 0x46 {  // 'F'
            Some(GpsLock::Unlocked)
        } else {
            None
        }
    }
}

/// Amateur radio band, coded as a number: 0 to 15 name a band, 98 a
/// straight link through a filter slot, 99 a slot with nothing fitted.
#[derive(Debug, Clone, Copy, PartialEq, Eq, Structural)]
pub enum Band {
    B2190m,
    B630m,
    B160m,
    B80m,
    B40m,
    B30m,
    B20m,
    B17m,
    B15m,
    B12m,
    B10m,
    B6m,
    B4m,
    B2m,
    B70Cm,
    B23Cm,
    NoFilter,
    Open,
}

impl CodedEnum for Band {
    open spec fn spec_from_code(c: u8) -> Option<Band> {
        if c == 0 {
            Some(Band::B2190m)
        } else if c == 1 {
            Some(Band::B630m)
        } else if c == 2 {
            Some(Band::B160m)
        } else if c == 3 {
            Some(Band::B80m)
        } else if c == 4 {
            Some(Band::B40m)
        } else if c == 5 {
            Some(Band::B30m)
        } else if c == 6 {
            Some(Band::B20m)
        } else if c == 7 {
            Some(Band::B17m)
        } else if c == 8 {
            Some(Band::B15m)
        } else if c == 9 {
            Some(Band::B12m)
        } else if c == 10 {
            Some(Band::B10m)
        } else if c == 11 {
            Some(Band::B6m)
        } else if c == 12 {
            Some(Band::B4m)
        } else if c == 13 {
            Some(Band::B2m)
        } else if c == 14 {
            Some(Band::B70Cm)
        } else if c == 15 {
            Some(Band::B23Cm)
        } else if c == 98 {
            Some(Band::NoFilter)
        } else if c == 99 {
            Some(Band::Open)
        } else {
            None
        }
    }

    fn from_code(c: u8) -> (r: Option<Band>) {
        if c == 0 {
            Some(Band::B2190m)
        } else if c == 1 {
            Some(Band::B630m)
        } else if c == 2 {
            Some(Band::B160m)
        } else if c == 3 {
            Some(Band::B80m)
        } else if c == 4 {
            Some(Band::B40m)
        } else if c == 5 {
            Some(Band::B30m)
        } else if c == 6 {
            Some(Band::B20m)
        } else if c == 7 {
            Some(Band::B17m)
        } else if c == 8 {
            Some(Band::B15m)
        } else if c == 9 {
            Some(Band::B12m)
        } else if c == 10 {
            Some(Band::B10m)
        } else if c == 11 {
            Some(Band::B6m)
        } else if c == 12 {
            Some(Band::B4m)
        } else if c == 13 {
            Some(Band::B2m)
        } else if c == 14 {
            Some(Band::B70Cm)
        } else if c == 15 {
            Some(Band::B23Cm)
        } else if c == 98 {
            Some(Band::NoFilter)
        } else if c == 99 {
            Some(Band::Open)
        } else {
            None
        }
    }
}

/// Transmission schedule, bucketed from the device's 0 to 17 slot number.
#[derive(Debug, Clone, Copy, PartialEq, Eq, Structural)]
pub enum TimeSlot {
    TenMinute,
    TwentyMinute,
    BandCoordinated,
    NoSchedule,
    Tracker,
}

pub open spec fn spec_time_slot(n: u64) -> Option<TimeSlot> {
    if n <= 4 {
        Some(TimeSlot::TenMinute)
    } else if n <= 14 {
        Some(TimeSlot::TwentyMinute)
    } else if n == 15 {
        Some(TimeSlot::BandCoordinated)
    } else if n == 16 {
        Some(TimeSlot::NoSchedule)
    } else if n == 17 {
        Some(TimeSlot::Tracker)
    } else {
        None
    }
}

/// The schedule that slot number `n` belongs to: 0 to 4 ten-minute, 5 to 14
/// twenty-minute, then one slot each for the last three; none above 17.
pub fn time_slot_from_number(n: u64) -> (r: Option<TimeSlot>)
    ensures
        r == spec_time_slot(n),
{
    if n <= 4 {
        Some(TimeSlot::TenMinute)
    } else if n <= 14 {
        Some(TimeSlot::TwentyMinute)
    } else if n == 15 {
        Some(TimeSlot::BandCoordinated)
    } else if n == 16 {
        Some(TimeSlot::NoSchedule)
    } else if n == 17 {
        Some(TimeSlot::Tracker)
    } else {
        None
    }
}

pub open spec fn all_ascii(s: Seq<u8>) -> bool {
    forall|i: int| 0 <= i < s.len() ==> #[trigger] s[i] < 0x80
}

/// The characters of ASCII bytes, one for each byte.
pub open spec fn ascii_chars(s: Seq<u8>) -> Seq<char> {
    s.map_values(|b: u8| b as char)
}

/// Relies on `ascii::AsciiStr::from_ascii`, which accepts a byte slice exactly
/// when every byte is ASCII (below 0x80), and on the text of the `AsciiStr` it
/// returns, which holds one character for each byte.
#[verifier::external_body]
fn from_ascii(bytes: &[u8]) -> (r: Option<String>)
    ensures
        r is Some <==> all_ascii(bytes@),
        r matches Some(s) ==> s@ == ascii_chars(bytes@),
{
    match ascii::AsciiStr::from_ascii(bytes) {
        Ok(text) => Some(text.to_string()),
        Err(_) => None,
    }
}

/// Free text: the payload's bytes as characters, where all are ASCII.
pub open spec fn spec_ascii_text(args: Seq<u8>) -> Result<Seq<char>, ErrorKind> {
    if all_ascii(args) {
        Ok(ascii_chars(args))
    } else {
        Err(ErrorKind::NonAsciiPayload)
    }
}

/// A decimal field no larger than `max`.
pub open spec fn spec_parse_number(args: Seq<u8>, max: u64) -> Result<u64, ErrorKind> {
    if args.len() == 0 {
        Err(ErrorKind::EmptyPayload)
    } else if !all_ascii(args) {
        Err(ErrorKind::NonAsciiPayload)
    } else if !is_decimal(args) || decimal_value(args) > max {
        Err(ErrorKind::NotANumber)
    } else {
        Ok(decimal_value(args) as u64)
    }
}

/// A value of family `T` coded as one byte.
pub open spec fn spec_parse_enum<T: CodedEnum>(args: Seq<u8>) -> Result<T, ErrorKind> {
    if args.len() != 1 {
        Err(ErrorKind::WrongPayloadLength)
    } else {
        match T::spec_from_code(args[0]) {
            Some(v) => Ok(v),
            None => Err(ErrorKind::UnrecognizedEnumValue),
        }
    }
}

/// A value of family `T` coded as a decimal number of one to three digits.
pub open spec fn spec_parse_enum_from_number<T: CodedEnum>(args: Seq<u8>) -> Result<T, ErrorKind> {
    if args.len() < 1 || args.len() > 3 {
        Err(ErrorKind::WrongPayloadLength)
    } else {
        match spec_parse_number(args, 999) {
            Err(e) => Err(e),
            Ok(n) => if n <= 255 {
                match T::spec_from_code(n as u8) {
                    Some(v) => Ok(v),
                    None => Err(ErrorKind::UnrecognizedEnumValue),
                }
            } else {
                Err(ErrorKind::UnrecognizedEnumValue)
            },
        }
    }
}

/// Decodes free text: the payload verbatim, where it is 7-bit ASCII.
pub fn ascii_bytes_to_string(bytes: &[u8]) -> (r: Result<String, ErrorKind>)
    ensures
        match spec_ascii_text(bytes@) {
            Ok(t) => r matches Ok(s) && s@ == t,
            Err(e) => r == Err::<String, ErrorKind>(e),
        },
{
    match from_ascii(bytes) {
        Some(s) => Ok(s),
        None => Err(ErrorKind::NonAsciiPayload),
    }
}

/// Decodes a decimal payload into a number no larger than `max`, the width of
/// the field.
pub fn parse_number(args: &[u8], max: u64) -> (r: Result<u64, ErrorKind>)
    ensures
        r == spec_parse_number(args@, max),
{
    if args.len() == 0 {
        return Err(ErrorKind::EmptyPayload);
    }
    if from_ascii(args).is_none() {
        return Err(ErrorKind::NonAsciiPayload);
    }
    match parse_decimal(args, max) {
        Some(n) => Ok(n),
        None => Err(ErrorKind::NotANumber),
    }
}

/// Decodes a one-byte payload through the byte table of family `T`.
pub fn parse_enum<T: CodedEnum>(args: &[u8]) -> (r: Result<T, ErrorKind>)
    ensures
        r == spec_parse_enum::<T>(args@),
{
    if args.len() != 1 {
        return Err(ErrorKind::WrongPayloadLength);
    }
    match T::from_code(args[0]) {
        Some(v) => Ok(v),
        None => Err(ErrorKind::UnrecognizedEnumValue),
    }
}

/// Decodes a payload of one to three decimal digits through the number table
/// of family `T`.
pub fn parse_enum_from_number<T: CodedEnum>(args: &[u8]) -> (r: Result<T, ErrorKind>)
    ensures
        r == spec_parse_enum_from_number::<T>(args@),
{
    if args.len() < 1 || args.len() > 3 {
        return Err(ErrorKind::WrongPayloadLength);
    }
    let n = match parse_number(args, 999) {
        Ok(n) => n,
        Err(e) => return Err(e),
    };
    if n > 255 {
        return Err(ErrorKind::UnrecognizedEnumValue);
    }
    match T::from_code(n as u8) {
        Some(v) => Ok(v),
        None => Err(ErrorKind::UnrecognizedEnumValue),
    }
}


/// Decoding a band number accepts exactly the numbers of the band table, 0 to
/// 15, 98 and 99; any other number up to 999 is an unrecognized value.
pub proof fn lemma_band_number_domain(p: Seq<u8>)
    requires
        is_decimal(p),
        p.len() <= 3,
        decimal_value(p) <= 999,
    ensures
        spec_parse_enum_from_number::<Band>(p) is Ok <==> (decimal_value(p) <= 15
            || decimal_value(p) == 98 || decimal_value(p) == 99),
        spec_parse_enum_from_number::<Band>(p) is Err ==> spec_parse_enum_from_number::<Band>(p)
            == Err::<Band, ErrorKind>(ErrorKind::UnrecognizedEnumValue),
{
    assert forall|i: int| 0 <= i < p.len() implies #[trigger] p[i] < 0x80 by {
        if p[0] == 0x2b {
            if i > 0 {
                assert(is_digit(digit_part(p)[i - 1]));
            }
        } else {
            assert(is_digit(digit_part(p)[i]));
        }
    }
}

} // verus!
