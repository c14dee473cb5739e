//! The response that each code carries, and the decoder of its payload.
use vstd::prelude::*;

use crate::fields::{
    ascii_bytes_to_string, parse_enum, parse_enum_from_number, parse_number, spec_ascii_text,
    spec_parse_enum, spec_parse_enum_from_number, spec_parse_number, spec_time_slot,
    time_slot_from_number, Band, Constellation, ErrorKind, FilterBank, GpsLock, LocationSource,
    LocatorPrecision, Mode, PowerEncoding, PrefixSuffix, Reference, TimeSlot,
};
use vstd::slice::slice_subrange;

verus! {

/// `CCM`: current mode.
#[derive(Debug, Clone, PartialEq, Eq)]
pub struct CurrentModeCommand {
    pub mode: Mode,
}

impl CurrentModeCommand {
    /// What `parse` returns for payload `args`.
    pub open spec fn parses_to(args: Seq<u8>, r: Result<Response, ErrorKind>) -> bool {
        match spec_parse_enum::<Mode>(args) {
            Ok(v) => r == Ok::<Response, ErrorKind>(Response::CurrentModeCommand(CurrentModeCommand { mode: v })),
            Err(e) => r == Err::<Response, ErrorKind>(e),
        }
    }

    /// Decodes the payload of this code.
    pub fn parse(args: &[u8]) -> (r: Result<Response, ErrorKind>)
        ensures
            Self::parses_to(args@, r),
    {
        match parse_enum::<Mode>(args) {
            Ok(v) => Ok(Response::CurrentModeCommand(CurrentModeCommand { mode: v })),
            Err(e) => Err(e),
        }
    }
}

/// `CCR`: current frequency reference.
#[derive(Debug, Clone, PartialEq, Eq)]
pub struct CurrentReferenceCommand {
    pub reference: Reference,
}

impl CurrentReferenceCommand {
    /// What `parse` returns for payload `args`.
    pub open spec fn parses_to(args: Seq<u8>, r: Result<Response, ErrorKind>) -> bool {
        match spec_parse_enum::<Reference>(args) {
            Ok(v) => r == Ok::<Response, ErrorKind>(Response::CurrentReferenceCommand(CurrentReferenceCommand { reference: v })),
            Err(e) => r == Err::<Response, ErrorKind>(e),
        }
    }

    /// Decodes the payload of this code.
    pub fn parse(args: &[u8]) -> (r: Result<Response, ErrorKind>)
        ensures
            Self::parses_to(args@, r),
    {
        match parse_enum::<Reference>(args) {
            Ok(v) => Ok(Response::CurrentReferenceCommand(CurrentReferenceCommand { reference: v })),
            Err(e) => Err(e),
        }
    }
}

/// `OTP`: pause between transmissions, sent in minutes (0 to 99999).
#[derive(Debug, Clone, PartialEq, Eq)]
pub struct TxPauseOption {
    /// The pause, in seconds.
    pub duration_secs: u64,
}

impl TxPauseOption {
    /// What `parse` returns for payload `args`.
    pub open spec fn parses_to(args: Seq<u8>, r: Result<Response, ErrorKind>) -> bool {
        match spec_parse_number(args, u32::MAX as u64) {
            Ok(minutes) => r == Ok::<Response, ErrorKind>(Response::TxPauseOption(TxPauseOption { duration_secs: (minutes * 60) as u64 })),
            Err(e) => r == Err::<Response, ErrorKind>(e),
        }
    }

    /// Decodes the payload of this code.
    pub fn parse(args: &[u8]) -> (r: Result<Response, ErrorKind>)
        ensures
            Self::parses_to(args@, r),
    {
        match parse_number(args, u32::MAX as u64) {
            Ok(minutes) => Ok(Response::TxPauseOption(TxPauseOption { duration_secs: minutes * 60 })),
            Err(e) => Err(e),
        }
    }
}

/// `OSM`: mode the device starts in.
#[derive(Debug, Clone, PartialEq, Eq)]
pub struct StartModeOption {
    pub mode: Mode,
}

impl StartModeOption {
    /// What `parse` returns for payload `args`.
    pub open spec fn parses_to(args: Seq<u8>, r: Result<Response, ErrorKind>) -> bool {
        match spec_parse_enum::<Mode>(args) {
            Ok(v) => r == Ok::<Response, ErrorKind>(Response::StartModeOption(StartModeOption { mode: v })),
            Err(e) => r == Err::<Response, ErrorKind>(e),
        }
    }

    /// Decodes the payload of this code.
    pub fn parse(args: &[u8]) -> (r: Result<Response, ErrorKind>)
        ensures
            Self::parses_to(args@, r),
    {
        match parse_enum::<Mode>(args) {
            Ok(v) => Ok(Response::StartModeOption(StartModeOption { mode: v })),
            Err(e) => Err(e),
        }
    }
}

/// `OBD`: whether transmission is enabled on a band: a two-digit band number,
/// a separator, then `E` or `D`.
#[derive(Debug, Clone, PartialEq, Eq)]
pub struct BandTxEnable {
    pub band: Band,
    pub enabled: bool,
}

impl BandTxEnable {
    /// What `parse` returns for payload `args`.
    pub open spec fn parses_to(args: Seq<u8>, r: Result<Response, ErrorKind>) -> bool {
        if args.len() != 4 {
            r == Err::<Response, ErrorKind>(ErrorKind::WrongPayloadLength)
        } else {
            match spec_parse_enum_from_number::<Band>(args.subrange(0, 2)) {
                Err(e) => r == Err::<Response, ErrorKind>(e),
                Ok(band) => if args[3] == 0x45 {  // 'E'
                    r == Ok::<Response, ErrorKind>(Response::BandTxEnable(BandTxEnable { band, enabled: true }))
                } else if args[3] == 0x44 {  // 'D'
                    r == Ok::<Response, ErrorKind>(Response::BandTxEnable(BandTxEnable { band, enabled: false }))
                } else {
                    r == Err::<Response, ErrorKind>(ErrorKind::UnrecognizedEnumValue)
                },
            }
        }
    }

    /// Decodes the payload of this code.
    pub fn parse(args: &[u8]) -> (r: Result<Response, ErrorKind>)
        ensures
            Self::parses_to(args@, r),
    {
        if args.len() != 4 {
            return Err(ErrorKind::WrongPayloadLength);
        }
        let band = match parse_enum_from_number::<Band>(slice_subrange(args, 0, 2)) {
            Ok(band) => band,
            Err(e) => return Err(e),
        };
        if args[3] == 0x45 {  // 'E'
            Ok(Response::BandTxEnable(BandTxEnable { band, enabled: true }))
        } else if args[3] == 0x44 {  // 'D'
            Ok(Response::BandTxEnable(BandTxEnable { band, enabled: false }))
        } else {
            Err(ErrorKind::UnrecognizedEnumValue)
        }
    }
}

/// `OLC`: where the locator comes from.
#[derive(Debug, Clone, PartialEq, Eq)]
pub struct LocationSourceOption {
    pub location_source: LocationSource,
}

impl LocationSourceOption {
    /// What `parse` returns for payload `args`.
    pub open spec fn parses_to(args: Seq<u8>, r: Result<Response, ErrorKind>) -> bool {
        match spec_parse_enum::<LocationSource>(args) {
            Ok(v) => r == Ok::<Response, ErrorKind>(Response::LocationSourceOption(LocationSourceOption { location_source: v })),
            Err(e) => r == Err::<Response, ErrorKind>(e),
        }
    }

    /// Decodes the payload of this code.
    pub fn parse(args: &[u8]) -> (r: Result<Response, ErrorKind>)
        ensures
            Self::parses_to(args@, r),
    {
        match parse_enum::<LocationSource>(args) {
            Ok(v) => Ok(Response::LocationSourceOption(LocationSourceOption { location_source: v })),
            Err(e) => Err(e),
        }
    }
}

/// `OLP`: number of locator characters in reports.
#[derive(Debug, Clone, PartialEq, Eq)]
pub struct LocatorPrecisionOption {
    pub locator_precision: LocatorPrecision,
}

impl LocatorPrecisionOption {
    /// What `parse` returns for payload `args`.
    pub open spec fn parses_to(args: Seq<u8>, r: Result<Response, ErrorKind>) -> bool {
        match spec_parse_enum::<LocatorPrecision>(args) {
            Ok(v) => r == Ok::<Response, ErrorKind>(Response::LocatorPrecisionOption(LocatorPrecisionOption { locator_precision: v })),
            Err(e) => r == Err::<Response, ErrorKind>(e),
        }
    }

    /// Decodes the payload of this code.
    pub fn parse(args: &[u8]) -> (r: Result<Response, ErrorKind>)
        ensures
            Self::parses_to(args@, r),
    {
        match parse_enum::<LocatorPrecision>(args) {
            Ok(v) => Ok(Response::LocatorPrecisionOption(LocatorPrecisionOption { locator_precision: v })),
            Err(e) => Err(e),
        }
    }
}

/// `OPW`: what the power field of a report carries.
#[derive(Debug, Clone, PartialEq, Eq)]
pub struct PowerEncodingOption {
    pub power_encoding: PowerEncoding,
}

impl PowerEncodingOption {
    /// What `parse` returns for payload `args`.
    pub open spec fn parses_to(args: Seq<u8>, r: Result<Response, ErrorKind>) -> bool {
        match spec_parse_enum::<PowerEncoding>(args) {
            Ok(v) => r == Ok::<Response, ErrorKind>(Response::PowerEncodingOption(PowerEncodingOption { power_encoding: v })),
            Err(e) => r == Err::<Response, ErrorKind>(e),
        }
    }

    /// Decodes the payload of this code.
    pub fn parse(args: &[u8]) -> (r: Result<Response, ErrorKind>)
        ensures
            Self::parses_to(args@, r),
    {
        match parse_enum::<PowerEncoding>(args) {
            Ok(v) => Ok(Response::PowerEncodingOption(PowerEncodingOption { power_encoding: v })),
            Err(e) => Err(e),
        }
    }
}

/// `OTS`: transmission schedule, sent as a slot number from 0 to 17.
#[derive(Debug, Clone, PartialEq, Eq)]
pub struct TimeSlotOption {
    pub time_slot: TimeSlot,
}

impl TimeSlotOption {
    /// What `parse` returns for payload `args`.
    pub open spec fn parses_to(args: Seq<u8>, r: Result<Response, ErrorKind>) -> bool {
        match spec_parse_number(args, u16::MAX as u64) {
            Ok(n) => match spec_time_slot(n) {
                Some(v) => r == Ok::<Response, ErrorKind>(Response::TimeSlotOption(TimeSlotOption { time_slot: v })),
                None => r == Err::<Response, ErrorKind>(ErrorKind::UnrecognizedEnumValue),
            },
            Err(e) => r == Err::<Response, ErrorKind>(e),
        }
    }

    /// Decodes the payload of this code.
    pub fn parse(args: &[u8]) -> (r: Result<Response, ErrorKind>)
        ensures
            Self::parses_to(args@, r),
    {
        let n = match parse_number(args, u16::MAX as u64) {
            Ok(n) => n,
            Err(e) => return Err(e),
        };
        match time_slot_from_number(n) {
            Some(v) => Ok(Response::TimeSlotOption(TimeSlotOption { time_slot: v })),
            None => Err(ErrorKind::UnrecognizedEnumValue),
        }
    }
}

/// `OPS`: whether a call sign prefix or suffix is used.
#[derive(Debug, Clone, PartialEq, Eq)]
pub struct PrefixSuffixOption {
    pub prefix_suffix: PrefixSuffix,
}

impl PrefixSuffixOption {
    /// What `parse` returns for payload `args`.
    pub open spec fn parses_to(args: Seq<u8>, r: Result<Response, ErrorKind>) -> bool {
        match spec_parse_enum::<PrefixSuffix>(args) {
            Ok(v) => r == Ok::<Response, ErrorKind>(Response::PrefixSuffixOption(PrefixSuffixOption { prefix_suffix: v })),
            Err(e) => r == Err::<Response, ErrorKind>(e),
        }
    }

    /// Decodes the payload of this code.
    pub fn parse(args: &[u8]) -> (r: Result<Response, ErrorKind>)
        ensures
            Self::parses_to(args@, r),
    {
        match parse_enum::<PrefixSuffix>(args) {
            Ok(v) => Ok(Response::PrefixSuffixOption(PrefixSuffixOption { prefix_suffix: v })),
            Err(e) => Err(e),
        }
    }
}

/// `OSC`: satellite systems the GPS receiver uses.
#[derive(Debug, Clone, PartialEq, Eq)]
pub struct ConstellationOption {
    pub constellation: Constellation,
}

impl ConstellationOption {
    /// What `parse` returns for payload `args`.
    pub open spec fn parses_to(args: Seq<u8>, r: Result<Response, ErrorKind>) -> bool {
        match spec_parse_enum::<Constellation>(args) {
            Ok(v) => r == Ok::<Response, ErrorKind>(Response::ConstellationOption(ConstellationOption { constellation: v })),
            Err(e) => r == Err::<Response, ErrorKind>(e),
        }
    }

    /// Decodes the payload of this code.
    pub fn parse(args: &[u8]) -> (r: Result<Response, ErrorKind>)
        ensures
            Self::parses_to(args@, r),
    {
        match parse_enum::<Constellation>(args) {
            Ok(v) => Ok(Response::ConstellationOption(ConstellationOption { constellation: v })),
            Err(e) => Err(e),
        }
    }
}

/// `DCS`: call sign.
#[derive(Debug, Clone, PartialEq, Eq)]
pub struct CallSignData {
    pub call_sign: String,
}

impl CallSignData {
    /// What `parse` returns for payload `args`.
    pub open spec fn parses_to(args: Seq<u8>, r: Result<Response, ErrorKind>) -> bool {
        match spec_ascii_text(args) {
            Ok(t) => r matches Ok(Response::CallSignData(d)) && d.call_sign@ == t,
            Err(e) => r == Err::<Response, ErrorKind>(e),
        }
    }

    /// Decodes the payload of this code.
    pub fn parse(args: &[u8]) -> (r: Result<Response, ErrorKind>)
        ensures
            Self::parses_to(args@, r),
    {
        match ascii_bytes_to_string(args) {
            Ok(s) => Ok(Response::CallSignData(CallSignData { call_sign: s })),
            Err(e) => Err(e),
        }
    }
}

/// `DSF`: call sign suffix code, as the device sends it.
#[derive(Debug, Clone, PartialEq, Eq)]
pub struct SuffixData {
    pub data_suffix: String,
}

impl SuffixData {
    /// What `parse` returns for payload `args`.
    pub open spec fn parses_to(args: Seq<u8>, r: Result<Response, ErrorKind>) -> bool {
        match spec_ascii_text(args) {
            Ok(t) => r matches Ok(Response::SuffixData(d)) && d.data_suffix@ == t,
            Err(e) => r == Err::<Response, ErrorKind>(e),
        }
    }

    /// Decodes the payload of this code.
    pub fn parse(args: &[u8]) -> (r: Result<Response, ErrorKind>)
        ensures
            Self::parses_to(args@, r),
    {
        match ascii_bytes_to_string(args) {
            Ok(s) => Ok(Response::SuffixData(SuffixData { data_suffix: s })),
            Err(e) => Err(e),
        }
    }
}

/// `DPF`: call sign prefix, padded with leading spaces.
#[derive(Debug, Clone, PartialEq, Eq)]
pub struct PrefixData {
    pub data_prefix: String,
}

impl PrefixData {
    /// What `parse` returns for payload `args`.
    pub open spec fn parses_to(args: Seq<u8>, r: Result<Response, ErrorKind>) -> bool {
        match spec_ascii_text(args) {
            Ok(t) => r matches Ok(Response::PrefixData(d)) && d.data_prefix@ == t,
            Err(e) => r == Err::<Response, ErrorKind>(e),
        }
    }

    /// Decodes the payload of this code.
    pub fn parse(args: &[u8]) -> (r: Result<Response, ErrorKind>)
        ensures
            Self::parses_to(args@, r),
    {
        match ascii_bytes_to_string(args) {
            Ok(s) => Ok(Response::PrefixData(PrefixData { data_prefix: s })),
            Err(e) => Err(e),
        }
    }
}

/// `DL4`: four-character Maidenhead locator set by hand.
#[derive(Debug, Clone, PartialEq, Eq)]
pub struct Locator4Data {
    pub locator_4: String,
}

impl Locator4Data {
    /// What `parse` returns for payload `args`.
    pub open spec fn parses_to(args: Seq<u8>, r: Result<Response, ErrorKind>) -> bool {
        match spec_ascii_text(args) {
            Ok(t) => r matches Ok(Response::Locator4Data(d)) && d.locator_4@ == t,
            Err(e) => r == Err::<Response, ErrorKind>(e),
        }
    }

    /// Decodes the payload of this code.
    pub fn parse(args: &[u8]) -> (r: Result<Response, ErrorKind>)
        ensures
            Self::parses_to(args@, r),
    {
        match ascii_bytes_to_string(args) {
            Ok(s) => Ok(Response::Locator4Data(Locator4Data { locator_4: s })),
            Err(e) => Err(e),
        }
    }
}

/// `DL6`: six-character Maidenhead locator set by hand.
#[derive(Debug, Clone, PartialEq, Eq)]
pub struct Locator6Data {
    pub locator_6: String,
}

impl Locator6Data {
    /// What `parse` returns for payload `args`.
    pub open spec fn parses_to(args: Seq<u8>, r: Result<Response, ErrorKind>) -> bool {
        match spec_ascii_text(args) {
            Ok(t) => r matches Ok(Response::Locator6Data(d)) && d.locator_6@ == t,
            Err(e) => r == Err::<Response, ErrorKind>(e),
        }
    }

    /// Decodes the payload of this code.
    pub fn parse(args: &[u8]) -> (r: Result<Response, ErrorKind>)
        ensures
            Self::parses_to(args@, r),
    {
        match ascii_bytes_to_string(args) {
            Ok(s) => Ok(Response::Locator6Data(Locator6Data { locator_6: s })),
            Err(e) => Err(e),
        }
    }
}

/// `DPD`: reported power in dBm (0 to 60).
#[derive(Debug, Clone, PartialEq, Eq)]
pub struct PowerData {
    pub dbm: u8,
}

impl PowerData {
    /// What `parse` returns for payload `args`.
    pub open spec fn parses_to(args: Seq<u8>, r: Result<Response, ErrorKind>) -> bool {
        match spec_parse_number(args, u8::MAX as u64) {
            Ok(n) => r == Ok::<Response, ErrorKind>(Response::PowerData(PowerData { dbm: n as u8 })),
            Err(e) => r == Err::<Response, ErrorKind>(e),
        }
    }

    /// Decodes the payload of this code.
    pub fn parse(args: &[u8]) -> (r: Result<Response, ErrorKind>)
        ensures
            Self::parses_to(args@, r),
    {
        match parse_number(args, u8::MAX as u64) {
            Ok(n) => Ok(Response::PowerData(PowerData { dbm: n as u8 })),
            Err(e) => Err(e),
        }
    }
}

/// `DNM`: name of the device, up to 40 characters.
#[derive(Debug, Clone, PartialEq, Eq)]
pub struct NameData {
    pub name: String,
}

impl NameData {
    /// What `parse` returns for payload `args`.
    pub open spec fn parses_to(args: Seq<u8>, r: Result<Response, ErrorKind>) -> bool {
        match spec_ascii_text(args) {
            Ok(t) => r matches Ok(Response::NameData(d)) && d.name@ == t,
            Err(e) => r == Err::<Response, ErrorKind>(e),
        }
    }

    /// Decodes the payload of this code.
    pub fn parse(args: &[u8]) -> (r: Result<Response, ErrorKind>)
        ensures
            Self::parses_to(args@, r),
    {
        match ascii_bytes_to_string(args) {
            Ok(s) => Ok(Response::NameData(NameData { name: s })),
            Err(e) => Err(e),
        }
    }
}

/// `DGF`: generator frequency, in hundredths of a hertz.
#[derive(Debug, Clone, PartialEq, Eq)]
pub struct GeneratorFrequencyData {
    pub centihertz: u32,
}

impl GeneratorFrequencyData {
    /// What `parse` returns for payload `args`.
    pub open spec fn parses_to(args: Seq<u8>, r: Result<Response, ErrorKind>) -> bool {
        match spec_parse_number(args, u32::MAX as u64) {
            Ok(n) => r == Ok::<Response, ErrorKind>(Response::GeneratorFrequencyData(GeneratorFrequencyData { centihertz: n as u32 })),
            Err(e) => r == Err::<Response, ErrorKind>(e),
        }
    }

    /// Decodes the payload of this code.
    pub fn parse(args: &[u8]) -> (r: Result<Response, ErrorKind>)
        ensures
            Self::parses_to(args@, r),
    {
        match parse_number(args, u32::MAX as u64) {
            Ok(n) => Ok(Response::GeneratorFrequencyData(GeneratorFrequencyData { centihertz: n as u32 })),
            Err(e) => Err(e),
        }
    }
}

/// `DER`: frequency of the external reference, in hertz.
#[derive(Debug, Clone, PartialEq, Eq)]
pub struct ExternalReferenceFrequencyData {
    pub hertz: u32,
}

impl ExternalReferenceFrequencyData {
    /// What `parse` returns for payload `args`.
    pub open spec fn parses_to(args: Seq<u8>, r: Result<Response, ErrorKind>) -> bool {
        match spec_parse_number(args, u32::MAX as u64) {
            Ok(n) => r == Ok::<Response, ErrorKind>(Response::ExternalReferenceFrequencyData(ExternalReferenceFrequencyData { hertz: n as u32 })),
            Err(e) => r == Err::<Response, ErrorKind>(e),
        }
    }

    /// Decodes the payload of this code.
    pub fn parse(args: &[u8]) -> (r: Result<Response, ErrorKind>)
        ensures
            Self::parses_to(args@, r),
    {
        match parse_number(args, u32::MAX as u64) {
            Ok(n) => Ok(Response::ExternalReferenceFrequencyData(ExternalReferenceFrequencyData { hertz: n as u32 })),
            Err(e) => Err(e),
        }
    }
}

/// `FPN`: product model number (0 to 65534).
#[derive(Debug, Clone, PartialEq, Eq)]
pub struct ProductModelNumberFactory {
    pub model: u16,
}

impl ProductModelNumberFactory {
    /// What `parse` returns for payload `args`.
    pub open spec fn parses_to(args: Seq<u8>, r: Result<Response, ErrorKind>) -> bool {
        match spec_parse_number(args, u16::MAX as u64) {
            Ok(n) => r == Ok::<Response, ErrorKind>(Response::ProductModelNumberFactory(ProductModelNumberFactory { model: n as u16 })),
            Err(e) => r == Err::<Response, ErrorKind>(e),
        }
    }

    /// Decodes the payload of this code.
    pub fn parse(args: &[u8]) -> (r: Result<Response, ErrorKind>)
        ensures
            Self::parses_to(args@, r),
    {
        match parse_number(args, u16::MAX as u64) {
            Ok(n) => Ok(Response::ProductModelNumberFactory(ProductModelNumberFactory { model: n as u16 })),
            Err(e) => Err(e),
        }
    }
}

/// `FHV`: hardware version.
#[derive(Debug, Clone, PartialEq, Eq)]
pub struct HardwareVersionFactory {
    pub hardware_version: String,
}

impl HardwareVersionFactory {
    /// What `parse` returns for payload `args`.
    pub open spec fn parses_to(args: Seq<u8>, r: Result<Response, ErrorKind>) -> bool {
        match spec_ascii_text(args) {
            Ok(t) => r matches Ok(Response::HardwareVersionFactory(d)) && d.hardware_version@ == t,
            Err(e) => r == Err::<Response, ErrorKind>(e),
        }
    }

    /// Decodes the payload of this code.
    pub fn parse(args: &[u8]) -> (r: Result<Response, ErrorKind>)
        ensures
            Self::parses_to(args@, r),
    {
        match ascii_bytes_to_string(args) {
            Ok(s) => Ok(Response::HardwareVersionFactory(HardwareVersionFactory { hardware_version: s })),
            Err(e) => Err(e),
        }
    }
}

/// `FHR`: hardware revision.
#[derive(Debug, Clone, PartialEq, Eq)]
pub struct HardwareRevisionFactory {
    pub hardware_version: String,
}

impl HardwareRevisionFactory {
    /// What `parse` returns for payload `args`.
    pub open spec fn parses_to(args: Seq<u8>, r: Result<Response, ErrorKind>) -> bool {
        match spec_ascii_text(args) {
            Ok(t) => r matches Ok(Response::HardwareRevisionFactory(d)) && d.hardware_version@ == t,
            Err(e) => r == Err::<Response, ErrorKind>(e),
        }
    }

    /// Decodes the payload of this code.
    pub fn parse(args: &[u8]) -> (r: Result<Response, ErrorKind>)
        ensures
            Self::parses_to(args@, r),
    {
        match ascii_bytes_to_string(args) {
            Ok(s) => Ok(Response::HardwareRevisionFactory(HardwareRevisionFactory { hardware_version: s })),
            Err(e) => Err(e),
        }
    }
}

/// `FSV`: software version.
#[derive(Debug, Clone, PartialEq, Eq)]
pub struct SoftwareVersionFactory {
    pub software_version: String,
}

impl SoftwareVersionFactory {
    /// What `parse` returns for payload `args`.
    pub open spec fn parses_to(args: Seq<u8>, r: Result<Response, ErrorKind>) -> bool {
        match spec_ascii_text(args) {
            Ok(t) => r matches Ok(Response::SoftwareVersionFactory(d)) && d.software_version@ == t,
            Err(e) => r == Err::<Response, ErrorKind>(e),
        }
    }

    /// Decodes the payload of this code.
    pub fn parse(args: &[u8]) -> (r: Result<Response, ErrorKind>)
        ensures
            Self::parses_to(args@, r),
    {
        match ascii_bytes_to_string(args) {
            Ok(s) => Ok(Response::SoftwareVersionFactory(SoftwareVersionFactory { software_version: s })),
            Err(e) => Err(e),
        }
    }
}

/// `FSR`: software revision.
#[derive(Debug, Clone, PartialEq, Eq)]
pub struct SoftwareRevisionFactory {
    pub software_revision: String,
}

impl SoftwareRevisionFactory {
    /// What `parse` returns for payload `args`.
    pub open spec fn parses_to(args: Seq<u8>, r: Result<Response, ErrorKind>) -> bool {
        match spec_ascii_text(args) {
            Ok(t) => r matches Ok(Response::SoftwareRevisionFactory(d)) && d.software_revision@ == t,
            Err(e) => r == Err::<Response, ErrorKind>(e),
        }
    }

    /// Decodes the payload of this code.
    pub fn parse(args: &[u8]) -> (r: Result<Response, ErrorKind>)
        ensures
            Self::parses_to(args@, r),
    {
        match ascii_bytes_to_string(args) {
            Ok(s) => Ok(Response::SoftwareRevisionFactory(SoftwareRevisionFactory { software_revision: s })),
            Err(e) => Err(e),
        }
    }
}

/// `FRF`: frequency of the reference oscillator, in hertz.
#[derive(Debug, Clone, PartialEq, Eq)]
pub struct ReferenceOscillatorFrequencyFactory {
    pub hertz: u32,
}

impl ReferenceOscillatorFrequencyFactory {
    /// What `parse` returns for payload `args`.
    pub open spec fn parses_to(args: Seq<u8>, r: Result<Response, ErrorKind>) -> bool {
        match spec_parse_number(args, u32::MAX as u64) {
            Ok(n) => r == Ok::<Response, ErrorKind>(Response::ReferenceOscillatorFrequencyFactory(ReferenceOscillatorFrequencyFactory { hertz: n as u32 })),
            Err(e) => r == Err::<Response, ErrorKind>(e),
        }
    }

    /// Decodes the payload of this code.
    pub fn parse(args: &[u8]) -> (r: Result<Response, ErrorKind>)
        ensures
            Self::parses_to(args@, r),
    {
        match parse_number(args, u32::MAX as u64) {
            Ok(n) => Ok(Response::ReferenceOscillatorFrequencyFactory(ReferenceOscillatorFrequencyFactory { hertz: n as u32 })),
            Err(e) => Err(e),
        }
    }
}

/// `FLP`: a low-pass filter slot: the bank letter, a separator, then the
/// two-digit band of the filter fitted there.
#[derive(Debug, Clone, PartialEq, Eq)]
pub struct LowPassFilterFactory {
    pub filter_bank: FilterBank,
    pub band: Band,
}

impl LowPassFilterFactory {
    /// What `parse` returns for payload `args`.
    pub open spec fn parses_to(args: Seq<u8>, r: Result<Response, ErrorKind>) -> bool {
        if args.len() != 4 {
            r == Err::<Response, ErrorKind>(ErrorKind::WrongPayloadLength)
        } else {
            match spec_parse_enum::<FilterBank>(args.subrange(0, 1)) {
                Err(e) => r == Err::<Response, ErrorKind>(e),
                Ok(filter_bank) => match spec_parse_enum_from_number::<Band>(args.subrange(2, 4)) {
                    Err(e) => r == Err::<Response, ErrorKind>(e),
                    Ok(band) => r == Ok::<Response, ErrorKind>(Response::LowPassFilterFactory(LowPassFilterFactory { filter_bank, band })),
                },
            }
        }
    }

    /// Decodes the payload of this code.
    pub fn parse(args: &[u8]) -> (r: Result<Response, ErrorKind>)
        ensures
            Self::parses_to(args@, r),
    {
        if args.len() != 4 {
            return Err(ErrorKind::WrongPayloadLength);
        }
        let filter_bank = match parse_enum::<FilterBank>(slice_subrange(args, 0, 1)) {
            Ok(v) => v,
            Err(e) => return Err(e),
        };
        match parse_enum_from_number::<Band>(slice_subrange(args, 2, 4)) {
            Ok(band) => Ok(Response::LowPassFilterFactory(LowPassFilterFactory { filter_bank, band })),
            Err(e) => Err(e),
        }
    }
}

/// `GL4`: four-character Maidenhead locator from the GPS receiver.
#[derive(Debug, Clone, PartialEq, Eq)]
pub struct Locator4GPS {
    pub maidenhead_4: String,
}

impl Locator4GPS {
    /// What `parse` returns for payload `args`.
    pub open spec fn parses_to(args: Seq<u8>, r: Result<Response, ErrorKind>) -> bool {
        match spec_ascii_text(args) {
            Ok(t) => r matches Ok(Response::Locator4GPS(d)) && d.maidenhead_4@ == t,
            Err(e) => r == Err::<Response, ErrorKind>(e),
        }
    }

    /// Decodes the payload of this code.
    pub fn parse(args: &[u8]) -> (r: Result<Response, ErrorKind>)
        ensures
            Self::parses_to(args@, r),
    {
        match ascii_bytes_to_string(args) {
            Ok(s) => Ok(Response::Locator4GPS(Locator4GPS { maidenhead_4: s })),
            Err(e) => Err(e),
        }
    }
}

/// `GL6`: six-character Maidenhead locator from the GPS receiver.
#[derive(Debug, Clone, PartialEq, Eq)]
pub struct Locator6GPS {
    pub maidenhead_6: String,
}

impl Locator6GPS {
    /// What `parse` returns for payload `args`.
    pub open spec fn parses_to(args: Seq<u8>, r: Result<Response, ErrorKind>) -> bool {
        match spec_ascii_text(args) {
            Ok(t) => r matches Ok(Response::Locator6GPS(d)) && d.maidenhead_6@ == t,
            Err(e) => r == Err::<Response, ErrorKind>(e),
        }
    }

    /// Decodes the payload of this code.
    pub fn parse(args: &[u8]) -> (r: Result<Response, ErrorKind>)
        ensures
            Self::parses_to(args@, r),
    {
        match ascii_bytes_to_string(args) {
            Ok(s) => Ok(Response::Locator6GPS(Locator6GPS { maidenhead_6: s })),
            Err(e) => Err(e),
        }
    }
}

/// `GTM`: GPS time as `HH:MM:SS`, kept as text.
#[derive(Debug, Clone, PartialEq, Eq)]
pub struct TimeGPS {
    pub hhmmss: String,
}

impl TimeGPS {
    /// What `parse` returns for payload `args`.
    pub open spec fn parses_to(args: Seq<u8>, r: Result<Response, ErrorKind>) -> bool {
        match spec_ascii_text(args) {
            Ok(t) => r matches Ok(Response::TimeGPS(d)) && d.hhmmss@ == t,
            Err(e) => r == Err::<Response, ErrorKind>(e),
        }
    }

    /// Decodes the payload of this code.
    pub fn parse(args: &[u8]) -> (r: Result<Response, ErrorKind>)
        ensures
            Self::parses_to(args@, r),
    {
        match ascii_bytes_to_string(args) {
            Ok(s) => Ok(Response::TimeGPS(TimeGPS { hhmmss: s })),
            Err(e) => Err(e),
        }
    }
}

/// `GLC`: whether the GPS receiver has a fix.
#[derive(Debug, Clone, PartialEq, Eq)]
pub struct LockStatusGPS {
    pub lock: GpsLock,
}

impl LockStatusGPS {
    /// What `parse` returns for payload `args`.
    pub open spec fn parses_to(args: Seq<u8>, r: Result<Response, ErrorKind>) -> bool {
        match spec_parse_enum::<GpsLock>(args) {
            Ok(v) => r == Ok::<Response, ErrorKind>(Response::LockStatusGPS(LockStatusGPS { lock: v })),
            Err(e) => r == Err::<Response, ErrorKind>(e),
        }
    }

    /// Decodes the payload of this code.
    pub fn parse(args: &[u8]) -> (r: Result<Response, ErrorKind>)
        ensures
            Self::parses_to(args@, r),
    {
        match parse_enum::<GpsLock>(args) {
            Ok(v) => Ok(Response::LockStatusGPS(LockStatusGPS { lock: v })),
            Err(e) => Err(e),
        }
    }
}

/// `GSI`: satellite data from the GPS receiver, kept as text.
#[derive(Debug, Clone, PartialEq, Eq)]
pub struct SatelliteInfoGPS {
    pub satellite_info: String,
}

impl SatelliteInfoGPS {
    /// What `parse` returns for payload `args`.
    pub open spec fn parses_to(args: Seq<u8>, r: Result<Response, ErrorKind>) -> bool {
        match spec_ascii_text(args) {
            Ok(t) => r matches Ok(Response::SatelliteInfoGPS(d)) && d.satellite_info@ == t,
            Err(e) => r == Err::<Response, ErrorKind>(e),
        }
    }

    /// Decodes the payload of this code.
    pub fn parse(args: &[u8]) -> (r: Result<Response, ErrorKind>)
        ensures
            Self::parses_to(args@, r),
    {
        match ascii_bytes_to_string(args) {
            Ok(s) => Ok(Response::SatelliteInfoGPS(SatelliteInfoGPS { satellite_info: s })),
            Err(e) => Err(e),
        }
    }
}

/// `TFQ`: frequency being transmitted, in hundredths of a hertz.
#[derive(Debug, Clone, PartialEq, Eq)]
pub struct TransmitterFrequency {
    pub centihertz: u64,
}

impl TransmitterFrequency {
    /// What `parse` returns for payload `args`.
    pub open spec fn parses_to(args: Seq<u8>, r: Result<Response, ErrorKind>) -> bool {
        match spec_parse_number(args, u64::MAX as u64) {
            Ok(n) => r == Ok::<Response, ErrorKind>(Response::TransmitterFrequency(TransmitterFrequency { centihertz: n as u64 })),
            Err(e) => r == Err::<Response, ErrorKind>(e),
        }
    }

    /// Decodes the payload of this code.
    pub fn parse(args: &[u8]) -> (r: Result<Response, ErrorKind>)
        ensures
            Self::parses_to(args@, r),
    {
        match parse_number(args, u64::MAX as u64) {
            Ok(n) => Ok(Response::TransmitterFrequency(TransmitterFrequency { centihertz: n as u64 })),
            Err(e) => Err(e),
        }
    }
}

/// `TON`: whether the transmitter is on: `T` or `F`.
#[derive(Debug, Clone, PartialEq, Eq)]
pub struct TransmitterStatus {
    pub on: bool,
}

impl TransmitterStatus {
    /// What `parse` returns for payload `args`.
    pub open spec fn parses_to(args: Seq<u8>, r: Result<Response, ErrorKind>) -> bool {
        if args.len() != 1 {
            r == Err::<Response, ErrorKind>(ErrorKind::WrongPayloadLength)
        } else if args[0] == 0x54 {  // 'T'
            r == Ok::<Response, ErrorKind>(Response::TransmitterStatus(TransmitterStatus { on: true }))
        } else if args[0] == 0x46 {  // 'F'
            r == Ok::<Response, ErrorKind>(Response::TransmitterStatus(TransmitterStatus { on: false }))
        } else {
            r == Err::<Response, ErrorKind>(ErrorKind::UnrecognizedEnumValue)
        }
    }

    /// Decodes the payload of this code.
    pub fn parse(args: &[u8]) -> (r: Result<Response, ErrorKind>)
        ensures
            Self::parses_to(args@, r),
    {
        if args.len() != 1 {
            return Err(ErrorKind::WrongPayloadLength);
        }
        if args[0] == 0x54 {  // 'T'
            Ok(Response::TransmitterStatus(TransmitterStatus { on: true }))
        } else if args[0] == 0x46 {  // 'F'
            Ok(Response::TransmitterStatus(TransmitterStatus { on: false }))
        } else {
            Err(ErrorKind::UnrecognizedEnumValue)
        }
    }
}

/// `MPS`: microcontroller pause; its payload is not decoded.
#[derive(Debug, Clone, PartialEq, Eq)]
pub struct MicrocontrollerPause {}

impl MicrocontrollerPause {
    /// What `parse` returns for payload `args`.
    pub open spec fn parses_to(args: Seq<u8>, r: Result<Response, ErrorKind>) -> bool {
        r == Ok::<Response, ErrorKind>(Response::MicrocontrollerPause(MicrocontrollerPause {}))
    }

    /// Decodes the payload of this code.
    pub fn parse(_args: &[u8]) -> (r: Result<Response, ErrorKind>)
        ensures
            Self::parses_to(_args@, r),
    {
        Ok(Response::MicrocontrollerPause(MicrocontrollerPause {}))
    }
}

/// `MIN`: microcontroller information.
#[derive(Debug, Clone, PartialEq, Eq)]
pub struct MicrocontrollerInfo {
    pub info: String,
}

impl MicrocontrollerInfo {
    /// What `parse` returns for payload `args`.
    pub open spec fn parses_to(args: Seq<u8>, r: Result<Response, ErrorKind>) -> bool {
        match spec_ascii_text(args) {
            Ok(t) => r matches Ok(Response::MicrocontrollerInfo(d)) && d.info@ == t,
            Err(e) => r == Err::<Response, ErrorKind>(e),
        }
    }

    /// Decodes the payload of this code.
    pub fn parse(args: &[u8]) -> (r: Result<Response, ErrorKind>)
        ensures
            Self::parses_to(args@, r),
    {
        match ascii_bytes_to_string(args) {
            Ok(s) => Ok(Response::MicrocontrollerInfo(MicrocontrollerInfo { info: s })),
            Err(e) => Err(e),
        }
    }
}

/// `LPI`: the low-pass filter bank in use.
#[derive(Debug, Clone, PartialEq, Eq)]
pub struct LowPassFilterSet {
    pub filter_bank: FilterBank,
}

impl LowPassFilterSet {
    /// What `parse` returns for payload `args`.
    pub open spec fn parses_to(args: Seq<u8>, r: Result<Response, ErrorKind>) -> bool {
        match spec_parse_enum::<FilterBank>(args) {
            Ok(v) => r == Ok::<Response, ErrorKind>(Response::LowPassFilterSet(LowPassFilterSet { filter_bank: v })),
            Err(e) => r == Err::<Response, ErrorKind>(e),
        }
    }

    /// Decodes the payload of this code.
    pub fn parse(args: &[u8]) -> (r: Result<Response, ErrorKind>)
        ensures
            Self::parses_to(args@, r),
    {
        match parse_enum::<FilterBank>(args) {
            Ok(v) => Ok(Response::LowPassFilterSet(LowPassFilterSet { filter_bank: v })),
            Err(e) => Err(e),
        }
    }
}

/// `MVC`: supply voltage of the microcontroller, in millivolts.
#[derive(Debug, Clone, PartialEq, Eq)]
pub struct MicrocontrollerVoltage {
    pub millivolts: u32,
}

impl MicrocontrollerVoltage {
    /// What `parse` returns for payload `args`.
    pub open spec fn parses_to(args: Seq<u8>, r: Result<Response, ErrorKind>) -> bool {
        match spec_parse_number(args, u32::MAX as u64) {
            Ok(n) => r == Ok::<Response, ErrorKind>(Response::MicrocontrollerVoltage(MicrocontrollerVoltage { millivolts: n as u32 })),
            Err(e) => r == Err::<Response, ErrorKind>(e),
        }
    }

    /// Decodes the payload of this code.
    pub fn parse(args: &[u8]) -> (r: Result<Response, ErrorKind>)
        ensures
            Self::parses_to(args@, r),
    {
        match parse_number(args, u32::MAX as u64) {
            Ok(n) => Ok(Response::MicrocontrollerVoltage(MicrocontrollerVoltage { millivolts: n as u32 })),
            Err(e) => Err(e),
        }
    }
}

/// `TBN`: band being transmitted on, as a band number.
#[derive(Debug, Clone, PartialEq, Eq)]
pub struct TransmitterCurrentBand {
    pub band: Band,
}

impl TransmitterCurrentBand {
    /// What `parse` returns for payload `args`.
    pub open spec fn parses_to(args: Seq<u8>, r: Result<Response, ErrorKind>) -> bool {
        match spec_parse_enum_from_number::<Band>(args) {
            Ok(v) => r == Ok::<Response, ErrorKind>(Response::TransmitterCurrentBand(TransmitterCurrentBand { band: v })),
            Err(e) => r == Err::<Response, ErrorKind>(e),
        }
    }

    /// Decodes the payload of this code.
    pub fn parse(args: &[u8]) -> (r: Result<Response, ErrorKind>)
        ensures
            Self::parses_to(args@, r),
    {
        match parse_enum_from_number::<Band>(args) {
            Ok(v) => Ok(Response::TransmitterCurrentBand(TransmitterCurrentBand { band: v })),
            Err(e) => Err(e),
        }
    }
}

/// `TWS`: progress through a WSPR transmission, kept as text.
#[derive(Debug, Clone, PartialEq, Eq)]
pub struct TransmitterWSPRSymbol {
    pub something: String,
}

impl TransmitterWSPRSymbol {
    /// What `parse` returns for payload `args`.
    pub open spec fn parses_to(args: Seq<u8>, r: Result<Response, ErrorKind>) -> bool {
        match spec_ascii_text(args) {
            Ok(t) => r matches Ok(Response::TransmitterWSPRSymbol(d)) && d.something@ == t,
            Err(e) => r == Err::<Response, ErrorKind>(e),
        }
    }

    /// Decodes the payload of this code.
    pub fn parse(args: &[u8]) -> (r: Result<Response, ErrorKind>)
        ensures
            Self::parses_to(args@, r),
    {
        match ascii_bytes_to_string(args) {
            Ok(s) => Ok(Response::TransmitterWSPRSymbol(TransmitterWSPRSymbol { something: s })),
            Err(e) => Err(e),
        }
    }
}

/// `TCC`: a band cycle has been completed; no payload.
#[derive(Debug, Clone, PartialEq, Eq)]
pub struct TransmitterBandCycleComplete {}

impl TransmitterBandCycleComplete {
    /// What `parse` returns for payload `args`.
    pub open spec fn parses_to(args: Seq<u8>, r: Result<Response, ErrorKind>) -> bool {
        r == Ok::<Response, ErrorKind>(Response::TransmitterBandCycleComplete(TransmitterBandCycleComplete {}))
    }

    /// Decodes the payload of this code.
    pub fn parse(_args: &[u8]) -> (r: Result<Response, ErrorKind>)
        ensures
            Self::parses_to(_args@, r),
    {
        Ok(Response::TransmitterBandCycleComplete(TransmitterBandCycleComplete {}))
    }
}

/// A decoded frame: one variant for each code of the registry.
#[derive(Debug, Clone, PartialEq, Eq)]
pub enum Response {
    CurrentModeCommand(CurrentModeCommand),
    CurrentReferenceCommand(CurrentReferenceCommand),
    TxPauseOption(TxPauseOption),
    StartModeOption(StartModeOption),
    BandTxEnable(BandTxEnable),
    LocationSourceOption(LocationSourceOption),
    LocatorPrecisionOption(LocatorPrecisionOption),
    PowerEncodingOption(PowerEncodingOption),
    TimeSlotOption(TimeSlotOption),
    PrefixSuffixOption(PrefixSuffixOption),
    ConstellationOption(ConstellationOption),
    CallSignData(CallSignData),
    SuffixData(SuffixData),
    PrefixData(PrefixData),
    Locator4Data(Locator4Data),
    Locator6Data(Locator6Data),
    PowerData(PowerData),
    NameData(NameData),
    GeneratorFrequencyData(GeneratorFrequencyData),
    ExternalReferenceFrequencyData(ExternalReferenceFrequencyData),
    ProductModelNumberFactory(ProductModelNumberFactory),
    HardwareVersionFactory(HardwareVersionFactory),
    HardwareRevisionFactory(HardwareRevisionFactory),
    SoftwareVersionFactory(SoftwareVersionFactory),
    SoftwareRevisionFactory(SoftwareRevisionFactory),
    ReferenceOscillatorFrequencyFactory(ReferenceOscillatorFrequencyFactory),
    LowPassFilterFactory(LowPassFilterFactory),
    Locator4GPS(Locator4GPS),
    Locator6GPS(Locator6GPS),
    TimeGPS(TimeGPS),
    LockStatusGPS(LockStatusGPS),
    SatelliteInfoGPS(SatelliteInfoGPS),
    TransmitterFrequency(TransmitterFrequency),
    TransmitterStatus(TransmitterStatus),
    MicrocontrollerPause(MicrocontrollerPause),
    MicrocontrollerInfo(MicrocontrollerInfo),
    LowPassFilterSet(LowPassFilterSet),
    MicrocontrollerVoltage(MicrocontrollerVoltage),
    TransmitterCurrentBand(TransmitterCurrentBand),
    TransmitterWSPRSymbol(TransmitterWSPRSymbol),
    TransmitterBandCycleComplete(TransmitterBandCycleComplete),
}

} // verus!
