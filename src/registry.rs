//! The registry: the closed set of codes, the decoder each one selects, and
//! the order in which the device is polled.
use vstd::prelude::*;

use crate::fields::ErrorKind;
use crate::response::{
    BandTxEnable, CallSignData, ConstellationOption, CurrentModeCommand,
    CurrentReferenceCommand, ExternalReferenceFrequencyData, GeneratorFrequencyData,
    HardwareRevisionFactory, HardwareVersionFactory, LocationSourceOption, Locator4Data,
    Locator4GPS, Locator6Data, Locator6GPS, LocatorPrecisionOption, LockStatusGPS,
    LowPassFilterFactory, LowPassFilterSet, MicrocontrollerInfo, MicrocontrollerPause,
    MicrocontrollerVoltage, NameData, PowerData, PowerEncodingOption, PrefixData,
    PrefixSuffixOption, ProductModelNumberFactory, ReferenceOscillatorFrequencyFactory,
    SatelliteInfoGPS, SoftwareRevisionFactory, SoftwareVersionFactory, StartModeOption,
    SuffixData, TimeGPS, TimeSlotOption, TransmitterBandCycleComplete, TransmitterCurrentBand,
    TransmitterFrequency, TransmitterStatus, TransmitterWSPRSymbol, TxPauseOption, Response,
};

verus! {

/// The entries of the registry, one for each code the device sends.
#[derive(Debug, Clone, Copy, PartialEq, Eq, Structural)]
pub enum ResponseKind {
    CurrentModeCommand,
    CurrentReferenceCommand,
    TxPauseOption,
    StartModeOption,
    BandTxEnable,
    LocationSourceOption,
    LocatorPrecisionOption,
    PowerEncodingOption,
    TimeSlotOption,
    PrefixSuffixOption,
    ConstellationOption,
    CallSignData,
    SuffixData,
    PrefixData,
    Locator4Data,
    Locator6Data,
    PowerData,
    NameData,
    GeneratorFrequencyData,
    ExternalReferenceFrequencyData,
    ProductModelNumberFactory,
    HardwareVersionFactory,
    HardwareRevisionFactory,
    SoftwareVersionFactory,
    SoftwareRevisionFactory,
    ReferenceOscillatorFrequencyFactory,
    LowPassFilterFactory,
    Locator4GPS,
    Locator6GPS,
    TimeGPS,
    LockStatusGPS,
    SatelliteInfoGPS,
    TransmitterFrequency,
    TransmitterStatus,
    MicrocontrollerPause,
    MicrocontrollerInfo,
    LowPassFilterSet,
    MicrocontrollerVoltage,
    TransmitterCurrentBand,
    TransmitterWSPRSymbol,
    TransmitterBandCycleComplete,
}

impl ResponseKind {
    /// The three code bytes of this entry.
    pub open spec fn spec_code(self) -> (u8, u8, u8) {
        match self {
            ResponseKind::CurrentModeCommand => (0x43, 0x43, 0x4d),  // CCM
            ResponseKind::CurrentReferenceCommand => (0x43, 0x43, 0x52),  // CCR
            ResponseKind::TxPauseOption => (0x4f, 0x54, 0x50),  // OTP
            ResponseKind::StartModeOption => (0x4f, 0x53, 0x4d),  // OSM
            ResponseKind::BandTxEnable => (0x4f, 0x42, 0x44),  // OBD
            ResponseKind::LocationSourceOption => (0x4f, 0x4c, 0x43),  // OLC
            ResponseKind::LocatorPrecisionOption => (0x4f, 0x4c, 0x50),  // OLP
            ResponseKind::PowerEncodingOption => (0x4f, 0x50, 0x57),  // OPW
            ResponseKind::TimeSlotOption => (0x4f, 0x54, 0x53),  // OTS
            ResponseKind::PrefixSuffixOption => (0x4f, 0x50, 0x53),  // OPS
            ResponseKind::ConstellationOption => (0x4f, 0x53, 0x43),  // OSC
            ResponseKind::CallSignData => (0x44, 0x43, 0x53),  // DCS
            ResponseKind::SuffixData => (0x44, 0x53, 0x46),  // DSF
            ResponseKind::PrefixData => (0x44, 0x50, 0x46),  // DPF
            ResponseKind::Locator4Data => (0x44, 0x4c, 0x34),  // DL4
            ResponseKind::Locator6Data => (0x44, 0x4c, 0x36),  // DL6
            ResponseKind::PowerData => (0x44, 0x50, 0x44),  // DPD
            ResponseKind::NameData => (0x44, 0x4e, 0x4d),  // DNM
            ResponseKind::GeneratorFrequencyData => (0x44, 0x47, 0x46),  // DGF
            ResponseKind::ExternalReferenceFrequencyData => (0x44, 0x45, 0x52),  // DER
            ResponseKind::ProductModelNumberFactory => (0x46, 0x50, 0x4e),  // FPN
            ResponseKind::HardwareVersionFactory => (0x46, 0x48, 0x56),  // FHV
            ResponseKind::HardwareRevisionFactory => (0x46, 0x48, 0x52),  // FHR
            ResponseKind::SoftwareVersionFactory => (0x46, 0x53, 0x56),  // FSV
            ResponseKind::SoftwareRevisionFactory => (0x46, 0x53, 0x52),  // FSR
            ResponseKind::ReferenceOscillatorFrequencyFactory => (0x46, 0x52, 0x46),  // FRF
            ResponseKind::LowPassFilterFactory => (0x46, 0x4c, 0x50),  // FLP
            ResponseKind::Locator4GPS => (0x47, 0x4c, 0x34),  // GL4
            ResponseKind::Locator6GPS => (0x47, 0x4c, 0x36),  // GL6
            ResponseKind::TimeGPS => (0x47, 0x54, 0x4d),  // GTM
            ResponseKind::LockStatusGPS => (0x47, 0x4c, 0x43),  // GLC
            ResponseKind::SatelliteInfoGPS => (0x47, 0x53, 0x49),  // GSI
            ResponseKind::TransmitterFrequency => (0x54, 0x46, 0x51),  // TFQ
            ResponseKind::TransmitterStatus => (0x54, 0x4f, 0x4e),  // TON
            ResponseKind::MicrocontrollerPause => (0x4d, 0x50, 0x53),  // MPS
            ResponseKind::MicrocontrollerInfo => (0x4d, 0x49, 0x4e),  // MIN
            ResponseKind::LowPassFilterSet => (0x4c, 0x50, 0x49),  // LPI
            ResponseKind::MicrocontrollerVoltage => (0x4d, 0x56, 0x43),  // MVC
            ResponseKind::TransmitterCurrentBand => (0x54, 0x42, 0x4e),  // TBN
            ResponseKind::TransmitterWSPRSymbol => (0x54, 0x57, 0x53),  // TWS
            ResponseKind::TransmitterBandCycleComplete => (0x54, 0x43, 0x43),  // TCC
        }
    }

    pub open spec fn code_bytes(self) -> Seq<u8> {
        seq![self.spec_code().0, self.spec_code().1, self.spec_code().2]
    }

    pub fn code(&self) -> (r: [u8; 3])
        ensures
            r@ == self.code_bytes(),
    {
        let r = match self {
            ResponseKind::CurrentModeCommand => [0x43, 0x43, 0x4d],
            ResponseKind::CurrentReferenceCommand => [0x43, 0x43, 0x52],
            ResponseKind::TxPauseOption => [0x4f, 0x54, 0x50],
            ResponseKind::StartModeOption => [0x4f, 0x53, 0x4d],
            ResponseKind::BandTxEnable => [0x4f, 0x42, 0x44],
            ResponseKind::LocationSourceOption => [0x4f, 0x4c, 0x43],
            ResponseKind::LocatorPrecisionOption => [0x4f, 0x4c, 0x50],
            ResponseKind::PowerEncodingOption => [0x4f, 0x50, 0x57],
            ResponseKind::TimeSlotOption => [0x4f, 0x54, 0x53],
            ResponseKind::PrefixSuffixOption => [0x4f, 0x50, 0x53],
            ResponseKind::ConstellationOption => [0x4f, 0x53, 0x43],
            ResponseKind::CallSignData => [0x44, 0x43, 0x53],
            ResponseKind::SuffixData => [0x44, 0x53, 0x46],
            ResponseKind::PrefixData => [0x44, 0x50, 0x46],
            ResponseKind::Locator4Data => [0x44, 0x4c, 0x34],
            ResponseKind::Locator6Data => [0x44, 0x4c, 0x36],
            ResponseKind::PowerData => [0x44, 0x50, 0x44],
            ResponseKind::NameData => [0x44, 0x4e, 0x4d],
            ResponseKind::GeneratorFrequencyData => [0x44, 0x47, 0x46],
            ResponseKind::ExternalReferenceFrequencyData => [0x44, 0x45, 0x52],
            ResponseKind::ProductModelNumberFactory => [0x46, 0x50, 0x4e],
            ResponseKind::HardwareVersionFactory => [0x46, 0x48, 0x56],
            ResponseKind::HardwareRevisionFactory => [0x46, 0x48, 0x52],
            ResponseKind::SoftwareVersionFactory => [0x46, 0x53, 0x56],
            ResponseKind::SoftwareRevisionFactory => [0x46, 0x53, 0x52],
            ResponseKind::ReferenceOscillatorFrequencyFactory => [0x46, 0x52, 0x46],
            ResponseKind::LowPassFilterFactory => [0x46, 0x4c, 0x50],
            ResponseKind::Locator4GPS => [0x47, 0x4c, 0x34],
            ResponseKind::Locator6GPS => [0x47, 0x4c, 0x36],
            ResponseKind::TimeGPS => [0x47, 0x54, 0x4d],
            ResponseKind::LockStatusGPS => [0x47, 0x4c, 0x43],
            ResponseKind::SatelliteInfoGPS => [0x47, 0x53, 0x49],
            ResponseKind::TransmitterFrequency => [0x54, 0x46, 0x51],
            ResponseKind::TransmitterStatus => [0x54, 0x4f, 0x4e],
            ResponseKind::MicrocontrollerPause => [0x4d, 0x50, 0x53],
            ResponseKind::MicrocontrollerInfo => [0x4d, 0x49, 0x4e],
            ResponseKind::LowPassFilterSet => [0x4c, 0x50, 0x49],
            ResponseKind::MicrocontrollerVoltage => [0x4d, 0x56, 0x43],
            ResponseKind::TransmitterCurrentBand => [0x54, 0x42, 0x4e],
            ResponseKind::TransmitterWSPRSymbol => [0x54, 0x57, 0x53],
            ResponseKind::TransmitterBandCycleComplete => [0x54, 0x43, 0x43],
        };
        assert(r@ =~= self.code_bytes());
        r
    }

    /// What the decoder of this entry returns for `payload`.
    pub open spec fn decodes(self, payload: Seq<u8>, r: Result<Response, ErrorKind>) -> bool {
        match self {
            ResponseKind::CurrentModeCommand => CurrentModeCommand::parses_to(payload, r),
            ResponseKind::CurrentReferenceCommand => CurrentReferenceCommand::parses_to(payload, r),
            ResponseKind::TxPauseOption => TxPauseOption::parses_to(payload, r),
            ResponseKind::StartModeOption => StartModeOption::parses_to(payload, r),
            ResponseKind::BandTxEnable => BandTxEnable::parses_to(payload, r),
            ResponseKind::LocationSourceOption => LocationSourceOption::parses_to(payload, r),
            ResponseKind::LocatorPrecisionOption => LocatorPrecisionOption::parses_to(payload, r),
            ResponseKind::PowerEncodingOption => PowerEncodingOption::parses_to(payload, r),
            ResponseKind::TimeSlotOption => TimeSlotOption::parses_to(payload, r),
            ResponseKind::PrefixSuffixOption => PrefixSuffixOption::parses_to(payload, r),
            ResponseKind::ConstellationOption => ConstellationOption::parses_to(payload, r),
            ResponseKind::CallSignData => CallSignData::parses_to(payload, r),
            ResponseKind::SuffixData => SuffixData::parses_to(payload, r),
            ResponseKind::PrefixData => PrefixData::parses_to(payload, r),
            ResponseKind::Locator4Data => Locator4Data::parses_to(payload, r),
            ResponseKind::Locator6Data => Locator6Data::parses_to(payload, r),
            ResponseKind::PowerData => PowerData::parses_to(payload, r),
            ResponseKind::NameData => NameData::parses_to(payload, r),
            ResponseKind::GeneratorFrequencyData => GeneratorFrequencyData::parses_to(payload, r),
            ResponseKind::ExternalReferenceFrequencyData => ExternalReferenceFrequencyData::parses_to(payload, r),
            ResponseKind::ProductModelNumberFactory => ProductModelNumberFactory::parses_to(payload, r),
            ResponseKind::HardwareVersionFactory => HardwareVersionFactory::parses_to(payload, r),
            ResponseKind::HardwareRevisionFactory => HardwareRevisionFactory::parses_to(payload, r),
            ResponseKind::SoftwareVersionFactory => SoftwareVersionFactory::parses_to(payload, r),
            ResponseKind::SoftwareRevisionFactory => SoftwareRevisionFactory::parses_to(payload, r),
            ResponseKind::ReferenceOscillatorFrequencyFactory => ReferenceOscillatorFrequencyFactory::parses_to(payload, r),
            ResponseKind::LowPassFilterFactory => LowPassFilterFactory::parses_to(payload, r),
            ResponseKind::Locator4GPS => Locator4GPS::parses_to(payload, r),
            ResponseKind::Locator6GPS => Locator6GPS::parses_to(payload, r),
            ResponseKind::TimeGPS => TimeGPS::parses_to(payload, r),
            ResponseKind::LockStatusGPS => LockStatusGPS::parses_to(payload, r),
            ResponseKind::SatelliteInfoGPS => SatelliteInfoGPS::parses_to(payload, r),
            ResponseKind::TransmitterFrequency => TransmitterFrequency::parses_to(payload, r),
            ResponseKind::TransmitterStatus => TransmitterStatus::parses_to(payload, r),
            ResponseKind::MicrocontrollerPause => MicrocontrollerPause::parses_to(payload, r),
            ResponseKind::MicrocontrollerInfo => MicrocontrollerInfo::parses_to(payload, r),
            ResponseKind::LowPassFilterSet => LowPassFilterSet::parses_to(payload, r),
            ResponseKind::MicrocontrollerVoltage => MicrocontrollerVoltage::parses_to(payload, r),
            ResponseKind::TransmitterCurrentBand => TransmitterCurrentBand::parses_to(payload, r),
            ResponseKind::TransmitterWSPRSymbol => TransmitterWSPRSymbol::parses_to(payload, r),
            ResponseKind::TransmitterBandCycleComplete => TransmitterBandCycleComplete::parses_to(payload, r),
        }
    }

    /// Runs the decoder of this entry on `payload`.
    pub fn decode_payload(&self, payload: &[u8]) -> (r: Result<Response, ErrorKind>)
        ensures
            self.decodes(payload@, r),
    {
        match self {
            ResponseKind::CurrentModeCommand => CurrentModeCommand::parse(payload),
            ResponseKind::CurrentReferenceCommand => CurrentReferenceCommand::parse(payload),
            ResponseKind::TxPauseOption => TxPauseOption::parse(payload),
            ResponseKind::StartModeOption => StartModeOption::parse(payload),
            ResponseKind::BandTxEnable => BandTxEnable::parse(payload),
            ResponseKind::LocationSourceOption => LocationSourceOption::parse(payload),
            ResponseKind::LocatorPrecisionOption => LocatorPrecisionOption::parse(payload),
            ResponseKind::PowerEncodingOption => PowerEncodingOption::parse(payload),
            ResponseKind::TimeSlotOption => TimeSlotOption::parse(payload),
            ResponseKind::PrefixSuffixOption => PrefixSuffixOption::parse(payload),
            ResponseKind::ConstellationOption => ConstellationOption::parse(payload),
            ResponseKind::CallSignData => CallSignData::parse(payload),
            ResponseKind::SuffixData => SuffixData::parse(payload),
            ResponseKind::PrefixData => PrefixData::parse(payload),
            ResponseKind::Locator4Data => Locator4Data::parse(payload),
            ResponseKind::Locator6Data => Locator6Data::parse(payload),
            ResponseKind::PowerData => PowerData::parse(payload),
            ResponseKind::NameData => NameData::parse(payload),
            ResponseKind::GeneratorFrequencyData => GeneratorFrequencyData::parse(payload),
            ResponseKind::ExternalReferenceFrequencyData => ExternalReferenceFrequencyData::parse(payload),
            ResponseKind::ProductModelNumberFactory => ProductModelNumberFactory::parse(payload),
            ResponseKind::HardwareVersionFactory => HardwareVersionFactory::parse(payload),
            ResponseKind::HardwareRevisionFactory => HardwareRevisionFactory::parse(payload),
            ResponseKind::SoftwareVersionFactory => SoftwareVersionFactory::parse(payload),
            ResponseKind::SoftwareRevisionFactory => SoftwareRevisionFactory::parse(payload),
            ResponseKind::ReferenceOscillatorFrequencyFactory => ReferenceOscillatorFrequencyFactory::parse(payload),
            ResponseKind::LowPassFilterFactory => LowPassFilterFactory::parse(payload),
            ResponseKind::Locator4GPS => Locator4GPS::parse(payload),
            ResponseKind::Locator6GPS => Locator6GPS::parse(payload),
            ResponseKind::TimeGPS => TimeGPS::parse(payload),
            ResponseKind::LockStatusGPS => LockStatusGPS::parse(payload),
            ResponseKind::SatelliteInfoGPS => SatelliteInfoGPS::parse(payload),
            ResponseKind::TransmitterFrequency => TransmitterFrequency::parse(payload),
            ResponseKind::TransmitterStatus => TransmitterStatus::parse(payload),
            ResponseKind::MicrocontrollerPause => MicrocontrollerPause::parse(payload),
            ResponseKind::MicrocontrollerInfo => MicrocontrollerInfo::parse(payload),
            ResponseKind::LowPassFilterSet => LowPassFilterSet::parse(payload),
            ResponseKind::MicrocontrollerVoltage => MicrocontrollerVoltage::parse(payload),
            ResponseKind::TransmitterCurrentBand => TransmitterCurrentBand::parse(payload),
            ResponseKind::TransmitterWSPRSymbol => TransmitterWSPRSymbol::parse(payload),
            ResponseKind::TransmitterBandCycleComplete => TransmitterBandCycleComplete::parse(payload),
        }
    }
}

/// The entry whose code is `(a, b, c)`, if any.
pub open spec fn spec_lookup_key(a: u8, b: u8, c: u8) -> Option<ResponseKind> {
    if a == 0x43 && b == 0x43 && c == 0x4d {
        Some(ResponseKind::CurrentModeCommand)
    } else if a == 0x43 && b == 0x43 && c == 0x52 {
        Some(ResponseKind::CurrentReferenceCommand)
    } else if a == 0x4f && b == 0x54 && c == 0x50 {
        Some(ResponseKind::TxPauseOption)
    } else if a == 0x4f && b == 0x53 && c == 0x4d {
        Some(ResponseKind::StartModeOption)
    } else if a == 0x4f && b == 0x42 && c == 0x44 {
        Some(ResponseKind::BandTxEnable)
    } else if a == 0x4f && b == 0x4c && c == 0x43 {
        Some(ResponseKind::LocationSourceOption)
    } else if a == 0x4f && b == 0x4c && c == 0x50 {
        Some(ResponseKind::LocatorPrecisionOption)
    } else if a == 0x4f && b == 0x50 && c == 0x57 {
        Some(ResponseKind::PowerEncodingOption)
    } else if a == 0x4f && b == 0x54 && c == 0x53 {
        Some(ResponseKind::TimeSlotOption)
    } else if a == 0x4f && b == 0x50 && c == 0x53 {
        Some(ResponseKind::PrefixSuffixOption)
    } else if a == 0x4f && b == 0x53 && c == 0x43 {
        Some(ResponseKind::ConstellationOption)
    } else if a == 0x44 && b == 0x43 && c == 0x53 {
        Some(ResponseKind::CallSignData)
    } else if a == 0x44 && b == 0x53 && c == 0x46 {
        Some(ResponseKind::SuffixData)
    } else if a == 0x44 && b == 0x50 && c == 0x46 {
        Some(ResponseKind::PrefixData)
    } else if a == 0x44 && b == 0x4c && c == 0x34 {
        Some(ResponseKind::Locator4Data)
    } else if a == 0x44 && b == 0x4c && c == 0x36 {
        Some(ResponseKind::Locator6Data)
    } else if a == 0x44 && b == 0x50 && c == 0x44 {
        Some(ResponseKind::PowerData)
    } else if a == 0x44 && b == 0x4e && c == 0x4d {
        Some(ResponseKind::NameData)
    } else if a == 0x44 && b == 0x47 && c == 0x46 {
        Some(ResponseKind::GeneratorFrequencyData)
    } else if a == 0x44 && b == 0x45 && c == 0x52 {
        Some(ResponseKind::ExternalReferenceFrequencyData)
    } else if a == 0x46 && b == 0x50 && c == 0x4e {
        Some(ResponseKind::ProductModelNumberFactory)
    } else if a == 0x46 && b == 0x48 && c == 0x56 {
        Some(ResponseKind::HardwareVersionFactory)
    } else if a == 0x46 && b == 0x48 && c == 0x52 {
        Some(ResponseKind::HardwareRevisionFactory)
    } else if a == 0x46 && b == 0x53 && c == 0x56 {
        Some(ResponseKind::SoftwareVersionFactory)
    } else if a == 0x46 && b == 0x53 && c == 0x52 {
        Some(ResponseKind::SoftwareRevisionFactory)
    } else if a == 0x46 && b == 0x52 && c == 0x46 {
        Some(ResponseKind::ReferenceOscillatorFrequencyFactory)
    } else if a == 0x46 && b == 0x4c && c == 0x50 {
        Some(ResponseKind::LowPassFilterFactory)
    } else if a == 0x47 && b == 0x4c && c == 0x34 {
        Some(ResponseKind::Locator4GPS)
    } else if a == 0x47 && b == 0x4c && c == 0x36 {
        Some(ResponseKind::Locator6GPS)
    } else if a == 0x47 && b == 0x54 && c == 0x4d {
        Some(ResponseKind::TimeGPS)
    } else if a == 0x47 && b == 0x4c && c == 0x43 {
        Some(ResponseKind::LockStatusGPS)
    } else if a == 0x47 && b == 0x53 && c == 0x49 {
        Some(ResponseKind::SatelliteInfoGPS)
    } else if a == 0x54 && b == 0x46 && c == 0x51 {
        Some(ResponseKind::TransmitterFrequency)
    } else if a == 0x54 && b == 0x4f && c == 0x4e {
        Some(ResponseKind::TransmitterStatus)
    } else if a == 0x4d && b == 0x50 && c == 0x53 {
        Some(ResponseKind::MicrocontrollerPause)
    } else if a == 0x4d && b == 0x49 && c == 0x4e {
        Some(ResponseKind::MicrocontrollerInfo)
    } else if a == 0x4c && b == 0x50 && c == 0x49 {
        Some(ResponseKind::LowPassFilterSet)
    } else if a == 0x4d && b == 0x56 && c == 0x43 {
        Some(ResponseKind::MicrocontrollerVoltage)
    } else if a == 0x54 && b == 0x42 && c == 0x4e {
        Some(ResponseKind::TransmitterCurrentBand)
    } else if a == 0x54 && b == 0x57 && c == 0x53 {
        Some(ResponseKind::TransmitterWSPRSymbol)
    } else if a == 0x54 && b == 0x43 && c == 0x43 {
        Some(ResponseKind::TransmitterBandCycleComplete)
    } else {
        None
    }
}

/// The entry whose code is `code`, if any.
pub open spec fn spec_lookup(code: Seq<u8>) -> Option<ResponseKind> {
    if code.len() == 3 {
        spec_lookup_key(code[0], code[1], code[2])
    } else {
        None
    }
}

fn lookup_key(a: u8, b: u8, c: u8) -> (r: Option<ResponseKind>)
    ensures
        r == spec_lookup_key(a, b, c),
{
    if a == 0x43 && b == 0x43 && c == 0x4d {
        Some(ResponseKind::CurrentModeCommand)
    } else if a == 0x43 && b == 0x43 && c == 0x52 {
        Some(ResponseKind::CurrentReferenceCommand)
    } else if a == 0x4f && b == 0x54 && c == 0x50 {
        Some(ResponseKind::TxPauseOption)
    } else if a == 0x4f && b == 0x53 && c == 0x4d {
        Some(ResponseKind::StartModeOption)
    } else if a == 0x4f && b == 0x42 && c == 0x44 {
        Some(ResponseKind::BandTxEnable)
    } else if a == 0x4f && b == 0x4c && c == 0x43 {
        Some(ResponseKind::LocationSourceOption)
    } else if a == 0x4f && b == 0x4c && c == 0x50 {
        Some(ResponseKind::LocatorPrecisionOption)
    } else if a == 0x4f && b == 0x50 && c == 0x57 {
        Some(ResponseKind::PowerEncodingOption)
    } else if a == 0x4f && b == 0x54 && c == 0x53 {
        Some(ResponseKind::TimeSlotOption)
    } else if a == 0x4f && b == 0x50 && c == 0x53 {
        Some(ResponseKind::PrefixSuffixOption)
    } else if a == 0x4f && b == 0x53 && c == 0x43 {
        Some(ResponseKind::ConstellationOption)
    } else if a == 0x44 && b == 0x43 && c == 0x53 {
        Some(ResponseKind::CallSignData)
    } else if a == 0x44 && b == 0x53 && c == 0x46 {
        Some(ResponseKind::SuffixData)
    } else if a == 0x44 && b == 0x50 && c == 0x46 {
        Some(ResponseKind::PrefixData)
    } else if a == 0x44 && b == 0x4c && c == 0x34 {
        Some(ResponseKind::Locator4Data)
    } else if a == 0x44 && b == 0x4c && c == 0x36 {
        Some(ResponseKind::Locator6Data)
    } else if a == 0x44 && b == 0x50 && c == 0x44 {
        Some(ResponseKind::PowerData)
    } else if a == 0x44 && b == 0x4e && c == 0x4d {
        Some(ResponseKind::NameData)
    } else if a == 0x44 && b == 0x47 && c == 0x46 {
        Some(ResponseKind::GeneratorFrequencyData)
    } else if a == 0x44 && b == 0x45 && c == 0x52 {
        Some(ResponseKind::ExternalReferenceFrequencyData)
    } else if a == 0x46 && b == 0x50 && c == 0x4e {
        Some(ResponseKind::ProductModelNumberFactory)
    } else if a == 0x46 && b == 0x48 && c == 0x56 {
        Some(ResponseKind::HardwareVersionFactory)
    } else if a == 0x46 && b == 0x48 && c == 0x52 {
        Some(ResponseKind::HardwareRevisionFactory)
    } else if a == 0x46 && b == 0x53 && c == 0x56 {
        Some(ResponseKind::SoftwareVersionFactory)
    } else if a == 0x46 && b == 0x53 && c == 0x52 {
        Some(ResponseKind::SoftwareRevisionFactory)
    } else if a == 0x46 && b == 0x52 && c == 0x46 {
        Some(ResponseKind::ReferenceOscillatorFrequencyFactory)
    } else if a == 0x46 && b == 0x4c && c == 0x50 {
        Some(ResponseKind::LowPassFilterFactory)
    } else if a == 0x47 && b == 0x4c && c == 0x34 {
        Some(ResponseKind::Locator4GPS)
    } else if a == 0x47 && b == 0x4c && c == 0x36 {
        Some(ResponseKind::Locator6GPS)
    } else if a == 0x47 && b == 0x54 && c == 0x4d {
        Some(ResponseKind::TimeGPS)
    } else if a == 0x47 && b == 0x4c && c == 0x43 {
        Some(ResponseKind::LockStatusGPS)
    } else if a == 0x47 && b == 0x53 && c == 0x49 {
        Some(ResponseKind::SatelliteInfoGPS)
    } else if a == 0x54 && b == 0x46 && c == 0x51 {
        Some(ResponseKind::TransmitterFrequency)
    } else if a == 0x54 && b == 0x4f && c == 0x4e {
        Some(ResponseKind::TransmitterStatus)
    } else if a == 0x4d && b == 0x50 && c == 0x53 {
        Some(ResponseKind::MicrocontrollerPause)
    } else if a == 0x4d && b == 0x49 && c == 0x4e {
        Some(ResponseKind::MicrocontrollerInfo)
    } else if a == 0x4c && b == 0x50 && c == 0x49 {
        Some(ResponseKind::LowPassFilterSet)
    } else if a == 0x4d && b == 0x56 && c == 0x43 {
        Some(ResponseKind::MicrocontrollerVoltage)
    } else if a == 0x54 && b == 0x42 && c == 0x4e {
        Some(ResponseKind::TransmitterCurrentBand)
    } else if a == 0x54 && b == 0x57 && c == 0x53 {
        Some(ResponseKind::TransmitterWSPRSymbol)
    } else if a == 0x54 && b == 0x43 && c == 0x43 {
        Some(ResponseKind::TransmitterBandCycleComplete)
    } else {
        None
    }
}

/// Finds the entry of a code; a code outside the registry has none.
pub fn lookup(code: &[u8]) -> (r: Option<ResponseKind>)
    ensures
        r == spec_lookup(code@),
{
    if code.len() == 3 {
        lookup_key(code[0], code[1], code[2])
    } else {
        None
    }
}

/// What `decode` returns for `code` and `payload`.
pub open spec fn spec_decodes(code: Seq<u8>, payload: Seq<u8>, r: Result<Response, ErrorKind>) -> bool {
    match spec_lookup(code) {
        Some(kind) => kind.decodes(payload, r),
        None => r == Err::<Response, ErrorKind>(ErrorKind::UnknownCode),
    }
}

/// Decodes `payload` with the decoder that `code` selects; an unknown code is
/// an error.
pub fn decode(code: &[u8], payload: &[u8]) -> (r: Result<Response, ErrorKind>)
    ensures
        spec_decodes(code@, payload@, r),
{
    match lookup(code) {
        Some(kind) => kind.decode_payload(payload),
        None => Err(ErrorKind::UnknownCode),
    }
}

/// Every entry is found again by its own code, so no two entries share one.
pub proof fn lemma_lookup_own_code(kind: ResponseKind)
    ensures
        spec_lookup(kind.code_bytes()) == Some(kind),
{
}

/// A code that is found names the entry that has it.
pub proof fn lemma_lookup_finds_code(code: Seq<u8>)
    ensures
        spec_lookup(code) matches Some(kind) ==> kind.code_bytes() =~= code,
{
}

/// The entries that are polled, in the order in which the device's manual
/// lists them.
pub open spec fn spec_poll_order() -> Seq<ResponseKind> {
    seq![
        ResponseKind::CurrentModeCommand,
        ResponseKind::CurrentReferenceCommand,
        ResponseKind::TxPauseOption,
        ResponseKind::StartModeOption,
        ResponseKind::BandTxEnable,
        ResponseKind::LocationSourceOption,
        ResponseKind::LocatorPrecisionOption,
        ResponseKind::PowerEncodingOption,
        ResponseKind::TimeSlotOption,
        ResponseKind::PrefixSuffixOption,
        ResponseKind::ConstellationOption,
        ResponseKind::SuffixData,
        ResponseKind::PrefixData,
        ResponseKind::Locator4Data,
        ResponseKind::Locator6Data,
        ResponseKind::PowerData,
        ResponseKind::NameData,
        ResponseKind::GeneratorFrequencyData,
        ResponseKind::ExternalReferenceFrequencyData,
        ResponseKind::ProductModelNumberFactory,
        ResponseKind::HardwareVersionFactory,
        ResponseKind::HardwareRevisionFactory,
        ResponseKind::SoftwareVersionFactory,
        ResponseKind::SoftwareRevisionFactory,
        ResponseKind::ReferenceOscillatorFrequencyFactory,
        ResponseKind::LowPassFilterFactory,
    ]
}

/// The entries that are polled, in order.
pub fn poll_order() -> (r: Vec<ResponseKind>)
    ensures
        r@ == spec_poll_order(),
{
    let r = vec![
        ResponseKind::CurrentModeCommand,
        ResponseKind::CurrentReferenceCommand,
        ResponseKind::TxPauseOption,
        ResponseKind::StartModeOption,
        ResponseKind::BandTxEnable,
        ResponseKind::LocationSourceOption,
        ResponseKind::LocatorPrecisionOption,
        ResponseKind::PowerEncodingOption,
        ResponseKind::TimeSlotOption,
        ResponseKind::PrefixSuffixOption,
        ResponseKind::ConstellationOption,
        ResponseKind::SuffixData,
        ResponseKind::PrefixData,
        ResponseKind::Locator4Data,
        ResponseKind::Locator6Data,
        ResponseKind::PowerData,
        ResponseKind::NameData,
        ResponseKind::GeneratorFrequencyData,
        ResponseKind::ExternalReferenceFrequencyData,
        ResponseKind::ProductModelNumberFactory,
        ResponseKind::HardwareVersionFactory,
        ResponseKind::HardwareRevisionFactory,
        ResponseKind::SoftwareVersionFactory,
        ResponseKind::SoftwareRevisionFactory,
        ResponseKind::ReferenceOscillatorFrequencyFactory,
        ResponseKind::LowPassFilterFactory,
    ];
    assert(r@ =~= spec_poll_order());
    r
}

/// The codes of the polled entries, in polling order.
pub fn all_codes() -> (r: Vec<[u8; 3]>)
    ensures
        r@.len() == spec_poll_order().len(),
        forall|i: int| 0 <= i < r@.len() ==> (#[trigger] r@[i])@ == spec_poll_order()[i].code_bytes(),
{
    let kinds = poll_order();
    let mut r: Vec<[u8; 3]> = Vec::new();
    let mut i: usize = 0;
    while i < kinds.len()
        invariant
            kinds@ == spec_poll_order(),
            i <= kinds@.len(),
            r@.len() == i,
            forall|j: int| 0 <= j < i ==> (#[trigger] r@[j])@ == spec_poll_order()[j].code_bytes(),
        decreases kinds@.len() - i,
    {
        r.push(kinds[i].code());
        i = i + 1;
    }
    r
}

} // verus!
