//! Codec for the serial line protocol of a WSPR beacon transmitter: field
//! decoders, the registry of response codes, and the frame reader.
pub mod decimal;
pub mod fields;
pub mod frame;
pub mod registry;
pub mod response;
pub mod session;

pub use crate::decimal::{parse_decimal, parse_duration_in_seconds};
pub use crate::fields::{
    ascii_bytes_to_string, parse_enum, parse_enum_from_number, parse_number,
    time_slot_from_number, Band, CodedEnum, Constellation, ErrorKind, FilterBank, GpsLock,
    LocationSource, LocatorPrecision, Mode, PowerEncoding, PrefixSuffix, Reference, TimeSlot,
};
pub use crate::frame::{
    decode_stream, process_line, split_frame, strip_line, write_code, FrameError, LineAssembler,
};
pub use crate::registry::{all_codes, decode, lookup, poll_order, ResponseKind};
pub use crate::session::PollCycle;
pub use crate::response::{
    BandTxEnable, CallSignData, ConstellationOption, CurrentModeCommand, CurrentReferenceCommand,
    ExternalReferenceFrequencyData, GeneratorFrequencyData, HardwareRevisionFactory,
    HardwareVersionFactory, Locator4Data, Locator4GPS, Locator6Data, Locator6GPS,
    LocationSourceOption, LocatorPrecisionOption, LockStatusGPS, LowPassFilterFactory,
    LowPassFilterSet, MicrocontrollerInfo, MicrocontrollerPause, MicrocontrollerVoltage, NameData,
    PowerData, PowerEncodingOption, PrefixData, PrefixSuffixOption, ProductModelNumberFactory,
    ReferenceOscillatorFrequencyFactory, Response, SatelliteInfoGPS, SoftwareRevisionFactory,
    SoftwareVersionFactory, StartModeOption, SuffixData, TimeGPS, TimeSlotOption, TransmitterBandCycleComplete,
    TransmitterCurrentBand, TransmitterFrequency, TransmitterStatus, TransmitterWSPRSymbol,
    TxPauseOption,
};
