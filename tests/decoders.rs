use zachtek::{
    ascii_bytes_to_string, decode, parse_decimal, parse_duration_in_seconds, parse_enum,
    parse_enum_from_number, parse_number, time_slot_from_number, Band, Constellation, ErrorKind,
    FilterBank, GpsLock, LocationSource, LocatorPrecision, Mode, PowerEncoding, PrefixSuffix,
    Reference, Response, TimeSlot,
};

fn dec(code: &str, payload: &[u8]) -> Result<Response, ErrorKind> {
    decode(code.as_bytes(), payload)
}

fn text_of(r: Result<Response, ErrorKind>) -> String {
    match r.unwrap() {
        Response::CallSignData(d) => d.call_sign,
        Response::SuffixData(d) => d.data_suffix,
        Response::PrefixData(d) => d.data_prefix,
        Response::Locator4Data(d) => d.locator_4,
        Response::Locator6Data(d) => d.locator_6,
        Response::NameData(d) => d.name,
        Response::HardwareVersionFactory(d) => d.hardware_version,
        Response::HardwareRevisionFactory(d) => d.hardware_version,
        Response::SoftwareVersionFactory(d) => d.software_version,
        Response::SoftwareRevisionFactory(d) => d.software_revision,
        Response::Locator4GPS(d) => d.maidenhead_4,
        Response::Locator6GPS(d) => d.maidenhead_6,
        Response::TimeGPS(d) => d.hhmmss,
        Response::SatelliteInfoGPS(d) => d.satellite_info,
        Response::MicrocontrollerInfo(d) => d.info,
        Response::TransmitterWSPRSymbol(d) => d.something,
        other => panic!("not a text response: {:?}", other),
    }
}

#[test]
fn ccm_decodes_mode() {
    match dec("CCM", b"S") {
        Ok(Response::CurrentModeCommand(c)) => assert_eq!(c.mode, Mode::Sig),
        other => panic!("{:?}", other),
    }
    match dec("CCM", b"W") {
        Ok(Response::CurrentModeCommand(c)) => assert_eq!(c.mode, Mode::Wspr),
        other => panic!("{:?}", other),
    }
    match dec("CCM", b"N") {
        Ok(Response::CurrentModeCommand(c)) => assert_eq!(c.mode, Mode::Idle),
        other => panic!("{:?}", other),
    }
}

#[test]
fn ccr_decodes_reference() {
    match dec("CCR", b"E") {
        Ok(Response::CurrentReferenceCommand(c)) => assert_eq!(c.reference, Reference::External),
        other => panic!("{:?}", other),
    }
    match dec("CCR", b"I") {
        Ok(Response::CurrentReferenceCommand(c)) => assert_eq!(c.reference, Reference::Internal),
        other => panic!("{:?}", other),
    }
}

#[test]
fn otp_decodes_minutes_as_seconds() {
    match dec("OTP", b"0000500") {
        Ok(Response::TxPauseOption(p)) => assert_eq!(p.duration_secs, 30000),
        other => panic!("{:?}", other),
    }
    match dec("OTP", b"99999") {
        Ok(Response::TxPauseOption(p)) => assert_eq!(p.duration_secs, 5999940),
        other => panic!("{:?}", other),
    }
}

#[test]
fn osm_decodes_start_mode() {
    match dec("OSM", b"W") {
        Ok(Response::StartModeOption(c)) => assert_eq!(c.mode, Mode::Wspr),
        other => panic!("{:?}", other),
    }
}

#[test]
fn obd_decodes_band_and_flag() {
    match dec("OBD", b"06 E") {
        Ok(Response::BandTxEnable(b)) => {
            assert_eq!(b.band, Band::B20m);
            assert!(b.enabled);
        }
        other => panic!("{:?}", other),
    }
    match dec("OBD", b"15,D") {
        Ok(Response::BandTxEnable(b)) => {
            assert_eq!(b.band, Band::B23Cm);
            assert!(!b.enabled);
        }
        other => panic!("{:?}", other),
    }
}

#[test]
fn obd_rejects_bad_flag_and_length() {
    assert_eq!(dec("OBD", b"06 X"), Err(ErrorKind::UnrecognizedEnumValue));
    assert_eq!(dec("OBD", b"06E"), Err(ErrorKind::WrongPayloadLength));
    assert_eq!(dec("OBD", b"20 E"), Err(ErrorKind::UnrecognizedEnumValue));
}

#[test]
fn option_enums_decode() {
    match dec("OLC", b"G") {
        Ok(Response::LocationSourceOption(o)) => assert_eq!(o.location_source, LocationSource::Gps),
        other => panic!("{:?}", other),
    }
    match dec("OLC", b"M") {
        Ok(Response::LocationSourceOption(o)) => {
            assert_eq!(o.location_source, LocationSource::Manual)
        }
        other => panic!("{:?}", other),
    }
    match dec("OLP", b"6") {
        Ok(Response::LocatorPrecisionOption(o)) => {
            assert_eq!(o.locator_precision, LocatorPrecision::Maidenhead6)
        }
        other => panic!("{:?}", other),
    }
    match dec("OLP", b"4") {
        Ok(Response::LocatorPrecisionOption(o)) => {
            assert_eq!(o.locator_precision, LocatorPrecision::Maidenhead4)
        }
        other => panic!("{:?}", other),
    }
    match dec("OPW", b"A") {
        Ok(Response::PowerEncodingOption(o)) => assert_eq!(o.power_encoding, PowerEncoding::Altitude),
        other => panic!("{:?}", other),
    }
    match dec("OPW", b"N") {
        Ok(Response::PowerEncodingOption(o)) => assert_eq!(o.power_encoding, PowerEncoding::Normal),
        other => panic!("{:?}", other),
    }
    match dec("OPS", b"P") {
        Ok(Response::PrefixSuffixOption(o)) => assert_eq!(o.prefix_suffix, PrefixSuffix::Prefix),
        other => panic!("{:?}", other),
    }
    match dec("OPS", b"S") {
        Ok(Response::PrefixSuffixOption(o)) => assert_eq!(o.prefix_suffix, PrefixSuffix::Suffix),
        other => panic!("{:?}", other),
    }
    match dec("OPS", b"N") {
        Ok(Response::PrefixSuffixOption(o)) => assert_eq!(o.prefix_suffix, PrefixSuffix::Neither),
        other => panic!("{:?}", other),
    }
    match dec("OSC", b"B") {
        Ok(Response::ConstellationOption(o)) => {
            assert_eq!(o.constellation, Constellation::BeiDouOnly)
        }
        other => panic!("{:?}", other),
    }
    match dec("OSC", b"G") {
        Ok(Response::ConstellationOption(o)) => assert_eq!(o.constellation, Constellation::GPSOnly),
        other => panic!("{:?}", other),
    }
    match dec("OSC", b"A") {
        Ok(Response::ConstellationOption(o)) => assert_eq!(o.constellation, Constellation::All),
        other => panic!("{:?}", other),
    }
}

#[test]
fn ots_bucket_boundaries() {
    let expect = [
        (&b"0"[..], TimeSlot::TenMinute),
        (&b"4"[..], TimeSlot::TenMinute),
        (&b"5"[..], TimeSlot::TwentyMinute),
        (&b"14"[..], TimeSlot::TwentyMinute),
        (&b"15"[..], TimeSlot::BandCoordinated),
        (&b"16"[..], TimeSlot::NoSchedule),
        (&b"17"[..], TimeSlot::Tracker),
    ];
    for (payload, slot) in expect.iter() {
        match dec("OTS", payload) {
            Ok(Response::TimeSlotOption(t)) => assert_eq!(t.time_slot, *slot),
            other => panic!("{:?}", other),
        }
    }
    assert_eq!(dec("OTS", b"18"), Err(ErrorKind::UnrecognizedEnumValue));
}

#[test]
fn time_slot_numbers() {
    assert_eq!(time_slot_from_number(4), Some(TimeSlot::TenMinute));
    assert_eq!(time_slot_from_number(5), Some(TimeSlot::TwentyMinute));
    assert_eq!(time_slot_from_number(14), Some(TimeSlot::TwentyMinute));
    assert_eq!(time_slot_from_number(15), Some(TimeSlot::BandCoordinated));
    assert_eq!(time_slot_from_number(16), Some(TimeSlot::NoSchedule));
    assert_eq!(time_slot_from_number(17), Some(TimeSlot::Tracker));
    assert_eq!(time_slot_from_number(18), None);
}

#[test]
fn text_codes_decode_verbatim() {
    let cases: [(&str, &str); 16] = [
        ("DCS", "SM0XYZ"),
        ("DSF", "012"),
        ("DPF", " AB"),
        ("DL4", "JO65"),
        ("DL6", "JO65ab"),
        ("DNM", "WSPR Desktop"),
        ("FHV", "003"),
        ("FHR", "001"),
        ("FSV", "002"),
        ("FSR", "007"),
        ("GL4", "JO65"),
        ("GL6", "JO65mr"),
        ("GTM", "12:34:56"),
        ("GSI", "12 123 45 30"),
        ("MIN", "Desktop v1"),
        ("TWS", "06 161"),
    ];
    for (code, text) in cases.iter() {
        assert_eq!(text_of(dec(code, text.as_bytes())), text.to_string());
    }
}

#[test]
fn dpd_decodes_dbm() {
    match dec("DPD", b"23") {
        Ok(Response::PowerData(p)) => assert_eq!(p.dbm, 23),
        other => panic!("{:?}", other),
    }
    assert_eq!(dec("DPD", b"256"), Err(ErrorKind::NotANumber));
}

#[test]
fn dgf_decodes_centihertz() {
    match dec("DGF", b"000300000000") {
        Ok(Response::GeneratorFrequencyData(g)) => {
            assert_eq!(g.centihertz, 300000000);
            assert_eq!(g.centihertz as f64 / 100.0, 3000000.0);
        }
        other => panic!("{:?}", other),
    }
}

#[test]
fn der_and_frf_decode_whole_hertz() {
    match dec("DER", b"001000000") {
        Ok(Response::ExternalReferenceFrequencyData(d)) => assert_eq!(d.hertz, 1000000),
        other => panic!("{:?}", other),
    }
    match dec("FRF", b"026000000") {
        Ok(Response::ReferenceOscillatorFrequencyFactory(d)) => assert_eq!(d.hertz, 26000000),
        other => panic!("{:?}", other),
    }
}

#[test]
fn fpn_decodes_model() {
    match dec("FPN", b"1012") {
        Ok(Response::ProductModelNumberFactory(d)) => assert_eq!(d.model, 1012),
        other => panic!("{:?}", other),
    }
    assert_eq!(dec("FPN", b"65536"), Err(ErrorKind::NotANumber));
}

#[test]
fn flp_decodes_bank_and_band() {
    match dec("FLP", b"B 98") {
        Ok(Response::LowPassFilterFactory(f)) => {
            assert_eq!(f.filter_bank, FilterBank::B);
            assert_eq!(f.band, Band::NoFilter);
        }
        other => panic!("{:?}", other),
    }
    match dec("FLP", b"D,99") {
        Ok(Response::LowPassFilterFactory(f)) => {
            assert_eq!(f.filter_bank, FilterBank::D);
            assert_eq!(f.band, Band::Open);
        }
        other => panic!("{:?}", other),
    }
    assert_eq!(dec("FLP", b"E 01"), Err(ErrorKind::UnrecognizedEnumValue));
    assert_eq!(dec("FLP", b"A 1"), Err(ErrorKind::WrongPayloadLength));
}

#[test]
fn glc_decodes_lock() {
    match dec("GLC", b"T") {
        Ok(Response::LockStatusGPS(l)) => assert_eq!(l.lock, GpsLock::Locked),
        other => panic!("{:?}", other),
    }
    match dec("GLC", b"F") {
        Ok(Response::LockStatusGPS(l)) => assert_eq!(l.lock, GpsLock::Unlocked),
        other => panic!("{:?}", other),
    }
}

#[test]
fn tfq_decodes_centihertz() {
    match dec("TFQ", b"1409712000") {
        Ok(Response::TransmitterFrequency(t)) => assert_eq!(t.centihertz, 1409712000),
        other => panic!("{:?}", other),
    }
    match dec("TFQ", b"18446744073709551615") {
        Ok(Response::TransmitterFrequency(t)) => assert_eq!(t.centihertz, u64::MAX),
        other => panic!("{:?}", other),
    }
    assert_eq!(dec("TFQ", b"18446744073709551616"), Err(ErrorKind::NotANumber));
}

#[test]
fn ton_decodes_status() {
    match dec("TON", b"T") {
        Ok(Response::TransmitterStatus(t)) => assert!(t.on),
        other => panic!("{:?}", other),
    }
    match dec("TON", b"F") {
        Ok(Response::TransmitterStatus(t)) => assert!(!t.on),
        other => panic!("{:?}", other),
    }
    assert_eq!(dec("TON", b"X"), Err(ErrorKind::UnrecognizedEnumValue));
    assert_eq!(dec("TON", b""), Err(ErrorKind::WrongPayloadLength));
}

#[test]
fn mps_and_tcc_ignore_payload() {
    assert!(matches!(dec("MPS", b"0001234"), Ok(Response::MicrocontrollerPause(_))));
    assert!(matches!(dec("TCC", b""), Ok(Response::TransmitterBandCycleComplete(_))));
}

#[test]
fn lpi_decodes_bank() {
    match dec("LPI", b"C") {
        Ok(Response::LowPassFilterSet(l)) => assert_eq!(l.filter_bank, FilterBank::C),
        other => panic!("{:?}", other),
    }
    match dec("LPI", b"A") {
        Ok(Response::LowPassFilterSet(l)) => assert_eq!(l.filter_bank, FilterBank::A),
        other => panic!("{:?}", other),
    }
}

#[test]
fn mvc_decodes_millivolts() {
    match dec("MVC", b"3300") {
        Ok(Response::MicrocontrollerVoltage(v)) => {
            assert_eq!(v.millivolts, 3300);
            assert_eq!(v.millivolts as f32 / 1000.0, 3.3);
        }
        other => panic!("{:?}", other),
    }
}

#[test]
fn tbn_decodes_band() {
    match dec("TBN", b"6") {
        Ok(Response::TransmitterCurrentBand(t)) => assert_eq!(t.band, Band::B20m),
        other => panic!("{:?}", other),
    }
    match dec("TBN", b"00") {
        Ok(Response::TransmitterCurrentBand(t)) => assert_eq!(t.band, Band::B2190m),
        other => panic!("{:?}", other),
    }
}

#[test]
fn band_numbers_over_domain() {
    for n in 0u32..1000 {
        let plain = format!("{}", n);
        let padded = format!("{:03}", n);
        let known = n <= 15 || n == 98 || n == 99;
        for p in [plain, padded].iter() {
            let r: Result<Band, ErrorKind> = parse_enum_from_number(p.as_bytes());
            if known {
                assert!(r.is_ok(), "{}", p);
            } else {
                assert_eq!(r, Err(ErrorKind::UnrecognizedEnumValue), "{}", p);
            }
        }
    }
    assert_eq!(parse_enum_from_number::<Band>(b"98"), Ok(Band::NoFilter));
    assert_eq!(parse_enum_from_number::<Band>(b"099"), Ok(Band::Open));
    assert_eq!(parse_enum_from_number::<Band>(b"12"), Ok(Band::B4m));
}

#[test]
fn band_number_length_and_digits() {
    assert_eq!(parse_enum_from_number::<Band>(b""), Err(ErrorKind::WrongPayloadLength));
    assert_eq!(parse_enum_from_number::<Band>(b"0001"), Err(ErrorKind::WrongPayloadLength));
    assert_eq!(parse_enum_from_number::<Band>(b"1a"), Err(ErrorKind::NotANumber));
    assert_eq!(parse_enum_from_number::<Band>(&[0x31, 0xc3]), Err(ErrorKind::NonAsciiPayload));
}

#[test]
fn single_byte_enum_errors() {
    assert_eq!(parse_enum::<Mode>(b"X"), Err(ErrorKind::UnrecognizedEnumValue));
    assert_eq!(parse_enum::<Mode>(b"SW"), Err(ErrorKind::WrongPayloadLength));
    assert_eq!(parse_enum::<Mode>(b""), Err(ErrorKind::WrongPayloadLength));
    assert_eq!(parse_enum::<Mode>(b"S"), Ok(Mode::Sig));
}

#[test]
fn number_errors() {
    assert_eq!(parse_number(b"", 255), Err(ErrorKind::EmptyPayload));
    assert_eq!(parse_number(b"12x", 255), Err(ErrorKind::NotANumber));
    assert_eq!(parse_number(&[0x31, 0xff], 255), Err(ErrorKind::NonAsciiPayload));
    assert_eq!(parse_number(b"-1", 255), Err(ErrorKind::NotANumber));
    assert_eq!(parse_number(b"+", 255), Err(ErrorKind::NotANumber));
    assert_eq!(parse_number(b"+42", 255), Ok(42));
    assert_eq!(parse_number(b"255", 255), Ok(255));
    assert_eq!(parse_number(b"256", 255), Err(ErrorKind::NotANumber));
    assert_eq!(dec("DPD", b""), Err(ErrorKind::EmptyPayload));
}

#[test]
fn decimal_parsing() {
    assert_eq!(parse_decimal(b"0", u64::MAX), Some(0));
    assert_eq!(parse_decimal(b"007", 7), Some(7));
    assert_eq!(parse_decimal(b"8", 7), None);
    assert_eq!(parse_decimal(b"", 7), None);
    assert_eq!(parse_decimal(b"1 2", 100), None);
}

#[test]
fn duration_argument() {
    assert_eq!(parse_duration_in_seconds("10"), Some(10));
    assert_eq!(parse_duration_in_seconds("ten"), None);
    assert_eq!(parse_duration_in_seconds(""), None);
}

#[test]
fn free_text_must_be_ascii() {
    assert_eq!(ascii_bytes_to_string(b"AB 1"), Ok("AB 1".to_string()));
    assert_eq!(ascii_bytes_to_string(b""), Ok(String::new()));
    assert_eq!(ascii_bytes_to_string(&[0x41, 0x80]), Err(ErrorKind::NonAsciiPayload));
    assert_eq!(dec("DCS", &[0xe4]), Err(ErrorKind::NonAsciiPayload));
}

#[test]
fn unknown_code_is_an_error() {
    assert_eq!(dec("ZZZ", b"S"), Err(ErrorKind::UnknownCode));
    assert_eq!(dec("CC", b"S"), Err(ErrorKind::UnknownCode));
}
