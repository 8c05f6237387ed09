//! Parsing the GPS module's NMEA sentences and binary reports.

use control_rust::nmea::{
    BinaryMessage, FixMode, FixType, GgaMessage, GllMessage, NmeaMessage, RmcMessage,
    SatelliteInformation, StiMessage, VtgMessage,
};

#[test]
fn test_parse_gga() {
    let message = "$GPGGA,033403.456,0102.3456,N,0102.3456,W,1,11,0.8,108.2,M,,,,0000*01\r\n";
    let expected = GgaMessage {
        latitude_degrees: 1_039_093_333,
        longitude_degrees: -1_039_093_333,
        hdop: 800_000,
    };
    assert_eq!(NmeaMessage::parse_gga(message).unwrap(), expected);
}

#[test]
fn test_parse_vtg() {
    // 36 km/h is 10 m/s.
    let message = "$GPVTG,123.4,T,356.1,M,000.0,N,0036.0,K,A*32\r\n";
    let expected = VtgMessage { course: 123_400_000, speed: 10_000_000 };
    assert_eq!(NmeaMessage::parse_vtg(message).unwrap(), expected);
}

#[test]
fn test_parse_rmc() {
    let message = "$GPRMC,111636.932,A,2447.0949,N,12100.5223,E,000.0,000.0,030407,003.9,W,A*12\r\n";
    let expected = RmcMessage {
        latitude_degrees: 24_784_915_000,
        longitude_degrees: 121_008_705_000,
        speed: 0,
        course: 0,
        magnetic_variation: 3_900_000,
    };
    assert_eq!(NmeaMessage::parse_rmc(message).unwrap(), expected);
}

#[test]
fn test_parse_gsa() {
    let message = "$GPGSA,A,3,05,12,21,22,30,09,18,06,14,01,31,,1.2,0.8,0.6*36\r\n";
    let gsa = NmeaMessage::parse_gsa(message).unwrap();
    assert_eq!(gsa.mode, FixMode::Automatic);
    assert_eq!(gsa.fix_type, FixType::ThreeD);
    assert_eq!(gsa.satellites_used, 11);
    assert_eq!(gsa.pdop, 1_200_000);
    assert_eq!(gsa.hdop, 800_000);
    assert_eq!(gsa.vdop, 600_000);
}

#[test]
fn test_parse_gsv() {
    let message = "$GPGSV,3,1,12,05,54,069,45,12,44,061,44,21,07,184,46,22,78,289,47*72\r\n";
    let gsv = NmeaMessage::parse_gsv(message).unwrap();
    assert_eq!(gsv.message_count, 3);
    assert_eq!(gsv.message_sequence_number, 1);
    assert_eq!(gsv.satellites_in_view, 12);
    let expected = vec![
        SatelliteInformation { id: 5, elevation: 54_000_000, azimuth: 69_000_000, snr_db: 45 },
        SatelliteInformation { id: 12, elevation: 44_000_000, azimuth: 61_000_000, snr_db: 44 },
        SatelliteInformation { id: 21, elevation: 7_000_000, azimuth: 184_000_000, snr_db: 46 },
        SatelliteInformation { id: 22, elevation: 78_000_000, azimuth: 289_000_000, snr_db: 47 },
    ];
    assert_eq!(gsv.satellites, expected);

    let message_2 = "$GPGSV,3,2,12,30,65,118,45,09,12,047,37,18,62,157,47,06,08,144,45*7C\r\n";
    let gsv_2 = NmeaMessage::parse_gsv(message_2).unwrap();
    assert_eq!(gsv_2.message_count, 3);
    assert_eq!(gsv_2.message_sequence_number, 2);
    assert_eq!(gsv_2.satellites_in_view, 12);
    let expected_2 = vec![
        SatelliteInformation { id: 30, elevation: 65_000_000, azimuth: 118_000_000, snr_db: 45 },
        SatelliteInformation { id: 9, elevation: 12_000_000, azimuth: 47_000_000, snr_db: 37 },
        SatelliteInformation { id: 18, elevation: 62_000_000, azimuth: 157_000_000, snr_db: 47 },
        SatelliteInformation { id: 6, elevation: 8_000_000, azimuth: 144_000_000, snr_db: 45 },
    ];
    assert_eq!(gsv_2.satellites, expected_2);
}

#[test]
fn test_parse_gll() {
    let message = "$GPGLL,2447.0944,N,12100.5213,E,112609.932,A,A*57\r\n";
    let expected = GllMessage {
        latitude_degrees: 24_784_906_666,
        longitude_degrees: 121_008_688_333,
    };
    assert_eq!(NmeaMessage::parse_gll(message).unwrap(), expected);
}

#[test]
fn test_parse_sti() {
    let message = "$PSTI,004,001,1,34.7,121.6,-48.2,99912,29.4*08\r\n";
    let expected = StiMessage {
        pitch: 34_700_000,
        roll: 121_600_000,
        yaw: -48_200_000,
        pressure: 99912,
        temperature: 29_400_000,
    };
    assert_eq!(NmeaMessage::parse_sti(message).unwrap(), expected);
}

#[test]
fn test_parse() {
    let gga = "$GPGGA,033403.456,0102.3456,N,0102.3456,W,1,11,0.8,108.2,M,,,,0000*01\r\n";
    let vtg = "$GPVTG,123.4,T,356.1,M,000.0,N,0036.0,K,A*32\r\n";
    let rmc = "$GPRMC,111636.932,A,2447.0949,N,12100.5223,E,000.0,000.0,030407,003.9,W,A*12\r\n";
    let gsa = "$GPGSA,A,3,05,12,21,22,30,09,18,06,14,01,31,,1.2,0.8,0.6*36\r\n";
    let gsv = "$GPGSV,3,1,12,05,54,069,45,12,44,061,44,21,07,184,46,22,78,289,47*72\r\n";
    let gll = "$GPGLL,2447.0944,N,12100.5213,E,112609.932,A,A*57\r\n";
    let sti = "$PSTI,004,001,1,34.7,121.6,-48.2,99912,29.4*08\r\n";

    assert!(matches!(NmeaMessage::parse(gga).unwrap(), NmeaMessage::Gga(_)));
    assert!(matches!(NmeaMessage::parse(vtg).unwrap(), NmeaMessage::Vtg(_)));
    assert!(matches!(NmeaMessage::parse(rmc).unwrap(), NmeaMessage::Rmc(_)));
    assert!(matches!(NmeaMessage::parse(gsa).unwrap(), NmeaMessage::Gsa(_)));
    assert!(matches!(NmeaMessage::parse(gsv).unwrap(), NmeaMessage::Gsv(_)));
    assert!(matches!(NmeaMessage::parse(gll).unwrap(), NmeaMessage::Gll(_)));
    assert!(matches!(NmeaMessage::parse(sti).unwrap(), NmeaMessage::Sti(_)));
    assert!(NmeaMessage::parse("$GPXYZ,1,2,3*00\r\n").is_err());
}

#[test]
fn test_parse_binary() {
    let message: [u8; 34] = [
        0xCF, 0x01, 0xBD, 0x4F, 0xE1, 0x54, 0xBE, 0x15, 0xE9, 0xE2, 0x3F, 0x6F, 0x3C, 0xB4, 0xC0,
        0xC5, 0x9D, 0x2A, 0x40, 0x79, 0x84, 0x08, 0x40, 0xCE, 0xFA, 0xB0, 0x00, 0x01, 0x85, 0xB1,
        0x41, 0xF1, 0x99, 0x9A,
    ];
    let expected = BinaryMessage {
        x_gravity: 0xBD4FE154,
        y_gravity: 0xBE15E9E2,
        z_gravity: 0x3F6F3CB4,
        x_magnetic_field: 0xC0C59D2A,
        y_magnetic_field: 0x40798408,
        z_magnetic_field: 0x40CEFAB0,
        pressure: 0x000185B1,
        temperature: 0x41F1999A,
    };
    match NmeaMessage::parse_binary(&message).unwrap() {
        NmeaMessage::Binary(binary) => assert!(binary == expected),
        _ => panic!("expected a binary message"),
    }
}

#[test]
fn test_convert() {
    assert!((f32::from_bits(0xBD4FE154u32) - -0.050752).abs() < 0.001);
}

#[test]
fn test_parse_rejects_invalid_data() {
    // No position fix.
    assert!(NmeaMessage::parse_gga(
        "$GPGGA,033403.456,0102.3456,N,0102.3456,W,0,11,0.8,108.2,M,,,,0000*01\r\n"
    )
    .is_err());
    // A mode of N marks the data invalid.
    assert!(
        NmeaMessage::parse_vtg("$GPVTG,123.4,T,356.1,M,000.0,N,0036.0,K,N*32\r\n").is_err()
    );
    // A status of V is a navigation receiver warning.
    assert!(NmeaMessage::parse_rmc(
        "$GPRMC,111636.932,V,2447.0949,N,12100.5223,E,000.0,000.0,030407,003.9,W,A*12\r\n"
    )
    .is_err());
    assert!(
        NmeaMessage::parse_gll("$GPGLL,2447.0944,N,12100.5213,E,112609.932,V,A*57\r\n").is_err()
    );
    // The magnetic calibration has not been done.
    assert!(
        NmeaMessage::parse_sti("$PSTI,004,001,0,34.7,121.6,-48.2,99912,29.4*08\r\n").is_err()
    );
    // Truncated sentences are rejected, not mis-read.
    assert!(NmeaMessage::parse_gga("$GPGGA,033403.456,0102.3456").is_err());
    // The binary payload must be exactly 34 bytes.
    assert!(NmeaMessage::parse_binary(&[0u8; 33]).is_err());
}
