//! Parsing the NMEA and binary messages of the GPS module into typed,
//! fixed-point readings.
//!
//! Latitudes and longitudes are billionths of a degree; headings, speeds
//! and dilution values are millionths of their unit; the binary message
//! carries its IEEE-754 words as raw bit patterns, which the caller may
//! reinterpret as floats.

use vstd::prelude::*;
use vstd::string::StringSliceAdditionalSpecFns;
use crate::math::{div_i128, tdiv};
use crate::telemetry::{Degrees, MetersPerSecond};
use crate::util::{
    all_digits, digits_value, find_byte, find_byte_from, find_byte_spec, parse_float,
    parse_float_spec, parse_int_range,
};

verus! {

/// Billionths of a degree of latitude or longitude.
pub type NanoDegrees = i64;

/// Pascals.
pub type Pascal = u32;

/// Millionths of a degree Celsius.
pub type Celsius = i64;

/// GGA: global positioning system fix data.
#[derive(Clone, Copy, Debug, PartialEq, Eq, Structural)]
pub struct GgaMessage {
    pub latitude_degrees: NanoDegrees,
    pub longitude_degrees: NanoDegrees,
    pub hdop: i64,
}

/// VTG: course over ground and ground speed.
#[derive(Clone, Copy, Debug, PartialEq, Eq, Structural)]
pub struct VtgMessage {
    pub course: Degrees,
    pub speed: MetersPerSecond,
}

/// RMC: recommended minimum specific GNSS data.
#[derive(Clone, Copy, Debug, PartialEq, Eq, Structural)]
pub struct RmcMessage {
    pub latitude_degrees: NanoDegrees,
    pub longitude_degrees: NanoDegrees,
    pub speed: MetersPerSecond,
    pub course: Degrees,
    pub magnetic_variation: Degrees,
}

/// The receiver's fix selection mode, from a GSA sentence.
#[derive(Clone, Copy, Debug, PartialEq, Eq, Structural)]
pub enum FixMode {
    Manual,
    Automatic,
}

/// The kind of fix the receiver holds, from a GSA sentence.
#[derive(Clone, Copy, Debug, PartialEq, Eq, Structural)]
pub enum FixType {
    NotAvailable,
    TwoD,
    ThreeD,
}

/// GSA: GNSS dilution of precision and active satellites.
#[derive(Clone, Copy, Debug, PartialEq, Eq, Structural)]
pub struct GsaMessage {
    pub mode: FixMode,
    pub fix_type: FixType,
    pub satellites_used: i32,
    pub pdop: i64,
    pub hdop: i64,
    pub vdop: i64,
}

/// One satellite's line of a GSV sentence.
#[derive(Clone, Copy, Debug, PartialEq, Eq, Structural)]
pub struct SatelliteInformation {
    pub id: i32,
    pub elevation: Degrees,
    pub azimuth: Degrees,
    pub snr_db: i32,
}

/// GSV: GNSS satellites in view.
#[derive(Debug, PartialEq, Eq)]
pub struct GsvMessage {
    pub message_count: i32,
    pub message_sequence_number: i32,
    pub satellites_in_view: i32,
    pub satellites: Vec<SatelliteInformation>,
}

/// GLL: latitude and longitude.
#[derive(Clone, Copy, Debug, PartialEq, Eq, Structural)]
pub struct GllMessage {
    pub latitude_degrees: NanoDegrees,
    pub longitude_degrees: NanoDegrees,
}

/// STI: pitch, roll, yaw, pressure and temperature.
#[derive(Clone, Copy, Debug, PartialEq, Eq, Structural)]
pub struct StiMessage {
    pub pitch: Degrees,
    pub roll: Degrees,
    pub yaw: Degrees,
    pub pressure: Pascal,
    pub temperature: Celsius,
}

/// The binary report: accelerometer, magnetometer, pressure and
/// temperature, the IEEE-754 words kept as raw bit patterns.
#[derive(Clone, Copy, Debug, PartialEq, Eq, Structural)]
pub struct BinaryMessage {
    pub x_gravity: u32,
    pub y_gravity: u32,
    pub z_gravity: u32,
    pub x_magnetic_field: u32,
    pub y_magnetic_field: u32,
    pub z_magnetic_field: u32,
    pub pressure: Pascal,
    pub temperature: u32,
}

/// Any one message the GPS module sends.
#[derive(Debug, PartialEq, Eq)]
pub enum NmeaMessage {
    Binary(BinaryMessage),
    Gga(GgaMessage),
    Gll(GllMessage),
    Gsa(GsaMessage),
    Gsv(GsvMessage),
    Vtg(VtgMessage),
    Rmc(RmcMessage),
    Sti(StiMessage),
}

/// Where the comma-separated field starting at `start` ends: at the next
/// comma, or at the end of the sentence.
pub open spec fn field_end_spec(s: Seq<u8>, start: int) -> int {
    if start > s.len() {
        s.len() as int
    } else {
        let relative = find_byte_spec(s.subrange(start, s.len() as int), 44);
        if relative == -1 {
            s.len() as int
        } else {
            start + relative
        }
    }
}

/// Where the `n`-th comma-separated field starts (one past the end of the
/// sentence when the fields have run out).
pub open spec fn field_start_spec(s: Seq<u8>, n: int) -> int
    decreases n,
{
    if n <= 0 {
        0
    } else {
        field_end_spec(s, field_start_spec(s, n - 1)) + 1
    }
}

/// The bytes of the `n`-th comma-separated field.
pub open spec fn field_bytes_spec(s: Seq<u8>, n: int) -> Seq<u8>
    recommends
        field_start_spec(s, n) <= s.len(),
{
    s.subrange(field_start_spec(s, n), field_end_spec(s, field_start_spec(s, n)))
}

/// Where the field starting at `start` ends, found by scanning for the
/// next comma.
fn field_end(bytes: &[u8], start: usize) -> (end: usize)
    requires
        start <= bytes@.len(),
    ensures
        end == field_end_spec(bytes@, start as int),
        start <= end <= bytes@.len(),
        end < bytes@.len() ==> bytes@[end as int] == 44,
{
    let end = find_byte_from(bytes, start, 44);
    proof {
        let suffix = bytes@.subrange(start as int, bytes@.len() as int);
        crate::util::lemma_find_byte(suffix, 44);
        let relative = find_byte_spec(suffix, 44);
        if relative == -1 {
            if (end as int) < bytes@.len() {
                assert(suffix[end - start] == bytes@[end as int]);
            }
        } else {
            assert(suffix[relative] == bytes@[start + relative]);
            assert(forall|k: int|
                0 <= k < relative ==> #[trigger] suffix[k] == bytes@[start + k]);
            if end as int != start + relative {
                if (end as int) < start + relative {
                    assert(suffix[end - start] == bytes@[end as int]);
                }
            }
        }
    }
    end
}

/// The `n`-th comma-separated field of the sentence, if the sentence has
/// that many fields and the field lies on character boundaries.
fn nth_field(message: &str, n: usize) -> (r: Option<&str>)
    ensures
        r is Some ==> ({
            let bytes = message.spec_bytes();
            &&& field_start_spec(bytes, n as int) <= bytes.len()
            &&& r.unwrap().spec_bytes() == field_bytes_spec(bytes, n as int)
        }),
{
    let bytes = message.as_bytes();
    let mut start: usize = 0;
    let mut k: usize = 0;
    while k < n
        invariant
            0 <= k <= n,
            start == field_start_spec(bytes@, k as int),
            start <= bytes@.len() + 1,
            bytes@ == message.spec_bytes(),
        decreases n - k,
    {
        if start > bytes.len() {
            return None;
        }
        let end = field_end(bytes, start);
        if end >= bytes.len() {
            // The fields have run out.
            return None;
        }
        start = end + 1;
        k = k + 1;
    }
    if start > bytes.len() {
        return None;
    }
    let end = field_end(bytes, start);
    if !message.is_char_boundary(start) {
        return None;
    }
    let tail = message.split_at(start).1;
    if !tail.is_char_boundary(end - start) {
        return None;
    }
    let field = tail.split_at(end - start).0;
    proof {
        assert(field.spec_bytes() =~= message.spec_bytes().subrange(start as int, end as int));
    }
    Some(field)
}

/// The big-endian 32-bit word at offset `i`.
pub open spec fn be_u32_spec(s: Seq<u8>, i: int) -> int {
    s[i] * 0x1000000 + s[i + 1] * 0x10000 + s[i + 2] * 0x100 + s[i + 3]
}

/// Reads the big-endian 32-bit word at offset `i`.
pub fn be_u32(bytes: &[u8], i: usize) -> (r: u32)
    requires
        i + 4 <= bytes@.len(),
    ensures
        r == be_u32_spec(bytes@, i as int),
{
    (bytes[i] as u32) * 0x1000000 + (bytes[i + 1] as u32) * 0x10000 + (bytes[i + 2] as u32) * 0x100
        + (bytes[i + 3] as u32)
}

/// A `ddmm.mmmm` angle in billionths of a degree: the digits before the
/// last two whole-number places are degrees, the rest are minutes, one
/// sixtieth of a degree each.  Without a decimal point the whole string
/// is taken as degrees.
pub open spec fn parse_degrees_minutes_spec(bytes: Seq<u8>) -> Option<int> {
    let dot = find_byte_spec(bytes, 46);
    if dot == -1 {
        if parse_float_spec(bytes) is Some {
            Some(parse_float_spec(bytes).unwrap() * 1000)
        } else {
            None
        }
    } else if dot < 2 {
        None
    } else {
        let degrees_bytes = bytes.subrange(0, dot - 2);
        let minutes = parse_float_spec(bytes.subrange(dot - 2, bytes.len() as int));
        if all_digits(degrees_bytes) && digits_value(degrees_bytes) <= i32::MAX && minutes
            is Some {
            Some(digits_value(degrees_bytes) * 1_000_000_000 + tdiv(minutes.unwrap() * 1000, 60))
        } else {
            None
        }
    }
}

/// Parses a `ddmm.mmmm` angle into billionths of a degree.
pub fn parse_degrees_minutes(degrees_minutes: &str) -> (r: Option<NanoDegrees>)
    ensures
        r is Some ==> parse_degrees_minutes_spec(degrees_minutes.spec_bytes()) == Some(
            r.unwrap() as int,
        ),
        r is Some ==> -4_400_000_000_000_000_000 <= r.unwrap() <= 4_400_000_000_000_000_000,
{
    let bytes = degrees_minutes.as_bytes();
    let dot = match find_byte(bytes, 46) {
        None => {
            let value = match parse_float(degrees_minutes) {
                Some(value) => value,
                None => {
                    return None;
                },
            };
            return Some(value * 1000);
        },
        Some(dot) => dot,
    };
    if dot < 2 {
        return None;
    }
    proof {
        crate::util::lemma_find_byte(bytes@, 46);
    }
    let degrees = match parse_int_range(bytes, 0, dot - 2) {
        Some(degrees) => degrees as i64,
        None => {
            return None;
        },
    };
    if !degrees_minutes.is_char_boundary(dot - 2) {
        return None;
    }
    let minutes_str = degrees_minutes.split_at(dot - 2).1;
    proof {
        assert(minutes_str.spec_bytes() =~= degrees_minutes.spec_bytes().subrange(
            dot - 2,
            degrees_minutes.spec_bytes().len() as int,
        ));
        assert(bytes@.subrange(0, dot - 2) =~= degrees_minutes.spec_bytes().subrange(0, dot - 2));
    }
    let minutes = match parse_float(minutes_str) {
        Some(minutes) => minutes,
        None => {
            return None;
        },
    };
    let minute_degrees = div_i128((minutes as i128) * 1000, 60);
    Some(degrees * 1_000_000_000 + (minute_degrees as i64))
}

/// The latitude and longitude block of four consecutive fields — angle,
/// north/south, angle, east/west — starting at field `first`, in
/// billionths of a degree, south and west negative.
pub open spec fn parse_position_spec(bytes: Seq<u8>, first: int) -> Option<(int, int)> {
    if field_start_spec(bytes, first + 3) > bytes.len() {
        None
    } else {
        let latitude = parse_degrees_minutes_spec(field_bytes_spec(bytes, first));
        let north = field_bytes_spec(bytes, first + 1) == seq![78u8];
        let longitude = parse_degrees_minutes_spec(field_bytes_spec(bytes, first + 2));
        let east = field_bytes_spec(bytes, first + 3) == seq![69u8];
        if latitude is Some && longitude is Some {
            Some(
                (
                    if north {
                        latitude.unwrap()
                    } else {
                        -latitude.unwrap()
                    },
                    if east {
                        longitude.unwrap()
                    } else {
                        -longitude.unwrap()
                    },
                ),
            )
        } else {
            None
        }
    }
}

/// Parses the four-field latitude and longitude block starting at field
/// `first`.
fn parse_position(message: &str, first: usize) -> (r: Option<(NanoDegrees, NanoDegrees)>)
    requires
        first + 3 <= usize::MAX,
    ensures
        r is Some ==> parse_position_spec(message.spec_bytes(), first as int) == Some(
            (r.unwrap().0 as int, r.unwrap().1 as int),
        ),
        r is Some ==> -4_400_000_000_000_000_000 <= r.unwrap().0 <= 4_400_000_000_000_000_000
            && -4_400_000_000_000_000_000 <= r.unwrap().1 <= 4_400_000_000_000_000_000,
{
    let latitude_str = match nth_field(message, first) {
        Some(s) => s,
        None => {
            return None;
        },
    };
    let north_str = match nth_field(message, first + 1) {
        Some(s) => s,
        None => {
            return None;
        },
    };
    let longitude_str = match nth_field(message, first + 2) {
        Some(s) => s,
        None => {
            return None;
        },
    };
    let east_str = match nth_field(message, first + 3) {
        Some(s) => s,
        None => {
            return None;
        },
    };
    let latitude = match parse_degrees_minutes(latitude_str) {
        Some(v) => v,
        None => {
            return None;
        },
    };
    let longitude = match parse_degrees_minutes(longitude_str) {
        Some(v) => v,
        None => {
            return None;
        },
    };
    let north_bytes = north_str.as_bytes();
    let north = north_bytes.len() == 1 && north_bytes[0] == 78;
    let east_bytes = east_str.as_bytes();
    let east = east_bytes.len() == 1 && east_bytes[0] == 69;
    proof {
        if north {
            assert(north_str.spec_bytes() =~= seq![78u8]);
        }
        if east {
            assert(east_str.spec_bytes() =~= seq![69u8]);
        }
    }
    Some(
        (
            if north {
                latitude
            } else {
                -latitude
            },
            if east {
                longitude
            } else {
                -longitude
            },
        ),
    )
}

/// Whether the sentence starts with `$GPGGA`.
pub open spec fn gga_prefix(s: Seq<u8>) -> bool {
    s.len() >= 6 && s[0] == 36 && s[1] == 71 && s[2] == 80 && s[3] == 71 && s[4] == 71 && s[5]
        == 65
}

/// Whether the sentence starts with `$GPVTG`.
pub open spec fn vtg_prefix(s: Seq<u8>) -> bool {
    s.len() >= 6 && s[0] == 36 && s[1] == 71 && s[2] == 80 && s[3] == 86 && s[4] == 84 && s[5]
        == 71
}

/// Whether the sentence starts with `$PSTI`.
pub open spec fn sti_prefix(s: Seq<u8>) -> bool {
    s.len() >= 5 && s[0] == 36 && s[1] == 80 && s[2] == 83 && s[3] == 84 && s[4] == 73
}

/// Whether the sentence starts with `$GPRMC`.
pub open spec fn rmc_prefix(s: Seq<u8>) -> bool {
    s.len() >= 6 && s[0] == 36 && s[1] == 71 && s[2] == 80 && s[3] == 82 && s[4] == 77 && s[5]
        == 67
}

/// Whether the sentence starts with `$GPGSA`.
pub open spec fn gsa_prefix(s: Seq<u8>) -> bool {
    s.len() >= 6 && s[0] == 36 && s[1] == 71 && s[2] == 80 && s[3] == 71 && s[4] == 83 && s[5]
        == 65
}

/// Whether the sentence starts with `$GPGSV`.
pub open spec fn gsv_prefix(s: Seq<u8>) -> bool {
    s.len() >= 6 && s[0] == 36 && s[1] == 71 && s[2] == 80 && s[3] == 71 && s[4] == 83 && s[5]
        == 86
}

/// Whether the sentence starts with `$GPGLL`.
pub open spec fn gll_prefix(s: Seq<u8>) -> bool {
    s.len() >= 6 && s[0] == 36 && s[1] == 71 && s[2] == 80 && s[3] == 71 && s[4] == 76 && s[5]
        == 76
}

/// What a GGA sentence parses to: the position block at fields two to
/// five, the fix quality at field six (zero means no fix), and the
/// horizontal dilution at field eight.
pub open spec fn parse_gga_spec(bytes: Seq<u8>) -> Option<GgaMessage> {
    let position = parse_position_spec(bytes, 2);
    if field_start_spec(bytes, 8) > bytes.len() || position is None {
        None
    } else if field_bytes_spec(bytes, 6) == seq![48u8] {
        None
    } else {
        let hdop = parse_float_spec(field_bytes_spec(bytes, 8));
        if hdop is None {
            None
        } else {
            Some(
                GgaMessage {
                    latitude_degrees: position.unwrap().0 as i64,
                    longitude_degrees: position.unwrap().1 as i64,
                    hdop: hdop.unwrap() as i64,
                },
            )
        }
    }
}

/// What a VTG sentence parses to: the true course at field one and the
/// ground speed in km/h at field seven, converted to meters per second;
/// a mode field starting with `N` marks the data invalid.
pub open spec fn parse_vtg_spec(bytes: Seq<u8>) -> Option<VtgMessage> {
    if field_start_spec(bytes, 9) > bytes.len() {
        None
    } else {
        let course = parse_float_spec(field_bytes_spec(bytes, 1));
        let speed_km_h = parse_float_spec(field_bytes_spec(bytes, 7));
        let mode = field_bytes_spec(bytes, 9);
        if course is None || speed_km_h is None || mode.len() == 0 || mode[0] == 78 {
            None
        } else {
            Some(
                VtgMessage {
                    course: course.unwrap() as i64,
                    speed: tdiv(speed_km_h.unwrap() * 10, 36) as i64,
                },
            )
        }
    }
}

/// What an RMC sentence parses to: a `V` status or a mode starting with
/// `N` marks the data invalid; the position block sits at fields three to
/// six, the speed in knots at field seven, the course at field eight, and
/// the magnetic variation at fields ten and eleven, east negative.
pub open spec fn parse_rmc_spec(bytes: Seq<u8>) -> Option<RmcMessage> {
    let position = parse_position_spec(bytes, 3);
    if field_start_spec(bytes, 12) > bytes.len() || position is None {
        None
    } else if field_bytes_spec(bytes, 2) == seq![86u8] {
        None
    } else {
        let speed_knots = parse_float_spec(field_bytes_spec(bytes, 7));
        let course = parse_float_spec(field_bytes_spec(bytes, 8));
        let magnetic = parse_float_spec(field_bytes_spec(bytes, 10));
        let east = field_bytes_spec(bytes, 11) == seq![69u8];
        let mode = field_bytes_spec(bytes, 12);
        if speed_knots is None || course is None || magnetic is None || mode.len() == 0 || mode[0]
            == 78 {
            None
        } else {
            Some(
                RmcMessage {
                    latitude_degrees: position.unwrap().0 as i64,
                    longitude_degrees: position.unwrap().1 as i64,
                    speed: tdiv(speed_knots.unwrap() * 5144, 10000) as i64,
                    course: course.unwrap() as i64,
                    magnetic_variation: (if east {
                        -magnetic.unwrap()
                    } else {
                        magnetic.unwrap()
                    }) as i64,
                },
            )
        }
    }
}

/// What a GLL sentence parses to: the position block at fields one to
/// four; a `V` status or mode marks the data invalid.
pub open spec fn parse_gll_spec(bytes: Seq<u8>) -> Option<GllMessage> {
    let position = parse_position_spec(bytes, 1);
    if field_start_spec(bytes, 7) > bytes.len() || position is None {
        None
    } else if field_bytes_spec(bytes, 6) == seq![86u8] || field_bytes_spec(bytes, 7) == seq![86u8] {
        None
    } else {
        Some(
            GllMessage {
                latitude_degrees: position.unwrap().0 as i64,
                longitude_degrees: position.unwrap().1 as i64,
            },
        )
    }
}

/// What an STI sentence parses to: a zero validity flag marks the
/// magnetic calibration as not done; pitch, roll and yaw sit at fields
/// four to six, the pressure at field seven, and the temperature at field
/// eight before the checksum marker.
pub open spec fn parse_sti_spec(bytes: Seq<u8>) -> Option<StiMessage> {
    if field_start_spec(bytes, 8) > bytes.len() {
        None
    } else if field_bytes_spec(bytes, 3) == seq![48u8] {
        None
    } else {
        let pitch = parse_float_spec(field_bytes_spec(bytes, 4));
        let roll = parse_float_spec(field_bytes_spec(bytes, 5));
        let yaw = parse_float_spec(field_bytes_spec(bytes, 6));
        let pressure_bytes = field_bytes_spec(bytes, 7);
        let temperature_field = field_bytes_spec(bytes, 8);
        let star = find_byte_spec(temperature_field, 42);
        if pitch is None || roll is None || yaw is None || !(all_digits(pressure_bytes)
            && digits_value(pressure_bytes) <= i32::MAX) || star == -1 {
            None
        } else {
            let temperature = parse_float_spec(temperature_field.subrange(0, star));
            if temperature is None {
                None
            } else {
                Some(
                    StiMessage {
                        pitch: pitch.unwrap() as i64,
                        roll: roll.unwrap() as i64,
                        yaw: yaw.unwrap() as i64,
                        pressure: digits_value(pressure_bytes) as u32,
                        temperature: temperature.unwrap() as i64,
                    },
                )
            }
        }
    }
}

impl NmeaMessage {
    /// Parses one NMEA sentence by its type prefix.  A successful parse
    /// provably carries the prefix of its variant and, for the
    /// fixed-layout sentences, the field values their parse functions
    /// promise.
    pub fn parse(message: &str) -> (r: Result<NmeaMessage, String>)
        ensures
            r is Ok ==> match r.unwrap() {
                NmeaMessage::Gga(gga) => gga_prefix(message.spec_bytes()) && parse_gga_spec(
                    message.spec_bytes(),
                ) == Some(gga),
                NmeaMessage::Vtg(vtg) => vtg_prefix(message.spec_bytes()) && parse_vtg_spec(
                    message.spec_bytes(),
                ) == Some(vtg),
                NmeaMessage::Sti(sti) => sti_prefix(message.spec_bytes()) && parse_sti_spec(
                    message.spec_bytes(),
                ) == Some(sti),
                NmeaMessage::Rmc(rmc) => rmc_prefix(message.spec_bytes()) && parse_rmc_spec(
                    message.spec_bytes(),
                ) == Some(rmc),
                NmeaMessage::Gsa(_) => gsa_prefix(message.spec_bytes()),
                NmeaMessage::Gsv(_) => gsv_prefix(message.spec_bytes()),
                NmeaMessage::Gll(gll) => gll_prefix(message.spec_bytes()) && parse_gll_spec(
                    message.spec_bytes(),
                ) == Some(gll),
                NmeaMessage::Binary(_) => false,
            },
    {
        let bytes = message.as_bytes();
        if bytes.len() >= 6 && bytes[0] == 36 && bytes[1] == 71 && bytes[2] == 80 && bytes[3] == 71
            && bytes[4] == 71 && bytes[5] == 65 {
            match NmeaMessage::parse_gga(message) {
                Ok(gga) => Ok(NmeaMessage::Gga(gga)),
                Err(e) => Err(e),
            }
        } else if bytes.len() >= 6 && bytes[0] == 36 && bytes[1] == 71 && bytes[2] == 80 && bytes[3]
            == 86 && bytes[4] == 84 && bytes[5] == 71 {
            match NmeaMessage::parse_vtg(message) {
                Ok(vtg) => Ok(NmeaMessage::Vtg(vtg)),
                Err(e) => Err(e),
            }
        } else if bytes.len() >= 5 && bytes[0] == 36 && bytes[1] == 80 && bytes[2] == 83 && bytes[3]
            == 84 && bytes[4] == 73 {
            match NmeaMessage::parse_sti(message) {
                Ok(sti) => Ok(NmeaMessage::Sti(sti)),
                Err(e) => Err(e),
            }
        } else if bytes.len() >= 6 && bytes[0] == 36 && bytes[1] == 71 && bytes[2] == 80 && bytes[3]
            == 82 && bytes[4] == 77 && bytes[5] == 67 {
            match NmeaMessage::parse_rmc(message) {
                Ok(rmc) => Ok(NmeaMessage::Rmc(rmc)),
                Err(e) => Err(e),
            }
        } else if bytes.len() >= 6 && bytes[0] == 36 && bytes[1] == 71 && bytes[2] == 80 && bytes[3]
            == 71 && bytes[4] == 83 && bytes[5] == 65 {
            match NmeaMessage::parse_gsa(message) {
                Ok(gsa) => Ok(NmeaMessage::Gsa(gsa)),
                Err(e) => Err(e),
            }
        } else if bytes.len() >= 6 && bytes[0] == 36 && bytes[1] == 71 && bytes[2] == 80 && bytes[3]
            == 71 && bytes[4] == 83 && bytes[5] == 86 {
            match NmeaMessage::parse_gsv(message) {
                Ok(gsv) => Ok(NmeaMessage::Gsv(gsv)),
                Err(e) => Err(e),
            }
        } else if bytes.len() >= 6 && bytes[0] == 36 && bytes[1] == 71 && bytes[2] == 80 && bytes[3]
            == 71 && bytes[4] == 76 && bytes[5] == 76 {
            match NmeaMessage::parse_gll(message) {
                Ok(gll) => Ok(NmeaMessage::Gll(gll)),
                Err(e) => Err(e),
            }
        } else {
            Err("Unknown NMEA message type".to_owned())
        }
    }

    /// Time, position and fix related data for a GPS receiver.
    pub fn parse_gga(message: &str) -> (r: Result<GgaMessage, String>)
        ensures
            r is Ok ==> parse_gga_spec(message.spec_bytes()) == Some(r.unwrap()),
    {
        let position = match parse_position(message, 2) {
            Some(position) => position,
            None => {
                return Err("Invalid position".to_owned());
            },
        };
        let quality = match nth_field(message, 6) {
            Some(quality) => quality,
            None => {
                return Err("Message too short".to_owned());
            },
        };
        let quality_bytes = quality.as_bytes();
        if quality_bytes.len() == 1 && quality_bytes[0] == 48 {
            proof {
                assert(quality.spec_bytes() =~= seq![48u8]);
            }
            return Err("Position fix unavailable".to_owned());
        }
        let hdop_str = match nth_field(message, 8) {
            Some(hdop_str) => hdop_str,
            None => {
                return Err("Message too short".to_owned());
            },
        };
        let hdop = match parse_float(hdop_str) {
            Some(hdop) => hdop,
            None => {
                return Err("Invalid HDOP".to_owned());
            },
        };
        proof {
            if field_bytes_spec(message.spec_bytes(), 6) == seq![48u8] {
                assert(quality.spec_bytes().len() == 1 && quality.spec_bytes()[0] == 48);
            }
        }
        Ok(
            GgaMessage {
                latitude_degrees: position.0,
                longitude_degrees: position.1,
                hdop,
            },
        )
    }

    /// The actual course and speed relative to the ground.
    pub fn parse_vtg(message: &str) -> (r: Result<VtgMessage, String>)
        ensures
            r is Ok ==> parse_vtg_spec(message.spec_bytes()) == Some(r.unwrap()),
    {
        let course_str = match nth_field(message, 1) {
            Some(s) => s,
            None => {
                return Err("Message too short".to_owned());
            },
        };
        let speed_str = match nth_field(message, 7) {
            Some(s) => s,
            None => {
                return Err("Message too short".to_owned());
            },
        };
        let mode_str = match nth_field(message, 9) {
            Some(s) => s,
            None => {
                return Err("Message too short".to_owned());
            },
        };
        let course = match parse_float(course_str) {
            Some(v) => v,
            None => {
                return Err("Invalid course".to_owned());
            },
        };
        let speed_km_h = match parse_float(speed_str) {
            Some(v) => v,
            None => {
                return Err("Invalid speed".to_owned());
            },
        };
        let mode_bytes = mode_str.as_bytes();
        if mode_bytes.len() == 0 || mode_bytes[0] == 78 {
            return Err("Data not valid".to_owned());
        }
        let speed = div_i128((speed_km_h as i128) * 10, 36);
        Ok(VtgMessage { course, speed: speed as i64 })
    }

    /// Time, date, position, course and speed data.
    pub fn parse_rmc(message: &str) -> (r: Result<RmcMessage, String>)
        ensures
            r is Ok ==> parse_rmc_spec(message.spec_bytes()) == Some(r.unwrap()),
    {
        let status = match nth_field(message, 2) {
            Some(s) => s,
            None => {
                return Err("Message too short".to_owned());
            },
        };
        let status_bytes = status.as_bytes();
        if status_bytes.len() == 1 && status_bytes[0] == 86 {
            proof {
                assert(status.spec_bytes() =~= seq![86u8]);
            }
            return Err("Navigation receiver warning".to_owned());
        }
        let position = match parse_position(message, 3) {
            Some(position) => position,
            None => {
                return Err("Invalid position".to_owned());
            },
        };
        let speed_str = match nth_field(message, 7) {
            Some(s) => s,
            None => {
                return Err("Message too short".to_owned());
            },
        };
        let course_str = match nth_field(message, 8) {
            Some(s) => s,
            None => {
                return Err("Message too short".to_owned());
            },
        };
        let magnetic_str = match nth_field(message, 10) {
            Some(s) => s,
            None => {
                return Err("Message too short".to_owned());
            },
        };
        let east_west = match nth_field(message, 11) {
            Some(s) => s,
            None => {
                return Err("Message too short".to_owned());
            },
        };
        let mode_str = match nth_field(message, 12) {
            Some(s) => s,
            None => {
                return Err("Message too short".to_owned());
            },
        };
        let speed_knots = match parse_float(speed_str) {
            Some(v) => v,
            None => {
                return Err("Invalid speed".to_owned());
            },
        };
        let course = match parse_float(course_str) {
            Some(v) => v,
            None => {
                return Err("Invalid course".to_owned());
            },
        };
        let magnetic = match parse_float(magnetic_str) {
            Some(v) => v,
            None => {
                return Err("Invalid magnetic variation".to_owned());
            },
        };
        let mode_bytes = mode_str.as_bytes();
        if mode_bytes.len() == 0 || mode_bytes[0] == 78 {
            return Err("Data not valid".to_owned());
        }
        let east_bytes = east_west.as_bytes();
        let east = east_bytes.len() == 1 && east_bytes[0] == 69;
        proof {
            if east {
                assert(east_west.spec_bytes() =~= seq![69u8]);
            }
            if field_bytes_spec(message.spec_bytes(), 2) == seq![86u8] {
                assert(status.spec_bytes().len() == 1 && status.spec_bytes()[0] == 86);
            }
        }
        let speed = div_i128((speed_knots as i128) * 5144, 10000);
        Ok(
            RmcMessage {
                latitude_degrees: position.0,
                longitude_degrees: position.1,
                speed: speed as i64,
                course,
                magnetic_variation: if east {
                    -magnetic
                } else {
                    magnetic
                },
            },
        )
    }

    /// Latitude and longitude.
    pub fn parse_gll(message: &str) -> (r: Result<GllMessage, String>)
        ensures
            r is Ok ==> parse_gll_spec(message.spec_bytes()) == Some(r.unwrap()),
    {
        let position = match parse_position(message, 1) {
            Some(position) => position,
            None => {
                return Err("Invalid position".to_owned());
            },
        };
        let status = match nth_field(message, 6) {
            Some(s) => s,
            None => {
                return Err("Message too short".to_owned());
            },
        };
        let mode = match nth_field(message, 7) {
            Some(s) => s,
            None => {
                return Err("Message too short".to_owned());
            },
        };
        let status_bytes = status.as_bytes();
        if status_bytes.len() == 1 && status_bytes[0] == 86 {
            return Err("Data not valid".to_owned());
        }
        let mode_bytes = mode.as_bytes();
        if mode_bytes.len() == 1 && mode_bytes[0] == 86 {
            return Err("Data not valid".to_owned());
        }
        proof {
            if field_bytes_spec(message.spec_bytes(), 6) == seq![86u8] {
                assert(status.spec_bytes().len() == 1 && status.spec_bytes()[0] == 86);
            }
            if field_bytes_spec(message.spec_bytes(), 7) == seq![86u8] {
                assert(mode.spec_bytes().len() == 1 && mode.spec_bytes()[0] == 86);
            }
        }
        Ok(GllMessage { latitude_degrees: position.0, longitude_degrees: position.1 })
    }

    /// Pitch, roll, yaw, pressure and temperature.
    pub fn parse_sti(message: &str) -> (r: Result<StiMessage, String>)
        ensures
            r is Ok ==> parse_sti_spec(message.spec_bytes()) == Some(r.unwrap()),
    {
        let validity = match nth_field(message, 3) {
            Some(s) => s,
            None => {
                return Err("Message too short".to_owned());
            },
        };
        let validity_bytes = validity.as_bytes();
        if validity_bytes.len() == 1 && validity_bytes[0] == 48 {
            return Err("Magnetic calibration not done".to_owned());
        }
        let pitch_str = match nth_field(message, 4) {
            Some(s) => s,
            None => {
                return Err("Message too short".to_owned());
            },
        };
        let roll_str = match nth_field(message, 5) {
            Some(s) => s,
            None => {
                return Err("Message too short".to_owned());
            },
        };
        let yaw_str = match nth_field(message, 6) {
            Some(s) => s,
            None => {
                return Err("Message too short".to_owned());
            },
        };
        let pressure_str = match nth_field(message, 7) {
            Some(s) => s,
            None => {
                return Err("Message too short".to_owned());
            },
        };
        let temperature_str = match nth_field(message, 8) {
            Some(s) => s,
            None => {
                return Err("Message too short".to_owned());
            },
        };
        let pitch = match parse_float(pitch_str) {
            Some(v) => v,
            None => {
                return Err("Invalid pitch".to_owned());
            },
        };
        let roll = match parse_float(roll_str) {
            Some(v) => v,
            None => {
                return Err("Invalid roll".to_owned());
            },
        };
        let yaw = match parse_float(yaw_str) {
            Some(v) => v,
            None => {
                return Err("Invalid yaw".to_owned());
            },
        };
        let pressure_bytes = pressure_str.as_bytes();
        let pressure = match parse_int_range(pressure_bytes, 0, pressure_bytes.len()) {
            Some(v) => v as u32,
            None => {
                return Err("Invalid pressure".to_owned());
            },
        };
        let temperature_bytes = temperature_str.as_bytes();
        let star = match find_byte(temperature_bytes, 42) {
            Some(star) => star,
            None => {
                return Err("Invalid temperature".to_owned());
            },
        };
        proof {
            crate::util::lemma_find_byte(temperature_str.spec_bytes(), 42);
        }
        if !temperature_str.is_char_boundary(star) {
            return Err("Invalid temperature".to_owned());
        }
        let temperature_value_str = temperature_str.split_at(star).0;
        proof {
            assert(temperature_value_str.spec_bytes() =~= temperature_str.spec_bytes().subrange(
                0,
                star as int,
            ));
            assert(pressure_bytes@.subrange(0, pressure_bytes@.len() as int) =~= pressure_str.spec_bytes());
            if field_bytes_spec(message.spec_bytes(), 3) == seq![48u8] {
                assert(validity.spec_bytes().len() == 1 && validity.spec_bytes()[0] == 48);
            }
        }
        let temperature = match parse_float(temperature_value_str) {
            Some(v) => v,
            None => {
                return Err("Invalid temperature".to_owned());
            },
        };
        Ok(StiMessage { pitch, roll, yaw, pressure, temperature })
    }

    /// GPS receiver operating mode, satellites used in the navigation
    /// solution, and dilution of precision values.  The satellite list has
    /// no fixed length, so only the mode and fix type are pinned by
    /// contract; the dilution values follow the first empty satellite
    /// field.
    pub fn parse_gsa(message: &str) -> (r: Result<GsaMessage, String>)
        ensures
            r is Ok ==> ({
                let bytes = message.spec_bytes();
                &&& r.unwrap().mode == (if field_bytes_spec(bytes, 1) == seq![65u8] {
                    FixMode::Automatic
                } else {
                    FixMode::Manual
                })
                &&& r.unwrap().fix_type == (if field_bytes_spec(bytes, 2) == seq![49u8] {
                    FixType::NotAvailable
                } else if field_bytes_spec(bytes, 2) == seq![50u8] {
                    FixType::TwoD
                } else {
                    FixType::ThreeD
                })
                &&& r.unwrap().satellites_used >= 0
            }),
    {
        let fix_mode_str = match nth_field(message, 1) {
            Some(s) => s,
            None => {
                return Err("Message too short".to_owned());
            },
        };
        let mode_bytes = fix_mode_str.as_bytes();
        let fix_mode = if mode_bytes.len() == 1 && mode_bytes[0] == 65 {
            proof {
                assert(fix_mode_str.spec_bytes() =~= seq![65u8]);
            }
            FixMode::Automatic
        } else {
            FixMode::Manual
        };
        let fix_type_str = match nth_field(message, 2) {
            Some(s) => s,
            None => {
                return Err("Message too short".to_owned());
            },
        };
        let type_bytes = fix_type_str.as_bytes();
        let fix_type = if type_bytes.len() == 1 && type_bytes[0] == 49 {
            proof {
                assert(fix_type_str.spec_bytes() =~= seq![49u8]);
            }
            FixType::NotAvailable
        } else if type_bytes.len() == 1 && type_bytes[0] == 50 {
            proof {
                assert(fix_type_str.spec_bytes() =~= seq![50u8]);
            }
            FixType::TwoD
        } else {
            FixType::ThreeD
        };
        let mut satellites_used: i32 = 0;
        let mut index: usize = 3;
        let mut dop_index: usize = 0;
        let mut found_empty = false;
        while !found_empty && index < usize::MAX - 4
            invariant
                satellites_used >= 0,
                found_empty ==> dop_index < usize::MAX - 4,
            decreases usize::MAX - index,
        {
            let satellite_id = match nth_field(message, index) {
                Some(s) => s,
                None => {
                    return Err("Message too short".to_owned());
                },
            };
            if satellite_id.len() == 0 {
                dop_index = index;
                found_empty = true;
            } else {
                if satellites_used == i32::MAX {
                    return Err("Too many satellites".to_owned());
                }
                satellites_used = satellites_used + 1;
            }
            index = index + 1;
        }
        if !found_empty {
            return Err("Message too short".to_owned());
        }
        let pdop_str = match nth_field(message, dop_index + 1) {
            Some(s) => s,
            None => {
                return Err("Message too short".to_owned());
            },
        };
        let hdop_str = match nth_field(message, dop_index + 2) {
            Some(s) => s,
            None => {
                return Err("Message too short".to_owned());
            },
        };
        let vdop_field = match nth_field(message, dop_index + 3) {
            Some(s) => s,
            None => {
                return Err("Message too short".to_owned());
            },
        };
        let pdop = match parse_float(pdop_str) {
            Some(v) => v,
            None => {
                return Err("Invalid PDOP".to_owned());
            },
        };
        let hdop = match parse_float(hdop_str) {
            Some(v) => v,
            None => {
                return Err("Invalid HDOP".to_owned());
            },
        };
        let vdop_bytes = vdop_field.as_bytes();
        let star = match find_byte(vdop_bytes, 42) {
            Some(star) => star,
            None => {
                return Err("Invalid VDOP".to_owned());
            },
        };
        proof {
            crate::util::lemma_find_byte(vdop_field.spec_bytes(), 42);
        }
        if !vdop_field.is_char_boundary(star) {
            return Err("Invalid VDOP".to_owned());
        }
        let vdop_str = vdop_field.split_at(star).0;
        let vdop = match parse_float(vdop_str) {
            Some(v) => v,
            None => {
                return Err("Invalid VDOP".to_owned());
            },
        };
        Ok(GsaMessage { mode: fix_mode, fix_type, satellites_used, pdop, hdop, vdop })
    }

    /// Number of satellites in view with their identifiers, elevations,
    /// azimuths and signal strengths.  The satellite list has no fixed
    /// length, so only the three header fields are pinned by contract.
    pub fn parse_gsv(message: &str) -> (r: Result<GsvMessage, String>)
        ensures
            r is Ok ==> ({
                let bytes = message.spec_bytes();
                &&& all_digits(field_bytes_spec(bytes, 1)) && digits_value(
                    field_bytes_spec(bytes, 1),
                ) <= i32::MAX && r.unwrap().message_count == digits_value(
                    field_bytes_spec(bytes, 1),
                )
                &&& all_digits(field_bytes_spec(bytes, 2)) && digits_value(
                    field_bytes_spec(bytes, 2),
                ) <= i32::MAX && r.unwrap().message_sequence_number == digits_value(
                    field_bytes_spec(bytes, 2),
                )
                &&& all_digits(field_bytes_spec(bytes, 3)) && digits_value(
                    field_bytes_spec(bytes, 3),
                ) <= i32::MAX && r.unwrap().satellites_in_view == digits_value(
                    field_bytes_spec(bytes, 3),
                )
                &&& r.unwrap().satellites@.len() >= 1
            }),
    {
        let message_count = match NmeaMessage::int_field(message, 1) {
            Some(v) => v,
            None => {
                return Err("Invalid message count".to_owned());
            },
        };
        let message_sequence_number = match NmeaMessage::int_field(message, 2) {
            Some(v) => v,
            None => {
                return Err("Invalid sequence number".to_owned());
            },
        };
        let satellites_in_view = match NmeaMessage::int_field(message, 3) {
            Some(v) => v,
            None => {
                return Err("Invalid satellites in view".to_owned());
            },
        };
        let mut satellites: Vec<SatelliteInformation> = Vec::new();
        let mut index: usize = 4;
        let mut done = false;
        while !done && index < usize::MAX - 4
            invariant
                satellites@.len() <= index,
            decreases usize::MAX - index,
        {
            let id = match NmeaMessage::int_field(message, index) {
                Some(v) => v,
                None => {
                    return Err("Invalid satellite id".to_owned());
                },
            };
            let elevation_str = match nth_field(message, index + 1) {
                Some(s) => s,
                None => {
                    return Err("Message too short".to_owned());
                },
            };
            let elevation = match parse_float(elevation_str) {
                Some(v) => v,
                None => {
                    return Err("Invalid elevation".to_owned());
                },
            };
            let azimuth_str = match nth_field(message, index + 2) {
                Some(s) => s,
                None => {
                    return Err("Message too short".to_owned());
                },
            };
            let azimuth = match parse_float(azimuth_str) {
                Some(v) => v,
                None => {
                    return Err("Invalid azimuth".to_owned());
                },
            };
            let snr_field = match nth_field(message, index + 3) {
                Some(s) => s,
                None => {
                    return Err("Message too short".to_owned());
                },
            };
            let snr_bytes = snr_field.as_bytes();
            let snr = match parse_int_range(snr_bytes, 0, snr_bytes.len()) {
                Some(v) => v,
                None => {
                    // This might be the last in the series, where the
                    // field carries the sentence checksum after a star.
                    done = true;
                    let star = match find_byte(snr_bytes, 42) {
                        Some(star) => star,
                        None => {
                            return Err("Invalid SNR".to_owned());
                        },
                    };
                    proof {
                        crate::util::lemma_find_byte(snr_bytes@, 42);
                    }
                    match parse_int_range(snr_bytes, 0, star) {
                        Some(v) => v,
                        None => {
                            return Err("Invalid SNR".to_owned());
                        },
                    }
                },
            };
            satellites.push(SatelliteInformation { id, elevation, azimuth, snr_db: snr });
            index = index + 4;
        }
        if satellites.len() == 0 {
            return Err("Message too short".to_owned());
        }
        Ok(GsvMessage { message_count, message_sequence_number, satellites_in_view, satellites })
    }

    /// The decimal integer at the `n`-th field.
    fn int_field(message: &str, n: usize) -> (r: Option<i32>)
        ensures
            r is Some ==> ({
                let field = field_bytes_spec(message.spec_bytes(), n as int);
                &&& field_start_spec(message.spec_bytes(), n as int)
                    <= message.spec_bytes().len()
                &&& all_digits(field)
                &&& digits_value(field) <= i32::MAX
                &&& r.unwrap() == digits_value(field)
            }),
    {
        let field = match nth_field(message, n) {
            Some(s) => s,
            None => {
                return None;
            },
        };
        let bytes = field.as_bytes();
        let r = parse_int_range(bytes, 0, bytes.len());
        proof {
            assert(bytes@.subrange(0, bytes@.len() as int) =~= field.spec_bytes());
        }
        r
    }

    /// The magnetometer, accelerometer, pressure and temperature report:
    /// eight big-endian 32-bit words after the two-byte message id, each
    /// kept as its raw bit pattern.
    pub fn parse_binary(message: &[u8]) -> (r: Result<NmeaMessage, String>)
        ensures
            message@.len() == 34 ==> r == Ok::<NmeaMessage, String>(
                NmeaMessage::Binary(
                    BinaryMessage {
                        x_gravity: be_u32_spec(message@, 2) as u32,
                        y_gravity: be_u32_spec(message@, 6) as u32,
                        z_gravity: be_u32_spec(message@, 10) as u32,
                        x_magnetic_field: be_u32_spec(message@, 14) as u32,
                        y_magnetic_field: be_u32_spec(message@, 18) as u32,
                        z_magnetic_field: be_u32_spec(message@, 22) as u32,
                        pressure: be_u32_spec(message@, 26) as u32,
                        temperature: be_u32_spec(message@, 30) as u32,
                    },
                ),
            ),
            message@.len() != 34 ==> r is Err,
    {
        if message.len() != 34 {
            return Err("Wrong payload length".to_owned());
        }
        Ok(
            NmeaMessage::Binary(
                BinaryMessage {
                    x_gravity: be_u32(message, 2),
                    y_gravity: be_u32(message, 6),
                    z_gravity: be_u32(message, 10),
                    x_magnetic_field: be_u32(message, 14),
                    y_magnetic_field: be_u32(message, 18),
                    z_magnetic_field: be_u32(message, 22),
                    pressure: be_u32(message, 26),
                    temperature: be_u32(message, 30),
                },
            ),
        )
    }
}

} // verus!
