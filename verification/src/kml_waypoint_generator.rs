//! The sequential waypoint generator, fed by a KML path file.
//!
//! The waypoint list itself is parsed here from the `<coordinates>` line
//! of a KML document; unpacking the KML archive and reading the file are
//! the caller's business.

use vstd::prelude::*;
use vstd::string::StringSliceAdditionalSpecFns;
use crate::telemetry::{
    distance, lat_long_point_spec, latitude_longitude_to_point, Meter, Point, MAX_COORDINATE,
};
use crate::math::abs_spec;
use crate::util::{find_byte, find_byte_from, find_byte_spec, parse_float, parse_float_spec};
use crate::waypoint_generator::WaypointGenerator;

verus! {

/// The distance below which a waypoint counts as reached: one meter.
pub const REACH_DISTANCE: i64 = 1_000_000;

/// Walks an ordered list of waypoints loaded once at construction.
pub struct KmlWaypointGenerator {
    pub waypoints: Vec<Point>,
    pub current_waypoint: usize,
}

impl KmlWaypointGenerator {
    /// A generator at the start of the given list of waypoints.
    pub fn new_from_waypoints(waypoints: Vec<Point>) -> (generator: KmlWaypointGenerator)
        requires
            forall|i: int|
                0 <= i < waypoints@.len() ==> abs_spec(waypoints@[i].x as int) <= MAX_COORDINATE
                    && abs_spec(waypoints@[i].y as int) <= MAX_COORDINATE,
        ensures
            generator.valid(),
            generator.waypoints_spec() == waypoints@,
            generator.current_index_spec() == 0,
    {
        KmlWaypointGenerator { waypoints, current_waypoint: 0 }
    }
}

impl WaypointGenerator for KmlWaypointGenerator {
    proof fn valid_properties(&self) {
    }

    proof fn waypoint_in_range(&self, i: int) {
    }

    open spec fn waypoints_spec(&self) -> Seq<Point> {
        self.waypoints@
    }

    open spec fn current_index_spec(&self) -> int {
        self.current_waypoint as int
    }

    open spec fn reach_distance_spec(&self) -> int {
        REACH_DISTANCE as int
    }

    open spec fn valid(&self) -> bool {
        &&& self.current_waypoint <= self.waypoints@.len()
        &&& forall|i: int|
            0 <= i < self.waypoints@.len() ==> abs_spec(self.waypoints@[i].x as int)
                <= MAX_COORDINATE && abs_spec(self.waypoints@[i].y as int) <= MAX_COORDINATE
    }

    fn get_current_waypoint(&self, point: &Point) -> (waypoint: Option<Point>) {
        if self.current_waypoint < self.waypoints.len() {
            Some(self.waypoints[self.current_waypoint])
        } else {
            None
        }
    }

    fn get_current_raw_waypoint(&self, point: &Point) -> (waypoint: Option<Point>) {
        self.get_current_waypoint(point)
    }

    fn next(&mut self) {
        if self.current_waypoint < self.waypoints.len() {
            self.current_waypoint = self.current_waypoint + 1;
        }
    }

    fn reached(&self, point: &Point) -> (r: bool) {
        let current = match self.get_current_waypoint(point) {
            Some(current) => current,
            None => {
                return false;
            },
        };
        distance(&current, point) < REACH_DISTANCE
    }

    fn done(&self) -> (r: bool) {
        self.current_waypoint >= self.waypoints.len()
    }

    fn reach_distance(&self) -> (r: Meter) {
        REACH_DISTANCE
    }
}

/// Whether the marker `<coordinates>` starts at position `i`.
pub open spec fn tag_at(s: Seq<u8>, i: int) -> bool {
    &&& s[i] == 60
    &&& s[i + 1] == 99
    &&& s[i + 2] == 111
    &&& s[i + 3] == 111
    &&& s[i + 4] == 114
    &&& s[i + 5] == 100
    &&& s[i + 6] == 105
    &&& s[i + 7] == 110
    &&& s[i + 8] == 97
    &&& s[i + 9] == 116
    &&& s[i + 10] == 101
    &&& s[i + 11] == 115
    &&& s[i + 12] == 62
}

/// Whether the `<coordinates>` marker appears anywhere in `[lo, hi)`.
fn range_has_tag(bytes: &[u8], lo: usize, hi: usize) -> (r: bool)
    requires
        lo <= hi <= bytes@.len(),
    ensures
        r == exists|i: int| lo <= i && i + 13 <= hi && tag_at(bytes@, i),
{
    if hi - lo < 13 {
        return false;
    }
    let mut i: usize = lo;
    while i <= hi - 13
        invariant
            lo <= i,
            13 <= hi <= bytes@.len(),
            i <= hi,
            forall|k: int| lo <= k < i && k + 13 <= hi ==> !tag_at(bytes@, k),
        decreases hi - i,
    {
        if bytes[i] == 60 && bytes[i + 1] == 99 && bytes[i + 2] == 111 && bytes[i + 3] == 111
            && bytes[i + 4] == 114 && bytes[i + 5] == 100 && bytes[i + 6] == 105 && bytes[i + 7]
            == 110 && bytes[i + 8] == 97 && bytes[i + 9] == 116 && bytes[i + 10] == 101 && bytes[i
            + 11] == 115 && bytes[i + 12] == 62 {
            proof {
                assert(tag_at(bytes@, i as int));
            }
            return true;
        }
        i = i + 1;
    }
    false
}

/// Returns the waypoints line from a KML document: the first line after a
/// line holding the `<coordinates>` marker, e.g.
/// `"40.9,-105.3,0 41.1,-105.2,0"`.  The returned slice is one whole
/// newline-delimited line of the document, and the document provably
/// holds the marker.  Unzipping the KML archive and reading the document
/// are the caller's business.
pub fn extract_waypoints_line(xml_document: &str) -> (r: Option<&str>)
    ensures
        r is Some ==> exists|i: int|
            0 <= i && i + 13 <= xml_document.spec_bytes().len() && tag_at(
                xml_document.spec_bytes(),
                i,
            ),
        r is Some ==> exists|c: int, d: int|
            0 <= c <= d <= xml_document.spec_bytes().len() && r.unwrap().spec_bytes()
                == #[trigger] xml_document.spec_bytes().subrange(c, d),
{
    let bytes = xml_document.as_bytes();
    let mut pos: usize = 0;
    let mut coordinates_open_tag = false;
    while pos < bytes.len()
        invariant
            pos <= bytes@.len(),
            bytes@ == xml_document.spec_bytes(),
            coordinates_open_tag ==> exists|i: int|
                0 <= i && i + 13 <= bytes@.len() && tag_at(bytes@, i),
        decreases bytes@.len() - pos,
    {
        let line_end = find_byte_from(bytes, pos, 10);
        if range_has_tag(bytes, pos, line_end) {
            coordinates_open_tag = true;
        } else if coordinates_open_tag {
            if !xml_document.is_char_boundary(pos) {
                return None;
            }
            let tail = xml_document.split_at(pos).1;
            if !tail.is_char_boundary(line_end - pos) {
                return None;
            }
            let line = tail.split_at(line_end - pos).0;
            proof {
                assert(line.spec_bytes() =~= xml_document.spec_bytes().subrange(
                    pos as int,
                    line_end as int,
                ));
            }
            return Some(line);
        }
        if line_end >= bytes.len() {
            return None;
        }
        pos = line_end + 1;
    }
    None
}

/// Parses one `longitude,latitude[,altitude]` token into a point of the
/// local planar frame: both coordinates parse as decimal fractions, are
/// scaled from millionths to billionths of a degree, checked against the
/// valid latitude and longitude ranges, and anchored through
/// `latitude_longitude_to_point`.
pub fn parse_waypoint_token(token: &str) -> (r: Option<Point>)
    ensures
        r is Some ==> ({
            let bytes = token.spec_bytes();
            let comma = find_byte_spec(bytes, 44);
            &&& comma != -1
            &&& parse_float_spec(bytes.subrange(0, comma)) is Some
            &&& ({
                let rest = bytes.subrange(comma + 1, bytes.len() as int);
                let comma_2 = find_byte_spec(rest, 44);
                let latitude_bytes = if comma_2 == -1 {
                    rest
                } else {
                    rest.subrange(0, comma_2)
                };
                &&& parse_float_spec(latitude_bytes) is Some
                &&& ({
                    let longitude = parse_float_spec(bytes.subrange(0, comma)).unwrap() * 1000;
                    let latitude = parse_float_spec(latitude_bytes).unwrap() * 1000;
                    &&& abs_spec(latitude) <= 90_000_000_000
                    &&& abs_spec(longitude) <= 180_000_000_000
                    &&& r == Some(lat_long_point_spec(latitude, longitude))
                })
            })
        }),
        r is Some ==> abs_spec(r.unwrap().x as int) <= 60_000_000_000_000 && abs_spec(
            r.unwrap().y as int,
        ) <= 60_000_000_000_000,
{
    let bytes = token.as_bytes();
    let comma = match find_byte(bytes, 44) {
        Some(comma) => comma,
        None => {
            return None;
        },
    };
    proof {
        crate::util::lemma_find_byte(bytes@, 44);
    }
    if !token.is_char_boundary(comma) {
        return None;
    }
    let longitude_str = token.split_at(comma).0;
    let after = token.split_at(comma).1;
    if after.len() < 1 || !after.is_char_boundary(1) {
        return None;
    }
    let rest = after.split_at(1).1;
    proof {
        assert(longitude_str.spec_bytes() =~= token.spec_bytes().subrange(0, comma as int));
        assert(rest.spec_bytes() =~= token.spec_bytes().subrange(
            comma as int + 1,
            token.spec_bytes().len() as int,
        ));
    }
    let latitude_str = match find_byte(rest.as_bytes(), 44) {
        Some(comma_2) => {
            if !rest.is_char_boundary(comma_2) {
                return None;
            }
            rest.split_at(comma_2).0
        },
        None => rest,
    };
    let longitude_micro = match parse_float(longitude_str) {
        Some(v) => v,
        None => {
            return None;
        },
    };
    let latitude_micro = match parse_float(latitude_str) {
        Some(v) => v,
        None => {
            return None;
        },
    };
    let longitude = longitude_micro * 1000;
    let latitude = latitude_micro * 1000;
    if latitude < -90_000_000_000 || latitude > 90_000_000_000 {
        return None;
    }
    if longitude < -180_000_000_000 || longitude > 180_000_000_000 {
        return None;
    }
    Some(latitude_longitude_to_point(latitude, longitude))
}

/// Returns the waypoints from a waypoint formatted line, e.g.
/// `"40.9,-105.3,0 41.1,-105.2,0"`: each space-separated token is parsed
/// by `parse_waypoint_token`, and the tokens that do not parse are
/// dropped.  Every returned point lies within the geometry's coordinate
/// range.
pub fn parse_waypoints_line(line: &str) -> (r: Vec<Point>)
    ensures
        forall|i: int|
            0 <= i < r@.len() ==> abs_spec(#[trigger] r@[i].x as int) <= MAX_COORDINATE && abs_spec(
                r@[i].y as int,
            ) <= MAX_COORDINATE,
{
    let bytes = line.as_bytes();
    let mut waypoints: Vec<Point> = Vec::new();
    let mut pos: usize = 0;
    while pos < bytes.len()
        invariant
            pos <= bytes@.len(),
            bytes@ == line.spec_bytes(),
            forall|i: int|
                0 <= i < waypoints@.len() ==> abs_spec(#[trigger] waypoints@[i].x as int)
                    <= MAX_COORDINATE && abs_spec(waypoints@[i].y as int) <= MAX_COORDINATE,
        decreases bytes@.len() - pos,
    {
        let token_end = find_byte_from(bytes, pos, 32);
        if token_end > pos && line.is_char_boundary(pos) {
            let tail = line.split_at(pos).1;
            if tail.is_char_boundary(token_end - pos) {
                let token = tail.split_at(token_end - pos).0;
                match parse_waypoint_token(token) {
                    Some(point) => waypoints.push(point),
                    None => (),
                }
            }
        }
        if token_end >= bytes.len() {
            return waypoints;
        }
        pos = token_end + 1;
    }
    waypoints
}

/// Where the cursor of a fresh sequential generator stands after a number
/// of `next` calls: it follows the call count until it hits the end of
/// the list, where it stays.
pub open spec fn cursor_after_steps(steps: nat, len: nat) -> nat
    decreases steps,
{
    if steps == 0 {
        0
    } else {
        let previous = cursor_after_steps((steps - 1) as nat, len);
        if previous >= len {
            previous
        } else {
            (previous + 1) as nat
        }
    }
}

/// From a fresh generator over `len` waypoints, the generator is done
/// exactly after `len` or more `next` calls, and never before: done
/// becomes true once and is then permanent.
pub proof fn lemma_done_after_len_steps(steps: nat, len: nat)
    ensures
        cursor_after_steps(steps, len) == if steps <= len {
            steps
        } else {
            len
        },
        (cursor_after_steps(steps, len) >= len) <==> (steps >= len),
    decreases steps,
{
    if steps > 0 {
        lemma_done_after_len_steps((steps - 1) as nat, len);
    }
}

} // verus!
