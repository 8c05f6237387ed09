//! The sequential waypoint generator and the KML line parsing.

use control_rust::kml_waypoint_generator::{
    extract_waypoints_line, parse_waypoints_line, KmlWaypointGenerator,
};
use control_rust::telemetry::Point;
use control_rust::waypoint_generator::WaypointGenerator;

#[test]
fn test_get_current_waypoint() {
    let first = Point { x: 1_000_000, y: 1_000_000 };
    let other = Point { x: 200_000_000, y: 200_000_000 };
    let waypoint_generator = KmlWaypointGenerator::new_from_waypoints(vec![first, other]);
    let current = waypoint_generator
        .get_current_waypoint(&other)
        .expect("This should never be reached");
    assert!(current.x == first.x);
    assert!(current.y == first.y);
}

#[test]
fn test_get_current_raw_waypoint() {
    // For KML, this is identical to get_current_waypoint.
    let first = Point { x: 1_000_000, y: 1_000_000 };
    let other = Point { x: 200_000_000, y: 200_000_000 };
    let waypoint_generator = KmlWaypointGenerator::new_from_waypoints(vec![first, other]);
    let current = waypoint_generator
        .get_current_raw_waypoint(&other)
        .expect("This should never be reached");
    assert!(current.x == first.x);
    assert!(current.y == first.y);
}

#[test]
fn test_next() {
    let first = Point { x: 1_000_000, y: 1_000_000 };
    let second = Point { x: 2_000_000, y: 2_000_000 };
    let other = Point { x: 200_000_000, y: 200_000_000 };
    let mut waypoint_generator = KmlWaypointGenerator::new_from_waypoints(vec![first, second]);

    let current = waypoint_generator
        .get_current_waypoint(&other)
        .expect("This should never be reached");
    assert!(current.x == first.x);
    assert!(current.y == first.y);

    waypoint_generator.next();
    let current = waypoint_generator
        .get_current_waypoint(&other)
        .expect("This should never be reached");
    assert!(current.x == second.x);
    assert!(current.y == second.y);

    for _ in 0..3 {
        waypoint_generator.next();
        assert!(waypoint_generator.get_current_waypoint(&other).is_none());
    }
}

#[test]
fn test_reached() {
    let first = Point { x: 1_000_000, y: 1_000_000 };
    let other = Point { x: 200_000_000, y: 200_000_000 };
    let waypoint_generator = KmlWaypointGenerator::new_from_waypoints(vec![first, other]);
    assert!(waypoint_generator.get_current_waypoint(&other).is_some());

    let mut current = first;

    // Exactly on the point.
    assert!(waypoint_generator.reached(&current));

    // Within the reach distance of the point.
    let nearly = waypoint_generator.reach_distance() * 999 / 1000;
    current.x += nearly;
    assert!(waypoint_generator.reached(&current));
    current.x = first.x;
    current.y += nearly;
    assert!(waypoint_generator.reached(&current));

    // Outside.
    current.x += nearly;
    assert!(!waypoint_generator.reached(&current));
    current.x += 1_000_000_000;
    current.y += 1_000_000_000;
    assert!(!waypoint_generator.reached(&current));
    current.x -= 5_000_000_000;
    current.y -= 5_000_000_000;
    assert!(!waypoint_generator.reached(&current));
}

#[test]
fn test_done() {
    let first = Point { x: 1_000_000, y: 1_000_000 };
    let mut waypoint_generator = KmlWaypointGenerator::new_from_waypoints(vec![first]);
    assert!(!waypoint_generator.done());
    for _ in 0..3 {
        waypoint_generator.next();
        assert!(waypoint_generator.done());
    }
}

/// done stays false until exactly as many advances as waypoints, then
/// turns true and never reverts.
#[test]
fn test_done_after_each_advance() {
    let waypoints: Vec<Point> = (0..5)
        .map(|i| Point { x: i * 1_000_000, y: i * 1_000_000 })
        .collect();
    let count = waypoints.len();
    let mut generator = KmlWaypointGenerator::new_from_waypoints(waypoints);
    for _ in 0..count {
        assert!(!generator.done());
        generator.next();
    }
    for _ in 0..3 {
        assert!(generator.done());
        generator.next();
    }
}

#[test]
fn test_extract_waypoints_line() {
    let xml_template = r#"<?xml version="1.0" encoding="UTF-8"?>
<kml xmlns="http://www.opengis.net/kml/2.2" xmlns:gx="http://www.google.com/kml/ext/2.2" xmlns:kml="http://www.opengis.net/kml/2.2" xmlns:atom="http://www.w3.org/2005/Atom">
<Document>
	<name>rally-1-loop.kmz</name>
	<Style id="s_ylw-pushpin_hl">
		<IconStyle>
			<scale>1.3</scale>
			<Icon>
				<href>http://maps.google.com/mapfiles/kml/pushpin/ylw-pushpin.png</href>
			</Icon>
			<hotSpot x="20" y="2" xunits="pixels" yunits="pixels"/>
		</IconStyle>
	</Style>
	<Placemark>
		<name>Rally 1 loop</name>
		<styleUrl>#m_ylw-pushpin</styleUrl>
		<LineString>
			<tessellate>1</tessellate>
			<coordinates>
                {}
			</coordinates>
		</LineString>
	</Placemark>
</Document>
</kml>
"#;
    let coordinates_line = "1,-5,0 -3,10,0";
    let xml_string = xml_template.replace("{}", coordinates_line);
    let line = extract_waypoints_line(&xml_string).expect("No waypoints line found");
    assert!(line.trim() == coordinates_line);
}

#[test]
fn test_parse_waypoints_line() {
    // Two waypoints around the anchor coordinate: both parse, both land
    // within centimeters of where the anchor maps.
    let line = "-105.1872092,40.0941804,0 -105.1882092,40.0941804,0";
    let points = parse_waypoints_line(line);
    assert_eq!(points.len(), 2);
    assert!(points[0].x.abs() < 100_000 && points[0].y.abs() < 100_000);
    // The second waypoint is a thousandth of a degree west: about 85
    // meters of -x.
    assert!((points[1].x + 85_000_000).abs() < 1_000_000);
    // A malformed token is dropped.
    let points = parse_waypoints_line("junk,more 1.0,2.0,0");
    assert_eq!(points.len(), 1);
}
