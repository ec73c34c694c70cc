use ebird_loader::wkt_point::{make_wkt_point, parse_wkt_point};

#[test]
fn point_parses() {
    let (lon, lat) = parse_wkt_point("POINT(-122.4 37.8)").unwrap();
    assert_eq!(lon, "-122.4");
    assert_eq!(lat, "37.8");
}

#[test]
fn point_with_spaces_parses() {
    let (lon, lat) = parse_wkt_point("POINT ( -122.4   37.8 )").unwrap();
    assert_eq!(lon, "-122.4");
    assert_eq!(lat, "37.8");
}

#[test]
fn two_points_rejected() {
    assert!(parse_wkt_point("MULTIPOINT(-122.4 37.8, -122.5 37.9)").is_none());
    assert!(parse_wkt_point("GEOMETRYCOLLECTION(POINT(1 2), POINT(3 4))").is_none());
    assert!(parse_wkt_point("POINT(1 2) POINT(3 4)").is_none());
}

#[test]
fn line_and_polygon_rejected() {
    assert!(parse_wkt_point("LINESTRING(0 0, 1 1)").is_none());
    assert!(parse_wkt_point("POLYGON((0 0, 1 0, 1 1, 0 0))").is_none());
}

#[test]
fn malformed_points_rejected() {
    assert!(parse_wkt_point("POINT()").is_none());
    assert!(parse_wkt_point("POINT(1)").is_none());
    assert!(parse_wkt_point("POINT(1 2 3)").is_none());
    assert!(parse_wkt_point("POINT(a b)").is_none());
    assert!(parse_wkt_point("POINT(1 2").is_none());
    assert!(parse_wkt_point("").is_none());
}

#[test]
fn point_round_trip() {
    let text = make_wkt_point("-122.4", "37.8");
    assert_eq!(text, "POINT(-122.4 37.8)");
    let (lon, lat) = parse_wkt_point(&text).unwrap();
    assert_eq!(lon, "-122.4");
    assert_eq!(lat, "37.8");
}
