use drone_convoy::geo::{GeoBounds, GeoPos, Geofence};

#[test]
fn test_distance_calculation() {
    // Kabul to Kandahar, approximately 450 km.
    let kabul = GeoPos::new(34_555_300, 69_207_500, 0);
    let kandahar = GeoPos::new(31_613_300, 65_710_100, 0);

    let distance = kabul.distance_m(&kandahar);
    assert!(distance > 400_000 && distance < 500_000);
}

#[test]
fn test_distance_symmetric_and_zero() {
    let a = GeoPos::new(34_555_300, 69_207_500, 0);
    let b = GeoPos::new(31_613_300, 65_710_100, 0);

    assert_eq!(a.distance_m(&b), b.distance_m(&a));
    assert_eq!(a.distance_m(&a), 0);
    assert_eq!(b.distance_m(&b), 0);
}

#[test]
fn test_bearing_calculation() {
    let origin = GeoPos::new(0, 0, 0);
    let north = GeoPos::new(1_000_000, 0, 0);
    let east = GeoPos::new(0, 1_000_000, 0);

    let bearing_north = origin.bearing_mdeg(&north);
    let bearing_east = origin.bearing_mdeg(&east);

    // Within one degree of due north and due east.
    assert!(bearing_north < 1_000 || bearing_north > 359_000);
    assert!(bearing_east > 89_000 && bearing_east < 91_000);
}

#[test]
fn test_interpolation() {
    let start = GeoPos::new(0, 0, 0);
    let end = GeoPos::new(10_000_000, 10_000_000, 1_000_000);

    let mid = start.interpolate(&end, 500);
    assert_eq!(mid.lat_udeg, 5_000_000);
    assert_eq!(mid.lng_udeg, 5_000_000);
    assert_eq!(mid.alt_mm, 500_000);

    let clamped = start.interpolate(&end, 5000);
    assert_eq!(clamped.lat_udeg, 10_000_000);

    let zero = start.interpolate(&end, 0);
    assert_eq!(zero.lat_udeg, 0);
}

#[test]
fn test_geo_bounds_contains() {
    let bounds = GeoBounds::new(30_000_000, 40_000_000, 60_000_000, 70_000_000);

    let inside = GeoPos::new(35_000_000, 65_000_000, 0);
    let outside = GeoPos::new(45_000_000, 75_000_000, 0);

    assert!(bounds.contains(&inside));
    assert!(!bounds.contains(&outside));
}

#[test]
fn test_geo_bounds_center() {
    let bounds = GeoBounds::new(30_000_000, 40_000_000, 60_000_000, 70_000_000);
    let center = bounds.center();
    assert_eq!(center.lat_udeg, 35_000_000);
    assert_eq!(center.lng_udeg, 65_000_000);
}

#[test]
fn test_position_validity() {
    let valid = GeoPos::new(45_000_000, 90_000_000, 1_000_000);
    let invalid_lat = GeoPos::new(100_000_000, 0, 0);
    let invalid_lng = GeoPos::new(0, 200_000_000, 0);

    assert!(valid.is_valid());
    assert!(!invalid_lat.is_valid());
    assert!(!invalid_lng.is_valid());
}

#[test]
fn test_geofence_contains() {
    // A square fence around (35, 65).
    let fence = Geofence::new(
        "test-zone",
        vec![
            GeoPos::new(34_000_000, 64_000_000, 0),
            GeoPos::new(36_000_000, 64_000_000, 0),
            GeoPos::new(36_000_000, 66_000_000, 0),
            GeoPos::new(34_000_000, 66_000_000, 0),
        ],
    );

    assert!(fence.contains(&GeoPos::new(35_000_000, 65_000_000, 0)));
    assert!(!fence.contains(&GeoPos::new(37_000_000, 65_000_000, 0)));
    assert!(!fence.contains(&GeoPos::new(35_000_000, 67_000_000, 0)));
}

#[test]
fn test_geofence_too_few_vertices() {
    let fence = Geofence::new(
        "degenerate",
        vec![
            GeoPos::new(34_000_000, 64_000_000, 0),
            GeoPos::new(36_000_000, 64_000_000, 0),
        ],
    );
    assert!(!fence.contains(&GeoPos::new(35_000_000, 64_000_000, 0)));
}

#[test]
fn test_geofence_altitude_ceiling() {
    let mut fence = Geofence::new(
        "capped",
        vec![
            GeoPos::new(34_000_000, 64_000_000, 0),
            GeoPos::new(36_000_000, 64_000_000, 0),
            GeoPos::new(36_000_000, 66_000_000, 0),
            GeoPos::new(34_000_000, 66_000_000, 0),
        ],
    );
    fence.max_altitude_mm = Some(1_000_000);
    assert!(fence.contains(&GeoPos::new(35_000_000, 65_000_000, 500_000)));
    assert!(!fence.contains(&GeoPos::new(35_000_000, 65_000_000, 2_000_000)));
}

#[test]
fn test_geo_bounds_from_center() {
    let center = GeoPos::new(34_555_300, 69_207_500, 0);
    let bounds = GeoBounds::from_center(&center, 10_000);
    // Ten kilometres is about 0.09 degrees of latitude.
    assert_eq!(bounds.max_lat_udeg - center.lat_udeg, 10_000 * 1000 / 111);
    assert!(bounds.contains(&center));
    // The longitude half-width is wider than the latitude half-width.
    assert!(bounds.max_lng_udeg - center.lng_udeg >= bounds.max_lat_udeg - center.lat_udeg);
}

#[test]
fn test_destination() {
    let kabul = GeoPos::new(34_555_300, 69_207_500, 3_000_000);

    // One hundred kilometres due north: latitude rises by about 0.9
    // degrees, longitude holds, altitude is kept.
    let north = kabul.destination(100_000, 0);
    assert!((north.lat_udeg - 35_454_620).abs() < 1_000);
    assert_eq!(north.lng_udeg, 69_207_500);
    assert_eq!(north.alt_mm, 3_000_000);

    // One hundred kilometres due east: longitude rises, latitude nearly
    // holds.
    let east = kabul.destination(100_000, 90_000);
    assert!((east.lng_udeg - 70_299_424).abs() < 2_000);
    assert!((east.lat_udeg - 34_555_300).abs() < 10_000);

    // The round trip out and back lands near the start.
    let back = north.destination(100_000, 180_000);
    assert!((back.lat_udeg - kabul.lat_udeg).abs() < 5_000);
    assert!((back.lng_udeg - kabul.lng_udeg).abs() < 5_000);
}
