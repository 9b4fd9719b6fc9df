//! Sensor geometry, trigonometry, optics and colour mapping.

use rumpus::optic::{Optic, PinholeOptic};
use rumpus::sensor::{ImageSensor, PixelCoordinate, SensorCoordinate};
use rumpus::trig::{atan2_ud, cos_ud, isqrt_u64, sin_ud};
use rumpus::utils::to_rgb;

#[test]
fn pixel_to_coord_roundtrip() {
    // 3.45 um metapixels doubled to 6.9 um, on a 1024 x 1224 grid.
    let sensor = ImageSensor::new(6_900, 1024, 1224);
    let cases: [(usize, usize); 4] = [(0, 0), (512, 612), (106, 0), (0, 292)];
    for (row, col) in cases {
        let px = PixelCoordinate::new(row, col);
        let coord = sensor.sensor_from_pixel(&px).expect("pixel is on sensor");
        let back = sensor.pixel_from_sensor(&coord).expect("coord is on sensor");
        assert_eq!(back.row(), row);
        assert_eq!(back.col(), col);
    }
}

#[test]
fn pixel_out_of_bounds() {
    let sensor = ImageSensor::new(6_900, 8, 8);
    assert!(sensor.sensor_from_pixel(&PixelCoordinate::new(8, 0)).is_none());
    // A coordinate far off the plane maps to no pixel.
    assert!(sensor.pixel_from_sensor(&SensorCoordinate::new(1_000_000_000, 0)).is_none());
}

#[test]
fn trig_exact_values() {
    assert_eq!(sin_ud(0), 0);
    assert_eq!(sin_ud(90_000_000), 1_000_000_000);
    assert_eq!(sin_ud(180_000_000), 0);
    assert_eq!(sin_ud(-90_000_000), -1_000_000_000);
    assert_eq!(cos_ud(0), 1_000_000_000);
    assert_eq!(cos_ud(90_000_000), 0);
    assert_eq!(cos_ud(180_000_000), -1_000_000_000);
    assert_eq!(atan2_ud(0, 5), 0);
    assert_eq!(atan2_ud(0, -5), 180_000_000);
    assert_eq!(atan2_ud(7, 0), 90_000_000);
    assert_eq!(atan2_ud(-7, 0), -90_000_000);
    assert_eq!(atan2_ud(1_000_000, 1_000_000), 45_000_000);
}

#[test]
fn trig_accuracy() {
    // The rational approximations stay within a hundredth of scale of
    // the usual values.
    // sin 30 deg = 0.5
    let s30 = sin_ud(30_000_000);
    assert!((s30 - 500_000_000).abs() < 5_000_000);
    // sin 60 deg ~ 0.8660
    let s60 = sin_ud(60_000_000);
    assert!((s60 - 866_025_403).abs() < 5_000_000);
    // atan2(1, 2) ~ 26.565 deg
    let a = atan2_ud(1_000_000, 2_000_000);
    assert!((a - 26_565_051).abs() < 300_000);
}

#[test]
fn isqrt_exact() {
    assert_eq!(isqrt_u64(0), 0);
    assert_eq!(isqrt_u64(1), 1);
    assert_eq!(isqrt_u64(3), 1);
    assert_eq!(isqrt_u64(4), 2);
    assert_eq!(isqrt_u64(400), 20);
    assert_eq!(isqrt_u64(18_446_744_073_709_551_615), 4_294_967_295);
}

#[test]
fn pinhole_trace_roundtrip() {
    // The pinhole round trip holds within the resolution of the
    // fixed-point trigonometry: a fraction of a percent of the radius.
    let optic = PinholeOptic::from_focal_length(8_000_000).expect("positive focal length");
    let cases: [(i64, i64); 4] = [
        (10_000_000, 0),
        (0, -10_000_000),
        (6_000_000, 8_000_000),
        (-3_000_000, 5_000_000),
    ];
    for (x, y) in cases {
        let dir = optic.trace_backward(&SensorCoordinate::new(x, y));
        assert!(dir.polar() > 90_000_000);
        let back = optic.trace_forward(&dir);
        let tol = (x.abs() + y.abs()) / 100 + 20_000;
        assert!((back.x() - x).abs() <= tol);
        assert!((back.y() - y).abs() <= tol);
    }
}

#[test]
fn pinhole_rejects_nonpositive_focal_length() {
    assert!(PinholeOptic::from_focal_length(0).is_none());
    assert!(PinholeOptic::from_focal_length(-5).is_none());
}

#[test]
fn jet_colour_map() {
    // The ends of the interval map to the reference endpoint colours.
    assert_eq!(to_rgb(0, 0, 1_000_000), Some([0, 0, 255]));
    assert_eq!(to_rgb(1_000_000, 0, 1_000_000), Some([131, 0, 0]));
    assert_eq!(to_rgb(-1, 0, 1_000_000), None);
    assert_eq!(to_rgb(1_000_001, 0, 1_000_000), None);
    // The middle of the interval is on the green plateau.
    let mid = to_rgb(500_000, 0, 1_000_000).unwrap();
    assert_eq!(mid[1], 255);
}
