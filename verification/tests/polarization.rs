//! Polarization primitives: angles, degrees and frame transforms.

use rumpus::aop::Aop;
use rumpus::dop::Dop;
use rumpus::error::Error;
use rumpus::ray::{GlobalFrame, Ray, SensorFrame};
use rumpus::filter::{AopFilter, DopFilter, RayFilter, RayPredicate};
use rumpus::sensor::SensorCoordinate;

#[test]
fn aop_wrap_equality() {
    // A quarter turn and its negation denote the same physical angle.
    let pos = Aop::<GlobalFrame>::from_angle_wrapped(90_000_000);
    let neg = Aop::<GlobalFrame>::from_angle_wrapped(-90_000_000);
    assert!(pos == neg);
}

#[test]
fn aop_from_wrapped_huge() {
    // Wrapping succeeds on angles far outside the range.
    let a = Aop::<GlobalFrame>::from_angle_wrapped(123_456_789_012);
    let b = Aop::<GlobalFrame>::from_angle_wrapped(123_456_789_012 - 5 * 180_000_000);
    assert!(a == b);
}

#[test]
fn invalid_aop() {
    assert!(Aop::<GlobalFrame>::from_angle(180_000_000).is_err());
    assert!(Aop::<GlobalFrame>::from_angle(91_000_000).is_err());
    assert_eq!(
        Aop::<GlobalFrame>::from_angle(180_000_000),
        Err(Error::AngleOutOfBounds { angle_ud: 180_000_000 })
    );
}

#[test]
fn add_aop() {
    let lhs = Aop::<GlobalFrame>::from_angle(90_000_000).unwrap();
    let rhs = Aop::<GlobalFrame>::from_angle(-89_000_000).unwrap();
    let sum = Aop::<GlobalFrame>::from_angle(1_000_000).unwrap();
    assert!(lhs.add(rhs) == sum);
}

#[test]
fn sub_aop() {
    let cases: [(i64, i64, i64); 3] = [
        (-90_000_000, 89_000_000, 1_000_000),
        (-90_000_000, 90_000_000, 0),
        (-90_000_000, -90_000_000, 0),
    ];
    for (lhs, rhs, dif) in cases {
        let l = Aop::<GlobalFrame>::from_angle(lhs).unwrap();
        let r = Aop::<GlobalFrame>::from_angle(rhs).unwrap();
        let d = Aop::<GlobalFrame>::from_angle(dif).unwrap();
        assert!(l.sub(r) == d);
    }
}

#[test]
fn threshold_aop() {
    let cases: [(i64, i64, i64, bool); 6] = [
        (90_000_000, 89_900_000, 100_000, true),
        (90_000_000, -90_000_000, 100_000, true),
        (90_000_000, -89_900_000, 100_000, true),
        (90_000_000, 89_890_000, 100_000, false),
        (90_000_000, 45_000_000, 100_000, false),
        (90_000_000, -89_890_000, 100_000, false),
    ];
    for (center, case, thres, expected) in cases {
        let c = Aop::<GlobalFrame>::from_angle(center).unwrap();
        let x = Aop::<GlobalFrame>::from_angle(case).unwrap();
        assert_eq!(c.in_thres(&x, thres), expected);
    }
}

#[test]
fn dop_rejects_out_of_range() {
    assert_eq!(
        Dop::new(-1_000_000),
        Err(Error::DegreeOutOfBounds { degree_ppm: -1_000_000 })
    );
    assert_eq!(
        Dop::new(1_000_001),
        Err(Error::DegreeOutOfBounds { degree_ppm: 1_000_001 })
    );
    assert_eq!(Dop::new(500_000).unwrap().into_inner(), 500_000);
}

#[test]
fn dop_clamping() {
    assert_eq!(Dop::clamped(-5).into_inner(), 0);
    assert_eq!(Dop::clamped(2_000_000).into_inner(), 1_000_000);
    assert_eq!(Dop::clamped(123).into_inner(), 123);
    let d = Dop::new(800_000).unwrap();
    assert_eq!(d.clamp(500_000).into_inner(), 500_000);
    assert_eq!(d.add(d).into_inner(), 1_000_000);
    assert_eq!(d.sub(Dop::new(900_000).unwrap()).into_inner(), 0);
    assert_eq!(d.scale(500_000).into_inner(), 400_000);
}

#[test]
fn dop_filter() {
    let min: i64 = 650_000;
    let filt = DopFilter::new(Dop::new(min).unwrap());
    let degrees: [i64; 5] = [0, 649_999, 650_000, 650_001, 1_000_000];
    for degree in degrees {
        let ray = Ray::<SensorFrame>::new(
            SensorCoordinate::new(0, 0),
            Aop::from_angle(10_000_000).unwrap(),
            Dop::new(degree).unwrap(),
        );
        assert_eq!(min <= ray.dop().into_inner(), filt.eval(&ray));
    }
}

#[test]
fn aop_filter() {
    let center = Aop::<SensorFrame>::from_angle(90_000_000).unwrap();
    let filt = AopFilter::new(center, 100_000);
    let near = Ray::<SensorFrame>::new(
        SensorCoordinate::new(0, 0),
        Aop::from_angle(-89_950_000).unwrap(),
        Dop::new(0).unwrap(),
    );
    let far = Ray::<SensorFrame>::new(
        SensorCoordinate::new(0, 0),
        Aop::from_angle(45_000_000).unwrap(),
        Dop::new(0).unwrap(),
    );
    assert!(filt.eval(&near));
    assert!(!filt.eval(&far));
    let kept = RayFilter::new(filt).filter(&vec![near, far, near]);
    assert_eq!(kept.len(), 2);
}

#[test]
fn frame_reversible() {
    // Carrying a ray to the global frame and back preserves its angle.
    let zenith = SensorCoordinate::new(4_000_000, -2_000_000);
    let coord = SensorCoordinate::new(13_800_000, 6_900_000);
    let angle = Aop::<SensorFrame>::from_angle(37_250_000).unwrap();
    let degree = Dop::new(250_000).unwrap();
    let ray = Ray::new(coord, angle, degree);
    let back = ray.into_global_frame(&zenith).into_sensor_frame(&zenith);
    assert!(*back.aop() == angle);
    assert_eq!(back.dop().into_inner(), 250_000);
    assert_eq!(back.coord().x(), 13_800_000);
    assert_eq!(back.coord().y(), 6_900_000);
}
