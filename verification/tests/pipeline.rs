//! The full pipeline: demosaicing, ray images, the sky model and the
//! orientation estimators.

use rumpus::bearing::Bearing;
use rumpus::error::Error;
use rumpus::estimator::{GridSearch, Matcher, PatternMatch, Searcher, StochasticSearch, VecSearch};
use rumpus::hough::Accumulator;
use rumpus::image::{IntensityImage, RayImage};
use rumpus::model::SkyModel;
use rumpus::optic::{Camera, PinholeOptic};
use rumpus::rotation::Orientation;
use rumpus::sensor::ImageSensor;

#[test]
fn demosaic_first_ray() {
    // One 2-by-2 mosaic cell: 135 and 90 degrees over 45 and 0 degrees.
    // The Stokes vector is (90, -20, 0), so the angle is exactly a
    // quarter turn and the degree is 20 / 90 = 0.2222.
    let bytes: [u8; 4] = [30, 20, 30, 10];
    let image = IntensityImage::from_bytes(2, 2, &bytes).expect("even dimensions");
    assert_eq!(image.width(), 1);
    assert_eq!(image.height(), 1);
    let rays = image.rays(6_900).expect("derivable metapixel");
    assert_eq!(rays.len(), 1);
    assert_eq!(rays[0].aop().into_inner(), 90_000_000);
    assert_eq!(rays[0].dop().into_inner(), 222_222);
}

#[test]
fn demosaic_layout() {
    // A 4x2 frame holds two metapixels side by side; the second one is
    // fully dark except its 0-degree sample, landing at three quarters
    // of the total intensity ratio... the polarized magnitude equals
    // the doubled difference, so the degree saturates above one and the
    // derivation reports it rather than clamping.
    let bytes: [u8; 8] = [
        10, 10, 0, 0,  // row 0: cell0 (135, 90), cell1 (135, 90)
        10, 10, 0, 8,  // row 1: cell0 (45, 0), cell1 (45, 0)
    ];
    let image = IntensityImage::from_bytes(4, 2, &bytes).expect("even dimensions");
    assert_eq!(image.width(), 2);
    assert_eq!(image.height(), 1);
    match image.rays(6_900) {
        Err(Error::DegreeOutOfBounds { degree_ppm }) => {
            assert_eq!(degree_ppm, 2_000_000);
        }
        other => panic!("expected a degree out of bounds, got {:?}", other.is_ok()),
    }
}

#[test]
fn demosaic_rejects_odd_dimensions() {
    let bytes: [u8; 6] = [0, 0, 0, 0, 0, 0];
    assert_eq!(
        IntensityImage::from_bytes(3, 2, &bytes).err(),
        Some(Error::OddImageDimensions { width: 3, height: 2 })
    );
    let bytes2: [u8; 2] = [0, 0];
    assert_eq!(
        IntensityImage::from_bytes(2, 1, &bytes2).err(),
        Some(Error::OddImageDimensions { width: 2, height: 1 })
    );
}

#[test]
fn ray_image_detects_collisions() {
    // Two rays whose positions round to the same pixel must be
    // reported, never silently overwritten.
    let sensor = ImageSensor::new(6_900, 4, 4);
    let bytes: [u8; 4] = [30, 20, 30, 10];
    let cell = IntensityImage::from_bytes(2, 2, &bytes).unwrap();
    let ray = cell.rays(6_900).unwrap()[0];
    let rays = vec![ray, ray];
    match RayImage::from_rays_with_sensor(&rays, &sensor) {
        Err(Error::AmbiguousRay { row, col }) => {
            // The single metapixel of a 1x1 image sits at the optical
            // centre, which rounds to pixel (2, 2) of a 4x4 sensor.
            assert_eq!((row, col), (2, 2));
        }
        _ => panic!("expected an ambiguous ray"),
    }
}

#[test]
fn ray_image_detects_out_of_bounds() {
    // A tiny sensor cannot hold a ray measured far from its centre.
    let sensor = ImageSensor::new(10, 2, 2);
    let bytes: [u8; 4] = [30, 20, 30, 10];
    let big = IntensityImage::from_bytes(2, 2, &bytes).unwrap();
    let mut ray = big.rays(1_000_000_000).unwrap()[0];
    // Move the ray off the tiny sensor by rebuilding it elsewhere.
    ray = rumpus::ray::Ray::new(
        rumpus::sensor::SensorCoordinate::new(1_000_000, 1_000_000),
        *ray.aop(),
        *ray.dop(),
    );
    assert_eq!(
        RayImage::from_rays_with_sensor(&vec![ray], &sensor).err(),
        Some(Error::OutOfBoundsRay)
    );
}

#[test]
fn ray_image_places_rays() {
    let sensor = ImageSensor::new(6_900, 4, 4);
    let bytes: [u8; 4] = [30, 20, 30, 10];
    let cell = IntensityImage::from_bytes(2, 2, &bytes).unwrap();
    let ray = cell.rays(6_900).unwrap()[0];
    let image = RayImage::from_rays_with_sensor(&vec![ray], &sensor).expect("one ray, one pixel");
    assert_eq!(image.rows(), 4);
    assert_eq!(image.cols(), 4);
    let hit = image.ray(2, 2).expect("the ray landed at the centre");
    assert_eq!(hit.aop().into_inner(), 90_000_000);
    assert!(image.ray(0, 0).is_none());
    assert!(image.ray(5, 5).is_none());
}

#[test]
fn sky_model_orthogonal_on_meridian() {
    // Along the solar meridian the angle of polarization is exactly
    // orthogonal, at every elevation and solar elevation tested.
    let solar = Bearing::from_angles(0, 45_000_000).unwrap();
    let model = SkyModel::from_solar_bearing(solar);
    for elevation in [0i64, 10_000_000, 30_000_000, 60_000_000, 89_000_000] {
        let on = Bearing::from_angles(0, elevation).unwrap();
        let anti = Bearing::from_angles(180_000_000, elevation).unwrap();
        let aop_on = model.aop(&on).expect("above horizon").into_inner();
        let aop_anti = model.aop(&anti).expect("above horizon").into_inner();
        assert_eq!(aop_on.abs(), 90_000_000);
        assert_eq!(aop_anti.abs(), 90_000_000);
    }
}

#[test]
fn sky_model_below_horizon() {
    let solar = Bearing::from_angles(0, 45_000_000).unwrap();
    let model = SkyModel::from_solar_bearing(solar);
    let below = Bearing::from_angles(20_000_000, -1_000_000).unwrap();
    assert!(model.aop(&below).is_none());
    assert!(model.dop(&below).is_none());
}

#[test]
fn sky_model_dop_at_right_scattering_angle() {
    // Ninety degrees from the sun the scattering cosine vanishes
    // exactly, and the predicted degree of polarization is exactly one.
    let solar = Bearing::from_angles(0, 45_000_000).unwrap();
    let model = SkyModel::from_solar_bearing(solar);
    let anti = Bearing::from_angles(180_000_000, 45_000_000).unwrap();
    assert_eq!(model.dop(&anti).unwrap().into_inner(), 1_000_000);
}

fn test_camera() -> Camera<PinholeOptic> {
    let optic = PinholeOptic::from_focal_length(2_000_000).unwrap();
    let sensor = ImageSensor::new(690_000, 8, 8);
    Camera::new(optic, sensor)
}

fn test_model() -> SkyModel {
    let solar = Bearing::from_angles(170_000_000, 40_000_000).unwrap();
    SkyModel::from_solar_bearing(solar)
}

#[test]
fn estimator_recovers_ground_truth() {
    // Simulate the sky at a known orientation, carry the image into
    // the sensor frame, and let the estimator search a candidate set
    // containing the truth: the truth scores a loss of zero.
    let camera = test_camera();
    let model = test_model();
    let truth = Orientation::new(0, 0, 30_000_000);
    let sim = rumpus::simulation::Simulation::new(camera, &truth, model);
    let zenith = sim.zenith_coord().expect("camera looks up");
    let measured = sim.ray_image().into_sensor_frame(&zenith);

    let pm = PatternMatch::new(camera, model, 10);
    let candidates = vec![
        Orientation::new(0, 0, -40_000_000),
        truth,
        Orientation::new(0, 0, 75_000_000),
    ];
    let estimate = pm.estimate_candidates(&measured, &candidates).expect("scoreable candidates");
    assert_eq!(estimate.loss, 0);
    assert!(estimate.orientation == truth);
}

#[test]
fn estimator_empty_candidates() {
    let camera = test_camera();
    let model = test_model();
    let pm = PatternMatch::new(camera, model, 10);
    let empty: RayImage<rumpus::ray::SensorFrame> = RayImage::new();
    // An empty candidate list can score nothing.
    let sim = rumpus::simulation::Simulation::new(camera, &Orientation::aligned(), model);
    let zenith = sim.zenith_coord().unwrap();
    let measured = sim.ray_image().into_sensor_frame(&zenith);
    assert_eq!(
        pm.estimate_candidates(&measured, &vec![]).err(),
        Some(Error::EmptyRange)
    );
    drop(empty);
}

#[test]
fn estimator_determinism_with_seed() {
    // One seed, one candidate stream: repeated runs return identical
    // estimates.
    let camera = test_camera();
    let model = test_model();
    let truth = Orientation::new(0, 0, 20_000_000);
    let sim = rumpus::simulation::Simulation::new(camera, &truth, model);
    let zenith = sim.zenith_coord().unwrap();
    let measured = sim.ray_image().into_sensor_frame(&zenith);
    let pm = PatternMatch::new(camera, model, 8);

    let low = Orientation::new(-1_000_000, -1_000_000, 0);
    let high = Orientation::new(1_000_000, 1_000_000, 360_000_000);
    let mut s1 = StochasticSearch::try_new(low, high, 42).unwrap();
    let mut s2 = StochasticSearch::try_new(low, high, 42).unwrap();
    let c1 = s1.candidates(8);
    let c2 = s2.candidates(8);
    assert_eq!(c1.len(), 8);
    assert_eq!(c2.len(), 8);
    for c in c1.iter() {
        assert!(0 <= c.yaw() && c.yaw() < 360_000_000);
        assert!(-1_000_000 <= c.roll() && c.roll() < 1_000_000);
    }
    for (a, b) in c1.iter().zip(c2.iter()) {
        assert!(a == b);
    }
    let e1 = pm.estimate(&measured, &mut StochasticSearch::try_new(low, high, 42).unwrap());
    let e2 = pm.estimate(&measured, &mut StochasticSearch::try_new(low, high, 42).unwrap());
    assert_eq!(e1.is_ok(), e2.is_ok());
    if let (Ok(a), Ok(b)) = (e1, e2) {
        assert!(a == b);
    }
}

#[test]
fn stochastic_search_rejects_empty_range() {
    let low = Orientation::new(0, 0, 0);
    let high = Orientation::new(0, 1_000_000, 360_000_000);
    assert_eq!(
        StochasticSearch::try_new(low, high, 1).err(),
        Some(Error::EmptyRange)
    );
}

#[test]
fn vec_search_yields_its_list() {
    let list = vec![Orientation::new(1, 2, 3), Orientation::new(4, 5, 6)];
    let mut search = VecSearch::new(list);
    let got = search.candidates(5);
    assert_eq!(got.len(), 2);
    assert!(got[0] == Orientation::new(1, 2, 3));
    let capped = search.candidates(1);
    assert_eq!(capped.len(), 1);
}

#[test]
fn grid_search_sweeps_the_box() {
    let low = Orientation::new(0, 0, 0);
    let high = Orientation::new(0, 0, 20_000_000);
    let mut grid = GridSearch::try_new(low, high, 10_000_000).unwrap();
    let cands = grid.candidates(100);
    assert_eq!(cands.len(), 3);
    assert!(cands[0] == Orientation::new(0, 0, 0));
    assert!(cands[1] == Orientation::new(0, 0, 10_000_000));
    assert!(cands[2] == Orientation::new(0, 0, 20_000_000));
    let capped = grid.candidates(2);
    assert_eq!(capped.len(), 2);
    assert!(GridSearch::try_new(high, low, 10_000_000).is_err());
    assert!(GridSearch::try_new(low, high, 0).is_err());
}

#[test]
fn matcher_converges_at_truth() {
    // Starting the refinement at the truth, the first iteration finds
    // no better neighbour and converges with zero loss.
    let camera = test_camera();
    let model = test_model();
    let truth = Orientation::new(0, 0, 30_000_000);
    let sim = rumpus::simulation::Simulation::new(camera, &truth, model);
    let zenith = sim.zenith_coord().unwrap();
    let measured = sim.ray_image().into_sensor_frame(&zenith);
    let matcher = Matcher::new(camera, model, 5_000_000, 0, 4);
    let refined = matcher.orientation_of(&measured, &truth).expect("converges at the truth");
    assert_eq!(refined.loss, 0);
}

#[test]
fn matcher_fails_on_unscoreable_start() {
    // A camera pitched upside down never sees the zenith, so the start
    // cannot be scored and the refinement reports it at once.
    let camera = test_camera();
    let model = test_model();
    let truth = Orientation::new(0, 0, 30_000_000);
    let sim = rumpus::simulation::Simulation::new(camera, &truth, model);
    let zenith = sim.zenith_coord().unwrap();
    let measured = sim.ray_image().into_sensor_frame(&zenith);
    let matcher = Matcher::new(camera, model, 5_000_000, 0, 4);
    let flipped = Orientation::new(0, 180_000_000, 0);
    match matcher.orientation_of(&measured, &flipped) {
        Err(Error::FailedToConverge { iterations, threshold_sq_ud, achieved_sq_ud }) => {
            assert_eq!(iterations, 0);
            assert_eq!(threshold_sq_ud, 0);
            assert_eq!(achieved_sq_ud, u64::MAX);
        }
        other => panic!("expected an immediate convergence failure, got ok: {}", other.is_ok()),
    }
}

#[test]
fn accumulator_votes_and_winner() {
    let mut acc = Accumulator::new(1_000_000, -90_000_000, 90_000_000);
    // Three votes into the bin starting at 5e6, one elsewhere.
    acc.vote(5_200_000);
    acc.vote(5_900_000);
    acc.vote(5_000_000);
    acc.vote(-30_000_000);
    // A vote outside the covered range is discarded.
    acc.vote(95_000_000);
    assert_eq!(acc.winner(), Some(5_000_000));
    assert_eq!(acc.into_winner(), Some(5_000_000));
}
