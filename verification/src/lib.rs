//! Skylight polarization utilities.
//!
//! Turns raw frames from a division-of-focal-plane polarization camera into
//! an estimate of the camera's orientation relative to the sky, by comparing
//! the measured skylight polarization pattern against a Rayleigh model of
//! skylight polarization.
//!
//! All angular quantities are carried as integers in microdegrees, lengths
//! in nanometres, and degrees of polarization in parts per million, so that
//! every computation is exact integer arithmetic.

pub mod angle;
pub mod aop;
pub mod bearing;
pub mod dop;
pub mod error;
pub mod estimator;
pub mod filter;
pub mod hough;
pub mod image;
pub mod model;
pub mod optic;
pub mod ray;
pub mod rotation;
pub mod sensor;
pub mod simulation;
pub mod stokes;
pub mod trig;
pub mod utils;
