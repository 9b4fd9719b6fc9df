//! Sensor geometry: mapping pixel indices to physical positions on the
//! sensor plane and back.
//!
//! Positions on the sensor plane are carried in half-nanometres. With the
//! origin at the optical centre, the centre of a pixel sits at
//! `pitch * (2 * index - (extent - 1))` half-nanometres along each axis,
//! an exact integer for any whole-nanometre pitch, so the pixel-to-plane
//! mapping loses nothing and the round trip back to pixel indices is
//! exact.

use vstd::arithmetic::div_mod::lemma_fundamental_div_mod;
use vstd::prelude::*;

verus! {

/// A physical position on the sensor plane, in half-nanometres, with the
/// origin at the optical centre.
///
/// `x` grows along columns, `y` along rows.
#[derive(Clone, Copy, Debug, PartialEq, Eq, Structural)]
pub struct SensorCoordinate {
    x_hnm: i64,
    y_hnm: i64,
}

impl SensorCoordinate {
    /// The position along the column axis, in half-nanometres.
    pub closed spec fn x_spec(&self) -> int {
        self.x_hnm as int
    }

    /// The position along the row axis, in half-nanometres.
    pub closed spec fn y_spec(&self) -> int {
        self.y_hnm as int
    }

    /// Creates a position from its two components in half-nanometres.
    pub fn new(x_hnm: i64, y_hnm: i64) -> (r: Self)
        ensures
            r.x_spec() == x_hnm,
            r.y_spec() == y_hnm,
    {
        Self { x_hnm, y_hnm }
    }

    /// The position along the column axis, in half-nanometres.
    pub fn x(&self) -> (r: i64)
        ensures
            r == self.x_spec(),
    {
        self.x_hnm
    }

    /// The position along the row axis, in half-nanometres.
    pub fn y(&self) -> (r: i64)
        ensures
            r == self.y_spec(),
    {
        self.y_hnm
    }
}

/// A pixel index pair, valid only within an `ImageSensor`'s extents.
#[derive(Clone, Copy, Debug, PartialEq, Eq, Structural)]
pub struct PixelCoordinate {
    row: usize,
    col: usize,
}

impl PixelCoordinate {
    /// The row index.
    pub closed spec fn row_spec(&self) -> int {
        self.row as int
    }

    /// The column index.
    pub closed spec fn col_spec(&self) -> int {
        self.col as int
    }

    /// Creates a pixel index pair.
    pub fn new(row: usize, col: usize) -> (r: Self)
        ensures
            r.row_spec() == row,
            r.col_spec() == col,
    {
        Self { row, col }
    }

    /// The row index.
    pub fn row(&self) -> (r: usize)
        ensures
            r == self.row_spec(),
    {
        self.row
    }

    /// The column index.
    pub fn col(&self) -> (r: usize)
        ensures
            r == self.col_spec(),
    {
        self.col
    }

    /// Indices are counts and never negative.
    pub proof fn lemma_nonneg(&self)
        ensures
            0 <= self.row_spec(),
            0 <= self.col_spec(),
    {
    }
}

/// The centre of the pixel with index `idx` along an axis of `extent`
/// pixels of the given pitch in nanometres, in half-nanometres from the
/// axis midpoint.
pub open spec fn centre_spec(pitch: int, idx: int, extent: int) -> int {
    pitch * (2 * idx - (extent - 1))
}

/// The pixel index whose cell contains the position `v` in
/// half-nanometres, along an axis of `extent` pixels of the given pitch
/// in nanometres: the nearest index, rounding half up.
pub open spec fn index_spec(pitch: int, v: int, extent: int) -> int {
    (v + pitch * extent) / (2 * pitch)
}

/// A pure mapper between pixel indices and physical positions on the
/// sensor plane.
#[derive(Clone, Copy, Debug, PartialEq, Eq, Structural)]
pub struct ImageSensor {
    pitch_nm: i64,
    rows: u16,
    cols: u16,
}

impl ImageSensor {
    /// The pixel pitch in nanometres.
    pub closed spec fn pitch_spec(&self) -> int {
        self.pitch_nm as int
    }

    /// The number of pixel rows.
    pub closed spec fn rows_spec(&self) -> int {
        self.rows as int
    }

    /// The number of pixel columns.
    pub closed spec fn cols_spec(&self) -> int {
        self.cols as int
    }

    /// The pitch is a positive length of at most a millimetre, and the
    /// sensor has at least one pixel.
    pub open spec fn wf(&self) -> bool {
        0 < self.pitch_spec() <= 1_000_000_000 && 0 < self.rows_spec() <= 65535 && 0
            < self.cols_spec() <= 65535
    }

    /// The centre of the pixel with index `idx` along an axis with
    /// `extent` pixels, in half-nanometres.
    pub open spec fn centre_of_index(&self, idx: int, extent: int) -> int {
        centre_spec(self.pitch_spec(), idx, extent)
    }

    /// The pixel index whose cell contains a position `v` along an axis
    /// with `extent` pixels: the nearest index to `v / (2 * pitch) +
    /// (extent - 1) / 2`, rounding half up.
    pub open spec fn index_of_position(&self, v: int, extent: int) -> int {
        index_spec(self.pitch_spec(), v, extent)
    }

    /// Creates a sensor from its pixel pitch in nanometres and its
    /// extents in pixels.
    pub fn new(pitch_nm: i64, rows: u16, cols: u16) -> (r: Self)
        requires
            0 < pitch_nm <= 1_000_000_000,
            rows > 0,
            cols > 0,
        ensures
            r.pitch_spec() == pitch_nm,
            r.rows_spec() == rows,
            r.cols_spec() == cols,
            r.wf(),
    {
        Self { pitch_nm, rows, cols }
    }

    /// The number of pixel rows.
    pub fn rows(&self) -> (r: u16)
        ensures
            r == self.rows_spec(),
    {
        self.rows
    }

    /// The number of pixel columns.
    pub fn cols(&self) -> (r: u16)
        ensures
            r == self.cols_spec(),
    {
        self.cols
    }

    /// The number of pixels on the sensor.
    pub fn pixel_count(&self) -> (r: usize)
        ensures
            r == self.rows_spec() * self.cols_spec(),
    {
        proof {
            assert(self.rows_spec() * self.cols_spec() <= 65535 * 65535) by (nonlinear_arith)
                requires
                    0 <= self.rows_spec() <= 65535,
                    0 <= self.cols_spec() <= 65535,
            ;
        }
        (self.rows as usize) * (self.cols as usize)
    }

    /// Whether a pixel index pair lies within the sensor's extents.
    pub fn contains_pixel(&self, pixel: &PixelCoordinate) -> (r: bool)
        ensures
            r == (pixel.row_spec() < self.rows_spec() && pixel.col_spec() < self.cols_spec()),
    {
        pixel.row() < self.rows as usize && pixel.col() < self.cols as usize
    }

    /// The physical position of the centre of a pixel, or `None` if the
    /// pixel lies outside the sensor.
    pub fn sensor_from_pixel(&self, pixel: &PixelCoordinate) -> (r: Option<SensorCoordinate>)
        requires
            self.wf(),
        ensures
            r is Some <==> pixel.row_spec() < self.rows_spec() && pixel.col_spec()
                < self.cols_spec(),
            r matches Some(c) ==> c.x_spec() == self.centre_of_index(
                pixel.col_spec(),
                self.cols_spec(),
            ) && c.y_spec() == self.centre_of_index(pixel.row_spec(), self.rows_spec()),
    {
        if !self.contains_pixel(pixel) {
            return None;
        }
        proof {
            lemma_centre_bounded(self.pitch_spec(), pixel.col_spec(), self.cols_spec());
            lemma_centre_bounded(self.pitch_spec(), pixel.row_spec(), self.rows_spec());
        }
        let x: i128 = (self.pitch_nm as i128) * (2 * (pixel.col() as i128) - (self.cols as i128
            - 1));
        let y: i128 = (self.pitch_nm as i128) * (2 * (pixel.row() as i128) - (self.rows as i128
            - 1));
        Some(SensorCoordinate::new(x as i64, y as i64))
    }

    /// The pixel whose cell contains a physical position, or `None` if
    /// the position rounds to an index outside the sensor.
    pub fn pixel_from_sensor(&self, coord: &SensorCoordinate) -> (r: Option<PixelCoordinate>)
        requires
            self.wf(),
        ensures
            r is Some <==> 0 <= self.index_of_position(coord.y_spec(), self.rows_spec())
                < self.rows_spec() && 0 <= self.index_of_position(
                coord.x_spec(),
                self.cols_spec(),
            ) < self.cols_spec(),
            r matches Some(px) ==> px.row_spec() == self.index_of_position(
                coord.y_spec(),
                self.rows_spec(),
            ) && px.col_spec() == self.index_of_position(coord.x_spec(), self.cols_spec()),
    {
        let row = self.index_along_axis(coord.y(), self.rows);
        let col = self.index_along_axis(coord.x(), self.cols);
        match (row, col) {
            (Some(row), Some(col)) => Some(PixelCoordinate::new(row as usize, col as usize)),
            _ => None,
        }
    }

    /// Rounds a position to a pixel index along one axis, returning
    /// `None` when the index falls outside `[0, extent)`.
    fn index_along_axis(&self, v: i64, extent: u16) -> (r: Option<u16>)
        requires
            self.wf(),
            extent > 0,
        ensures
            r is Some <==> 0 <= self.index_of_position(v as int, extent as int) < extent as int,
            r matches Some(idx) ==> idx as int == self.index_of_position(v as int, extent as int),
    {
        proof {
            lemma_pitch_times_extent_bounded(self.pitch_spec(), extent as int);
        }
        let num: i128 = (v as i128) + (self.pitch_nm as i128) * (extent as i128);
        let den: i128 = 2 * (self.pitch_nm as i128);
        if num < 0 {
            proof {
                lemma_div_negative_num(num as int, den as int);
            }
            return None;
        }
        let q: i128 = num / den;
        proof {
            vstd::arithmetic::div_mod::lemma_div_pos_is_pos(num as int, den as int);
        }
        if q < extent as i128 {
            Some(q as u16)
        } else {
            None
        }
    }
}

/// The centre of an on-sensor pixel lies within one sensor width of the
/// origin, far inside the range of a 64-bit count of half-nanometres.
pub proof fn lemma_centre_bounded(pitch: int, idx: int, extent: int)
    requires
        0 < pitch <= 1_000_000_000,
        0 < extent <= 65535,
        0 <= idx < extent,
    ensures
        -200_000_000_000_000 <= pitch * (2 * idx - (extent - 1)) <= 200_000_000_000_000,
{
    assert(-200_000_000_000_000 <= pitch * (2 * idx - (extent - 1)) <= 200_000_000_000_000)
        by (nonlinear_arith)
        requires
            0 < pitch <= 1_000_000_000,
            0 < extent <= 65535,
            0 <= idx < extent,
    ;
}

/// The pitch times a pixel extent stays far inside 64 bits.
proof fn lemma_pitch_times_extent_bounded(pitch: int, extent: int)
    requires
        0 < pitch <= 1_000_000_000,
        0 < extent <= 65535,
    ensures
        0 < pitch * extent <= 100_000_000_000_000,
{
    assert(0 < pitch * extent <= 100_000_000_000_000) by (nonlinear_arith)
        requires
            0 < pitch <= 1_000_000_000,
            0 < extent <= 65535,
    ;
}

/// Euclidean division of a negative numerator by a positive denominator
/// is negative.
proof fn lemma_div_negative_num(num: int, den: int)
    requires
        num < 0,
        den > 0,
    ensures
        num / den < 0,
{
    lemma_fundamental_div_mod(num, den);
    vstd::arithmetic::div_mod::lemma_mod_bound(num, den);
    if num / den >= 0 {
        vstd::arithmetic::mul::lemma_mul_nonnegative(den, num / den);
    }
}

/// The round trip from a pixel through its physical position and back
/// is the identity on every pixel of the sensor: positions are exact,
/// so the nearest index to a pixel centre is that pixel itself.
pub proof fn lemma_pixel_round_trip(sensor: ImageSensor, row: int, col: int)
    requires
        sensor.wf(),
        0 <= row < sensor.rows_spec(),
        0 <= col < sensor.cols_spec(),
    ensures
        sensor.index_of_position(
            sensor.centre_of_index(row, sensor.rows_spec()),
            sensor.rows_spec(),
        ) == row,
        sensor.index_of_position(
            sensor.centre_of_index(col, sensor.cols_spec()),
            sensor.cols_spec(),
        ) == col,
{
    lemma_pixel_round_trip_axis(sensor, row, sensor.rows_spec());
    lemma_pixel_round_trip_axis(sensor, col, sensor.cols_spec());
}

pub proof fn lemma_pixel_round_trip_axis(sensor: ImageSensor, idx: int, extent: int)
    requires
        sensor.wf(),
        0 <= idx < extent,
    ensures
        sensor.index_of_position(sensor.centre_of_index(idx, extent), extent) == idx,
{
    let p = sensor.pitch_spec();
    let centre = sensor.centre_of_index(idx, extent);
    let num = centre + p * extent;
    assert(num == (2 * p) * idx + p) by (nonlinear_arith)
        requires
            centre == p * (2 * idx - (extent - 1)),
            num == centre + p * extent,
    ;
    vstd::arithmetic::div_mod::lemma_div_multiples_vanish_fancy(idx, p, 2 * p);
}

} // verus!
