//! Raw intensity images, demosaicing, and dense images of rays.

use crate::error::Error;
use crate::ray::{GlobalFrame, Ray, RayFrame, SensorFrame};
use crate::sensor::{ImageSensor, PixelCoordinate, SensorCoordinate};
use crate::stokes::{stokes_dop, StokesVec};
use vstd::arithmetic::div_mod::lemma_fundamental_div_mod_converse;
use vstd::prelude::*;

verus! {

/// The index into a raw row-major buffer of `width` columns of the
/// sample measured through the 135-degree polarizer of metapixel
/// `(x, y)`: the mosaic repeats 135, 90 over 45, 0 in each 2-by-2 cell.
pub open spec fn idx_135(width: int, x: int, y: int) -> int {
    2 * y * width + 2 * x
}

/// The 90-degree sample of metapixel `(x, y)`: one column right of the
/// 135-degree sample.
pub open spec fn idx_090(width: int, x: int, y: int) -> int {
    2 * y * width + 2 * x + 1
}

/// The 45-degree sample of metapixel `(x, y)`: one row below the
/// 135-degree sample.
pub open spec fn idx_045(width: int, x: int, y: int) -> int {
    (2 * y + 1) * width + 2 * x
}

/// The 0-degree sample of metapixel `(x, y)`: one row below and one
/// column right of the 135-degree sample.
pub open spec fn idx_000(width: int, x: int, y: int) -> int {
    (2 * y + 1) * width + 2 * x + 1
}

/// One metapixel: the four intensity samples of a 2-by-2 mosaic cell,
/// with the cell's position in the metapixel grid.
#[derive(Clone, Copy, Debug, PartialEq, Eq, Structural)]
pub struct IntensityPixel {
    row: u16,
    col: u16,
    i000: u8,
    i045: u8,
    i090: u8,
    i135: u8,
}

impl IntensityPixel {
    /// The metapixel row.
    pub closed spec fn row_spec(&self) -> int {
        self.row as int
    }

    /// The metapixel column.
    pub closed spec fn col_spec(&self) -> int {
        self.col as int
    }

    /// The sample through the 0-degree polarizer.
    pub closed spec fn i000_spec(&self) -> int {
        self.i000 as int
    }

    /// The sample through the 45-degree polarizer.
    pub closed spec fn i045_spec(&self) -> int {
        self.i045 as int
    }

    /// The sample through the 90-degree polarizer.
    pub closed spec fn i090_spec(&self) -> int {
        self.i090 as int
    }

    /// The sample through the 135-degree polarizer.
    pub closed spec fn i135_spec(&self) -> int {
        self.i135 as int
    }

    /// Creates a metapixel from its position and four samples, given in
    /// the order of increasing polarizer angle.
    pub fn new(row: u16, col: u16, i000: u8, i045: u8, i090: u8, i135: u8) -> (r: Self)
        ensures
            r.row_spec() == row,
            r.col_spec() == col,
            r.i000_spec() == i000,
            r.i045_spec() == i045,
            r.i090_spec() == i090,
            r.i135_spec() == i135,
    {
        Self { row, col, i000, i045, i090, i135 }
    }

    /// Derives the Stokes vector of the metapixel.
    ///
    /// The components are carried at twice their conventional size —
    /// the total intensity as the plain sum of the four samples rather
    /// than half of it — which leaves both derived ratios unchanged and
    /// keeps every component an exact integer.
    pub fn stokes(&self) -> (r: StokesVec<SensorFrame>)
        ensures
            r.s0_spec() == self.i000_spec() + self.i045_spec() + self.i090_spec()
                + self.i135_spec(),
            r.s1_spec() == 2 * (self.i000_spec() - self.i090_spec()),
            r.s2_spec() == 2 * (self.i045_spec() - self.i135_spec()),
            r.wf(),
    {
        let s0: i64 = self.i000 as i64 + self.i045 as i64 + self.i090 as i64 + self.i135 as i64;
        let s1: i64 = 2 * (self.i000 as i64 - self.i090 as i64);
        let s2: i64 = 2 * (self.i045 as i64 - self.i135 as i64);
        StokesVec::new(s0, s1, s2)
    }
}

/// A polarized intensity image: the metapixels decoded from one raw
/// frame of a division-of-focal-plane polarization camera.
///
/// Each pixel of such a camera measures intensity through one of four
/// linear polarizing filters, laid out in a repeating 2-by-2 mosaic;
/// each mosaic cell becomes one metapixel of the decoded image.
#[derive(Clone, Debug)]
pub struct IntensityImage {
    metapixels: Vec<IntensityPixel>,
    width: u16,
    height: u16,
}

/// Whether `px` holds exactly the four samples of metapixel
/// `(x, y) = (k % w, k / w)` of a raw buffer of width `2 * w`.
pub open spec fn metapixel_decoded(px: IntensityPixel, bytes: Seq<u8>, w: int, k: int) -> bool {
    let x = k % w;
    let y = k / w;
    px.col_spec() == x && px.row_spec() == y && px.i135_spec() == bytes[idx_135(2 * w, x, y)]
        && px.i090_spec() == bytes[idx_090(2 * w, x, y)] && px.i045_spec() == bytes[idx_045(
        2 * w,
        x,
        y,
    )] && px.i000_spec() == bytes[idx_000(2 * w, x, y)]
}

impl IntensityImage {
    /// The metapixels, in row-major order.
    pub closed spec fn metapixels_spec(&self) -> Seq<IntensityPixel> {
        self.metapixels@
    }

    /// The width of the image in metapixels: half the raw width.
    pub closed spec fn width_spec(&self) -> int {
        self.width as int
    }

    /// The height of the image in metapixels: half the raw height.
    pub closed spec fn height_spec(&self) -> int {
        self.height as int
    }

    /// Decodes a raw byte buffer of `width` by `height` 8-bit samples,
    /// laid out row by row, into the metapixel grid.
    ///
    /// Fails exactly when a dimension is odd, in which case the mosaic
    /// cannot tile the frame. The buffer must hold one sample per pixel.
    pub fn from_bytes(width: u16, height: u16, bytes: &[u8]) -> (r: Result<Self, Error>)
        requires
            bytes@.len() == width * height,
        ensures
            r is Ok <==> width % 2 == 0 && height % 2 == 0,
            r matches Err(e) ==> e == (Error::OddImageDimensions {
                width: width as usize,
                height: height as usize,
            }),
            r matches Ok(img) ==> {
                &&& img.width_spec() == width / 2
                &&& img.height_spec() == height / 2
                &&& img.metapixels_spec().len() == (width / 2) * (height / 2)
                &&& forall|k: int|
                    0 <= k < img.metapixels_spec().len() ==> metapixel_decoded(
                        img.metapixels_spec()[k],
                        bytes@,
                        width as int / 2,
                        k,
                    )
            },
    {
        if width % 2 != 0 || height % 2 != 0 {
            return Err(
                Error::OddImageDimensions { width: width as usize, height: height as usize },
            );
        }
        let mw: u16 = width / 2;
        let mh: u16 = height / 2;
        let mut metapixels: Vec<IntensityPixel> = Vec::new();
        if mw == 0 || mh == 0 {
            proof {
                assert(mw as int * mh as int == 0) by (nonlinear_arith)
                    requires
                        mw == 0 || mh == 0,
                ;
            }
            return Ok(Self { metapixels, width: mw, height: mh });
        }
        let mut y: u16 = 0;
        while y < mh
            invariant
                0 < mw <= 32767,
                0 < mh <= 32767,
                y <= mh,
                2 * mw == width,
                2 * mh == height,
                bytes@.len() == width * height,
                metapixels@.len() == y * mw,
                forall|k: int|
                    0 <= k < metapixels@.len() ==> metapixel_decoded(
                        metapixels@[k],
                        bytes@,
                        mw as int,
                        k,
                    ),
            decreases mh - y,
        {
            let mut x: u16 = 0;
            while x < mw
                invariant
                    0 < mw <= 32767,
                    0 < mh <= 32767,
                    y < mh,
                    x <= mw,
                    2 * mw == width,
                    2 * mh == height,
                    bytes@.len() == width * height,
                    metapixels@.len() == y * mw + x,
                    forall|k: int|
                        0 <= k < metapixels@.len() ==> metapixel_decoded(
                            metapixels@[k],
                            bytes@,
                            mw as int,
                            k,
                        ),
                decreases mw - x,
            {
                proof {
                    lemma_sample_indices_in_range(
                        mw as int,
                        mh as int,
                        x as int,
                        y as int,
                    );
                    assert(0 <= 2 * (y as int) * (width as int) && (2 * (y as int) + 1) * (
                    width as int) + 2 * (x as int) + 1 <= 4_294_836_224) by (nonlinear_arith)
                        requires
                            0 <= y as int <= 32766,
                            0 <= x as int <= 32766,
                            0 <= width as int <= 65535,
                    ;
                    assert(2 * (y as int) * (width as int) <= (2 * (y as int) + 1) * (width as int))
                        by (nonlinear_arith)
                        requires
                            0 <= y as int,
                            0 <= width as int,
                    ;
                }
                let base0: usize = 2 * (y as usize) * (width as usize) + 2 * (x as usize);
                let base1: usize = (2 * (y as usize) + 1) * (width as usize) + 2 * (x as usize);
                let px = IntensityPixel::new(
                    y,
                    x,
                    bytes[base1 + 1],
                    bytes[base1],
                    bytes[base0 + 1],
                    bytes[base0],
                );
                metapixels.push(px);
                proof {
                    let k = y as int * mw as int + x as int;
                    lemma_fundamental_div_mod_converse(k, mw as int, y as int, x as int);
                    assert(metapixel_decoded(metapixels@[k], bytes@, mw as int, k));
                }
                x = x + 1;
            }
            y = y + 1;
            proof {
                assert((y - 1) as int * mw as int + mw as int == y as int * mw as int)
                    by (nonlinear_arith);
            }
        }
        proof {
            assert(mh as int * mw as int == mw as int * mh as int) by (nonlinear_arith);
        }
        Ok(Self { metapixels, width: mw, height: mh })
    }

    /// The width of the image in metapixels.
    pub fn width(&self) -> (r: u16)
        ensures
            r == self.width_spec(),
    {
        self.width
    }

    /// The height of the image in metapixels.
    pub fn height(&self) -> (r: u16)
        ensures
            r == self.height_spec(),
    {
        self.height
    }

    /// The decoded metapixels, in row-major order.
    pub fn metapixels(&self) -> (r: &Vec<IntensityPixel>)
        ensures
            r@ == self.metapixels_spec(),
    {
        &self.metapixels
    }

    /// Derives one sensor-frame ray per metapixel, each placed at the
    /// physical position of its metapixel on a sensor with the given
    /// pitch and this image's extents.
    ///
    /// Fails exactly where deriving a degree of polarization fails: on
    /// the first metapixel with no intensity at all or with a polarized
    /// part outweighing its total intensity.
    pub fn rays(&self, pitch_nm: i64) -> (r: Result<Vec<Ray<SensorFrame>>, Error>)
        requires
            0 < pitch_nm <= 1_000_000_000,
            self.metapixels_spec().len() == self.width_spec() * self.height_spec(),
            forall|k: int|
                0 <= k < self.metapixels_spec().len() ==> (
                #[trigger] self.metapixels_spec()[k]).row_spec() < self.height_spec() && self.metapixels_spec()[k].col_spec()
                    < self.width_spec(),
        ensures
            r matches Ok(rays) ==> {
                &&& rays@.len() == self.metapixels_spec().len()
                &&& forall|k: int|
                    0 <= k < rays@.len() ==> (#[trigger] rays@[k]).wf() && ray_of_metapixel(
                        rays@[k],
                        self.metapixels_spec()[k],
                        pitch_nm as int,
                        self.height_spec(),
                        self.width_spec(),
                    )
            },
            r is Err ==> exists|k: int|
                0 <= k < self.metapixels_spec().len() && !metapixel_derivable(
                    #[trigger] self.metapixels_spec()[k],
                ),
    {
        if self.width == 0 || self.height == 0 {
            proof {
                assert(self.width_spec() * self.height_spec() == 0) by (nonlinear_arith)
                    requires
                        self.width_spec() == 0 || self.height_spec() == 0,
                ;
            }
            return Ok(Vec::new());
        }
        let sensor = ImageSensor::new(pitch_nm, self.height, self.width);
        let mut rays: Vec<Ray<SensorFrame>> = Vec::new();
        let mut k: usize = 0;
        let n: usize = self.metapixels.len();
        while k < n
            invariant
                n == self.metapixels_spec().len(),
                k <= n,
                sensor.wf(),
                sensor.pitch_spec() == pitch_nm,
                sensor.rows_spec() == self.height_spec(),
                sensor.cols_spec() == self.width_spec(),
                forall|j: int|
                    0 <= j < n ==> (#[trigger] self.metapixels_spec()[j]).row_spec()
                        < self.height_spec() && self.metapixels_spec()[j].col_spec()
                        < self.width_spec(),
                rays@.len() == k,
                forall|j: int|
                    0 <= j < k ==> (#[trigger] rays@[j]).wf() && ray_of_metapixel(
                        rays@[j],
                        self.metapixels_spec()[j],
                        pitch_nm as int,
                        self.height_spec(),
                        self.width_spec(),
                    ),
            decreases n - k,
        {
            let px = self.metapixels[k];
            let pixel = PixelCoordinate::new(px.row as usize, px.col as usize);
            let coord = match sensor.sensor_from_pixel(&pixel) {
                Some(c) => c,
                None => {
                    proof {
                        assert(false);
                    }
                    return Err(Error::OutOfBoundsRay);
                },
            };
            proof {
                crate::sensor::lemma_centre_bounded(
                    sensor.pitch_spec(),
                    pixel.col_spec(),
                    sensor.cols_spec(),
                );
                crate::sensor::lemma_centre_bounded(
                    sensor.pitch_spec(),
                    pixel.row_spec(),
                    sensor.rows_spec(),
                );
            }
            let ray = match Ray::from_stokes(coord, px.stokes()) {
                Ok(ray) => ray,
                Err(e) => {
                    return Err(e);
                },
            };
            rays.push(ray);
            k = k + 1;
        }
        Ok(rays)
    }
}

/// Whether a metapixel's Stokes vector admits a degree of polarization:
/// some light reached it, and its polarized part does not outweigh its
/// total intensity.
pub open spec fn metapixel_derivable(px: IntensityPixel) -> bool {
    let s0 = px.i000_spec() + px.i045_spec() + px.i090_spec() + px.i135_spec();
    let s1 = 2 * (px.i000_spec() - px.i090_spec());
    let s2 = 2 * (px.i045_spec() - px.i135_spec());
    s0 > 0 && stokes_dop(s0, s1, s2) <= 1_000_000
}

/// Whether `ray` is the ray derived from metapixel `px` on a sensor of
/// the given pitch and extents: placed at the metapixel's physical
/// position, with the angle and degree of polarization of the
/// metapixel's Stokes vector.
pub open spec fn ray_of_metapixel(
    ray: Ray<SensorFrame>,
    px: IntensityPixel,
    pitch: int,
    rows: int,
    cols: int,
) -> bool {
    let s0 = px.i000_spec() + px.i045_spec() + px.i090_spec() + px.i135_spec();
    let s1 = 2 * (px.i000_spec() - px.i090_spec());
    let s2 = 2 * (px.i045_spec() - px.i135_spec());
    ray.x_spec() == crate::sensor::centre_spec(pitch, px.col_spec(), cols) && ray.y_spec()
        == crate::sensor::centre_spec(pitch, px.row_spec(), rows) && ray.aop_spec()
        == crate::stokes::stokes_aop(s1, s2) && ray.dop_spec() == stokes_dop(s0, s1, s2)
}

/// The row a ray's position falls on, for a sensor's pitch and extents.
pub open spec fn place_row<Frame: RayFrame>(sensor: ImageSensor, ray: Ray<Frame>) -> int {
    crate::sensor::index_spec(sensor.pitch_spec(), ray.y_spec(), sensor.rows_spec())
}

/// The column a ray's position falls on, for a sensor's pitch and
/// extents.
pub open spec fn place_col<Frame: RayFrame>(sensor: ImageSensor, ray: Ray<Frame>) -> int {
    crate::sensor::index_spec(sensor.pitch_spec(), ray.x_spec(), sensor.cols_spec())
}

/// Whether a ray's position falls on a pixel of the sensor at all.
pub open spec fn placeable<Frame: RayFrame>(sensor: ImageSensor, ray: Ray<Frame>) -> bool {
    0 <= place_row(sensor, ray) < sensor.rows_spec() && 0 <= place_col(sensor, ray)
        < sensor.cols_spec()
}

/// The row-major buffer index of the pixel a ray's position falls on.
pub open spec fn place_index<Frame: RayFrame>(sensor: ImageSensor, ray: Ray<Frame>) -> int {
    place_row(sensor, ray) * sensor.cols_spec() + place_col(sensor, ray)
}

/// Whether `to` is `from` carried from the sensor frame into the global
/// frame anchored at the zenith position `(zx, zy)`: the same position
/// and degree, with the per-pixel offset angle subtracted from the angle
/// of polarization.
pub open spec fn globalized(from: Ray<SensorFrame>, to: Ray<GlobalFrame>, zx: int, zy: int) -> bool {
    to.x_spec() == from.x_spec() && to.y_spec() == from.y_spec() && to.dop_spec()
        == from.dop_spec() && to.aop_spec() == crate::angle::wrap_aop(
        from.aop_spec() - crate::ray::offset_angle(from.x_spec(), from.y_spec(), zx, zy),
    )
}

/// Whether `to` is `from` carried from the global frame into the sensor
/// frame anchored at the zenith position `(zx, zy)`: the same position
/// and degree, with the per-pixel offset angle added to the angle of
/// polarization.
pub open spec fn sensorized(from: Ray<GlobalFrame>, to: Ray<SensorFrame>, zx: int, zy: int) -> bool {
    to.x_spec() == from.x_spec() && to.y_spec() == from.y_spec() && to.dop_spec()
        == from.dop_spec() && to.aop_spec() == crate::angle::wrap_aop(
        from.aop_spec() + crate::ray::offset_angle(from.x_spec(), from.y_spec(), zx, zy),
    )
}

/// A dense, immutable grid of optional rays addressable by row and
/// column. An empty cell means no valid measurement or simulation at
/// that pixel.
#[derive(Clone, Debug)]
pub struct RayImage<Frame: RayFrame> {
    pixels: Vec<Option<Ray<Frame>>>,
    rows: usize,
    cols: usize,
}

impl<Frame: RayFrame> RayImage<Frame> {
    /// The cells in row-major order.
    pub closed spec fn pixels_spec(&self) -> Seq<Option<Ray<Frame>>> {
        self.pixels@
    }

    /// The number of rows.
    pub closed spec fn rows_spec(&self) -> int {
        self.rows as int
    }

    /// The number of columns.
    pub closed spec fn cols_spec(&self) -> int {
        self.cols as int
    }

    /// The cell at a row and column.
    pub open spec fn at(&self, row: int, col: int) -> Option<Ray<Frame>> {
        self.pixels_spec()[row * self.cols_spec() + col]
    }

    /// The buffer covers the grid exactly and every stored ray is in
    /// range.
    pub open spec fn wf(&self) -> bool {
        self.pixels_spec().len() == self.rows_spec() * self.cols_spec() && 0 <= self.rows_spec()
            <= 65535 && 0 <= self.cols_spec() <= 65535 && forall|k: int|
            0 <= k < self.pixels_spec().len() ==> ((#[trigger] self.pixels_spec()[k]) matches Some(
            ray) ==> ray.wf())
    }

    /// Creates an empty image with no pixels.
    pub fn new() -> (r: Self)
        ensures
            r.rows_spec() == 0,
            r.cols_spec() == 0,
            r.pixels_spec().len() == 0,
            r.wf(),
    {
        Self { pixels: Vec::new(), rows: 0, cols: 0 }
    }

    /// Creates an image directly from a row-major buffer of optional
    /// rays covering a grid of the given extents.
    pub fn from_pixels(pixels: Vec<Option<Ray<Frame>>>, rows: u16, cols: u16) -> (r: Self)
        requires
            pixels@.len() == rows * cols,
            forall|k: int|
                0 <= k < pixels@.len() ==> ((#[trigger] pixels@[k]) matches Some(ray) ==> ray.wf()),
        ensures
            r.rows_spec() == rows,
            r.cols_spec() == cols,
            r.pixels_spec() == pixels@,
            r.wf(),
    {
        Self { pixels, rows: rows as usize, cols: cols as usize }
    }

    /// The number of rows.
    pub fn rows(&self) -> (r: usize)
        ensures
            r == self.rows_spec(),
    {
        self.rows
    }

    /// The number of columns.
    pub fn cols(&self) -> (r: usize)
        ensures
            r == self.cols_spec(),
    {
        self.cols
    }

    /// The cells in row-major order.
    pub fn pixels(&self) -> (r: &Vec<Option<Ray<Frame>>>)
        ensures
            r@ == self.pixels_spec(),
    {
        &self.pixels
    }

    /// The cell at a row and column, or `None` when the indices lie
    /// outside the grid.
    pub fn ray(&self, row: usize, col: usize) -> (r: Option<&Ray<Frame>>)
        requires
            self.wf(),
        ensures
            row < self.rows_spec() && col < self.cols_spec() ==> r == match self.at(
                row as int,
                col as int,
            ) {
                Some(_) => Some(&self.at(row as int, col as int)->Some_0),
                None => None::<&Ray<Frame>>,
            },
            !(row < self.rows_spec() && col < self.cols_spec()) ==> r is None,
    {
        if row < self.rows && col < self.cols {
            proof {
                lemma_grid_index(row as int, col as int, self.rows_spec(), self.cols_spec());
            }
            self.pixels[row * self.cols + col].as_ref()
        } else {
            None
        }
    }

    /// Places each ray of a stream at the pixel its position falls on.
    ///
    /// Fails with `OutOfBoundsRay` when some ray's position falls on no
    /// pixel of the sensor, and with `AmbiguousRay` when two rays fall
    /// on the same pixel: a collision is reported, never silently
    /// overwritten. Succeeds exactly when every ray lands on its own
    /// pixel of the sensor.
    pub fn from_rays_with_sensor(rays: &Vec<Ray<Frame>>, sensor: &ImageSensor) -> (r: Result<
        Self,
        Error,
    >)
        requires
            sensor.wf(),
            forall|i: int| 0 <= i < rays@.len() ==> (#[trigger] rays@[i]).wf(),
        ensures
            r is Ok <==> (forall|i: int| 0 <= i < rays@.len() ==> placeable(*sensor, #[trigger] rays@[i]))
                && (forall|i: int, j: int|
                0 <= i < j < rays@.len() ==> place_index(*sensor, rays@[i]) != place_index(
                    *sensor,
                    rays@[j],
                )),
            r matches Ok(img) ==> {
                &&& img.wf()
                &&& img.rows_spec() == sensor.rows_spec()
                &&& img.cols_spec() == sensor.cols_spec()
                &&& forall|i: int|
                    0 <= i < rays@.len() ==> img.pixels_spec()[place_index(
                        *sensor,
                        #[trigger] rays@[i],
                    )] == Some(rays@[i])
                &&& forall|p: int|
                    0 <= p < img.pixels_spec().len() && (#[trigger] img.pixels_spec()[p]) is Some
                        ==> exists|i: int|
                        0 <= i < rays@.len() && place_index(*sensor, #[trigger] rays@[i]) == p
            },
            r matches Err(e) ==> (e matches Error::AmbiguousRay { row, col } || e
                == Error::OutOfBoundsRay),
            r == Err::<Self, Error>(Error::OutOfBoundsRay) ==> exists|i: int|
                0 <= i < rays@.len() && !placeable(*sensor, #[trigger] rays@[i]),
            r matches Err(Error::AmbiguousRay { row, col }) ==> exists|i: int, j: int|
                #![trigger place_index(*sensor, rays@[i]), place_index(*sensor, rays@[j])]
                0 <= i < j < rays@.len() && place_row(*sensor, rays@[i]) == row && place_col(
                    *sensor,
                    rays@[i],
                ) == col && place_row(*sensor, rays@[j]) == row && place_col(*sensor, rays@[j])
                    == col,
    {
        let rows: u16 = sensor.rows();
        let cols: u16 = sensor.cols();
        let count: usize = sensor.pixel_count();
        let mut pixels: Vec<Option<Ray<Frame>>> = Vec::new();
        while pixels.len() < count
            invariant
                pixels@.len() <= count,
                forall|k: int| 0 <= k < pixels@.len() ==> (#[trigger] pixels@[k]) is None,
            decreases count - pixels.len(),
        {
            pixels.push(None);
        }
        let mut i: usize = 0;
        while i < rays.len()
            invariant
                sensor.wf(),
                rows == sensor.rows_spec(),
                cols == sensor.cols_spec(),
                count == sensor.rows_spec() * sensor.cols_spec(),
                pixels@.len() == count,
                i <= rays@.len(),
                forall|j: int| 0 <= j < rays@.len() ==> (#[trigger] rays@[j]).wf(),
                forall|j: int| 0 <= j < i ==> placeable(*sensor, #[trigger] rays@[j]),
                forall|j: int|
                    0 <= j < i ==> 0 <= place_index(*sensor, #[trigger] rays@[j]) < count,
                forall|j: int|
                    0 <= j < i ==> pixels@[place_index(*sensor, #[trigger] rays@[j])] == Some(
                        rays@[j],
                    ),
                forall|j1: int, j2: int|
                    0 <= j1 < j2 < i ==> place_index(*sensor, rays@[j1]) != place_index(
                        *sensor,
                        rays@[j2],
                    ),
                forall|p: int|
                    0 <= p < pixels@.len() && (#[trigger] pixels@[p]) is Some ==> exists|j: int|
                        0 <= j < i && place_index(*sensor, #[trigger] rays@[j]) == p,
            decreases rays@.len() - i,
        {
            let ray = rays[i];
            let placed = match sensor.pixel_from_sensor(ray.coord()) {
                Some(px) => px,
                None => {
                    return Err(Error::OutOfBoundsRay);
                },
            };
            proof {
                lemma_grid_index(
                    placed.row_spec(),
                    placed.col_spec(),
                    sensor.rows_spec(),
                    sensor.cols_spec(),
                );
            }
            let idx: usize = placed.row() * (cols as usize) + placed.col();
            if pixels[idx].is_some() {
                proof {
                    let j = choose|j: int|
                        0 <= j < i && place_index(*sensor, #[trigger] rays@[j]) == idx;
                    lemma_place_decomposition(*sensor, rays@[j as int]);
                    lemma_place_decomposition(*sensor, rays@[i as int]);
                    vstd::arithmetic::div_mod::lemma_fundamental_div_mod_converse(
                        idx as int,
                        sensor.cols_spec(),
                        placed.row_spec(),
                        placed.col_spec(),
                    );
                }
                return Err(Error::AmbiguousRay { row: placed.row(), col: placed.col() });
            }
            proof {
                assert(idx as int == place_index(*sensor, rays@[i as int]));
            }
            pixels[idx] = Some(ray);
            i = i + 1;
        }
        Ok(Self { pixels, rows: rows as usize, cols: cols as usize })
    }
}

/// Whether a cell of a global-frame image is the matching cell of a
/// sensor-frame image carried over, anchored at the zenith position.
pub open spec fn cell_globalized(
    from: Option<Ray<SensorFrame>>,
    to: Option<Ray<GlobalFrame>>,
    zx: int,
    zy: int,
) -> bool {
    match from {
        None => to is None,
        Some(f) => to matches Some(t) && globalized(f, t, zx, zy),
    }
}

/// Whether a cell of a sensor-frame image is the matching cell of a
/// global-frame image carried over, anchored at the zenith position.
pub open spec fn cell_sensorized(
    from: Option<Ray<GlobalFrame>>,
    to: Option<Ray<SensorFrame>>,
    zx: int,
    zy: int,
) -> bool {
    match from {
        None => to is None,
        Some(f) => to matches Some(t) && sensorized(f, t, zx, zy),
    }
}

impl RayImage<SensorFrame> {
    /// Transforms every ray of the image from the sensor frame into the
    /// global frame, anchored at the zenith position: the point of the
    /// sensor plane onto which the upward direction projects. Each
    /// ray's offset is the angle of its own position seen from there.
    pub fn into_global_frame(&self, zenith: &SensorCoordinate) -> (r: RayImage<GlobalFrame>)
        requires
            self.wf(),
            -2_000_000_000_000_000_000 <= zenith.x_spec() <= 2_000_000_000_000_000_000,
            -2_000_000_000_000_000_000 <= zenith.y_spec() <= 2_000_000_000_000_000_000,
        ensures
            r.wf(),
            r.rows_spec() == self.rows_spec(),
            r.cols_spec() == self.cols_spec(),
            r.pixels_spec().len() == self.pixels_spec().len(),
            forall|k: int|
                0 <= k < self.pixels_spec().len() ==> cell_globalized(
                    #[trigger] self.pixels_spec()[k],
                    r.pixels_spec()[k],
                    zenith.x_spec(),
                    zenith.y_spec(),
                ),
    {
        let mut out: Vec<Option<Ray<GlobalFrame>>> = Vec::new();
        let n: usize = self.pixels.len();
        let mut k: usize = 0;
        while k < n
            invariant
                self.wf(),
                -2_000_000_000_000_000_000 <= zenith.x_spec() <= 2_000_000_000_000_000_000,
                -2_000_000_000_000_000_000 <= zenith.y_spec() <= 2_000_000_000_000_000_000,
                n == self.pixels_spec().len(),
                k <= n,
                out@.len() == k,
                forall|j: int|
                    0 <= j < k ==> cell_globalized(
                        #[trigger] self.pixels_spec()[j],
                        out@[j],
                        zenith.x_spec(),
                        zenith.y_spec(),
                    ),
                forall|j: int|
                    0 <= j < k ==> ((#[trigger] out@[j]) matches Some(t) ==> t.wf()),
            decreases n - k,
        {
            let cell = match &self.pixels[k] {
                Some(ray) => Some(ray.into_global_frame(zenith)),
                None => None,
            };
            out.push(cell);
            k = k + 1;
        }
        RayImage { pixels: out, rows: self.rows, cols: self.cols }
    }
}

impl RayImage<GlobalFrame> {
    /// Transforms every ray of the image from the global frame into the
    /// sensor frame, anchored at the zenith position: the point of the
    /// sensor plane onto which the upward direction projects. Each
    /// ray's offset is the angle of its own position seen from there.
    pub fn into_sensor_frame(&self, zenith: &SensorCoordinate) -> (r: RayImage<SensorFrame>)
        requires
            self.wf(),
            -2_000_000_000_000_000_000 <= zenith.x_spec() <= 2_000_000_000_000_000_000,
            -2_000_000_000_000_000_000 <= zenith.y_spec() <= 2_000_000_000_000_000_000,
        ensures
            r.wf(),
            r.rows_spec() == self.rows_spec(),
            r.cols_spec() == self.cols_spec(),
            r.pixels_spec().len() == self.pixels_spec().len(),
            forall|k: int|
                0 <= k < self.pixels_spec().len() ==> cell_sensorized(
                    #[trigger] self.pixels_spec()[k],
                    r.pixels_spec()[k],
                    zenith.x_spec(),
                    zenith.y_spec(),
                ),
    {
        let mut out: Vec<Option<Ray<SensorFrame>>> = Vec::new();
        let n: usize = self.pixels.len();
        let mut k: usize = 0;
        while k < n
            invariant
                self.wf(),
                -2_000_000_000_000_000_000 <= zenith.x_spec() <= 2_000_000_000_000_000_000,
                -2_000_000_000_000_000_000 <= zenith.y_spec() <= 2_000_000_000_000_000_000,
                n == self.pixels_spec().len(),
                k <= n,
                out@.len() == k,
                forall|j: int|
                    0 <= j < k ==> cell_sensorized(
                        #[trigger] self.pixels_spec()[j],
                        out@[j],
                        zenith.x_spec(),
                        zenith.y_spec(),
                    ),
                forall|j: int|
                    0 <= j < k ==> ((#[trigger] out@[j]) matches Some(t) ==> t.wf()),
            decreases n - k,
        {
            let cell = match &self.pixels[k] {
                Some(ray) => Some(ray.into_sensor_frame(zenith)),
                None => None,
            };
            out.push(cell);
            k = k + 1;
        }
        RayImage { pixels: out, rows: self.rows, cols: self.cols }
    }
}

/// A row and column inside a grid give a row-major index inside its
/// buffer.
proof fn lemma_grid_index(row: int, col: int, rows: int, cols: int)
    requires
        0 <= row < rows,
        0 <= col < cols,
        rows <= 65535,
        cols <= 65535,
    ensures
        0 <= row * cols + col < rows * cols,
        row * cols + col <= 4_294_836_224,
{
    assert(0 <= row * cols + col < rows * cols) by (nonlinear_arith)
        requires
            0 <= row < rows,
            0 <= col < cols,
    ;
    assert(rows * cols <= 4_294_836_225) by (nonlinear_arith)
        requires
            0 <= rows <= 65535,
            0 <= cols <= 65535,
    ;
}

/// A ray's buffer index decomposes back into its row and column.
proof fn lemma_place_decomposition<Frame: RayFrame>(sensor: ImageSensor, ray: Ray<Frame>)
    requires
        placeable(sensor, ray),
        0 < sensor.cols_spec(),
    ensures
        place_index(sensor, ray) / sensor.cols_spec() == place_row(sensor, ray),
        place_index(sensor, ray) % sensor.cols_spec() == place_col(sensor, ray),
{
    vstd::arithmetic::div_mod::lemma_fundamental_div_mod_converse(
        place_index(sensor, ray),
        sensor.cols_spec(),
        place_row(sensor, ray),
        place_col(sensor, ray),
    );
}

/// The four sample indices of metapixel `(x, y)` lie inside a raw
/// buffer of `2 * mw` columns and `2 * mh` rows.
proof fn lemma_sample_indices_in_range(mw: int, mh: int, x: int, y: int)
    requires
        0 < mw <= 32767,
        0 < mh <= 32767,
        0 <= x < mw,
        0 <= y < mh,
    ensures
        0 <= idx_135(2 * mw, x, y),
        idx_000(2 * mw, x, y) < (2 * mw) * (2 * mh),
        idx_000(2 * mw, x, y) == (2 * y + 1) * (2 * mw) + 2 * x + 1,
        idx_045(2 * mw, x, y) == (2 * y + 1) * (2 * mw) + 2 * x,
        idx_090(2 * mw, x, y) == 2 * y * (2 * mw) + 2 * x + 1,
        idx_135(2 * mw, x, y) == 2 * y * (2 * mw) + 2 * x,
        (2 * mw) * (2 * mh) <= 4_294_836_225,
{
    assert((2 * y + 1) * (2 * mw) + 2 * x + 1 < (2 * mw) * (2 * mh)) by (nonlinear_arith)
        requires
            0 < mw,
            0 < mh,
            0 <= x < mw,
            0 <= y < mh,
    ;
    assert(2 * y * (2 * mw) >= 0) by (nonlinear_arith)
        requires
            0 <= y,
            0 < mw,
    ;
    assert((2 * mw) * (2 * mh) <= 4_294_836_225) by (nonlinear_arith)
        requires
            0 < mw <= 32767,
            0 < mh <= 32767,
    ;
}

} // verus!
