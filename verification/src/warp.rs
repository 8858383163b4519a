//! The warp request an operation sends across the foreign boundary,
//! and the translation of the status the boundary reports back.

use vstd::prelude::*;
use crate::errors::GdalError;

verus! {

/// Status value with which the external library reports a call that
/// completed without error. Any other status is a failure.
pub const CE_NONE: u32 = 0;

/// The closed set of resampling algorithms the external warp routine
/// accepts: the interpolation method that computes each output pixel
/// from the input pixels during the geometric transform.
#[derive(Debug, Clone, Copy, PartialEq, Eq, Structural)]
pub enum ResamplingAlgorithm {
    /// Nearest neighbour (selects one input pixel).
    NearestNeighbour,
    /// Bilinear (2x2 kernel).
    Bilinear,
    /// Cubic convolution approximation (4x4 kernel).
    Cubic,
    /// Cubic B-spline approximation (4x4 kernel).
    CubicSpline,
    /// Lanczos windowed sinc interpolation (6x6 kernel).
    Lanczos,
    /// Average of all non-NODATA contributing pixels.
    Average,
    /// Mode: the value appearing most often among the sampled points.
    Mode,
    /// Maximum of all non-NODATA contributing pixels.
    Max,
    /// Minimum of all non-NODATA contributing pixels.
    Min,
    /// Median of all non-NODATA contributing pixels.
    Med,
    /// First quartile of all non-NODATA contributing pixels.
    Q1,
    /// Third quartile of all non-NODATA contributing pixels.
    Q3,
}

impl ResamplingAlgorithm {
    /// The numeric constant under which the external library knows this
    /// algorithm. The mapping must be kept bit-for-bit as the library
    /// defines it; the value 7 names an algorithm its warp entry point
    /// does not accept and so has no variant here.
    pub open spec fn code_spec(self) -> u32 {
        match self {
            ResamplingAlgorithm::NearestNeighbour => 0,
            ResamplingAlgorithm::Bilinear => 1,
            ResamplingAlgorithm::Cubic => 2,
            ResamplingAlgorithm::CubicSpline => 3,
            ResamplingAlgorithm::Lanczos => 4,
            ResamplingAlgorithm::Average => 5,
            ResamplingAlgorithm::Mode => 6,
            ResamplingAlgorithm::Max => 8,
            ResamplingAlgorithm::Min => 9,
            ResamplingAlgorithm::Med => 10,
            ResamplingAlgorithm::Q1 => 11,
            ResamplingAlgorithm::Q3 => 12,
        }
    }

    /// The numeric code to hand across the foreign boundary for this
    /// algorithm.
    pub fn gdal_code(self) -> (c: u32)
        ensures
            c == self.code_spec(),
    {
        match self {
            ResamplingAlgorithm::NearestNeighbour => 0,
            ResamplingAlgorithm::Bilinear => 1,
            ResamplingAlgorithm::Cubic => 2,
            ResamplingAlgorithm::CubicSpline => 3,
            ResamplingAlgorithm::Lanczos => 4,
            ResamplingAlgorithm::Average => 5,
            ResamplingAlgorithm::Mode => 6,
            ResamplingAlgorithm::Max => 8,
            ResamplingAlgorithm::Min => 9,
            ResamplingAlgorithm::Med => 10,
            ResamplingAlgorithm::Q1 => 11,
            ResamplingAlgorithm::Q3 => 12,
        }
    }
}

/// The algorithms and the library's codes correspond one to one:
/// distinct algorithms never share a code.
pub proof fn lemma_algorithm_codes_one_to_one(a: ResamplingAlgorithm, b: ResamplingAlgorithm)
    requires
        a.code_spec() == b.code_spec(),
    ensures
        a == b,
{
}

/// Everything an operation of this crate decides about one warp call:
/// the resampling algorithm's code. Every other parameter of the
/// external routine is fixed, whichever operation calls it: no source
/// or destination coordinate-transform override (the library derives
/// them from the datasets' own georeferencing), the library's default
/// warp memory limit, a zero geometric error tolerance (exact
/// transformation, no polynomial approximation), no progress callback
/// and no extra warp options.
#[derive(Debug, Clone, Copy, PartialEq, Eq, Structural)]
pub struct WarpRequest {
    /// The external library's code for the resampling algorithm.
    pub resample_code: u32,
}

/// The request the plain `reproject` operation sends: bilinear
/// resampling, on the fixed remaining parameters.
pub open spec fn reproject_request_spec() -> WarpRequest {
    WarpRequest { resample_code: ResamplingAlgorithm::Bilinear.code_spec() }
}

/// Build the request for a reprojection with bilinear resampling.
pub fn reproject_request() -> (r: WarpRequest)
    ensures
        r == reproject_request_spec(),
{
    WarpRequest { resample_code: ResamplingAlgorithm::Bilinear.gdal_code() }
}

/// The request `reproject_resampling` sends for a caller-chosen
/// algorithm: that algorithm's code, on the fixed remaining parameters.
pub open spec fn resampling_request_spec(algorithm: ResamplingAlgorithm) -> WarpRequest {
    WarpRequest { resample_code: algorithm.code_spec() }
}

/// Build the request for a reprojection with the given resampling
/// algorithm.
pub fn resampling_request(algorithm: ResamplingAlgorithm) -> (r: WarpRequest)
    ensures
        r == resampling_request_spec(algorithm),
{
    WarpRequest { resample_code: algorithm.gdal_code() }
}

/// The two operations differ only in the algorithm selection: with
/// Bilinear chosen, `reproject_resampling` sends the very request
/// `reproject` sends. Both translate the reply through `warp_outcome`,
/// so on equal replies their outcomes coincide as well.
pub proof fn lemma_reproject_is_bilinear_resampling()
    ensures
        resampling_request_spec(ResamplingAlgorithm::Bilinear) == reproject_request_spec(),
{
}

/// What a warp call's reply means: success exactly on the no-error
/// status, and otherwise a failure carrying, verbatim, the diagnostic
/// text the library last recorded. Both operations translate their
/// reply through this one function, whatever algorithm they selected.
pub open spec fn warp_outcome_spec(status: u32, diagnostic: String) -> Result<(), GdalError> {
    if status == CE_NONE {
        Ok(())
    } else {
        Err(GdalError::ReprojectionFailed(diagnostic))
    }
}

/// Translate what the external warp routine reported into the
/// operation's result.
pub fn warp_outcome(status: u32, diagnostic: String) -> (r: Result<(), GdalError>)
    ensures
        r == warp_outcome_spec(status, diagnostic),
        r is Ok <==> status == CE_NONE,
{
    if status != CE_NONE {
        Err(GdalError::ReprojectionFailed(diagnostic))
    } else {
        Ok(())
    }
}

} // verus!
