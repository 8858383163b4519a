//! Verified core of a raster-reprojection wrapper.
//!
//! An external native library performs the actual warp: it resamples the
//! pixels of a source raster dataset into a destination dataset's grid and
//! coordinate system. This crate holds the part of that operation that is
//! plain logic and proves it: the closed set of resampling algorithms and
//! their numeric codes, the fixed request each operation sends across the
//! foreign boundary, and the translation of the boundary's status reply
//! into a structured result. The foreign call itself, being `unsafe` and
//! tied to the native library, stays with the caller.

mod errors;
mod warp;

pub use errors::GdalError;
pub use warp::CE_NONE;
pub use warp::ResamplingAlgorithm;
pub use warp::WarpRequest;
pub use warp::reproject_request;
pub use warp::reproject_request_spec;
pub use warp::resampling_request;
pub use warp::resampling_request_spec;
pub use warp::warp_outcome;
pub use warp::warp_outcome_spec;
