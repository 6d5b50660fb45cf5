//! Image service core: a fixed, ordered pixel pipeline (grayscale blend,
//! brightness scale, threshold, quarter-turn rotation) over RGBA rasters,
//! the addressing rules of the image store, and the decisions of the
//! request handlers, with every function proved against its contract.

pub mod channel;
pub mod codec;
pub mod error;
pub mod mesh;
pub mod pipeline;
pub mod precision;
pub mod raster;
pub mod rotation;
pub mod routes;
pub mod service;
pub mod stages;
pub mod store;
