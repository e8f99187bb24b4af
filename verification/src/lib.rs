//! Linear demosaicing of Bayer mosaics, with the post-processor that applies
//! it and the settings of the dcraw-style raw processing.

pub mod bayer;
pub mod dalim;
pub mod dcraw;
pub mod demosaic;
pub mod laws;
pub mod primitive;

pub use bayer::{BayerChannel, BayerImage, BayerPattern, Mosaic, RgbImage};
pub use dalim::{Dalim, DalimParams, Demosaicer};
pub use dcraw::{DCRawOutputBps, DCRawOutputColor, DCRawParams, LibrawError, LibrawOutputParams};
pub use demosaic::DemosaicLinear;
pub use primitive::FornaxPrimitive;
