//! A verified pixel-operation engine for raster images.
//!
//! Images are modelled as a positive width and height, a declared
//! colorspace, a declared sample encoding, and one channel buffer per band,
//! each buffer a contiguous byte region. Operations (inversion,
//! transposition) validate the image's colorspace and sample encoding
//! before touching any buffer, then run a numeric kernel proved against an
//! exact element-level contract.
#![verifier::loop_isolation(false)]

pub mod channel;
pub mod colorspace;
pub mod dispatch;
pub mod errors;
pub mod image;
pub mod invert;
pub mod sample;
pub mod transpose;

pub use channel::ChannelBuffer;
pub use colorspace::Colorspace;
pub use errors::{OpError, OpName, ReinterpretError};
pub use image::Image;
pub use invert::{invert, Invert};
pub use sample::{Sample, SampleEncoding};
pub use transpose::{
    transpose_generic, transpose_u16, transpose_u8, Transpose, TransposePath,
};
