//! Outlining of raster images: the dominant (background) color of an image
//! is estimated once, and every pixel is then classified by its color
//! distance from it into a background color or an outline color.
use vstd::prelude::*;

pub mod color;
pub mod dominant;
pub mod error;
pub mod filter;
pub mod gallery;
pub mod picture;
pub mod process;
pub mod raster;

pub use color::{color_distance, Color};
pub use dominant::dominant_color;
pub use error::OutlineError;
pub use filter::Filter;
pub use gallery::Gallery;
pub use picture::Picture;
pub use process::Process;
pub use raster::Image;

verus! {

} // verus!
