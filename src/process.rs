use vstd::prelude::*;

use crate::raster::Image;

verus! {

/// An image held for processing.
pub struct Process {
    image: Image,
}

impl Process {
    /// The image held.
    pub closed spec fn spec_image(&self) -> Image {
        self.image
    }

    /// Holds `image`; never fails.
    pub fn new(image: Image) -> (r: Option<Process>)
        ensures
            r matches Some(p) && p.spec_image() == image,
    {
        Some(Process { image })
    }

    /// The result of processing: a copy of the image held.
    pub fn process(&self) -> (r: Image)
        ensures
            r.spec_width() == self.spec_image().spec_width(),
            r.spec_height() == self.spec_image().spec_height(),
            r@ == self.spec_image()@,
    {
        self.image.clone()
    }
}

} // verus!
