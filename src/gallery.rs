use vstd::prelude::*;

use crate::error::OutlineError;
use crate::filter::{filter_of_record, Filter};
use crate::picture::{rendered_by, Picture};
use crate::raster::Image;

verus! {

/// The loaded pictures together with the active filter; every picture is
/// kept rendered by that filter.
pub struct Gallery {
    pictures: Vec<Picture>,
    filter: Filter,
}

impl Gallery {
    #[verifier::type_invariant]
    spec fn all_rendered(&self) -> bool {
        forall|i: int| 0 <= i < self.pictures@.len() ==> rendered_by(#[trigger] self.pictures@[i], self.filter)
    }

    /// The loaded pictures, in the order they were added.
    pub closed spec fn spec_pictures(&self) -> Seq<Picture> {
        self.pictures@
    }

    /// The active filter.
    pub closed spec fn spec_filter(&self) -> Filter {
        self.filter
    }

    /// An empty gallery with the default filter.
    pub fn new() -> (r: Gallery)
        ensures
            r.spec_pictures().len() == 0,
            r.spec_filter().sensitivity == 128,
            r.spec_filter().outline == [0u8, 0u8, 0u8, 255u8],
            r.spec_filter().background == [0u8, 0u8, 0u8, 0u8],
    {
        Gallery { pictures: Vec::new(), filter: Filter::default() }
    }

    /// The active filter.
    pub fn filter(&self) -> (r: Filter)
        ensures
            r == self.spec_filter(),
    {
        self.filter
    }

    /// The loaded pictures, each rendered by the active filter.
    pub fn pictures(&self) -> (r: &Vec<Picture>)
        ensures
            r@ == self.spec_pictures(),
            forall|i: int| 0 <= i < r@.len() ==> rendered_by(#[trigger] r@[i], self.spec_filter()),
    {
        proof {
            use_type_invariant(self);
        }
        &self.pictures
    }

    /// Adds a picture of `source`, rendered by the active filter. Fails with
    /// `EmptyImage`, and changes nothing, when `source` has no pixels.
    pub fn add_image(&mut self, source: Image) -> (r: Result<(), OutlineError>)
        ensures
            r is Err <==> source@.len() == 0,
            r matches Err(e) ==> e == OutlineError::EmptyImage && *final(self) == *old(self),
            final(self).spec_filter() == old(self).spec_filter(),
            r is Ok ==> {
                &&& final(self).spec_pictures().len() == old(self).spec_pictures().len() + 1
                &&& final(self).spec_pictures().drop_last() == old(self).spec_pictures()
                &&& final(self).spec_pictures().last().spec_source() == source
                &&& rendered_by(final(self).spec_pictures().last(), final(self).spec_filter())
            },
    {
        proof {
            use_type_invariant(&*self);
        }
        match Picture::new(source, &self.filter) {
            Ok(picture) => {
                let mut pictures: Vec<Picture> = Vec::new();
                std::mem::swap(&mut pictures, &mut self.pictures);
                let ghost before = pictures@;
                pictures.push(picture);
                assert(pictures@.drop_last() =~= before);
                self.pictures = pictures;
                Ok(())
            },
            Err(e) => Err(e),
        }
    }

    /// Removes every picture.
    pub fn clear(&mut self)
        ensures
            final(self).spec_pictures().len() == 0,
            final(self).spec_filter() == old(self).spec_filter(),
    {
        self.pictures = Vec::new();
    }

    /// Makes `filter` the active filter and renders every picture again.
    pub fn apply_filter(&mut self, filter: Filter)
        ensures
            final(self).spec_filter() == filter,
            final(self).spec_pictures().len() == old(self).spec_pictures().len(),
            forall|i: int|
                0 <= i < final(self).spec_pictures().len() ==> {
                    &&& (#[trigger] final(self).spec_pictures()[i]).spec_source()
                        == old(self).spec_pictures()[i].spec_source()
                    &&& final(self).spec_pictures()[i].spec_background()
                        == old(self).spec_pictures()[i].spec_background()
                    &&& rendered_by(final(self).spec_pictures()[i], filter)
                },
    {
        let mut pictures: Vec<Picture> = Vec::new();
        std::mem::swap(&mut pictures, &mut self.pictures);
        let ghost before = pictures@;
        let n: usize = pictures.len();
        let mut i: usize = 0;
        while i < n
            invariant
                n == pictures@.len(),
                n == before.len(),
                i <= n,
                forall|j: int|
                    0 <= j < n ==> {
                        &&& (#[trigger] pictures@[j]).spec_source() == before[j].spec_source()
                        &&& pictures@[j].spec_background() == before[j].spec_background()
                    },
                forall|j: int| 0 <= j < i ==> rendered_by(#[trigger] pictures@[j], filter),
            decreases n - i,
        {
            pictures[i].update(&filter);
            i = i + 1;
        }
        self.filter = filter;
        self.pictures = pictures;
    }

    /// Reads a settings record (see `Filter::new`) and, when it is well
    /// formed, applies its filter as `apply_filter` does. On a malformed
    /// record it fails with `ConfigParseError` and changes nothing.
    pub fn load_config(&mut self, sensitivity: u64, outline: &Vec<u64>, background: &Vec<u64>) -> (r:
        Result<(), OutlineError>)
        ensures
            r is Ok <==> filter_of_record(sensitivity, outline@, background@) is Some,
            r matches Err(e) ==> e == OutlineError::ConfigParseError && *final(self) == *old(self),
            r is Ok ==> {
                &&& Some(final(self).spec_filter()) == filter_of_record(
                    sensitivity,
                    outline@,
                    background@,
                )
                &&& final(self).spec_pictures().len() == old(self).spec_pictures().len()
                &&& forall|i: int|
                    0 <= i < final(self).spec_pictures().len() ==> {
                        &&& (#[trigger] final(self).spec_pictures()[i]).spec_source()
                            == old(self).spec_pictures()[i].spec_source()
                        &&& rendered_by(final(self).spec_pictures()[i], final(self).spec_filter())
                    }
            },
    {
        match Filter::new(sensitivity, outline, background) {
            Ok(filter) => {
                self.apply_filter(filter);
                Ok(())
            },
            Err(e) => Err(e),
        }
    }
}

} // verus!
