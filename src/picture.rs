use vstd::prelude::*;

use crate::color::Color;
use crate::dominant::{dominant_color, is_dominant};
use crate::error::OutlineError;
use crate::filter::{render, Filter};
use crate::raster::Image;

verus! {

/// A source image with its dominant background color, computed once, and
/// its filtered image.
pub struct Picture {
    source: Image,
    background: Color,
    filtered: Image,
}

/// `p`'s filtered image is the render pass of `f` over its source, against
/// its dominant background color, and has the source's size.
pub open spec fn rendered_by(p: Picture, f: Filter) -> bool {
    &&& p.spec_filtered()@ == render(f, p.spec_background(), p.spec_source()@)
    &&& p.spec_filtered().spec_width() == p.spec_source().spec_width()
    &&& p.spec_filtered().spec_height() == p.spec_source().spec_height()
}

impl Picture {
    #[verifier::type_invariant]
    spec fn consistent(&self) -> bool {
        &&& is_dominant(self.source@, self.background)
        &&& self.filtered.spec_width() == self.source.spec_width()
        &&& self.filtered.spec_height() == self.source.spec_height()
    }

    /// The source image.
    pub closed spec fn spec_source(&self) -> Image {
        self.source
    }

    /// The dominant color of the source image.
    pub closed spec fn spec_background(&self) -> Color {
        self.background
    }

    /// The filtered image.
    pub closed spec fn spec_filtered(&self) -> Image {
        self.filtered
    }

    /// A picture of `source` filtered by `filter`; fails with `EmptyImage`
    /// when `source` has no pixels.
    pub fn new(source: Image, filter: &Filter) -> (r: Result<Picture, OutlineError>)
        ensures
            r is Err <==> source@.len() == 0,
            r matches Err(e) ==> e == OutlineError::EmptyImage,
            r matches Ok(p) ==> {
                &&& p.spec_source() == source
                &&& is_dominant(source@, p.spec_background())
                &&& rendered_by(p, *filter)
            },
    {
        match dominant_color(&source) {
            None => Err(OutlineError::EmptyImage),
            Some(background) => {
                let filtered = filter.on_source(&source, background);
                Ok(Picture { source, background, filtered })
            },
        }
    }

    /// Renders the source again with `filter`; the source and its dominant
    /// color stay as they are.
    pub fn update(&mut self, filter: &Filter)
        ensures
            final(self).spec_source() == old(self).spec_source(),
            final(self).spec_background() == old(self).spec_background(),
            rendered_by(*final(self), *filter),
    {
        proof {
            use_type_invariant(&*self);
        }
        let filtered = filter.on_source(&self.source, self.background);
        self.filtered = filtered;
    }

    /// The source image.
    pub fn source(&self) -> (r: &Image)
        ensures
            *r == self.spec_source(),
    {
        &self.source
    }

    /// The dominant color of the source image.
    pub fn background(&self) -> (r: Color)
        ensures
            r == self.spec_background(),
            is_dominant(self.spec_source()@, r),
    {
        proof {
            use_type_invariant(self);
        }
        self.background
    }

    /// The filtered image.
    pub fn filtered(&self) -> (r: &Image)
        ensures
            *r == self.spec_filtered(),
            r.spec_width() == self.spec_source().spec_width(),
            r.spec_height() == self.spec_source().spec_height(),
    {
        proof {
            use_type_invariant(self);
        }
        &self.filtered
    }
}

/// Re-rendering is deterministic: two pictures of the same source and
/// background color, rendered by the same filter, hold identical filtered
/// pixels of identical size.
pub proof fn lemma_rerender_idempotent(p: Picture, q: Picture, f: Filter)
    requires
        p.spec_source() == q.spec_source(),
        p.spec_background() == q.spec_background(),
        rendered_by(p, f),
        rendered_by(q, f),
    ensures
        p.spec_filtered()@ == q.spec_filtered()@,
        p.spec_filtered().spec_width() == q.spec_filtered().spec_width(),
        p.spec_filtered().spec_height() == q.spec_filtered().spec_height(),
{
}

} // verus!
