use vstd::prelude::*;

use crate::color::Color;

verus! {

/// A raster of RGBA pixels, stored row by row without padding.
pub struct Image {
    width: u32,
    height: u32,
    pixels: Vec<Color>,
}

/// The color that four consecutive bytes, starting at `start`, spell out.
pub open spec fn color_at(bytes: Seq<u8>, start: int) -> Color {
    [bytes[start], bytes[start + 1], bytes[start + 2], bytes[start + 3]]
}

proof fn lemma_area_fits(width: u32, height: u32)
    ensures
        width as nat * height as nat <= u64::MAX,
{
    assert(width as nat * height as nat <= u32::MAX as nat * u32::MAX as nat) by (nonlinear_arith);
}

impl Clone for Image {
    fn clone(&self) -> (r: Image)
        ensures
            r.spec_width() == self.spec_width(),
            r.spec_height() == self.spec_height(),
            r@ == self@,
    {
        let n: usize = self.pixels.len();
        let mut pixels: Vec<Color> = Vec::with_capacity(n);
        let mut i: usize = 0;
        while i < n
            invariant
                n == self.pixels@.len(),
                i <= n,
                pixels@ == self.pixels@.take(i as int),
            decreases n - i,
        {
            pixels.push(self.pixels[i]);
            i = i + 1;
            assert(pixels@ =~= self.pixels@.take(i as int));
        }
        assert(self.pixels@.take(n as int) =~= self.pixels@);
        self.with_pixels(pixels)
    }
}

impl View for Image {
    type V = Seq<Color>;

    /// The pixels in row-major order.
    closed spec fn view(&self) -> Seq<Color> {
        self.pixels@
    }
}

impl Image {
    #[verifier::type_invariant]
    spec fn shape_holds(&self) -> bool {
        self.pixels@.len() == self.width as nat * self.height as nat
    }

    /// Number of columns.
    pub closed spec fn spec_width(&self) -> nat {
        self.width as nat
    }

    /// Number of rows.
    pub closed spec fn spec_height(&self) -> nat {
        self.height as nat
    }

    /// An image of the given size whose pixels, row by row, are `pixels`;
    /// `None` when their number is not `width * height`.
    pub fn new(width: u32, height: u32, pixels: Vec<Color>) -> (r: Option<Image>)
        ensures
            r is Some <==> pixels@.len() == width as nat * height as nat,
            r matches Some(img) ==> img.spec_width() == width && img.spec_height() == height
                && img@ == pixels@,
    {
        proof {
            lemma_area_fits(width, height);
        }
        let area: u64 = (width as u64) * (height as u64);
        if pixels.len() as u64 == area {
            Some(Image { width, height, pixels })
        } else {
            None
        }
    }

    /// An image read from interleaved RGBA bytes, four per pixel, row by row;
    /// `None` when their number is not `4 * width * height`.
    pub fn from_raw(width: u32, height: u32, bytes: Vec<u8>) -> (r: Option<Image>)
        ensures
            r is Some <==> bytes@.len() == 4 * (width as nat * height as nat),
            r matches Some(img) ==> {
                &&& img.spec_width() == width
                &&& img.spec_height() == height
                &&& img@.len() == width as nat * height as nat
                &&& forall|i: int| 0 <= i < img@.len() ==> #[trigger] img@[i] == color_at(bytes@, 4 * i)
            },
    {
        proof {
            lemma_area_fits(width, height);
        }
        let area: u64 = (width as u64) * (height as u64);
        if bytes.len() % 4 != 0 || (bytes.len() / 4) as u64 != area {
            return None;
        }
        let total: usize = bytes.len();
        let n: usize = total / 4;
        let mut pixels: Vec<Color> = Vec::with_capacity(n);
        let mut i: usize = 0;
        while i < n
            invariant
                total == bytes@.len(),
                n == total / 4,
                total == 4 * n,
                i <= n,
                pixels@.len() == i,
                forall|j: int| 0 <= j < i ==> #[trigger] pixels@[j] == color_at(bytes@, 4 * j),
            decreases n - i,
        {
            assert(4 * i + 3 < bytes@.len());
            let k: usize = 4 * i;
            pixels.push([bytes[k], bytes[k + 1], bytes[k + 2], bytes[k + 3]]);
            i = i + 1;
        }
        Some(Image { width, height, pixels })
    }

    /// The pixels as interleaved RGBA bytes, four per pixel, row by row.
    pub fn to_raw(&self) -> (r: Vec<u8>)
        ensures
            r@.len() == 4 * self@.len(),
            forall|i: int| 0 <= i < self@.len() ==> #[trigger] color_at(r@, 4 * i) == self@[i],
    {
        let mut bytes: Vec<u8> = Vec::new();
        let mut i: usize = 0;
        while i < self.pixels.len()
            invariant
                i <= self.pixels@.len(),
                bytes@.len() == 4 * i,
                forall|j: int| 0 <= j < i ==> #[trigger] color_at(bytes@, 4 * j) == self.pixels@[j],
            decreases self.pixels@.len() - i,
        {
            let c: Color = self.pixels[i];
            let ghost before = bytes@;
            bytes.push(c[0]);
            bytes.push(c[1]);
            bytes.push(c[2]);
            bytes.push(c[3]);
            assert forall|j: int| 0 <= j < i + 1 implies #[trigger] color_at(bytes@, 4 * j)
                == self.pixels@[j] by {
                if j < i {
                    assert(color_at(bytes@, 4 * j) =~= color_at(before, 4 * j));
                } else {
                    assert(color_at(bytes@, 4 * j) =~= c);
                }
            }
            i = i + 1;
        }
        bytes
    }

    /// Number of columns.
    pub fn width(&self) -> (r: u32)
        ensures
            r == self.spec_width(),
    {
        self.width
    }

    /// Number of rows.
    pub fn height(&self) -> (r: u32)
        ensures
            r == self.spec_height(),
    {
        self.height
    }

    /// Number of pixels.
    pub fn len(&self) -> (r: usize)
        ensures
            r == self@.len(),
            r == self.spec_width() * self.spec_height(),
    {
        proof {
            use_type_invariant(self);
        }
        self.pixels.len()
    }

    /// The pixels, row by row.
    pub fn pixels(&self) -> (r: &Vec<Color>)
        ensures
            r@ == self@,
    {
        &self.pixels
    }

    /// The pixel in column `x` of row `y`.
    pub fn get_pixel(&self, x: u32, y: u32) -> (r: Color)
        requires
            x < self.spec_width(),
            y < self.spec_height(),
        ensures
            r == self@[y * self.spec_width() + x],
    {
        proof {
            use_type_invariant(self);
            assert(y * self.spec_width() + x < self.spec_width() * self.spec_height()) by (nonlinear_arith)
                requires
                    x < self.spec_width(),
                    y < self.spec_height(),
            ;
            assert(0 <= y * self.spec_width()) by (nonlinear_arith);
        }
        let total: usize = self.pixels.len();
        assert((y as usize) * (self.width as usize) <= total);
        self.pixels[(y as usize) * (self.width as usize) + (x as usize)]
    }

    /// An image of this one's size with the given pixels.
    pub(crate) fn with_pixels(&self, pixels: Vec<Color>) -> (r: Image)
        requires
            pixels@.len() == self@.len(),
        ensures
            r.spec_width() == self.spec_width(),
            r.spec_height() == self.spec_height(),
            r@ == pixels@,
    {
        proof {
            use_type_invariant(self);
        }
        Image { width: self.width, height: self.height, pixels }
    }
}

} // verus!
