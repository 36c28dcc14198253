use vstd::prelude::*;

use crate::color::{color_distance, distance, Color};
use crate::error::OutlineError;
use crate::raster::Image;

verus! {

/// The settings of a render pass: pixels closer to the reference background
/// than `sensitivity` become `background`, all others become `outline`.
#[derive(Debug, Clone, Copy, PartialEq, Eq)]
pub struct Filter {
    pub sensitivity: u8,
    pub outline: Color,
    pub background: Color,
}

/// The output color of a pixel `p` of an image whose reference background is
/// `reference`.
pub open spec fn classify(f: Filter, reference: Color, p: Color) -> Color {
    if distance(reference, p) / 4 < f.sensitivity {
        f.background
    } else {
        f.outline
    }
}

/// The pixels of the filtered image, one for each pixel of `src`.
pub open spec fn render(f: Filter, reference: Color, src: Seq<Color>) -> Seq<Color> {
    Seq::new(src.len(), |i: int| classify(f, reference, src[i]))
}

/// The color that a settings record's channel list stands for: exactly four
/// values, each at most 255.
pub open spec fn color_of_channels(v: Seq<u64>) -> Option<Color> {
    if v.len() == 4 && forall|i: int| 0 <= i < 4 ==> #[trigger] v[i] <= 255 {
        Some([v[0] as u8, v[1] as u8, v[2] as u8, v[3] as u8])
    } else {
        None
    }
}

/// The channel list that a color is written as in a settings record.
pub open spec fn channels_of_color(c: Color) -> Seq<u64> {
    seq![c[0] as u64, c[1] as u64, c[2] as u64, c[3] as u64]
}

/// The filter that a settings record describes, if it is well formed.
pub open spec fn filter_of_record(sensitivity: u64, outline: Seq<u64>, background: Seq<u64>) -> Option<
    Filter,
> {
    if sensitivity <= 255 && color_of_channels(outline) is Some && color_of_channels(background) is Some {
        Some(
            Filter {
                sensitivity: sensitivity as u8,
                outline: color_of_channels(outline)->Some_0,
                background: color_of_channels(background)->Some_0,
            },
        )
    } else {
        None
    }
}

fn color_from_channels(v: &Vec<u64>) -> (r: Option<Color>)
    ensures
        r == color_of_channels(v@),
{
    if v.len() != 4 {
        return None;
    }
    if v[0] > 255 || v[1] > 255 || v[2] > 255 || v[3] > 255 {
        assert(!(forall|i: int| 0 <= i < 4 ==> #[trigger] v@[i] <= 255));
        return None;
    }
    let r: Color = [v[0] as u8, v[1] as u8, v[2] as u8, v[3] as u8];
    assert(r =~= color_of_channels(v@)->Some_0);
    Some(r)
}

fn channels_from_color(c: Color) -> (r: Vec<u64>)
    ensures
        r@ == channels_of_color(c),
{
    let r: Vec<u64> = vec![c[0] as u64, c[1] as u64, c[2] as u64, c[3] as u64];
    assert(r@ =~= channels_of_color(c));
    r
}

impl Filter {
    /// The filter that a settings record describes: a sensitivity and two
    /// colors, each written as four channel values. Fails with
    /// `ConfigParseError` when a value exceeds 255 or a color does not have
    /// exactly four channels.
    pub fn new(sensitivity: u64, outline: &Vec<u64>, background: &Vec<u64>) -> (r: Result<
        Filter,
        OutlineError,
    >)
        ensures
            r is Ok <==> filter_of_record(sensitivity, outline@, background@) is Some,
            r matches Ok(f) ==> filter_of_record(sensitivity, outline@, background@) == Some(f),
            r matches Err(e) ==> e == OutlineError::ConfigParseError,
    {
        if sensitivity > 255 {
            return Err(OutlineError::ConfigParseError);
        }
        let o = color_from_channels(outline);
        let b = color_from_channels(background);
        match (o, b) {
            (Some(outline), Some(background)) => Ok(
                Filter { sensitivity: sensitivity as u8, outline, background },
            ),
            _ => Err(OutlineError::ConfigParseError),
        }
    }

    /// The settings record of this filter: the sensitivity and the channel
    /// lists of the outline and background colors.
    pub fn to_record(&self) -> (r: (u64, Vec<u64>, Vec<u64>))
        ensures
            r.0 == self.sensitivity,
            r.1@ == channels_of_color(self.outline),
            r.2@ == channels_of_color(self.background),
    {
        (self.sensitivity as u64, channels_from_color(self.outline), channels_from_color(self.background))
    }

    /// The output color of a source pixel `pixel` when the image's
    /// reference background is `reference`.
    pub fn make_pixel(&self, pixel: Color, reference: Color) -> (r: Color)
        ensures
            r == classify(*self, reference, pixel),
    {
        let distance: u16 = color_distance(reference, pixel) / 4;
        if (distance as u8) < self.sensitivity {
            self.background
        } else {
            self.outline
        }
    }

    /// The filtered image of `source`: each pixel classified against
    /// `reference`, the size kept.
    pub fn on_source(&self, source: &Image, reference: Color) -> (r: Image)
        ensures
            r.spec_width() == source.spec_width(),
            r.spec_height() == source.spec_height(),
            r@ == render(*self, reference, source@),
    {
        let pixels: &Vec<Color> = source.pixels();
        let n: usize = pixels.len();
        let mut out: Vec<Color> = Vec::with_capacity(n);
        let mut i: usize = 0;
        while i < n
            invariant
                n == pixels@.len(),
                pixels@ == source@,
                i <= n,
                out@ == render(*self, reference, pixels@.take(i as int)),
            decreases n - i,
        {
            let c: Color = self.make_pixel(pixels[i], reference);
            out.push(c);
            i = i + 1;
            assert(out@ =~= render(*self, reference, pixels@.take(i as int)));
        }
        assert(pixels@.take(n as int) =~= pixels@);
        source.with_pixels(out)
    }
}

/// A pixel equal to the reference background is at distance zero, so it
/// becomes the background color exactly when the sensitivity is above zero,
/// and the outline color when it is zero.
pub proof fn lemma_reference_pixel(f: Filter, c: Color)
    ensures
        distance(c, c) == 0,
        classify(f, c, c) == if f.sensitivity > 0 {
            f.background
        } else {
            f.outline
        },
{
}

/// Writing a filter as a settings record and reading the record back gives
/// the same filter.
pub proof fn lemma_record_round_trip(f: Filter)
    ensures
        filter_of_record(
            f.sensitivity as u64,
            channels_of_color(f.outline),
            channels_of_color(f.background),
        ) == Some(f),
{
    let o = channels_of_color(f.outline);
    let b = channels_of_color(f.background);
    assert(color_of_channels(o)->Some_0 =~= f.outline);
    assert(color_of_channels(b)->Some_0 =~= f.background);
}

impl Default for Filter {
    /// Sensitivity 128, opaque black outline, fully transparent background.
    fn default() -> (r: Filter)
        ensures
            r.sensitivity == 128,
            r.outline == [0u8, 0u8, 0u8, 255u8],
            r.background == [0u8, 0u8, 0u8, 0u8],
    {
        Filter { sensitivity: 128, outline: [0, 0, 0, 255], background: [0, 0, 0, 0] }
    }
}

} // verus!
