use vstd::prelude::*;
use std::collections::HashMap;

use crate::color::Color;
use crate::raster::Image;

verus! {

broadcast use vstd::std_specs::hash::group_hash_axioms;

/// How many times `c` occurs in `s`.
pub open spec fn count(s: Seq<Color>, c: Color) -> nat
    decreases s.len(),
{
    if s.len() == 0 {
        0
    } else {
        count(s.drop_last(), c) + if s.last() == c {
            1nat
        } else {
            0nat
        }
    }
}

/// `r` is the dominant color of `s`: no color occurs more often than `r`, and
/// among the colors that occur as often, `r` is the one whose running count
/// reaches that number first when `s` is scanned from the start (the scan
/// reaches it at index `k`, and no earlier pixel's running count got there).
pub open spec fn is_dominant(s: Seq<Color>, r: Color) -> bool {
    &&& forall|d: Color| #[trigger] count(s, d) <= count(s, r)
    &&& exists|k: int|
        0 <= k < s.len() && s[k] == r && #[trigger] count(s.take(k + 1), r) == count(s, r)
            && forall|j: int|
            0 <= j < k ==> #[trigger] count(s.take(j + 1), s[j]) < count(s, r)
}

/// A color that occurs more often than every other color is the dominant
/// color.
pub proof fn lemma_strict_majority_wins(s: Seq<Color>, c: Color, r: Color)
    requires
        forall|d: Color| d != c ==> #[trigger] count(s, d) < count(s, c),
        is_dominant(s, r),
    ensures
        r == c,
{
    assert(count(s, c) <= count(s, r));
}

/// The tie-break leaves no choice: a sequence has at most one dominant
/// color.
pub proof fn lemma_dominant_unique(s: Seq<Color>, r1: Color, r2: Color)
    requires
        is_dominant(s, r1),
        is_dominant(s, r2),
    ensures
        r1 == r2,
{
    assert(count(s, r1) == count(s, r2));
    let k1 = choose|k: int|
        0 <= k < s.len() && s[k] == r1 && #[trigger] count(s.take(k + 1), r1) == count(s, r1)
            && forall|j: int| 0 <= j < k ==> #[trigger] count(s.take(j + 1), s[j]) < count(s, r1);
    let k2 = choose|k: int|
        0 <= k < s.len() && s[k] == r2 && #[trigger] count(s.take(k + 1), r2) == count(s, r2)
            && forall|j: int| 0 <= j < k ==> #[trigger] count(s.take(j + 1), s[j]) < count(s, r2);
    if k1 < k2 {
        assert(count(s.take(k1 + 1), s[k1]) < count(s, r2));
    } else if k2 < k1 {
        assert(count(s.take(k2 + 1), s[k2]) < count(s, r1));
    }
}

/// The running tally of a color's key in the frequency table.
spec fn tally(m: Map<u32, usize>, k: u32) -> nat {
    if m.contains_key(k) {
        m[k] as nat
    } else {
        0
    }
}

/// The key of a color in the frequency table: its four channels packed
/// into one word.
spec fn color_key(c: Color) -> u32 {
    (c[0] as u32) | ((c[1] as u32) << 8u32) | ((c[2] as u32) << 16u32) | ((c[3] as u32) << 24u32)
}

proof fn lemma_color_key_injective(a: Color, b: Color)
    requires
        color_key(a) == color_key(b),
    ensures
        a == b,
{
    let (a0, a1, a2, a3, b0, b1, b2, b3) = (a[0], a[1], a[2], a[3], b[0], b[1], b[2], b[3]);
    assert(a0 == b0 && a1 == b1 && a2 == b2 && a3 == b3) by (bit_vector)
        requires
            (a0 as u32) | ((a1 as u32) << 8u32) | ((a2 as u32) << 16u32) | ((a3 as u32) << 24u32)
                == (b0 as u32) | ((b1 as u32) << 8u32) | ((b2 as u32) << 16u32) | ((b3 as u32)
                << 24u32),
    ;
    assert(a =~= b);
}

proof fn lemma_count_step(s: Seq<Color>, i: int, c: Color)
    requires
        0 <= i < s.len(),
    ensures
        count(s.take(i + 1), c) == count(s.take(i), c) + if s[i] == c {
            1nat
        } else {
            0nat
        },
{
    assert(s.take(i + 1).drop_last() =~= s.take(i));
}

proof fn lemma_count_bounded(s: Seq<Color>, c: Color)
    ensures
        count(s, c) <= s.len(),
    decreases s.len(),
{
    if s.len() > 0 {
        lemma_count_bounded(s.drop_last(), c);
    }
}

proof fn lemma_count_monotone(s: Seq<Color>, a: int, b: int, c: Color)
    requires
        0 <= a <= b <= s.len(),
    ensures
        count(s.take(a), c) <= count(s.take(b), c),
    decreases b - a,
{
    if a < b {
        lemma_count_monotone(s, a, b - 1, c);
        lemma_count_step(s, b - 1, c);
    }
}

/// Packs a color into its frequency-table key.
fn key_of(c: Color) -> (r: u32)
    ensures
        r == color_key(c),
{
    (c[0] as u32) | ((c[1] as u32) << 8u32) | ((c[2] as u32) << 16u32) | ((c[3] as u32) << 24u32)
}

/// The most frequent color of `image`, with ties going to the color whose
/// count reaches the maximum first in row-major order; `None` for an image
/// without pixels.
pub fn dominant_color(image: &Image) -> (r: Option<Color>)
    ensures
        r is None <==> image@.len() == 0,
        r matches Some(c) ==> is_dominant(image@, c),
{
    let pixels: &Vec<Color> = image.pixels();
    let ghost s = pixels@;
    let n: usize = pixels.len();
    if n == 0 {
        return None;
    }
    let mut table: HashMap<u32, usize> = HashMap::new();
    let mut best: Color = pixels[0];
    let mut best_count: usize = 0;
    let ghost mut best_at: int = 0;
    let mut i: usize = 0;
    while i < n
        invariant
            s == image@,
            s == pixels@,
            n == s.len(),
            0 < n,
            i <= n,
            forall|c: Color| #[trigger] count(s.take(i as int), c) == tally(table@, color_key(c)),
            i == 0 ==> best_count == 0,
            i > 0 ==> {
                &&& 0 <= best_at < i
                &&& s[best_at] == best
                &&& best_count == count(s.take(i as int), best)
                &&& count(s.take(best_at + 1), best) == best_count
                &&& forall|d: Color| #[trigger] count(s.take(i as int), d) <= best_count
                &&& forall|j: int|
                    0 <= j < best_at ==> #[trigger] count(s.take(j + 1), s[j]) < best_count
            },
        decreases n - i,
    {
        let p: Color = pixels[i];
        let key: u32 = key_of(p);
        let seen: usize = match table.get(&key) {
            Some(v) => *v,
            None => 0,
        };
        proof {
            assert(seen == count(s.take(i as int), p));
            lemma_count_bounded(s.take(i as int), p);
        }
        let now: usize = seen + 1;
        let ghost before = table@;
        table.insert(key, now);
        proof {
            assert(table@ == before.insert(key, now));
            assert forall|c: Color| #[trigger] count(s.take(i + 1), c) == tally(table@, color_key(c)) by {
                lemma_count_step(s, i as int, c);
                assert(count(s.take(i as int), c) == tally(before, color_key(c)));
                if color_key(c) == key {
                    lemma_color_key_injective(c, p);
                } else {
                    assert(c != p);
                }
            }
        }
        if now > best_count {
            proof {
                assert forall|d: Color| #[trigger] count(s.take(i + 1), d) <= now by {
                    lemma_count_step(s, i as int, d);
                }
                assert forall|j: int| 0 <= j < i implies #[trigger] count(s.take(j + 1), s[j]) < now by {
                    lemma_count_monotone(s, j + 1, i as int, s[j]);
                }
                assert(s.take(i + 1).take(i + 1) =~= s.take(i + 1));
                best_at = i as int;
            }
            best = p;
            best_count = now;
        } else {
            proof {
                lemma_count_step(s, i as int, best);
                assert forall|d: Color| #[trigger] count(s.take(i + 1), d) <= best_count by {
                    lemma_count_step(s, i as int, d);
                }
            }
        }
        i = i + 1;
    }
    proof {
        assert(s.take(n as int) =~= s);
        assert(0 <= best_at < s.len() && s[best_at] == best && count(s.take(best_at + 1), best)
            == count(s, best));
    }
    Some(best)
}

} // verus!
