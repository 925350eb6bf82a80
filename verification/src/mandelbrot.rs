//! The result of a fractal computation and its colouring. Each pixel holds
//! whether its orbit stayed bounded and after how many iterations it was
//! decided; colours are spread over the palette by how many pixels escaped
//! earlier, so that every band of the palette covers a like share of them.

use vstd::prelude::*;
use tokio_util::sync::CancellationToken;

verus! {

/// How many pixels were decided after exactly `i` iterations.
pub open spec fn count_eq(set: Seq<(bool, usize)>, i: int) -> nat
    decreases set.len(),
{
    if set.len() == 0 {
        0
    } else {
        count_eq(set.drop_last(), i) + if set.last().1 == i {
            1nat
        } else {
            0nat
        }
    }
}

/// How many pixels were decided after fewer than `bound` iterations.
pub open spec fn count_below(set: Seq<(bool, usize)>, bound: int) -> nat
    decreases set.len(),
{
    if set.len() == 0 {
        0
    } else {
        count_below(set.drop_last(), bound) + if set.last().1 < bound {
            1nat
        } else {
            0nat
        }
    }
}

/// The rank of pixel `k` among all pixels: a bounded pixel ranks last, and
/// any other by the number of pixels that escaped before it did.
pub open spec fn rank(set: Seq<(bool, usize)>, k: int) -> nat {
    if set[k].0 {
        set.len()
    } else {
        count_below(set, set[k].1 as int)
    }
}

/// The place in a palette of `colors` colours from which pixel `k` takes its
/// colour: ranks are spread evenly over the palette, the last rank first.
pub open spec fn palette_slot(set: Seq<(bool, usize)>, k: int, colors: nat) -> int {
    colors - 1 - (rank(set, k) * (colors - 1)) / (set.len() as int)
}

/// The pixel in column `x` of row `y` of an image that is `w` pixels wide.
pub open spec fn pixel_at(set: Seq<(bool, usize)>, w: int, x: int, y: int) -> (bool, usize) {
    set[w * y + x]
}

/// Whether a list of pixels is a result for the iteration limit `maxiter`.
pub open spec fn within_limit(set: Seq<(bool, usize)>, maxiter: usize) -> bool {
    forall|k: int| 0 <= k < set.len() ==> (#[trigger] set[k]).1 <= maxiter
}

proof fn lemma_counts(set: Seq<(bool, usize)>, i: int)
    ensures
        count_below(set, i + 1) == count_below(set, i) + count_eq(set, i),
        count_below(set, i) <= set.len(),
        count_below(set, 0) == 0,
    decreases set.len(),
{
    if set.len() > 0 {
        lemma_counts(set.drop_last(), i);
    }
}

proof fn lemma_count_take(set: Seq<(bool, usize)>, k: int, i: int)
    requires
        0 <= k < set.len(),
    ensures
        count_eq(set.take(k + 1), i) == count_eq(set.take(k), i) + if set[k].1 == i {
            1nat
        } else {
            0nat
        },
{
    assert(set.take(k + 1).drop_last() =~= set.take(k));
}

/// The pixels of a computed image together with the histogram of their
/// iteration counts.
#[derive(Debug)]
pub struct MandelbrotSetWithHistogram {
    set: Vec<(bool, usize)>,
    hist: Vec<usize>,
}

impl View for MandelbrotSetWithHistogram {
    type V = Seq<(bool, usize)>;

    closed spec fn view(&self) -> Seq<(bool, usize)> {
        self.set@
    }
}

impl Default for MandelbrotSetWithHistogram {
    /// An image without pixels.
    fn default() -> (image: MandelbrotSetWithHistogram)
        ensures
            image@ == Seq::<(bool, usize)>::empty(),
            image.maxiter() == 0,
    {
        MandelbrotSetWithHistogram::empty()
    }
}

impl MandelbrotSetWithHistogram {
    #[verifier::type_invariant]
    spec fn tallied(self) -> bool {
        &&& self.hist@.len() > 0
        &&& forall|k: int|
            0 <= k < self.set@.len() ==> (#[trigger] self.set@[k]).1 < self.hist@.len()
        &&& forall|i: int|
            0 <= i < self.hist@.len() ==> #[trigger] self.hist@[i] == count_eq(self.set@, i)
    }

    /// The iteration limit under which the image was computed.
    pub closed spec fn maxiter(&self) -> nat {
        (self.hist@.len() - 1) as nat
    }

    /// An image without pixels.
    pub fn empty() -> (image: Self)
        ensures
            image@ == Seq::<(bool, usize)>::empty(),
            image.maxiter() == 0,
    {
        let mut hist: Vec<usize> = Vec::new();
        hist.push(0);
        MandelbrotSetWithHistogram { set: Vec::new(), hist }
    }

    /// Tallies the pixels of a finished computation. The results are kept
    /// exactly when every iteration count is within `maxiter` and `maxiter`
    /// itself leaves room for one count more.
    pub fn from_results(results: Vec<(bool, usize)>, maxiter: usize) -> (image: Option<Self>)
        ensures
            image is Some <==> maxiter < usize::MAX && within_limit(results@, maxiter),
            image matches Some(m) ==> m@ == results@ && m.maxiter() == maxiter,
    {
        if maxiter == usize::MAX {
            return None;
        }
        let mut hist: Vec<usize> = Vec::new();
        while hist.len() <= maxiter
            invariant
                maxiter < usize::MAX,
                hist@.len() <= maxiter + 1,
                forall|i: int| 0 <= i < hist@.len() ==> hist@[i] == 0,
            decreases maxiter + 1 - hist@.len(),
        {
            hist.push(0);
        }
        let mut k: usize = 0;
        while k < results.len()
            invariant
                k <= results@.len(),
                hist@.len() == maxiter + 1,
                forall|m: int| 0 <= m < k ==> (#[trigger] results@[m]).1 <= maxiter,
                forall|i: int|
                    0 <= i < hist@.len() ==> #[trigger] hist@[i] == count_eq(
                        results@.take(k as int),
                        i,
                    ),
            decreases results@.len() - k,
        {
            let i = results[k].1;
            if i > maxiter {
                return None;
            }
            proof {
                lemma_counts(results@.take(k as int), i as int);
                lemma_counts(results@.take(k as int), i + 1);
                assert forall|j: int| 0 <= j < hist@.len() implies count_eq(
                    results@.take(k + 1),
                    j,
                ) == count_eq(results@.take(k as int), j) + if j == i {
                    1nat
                } else {
                    0nat
                } by {
                    lemma_count_take(results@, k as int, j);
                }
            }
            let bumped = hist[i] + 1;
            hist.set(i, bumped);
            k += 1;
        }
        assert(results@.take(results@.len() as int) =~= results@);
        Some(MandelbrotSetWithHistogram { set: results, hist })
    }

    /// The number of pixels.
    pub fn len(&self) -> (n: usize)
        ensures
            n == self@.len(),
    {
        self.set.len()
    }

    /// The iteration limit under which the image was computed.
    pub fn iteration_limit(&self) -> (maxiter: usize)
        ensures
            maxiter == self.maxiter(),
    {
        proof {
            use_type_invariant(self);
        }
        self.hist.len() - 1
    }

    /// The histogram of the image: for every iteration count up to the
    /// limit, how many pixels were decided after exactly that many
    /// iterations.
    pub fn histogram(&self) -> (hist: &Vec<usize>)
        ensures
            hist@.len() == self.maxiter() + 1,
            forall|i: int| 0 <= i < hist@.len() ==> #[trigger] hist@[i] == count_eq(self@, i),
    {
        proof {
            use_type_invariant(self);
        }
        &self.hist
    }

    /// The pixels, row by row.
    pub fn pixels(&self) -> (set: &Vec<(bool, usize)>)
        ensures
            set@ == self@,
    {
        &self.set
    }

    /// Colours the image: one colour of `palette` for every pixel, in the
    /// order of the pixels.
    pub fn get_image_from_palette(&self, palette: &Vec<(u8, u8, u8)>) -> (image: Vec<(u8, u8, u8)>)
        requires
            palette@.len() > 0,
        ensures
            image@.len() == self@.len(),
            forall|k: int|
                0 <= k < self@.len() ==> 0 <= #[trigger] palette_slot(self@, k, palette@.len())
                    < palette@.len(),
            forall|k: int|
                0 <= k < self@.len() ==> #[trigger] image@[k] == palette@[palette_slot(
                    self@,
                    k,
                    palette@.len(),
                )],
    {
        proof {
            use_type_invariant(self);
        }
        let n = self.set.len();
        let colors = palette.len();
        let mut below: Vec<usize> = Vec::new();
        let mut acc: usize = 0;
        let mut i: usize = 0;
        proof {
            lemma_counts(self.set@, 0);
        }
        while i < self.hist.len()
            invariant
                n == self.set@.len(),
                i <= self.hist@.len(),
                below@.len() == i,
                acc == count_below(self.set@, i as int),
                forall|j: int| 0 <= j < i ==> #[trigger] below@[j] == count_below(self.set@, j),
                forall|j: int|
                    0 <= j < self.hist@.len() ==> #[trigger] self.hist@[j] == count_eq(
                        self.set@,
                        j,
                    ),
            decreases self.hist@.len() - i,
        {
            proof {
                lemma_counts(self.set@, i as int);
                lemma_counts(self.set@, i + 1);
            }
            below.push(acc);
            acc = acc + self.hist[i];
            i += 1;
        }
        let mut image: Vec<(u8, u8, u8)> = Vec::new();
        let mut k: usize = 0;
        while k < n
            invariant
                n == self.set@.len(),
                colors == palette@.len(),
                colors > 0,
                k <= n,
                image@.len() == k,
                below@.len() == self.hist@.len(),
                forall|j: int|
                    0 <= j < below@.len() ==> #[trigger] below@[j] == count_below(self.set@, j),
                forall|m: int|
                    0 <= m < self.set@.len() ==> (#[trigger] self.set@[m]).1 < self.hist@.len(),
                forall|m: int|
                    0 <= m < k ==> 0 <= #[trigger] palette_slot(self.set@, m, colors as nat)
                        < colors,
                forall|m: int|
                    0 <= m < k ==> #[trigger] image@[m] == palette@[palette_slot(
                        self.set@,
                        m,
                        colors as nat,
                    )],
            decreases n - k,
        {
            let (bounded, iterations) = self.set[k];
            let r: usize = if bounded {
                n
            } else {
                below[iterations]
            };
            proof {
                lemma_counts(self.set@, iterations as int);
            }
            let span: usize = colors - 1;
            assert(r * span <= n * span) by (nonlinear_arith)
                requires
                    r <= n,
                    span >= 0,
            ;
            assert(n * span <= 0xffff_ffff_ffff_ffff * 0xffff_ffff_ffff_ffff) by (nonlinear_arith)
                requires
                    0 <= n <= 0xffff_ffff_ffff_ffff,
                    0 <= span <= 0xffff_ffff_ffff_ffff,
            ;
            let scaled: u128 = (r as u128) * (span as u128);
            let color_index: u128 = scaled / (n as u128);
            assert(color_index <= span) by (nonlinear_arith)
                requires
                    color_index == (r * span) / (n as int),
                    r * span <= n * span,
                    n > 0,
                    r >= 0,
                    span >= 0,
            ;
            let slot: usize = span - (color_index as usize);
            image.push(palette[slot]);
            k += 1;
        }
        image
    }
}

/// What the computation does about the pixel in column `x` of row `y` once
/// it has read the token: if the token was found raised the pixel is not
/// started and there is nothing to go on with, and otherwise the pixel is
/// what `pixel` gives for it.
pub fn pixel_unless_cancelled<F: Fn(usize, usize) -> (bool, usize)>(
    cancelled: bool,
    x: usize,
    y: usize,
    pixel: &F,
) -> (r: Option<(bool, usize)>)
    requires
        !cancelled ==> call_requires(*pixel, (x, y)),
    ensures
        cancelled ==> r is None,
        !cancelled ==> r is Some && call_ensures(*pixel, (x, y), r->Some_0),
{
    if cancelled {
        None
    } else {
        Some(pixel(x, y))
    }
}

/// Computes an image of `w` by `h` pixels, row by row, unless it is
/// cancelled on the way. `pixel` decides one pixel from its column and row.
/// The token is read before every pixel and `pixel_unless_cancelled` says
/// what follows from each reading: as soon as the token is found raised the
/// work stops, no further pixel is started and nothing is returned. When
/// the token is raised is up to its other holders: an image, if one is
/// returned, holds what `pixel` gave for every pixel. An image without
/// pixels is always returned.
pub fn compute_set_inner<F: Fn(usize, usize) -> (bool, usize)>(
    w: usize,
    h: usize,
    maxiter: usize,
    ct: &CancellationToken,
    pixel: F,
) -> (image: Option<MandelbrotSetWithHistogram>)
    requires
        w * h <= usize::MAX,
        maxiter < usize::MAX,
        forall|x: usize, y: usize| x < w && y < h ==> call_requires(pixel, (x, y)),
        forall|x: usize, y: usize, r: (bool, usize)|
            x < w && y < h && call_ensures(pixel, (x, y), r) ==> r.1 <= maxiter,
    ensures
        w == 0 || h == 0 ==> image is Some,
        image matches Some(m) ==> m@.len() == w * h && m.maxiter() == maxiter && forall|
            x: usize,
            y: usize,
        |
            x < w && y < h ==> call_ensures(
                pixel,
                (x, y),
                #[trigger] pixel_at(m@, w as int, x as int, y as int),
            ),
{
    let mut set: Vec<(bool, usize)> = Vec::new();
    let mut y: usize = 0;
    while y < h
        invariant
            y <= h,
            w * h <= usize::MAX,
            set@.len() == w * y,
            within_limit(set@, maxiter),
            forall|x: usize, y: usize| x < w && y < h ==> call_requires(pixel, (x, y)),
            forall|x: usize, y: usize, r: (bool, usize)|
                x < w && y < h && call_ensures(pixel, (x, y), r) ==> r.1 <= maxiter,
            forall|xx: usize, yy: usize|
                xx < w && yy < y ==> call_ensures(
                    pixel,
                    (xx, yy),
                    #[trigger] pixel_at(set@, w as int, xx as int, yy as int),
                ),
        decreases h - y,
    {
        let mut x: usize = 0;
        while x < w
            invariant
                y < h,
                x <= w,
                w * h <= usize::MAX,
                set@.len() == w * y + x,
                within_limit(set@, maxiter),
                forall|x: usize, y: usize| x < w && y < h ==> call_requires(pixel, (x, y)),
                forall|x: usize, y: usize, r: (bool, usize)|
                    x < w && y < h && call_ensures(pixel, (x, y), r) ==> r.1 <= maxiter,
                forall|xx: usize, yy: usize|
                    xx < w && (yy < y || (yy == y && xx < x)) ==> call_ensures(
                        pixel,
                        (xx, yy),
                        #[trigger] pixel_at(set@, w as int, xx as int, yy as int),
                    ),
            decreases w - x,
        {
            let result = match pixel_unless_cancelled(ct.is_cancelled(), x, y, &pixel) {
                Some(decided) => decided,
                None => {
                    return None;
                },
            };
            let ghost before = set@;
            set.push(result);
            proof {
                assert(w * y + w <= w * h) by (nonlinear_arith)
                    requires
                        y + 1 <= h,
                        w >= 0,
                ;
                assert forall|xx: usize, yy: usize|
                    xx < w && (yy < y || (yy == y && xx < x + 1)) implies call_ensures(
                    pixel,
                    (xx, yy),
                    #[trigger] pixel_at(set@, w as int, xx as int, yy as int),
                ) by {
                    if yy != y || xx != x {
                        assert(w * yy + xx < w * y + x) by (nonlinear_arith)
                            requires
                                xx < w,
                                0 <= yy,
                                yy < y || (yy == y && xx < x),
                        ;
                        assert(pixel_at(set@, w as int, xx as int, yy as int) == pixel_at(
                            before,
                            w as int,
                            xx as int,
                            yy as int,
                        ));
                    }
                }
            }
            x += 1;
        }
        proof {
            assert(w * (y + 1) == w * y + w) by (nonlinear_arith);
        }
        y += 1;
    }
    MandelbrotSetWithHistogram::from_results(set, maxiter)
}

} // verus!
