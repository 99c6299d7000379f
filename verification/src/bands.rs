use vstd::prelude::*;

verus! {

use vstd::arithmetic::div_mod::{lemma_div_is_ordered, lemma_div_multiples_vanish};
use vstd::arithmetic::mul::{lemma_mul_inequality, lemma_mul_is_commutative};
use crate::pixel::Rgb;

// The image is cut into one contiguous band of rows per worker.  Band `i`
// holds the rows from `band_start(.., i)` up to `band_start(.., i + 1)`, so
// the bands are ordered top to bottom, cover every row exactly once, and
// differ in size by at most one row.

/// First row of band `i` when `height` rows are split among `workers` bands.
pub open spec fn band_start(height: int, workers: int, i: int) -> int {
    i * height / workers
}

/// Band starts never step backwards.
pub proof fn lemma_band_start_monotonic(height: int, workers: int, i: int, j: int)
    requires
        0 <= height,
        0 < workers,
        i <= j,
    ensures
        band_start(height, workers, i) <= band_start(height, workers, j),
{
    lemma_mul_inequality(i, j, height);
    lemma_div_is_ordered(i * height, j * height, workers);
}

/// The first band starts at the top row and the band past the last one
/// starts at the bottom edge.
pub proof fn lemma_band_start_ends(height: int, workers: int)
    requires
        0 <= height,
        0 < workers,
    ensures
        band_start(height, workers, 0) == 0,
        band_start(height, workers, workers) == height,
{
    lemma_mul_is_commutative(workers, height);
    lemma_div_multiples_vanish(height, workers);
}

/// Every row below the start of band `k` lies in some earlier band.
proof fn lemma_bands_cover_below(height: int, workers: int, k: int, y: int)
    requires
        0 <= height,
        0 < workers,
        0 <= k <= workers,
        0 <= y < band_start(height, workers, k),
    ensures
        exists|i: int|
            0 <= i < k && #[trigger] band_start(height, workers, i) <= y && y < band_start(
                height,
                workers,
                i + 1,
            ),
    decreases k,
{
    if k == 0 {
        assert(band_start(height, workers, 0) == 0);
    } else if band_start(height, workers, k - 1) <= y {
        assert(0 <= k - 1 < k && band_start(height, workers, k - 1) <= y < band_start(
            height,
            workers,
            k,
        ));
    } else {
        lemma_bands_cover_below(height, workers, k - 1, y);
    }
}

/// The bands tile the image: every row lies in exactly one band.
pub proof fn lemma_bands_cover(height: int, workers: int, y: int)
    requires
        0 < workers,
        0 <= y < height,
    ensures
        exists|i: int|
            0 <= i < workers && #[trigger] band_start(height, workers, i) <= y && y < band_start(
                height,
                workers,
                i + 1,
            ),
        forall|i: int, j: int|
            (0 <= i < workers && #[trigger] band_start(height, workers, i) <= y && y < band_start(
                height,
                workers,
                i + 1,
            ) && 0 <= j < workers && #[trigger] band_start(height, workers, j) <= y && y
                < band_start(height, workers, j + 1)) ==> i == j,
{
    lemma_band_start_ends(height, workers);
    lemma_bands_cover_below(height, workers, workers, y);
    assert forall|i: int, j: int|
        (0 <= i < workers && #[trigger] band_start(height, workers, i) <= y && y < band_start(
            height,
            workers,
            i + 1,
        ) && 0 <= j < workers && #[trigger] band_start(height, workers, j) <= y && y < band_start(
            height,
            workers,
            j + 1,
        )) implies i == j by {
        if i < j {
            lemma_band_start_monotonic(height, workers, i + 1, j);
        } else if j < i {
            lemma_band_start_monotonic(height, workers, j + 1, i);
        }
    }
}

/// The row interval of band `i`: its first row and the row past its last.
pub fn band_bounds(height: usize, workers: usize, i: usize) -> (r: (usize, usize))
    requires
        0 < workers,
        i < workers,
        workers * height <= usize::MAX,
    ensures
        r.0 == band_start(height as int, workers as int, i as int),
        r.1 == band_start(height as int, workers as int, i as int + 1),
        r.0 <= r.1 <= height,
{
    proof {
        lemma_mul_inequality(i as int, workers as int, height as int);
        lemma_mul_inequality(i as int + 1, workers as int, height as int);
        lemma_band_start_monotonic(height as int, workers as int, i as int, i as int + 1);
        lemma_band_start_ends(height as int, workers as int);
        lemma_band_start_monotonic(height as int, workers as int, i as int + 1, workers as int);
    }
    ((i * height) / workers, ((i + 1) * height) / workers)
}

/// The whole partition, in band order: one `(first row, past-last row)`
/// interval per worker.
pub fn plan_bands(height: usize, workers: usize) -> (r: Vec<(usize, usize)>)
    requires
        0 < workers,
        workers * height <= usize::MAX,
    ensures
        r@.len() == workers,
        forall|i: int|
            0 <= i < workers ==> #[trigger] r@[i] == (
                band_start(height as int, workers as int, i) as usize,
                band_start(height as int, workers as int, i + 1) as usize,
            ),
{
    let mut r: Vec<(usize, usize)> = Vec::new();
    let mut i: usize = 0;
    while i < workers
        invariant
            i <= workers,
            0 < workers,
            workers * height <= usize::MAX,
            r@.len() == i,
            forall|k: int|
                0 <= k < i ==> #[trigger] r@[k] == (
                    band_start(height as int, workers as int, k) as usize,
                    band_start(height as int, workers as int, k + 1) as usize,
                ),
        decreases workers - i,
    {
        let b = band_bounds(height, workers, i);
        r.push(b);
        i = i + 1;
    }
    r
}

/// The per-worker buffers, viewed as sequences, in band order.
pub open spec fn band_views(bands: Seq<Vec<Rgb>>) -> Seq<Seq<Rgb>> {
    Seq::new(bands.len(), |i: int| bands[i]@)
}

/// Join the per-worker buffers strictly in band order, worker 0 first.
pub fn assemble_bands(bands: &Vec<Vec<Rgb>>) -> (r: Vec<Rgb>)
    ensures
        r@ == band_views(bands@).flatten(),
{
    let mut r: Vec<Rgb> = Vec::new();
    let mut i: usize = 0;
    proof {
        assert(band_views(bands@.take(0)).flatten() =~= Seq::<Rgb>::empty());
    }
    while i < bands.len()
        invariant
            i <= bands@.len(),
            r@ == band_views(bands@.take(i as int)).flatten(),
        decreases bands@.len() - i,
    {
        let band: &Vec<Rgb> = &bands[i];
        let mut j: usize = 0;
        proof {
            assert(r@ + band@.take(0) =~= r@);
        }
        let ghost joined = r@;
        while j < band.len()
            invariant
                j <= band@.len(),
                r@ == joined + band@.take(j as int),
            decreases band@.len() - j,
        {
            r.push(band[j]);
            proof {
                assert(joined + band@.take(j as int + 1) =~= (joined + band@.take(j as int)).push(
                    band@[j as int],
                ));
            }
            j = j + 1;
        }
        proof {
            assert(band@.take(band@.len() as int) =~= band@);
            assert(band_views(bands@.take(i as int + 1)) =~= band_views(
                bands@.take(i as int),
            ).push(bands@[i as int]@));
            band_views(bands@.take(i as int)).lemma_flatten_push(bands@[i as int]@);
        }
        i = i + 1;
    }
    proof {
        assert(bands@.take(bands@.len() as int) =~= bands@);
    }
    r
}

/// The slices that the planned bands cut out of a full row-major buffer of
/// `width * height` pixels: slice `i` holds the rows of band `i`.
pub open spec fn band_slices(full: Seq<Rgb>, width: int, height: int, workers: int) -> Seq<
    Seq<Rgb>,
> {
    Seq::new(
        workers as nat,
        |i: int|
            full.subrange(
                band_start(height, workers, i) * width,
                band_start(height, workers, i + 1) * width,
            ),
    )
}

/// The first `k` band slices joined together are exactly the buffer up to
/// the start of band `k`.
proof fn lemma_reassembly_prefix(full: Seq<Rgb>, width: int, height: int, workers: int, k: int)
    requires
        0 <= width,
        0 <= height,
        0 < workers,
        full.len() == width * height,
        0 <= k <= workers,
    ensures
        band_slices(full, width, height, workers).take(k).flatten_alt() == full.subrange(
            0,
            band_start(height, workers, k) * width,
        ),
    decreases k,
{
    let slices = band_slices(full, width, height, workers);
    lemma_mul_is_commutative(width, height);
    if k == 0 {
        assert(slices.take(0).flatten_alt() =~= full.subrange(0, 0));
    } else {
        lemma_reassembly_prefix(full, width, height, workers, k - 1);
        let lo = band_start(height, workers, k - 1) * width;
        let hi = band_start(height, workers, k) * width;
        lemma_band_start_monotonic(height, workers, 0, k - 1);
        lemma_band_start_monotonic(height, workers, k - 1, k);
        lemma_band_start_monotonic(height, workers, k, workers);
        lemma_band_start_ends(height, workers);
        lemma_mul_inequality(0, band_start(height, workers, k - 1), width);
        lemma_mul_inequality(band_start(height, workers, k - 1), band_start(height, workers, k), width);
        lemma_mul_inequality(band_start(height, workers, k), height, width);
        assert(slices.take(k).drop_last() =~= slices.take(k - 1));
        assert(slices.take(k).last() == full.subrange(lo, hi));
        assert(slices.take(k).flatten_alt() == slices.take(k - 1).flatten_alt() + full.subrange(
            lo,
            hi,
        ));
        assert(full.subrange(0, lo) + full.subrange(lo, hi) =~= full.subrange(0, hi));
    }
}

/// Row-order reconstruction: cutting a full row-major pixel buffer into the
/// planned row bands and joining the slices back in band order yields the
/// buffer unchanged, so a render shared among several workers assembles to
/// the same image as one worker producing every row.
pub proof fn lemma_band_reassembly(full: Seq<Rgb>, width: int, height: int, workers: int)
    requires
        0 <= width,
        0 <= height,
        0 < workers,
        full.len() == width * height,
    ensures
        band_slices(full, width, height, workers).flatten() == full,
{
    let slices = band_slices(full, width, height, workers);
    lemma_reassembly_prefix(full, width, height, workers, workers);
    slices.lemma_flatten_and_flatten_alt_are_equivalent();
    lemma_band_start_ends(height, workers);
    lemma_mul_is_commutative(width, height);
    assert(slices.take(workers as int) =~= slices);
    assert(full.subrange(0, height * width) =~= full);
}

} // verus!
