//! Evidence that the far view moves: consecutive captures of the sky band must
//! differ. This is the pixel comparison; turning its counts into the reported
//! mean difference and changed fraction is left to the caller.
use vstd::prelude::*;

verus! {

/// One captured frame's pixels (RGB8, row major).
#[derive(Debug, Clone)]
pub struct Frame {
    pub name: String,
    pub width: u32,
    pub height: u32,
    pub rgb: Vec<u8>,
}

/// How two frames differ over the top rows of the image.
#[derive(Debug, Clone, Copy, PartialEq, Eq, Structural)]
pub struct FrameDiffCounts {
    /// Sum of absolute channel differences (each 0-255).
    pub sum: u64,
    /// Pixels with some channel moved by more than the threshold.
    pub changed: u64,
    /// Pixels compared.
    pub pixels: u64,
}

/// `|x - y|`.
pub open spec fn abs_diff(x: u8, y: u8) -> int {
    if x >= y {
        x - y
    } else {
        y - x
    }
}

/// Sum of `|a[i] - b[i]|` over the first `k` bytes.
pub open spec fn diff_sum(a: Seq<u8>, b: Seq<u8>, k: nat) -> int
    decreases k,
{
    if k == 0 {
        0
    } else {
        diff_sum(a, b, (k - 1) as nat) + abs_diff(a[k - 1], b[k - 1])
    }
}

/// The largest channel difference of pixel `p`.
pub open spec fn pixel_diff(a: Seq<u8>, b: Seq<u8>, p: int) -> int {
    let r = abs_diff(a[3 * p], b[3 * p]);
    let g = abs_diff(a[3 * p + 1], b[3 * p + 1]);
    let bl = abs_diff(a[3 * p + 2], b[3 * p + 2]);
    let m = if r >= g {
        r
    } else {
        g
    };
    if m >= bl {
        m
    } else {
        bl
    }
}

/// Pixels among the first `n` whose largest channel difference exceeds `threshold`.
pub open spec fn changed_pixels(a: Seq<u8>, b: Seq<u8>, n: nat, threshold: u8) -> int
    decreases n,
{
    if n == 0 {
        0
    } else {
        changed_pixels(a, b, (n - 1) as nat, threshold) + if pixel_diff(a, b, n - 1) > threshold {
            1int
        } else {
            0int
        }
    }
}

/// Rows compared: `rows`, but never more than the frame has.
pub open spec fn band_rows(rows: usize, height: u32) -> int {
    if rows <= height {
        rows as int
    } else {
        height as int
    }
}

/// The comparison of two frames over their top `rows` rows: `None` when the
/// sizes differ or nothing would be compared.
pub open spec fn frame_diff_spec(a: Frame, b: Frame, rows: usize, threshold: u8) -> Option<
    FrameDiffCounts,
> {
    let n = band_rows(rows, a.height) * a.width;
    if a.width != b.width || a.height != b.height || a.rgb@.len() != b.rgb@.len() || n == 0 {
        None
    } else {
        Some(
            FrameDiffCounts {
                sum: diff_sum(a.rgb@, b.rgb@, (3 * n) as nat) as u64,
                changed: changed_pixels(a.rgb@, b.rgb@, n as nat, threshold) as u64,
                pixels: n as u64,
            },
        )
    }
}

proof fn lemma_diff_sum_bound(a: Seq<u8>, b: Seq<u8>, k: nat)
    ensures
        0 <= diff_sum(a, b, k) <= 255 * k,
    decreases k,
{
    if k > 0 {
        lemma_diff_sum_bound(a, b, (k - 1) as nat);
    }
}

proof fn lemma_changed_bound(a: Seq<u8>, b: Seq<u8>, n: nat, t: u8)
    ensures
        0 <= changed_pixels(a, b, n, t) <= n,
    decreases n,
{
    if n > 0 {
        lemma_changed_bound(a, b, (n - 1) as nat, t);
    }
}

/// The frames hold the bytes a comparison over `rows` rows reads (when their
/// sizes match), and their byte count is small enough for the sum.
pub open spec fn band_fits_spec(a: Frame, b: Frame, rows: usize) -> bool {
    &&& a.width == b.width && a.height == b.height && a.rgb@.len() == b.rgb@.len() ==> 3
        * band_rows(rows, a.height) * a.width <= a.rgb@.len()
    &&& 255 * a.rgb@.len() <= u64::MAX
}

/// Whether [`frame_diff`] can compare `a` and `b` over `rows` rows.
pub fn band_fits(a: &Frame, b: &Frame, rows: usize) -> (r: bool)
    ensures
        r == band_fits_spec(*a, *b, rows),
{
    let len: u128 = a.rgb.len() as u128;
    if 255 * len > u64::MAX as u128 {
        return false;
    }
    if a.width != b.width || a.height != b.height || a.rgb.len() != b.rgb.len() {
        return true;
    }
    let band: u128 = if rows <= a.height as usize {
        rows as u128
    } else {
        a.height as u128
    };
    assert(band * a.width <= 0xffff_ffff * 0xffff_ffffu128) by (nonlinear_arith)
        requires
            band <= u32::MAX,
            a.width <= u32::MAX,
    ;
    let area: u128 = band * a.width as u128;
    assert(3 * area == 3 * band * a.width) by (nonlinear_arith)
        requires
            area == band * a.width,
    ;
    3 * area <= len
}

/// Compares two same-sized RGB8 frames over their top `rows` rows (at most
/// the frame's height): the summed channel differences, and how many pixels
/// had a channel move by more than `threshold`.
pub fn frame_diff(a: &Frame, b: &Frame, rows: usize, threshold: u8) -> (r: Option<FrameDiffCounts>)
    requires
        band_fits_spec(*a, *b, rows),
    ensures
        r == frame_diff_spec(*a, *b, rows, threshold),
{
    if a.width != b.width || a.height != b.height || a.rgb.len() != b.rgb.len() {
        return None;
    }
    let rows: usize = if rows <= a.height as usize {
        rows
    } else {
        a.height as usize
    };
    let width: usize = a.width as usize;
    let ghost n_int = rows as int * width as int;
    assert(3 * n_int <= a.rgb@.len()) by (nonlinear_arith)
        requires
            3 * rows as int * width as int <= a.rgb@.len(),
            n_int == rows as int * width as int,
    ;
    let n: usize = rows * width;
    if n == 0 {
        return None;
    }
    let mut sum: u64 = 0;
    let mut changed: u64 = 0;
    let mut p: usize = 0;
    while p < n
        invariant
            3 * n <= a.rgb@.len(),
            a.rgb@.len() == b.rgb@.len(),
            255 * a.rgb@.len() <= u64::MAX,
            a.rgb@.len() <= usize::MAX,
            p <= n,
            sum == diff_sum(a.rgb@, b.rgb@, (3 * p) as nat),
            changed == changed_pixels(a.rgb@, b.rgb@, p as nat, threshold),
        decreases n - p,
    {
        proof {
            lemma_diff_sum_bound(a.rgb@, b.rgb@, (3 * p) as nat);
            lemma_changed_bound(a.rgb@, b.rgb@, p as nat, threshold);
        }
        let i: usize = 3 * p;
        let dr: u8 = if a.rgb[i] >= b.rgb[i] {
            a.rgb[i] - b.rgb[i]
        } else {
            b.rgb[i] - a.rgb[i]
        };
        let dg: u8 = if a.rgb[i + 1] >= b.rgb[i + 1] {
            a.rgb[i + 1] - b.rgb[i + 1]
        } else {
            b.rgb[i + 1] - a.rgb[i + 1]
        };
        let db: u8 = if a.rgb[i + 2] >= b.rgb[i + 2] {
            a.rgb[i + 2] - b.rgb[i + 2]
        } else {
            b.rgb[i + 2] - a.rgb[i + 2]
        };
        assert(sum <= 765 * p);
        proof {
            let ghost x = a.rgb@;
            let ghost y = b.rgb@;
            let k = 3 * p as int;
            assert(diff_sum(x, y, (k + 1) as nat) == diff_sum(x, y, k as nat) + abs_diff(x[k], y[k]));
            assert(diff_sum(x, y, (k + 2) as nat) == diff_sum(x, y, (k + 1) as nat) + abs_diff(x[k + 1], y[k + 1]));
            assert(diff_sum(x, y, (k + 3) as nat) == diff_sum(x, y, (k + 2) as nat) + abs_diff(x[k + 2], y[k + 2]));
        }
        sum = sum + dr as u64 + dg as u64 + db as u64;
        let most: u8 = if dr >= dg {
            dr
        } else {
            dg
        };
        let most: u8 = if most >= db {
            most
        } else {
            db
        };
        if most > threshold {
            changed = changed + 1;
        }
        p = p + 1;
    }
    Some(FrameDiffCounts { sum, changed, pixels: n as u64 })
}

proof fn lemma_diff_of_equal_prefixes(a: Seq<u8>, b: Seq<u8>, a2: Seq<u8>, b2: Seq<u8>, k: nat)
    requires
        k <= a.len(),
        k <= b.len(),
        k <= a2.len(),
        k <= b2.len(),
        a.take(k as int) == a2.take(k as int),
        b.take(k as int) == b2.take(k as int),
    ensures
        diff_sum(a, b, k) == diff_sum(a2, b2, k),
    decreases k,
{
    if k > 0 {
        assert(a[k - 1] == a.take(k as int)[k - 1]);
        assert(a2[k - 1] == a2.take(k as int)[k - 1]);
        assert(b[k - 1] == b.take(k as int)[k - 1]);
        assert(b2[k - 1] == b2.take(k as int)[k - 1]);
        assert(a.take(k - 1) =~= a.take(k as int).take(k - 1));
        assert(a2.take(k - 1) =~= a2.take(k as int).take(k - 1));
        assert(b.take(k - 1) =~= b.take(k as int).take(k - 1));
        assert(b2.take(k - 1) =~= b2.take(k as int).take(k - 1));
        lemma_diff_of_equal_prefixes(a, b, a2, b2, (k - 1) as nat);
    }
}

proof fn lemma_changed_of_equal_prefixes(
    a: Seq<u8>,
    b: Seq<u8>,
    a2: Seq<u8>,
    b2: Seq<u8>,
    n: nat,
    t: u8,
)
    requires
        3 * n <= a.len(),
        3 * n <= b.len(),
        3 * n <= a2.len(),
        3 * n <= b2.len(),
        a.take(3 * n as int) == a2.take(3 * n as int),
        b.take(3 * n as int) == b2.take(3 * n as int),
    ensures
        changed_pixels(a, b, n, t) == changed_pixels(a2, b2, n, t),
    decreases n,
{
    if n > 0 {
        let k = 3 * (n - 1);
        assert forall|j: int| k <= j < 3 * n implies a[j] == a2[j] && b[j] == b2[j] by {
            assert(a[j] == a.take(3 * n as int)[j]);
            assert(a2[j] == a2.take(3 * n as int)[j]);
            assert(b[j] == b.take(3 * n as int)[j]);
            assert(b2[j] == b2.take(3 * n as int)[j]);
        }
        assert(a.take(3 * (n - 1) as int) =~= a.take(3 * n as int).take(3 * (n - 1) as int));
        assert(a2.take(3 * (n - 1) as int) =~= a2.take(3 * n as int).take(3 * (n - 1) as int));
        assert(b.take(3 * (n - 1) as int) =~= b.take(3 * n as int).take(3 * (n - 1) as int));
        assert(b2.take(3 * (n - 1) as int) =~= b2.take(3 * n as int).take(3 * (n - 1) as int));
        lemma_changed_of_equal_prefixes(a, b, a2, b2, (n - 1) as nat, t);
    }
}

/// Only the sky band is compared: two pairs of frames of the same size that
/// agree on the band's bytes give the same counts, whatever lies below it.
pub proof fn lemma_only_the_band_counts(
    a: Frame,
    b: Frame,
    a2: Frame,
    b2: Frame,
    rows: usize,
    threshold: u8,
)
    requires
        a.width == a2.width && a.height == a2.height && a.rgb@.len() == a2.rgb@.len(),
        b.width == b2.width && b.height == b2.height && b.rgb@.len() == b2.rgb@.len(),
        3 * band_rows(rows, a.height) * a.width <= a.rgb@.len(),
        3 * band_rows(rows, b.height) * b.width <= b.rgb@.len(),
        a.rgb@.take(3 * band_rows(rows, a.height) * a.width) == a2.rgb@.take(
            3 * band_rows(rows, a.height) * a.width,
        ),
        b.rgb@.take(3 * band_rows(rows, b.height) * b.width) == b2.rgb@.take(
            3 * band_rows(rows, b.height) * b.width,
        ),
    ensures
        frame_diff_spec(a, b, rows, threshold) == frame_diff_spec(a2, b2, rows, threshold),
{
    let n = band_rows(rows, a.height) * a.width;
    if a.width == b.width && a.height == b.height && a.rgb@.len() == b.rgb@.len() && n != 0 {
        assert(n >= 0 && 3 * n == 3 * band_rows(rows, a.height) * a.width) by (nonlinear_arith)
            requires
                n == band_rows(rows, a.height) * a.width,
                band_rows(rows, a.height) >= 0,
        ;
        lemma_diff_of_equal_prefixes(a.rgb@, b.rgb@, a2.rgb@, b2.rgb@, (3 * n) as nat);
        lemma_changed_of_equal_prefixes(a.rgb@, b.rgb@, a2.rgb@, b2.rgb@, n as nat, threshold);
    }
}

proof fn lemma_self_diff_is_zero(a: Seq<u8>, k: nat, n: nat, t: u8)
    requires
        3 * n <= a.len(),
    ensures
        diff_sum(a, a, k) == 0,
        changed_pixels(a, a, n, t) == 0,
    decreases k + n,
{
    if k > 0 {
        lemma_self_diff_is_zero(a, (k - 1) as nat, 0, t);
    }
    if n > 0 {
        lemma_self_diff_is_zero(a, 0, (n - 1) as nat, t);
    }
}

/// A frame compared with itself shows no difference.
pub proof fn lemma_identical_frames_do_not_differ(a: Frame, rows: usize, threshold: u8)
    requires
        3 * band_rows(rows, a.height) * a.width <= a.rgb@.len(),
    ensures
        frame_diff_spec(a, a, rows, threshold) matches Some(c) ==> c.sum == 0 && c.changed == 0,
{
    let n = band_rows(rows, a.height) * a.width;
    if n != 0 {
        assert(n >= 0 && 3 * n == 3 * band_rows(rows, a.height) * a.width) by (nonlinear_arith)
            requires
                n == band_rows(rows, a.height) * a.width,
                band_rows(rows, a.height) >= 0,
        ;
        lemma_self_diff_is_zero(a.rgb@, (3 * n) as nat, n as nat, threshold);
    }
}

proof fn lemma_diff_is_symmetric(a: Seq<u8>, b: Seq<u8>, k: nat, n: nat, t: u8)
    ensures
        diff_sum(a, b, k) == diff_sum(b, a, k),
        changed_pixels(a, b, n, t) == changed_pixels(b, a, n, t),
    decreases k + n,
{
    if k > 0 {
        lemma_diff_is_symmetric(a, b, (k - 1) as nat, 0, t);
    }
    if n > 0 {
        lemma_diff_is_symmetric(a, b, 0, (n - 1) as nat, t);
    }
}

/// The comparison is symmetric: swapping the two frames gives the same
/// result.
pub proof fn lemma_frame_diff_is_symmetric(a: Frame, b: Frame, rows: usize, threshold: u8)
    ensures
        frame_diff_spec(a, b, rows, threshold) == frame_diff_spec(b, a, rows, threshold),
{
    let n = band_rows(rows, a.height) * a.width;
    if a.width == b.width && a.height == b.height && a.rgb@.len() == b.rgb@.len() && n != 0 {
        assert(n >= 0) by (nonlinear_arith)
            requires
                n == band_rows(rows, a.height) * a.width,
                band_rows(rows, a.height) >= 0,
        ;
        lemma_diff_is_symmetric(a.rgb@, b.rgb@, (3 * n) as nat, n as nat, threshold);
    }
}

/// The comparison fails exactly on frames of different sizes or an empty
/// band; otherwise it compares the band's pixels, no more pixels change than
/// are compared, and no channel moves by more than 255 (the mean difference
/// stays within 0..=255 and the changed fraction within 0..=1).
pub proof fn lemma_frame_diff_bounds(a: Frame, b: Frame, rows: usize, threshold: u8)
    requires
        band_fits_spec(a, b, rows),
    ensures
        frame_diff_spec(a, b, rows, threshold) is None <==> (a.width != b.width || a.height
            != b.height || a.rgb@.len() != b.rgb@.len() || band_rows(rows, a.height) * a.width
            == 0),
        frame_diff_spec(a, b, rows, threshold) matches Some(c) ==> {
            &&& c.pixels == band_rows(rows, a.height) * a.width
            &&& c.pixels > 0
            &&& c.changed <= c.pixels
            &&& c.sum <= 255 * 3 * c.pixels
        },
{
    let n = band_rows(rows, a.height) * a.width;
    if a.width == b.width && a.height == b.height && a.rgb@.len() == b.rgb@.len() && n != 0 {
        assert(n > 0 && 3 * n == 3 * band_rows(rows, a.height) * a.width) by (nonlinear_arith)
            requires
                n == band_rows(rows, a.height) * a.width,
                band_rows(rows, a.height) >= 0,
                n != 0,
        ;
        lemma_diff_sum_bound(a.rgb@, b.rgb@, (3 * n) as nat);
        lemma_changed_bound(a.rgb@, b.rgb@, n as nat, threshold);
        assert(3 * n <= a.rgb@.len());
        assert(255 * (3 * n) <= 255 * a.rgb@.len()) by (nonlinear_arith)
            requires
                3 * n <= a.rgb@.len(),
        ;
        assert(255 * (3 * n) == 255 * 3 * n) by (nonlinear_arith);
    }
}

/// Byte `i` of the two images differs by more than `t`.
pub open spec fn byte_moved(a: Seq<u8>, b: Seq<u8>, i: int, t: u8) -> bool {
    a[i] > b[i] + t || b[i] > a[i] + t
}

/// Pixel `p` changed: its red, green or blue byte moved by more than `t`.
pub open spec fn pixel_moved(a: Seq<u8>, b: Seq<u8>, p: int, t: u8) -> bool {
    byte_moved(a, b, 3 * p, t) || byte_moved(a, b, 3 * p + 1, t) || byte_moved(a, b, 3 * p + 2, t)
}

/// How many of the first `n` pixels changed.
pub open spec fn moved_count(a: Seq<u8>, b: Seq<u8>, n: nat, t: u8) -> int
    decreases n,
{
    if n == 0 {
        0
    } else {
        moved_count(a, b, (n - 1) as nat, t) + if pixel_moved(a, b, n - 1, t) {
            1int
        } else {
            0int
        }
    }
}

/// A pixel counts as changed exactly when one of its three channels moved by
/// more than the threshold; the count is zero exactly when no pixel did.
pub proof fn lemma_changed_means_a_channel_moved(a: Seq<u8>, b: Seq<u8>, n: nat, t: u8)
    ensures
        changed_pixels(a, b, n + 1, t) == changed_pixels(a, b, n, t) + if pixel_moved(a, b, n as int, t) {
            1int
        } else {
            0int
        },
        changed_pixels(a, b, n, t) == moved_count(a, b, n, t),
        changed_pixels(a, b, n, t) == 0 <==> forall|p: int| 0 <= p < n ==> !#[trigger] pixel_moved(a, b, p, t),
    decreases n,
{
    if n > 0 {
        lemma_changed_means_a_channel_moved(a, b, (n - 1) as nat, t);
        lemma_changed_bound(a, b, (n - 1) as nat, t);
    }
}

/// Over the band, the comparison counts as changed exactly the pixels with a
/// channel moved by more than the threshold: it reports a change exactly when
/// some compared pixel has one.
pub proof fn lemma_frame_diff_counts_moved_pixels(a: Frame, b: Frame, rows: usize, threshold: u8)
    requires
        band_fits_spec(a, b, rows),
    ensures
        frame_diff_spec(a, b, rows, threshold) matches Some(c) ==> {
            &&& c.changed == moved_count(a.rgb@, b.rgb@, c.pixels as nat, threshold)
            &&& (c.changed > 0 <==> exists|p: int| 0 <= p < c.pixels && #[trigger] pixel_moved(a.rgb@, b.rgb@, p, threshold))
        },
{
    lemma_frame_diff_bounds(a, b, rows, threshold);
    if let Some(c) = frame_diff_spec(a, b, rows, threshold) {
        let n = band_rows(rows, a.height) * a.width;
        lemma_changed_bound(a.rgb@, b.rgb@, n as nat, threshold);
        lemma_changed_means_a_channel_moved(a.rgb@, b.rgb@, n as nat, threshold);
    }
}

} // verus!
