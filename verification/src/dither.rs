//! Forward error-diffusion dithering: palettes that answer the nearest
//! displayable color for a source color plus its diffused quantization
//! error, and the diffusion driver that spreads each pixel's error over
//! its neighbours.

use vstd::prelude::*;

verus! {

/// Largest per-channel magnitude a diffusion cell can hold; additions
/// into a cell clamp here, so the arithmetic can never overflow even
/// under adversarial palettes or methods.
pub const CELL_LIMIT: i64 = 0x100_0000_0000;

/// Largest per-channel magnitude a palette may add on top of its input
/// error (one fully saturated channel triple).
pub const PALETTE_ERR: i64 = 1020;

/// An RGB source color with eight-bit channels.
#[derive(Clone, Copy, PartialEq, Eq, Structural, Debug)]
pub struct Rgb {
    pub r: u8,
    pub g: u8,
    pub b: u8,
}

/// A quantization error, one signed value per color channel.
#[derive(Clone, Copy, PartialEq, Eq, Structural, Debug)]
pub struct DefaultQuantizationError {
    pub c0: i64,
    pub c1: i64,
    pub c2: i64,
}

/// Every channel of `e` lies within `[-m, m]`.
pub open spec fn err_within(e: DefaultQuantizationError, m: int) -> bool {
    &&& -m <= e.c0 <= m
    &&& -m <= e.c1 <= m
    &&& -m <= e.c2 <= m
}

pub open spec fn err_zero() -> DefaultQuantizationError {
    DefaultQuantizationError { c0: 0, c1: 0, c2: 0 }
}

/// Signed division rounding toward zero, as the hardware divides.
pub open spec fn div_trunc(a: int, k: int) -> int
    recommends
        k > 0,
{
    if a >= 0 {
        a / k
    } else {
        -((-a) / k)
    }
}

/// Channelwise division, rounding toward zero.
pub open spec fn spec_err_div(e: DefaultQuantizationError, k: int) -> DefaultQuantizationError
    recommends
        k > 0,
{
    DefaultQuantizationError {
        c0: div_trunc(e.c0 as int, k) as i64,
        c1: div_trunc(e.c1 as int, k) as i64,
        c2: div_trunc(e.c2 as int, k) as i64,
    }
}

/// One channel accumulated into a diffusion cell: the weighted error is
/// added and the result clamped to the cell range.
pub open spec fn spec_accum1(cell: int, err: int, mul: int) -> i64 {
    let v = cell + err * mul;
    if v > CELL_LIMIT as int {
        CELL_LIMIT
    } else if v < -(CELL_LIMIT as int) {
        (-CELL_LIMIT) as i64
    } else {
        v as i64
    }
}

pub open spec fn spec_accum(
    cell: DefaultQuantizationError,
    err: DefaultQuantizationError,
    mul: int,
) -> DefaultQuantizationError {
    DefaultQuantizationError {
        c0: spec_accum1(cell.c0 as int, err.c0 as int, mul),
        c1: spec_accum1(cell.c1 as int, err.c1 as int, mul),
        c2: spec_accum1(cell.c2 as int, err.c2 as int, mul),
    }
}

impl DefaultQuantizationError {
    /// Channelwise division by the method's divisor.
    pub fn div(self, k: usize) -> (r: DefaultQuantizationError)
        requires
            0 < k,
            k <= 64,
            err_within(self, CELL_LIMIT as int),
        ensures
            r == spec_err_div(self, k as int),
            err_within(r, CELL_LIMIT as int),
    {
        let kk = k as i64;
        let c0 = if self.c0 >= 0 {
            self.c0 / kk
        } else {
            -((-self.c0) / kk)
        };
        let c1 = if self.c1 >= 0 {
            self.c1 / kk
        } else {
            -((-self.c1) / kk)
        };
        let c2 = if self.c2 >= 0 {
            self.c2 / kk
        } else {
            -((-self.c2) / kk)
        };
        DefaultQuantizationError { c0, c1, c2 }
    }

    /// Accumulates the weighted error into this cell, clamped to the
    /// cell range.
    pub fn accum(self, err: DefaultQuantizationError, mul: usize) -> (r: DefaultQuantizationError)
        requires
            mul <= 16,
            err_within(self, CELL_LIMIT as int),
            err_within(err, CELL_LIMIT as int + PALETTE_ERR as int),
        ensures
            r == spec_accum(self, err, mul as int),
            err_within(r, CELL_LIMIT as int),
    {
        proof {
            lemma_accum_bound(self.c0 as int, err.c0 as int, mul as int);
            lemma_accum_bound(self.c1 as int, err.c1 as int, mul as int);
            lemma_accum_bound(self.c2 as int, err.c2 as int, mul as int);
        }
        let v0 = self.c0 + err.c0 * (mul as i64);
        let v1 = self.c1 + err.c1 * (mul as i64);
        let v2 = self.c2 + err.c2 * (mul as i64);
        DefaultQuantizationError {
            c0: if v0 > CELL_LIMIT {
                CELL_LIMIT
            } else if v0 < -CELL_LIMIT {
                -CELL_LIMIT
            } else {
                v0
            },
            c1: if v1 > CELL_LIMIT {
                CELL_LIMIT
            } else if v1 < -CELL_LIMIT {
                -CELL_LIMIT
            } else {
                v1
            },
            c2: if v2 > CELL_LIMIT {
                CELL_LIMIT
            } else if v2 < -CELL_LIMIT {
                -CELL_LIMIT
            } else {
                v2
            },
        }
    }
}

/// The weighted error term stays far inside the machine range.
proof fn lemma_accum_bound(cell: int, err: int, mul: int)
    requires
        0 <= mul <= 16,
        -(CELL_LIMIT as int) <= cell <= CELL_LIMIT as int,
        -(CELL_LIMIT as int + PALETTE_ERR as int) <= err <= CELL_LIMIT as int + PALETTE_ERR as int,
    ensures
        -(17 * (CELL_LIMIT as int + PALETTE_ERR as int)) <= cell + err * mul <= 17 * (
        CELL_LIMIT as int + PALETTE_ERR as int),
        17 * (CELL_LIMIT as int + PALETTE_ERR as int) < i64::MAX as int,
{
    assert(-(16 * (CELL_LIMIT as int + PALETTE_ERR as int)) <= err * mul <= 16 * (
        CELL_LIMIT as int + PALETTE_ERR as int)) by (nonlinear_arith)
        requires
            0 <= mul <= 16,
            -(CELL_LIMIT as int + PALETTE_ERR as int) <= err <= CELL_LIMIT as int
                + PALETTE_ERR as int,
    ;
}

/// A palette for dithering: answers the nearest displayable color for a
/// source color adjusted by its diffused error, together with the new
/// quantization error to spread.
pub trait DitherPalette: Sized {
    type SourceColor;

    type TargetColor;

    /// The palette's own well-formedness condition.
    spec fn wf(&self) -> bool;

    /// What `get_closest` answers.
    spec fn closest_spec(&self, source: Self::SourceColor, diffused: DefaultQuantizationError) -> (
        Self::TargetColor,
        DefaultQuantizationError,
    );

    fn get_closest(&self, source: Self::SourceColor, diffused: DefaultQuantizationError) -> (r: (
        Self::TargetColor,
        DefaultQuantizationError,
    ))
        requires
            self.wf(),
            err_within(diffused, CELL_LIMIT as int),
        ensures
            r == self.closest_spec(source, diffused),
            err_within(r.1, CELL_LIMIT as int + PALETTE_ERR as int),
    ;
}

/// A forward error-diffusion kernel: where each pixel's quantization
/// error goes, as `(dx, dy, weight)` targets over a common divisor.
pub trait ForwardErrorDiffusionMethod: Sized {
    spec fn spec_max_y_target(&self) -> usize;

    spec fn spec_divisor(&self) -> usize;

    spec fn spec_targets(&self) -> Seq<(isize, usize, usize)>;

    fn get_max_y_target(&self) -> (r: usize)
        ensures
            r == self.spec_max_y_target(),
            r <= 8,
    ;

    fn get_divisor(&self) -> (r: usize)
        ensures
            r == self.spec_divisor(),
            0 < r <= 64,
    ;

    fn get_targets(&self) -> (r: Vec<(isize, usize, usize)>)
        ensures
            r@ == self.spec_targets(),
            forall|k: int|
                0 <= k < r@.len() ==> {
                    &&& -16 <= (#[trigger] r@[k]).0 <= 16
                    &&& r@[k].1 <= self.spec_max_y_target()
                    &&& r@[k].2 <= 16
                },
    ;
}

/// The Floyd-Steinberg kernel.
pub struct FloydSteinberg;

impl ForwardErrorDiffusionMethod for FloydSteinberg {
    open spec fn spec_max_y_target(&self) -> usize {
        1
    }

    open spec fn spec_divisor(&self) -> usize {
        16
    }

    open spec fn spec_targets(&self) -> Seq<(isize, usize, usize)> {
        seq![(1isize, 0usize, 7usize), (-1isize, 1usize, 3usize), (0isize, 1usize, 5usize), (1isize, 1usize, 1usize)]
    }

    fn get_max_y_target(&self) -> usize {
        1
    }

    fn get_divisor(&self) -> usize {
        16
    }

    fn get_targets(&self) -> (r: Vec<(isize, usize, usize)>) {
        let v: Vec<(isize, usize, usize)> = vec![(1, 0, 7), (-1, 1, 3), (0, 1, 5), (1, 1, 1)];
        proof {
            assert(v@ =~= self.spec_targets());
        }
        v
    }
}

/// The Jarvis, Judice and Ninke kernel.
pub struct JarvisJudiceAndNinke;

impl ForwardErrorDiffusionMethod for JarvisJudiceAndNinke {
    open spec fn spec_max_y_target(&self) -> usize {
        2
    }

    open spec fn spec_divisor(&self) -> usize {
        48
    }

    open spec fn spec_targets(&self) -> Seq<(isize, usize, usize)> {
        seq![
            (1isize, 0usize, 7usize),
            (2isize, 0usize, 5usize),
            (-2isize, 1usize, 3usize),
            (-1isize, 1usize, 5usize),
            (0isize, 1usize, 7usize),
            (1isize, 1usize, 5usize),
            (2isize, 1usize, 3usize),
            (-2isize, 2usize, 1usize),
            (-1isize, 2usize, 3usize),
            (0isize, 2usize, 5usize),
            (1isize, 2usize, 3usize),
            (2isize, 2usize, 1usize),
        ]
    }

    fn get_max_y_target(&self) -> usize {
        2
    }

    fn get_divisor(&self) -> usize {
        48
    }

    fn get_targets(&self) -> (r: Vec<(isize, usize, usize)>) {
        let v: Vec<(isize, usize, usize)> = vec![
            (1, 0, 7),
            (2, 0, 5),
            (-2, 1, 3),
            (-1, 1, 5),
            (0, 1, 7),
            (1, 1, 5),
            (2, 1, 3),
            (-2, 2, 1),
            (-1, 2, 3),
            (0, 2, 5),
            (1, 2, 3),
            (2, 2, 1),
        ];
        proof {
            assert(v@ =~= self.spec_targets());
        }
        v
    }
}

/// The Atkinson kernel (spreads only three quarters of the error).
pub struct Atkinson;

impl ForwardErrorDiffusionMethod for Atkinson {
    open spec fn spec_max_y_target(&self) -> usize {
        2
    }

    open spec fn spec_divisor(&self) -> usize {
        8
    }

    open spec fn spec_targets(&self) -> Seq<(isize, usize, usize)> {
        seq![
            (1isize, 0usize, 1usize),
            (2isize, 0usize, 1usize),
            (-1isize, 1usize, 1usize),
            (0isize, 1usize, 1usize),
            (1isize, 1usize, 1usize),
            (0isize, 2usize, 1usize),
        ]
    }

    fn get_max_y_target(&self) -> usize {
        2
    }

    fn get_divisor(&self) -> usize {
        8
    }

    fn get_targets(&self) -> (r: Vec<(isize, usize, usize)>) {
        let v: Vec<(isize, usize, usize)> = vec![
            (1, 0, 1),
            (2, 0, 1),
            (-1, 1, 1),
            (0, 1, 1),
            (1, 1, 1),
            (0, 2, 1),
        ];
        proof {
            assert(v@ =~= self.spec_targets());
        }
        v
    }
}

/// Maps every RGB color onto black or white (`true` is the lit shade) by
/// total brightness, carrying the brightness error in the first channel.
pub struct RgbColorToBinaryColor;

impl RgbColorToBinaryColor {
    pub fn new() -> (r: RgbColorToBinaryColor)
        ensures
            r.wf(),
    {
        RgbColorToBinaryColor
    }
}

impl DitherPalette for RgbColorToBinaryColor {
    type SourceColor = Rgb;

    type TargetColor = bool;

    open spec fn wf(&self) -> bool {
        true
    }

    open spec fn closest_spec(&self, source: Rgb, diffused: DefaultQuantizationError) -> (
        bool,
        DefaultQuantizationError,
    ) {
        let total = source.r as int + source.g as int + source.b as int + diffused.c0 as int;
        if total > 382 {
            (true, DefaultQuantizationError { c0: (total - 765) as i64, c1: 0, c2: 0 })
        } else {
            (false, DefaultQuantizationError { c0: total as i64, c1: 0, c2: 0 })
        }
    }

    fn get_closest(&self, source: Rgb, diffused: DefaultQuantizationError) -> (r: (
        bool,
        DefaultQuantizationError,
    )) {
        let total: i64 = source.r as i64 + source.g as i64 + source.b as i64 + diffused.c0;
        if total > 382 {
            (true, DefaultQuantizationError { c0: total - 765, c1: 0, c2: 0 })
        } else {
            (false, DefaultQuantizationError { c0: total, c1: 0, c2: 0 })
        }
    }
}

/// Clamps a channel to the displayable range.
pub open spec fn clamp255(v: int) -> int {
    if v < 0 {
        0
    } else if v > 255 {
        255
    } else {
        v
    }
}

/// Squared channel distance between a palette color and the adjusted
/// source channels.
pub open spec fn spec_pal_dist(p: Rgb, ar: int, ag: int, ab: int) -> int {
    let dr = ar - p.r as int;
    let dg = ag - p.g as int;
    let db = ab - p.b as int;
    dr * dr + dg * dg + db * db
}

/// The index of the entry nearest the adjusted source among
/// `entries[..k]` continued to the end, starting from best-so-far `bi`;
/// on an exact distance tie the earlier entry is kept.
pub open spec fn spec_best_entry<T>(
    entries: Seq<(Rgb, T)>,
    ar: int,
    ag: int,
    ab: int,
    k: int,
    bi: int,
) -> int
    decreases entries.len() - k,
{
    if k < 0 || k >= entries.len() {
        bi
    } else {
        let nb = if spec_pal_dist(entries[k].0, ar, ag, ab) < spec_pal_dist(
            entries[bi].0,
            ar,
            ag,
            ab,
        ) {
            k
        } else {
            bi
        };
        spec_best_entry(entries, ar, ag, ab, k + 1, nb)
    }
}

/// Maps every RGB color onto the nearest entry of a fixed palette by
/// squared channel distance, on the error-adjusted and clamped source.
pub struct RgbColorToPalette<T> {
    pub entries: Vec<(Rgb, T)>,
}

impl<T: Copy> RgbColorToPalette<T> {
    /// Wraps a palette; it must have at least one entry.
    pub fn new(entries: Vec<(Rgb, T)>) -> (r: RgbColorToPalette<T>)
        requires
            entries@.len() > 0,
        ensures
            r.entries == entries,
            r.wf(),
    {
        RgbColorToPalette { entries }
    }
}

impl<T: Copy> DitherPalette for RgbColorToPalette<T> {
    type SourceColor = Rgb;

    type TargetColor = T;

    open spec fn wf(&self) -> bool {
        self.entries@.len() > 0
    }

    open spec fn closest_spec(&self, source: Rgb, diffused: DefaultQuantizationError) -> (
        T,
        DefaultQuantizationError,
    ) {
        let ar = clamp255(source.r as int + diffused.c0 as int);
        let ag = clamp255(source.g as int + diffused.c1 as int);
        let ab = clamp255(source.b as int + diffused.c2 as int);
        let bi = spec_best_entry(self.entries@, ar, ag, ab, 1, 0);
        let p = self.entries@[bi].0;
        (
            self.entries@[bi].1,
            DefaultQuantizationError {
                c0: (ar - p.r as int) as i64,
                c1: (ag - p.g as int) as i64,
                c2: (ab - p.b as int) as i64,
            },
        )
    }

    fn get_closest(&self, source: Rgb, diffused: DefaultQuantizationError) -> (r: (
        T,
        DefaultQuantizationError,
    )) {
        let ar = clamp_channel(source.r as i64 + diffused.c0);
        let ag = clamp_channel(source.g as i64 + diffused.c1);
        let ab = clamp_channel(source.b as i64 + diffused.c2);
        let mut bi: usize = 0;
        let mut bd: i64 = pal_dist(&self.entries[0].0, ar, ag, ab);
        let mut k: usize = 1;
        while k < self.entries.len()
            invariant
                self.wf(),
                0 <= ar <= 255,
                0 <= ag <= 255,
                0 <= ab <= 255,
                1 <= k <= self.entries@.len(),
                bi < self.entries@.len(),
                bd as int == spec_pal_dist(self.entries@[bi as int].0, ar as int, ag as int,
                    ab as int),
                spec_best_entry(self.entries@, ar as int, ag as int, ab as int, k as int,
                    bi as int) == spec_best_entry(self.entries@, ar as int, ag as int, ab as int,
                    1, 0),
            decreases self.entries@.len() - k,
        {
            let d = pal_dist(&self.entries[k].0, ar, ag, ab);
            if d < bd {
                bi = k;
                bd = d;
            }
            k = k + 1;
        }
        let p = self.entries[bi].0;
        (
            self.entries[bi].1,
            DefaultQuantizationError { c0: ar - p.r as i64, c1: ag - p.g as i64, c2: ab - p.b as i64 },
        )
    }
}

/// Clamps an error-adjusted channel to the displayable range.
fn clamp_channel(v: i64) -> (r: i64)
    ensures
        r as int == clamp255(v as int),
        0 <= r <= 255,
{
    if v < 0 {
        0
    } else if v > 255 {
        255
    } else {
        v
    }
}

/// Squared channel distance of a palette entry from the adjusted source.
fn pal_dist(p: &Rgb, ar: i64, ag: i64, ab: i64) -> (r: i64)
    requires
        0 <= ar <= 255,
        0 <= ag <= 255,
        0 <= ab <= 255,
    ensures
        r as int == spec_pal_dist(*p, ar as int, ag as int, ab as int),
        0 <= r,
{
    let dr = ar - p.r as i64;
    let dg = ag - p.g as i64;
    let db = ab - p.b as i64;
    proof {
        assert(dr * dr >= 0 && dr * dr <= 65025 && dg * dg >= 0 && dg * dg <= 65025 && db * db
            >= 0 && db * db <= 65025) by (nonlinear_arith)
            requires
                -255 <= dr <= 255,
                -255 <= dg <= 255,
                -255 <= db <= 255,
        ;
    }
    dr * dr + dg * dg + db * db
}

/// The diffusion buffer slot for pixel `(x, y)`: rows are recycled
/// modulo the kernel's row reach.
pub open spec fn spec_diffusion_index(width: int, rows: int, x: int, y: int) -> int
    recommends
        rows > 0,
{
    x + width * (y % rows)
}

/// The diffusion buffer after spreading the weighted error to the
/// targets from position `k` on.
pub open spec fn spec_spread(
    diff: Seq<DefaultQuantizationError>,
    width: int,
    rows: int,
    x: int,
    y: int,
    err: DefaultQuantizationError,
    targets: Seq<(isize, usize, usize)>,
    k: int,
) -> Seq<DefaultQuantizationError>
    decreases targets.len() - k,
{
    if k < 0 || k >= targets.len() {
        diff
    } else {
        let t = targets[k];
        let tx = x + t.0 as int;
        let ty = y + t.1 as int;
        let d2 = if 0 <= tx < width && ty <= usize::MAX as int {
            let ti = spec_diffusion_index(width, rows, tx, ty);
            diff.update(ti, spec_accum(diff[ti], err, t.2 as int))
        } else {
            diff
        };
        spec_spread(d2, width, rows, x, y, err, targets, k + 1)
    }
}

/// Drives forward error diffusion over a pixel stream: each call takes
/// the next source color (in row-major order), answers the dithered
/// target color, and spreads the quantization error over the upcoming
/// neighbour pixels.
pub struct ForwardErrorDiffusion<P: DitherPalette, M: ForwardErrorDiffusionMethod> {
    pub palette: P,
    pub method: M,
    pub width: usize,
    pub x: usize,
    pub y: usize,
    pub diffusion: Vec<DefaultQuantizationError>,
}

impl<P: DitherPalette, M: ForwardErrorDiffusionMethod> ForwardErrorDiffusion<P, M> {
    /// The driver's bookkeeping is consistent: the buffer covers one row
    /// per reachable kernel row, the cursor is inside the row, and every
    /// cell is within the clamp range.
    pub open spec fn wf(self) -> bool {
        &&& self.palette.wf()
        &&& self.width >= 1
        &&& self.x < self.width
        &&& self.diffusion@.len() == self.width * (self.method.spec_max_y_target() + 1)
        &&& forall|i: int|
            0 <= i < self.diffusion@.len() ==> err_within(
                #[trigger] self.diffusion@[i],
                CELL_LIMIT as int,
            )
    }

    /// Sets up dithering for rows of `width` pixels, with a clean
    /// diffusion buffer.
    pub fn new(palette: P, method: M, width: usize) -> (r: ForwardErrorDiffusion<P, M>)
        requires
            palette.wf(),
            width >= 1,
            width * (method.spec_max_y_target() + 1) <= usize::MAX as int,
        ensures
            r.wf(),
            r.palette == palette,
            r.method == method,
            r.width == width,
            r.x == 0,
            r.y == 0,
            forall|i: int| 0 <= i < r.diffusion@.len() ==> #[trigger] r.diffusion@[i] == err_zero(),
    {
        let rows = method.get_max_y_target() + 1;
        let total = width * rows;
        let mut diffusion: Vec<DefaultQuantizationError> = Vec::new();
        let mut k: usize = 0;
        while k < total
            invariant
                k <= total,
                diffusion@.len() == k,
                forall|i: int| 0 <= i < k ==> #[trigger] diffusion@[i] == err_zero(),
            decreases total - k,
        {
            diffusion.push(DefaultQuantizationError { c0: 0, c1: 0, c2: 0 });
            k = k + 1;
        }
        ForwardErrorDiffusion { palette, method, width, x: 0, y: 0, diffusion }
    }

    /// The buffer slot for pixel `(x, y)`.
    pub fn get_diffusion_index(&self, x: usize, y: usize) -> (r: usize)
        requires
            self.wf(),
            x < self.width,
        ensures
            r as int == spec_diffusion_index(self.width as int,
                self.method.spec_max_y_target() + 1, x as int, y as int),
            r < self.diffusion@.len(),
    {
        let rows = self.method.get_max_y_target() + 1;
        let ym = y % rows;
        let buf_len = self.diffusion.len();
        proof {
            lemma_index_in_buffer(self.width as int, rows as int, x as int, ym as int);
            assert(self.width as int * (rows as int) == buf_len as int);
        }
        x + self.width * ym
    }

    /// One dithering step: the pixel's accumulated error is consumed,
    /// the palette answers the nearest color for the adjusted source,
    /// and the new quantization error is spread over the kernel's
    /// targets.
    #[verifier::loop_isolation(false)]
    pub fn next(&mut self, source: P::SourceColor) -> (t: P::TargetColor)
        requires
            old(self).wf(),
            old(self).y < usize::MAX,
        ensures
            final(self).wf(),
            final(self).palette == old(self).palette,
            final(self).method == old(self).method,
            final(self).width == old(self).width,
            ({
                let pre = *old(self);
                let rows = pre.method.spec_max_y_target() + 1;
                let idx = spec_diffusion_index(pre.width as int, rows, pre.x as int, pre.y as int);
                let taken = pre.diffusion@[idx];
                let cd = pre.palette.closest_spec(
                    source,
                    spec_err_div(taken, pre.method.spec_divisor() as int),
                );
                let spread = spec_spread(
                    pre.diffusion@.update(idx, err_zero()),
                    pre.width as int,
                    rows,
                    pre.x as int,
                    pre.y as int,
                    cd.1,
                    pre.method.spec_targets(),
                    0,
                );
                &&& t == cd.0
                &&& final(self).diffusion@ == spread
                &&& final(self).x as int == (if pre.x + 1 == pre.width {
                    0
                } else {
                    pre.x + 1
                })
                &&& final(self).y as int == (if pre.x + 1 == pre.width {
                    pre.y + 1
                } else {
                    pre.y as int
                })
            }),
    {
        let ghost pre = *old(self);
        let index = self.get_diffusion_index(self.x, self.y);
        let source_error = self.diffusion[index];
        self.diffusion.set(index, DefaultQuantizationError { c0: 0, c1: 0, c2: 0 });
        let divided = source_error.div(self.method.get_divisor());
        let (target, err) = self.palette.get_closest(source, divided);
        let ghost rows = pre.method.spec_max_y_target() + 1;
        let ghost diff1 = pre.diffusion@.update(
            spec_diffusion_index(pre.width as int, rows, pre.x as int, pre.y as int),
            err_zero(),
        );
        let targets = self.method.get_targets();
        let mut k: usize = 0;
        while k < targets.len()
            invariant
                self.palette == pre.palette,
                self.method == pre.method,
                self.width == pre.width,
                self.x == pre.x,
                self.y == pre.y,
                pre.wf(),
                pre.y < usize::MAX,
                err_within(err, CELL_LIMIT as int + PALETTE_ERR as int),
                targets@ == pre.method.spec_targets(),
                forall|j: int|
                    0 <= j < targets@.len() ==> {
                        &&& -16 <= (#[trigger] targets@[j]).0 <= 16
                        &&& targets@[j].1 <= pre.method.spec_max_y_target()
                        &&& targets@[j].2 <= 16
                    },
                k <= targets@.len(),
                self.wf(),
                self.diffusion@.len() == diff1.len(),
                diff1.len() == pre.width * rows,
                forall|i: int|
                    0 <= i < self.diffusion@.len() ==> err_within(
                        #[trigger] self.diffusion@[i],
                        CELL_LIMIT as int,
                    ),
                spec_spread(self.diffusion@, pre.width as int, rows, pre.x as int, pre.y as int,
                    err, targets@, k as int) == spec_spread(diff1, pre.width as int, rows,
                    pre.x as int, pre.y as int, err, targets@, 0),
            decreases targets@.len() - k,
        {
            let ghost dpre = self.diffusion@;
            let (dx, dy, mul) = targets[k];
            let txo: Option<usize> = if dx >= 0 {
                self.x.checked_add(dx as usize)
            } else {
                self.x.checked_sub((-dx) as usize)
            };
            let tyo: Option<usize> = self.y.checked_add(dy);
            match (txo, tyo) {
                (Some(tx), Some(ty)) => {
                    if tx < self.width {
                        let tindex = self.get_diffusion_index(tx, ty);
                        let cell = self.diffusion[tindex];
                        self.diffusion.set(tindex, cell.accum(err, mul));
                    }
                },
                _ => {},
            }
            proof {
                let t = targets@[k as int];
                let tx = pre.x as int + t.0 as int;
                let ty = pre.y as int + t.1 as int;
                if 0 <= tx && tx < pre.width as int && ty <= usize::MAX as int {
                    let ti = spec_diffusion_index(pre.width as int, rows, tx, ty);
                    assert(self.diffusion@ == dpre.update(ti, spec_accum(dpre[ti], err,
                        t.2 as int)));
                } else {
                    assert(self.diffusion@ == dpre);
                }
                assert(spec_spread(dpre, pre.width as int, rows, pre.x as int, pre.y as int, err,
                    targets@, k as int) == spec_spread(self.diffusion@, pre.width as int, rows,
                    pre.x as int, pre.y as int, err, targets@, k as int + 1));
            }
            k = k + 1;
        }
        // Advance the cursor to the next pixel, wrapping at row ends.
        self.x = self.x + 1;
        if self.x >= self.width {
            self.x = 0;
            self.y = self.y + 1;
        }
        target
    }
}

/// The recycled-row slot lies inside the buffer.
proof fn lemma_index_in_buffer(width: int, rows: int, x: int, ym: int)
    requires
        width >= 1,
        rows >= 1,
        0 <= x < width,
        0 <= ym < rows,
    ensures
        0 <= x + width * ym,
        x + width * ym < width * rows,
{
    assert(width * ym >= 0 && width * ym <= width * (rows - 1) && width * (rows - 1) == width
        * rows - width) by (nonlinear_arith)
        requires
            width >= 1,
            0 <= ym < rows,
    ;
}

} // verus!
