//! Advanced analysis: edge difference and tileability repair, perceptual
//! duplicate detection, cross-material consistency.
use vstd::prelude::*;
use vstd::arithmetic::div_mod::*;
use crate::material::{MaterialSet, TextureMap};
use crate::Error;
use crate::text::decimal;

verus! {

// ---------------------------------------------------------------------------
// Edge difference.

/// Absolute difference of two bytes.
pub open spec fn absdiff(a: u8, b: u8) -> int {
    if a >= b {
        a - b
    } else {
        b - a
    }
}

/// Sum over R, G, B of the absolute difference of the pixels at byte
/// offsets `i` and `j`.
pub open spec fn rgb_diff(d: Seq<u8>, i: int, j: int) -> int {
    absdiff(d[i], d[j]) + absdiff(d[i + 1], d[j + 1]) + absdiff(d[i + 2], d[j + 2])
}

/// Sample of column `x`: top pixel against bottom pixel, when both lie in
/// the buffer.
pub open spec fn col_pair(d: Seq<u8>, w: int, h: int, x: int) -> (int, int) {
    (x * 4, ((h - 1) * w + x) * 4)
}

/// Sample of row `y`: leftmost pixel against rightmost pixel.
pub open spec fn row_pair(d: Seq<u8>, w: int, h: int, y: int) -> (int, int) {
    ((y * w) * 4, (y * w + (w - 1)) * 4)
}

/// Whether both pixels of a pair lie in the buffer.
pub open spec fn pair_in(d: Seq<u8>, p: (int, int)) -> bool {
    p.0 + 3 < d.len() && p.1 + 3 < d.len()
}

/// (sum, count) of the column samples of the first `n` columns.
pub open spec fn edge_cols(d: Seq<u8>, w: int, h: int, n: int) -> (int, int)
    decreases n,
{
    if n <= 0 {
        (0, 0)
    } else {
        let prev = edge_cols(d, w, h, n - 1);
        let p = col_pair(d, w, h, n - 1);
        if pair_in(d, p) {
            (prev.0 + rgb_diff(d, p.0, p.1), prev.1 + 1)
        } else {
            prev
        }
    }
}

/// (sum, count) of the row samples of the first `n` rows.
pub open spec fn edge_rows(d: Seq<u8>, w: int, h: int, n: int) -> (int, int)
    decreases n,
{
    if n <= 0 {
        (0, 0)
    } else {
        let prev = edge_rows(d, w, h, n - 1);
        let p = row_pair(d, w, h, n - 1);
        if pair_in(d, p) {
            (prev.0 + rgb_diff(d, p.0, p.1), prev.1 + 1)
        } else {
            prev
        }
    }
}

/// Edge difference of a texture as (sum of samples, number of samples); the
/// metric is their quotient (0 with no samples).
pub open spec fn spec_edge(t: TextureMap) -> (int, int) {
    if t.width == 0 || t.height == 0 {
        (0, 0)
    } else {
        let c = edge_cols(t.data@, t.width as int, t.height as int, t.width as int);
        let r = edge_rows(t.data@, t.width as int, t.height as int, t.height as int);
        (c.0 + r.0, c.1 + r.1)
    }
}

/// The edge-difference metric as an exact fraction `total / samples`.
#[derive(Clone, Copy, Debug, PartialEq, Eq, Structural)]
pub struct EdgeDifference {
    pub total: u64,
    pub samples: u64,
}

impl EdgeDifference {
    /// Whether the metric exceeds `threshold_hundredths / 100`.
    pub fn exceeds(&self, threshold_hundredths: u64) -> (r: bool)
        ensures
            r == (100 * self.total as int > threshold_hundredths as int * self.samples as int),
    {
        let lhs: u128 = wide_mul(100, self.total);
        let rhs: u128 = wide_mul(threshold_hundredths, self.samples);
        lhs > rhs
    }

    /// Whether this metric is strictly below `other` (no samples counts as 0).
    pub fn less_than(&self, other: &EdgeDifference) -> (r: bool)
        ensures
            r == ((self.total as int) * (other.samples as int) < (other.total as int) * (
            self.samples as int)),
    {
        let lhs: u128 = wide_mul(self.total, other.samples);
        let rhs: u128 = wide_mul(other.total, self.samples);
        lhs < rhs
    }
}

/// Product of two 64-bit values.
fn wide_mul(a: u64, b: u64) -> (r: u128)
    ensures
        r == a as int * b as int,
{
    assert(a as int * b as int <= 0xffff_ffff_ffff_ffff * 0xffff_ffff_ffff_ffff) by (nonlinear_arith)
        requires
            a <= 0xffff_ffff_ffff_ffff,
            b <= 0xffff_ffff_ffff_ffff,
    ;
    a as u128 * b as u128
}

/// Product of two 32-bit values.
pub(crate) fn mul32(a: u32, b: u32) -> (r: u128)
    ensures
        r == a as int * b as int,
        r <= 0xffff_ffff_ffff_ffff,
{
    assert(a as int * b as int <= 0xffff_ffff * 0xffff_ffff) by (nonlinear_arith)
        requires
            a <= 0xffff_ffff,
            b <= 0xffff_ffff,
    ;
    a as u128 * b as u128
}

fn pixel_diff(d: &Vec<u8>, i: usize, j: usize) -> (r: u64)
    requires
        i + 3 < d@.len(),
        j + 3 < d@.len(),
    ensures
        r == rgb_diff(d@, i as int, j as int),
        r <= 765,
{
    let len = d.len();
    let mut s: u64 = 0;
    let mut c: usize = 0;
    while c < 3
        invariant
            len == d@.len(),
            c <= 3,
            i + 3 < d@.len(),
            j + 3 < d@.len(),
            s <= 255 * c,
            s == if c == 0 {
                0
            } else if c == 1 {
                absdiff(d@[i as int], d@[j as int])
            } else if c == 2 {
                absdiff(d@[i as int], d@[j as int]) + absdiff(d@[i + 1], d@[j + 1])
            } else {
                rgb_diff(d@, i as int, j as int)
            },
        decreases 3 - c,
    {
        let a = d[i + c];
        let b = d[j + c];
        s = s + if a >= b { (a - b) as u64 } else { (b - a) as u64 };
        c += 1;
    }
    s
}

/// Mean absolute RGB difference between opposite edges: top row against
/// bottom row for every column, leftmost against rightmost column for every
/// row.
pub fn edge_difference(map: &TextureMap) -> (r: EdgeDifference)
    ensures
        r.total == spec_edge(*map).0,
        r.samples == spec_edge(*map).1,
        r.total <= 765 * r.samples,
{
    let w = map.width;
    let h = map.height;
    if w == 0 || h == 0 {
        return EdgeDifference { total: 0, samples: 0 };
    }
    let d = &map.data;
    let len = d.len() as u128;
    let mut sum: u64 = 0;
    let mut count: u64 = 0;
    let mut x: u32 = 0;
    while x < w
        invariant
            0 < w == map.width,
            0 < h == map.height,
            len == map.data@.len(),
            len <= usize::MAX,
            d == &map.data,
            x <= w,
            (sum as int, count as int) == edge_cols(map.data@, w as int, h as int, x as int),
            count <= x,
            sum <= 765 * count,
        decreases w - x,
    {
        let top = x as u128 * 4;
        let bottom = (mul32(h - 1, w) + x as u128) * 4;
        if top + 3 < len && bottom + 3 < len {
            sum = sum + pixel_diff(d, top as usize, bottom as usize);
            count = count + 1;
        }
        x += 1;
    }
    let mut y: u32 = 0;
    let ghost cols = (sum as int, count as int);
    while y < h
        invariant
            0 < w == map.width,
            0 < h == map.height,
            len == map.data@.len(),
            len <= usize::MAX,
            d == &map.data,
            y <= h,
            cols == edge_cols(map.data@, w as int, h as int, w as int),
            (sum - cols.0, count - cols.1) == edge_rows(map.data@, w as int, h as int, y as int),
            count <= w as int + y as int,
            sum <= 765 * count,
            cols.0 <= sum,
            cols.1 <= count,
        decreases h - y,
    {
        let left = mul32(y, w) * 4;
        let right = (mul32(y, w) + (w as u128 - 1)) * 4;
        if left + 3 < len && right + 3 < len {
            sum = sum + pixel_diff(d, left as usize, right as usize);
            count = count + 1;
        }
        y += 1;
    }
    EdgeDifference { total: sum, samples: count }
}

// ---------------------------------------------------------------------------
// Tileability repair.

/// Rounded average of two bytes (halves round up).
pub open spec fn avg(a: u8, b: u8) -> u8 {
    ((a + b + 1) / 2) as u8
}

/// Blend width actually used: `blend_width` clamped to at least 1 and at
/// most `min(width, height) / 4`.
pub open spec fn blend_of(w: int, h: int, blend_width: int) -> int {
    let cap = (if w < h { w } else { h }) / 4;
    let b = if blend_width < cap { blend_width } else { cap };
    if b < 1 { 1 } else { b }
}

/// Byte of channel `c` of pixel (x, y) in a row-major RGBA buffer of width `w`.
pub open spec fn px(d: Seq<u8>, w: int, x: int, y: int, c: int) -> u8 {
    d[(y * w + x) * 4 + c]
}

/// After the vertical pass: the first and last `b` rows hold the average of
/// each pixel and its mirror across the horizontal midline.
pub open spec fn vpass(d: Seq<u8>, w: int, h: int, b: int, x: int, y: int, c: int) -> u8 {
    if y < b || y >= h - b {
        avg(px(d, w, x, y, c), px(d, w, x, h - 1 - y, c))
    } else {
        px(d, w, x, y, c)
    }
}

/// After both passes: the first and last `b` columns of the vertically
/// blended image hold the average of each pixel and its mirror across the
/// vertical midline.
pub open spec fn hpass(d: Seq<u8>, w: int, h: int, b: int, x: int, y: int, c: int) -> u8 {
    if x < b || x >= w - b {
        avg(vpass(d, w, h, b, x, y, c), vpass(d, w, h, b, w - 1 - x, y, c))
    } else {
        vpass(d, w, h, b, x, y, c)
    }
}

/// Byte `i` of the repaired buffer.
pub open spec fn fixed_byte(d: Seq<u8>, w: int, h: int, b: int, i: int) -> u8 {
    hpass(d, w, h, b, (i / 4) % w, (i / 4) / w, i % 4)
}

proof fn lemma_coords(w: int, x: int, y: int, c: int)
    requires
        0 <= x < w,
        0 <= y,
        0 <= c < 4,
    ensures
        ((y * w + x) * 4 + c) / 4 == y * w + x,
        ((y * w + x) * 4 + c) % 4 == c,
        (y * w + x) % w == x,
        (y * w + x) / w == y,
{
    lemma_fundamental_div_mod_converse((y * w + x) * 4 + c, 4, y * w + x, c);
    lemma_fundamental_div_mod_converse(y * w + x, w, y, x);
}

proof fn lemma_decompose(w: int, h: int, i: int)
    requires
        0 < w,
        0 < h,
        0 <= i < w * h * 4,
    ensures
        0 <= (i / 4) % w < w,
        0 <= (i / 4) / w < h,
        0 <= i % 4 < 4,
        i == (((i / 4) / w) * w + (i / 4) % w) * 4 + i % 4,
{
    lemma_fundamental_div_mod(i, 4);
    lemma_fundamental_div_mod(i / 4, w);
    lemma_mod_pos_bound(i, 4);
    lemma_mod_pos_bound(i / 4, w);
    let p = i / 4;
    let q = p / w;
    let r = p % w;
    assert(0 <= p < w * h) by (nonlinear_arith)
        requires
            i == 4 * p + i % 4,
            0 <= i % 4 < 4,
            0 <= i < w * h * 4,
    ;
    assert(0 <= q < h) by (nonlinear_arith)
        requires
            p == w * q + r,
            0 <= r < w,
            0 <= p < w * h,
            w > 0,
    ;
    assert(i == (q * w + r) * 4 + i % 4) by (nonlinear_arith)
        requires
            i == 4 * p + i % 4,
            p == w * q + r,
    ;
}

/// The repaired texture: same size and path, bytes given by `fixed_byte`.
pub open spec fn is_fixed_of(r: TextureMap, t: TextureMap, blend_width: u32) -> bool {
    &&& r.width == t.width
    &&& r.height == t.height
    &&& r.path == t.path
    &&& r.data@.len() == t.data@.len()
    &&& forall|i: int|
        0 <= i < r.data@.len() ==> #[trigger] r.data@[i] == fixed_byte(
            t.data@,
            t.width as int,
            t.height as int,
            blend_of(t.width as int, t.height as int, blend_width as int),
            i,
        )
}

/// Blends opposite edges so the texture tiles: the first and last `b` rows,
/// then the first and last `b` columns, are replaced by the rounded average
/// of each pixel and its mirror. Textures under 4x4 come back unchanged; a
/// buffer whose length is not `width * height * 4` is refused.
pub fn fix_tileability(texture: &TextureMap, blend_width: u32) -> (r: Result<TextureMap, Error>)
    ensures
        (texture.width < 4 || texture.height < 4) ==> (r is Ok && r->Ok_0.same_as(texture)),
        (texture.width >= 4 && texture.height >= 4) ==> (r is Ok <==> texture.wf()),
        (texture.width >= 4 && texture.height >= 4 && texture.wf()) ==> is_fixed_of(
            r->Ok_0,
            *texture,
            blend_width,
        ),
        r is Err ==> r->Err_0 == Error::InvalidDimensions,
{
    let w = texture.width;
    let h = texture.height;
    if w < 4 || h < 4 {
        return Ok(texture.duplicate());
    }
    if texture.data.len() as u128 != mul32(w, h) * 4 {
        return Err(Error::InvalidDimensions);
    }
    let cap = (if w < h { w } else { h }) / 4;
    let b0 = if blend_width < cap { blend_width } else { cap };
    let b = if b0 < 1 { 1 } else { b0 };
    let ghost gb = b as int;
    assert(gb == blend_of(w as int, h as int, blend_width as int));
    let d = &texture.data;
    let n = d.len();
    let mut out: Vec<u8> = Vec::new();
    let mut i: usize = 0;
    while i < n
        invariant
            n == d@.len(),
            d == &texture.data,
            n == w as int * h as int * 4,
            4 <= w == texture.width,
            4 <= h == texture.height,
            1 <= b <= w / 4,
            b <= h / 4,
            gb == b,
            i <= n,
            out@.len() == i,
            forall|k: int|
                0 <= k < i ==> #[trigger] out@[k] == fixed_byte(d@, w as int, h as int, gb, k),
        decreases n - i,
    {
        proof {
            lemma_decompose(w as int, h as int, i as int);
        }
        let p = i / 4;
        let x = (p % w as usize) as u32;
        let y = (p / w as usize) as u32;
        let c = i % 4;
        let v = fixed_value(d, w, h, b, x, y, c);
        out.push(v);
        i += 1;
    }
    let path = match &texture.path {
        Some(p) => Some(p.clone()),
        None => None,
    };
    Ok(TextureMap { width: w, height: h, data: out, path })
}

fn byte_at(d: &Vec<u8>, w: u32, h: u32, x: u32, y: u32, c: usize) -> (r: u8)
    requires
        d@.len() == w as int * h as int * 4,
        x < w,
        y < h,
        c < 4,
    ensures
        r == px(d@, w as int, x as int, y as int, c as int),
{
    assert((y as int * w as int + x as int) * 4 + c < w as int * h as int * 4) by (nonlinear_arith)
        requires
            x < w,
            y < h,
            c < 4,
    ;
    let len = d.len();
    let p = mul32(y, w) + x as u128;
    assert(p * 4 + c < len);
    let i = (p * 4) as usize;
    d[i + c]
}

fn avg_exec(a: u8, b: u8) -> (r: u8)
    ensures
        r == avg(a, b),
{
    ((a as u16 + b as u16 + 1) / 2) as u8
}

fn vpass_value(d: &Vec<u8>, w: u32, h: u32, b: u32, x: u32, y: u32, c: usize) -> (r: u8)
    requires
        d@.len() == w as int * h as int * 4,
        x < w,
        y < h,
        c < 4,
        b <= h,
    ensures
        r == vpass(d@, w as int, h as int, b as int, x as int, y as int, c as int),
{
    if y < b || y >= h - b {
        avg_exec(byte_at(d, w, h, x, y, c), byte_at(d, w, h, x, h - 1 - y, c))
    } else {
        byte_at(d, w, h, x, y, c)
    }
}

fn fixed_value(d: &Vec<u8>, w: u32, h: u32, b: u32, x: u32, y: u32, c: usize) -> (r: u8)
    requires
        d@.len() == w as int * h as int * 4,
        x < w,
        y < h,
        c < 4,
        b <= h,
        b <= w,
    ensures
        r == hpass(d@, w as int, h as int, b as int, x as int, y as int, c as int),
{
    if x < b || x >= w - b {
        avg_exec(vpass_value(d, w, h, b, x, y, c), vpass_value(d, w, h, b, w - 1 - x, y, c))
    } else {
        vpass_value(d, w, h, b, x, y, c)
    }
}

proof fn lemma_edges_match(t: TextureMap, r: TextureMap, blend_width: u32)
    requires
        t.wf(),
        t.width >= 4,
        t.height >= 4,
        is_fixed_of(r, t, blend_width),
    ensures
        forall|x: int, c: int|
            0 <= x < t.width && 0 <= c < 4 ==> #[trigger] px(r.data@, t.width as int, x, 0, c) == px(
                r.data@,
                t.width as int,
                x,
                t.height - 1,
                c,
            ),
        forall|y: int, c: int|
            0 <= y < t.height && 0 <= c < 4 ==> #[trigger] px(r.data@, t.width as int, 0, y, c) == px(
                r.data@,
                t.width as int,
                t.width - 1,
                y,
                c,
            ),
{
    let w = t.width as int;
    let h = t.height as int;
    let b = blend_of(w, h, blend_width as int);
    let d = t.data@;
    assert forall|x: int, c: int| 0 <= x < w && 0 <= c < 4 implies #[trigger] px(
        r.data@,
        w,
        x,
        0,
        c,
    ) == px(r.data@, w, x, h - 1, c) by {
        lemma_coords(w, x, 0, c);
        lemma_coords(w, x, h - 1, c);
        assert((0 * w + x) * 4 + c < w * h * 4 && ((h - 1) * w + x) * 4 + c < w * h * 4)
            by (nonlinear_arith)
            requires
                0 <= x < w,
                0 <= c < 4,
                h >= 4,
        ;
        assert(vpass(d, w, h, b, x, 0, c) == vpass(d, w, h, b, x, h - 1, c));
        assert(vpass(d, w, h, b, w - 1 - x, 0, c) == vpass(d, w, h, b, w - 1 - x, h - 1, c));
    }
    assert forall|y: int, c: int| 0 <= y < h && 0 <= c < 4 implies #[trigger] px(
        r.data@,
        w,
        0,
        y,
        c,
    ) == px(r.data@, w, w - 1, y, c) by {
        lemma_coords(w, 0, y, c);
        lemma_coords(w, w - 1, y, c);
        assert((y * w + 0) * 4 + c < w * h * 4 && (y * w + (w - 1)) * 4 + c < w * h * 4)
            by (nonlinear_arith)
            requires
                0 <= y < h,
                0 <= c < 4,
                w >= 4,
        ;
    }
}

proof fn lemma_cols_zero(r: TextureMap, n: int)
    requires
        r.wf(),
        r.width >= 4,
        r.height >= 4,
        0 <= n <= r.width,
        forall|x: int, c: int|
            0 <= x < r.width && 0 <= c < 4 ==> #[trigger] px(r.data@, r.width as int, x, 0, c) == px(
                r.data@,
                r.width as int,
                x,
                r.height - 1,
                c,
            ),
    ensures
        edge_cols(r.data@, r.width as int, r.height as int, n).0 == 0,
    decreases n,
{
    if n > 0 {
        lemma_cols_zero(r, n - 1);
        let x = n - 1;
        let w = r.width as int;
        assert(px(r.data@, w, x, 0, 0) == px(r.data@, w, x, r.height - 1, 0));
        assert(px(r.data@, w, x, 0, 1) == px(r.data@, w, x, r.height - 1, 1));
        assert(px(r.data@, w, x, 0, 2) == px(r.data@, w, x, r.height - 1, 2));
        assert(x * 4 == (0 * w + x) * 4);
    }
}

proof fn lemma_rows_zero(r: TextureMap, n: int)
    requires
        r.wf(),
        r.width >= 4,
        r.height >= 4,
        0 <= n <= r.height,
        forall|y: int, c: int|
            0 <= y < r.height && 0 <= c < 4 ==> #[trigger] px(r.data@, r.width as int, 0, y, c) == px(
                r.data@,
                r.width as int,
                r.width - 1,
                y,
                c,
            ),
    ensures
        edge_rows(r.data@, r.width as int, r.height as int, n).0 == 0,
    decreases n,
{
    if n > 0 {
        lemma_rows_zero(r, n - 1);
        let y = n - 1;
        let w = r.width as int;
        assert(px(r.data@, w, 0, y, 0) == px(r.data@, w, w - 1, y, 0));
        assert(px(r.data@, w, 0, y, 1) == px(r.data@, w, w - 1, y, 1));
        assert(px(r.data@, w, 0, y, 2) == px(r.data@, w, w - 1, y, 2));
        assert((y * w) * 4 == (y * w + 0) * 4);
    }
}

/// After repair the opposite edges of a well-formed texture of at least 4x4
/// are identical, so its edge difference is 0: never above the original.
pub proof fn lemma_fix_never_worse(t: TextureMap, r: TextureMap, blend_width: u32)
    requires
        t.wf(),
        t.width >= 4,
        t.height >= 4,
        is_fixed_of(r, t, blend_width),
    ensures
        spec_edge(r).0 == 0,
        spec_edge(r).0 * spec_edge(t).1 <= spec_edge(t).0 * spec_edge(r).1,
{
    lemma_edges_match(t, r, blend_width);
    lemma_cols_zero(r, r.width as int);
    lemma_rows_zero(r, r.height as int);
    lemma_edge_nonneg(t);
    lemma_edge_nonneg(r);
    assert(spec_edge(t).0 * spec_edge(r).1 >= 0) by (nonlinear_arith)
        requires
            spec_edge(t).0 >= 0,
            spec_edge(r).1 >= 0,
    ;
}

proof fn lemma_edge_cols_nonneg(d: Seq<u8>, w: int, h: int, n: int)
    ensures
        edge_cols(d, w, h, n).0 >= 0,
        edge_cols(d, w, h, n).1 >= 0,
    decreases n,
{
    if n > 0 {
        lemma_edge_cols_nonneg(d, w, h, n - 1);
    }
}

proof fn lemma_edge_rows_nonneg(d: Seq<u8>, w: int, h: int, n: int)
    ensures
        edge_rows(d, w, h, n).0 >= 0,
        edge_rows(d, w, h, n).1 >= 0,
    decreases n,
{
    if n > 0 {
        lemma_edge_rows_nonneg(d, w, h, n - 1);
    }
}

proof fn lemma_edge_nonneg(t: TextureMap)
    ensures
        spec_edge(t).0 >= 0,
        spec_edge(t).1 >= 0,
{
    lemma_edge_cols_nonneg(t.data@, t.width as int, t.height as int, t.width as int);
    lemma_edge_rows_nonneg(t.data@, t.width as int, t.height as int, t.height as int);
}

/// Outcome of a repair, with the metric before and after.
#[derive(Debug)]
pub struct TileabilityFixResult {
    pub path: String,
    pub original_edge_difference: EdgeDifference,
    pub fixed_edge_difference: EdgeDifference,
    pub improved: bool,
}

/// The path of a texture for reports: its source path, or "unknown".
pub open spec fn path_label(p: Option<String>) -> Seq<char> {
    match p {
        Some(s) => s@,
        None => "unknown"@,
    }
}

fn path_text(p: &Option<String>) -> (r: String)
    ensures
        r@ == path_label(*p),
{
    match p {
        Some(s) => s.clone(),
        None => String::from_str("unknown"),
    }
}

/// Repairs a texture and reports the metric before and after; `improved`
/// is exactly "after < before".
pub fn fix_tileability_with_report(texture: &TextureMap, blend_width: u32) -> (r: Result<
    (TextureMap, TileabilityFixResult),
    Error,
>)
    ensures
        r is Ok <==> (texture.width < 4 || texture.height < 4 || texture.wf()),
        r is Ok ==> ({
            let (fixed, rep) = r->Ok_0;
            &&& rep.path@ == path_label(texture.path)
            &&& rep.original_edge_difference.total == spec_edge(*texture).0
            &&& rep.original_edge_difference.samples == spec_edge(*texture).1
            &&& rep.fixed_edge_difference.total == spec_edge(fixed).0
            &&& rep.fixed_edge_difference.samples == spec_edge(fixed).1
            &&& rep.improved == (spec_edge(fixed).0 * spec_edge(*texture).1 < spec_edge(
                *texture,
            ).0 * spec_edge(fixed).1)
            &&& (texture.width < 4 || texture.height < 4) ==> fixed.same_as(texture)
            &&& (texture.width >= 4 && texture.height >= 4) ==> is_fixed_of(
                fixed,
                *texture,
                blend_width,
            )
        }),
{
    let path = path_text(&texture.path);
    let before = edge_difference(texture);
    let fixed = match fix_tileability(texture, blend_width) {
        Ok(f) => f,
        Err(e) => return Err(e),
    };
    let after = edge_difference(&fixed);
    let improved = after.less_than(&before);
    Ok(
        (
            fixed,
            TileabilityFixResult {
                path,
                original_edge_difference: before,
                fixed_edge_difference: after,
                improved,
            },
        ),
    )
}

// ---------------------------------------------------------------------------
// Perceptual fingerprints and similarity.

/// Largest fingerprint value: a block of white, in thousandths of a level.
pub const LUM_MAX: u64 = 255000;

/// Similarity scale: 1_000_000 parts per million is "identical".
pub const PPM: u64 = 1_000_000;

/// First column (or row) of block `b` of 8 along an edge of `n` pixels.
pub open spec fn block_lo(b: int, n: int) -> int {
    if n >= 8 {
        b * n / 8
    } else {
        b
    }
}

/// One past the last column (or row) of block `b` of 8.
pub open spec fn block_hi(b: int, n: int) -> int {
    if n >= 8 {
        (b + 1) * n / 8
    } else if b + 1 < n {
        b + 1
    } else {
        n
    }
}

/// Luminance (thousandths) of the pixel starting at byte `i`.
pub open spec fn lum_at(d: Seq<u8>, i: int) -> int {
    299 * d[i] + 587 * d[i + 1] + 114 * d[i + 2]
}

/// (sum of luminance, pixel count) over columns `[x0, x)` of row `y`,
/// skipping pixels outside the buffer.
pub open spec fn row_block(d: Seq<u8>, w: int, y: int, x0: int, x: int) -> (int, int)
    decreases x - x0,
{
    if x <= x0 {
        (0, 0)
    } else {
        let prev = row_block(d, w, y, x0, x - 1);
        let i = (y * w + (x - 1)) * 4;
        if i + 2 < d.len() {
            (prev.0 + lum_at(d, i), prev.1 + 1)
        } else {
            prev
        }
    }
}

/// (sum, count) over rows `[y0, y)` and columns `[x0, x1)`.
pub open spec fn block_sum(d: Seq<u8>, w: int, y0: int, y: int, x0: int, x1: int) -> (int, int)
    decreases y - y0,
{
    if y <= y0 {
        (0, 0)
    } else {
        let prev = block_sum(d, w, y0, y - 1, x0, x1);
        let r = row_block(d, w, y - 1, x0, x1);
        (prev.0 + r.0, prev.1 + r.1)
    }
}

/// Mean luminance (thousandths, rounded down) of block (bx, by); 0 when empty.
pub open spec fn cell(t: TextureMap, bx: int, by: int) -> int {
    let w = t.width as int;
    let h = t.height as int;
    let s = block_sum(
        t.data@,
        w,
        block_lo(by, h),
        block_hi(by, h),
        block_lo(bx, w),
        block_hi(bx, w),
    );
    if s.1 > 0 {
        s.0 / s.1
    } else {
        0
    }
}

/// The 8x8 grid of block means, row by row; empty for an empty texture.
pub open spec fn spec_fingerprint(t: TextureMap) -> Seq<u64> {
    if t.width == 0 || t.height == 0 {
        Seq::empty()
    } else {
        Seq::new(64, |k: int| cell(t, k % 8, k / 8) as u64)
    }
}

/// A perceptual fingerprint: 64 block means of luminance (thousandths), or
/// none for an empty texture.
#[derive(Debug)]
pub struct Fingerprint {
    pub values: Vec<u64>,
}

impl Fingerprint {
    /// 0 or 64 values, each at most `LUM_MAX`.
    pub open spec fn wf(&self) -> bool {
        &&& (self.values@.len() == 0 || self.values@.len() == 64)
        &&& forall|k: int| 0 <= k < self.values@.len() ==> #[trigger] self.values@[k] <= LUM_MAX
    }
}

proof fn lemma_block_bounds(b: int, n: int)
    requires
        0 <= b < 8,
        n > 0,
    ensures
        0 <= block_lo(b, n),
        block_hi(b, n) <= n,
{
    if n >= 8 {
        assert(0 <= b * n / 8) by (nonlinear_arith)
            requires
                0 <= b,
                n > 0,
        ;
        assert((b + 1) * n / 8 <= n) by (nonlinear_arith)
            requires
                b + 1 <= 8,
                n > 0,
        ;
    }
}

fn lum_exec(d: &Vec<u8>, i: usize) -> (r: u64)
    requires
        i + 2 < d@.len(),
    ensures
        r == lum_at(d@, i as int),
        r <= 255000,
{
    let _len = d.len();
    299 * d[i] as u64 + 587 * d[i + 1] as u64 + 114 * d[i + 2] as u64
}

/// Mean luminance of one block of the grid.
fn block_mean(t: &TextureMap, bx: u32, by: u32) -> (r: u64)
    requires
        t.width > 0,
        t.height > 0,
        bx < 8,
        by < 8,
    ensures
        r == cell(*t, bx as int, by as int),
        r <= LUM_MAX,
{
    let w = t.width;
    let h = t.height;
    let ghost gw = w as int;
    proof {
        lemma_block_bounds(bx as int, w as int);
        lemma_block_bounds(by as int, h as int);
    }
    assert(bx * w / 8 <= w && (bx + 1) * w / 8 <= w && by * h / 8 <= h && (by + 1) * h / 8 <= h)
        by (nonlinear_arith)
        requires
            bx < 8,
            by < 8,
    ;
    let x0: u32 = if w >= 8 { (mul32(bx, w) / 8) as u32 } else { bx };
    let x1: u32 = if w >= 8 { (mul32(bx + 1, w) / 8) as u32 } else if bx + 1 < w { bx + 1 } else { w };
    let y0: u32 = if h >= 8 { (mul32(by, h) / 8) as u32 } else { by };
    let y1: u32 = if h >= 8 { (mul32(by + 1, h) / 8) as u32 } else if by + 1 < h { by + 1 } else { h };
    assert(x0 == block_lo(bx as int, w as int) && x1 == block_hi(bx as int, w as int));
    assert(y0 == block_lo(by as int, h as int) && y1 == block_hi(by as int, h as int));
    let d = &t.data;
    let len = d.len() as u128;
    let mut sum: u128 = 0;
    let mut count: u64 = 0;
    let mut y = y0;
    while y < y1
        invariant
            d == &t.data,
            len == d@.len(),
            len <= usize::MAX,
            w == t.width,
            y0 <= y <= y1 || (y1 < y0 && y == y0),
            y1 <= t.height,
            x1 <= w,
            (sum as int, count as int) == block_sum(d@, w as int, y0 as int, y as int, x0 as int, x1 as int),
            count <= (y - y0) * w,
            sum <= 255000 * count,
        decreases y1 - y,
    {
        let mut x = x0;
        let ghost rs = (sum as int, count as int);
        while x < x1
            invariant
                d == &t.data,
                len == d@.len(),
                len <= usize::MAX,
                w == t.width,
                y0 <= y < y1,
                y1 <= t.height,
                x1 <= w,
                x0 <= x <= x1 || (x1 < x0 && x == x0),
                rs == block_sum(d@, w as int, y0 as int, y as int, x0 as int, x1 as int),
                (sum - rs.0, count - rs.1) == row_block(d@, w as int, y as int, x0 as int, x as int),
                count <= (y - y0) * w + (x - x0),
                rs.1 <= (y - y0) * w,
                sum <= 255000 * count,
            decreases x1 - x,
        {
            let i = (mul32(y, w) + x as u128) * 4;
            assert(count + 1 <= 0xffff_ffff_ffff_ffff) by (nonlinear_arith)
                requires
                    count <= (y - y0) * w + (x - x0),
                    x < w,
                    y < t.height,
                    y0 <= y,
                    x0 <= x,
                    w <= 0xffff_ffff,
                    t.height <= 0xffff_ffff,
            ;
            if i + 2 < len {
                sum = sum + lum_exec(d, i as usize) as u128;
                count = count + 1;
            }
            x += 1;
        }
        assert(count <= (y + 1 - y0) * w) by (nonlinear_arith)
            requires
                count <= (y - y0) * w + (x - x0),
                x - x0 <= w,
        ;
        y += 1;
    }
    if count > 0 {
        assert(sum / count as u128 <= 255000) by (nonlinear_arith)
            requires
                sum <= 255000 * count,
                count > 0,
        ;
        (sum / count as u128) as u64
    } else {
        0
    }
}

/// The perceptual fingerprint of a texture: its 8x8 grid of block means of
/// luminance (0.299 R + 0.587 G + 0.114 B, in thousandths).
pub fn perceptual_hash(map: &TextureMap) -> (r: Fingerprint)
    ensures
        r.values@ == spec_fingerprint(*map),
        r.wf(),
{
    let mut values: Vec<u64> = Vec::new();
    if map.width == 0 || map.height == 0 {
        assert(values@ =~= spec_fingerprint(*map));
        return Fingerprint { values };
    }
    let mut k: u32 = 0;
    while k < 64
        invariant
            map.width > 0,
            map.height > 0,
            k <= 64,
            values@.len() == k,
            forall|j: int| 0 <= j < k ==> #[trigger] values@[j] == cell(*map, j % 8, j / 8) as u64,
            forall|j: int| 0 <= j < k ==> #[trigger] values@[j] <= LUM_MAX,
        decreases 64 - k,
    {
        let v = block_mean(map, k % 8, k / 8);
        values.push(v);
        k += 1;
    }
    assert(values@ =~= spec_fingerprint(*map));
    Fingerprint { values }
}

/// Sum of squared differences of the first `n` entries.
pub open spec fn sq_dist(a: Seq<u64>, b: Seq<u64>, n: int) -> int
    decreases n,
{
    if n <= 0 {
        0
    } else {
        sq_dist(a, b, n - 1) + (a[n - 1] - b[n - 1]) * (a[n - 1] - b[n - 1])
    }
}

/// Similarity of two fingerprints as an exact fraction (numerator,
/// denominator): `1 - min(1, dist / (len * LUM_MAX^2))`; 0 when the lengths
/// differ or both are empty.
pub open spec fn similarity(a: Seq<u64>, b: Seq<u64>) -> (int, int) {
    if a.len() != b.len() || a.len() == 0 {
        (0, 1)
    } else {
        let m = a.len() * LUM_MAX * LUM_MAX;
        let d = sq_dist(a, b, a.len() as int);
        (m - if d < m { d } else { m }, m)
    }
}

/// Similarity in parts per million, rounded down.
pub open spec fn similarity_ppm(a: Seq<u64>, b: Seq<u64>) -> int {
    PPM * similarity(a, b).0 / similarity(a, b).1
}

/// Whether the similarity is at least `threshold_ppm` parts per million.
pub open spec fn similar_at_least(a: Seq<u64>, b: Seq<u64>, threshold_ppm: int) -> bool {
    PPM * similarity(a, b).0 >= threshold_ppm * similarity(a, b).1
}

proof fn lemma_sq_dist_bound(a: Seq<u64>, b: Seq<u64>, n: int)
    requires
        0 <= n <= a.len(),
        a.len() == b.len(),
        forall|k: int| 0 <= k < a.len() ==> #[trigger] a[k] <= LUM_MAX,
        forall|k: int| 0 <= k < b.len() ==> #[trigger] b[k] <= LUM_MAX,
    ensures
        0 <= sq_dist(a, b, n) <= n * LUM_MAX * LUM_MAX,
    decreases n,
{
    if n > 0 {
        lemma_sq_dist_bound(a, b, n - 1);
        let x = a[n - 1] - b[n - 1];
        assert(0 <= x * x <= LUM_MAX * LUM_MAX) by (nonlinear_arith)
            requires
                -255000 <= x <= 255000,
        ;
    }
}

proof fn lemma_sq_dist_self(a: Seq<u64>, n: int)
    ensures
        sq_dist(a, a, n) == 0,
    decreases n,
{
    if n > 0 {
        lemma_sq_dist_self(a, n - 1);
    }
}

/// Similarity of two fingerprints, in parts per million (1_000_000 means
/// identical).
pub fn hash_similarity(a: &Fingerprint, b: &Fingerprint) -> (r: u32)
    requires
        a.wf(),
        b.wf(),
    ensures
        r == similarity_ppm(a.values@, b.values@),
        r <= PPM,
        a.values@ == b.values@ && a.values@.len() > 0 ==> r == PPM,
{
    let n = a.values.len();
    if n != b.values.len() || n == 0 {
        return 0;
    }
    let mut d: u64 = 0;
    let mut k: usize = 0;
    while k < n
        invariant
            n == a.values@.len(),
            n == b.values@.len(),
            n <= 64,
            a.wf(),
            b.wf(),
            k <= n,
            d == sq_dist(a.values@, b.values@, k as int),
            d <= k * LUM_MAX * LUM_MAX,
        decreases n - k,
    {
        let x = a.values[k];
        let y = b.values[k];
        let diff = if x >= y { x - y } else { y - x };
        proof {
            lemma_sq_dist_bound(a.values@, b.values@, k + 1);
        }
        assert(diff * diff <= LUM_MAX * LUM_MAX) by (nonlinear_arith)
            requires
                diff <= 255000,
        ;
        assert(diff * diff == (a.values@[k as int] - b.values@[k as int]) * (a.values@[k as int]
            - b.values@[k as int])) by (nonlinear_arith)
            requires
                diff == if x >= y { x - y } else { y - x },
                x == a.values@[k as int],
                y == b.values@[k as int],
        ;
        d = d + diff * diff;
        k += 1;
    }
    let m: u64 = n as u64 * LUM_MAX * LUM_MAX;
    let dd = if d < m { d } else { m };
    let num: u128 = PPM as u128 * (m - dd) as u128;
    let den: u128 = m as u128;
    let r = num / den;
    assert(r <= PPM) by (nonlinear_arith)
        requires
            r == num / den,
            num == PPM * (m - dd),
            den == m,
            dd <= m,
            m > 0,
    ;
    proof {
        if a.values@ == b.values@ {
            lemma_sq_dist_self(a.values@, n as int);
            assert(r == PPM) by (nonlinear_arith)
                requires
                    r == num / den,
                    num == PPM * den,
                    den > 0,
            ;
        }
    }
    r as u32
}

/// Whether the similarity of two fingerprints reaches `threshold_ppm`.
pub fn meets_threshold(a: &Fingerprint, b: &Fingerprint, threshold_ppm: u32) -> (r: bool)
    requires
        a.wf(),
        b.wf(),
    ensures
        r == similar_at_least(a.values@, b.values@, threshold_ppm as int),
{
    let n = a.values.len();
    if n != b.values.len() || n == 0 {
        return 0 >= threshold_ppm;
    }
    let mut d: u64 = 0;
    let mut k: usize = 0;
    while k < n
        invariant
            n == a.values@.len(),
            n == b.values@.len(),
            n <= 64,
            a.wf(),
            b.wf(),
            k <= n,
            d == sq_dist(a.values@, b.values@, k as int),
            d <= k * LUM_MAX * LUM_MAX,
        decreases n - k,
    {
        let x = a.values[k];
        let y = b.values[k];
        let diff = if x >= y { x - y } else { y - x };
        proof {
            lemma_sq_dist_bound(a.values@, b.values@, k + 1);
        }
        assert(diff * diff <= LUM_MAX * LUM_MAX) by (nonlinear_arith)
            requires
                diff <= 255000,
        ;
        assert(diff * diff == (a.values@[k as int] - b.values@[k as int]) * (a.values@[k as int]
            - b.values@[k as int])) by (nonlinear_arith)
            requires
                diff == if x >= y { x - y } else { y - x },
                x == a.values@[k as int],
                y == b.values@[k as int],
        ;
        d = d + diff * diff;
        k += 1;
    }
    let m: u64 = n as u64 * LUM_MAX * LUM_MAX;
    let dd = if d < m { d } else { m };
    wide_mul(PPM, m - dd) >= wide_mul(threshold_ppm as u64, m)
}

/// A fingerprint compared with itself is identical, whatever the texture.
pub proof fn lemma_self_similarity(t: TextureMap)
    requires
        t.width > 0,
        t.height > 0,
    ensures
        similarity_ppm(spec_fingerprint(t), spec_fingerprint(t)) == PPM,
        forall|th: int| th <= PPM ==> similar_at_least(spec_fingerprint(t), spec_fingerprint(t), th),
{
    let f = spec_fingerprint(t);
    lemma_sq_dist_self(f, 64);
    let m = 64 * LUM_MAX * LUM_MAX;
    assert(similarity(f, f) == (m, m));
    assert(PPM * m / m == PPM) by (nonlinear_arith)
        requires
            m > 0,
    ;
    assert forall|th: int| th <= PPM implies similar_at_least(f, f, th) by {
        assert(PPM * m >= th * m) by (nonlinear_arith)
            requires
                th <= PPM,
                m > 0,
        ;
    }
}

// ---------------------------------------------------------------------------
// Batch analyses over (folder, material) pairs.

/// What `std::path::Path::file_name` gives for a path, as text.
pub uninterp spec fn file_name_of(p: Seq<char>) -> Option<Seq<char>>;

/// Relies on `std::path::Path::file_name`: the last component of a path,
/// `None` when the path ends in `..` or is a root or empty.
#[verifier::external_body]
pub(crate) fn file_name(p: &str) -> (r: Option<String>)
    ensures
        r is Some <==> file_name_of(p@) is Some,
        r is Some ==> r->Some_0@ == file_name_of(p@)->Some_0,
{
    std::path::Path::new(p).file_name().map(|n| n.to_string_lossy().into_owned())
}

/// The text of an optional string.
pub open spec fn opt_text(o: Option<String>) -> Option<Seq<char>> {
    match o {
        Some(s) => Some(s@),
        None => None,
    }
}

/// A material's name: its own, else its folder's last component.
pub open spec fn material_label(m: (String, MaterialSet)) -> Option<Seq<char>> {
    match m.1.name {
        Some(n) => Some(n@),
        None => file_name_of(m.0@),
    }
}

/// A material's name, else its folder's last component, else the folder.
pub open spec fn material_title(m: (String, MaterialSet)) -> Seq<char> {
    match material_label(m) {
        Some(n) => n,
        None => m.0@,
    }
}

pub(crate) fn label_of(m: &(String, MaterialSet)) -> (r: Option<String>)
    ensures
        opt_text(r) == material_label(*m),
{
    match &m.1.name {
        Some(n) => Some(n.clone()),
        None => file_name(m.0.as_str()),
    }
}

fn title_of(m: &(String, MaterialSet)) -> (r: String)
    ensures
        r@ == material_title(*m),
{
    match label_of(m) {
        Some(n) => n,
        None => m.0.clone(),
    }
}

/// The present textures of the first `k` materials, as (material, slot)
/// pairs, materials in order and slots in slot order.
pub open spec fn refs_of(ms: Seq<(String, MaterialSet)>, k: int) -> Seq<(int, int)>
    decreases k,
{
    if k <= 0 {
        Seq::empty()
    } else {
        refs_of(ms, k - 1) + slots_of(ms, k - 1, 6)
    }
}

/// (m, s) for the present slots `s < n` of material `m`.
pub open spec fn slots_of(ms: Seq<(String, MaterialSet)>, m: int, n: int) -> Seq<(int, int)>
    decreases n,
{
    if n <= 0 {
        Seq::empty()
    } else if ms[m].1.maps()[n - 1] is Some {
        slots_of(ms, m, n - 1).push((m, n - 1))
    } else {
        slots_of(ms, m, n - 1)
    }
}

/// The texture a reference points at.
pub open spec fn ref_tex(ms: Seq<(String, MaterialSet)>, r: (int, int)) -> TextureMap {
    ms[r.0].1.maps()[r.1].unwrap()
}

/// A texture of one material, described for duplicate detection.
struct TextureRef {
    path: Option<String>,
    slot: usize,
    material_name: Option<String>,
    hash: Fingerprint,
}

/// The reference `r` describes texture `(m, s)` of `ms`.
spec fn describes(r: TextureRef, ms: Seq<(String, MaterialSet)>, ms_ref: (int, int)) -> bool {
    &&& r.slot == ms_ref.1
    &&& r.slot < 6
    &&& r.path == ref_tex(ms, ms_ref).path
    &&& opt_text(r.material_name) == material_label(ms[ms_ref.0])
    &&& r.hash.values@ == spec_fingerprint(ref_tex(ms, ms_ref))
    &&& r.hash.wf()
}

fn collect_texture_refs(materials: &Vec<(String, MaterialSet)>) -> (r: Vec<TextureRef>)
    ensures
        r@.len() == refs_of(materials@, materials@.len() as int).len(),
        forall|k: int|
            0 <= k < r@.len() ==> describes(
                #[trigger] r@[k],
                materials@,
                refs_of(materials@, materials@.len() as int)[k],
            ),
{
    let mut refs: Vec<TextureRef> = Vec::new();
    let mut i: usize = 0;
    while i < materials.len()
        invariant
            i <= materials@.len(),
            refs@.len() == refs_of(materials@, i as int).len(),
            forall|k: int|
                0 <= k < refs@.len() ==> describes(
                    #[trigger] refs@[k],
                    materials@,
                    refs_of(materials@, i as int)[k],
                ),
        decreases materials@.len() - i,
    {
        let m = &materials[i];
        let name = label_of(m);
        let ghost base = refs_of(materials@, i as int);
        let mut s: usize = 0;
        while s < 6
            invariant
                i < materials@.len(),
                *m == materials@[i as int],
                opt_text(name) == material_label(materials@[i as int]),
                base == refs_of(materials@, i as int),
                s <= 6,
                refs@.len() == base.len() + slots_of(materials@, i as int, s as int).len(),
                forall|k: int|
                    0 <= k < refs@.len() ==> describes(
                        #[trigger] refs@[k],
                        materials@,
                        (base + slots_of(materials@, i as int, s as int))[k],
                    ),
            decreases 6 - s,
        {
            let t = if s == 0 {
                &m.1.albedo
            } else if s == 1 {
                &m.1.normal
            } else if s == 2 {
                &m.1.roughness
            } else if s == 3 {
                &m.1.metallic
            } else if s == 4 {
                &m.1.ao
            } else {
                &m.1.height
            };
            assert(*t == m.1.maps()[s as int]);
            let ghost before = base + slots_of(materials@, i as int, s as int);
            if let Some(tex) = t {
                let path = match &tex.path {
                    Some(p) => Some(p.clone()),
                    None => None,
                };
                let material_name = match &name {
                    Some(n) => Some(n.clone()),
                    None => None,
                };
                refs.push(TextureRef { path, slot: s, material_name, hash: perceptual_hash(tex) });
                assert(base + slots_of(materials@, i as int, s + 1) =~= before.push(
                    (i as int, s as int),
                ));
            } else {
                assert(base + slots_of(materials@, i as int, s + 1) =~= before);
            }
            s += 1;
        }
        assert(refs_of(materials@, i + 1) =~= base + slots_of(materials@, i as int, 6));
        i += 1;
    }
    refs
}

/// A pair of same-slot textures from two materials and their similarity.
#[derive(Debug)]
pub struct DuplicatePair {
    pub path_a: String,
    pub path_b: String,
    pub slot: String,
    pub material_a: Option<String>,
    pub material_b: Option<String>,
    /// Similarity in parts per million.
    pub similarity: u32,
}

/// Duplicate and similar pairs, with the thresholds used (ppm).
#[derive(Debug)]
pub struct DuplicateAnalysisResult {
    pub duplicate_pairs: Vec<DuplicatePair>,
    pub similar_pairs: Vec<DuplicatePair>,
    pub duplicate_threshold: u32,
    pub similar_threshold: u32,
}

/// Class of the pair of references (i, j): 1 duplicate, 2 similar, 0 neither
/// (or different slots).
pub open spec fn pair_class(
    ms: Seq<(String, MaterialSet)>,
    refs: Seq<(int, int)>,
    i: int,
    j: int,
    dt: int,
    st: int,
) -> int {
    let fa = spec_fingerprint(ref_tex(ms, refs[i]));
    let fb = spec_fingerprint(ref_tex(ms, refs[j]));
    if refs[i].1 != refs[j].1 {
        0
    } else if similar_at_least(fa, fb, dt) {
        1
    } else if similar_at_least(fa, fb, st) {
        2
    } else {
        0
    }
}

/// Pairs (i, j) of class `want` with `i < j < jend`, for one `i`, in order.
pub open spec fn row_pairs(
    ms: Seq<(String, MaterialSet)>,
    refs: Seq<(int, int)>,
    i: int,
    jend: int,
    dt: int,
    st: int,
    want: int,
) -> Seq<(int, int)>
    decreases jend - i,
{
    if jend <= i + 1 {
        Seq::empty()
    } else if pair_class(ms, refs, i, jend - 1, dt, st) == want {
        row_pairs(ms, refs, i, jend - 1, dt, st, want).push((i, jend - 1))
    } else {
        row_pairs(ms, refs, i, jend - 1, dt, st, want)
    }
}

/// Pairs of class `want` whose first index is below `iend`, in order.
pub open spec fn class_pairs(
    ms: Seq<(String, MaterialSet)>,
    refs: Seq<(int, int)>,
    iend: int,
    dt: int,
    st: int,
    want: int,
) -> Seq<(int, int)>
    decreases iend,
{
    if iend <= 0 {
        Seq::empty()
    } else {
        class_pairs(ms, refs, iend - 1, dt, st, want) + row_pairs(
            ms,
            refs,
            iend - 1,
            refs.len() as int,
            dt,
            st,
            want,
        )
    }
}

/// The pair record describes references (i, j).
pub open spec fn pair_describes(
    p: DuplicatePair,
    ms: Seq<(String, MaterialSet)>,
    refs: Seq<(int, int)>,
    ij: (int, int),
) -> bool {
    let a = ref_tex(ms, refs[ij.0]);
    let b = ref_tex(ms, refs[ij.1]);
    &&& p.path_a@ == path_label(a.path)
    &&& p.path_b@ == path_label(b.path)
    &&& p.slot@ == crate::validation::slot_name(refs[ij.0].1)
    &&& opt_text(p.material_a) == material_label(ms[refs[ij.0].0])
    &&& opt_text(p.material_b) == material_label(ms[refs[ij.1].0])
    &&& p.similarity == similarity_ppm(spec_fingerprint(a), spec_fingerprint(b))
}

fn slot_text(k: usize) -> (r: String)
    requires
        k < 6,
    ensures
        r@ == crate::validation::slot_name(k as int),
{
    if k == 0 {
        String::from_str("albedo")
    } else if k == 1 {
        String::from_str("normal")
    } else if k == 2 {
        String::from_str("roughness")
    } else if k == 3 {
        String::from_str("metallic")
    } else if k == 4 {
        String::from_str("ao")
    } else {
        String::from_str("height")
    }
}

fn clone_opt(o: &Option<String>) -> (r: Option<String>)
    ensures
        r == *o,
{
    match o {
        Some(s) => Some(s.clone()),
        None => None,
    }
}

/// `r` lists exactly the duplicate and similar pairs of `ms`, in order.
pub open spec fn duplicates_match(
    r: DuplicateAnalysisResult,
    ms: Seq<(String, MaterialSet)>,
    duplicate_threshold: u32,
    similar_threshold: u32,
) -> bool {
    let refs = refs_of(ms, ms.len() as int);
    let dups = class_pairs(
        ms,
        refs,
        refs.len() as int,
        duplicate_threshold as int,
        similar_threshold as int,
        1,
    );
    let sims = class_pairs(
        ms,
        refs,
        refs.len() as int,
        duplicate_threshold as int,
        similar_threshold as int,
        2,
    );
    &&& r.duplicate_pairs@.len() == dups.len()
    &&& r.similar_pairs@.len() == sims.len()
    &&& forall|k: int|
        0 <= k < dups.len() ==> pair_describes(#[trigger] r.duplicate_pairs@[k], ms, refs, dups[k])
    &&& forall|k: int|
        0 <= k < sims.len() ==> pair_describes(#[trigger] r.similar_pairs@[k], ms, refs, sims[k])
    &&& r.duplicate_threshold == duplicate_threshold
    &&& r.similar_threshold == similar_threshold
}

/// Finds duplicate and similar textures: every pair of same-slot textures,
/// in reference order (materials in order, slots in slot order), is a
/// duplicate when its similarity reaches `duplicate_threshold`, else similar
/// when it reaches `similar_threshold` (both in ppm).
pub fn detect_duplicates(
    materials: &Vec<(String, MaterialSet)>,
    duplicate_threshold: u32,
    similar_threshold: u32,
) -> (r: DuplicateAnalysisResult)
    ensures
        duplicates_match(r, materials@, duplicate_threshold, similar_threshold),
{
    let refs = collect_texture_refs(materials);
    let ghost ms = materials@;
    let ghost rs = refs_of(ms, ms.len() as int);
    let ghost dt = duplicate_threshold as int;
    let ghost st = similar_threshold as int;
    let mut dups: Vec<DuplicatePair> = Vec::new();
    let mut sims: Vec<DuplicatePair> = Vec::new();
    let n = refs.len();
    let mut i: usize = 0;
    while i < n
        invariant
            n == refs@.len(),
            n == rs.len(),
            ms == materials@,
            rs == refs_of(ms, ms.len() as int),
            dt == duplicate_threshold,
            st == similar_threshold,
            forall|k: int| 0 <= k < refs@.len() ==> describes(#[trigger] refs@[k], ms, rs[k]),
            i <= n,
            dups@.len() == class_pairs(ms, rs, i as int, dt, st, 1).len(),
            sims@.len() == class_pairs(ms, rs, i as int, dt, st, 2).len(),
            forall|k: int|
                0 <= k < dups@.len() ==> pair_describes(
                    #[trigger] dups@[k],
                    ms,
                    rs,
                    class_pairs(ms, rs, i as int, dt, st, 1)[k],
                ),
            forall|k: int|
                0 <= k < sims@.len() ==> pair_describes(
                    #[trigger] sims@[k],
                    ms,
                    rs,
                    class_pairs(ms, rs, i as int, dt, st, 2)[k],
                ),
        decreases n - i,
    {
        let ghost d0 = class_pairs(ms, rs, i as int, dt, st, 1);
        let ghost s0 = class_pairs(ms, rs, i as int, dt, st, 2);
        let mut j: usize = i + 1;
        while j < n
            invariant
                n == refs@.len(),
                n == rs.len(),
                ms == materials@,
                dt == duplicate_threshold,
                st == similar_threshold,
                forall|k: int| 0 <= k < refs@.len() ==> describes(#[trigger] refs@[k], ms, rs[k]),
                i < n,
                i + 1 <= j <= n,
                d0 == class_pairs(ms, rs, i as int, dt, st, 1),
                s0 == class_pairs(ms, rs, i as int, dt, st, 2),
                dups@.len() == d0.len() + row_pairs(ms, rs, i as int, j as int, dt, st, 1).len(),
                sims@.len() == s0.len() + row_pairs(ms, rs, i as int, j as int, dt, st, 2).len(),
                forall|k: int|
                    0 <= k < dups@.len() ==> pair_describes(
                        #[trigger] dups@[k],
                        ms,
                        rs,
                        (d0 + row_pairs(ms, rs, i as int, j as int, dt, st, 1))[k],
                    ),
                forall|k: int|
                    0 <= k < sims@.len() ==> pair_describes(
                        #[trigger] sims@[k],
                        ms,
                        rs,
                        (s0 + row_pairs(ms, rs, i as int, j as int, dt, st, 2))[k],
                    ),
            decreases n - j,
        {
            let a = &refs[i];
            let b = &refs[j];
            assert(describes(*a, ms, rs[i as int]) && describes(*b, ms, rs[j as int]));
            let ghost dd = d0 + row_pairs(ms, rs, i as int, j as int, dt, st, 1);
            let ghost ss = s0 + row_pairs(ms, rs, i as int, j as int, dt, st, 2);
            if a.slot == b.slot {
                let sim = hash_similarity(&a.hash, &b.hash);
                let is_dup = meets_threshold(&a.hash, &b.hash, duplicate_threshold);
                let is_sim = meets_threshold(&a.hash, &b.hash, similar_threshold);
                if is_dup || is_sim {
                    let pair = DuplicatePair {
                        path_a: path_text(&a.path),
                        path_b: path_text(&b.path),
                        slot: slot_text(a.slot),
                        material_a: clone_opt(&a.material_name),
                        material_b: clone_opt(&b.material_name),
                        similarity: sim,
                    };
                    if is_dup {
                        dups.push(pair);
                        assert(d0 + row_pairs(ms, rs, i as int, j + 1, dt, st, 1) =~= dd.push(
                            (i as int, j as int),
                        ));
                        assert(s0 + row_pairs(ms, rs, i as int, j + 1, dt, st, 2) =~= ss);
                    } else {
                        sims.push(pair);
                        assert(s0 + row_pairs(ms, rs, i as int, j + 1, dt, st, 2) =~= ss.push(
                            (i as int, j as int),
                        ));
                        assert(d0 + row_pairs(ms, rs, i as int, j + 1, dt, st, 1) =~= dd);
                    }
                } else {
                    assert(d0 + row_pairs(ms, rs, i as int, j + 1, dt, st, 1) =~= dd);
                    assert(s0 + row_pairs(ms, rs, i as int, j + 1, dt, st, 2) =~= ss);
                }
            } else {
                assert(d0 + row_pairs(ms, rs, i as int, j + 1, dt, st, 1) =~= dd);
                assert(s0 + row_pairs(ms, rs, i as int, j + 1, dt, st, 2) =~= ss);
            }
            j += 1;
        }
        i += 1;
    }
    DuplicateAnalysisResult {
        duplicate_pairs: dups,
        similar_pairs: sims,
        duplicate_threshold,
        similar_threshold,
    }
}

// ---------------------------------------------------------------------------
// Cross-material consistency.

/// Size (of the first present slot) of material `k`.
pub open spec fn dims_at(ms: Seq<(String, MaterialSet)>, k: int) -> Option<(u32, u32)> {
    ms[k].1.spec_dimensions()
}

/// The distinct sizes among the first `k` materials, in order of first
/// appearance.
pub open spec fn size_groups(ms: Seq<(String, MaterialSet)>, k: int) -> Seq<(u32, u32)>
    decreases k,
{
    if k <= 0 {
        Seq::empty()
    } else {
        let prev = size_groups(ms, k - 1);
        match dims_at(ms, k - 1) {
            Some(d) => if prev.contains(d) {
                prev
            } else {
                prev.push(d)
            },
            None => prev,
        }
    }
}

/// Titles of the first `k` materials whose size is `d`, in order.
pub open spec fn titles_with_size(ms: Seq<(String, MaterialSet)>, d: (u32, u32), k: int) -> Seq<
    Seq<char>,
>
    decreases k,
{
    if k <= 0 {
        Seq::empty()
    } else if dims_at(ms, k - 1) == Some(d) {
        titles_with_size(ms, d, k - 1).push(material_title(ms[k - 1]))
    } else {
        titles_with_size(ms, d, k - 1)
    }
}

/// Titles of the first `k` materials that lack slot `s`, in order.
pub open spec fn titles_missing(ms: Seq<(String, MaterialSet)>, s: int, k: int) -> Seq<Seq<char>>
    decreases k,
{
    if k <= 0 {
        Seq::empty()
    } else if ms[k - 1].1.maps()[s] is None {
        titles_missing(ms, s, k - 1).push(material_title(ms[k - 1]))
    } else {
        titles_missing(ms, s, k - 1)
    }
}

/// The text views of a list of strings.
pub open spec fn texts(v: Seq<String>) -> Seq<Seq<char>> {
    v.map_values(|s: String| s@)
}

/// Materials sharing one size.
#[derive(Debug)]
pub struct ResolutionDistribution {
    pub width: u32,
    pub height: u32,
    pub count: usize,
    pub materials: Vec<String>,
}

/// How many materials have one slot.
#[derive(Debug)]
pub struct MapCoverage {
    pub slot: String,
    pub present_count: usize,
    pub total_count: usize,
    /// `100 * present / total`, rounded down; 0 for no materials.
    pub coverage_percent: u32,
    pub missing_in: Vec<String>,
}

/// Consistency findings over a batch of materials.
#[derive(Debug)]
pub struct CrossMaterialResult {
    pub material_count: usize,
    pub resolution_distributions: Vec<ResolutionDistribution>,
    pub resolution_inconsistent: bool,
    pub map_coverage: Vec<MapCoverage>,
    pub recommendations: Vec<String>,
}

/// Advice when the batch mixes sizes.
pub open spec fn mixed_sizes_advice() -> Seq<char> {
    "Materials use different resolutions. Consider standardizing to a target (e.g. 2K) for consistency."@
}

/// Advice for a slot missing in `missing` materials.
pub open spec fn missing_map_advice(s: int, missing: nat) -> Seq<char> {
    "Map '"@ + crate::validation::slot_name(s) + "' missing in "@ + decimal(missing)
        + " material(s). Consider adding for consistency."@
}

/// Recommendations of the first `s` slots (slots missing in some but not all
/// materials).
pub open spec fn slot_advice(ms: Seq<(String, MaterialSet)>, s: int) -> Seq<Seq<char>>
    decreases s,
{
    if s <= 0 {
        Seq::empty()
    } else {
        let missing = titles_missing(ms, s - 1, ms.len() as int).len();
        if 0 < missing < ms.len() {
            slot_advice(ms, s - 1).push(missing_map_advice(s - 1, missing))
        } else {
            slot_advice(ms, s - 1)
        }
    }
}

proof fn lemma_titles_missing_len(ms: Seq<(String, MaterialSet)>, s: int, k: int)
    requires
        0 <= k,
    ensures
        titles_missing(ms, s, k).len() <= k,
    decreases k,
{
    if k > 0 {
        lemma_titles_missing_len(ms, s, k - 1);
    }
}

fn material_size(m: &(String, MaterialSet)) -> (r: Option<(u32, u32)>)
    ensures
        r == m.1.spec_dimensions(),
{
    m.1.dimensions()
}

fn find_group(groups: &Vec<ResolutionDistribution>, w: u32, h: u32) -> (r: Option<usize>)
    ensures
        r is Some ==> r->Some_0 < groups@.len() && groups@[r->Some_0 as int].width == w
            && groups@[r->Some_0 as int].height == h,
        r is None ==> forall|g: int|
            0 <= g < groups@.len() ==> !(groups@[g].width == w && groups@[g].height == h),
{
    let mut g: usize = 0;
    while g < groups.len()
        invariant
            g <= groups@.len(),
            forall|x: int| 0 <= x < g ==> !(groups@[x].width == w && groups@[x].height == h),
        decreases groups@.len() - g,
    {
        if groups[g].width == w && groups[g].height == h {
            return Some(g);
        }
        g += 1;
    }
    None
}

/// `r` holds the size groups, slot coverage and advice of `ms`.
pub open spec fn cross_matches(r: CrossMaterialResult, ms: Seq<(String, MaterialSet)>) -> bool {
    let n = ms.len() as int;
    let groups = size_groups(ms, n);
    &&& r.material_count == n
    &&& r.resolution_distributions@.len() == groups.len()
    &&& forall|g: int|
        0 <= g < groups.len() ==> {
            let rd = #[trigger] r.resolution_distributions@[g];
            &&& (rd.width, rd.height) == groups[g]
            &&& texts(rd.materials@) == titles_with_size(ms, groups[g], n)
            &&& rd.count == rd.materials@.len()
        }
    &&& r.resolution_inconsistent == (groups.len() > 1)
    &&& r.map_coverage@.len() == 6
    &&& forall|s: int|
        0 <= s < 6 ==> {
            let c = #[trigger] r.map_coverage@[s];
            let missing = titles_missing(ms, s, n);
            &&& c.slot@ == crate::validation::slot_name(s)
            &&& texts(c.missing_in@) == missing
            &&& c.present_count == n - missing.len()
            &&& c.total_count == n
            &&& c.coverage_percent == if n > 0 {
                100 * (n - missing.len()) / n
            } else {
                0
            }
        }
    &&& texts(r.recommendations@) == (if groups.len() > 1 {
        seq![mixed_sizes_advice()]
    } else {
        Seq::empty()
    }) + slot_advice(ms, 6)
}

/// Groups materials by size, counts slot coverage, and advises: on mixed
/// sizes, and for each slot present in some but not all materials.
pub fn analyze_cross_material(materials: &Vec<(String, MaterialSet)>) -> (r: CrossMaterialResult)
    ensures
        cross_matches(r, materials@),
{
    let ghost ms = materials@;
    let n = materials.len();
    let mut groups: Vec<ResolutionDistribution> = Vec::new();
    let mut i: usize = 0;
    while i < n
        invariant
            n == ms.len(),
            ms == materials@,
            i <= n,
            groups@.len() == size_groups(ms, i as int).len(),
            forall|g: int|
                0 <= g < groups@.len() ==> {
                    let rd = #[trigger] groups@[g];
                    &&& (rd.width, rd.height) == size_groups(ms, i as int)[g]
                    &&& texts(rd.materials@) == titles_with_size(ms, size_groups(ms, i as int)[g], i as int)
                    &&& rd.count == rd.materials@.len()
                },
        decreases n - i,
    {
        let m = &materials[i];
        let ghost prev = size_groups(ms, i as int);
        match material_size(m) {
            Some((w, h)) => {
                let title = title_of(m);
                match find_group(&groups, w, h) {
                    Some(g) => {
                        assert(prev.contains((w, h))) by {
                            assert(prev[g as int] == (w, h));
                        }
                        let ghost old_groups = groups@;
                        let mut rd = groups.remove(g);
                        let ghost old_names = rd.materials@;
                        rd.materials.push(title);
                        rd.count = rd.materials.len();
                        assert(texts(rd.materials@) =~= texts(old_names).push(material_title(ms[i as int])));
                        groups.insert(g, rd);
                        assert forall|x: int| 0 <= x < groups@.len() implies {
                            let rd = #[trigger] groups@[x];
                            &&& (rd.width, rd.height) == size_groups(ms, i + 1)[x]
                            &&& texts(rd.materials@) == titles_with_size(ms, size_groups(ms, i + 1)[x], i + 1)
                            &&& rd.count == rd.materials@.len()
                        } by {
                            if x != g {
                                assert(groups@[x] == old_groups[x]);
                                lemma_groups_distinct(ms, i as int);
                                assert(prev[x] != (w, h));
                            }
                        }
                    },
                    None => {
                        assert(!prev.contains((w, h))) by {
                            if prev.contains((w, h)) {
                                let x = choose|x: int| 0 <= x < prev.len() && prev[x] == (w, h);
                                assert(groups@[x].width == w && groups@[x].height == h);
                            }
                        }
                        let mut names: Vec<String> = Vec::new();
                        names.push(title);
                        let ghost old_groups = groups@;
                        proof {
                            lemma_titles_none(ms, (w, h), i as int);
                        }
                        assert(texts(names@) =~= titles_with_size(ms, (w, h), i + 1));
                        groups.push(ResolutionDistribution { width: w, height: h, count: 1, materials: names });
                        assert forall|x: int| 0 <= x < groups@.len() implies {
                            let rd = #[trigger] groups@[x];
                            &&& (rd.width, rd.height) == size_groups(ms, i + 1)[x]
                            &&& texts(rd.materials@) == titles_with_size(ms, size_groups(ms, i + 1)[x], i + 1)
                            &&& rd.count == rd.materials@.len()
                        } by {
                            if x < old_groups.len() {
                                assert(groups@[x] == old_groups[x]);
                                assert(prev[x] != (w, h));
                            }
                        }
                    },
                }
            },
            None => {
                assert forall|x: int| 0 <= x < groups@.len() implies {
                    let rd = #[trigger] groups@[x];
                    &&& (rd.width, rd.height) == size_groups(ms, i + 1)[x]
                    &&& texts(rd.materials@) == titles_with_size(ms, size_groups(ms, i + 1)[x], i + 1)
                    &&& rd.count == rd.materials@.len()
                } by {}
            },
        }
        i += 1;
    }
    let inconsistent = groups.len() > 1;
    let mut coverage: Vec<MapCoverage> = Vec::new();
    let mut advice: Vec<String> = Vec::new();
    if inconsistent {
        advice.push(String::from_str("Materials use different resolutions. Consider standardizing to a target (e.g. 2K) for consistency."));
    }
    let ghost head: Seq<Seq<char>> = if inconsistent { seq![mixed_sizes_advice()] } else { Seq::empty() };
    assert(texts(advice@) =~= head + slot_advice(ms, 0));
    let mut s: usize = 0;
    while s < 6
        invariant
            n == ms.len(),
            ms == materials@,
            s <= 6,
            coverage@.len() == s,
            forall|x: int|
                0 <= x < s ==> {
                    let c = #[trigger] coverage@[x];
                    let missing = titles_missing(ms, x, n as int);
                    &&& c.slot@ == crate::validation::slot_name(x)
                    &&& texts(c.missing_in@) == missing
                    &&& c.present_count == n - missing.len()
                    &&& c.total_count == n
                    &&& c.coverage_percent == if n > 0 {
                        100 * (n - missing.len()) / (n as int)
                    } else {
                        0
                    }
                },
            texts(advice@) == head + slot_advice(ms, s as int),
        decreases 6 - s,
    {
        let mut missing: Vec<String> = Vec::new();
        let mut k: usize = 0;
        while k < n
            invariant
                n == ms.len(),
                ms == materials@,
                s < 6,
                k <= n,
                texts(missing@) == titles_missing(ms, s as int, k as int),
            decreases n - k,
        {
            let m = &materials[k];
            let present = if s == 0 {
                m.1.albedo.is_some()
            } else if s == 1 {
                m.1.normal.is_some()
            } else if s == 2 {
                m.1.roughness.is_some()
            } else if s == 3 {
                m.1.metallic.is_some()
            } else if s == 4 {
                m.1.ao.is_some()
            } else {
                m.1.height.is_some()
            };
            assert(present == (m.1.maps()[s as int] is Some));
            if !present {
                let ghost before = missing@;
                missing.push(title_of(m));
                assert(texts(missing@) =~= texts(before).push(material_title(ms[k as int])));
            }
            k += 1;
        }
        proof {
            lemma_titles_missing_len(ms, s as int, n as int);
        }
        let missing_count = missing.len();
        let present = n - missing_count;
        let percent: u32 = if n > 0 {
            assert((100 * present as int) / (n as int) <= 100) by (nonlinear_arith)
                requires
                    present <= n,
                    n > 0,
            ;
            ((100 * present as u128) / n as u128) as u32
        } else {
            0
        };
        if 0 < missing_count && missing_count < n {
            let mut msg = String::from_str("Map '");
            let name = slot_text(s);
            msg.append(name.as_str());
            msg.append("' missing in ");
            let t = crate::text::decimal_text(missing_count as u128);
            msg.append(t.as_str());
            msg.append(" material(s). Consider adding for consistency.");
            let ghost before = advice@;
            advice.push(msg);
            assert(texts(advice@) =~= texts(before).push(missing_map_advice(s as int, missing_count as nat)));
        }
        coverage.push(
            MapCoverage {
                slot: slot_text(s),
                present_count: present,
                total_count: n,
                coverage_percent: percent,
                missing_in: missing,
            },
        );
        s += 1;
    }
    CrossMaterialResult {
        material_count: n,
        resolution_distributions: groups,
        resolution_inconsistent: inconsistent,
        map_coverage: coverage,
        recommendations: advice,
    }
}

proof fn lemma_titles_none(ms: Seq<(String, MaterialSet)>, d: (u32, u32), k: int)
    requires
        0 <= k,
        !size_groups(ms, k).contains(d),
    ensures
        titles_with_size(ms, d, k) == Seq::<Seq<char>>::empty(),
    decreases k,
{
    if k > 0 {
        lemma_groups_grow(ms, k - 1, k);
        if dims_at(ms, k - 1) == Some(d) {
            assert(size_groups(ms, k).contains(d)) by {
                let prev = size_groups(ms, k - 1);
                if !prev.contains(d) {
                    assert(size_groups(ms, k)[prev.len() as int] == d);
                }
            }
        }
        lemma_titles_none(ms, d, k - 1);
    }
}

proof fn lemma_groups_distinct(ms: Seq<(String, MaterialSet)>, k: int)
    ensures
        forall|a: int, b: int|
            0 <= a < b < size_groups(ms, k).len() ==> size_groups(ms, k)[a] != size_groups(ms, k)[b],
    decreases k,
{
    if k > 0 {
        lemma_groups_distinct(ms, k - 1);
        let prev = size_groups(ms, k - 1);
        let cur = size_groups(ms, k);
        assert forall|a: int, b: int| 0 <= a < b < cur.len() implies cur[a] != cur[b] by {
            if b == prev.len() && cur.len() > prev.len() {
                assert(!prev.contains(cur[b]));
                assert(cur[a] == prev[a]);
            } else {
                assert(cur[a] == prev[a] && cur[b] == prev[b]);
            }
        }
    }
}

proof fn lemma_groups_grow(ms: Seq<(String, MaterialSet)>, j: int, k: int)
    requires
        0 <= j <= k,
    ensures
        forall|d: (u32, u32)| size_groups(ms, j).contains(d) ==> size_groups(ms, k).contains(d),
    decreases k - j,
{
    if j < k {
        lemma_groups_grow(ms, j, k - 1);
        let prev = size_groups(ms, k - 1);
        assert forall|d: (u32, u32)| prev.contains(d) implies size_groups(ms, k).contains(d) by {
            let x = choose|x: int| 0 <= x < prev.len() && prev[x] == d;
            assert(size_groups(ms, k)[x] == d);
        }
    }
}

proof fn lemma_two_sizes_upto(ms: Seq<(String, MaterialSet)>, d1: (u32, u32), d2: (u32, u32), k: int)
    requires
        0 <= k <= ms.len(),
        d1 != d2,
        forall|i: int| 0 <= i < ms.len() ==> dims_at(ms, i) == Some(d1) || dims_at(ms, i) == Some(d2),
    ensures
        forall|x: int|
            0 <= x < size_groups(ms, k).len() ==> size_groups(ms, k)[x] == d1 || size_groups(ms, k)[x]
                == d2,
        titles_with_size(ms, d1, k).len() + titles_with_size(ms, d2, k).len() == k,
        forall|i: int| 0 <= i < k && dims_at(ms, i) == Some(d1) ==> size_groups(ms, k).contains(d1),
        forall|i: int| 0 <= i < k && dims_at(ms, i) == Some(d2) ==> size_groups(ms, k).contains(d2),
    decreases k,
{
    if k > 0 {
        lemma_two_sizes_upto(ms, d1, d2, k - 1);
        lemma_groups_grow(ms, k - 1, k);
        let prev = size_groups(ms, k - 1);
        let cur = size_groups(ms, k);
        let d = dims_at(ms, k - 1)->Some_0;
        if !prev.contains(d) {
            assert(cur[prev.len() as int] == d);
        }
        assert(cur.contains(d));
    }
}

/// Over materials of exactly two sizes, the analysis finds exactly two size
/// groups, and their material counts add up to the number of materials.
pub proof fn lemma_two_resolutions(ms: Seq<(String, MaterialSet)>, d1: (u32, u32), d2: (u32, u32))
    requires
        d1 != d2,
        forall|i: int| 0 <= i < ms.len() ==> dims_at(ms, i) == Some(d1) || dims_at(ms, i) == Some(d2),
        exists|i: int| 0 <= i < ms.len() && dims_at(ms, i) == Some(d1),
        exists|i: int| 0 <= i < ms.len() && dims_at(ms, i) == Some(d2),
    ensures
        size_groups(ms, ms.len() as int).len() == 2,
        size_groups(ms, ms.len() as int).len() > 1,
        titles_with_size(ms, size_groups(ms, ms.len() as int)[0], ms.len() as int).len()
            + titles_with_size(ms, size_groups(ms, ms.len() as int)[1], ms.len() as int).len()
            == ms.len(),
{
    let n = ms.len() as int;
    lemma_two_sizes_upto(ms, d1, d2, n);
    lemma_groups_distinct(ms, n);
    let g = size_groups(ms, n);
    assert(g.contains(d1));
    assert(g.contains(d2));
    let a = choose|x: int| 0 <= x < g.len() && g[x] == d1;
    let b = choose|x: int| 0 <= x < g.len() && g[x] == d2;
    assert(g.len() >= 2);
    if g.len() > 2 {
        assert(g[0] == d1 || g[0] == d2);
        assert(g[1] == d1 || g[1] == d2);
        assert(g[2] == d1 || g[2] == d2);
        assert(false);
    }
    assert((g[0] == d1 && g[1] == d2) || (g[0] == d2 && g[1] == d1));
}

// ---------------------------------------------------------------------------
// Tileability over a batch, and the combined report.

/// Default threshold of the batch tileability analysis, in hundredths (10.0).
pub const TILEABILITY_THRESHOLD: u64 = 1000;

/// Edge difference of one texture of a batch.
#[derive(Debug)]
pub struct TileabilityAnalysisEntry {
    pub path: String,
    pub slot: String,
    pub material_name: Option<String>,
    pub edge_difference: EdgeDifference,
    /// The metric exceeds the threshold.
    pub needs_fix: bool,
}

/// The entry describes texture `rf` of `ms` under a threshold in hundredths.
pub open spec fn entry_describes(
    e: TileabilityAnalysisEntry,
    ms: Seq<(String, MaterialSet)>,
    rf: (int, int),
    threshold_hundredths: int,
) -> bool {
    let t = ref_tex(ms, rf);
    &&& e.path@ == path_label(t.path)
    &&& e.slot@ == crate::validation::slot_name(rf.1)
    &&& opt_text(e.material_name) == material_label(ms[rf.0])
    &&& e.edge_difference.total == spec_edge(t).0
    &&& e.edge_difference.samples == spec_edge(t).1
    &&& e.needs_fix == (100 * spec_edge(t).0 > threshold_hundredths * spec_edge(t).1)
}

/// One entry per present texture, in reference order.
pub open spec fn tileability_matches(
    v: Seq<TileabilityAnalysisEntry>,
    ms: Seq<(String, MaterialSet)>,
    threshold_hundredths: int,
) -> bool {
    let refs = refs_of(ms, ms.len() as int);
    &&& v.len() == refs.len()
    &&& forall|k: int|
        0 <= k < v.len() ==> entry_describes(#[trigger] v[k], ms, refs[k], threshold_hundredths)
}

/// Edge difference of every present texture, and whether it exceeds
/// `threshold_hundredths / 100`.
pub fn analyze_tileability(materials: &Vec<(String, MaterialSet)>, threshold_hundredths: u64) -> (r:
    Vec<TileabilityAnalysisEntry>)
    ensures
        tileability_matches(r@, materials@, threshold_hundredths as int),
{
    let ghost ms = materials@;
    let mut out: Vec<TileabilityAnalysisEntry> = Vec::new();
    let mut i: usize = 0;
    while i < materials.len()
        invariant
            ms == materials@,
            i <= ms.len(),
            out@.len() == refs_of(ms, i as int).len(),
            forall|k: int|
                0 <= k < out@.len() ==> entry_describes(
                    #[trigger] out@[k],
                    ms,
                    refs_of(ms, i as int)[k],
                    threshold_hundredths as int,
                ),
        decreases ms.len() - i,
    {
        let m = &materials[i];
        let name = label_of(m);
        let ghost base = refs_of(ms, i as int);
        let mut s: usize = 0;
        while s < 6
            invariant
                ms == materials@,
                i < ms.len(),
                *m == ms[i as int],
                opt_text(name) == material_label(ms[i as int]),
                base == refs_of(ms, i as int),
                s <= 6,
                out@.len() == base.len() + slots_of(ms, i as int, s as int).len(),
                forall|k: int|
                    0 <= k < out@.len() ==> entry_describes(
                        #[trigger] out@[k],
                        ms,
                        (base + slots_of(ms, i as int, s as int))[k],
                        threshold_hundredths as int,
                    ),
            decreases 6 - s,
        {
            let t = if s == 0 {
                &m.1.albedo
            } else if s == 1 {
                &m.1.normal
            } else if s == 2 {
                &m.1.roughness
            } else if s == 3 {
                &m.1.metallic
            } else if s == 4 {
                &m.1.ao
            } else {
                &m.1.height
            };
            assert(*t == m.1.maps()[s as int]);
            let ghost before = base + slots_of(ms, i as int, s as int);
            if let Some(tex) = t {
                let ed = edge_difference(tex);
                let needs_fix = ed.exceeds(threshold_hundredths);
                out.push(
                    TileabilityAnalysisEntry {
                        path: path_text(&tex.path),
                        slot: slot_text(s),
                        material_name: clone_opt(&name),
                        edge_difference: ed,
                        needs_fix,
                    },
                );
                assert(base + slots_of(ms, i as int, s + 1) =~= before.push((i as int, s as int)));
            } else {
                assert(base + slots_of(ms, i as int, s + 1) =~= before);
            }
            s += 1;
        }
        assert(refs_of(ms, i + 1) =~= base + slots_of(ms, i as int, 6));
        i += 1;
    }
    out
}

/// Whether repairing a texture lowers its edge difference: it is at least
/// 4x4, well formed, and its edges differ at all (a repaired texture's edges
/// match exactly).
pub open spec fn fix_improves(t: TextureMap) -> bool {
    t.width >= 4 && t.height >= 4 && t.wf() && spec_edge(t).0 > 0
}

/// Albedo repairs of the first `k` materials that improved, in order.
pub open spec fn improving_albedos(ms: Seq<(String, MaterialSet)>, k: int) -> Seq<TextureMap>
    decreases k,
{
    if k <= 0 {
        Seq::empty()
    } else if ms[k - 1].1.albedo is Some && fix_improves(ms[k - 1].1.albedo->Some_0) {
        improving_albedos(ms, k - 1).push(ms[k - 1].1.albedo->Some_0)
    } else {
        improving_albedos(ms, k - 1)
    }
}

proof fn lemma_edge_counts_same(d1: Seq<u8>, d2: Seq<u8>, w: int, h: int, n: int)
    requires
        d1.len() == d2.len(),
    ensures
        edge_cols(d1, w, h, n).1 == edge_cols(d2, w, h, n).1,
        edge_rows(d1, w, h, n).1 == edge_rows(d2, w, h, n).1,
    decreases n,
{
    if n > 0 {
        lemma_edge_counts_same(d1, d2, w, h, n - 1);
    }
}

proof fn lemma_edge_cols_positive(d: Seq<u8>, w: int, h: int, n: int)
    requires
        w >= 1,
        h >= 1,
        1 <= n,
        d.len() == w * h * 4,
    ensures
        edge_cols(d, w, h, n).1 >= 1,
    decreases n,
{
    lemma_edge_cols_nonneg(d, w, h, n - 1);
    if n > 1 {
        lemma_edge_cols_positive(d, w, h, n - 1);
    } else {
        assert(((h - 1) * w + 0) * 4 + 3 < w * h * 4) by (nonlinear_arith)
            requires
                w >= 1,
                h >= 1,
        ;
    }
}

/// What a repair report says of "improved", for a texture of a batch.
proof fn lemma_improved_exact(t: TextureMap, fixed: TextureMap, blend_width: u32)
    requires
        t.width >= 4,
        t.height >= 4,
        t.wf(),
        is_fixed_of(fixed, t, blend_width),
    ensures
        (spec_edge(fixed).0 * spec_edge(t).1 < spec_edge(t).0 * spec_edge(fixed).1) == fix_improves(t),
{
    lemma_fix_never_worse(t, fixed, blend_width);
    lemma_edge_counts_same(fixed.data@, t.data@, t.width as int, t.height as int, t.width as int);
    lemma_edge_counts_same(fixed.data@, t.data@, t.width as int, t.height as int, t.height as int);
    lemma_edge_cols_positive(t.data@, t.width as int, t.height as int, t.width as int);
    lemma_edge_rows_nonneg(t.data@, t.width as int, t.height as int, t.height as int);
    lemma_edge_nonneg(t);
    let c = spec_edge(t).1;
    let s0 = spec_edge(t).0;
    assert(c >= 1);
    assert(spec_edge(fixed).1 == c);
    assert((s0 * c > 0) == (s0 > 0)) by (nonlinear_arith)
        requires
            c >= 1,
            s0 >= 0,
    ;
}

/// Duplicates, cross-material consistency, tileability, and optionally the
/// albedo repairs that improved.
#[derive(Debug)]
pub struct AdvancedAnalysisReport {
    pub duplicates: DuplicateAnalysisResult,
    pub cross_material: CrossMaterialResult,
    pub tileability_analysis: Vec<TileabilityAnalysisEntry>,
    /// Repairs (blend width 4) of albedo maps that lowered the metric; `None`
    /// when not asked for or when none did.
    pub tileability_fixes: Option<Vec<TileabilityFixResult>>,
}

/// `r` is the full advanced analysis of `ms`.
pub open spec fn report_matches(
    r: AdvancedAnalysisReport,
    ms: Seq<(String, MaterialSet)>,
    duplicate_threshold: u32,
    similar_threshold: u32,
    tileability_threshold: u64,
    fix_tileability_maps: bool,
) -> bool {
    let improving = improving_albedos(ms, ms.len() as int);
    &&& duplicates_match(r.duplicates, ms, duplicate_threshold, similar_threshold)
    &&& cross_matches(r.cross_material, ms)
    &&& tileability_matches(r.tileability_analysis@, ms, tileability_threshold as int)
    &&& (r.tileability_fixes is Some <==> (fix_tileability_maps && improving.len() > 0))
    &&& r.tileability_fixes is Some ==> {
        let fixes = r.tileability_fixes->Some_0@;
        &&& fixes.len() == improving.len()
        &&& forall|k: int|
            0 <= k < fixes.len() ==> {
                let f = #[trigger] fixes[k];
                &&& f.path@ == path_label(improving[k].path)
                &&& f.original_edge_difference.total == spec_edge(improving[k]).0
                &&& f.original_edge_difference.samples == spec_edge(improving[k]).1
                &&& f.fixed_edge_difference.total == 0
                &&& f.improved
            }
    }
}

/// All analyses with the default tileability threshold (10.0).
pub fn run_advanced_analysis(
    materials: &Vec<(String, MaterialSet)>,
    duplicate_threshold: u32,
    similar_threshold: u32,
    fix_tileability_maps: bool,
) -> (r: Result<AdvancedAnalysisReport, Error>)
    ensures
        r is Ok,
        report_matches(
            r->Ok_0,
            materials@,
            duplicate_threshold,
            similar_threshold,
            TILEABILITY_THRESHOLD,
            fix_tileability_maps,
        ),
{
    run_advanced_analysis_with_tileability_threshold(
        materials,
        duplicate_threshold,
        similar_threshold,
        TILEABILITY_THRESHOLD,
        fix_tileability_maps,
    )
}

/// All analyses, with the tileability threshold in hundredths.
pub fn run_advanced_analysis_with_tileability_threshold(
    materials: &Vec<(String, MaterialSet)>,
    duplicate_threshold: u32,
    similar_threshold: u32,
    tileability_threshold: u64,
    fix_tileability_maps: bool,
) -> (r: Result<AdvancedAnalysisReport, Error>)
    ensures
        r is Ok,
        report_matches(
            r->Ok_0,
            materials@,
            duplicate_threshold,
            similar_threshold,
            tileability_threshold,
            fix_tileability_maps,
        ),
{
    let ghost ms = materials@;
    let duplicates = detect_duplicates(materials, duplicate_threshold, similar_threshold);
    let cross_material = analyze_cross_material(materials);
    let tileability_analysis = analyze_tileability(materials, tileability_threshold);
    let mut fixes: Vec<TileabilityFixResult> = Vec::new();
    if fix_tileability_maps {
        let mut i: usize = 0;
        while i < materials.len()
            invariant
                ms == materials@,
                i <= ms.len(),
                fixes@.len() == improving_albedos(ms, i as int).len(),
                forall|k: int|
                    0 <= k < fixes@.len() ==> {
                        let f = #[trigger] fixes@[k];
                        let t = improving_albedos(ms, i as int)[k];
                        &&& f.path@ == path_label(t.path)
                        &&& f.original_edge_difference.total == spec_edge(t).0
                        &&& f.original_edge_difference.samples == spec_edge(t).1
                        &&& f.fixed_edge_difference.total == 0
                        &&& f.improved
                    },
            decreases ms.len() - i,
        {
            let ghost prev = improving_albedos(ms, i as int);
            if let Some(albedo) = &materials[i].1.albedo {
                match fix_tileability_with_report(albedo, 4) {
                    Ok((fixed, result)) => {
                        proof {
                            if albedo.width >= 4 && albedo.height >= 4 {
                                lemma_improved_exact(*albedo, fixed, 4);
                                lemma_fix_never_worse(*albedo, fixed, 4);
                            }
                        }
                        if result.improved {
                            fixes.push(result);
                            assert(improving_albedos(ms, i + 1) == prev.push(*albedo));
                        }
                    },
                    Err(_) => {},
                }
            }
            i += 1;
        }
    }
    let tileability_fixes = if fixes.len() == 0 {
        None
    } else {
        Some(fixes)
    };
    Ok(AdvancedAnalysisReport { duplicates, cross_material, tileability_analysis, tileability_fixes })
}

} // verus!
