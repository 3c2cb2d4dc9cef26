//! The fixed rectangle scene and its per-frame vertex data.
//!
//! The scene holds seventeen axis-aligned quads: four border strips of
//! logical width one along the window edges, four 50x50 corner markers, a
//! 64x64 block that tracks the live density factor, and eight 64x64
//! reference blocks at fixed densities.  [`frame`] gives every vertex of
//! one frame as a function of the pixel size and the density factor, and
//! [`Renderer::draw`] is proved to produce exactly that data.

use vstd::prelude::*;
use crate::frac::Frac;

verus! {

/// Number of quads in the scene: 4 border strips, 4 corner markers, the
/// live density block, and 8 reference blocks.
pub const NUM_RECTANGLES: usize = 17;

/// Four vertices per quad.
pub const NUM_VERTICES: usize = NUM_RECTANGLES * 4;

/// Six indices (two triangles) per quad.
pub const NUM_INDICES: usize = NUM_RECTANGLES * 6;

/// An RGB color, each channel in tenths of full intensity (0 ..= 10).
#[derive(Clone, Copy, Debug, PartialEq, Eq, Structural)]
pub struct Color {
    pub r10: u8,
    pub g10: u8,
    pub b10: u8,
}

/// One scene vertex: a position, a per-vertex scale correction (the
/// inverse of a density factor, or a large sentinel meaning "none"), and
/// a color.
#[derive(Clone, Copy, Debug, PartialEq, Eq, Structural)]
pub struct Vertex {
    pub x: Frac,
    pub y: Frac,
    pub step: Frac,
    pub color: Color,
}

/// The color with channels `r`, `g`, `b` in tenths of full intensity.
pub open spec fn rgb(r: int, g: int, b: int) -> Color {
    Color { r10: r as u8, g10: g as u8, b10: b as u8 }
}

/// The fixed start-up color of quad `q`: bright marker colors for the
/// border strips and corner markers, black for every block.
pub open spec fn palette(q: int) -> Color {
    if q == 0 {
        rgb(10, 10, 0)
    } else if q == 1 {
        rgb(10, 0, 10)
    } else if q == 2 {
        rgb(0, 0, 10)
    } else if q == 3 {
        rgb(0, 10, 0)
    } else if q == 4 {
        rgb(5, 10, 0)
    } else if q == 5 {
        rgb(5, 0, 10)
    } else if q == 6 {
        rgb(0, 0, 5)
    } else if q == 7 {
        rgb(0, 5, 0)
    } else {
        rgb(0, 0, 0)
    }
}

/// The scale-correction sentinel: so large that it means "no correction".
pub open spec fn sentinel_step() -> Frac {
    Frac { num: 10000, den: 1 }
}

/// The four vertices of one quad, in the given corner order.
pub open spec fn quad(
    p0: (Frac, Frac),
    p1: (Frac, Frac),
    p2: (Frac, Frac),
    p3: (Frac, Frac),
    step: Frac,
    color: Color,
) -> Seq<Vertex> {
    seq![
        Vertex { x: p0.0, y: p0.1, step: step, color: color },
        Vertex { x: p1.0, y: p1.1, step: step, color: color },
        Vertex { x: p2.0, y: p2.1, step: step, color: color },
        Vertex { x: p3.0, y: p3.1, step: step, color: color },
    ]
}

/// The four vertices of an axis-aligned square with its top-left corner
/// at `(x, y)`, listed counter-clockwise from that corner.
pub open spec fn square(x: Frac, y: Frac, side: int, step: Frac, color: Color) -> Seq<Vertex> {
    quad(
        (x, y),
        (x.spec_plus(side), y),
        (x.spec_plus(side), y.spec_plus(side)),
        (x, y.spec_plus(side)),
        step,
        color,
    )
}

/// The logical extent of `pixels` device pixels at density `d`:
/// `pixels / d`.
pub open spec fn spec_logical(pixels: u32, d: Frac) -> Frac {
    Frac { num: (pixels * d.den) as i64, den: d.num }
}

/// Horizontal position of the live density block:
/// `60 + 300 * (d - 1)`, over the block row's denominator `d.den`.
pub open spec fn spec_block_x(d: Frac) -> Frac {
    Frac { num: (300 * d.num - 240 * d.den) as i64, den: d.den }
}

/// Reference blocks are dark blue at whole-number densities and black
/// otherwise; `qd` is the density in quarters.
pub open spec fn ref_color(qd: int) -> Color {
    if qd % 4 == 0 {
        rgb(0, 0, 3)
    } else {
        rgb(0, 0, 0)
    }
}

/// One fixed-density reference block for a density of `qd` quarters: a
/// 64x64 square at `(60 + 300 * (qd/4 - 1), 60)` whose scale correction
/// is the inverse density `4 / qd`.
pub open spec fn ref_quad(qd: int) -> Seq<Vertex> {
    square(
        Frac { num: (60 + 75 * (qd - 4)) as i64, den: 1 },
        Frac { num: 60, den: 1 },
        64,
        Frac { num: 4, den: qd as i64 },
        ref_color(qd),
    )
}

/// Every vertex of one frame, for a window of `width` by `height` device
/// pixels at density factor `d`.  All coordinates are logical units: the
/// pixel extents divided by `d`.
///
/// In order: border strips along the left, right, top and bottom edges
/// (one logical unit thick), 50x50 corner markers at the four corners,
/// the 64x64 live density block at `(60 + 300 * (d - 1), 136.8)` with
/// scale correction `1 / d`, and the eight reference blocks at densities
/// 1, 1.25, 1.5, 2, 2.25, 2.5, 3 and 4.
pub open spec fn frame(width: u32, height: u32, d: Frac) -> Seq<Vertex> {
    let w = spec_logical(width, d);
    let h = spec_logical(height, d);
    let zero = Frac { num: 0, den: 1 };
    let one = Frac { num: 1, den: 1 };
    let w1 = w.spec_minus(1);
    let h1 = h.spec_minus(1);
    let w50 = w.spec_minus(50);
    let h50 = h.spec_minus(50);
    let sent = sentinel_step();
    quad((zero, zero), (one, zero), (one, h), (zero, h), sent, palette(0))
        + quad((w, zero), (w1, zero), (w1, h), (w, h), sent, palette(1))
        + quad((zero, zero), (zero, one), (w, one), (w, zero), sent, palette(2))
        + quad((zero, h), (zero, h1), (w, h1), (w, h), sent, palette(3))
        + square(zero, zero, 50, sent, palette(4))
        + square(w50, zero, 50, sent, palette(5))
        + square(w50, h50, 50, sent, palette(6))
        + square(zero, h50, 50, sent, palette(7))
        + square(spec_block_x(d), Frac { num: 684, den: 5 }, 64, Frac { num: d.den, den: d.num }, palette(8))
        + ref_quad(4) + ref_quad(5) + ref_quad(6) + ref_quad(8)
        + ref_quad(9) + ref_quad(10) + ref_quad(12) + ref_quad(16)
}

/// Vertex `i` of the start-up vertex list: at the origin, with the
/// sentinel scale correction and the palette color of its quad.
pub open spec fn initial_vertex(i: int) -> Vertex {
    Vertex {
        x: Frac { num: 0, den: 1 },
        y: Frac { num: 0, den: 1 },
        step: sentinel_step(),
        color: palette(i / 4),
    }
}

/// The vertex list as built at start-up.
pub open spec fn initial_vertices() -> Seq<Vertex> {
    Seq::new(NUM_VERTICES as nat, |i: int| initial_vertex(i))
}

/// Index `k` of the index list: the two triangles `(0,1,2)` and `(0,2,3)`
/// of quad `k / 6`, as offsets from its first vertex `4 * (k / 6)`.
pub open spec fn spec_index_at(k: int) -> int {
    let g = k / 6;
    let j = k % 6;
    4 * g + (
    if j == 0 {
        0int
    } else if j == 1 {
        1int
    } else if j == 2 {
        2int
    } else if j == 3 {
        0int
    } else if j == 4 {
        2int
    } else {
        3int
    })
}

/// The exec counterpart of [`palette`].
pub fn palette_color(q: usize) -> (r: Color)
    requires
        q < NUM_RECTANGLES,
    ensures
        r == palette(q as int),
{
    if q == 0 {
        Color { r10: 10, g10: 10, b10: 0 }
    } else if q == 1 {
        Color { r10: 10, g10: 0, b10: 10 }
    } else if q == 2 {
        Color { r10: 0, g10: 0, b10: 10 }
    } else if q == 3 {
        Color { r10: 0, g10: 10, b10: 0 }
    } else if q == 4 {
        Color { r10: 5, g10: 10, b10: 0 }
    } else if q == 5 {
        Color { r10: 5, g10: 0, b10: 10 }
    } else if q == 6 {
        Color { r10: 0, g10: 0, b10: 5 }
    } else if q == 7 {
        Color { r10: 0, g10: 5, b10: 0 }
    } else {
        Color { r10: 0, g10: 0, b10: 0 }
    }
}

/// The logical extent of `pixels` device pixels at density `d`.
pub fn logical(pixels: u32, d: Frac) -> (r: Frac)
    requires
        d.density_wf(),
    ensures
        r == spec_logical(pixels, d),
        0 <= r.num <= 0x2_0000_0000_0000,
        1 <= r.den <= 100000,
        r.bounded(),
{
    proof {
        assert((pixels as int) * (d.den as int) <= 0x2_0000_0000_0000) by (nonlinear_arith)
            requires
                pixels <= 0xffff_ffffu32,
                1 <= d.den <= 100000,
        ;
        assert((pixels as int) * (d.den as int) >= 0) by (nonlinear_arith)
            requires
                pixels >= 0,
                d.den >= 1,
        ;
    }
    Frac { num: (pixels as i64) * d.den, den: d.num }
}

/// Horizontal position of the live density block.
pub fn block_x(d: Frac) -> (r: Frac)
    requires
        d.density_wf(),
    ensures
        r == spec_block_x(d),
        r.bounded(),
{
    Frac { num: 300 * d.num - 240 * d.den, den: d.den }
}

/// Appends the four vertices of one quad.
fn push_quad(
    v: &mut Vec<Vertex>,
    p0: (Frac, Frac),
    p1: (Frac, Frac),
    p2: (Frac, Frac),
    p3: (Frac, Frac),
    step: Frac,
    color: Color,
)
    ensures
        final(v)@ == old(v)@ + quad(p0, p1, p2, p3, step, color),
{
    v.push(Vertex { x: p0.0, y: p0.1, step: step, color: color });
    v.push(Vertex { x: p1.0, y: p1.1, step: step, color: color });
    v.push(Vertex { x: p2.0, y: p2.1, step: step, color: color });
    v.push(Vertex { x: p3.0, y: p3.1, step: step, color: color });
    proof {
        assert(v@ =~= old(v)@ + quad(p0, p1, p2, p3, step, color));
    }
}

/// Appends the four vertices of an axis-aligned square.
fn push_square(v: &mut Vec<Vertex>, x: Frac, y: Frac, side: i64, step: Frac, color: Color)
    requires
        x.bounded(),
        y.bounded(),
        0 <= side <= 1000,
    ensures
        final(v)@ == old(v)@ + square(x, y, side as int, step, color),
{
    proof {
        assert(side * x.den <= 1000 * 100000) by (nonlinear_arith)
            requires
                0 <= side <= 1000,
                1 <= x.den <= 100000,
        ;
        assert(side * x.den >= 0) by (nonlinear_arith)
            requires
                side >= 0,
                x.den >= 1,
        ;
        assert(side * y.den <= 1000 * 100000) by (nonlinear_arith)
            requires
                0 <= side <= 1000,
                1 <= y.den <= 100000,
        ;
        assert(side * y.den >= 0) by (nonlinear_arith)
            requires
                side >= 0,
                y.den >= 1,
        ;
    }
    let xs = x.plus_int(side);
    let ys = y.plus_int(side);
    push_quad(v, (x, y), (xs, y), (xs, ys), (x, ys), step, color);
}

/// Appends one fixed-density reference block, for `qd` quarters.
fn push_ref_quad(v: &mut Vec<Vertex>, qd: i64)
    requires
        4 <= qd <= 16,
    ensures
        final(v)@ == old(v)@ + ref_quad(qd as int),
{
    let x = Frac::of_int(60 + 75 * (qd - 4));
    let y = Frac::of_int(60);
    let step = Frac::ratio(4, qd);
    let color = if qd % 4 == 0 {
        Color { r10: 0, g10: 0, b10: 3 }
    } else {
        Color { r10: 0, g10: 0, b10: 0 }
    };
    push_square(v, x, y, 64, step, color);
}

/// The index list: for each quad `g`, the six indices
/// `4g, 4g+1, 4g+2, 4g, 4g+2, 4g+3` picking its two triangles.
pub fn indices() -> (r: Vec<u32>)
    ensures
        r@.len() == NUM_INDICES,
        forall|k: int| 0 <= k < NUM_INDICES ==> r@[k] == spec_index_at(k),
{
    let mut r: Vec<u32> = Vec::new();
    let mut g: usize = 0;
    while g < NUM_RECTANGLES
        invariant
            g <= NUM_RECTANGLES,
            r@.len() == 6 * g,
            forall|k: int| 0 <= k < r@.len() ==> r@[k] == spec_index_at(k),
        decreases NUM_RECTANGLES - g,
    {
        let b = (4 * g) as u32;
        r.push(b);
        r.push(b + 1);
        r.push(b + 2);
        r.push(b);
        r.push(b + 2);
        r.push(b + 3);
        g = g + 1;
    }
    r
}

/// The scene's vertex list, viewed as the sequence of its vertices.
pub struct Renderer {
    vertices: Vec<Vertex>,
}

impl View for Renderer {
    type V = Seq<Vertex>;

    closed spec fn view(&self) -> Seq<Vertex> {
        self.vertices@
    }
}

impl Renderer {
    /// The vertex list always holds four vertices for each quad.
    pub open spec fn wf(self) -> bool {
        self@.len() == NUM_VERTICES
    }

    /// The start-up vertex list: every position at the origin, every
    /// scale correction the sentinel, and each quad in its palette color.
    pub fn new() -> (r: Renderer)
        ensures
            r.wf(),
            r@ == initial_vertices(),
    {
        let zero = Frac::of_int(0);
        let sent = Frac::of_int(10000);
        let mut v: Vec<Vertex> = Vec::new();
        let mut q: usize = 0;
        while q < NUM_RECTANGLES
            invariant
                q <= NUM_RECTANGLES,
                v@.len() == 4 * q,
                zero == (Frac { num: 0, den: 1 }),
                sent == (Frac { num: 10000, den: 1 }),
                forall|i: int| 0 <= i < v@.len() ==> v@[i] == initial_vertex(i),
            decreases NUM_RECTANGLES - q,
        {
            let c = palette_color(q);
            push_quad(&mut v, (zero, zero), (zero, zero), (zero, zero), (zero, zero), sent, c);
            q = q + 1;
        }
        proof {
            assert(v@ =~= initial_vertices());
        }
        Renderer { vertices: v }
    }

    /// Recomputes every vertex for the given pixel size and density
    /// factor; afterwards the vertex list is exactly [`frame`].
    pub fn draw(&mut self, size: (u32, u32), density: Frac)
        requires
            density.density_wf(),
        ensures
            final(self).wf(),
            final(self)@ == frame(size.0, size.1, density),
    {
        let w = logical(size.0, density);
        let h = logical(size.1, density);
        let zero = Frac::of_int(0);
        let one = Frac::of_int(1);
        let w1 = w.minus_int(1);
        let h1 = h.minus_int(1);
        let w50 = w.minus_int(50);
        let h50 = h.minus_int(50);
        let sent = Frac::of_int(10000);
        let mut v: Vec<Vertex> = Vec::new();
        push_quad(&mut v, (zero, zero), (one, zero), (one, h), (zero, h), sent, palette_color(0));
        proof {
            assert(v@ =~= quad((zero, zero), (one, zero), (one, h), (zero, h), sent, palette(0)));
        }
        push_quad(&mut v, (w, zero), (w1, zero), (w1, h), (w, h), sent, palette_color(1));
        push_quad(&mut v, (zero, zero), (zero, one), (w, one), (w, zero), sent, palette_color(2));
        push_quad(&mut v, (zero, h), (zero, h1), (w, h1), (w, h), sent, palette_color(3));
        push_square(&mut v, zero, zero, 50, sent, palette_color(4));
        push_square(&mut v, w50, zero, 50, sent, palette_color(5));
        push_square(&mut v, w50, h50, 50, sent, palette_color(6));
        push_square(&mut v, zero, h50, 50, sent, palette_color(7));
        let bx = block_x(density);
        let by = Frac::ratio(684, 5);
        let inv = density.inverse();
        push_square(&mut v, bx, by, 64, inv, palette_color(8));
        push_ref_quad(&mut v, 4);
        push_ref_quad(&mut v, 5);
        push_ref_quad(&mut v, 6);
        push_ref_quad(&mut v, 8);
        push_ref_quad(&mut v, 9);
        push_ref_quad(&mut v, 10);
        push_ref_quad(&mut v, 12);
        push_ref_quad(&mut v, 16);
        proof {
            assert(v@ =~= frame(size.0, size.1, density));
        }
        self.vertices = v;
    }

    /// The current vertex list.
    pub fn vertices(&self) -> (r: &Vec<Vertex>)
        ensures
            r@ == self@,
    {
        &self.vertices
    }
}

/// A frame always holds four vertices for each of the seventeen quads.
pub proof fn lemma_frame_len(width: u32, height: u32, d: Frac)
    ensures
        frame(width, height, d).len() == NUM_VERTICES,
{
}

/// For each quad group `g`, the six indices generated for it pick its two
/// triangles: `4g, 4g+1, 4g+2` and `4g, 4g+2, 4g+3`.
pub proof fn lemma_group_indices(s: Seq<u32>, g: int)
    requires
        s.len() == NUM_INDICES,
        forall|k: int| 0 <= k < NUM_INDICES ==> s[k] == spec_index_at(k),
        0 <= g < NUM_RECTANGLES,
    ensures
        s[6 * g] == 4 * g,
        s[6 * g + 1] == 4 * g + 1,
        s[6 * g + 2] == 4 * g + 2,
        s[6 * g + 3] == 4 * g,
        s[6 * g + 4] == 4 * g + 2,
        s[6 * g + 5] == 4 * g + 3,
{
    assert((6 * g) / 6 == g && (6 * g) % 6 == 0) by (nonlinear_arith);
    assert((6 * g + 1) / 6 == g && (6 * g + 1) % 6 == 1) by (nonlinear_arith);
    assert((6 * g + 2) / 6 == g && (6 * g + 2) % 6 == 2) by (nonlinear_arith);
    assert((6 * g + 3) / 6 == g && (6 * g + 3) % 6 == 3) by (nonlinear_arith);
    assert((6 * g + 4) / 6 == g && (6 * g + 4) % 6 == 4) by (nonlinear_arith);
    assert((6 * g + 5) / 6 == g && (6 * g + 5) % 6 == 5) by (nonlinear_arith);
    assert(s[6 * g] == spec_index_at(6 * g + 0));
    assert(s[6 * g + 1] == spec_index_at(6 * g + 1));
    assert(s[6 * g + 2] == spec_index_at(6 * g + 2));
    assert(s[6 * g + 3] == spec_index_at(6 * g + 3));
    assert(s[6 * g + 4] == spec_index_at(6 * g + 4));
    assert(s[6 * g + 5] == spec_index_at(6 * g + 5));
}

/// The live density block (quad 8, vertices 32..36): every vertex's scale
/// correction equals `1 / d`, the block's horizontal position is
/// `60 + 300 * (d - 1)`, and its vertical position is `136.8`.
pub proof fn lemma_scale_block(width: u32, height: u32, d: Frac)
    requires
        d.density_wf(),
    ensures
        frame(width, height, d)[32].step.is_value(d.den as int, d.num as int),
        frame(width, height, d)[33].step.is_value(d.den as int, d.num as int),
        frame(width, height, d)[34].step.is_value(d.den as int, d.num as int),
        frame(width, height, d)[35].step.is_value(d.den as int, d.num as int),
        frame(width, height, d)[32].x.is_value(60 * d.den + 300 * (d.num - d.den), d.den as int),
        frame(width, height, d)[32].y.is_value(684, 5),
{
}

/// The reference blocks (quads 9..17): at the whole-number densities 1,
/// 2, 3 and 4 the block is dark blue, at the fractional densities 1.25,
/// 1.5, 2.25 and 2.5 it is black, and each block's scale correction is
/// the inverse of its density (`4 / qd` for `qd` quarters).
pub proof fn lemma_reference_blocks(width: u32, height: u32, d: Frac, j: int)
    requires
        d.density_wf(),
        0 <= j < 4,
    ensures
        frame(width, height, d)[36 + j].color == rgb(0, 0, 3),
        frame(width, height, d)[40 + j].color == rgb(0, 0, 0),
        frame(width, height, d)[44 + j].color == rgb(0, 0, 0),
        frame(width, height, d)[48 + j].color == rgb(0, 0, 3),
        frame(width, height, d)[52 + j].color == rgb(0, 0, 0),
        frame(width, height, d)[56 + j].color == rgb(0, 0, 0),
        frame(width, height, d)[60 + j].color == rgb(0, 0, 3),
        frame(width, height, d)[64 + j].color == rgb(0, 0, 3),
        frame(width, height, d)[36 + j].step.is_value(4, 4),
        frame(width, height, d)[40 + j].step.is_value(4, 5),
        frame(width, height, d)[44 + j].step.is_value(4, 6),
        frame(width, height, d)[48 + j].step.is_value(4, 8),
        frame(width, height, d)[52 + j].step.is_value(4, 9),
        frame(width, height, d)[56 + j].step.is_value(4, 10),
        frame(width, height, d)[60 + j].step.is_value(4, 12),
        frame(width, height, d)[64 + j].step.is_value(4, 16),
{
}

/// The right border strip (quad 1, vertices 4..8): its outer edge lies at
/// the logical width `w = width / d` and its inner edge at `w - 1`.
pub proof fn lemma_right_border(width: u32, height: u32, d: Frac)
    requires
        d.density_wf(),
    ensures
        frame(width, height, d)[4].x.is_value(width * d.den, d.num as int),
        frame(width, height, d)[7].x.is_value(width * d.den, d.num as int),
        frame(width, height, d)[5].x.is_value(width * d.den - d.num, d.num as int),
        frame(width, height, d)[6].x.is_value(width * d.den - d.num, d.num as int),
{
    assert((width as int) * (d.den as int) <= 0x2_0000_0000_0000) by (nonlinear_arith)
        requires
            width <= 0xffff_ffffu32,
            1 <= d.den <= 100000,
    ;
    assert((width as int) * (d.den as int) >= 0) by (nonlinear_arith)
        requires
            width >= 0,
            d.den >= 1,
    ;
}

/// Redrawing twice with the same pixel size and density factor yields
/// bit-identical vertex data: a frame is a function of those inputs
/// alone.
pub proof fn lemma_redraw_idempotent(
    a: Seq<Vertex>,
    b: Seq<Vertex>,
    width: u32,
    height: u32,
    d: Frac,
)
    requires
        a == frame(width, height, d),
        b == frame(width, height, d),
    ensures
        a == b,
{
}

} // verus!
