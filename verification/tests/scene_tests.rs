use dpi_scene::frac::Frac;
use dpi_scene::scene::{indices, Color, Renderer, Vertex};

fn fr(num: i64, den: i64) -> Frac {
    Frac { num, den }
}

fn rgb(r10: u8, g10: u8, b10: u8) -> Color {
    Color { r10, g10, b10 }
}

#[test]
fn index_list_has_six_entries_per_quad() {
    let idx = indices();
    assert_eq!(idx.len(), 102);
    for g in 0..17u32 {
        let base = 6 * g as usize;
        assert_eq!(idx[base], 4 * g);
        assert_eq!(idx[base + 1], 4 * g + 1);
        assert_eq!(idx[base + 2], 4 * g + 2);
        assert_eq!(idx[base + 3], 4 * g);
        assert_eq!(idx[base + 4], 4 * g + 2);
        assert_eq!(idx[base + 5], 4 * g + 3);
    }
}

#[test]
fn initial_vertices_hold_palette_and_sentinel() {
    let r = Renderer::new();
    let v = r.vertices();
    assert_eq!(v.len(), 68);
    for vertex in v.iter() {
        assert_eq!(vertex.x, fr(0, 1));
        assert_eq!(vertex.y, fr(0, 1));
        assert_eq!(vertex.step, fr(10000, 1));
    }
    assert_eq!(v[0].color, rgb(10, 10, 0));
    assert_eq!(v[4].color, rgb(10, 0, 10));
    assert_eq!(v[8].color, rgb(0, 0, 10));
    assert_eq!(v[12].color, rgb(0, 10, 0));
    assert_eq!(v[16].color, rgb(5, 10, 0));
    assert_eq!(v[20].color, rgb(5, 0, 10));
    assert_eq!(v[24].color, rgb(0, 0, 5));
    assert_eq!(v[28].color, rgb(0, 5, 0));
    for i in 32..68 {
        assert_eq!(v[i].color, rgb(0, 0, 0));
    }
}

#[test]
fn scale_block_step_is_inverse_density() {
    let mut r = Renderer::new();
    r.draw((1024, 768), fr(2, 1));
    let v = r.vertices();
    for j in 32..36 {
        assert_eq!(v[j].step, fr(1, 2));
    }
    // Horizontal position 60 + 300 * (2 - 1) = 360.
    assert_eq!(v[32].x, fr(360, 1));
    // Vertical position 136.8 = 684 / 5.
    assert_eq!(v[32].y, fr(684, 5));
}

#[test]
fn scale_block_tracks_fractional_density() {
    let mut r = Renderer::new();
    // Density 1.5 as 3/2: step 2/3, x offset 300 * 0.5 = 150, so x = 210.
    r.draw((1536, 1092), fr(3, 2));
    let v = r.vertices();
    for j in 32..36 {
        assert_eq!(v[j].step, fr(2, 3));
    }
    let x = v[32].x;
    assert_eq!(x.num * 1, 210 * x.den);
}

#[test]
fn reference_blocks_colored_by_wholeness() {
    let mut r = Renderer::new();
    r.draw((800, 600), fr(1, 1));
    let v = r.vertices();
    let navy = rgb(0, 0, 3);
    let black = rgb(0, 0, 0);
    let expected = [navy, black, black, navy, black, black, navy, navy];
    for (k, want) in expected.iter().enumerate() {
        for j in 0..4 {
            assert_eq!(v[36 + 4 * k + j].color, *want);
        }
    }
}

#[test]
fn reference_block_steps_are_inverse_densities() {
    let mut r = Renderer::new();
    r.draw((800, 600), fr(1, 1));
    let v = r.vertices();
    let quarters = [4i64, 5, 6, 8, 9, 10, 12, 16];
    for (k, qd) in quarters.iter().enumerate() {
        for j in 0..4 {
            assert_eq!(v[36 + 4 * k + j].step, fr(4, *qd));
        }
        // Horizontal position 60 + 300 * (density - 1).
        assert_eq!(v[36 + 4 * k].x, fr(60 + 75 * (qd - 4), 1));
        assert_eq!(v[36 + 4 * k].y, fr(60, 1));
    }
}

#[test]
fn right_border_spans_last_logical_unit() {
    let mut r = Renderer::new();
    r.draw((800, 600), fr(1, 1));
    let v = r.vertices();
    // Logical width 800: the right strip runs from x = 799 to x = 800.
    assert_eq!(v[4].x, fr(800, 1));
    assert_eq!(v[5].x, fr(799, 1));
    assert_eq!(v[6].x, fr(799, 1));
    assert_eq!(v[7].x, fr(800, 1));
    assert_eq!(v[4].y, fr(0, 1));
    assert_eq!(v[6].y, fr(600, 1));
}

#[test]
fn borders_at_density_two_use_halved_logical_size() {
    let mut r = Renderer::new();
    r.draw((2048, 1456), fr(2, 1));
    let v = r.vertices();
    // Logical width 1024 = 2048/2, kept as the fraction 2048/2.
    let w = v[4].x;
    assert_eq!(w.num * 1, 1024 * w.den);
    let w1 = v[5].x;
    assert_eq!(w1.num * 1, 1023 * w1.den);
    // Bottom strip: y from h - 1 to h with h = 728.
    let h = v[12].y;
    assert_eq!(h.num * 1, 728 * h.den);
    let h1 = v[13].y;
    assert_eq!(h1.num * 1, 727 * h1.den);
}

#[test]
fn corner_markers_are_fifty_wide() {
    let mut r = Renderer::new();
    r.draw((800, 600), fr(1, 1));
    let v = r.vertices();
    // Quad 4: top-left corner marker at the origin.
    assert_eq!(v[16].x, fr(0, 1));
    assert_eq!(v[17].x, fr(50, 1));
    assert_eq!(v[18].y, fr(50, 1));
    // Quad 5: top-right marker anchored at w - 50 = 750.
    assert_eq!(v[20].x, fr(750, 1));
    // Quad 6: bottom-right marker at (750, 550).
    assert_eq!(v[24].x, fr(750, 1));
    assert_eq!(v[24].y, fr(550, 1));
    // Border and corner quads keep the sentinel step.
    for j in 0..32 {
        assert_eq!(v[j].step, fr(10000, 1));
    }
}

#[test]
fn redraw_is_idempotent() {
    let mut r = Renderer::new();
    r.draw((1366, 768), fr(5, 4));
    let first: Vec<Vertex> = r.vertices().clone();
    r.draw((1366, 768), fr(5, 4));
    let second: Vec<Vertex> = r.vertices().clone();
    assert_eq!(first, second);
}

#[test]
fn redraw_after_other_sizes_still_matches() {
    let mut r1 = Renderer::new();
    r1.draw((640, 480), fr(9, 4));
    let direct: Vec<Vertex> = r1.vertices().clone();
    let mut r2 = Renderer::new();
    r2.draw((1920, 1080), fr(2, 1));
    r2.draw((640, 480), fr(9, 4));
    assert_eq!(direct, *r2.vertices());
}

#[test]
fn fraction_wholeness() {
    assert!(fr(3, 1).whole());
    assert!(fr(8, 4).whole());
    assert!(!fr(9, 4).whole());
    assert!(!fr(5, 2).whole());
}
