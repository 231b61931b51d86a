use std::cmp::Ordering;

use geom2d::{collides, AxisOrder};

/// The comparisons of the bounds of `[lo, hi]` with those of `[self_lo, self_hi]`.
fn axis(lo: f64, hi: f64, self_lo: f64, self_hi: f64) -> AxisOrder {
    AxisOrder {
        lo_vs_lo: lo.partial_cmp(&self_lo),
        lo_vs_hi: lo.partial_cmp(&self_hi),
        hi_vs_lo: hi.partial_cmp(&self_lo),
        hi_vs_hi: hi.partial_cmp(&self_hi),
    }
}

/// Rectangles as (left, top, right, bottom), top the larger y.
fn rects_collide(a: (f64, f64, f64, f64), b: (f64, f64, f64, f64)) -> bool {
    let h = axis(b.0, b.2, a.0, a.2);
    let v = axis(b.3, b.1, a.3, a.1);
    collides(&h, &v)
}

const UNIT: (f64, f64, f64, f64) = (0.0, 1.0, 1.0, 0.0);

#[test]
fn partial_overlap_collides() {
    assert!(rects_collide(UNIT, (0.5, 1.5, 1.5, 0.5)));
    assert!(rects_collide((0.5, 1.5, 1.5, 0.5), UNIT));
}

#[test]
fn touching_edges_collide() {
    assert!(rects_collide(UNIT, (1.0, 1.0, 2.0, 0.0)));
    assert!(rects_collide(UNIT, (1.0, 2.0, 2.0, 1.0)));
}

#[test]
fn contained_rect_collides() {
    assert!(rects_collide(UNIT, (0.25, 0.75, 0.75, 0.25)));
}

#[test]
fn containing_rect_collides() {
    assert!(rects_collide((0.25, 0.75, 0.75, 0.25), UNIT));
}

#[test]
fn cross_shaped_overlap_collides() {
    // a wide flat rect across a tall thin one: no corner of either lies in the other
    let wide = (-1.0, 0.6, 2.0, 0.4);
    let tall = (0.4, 2.0, 0.6, -1.0);
    assert!(rects_collide(wide, tall));
    assert!(rects_collide(tall, wide));
}

#[test]
fn disjoint_rects_do_not_collide() {
    assert!(!rects_collide(UNIT, (2.0, 1.0, 3.0, 0.0)));
    assert!(!rects_collide(UNIT, (0.0, 3.0, 1.0, 2.0)));
    assert!(!rects_collide(UNIT, (2.0, 3.0, 3.0, 2.0)));
}

#[test]
fn apart_on_one_axis_only_does_not_collide() {
    // same vertical extent, but horizontally apart
    assert!(!rects_collide(UNIT, (5.0, 1.0, 6.0, 0.0)));
    // spans vertically, but horizontally apart
    assert!(!rects_collide(UNIT, (5.0, 9.0, 6.0, -9.0)));
}

#[test]
fn unordered_bounds_do_not_collide() {
    assert!(!rects_collide(UNIT, (f64::NAN, 1.0, f64::NAN, 0.0)));
}

#[test]
fn axis_orders_written_out() {
    let g = Some(Ordering::Greater);
    let l = Some(Ordering::Less);
    let e = Some(Ordering::Equal);
    let holds = AxisOrder { lo_vs_lo: l, lo_vs_hi: l, hi_vs_lo: g, hi_vs_hi: g };
    let beyond = AxisOrder { lo_vs_lo: g, lo_vs_hi: g, hi_vs_lo: g, hi_vs_hi: g };
    let same = AxisOrder { lo_vs_lo: e, lo_vs_hi: l, hi_vs_lo: g, hi_vs_hi: e };
    assert!(collides(&holds, &holds));
    assert!(collides(&same, &holds));
    assert!(!collides(&holds, &beyond));
    assert!(!collides(&beyond, &same));
}
