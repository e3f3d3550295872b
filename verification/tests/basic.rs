use rustyfun::color::Color;
use rustyfun::drawable_state_2d::{Anchor, AnchorBit, DrawableId, DrawableState2D, IdCounter};
use rustyfun::fixed::{half_i64, mul_frac_i64, HALF, SCALE};

#[test]
fn color_new_and_setters() {
    let mut c = Color::new(1, 2, 3, 4);
    assert_eq!(c.r, 1);
    assert_eq!(c.g, 2);
    assert_eq!(c.b, 3);
    assert_eq!(c.a, 4);
    c.set_r(10);
    c.set_g(20);
    c.set_b(30);
    c.set_a(40);
    assert_eq!((c.r, c.g, c.b, c.a), (10, 20, 30, 40));
}

#[test]
fn anchor_bits_compose() {
    assert_eq!(Anchor::top_left().bits, AnchorBit::Y0 | AnchorBit::X0);
    assert_eq!(Anchor::centre().bits, AnchorBit::Y1 | AnchorBit::X1);
    assert_eq!(Anchor::bottom_right().bits, AnchorBit::Y2 | AnchorBit::X2);
    assert_eq!(Anchor::new(7).bits, 7);
}

#[test]
fn anchor_intersects_tests_by_intersection() {
    assert!(Anchor::top_left().intersects(Anchor::x0()));
    assert!(Anchor::top_left().intersects(Anchor::y0()));
    assert!(!Anchor::top_left().intersects(Anchor::x1()));
    assert!(!Anchor::top_left().intersects(Anchor::y2()));
    // several bits can coexist; intersection still answers per bit
    let both = Anchor::new(AnchorBit::X1 | AnchorBit::X2);
    assert!(both.intersects(Anchor::x1()));
    assert!(both.intersects(Anchor::x2()));
    assert!(!both.intersects(Anchor::x0()));
}

#[test]
fn dummy_id_is_zero() {
    assert_eq!(DrawableId::dummy().0, 0);
}

#[test]
fn identifiers_strictly_increase() {
    let mut counter = IdCounter::new();
    let mut ids: Vec<u64> = Vec::new();
    for _ in 0..8 {
        ids.push(DrawableState2D::new(&mut counter).get_id().0);
    }
    for i in 0..ids.len() {
        for j in (i + 1)..ids.len() {
            assert!(ids[i] < ids[j]);
        }
    }
}

#[test]
fn fixed_point_multiply_is_exact_on_halves() {
    // 0.5 * 200.0 == 100.0
    assert_eq!(mul_frac_i64(HALF, 200 * SCALE), 100 * SCALE);
    // 1.0 * x == x
    assert_eq!(mul_frac_i64(SCALE, 123 * SCALE), 123 * SCALE);
    // 0 * x == 0
    assert_eq!(mul_frac_i64(0, 999 * SCALE), 0);
}

#[test]
fn fixed_point_division_truncates_toward_zero() {
    assert_eq!(half_i64(5), 2);
    assert_eq!(half_i64(-5), -2);
    assert_eq!(half_i64(4), 2);
    assert_eq!(half_i64(-4), -2);
    // -1.5 * 3.0 == -4.5
    assert_eq!(mul_frac_i64(-SCALE - HALF, 3 * SCALE), -4 * SCALE - HALF);
}

#[test]
fn mutators_set_dirty_flag() {
    let mut counter = IdCounter::new();
    let mut s = DrawableState2D::new(&mut counter);
    assert!(s.is_dirty());
    s.set_dirty(false);
    assert!(!s.is_dirty());
    s.set_abs_pos(1, 2);
    assert!(s.is_dirty());
    s.set_dirty(false);
    s.set_rel_size(HALF, HALF);
    assert!(s.is_dirty());
    s.set_dirty(false);
    s.set_origin(Anchor::centre());
    assert!(s.is_dirty());
    let t = *s.get_transform_state();
    assert_eq!(t.abs_pos.x, 1);
    assert_eq!(t.abs_pos.y, 2);
    assert_eq!(t.rel_size.x, HALF);
    assert_eq!(t.origin, Anchor::centre());
}

#[test]
fn text_node_setters() {
    let mut counter = IdCounter::new();
    let mut t = rustyfun::text_2d::Text2D::new(&mut counter);
    assert_eq!(t.text, "");
    assert_eq!(t.scale, SCALE);
    t.set_text("hello");
    assert_eq!(t.text, "hello");
    t.set_color(&Color::new(1, 2, 3, 4));
    assert_eq!(t.color, Color::new(1, 2, 3, 4));
    t.set_scale(2 * SCALE);
    assert_eq!(t.scale, 2 * SCALE);
    assert!(t.state.is_dirty());
}

#[test]
fn add_child_appends_in_order() {
    let mut counter = IdCounter::new();
    let mut s = DrawableState2D::new(&mut counter);
    assert_eq!(s.get_children().len(), 0);
    let a = rustyfun::box_2d::Box2D::new(&mut counter);
    let a_id = a.state.get_id();
    let b = rustyfun::box_2d::Box2D::new(&mut counter);
    let b_id = b.state.get_id();
    s.add_child(rustyfun::drawable_2d::Drawable2D::Quad(a));
    s.add_child(rustyfun::drawable_2d::Drawable2D::Quad(b));
    let children = s.get_children();
    assert_eq!(children.len(), 2);
    assert_eq!(children[0].get_id(), a_id);
    assert_eq!(children[1].get_id(), b_id);
}

#[test]
fn default_transform_is_zero_top_left() {
    let t = rustyfun::drawable_state_2d::TransformState2D::new();
    assert_eq!(t.abs_pos.x, 0);
    assert_eq!(t.abs_pos.y, 0);
    assert_eq!(t.rel_pos.x, 0);
    assert_eq!(t.rel_size.y, 0);
    assert_eq!(t.abs_size.x, 0);
    assert_eq!(t.origin, Anchor::top_left());
    assert_eq!(t.alignment, Anchor::top_left());
}
