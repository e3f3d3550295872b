use rustyfun::box_2d::Box2D;
use rustyfun::color::Color;
use rustyfun::drawable_2d::{Drawable2D, SimpleDrawable2D};
use rustyfun::drawable_state_2d::{
    Anchor, DrawNode2D, DrawableState2D, IdCounter, TransformState2D,
};
use rustyfun::fixed::{HALF, SCALE};

fn bare_container(counter: &mut IdCounter) -> Drawable2D {
    // A container without the stock background child, so the output holds
    // only what the test adds.
    Drawable2D::Simple(SimpleDrawable2D { state: DrawableState2D::new(counter) })
}

fn quad_transform(node: &DrawNode2D) -> TransformState2D {
    match node {
        DrawNode2D::Quad(q) => q.quad,
        DrawNode2D::Text(_) => panic!("expected a Quad primitive"),
    }
}

fn quad_color(node: &DrawNode2D) -> Color {
    match node {
        DrawNode2D::Quad(q) => q.color,
        DrawNode2D::Text(_) => panic!("expected a Quad primitive"),
    }
}

#[test]
fn empty_tree_draws_empty_list() {
    let mut counter = IdCounter::new();
    let root = bare_container(&mut counter);
    let nodes = root.draw().unwrap();
    assert_eq!(nodes.len(), 0);
}

#[test]
fn size_merge_resolves_relative_size() {
    let mut counter = IdCounter::new();
    let mut root = bare_container(&mut counter);
    root.set_abs_size(200 * SCALE, 100 * SCALE);
    let mut child = Box2D::new(&mut counter);
    child.state.set_rel_size(HALF, HALF);
    root.add_child(Drawable2D::Quad(child));
    let nodes = root.draw().unwrap();
    assert_eq!(nodes.len(), 1);
    let t = quad_transform(&nodes[0]);
    assert_eq!(t.abs_size.x, 100 * SCALE);
    assert_eq!(t.abs_size.y, 50 * SCALE);
    assert_eq!(t.rel_size.x, 0);
    assert_eq!(t.rel_size.y, 0);
}

#[test]
fn bottom_right_alignment_subtracts_full_size() {
    let mut counter = IdCounter::new();
    let mut root = bare_container(&mut counter);
    let mut child = Box2D::new(&mut counter);
    child.state.set_abs_size(100 * SCALE, 100 * SCALE);
    child.state.set_abs_pos(0, 0);
    child.state.set_alignment(Anchor::bottom_right());
    root.add_child(Drawable2D::Quad(child));
    let nodes = root.draw().unwrap();
    assert_eq!(nodes.len(), 1);
    let t = quad_transform(&nodes[0]);
    assert_eq!(t.abs_pos.x, -100 * SCALE);
    assert_eq!(t.abs_pos.y, -100 * SCALE);
    assert_eq!(t.abs_size.x, 100 * SCALE);
}

#[test]
fn centre_origin_adds_half_before_alignment() {
    let mut counter = IdCounter::new();
    let mut root = bare_container(&mut counter);
    root.set_abs_size(100 * SCALE, 200 * SCALE);
    let mut child = Box2D::new(&mut counter);
    child.state.set_origin(Anchor::centre());
    root.add_child(Drawable2D::Quad(child));
    let nodes = root.draw().unwrap();
    let t = quad_transform(&nodes[0]);
    // rel_pos gained (0.5, 0.5), resolved against the parent's size
    assert_eq!(t.abs_pos.x, 50 * SCALE);
    assert_eq!(t.abs_pos.y, 100 * SCALE);
}

#[test]
fn centre_origin_offset_is_independent_of_alignment() {
    let mut counter = IdCounter::new();
    let mut root = bare_container(&mut counter);
    root.set_abs_size(100 * SCALE, 200 * SCALE);
    let mut child = Box2D::new(&mut counter);
    child.state.set_abs_size(10 * SCALE, 10 * SCALE);
    child.state.set_origin(Anchor::centre());
    child.state.set_alignment(Anchor::bottom_right());
    root.add_child(Drawable2D::Quad(child));
    let nodes = root.draw().unwrap();
    let t = quad_transform(&nodes[0]);
    // alignment subtracts the box's own size, origin still adds (0.5, 0.5)
    assert_eq!(t.abs_pos.x, 50 * SCALE - 10 * SCALE);
    assert_eq!(t.abs_pos.y, 100 * SCALE - 10 * SCALE);
}

#[test]
fn first_matching_origin_branch_wins_on_multi_bit_anchors() {
    // several bits on one axis are accepted silently; the center class is
    // tested before bottom/right, so only it takes effect
    let mut counter = IdCounter::new();
    let mut root = bare_container(&mut counter);
    root.set_abs_size(100 * SCALE, 100 * SCALE);
    let mut child = Box2D::new(&mut counter);
    child.state.set_origin(Anchor::new(
        rustyfun::drawable_state_2d::AnchorBit::X1 | rustyfun::drawable_state_2d::AnchorBit::X2,
    ));
    root.add_child(Drawable2D::Quad(child));
    let nodes = root.draw().unwrap();
    let t = quad_transform(&nodes[0]);
    assert_eq!(t.abs_pos.x, 50 * SCALE);
    assert_eq!(t.abs_pos.y, 0);
}

#[test]
fn paint_order_keeps_sibling_order() {
    let mut counter = IdCounter::new();
    let mut root = bare_container(&mut counter);
    root.set_abs_size(100 * SCALE, 100 * SCALE);
    let mut a = Box2D::new(&mut counter);
    a.set_color(Color::new(255, 0, 0, 255));
    a.state.set_rel_size(SCALE, SCALE);
    let mut b = Box2D::new(&mut counter);
    b.set_color(Color::new(0, 255, 0, 255));
    b.state.set_rel_size(SCALE, SCALE);
    root.add_child(Drawable2D::Quad(a));
    root.add_child(Drawable2D::Quad(b));
    let nodes = root.draw().unwrap();
    assert_eq!(nodes.len(), 2);
    assert_eq!(quad_color(&nodes[0]), Color::new(255, 0, 0, 255));
    assert_eq!(quad_color(&nodes[1]), Color::new(0, 255, 0, 255));
}

#[test]
fn quad_leaf_ignores_its_children() {
    let mut counter = IdCounter::new();
    let mut leaf = Box2D::new(&mut counter);
    let mut nested = Box2D::new(&mut counter);
    nested.set_color(Color::new(9, 9, 9, 9));
    leaf.state.add_child(Drawable2D::Quad(nested));
    let root = Drawable2D::Quad(leaf);
    let nodes = root.draw().unwrap();
    assert_eq!(nodes.len(), 1);
    assert_eq!(quad_color(&nodes[0]), Color::new(255, 255, 255, 255));
}

#[test]
fn pure_absolute_root_fully_resolves() {
    let mut counter = IdCounter::new();
    let mut root = bare_container(&mut counter);
    root.set_abs_size(300 * SCALE, 300 * SCALE);
    let mut inner = bare_container(&mut counter);
    inner.set_rel_size(HALF, HALF);
    inner.set_rel_pos(HALF, 0);
    let mut leaf = Box2D::new(&mut counter);
    leaf.state.set_rel_size(SCALE, SCALE);
    inner.add_child(Drawable2D::Quad(leaf));
    root.add_child(inner);
    let nodes = root.draw().unwrap();
    assert_eq!(nodes.len(), 1);
    let t = quad_transform(&nodes[0]);
    assert_eq!(t.rel_pos.x, 0);
    assert_eq!(t.rel_pos.y, 0);
    assert_eq!(t.rel_size.x, 0);
    assert_eq!(t.rel_size.y, 0);
}

#[test]
fn two_level_fold_resolves_inner_frame() {
    let mut counter = IdCounter::new();
    let mut outer = bare_container(&mut counter);
    outer.set_abs_pos(10 * SCALE, 10 * SCALE);
    outer.set_abs_size(100 * SCALE, 100 * SCALE);
    let mut inner = bare_container(&mut counter);
    inner.set_rel_pos(HALF, 0);
    inner.set_abs_size(50 * SCALE, 50 * SCALE);
    let mut leaf = Box2D::new(&mut counter);
    leaf.state.set_rel_size(HALF, HALF);
    inner.add_child(Drawable2D::Quad(leaf));
    outer.add_child(inner);
    let nodes = outer.draw().unwrap();
    assert_eq!(nodes.len(), 1);
    let t = quad_transform(&nodes[0]);
    // the leaf's relative size resolves against the inner container
    assert_eq!(t.abs_size.x, 25 * SCALE);
    assert_eq!(t.abs_size.y, 25 * SCALE);
    // the inner container's relative position resolves against the outer
    assert_eq!(t.abs_pos.x, 60 * SCALE);
    assert_eq!(t.abs_pos.y, 10 * SCALE);
    assert_eq!(t.rel_pos.x, 0);
    assert_eq!(t.rel_pos.y, 0);
}

#[test]
fn stock_container_has_background_quad() {
    let mut counter = IdCounter::new();
    let mut root_container = SimpleDrawable2D::new(&mut counter);
    root_container.state.set_abs_pos(100 * SCALE, 100 * SCALE);
    root_container.state.set_abs_size(500 * SCALE, 500 * SCALE);
    let root = Drawable2D::Simple(root_container);
    let nodes = root.draw().unwrap();
    assert_eq!(nodes.len(), 1);
    let t = quad_transform(&nodes[0]);
    // the stock background is a full-bleed translucent gray quad
    assert_eq!(quad_color(&nodes[0]), Color::new(100, 100, 100, 50));
    assert_eq!(t.abs_size.x, 500 * SCALE);
    assert_eq!(t.abs_size.y, 500 * SCALE);
    assert_eq!(t.abs_pos.x, 100 * SCALE);
    assert_eq!(t.abs_pos.y, 100 * SCALE);
}

#[test]
fn origin_reapplies_at_every_level() {
    // origin and alignment stay on the primitive, so each ancestor level
    // applies them again while folding
    let mut counter = IdCounter::new();
    let mut outer = bare_container(&mut counter);
    outer.set_abs_size(10 * SCALE, 10 * SCALE);
    let mut inner = bare_container(&mut counter);
    inner.set_abs_size(100 * SCALE, 100 * SCALE);
    let mut leaf = Box2D::new(&mut counter);
    leaf.state.set_origin(Anchor::bottom_right());
    inner.add_child(Drawable2D::Quad(leaf));
    outer.add_child(inner);
    let nodes = outer.draw().unwrap();
    let t = quad_transform(&nodes[0]);
    // inner applies +1.0 of its 100 units, outer applies +1.0 of its 10
    assert_eq!(t.abs_pos.x, 110 * SCALE);
    assert_eq!(t.abs_pos.y, 110 * SCALE);
}

#[test]
fn update_traverses_without_effect() {
    let mut counter = IdCounter::new();
    let mut root = bare_container(&mut counter);
    root.set_abs_size(100 * SCALE, 100 * SCALE);
    let mut child = Box2D::new(&mut counter);
    child.state.set_rel_size(HALF, HALF);
    root.add_child(Drawable2D::Quad(child));
    let before = root.draw().unwrap();
    root.update();
    let after = root.draw().unwrap();
    assert_eq!(before.len(), after.len());
    assert_eq!(quad_transform(&before[0]), quad_transform(&after[0]));
}

#[test]
fn draw_checked_matches_draw_on_ordinary_scenes() {
    let mut counter = IdCounter::new();
    let mut root = bare_container(&mut counter);
    root.set_abs_size(200 * SCALE, 100 * SCALE);
    let mut child = Box2D::new(&mut counter);
    child.state.set_rel_size(HALF, HALF);
    child.state.set_origin(Anchor::centre());
    root.add_child(Drawable2D::Quad(child));
    let plain = root.draw().unwrap();
    let checked = root.draw_checked().unwrap();
    assert_eq!(plain, checked);
}

#[test]
fn draw_checked_reports_overflow() {
    let mut counter = IdCounter::new();
    let mut root = bare_container(&mut counter);
    root.set_abs_size(i64::MAX, i64::MAX);
    let mut child = Box2D::new(&mut counter);
    child.state.set_rel_size(i64::MAX, i64::MAX);
    root.add_child(Drawable2D::Quad(child));
    assert!(root.draw_checked().is_none());
}

#[test]
fn renderer_identity_check_uses_node_id() {
    let mut counter = IdCounter::new();
    let root = bare_container(&mut counter);
    let other = bare_container(&mut counter);
    let expected = root.get_id();
    assert_eq!(root.get_id(), expected);
    assert_ne!(other.get_id(), expected);
}
