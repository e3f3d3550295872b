use crate::box_2d::Box2D;
use crate::color::Color;
use crate::drawable_state_2d::{
    node_transform, Anchor, AnchorBit, DrawNode2D, DrawNodeModel, DrawableId, DrawableState2D,
    IdCounter, TransformModel, TransformState2D, Vec2, Vec2Model,
};
use crate::fixed::{half_i64, in_range, mul_frac, mul_frac_checked, mul_frac_i64, tdiv, HALF, SCALE};
use crate::text_2d::Text2D;
use vstd::prelude::*;

verus! {

// ---------------------------------------------------------------------------
// The composition algorithm, specified over unbounded integers.
//
// `draw` resolves a subtree bottom-up: every node receives its children's
// primitives expressed in the child's own relative frame and folds its own
// geometry into each of them, in this exact order: size merge (Quad
// primitives only), anchor resolution, position merge.  Relative quantities
// are consumed level by level; with a pure-absolute root they converge to
// zero by the time the root returns.
// ---------------------------------------------------------------------------
/// Size merge: the parent's absolute size gives the primitive's relative
/// size an absolute value, and the parent's own relative size takes its
/// place, to be resolved one level further up.
pub open spec fn merge_size(t: TransformModel, s: TransformModel) -> TransformModel {
    TransformModel {
        abs_size: Vec2Model {
            x: t.abs_size.x + mul_frac(t.rel_size.x, s.abs_size.x),
            y: t.abs_size.y + mul_frac(t.rel_size.y, s.abs_size.y),
        },
        rel_size: s.rel_size,
        ..t
    }
}

/// Origin resolution: the origin anchor chooses which point within the
/// primitive's own box its position describes, adding half a unit (center)
/// or a whole unit (bottom/right) of relative position per axis.  The
/// center class of each axis is tested first; top/left add nothing.
pub open spec fn apply_origin(t: TransformModel) -> TransformModel {
    TransformModel {
        rel_pos: Vec2Model {
            x: if t.origin.has(AnchorBit::X1) {
                t.rel_pos.x + HALF
            } else if t.origin.has(AnchorBit::X2) {
                t.rel_pos.x + SCALE
            } else {
                t.rel_pos.x
            },
            y: if t.origin.has(AnchorBit::Y1) {
                t.rel_pos.y + HALF
            } else if t.origin.has(AnchorBit::Y2) {
                t.rel_pos.y + SCALE
            } else {
                t.rel_pos.y
            },
        },
        ..t
    }
}

/// Alignment resolution: shifts the box so that the anchored point, not the
/// top-left corner, lands on the computed position — half the size for the
/// center class, the whole size for bottom/right, tested in that order.
pub open spec fn apply_alignment(t: TransformModel) -> TransformModel {
    TransformModel {
        abs_pos: Vec2Model {
            x: if t.alignment.has(AnchorBit::X1) {
                t.abs_pos.x - tdiv(t.abs_size.x, 2)
            } else if t.alignment.has(AnchorBit::X2) {
                t.abs_pos.x - t.abs_size.x
            } else {
                t.abs_pos.x
            },
            y: if t.alignment.has(AnchorBit::Y1) {
                t.abs_pos.y - tdiv(t.abs_size.y, 2)
            } else if t.alignment.has(AnchorBit::Y2) {
                t.abs_pos.y - t.abs_size.y
            } else {
                t.abs_pos.y
            },
        },
        rel_pos: Vec2Model {
            x: if t.alignment.has(AnchorBit::X1) {
                t.rel_pos.x - tdiv(t.rel_size.x, 2)
            } else if t.alignment.has(AnchorBit::X2) {
                t.rel_pos.x - t.rel_size.x
            } else {
                t.rel_pos.x
            },
            y: if t.alignment.has(AnchorBit::Y1) {
                t.rel_pos.y - tdiv(t.rel_size.y, 2)
            } else if t.alignment.has(AnchorBit::Y2) {
                t.rel_pos.y - t.rel_size.y
            } else {
                t.rel_pos.y
            },
        },
        ..t
    }
}

/// Anchor resolution: origin first, then alignment.
pub open spec fn resolve_anchors(t: TransformModel) -> TransformModel {
    apply_alignment(apply_origin(t))
}

/// Position merge: the parent's absolute size gives the primitive's
/// relative position an absolute value, the parent's own relative position
/// takes its place, and the parent's absolute position shifts the result.
pub open spec fn merge_pos(t: TransformModel, s: TransformModel) -> TransformModel {
    TransformModel {
        abs_pos: Vec2Model {
            x: t.abs_pos.x + mul_frac(t.rel_pos.x, s.abs_size.x) + s.abs_pos.x,
            y: t.abs_pos.y + mul_frac(t.rel_pos.y, s.abs_size.y) + s.abs_pos.y,
        },
        rel_pos: s.rel_pos,
        ..t
    }
}

/// One full fold of a parent's geometry `s` into a primitive: Quad
/// primitives get the size merge; Text primitives keep their intrinsic
/// bounds.  Both then go through anchor resolution and the position merge.
pub open spec fn fold_node(n: DrawNodeModel, s: TransformModel) -> DrawNodeModel {
    match n {
        DrawNodeModel::Quad(q) => DrawNodeModel::Quad(
            crate::drawable_state_2d::QuadNodeModel {
                quad: merge_pos(resolve_anchors(merge_size(q.quad, s)), s),
                ..q
            },
        ),
        DrawNodeModel::Text(x) => DrawNodeModel::Text(
            crate::drawable_state_2d::TextNodeModel {
                transform: merge_pos(resolve_anchors(x.transform), s),
                ..x
            },
        ),
    }
}

/// A whole primitive list folded against one parent.
pub open spec fn fold_nodes(ns: Seq<DrawNodeModel>, s: TransformModel) -> Seq<DrawNodeModel> {
    ns.map_values(|n: DrawNodeModel| fold_node(n, s))
}

// ---------------------------------------------------------------------------
// In-range side conditions.  The fold is specified over unbounded integers;
// the executable fold stores every step in fixed-point scalars, so a draw
// call asks that each stored intermediate of the exact fold is
// representable.
// ---------------------------------------------------------------------------
/// Every scalar the size merge stores is representable.
pub open spec fn merge_size_ok(t: TransformModel, s: TransformModel) -> bool {
    &&& in_range(mul_frac(t.rel_size.x, s.abs_size.x))
    &&& in_range(mul_frac(t.rel_size.y, s.abs_size.y))
    &&& in_range(t.abs_size.x + mul_frac(t.rel_size.x, s.abs_size.x))
    &&& in_range(t.abs_size.y + mul_frac(t.rel_size.y, s.abs_size.y))
}

/// Every scalar the anchor resolution stores is representable.
pub open spec fn resolve_anchors_ok(t: TransformModel) -> bool {
    let o = apply_origin(t);
    let a = apply_alignment(o);
    &&& in_range(o.rel_pos.x)
    &&& in_range(o.rel_pos.y)
    &&& in_range(a.abs_pos.x)
    &&& in_range(a.abs_pos.y)
    &&& in_range(a.rel_pos.x)
    &&& in_range(a.rel_pos.y)
}

/// Every scalar the position merge stores is representable.
pub open spec fn merge_pos_ok(t: TransformModel, s: TransformModel) -> bool {
    &&& in_range(mul_frac(t.rel_pos.x, s.abs_size.x))
    &&& in_range(mul_frac(t.rel_pos.y, s.abs_size.y))
    &&& in_range(t.abs_pos.x + mul_frac(t.rel_pos.x, s.abs_size.x))
    &&& in_range(t.abs_pos.y + mul_frac(t.rel_pos.y, s.abs_size.y))
    &&& in_range(t.abs_pos.x + mul_frac(t.rel_pos.x, s.abs_size.x) + s.abs_pos.x)
    &&& in_range(t.abs_pos.y + mul_frac(t.rel_pos.y, s.abs_size.y) + s.abs_pos.y)
}

/// Every scalar one full fold of `s` into `n` stores is representable.
pub open spec fn fold_node_ok(n: DrawNodeModel, s: TransformModel) -> bool {
    match n {
        DrawNodeModel::Quad(q) => {
            &&& merge_size_ok(q.quad, s)
            &&& resolve_anchors_ok(merge_size(q.quad, s))
            &&& merge_pos_ok(resolve_anchors(merge_size(q.quad, s)), s)
        },
        DrawNodeModel::Text(x) => {
            &&& resolve_anchors_ok(x.transform)
            &&& merge_pos_ok(resolve_anchors(x.transform), s)
        },
    }
}

// ---------------------------------------------------------------------------
// The draw result, specified over the tree.
// ---------------------------------------------------------------------------
/// The primitive list a node's `draw` returns, in the node's own relative
/// frame.  A Quad leaf emits exactly its own primitive, whatever children
/// it has; every other kind folds its children's lists, in child order.
pub open spec fn spec_draw(d: Drawable2D) -> Seq<DrawNodeModel>
    decreases d,
{
    match d {
        Drawable2D::Quad(b) => seq![b.spec_node()],
        Drawable2D::Simple(c) => spec_draw_children(
            c.state.children@,
            c.state.drawable_transform@,
        ),
        Drawable2D::Text(t) => spec_draw_children(t.state.children@, t.state.drawable_transform@),
    }
}

/// The folded concatenation of the children's primitive lists, in child
/// order: later siblings' primitives come after earlier ones.
pub open spec fn spec_draw_children(cs: Seq<Drawable2D>, s: TransformModel) -> Seq<DrawNodeModel>
    decreases cs,
{
    if cs.len() == 0 {
        Seq::empty()
    } else {
        spec_draw_children(cs.drop_last(), s) + fold_nodes(spec_draw(cs.last()), s)
    }
}

/// Whether every fold the subtree's `draw` performs stays representable.
pub open spec fn spec_draw_ok(d: Drawable2D) -> bool
    decreases d,
{
    match d {
        Drawable2D::Quad(_) => true,
        Drawable2D::Simple(c) => spec_draw_children_ok(
            c.state.children@,
            c.state.drawable_transform@,
        ),
        Drawable2D::Text(t) => spec_draw_children_ok(
            t.state.children@,
            t.state.drawable_transform@,
        ),
    }
}

/// Whether folding `s` into every primitive of every child stays
/// representable, recursively.
pub open spec fn spec_draw_children_ok(cs: Seq<Drawable2D>, s: TransformModel) -> bool
    decreases cs,
{
    if cs.len() == 0 {
        true
    } else {
        &&& spec_draw_children_ok(cs.drop_last(), s)
        &&& spec_draw_ok(cs.last())
        &&& forall|i: int|
            0 <= i < spec_draw(cs.last()).len() ==> fold_node_ok(spec_draw(cs.last())[i], s)
    }
}

/// What `spec_draw_children_ok` guarantees for each child by index.
proof fn lemma_children_ok_index(cs: Seq<Drawable2D>, s: TransformModel, ci: int)
    requires
        spec_draw_children_ok(cs, s),
        0 <= ci < cs.len(),
    ensures
        spec_draw_ok(cs[ci]),
        forall|i: int| 0 <= i < spec_draw(cs[ci]).len() ==> fold_node_ok(spec_draw(cs[ci])[i], s),
    decreases cs,
{
    if ci == cs.len() - 1 {
        assert(cs.last() == cs[ci]);
    } else {
        lemma_children_ok_index(cs.drop_last(), s, ci);
        assert(cs.drop_last()[ci] == cs[ci]);
    }
}

// ---------------------------------------------------------------------------
// The executable fold.
// ---------------------------------------------------------------------------
/// Anchor resolution on a stored transform: the origin offset on the
/// relative position first, then the alignment shift against the box's own
/// sizes, exactly as `resolve_anchors` describes.
pub fn process_anchors(transform: &mut TransformState2D)
    requires
        resolve_anchors_ok(old(transform)@),
    ensures
        final(transform)@ == resolve_anchors(old(transform)@),
{
    if transform.origin.intersects(Anchor::x1()) {
        transform.rel_pos.x = transform.rel_pos.x + HALF;
    } else if transform.origin.intersects(Anchor::x2()) {
        transform.rel_pos.x = transform.rel_pos.x + SCALE;
    }
    if transform.origin.intersects(Anchor::y1()) {
        transform.rel_pos.y = transform.rel_pos.y + HALF;
    } else if transform.origin.intersects(Anchor::y2()) {
        transform.rel_pos.y = transform.rel_pos.y + SCALE;
    }
    if transform.alignment.intersects(Anchor::x1()) {
        transform.abs_pos.x = transform.abs_pos.x - half_i64(transform.abs_size.x);
        transform.rel_pos.x = transform.rel_pos.x - half_i64(transform.rel_size.x);
    } else if transform.alignment.intersects(Anchor::x2()) {
        transform.abs_pos.x = transform.abs_pos.x - transform.abs_size.x;
        transform.rel_pos.x = transform.rel_pos.x - transform.rel_size.x;
    }
    if transform.alignment.intersects(Anchor::y1()) {
        transform.abs_pos.y = transform.abs_pos.y - half_i64(transform.abs_size.y);
        transform.rel_pos.y = transform.rel_pos.y - half_i64(transform.rel_size.y);
    } else if transform.alignment.intersects(Anchor::y2()) {
        transform.abs_pos.y = transform.abs_pos.y - transform.abs_size.y;
        transform.rel_pos.y = transform.rel_pos.y - transform.rel_size.y;
    }
}

/// One full fold of the parent geometry `s` into one primitive: size merge
/// for Quads, anchor resolution, position merge.
fn fold_node_exec(node: &mut DrawNode2D, s: &TransformState2D)
    requires
        fold_node_ok(old(node)@, s@),
    ensures
        final(node)@ == fold_node(old(node)@, s@),
{
    match node {
        DrawNode2D::Quad(quad) => {
            quad.quad.abs_size.x = quad.quad.abs_size.x + mul_frac_i64(
                quad.quad.rel_size.x,
                s.abs_size.x,
            );
            quad.quad.abs_size.y = quad.quad.abs_size.y + mul_frac_i64(
                quad.quad.rel_size.y,
                s.abs_size.y,
            );
            quad.quad.rel_size = s.rel_size;
            process_anchors(&mut quad.quad);
            quad.quad.abs_pos.x = quad.quad.abs_pos.x + mul_frac_i64(
                quad.quad.rel_pos.x,
                s.abs_size.x,
            );
            quad.quad.abs_pos.y = quad.quad.abs_pos.y + mul_frac_i64(
                quad.quad.rel_pos.y,
                s.abs_size.y,
            );
            quad.quad.rel_pos = s.rel_pos;
            quad.quad.abs_pos.x = quad.quad.abs_pos.x + s.abs_pos.x;
            quad.quad.abs_pos.y = quad.quad.abs_pos.y + s.abs_pos.y;
        },
        DrawNode2D::Text(text) => {
            process_anchors(&mut text.transform);
            text.transform.abs_pos.x = text.transform.abs_pos.x + mul_frac_i64(
                text.transform.rel_pos.x,
                s.abs_size.x,
            );
            text.transform.abs_pos.y = text.transform.abs_pos.y + mul_frac_i64(
                text.transform.rel_pos.y,
                s.abs_size.y,
            );
            text.transform.rel_pos = s.rel_pos;
            text.transform.abs_pos.x = text.transform.abs_pos.x + s.abs_pos.x;
            text.transform.abs_pos.y = text.transform.abs_pos.y + s.abs_pos.y;
        },
    }
}

/// The default draw behavior, shared by every non-Quad kind: collects each
/// child's primitives, folds this node's own geometry into each, and
/// concatenates the folded lists in child order.
fn draw_container(state: &DrawableState2D) -> (r: Option<Vec<DrawNode2D>>)
    requires
        spec_draw_children_ok(state.children@, state.drawable_transform@),
    ensures
        r is Some,
        r->0.deep_view() == spec_draw_children(state.children@, state.drawable_transform@),
    decreases *state,
{
    let ghost s = state.drawable_transform@;
    let mut nodes: Vec<DrawNode2D> = Vec::new();
    let self_state = &state.drawable_transform;
    let num_children = state.children.len();
    let mut ci: usize = 0;
    while ci < num_children
        invariant
            num_children == state.children@.len(),
            ci <= num_children,
            spec_draw_children_ok(state.children@, s),
            s == state.drawable_transform@,
            self_state == &state.drawable_transform,
            nodes.deep_view() == spec_draw_children(state.children@.take(ci as int), s),
        decreases num_children - ci,
    {
        proof {
            lemma_children_ok_index(state.children@, s, ci as int);
            assert(decreases_to!(*state => state.children@[ci as int]));
        }
        let child = &state.children[ci];
        let result = child.draw();
        let mut new_nodes = match result {
            Some(v) => v,
            None => vstd::pervasive::unreached(),
        };
        let ghost orig = new_nodes.deep_view();
        let num_nodes = new_nodes.len();
        let mut ni: usize = 0;
        while ni < num_nodes
            invariant
                num_nodes == new_nodes@.len(),
                ni <= num_nodes,
                s == self_state@,
                orig.len() == num_nodes,
                forall|k: int| 0 <= k < ni ==> new_nodes@[k]@ == fold_node(orig[k], s),
                forall|k: int| ni <= k < num_nodes ==> new_nodes@[k]@ == orig[k],
                forall|k: int| 0 <= k < num_nodes ==> fold_node_ok(orig[k], s),
            decreases num_nodes - ni,
        {
            proof {
                assert(new_nodes@[ni as int]@ == orig[ni as int]);
                assert(fold_node_ok(orig[ni as int], s));
            }
            fold_node_exec(&mut new_nodes[ni], self_state);
            ni = ni + 1;
        }
        proof {
            assert(new_nodes.deep_view() =~= fold_nodes(orig, s));
            assert(state.children@.take(ci as int + 1).drop_last() =~= state.children@.take(
                ci as int,
            ));
            assert(state.children@.take(ci as int + 1).last() == state.children@[ci as int]);
        }
        nodes.append(&mut new_nodes);
        proof {
            assert(nodes.deep_view() =~= spec_draw_children(
                state.children@.take(ci as int + 1),
                s,
            ));
        }
        ci = ci + 1;
    }
    proof {
        assert(state.children@.take(num_children as int) =~= state.children@);
    }
    Some(nodes)
}

/// Anchor resolution that reports instead of demanding: `false` exactly
/// when some stored scalar would not be representable, in which case the
/// transform may be left partly resolved.
fn process_anchors_checked(transform: &mut TransformState2D) -> (ok: bool)
    ensures
        ok == resolve_anchors_ok(old(transform)@),
        ok ==> final(transform)@ == resolve_anchors(old(transform)@),
{
    if transform.origin.intersects(Anchor::x1()) {
        match transform.rel_pos.x.checked_add(HALF) {
            Some(v) => transform.rel_pos.x = v,
            None => {
                return false;
            },
        }
    } else if transform.origin.intersects(Anchor::x2()) {
        match transform.rel_pos.x.checked_add(SCALE) {
            Some(v) => transform.rel_pos.x = v,
            None => {
                return false;
            },
        }
    }
    if transform.origin.intersects(Anchor::y1()) {
        match transform.rel_pos.y.checked_add(HALF) {
            Some(v) => transform.rel_pos.y = v,
            None => {
                return false;
            },
        }
    } else if transform.origin.intersects(Anchor::y2()) {
        match transform.rel_pos.y.checked_add(SCALE) {
            Some(v) => transform.rel_pos.y = v,
            None => {
                return false;
            },
        }
    }
    if transform.alignment.intersects(Anchor::x1()) {
        match transform.abs_pos.x.checked_sub(half_i64(transform.abs_size.x)) {
            Some(v) => transform.abs_pos.x = v,
            None => {
                return false;
            },
        }
        match transform.rel_pos.x.checked_sub(half_i64(transform.rel_size.x)) {
            Some(v) => transform.rel_pos.x = v,
            None => {
                return false;
            },
        }
    } else if transform.alignment.intersects(Anchor::x2()) {
        match transform.abs_pos.x.checked_sub(transform.abs_size.x) {
            Some(v) => transform.abs_pos.x = v,
            None => {
                return false;
            },
        }
        match transform.rel_pos.x.checked_sub(transform.rel_size.x) {
            Some(v) => transform.rel_pos.x = v,
            None => {
                return false;
            },
        }
    }
    if transform.alignment.intersects(Anchor::y1()) {
        match transform.abs_pos.y.checked_sub(half_i64(transform.abs_size.y)) {
            Some(v) => transform.abs_pos.y = v,
            None => {
                return false;
            },
        }
        match transform.rel_pos.y.checked_sub(half_i64(transform.rel_size.y)) {
            Some(v) => transform.rel_pos.y = v,
            None => {
                return false;
            },
        }
    } else if transform.alignment.intersects(Anchor::y2()) {
        match transform.abs_pos.y.checked_sub(transform.abs_size.y) {
            Some(v) => transform.abs_pos.y = v,
            None => {
                return false;
            },
        }
        match transform.rel_pos.y.checked_sub(transform.rel_size.y) {
            Some(v) => transform.rel_pos.y = v,
            None => {
                return false;
            },
        }
    }
    true
}

/// One full fold that reports instead of demanding: `false` exactly when
/// some stored scalar of the fold would not be representable; the
/// primitive may then be left partly folded and should be discarded.
fn fold_node_checked(node: &mut DrawNode2D, s: &TransformState2D) -> (ok: bool)
    ensures
        ok == fold_node_ok(old(node)@, s@),
        ok ==> final(node)@ == fold_node(old(node)@, s@),
{
    let transform: &mut TransformState2D = match node {
        DrawNode2D::Quad(quad) => {
            let mx = match mul_frac_checked(quad.quad.rel_size.x, s.abs_size.x) {
                Some(v) => v,
                None => {
                    return false;
                },
            };
            let my = match mul_frac_checked(quad.quad.rel_size.y, s.abs_size.y) {
                Some(v) => v,
                None => {
                    return false;
                },
            };
            let ax = match quad.quad.abs_size.x.checked_add(mx) {
                Some(v) => v,
                None => {
                    return false;
                },
            };
            let ay = match quad.quad.abs_size.y.checked_add(my) {
                Some(v) => v,
                None => {
                    return false;
                },
            };
            quad.quad.abs_size.x = ax;
            quad.quad.abs_size.y = ay;
            quad.quad.rel_size = s.rel_size;
            &mut quad.quad
        },
        DrawNode2D::Text(text) => &mut text.transform,
    };
    if !process_anchors_checked(transform) {
        return false;
    }
    let px = match mul_frac_checked(transform.rel_pos.x, s.abs_size.x) {
        Some(v) => v,
        None => {
            return false;
        },
    };
    let py = match mul_frac_checked(transform.rel_pos.y, s.abs_size.y) {
        Some(v) => v,
        None => {
            return false;
        },
    };
    let ax = match transform.abs_pos.x.checked_add(px) {
        Some(v) => v,
        None => {
            return false;
        },
    };
    let ay = match transform.abs_pos.y.checked_add(py) {
        Some(v) => v,
        None => {
            return false;
        },
    };
    let fx = match ax.checked_add(s.abs_pos.x) {
        Some(v) => v,
        None => {
            return false;
        },
    };
    let fy = match ay.checked_add(s.abs_pos.y) {
        Some(v) => v,
        None => {
            return false;
        },
    };
    transform.abs_pos.x = fx;
    transform.abs_pos.y = fy;
    transform.rel_pos = s.rel_pos;
    true
}

/// The default draw behavior with the in-range demand turned into a
/// result: `None` exactly when some fold would leave the scalar range.
fn draw_container_checked(state: &DrawableState2D) -> (r: Option<Vec<DrawNode2D>>)
    ensures
        r is Some <==> spec_draw_children_ok(state.children@, state.drawable_transform@),
        r is Some ==> r->0.deep_view() == spec_draw_children(
            state.children@,
            state.drawable_transform@,
        ),
    decreases *state,
{
    let ghost s = state.drawable_transform@;
    let mut nodes: Vec<DrawNode2D> = Vec::new();
    let self_state = &state.drawable_transform;
    let num_children = state.children.len();
    let mut ci: usize = 0;
    while ci < num_children
        invariant
            num_children == state.children@.len(),
            ci <= num_children,
            s == state.drawable_transform@,
            self_state == &state.drawable_transform,
            spec_draw_children_ok(state.children@.take(ci as int), s),
            nodes.deep_view() == spec_draw_children(state.children@.take(ci as int), s),
        decreases num_children - ci,
    {
        proof {
            assert(decreases_to!(*state => state.children@[ci as int]));
        }
        let child = &state.children[ci];
        let result = child.draw_checked();
        let mut new_nodes = match result {
            Some(v) => v,
            None => {
                proof {
                    if spec_draw_children_ok(state.children@, s) {
                        lemma_children_ok_index(state.children@, s, ci as int);
                        assert(*child == state.children@[ci as int]);
                        assert(spec_draw_ok(*child));
                        assert(false);
                    }
                }
                return None;
            },
        };
        let ghost orig = new_nodes.deep_view();
        let num_nodes = new_nodes.len();
        let mut ni: usize = 0;
        while ni < num_nodes
            invariant
                num_nodes == new_nodes@.len(),
                ni <= num_nodes,
                ci < num_children,
                num_children == state.children@.len(),
                s == self_state@,
                s == state.drawable_transform@,
                orig.len() == num_nodes,
                orig == spec_draw(state.children@[ci as int]),
                forall|k: int|
                    0 <= k < ni ==> new_nodes@[k]@ == fold_node(orig[k], s) && fold_node_ok(
                        orig[k],
                        s,
                    ),
                forall|k: int| ni <= k < num_nodes ==> new_nodes@[k]@ == orig[k],
            decreases num_nodes - ni,
        {
            proof {
                assert(new_nodes@[ni as int]@ == orig[ni as int]);
            }
            let ok = fold_node_checked(&mut new_nodes[ni], self_state);
            if !ok {
                proof {
                    if spec_draw_children_ok(state.children@, s) {
                        lemma_children_ok_index(state.children@, s, ci as int);
                        assert(orig[ni as int] == spec_draw(state.children@[ci as int])[ni as int]);
                        assert(fold_node_ok(
                            spec_draw(state.children@[ci as int])[ni as int],
                            s,
                        ));
                        assert(false);
                    }
                }
                return None;
            }
            ni = ni + 1;
        }
        proof {
            assert(new_nodes.deep_view() =~= fold_nodes(orig, s));
            assert(state.children@.take(ci as int + 1).drop_last() =~= state.children@.take(
                ci as int,
            ));
            assert(state.children@.take(ci as int + 1).last() == state.children@[ci as int]);
        }
        nodes.append(&mut new_nodes);
        proof {
            assert(nodes.deep_view() =~= spec_draw_children(
                state.children@.take(ci as int + 1),
                s,
            ));
            assert(spec_draw_children_ok(state.children@.take(ci as int + 1), s));
        }
        ci = ci + 1;
    }
    proof {
        assert(state.children@.take(num_children as int) =~= state.children@);
    }
    Some(nodes)
}

// ---------------------------------------------------------------------------
// Laws of the composition.
// ---------------------------------------------------------------------------
/// Relative geometry is consumed at every node boundary: each primitive a
/// container emits carries the container's own relative position, and each
/// Quad primitive also carries the container's relative size (Text bounds
/// are intrinsic and never size-merged).
pub proof fn lemma_children_rel_resolved(cs: Seq<Drawable2D>, s: TransformModel, i: int)
    requires
        0 <= i < spec_draw_children(cs, s).len(),
    ensures
        node_transform(spec_draw_children(cs, s)[i]).rel_pos == s.rel_pos,
        spec_draw_children(cs, s)[i] is Quad ==> node_transform(
            spec_draw_children(cs, s)[i],
        ).rel_size == s.rel_size,
    decreases cs,
{
    let pre = spec_draw_children(cs.drop_last(), s);
    if i < pre.len() {
        lemma_children_rel_resolved(cs.drop_last(), s, i);
    } else {
        let folded = fold_nodes(spec_draw(cs.last()), s);
        assert(spec_draw_children(cs, s)[i] == folded[i - pre.len()]);
        assert(folded[i - pre.len()] == fold_node(spec_draw(cs.last())[i - pre.len()], s));
    }
}

/// Pure-absolute root convergence: a root container whose own relative
/// position and size are zero emits fully resolved primitives — every
/// primitive's relative position is zero, and every Quad primitive's
/// relative size is zero as well.
pub proof fn lemma_pure_absolute_root_convergence(d: Drawable2D, i: int)
    requires
        !(d is Quad),
        d.spec_state().drawable_transform@.rel_pos == (Vec2Model { x: 0, y: 0 }),
        d.spec_state().drawable_transform@.rel_size == (Vec2Model { x: 0, y: 0 }),
        0 <= i < spec_draw(d).len(),
    ensures
        node_transform(spec_draw(d)[i]).rel_pos == (Vec2Model { x: 0, y: 0 }),
        spec_draw(d)[i] is Quad ==> node_transform(spec_draw(d)[i]).rel_size == (Vec2Model {
            x: 0,
            y: 0,
        }),
{
    match d {
        Drawable2D::Simple(c) => lemma_children_rel_resolved(
            c.state.children@,
            c.state.drawable_transform@,
            i,
        ),
        Drawable2D::Text(t) => lemma_children_rel_resolved(
            t.state.children@,
            t.state.drawable_transform@,
            i,
        ),
        Drawable2D::Quad(_) => {},
    }
}

/// Origin offset: with a centered origin (`Y1|X1`) the anchor step adds
/// one half to each relative coordinate, before and regardless of any
/// alignment adjustment.
pub proof fn lemma_origin_offset(t: TransformModel)
    requires
        t.origin.has(AnchorBit::X1),
        t.origin.has(AnchorBit::Y1),
    ensures
        apply_origin(t).rel_pos.x == t.rel_pos.x + HALF,
        apply_origin(t).rel_pos.y == t.rel_pos.y + HALF,
        resolve_anchors(t) == apply_alignment(apply_origin(t)),
{
}

/// Paint order: in a container's output, child `k`'s folded primitives
/// form the next contiguous block after the primitives of children `0..k`,
/// so a later sibling's primitives always appear after an earlier
/// sibling's.
pub proof fn lemma_paint_order(cs: Seq<Drawable2D>, s: TransformModel, k: int)
    requires
        0 <= k < cs.len(),
    ensures
        spec_draw_children(cs.take(k + 1), s) == spec_draw_children(cs.take(k), s) + fold_nodes(
            spec_draw(cs[k]),
            s,
        ),
{
    assert(cs.take(k + 1).drop_last() =~= cs.take(k));
    assert(cs.take(k + 1).last() == cs[k]);
}

/// A Quad leaf's own primitive is all it produces: exactly one primitive,
/// whatever children are attached to it.
pub proof fn lemma_leaf_children_ignored(b: Box2D)
    ensures
        spec_draw(Drawable2D::Quad(b)).len() == 1,
        spec_draw(Drawable2D::Quad(b))[0] == b.spec_node(),
{
}

/// An empty tree is not an error: a container with no children draws the
/// empty primitive list.
pub proof fn lemma_empty_tree(d: Drawable2D)
    requires
        !(d is Quad),
        d.spec_state().children@.len() == 0,
    ensures
        spec_draw(d) == Seq::<DrawNodeModel>::empty(),
{
}

/// The plain container: a pure layout/grouping node that emits no
/// primitive of its own.  Its fresh value comes with one full-bleed
/// translucent gray background quad as a usability default.
pub struct SimpleDrawable2D {
    pub state: DrawableState2D,
}

impl SimpleDrawable2D {
    /// A fresh container with the stock background child: a quad sized to
    /// the whole container (relative size one by one) painted a translucent
    /// gray.
    pub fn new(counter: &mut IdCounter) -> (d: SimpleDrawable2D)
        requires
            old(counter).wf(),
            old(counter).issued_ids().len() + 2 <= u64::MAX,
        ensures
            final(counter).wf(),
            d.state.spec_id().0 == old(counter).issued_ids().len(),
            d.state.drawable_transform == crate::drawable_state_2d::default_transform(),
            d.state.spec_dirty(),
            d.state.children@.len() == 1,
            d.state.children@[0] is Quad,
            d.state.children@[0]->Quad_0.color == (Color { r: 100, g: 100, b: 100, a: 50 }),
            d.state.children@[0]->Quad_0.state.drawable_transform == (TransformState2D {
                rel_size: (Vec2 { x: crate::fixed::SCALE, y: crate::fixed::SCALE }),
                ..crate::drawable_state_2d::default_transform()
            }),
            d.state.children@[0]->Quad_0.state.children@.len() == 0,
    {
        let mut state = DrawableState2D::new(counter);
        let mut b2d = Box2D::new(counter);
        b2d.set_color(Color::new(100, 100, 100, 50));
        b2d.state.set_rel_size(crate::fixed::SCALE, crate::fixed::SCALE);
        state.add_child(Drawable2D::Quad(b2d));
        SimpleDrawable2D { state }
    }

    pub fn get_state(&self) -> (s: &DrawableState2D)
        ensures
            *s == self.state,
    {
        &self.state
    }
}

/// A node of the scene graph: the closed set of node kinds.  All kinds
/// share the same `DrawableState2D`; they differ in what `draw` emits.
pub enum Drawable2D {
    /// A plain container: draws nothing itself, folds its children.
    Simple(SimpleDrawable2D),
    /// A Quad-producing leaf.
    Quad(Box2D),
    /// A Text-carrying node; composes like a container.
    Text(Text2D),
}

impl Drawable2D {
    /// The shared state of this node, whichever kind it is.
    pub open spec fn spec_state(self) -> DrawableState2D {
        match self {
            Drawable2D::Simple(c) => c.state,
            Drawable2D::Quad(b) => b.state,
            Drawable2D::Text(t) => t.state,
        }
    }

    /// The same node with its shared state replaced: the kind and the
    /// kind-specific payload (color, text, scale) are kept.
    pub open spec fn with_state(self, st: DrawableState2D) -> Drawable2D {
        match self {
            Drawable2D::Simple(_) => Drawable2D::Simple(SimpleDrawable2D { state: st }),
            Drawable2D::Quad(b) => Drawable2D::Quad(Box2D { state: st, color: b.color }),
            Drawable2D::Text(t) => Drawable2D::Text(
                Text2D { state: st, text: t.text, color: t.color, scale: t.scale },
            ),
        }
    }

    /// Borrows the shared state mutably; every geometry and child mutator
    /// goes through here.
    pub fn get_state(&mut self) -> (st: &mut DrawableState2D)
        ensures
            *st == old(self).spec_state(),
            *final(self) == old(self).with_state(*final(st)),
    {
        match self {
            Drawable2D::Simple(c) => &mut c.state,
            Drawable2D::Quad(b) => &mut b.state,
            Drawable2D::Text(t) => &mut t.state,
        }
    }

    pub fn get_id(&self) -> (d: DrawableId)
        ensures
            d == self.spec_state().spec_id(),
    {
        match self {
            Drawable2D::Simple(c) => c.state.get_id(),
            Drawable2D::Quad(b) => b.state.get_id(),
            Drawable2D::Text(t) => t.state.get_id(),
        }
    }

    pub fn is_dirty(&self) -> (d: bool)
        ensures
            d == self.spec_state().spec_dirty(),
    {
        match self {
            Drawable2D::Simple(c) => c.state.is_dirty(),
            Drawable2D::Quad(b) => b.state.is_dirty(),
            Drawable2D::Text(t) => t.state.is_dirty(),
        }
    }

    pub fn set_dirty(&mut self, dirty: bool)
        ensures
            *final(self) == old(self).with_state(final(self).spec_state()),
            final(self).spec_state().spec_dirty() == dirty,
            final(self).spec_state().spec_id() == old(self).spec_state().spec_id(),
            final(self).spec_state().drawable_transform == old(
                self,
            ).spec_state().drawable_transform,
            final(self).spec_state().children == old(self).spec_state().children,
    {
        self.get_state().set_dirty(dirty);
    }

    pub fn set_abs_pos(&mut self, x: i64, y: i64)
        ensures
            *final(self) == old(self).with_state(final(self).spec_state()),
            final(self).spec_state().drawable_transform == (TransformState2D {
                abs_pos: (Vec2 { x, y }),
                ..old(self).spec_state().drawable_transform
            }),
            final(self).spec_state().spec_dirty(),
            final(self).spec_state().spec_id() == old(self).spec_state().spec_id(),
            final(self).spec_state().children == old(self).spec_state().children,
    {
        self.get_state().set_abs_pos(x, y);
    }

    pub fn set_rel_pos(&mut self, x: i64, y: i64)
        ensures
            *final(self) == old(self).with_state(final(self).spec_state()),
            final(self).spec_state().drawable_transform == (TransformState2D {
                rel_pos: (Vec2 { x, y }),
                ..old(self).spec_state().drawable_transform
            }),
            final(self).spec_state().spec_dirty(),
            final(self).spec_state().spec_id() == old(self).spec_state().spec_id(),
            final(self).spec_state().children == old(self).spec_state().children,
    {
        self.get_state().set_rel_pos(x, y);
    }

    pub fn set_abs_size(&mut self, x: i64, y: i64)
        ensures
            *final(self) == old(self).with_state(final(self).spec_state()),
            final(self).spec_state().drawable_transform == (TransformState2D {
                abs_size: (Vec2 { x, y }),
                ..old(self).spec_state().drawable_transform
            }),
            final(self).spec_state().spec_dirty(),
            final(self).spec_state().spec_id() == old(self).spec_state().spec_id(),
            final(self).spec_state().children == old(self).spec_state().children,
    {
        self.get_state().set_abs_size(x, y);
    }

    pub fn set_rel_size(&mut self, x: i64, y: i64)
        ensures
            *final(self) == old(self).with_state(final(self).spec_state()),
            final(self).spec_state().drawable_transform == (TransformState2D {
                rel_size: (Vec2 { x, y }),
                ..old(self).spec_state().drawable_transform
            }),
            final(self).spec_state().spec_dirty(),
            final(self).spec_state().spec_id() == old(self).spec_state().spec_id(),
            final(self).spec_state().children == old(self).spec_state().children,
    {
        self.get_state().set_rel_size(x, y);
    }

    pub fn set_origin(&mut self, origin: Anchor)
        ensures
            *final(self) == old(self).with_state(final(self).spec_state()),
            final(self).spec_state().drawable_transform == (TransformState2D {
                origin,
                ..old(self).spec_state().drawable_transform
            }),
            final(self).spec_state().spec_dirty(),
            final(self).spec_state().spec_id() == old(self).spec_state().spec_id(),
            final(self).spec_state().children == old(self).spec_state().children,
    {
        self.get_state().set_origin(origin);
    }

    pub fn set_alignment(&mut self, alignment: Anchor)
        ensures
            *final(self) == old(self).with_state(final(self).spec_state()),
            final(self).spec_state().drawable_transform == (TransformState2D {
                alignment,
                ..old(self).spec_state().drawable_transform
            }),
            final(self).spec_state().spec_dirty(),
            final(self).spec_state().spec_id() == old(self).spec_state().spec_id(),
            final(self).spec_state().children == old(self).spec_state().children,
    {
        self.get_state().set_alignment(alignment);
    }

    pub fn get_transform_state(&self) -> (t: &TransformState2D)
        ensures
            *t == self.spec_state().drawable_transform,
    {
        match self {
            Drawable2D::Simple(c) => c.state.get_transform_state(),
            Drawable2D::Quad(b) => b.state.get_transform_state(),
            Drawable2D::Text(t) => t.state.get_transform_state(),
        }
    }

    /// Moves the child into this node; it will paint after (over) every
    /// existing child.
    pub fn add_child(&mut self, child: Drawable2D)
        ensures
            *final(self) == old(self).with_state(final(self).spec_state()),
            final(self).spec_state().children@ == old(self).spec_state().children@.push(
                child,
            ),
            final(self).spec_state().drawable_transform == old(
                self,
            ).spec_state().drawable_transform,
            final(self).spec_state().spec_dirty(),
            final(self).spec_state().spec_id() == old(self).spec_state().spec_id(),
    {
        self.get_state().add_child(child);
    }

    pub fn get_children(&self) -> (c: &Vec<Drawable2D>)
        ensures
            c@ == self.spec_state().children@,
    {
        match self {
            Drawable2D::Simple(c) => c.state.get_children(),
            Drawable2D::Quad(b) => b.state.get_children(),
            Drawable2D::Text(t) => t.state.get_children(),
        }
    }

    /// Resolves this subtree into a flat primitive list, in this node's own
    /// relative frame: exactly `spec_draw(*self)`.  A Quad leaf emits its
    /// own single primitive; every other kind folds its children's lists in
    /// child order and emits nothing of its own.  Never `None`.
    pub fn draw(&self) -> (r: Option<Vec<DrawNode2D>>)
        requires
            spec_draw_ok(*self),
        ensures
            r is Some,
            r->0.deep_view() == spec_draw(*self),
        decreases *self,
    {
        match self {
            Drawable2D::Quad(b) => b.draw(),
            Drawable2D::Simple(c) => {
                proof {
                    assert(decreases_to!(*self => c.state));
                }
                draw_container(&c.state)
            },
            Drawable2D::Text(t) => {
                proof {
                    assert(decreases_to!(*self => t.state));
                }
                draw_container(&t.state)
            },
        }
    }

    /// `draw` with the in-range demand turned into a result: `Some` with
    /// exactly `spec_draw(*self)` when every fold of the resolution stays
    /// within the scalar type, `None` otherwise — so a host need not
    /// establish `spec_draw_ok` itself.
    pub fn draw_checked(&self) -> (r: Option<Vec<DrawNode2D>>)
        ensures
            r is Some <==> spec_draw_ok(*self),
            r is Some ==> r->0.deep_view() == spec_draw(*self),
        decreases *self,
    {
        match self {
            Drawable2D::Quad(b) => b.draw(),
            Drawable2D::Simple(c) => {
                proof {
                    assert(decreases_to!(*self => c.state));
                }
                draw_container_checked(&c.state)
            },
            Drawable2D::Text(t) => {
                proof {
                    assert(decreases_to!(*self => t.state));
                }
                draw_container_checked(&t.state)
            },
        }
    }

    /// The per-frame hook: recursively visits every child.  There is no
    /// per-frame logic yet, so the traversal reads the tree and changes
    /// nothing, which the shared borrow guarantees.
    pub fn update(&self)
        decreases *self,
    {
        let children = self.get_children();
        let n = children.len();
        let mut i: usize = 0;
        while i < n
            invariant
                n == children@.len(),
                i <= n,
                children@ == self.spec_state().children@,
            decreases n - i,
        {
            proof {
                assert(decreases_to!(*self => children@[i as int]));
            }
            children[i].update();
            i = i + 1;
        }
    }
}

} // verus!
