use crate::color::Color;
use crate::drawable_2d::Drawable2D;
use vstd::prelude::*;

verus! {

/// The individual axis bits an anchor is assembled from: three vertical
/// classes (`Y0` top, `Y1` center, `Y2` bottom) and three horizontal classes
/// (`X0` left, `X1` center, `X2` right).
pub struct AnchorBit {}

impl AnchorBit {
    /// Vertical: top.
    pub const Y0: u32 = 1;

    /// Vertical: center.
    pub const Y1: u32 = 2;

    /// Vertical: bottom.
    pub const Y2: u32 = 4;

    /// Horizontal: left.
    pub const X0: u32 = 8;

    /// Horizontal: center.
    pub const X1: u32 = 16;

    /// Horizontal: right.
    pub const X2: u32 = 32;
}

/// A reference point: a set of axis bits.  OR-ing one vertical and one
/// horizontal bit yields one of the nine named presets.  Presence of a bit
/// is tested by intersection, not equality, so several bits can coexist;
/// callers are expected to set at most one bit per axis, and the anchor
/// resolution applies the first matching class per axis (center before
/// bottom/right) when they do not.
#[derive(Clone, Copy, Debug, PartialEq, Eq, Structural)]
pub struct Anchor {
    pub bits: u32,
}

impl Anchor {
    /// An anchor from raw axis bits.
    pub fn new(bits: u32) -> (a: Anchor)
        ensures
            a.bits == bits,
    {
        Anchor { bits }
    }

    /// Vertical top bit alone.
    pub fn y0() -> (a: Anchor)
        ensures
            a.bits == AnchorBit::Y0,
    {
        Anchor { bits: AnchorBit::Y0 }
    }

    /// Vertical center bit alone.
    pub fn y1() -> (a: Anchor)
        ensures
            a.bits == AnchorBit::Y1,
    {
        Anchor { bits: AnchorBit::Y1 }
    }

    /// Vertical bottom bit alone.
    pub fn y2() -> (a: Anchor)
        ensures
            a.bits == AnchorBit::Y2,
    {
        Anchor { bits: AnchorBit::Y2 }
    }

    /// Horizontal left bit alone.
    pub fn x0() -> (a: Anchor)
        ensures
            a.bits == AnchorBit::X0,
    {
        Anchor { bits: AnchorBit::X0 }
    }

    /// Horizontal center bit alone.
    pub fn x1() -> (a: Anchor)
        ensures
            a.bits == AnchorBit::X1,
    {
        Anchor { bits: AnchorBit::X1 }
    }

    /// Horizontal right bit alone.
    pub fn x2() -> (a: Anchor)
        ensures
            a.bits == AnchorBit::X2,
    {
        Anchor { bits: AnchorBit::X2 }
    }

    pub fn top_left() -> (a: Anchor)
        ensures
            a.bits == AnchorBit::Y0 | AnchorBit::X0,
    {
        Anchor { bits: AnchorBit::Y0 | AnchorBit::X0 }
    }

    pub fn top_centre() -> (a: Anchor)
        ensures
            a.bits == AnchorBit::Y0 | AnchorBit::X1,
    {
        Anchor { bits: AnchorBit::Y0 | AnchorBit::X1 }
    }

    pub fn top_right() -> (a: Anchor)
        ensures
            a.bits == AnchorBit::Y0 | AnchorBit::X2,
    {
        Anchor { bits: AnchorBit::Y0 | AnchorBit::X2 }
    }

    pub fn centre_left() -> (a: Anchor)
        ensures
            a.bits == AnchorBit::Y1 | AnchorBit::X0,
    {
        Anchor { bits: AnchorBit::Y1 | AnchorBit::X0 }
    }

    pub fn centre() -> (a: Anchor)
        ensures
            a.bits == AnchorBit::Y1 | AnchorBit::X1,
    {
        Anchor { bits: AnchorBit::Y1 | AnchorBit::X1 }
    }

    pub fn centre_right() -> (a: Anchor)
        ensures
            a.bits == AnchorBit::Y1 | AnchorBit::X2,
    {
        Anchor { bits: AnchorBit::Y1 | AnchorBit::X2 }
    }

    pub fn bottom_left() -> (a: Anchor)
        ensures
            a.bits == AnchorBit::Y2 | AnchorBit::X0,
    {
        Anchor { bits: AnchorBit::Y2 | AnchorBit::X0 }
    }

    pub fn bottom_centre() -> (a: Anchor)
        ensures
            a.bits == AnchorBit::Y2 | AnchorBit::X1,
    {
        Anchor { bits: AnchorBit::Y2 | AnchorBit::X1 }
    }

    pub fn bottom_right() -> (a: Anchor)
        ensures
            a.bits == AnchorBit::Y2 | AnchorBit::X2,
    {
        Anchor { bits: AnchorBit::Y2 | AnchorBit::X2 }
    }

    /// Whether this anchor has the given axis bit set.
    pub open spec fn has(self, bit: u32) -> bool {
        self.bits & bit != 0
    }

    /// Whether the two anchors share at least one bit.
    pub fn intersects(&self, other: Anchor) -> (r: bool)
        ensures
            r == (self.bits & other.bits != 0),
    {
        self.bits & other.bits != 0
    }
}

/// An opaque node identifier: unique per counter, assigned at node-state
/// construction, never reused, never mutated.  Used only for equality
/// checks, such as a renderer verifying it is driven with the root it was
/// built for.
#[derive(Clone, Copy, Debug, Hash, PartialEq, Eq, Structural)]
pub struct DrawableId(pub u64);

impl DrawableId {
    /// A placeholder identifier for contexts where no node exists yet.
    pub fn dummy() -> (d: DrawableId)
        ensures
            d.0 == 0,
    {
        DrawableId(0)
    }
}

/// Issues node identifiers: a monotonically increasing counter together
/// with the ghost history of every identifier it has handed out.  The host
/// owns one counter for the lifetime of the process and threads it through
/// node construction; identifiers from one counter are pairwise distinct
/// and strictly increasing in creation order.
pub struct IdCounter {
    count: u64,
    issued: Ghost<Seq<u64>>,
}

impl IdCounter {
    /// The identifiers handed out so far, in creation order.
    pub closed spec fn issued_ids(self) -> Seq<u64> {
        self.issued@
    }

    /// The counter's invariant: it has issued exactly the values below
    /// `count`, in increasing order.
    pub closed spec fn wf(self) -> bool {
        &&& self.issued@.len() == self.count
        &&& forall|i: int| 0 <= i < self.issued@.len() ==> self.issued@[i] == i
    }

    pub fn new() -> (c: IdCounter)
        ensures
            c.wf(),
            c.issued_ids() == Seq::<u64>::empty(),
    {
        IdCounter { count: 0, issued: Ghost(Seq::empty()) }
    }

    /// Hands out the next identifier: strictly greater than every
    /// identifier issued before it.
    pub fn next_id(&mut self) -> (d: DrawableId)
        requires
            old(self).wf(),
            old(self).issued_ids().len() < u64::MAX,
        ensures
            final(self).wf(),
            d.0 == old(self).issued_ids().len(),
            final(self).issued_ids() == old(self).issued_ids().push(d.0),
    {
        let id = self.count;
        self.count = self.count + 1;
        proof {
            self.issued@ = self.issued@.push(id);
        }
        DrawableId(id)
    }
}

/// Identifier uniqueness: all identifiers issued by one counter are
/// pairwise distinct, and strictly increasing in creation order.
pub proof fn lemma_identifier_uniqueness(c: IdCounter)
    requires
        c.wf(),
    ensures
        forall|i: int, j: int|
            0 <= i < j < c.issued_ids().len() ==> c.issued_ids()[i] < c.issued_ids()[j],
{
}

/// A 2D vector of fixed-point scalars.
#[derive(Clone, Copy, Debug, PartialEq, Eq, Structural)]
pub struct Vec2 {
    pub x: i64,
    pub y: i64,
}

impl Vec2 {
    pub fn new(x: i64, y: i64) -> (v: Vec2)
        ensures
            v.x == x,
            v.y == y,
    {
        Vec2 { x, y }
    }
}

/// The mathematical value of a `Vec2`: the same pair over unbounded
/// integers, so the composition algorithm can be specified without any
/// overflow concern.
#[verifier::ext_equal]
pub struct Vec2Model {
    pub x: int,
    pub y: int,
}

impl View for Vec2 {
    type V = Vec2Model;

    open spec fn view(&self) -> Vec2Model {
        Vec2Model { x: self.x as int, y: self.y as int }
    }
}

/// Per-node geometry: a quad with both absolute and relative sizing and
/// positioning, plus the origin anchor (which point within the box the
/// position describes) and the alignment anchor (how the box is shifted so
/// that point lands on the computed position).
#[derive(Clone, Copy, Debug, PartialEq, Eq, Structural)]
pub struct TransformState2D {
    pub abs_pos: Vec2,
    pub rel_pos: Vec2,
    pub abs_size: Vec2,
    pub rel_size: Vec2,
    pub origin: Anchor,
    pub alignment: Anchor,
}

impl TransformState2D {
    /// The default geometry: everything zero, anchored top-left.
    pub fn new() -> (t: TransformState2D)
        ensures
            t == default_transform(),
    {
        TransformState2D {
            abs_pos: Vec2::new(0, 0),
            rel_pos: Vec2::new(0, 0),
            abs_size: Vec2::new(0, 0),
            rel_size: Vec2::new(0, 0),
            origin: Anchor::top_left(),
            alignment: Anchor::top_left(),
        }
    }
}

/// The mathematical value of a `TransformState2D`, over unbounded integers.
#[verifier::ext_equal]
pub struct TransformModel {
    pub abs_pos: Vec2Model,
    pub rel_pos: Vec2Model,
    pub abs_size: Vec2Model,
    pub rel_size: Vec2Model,
    pub origin: Anchor,
    pub alignment: Anchor,
}

impl View for TransformState2D {
    type V = TransformModel;

    open spec fn view(&self) -> TransformModel {
        TransformModel {
            abs_pos: self.abs_pos@,
            rel_pos: self.rel_pos@,
            abs_size: self.abs_size@,
            rel_size: self.rel_size@,
            origin: self.origin,
            alignment: self.alignment,
        }
    }
}

/// A resolved Quad draw primitive: geometry plus paint color.
#[derive(Clone, Debug, PartialEq)]
pub struct QuadDrawNode2D {
    pub quad: TransformState2D,
    pub color: Color,
}

/// A resolved Text draw primitive: geometry plus the text content, its
/// scale, paint color and text alignment.  Its bounds are intrinsic, so the
/// composition never merges sizes into it.
#[derive(Clone, Debug, PartialEq)]
pub struct TextDrawNode2D {
    pub transform: TransformState2D,
    pub text: String,
    pub scale: i64,
    pub color: Color,
    pub alignment: Anchor,
}

/// A draw primitive, the output of composition: consumed by a renderer,
/// never stored in the tree.
#[derive(Clone, Debug, PartialEq)]
pub enum DrawNode2D {
    Quad(QuadDrawNode2D),
    Text(TextDrawNode2D),
}

/// The mathematical value of a Quad primitive.
#[verifier::ext_equal]
pub struct QuadNodeModel {
    pub quad: TransformModel,
    pub color: Color,
}

/// The mathematical value of a Text primitive.
#[verifier::ext_equal]
pub struct TextNodeModel {
    pub transform: TransformModel,
    pub text: Seq<char>,
    pub scale: int,
    pub color: Color,
    pub alignment: Anchor,
}

/// The mathematical value of a draw primitive.
#[verifier::ext_equal]
pub enum DrawNodeModel {
    Quad(QuadNodeModel),
    Text(TextNodeModel),
}

impl View for DrawNode2D {
    type V = DrawNodeModel;

    open spec fn view(&self) -> DrawNodeModel {
        match *self {
            DrawNode2D::Quad(q) => DrawNodeModel::Quad(QuadNodeModel { quad: q.quad@, color: q.color }),
            DrawNode2D::Text(t) => DrawNodeModel::Text(
                TextNodeModel {
                    transform: t.transform@,
                    text: t.text@,
                    scale: t.scale as int,
                    color: t.color,
                    alignment: t.alignment,
                },
            ),
        }
    }
}

impl DeepView for DrawNode2D {
    type V = DrawNodeModel;

    open spec fn deep_view(&self) -> DrawNodeModel {
        self.view()
    }
}

/// The geometry carried by a primitive, whichever variant it is.
pub open spec fn node_transform(n: DrawNodeModel) -> TransformModel {
    match n {
        DrawNodeModel::Quad(q) => q.quad,
        DrawNodeModel::Text(t) => t.transform,
    }
}

/// The state every node kind shares: geometry, identity, the ordered list
/// of exclusively-owned children (insertion order is paint order), and the
/// advisory dirty flag set on every mutation.
pub struct DrawableState2D {
    pub id: DrawableId,
    pub drawable_transform: TransformState2D,
    pub children: Vec<Drawable2D>,
    pub dirty: bool,
}

impl DrawableState2D {
    /// This node's identifier.
    pub open spec fn spec_id(self) -> DrawableId {
        self.id
    }

    /// The advisory dirty flag.  Set by every mutator; never consulted by
    /// the composition itself, which always fully recomputes.
    pub open spec fn spec_dirty(self) -> bool {
        self.dirty
    }

    /// A fresh node state: default geometry, no children, marked dirty,
    /// with an identifier newly issued by the counter.
    pub fn new(counter: &mut IdCounter) -> (s: DrawableState2D)
        requires
            old(counter).wf(),
            old(counter).issued_ids().len() < u64::MAX,
        ensures
            final(counter).wf(),
            final(counter).issued_ids() == old(counter).issued_ids().push(s.spec_id().0),
            s.spec_id().0 == old(counter).issued_ids().len(),
            s.drawable_transform == default_transform(),
            s.children@ == Seq::<Drawable2D>::empty(),
            s.spec_dirty(),
    {
        DrawableState2D {
            id: counter.next_id(),
            drawable_transform: TransformState2D::new(),
            children: Vec::new(),
            dirty: true,
        }
    }

    pub fn get_id(&self) -> (d: DrawableId)
        ensures
            d == self.spec_id(),
    {
        self.id
    }

    pub fn is_dirty(&self) -> (d: bool)
        ensures
            d == self.spec_dirty(),
    {
        self.dirty
    }

    pub fn set_dirty(&mut self, dirty: bool)
        ensures
            final(self).spec_dirty() == dirty,
            final(self).spec_id() == old(self).spec_id(),
            final(self).drawable_transform == old(self).drawable_transform,
            final(self).children == old(self).children,
    {
        self.dirty = dirty;
    }

    pub fn set_abs_pos(&mut self, x: i64, y: i64)
        ensures
            final(self).drawable_transform == (TransformState2D {
                abs_pos: (Vec2 { x, y }),
                ..old(self).drawable_transform
            }),
            final(self).spec_dirty(),
            final(self).spec_id() == old(self).spec_id(),
            final(self).children == old(self).children,
    {
        self.drawable_transform.abs_pos = Vec2::new(x, y);
        self.set_dirty(true);
    }

    pub fn set_rel_pos(&mut self, x: i64, y: i64)
        ensures
            final(self).drawable_transform == (TransformState2D {
                rel_pos: (Vec2 { x, y }),
                ..old(self).drawable_transform
            }),
            final(self).spec_dirty(),
            final(self).spec_id() == old(self).spec_id(),
            final(self).children == old(self).children,
    {
        self.drawable_transform.rel_pos = Vec2::new(x, y);
        self.set_dirty(true);
    }

    pub fn set_abs_size(&mut self, x: i64, y: i64)
        ensures
            final(self).drawable_transform == (TransformState2D {
                abs_size: (Vec2 { x, y }),
                ..old(self).drawable_transform
            }),
            final(self).spec_dirty(),
            final(self).spec_id() == old(self).spec_id(),
            final(self).children == old(self).children,
    {
        self.drawable_transform.abs_size = Vec2::new(x, y);
        self.set_dirty(true);
    }

    pub fn set_rel_size(&mut self, x: i64, y: i64)
        ensures
            final(self).drawable_transform == (TransformState2D {
                rel_size: (Vec2 { x, y }),
                ..old(self).drawable_transform
            }),
            final(self).spec_dirty(),
            final(self).spec_id() == old(self).spec_id(),
            final(self).children == old(self).children,
    {
        self.drawable_transform.rel_size = Vec2::new(x, y);
        self.set_dirty(true);
    }

    pub fn set_origin(&mut self, origin: Anchor)
        ensures
            final(self).drawable_transform == (TransformState2D {
                origin,
                ..old(self).drawable_transform
            }),
            final(self).spec_dirty(),
            final(self).spec_id() == old(self).spec_id(),
            final(self).children == old(self).children,
    {
        self.drawable_transform.origin = origin;
        self.set_dirty(true);
    }

    pub fn set_alignment(&mut self, alignment: Anchor)
        ensures
            final(self).drawable_transform == (TransformState2D {
                alignment,
                ..old(self).drawable_transform
            }),
            final(self).spec_dirty(),
            final(self).spec_id() == old(self).spec_id(),
            final(self).children == old(self).children,
    {
        self.drawable_transform.alignment = alignment;
        self.set_dirty(true);
    }

    pub fn get_transform_state(&self) -> (t: &TransformState2D)
        ensures
            *t == self.drawable_transform,
    {
        &self.drawable_transform
    }

    /// Moves the drawable into this node's child list; the new child paints
    /// after (over) every existing child.
    pub fn add_child(&mut self, drawable: Drawable2D)
        ensures
            final(self).children@ == old(self).children@.push(drawable),
            final(self).drawable_transform == old(self).drawable_transform,
            final(self).spec_dirty(),
            final(self).spec_id() == old(self).spec_id(),
    {
        self.children.push(drawable);
        self.set_dirty(true);
    }

    pub fn get_children(&self) -> (c: &Vec<Drawable2D>)
        ensures
            c@ == self.children@,
    {
        &self.children
    }
}

/// The default geometry value, as `TransformState2D::new` builds it.
pub open spec fn default_transform() -> TransformState2D {
    TransformState2D {
        abs_pos: Vec2 { x: 0, y: 0 },
        rel_pos: Vec2 { x: 0, y: 0 },
        abs_size: Vec2 { x: 0, y: 0 },
        rel_size: Vec2 { x: 0, y: 0 },
        origin: Anchor { bits: AnchorBit::Y0 | AnchorBit::X0 },
        alignment: Anchor { bits: AnchorBit::Y0 | AnchorBit::X0 },
    }
}

} // verus!
