use crate::color::Color;
use crate::drawable_state_2d::{
    DrawNode2D, DrawNodeModel, DrawableState2D, IdCounter, QuadDrawNode2D, QuadNodeModel,
};
use vstd::prelude::*;

verus! {

/// A Quad-producing leaf: paints one colored quad with its own geometry.
pub struct Box2D {
    pub state: DrawableState2D,
    pub color: Color,
}

impl Box2D {
    /// A fresh white box with default geometry.
    pub fn new(counter: &mut IdCounter) -> (b: Box2D)
        requires
            old(counter).wf(),
            old(counter).issued_ids().len() < u64::MAX,
        ensures
            final(counter).wf(),
            final(counter).issued_ids() == old(counter).issued_ids().push(
                b.state.spec_id().0,
            ),
            b.state.spec_id().0 == old(counter).issued_ids().len(),
            b.state.drawable_transform == crate::drawable_state_2d::default_transform(),
            b.state.children@ == Seq::<crate::drawable_2d::Drawable2D>::empty(),
            b.state.spec_dirty(),
            b.color == (Color { r: 255, g: 255, b: 255, a: 255 }),
    {
        Box2D { state: DrawableState2D::new(counter), color: Color::new(255, 255, 255, 255) }
    }

    pub fn set_color(&mut self, color: Color)
        ensures
            final(self).color == color,
            final(self).state.spec_dirty(),
            final(self).state.spec_id() == old(self).state.spec_id(),
            final(self).state.drawable_transform == old(self).state.drawable_transform,
            final(self).state.children == old(self).state.children,
    {
        self.color = color;
        self.state.set_dirty(true);
    }

    pub fn get_state(&self) -> (s: &DrawableState2D)
        ensures
            *s == self.state,
    {
        &self.state
    }

    /// The mathematical value of the one primitive this leaf emits.
    pub open spec fn spec_node(self) -> DrawNodeModel {
        DrawNodeModel::Quad(
            QuadNodeModel { quad: self.state.drawable_transform@, color: self.color },
        )
    }

    /// Emits exactly one Quad primitive describing this leaf, in the leaf's
    /// own local frame.  Children, if any were attached, are ignored.
    pub fn draw(&self) -> (r: Option<Vec<DrawNode2D>>)
        ensures
            r is Some,
            r->0.deep_view() == seq![self.spec_node()],
    {
        let node = DrawNode2D::Quad(
            QuadDrawNode2D { quad: *self.state.get_transform_state(), color: self.color },
        );
        let nodes = vec![node];
        proof {
            assert(nodes.deep_view() =~= seq![self.spec_node()]);
        }
        Some(nodes)
    }
}

} // verus!
