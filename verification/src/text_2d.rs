use crate::color::Color;
use crate::drawable_state_2d::{DrawableState2D, IdCounter};
use crate::fixed::SCALE;
use vstd::prelude::*;

verus! {

/// A Text-carrying node: holds the text content, its scale and paint color
/// alongside the shared node state.  It has no draw behavior of its own: it
/// composes like a plain container, so its own text and the attached data
/// wait on a dedicated Text override.
pub struct Text2D {
    pub state: DrawableState2D,
    pub text: String,
    pub color: Color,
    pub scale: i64,
}

impl Text2D {
    /// A fresh text node: empty text, white paint, unit scale, default
    /// geometry.
    pub fn new(counter: &mut IdCounter) -> (t: Text2D)
        requires
            old(counter).wf(),
            old(counter).issued_ids().len() < u64::MAX,
        ensures
            final(counter).wf(),
            final(counter).issued_ids() == old(counter).issued_ids().push(
                t.state.spec_id().0,
            ),
            t.state.spec_id().0 == old(counter).issued_ids().len(),
            t.state.drawable_transform == crate::drawable_state_2d::default_transform(),
            t.state.children@ == Seq::<crate::drawable_2d::Drawable2D>::empty(),
            t.state.spec_dirty(),
            t.text@ == Seq::<char>::empty(),
            t.color == (Color { r: 255, g: 255, b: 255, a: 255 }),
            t.scale == SCALE,
    {
        Text2D {
            state: DrawableState2D::new(counter),
            text: String::new(),
            color: Color::new(255, 255, 255, 255),
            scale: SCALE,
        }
    }

    pub fn set_text(&mut self, text: &str)
        ensures
            final(self).text@ == text@,
            final(self).color == old(self).color,
            final(self).scale == old(self).scale,
            final(self).state.spec_dirty(),
            final(self).state.spec_id() == old(self).state.spec_id(),
            final(self).state.drawable_transform == old(self).state.drawable_transform,
            final(self).state.children == old(self).state.children,
    {
        self.text = text.to_owned();
        self.state.set_dirty(true);
    }

    pub fn set_color(&mut self, color: &Color)
        ensures
            final(self).color == *color,
            final(self).text == old(self).text,
            final(self).scale == old(self).scale,
            final(self).state.spec_dirty(),
            final(self).state.spec_id() == old(self).state.spec_id(),
            final(self).state.drawable_transform == old(self).state.drawable_transform,
            final(self).state.children == old(self).state.children,
    {
        self.color = *color;
        self.state.set_dirty(true);
    }

    pub fn set_scale(&mut self, scale: i64)
        ensures
            final(self).scale == scale,
            final(self).text == old(self).text,
            final(self).color == old(self).color,
            final(self).state.spec_dirty(),
            final(self).state.spec_id() == old(self).state.spec_id(),
            final(self).state.drawable_transform == old(self).state.drawable_transform,
            final(self).state.children == old(self).state.children,
    {
        self.scale = scale;
        self.state.set_dirty(true);
    }

    pub fn get_state(&self) -> (s: &DrawableState2D)
        ensures
            *s == self.state,
    {
        &self.state
    }
}

} // verus!
