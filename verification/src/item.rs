use vstd::prelude::*;
use crate::components::Rgb;
use crate::object::{RenderComponent, TransformComponent};

verus! {

/// A thing lying on the compact object world's grid: a glyph, a
/// place, and a name; picking it up and using it is the world's
/// business.
pub struct Item {
    pub renderer: RenderComponent,
    pub transform: TransformComponent,
    pub name: String,
}

impl Item {
    pub fn new(
        x: i32,
        y: i32,
        character: char,
        background_color: Option<Rgb>,
        foreground_color: Option<Rgb>,
        name: String,
    ) -> (i: Item)
        ensures
            i.transform.x == x,
            i.transform.y == y,
            i.renderer.character == character,
            i.renderer.background_color == background_color,
            i.renderer.foreground_color == foreground_color,
            i.name@ == name@,
    {
        let renderer = RenderComponent::new(character, background_color, foreground_color);
        let transform = TransformComponent::new(x, y);
        Item { renderer, transform, name }
    }

    pub fn position(&self) -> (p: (i32, i32))
        ensures
            p.0 == self.transform.x,
            p.1 == self.transform.y,
    {
        self.transform.position()
    }

    pub fn set_position(&mut self, x: i32, y: i32)
        ensures
            final(self).transform.x == x,
            final(self).transform.y == y,
            final(self).renderer == old(self).renderer,
            final(self).name@ == old(self).name@,
    {
        self.transform.set_position(x, y);
    }
}

} // verus!
