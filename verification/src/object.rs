use vstd::prelude::*;
use crate::ai::AiMonster;
use crate::components::Rgb;

verus! {

/// Where a thing of the compact object world stands.
#[derive(Clone, Copy, PartialEq, Eq, Structural, Debug)]
pub struct TransformComponent {
    pub x: i32,
    pub y: i32,
}

impl TransformComponent {
    pub fn new(x: i32, y: i32) -> (t: TransformComponent)
        ensures
            t.x == x,
            t.y == y,
    {
        TransformComponent { x, y }
    }

    pub fn position(&self) -> (p: (i32, i32))
        ensures
            p.0 == self.x,
            p.1 == self.y,
    {
        (self.x, self.y)
    }

    pub fn set_position(&mut self, x: i32, y: i32)
        ensures
            final(self).x == x,
            final(self).y == y,
    {
        self.x = x;
        self.y = y;
    }
}

/// How a thing of the compact object world is drawn; the colours are
/// plain channel values the console layer interprets.
#[derive(Clone, Copy, PartialEq, Eq, Structural, Debug)]
pub struct RenderComponent {
    pub character: char,
    pub background_color: Option<Rgb>,
    pub foreground_color: Option<Rgb>,
}

impl RenderComponent {
    pub fn new(character: char, background_color: Option<Rgb>, foreground_color: Option<Rgb>) -> (r:
        RenderComponent)
        ensures
            r.character == character,
            r.background_color == background_color,
            r.foreground_color == foreground_color,
    {
        RenderComponent { character, background_color, foreground_color }
    }
}

/// Combat values of the compact object world.
#[derive(Clone, Copy, PartialEq, Eq, Structural, Debug)]
pub struct StatsComponent {
    pub max_hp: i32,
    pub hp: i32,
    pub defence: i32,
    pub power: i32,
}

impl StatsComponent {
    pub fn new(max_hp: i32, hp: i32, defence: i32, power: i32) -> (s: StatsComponent)
        ensures
            s.max_hp == max_hp,
            s.hp == hp,
            s.defence == defence,
            s.power == power,
    {
        StatsComponent { max_hp, hp, defence, power }
    }
}

/// A creature or prop of the compact object world, a small
/// alternative to the entity store for one-grid embeddings: drawable,
/// placed, optionally a combatant with an AI tag. Death strips its
/// combat role and leaves a corpse glyph behind.
pub struct Object {
    pub renderer: RenderComponent,
    pub transform: TransformComponent,
    pub stats: Option<StatsComponent>,
    pub ai: Option<AiMonster>,
    pub name: String,
    pub blocking: bool,
    pub alive: bool,
}

impl Object {
    /// Assembles an object; it starts out not alive until the world
    /// turns it on.
    pub fn new(
        x: i32,
        y: i32,
        character: char,
        background_color: Option<Rgb>,
        foreground_color: Option<Rgb>,
        stats: Option<StatsComponent>,
        ai: Option<AiMonster>,
        name: String,
        blocking: bool,
    ) -> (o: Object)
        ensures
            o.transform.x == x,
            o.transform.y == y,
            o.renderer.character == character,
            o.renderer.background_color == background_color,
            o.renderer.foreground_color == foreground_color,
            o.stats == stats,
            o.ai == ai,
            o.name@ == name@,
            o.blocking == blocking,
            !o.alive,
    {
        let renderer = RenderComponent::new(character, background_color, foreground_color);
        let transform = TransformComponent::new(x, y);
        Object { renderer, transform, stats, ai, name, blocking, alive: false }
    }

    pub fn stats(&self) -> (s: &Option<StatsComponent>)
        ensures
            *s == self.stats,
    {
        &self.stats
    }

    pub fn is_alive(&self) -> (r: bool)
        ensures
            r == self.alive,
    {
        self.alive
    }

    pub fn position(&self) -> (p: (i32, i32))
        ensures
            p.0 == self.transform.x,
            p.1 == self.transform.y,
    {
        self.transform.position()
    }

    pub fn set_position(&mut self, x: i32, y: i32)
        ensures
            final(self).transform.x == x,
            final(self).transform.y == y,
            final(self).renderer == old(self).renderer,
            final(self).stats == old(self).stats,
            final(self).ai == old(self).ai,
            final(self).name@ == old(self).name@,
            final(self).blocking == old(self).blocking,
            final(self).alive == old(self).alive,
    {
        self.transform.set_position(x, y);
    }

    /// Subtract damage from the hit points, clamped at the bottom of
    /// the machine range rather than wrapping; a combatant that drops
    /// to zero or below dies on the spot. An object without stats
    /// shrugs everything off.
    pub fn take_damage(&mut self, damage: i32)
        ensures
            old(self).stats is None ==> *final(self) == *old(self),
            old(self).stats is Some ==> {
                let nh = if old(self).stats->0.hp - damage < -0x8000_0000 {
                    (-0x8000_0000) as i32
                } else if old(self).stats->0.hp - damage > 0x7fff_ffff {
                    0x7fff_ffffi32
                } else {
                    (old(self).stats->0.hp - damage) as i32
                };
                &&& (nh > 0 ==> final(self).stats == Some(
                    StatsComponent { hp: nh, ..old(self).stats->0 },
                ) && final(self).alive == old(self).alive && final(self).blocking == old(self).blocking)
                &&& (nh <= 0 ==> final(self).stats is None && !final(self).alive && !final(self).blocking && final(self).ai is None && final(self).renderer.character == '%')
            },
    {
        if self.stats.is_some() {
            let s = match &self.stats {
                Some(s) => *s,
                None => StatsComponent { max_hp: 0, hp: 0, defence: 0, power: 0 },
            };
            let wide = (s.hp as i64) - (damage as i64);
            let new_hp: i32 = if wide < -0x8000_0000i64 {
                -0x8000_0000i32
            } else if wide > 0x7fff_ffffi64 {
                0x7fff_ffffi32
            } else {
                wide as i32
            };
            self.stats = Some(StatsComponent { hp: new_hp, ..s });
            if new_hp <= 0 {
                self.on_death();
            }
        }
    }

    /// A death strips the combat role, stops blocking, and leaves a
    /// tinted corpse glyph.
    fn on_death(&mut self)
        ensures
            !final(self).alive,
            !final(self).blocking,
            final(self).stats is None,
            final(self).ai is None,
            final(self).renderer.character == '%',
            final(self).transform == old(self).transform,
            final(self).name@ == old(self).name@,
    {
        self.alive = false;
        self.blocking = false;
        self.stats = None;
        self.ai = None;
        self.renderer =
        RenderComponent {
            character: '%',
            background_color: Some(Rgb { r: 127, g: 63, b: 63 }),
            foreground_color: self.renderer.foreground_color,
        };
    }
}

} // verus!
