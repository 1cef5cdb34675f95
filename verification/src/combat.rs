//! Attack properties and the offensive/defensive collision boxes attached to
//! a character.

use vstd::prelude::*;
use crate::geometry::{Rect, COORD_LIMIT};
use crate::stumble::StumbleDirection;

verus! {

/// Properties that modify attack behavior.
#[derive(Debug, Clone, Copy, PartialEq, Eq, Structural)]
pub enum AttackProperty {
    /// The attack absorbs one light hit during startup (heavy attacks).
    LightArmor,
    /// The attack cannot be blocked (grabs).
    Unblockable,
    /// The attack can chain into another attack.
    Chainable,
}

/// Stumble and juggling behavior of a move.
#[derive(Debug, Clone, Copy, PartialEq, Eq, Structural)]
pub enum StumbleProperty {
    /// No stumble effect.
    NoEffect,
    /// Starts a stumble (direction, duration in frames).
    Launcher(StumbleDirection, u32),
    /// Extends an existing stumble (direction, base frames added).
    Extender(StumbleDirection, u32),
    /// Spike finisher: ends a stumble with a hard knockdown.
    Spike,
}

impl Default for StumbleProperty {
    fn default() -> (r: Self)
        ensures
            r is NoEffect,
    {
        StumbleProperty::NoEffect
    }
}

/// Offensive hitbox: damages opponents while active. Exists only during a
/// character's attacking state and is active only during the active phase.
#[derive(Debug, Clone)]
pub struct Hitbox {
    /// Rectangle offset from the owner's position (local space).
    pub rect: Rect,
    /// Whether this hitbox is currently active.
    pub active: bool,
    /// Damage carried, in health centipoints.
    pub damage: u32,
    /// Special properties of this attack.
    pub properties: Vec<AttackProperty>,
}

impl Hitbox {
    pub fn new(rect: Rect, damage: u32) -> (r: Self)
        ensures
            r.rect == rect,
            !r.active,
            r.damage == damage,
            r.properties@ =~= Seq::<AttackProperty>::empty(),
    {
        Hitbox { rect, active: false, damage, properties: Vec::new() }
    }

    pub fn with_properties(self, properties: Vec<AttackProperty>) -> (r: Self)
        ensures
            r.rect == self.rect,
            r.active == self.active,
            r.damage == self.damage,
            r.properties@ == properties@,
    {
        Hitbox { properties, ..self }
    }

    pub fn activate(&mut self)
        ensures
            final(self).active,
            final(self).rect == old(self).rect,
            final(self).damage == old(self).damage,
            final(self).properties@ == old(self).properties@,
    {
        self.active = true;
    }

    pub fn deactivate(&mut self)
        ensures
            !final(self).active,
            final(self).rect == old(self).rect,
            final(self).damage == old(self).damage,
            final(self).properties@ == old(self).properties@,
    {
        self.active = false;
    }

    /// Whether this hitbox carries the given property.
    pub fn has_property(&self, property: AttackProperty) -> (r: bool)
        ensures
            r == self.properties@.contains(property),
    {
        let mut i: usize = 0;
        while i < self.properties.len()
            invariant
                i <= self.properties@.len(),
                forall|j: int| 0 <= j < i ==> self.properties@[j] != property,
            decreases self.properties@.len() - i,
        {
            if self.properties[i] == property {
                return true;
            }
            i = i + 1;
        }
        false
    }

    /// World-space rectangle: the local rectangle translated by the owner's
    /// position.
    pub fn world_rect(&self, x: i32, y: i32) -> (r: Rect)
        requires
            self.rect.in_bounds(),
            -COORD_LIMIT <= x <= COORD_LIMIT,
            -COORD_LIMIT <= y <= COORD_LIMIT,
        ensures
            r.min_x == self.rect.min_x + x,
            r.min_y == self.rect.min_y + y,
            r.max_x == self.rect.max_x + x,
            r.max_y == self.rect.max_y + y,
    {
        self.rect.translated(x, y)
    }
}

/// Copy a list of attack properties element for element.
pub fn clone_properties(v: &Vec<AttackProperty>) -> (r: Vec<AttackProperty>)
    ensures
        r@ == v@,
{
    let mut out: Vec<AttackProperty> = Vec::new();
    let mut i: usize = 0;
    while i < v.len()
        invariant
            i <= v@.len(),
            out@ =~= v@.take(i as int),
        decreases v@.len() - i,
    {
        out.push(v[i]);
        i = i + 1;
    }
    proof {
        assert(v@.take(v@.len() as int) =~= v@);
    }
    out
}

/// Defensive hurtbox: receives damage when an active hitbox overlaps it.
#[derive(Debug, Clone, Copy, PartialEq, Eq, Structural)]
pub struct Hurtbox {
    /// Rectangle offset from the owner's position (local space).
    pub rect: Rect,
}

impl Hurtbox {
    pub fn new(rect: Rect) -> (r: Self)
        ensures
            r.rect == rect,
    {
        Hurtbox { rect }
    }

    /// World-space rectangle: the local rectangle translated by the owner's
    /// position.
    pub fn world_rect(&self, x: i32, y: i32) -> (r: Rect)
        requires
            self.rect.in_bounds(),
            -COORD_LIMIT <= x <= COORD_LIMIT,
            -COORD_LIMIT <= y <= COORD_LIMIT,
        ensures
            r.min_x == self.rect.min_x + x,
            r.min_y == self.rect.min_y + y,
            r.max_x == self.rect.max_x + x,
            r.max_y == self.rect.max_y + y,
    {
        self.rect.translated(x, y)
    }
}

impl Default for Hurtbox {
    /// Default body hurtbox: a character body is 400 units wide and 800 tall,
    /// centered on the character's position.
    fn default() -> (r: Self)
        ensures
            r.rect == (Rect { min_x: -200i32, min_y: -400i32, max_x: 200i32, max_y: 400i32 }),
    {
        Hurtbox { rect: Rect { min_x: -200, min_y: -400, max_x: 200, max_y: 400 } }
    }
}

} // verus!
