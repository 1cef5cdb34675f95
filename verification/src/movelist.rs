//! Move table: static frame data, damage, hitbox geometry, properties,
//! movement, hitstop, cancel options and stumble behavior for each
//! (attack type, direction) pair.

use vstd::prelude::*;
use crate::combat::{AttackProperty, StumbleProperty};
use crate::state::AttackType;
use crate::stumble::StumbleDirection;

verus! {

/// Direction of a directional attack input.
#[derive(Debug, Clone, Copy, PartialEq, Eq, Structural, Hash)]
pub enum AttackDirection {
    /// No direction held (standing attack).
    Neutral,
    /// Forward (towards the opponent).
    Forward,
    /// Down (crouching).
    Down,
    /// Back (away from the opponent).
    Back,
}

impl Default for AttackDirection {
    fn default() -> (r: Self)
        ensures
            r is Neutral,
    {
        AttackDirection::Neutral
    }
}

/// Unique identifier for a move.
#[derive(Debug, Clone, Copy, PartialEq, Eq, Structural, Hash)]
pub struct MoveId {
    pub attack_type: AttackType,
    pub direction: AttackDirection,
}

impl MoveId {
    pub fn new(attack_type: AttackType, direction: AttackDirection) -> (r: Self)
        ensures
            r.attack_type == attack_type,
            r.direction == direction,
    {
        MoveId { attack_type, direction }
    }
}

/// Movement properties for attacks that carry the character.
#[derive(Debug, Clone, Copy, PartialEq, Eq, Structural)]
pub struct AttackMovement {
    /// Distance to move in stage units (positive is forward, negative
    /// backward).
    pub distance: i32,
    /// Speed of the movement, in stage units per frame.
    pub speed: u32,
}

impl AttackMovement {
    pub fn new(distance: i32, speed: u32) -> (r: Self)
        ensures
            r.distance == distance,
            r.speed == speed,
    {
        AttackMovement { distance, speed }
    }

    /// Forward advancing movement at the standard attack-movement speed.
    pub fn forward(distance: i32) -> (r: Self)
        ensures
            r.distance == distance,
            r.speed == 60,
    {
        AttackMovement { distance, speed: 60 }
    }

    /// Backward retreating movement at the standard attack-movement speed.
    pub fn back(distance: i32) -> (r: Self)
        requires
            distance != i32::MIN,
        ensures
            r.distance == -distance,
            r.speed == 60,
    {
        AttackMovement { distance: -distance, speed: 60 }
    }
}

/// Complete definition of a single move.
#[derive(Debug, Clone)]
pub struct MoveData {
    /// Display name of the move.
    pub name: String,
    /// Frames before the hitbox becomes active.
    pub startup_frames: u32,
    /// Frames the hitbox remains active.
    pub active_frames: u32,
    /// Frames of recovery after the hitbox deactivates.
    pub recovery_frames: u32,
    /// Base damage dealt, in health centipoints.
    pub damage: u32,
    /// Frame advantage on block (negative means disadvantage).
    pub on_block: i32,
    /// Hitbox center offset from the character position (local space).
    pub hitbox_offset_x: i32,
    pub hitbox_offset_y: i32,
    /// Full width and height of the hitbox.
    pub hitbox_size_x: i32,
    pub hitbox_size_y: i32,
    /// Special properties (armor, unblockable, chainable).
    pub properties: Vec<AttackProperty>,
    /// Optional movement during the attack.
    pub movement: Option<AttackMovement>,
    /// Hitstop frames on a normal hit.
    pub hitstop_on_hit: u32,
    /// Hitstop frames when blocked.
    pub hitstop_on_block: u32,
    /// Hitstop frames on a counter hit.
    pub hitstop_on_counter: u32,
    /// Length of the cancel window, in recovery frames from recovery start.
    pub cancel_window_frames: u32,
    /// Attack types this move may cancel into once it has connected.
    pub cancellable_into: Vec<AttackType>,
    /// Stumble behavior when this move lands.
    pub stumble_property: StumbleProperty,
}

impl MoveData {
    /// Ranges that keep every computation on a move's data inside its
    /// integer types: phase durations are at least one frame, and all
    /// magnitudes stay small.
    pub open spec fn valid(self) -> bool {
        &&& 1 <= self.startup_frames <= 1000
        &&& 1 <= self.active_frames <= 1000
        &&& 1 <= self.recovery_frames <= 1000
        &&& self.damage <= 10000
        &&& -1000 <= self.on_block <= 1000
        &&& -100000 <= self.hitbox_offset_x <= 100000
        &&& -100000 <= self.hitbox_offset_y <= 100000
        &&& 0 <= self.hitbox_size_x <= 100000
        &&& 0 <= self.hitbox_size_y <= 100000
        &&& self.hitstop_on_hit <= 600
        &&& self.hitstop_on_block <= 600
        &&& self.hitstop_on_counter <= 600
        &&& self.cancel_window_frames <= 600
        &&& (self.movement matches Some(m)
            ==> -100000 <= m.distance <= 100000 && 1 <= m.speed <= 10000)
        &&& (self.stumble_property matches StumbleProperty::Launcher(_, frames) ==> frames
            <= 10000)
        &&& (self.stumble_property matches StumbleProperty::Extender(_, frames) ==> frames
            <= 10000)
    }

    /// Total frame duration of the move.
    pub fn total_frames(&self) -> (r: u32)
        requires
            self.valid(),
        ensures
            r == self.startup_frames + self.active_frames + self.recovery_frames,
    {
        self.startup_frames + self.active_frames + self.recovery_frames
    }

    /// Hitstun frames scale with damage: two frames per damage point on top
    /// of a ten-frame base.
    pub fn hitstun_frames(&self) -> (r: u32)
        requires
            self.valid(),
        ensures
            r == self.damage / 50 + 10,
    {
        self.damage / 50 + 10
    }

    /// Hitstop duration for a hit outcome, with precedence counter hit,
    /// then blocked, then normal hit.
    pub fn get_hitstop(&self, is_blocked: bool, is_counter: bool) -> (r: u32)
        ensures
            is_counter ==> r == self.hitstop_on_counter,
            !is_counter && is_blocked ==> r == self.hitstop_on_block,
            !is_counter && !is_blocked ==> r == self.hitstop_on_hit,
    {
        if is_counter {
            self.hitstop_on_counter
        } else if is_blocked {
            self.hitstop_on_block
        } else {
            self.hitstop_on_hit
        }
    }
}

/// Slot of an attack type in the move table.
pub open spec fn type_index(t: AttackType) -> int {
    match t {
        AttackType::Light => 0,
        AttackType::Heavy => 1,
        AttackType::Grab => 2,
    }
}

/// Slot of a direction in the move table.
pub open spec fn dir_index(d: AttackDirection) -> int {
    match d {
        AttackDirection::Neutral => 0,
        AttackDirection::Forward => 1,
        AttackDirection::Down => 2,
        AttackDirection::Back => 3,
    }
}

/// Index of a (type, direction) pair in the move table's backing vector.
pub open spec fn slot_of(t: AttackType, d: AttackDirection) -> int {
    type_index(t) * 4 + dir_index(d)
}

/// A character's complete move table: one optional entry per
/// (attack type, direction) pair.
#[derive(Debug, Clone)]
pub struct Movelist {
    moves: Vec<Option<MoveData>>,
}

impl Movelist {
    /// The table has one slot for each (type, direction) pair and every
    /// present entry has valid frame data.
    pub closed spec fn wf(self) -> bool {
        &&& self.moves@.len() == 12
        &&& forall|i: int|
            0 <= i < 12 ==> (#[trigger] self.moves@[i] matches Some(m) ==> m.valid())
    }

    /// The entry for a (type, direction) pair.
    pub closed spec fn spec_get(self, t: AttackType, d: AttackDirection) -> Option<MoveData> {
        self.moves@[slot_of(t, d)]
    }

    /// A neutral-direction entry exists for every attack type. The state
    /// machine's fallback relies on this.
    pub open spec fn has_neutrals(self) -> bool {
        &&& self.spec_get(AttackType::Light, AttackDirection::Neutral) is Some
        &&& self.spec_get(AttackType::Heavy, AttackDirection::Neutral) is Some
        &&& self.spec_get(AttackType::Grab, AttackDirection::Neutral) is Some
    }

    /// Create an empty move table.
    pub fn new() -> (r: Self)
        ensures
            r.wf(),
            forall|t: AttackType, d: AttackDirection| #[trigger] r.spec_get(t, d) is None,
    {
        let mut moves: Vec<Option<MoveData>> = Vec::new();
        let mut i: usize = 0;
        while i < 12
            invariant
                i <= 12,
                moves@.len() == i,
                forall|j: int| 0 <= j < i ==> #[trigger] moves@[j] is None,
            decreases 12 - i,
        {
            moves.push(None);
            i = i + 1;
        }
        Movelist { moves }
    }

    /// Store a move under a (type, direction) pair, replacing any previous
    /// entry there and leaving every other entry as it was.
    pub fn add_move(
        &mut self,
        attack_type: AttackType,
        direction: AttackDirection,
        move_data: MoveData,
    )
        requires
            old(self).wf(),
            move_data.valid(),
        ensures
            final(self).wf(),
            final(self).spec_get(attack_type, direction) == Some(move_data),
            forall|t: AttackType, d: AttackDirection|
                slot_of(t, d) != slot_of(attack_type, direction)
                    ==> #[trigger] final(self).spec_get(t, d) == old(self).spec_get(t, d),
    {
        let i = Self::move_slot(attack_type, direction);
        self.moves[i] = Some(move_data);
    }

    /// The move stored under a (type, direction) pair, if any.
    pub fn get_move(&self, attack_type: AttackType, direction: AttackDirection) -> (r: Option<
        &MoveData,
    >)
        requires
            self.wf(),
        ensures
            r matches Some(m) ==> self.spec_get(attack_type, direction) == Some(*m) && m.valid(),
            r is None ==> self.spec_get(attack_type, direction) is None,
    {
        let i = Self::move_slot(attack_type, direction);
        self.moves[i].as_ref()
    }

    /// Whether a move exists for a (type, direction) pair.
    pub fn has_move(&self, attack_type: AttackType, direction: AttackDirection) -> (r: bool)
        requires
            self.wf(),
        ensures
            r == (self.spec_get(attack_type, direction) is Some),
    {
        let i = Self::move_slot(attack_type, direction);
        self.moves[i].is_some()
    }

    /// The standard character move table: four light attacks, four heavy
    /// attacks and a neutral grab, with the lights opening cancel windows
    /// into any follow-up, the heavies cancelling only into grab, a launcher
    /// on the forward heavy and stumble extenders on the forward and down
    /// lights.
    pub fn default_character() -> (r: Self)
        ensures
            r.wf(),
            r.has_neutrals(),
            r.spec_get(AttackType::Light, AttackDirection::Neutral) matches Some(m)
                && m.startup_frames == 5 && m.active_frames == 2 && m.recovery_frames == 10
                && m.damage == 800 && m.on_block == -2,
            r.spec_get(AttackType::Heavy, AttackDirection::Neutral) matches Some(m)
                && m.startup_frames == 11 && m.active_frames == 4 && m.recovery_frames == 18
                && m.damage == 1500 && m.on_block == -8,
            r.spec_get(AttackType::Grab, AttackDirection::Neutral) matches Some(m)
                && m.startup_frames == 10 && m.active_frames == 2 && m.recovery_frames == 20
                && m.damage == 1200 && m.on_block == 0,
    {
        let mut movelist = Self::new();

        // Neutral light: standard jab.
        movelist.add_move(
            AttackType::Light,
            AttackDirection::Neutral,
            MoveData {
                name: "Jab".to_string(),
                startup_frames: 5,
                active_frames: 2,
                recovery_frames: 10,
                damage: 800,
                on_block: -2,
                hitbox_offset_x: 200,
                hitbox_offset_y: 0,
                hitbox_size_x: 600,
                hitbox_size_y: 476,
                properties: Vec::new(),
                movement: None,
                hitstop_on_hit: 9,
                hitstop_on_block: 6,
                hitstop_on_counter: 12,
                cancel_window_frames: 8,
                cancellable_into: vec![AttackType::Light, AttackType::Heavy, AttackType::Grab],
                stumble_property: StumbleProperty::NoEffect,
            },
        );

        // Forward light: fast advancing poke.
        movelist.add_move(
            AttackType::Light,
            AttackDirection::Forward,
            MoveData {
                name: "Dash Jab".to_string(),
                startup_frames: 3,
                active_frames: 2,
                recovery_frames: 10,
                damage: 600,
                on_block: -2,
                hitbox_offset_x: 250,
                hitbox_offset_y: 0,
                hitbox_size_x: 652,
                hitbox_size_y: 476,
                properties: Vec::new(),
                movement: Some(AttackMovement::forward(200)),
                hitstop_on_hit: 8,
                hitstop_on_block: 6,
                hitstop_on_counter: 11,
                cancel_window_frames: 8,
                cancellable_into: vec![AttackType::Light, AttackType::Heavy, AttackType::Grab],
                stumble_property: StumbleProperty::Extender(StumbleDirection::Backward, 15),
            },
        );

        // Down light: low poke.
        movelist.add_move(
            AttackType::Light,
            AttackDirection::Down,
            MoveData {
                name: "Low Poke".to_string(),
                startup_frames: 5,
                active_frames: 2,
                recovery_frames: 11,
                damage: 700,
                on_block: -3,
                hitbox_offset_x: 200,
                hitbox_offset_y: -150,
                hitbox_size_x: 624,
                hitbox_size_y: 324,
                properties: Vec::new(),
                movement: None,
                hitstop_on_hit: 8,
                hitstop_on_block: 6,
                hitstop_on_counter: 11,
                cancel_window_frames: 8,
                cancellable_into: vec![AttackType::Light, AttackType::Heavy, AttackType::Grab],
                stumble_property: StumbleProperty::Extender(StumbleDirection::Down, 15),
            },
        );

        // Back light: safe retreating jab.
        movelist.add_move(
            AttackType::Light,
            AttackDirection::Back,
            MoveData {
                name: "Step Jab".to_string(),
                startup_frames: 4,
                active_frames: 2,
                recovery_frames: 9,
                damage: 600,
                on_block: 1,
                hitbox_offset_x: 176,
                hitbox_offset_y: 0,
                hitbox_size_x: 576,
                hitbox_size_y: 476,
                properties: Vec::new(),
                movement: Some(AttackMovement::back(120)),
                hitstop_on_hit: 8,
                hitstop_on_block: 6,
                hitstop_on_counter: 11,
                cancel_window_frames: 8,
                cancellable_into: vec![AttackType::Light, AttackType::Heavy, AttackType::Grab],
                stumble_property: StumbleProperty::NoEffect,
            },
        );

        // Neutral heavy: standard power hit; spikes a stumbling opponent.
        movelist.add_move(
            AttackType::Heavy,
            AttackDirection::Neutral,
            MoveData {
                name: "Heavy Strike".to_string(),
                startup_frames: 11,
                active_frames: 4,
                recovery_frames: 18,
                damage: 1500,
                on_block: -8,
                hitbox_offset_x: 250,
                hitbox_offset_y: 0,
                hitbox_size_x: 852,
                hitbox_size_y: 652,
                properties: vec![AttackProperty::LightArmor],
                movement: None,
                hitstop_on_hit: 13,
                hitstop_on_block: 10,
                hitstop_on_counter: 16,
                cancel_window_frames: 6,
                cancellable_into: vec![AttackType::Grab],
                stumble_property: StumbleProperty::NoEffect,
            },
        );

        // Forward heavy: advancing overhead that launches into a stumble.
        movelist.add_move(
            AttackType::Heavy,
            AttackDirection::Forward,
            MoveData {
                name: "Lunging Strike".to_string(),
                startup_frames: 9,
                active_frames: 4,
                recovery_frames: 18,
                damage: 1300,
                on_block: -6,
                hitbox_offset_x: 300,
                hitbox_offset_y: 50,
                hitbox_size_x: 952,
                hitbox_size_y: 652,
                properties: Vec::new(),
                movement: Some(AttackMovement::forward(320)),
                hitstop_on_hit: 12,
                hitstop_on_block: 9,
                hitstop_on_counter: 15,
                cancel_window_frames: 6,
                cancellable_into: vec![AttackType::Grab],
                stumble_property: StumbleProperty::Launcher(StumbleDirection::Backward, 30),
            },
        );

        // Down heavy: low sweep; spikes a stumbling opponent.
        movelist.add_move(
            AttackType::Heavy,
            AttackDirection::Down,
            MoveData {
                name: "Sweep".to_string(),
                startup_frames: 13,
                active_frames: 4,
                recovery_frames: 20,
                damage: 1600,
                on_block: -10,
                hitbox_offset_x: 250,
                hitbox_offset_y: -175,
                hitbox_size_x: 1000,
                hitbox_size_y: 252,
                properties: Vec::new(),
                movement: None,
                hitstop_on_hit: 14,
                hitstop_on_block: 11,
                hitstop_on_counter: 17,
                cancel_window_frames: 6,
                cancellable_into: vec![AttackType::Grab],
                stumble_property: StumbleProperty::NoEffect,
            },
        );

        // Back heavy: defensive power hit.
        movelist.add_move(
            AttackType::Heavy,
            AttackDirection::Back,
            MoveData {
                name: "Counter Strike".to_string(),
                startup_frames: 10,
                active_frames: 4,
                recovery_frames: 16,
                damage: 1400,
                on_block: -4,
                hitbox_offset_x: 224,
                hitbox_offset_y: 0,
                hitbox_size_x: 800,
                hitbox_size_y: 652,
                properties: Vec::new(),
                movement: Some(AttackMovement::back(160)),
                hitstop_on_hit: 13,
                hitstop_on_block: 10,
                hitstop_on_counter: 16,
                cancel_window_frames: 6,
                cancellable_into: vec![AttackType::Grab],
                stumble_property: StumbleProperty::NoEffect,
            },
        );

        // Grab: neutral only, unblockable.
        movelist.add_move(
            AttackType::Grab,
            AttackDirection::Neutral,
            MoveData {
                name: "Grab".to_string(),
                startup_frames: 10,
                active_frames: 2,
                recovery_frames: 20,
                damage: 1200,
                on_block: 0,
                hitbox_offset_x: 176,
                hitbox_offset_y: 0,
                hitbox_size_x: 600,
                hitbox_size_y: 600,
                properties: vec![AttackProperty::Unblockable],
                movement: None,
                hitstop_on_hit: 11,
                hitstop_on_block: 0,
                hitstop_on_counter: 14,
                cancel_window_frames: 0,
                cancellable_into: Vec::new(),
                stumble_property: StumbleProperty::NoEffect,
            },
        );

        movelist
    }

    /// Every entry of a well-formed table has valid frame data.
    pub proof fn lemma_wf_entries_valid(self, t: AttackType, d: AttackDirection)
        requires
            self.wf(),
        ensures
            self.spec_get(t, d) matches Some(m) ==> m.valid(),
    {
    }

    /// Backing index of a (type, direction) pair.
    fn move_slot(attack_type: AttackType, direction: AttackDirection) -> (i: usize)
        ensures
            i == slot_of(attack_type, direction),
            i < 12,
    {
        let t: usize = match attack_type {
            AttackType::Light => 0,
            AttackType::Heavy => 1,
            AttackType::Grab => 2,
        };
        let d: usize = match direction {
            AttackDirection::Neutral => 0,
            AttackDirection::Forward => 1,
            AttackDirection::Down => 2,
            AttackDirection::Back => 3,
        };
        t * 4 + d
    }
}

} // verus!
