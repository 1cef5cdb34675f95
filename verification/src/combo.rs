//! Input buffer: per-character rolling memory of recent button presses,
//! enabling lenient cancel timing. An input stays buffered for a fixed
//! window of frames from its press.

use vstd::prelude::*;
use crate::state::AttackType;

verus! {

/// Buffers recent button presses for lenient combo execution. Each field
/// holds the age of the press: 0 means not buffered, and values 1 through
/// `window` mean the input was pressed that many frames ago.
#[derive(Debug, Clone, Copy, PartialEq, Eq, Structural)]
pub struct InputBuffer {
    /// Frames since the light attack was pressed (0 means not buffered).
    pub light: u8,
    /// Frames since the heavy attack was pressed.
    pub heavy: u8,
    /// Frames since the grab was pressed.
    pub grab: u8,
    /// Buffer window in frames.
    pub window: u8,
}

/// One frame of aging for a single buffered press: an absent press stays
/// absent, and a press older than the window is cleared.
pub open spec fn aged(frames: int, window: int) -> int {
    if frames == 0 || frames + 1 > window {
        0
    } else {
        frames + 1
    }
}

impl InputBuffer {
    /// Each press age lies within the buffer window.
    pub open spec fn wf(self) -> bool {
        self.light <= self.window && self.heavy <= self.window && self.grab <= self.window && 1
            <= self.window < 255
    }

    /// The age recorded for an attack type.
    pub open spec fn spec_frames(self, attack_type: AttackType) -> int {
        match attack_type {
            AttackType::Light => self.light as int,
            AttackType::Heavy => self.heavy as int,
            AttackType::Grab => self.grab as int,
        }
    }

    /// Whether an attack type counts as buffered.
    pub open spec fn spec_buffered(self, attack_type: AttackType) -> bool {
        0 < self.spec_frames(attack_type) <= self.window
    }

    /// Create a new input buffer with an 8-frame window.
    pub fn new() -> (r: Self)
        ensures
            r.light == 0 && r.heavy == 0 && r.grab == 0,
            r.window == 8,
            r.wf(),
    {
        InputBuffer { light: 0, heavy: 0, grab: 0, window: 8 }
    }

    /// Record a button press: the input's age restarts at 1 and it will stay
    /// buffered until it ages past the window.
    pub fn press(&mut self, attack_type: AttackType)
        ensures
            final(self).spec_frames(attack_type) == 1,
            final(self).light == if attack_type is Light {
                1int
            } else {
                old(self).light as int
            },
            final(self).heavy == if attack_type is Heavy {
                1int
            } else {
                old(self).heavy as int
            },
            final(self).grab == if attack_type is Grab {
                1int
            } else {
                old(self).grab as int
            },
            final(self).window == old(self).window,
            old(self).wf() && old(self).window >= 1 ==> final(self).wf(),
    {
        match attack_type {
            AttackType::Light => self.light = 1,
            AttackType::Heavy => self.heavy = 1,
            AttackType::Grab => self.grab = 1,
        }
    }

    /// Age all buffered presses by one frame; presses older than the window
    /// are cleared.
    pub fn tick(&mut self)
        requires
            old(self).wf(),
        ensures
            final(self).light == aged(old(self).light as int, old(self).window as int),
            final(self).heavy == aged(old(self).heavy as int, old(self).window as int),
            final(self).grab == aged(old(self).grab as int, old(self).window as int),
            final(self).window == old(self).window,
            final(self).wf(),
    {
        if self.light > 0 {
            self.light = self.light + 1;
        }
        if self.heavy > 0 {
            self.heavy = self.heavy + 1;
        }
        if self.grab > 0 {
            self.grab = self.grab + 1;
        }
        if self.light > self.window {
            self.light = 0;
        }
        if self.heavy > self.window {
            self.heavy = 0;
        }
        if self.grab > self.window {
            self.grab = 0;
        }
    }

    /// Whether an attack type was pressed within the buffer window.
    pub fn is_buffered(&self, attack_type: AttackType) -> (r: bool)
        ensures
            r == self.spec_buffered(attack_type),
    {
        let frames = match attack_type {
            AttackType::Light => self.light,
            AttackType::Heavy => self.heavy,
            AttackType::Grab => self.grab,
        };
        frames > 0 && frames <= self.window
    }

    /// Consume a buffered input so that a cancel cannot use it twice.
    pub fn consume(&mut self, attack_type: AttackType)
        ensures
            final(self).spec_frames(attack_type) == 0,
            final(self).light == if attack_type is Light {
                0int
            } else {
                old(self).light as int
            },
            final(self).heavy == if attack_type is Heavy {
                0int
            } else {
                old(self).heavy as int
            },
            final(self).grab == if attack_type is Grab {
                0int
            } else {
                old(self).grab as int
            },
            final(self).window == old(self).window,
            old(self).wf() ==> final(self).wf(),
    {
        match attack_type {
            AttackType::Light => self.light = 0,
            AttackType::Heavy => self.heavy = 0,
            AttackType::Grab => self.grab = 0,
        }
    }

    /// How many frames ago an input was pressed; 0 means not buffered.
    pub fn frames_ago(&self, attack_type: AttackType) -> (r: u8)
        ensures
            r == self.spec_frames(attack_type),
    {
        match attack_type {
            AttackType::Light => self.light,
            AttackType::Heavy => self.heavy,
            AttackType::Grab => self.grab,
        }
    }

    /// Clear all buffered inputs.
    pub fn clear(&mut self)
        ensures
            final(self).light == 0 && final(self).heavy == 0 && final(self).grab == 0,
            final(self).window == old(self).window,
            old(self).wf() ==> final(self).wf(),
    {
        self.light = 0;
        self.heavy = 0;
        self.grab = 0;
    }
}

impl Default for InputBuffer {
    fn default() -> (r: Self)
        ensures
            r.light == 0 && r.heavy == 0 && r.grab == 0,
            r.window == 8,
    {
        InputBuffer::new()
    }
}

} // verus!
