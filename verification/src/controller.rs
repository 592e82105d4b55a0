//! The on-screen directional controller: each button runs a small
//! four-phase press animation (idle, half-pressed, fully pressed, half
//! again, back to idle), and the fully-pressed phase is the moment the
//! latched key is released. The timing lives outside; this is the state
//! machine and the sprite table of the controller atlas.

use vstd::prelude::*;

use crate::grid::Direction;

verus! {

pub const CONTROLLER_UP: usize = 0;
pub const CONTROLLER_HALF_UP: usize = 1;
pub const CONTROLLER_PRESSED_UP: usize = 2;

pub const CONTROLLER_RIGHT: usize = 3;
pub const CONTROLLER_HALF_RIGHT: usize = 4;
pub const CONTROLLER_PRESSED_RIGHT: usize = 5;

pub const CONTROLLER_LEFT: usize = 6;
pub const CONTROLLER_HALF_LEFT: usize = 7;
pub const CONTROLLER_PRESSED_LEFT: usize = 8;

pub const CONTROLLER_DOWN: usize = 9;
pub const CONTROLLER_HALF_DOWN: usize = 10;
pub const CONTROLLER_PRESSED_DOWN: usize = 11;

/// The idle sprite of a button.
pub open spec fn controller_base_spec(dir: Direction) -> int {
    match dir {
        Direction::Up => CONTROLLER_UP as int,
        Direction::Down => CONTROLLER_DOWN as int,
        Direction::Left => CONTROLLER_LEFT as int,
        Direction::Right => CONTROLLER_RIGHT as int,
    }
}

/// The sprite of a button in a given animation phase: idle at phase
/// zero, half-pressed at one and three, fully pressed at two.
pub open spec fn controller_sprite_spec(dir: Direction, phase: int) -> int {
    if phase == 1 || phase == 3 {
        controller_base_spec(dir) + 1
    } else if phase == 2 {
        controller_base_spec(dir) + 2
    } else {
        controller_base_spec(dir)
    }
}

/// The controller-atlas sprite of a button in animation phase `phase`.
pub fn controller_sprite(dir: Direction, phase: u8) -> (r: usize)
    requires
        phase < 4,
    ensures
        r == controller_sprite_spec(dir, phase as int),
{
    let base = match dir {
        Direction::Up => CONTROLLER_UP,
        Direction::Down => CONTROLLER_DOWN,
        Direction::Left => CONTROLLER_LEFT,
        Direction::Right => CONTROLLER_RIGHT,
    };
    if phase == 1 || phase == 3 {
        base + 1
    } else if phase == 2 {
        base + 2
    } else {
        base
    }
}

/// The press/release animation state of one controller button.
pub struct ButtonAnimation {
    pub dir: Direction,
    pub phase: u8,
    pub animating: bool,
}

impl ButtonAnimation {
    /// Well-formedness: the phase stays below four, and a button that is
    /// not animating rests in the idle phase.
    pub open spec fn wf(self) -> bool {
        self.phase < 4 && (self.animating || self.phase == 0)
    }

    /// A button at rest.
    pub fn idle(dir: Direction) -> (r: ButtonAnimation)
        ensures
            r.wf(),
            r.dir == dir,
            r.phase == 0,
            !r.animating,
    {
        ButtonAnimation { dir, phase: 0, animating: false }
    }

    /// A press (pointer hit or repeated press) restarts the animation
    /// from the beginning.
    pub fn press(&mut self)
        ensures
            final(self).wf(),
            final(self).dir == old(self).dir,
            final(self).phase == 0,
            final(self).animating,
    {
        self.phase = 0;
        self.animating = true;
    }

    /// One animation timer step: the phase advances, the sprite for the
    /// new phase is returned, and at the fully-pressed phase the latched
    /// key release fires. After the last phase the button is idle again.
    pub fn advance(&mut self) -> (r: (usize, bool))
        requires
            old(self).wf(),
            old(self).animating,
        ensures
            final(self).wf(),
            final(self).dir == old(self).dir,
            old(self).phase + 1 < 4 ==> {
                &&& final(self).phase == old(self).phase + 1
                &&& final(self).animating
            },
            old(self).phase + 1 == 4 ==> {
                &&& final(self).phase == 0
                &&& !final(self).animating
            },
            r.0 == controller_sprite_spec(
                old(self).dir,
                if old(self).phase + 1 == 4 {
                    0
                } else {
                    old(self).phase + 1
                },
            ),
            r.1 == (old(self).phase + 1 == 2),
    {
        let next = self.phase + 1;
        if next == 4 {
            self.phase = 0;
            self.animating = false;
        } else {
            self.phase = next;
        }
        let sprite = controller_sprite(self.dir, self.phase);
        let release = next == 2;
        (sprite, release)
    }
}

} // verus!
