//! The per-tick input snapshot.
//!
//! The input source is an external collaborator; each tick it hands the
//! library one plain snapshot of the action set. The run axis comes already
//! clamped to `[-SCALE, SCALE]` (thousandths of full deflection). `released`
//! is the source's state query — the action is not held this tick — and
//! only the jump action's released state is consumed anywhere, so it is the
//! only one the snapshot carries.

use vstd::prelude::*;

use crate::math::SCALE;

verus! {

/// The player intents the movement core reacts to.
#[derive(Clone, Copy, PartialEq, Eq, Structural, Debug, Hash)]
pub enum InputAction {
    Run,
    Jump,
    Grapple,
    Slingshot,
    Land,
    Down,
}

/// One tick's input state, as plain values.
#[derive(Clone, Copy, PartialEq, Eq, Structural, Debug)]
pub struct InputSnapshot {
    /// Clamped run axis value, in thousandths of full deflection.
    pub run: i64,
    pub jump_pressed: bool,
    pub jump_just_pressed: bool,
    /// The jump input reads as released (not held) this tick.
    pub jump_released: bool,
    pub grapple_pressed: bool,
    pub grapple_just_pressed: bool,
    pub slingshot_pressed: bool,
    pub slingshot_just_pressed: bool,
    pub land_pressed: bool,
    pub land_just_pressed: bool,
    pub down_pressed: bool,
}

impl InputSnapshot {
    pub open spec fn wf(self) -> bool {
        -SCALE <= self.run <= SCALE
    }

    /// A snapshot with nothing pressed and the axis at rest.
    pub fn neutral() -> (r: InputSnapshot)
        ensures
            r.run == 0,
            !r.jump_pressed && !r.jump_just_pressed && !r.jump_released,
            !r.grapple_pressed && !r.grapple_just_pressed,
            !r.slingshot_pressed && !r.slingshot_just_pressed,
            !r.land_pressed && !r.land_just_pressed,
            !r.down_pressed,
            r.wf(),
    {
        InputSnapshot {
            run: 0,
            jump_pressed: false,
            jump_just_pressed: false,
            jump_released: false,
            grapple_pressed: false,
            grapple_just_pressed: false,
            slingshot_pressed: false,
            slingshot_just_pressed: false,
            land_pressed: false,
            land_just_pressed: false,
            down_pressed: false,
        }
    }

    pub open spec fn spec_pressed(self, action: InputAction) -> bool {
        match action {
            InputAction::Run => self.run != 0,
            InputAction::Jump => self.jump_pressed,
            InputAction::Grapple => self.grapple_pressed,
            InputAction::Slingshot => self.slingshot_pressed,
            InputAction::Land => self.land_pressed,
            InputAction::Down => self.down_pressed,
        }
    }

    pub fn pressed(&self, action: InputAction) -> (r: bool)
        ensures
            r == self.spec_pressed(action),
    {
        match action {
            InputAction::Run => self.run != 0,
            InputAction::Jump => self.jump_pressed,
            InputAction::Grapple => self.grapple_pressed,
            InputAction::Slingshot => self.slingshot_pressed,
            InputAction::Land => self.land_pressed,
            InputAction::Down => self.down_pressed,
        }
    }

    pub open spec fn spec_just_pressed(self, action: InputAction) -> bool {
        match action {
            InputAction::Run => false,
            InputAction::Jump => self.jump_just_pressed,
            InputAction::Grapple => self.grapple_just_pressed,
            InputAction::Slingshot => self.slingshot_just_pressed,
            InputAction::Land => self.land_just_pressed,
            InputAction::Down => false,
        }
    }

    pub fn just_pressed(&self, action: InputAction) -> (r: bool)
        ensures
            r == self.spec_just_pressed(action),
    {
        match action {
            InputAction::Run => false,
            InputAction::Jump => self.jump_just_pressed,
            InputAction::Grapple => self.grapple_just_pressed,
            InputAction::Slingshot => self.slingshot_just_pressed,
            InputAction::Land => self.land_just_pressed,
            InputAction::Down => false,
        }
    }

    pub open spec fn spec_released(self, action: InputAction) -> bool {
        match action {
            InputAction::Jump => self.jump_released,
            _ => false,
        }
    }

    pub fn released(&self, action: InputAction) -> (r: bool)
        ensures
            r == self.spec_released(action),
    {
        match action {
            InputAction::Jump => self.jump_released,
            _ => false,
        }
    }

    /// The run axis value, clamped to `[-SCALE, SCALE]`.
    pub fn clamped_value(&self, action: InputAction) -> (r: i64)
        requires
            self.wf(),
        ensures
            r == (match action {
                InputAction::Run => self.run as int,
                _ => 0int,
            }),
            -SCALE <= r <= SCALE,
    {
        match action {
            InputAction::Run => self.run,
            _ => 0,
        }
    }
}

} // verus!
