//! The input-action model: the player's logical actions, the default
//! bindings, and dual-axis samples with their clamping rule.
//!
//! An axis component is stored in thousandths of full deflection, so a stick
//! pushed all the way right reads `1000` and a centred stick reads `0`.

use vstd::prelude::*;

verus! {

/// The logical actions the player can trigger from input devices.
#[derive(Clone, Copy, PartialEq, Eq, Structural, Debug)]
pub enum PlayerAction {
    /// Two-dimensional movement control.
    Move,
}

/// A physical source that feeds a dual-axis action.
#[derive(Clone, Copy, PartialEq, Eq, Structural, Debug)]
pub enum DualAxisSource {
    /// The left analog stick of a gamepad.
    GamepadLeftStick,
    /// A virtual directional pad on the W, A, S and D keys.
    KeyboardWasd,
}

/// Full deflection of one input axis, in thousandths.
pub const AXIS_MAX_MILLI: i32 = 1000;

/// The static binding table from logical actions to physical sources.
#[derive(Debug)]
pub struct InputMapConfig {
    /// Each entry binds a dual-axis action to one source; an action may be
    /// bound to several sources at once.
    pub dual_axis_bindings: Vec<(PlayerAction, DualAxisSource)>,
}

impl InputMapConfig {
    /// The default map: `Move` is driven by both the gamepad's left stick and
    /// the WASD virtual pad, in that order.
    pub open spec fn is_default_map(self) -> bool {
        &&& self.dual_axis_bindings@.len() == 2
        &&& self.dual_axis_bindings@[0] == (PlayerAction::Move, DualAxisSource::GamepadLeftStick)
        &&& self.dual_axis_bindings@[1] == (PlayerAction::Move, DualAxisSource::KeyboardWasd)
    }
}

impl PlayerAction {
    /// Builds the default bindings: `Move` reads the gamepad left stick and
    /// the WASD virtual pad.
    pub fn default_input_map() -> (m: InputMapConfig)
        ensures
            m.is_default_map(),
    {
        let mut bindings: Vec<(PlayerAction, DualAxisSource)> = Vec::new();
        bindings.push((PlayerAction::Move, DualAxisSource::GamepadLeftStick));
        bindings.push((PlayerAction::Move, DualAxisSource::KeyboardWasd));
        InputMapConfig { dual_axis_bindings: bindings }
    }
}

/// One sample of a dual-axis action, in thousandths of full deflection per
/// component.  Raw samples may exceed full deflection (for example when two
/// sources add up); [`AxisPair::clamped`] brings them back into range.
#[derive(Clone, Copy, PartialEq, Eq, Structural, Debug)]
pub struct AxisPair {
    pub x: i32,
    pub y: i32,
}

/// One axis component clamped to full deflection in either direction.
pub open spec fn clamp_axis_spec(v: int) -> int {
    if v < -(AXIS_MAX_MILLI as int) {
        -(AXIS_MAX_MILLI as int)
    } else if v > AXIS_MAX_MILLI as int {
        AXIS_MAX_MILLI as int
    } else {
        v
    }
}

/// Clamps one axis component to `[-AXIS_MAX_MILLI, AXIS_MAX_MILLI]`.
pub fn clamp_axis(v: i32) -> (r: i32)
    ensures
        r as int == clamp_axis_spec(v as int),
{
    if v < -AXIS_MAX_MILLI {
        -AXIS_MAX_MILLI
    } else if v > AXIS_MAX_MILLI {
        AXIS_MAX_MILLI
    } else {
        v
    }
}

impl AxisPair {
    /// Whether both components are exactly zero.
    pub open spec fn is_zero_spec(self) -> bool {
        self.x == 0 && self.y == 0
    }

    /// Whether both components are exactly zero.
    pub fn is_zero(&self) -> (r: bool)
        ensures
            r == self.is_zero_spec(),
    {
        self.x == 0 && self.y == 0
    }

    /// The sample with each component clamped to full deflection.
    pub fn clamped(&self) -> (r: AxisPair)
        ensures
            r.x as int == clamp_axis_spec(self.x as int),
            r.y as int == clamp_axis_spec(self.y as int),
    {
        AxisPair { x: clamp_axis(self.x), y: clamp_axis(self.y) }
    }
}

/// The dual-axis value of the WASD virtual pad: each pressed key deflects its
/// axis fully, and opposite keys cancel.
pub fn wasd_axis_pair(up: bool, down: bool, left: bool, right: bool) -> (r: AxisPair)
    ensures
        r.x as int == (if right { AXIS_MAX_MILLI as int } else { 0 }) - (if left {
            AXIS_MAX_MILLI as int
        } else {
            0
        }),
        r.y as int == (if up { AXIS_MAX_MILLI as int } else { 0 }) - (if down {
            AXIS_MAX_MILLI as int
        } else {
            0
        }),
{
    let mut x: i32 = 0;
    let mut y: i32 = 0;
    if right {
        x = x + AXIS_MAX_MILLI;
    }
    if left {
        x = x - AXIS_MAX_MILLI;
    }
    if up {
        y = y + AXIS_MAX_MILLI;
    }
    if down {
        y = y - AXIS_MAX_MILLI;
    }
    AxisPair { x, y }
}

} // verus!
