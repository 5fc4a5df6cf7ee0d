//! The per-frame movement update: direct velocity control integrated with a
//! discrete Euler step — no acceleration, friction or collision.
//!
//! Each frame the unique player entity's movement axis is read; when it is
//! non-zero, the clamped axis scaled by the fixed speed and the frame's
//! elapsed time is added to the entity's translation.  The z component and
//! the scale are never touched.

use vstd::prelude::*;

use crate::input::{clamp_axis_spec, AxisPair};
use crate::transform::{Transform, Vec3Milli};

verus! {

/// Movement speed under full deflection, in world units per second.
pub const MOVE_SPEED_UNITS_PER_SEC: i64 = 1000;

/// Milliseconds in one second; frame times are whole milliseconds.
pub const MILLIS_PER_SEC: i64 = 1000;

/// Translation change of one integration step along one axis, in thousandths
/// of a unit: `axis` is the clamped axis component in thousandths of full
/// deflection and `dt_ms` the elapsed frame time in milliseconds.
///
/// The speed of 1000 units per second equals exactly one thousandth of a unit
/// per millisecond per thousandth of deflection, so the delta is the plain
/// product; [`lemma_step_delta_speed`] states the cancellation.
pub open spec fn step_delta(axis: int, dt_ms: int) -> int {
    axis * dt_ms
}

/// The integration step moves at exactly [`MOVE_SPEED_UNITS_PER_SEC`]: for
/// every axis component and elapsed time, the translation delta — in
/// thousandths of a unit, cross-multiplied by the milliseconds of one second
/// to stay in integers — equals the axis component times the speed times the
/// elapsed milliseconds.
pub proof fn lemma_step_delta_speed(axis: int, dt_ms: int)
    ensures
        step_delta(axis, dt_ms) * (MILLIS_PER_SEC as int) == axis * (MOVE_SPEED_UNITS_PER_SEC
            as int) * dt_ms,
{
    assert((axis * dt_ms) * 1000 == axis * 1000 * dt_ms) by (nonlinear_arith);
}

/// A zero axis sample leaves the integration step without effect: the delta
/// of both moved components is zero.
pub proof fn lemma_zero_axis_no_motion(raw: AxisPair, dt_ms: int)
    requires
        raw.is_zero_spec(),
    ensures
        step_delta(clamp_axis_spec(raw.x as int), dt_ms) == 0,
        step_delta(clamp_axis_spec(raw.y as int), dt_ms) == 0,
{
    assert(clamp_axis_spec(0) == 0);
    assert(step_delta(0, dt_ms) == 0);
}

/// Whether one integration step from translation `t` under raw axis sample
/// `raw` stays within the fixed-point coordinate range.
pub open spec fn step_fits(t: Vec3Milli, raw: AxisPair, dt_ms: int) -> bool {
    &&& i64::MIN <= t.x + step_delta(clamp_axis_spec(raw.x as int), dt_ms) <= i64::MAX
    &&& i64::MIN <= t.y + step_delta(clamp_axis_spec(raw.y as int), dt_ms) <= i64::MAX
}

/// Integrates one frame of movement into `t`: when the raw axis sample is
/// non-zero, adds the clamped sample scaled by the fixed speed and the
/// elapsed time to the translation; a zero sample changes nothing.  The z
/// component and the scale are unchanged in every case.
pub fn apply_movement(t: &mut Transform, raw: AxisPair, dt_ms: u32)
    requires
        step_fits(old(t).translation, raw, dt_ms as int),
    ensures
        final(t).translation.x == old(t).translation.x + step_delta(
            clamp_axis_spec(raw.x as int),
            dt_ms as int,
        ),
        final(t).translation.y == old(t).translation.y + step_delta(
            clamp_axis_spec(raw.y as int),
            dt_ms as int,
        ),
        final(t).translation.z == old(t).translation.z,
        final(t).scale == old(t).scale,
        raw.is_zero_spec() ==> *final(t) == *old(t),
{
    if raw.is_zero() {
        proof {
            lemma_zero_axis_no_motion(raw, dt_ms as int);
        }
        return ;
    }
    let m = raw.clamped();
    proof {
        assert(-1000 * (u32::MAX as int) <= (m.x as int) * (dt_ms as int) <= 1000 * (u32::MAX
            as int)) by (nonlinear_arith)
            requires
                -1000 <= m.x as int <= 1000,
                0 <= dt_ms as int <= u32::MAX as int,
        ;
        assert(-1000 * (u32::MAX as int) <= (m.y as int) * (dt_ms as int) <= 1000 * (u32::MAX
            as int)) by (nonlinear_arith)
            requires
                -1000 <= m.y as int <= 1000,
                0 <= dt_ms as int <= u32::MAX as int,
        ;
    }
    let dx: i64 = (m.x as i64) * (dt_ms as i64);
    let dy: i64 = (m.y as i64) * (dt_ms as i64);
    t.translation.x = t.translation.x + dx;
    t.translation.y = t.translation.y + dy;
}

/// Why the per-frame update could not find the player to move.
#[derive(Clone, Copy, PartialEq, Eq, Structural, Debug)]
pub enum PlayerLookupError {
    /// No entity carries the player marker.
    NoPlayer,
    /// More than one entity carries the player marker.
    MultiplePlayers,
}

/// One row of the per-frame player query: the current movement-axis sample
/// and the entity's transform.
#[derive(Clone, Copy, PartialEq, Eq, Structural, Debug)]
pub struct PlayerState {
    pub move_axis: AxisPair,
    pub transform: Transform,
}

/// The per-frame movement update over the rows matched by the player query.
/// Exactly one row must match; otherwise nothing is changed and the error
/// says whether there were zero or several matches.  On the unique match the
/// transform is advanced by [`apply_movement`] and the axis sample is kept.
pub fn handle_movement(players: &mut Vec<PlayerState>, dt_ms: u32) -> (r: Result<
    (),
    PlayerLookupError,
>)
    requires
        old(players)@.len() == 1 ==> step_fits(
            old(players)@[0].transform.translation,
            old(players)@[0].move_axis,
            dt_ms as int,
        ),
    ensures
        r is Ok <==> old(players)@.len() == 1,
        old(players)@.len() == 0 ==> r == Err::<(), PlayerLookupError>(
            PlayerLookupError::NoPlayer,
        ) && final(players)@ == old(players)@,
        old(players)@.len() > 1 ==> r == Err::<(), PlayerLookupError>(
            PlayerLookupError::MultiplePlayers,
        ) && final(players)@ == old(players)@,
        old(players)@.len() == 1 ==> {
            &&& final(players)@.len() == 1
            &&& final(players)@[0].move_axis == old(players)@[0].move_axis
            &&& final(players)@[0].transform.translation.x == old(
                players,
            )@[0].transform.translation.x + step_delta(
                clamp_axis_spec(old(players)@[0].move_axis.x as int),
                dt_ms as int,
            )
            &&& final(players)@[0].transform.translation.y == old(
                players,
            )@[0].transform.translation.y + step_delta(
                clamp_axis_spec(old(players)@[0].move_axis.y as int),
                dt_ms as int,
            )
            &&& final(players)@[0].transform.translation.z == old(
                players,
            )@[0].transform.translation.z
            &&& final(players)@[0].transform.scale == old(players)@[0].transform.scale
        },
{
    if players.len() == 0 {
        return Err(PlayerLookupError::NoPlayer);
    }
    if players.len() > 1 {
        return Err(PlayerLookupError::MultiplePlayers);
    }
    let st = players[0];
    let mut t = st.transform;
    apply_movement(&mut t, st.move_axis, dt_ms);
    players[0] = PlayerState { move_axis: st.move_axis, transform: t };
    Ok(())
}

} // verus!
