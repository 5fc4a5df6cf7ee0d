//! The player entity: its marker and the components it is spawned with.

use vstd::prelude::*;

use crate::input::{InputMapConfig, PlayerAction};
use crate::transform::{Transform, Vec3Milli};

verus! {

/// Uniform scale of the player sprite, in thousandths: six times its
/// natural size.
pub const PLAYER_SCALE_MILLI: i64 = 6000;

/// Atlas cell the player sprite is drawn from.
pub const PLAYER_ATLAS_INDEX: u32 = 0;

/// Marker for the one controllable entity; no payload.
#[derive(Clone, Copy, PartialEq, Eq, Structural, Debug)]
pub struct Player;

/// Everything the player entity is composed of at spawn time.
#[derive(Debug)]
pub struct PlayerBundle {
    /// The input-to-action bindings the entity listens to.
    pub input_map: InputMapConfig,
    /// Atlas cell of the entity's sprite.
    pub atlas_index: u32,
    /// Initial pose: at the origin, uniformly scaled up.
    pub transform: Transform,
    /// The marker that the movement update queries for.
    pub marker: Player,
}

/// Builds the components of the single player entity: the default input
/// bindings, the sprite at atlas cell [`PLAYER_ATLAS_INDEX`], a uniform
/// [`PLAYER_SCALE_MILLI`] scale at the origin, and the [`Player`] marker.
pub fn spawn_player() -> (b: PlayerBundle)
    ensures
        b.input_map.is_default_map(),
        b.atlas_index == PLAYER_ATLAS_INDEX,
        b.transform.translation.x == 0,
        b.transform.translation.y == 0,
        b.transform.translation.z == 0,
        b.transform.scale.x == PLAYER_SCALE_MILLI,
        b.transform.scale.y == PLAYER_SCALE_MILLI,
        b.transform.scale.z == PLAYER_SCALE_MILLI,
{
    PlayerBundle {
        input_map: PlayerAction::default_input_map(),
        atlas_index: PLAYER_ATLAS_INDEX,
        transform: Transform::from_scale(Vec3Milli::splat(PLAYER_SCALE_MILLI)),
        marker: Player,
    }
}

} // verus!
