//! Verified core of a small top-down sprite demo.
//!
//! The demo itself is a thin shell around a game engine: it loads a texture
//! atlas, spawns a camera and one player sprite, and moves that sprite each
//! frame under direct velocity control.  Everything the engine owns (rendering,
//! asset decoding, the entity store, input devices) stays outside this crate;
//! what is modelled and proved here is the demo's own logic:
//!
//! - the fixed-point scene-graph data ([`transform`]),
//! - the input-action model: axis clamping and the default bindings ([`input`]),
//! - the atlas grid layout ([`sprite`]),
//! - the components the player entity is spawned with ([`player`]),
//! - the per-frame movement integration step ([`movement`]).
//!
//! Lengths are held in thousandths of a world unit and frame times in whole
//! milliseconds, so every contract is exact integer arithmetic.

pub mod input;
pub mod movement;
pub mod player;
pub mod sprite;
pub mod transform;
