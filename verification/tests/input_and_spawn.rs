//! Tests for the input model, the atlas layout, and the spawn configuration.

use sprite_demo::input::{
    clamp_axis, wasd_axis_pair, AxisPair, DualAxisSource, PlayerAction, AXIS_MAX_MILLI,
};
use sprite_demo::player::{spawn_player, PLAYER_ATLAS_INDEX, PLAYER_SCALE_MILLI};
use sprite_demo::sprite::{texture_path, CellRect, SpriteSheet, ATLAS_CELL_SIZE_PX};

#[test]
fn clamping_caps_both_directions() {
    assert_eq!(clamp_axis(0), 0);
    assert_eq!(clamp_axis(999), 999);
    assert_eq!(clamp_axis(1000), 1000);
    assert_eq!(clamp_axis(1001), 1000);
    assert_eq!(clamp_axis(-1001), -1000);
    assert_eq!(clamp_axis(i32::MAX), AXIS_MAX_MILLI);
    assert_eq!(clamp_axis(i32::MIN), -AXIS_MAX_MILLI);
}

#[test]
fn clamped_pair_clamps_componentwise() {
    let p = AxisPair { x: 1_500, y: -200 };
    assert_eq!(p.clamped(), AxisPair { x: 1000, y: -200 });
    assert!(!p.is_zero());
    assert!(AxisPair { x: 0, y: 0 }.is_zero());
}

#[test]
fn wasd_pad_aggregates_keys() {
    // w a s d -> up left down right
    assert_eq!(wasd_axis_pair(false, false, false, false), AxisPair { x: 0, y: 0 });
    assert_eq!(wasd_axis_pair(true, false, false, false), AxisPair { x: 0, y: 1000 });
    assert_eq!(wasd_axis_pair(false, true, false, false), AxisPair { x: 0, y: -1000 });
    assert_eq!(wasd_axis_pair(false, false, true, false), AxisPair { x: -1000, y: 0 });
    assert_eq!(wasd_axis_pair(false, false, false, true), AxisPair { x: 1000, y: 0 });
    assert_eq!(wasd_axis_pair(true, false, false, true), AxisPair { x: 1000, y: 1000 });
    // Opposite keys cancel.
    assert_eq!(wasd_axis_pair(true, true, true, true), AxisPair { x: 0, y: 0 });
}

#[test]
fn default_map_binds_move_to_stick_and_wasd() {
    let m = PlayerAction::default_input_map();
    assert_eq!(m.dual_axis_bindings.len(), 2);
    assert_eq!(
        m.dual_axis_bindings[0],
        (PlayerAction::Move, DualAxisSource::GamepadLeftStick)
    );
    assert_eq!(
        m.dual_axis_bindings[1],
        (PlayerAction::Move, DualAxisSource::KeyboardWasd)
    );
}

#[test]
fn sheet_is_a_ten_by_ten_grid_of_32px_cells() {
    let s = SpriteSheet::new();
    assert_eq!(s.layout.cell_width, 32);
    assert_eq!(s.layout.cell_height, 32);
    assert_eq!(s.layout.columns, 10);
    assert_eq!(s.layout.rows, 10);
    assert_eq!(s.layout.cell_count(), 100);
    assert_eq!(ATLAS_CELL_SIZE_PX, 32);
    assert_eq!(texture_path(), "textures/sprite_sheet.png");
}

#[test]
fn cell_rects_follow_row_major_order() {
    let l = SpriteSheet::new().layout;
    assert_eq!(
        l.cell_rect(0),
        Some(CellRect { min_x: 0, min_y: 0, max_x: 32, max_y: 32 })
    );
    // Index 15 sits in column 5 of row 1.
    assert_eq!(
        l.cell_rect(15),
        Some(CellRect { min_x: 160, min_y: 32, max_x: 192, max_y: 64 })
    );
    assert_eq!(
        l.cell_rect(99),
        Some(CellRect { min_x: 288, min_y: 288, max_x: 320, max_y: 320 })
    );
    assert_eq!(l.cell_rect(100), None);
}

#[test]
fn player_spawns_scaled_six_times_at_the_origin() {
    let b = spawn_player();
    assert_eq!(b.atlas_index, PLAYER_ATLAS_INDEX);
    assert_eq!(b.atlas_index, 0);
    assert_eq!(b.transform.translation.x, 0);
    assert_eq!(b.transform.translation.y, 0);
    assert_eq!(b.transform.translation.z, 0);
    assert_eq!(b.transform.scale.x, PLAYER_SCALE_MILLI);
    assert_eq!(b.transform.scale.y, PLAYER_SCALE_MILLI);
    assert_eq!(b.transform.scale.z, PLAYER_SCALE_MILLI);
    // 6000 thousandths is a uniform 6x scale.
    assert_eq!(b.transform.scale.x as f64 / 1000.0, 6.0);
    assert_eq!(b.input_map.dual_axis_bindings.len(), 2);
}
