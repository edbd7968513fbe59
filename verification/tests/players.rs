use prop_hunt::camera::CameraMode;
use prop_hunt::crosshair::{bottom_loader_frame, Crosshair};
use prop_hunt::pause::GameState;
use prop_hunt::physics::{LayerMask, PhysicsLayers};
use prop_hunt::player::{
    player_input_enabled, player_role, InputControlKind, PeerKey, Player, PlayerAction, PlayerRole,
};
use prop_hunt::texture::{uv_debug_texture_data, UV_DEBUG_TEXTURE_SIZE};

#[test]
fn layer_bits() {
    assert_eq!(PhysicsLayers::default(), PhysicsLayers::Default);
    assert_eq!(PhysicsLayers::Default.to_bits(), 1);
    assert_eq!(PhysicsLayers::MapGeometry.to_bits(), 2);
    assert_eq!(PhysicsLayers::Prop.to_bits(), 4);
    assert_eq!(PhysicsLayers::Player.to_bits(), 8);
    assert_eq!(PhysicsLayers::all_bits(), 15);
}

#[test]
fn layer_mask_tests_follow_the_collision_engine() {
    let player = LayerMask::from_layer(PhysicsLayers::Player);
    let prop = LayerMask::from_layer(PhysicsLayers::Prop);
    assert!(player.has_all(player));
    assert!(!player.has_all(prop));
    assert!(LayerMask { bits: 0b1100 }.has_all(prop));
    assert!(!LayerMask { bits: 0b0011 }.has_all(prop));
    assert!(LayerMask { bits: 0b1010 }.has_all(LayerMask { bits: 0b0011 }));
    assert!(!LayerMask { bits: 0 }.has_all(LayerMask { bits: 0 }));
}

#[test]
fn roles_and_actions() {
    let me = PeerKey { kind: 1, id: 7 };
    assert_eq!(player_role(me, Player { peer: me }), PlayerRole::Local);
    assert_eq!(player_role(me, Player { peer: PeerKey { kind: 1, id: 8 } }), PlayerRole::Remote);
    assert_eq!(player_role(me, Player { peer: PeerKey { kind: 2, id: 7 } }), PlayerRole::Remote);
    assert_eq!(PlayerAction::Move.input_control_kind(), InputControlKind::DualAxis);
    assert_eq!(PlayerAction::Jump.input_control_kind(), InputControlKind::Button);
    assert_eq!(PlayerAction::Morph.input_control_kind(), InputControlKind::Button);
    assert!(player_input_enabled(GameState::Running, CameraMode::Playing));
    assert!(!player_input_enabled(GameState::Paused, CameraMode::Playing));
    assert!(!player_input_enabled(GameState::Running, CameraMode::Freecam));
}

#[test]
fn crosshair_ring_follows_the_cooldown() {
    let mut shown = false;
    let loading = Crosshair { bottom_loader: Some(500) };
    assert_eq!(bottom_loader_frame(&loading, &mut shown), Some(0));
    assert!(shown);
    assert_eq!(bottom_loader_frame(&loading, &mut shown), Some(500));
    let idle = Crosshair::default();
    assert_eq!(bottom_loader_frame(&idle, &mut shown), Some(0));
    assert!(!shown);
    assert_eq!(bottom_loader_frame(&idle, &mut shown), None);
}

#[test]
fn debug_texture_rows_turn_right() {
    let palette: [u8; 32] = [
        255, 102, 159, 255, 255, 159, 102, 255, 236, 255, 102, 255, 121, 255, 102, 255, 102, 255,
        198, 255, 102, 198, 255, 255, 121, 102, 255, 255, 236, 102, 255, 255,
    ];
    let mut expected = Vec::new();
    let mut row = palette;
    for _ in 0..8 {
        expected.extend_from_slice(&row);
        row.rotate_right(4);
    }
    assert_eq!(uv_debug_texture_data(), expected);
    assert_eq!(UV_DEBUG_TEXTURE_SIZE, 8);
}
