use prop_hunt::morphing::{
    client_morph_request, cooldown_frame, find_morph_player, first_grantable_request, plan_morphs,
    retarget, ClientMorph, ClientMorphRequests, MorphCandidate, MorphGrant, MorphTargetCheck,
    Retarget, MORPH_CAMERA_TWEEN_NANOS, MORPH_COOLDOWN_NANOS,
};
use prop_hunt::physics::{LayerMask, PhysicsLayers};
use prop_hunt::player::PeerKey;
use prop_hunt::time::Cooldown;

fn peer(id: u64) -> PeerKey {
    PeerKey { kind: 0, id }
}

fn player(entity: u64, id: u64, on_cooldown: bool) -> MorphCandidate {
    MorphCandidate {
        entity,
        peer: peer(id),
        layers: LayerMask::from_layer(PhysicsLayers::Player),
        on_cooldown,
    }
}

fn prop_request(target: u64, within_reach: bool) -> MorphTargetCheck {
    MorphTargetCheck {
        target,
        target_layers: Some(LayerMask::from_layer(PhysicsLayers::Prop)),
        within_reach,
    }
}

#[test]
fn first_eligible_player_is_chosen() {
    let mut prop_body = player(1, 5, false);
    prop_body.layers = LayerMask::from_layer(PhysicsLayers::Prop);
    let players = vec![prop_body, player(2, 5, true), player(3, 5, false), player(4, 5, false)];
    assert_eq!(find_morph_player(&players, peer(5)), Some(2));
    assert_eq!(find_morph_player(&players, peer(6)), None);
}

#[test]
fn first_grantable_request_skips_taken_far_and_non_props() {
    let reqs = vec![
        prop_request(10, true),
        prop_request(11, false),
        MorphTargetCheck { target: 12, target_layers: None, within_reach: true },
        MorphTargetCheck {
            target: 13,
            target_layers: Some(LayerMask::from_layer(PhysicsLayers::MapGeometry)),
            within_reach: true,
        },
        prop_request(14, true),
    ];
    assert_eq!(first_grantable_request(&reqs, &vec![10]), Some(4));
    assert_eq!(first_grantable_request(&reqs, &vec![]), Some(0));
    assert_eq!(first_grantable_request(&reqs, &vec![10, 14]), None);
}

#[test]
fn one_target_goes_to_the_first_client_only() {
    let players = vec![player(1, 100, false), player(2, 200, false), player(3, 300, true)];
    let clients = vec![
        ClientMorphRequests { peer: peer(100), requests: vec![prop_request(50, true), prop_request(51, true)] },
        ClientMorphRequests { peer: peer(200), requests: vec![prop_request(50, true), prop_request(52, true)] },
        ClientMorphRequests { peer: peer(300), requests: vec![prop_request(53, true)] },
        ClientMorphRequests { peer: peer(400), requests: vec![prop_request(54, true)] },
    ];
    let grants = plan_morphs(&players, &clients);
    assert_eq!(
        grants,
        vec![
            MorphGrant { client: 0, request: 0, player_entity: 1, peer: peer(100), target: 50 },
            MorphGrant { client: 1, request: 1, player_entity: 2, peer: peer(200), target: 52 },
        ]
    );
}

#[test]
fn client_requests_and_retargeting() {
    assert_eq!(
        client_morph_request(true, true, Some(9), true),
        Some(ClientMorph { target: 9, cooldown_nanos: MORPH_COOLDOWN_NANOS, camera_tween_nanos: MORPH_CAMERA_TWEEN_NANOS })
    );
    assert_eq!(MORPH_COOLDOWN_NANOS, 1_000_000_000);
    assert_eq!(MORPH_CAMERA_TWEEN_NANOS, 300_000_000);
    assert_eq!(client_morph_request(false, true, Some(9), true), None);
    assert_eq!(client_morph_request(true, false, Some(9), true), None);
    assert_eq!(client_morph_request(true, true, None, true), None);
    assert_eq!(client_morph_request(true, true, Some(9), false), None);

    assert_eq!(retarget(true, Some(1), Some(2)), Retarget { remove: Some(1), insert: Some(2) });
    assert_eq!(retarget(true, Some(1), Some(1)), Retarget { remove: None, insert: None });
    assert_eq!(retarget(true, Some(1), None), Retarget { remove: Some(1), insert: None });
    assert_eq!(retarget(true, None, Some(3)), Retarget { remove: None, insert: Some(3) });
    assert_eq!(retarget(false, Some(1), Some(2)), Retarget { remove: None, insert: None });
}

#[test]
fn cooldown_frames_drive_the_crosshair() {
    let mut loader = None;
    let mut cd = Cooldown::new(1_000);
    assert!(!cooldown_frame(&mut cd, 300, true, &mut loader));
    assert_eq!(loader, Some(700));
    let mut other = Cooldown::new(5_000);
    assert!(!cooldown_frame(&mut other, 300, false, &mut loader));
    assert_eq!(loader, Some(700));
    assert!(cooldown_frame(&mut cd, 700, true, &mut loader));
    assert_eq!(loader, None);
}
