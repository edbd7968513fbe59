//! Morphing: a player takes over a prop. The server arbitrates the requests
//! of all clients in a frame; the client decides when to ask and which prop
//! it aims at.
use vstd::prelude::*;
use crate::physics::{shares_layer, LayerMask, PhysicsLayers};
use crate::player::PeerKey;
use crate::time::{Cooldown, sat_sub};

verus! {

/// How long a player who just morphed must wait before morphing again: 1 s.
pub const MORPH_COOLDOWN_NANOS: u128 = 1_000_000_000;

/// How long the camera glides to the new body after a morph: 300 ms.
pub const MORPH_CAMERA_TWEEN_NANOS: u128 = 300_000_000;

/// A player entity as the server sees it in a frame.
#[derive(Clone, Copy, Debug)]
pub struct MorphCandidate {
    pub entity: u64,
    pub peer: PeerKey,
    pub layers: LayerMask,
    pub on_cooldown: bool,
}

/// A requested target as the server found it: its collision layers where it
/// is a prop entity, and whether it lies within reach of the requesting
/// player.
#[derive(Clone, Copy, Debug)]
pub struct MorphTargetCheck {
    pub target: u64,
    pub target_layers: Option<LayerMask>,
    pub within_reach: bool,
}

/// The morph requests that one client sent in this frame, in order.
#[derive(Clone, Debug)]
pub struct ClientMorphRequests {
    pub peer: PeerKey,
    pub requests: Vec<MorphTargetCheck>,
}

/// A granted morph: the player of client `client` leaves `player_entity`
/// and takes over `target`, as asked in request `request`.
#[derive(Clone, Copy, Debug, PartialEq, Eq, Structural)]
pub struct MorphGrant {
    pub client: usize,
    pub request: usize,
    pub player_entity: u64,
    pub peer: PeerKey,
    pub target: u64,
}

/// The bit of the player layer.
pub open spec fn player_bits() -> u32 {
    PhysicsLayers::Player.spec_bits()
}

/// The bit of the prop layer.
pub open spec fn prop_bits() -> u32 {
    PhysicsLayers::Prop.spec_bits()
}

/// A player entity may morph for `peer`: it is that peer's, it is on the
/// player layer, and it is not cooling down.
pub open spec fn can_morph(c: MorphCandidate, peer: PeerKey) -> bool {
    &&& c.peer == peer
    &&& shares_layer(c.layers.bits, player_bits())
    &&& !c.on_cooldown
}

/// `i` is the first player entity that may morph for `peer`.
pub open spec fn is_first_morph_player(players: Seq<MorphCandidate>, peer: PeerKey, i: int) -> bool {
    &&& 0 <= i < players.len()
    &&& can_morph(players[i], peer)
    &&& forall|j: int| 0 <= j < i ==> !can_morph(#[trigger] players[j], peer)
}

/// The first player entity that may morph for `peer`, if any.
pub open spec fn first_morph_player(players: Seq<MorphCandidate>, peer: PeerKey) -> Option<int> {
    if exists|i: int| is_first_morph_player(players, peer, i) {
        Some(choose|i: int| is_first_morph_player(players, peer, i))
    } else {
        None
    }
}

/// A request can be granted: its target is not taken yet in this frame, it
/// is a prop entity on the prop layer, and it lies within reach.
pub open spec fn grantable(req: MorphTargetCheck, claimed: Seq<u64>) -> bool {
    &&& !claimed.contains(req.target)
    &&& req.target_layers is Some
    &&& shares_layer(req.target_layers->0.bits, prop_bits())
    &&& req.within_reach
}

/// `i` is the first request that can be granted.
pub open spec fn is_first_grantable(reqs: Seq<MorphTargetCheck>, claimed: Seq<u64>, i: int) -> bool {
    &&& 0 <= i < reqs.len()
    &&& grantable(reqs[i], claimed)
    &&& forall|j: int| 0 <= j < i ==> !grantable(#[trigger] reqs[j], claimed)
}

/// The first request that can be granted, if any.
pub open spec fn first_grantable(reqs: Seq<MorphTargetCheck>, claimed: Seq<u64>) -> Option<int> {
    if exists|i: int| is_first_grantable(reqs, claimed, i) {
        Some(choose|i: int| is_first_grantable(reqs, claimed, i))
    } else {
        None
    }
}

/// The targets taken by a list of grants.
pub open spec fn claimed_targets(grants: Seq<MorphGrant>) -> Seq<u64> {
    grants.map_values(|g: MorphGrant| g.target)
}

/// The grant for client `ci`, given the targets already taken: its first
/// player entity that may morph, and its first request that can be granted.
pub open spec fn client_grant(
    players: Seq<MorphCandidate>,
    client: ClientMorphRequests,
    ci: int,
    claimed: Seq<u64>,
) -> Option<MorphGrant> {
    match first_morph_player(players, client.peer) {
        None => None,
        Some(p) => match first_grantable(client.requests@, claimed) {
            None => None,
            Some(r) => Some(
                MorphGrant {
                    client: ci as usize,
                    request: r as usize,
                    player_entity: players[p].entity,
                    peer: players[p].peer,
                    target: client.requests@[r].target,
                },
            ),
        },
    }
}

/// The grants of a frame: clients are served in order, each at most once,
/// and a target taken by one client is no longer available to later ones.
pub open spec fn plan_spec(players: Seq<MorphCandidate>, clients: Seq<ClientMorphRequests>) -> Seq<MorphGrant>
    decreases clients.len(),
{
    if clients.len() == 0 {
        Seq::empty()
    } else {
        let prev = plan_spec(players, clients.drop_last());
        match client_grant(players, clients.last(), clients.len() - 1, claimed_targets(prev)) {
            Some(g) => prev.push(g),
            None => prev,
        }
    }
}

proof fn first_morph_player_is(players: Seq<MorphCandidate>, peer: PeerKey, i: int)
    requires
        is_first_morph_player(players, peer, i),
    ensures
        first_morph_player(players, peer) == Some(i),
{
    let k = choose|k: int| is_first_morph_player(players, peer, k);
    assert(is_first_morph_player(players, peer, k));
    if k < i {
        assert(!can_morph(players[k], peer));
    } else if i < k {
        assert(!can_morph(players[i], peer));
    }
}

proof fn first_grantable_is(reqs: Seq<MorphTargetCheck>, claimed: Seq<u64>, i: int)
    requires
        is_first_grantable(reqs, claimed, i),
    ensures
        first_grantable(reqs, claimed) == Some(i),
{
    let k = choose|k: int| is_first_grantable(reqs, claimed, k);
    assert(is_first_grantable(reqs, claimed, k));
    if k < i {
        assert(!grantable(reqs[k], claimed));
    } else if i < k {
        assert(!grantable(reqs[i], claimed));
    }
}

/// The first player entity that may morph for `peer`: belonging to that
/// peer, on the player layer, and not cooling down.
pub fn find_morph_player(players: &Vec<MorphCandidate>, peer: PeerKey) -> (r: Option<usize>)
    ensures
        match r {
            Some(i) => is_first_morph_player(players@, peer, i as int),
            None => forall|j: int| 0 <= j < players.len() ==> !can_morph(#[trigger] players@[j], peer),
        },
        r matches Some(i) ==> first_morph_player(players@, peer) == Some(i as int),
        r is None ==> first_morph_player(players@, peer) is None,
{
    let player_mask = LayerMask::from_layer(PhysicsLayers::Player);
    let mut i: usize = 0;
    while i < players.len()
        invariant
            i <= players.len(),
            player_mask.bits == player_bits(),
            forall|j: int| 0 <= j < i ==> !can_morph(#[trigger] players@[j], peer),
        decreases players.len() - i,
    {
        let c = players[i];
        if c.peer.kind == peer.kind && c.peer.id == peer.id && c.layers.has_all(player_mask) && !c.on_cooldown {
            proof {
                first_morph_player_is(players@, peer, i as int);
            }
            return Some(i);
        }
        i = i + 1;
    }
    None
}

/// Whether `target` is among the targets already taken.
fn is_claimed(claimed: &Vec<u64>, target: u64) -> (r: bool)
    ensures
        r == claimed@.contains(target),
{
    let mut i: usize = 0;
    while i < claimed.len()
        invariant
            i <= claimed.len(),
            forall|j: int| 0 <= j < i ==> claimed@[j] != target,
        decreases claimed.len() - i,
    {
        if claimed[i] == target {
            assert(claimed@[i as int] == target);
            return true;
        }
        i = i + 1;
    }
    false
}

/// The first request that can be granted, given the targets already taken.
pub fn first_grantable_request(requests: &Vec<MorphTargetCheck>, claimed: &Vec<u64>) -> (r: Option<usize>)
    ensures
        match r {
            Some(i) => is_first_grantable(requests@, claimed@, i as int),
            None => forall|j: int| 0 <= j < requests.len() ==> !grantable(#[trigger] requests@[j], claimed@),
        },
        r matches Some(i) ==> first_grantable(requests@, claimed@) == Some(i as int),
        r is None ==> first_grantable(requests@, claimed@) is None,
{
    let prop_mask = LayerMask::from_layer(PhysicsLayers::Prop);
    let mut i: usize = 0;
    while i < requests.len()
        invariant
            i <= requests.len(),
            prop_mask.bits == prop_bits(),
            forall|j: int| 0 <= j < i ==> !grantable(#[trigger] requests@[j], claimed@),
        decreases requests.len() - i,
    {
        let req = requests[i];
        if !is_claimed(claimed, req.target) && req.within_reach {
            match req.target_layers {
                Some(layers) => {
                    if layers.has_all(prop_mask) {
                        proof {
                            first_grantable_is(requests@, claimed@, i as int);
                        }
                        return Some(i);
                    }
                },
                None => {},
            }
        }
        i = i + 1;
    }
    None
}

/// Arbitrates the morph requests of one frame. Clients are served in order;
/// a client is granted at most one morph: its first request whose target is
/// free, is a prop and lies within reach, carried out by its first player
/// entity that may morph. A target granted to one client is taken for the
/// rest of the frame.
pub fn plan_morphs(players: &Vec<MorphCandidate>, clients: &Vec<ClientMorphRequests>) -> (grants: Vec<MorphGrant>)
    ensures
        grants@ == plan_spec(players@, clients@),
{
    let mut grants: Vec<MorphGrant> = Vec::new();
    let mut claimed: Vec<u64> = Vec::new();
    let n = clients.len();
    let mut ci: usize = 0;
    assert(clients@.take(0) =~= Seq::<ClientMorphRequests>::empty());
    assert(claimed@ =~= claimed_targets(grants@));
    while ci < n
        invariant
            ci <= n,
            n == clients.len(),
            grants@ == plan_spec(players@, clients@.take(ci as int)),
            claimed@ == claimed_targets(grants@),
        decreases n - ci,
    {
        let client = &clients[ci];
        let ghost prev = grants@;
        proof {
            assert(clients@.take(ci as int + 1).drop_last() =~= clients@.take(ci as int));
            assert(clients@.take(ci as int + 1).last() == clients@[ci as int]);
        }
        match find_morph_player(players, client.peer) {
            None => {},
            Some(p) => {
                match first_grantable_request(&client.requests, &claimed) {
                    None => {},
                    Some(r) => {
                        let target = client.requests[r].target;
                        let g = MorphGrant {
                            client: ci,
                            request: r,
                            player_entity: players[p].entity,
                            peer: players[p].peer,
                            target,
                        };
                        grants.push(g);
                        claimed.push(target);
                        proof {
                            assert(claimed@ =~= claimed_targets(grants@));
                        }
                    },
                }
            },
        }
        ci = ci + 1;
    }
    assert(clients@.take(n as int) =~= clients@);
    grants
}

/// The lengths of a list of client requests fit the machine, as those of
/// vectors do.
pub open spec fn fits_machine(clients: Seq<ClientMorphRequests>) -> bool {
    &&& clients.len() <= usize::MAX
    &&& forall|c: int| 0 <= c < clients.len() ==> (#[trigger] clients[c]).requests@.len() <= usize::MAX
}

/// Each client is served on its own: adding a client at the end of a frame
/// keeps every earlier grant, and adds a grant for the new client exactly
/// when one of its peer's player entities may morph and one of its requests
/// is still free; that grant uses the first such entity and the first such
/// request. Earlier clients that were not granted make no difference.
pub proof fn each_client_served_on_its_own(
    players: Seq<MorphCandidate>,
    clients: Seq<ClientMorphRequests>,
    c: ClientMorphRequests,
)
    ensures
        ({
            let before = plan_spec(players, clients);
            let after = plan_spec(players, clients.push(c));
            let claimed = claimed_targets(before);
            if first_morph_player(players, c.peer) is Some && first_grantable(c.requests@, claimed) is Some {
                let p = first_morph_player(players, c.peer)->0;
                let r = first_grantable(c.requests@, claimed)->0;
                &&& is_first_morph_player(players, c.peer, p)
                &&& is_first_grantable(c.requests@, claimed, r)
                &&& after == before.push(
                    MorphGrant {
                        client: clients.len() as usize,
                        request: r as usize,
                        player_entity: players[p].entity,
                        peer: players[p].peer,
                        target: c.requests@[r].target,
                    },
                )
            } else {
                after == before
            }
        }),
{
    let cs = clients.push(c);
    assert(cs.drop_last() =~= clients);
    assert(cs.last() == c);
    let claimed = claimed_targets(plan_spec(players, clients));
    if first_morph_player(players, c.peer) is Some {
        let w = choose|i: int| is_first_morph_player(players, c.peer, i);
    }
    if first_grantable(c.requests@, claimed) is Some {
        let w = choose|i: int| is_first_grantable(c.requests@, claimed, i);
    }
}

/// A grant names a client of the frame whose peer's player entity may morph,
/// and one of that client's requests, whose target is a prop within reach.
pub open spec fn grant_is_sound(players: Seq<MorphCandidate>, clients: Seq<ClientMorphRequests>, g: MorphGrant) -> bool {
    &&& 0 <= g.client < clients.len()
    &&& 0 <= g.request < clients[g.client as int].requests@.len()
    &&& g.target == clients[g.client as int].requests@[g.request as int].target
    &&& g.peer == clients[g.client as int].peer
    &&& exists|p: int| #![trigger players[p]]
        0 <= p < players.len() && players[p].entity == g.player_entity && can_morph(players[p], g.peer)
    &&& ({
        let req = clients[g.client as int].requests@[g.request as int];
        &&& req.target_layers is Some
        &&& shares_layer(req.target_layers->0.bits, prop_bits())
        &&& req.within_reach
    })
}

/// The properties of the grants of a frame that the laws state.
pub open spec fn plan_is_fair_spec(players: Seq<MorphCandidate>, clients: Seq<ClientMorphRequests>) -> bool {
    let gs = plan_spec(players, clients);
    &&& forall|i: int, j: int| 0 <= i < j < gs.len() ==> (#[trigger] gs[i]).client < (#[trigger] gs[j]).client
    &&& forall|i: int, j: int| 0 <= i < j < gs.len() ==> (#[trigger] gs[i]).target != (#[trigger] gs[j]).target
    &&& forall|i: int| 0 <= i < gs.len() ==> grant_is_sound(players, clients, #[trigger] gs[i])
}

/// The grants of a frame name clients in increasing order, so no client is
/// granted twice; no target is granted twice; every grant is carried out by
/// a player entity of the client's peer that may morph, and aims at a
/// requested target that is a prop within reach.
pub proof fn plan_is_fair(players: Seq<MorphCandidate>, clients: Seq<ClientMorphRequests>)
    requires
        fits_machine(clients),
    ensures
        plan_is_fair_spec(players, clients),
    decreases clients.len(),
{
    if clients.len() > 0 {
        let dl = clients.drop_last();
        assert forall|c: int| 0 <= c < dl.len() implies (#[trigger] dl[c]).requests@.len() <= usize::MAX by {
            assert(dl[c] == clients[c]);
        }
        plan_is_fair(players, dl);
        let prev = plan_spec(players, dl);
        let ci = clients.len() - 1;
        let last = clients.last();
        assert(last == clients[ci]);
        let claimed = claimed_targets(prev);
        assert forall|i: int| 0 <= i < prev.len() implies grant_is_sound(players, clients, #[trigger] prev[i]) by {
            assert(grant_is_sound(players, dl, prev[i]));
            assert(dl[prev[i].client as int] == clients[prev[i].client as int]);
        }
        match client_grant(players, last, ci, claimed) {
            Some(g) => {
                let gs = prev.push(g);
                assert(gs == plan_spec(players, clients));
                let p = first_morph_player(players, last.peer)->0;
                let r = first_grantable(last.requests@, claimed)->0;
                assert(is_first_morph_player(players, last.peer, p)) by {
                    let w = choose|i: int| is_first_morph_player(players, last.peer, i);
                }
                assert(is_first_grantable(last.requests@, claimed, r)) by {
                    let w = choose|i: int| is_first_grantable(last.requests@, claimed, i);
                }
                assert(last.requests@.len() <= usize::MAX);
                assert(g.client as int == ci);
                assert(g.request as int == r);
                assert(grant_is_sound(players, clients, g)) by {
                    assert(players[p].entity == g.player_entity);
                }
                assert forall|i: int| 0 <= i < prev.len() implies (#[trigger] gs[i]).target != g.target by {
                    assert(claimed[i] == prev[i].target);
                    assert(claimed.contains(prev[i].target));
                }
                assert forall|i: int| 0 <= i < gs.len() implies grant_is_sound(players, clients, #[trigger] gs[i]) by {
                    if i < prev.len() {
                        assert(gs[i] == prev[i]);
                    } else {
                        assert(gs[i] == g);
                    }
                }
                assert forall|i: int, j: int| 0 <= i < j < gs.len() implies (#[trigger] gs[i]).client < (#[trigger] gs[j]).client by {
                    assert(gs[i] == prev[i]);
                    assert(grant_is_sound(players, dl, prev[i]));
                    if j < prev.len() {
                        assert(gs[j] == prev[j]);
                    } else {
                        assert(gs[j] == g);
                    }
                }
                assert forall|i: int, j: int| 0 <= i < j < gs.len() implies (#[trigger] gs[i]).target != (#[trigger] gs[j]).target by {
                    assert(gs[i] == prev[i]);
                    if j < prev.len() {
                        assert(gs[j] == prev[j]);
                    } else {
                        assert(gs[j] == g);
                    }
                }
            },
            None => {
                assert(prev == plan_spec(players, clients));
            },
        }
    }
}

/// What the client does when the morph button is pressed: ask the server
/// for `target`, put the body it is about to take on cooldown, and glide the
/// camera over.
#[derive(Clone, Copy, Debug, PartialEq, Eq, Structural)]
pub struct ClientMorph {
    pub target: u64,
    pub cooldown_nanos: u128,
    pub camera_tween_nanos: u128,
}

/// The client asks to morph only when it can send, its player is ready (not
/// cooling down), a prop is aimed at, and the morph button was just pressed.
pub fn client_morph_request(
    can_send: bool,
    player_ready: bool,
    target: Option<u64>,
    morph_just_pressed: bool,
) -> (r: Option<ClientMorph>)
    ensures
        r == (if can_send && player_ready && target is Some && morph_just_pressed {
            Some(ClientMorph {
                target: target->0,
                cooldown_nanos: MORPH_COOLDOWN_NANOS,
                camera_tween_nanos: MORPH_CAMERA_TWEEN_NANOS,
            })
        } else {
            None
        }),
{
    if !can_send || !player_ready || !morph_just_pressed {
        return None;
    }
    match target {
        Some(t) => Some(ClientMorph {
            target: t,
            cooldown_nanos: MORPH_COOLDOWN_NANOS,
            camera_tween_nanos: MORPH_CAMERA_TWEEN_NANOS,
        }),
        None => None,
    }
}

/// How the highlighted prop changes: the mark to take off, and the mark to
/// put on.
#[derive(Clone, Copy, Debug, PartialEq, Eq, Structural)]
pub struct Retarget {
    pub remove: Option<u64>,
    pub insert: Option<u64>,
}

/// The highlighted prop after a retarget is carried out.
pub open spec fn retargeted(old_target: Option<u64>, action: Retarget) -> Option<u64> {
    match action.insert {
        Some(t) => Some(t),
        None => match action.remove {
            Some(_) => None,
            None => old_target,
        },
    }
}

/// Moves the highlight to the prop the camera ray hits. While the local
/// player cannot morph nothing changes; a ray that hits nothing clears the
/// highlight; a ray on the highlighted prop keeps it.
pub fn retarget(player_ready: bool, old_target: Option<u64>, hit: Option<u64>) -> (r: Retarget)
    ensures
        !player_ready ==> r == (Retarget { remove: None, insert: None }),
        player_ready ==> retargeted(old_target, r) == hit,
        player_ready ==> (r.remove == (if old_target != hit { old_target } else { None })),
        player_ready ==> (r.insert == (if old_target != hit { hit } else { None })),
{
    if !player_ready {
        return Retarget { remove: None, insert: None };
    }
    match hit {
        None => Retarget { remove: old_target, insert: None },
        Some(h) => match old_target {
            Some(o) => if o == h {
                Retarget { remove: None, insert: None }
            } else {
                Retarget { remove: Some(o), insert: Some(h) }
            },
            None => Retarget { remove: None, insert: Some(h) },
        },
    }
}

/// Runs a morph cooldown down by a frame. Returns whether it is over, so
/// that it is taken off. The crosshair loader is cleared when a cooldown
/// ends, and shows what remains of the local player's cooldown otherwise.
pub fn cooldown_frame(cooldown: &mut Cooldown, delta_nanos: u128, is_local_player: bool, loader: &mut Option<u128>) -> (over: bool)
    ensures
        final(cooldown).remaining_nanos == sat_sub(old(cooldown).remaining_nanos, delta_nanos),
        over == (final(cooldown).remaining_nanos == 0),
        *final(loader) == (if over {
            None
        } else if is_local_player {
            Some(final(cooldown).remaining_nanos)
        } else {
            *old(loader)
        }),
{
    let over = cooldown.tick(delta_nanos);
    if over {
        *loader = None;
    } else if is_local_player {
        *loader = Some(cooldown.remaining_nanos);
    }
    over
}

} // verus!
