//! Players: who controls them, the actions they take, and when their input
//! counts.
use vstd::prelude::*;
use crate::camera::CameraMode;
use crate::pause::GameState;

verus! {

/// A network peer, as the kind of its transport and its id within it.
#[derive(Clone, Copy, Debug, PartialEq, Eq, Structural)]
pub struct PeerKey {
    pub kind: u8,
    pub id: u64,
}

/// The player entity of a peer.
#[derive(Clone, Copy, Debug, PartialEq, Eq, Structural)]
pub struct Player {
    pub peer: PeerKey,
}

/// Whether a player is driven from this machine.
#[derive(Clone, Copy, Debug, PartialEq, Eq, Structural)]
pub enum PlayerRole {
    Local,
    Remote,
}

/// A player is local exactly when its peer is this machine's own peer.
pub fn player_role(local_peer: PeerKey, player: Player) -> (r: PlayerRole)
    ensures
        r == (if player.peer == local_peer { PlayerRole::Local } else { PlayerRole::Remote }),
{
    if player.peer.kind == local_peer.kind && player.peer.id == local_peer.id {
        PlayerRole::Local
    } else {
        PlayerRole::Remote
    }
}

/// What a player can do.
#[derive(Clone, Copy, Debug, PartialEq, Eq, Structural)]
pub enum PlayerAction {
    Move,
    Jump,
    Morph,
}

/// The shape of the input an action reads.
#[derive(Clone, Copy, Debug, PartialEq, Eq, Structural)]
pub enum InputControlKind {
    Button,
    Axis,
    DualAxis,
    TripleAxis,
}

impl PlayerAction {
    /// Moving reads a two-axis stick; jumping and morphing read a button.
    pub fn input_control_kind(&self) -> (r: InputControlKind)
        ensures
            r == (match *self {
                PlayerAction::Move => InputControlKind::DualAxis,
                PlayerAction::Jump => InputControlKind::Button,
                PlayerAction::Morph => InputControlKind::Button,
            }),
    {
        match self {
            PlayerAction::Move => InputControlKind::DualAxis,
            PlayerAction::Jump => InputControlKind::Button,
            PlayerAction::Morph => InputControlKind::Button,
        }
    }
}

/// Player input counts only while the game runs and the player camera is in
/// use; otherwise it is cleared and switched off.
pub fn player_input_enabled(client: GameState, camera: CameraMode) -> (r: bool)
    ensures
        r == (client == GameState::Running && camera == CameraMode::Playing),
{
    client == GameState::Running && camera == CameraMode::Playing
}

/// Client-side prediction of the local player runs only on a pure client. On
/// a host the server shares the world and simulates the player already.
pub fn client_prediction_enabled(server_exists: bool) -> (r: bool)
    ensures
        r == !server_exists,
{
    !server_exists
}

} // verus!
