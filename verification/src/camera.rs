//! The two cameras of the client, the player camera and the free camera,
//! and the switch between them.
use vstd::prelude::*;

verus! {

/// Which camera the player looks through.
#[derive(Clone, Copy, Debug, PartialEq, Eq, Structural)]
pub enum CameraMode {
    Playing,
    Freecam,
}

/// The switch that a toggle performed.
#[derive(Clone, Copy, Debug, PartialEq, Eq, Structural)]
pub enum CameraSwitch {
    /// Hand over to the free camera, tweening it out of the player camera.
    ToFreecam,
    /// Hand back to the player camera, tweening it in from the free camera.
    ToPlayer,
}

/// The camera mode and which of the two cameras renders.
#[derive(Clone, Copy, Debug, PartialEq, Eq, Structural)]
pub struct CameraRig {
    pub mode: CameraMode,
    pub player_camera_active: bool,
    pub freecam_active: bool,
}

impl CameraRig {
    /// The rig at start-up: playing through the player camera.
    pub fn new() -> (r: CameraRig)
        ensures
            r.mode == CameraMode::Playing,
            r.player_camera_active,
            !r.freecam_active,
            r.wf(),
    {
        CameraRig { mode: CameraMode::Playing, player_camera_active: true, freecam_active: false }
    }

    /// Exactly one camera renders, and it is the one the mode names.
    pub open spec fn wf(self) -> bool {
        &&& self.player_camera_active == !self.freecam_active
        &&& (self.mode == CameraMode::Freecam) == self.freecam_active
    }

    /// The rig after a toggle.
    pub open spec fn toggled(self) -> CameraRig {
        match self.mode {
            CameraMode::Playing => if self.freecam_active {
                self
            } else {
                CameraRig { mode: CameraMode::Freecam, player_camera_active: false, freecam_active: true }
            },
            CameraMode::Freecam => if !self.freecam_active {
                self
            } else {
                CameraRig { mode: CameraMode::Playing, player_camera_active: true, freecam_active: false }
            },
        }
    }

    /// The toggle key: while playing, hand over to the free camera unless it
    /// already renders; in free-camera mode, hand back to the player camera
    /// unless the free camera is already off. Returns the switch made, if any.
    pub fn toggle(&mut self) -> (r: Option<CameraSwitch>)
        ensures
            *final(self) == old(self).toggled(),
            r == (if *final(self) == *old(self) {
                None
            } else if old(self).mode == CameraMode::Playing {
                Some(CameraSwitch::ToFreecam)
            } else {
                Some(CameraSwitch::ToPlayer)
            }),
    {
        match self.mode {
            CameraMode::Playing => {
                if self.freecam_active {
                    return None;
                }
                self.mode = CameraMode::Freecam;
                self.player_camera_active = false;
                self.freecam_active = true;
                Some(CameraSwitch::ToFreecam)
            },
            CameraMode::Freecam => {
                if !self.freecam_active {
                    return None;
                }
                self.mode = CameraMode::Playing;
                self.player_camera_active = true;
                self.freecam_active = false;
                Some(CameraSwitch::ToPlayer)
            },
        }
    }
}

/// On a consistent rig every toggle switches cameras, keeps the rig
/// consistent, and a second toggle brings back the first state.
pub proof fn toggle_twice_restores(rig: CameraRig)
    requires
        rig.wf(),
    ensures
        rig.toggled() != rig,
        rig.toggled().wf(),
        rig.toggled().mode != rig.mode,
        rig.toggled().toggled() == rig,
{
}

/// The value of one movement axis from its two keys: +1, -1, or 0 when
/// both or neither are held.
pub fn key_axis(positive: bool, negative: bool) -> (r: i8)
    ensures
        r == (if positive { 1int } else { 0int }) - (if negative { 1int } else { 0int }),
{
    (positive as i8) - (negative as i8)
}

} // verus!
