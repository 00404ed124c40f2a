//! Camera modes, and the command line each one sends.

use vstd::prelude::*;

verus! {

use vstd::string::StringSliceAdditionalSpecFns;
use crate::connection::commands::{
    spec_optional, CameraModeSetFixed, CameraModeSetFollow, CameraModeSetNormal,
    CameraModeSetThirdPerson, SerializableCommand,
};
use crate::connection::EntityId;

/// How the game camera is positioned.
#[derive(Debug, Clone, Copy, PartialEq, Eq)]
pub enum CameraMode {
    /// Locked in place.
    Fixed,
    /// Following an entity, or the player when none is given.
    Follow(Option<EntityId>),
    /// The normal first-person view of an entity, or of the player.
    Normal(Option<EntityId>),
    /// A third-person view of an entity, or of the player.
    ThirdPerson(Option<EntityId>),
}

/// The command line that switches the camera to the given mode.
pub open spec fn spec_mode_command(mode: CameraMode) -> Seq<u8> {
    match mode {
        CameraMode::Fixed => "camera.mode.setFixed()\n".spec_bytes(),
        CameraMode::Follow(target) => "camera.mode.setFollow(".spec_bytes() + spec_optional(
            target,
            false,
        ) + ")\n".spec_bytes(),
        CameraMode::Normal(target) => "camera.mode.setNormal(".spec_bytes() + spec_optional(
            target,
            false,
        ) + ")\n".spec_bytes(),
        CameraMode::ThirdPerson(target) => "camera.mode.setThirdPerson(".spec_bytes()
            + spec_optional(target, false) + ")\n".spec_bytes(),
    }
}

/// Serializes the command that switches the camera to the given mode.
pub fn mode_command(mode: &CameraMode) -> (r: Vec<u8>)
    ensures
        r@ == spec_mode_command(*mode),
{
    match mode {
        CameraMode::Fixed => (CameraModeSetFixed {}).to_command_bytes(),
        CameraMode::Follow(target) => (CameraModeSetFollow { target: *target }).to_command_bytes(),
        CameraMode::Normal(target) => (CameraModeSetNormal { target: *target }).to_command_bytes(),
        CameraMode::ThirdPerson(target) => (CameraModeSetThirdPerson {
            target: *target,
        }).to_command_bytes(),
    }
}

} // verus!
