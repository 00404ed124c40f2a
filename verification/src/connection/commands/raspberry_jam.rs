//! Commands of the Raspberry Jam server mod.
use vstd::prelude::*;

verus! {

use vstd::string::StringSliceAdditionalSpecFns;
use super::{optional, push_bytes, spec_optional, CommandField, SerializableCommand, TileCoords};
use crate::connection::{Dimension, EntityId};

/// Asks for every block type and data value in a cuboid.
#[derive(Debug)]
pub struct WorldGetBlocksWithData {
    pub coords_1: TileCoords,
    pub coords_2: TileCoords,
}

impl SerializableCommand for WorldGetBlocksWithData {
    open spec fn spec_command_bytes(&self) -> Seq<u8> {
        "world.getBlocksWithData(".spec_bytes()
            + self.coords_1.spec_field_bytes()
            + ",".spec_bytes()
            + self.coords_2.spec_field_bytes()
            + ")\n".spec_bytes()
    }

    open spec fn spec_has_response(&self) -> bool {
        true
    }

    fn to_command_bytes(&self) -> (r: Vec<u8>) {
        let mut buf: Vec<u8> = Vec::new();
        push_bytes(&mut buf, "world.getBlocksWithData(".as_bytes());
        self.coords_1.push_field(&mut buf);
        push_bytes(&mut buf, ",".as_bytes());
        self.coords_2.push_field(&mut buf);
        push_bytes(&mut buf, ")\n".as_bytes());
        proof {
            assert(buf@ =~= self.spec_command_bytes());
        }
        buf
    }

    fn has_response(&self) -> (r: bool) {
        true
    }
}

/// Moves an entity to another dimension.
#[derive(Debug)]
pub struct EntitySetDimension {
    pub entity_id: EntityId,
    pub dimension: Dimension,
}

impl SerializableCommand for EntitySetDimension {
    open spec fn spec_command_bytes(&self) -> Seq<u8> {
        "entity.setDimension(".spec_bytes()
            + self.entity_id.spec_field_bytes()
            + ",".spec_bytes()
            + self.dimension.spec_field_bytes()
            + ")\n".spec_bytes()
    }

    open spec fn spec_has_response(&self) -> bool {
        false
    }

    fn to_command_bytes(&self) -> (r: Vec<u8>) {
        let mut buf: Vec<u8> = Vec::new();
        push_bytes(&mut buf, "entity.setDimension(".as_bytes());
        self.entity_id.push_field(&mut buf);
        push_bytes(&mut buf, ",".as_bytes());
        self.dimension.push_field(&mut buf);
        push_bytes(&mut buf, ")\n".as_bytes());
        proof {
            assert(buf@ =~= self.spec_command_bytes());
        }
        buf
    }

    fn has_response(&self) -> (r: bool) {
        false
    }
}

/// Moves the host player to another dimension.
#[derive(Debug)]
pub struct PlayerSetDimension {
    pub dimension: Dimension,
}

impl SerializableCommand for PlayerSetDimension {
    open spec fn spec_command_bytes(&self) -> Seq<u8> {
        "player.setDimension(".spec_bytes()
            + self.dimension.spec_field_bytes()
            + ")\n".spec_bytes()
    }

    open spec fn spec_has_response(&self) -> bool {
        false
    }

    fn to_command_bytes(&self) -> (r: Vec<u8>) {
        let mut buf: Vec<u8> = Vec::new();
        push_bytes(&mut buf, "player.setDimension(".as_bytes());
        self.dimension.push_field(&mut buf);
        push_bytes(&mut buf, ")\n".as_bytes());
        proof {
            assert(buf@ =~= self.spec_command_bytes());
        }
        buf
    }

    fn has_response(&self) -> (r: bool) {
        false
    }
}

/// Asks which entity the camera is attached to.
#[derive(Debug)]
pub struct CameraGetEntityId {}

impl SerializableCommand for CameraGetEntityId {
    open spec fn spec_command_bytes(&self) -> Seq<u8> {
        "camera.getEntityId()\n".spec_bytes()
    }

    open spec fn spec_has_response(&self) -> bool {
        true
    }

    fn to_command_bytes(&self) -> (r: Vec<u8>) {
        let mut buf: Vec<u8> = Vec::new();
        push_bytes(&mut buf, "camera.getEntityId()\n".as_bytes());
        proof {
            assert(buf@ =~= self.spec_command_bytes());
        }
        buf
    }

    fn has_response(&self) -> (r: bool) {
        true
    }
}

/// Makes the camera follow an entity.
#[derive(Debug)]
pub struct CameraSetFollow {
    pub target: Option<EntityId>,
}

impl SerializableCommand for CameraSetFollow {
    open spec fn spec_command_bytes(&self) -> Seq<u8> {
        "camera.setFollow(".spec_bytes()
            + spec_optional(self.target, false)
            + ")\n".spec_bytes()
    }

    open spec fn spec_has_response(&self) -> bool {
        false
    }

    fn to_command_bytes(&self) -> (r: Vec<u8>) {
        let mut buf: Vec<u8> = Vec::new();
        push_bytes(&mut buf, "camera.setFollow(".as_bytes());
        let part = optional(&self.target, false);
        push_bytes(&mut buf, part.as_slice());
        push_bytes(&mut buf, ")\n".as_bytes());
        proof {
            assert(buf@ =~= self.spec_command_bytes());
        }
        buf
    }

    fn has_response(&self) -> (r: bool) {
        false
    }
}

/// Returns the camera to its normal mode.
#[derive(Debug)]
pub struct CameraSetNormal {
    pub target: Option<EntityId>,
}

impl SerializableCommand for CameraSetNormal {
    open spec fn spec_command_bytes(&self) -> Seq<u8> {
        "camera.setNormal(".spec_bytes()
            + spec_optional(self.target, false)
            + ")\n".spec_bytes()
    }

    open spec fn spec_has_response(&self) -> bool {
        false
    }

    fn to_command_bytes(&self) -> (r: Vec<u8>) {
        let mut buf: Vec<u8> = Vec::new();
        push_bytes(&mut buf, "camera.setNormal(".as_bytes());
        let part = optional(&self.target, false);
        push_bytes(&mut buf, part.as_slice());
        push_bytes(&mut buf, ")\n".as_bytes());
        proof {
            assert(buf@ =~= self.spec_command_bytes());
        }
        buf
    }

    fn has_response(&self) -> (r: bool) {
        false
    }
}

/// Puts the camera in debug mode.
#[derive(Debug)]
pub struct CameraSetDebug {}

impl SerializableCommand for CameraSetDebug {
    open spec fn spec_command_bytes(&self) -> Seq<u8> {
        "camera.setDebug()\n".spec_bytes()
    }

    open spec fn spec_has_response(&self) -> bool {
        false
    }

    fn to_command_bytes(&self) -> (r: Vec<u8>) {
        let mut buf: Vec<u8> = Vec::new();
        push_bytes(&mut buf, "camera.setDebug()\n".as_bytes());
        proof {
            assert(buf@ =~= self.spec_command_bytes());
        }
        buf
    }

    fn has_response(&self) -> (r: bool) {
        false
    }
}

} // verus!
