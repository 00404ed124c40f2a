//! Commands of the Raspberry Juice server plugin.
use vstd::prelude::*;

verus! {

use vstd::string::StringSliceAdditionalSpecFns;
use super::{optional, push_bytes, spec_optional, CommandField, SerializableCommand, TileCoords};
use crate::connection::{ApiStr, EntityId, JavaEntityType};

/// Asks for every block type in a cuboid.
#[derive(Debug)]
pub struct WorldGetBlocks {
    pub coords_1: TileCoords,
    pub coords_2: TileCoords,
}

impl SerializableCommand for WorldGetBlocks {
    open spec fn spec_command_bytes(&self) -> Seq<u8> {
        "world.getBlocks(".spec_bytes()
            + self.coords_1.spec_field_bytes()
            + ",".spec_bytes()
            + self.coords_2.spec_field_bytes()
            + ")\n".spec_bytes()
    }

    open spec fn spec_has_response(&self) -> bool {
        true
    }

    fn to_command_bytes(&self) -> (r: Vec<u8>) {
        let mut buf: Vec<u8> = Vec::new();
        push_bytes(&mut buf, "world.getBlocks(".as_bytes());
        self.coords_1.push_field(&mut buf);
        push_bytes(&mut buf, ",".as_bytes());
        self.coords_2.push_field(&mut buf);
        push_bytes(&mut buf, ")\n".as_bytes());
        proof {
            assert(buf@ =~= self.spec_command_bytes());
        }
        buf
    }

    fn has_response(&self) -> (r: bool) {
        true
    }
}

/// Asks for the id of a named player; no name asks for the current player (Raspberry Jam).
#[derive(Debug)]
pub struct WorldGetPlayerId<'a> {
    pub name: Option<ApiStr<'a>>,
}

impl<'a> SerializableCommand for WorldGetPlayerId<'a> {
    open spec fn spec_command_bytes(&self) -> Seq<u8> {
        "world.getPlayerId(".spec_bytes()
            + spec_optional(self.name, false)
            + ")\n".spec_bytes()
    }

    open spec fn spec_has_response(&self) -> bool {
        true
    }

    fn to_command_bytes(&self) -> (r: Vec<u8>) {
        let mut buf: Vec<u8> = Vec::new();
        push_bytes(&mut buf, "world.getPlayerId(".as_bytes());
        let part = optional(&self.name, false);
        push_bytes(&mut buf, part.as_slice());
        push_bytes(&mut buf, ")\n".as_bytes());
        proof {
            assert(buf@ =~= self.spec_command_bytes());
        }
        buf
    }

    fn has_response(&self) -> (r: bool) {
        true
    }
}

/// Asks for the entities in the world, optionally of one type.
#[derive(Debug)]
pub struct WorldGetEntities {
    pub entity_type: Option<JavaEntityType>,
}

impl SerializableCommand for WorldGetEntities {
    open spec fn spec_command_bytes(&self) -> Seq<u8> {
        "world.getEntities(".spec_bytes()
            + spec_optional(self.entity_type, false)
            + ")\n".spec_bytes()
    }

    open spec fn spec_has_response(&self) -> bool {
        true
    }

    fn to_command_bytes(&self) -> (r: Vec<u8>) {
        let mut buf: Vec<u8> = Vec::new();
        push_bytes(&mut buf, "world.getEntities(".as_bytes());
        let part = optional(&self.entity_type, false);
        push_bytes(&mut buf, part.as_slice());
        push_bytes(&mut buf, ")\n".as_bytes());
        proof {
            assert(buf@ =~= self.spec_command_bytes());
        }
        buf
    }

    fn has_response(&self) -> (r: bool) {
        true
    }
}

/// Removes one entity from the world.
#[derive(Debug)]
pub struct WorldRemoveEntity {
    pub entity_id: EntityId,
}

impl SerializableCommand for WorldRemoveEntity {
    open spec fn spec_command_bytes(&self) -> Seq<u8> {
        "world.removeEntity(".spec_bytes()
            + self.entity_id.spec_field_bytes()
            + ")\n".spec_bytes()
    }

    open spec fn spec_has_response(&self) -> bool {
        false
    }

    fn to_command_bytes(&self) -> (r: Vec<u8>) {
        let mut buf: Vec<u8> = Vec::new();
        push_bytes(&mut buf, "world.removeEntity(".as_bytes());
        self.entity_id.push_field(&mut buf);
        push_bytes(&mut buf, ")\n".as_bytes());
        proof {
            assert(buf@ =~= self.spec_command_bytes());
        }
        buf
    }

    fn has_response(&self) -> (r: bool) {
        false
    }
}

/// Removes the world's entities, optionally only one type.
#[derive(Debug)]
pub struct WorldRemoveEntities {
    pub entity_type: Option<JavaEntityType>,
}

impl SerializableCommand for WorldRemoveEntities {
    open spec fn spec_command_bytes(&self) -> Seq<u8> {
        "world.removeEntities(".spec_bytes()
            + spec_optional(self.entity_type, false)
            + ")\n".spec_bytes()
    }

    open spec fn spec_has_response(&self) -> bool {
        false
    }

    fn to_command_bytes(&self) -> (r: Vec<u8>) {
        let mut buf: Vec<u8> = Vec::new();
        push_bytes(&mut buf, "world.removeEntities(".as_bytes());
        let part = optional(&self.entity_type, false);
        push_bytes(&mut buf, part.as_slice());
        push_bytes(&mut buf, ")\n".as_bytes());
        proof {
            assert(buf@ =~= self.spec_command_bytes());
        }
        buf
    }

    fn has_response(&self) -> (r: bool) {
        false
    }
}

/// Asks for the entities near the host player.
#[derive(Debug)]
pub struct PlayerGetEntities {
    pub distance: i32,
    pub entity_type: Option<JavaEntityType>,
}

impl SerializableCommand for PlayerGetEntities {
    open spec fn spec_command_bytes(&self) -> Seq<u8> {
        "player.getEntities(".spec_bytes()
            + self.distance.spec_field_bytes()
            + spec_optional(self.entity_type, true)
            + ")\n".spec_bytes()
    }

    open spec fn spec_has_response(&self) -> bool {
        true
    }

    fn to_command_bytes(&self) -> (r: Vec<u8>) {
        let mut buf: Vec<u8> = Vec::new();
        push_bytes(&mut buf, "player.getEntities(".as_bytes());
        self.distance.push_field(&mut buf);
        let part = optional(&self.entity_type, true);
        push_bytes(&mut buf, part.as_slice());
        push_bytes(&mut buf, ")\n".as_bytes());
        proof {
            assert(buf@ =~= self.spec_command_bytes());
        }
        buf
    }

    fn has_response(&self) -> (r: bool) {
        true
    }
}

/// Removes the entities near the host player.
#[derive(Debug)]
pub struct PlayerRemoveEntities {
    pub distance: i32,
    pub entity_type: Option<JavaEntityType>,
}

impl SerializableCommand for PlayerRemoveEntities {
    open spec fn spec_command_bytes(&self) -> Seq<u8> {
        "player.removeEntities(".spec_bytes()
            + self.distance.spec_field_bytes()
            + spec_optional(self.entity_type, true)
            + ")\n".spec_bytes()
    }

    open spec fn spec_has_response(&self) -> bool {
        false
    }

    fn to_command_bytes(&self) -> (r: Vec<u8>) {
        let mut buf: Vec<u8> = Vec::new();
        push_bytes(&mut buf, "player.removeEntities(".as_bytes());
        self.distance.push_field(&mut buf);
        let part = optional(&self.entity_type, true);
        push_bytes(&mut buf, part.as_slice());
        push_bytes(&mut buf, ")\n".as_bytes());
        proof {
            assert(buf@ =~= self.spec_command_bytes());
        }
        buf
    }

    fn has_response(&self) -> (r: bool) {
        false
    }
}

/// Asks for an entity's name.
#[derive(Debug)]
pub struct EntityGetName {
    pub entity_id: EntityId,
}

impl SerializableCommand for EntityGetName {
    open spec fn spec_command_bytes(&self) -> Seq<u8> {
        "entity.getName(".spec_bytes()
            + self.entity_id.spec_field_bytes()
            + ")\n".spec_bytes()
    }

    open spec fn spec_has_response(&self) -> bool {
        true
    }

    fn to_command_bytes(&self) -> (r: Vec<u8>) {
        let mut buf: Vec<u8> = Vec::new();
        push_bytes(&mut buf, "entity.getName(".as_bytes());
        self.entity_id.push_field(&mut buf);
        push_bytes(&mut buf, ")\n".as_bytes());
        proof {
            assert(buf@ =~= self.spec_command_bytes());
        }
        buf
    }

    fn has_response(&self) -> (r: bool) {
        true
    }
}

/// Asks for the chat posts seen since the last poll.
#[derive(Debug)]
pub struct EventsChatPosts {}

impl SerializableCommand for EventsChatPosts {
    open spec fn spec_command_bytes(&self) -> Seq<u8> {
        "events.chat.posts()\n".spec_bytes()
    }

    open spec fn spec_has_response(&self) -> bool {
        true
    }

    fn to_command_bytes(&self) -> (r: Vec<u8>) {
        let mut buf: Vec<u8> = Vec::new();
        push_bytes(&mut buf, "events.chat.posts()\n".as_bytes());
        proof {
            assert(buf@ =~= self.spec_command_bytes());
        }
        buf
    }

    fn has_response(&self) -> (r: bool) {
        true
    }
}

} // verus!
