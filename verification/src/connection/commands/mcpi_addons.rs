//! Commands of the MCPI Addons mod.
use vstd::prelude::*;

verus! {

use vstd::string::StringSliceAdditionalSpecFns;
use super::{int_bytes, optional, push_bytes, push_i64, spec_optional, CommandField, SerializableCommand};
use crate::connection::{ApiStr, ChatString, EntityId, MCPIExtrasEntityType, MCPIExtrasKey, SheepColor, Tile};

/// Writes a debug line to the game's log.
#[derive(Debug)]
pub struct CustomLogDebug<'a> {
    pub message: ApiStr<'a>,
}

impl<'a> SerializableCommand for CustomLogDebug<'a> {
    open spec fn spec_command_bytes(&self) -> Seq<u8> {
        "custom.log.debug(".spec_bytes()
            + self.message.spec_field_bytes()
            + ")\n".spec_bytes()
    }

    open spec fn spec_has_response(&self) -> bool {
        false
    }

    fn to_command_bytes(&self) -> (r: Vec<u8>) {
        let mut buf: Vec<u8> = Vec::new();
        push_bytes(&mut buf, "custom.log.debug(".as_bytes());
        self.message.push_field(&mut buf);
        push_bytes(&mut buf, ")\n".as_bytes());
        proof {
            assert(buf@ =~= self.spec_command_bytes());
        }
        buf
    }

    fn has_response(&self) -> (r: bool) {
        false
    }
}

/// Writes an info line to the game's log.
#[derive(Debug)]
pub struct CustomLogInfo<'a> {
    pub message: ApiStr<'a>,
}

impl<'a> SerializableCommand for CustomLogInfo<'a> {
    open spec fn spec_command_bytes(&self) -> Seq<u8> {
        "custom.log.info(".spec_bytes()
            + self.message.spec_field_bytes()
            + ")\n".spec_bytes()
    }

    open spec fn spec_has_response(&self) -> bool {
        false
    }

    fn to_command_bytes(&self) -> (r: Vec<u8>) {
        let mut buf: Vec<u8> = Vec::new();
        push_bytes(&mut buf, "custom.log.info(".as_bytes());
        self.message.push_field(&mut buf);
        push_bytes(&mut buf, ")\n".as_bytes());
        proof {
            assert(buf@ =~= self.spec_command_bytes());
        }
        buf
    }

    fn has_response(&self) -> (r: bool) {
        false
    }
}

/// Writes a warning line to the game's log.
#[derive(Debug)]
pub struct CustomLogWarn<'a> {
    pub message: ApiStr<'a>,
}

impl<'a> SerializableCommand for CustomLogWarn<'a> {
    open spec fn spec_command_bytes(&self) -> Seq<u8> {
        "custom.log.warn(".spec_bytes()
            + self.message.spec_field_bytes()
            + ")\n".spec_bytes()
    }

    open spec fn spec_has_response(&self) -> bool {
        false
    }

    fn to_command_bytes(&self) -> (r: Vec<u8>) {
        let mut buf: Vec<u8> = Vec::new();
        push_bytes(&mut buf, "custom.log.warn(".as_bytes());
        self.message.push_field(&mut buf);
        push_bytes(&mut buf, ")\n".as_bytes());
        proof {
            assert(buf@ =~= self.spec_command_bytes());
        }
        buf
    }

    fn has_response(&self) -> (r: bool) {
        false
    }
}

/// Writes an error line to the game's log.
#[derive(Debug)]
pub struct CustomLogErr<'a> {
    pub message: ApiStr<'a>,
}

impl<'a> SerializableCommand for CustomLogErr<'a> {
    open spec fn spec_command_bytes(&self) -> Seq<u8> {
        "custom.log.err(".spec_bytes()
            + self.message.spec_field_bytes()
            + ")\n".spec_bytes()
    }

    open spec fn spec_has_response(&self) -> bool {
        false
    }

    fn to_command_bytes(&self) -> (r: Vec<u8>) {
        let mut buf: Vec<u8> = Vec::new();
        push_bytes(&mut buf, "custom.log.err(".as_bytes());
        self.message.push_field(&mut buf);
        push_bytes(&mut buf, ")\n".as_bytes());
        proof {
            assert(buf@ =~= self.spec_command_bytes());
        }
        buf
    }

    fn has_response(&self) -> (r: bool) {
        false
    }
}

/// Asks for the selected hotbar slot.
#[derive(Debug)]
pub struct CustomInventoryGetSlot {}

impl SerializableCommand for CustomInventoryGetSlot {
    open spec fn spec_command_bytes(&self) -> Seq<u8> {
        "custom.inventory.getSlot()\n".spec_bytes()
    }

    open spec fn spec_has_response(&self) -> bool {
        true
    }

    fn to_command_bytes(&self) -> (r: Vec<u8>) {
        let mut buf: Vec<u8> = Vec::new();
        push_bytes(&mut buf, "custom.inventory.getSlot()\n".as_bytes());
        proof {
            assert(buf@ =~= self.spec_command_bytes());
        }
        buf
    }

    fn has_response(&self) -> (r: bool) {
        true
    }
}

/// Puts an item in the player's inventory without checks; absent fields are sent as -2.
#[derive(Debug)]
pub struct CustomInventoryUnsafeGive {
    pub id: Option<i32>,
    pub auxillary: Option<i32>,
    pub count: Option<i32>,
}

impl SerializableCommand for CustomInventoryUnsafeGive {
    open spec fn spec_command_bytes(&self) -> Seq<u8> {
        "custom.inventory.give(".spec_bytes()
            + (match self.id { Option::Some(v) => int_bytes(v as int), Option::None => int_bytes(-2) })
            + "|".spec_bytes()
            + (match self.auxillary { Option::Some(v) => int_bytes(v as int), Option::None => int_bytes(-2) })
            + "|".spec_bytes()
            + (match self.count { Option::Some(v) => int_bytes(v as int), Option::None => int_bytes(-2) })
            + ")\n".spec_bytes()
    }

    open spec fn spec_has_response(&self) -> bool {
        false
    }

    fn to_command_bytes(&self) -> (r: Vec<u8>) {
        let mut buf: Vec<u8> = Vec::new();
        push_bytes(&mut buf, "custom.inventory.give(".as_bytes());
        match self.id {
            Option::Some(v) => push_i64(&mut buf, v as i64),
            Option::None => push_i64(&mut buf, -2),
        }
        push_bytes(&mut buf, "|".as_bytes());
        match self.auxillary {
            Option::Some(v) => push_i64(&mut buf, v as i64),
            Option::None => push_i64(&mut buf, -2),
        }
        push_bytes(&mut buf, "|".as_bytes());
        match self.count {
            Option::Some(v) => push_i64(&mut buf, v as i64),
            Option::None => push_i64(&mut buf, -2),
        }
        push_bytes(&mut buf, ")\n".as_bytes());
        proof {
            assert(buf@ =~= self.spec_command_bytes());
        }
        buf
    }

    fn has_response(&self) -> (r: bool) {
        false
    }
}

/// Puts an item in the player's inventory; absent fields are sent as -2.
#[derive(Debug)]
pub struct CustomInventoryGive {
    pub id: Option<i32>,
    pub auxillary: Option<i32>,
    pub count: Option<i32>,
}

impl SerializableCommand for CustomInventoryGive {
    open spec fn spec_command_bytes(&self) -> Seq<u8> {
        "custom.inventory.give(".spec_bytes()
            + (match self.id { Option::Some(v) => int_bytes(v as int), Option::None => int_bytes(-2) })
            + "|".spec_bytes()
            + (match self.auxillary { Option::Some(v) => int_bytes(v as int), Option::None => int_bytes(-2) })
            + "|".spec_bytes()
            + (match self.count { Option::Some(v) => int_bytes(v as int), Option::None => int_bytes(-2) })
            + ")\n".spec_bytes()
    }

    open spec fn spec_has_response(&self) -> bool {
        false
    }

    fn to_command_bytes(&self) -> (r: Vec<u8>) {
        let mut buf: Vec<u8> = Vec::new();
        push_bytes(&mut buf, "custom.inventory.give(".as_bytes());
        match self.id {
            Option::Some(v) => push_i64(&mut buf, v as i64),
            Option::None => push_i64(&mut buf, -2),
        }
        push_bytes(&mut buf, "|".as_bytes());
        match self.auxillary {
            Option::Some(v) => push_i64(&mut buf, v as i64),
            Option::None => push_i64(&mut buf, -2),
        }
        push_bytes(&mut buf, "|".as_bytes());
        match self.count {
            Option::Some(v) => push_i64(&mut buf, v as i64),
            Option::None => push_i64(&mut buf, -2),
        }
        push_bytes(&mut buf, ")\n".as_bytes());
        proof {
            assert(buf@ =~= self.spec_command_bytes());
        }
        buf
    }

    fn has_response(&self) -> (r: bool) {
        false
    }
}

/// Clears every block override.
#[derive(Debug)]
pub struct CustomOverrideReset {}

impl SerializableCommand for CustomOverrideReset {
    open spec fn spec_command_bytes(&self) -> Seq<u8> {
        "custom.override.reset()\n".spec_bytes()
    }

    open spec fn spec_has_response(&self) -> bool {
        false
    }

    fn to_command_bytes(&self) -> (r: Vec<u8>) {
        let mut buf: Vec<u8> = Vec::new();
        push_bytes(&mut buf, "custom.override.reset()\n".as_bytes());
        proof {
            assert(buf@ =~= self.spec_command_bytes());
        }
        buf
    }

    fn has_response(&self) -> (r: bool) {
        false
    }
}

/// Makes one block type appear as another.
#[derive(Debug)]
pub struct CustomOverride {
    pub before: Tile,
    pub after: Tile,
}

impl SerializableCommand for CustomOverride {
    open spec fn spec_command_bytes(&self) -> Seq<u8> {
        "custom.override(".spec_bytes()
            + self.before.spec_field_bytes()
            + ",".spec_bytes()
            + self.after.spec_field_bytes()
            + ")\n".spec_bytes()
    }

    open spec fn spec_has_response(&self) -> bool {
        false
    }

    fn to_command_bytes(&self) -> (r: Vec<u8>) {
        let mut buf: Vec<u8> = Vec::new();
        push_bytes(&mut buf, "custom.override(".as_bytes());
        self.before.push_field(&mut buf);
        push_bytes(&mut buf, ",".as_bytes());
        self.after.push_field(&mut buf);
        push_bytes(&mut buf, ")\n".as_bytes());
        proof {
            assert(buf@ =~= self.spec_command_bytes());
        }
        buf
    }

    fn has_response(&self) -> (r: bool) {
        false
    }
}

/// Presses a key in the game.
#[derive(Debug)]
pub struct CustomKeyPress<'a> {
    pub key: MCPIExtrasKey<'a>,
}

impl<'a> SerializableCommand for CustomKeyPress<'a> {
    open spec fn spec_command_bytes(&self) -> Seq<u8> {
        "custom.key.press(".spec_bytes()
            + self.key.spec_field_bytes()
            + ")\n".spec_bytes()
    }

    open spec fn spec_has_response(&self) -> bool {
        false
    }

    fn to_command_bytes(&self) -> (r: Vec<u8>) {
        let mut buf: Vec<u8> = Vec::new();
        push_bytes(&mut buf, "custom.key.press(".as_bytes());
        self.key.push_field(&mut buf);
        push_bytes(&mut buf, ")\n".as_bytes());
        proof {
            assert(buf@ =~= self.spec_command_bytes());
        }
        buf
    }

    fn has_response(&self) -> (r: bool) {
        false
    }
}

/// Releases a key in the game.
#[derive(Debug)]
pub struct CustomKeyRelease<'a> {
    pub key: MCPIExtrasKey<'a>,
}

impl<'a> SerializableCommand for CustomKeyRelease<'a> {
    open spec fn spec_command_bytes(&self) -> Seq<u8> {
        "custom.key.release(".spec_bytes()
            + self.key.spec_field_bytes()
            + ")\n".spec_bytes()
    }

    open spec fn spec_has_response(&self) -> bool {
        false
    }

    fn to_command_bytes(&self) -> (r: Vec<u8>) {
        let mut buf: Vec<u8> = Vec::new();
        push_bytes(&mut buf, "custom.key.release(".as_bytes());
        self.key.push_field(&mut buf);
        push_bytes(&mut buf, ")\n".as_bytes());
        proof {
            assert(buf@ =~= self.spec_command_bytes());
        }
        buf
    }

    fn has_response(&self) -> (r: bool) {
        false
    }
}

/// Asks for the usernames of all players.
#[derive(Debug)]
pub struct CustomUsernameAll {}

impl SerializableCommand for CustomUsernameAll {
    open spec fn spec_command_bytes(&self) -> Seq<u8> {
        "custom.username.all()\n".spec_bytes()
    }

    open spec fn spec_has_response(&self) -> bool {
        true
    }

    fn to_command_bytes(&self) -> (r: Vec<u8>) {
        let mut buf: Vec<u8> = Vec::new();
        push_bytes(&mut buf, "custom.username.all()\n".as_bytes());
        proof {
            assert(buf@ =~= self.spec_command_bytes());
        }
        buf
    }

    fn has_response(&self) -> (r: bool) {
        true
    }
}

/// Asks for the world's directory.
#[derive(Debug)]
pub struct CustomWorldDir {}

impl SerializableCommand for CustomWorldDir {
    open spec fn spec_command_bytes(&self) -> Seq<u8> {
        "custom.world.dir()\n".spec_bytes()
    }

    open spec fn spec_has_response(&self) -> bool {
        true
    }

    fn to_command_bytes(&self) -> (r: Vec<u8>) {
        let mut buf: Vec<u8> = Vec::new();
        push_bytes(&mut buf, "custom.world.dir()\n".as_bytes());
        proof {
            assert(buf@ =~= self.spec_command_bytes());
        }
        buf
    }

    fn has_response(&self) -> (r: bool) {
        true
    }
}

/// Asks for the world's name.
#[derive(Debug)]
pub struct CustomWorldName {}

impl SerializableCommand for CustomWorldName {
    open spec fn spec_command_bytes(&self) -> Seq<u8> {
        "custom.world.name()\n".spec_bytes()
    }

    open spec fn spec_has_response(&self) -> bool {
        true
    }

    fn to_command_bytes(&self) -> (r: Vec<u8>) {
        let mut buf: Vec<u8> = Vec::new();
        push_bytes(&mut buf, "custom.world.name()\n".as_bytes());
        proof {
            assert(buf@ =~= self.spec_command_bytes());
        }
        buf
    }

    fn has_response(&self) -> (r: bool) {
        true
    }
}

/// Asks for the server's name.
#[derive(Debug)]
pub struct CustomWorldServername {}

impl SerializableCommand for CustomWorldServername {
    open spec fn spec_command_bytes(&self) -> Seq<u8> {
        "custom.world.servername()\n".spec_bytes()
    }

    open spec fn spec_has_response(&self) -> bool {
        true
    }

    fn to_command_bytes(&self) -> (r: Vec<u8>) {
        let mut buf: Vec<u8> = Vec::new();
        push_bytes(&mut buf, "custom.world.servername()\n".as_bytes());
        proof {
            assert(buf@ =~= self.spec_command_bytes());
        }
        buf
    }

    fn has_response(&self) -> (r: bool) {
        true
    }
}

/// Asks for the player's health.
#[derive(Debug)]
pub struct CustomPlayerGetHealth {}

impl SerializableCommand for CustomPlayerGetHealth {
    open spec fn spec_command_bytes(&self) -> Seq<u8> {
        "custom.player.getHealth()\n".spec_bytes()
    }

    open spec fn spec_has_response(&self) -> bool {
        true
    }

    fn to_command_bytes(&self) -> (r: Vec<u8>) {
        let mut buf: Vec<u8> = Vec::new();
        push_bytes(&mut buf, "custom.player.getHealth()\n".as_bytes());
        proof {
            assert(buf@ =~= self.spec_command_bytes());
        }
        buf
    }

    fn has_response(&self) -> (r: bool) {
        true
    }
}

/// Sets the player's health.
#[derive(Debug)]
pub struct CustomPlayerSetHealth {
    pub health: i32,
}

impl SerializableCommand for CustomPlayerSetHealth {
    open spec fn spec_command_bytes(&self) -> Seq<u8> {
        "custom.player.setHealth(".spec_bytes()
            + self.health.spec_field_bytes()
            + ")\n".spec_bytes()
    }

    open spec fn spec_has_response(&self) -> bool {
        false
    }

    fn to_command_bytes(&self) -> (r: Vec<u8>) {
        let mut buf: Vec<u8> = Vec::new();
        push_bytes(&mut buf, "custom.player.setHealth(".as_bytes());
        self.health.push_field(&mut buf);
        push_bytes(&mut buf, ")\n".as_bytes());
        proof {
            assert(buf@ =~= self.spec_command_bytes());
        }
        buf
    }

    fn has_response(&self) -> (r: bool) {
        false
    }
}

/// Closes any open screen.
#[derive(Debug)]
pub struct CustomPlayerCloseGUI {}

impl SerializableCommand for CustomPlayerCloseGUI {
    open spec fn spec_command_bytes(&self) -> Seq<u8> {
        "custom.player.closeGUI()\n".spec_bytes()
    }

    open spec fn spec_has_response(&self) -> bool {
        false
    }

    fn to_command_bytes(&self) -> (r: Vec<u8>) {
        let mut buf: Vec<u8> = Vec::new();
        push_bytes(&mut buf, "custom.player.closeGUI()\n".as_bytes());
        proof {
            assert(buf@ =~= self.spec_command_bytes());
        }
        buf
    }

    fn has_response(&self) -> (r: bool) {
        false
    }
}

/// Asks for the player's game mode.
#[derive(Debug)]
pub struct CustomPlayerGetGamemode {}

impl SerializableCommand for CustomPlayerGetGamemode {
    open spec fn spec_command_bytes(&self) -> Seq<u8> {
        "custom.player.getGamemode()\n".spec_bytes()
    }

    open spec fn spec_has_response(&self) -> bool {
        true
    }

    fn to_command_bytes(&self) -> (r: Vec<u8>) {
        let mut buf: Vec<u8> = Vec::new();
        push_bytes(&mut buf, "custom.player.getGamemode()\n".as_bytes());
        proof {
            assert(buf@ =~= self.spec_command_bytes());
        }
        buf
    }

    fn has_response(&self) -> (r: bool) {
        true
    }
}

/// Sets an entity's age.
#[derive(Debug)]
pub struct CustomEntitySetAge {
    pub entity_id: EntityId,
    pub age: i32,
}

impl SerializableCommand for CustomEntitySetAge {
    open spec fn spec_command_bytes(&self) -> Seq<u8> {
        "custom.entity.setAge(".spec_bytes()
            + self.entity_id.spec_field_bytes()
            + ",".spec_bytes()
            + self.age.spec_field_bytes()
            + ")\n".spec_bytes()
    }

    open spec fn spec_has_response(&self) -> bool {
        false
    }

    fn to_command_bytes(&self) -> (r: Vec<u8>) {
        let mut buf: Vec<u8> = Vec::new();
        push_bytes(&mut buf, "custom.entity.setAge(".as_bytes());
        self.entity_id.push_field(&mut buf);
        push_bytes(&mut buf, ",".as_bytes());
        self.age.push_field(&mut buf);
        push_bytes(&mut buf, ")\n".as_bytes());
        proof {
            assert(buf@ =~= self.spec_command_bytes());
        }
        buf
    }

    fn has_response(&self) -> (r: bool) {
        false
    }
}

/// Recolors a sheep.
#[derive(Debug)]
pub struct CustomEntitySetSheepColor {
    pub entity_id: EntityId,
    pub color: SheepColor,
}

impl SerializableCommand for CustomEntitySetSheepColor {
    open spec fn spec_command_bytes(&self) -> Seq<u8> {
        "custom.entity.setSheepColor(".spec_bytes()
            + self.entity_id.spec_field_bytes()
            + ",".spec_bytes()
            + self.color.spec_field_bytes()
            + ")\n".spec_bytes()
    }

    open spec fn spec_has_response(&self) -> bool {
        false
    }

    fn to_command_bytes(&self) -> (r: Vec<u8>) {
        let mut buf: Vec<u8> = Vec::new();
        push_bytes(&mut buf, "custom.entity.setSheepColor(".as_bytes());
        self.entity_id.push_field(&mut buf);
        push_bytes(&mut buf, ",".as_bytes());
        self.color.push_field(&mut buf);
        push_bytes(&mut buf, ")\n".as_bytes());
        proof {
            assert(buf@ =~= self.spec_command_bytes());
        }
        buf
    }

    fn has_response(&self) -> (r: bool) {
        false
    }
}

/// Asks for the chat posts seen since the last poll.
#[derive(Debug)]
pub struct EventsChatPosts {}

impl SerializableCommand for EventsChatPosts {
    open spec fn spec_command_bytes(&self) -> Seq<u8> {
        "events.chat.posts()\n".spec_bytes()
    }

    open spec fn spec_has_response(&self) -> bool {
        true
    }

    fn to_command_bytes(&self) -> (r: Vec<u8>) {
        let mut buf: Vec<u8> = Vec::new();
        push_bytes(&mut buf, "events.chat.posts()\n".as_bytes());
        proof {
            assert(buf@ =~= self.spec_command_bytes());
        }
        buf
    }

    fn has_response(&self) -> (r: bool) {
        true
    }
}

/// Sets how many chat events the server keeps.
#[derive(Debug)]
pub struct EventsChatSize {
    pub size: i32,
}

impl SerializableCommand for EventsChatSize {
    open spec fn spec_command_bytes(&self) -> Seq<u8> {
        "events.chat.size(".spec_bytes()
            + self.size.spec_field_bytes()
            + ")\n".spec_bytes()
    }

    open spec fn spec_has_response(&self) -> bool {
        false
    }

    fn to_command_bytes(&self) -> (r: Vec<u8>) {
        let mut buf: Vec<u8> = Vec::new();
        push_bytes(&mut buf, "events.chat.size(".as_bytes());
        self.size.push_field(&mut buf);
        push_bytes(&mut buf, ")\n".as_bytes());
        proof {
            assert(buf@ =~= self.spec_command_bytes());
        }
        buf
    }

    fn has_response(&self) -> (r: bool) {
        false
    }
}

/// Asks for the Reborn version.
#[derive(Debug)]
pub struct CustomRebornVersion {}

impl SerializableCommand for CustomRebornVersion {
    open spec fn spec_command_bytes(&self) -> Seq<u8> {
        "custom.reborn.version()\n".spec_bytes()
    }

    open spec fn spec_has_response(&self) -> bool {
        true
    }

    fn to_command_bytes(&self) -> (r: Vec<u8>) {
        let mut buf: Vec<u8> = Vec::new();
        push_bytes(&mut buf, "custom.reborn.version()\n".as_bytes());
        proof {
            assert(buf@ =~= self.spec_command_bytes());
        }
        buf
    }

    fn has_response(&self) -> (r: bool) {
        true
    }
}

/// Asks whether a Reborn feature is enabled.
#[derive(Debug)]
pub struct CustomRebornFeature<'a> {
    pub feature_name: ApiStr<'a>,
}

impl<'a> SerializableCommand for CustomRebornFeature<'a> {
    open spec fn spec_command_bytes(&self) -> Seq<u8> {
        "custom.reborn.feature(".spec_bytes()
            + self.feature_name.spec_field_bytes()
            + ")\n".spec_bytes()
    }

    open spec fn spec_has_response(&self) -> bool {
        true
    }

    fn to_command_bytes(&self) -> (r: Vec<u8>) {
        let mut buf: Vec<u8> = Vec::new();
        push_bytes(&mut buf, "custom.reborn.feature(".as_bytes());
        self.feature_name.push_field(&mut buf);
        push_bytes(&mut buf, ")\n".as_bytes());
        proof {
            assert(buf@ =~= self.spec_command_bytes());
        }
        buf
    }

    fn has_response(&self) -> (r: bool) {
        true
    }
}

/// Asks for the entities near an entity.
#[derive(Debug)]
pub struct EntityGetEntities {
    pub target: EntityId,
    pub distance: i32,
    pub entity_type: Option<MCPIExtrasEntityType>,
}

impl SerializableCommand for EntityGetEntities {
    open spec fn spec_command_bytes(&self) -> Seq<u8> {
        "entity.getEntities(".spec_bytes()
            + self.target.spec_field_bytes()
            + ",".spec_bytes()
            + self.distance.spec_field_bytes()
            + spec_optional(self.entity_type, true)
            + ")\n".spec_bytes()
    }

    open spec fn spec_has_response(&self) -> bool {
        true
    }

    fn to_command_bytes(&self) -> (r: Vec<u8>) {
        let mut buf: Vec<u8> = Vec::new();
        push_bytes(&mut buf, "entity.getEntities(".as_bytes());
        self.target.push_field(&mut buf);
        push_bytes(&mut buf, ",".as_bytes());
        self.distance.push_field(&mut buf);
        let part = optional(&self.entity_type, true);
        push_bytes(&mut buf, part.as_slice());
        push_bytes(&mut buf, ")\n".as_bytes());
        proof {
            assert(buf@ =~= self.spec_command_bytes());
        }
        buf
    }

    fn has_response(&self) -> (r: bool) {
        true
    }
}

/// Asks for every entity in the world.
#[derive(Debug)]
pub struct EntityGetAllEntities {}

impl SerializableCommand for EntityGetAllEntities {
    open spec fn spec_command_bytes(&self) -> Seq<u8> {
        "entity.getAllEntities()\n".spec_bytes()
    }

    open spec fn spec_has_response(&self) -> bool {
        true
    }

    fn to_command_bytes(&self) -> (r: Vec<u8>) {
        let mut buf: Vec<u8> = Vec::new();
        push_bytes(&mut buf, "entity.getAllEntities()\n".as_bytes());
        proof {
            assert(buf@ =~= self.spec_command_bytes());
        }
        buf
    }

    fn has_response(&self) -> (r: bool) {
        true
    }
}

/// Shows a chat message only to this client.
#[derive(Debug)]
pub struct CustomPostClient {
    pub message: ChatString,
}

impl SerializableCommand for CustomPostClient {
    open spec fn spec_command_bytes(&self) -> Seq<u8> {
        "custom.post.client(".spec_bytes()
            + self.message@
            + ")\n".spec_bytes()
    }

    open spec fn spec_has_response(&self) -> bool {
        false
    }

    fn to_command_bytes(&self) -> (r: Vec<u8>) {
        let mut buf: Vec<u8> = Vec::new();
        push_bytes(&mut buf, "custom.post.client(".as_bytes());
        push_bytes(&mut buf, self.message.as_bytes().as_slice());
        push_bytes(&mut buf, ")\n".as_bytes());
        proof {
            assert(buf@ =~= self.spec_command_bytes());
        }
        buf
    }

    fn has_response(&self) -> (r: bool) {
        false
    }
}

/// Posts a chat message without the username prefix.
#[derive(Debug)]
pub struct CustomPostNoPrefix {
    pub message: ChatString,
}

impl SerializableCommand for CustomPostNoPrefix {
    open spec fn spec_command_bytes(&self) -> Seq<u8> {
        "custom.post.noPrefix(".spec_bytes()
            + self.message@
            + ")\n".spec_bytes()
    }

    open spec fn spec_has_response(&self) -> bool {
        false
    }

    fn to_command_bytes(&self) -> (r: Vec<u8>) {
        let mut buf: Vec<u8> = Vec::new();
        push_bytes(&mut buf, "custom.post.noPrefix(".as_bytes());
        push_bytes(&mut buf, self.message.as_bytes().as_slice());
        push_bytes(&mut buf, ")\n".as_bytes());
        proof {
            assert(buf@ =~= self.spec_command_bytes());
        }
        buf
    }

    fn has_response(&self) -> (r: bool) {
        false
    }
}

} // verus!
