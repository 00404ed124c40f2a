//! Commands that can be sent to the game server.
//!
//! A command serializes to exactly one newline-terminated ASCII line; the
//! spec functions here pin down every byte of it.

use vstd::prelude::*;

verus! {

use vstd::string::StringSliceAdditionalSpecFns;
use crate::connection::{ApiStr, ChatString, EntityId, PlayerSettingKey, Tile, TileData, WorldSettingKey};

pub mod mcpi_addons;
pub mod raspberry_jam;
pub mod raspberry_juice;

// MARK: Building a line of bytes

/// Appends every byte of `s` to `buf`, in order.
pub fn push_bytes(buf: &mut Vec<u8>, s: &[u8])
    ensures
        final(buf)@ == old(buf)@ + s@,
{
    let mut i: usize = 0;
    while i < s.len()
        invariant
            i <= s@.len(),
            buf@ == old(buf)@ + s@.subrange(0, i as int),
        decreases s@.len() - i,
    {
        buf.push(s[i]);
        i += 1;
        proof {
            assert(buf@ =~= old(buf)@ + s@.subrange(0, i as int));
        }
    }
    proof {
        assert(s@.subrange(0, s@.len() as int) =~= s@);
    }
}

/// The decimal digits of `n`, most significant first.
pub open spec fn dec_digits(n: nat) -> Seq<u8>
    decreases n,
{
    if n < 10 {
        seq![(48 + n) as u8]
    } else {
        dec_digits(n / 10).push((48 + n % 10) as u8)
    }
}

/// The decimal rendering of `i`: a minus sign for negative values, then the
/// digits of the magnitude.
pub open spec fn int_bytes(i: int) -> Seq<u8> {
    if i < 0 {
        seq![45u8] + dec_digits((-i) as nat)
    } else {
        dec_digits(i as nat)
    }
}

/// Renders `n` in decimal.
pub fn fmt_u64(n: u64) -> (r: Vec<u8>)
    ensures
        r@ == dec_digits(n as nat),
    decreases n,
{
    if n < 10 {
        let mut v: Vec<u8> = Vec::new();
        v.push((48 + n) as u8);
        v
    } else {
        let mut v = fmt_u64(n / 10);
        v.push((48 + n % 10) as u8);
        v
    }
}

/// Appends the decimal rendering of `n` to `buf`.
pub fn push_i64(buf: &mut Vec<u8>, n: i64)
    ensures
        final(buf)@ == old(buf)@ + int_bytes(n as int),
{
    if n < 0 {
        buf.push(45);
        let m: u64 = ((-(n + 1)) as u64) + 1;
        proof {
            assert(m as int == -(n as int));
        }
        let digits = fmt_u64(m);
        push_bytes(buf, digits.as_slice());
        proof {
            assert(buf@ =~= old(buf)@ + int_bytes(n as int));
        }
    } else {
        let digits = fmt_u64(n as u64);
        push_bytes(buf, digits.as_slice());
    }
}

// MARK: Command fields

/// A value that can stand as one field of a command line.
pub trait CommandField {
    /// The exact bytes the field contributes to the line.
    spec fn spec_field_bytes(&self) -> Seq<u8>;

    /// Appends the field's bytes to the line being built.
    fn push_field(&self, buf: &mut Vec<u8>)
        ensures
            final(buf)@ == old(buf)@ + self.spec_field_bytes(),
    ;
}

impl CommandField for EntityId {
    open spec fn spec_field_bytes(&self) -> Seq<u8> {
        int_bytes(self.0 as int)
    }

    fn push_field(&self, buf: &mut Vec<u8>) {
        push_i64(buf, self.0 as i64);
    }
}

impl CommandField for Tile {
    open spec fn spec_field_bytes(&self) -> Seq<u8> {
        int_bytes(self.0 as int)
    }

    fn push_field(&self, buf: &mut Vec<u8>) {
        push_i64(buf, self.0 as i64);
    }
}

impl CommandField for TileData {
    open spec fn spec_field_bytes(&self) -> Seq<u8> {
        int_bytes(self.0 as int)
    }

    fn push_field(&self, buf: &mut Vec<u8>) {
        push_i64(buf, self.0 as i64);
    }
}

impl<'a> CommandField for ApiStr<'a> {
    open spec fn spec_field_bytes(&self) -> Seq<u8> {
        self.0.spec_bytes()
    }

    fn push_field(&self, buf: &mut Vec<u8>) {
        push_bytes(buf, self.0.as_bytes());
    }
}

/// The bytes an optional field contributes: nothing when absent, otherwise
/// the field itself, preceded by a comma when `comma_if_some` asks for one.
pub open spec fn spec_optional<T: CommandField>(param: Option<T>, comma_if_some: bool) -> Seq<u8> {
    match param {
        Option::None => Seq::empty(),
        Option::Some(v) => if comma_if_some {
            seq![44u8] + v.spec_field_bytes()
        } else {
            v.spec_field_bytes()
        },
    }
}

/// Appends an optional trailing field, omitted (not left empty) when absent.
pub fn optional<T: CommandField>(param: &Option<T>, comma_if_some: bool) -> (r: Vec<u8>)
    ensures
        r@ == spec_optional(*param, comma_if_some),
{
    let mut buf: Vec<u8> = Vec::new();
    match param {
        Option::None => {},
        Option::Some(v) => {
            if comma_if_some {
                buf.push(44);
            }
            v.push_field(&mut buf);
        },
    }
    buf
}

// MARK: Coordinates

/// An integer block position.
#[derive(Debug, Clone, Copy, PartialEq, Eq, Hash)]
pub struct TileCoords {
    pub x: i16,
    pub y: i16,
    pub z: i16,
}

/// The bytes of a three-part comma-separated coordinate field.
pub open spec fn coords_bytes(c: TileCoords) -> Seq<u8> {
    int_bytes(c.x as int) + seq![44u8] + int_bytes(c.y as int) + seq![44u8] + int_bytes(c.z as int)
}

impl CommandField for TileCoords {
    open spec fn spec_field_bytes(&self) -> Seq<u8> {
        coords_bytes(*self)
    }

    fn push_field(&self, buf: &mut Vec<u8>) {
        push_i64(buf, self.x as i64);
        buf.push(44);
        push_i64(buf, self.y as i64);
        buf.push(44);
        push_i64(buf, self.z as i64);
        proof {
            assert(buf@ =~= old(buf)@ + self.spec_field_bytes());
        }
    }
}

/// An integer column position: x and z, with no height.
#[derive(Debug, Clone, Copy, PartialEq, Eq, Hash)]
pub struct ColumnCoords {
    pub x: i16,
    pub z: i16,
}

impl CommandField for ColumnCoords {
    open spec fn spec_field_bytes(&self) -> Seq<u8> {
        int_bytes(self.x as int) + seq![44u8] + int_bytes(self.z as int)
    }

    fn push_field(&self, buf: &mut Vec<u8>) {
        push_i64(buf, self.x as i64);
        buf.push(44);
        push_i64(buf, self.z as i64);
        proof {
            assert(buf@ =~= old(buf)@ + self.spec_field_bytes());
        }
    }
}

// MARK: The command trait

/// A command that can be serialized and sent to the game server.
pub trait SerializableCommand {
    /// The exact line the command serializes to, newline included.
    spec fn spec_command_bytes(&self) -> Seq<u8>;

    /// Whether the server answers this command with exactly one frame.
    spec fn spec_has_response(&self) -> bool;

    /// Serializes the command into the bytes that go on the wire.
    fn to_command_bytes(&self) -> (r: Vec<u8>)
        ensures
            r@ == self.spec_command_bytes(),
    ;

    /// Whether the command should wait for a response frame.
    fn has_response(&self) -> (r: bool)
        ensures
            r == self.spec_has_response(),
    ;
}


impl CommandField for i32 {
    open spec fn spec_field_bytes(&self) -> Seq<u8> {
        int_bytes(*self as int)
    }

    fn push_field(&self, buf: &mut Vec<u8>) {
        push_i64(buf, *self as i64);
    }
}

impl CommandField for crate::connection::JavaEntityType {
    open spec fn spec_field_bytes(&self) -> Seq<u8> {
        int_bytes(self.0 as int)
    }

    fn push_field(&self, buf: &mut Vec<u8>) {
        push_i64(buf, self.0 as i64);
    }
}

impl CommandField for crate::connection::MCPIExtrasEntityType {
    open spec fn spec_field_bytes(&self) -> Seq<u8> {
        int_bytes(self.0 as int)
    }

    fn push_field(&self, buf: &mut Vec<u8>) {
        push_i64(buf, self.0 as i64);
    }
}

impl CommandField for crate::connection::SheepColor {
    open spec fn spec_field_bytes(&self) -> Seq<u8> {
        int_bytes(self.0 as int)
    }

    fn push_field(&self, buf: &mut Vec<u8>) {
        push_i64(buf, self.0 as i64);
    }
}

impl CommandField for crate::connection::Dimension {
    open spec fn spec_field_bytes(&self) -> Seq<u8> {
        int_bytes(self.0 as int)
    }

    fn push_field(&self, buf: &mut Vec<u8>) {
        push_i64(buf, self.0 as i64);
    }
}

impl<'a> CommandField for PlayerSettingKey<'a> {
    open spec fn spec_field_bytes(&self) -> Seq<u8> {
        self.0.spec_field_bytes()
    }

    fn push_field(&self, buf: &mut Vec<u8>) {
        self.0.push_field(buf);
    }
}

impl<'a> CommandField for WorldSettingKey<'a> {
    open spec fn spec_field_bytes(&self) -> Seq<u8> {
        self.0.spec_field_bytes()
    }

    fn push_field(&self, buf: &mut Vec<u8>) {
        self.0.push_field(buf);
    }
}

impl<'a> CommandField for crate::connection::EventsSettingKey<'a> {
    open spec fn spec_field_bytes(&self) -> Seq<u8> {
        self.0.spec_field_bytes()
    }

    fn push_field(&self, buf: &mut Vec<u8>) {
        self.0.push_field(buf);
    }
}

impl<'a> CommandField for crate::connection::MCPIExtrasKey<'a> {
    open spec fn spec_field_bytes(&self) -> Seq<u8> {
        self.0.spec_field_bytes()
    }

    fn push_field(&self, buf: &mut Vec<u8>) {
        self.0.push_field(buf);
    }
}

impl<'a> CommandField for crate::connection::MCPIExtrasParticle<'a> {
    open spec fn spec_field_bytes(&self) -> Seq<u8> {
        self.0.spec_field_bytes()
    }

    fn push_field(&self, buf: &mut Vec<u8>) {
        self.0.push_field(buf);
    }
}

impl<'a> CommandField for crate::connection::RaspberryJamParticle<'a> {
    open spec fn spec_field_bytes(&self) -> Seq<u8> {
        self.0.spec_field_bytes()
    }

    fn push_field(&self, buf: &mut Vec<u8>) {
        self.0.push_field(buf);
    }
}

// MARK: The vanilla command catalog

/// Locks the camera in place.
#[derive(Debug)]
pub struct CameraModeSetFixed {}

impl SerializableCommand for CameraModeSetFixed {
    open spec fn spec_command_bytes(&self) -> Seq<u8> {
        "camera.mode.setFixed()\n".spec_bytes()
    }

    open spec fn spec_has_response(&self) -> bool {
        false
    }

    fn to_command_bytes(&self) -> (r: Vec<u8>) {
        let mut buf: Vec<u8> = Vec::new();
        push_bytes(&mut buf, "camera.mode.setFixed()\n".as_bytes());
        proof {
            assert(buf@ =~= self.spec_command_bytes());
        }
        buf
    }

    fn has_response(&self) -> (r: bool) {
        false
    }
}

/// Makes the camera follow an entity.
#[derive(Debug)]
pub struct CameraModeSetFollow {
    pub target: Option<EntityId>,
}

impl SerializableCommand for CameraModeSetFollow {
    open spec fn spec_command_bytes(&self) -> Seq<u8> {
        "camera.mode.setFollow(".spec_bytes()
            + spec_optional(self.target, false)
            + ")\n".spec_bytes()
    }

    open spec fn spec_has_response(&self) -> bool {
        false
    }

    fn to_command_bytes(&self) -> (r: Vec<u8>) {
        let mut buf: Vec<u8> = Vec::new();
        push_bytes(&mut buf, "camera.mode.setFollow(".as_bytes());
        let part = optional(&self.target, false);
        push_bytes(&mut buf, part.as_slice());
        push_bytes(&mut buf, ")\n".as_bytes());
        proof {
            assert(buf@ =~= self.spec_command_bytes());
        }
        buf
    }

    fn has_response(&self) -> (r: bool) {
        false
    }
}

/// Returns the camera to its normal mode.
#[derive(Debug)]
pub struct CameraModeSetNormal {
    pub target: Option<EntityId>,
}

impl SerializableCommand for CameraModeSetNormal {
    open spec fn spec_command_bytes(&self) -> Seq<u8> {
        "camera.mode.setNormal(".spec_bytes()
            + spec_optional(self.target, false)
            + ")\n".spec_bytes()
    }

    open spec fn spec_has_response(&self) -> bool {
        false
    }

    fn to_command_bytes(&self) -> (r: Vec<u8>) {
        let mut buf: Vec<u8> = Vec::new();
        push_bytes(&mut buf, "camera.mode.setNormal(".as_bytes());
        let part = optional(&self.target, false);
        push_bytes(&mut buf, part.as_slice());
        push_bytes(&mut buf, ")\n".as_bytes());
        proof {
            assert(buf@ =~= self.spec_command_bytes());
        }
        buf
    }

    fn has_response(&self) -> (r: bool) {
        false
    }
}

/// Puts the camera in third-person mode.
#[derive(Debug)]
pub struct CameraModeSetThirdPerson {
    pub target: Option<EntityId>,
}

impl SerializableCommand for CameraModeSetThirdPerson {
    open spec fn spec_command_bytes(&self) -> Seq<u8> {
        "camera.mode.setThirdPerson(".spec_bytes()
            + spec_optional(self.target, false)
            + ")\n".spec_bytes()
    }

    open spec fn spec_has_response(&self) -> bool {
        false
    }

    fn to_command_bytes(&self) -> (r: Vec<u8>) {
        let mut buf: Vec<u8> = Vec::new();
        push_bytes(&mut buf, "camera.mode.setThirdPerson(".as_bytes());
        let part = optional(&self.target, false);
        push_bytes(&mut buf, part.as_slice());
        push_bytes(&mut buf, ")\n".as_bytes());
        proof {
            assert(buf@ =~= self.spec_command_bytes());
        }
        buf
    }

    fn has_response(&self) -> (r: bool) {
        false
    }
}

/// Asks for an entity's position.
#[derive(Debug)]
pub struct EntityGetPos {
    pub target: EntityId,
}

impl SerializableCommand for EntityGetPos {
    open spec fn spec_command_bytes(&self) -> Seq<u8> {
        "entity.getPos(".spec_bytes()
            + self.target.spec_field_bytes()
            + ")\n".spec_bytes()
    }

    open spec fn spec_has_response(&self) -> bool {
        true
    }

    fn to_command_bytes(&self) -> (r: Vec<u8>) {
        let mut buf: Vec<u8> = Vec::new();
        push_bytes(&mut buf, "entity.getPos(".as_bytes());
        self.target.push_field(&mut buf);
        push_bytes(&mut buf, ")\n".as_bytes());
        proof {
            assert(buf@ =~= self.spec_command_bytes());
        }
        buf
    }

    fn has_response(&self) -> (r: bool) {
        true
    }
}

/// Asks for an entity's integer tile position.
#[derive(Debug)]
pub struct EntityGetTile {
    pub target: EntityId,
}

impl SerializableCommand for EntityGetTile {
    open spec fn spec_command_bytes(&self) -> Seq<u8> {
        "entity.getTile(".spec_bytes()
            + self.target.spec_field_bytes()
            + "\n".spec_bytes()
    }

    open spec fn spec_has_response(&self) -> bool {
        true
    }

    fn to_command_bytes(&self) -> (r: Vec<u8>) {
        let mut buf: Vec<u8> = Vec::new();
        push_bytes(&mut buf, "entity.getTile(".as_bytes());
        self.target.push_field(&mut buf);
        push_bytes(&mut buf, "\n".as_bytes());
        proof {
            assert(buf@ =~= self.spec_command_bytes());
        }
        buf
    }

    fn has_response(&self) -> (r: bool) {
        true
    }
}

/// Moves an entity to an integer tile position.
#[derive(Debug)]
pub struct EntitySetTile {
    pub target: EntityId,
    pub coords: TileCoords,
}

impl SerializableCommand for EntitySetTile {
    open spec fn spec_command_bytes(&self) -> Seq<u8> {
        "entity.setTile(".spec_bytes()
            + self.target.spec_field_bytes()
            + ",".spec_bytes()
            + self.coords.spec_field_bytes()
            + ")\n".spec_bytes()
    }

    open spec fn spec_has_response(&self) -> bool {
        false
    }

    fn to_command_bytes(&self) -> (r: Vec<u8>) {
        let mut buf: Vec<u8> = Vec::new();
        push_bytes(&mut buf, "entity.setTile(".as_bytes());
        self.target.push_field(&mut buf);
        push_bytes(&mut buf, ",".as_bytes());
        self.coords.push_field(&mut buf);
        push_bytes(&mut buf, ")\n".as_bytes());
        proof {
            assert(buf@ =~= self.spec_command_bytes());
        }
        buf
    }

    fn has_response(&self) -> (r: bool) {
        false
    }
}

/// Asks for the host player's position.
#[derive(Debug)]
pub struct PlayerGetPos {}

impl SerializableCommand for PlayerGetPos {
    open spec fn spec_command_bytes(&self) -> Seq<u8> {
        "player.getPos()\n".spec_bytes()
    }

    open spec fn spec_has_response(&self) -> bool {
        true
    }

    fn to_command_bytes(&self) -> (r: Vec<u8>) {
        let mut buf: Vec<u8> = Vec::new();
        push_bytes(&mut buf, "player.getPos()\n".as_bytes());
        proof {
            assert(buf@ =~= self.spec_command_bytes());
        }
        buf
    }

    fn has_response(&self) -> (r: bool) {
        true
    }
}

/// Asks for the host player's integer tile position.
#[derive(Debug)]
pub struct PlayerGetTile {}

impl SerializableCommand for PlayerGetTile {
    open spec fn spec_command_bytes(&self) -> Seq<u8> {
        "player.getTile()\n".spec_bytes()
    }

    open spec fn spec_has_response(&self) -> bool {
        true
    }

    fn to_command_bytes(&self) -> (r: Vec<u8>) {
        let mut buf: Vec<u8> = Vec::new();
        push_bytes(&mut buf, "player.getTile()\n".as_bytes());
        proof {
            assert(buf@ =~= self.spec_command_bytes());
        }
        buf
    }

    fn has_response(&self) -> (r: bool) {
        true
    }
}

/// Moves the host player to an integer tile position.
#[derive(Debug)]
pub struct PlayerSetTile {
    pub coords: TileCoords,
}

impl SerializableCommand for PlayerSetTile {
    open spec fn spec_command_bytes(&self) -> Seq<u8> {
        "player.setTile(".spec_bytes()
            + self.coords.spec_field_bytes()
            + ")\n".spec_bytes()
    }

    open spec fn spec_has_response(&self) -> bool {
        false
    }

    fn to_command_bytes(&self) -> (r: Vec<u8>) {
        let mut buf: Vec<u8> = Vec::new();
        push_bytes(&mut buf, "player.setTile(".as_bytes());
        self.coords.push_field(&mut buf);
        push_bytes(&mut buf, ")\n".as_bytes());
        proof {
            assert(buf@ =~= self.spec_command_bytes());
        }
        buf
    }

    fn has_response(&self) -> (r: bool) {
        false
    }
}

/// Turns a per-player setting on or off.
#[derive(Debug)]
pub struct PlayerSetting<'a> {
    pub key: PlayerSettingKey<'a>,
    pub value: bool,
}

impl<'a> SerializableCommand for PlayerSetting<'a> {
    open spec fn spec_command_bytes(&self) -> Seq<u8> {
        "player.setting(".spec_bytes()
            + self.key.spec_field_bytes()
            + ",".spec_bytes()
            + int_bytes(if self.value { 1 } else { 0 })
            + ")\n".spec_bytes()
    }

    open spec fn spec_has_response(&self) -> bool {
        false
    }

    fn to_command_bytes(&self) -> (r: Vec<u8>) {
        let mut buf: Vec<u8> = Vec::new();
        push_bytes(&mut buf, "player.setting(".as_bytes());
        self.key.push_field(&mut buf);
        push_bytes(&mut buf, ",".as_bytes());
        push_i64(&mut buf, if self.value { 1 } else { 0 });
        push_bytes(&mut buf, ")\n".as_bytes());
        proof {
            assert(buf@ =~= self.spec_command_bytes());
        }
        buf
    }

    fn has_response(&self) -> (r: bool) {
        false
    }
}

/// Restores the world from the saved checkpoint.
#[derive(Debug)]
pub struct WorldCheckpointRestore {}

impl SerializableCommand for WorldCheckpointRestore {
    open spec fn spec_command_bytes(&self) -> Seq<u8> {
        "world.checkpoint.restore()\n".spec_bytes()
    }

    open spec fn spec_has_response(&self) -> bool {
        false
    }

    fn to_command_bytes(&self) -> (r: Vec<u8>) {
        let mut buf: Vec<u8> = Vec::new();
        push_bytes(&mut buf, "world.checkpoint.restore()\n".as_bytes());
        proof {
            assert(buf@ =~= self.spec_command_bytes());
        }
        buf
    }

    fn has_response(&self) -> (r: bool) {
        false
    }
}

/// Saves a checkpoint of the world.
#[derive(Debug)]
pub struct WorldCheckpointSave {}

impl SerializableCommand for WorldCheckpointSave {
    open spec fn spec_command_bytes(&self) -> Seq<u8> {
        "world.checkpoint.save()\n".spec_bytes()
    }

    open spec fn spec_has_response(&self) -> bool {
        false
    }

    fn to_command_bytes(&self) -> (r: Vec<u8>) {
        let mut buf: Vec<u8> = Vec::new();
        push_bytes(&mut buf, "world.checkpoint.save()\n".as_bytes());
        proof {
            assert(buf@ =~= self.spec_command_bytes());
        }
        buf
    }

    fn has_response(&self) -> (r: bool) {
        false
    }
}

/// Asks for the block type at a position.
#[derive(Debug)]
pub struct WorldGetBlock {
    pub coords: TileCoords,
}

impl SerializableCommand for WorldGetBlock {
    open spec fn spec_command_bytes(&self) -> Seq<u8> {
        "world.getBlock(".spec_bytes()
            + self.coords.spec_field_bytes()
            + ")\n".spec_bytes()
    }

    open spec fn spec_has_response(&self) -> bool {
        true
    }

    fn to_command_bytes(&self) -> (r: Vec<u8>) {
        let mut buf: Vec<u8> = Vec::new();
        push_bytes(&mut buf, "world.getBlock(".as_bytes());
        self.coords.push_field(&mut buf);
        push_bytes(&mut buf, ")\n".as_bytes());
        proof {
            assert(buf@ =~= self.spec_command_bytes());
        }
        buf
    }

    fn has_response(&self) -> (r: bool) {
        true
    }
}

/// Asks for the block type and data at a position.
#[derive(Debug)]
pub struct WorldGetBlockWithData {
    pub coords: TileCoords,
}

impl SerializableCommand for WorldGetBlockWithData {
    open spec fn spec_command_bytes(&self) -> Seq<u8> {
        "world.getBlockWithData(".spec_bytes()
            + self.coords.spec_field_bytes()
            + ")\n".spec_bytes()
    }

    open spec fn spec_has_response(&self) -> bool {
        true
    }

    fn to_command_bytes(&self) -> (r: Vec<u8>) {
        let mut buf: Vec<u8> = Vec::new();
        push_bytes(&mut buf, "world.getBlockWithData(".as_bytes());
        self.coords.push_field(&mut buf);
        push_bytes(&mut buf, ")\n".as_bytes());
        proof {
            assert(buf@ =~= self.spec_command_bytes());
        }
        buf
    }

    fn has_response(&self) -> (r: bool) {
        true
    }
}

/// Asks for the height of the world at a column.
#[derive(Debug)]
pub struct WorldGetHeight {
    pub coords: ColumnCoords,
}

impl SerializableCommand for WorldGetHeight {
    open spec fn spec_command_bytes(&self) -> Seq<u8> {
        "world.getHeight(".spec_bytes()
            + self.coords.spec_field_bytes()
            + ")\n".spec_bytes()
    }

    open spec fn spec_has_response(&self) -> bool {
        true
    }

    fn to_command_bytes(&self) -> (r: Vec<u8>) {
        let mut buf: Vec<u8> = Vec::new();
        push_bytes(&mut buf, "world.getHeight(".as_bytes());
        self.coords.push_field(&mut buf);
        push_bytes(&mut buf, ")\n".as_bytes());
        proof {
            assert(buf@ =~= self.spec_command_bytes());
        }
        buf
    }

    fn has_response(&self) -> (r: bool) {
        true
    }
}

/// Asks for the ids of all connected players.
#[derive(Debug)]
pub struct WorldGetPlayerIds {}

impl SerializableCommand for WorldGetPlayerIds {
    open spec fn spec_command_bytes(&self) -> Seq<u8> {
        "world.getPlayerIds()\n".spec_bytes()
    }

    open spec fn spec_has_response(&self) -> bool {
        true
    }

    fn to_command_bytes(&self) -> (r: Vec<u8>) {
        let mut buf: Vec<u8> = Vec::new();
        push_bytes(&mut buf, "world.getPlayerIds()\n".as_bytes());
        proof {
            assert(buf@ =~= self.spec_command_bytes());
        }
        buf
    }

    fn has_response(&self) -> (r: bool) {
        true
    }
}

/// Sets one block, with optional NBT data (Raspberry Jam extension).
#[derive(Debug)]
pub struct WorldSetBlock<'a> {
    pub coords: TileCoords,
    pub tile: Tile,
    pub data: TileData,
    pub json_nbt: Option<ApiStr<'a>>,
}

impl<'a> SerializableCommand for WorldSetBlock<'a> {
    open spec fn spec_command_bytes(&self) -> Seq<u8> {
        "world.setBlock(".spec_bytes()
            + self.coords.spec_field_bytes()
            + ",".spec_bytes()
            + self.tile.spec_field_bytes()
            + ",".spec_bytes()
            + self.data.spec_field_bytes()
            + spec_optional(self.json_nbt, true)
            + ")\n".spec_bytes()
    }

    open spec fn spec_has_response(&self) -> bool {
        false
    }

    fn to_command_bytes(&self) -> (r: Vec<u8>) {
        let mut buf: Vec<u8> = Vec::new();
        push_bytes(&mut buf, "world.setBlock(".as_bytes());
        self.coords.push_field(&mut buf);
        push_bytes(&mut buf, ",".as_bytes());
        self.tile.push_field(&mut buf);
        push_bytes(&mut buf, ",".as_bytes());
        self.data.push_field(&mut buf);
        let part = optional(&self.json_nbt, true);
        push_bytes(&mut buf, part.as_slice());
        push_bytes(&mut buf, ")\n".as_bytes());
        proof {
            assert(buf@ =~= self.spec_command_bytes());
        }
        buf
    }

    fn has_response(&self) -> (r: bool) {
        false
    }
}

/// Fills a cuboid of blocks, with optional NBT data (Raspberry Jam extension).
#[derive(Debug)]
pub struct WorldSetBlocks<'a> {
    pub coords_1: TileCoords,
    pub coords_2: TileCoords,
    pub tile: Tile,
    pub data: TileData,
    pub json_nbt: Option<ApiStr<'a>>,
}

impl<'a> SerializableCommand for WorldSetBlocks<'a> {
    open spec fn spec_command_bytes(&self) -> Seq<u8> {
        "world.setBlocks(".spec_bytes()
            + self.coords_1.spec_field_bytes()
            + ",".spec_bytes()
            + self.coords_2.spec_field_bytes()
            + ",".spec_bytes()
            + self.tile.spec_field_bytes()
            + ",".spec_bytes()
            + self.data.spec_field_bytes()
            + spec_optional(self.json_nbt, true)
            + ")\n".spec_bytes()
    }

    open spec fn spec_has_response(&self) -> bool {
        false
    }

    fn to_command_bytes(&self) -> (r: Vec<u8>) {
        let mut buf: Vec<u8> = Vec::new();
        push_bytes(&mut buf, "world.setBlocks(".as_bytes());
        self.coords_1.push_field(&mut buf);
        push_bytes(&mut buf, ",".as_bytes());
        self.coords_2.push_field(&mut buf);
        push_bytes(&mut buf, ",".as_bytes());
        self.tile.push_field(&mut buf);
        push_bytes(&mut buf, ",".as_bytes());
        self.data.push_field(&mut buf);
        let part = optional(&self.json_nbt, true);
        push_bytes(&mut buf, part.as_slice());
        push_bytes(&mut buf, ")\n".as_bytes());
        proof {
            assert(buf@ =~= self.spec_command_bytes());
        }
        buf
    }

    fn has_response(&self) -> (r: bool) {
        false
    }
}

/// Turns a per-world setting on or off.
#[derive(Debug)]
pub struct WorldSetting<'a> {
    pub key: WorldSettingKey<'a>,
    pub value: bool,
}

impl<'a> SerializableCommand for WorldSetting<'a> {
    open spec fn spec_command_bytes(&self) -> Seq<u8> {
        "world.setting(".spec_bytes()
            + self.key.spec_field_bytes()
            + ",".spec_bytes()
            + int_bytes(if self.value { 1 } else { 0 })
            + ")\n".spec_bytes()
    }

    open spec fn spec_has_response(&self) -> bool {
        false
    }

    fn to_command_bytes(&self) -> (r: Vec<u8>) {
        let mut buf: Vec<u8> = Vec::new();
        push_bytes(&mut buf, "world.setting(".as_bytes());
        self.key.push_field(&mut buf);
        push_bytes(&mut buf, ",".as_bytes());
        push_i64(&mut buf, if self.value { 1 } else { 0 });
        push_bytes(&mut buf, ")\n".as_bytes());
        proof {
            assert(buf@ =~= self.spec_command_bytes());
        }
        buf
    }

    fn has_response(&self) -> (r: bool) {
        false
    }
}

/// Discards any pending events.
#[derive(Debug)]
pub struct EventsClear {}

impl SerializableCommand for EventsClear {
    open spec fn spec_command_bytes(&self) -> Seq<u8> {
        "events.clear()\n".spec_bytes()
    }

    open spec fn spec_has_response(&self) -> bool {
        false
    }

    fn to_command_bytes(&self) -> (r: Vec<u8>) {
        let mut buf: Vec<u8> = Vec::new();
        push_bytes(&mut buf, "events.clear()\n".as_bytes());
        proof {
            assert(buf@ =~= self.spec_command_bytes());
        }
        buf
    }

    fn has_response(&self) -> (r: bool) {
        false
    }
}

/// Asks for the block hits seen since the last poll.
#[derive(Debug)]
pub struct EventsBlockHits {}

impl SerializableCommand for EventsBlockHits {
    open spec fn spec_command_bytes(&self) -> Seq<u8> {
        "events.block.hits()\n".spec_bytes()
    }

    open spec fn spec_has_response(&self) -> bool {
        true
    }

    fn to_command_bytes(&self) -> (r: Vec<u8>) {
        let mut buf: Vec<u8> = Vec::new();
        push_bytes(&mut buf, "events.block.hits()\n".as_bytes());
        proof {
            assert(buf@ =~= self.spec_command_bytes());
        }
        buf
    }

    fn has_response(&self) -> (r: bool) {
        true
    }
}

/// Posts a message to the in-game chat.
#[derive(Debug)]
pub struct ChatPost {
    pub message: ChatString,
}

impl SerializableCommand for ChatPost {
    open spec fn spec_command_bytes(&self) -> Seq<u8> {
        "chat.post(".spec_bytes()
            + self.message@
            + ")\n".spec_bytes()
    }

    open spec fn spec_has_response(&self) -> bool {
        false
    }

    fn to_command_bytes(&self) -> (r: Vec<u8>) {
        let mut buf: Vec<u8> = Vec::new();
        push_bytes(&mut buf, "chat.post(".as_bytes());
        push_bytes(&mut buf, self.message.as_bytes().as_slice());
        push_bytes(&mut buf, ")\n".as_bytes());
        proof {
            assert(buf@ =~= self.spec_command_bytes());
        }
        buf
    }

    fn has_response(&self) -> (r: bool) {
        false
    }
}

// MARK: Formatting and parsing agree

proof fn lemma_dec_digits_are_digits(n: nat)
    ensures
        dec_digits(n).len() > 0,
        forall|i: int| 0 <= i < dec_digits(n).len() ==> 48 <= #[trigger] dec_digits(n)[i] <= 57,
        dec_digits(n)[0] != 48 || n < 10,
        crate::util::digits_value(dec_digits(n)) == n,
    decreases n,
{
    if n < 10 {
        assert(dec_digits(n) =~= seq![(48 + n) as u8]);
        assert(dec_digits(n).drop_last() =~= Seq::<u8>::empty());
        assert(crate::util::digits_value(Seq::<u8>::empty()) == 0);
        assert(dec_digits(n).last() == (48 + n) as u8);
    } else {
        lemma_dec_digits_are_digits(n / 10);
        let t = dec_digits(n / 10);
        let b = (48 + n % 10) as u8;
        assert(dec_digits(n) == t.push(b));
        assert forall|i: int| 0 <= i < t.push(b).len() implies 48 <= #[trigger] t.push(b)[i]
            <= 57 by {
            if i < t.len() {
                assert(t.push(b)[i] == t[i]);
            }
        }
        crate::util::lemma_digits_value_step(t, b);
    }
}

/// Rendering an integer and reading it back gives the integer again: the
/// decimal the command serializer writes is a literal the response parsers
/// accept, with the same value.
pub proof fn lemma_int_bytes_round_trip(i: int)
    ensures
        crate::util::is_int_literal(int_bytes(i)),
        crate::util::int_literal_value(int_bytes(i)) == i,
{
    if i < 0 {
        lemma_dec_digits_are_digits((-i) as nat);
        let s = int_bytes(i);
        assert(s[0] == 45);
        assert(s.skip(1) =~= dec_digits((-i) as nat));
    } else {
        lemma_dec_digits_are_digits(i as nat);
        let s = int_bytes(i);
        assert(s == dec_digits(i as nat));
        assert(s[0] != 45);
    }
}

} // verus!
