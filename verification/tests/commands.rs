use mcpi::camera::{mode_command, CameraMode};
use mcpi::connection::commands::raspberry_juice;
use mcpi::connection::commands::{
    optional, CameraModeSetFixed, CameraModeSetFollow, ChatPost, ColumnCoords,
    SerializableCommand, TileCoords, WorldGetBlock, WorldGetHeight, WorldSetBlock,
};
use mcpi::connection::{
    ApiStr, ChatString, EntityId, JavaEntityType, MCPIExtrasEntityType, MCPIExtrasEntityVariant,
    SheepColor, Tile, TileData,
};

#[test]
fn chat_post_formatting() {
    let string = ChatString::from_str_lossy("Hello world. This is a \"quote.\" )");
    let command = ChatPost { message: string };
    assert_eq!(
        command.to_command_bytes(),
        b"chat.post(Hello world. This is a \"quote.\" ))\n"
    );
}

#[test]
fn command_point_serializes_i16() {
    let vec = TileCoords { x: 1, y: 2, z: 3 };
    let command = WorldGetBlock { coords: vec };
    assert_eq!(command.to_command_bytes(), b"world.getBlock(1,2,3)\n");
}

#[test]
fn command_point_serializes_i16_range() {
    let vec_1 = TileCoords { x: 1, y: 2, z: 3 };
    let vec_2 = TileCoords { x: 4, y: 5, z: 6 };
    let command = raspberry_juice::WorldGetBlocks {
        coords_1: vec_1,
        coords_2: vec_2,
    };
    assert_eq!(command.to_command_bytes(), b"world.getBlocks(1,2,3,4,5,6)\n");
}

#[test]
fn command_with_static_representation_serializes_to_vec() {
    let command = CameraModeSetFixed {};
    assert_eq!(command.to_command_bytes(), b"camera.mode.setFixed()\n");
}

#[test]
fn comma_omitted_when_last_arg_none() {
    let command = CameraModeSetFollow { target: None };
    assert_eq!(command.to_command_bytes(), b"camera.mode.setFollow()\n");
}

#[test]
fn comma_omitted_when_last_arg_some() {
    let command = CameraModeSetFollow {
        target: Some(EntityId(1)),
    };
    assert_eq!(command.to_command_bytes(), b"camera.mode.setFollow(1)\n");
}

#[test]
fn comma_omitted_when_first_arg_none() {
    let command = raspberry_juice::PlayerGetEntities {
        distance: 1,
        entity_type: None,
    };
    assert_eq!(command.to_command_bytes(), b"player.getEntities(1)\n");
}

#[test]
fn comma_included_when_first_arg_some() {
    let command = raspberry_juice::PlayerGetEntities {
        distance: 1,
        entity_type: Some(JavaEntityType(2)),
    };
    assert_eq!(command.to_command_bytes(), b"player.getEntities(1,2)\n");
}

#[test]
fn mcpi_extras_entity_new_sheep() {
    let entity = MCPIExtrasEntityVariant::new_sheep(SheepColor(1));
    assert_eq!(
        entity,
        MCPIExtrasEntityVariant {
            entity: MCPIExtrasEntityType(13),
            value: 1
        }
    );
}

#[test]
fn mcpi_extras_entity_new_arrow() {
    let entity = MCPIExtrasEntityVariant::new_arrow(true);
    assert_eq!(
        entity,
        MCPIExtrasEntityVariant {
            entity: MCPIExtrasEntityType(80),
            value: 1
        }
    );
}

#[test]
fn mcpi_extras_entity_new_dropped_block() {
    let entity = MCPIExtrasEntityVariant::new_item(Tile(1));
    assert_eq!(
        entity,
        MCPIExtrasEntityVariant {
            entity: MCPIExtrasEntityType(64),
            value: 1
        }
    );
}

#[test]
fn mcpi_extras_entity_new_falling_block() {
    let entity = MCPIExtrasEntityVariant::new_falling_tile(Tile(1));
    assert_eq!(
        entity,
        MCPIExtrasEntityVariant {
            entity: MCPIExtrasEntityType(66),
            value: 1
        }
    );
}

#[test]
fn mcpi_extras_entity_new_tnt_duration() {
    let entity = MCPIExtrasEntityVariant::new_tnt(1000);
    assert_eq!(
        entity,
        MCPIExtrasEntityVariant {
            entity: MCPIExtrasEntityType(65),
            value: 20
        }
    );
}

#[test]
fn mcpi_extras_entity_new_tnt_ticks() {
    let entity = MCPIExtrasEntityVariant::tnt_from_ticks(1);
    assert_eq!(
        entity,
        MCPIExtrasEntityVariant {
            entity: MCPIExtrasEntityType(65),
            value: 1
        }
    );
}

#[test]
fn negative_coordinates_serialize_with_minus_signs() {
    let command = WorldGetBlock {
        coords: TileCoords { x: -1, y: -32768, z: 32767 },
    };
    assert_eq!(command.to_command_bytes(), b"world.getBlock(-1,-32768,32767)\n");
}

#[test]
fn world_get_height_uses_two_coordinates() {
    let command = WorldGetHeight {
        coords: ColumnCoords { x: 9, z: -4 },
    };
    assert_eq!(command.to_command_bytes(), b"world.getHeight(9,-4)\n");
}

#[test]
fn world_set_block_includes_nbt_after_comma() {
    let nbt = ApiStr::new("{}").unwrap();
    let command = WorldSetBlock {
        coords: TileCoords { x: 1, y: 2, z: 3 },
        tile: Tile(45),
        data: TileData(0),
        json_nbt: Some(nbt),
    };
    assert_eq!(command.to_command_bytes(), b"world.setBlock(1,2,3,45,0,{})\n");
    let command = WorldSetBlock {
        coords: TileCoords { x: 1, y: 2, z: 3 },
        tile: Tile(45),
        data: TileData(0),
        json_nbt: None,
    };
    assert_eq!(command.to_command_bytes(), b"world.setBlock(1,2,3,45,0)\n");
}

#[test]
fn optional_renders_nothing_for_none() {
    let none: Option<EntityId> = None;
    assert_eq!(optional(&none, true), Vec::<u8>::new());
    assert_eq!(optional(&Some(EntityId(7)), true), vec![44, 55]);
    assert_eq!(optional(&Some(EntityId(7)), false), vec![55]);
}

#[test]
fn camera_mode_commands_match_their_serialized_form() {
    assert_eq!(mode_command(&CameraMode::Fixed), b"camera.mode.setFixed()\n");
    assert_eq!(
        mode_command(&CameraMode::Follow(Some(EntityId(7)))),
        b"camera.mode.setFollow(7)\n"
    );
    assert_eq!(
        mode_command(&CameraMode::Normal(None)),
        b"camera.mode.setNormal()\n"
    );
    assert_eq!(
        mode_command(&CameraMode::ThirdPerson(Some(EntityId(2)))),
        b"camera.mode.setThirdPerson(2)\n"
    );
}

#[test]
fn tnt_fuse_saturates_the_tick_counter() {
    let entity = MCPIExtrasEntityVariant::new_tnt(u64::MAX);
    assert_eq!(entity.value, i32::MAX);
    assert_eq!(MCPIExtrasEntityVariant::new_tnt(0).value, 0);
}
