use mcpi::block::{Block, BlockFace, InvalidBlockFaceError, ParseBlockError};
use mcpi::connection::commands::TileCoords;
use mcpi::connection::{EntityId, Tile, TileData};
use mcpi::util::{parse_i16_bytes, parse_i64_bytes, parse_u8_bytes};
use mcpi::{
    parse_block_hits, parse_coords_response, parse_height_response, parse_player_ids,
    parse_tile_response, parse_tiles_response, BlockHit, WorldError,
};

#[test]
fn tile_response_parses_a_byte() {
    assert_eq!(parse_tile_response(b"42"), Ok(Tile(42)));
    assert_eq!(parse_tile_response(b"0"), Ok(Tile(0)));
    assert_eq!(parse_tile_response(b"255"), Ok(Tile(255)));
    assert_eq!(parse_tile_response(b"256"), Err(WorldError::ParseInt));
    assert_eq!(parse_tile_response(b"forty"), Err(WorldError::ParseInt));
    assert_eq!(parse_tile_response(b""), Err(WorldError::ParseInt));
}

#[test]
fn height_response_parses_a_signed_number() {
    assert_eq!(parse_height_response(b"-5"), Ok(-5));
    assert_eq!(parse_height_response(b"00012"), Ok(12));
    assert_eq!(parse_height_response(b"40000"), Err(WorldError::ParseInt));
}

#[test]
fn coords_response_needs_exactly_three_fields() {
    assert_eq!(
        parse_coords_response(b"1,-2,3"),
        Ok(TileCoords { x: 1, y: -2, z: 3 })
    );
    assert_eq!(parse_coords_response(b"1,2"), Err(WorldError::NotEnoughParts));
    assert_eq!(parse_coords_response(b"1,2,3,4"), Err(WorldError::ParseInt));
    assert_eq!(parse_coords_response(b"1,x,3"), Err(WorldError::ParseInt));
}

#[test]
fn player_ids_split_on_pipes() {
    assert_eq!(
        parse_player_ids(b"3|5|9"),
        Ok(vec![EntityId(3), EntityId(5), EntityId(9)])
    );
    assert_eq!(parse_player_ids(b"7"), Ok(vec![EntityId(7)]));
    assert_eq!(parse_player_ids(b""), Err(WorldError::ParseInt));
    assert_eq!(parse_player_ids(b"3|x"), Err(WorldError::ParseInt));
}

#[test]
fn block_hits_parse_all_five_fields() {
    assert_eq!(
        parse_block_hits(b"1,2,3,4,5|6,7,8,0,9"),
        Ok(vec![
            BlockHit {
                location: TileCoords { x: 1, y: 2, z: 3 },
                face: BlockFace::NegativeX,
                player_id: EntityId(5),
            },
            BlockHit {
                location: TileCoords { x: 6, y: 7, z: 8 },
                face: BlockFace::NegativeY,
                player_id: EntityId(9),
            },
        ])
    );
    assert_eq!(
        parse_block_hits(b"1,2,3,4"),
        Err(WorldError::NotEnoughParts)
    );
    assert_eq!(
        parse_block_hits(b"1,2,3,9,5"),
        Err(WorldError::InvalidBlockFace(InvalidBlockFaceError { id: 9 }))
    );
    assert_eq!(parse_block_hits(b"1,2,x,4,5"), Err(WorldError::ParseInt));
}

#[test]
fn tiles_response_orders_offsets_by_z_then_x_then_y() {
    let c1 = TileCoords { x: 0, y: 0, z: 0 };
    let c2 = TileCoords { x: 1, y: 1, z: 0 };
    let parsed = parse_tiles_response(b"1,2,3,4", c1, c2).unwrap();
    assert_eq!(
        parsed,
        vec![
            (Tile(1), TileCoords { x: 0, y: 0, z: 0 }),
            (Tile(2), TileCoords { x: 0, y: 1, z: 0 }),
            (Tile(3), TileCoords { x: 1, y: 0, z: 0 }),
            (Tile(4), TileCoords { x: 1, y: 1, z: 0 }),
        ]
    );
    assert_eq!(
        parse_tiles_response(b"1,x,3,4", c1, c2),
        Err(WorldError::ParseInt)
    );
}

#[test]
fn block_parses_tile_and_data() {
    assert_eq!(
        Block::parse(b"12,3"),
        Ok(Block::new(Tile(12), TileData(3)))
    );
    assert_eq!(Block::parse(b"12"), Err(ParseBlockError::NotEnoughParts));
    assert_eq!(Block::parse(b"a,3"), Err(ParseBlockError::ParseInt));
    assert_eq!(Block::parse(b"1,2,3"), Err(ParseBlockError::ParseInt));
}

#[test]
fn block_keeps_its_nbt_text() {
    let block = Block::new(Tile(5), TileData(0)).with_nbt("{\"k\":1}".to_string());
    assert_eq!(block.json_nbt(), Some("{\"k\":1}".to_string()));
    assert_eq!(Block::new(Tile(5), TileData(0)).json_nbt(), None);
}

#[test]
fn block_faces_come_from_ids_zero_through_five() {
    assert_eq!(BlockFace::from_id(0), Ok(BlockFace::NegativeY));
    assert_eq!(BlockFace::from_id(5), Ok(BlockFace::PositiveX));
    assert_eq!(
        BlockFace::from_id(6),
        Err(InvalidBlockFaceError { id: 6 })
    );
}

#[test]
fn tiles_display_their_names() {
    assert_eq!(Tile(0).display().to_string(), "Air");
    assert_eq!(Tile(1).display().to_string(), "Stone");
    assert_eq!(Tile(46).display().to_string(), "TNT");
    assert_eq!(Tile(87).display().to_string(), "Unknown Block (87)");
}

#[test]
fn int_literals_parse_at_their_extremes() {
    assert_eq!(parse_i64_bytes(b"9223372036854775807"), Some(i64::MAX));
    assert_eq!(parse_i64_bytes(b"-9223372036854775808"), Some(i64::MIN));
    assert_eq!(parse_i64_bytes(b"9223372036854775808"), None);
    assert_eq!(parse_i64_bytes(b"-9223372036854775809"), None);
    assert_eq!(parse_i64_bytes(b"00042"), Some(42));
    assert_eq!(parse_i64_bytes(b"-0"), Some(0));
    assert_eq!(parse_i64_bytes(b"-"), None);
    assert_eq!(parse_i64_bytes(b""), None);
    assert_eq!(parse_i64_bytes(b"1 2"), None);
    assert_eq!(parse_i16_bytes(b"-32768"), Some(i16::MIN));
    assert_eq!(parse_i16_bytes(b"32768"), None);
    assert_eq!(parse_u8_bytes(b"0255"), Some(255));
}
