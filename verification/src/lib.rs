//! A client library for the line-oriented text protocol of a sandbox-game
//! server: commands are ASCII lines ended by a newline, and a command either
//! has a silent effect or is answered by exactly one newline-terminated
//! response.  The wire carries no request identifiers, so responses are
//! matched to requests purely by order; the connection layer here turns
//! that into a safe, backpressured request/response abstraction.
//!
//! The heart of the crate is [`connection`]: frame extraction, the
//! serialization of commands, the decision of when a command waits for a
//! response, and the queued connection whose single worker makes
//! match-by-order sound.  Around it stand the response parsers in this
//! module and the block, camera and code-page helpers.

use vstd::prelude::*;

pub mod block;
pub mod camera;
pub mod connection;
pub mod util;

verus! {

use crate::block::{spec_block_face, BlockFace, InvalidBlockFaceError, ParseBlockError};
use crate::connection::commands::TileCoords;
use crate::connection::{ConnectionError, EntityId, NewlineStrError, Tile};
use crate::util::{int_literal_value, is_int_literal, parse_i16_bytes, parse_i32_bytes,
    parse_u8_bytes, split_bytes, split_bytes_exec};
use vstd::arithmetic::div_mod::{lemma_mod_bound, lemma_multiply_divide_lt, lemma_div_pos_is_pos};

/// What can go wrong when working with a world.
#[derive(Debug, Clone, Copy, PartialEq, Eq)]
pub enum WorldError {
    /// The connection layer failed.
    Connection(ConnectionError),
    /// A string offered for a command held a newline.
    ApiStrConvert(NewlineStrError),
    /// A number in a response could not be read.
    ParseInt,
    /// A fractional number in a response could not be read.
    ParseFloat,
    /// A block in a response could not be read.
    ParseBlock(ParseBlockError),
    /// A response held too few fields.
    NotEnoughParts,
    /// A block face in a response was invalid.
    InvalidBlockFace(InvalidBlockFaceError),
}

/// One block-hit event: which block was hit, on which face, by whom.
#[derive(Debug, Clone, Copy, PartialEq, Eq)]
pub struct BlockHit {
    /// The coordinates of the block that was hit.
    pub location: TileCoords,
    /// The face of the block that was hit.
    pub face: BlockFace,
    /// The player that hit it.
    pub player_id: EntityId,
}

/// Whether the bytes are a decimal literal whose value lies in the range.
pub open spec fn is_dec_in(p: Seq<u8>, lo: int, hi: int) -> bool {
    is_int_literal(p) && lo <= int_literal_value(p) <= hi
}

/// Reads a block type from a response: one decimal that fits in a byte.
pub fn parse_tile_response(frame: &[u8]) -> (r: Result<Tile, WorldError>)
    ensures
        match r {
            Ok(t) => is_dec_in(frame@, 0, u8::MAX as int) && t.0 == int_literal_value(frame@),
            Err(e) => e == WorldError::ParseInt && !is_dec_in(frame@, 0, u8::MAX as int),
        },
{
    match parse_u8_bytes(frame) {
        Some(v) => Ok(Tile(v)),
        None => Err(WorldError::ParseInt),
    }
}

/// Reads a height from a response: one decimal that fits in an `i16`.
pub fn parse_height_response(frame: &[u8]) -> (r: Result<i16, WorldError>)
    ensures
        match r {
            Ok(h) => is_dec_in(frame@, i16::MIN as int, i16::MAX as int) && h
                == int_literal_value(frame@) as i16,
            Err(e) => e == WorldError::ParseInt && !is_dec_in(
                frame@,
                i16::MIN as int,
                i16::MAX as int,
            ),
        },
{
    match parse_i16_bytes(frame) {
        Some(v) => Ok(v),
        None => Err(WorldError::ParseInt),
    }
}

/// Reads an integer position from a response: three comma-separated
/// decimals, each fitting in an `i16`.
pub fn parse_coords_response(frame: &[u8]) -> (r: Result<TileCoords, WorldError>)
    ensures
        ({
            let pieces = split_bytes(frame@, 44);
            match r {
                Ok(c) => {
                    &&& pieces.len() == 3
                    &&& is_dec_in(pieces[0], i16::MIN as int, i16::MAX as int)
                    &&& is_dec_in(pieces[1], i16::MIN as int, i16::MAX as int)
                    &&& is_dec_in(pieces[2], i16::MIN as int, i16::MAX as int)
                    &&& c.x == int_literal_value(pieces[0]) as i16
                    &&& c.y == int_literal_value(pieces[1]) as i16
                    &&& c.z == int_literal_value(pieces[2]) as i16
                },
                Err(WorldError::NotEnoughParts) => pieces.len() < 3,
                Err(WorldError::ParseInt) => pieces.len() > 3 || (pieces.len() == 3 && {
                    ||| !is_dec_in(pieces[0], i16::MIN as int, i16::MAX as int)
                    ||| !is_dec_in(pieces[1], i16::MIN as int, i16::MAX as int)
                    ||| !is_dec_in(pieces[2], i16::MIN as int, i16::MAX as int)
                }),
                Err(_) => false,
            }
        }),
{
    let pieces = split_bytes_exec(frame, 44);
    if pieces.len() < 3 {
        return Err(WorldError::NotEnoughParts);
    }
    if pieces.len() > 3 {
        return Err(WorldError::ParseInt);
    }
    proof {
        assert(pieces@[0]@ == split_bytes(frame@, 44)[0]);
        assert(pieces@[1]@ == split_bytes(frame@, 44)[1]);
        assert(pieces@[2]@ == split_bytes(frame@, 44)[2]);
    }
    let x = match parse_i16_bytes(pieces[0].as_slice()) {
        Some(v) => v,
        None => {
            return Err(WorldError::ParseInt);
        },
    };
    let y = match parse_i16_bytes(pieces[1].as_slice()) {
        Some(v) => v,
        None => {
            return Err(WorldError::ParseInt);
        },
    };
    let z = match parse_i16_bytes(pieces[2].as_slice()) {
        Some(v) => v,
        None => {
            return Err(WorldError::ParseInt);
        },
    };
    Ok(TileCoords { x, y, z })
}

/// Reads the ids of all players from a response: decimals separated by
/// pipes.
pub fn parse_player_ids(frame: &[u8]) -> (r: Result<Vec<EntityId>, WorldError>)
    ensures
        ({
            let pieces = split_bytes(frame@, 124);
            match r {
                Ok(v) => {
                    &&& v@.len() == pieces.len()
                    &&& forall|i: int| 0 <= i < v@.len() ==> is_dec_in(
                        #[trigger] pieces[i],
                        i32::MIN as int,
                        i32::MAX as int,
                    ) && v@[i].0 == int_literal_value(pieces[i]) as i32
                },
                Err(e) => e == WorldError::ParseInt && exists|i: int| 0 <= i < pieces.len()
                    && !is_dec_in(#[trigger] pieces[i], i32::MIN as int, i32::MAX as int),
            }
        }),
{
    let pieces = split_bytes_exec(frame, 124);
    let ghost specs = split_bytes(frame@, 124);
    let mut out: Vec<EntityId> = Vec::new();
    let mut i: usize = 0;
    while i < pieces.len()
        invariant
            pieces@.map_values(|p: Vec<u8>| p@) == specs,
            specs == split_bytes(frame@, 124),
            i <= pieces@.len(),
            out@.len() == i,
            forall|j: int| 0 <= j < i ==> is_dec_in(
                #[trigger] specs[j],
                i32::MIN as int,
                i32::MAX as int,
            ) && out@[j].0 == int_literal_value(specs[j]) as i32,
        decreases pieces@.len() - i,
    {
        proof {
            assert(pieces@[i as int]@ == specs[i as int]);
        }
        match parse_i32_bytes(pieces[i].as_slice()) {
            Some(v) => {
                out.push(EntityId(v));
            },
            None => {
                return Err(WorldError::ParseInt);
            },
        }
        i += 1;
    }
    Ok(out)
}

/// Whether one `x,y,z,face,player` segment of a block-hits response is
/// well formed: five fields, three `i16` coordinates, a face from zero to
/// five, and an `i32` player id.
pub open spec fn block_hit_ok(seg: Seq<u8>) -> bool {
    let f = split_bytes(seg, 44);
    &&& f.len() == 5
    &&& is_dec_in(f[0], i16::MIN as int, i16::MAX as int)
    &&& is_dec_in(f[1], i16::MIN as int, i16::MAX as int)
    &&& is_dec_in(f[2], i16::MIN as int, i16::MAX as int)
    &&& is_dec_in(f[3], 0, 5)
    &&& is_dec_in(f[4], i32::MIN as int, i32::MAX as int)
}

/// The block hit that a well-formed segment describes.
pub open spec fn spec_block_hit(seg: Seq<u8>) -> BlockHit {
    let f = split_bytes(seg, 44);
    BlockHit {
        location: TileCoords {
            x: int_literal_value(f[0]) as i16,
            y: int_literal_value(f[1]) as i16,
            z: int_literal_value(f[2]) as i16,
        },
        face: spec_block_face(int_literal_value(f[3])),
        player_id: EntityId(int_literal_value(f[4]) as i32),
    }
}

/// The error the first malformed `x,y,z,face,player` segment yields: the
/// checks run left to right, field count first.
pub open spec fn segment_error(seg: Seq<u8>) -> WorldError {
    let f = split_bytes(seg, 44);
    if f.len() != 5 {
        WorldError::NotEnoughParts
    } else if !is_dec_in(f[0], i16::MIN as int, i16::MAX as int) {
        WorldError::ParseInt
    } else if !is_dec_in(f[1], i16::MIN as int, i16::MAX as int) {
        WorldError::ParseInt
    } else if !is_dec_in(f[2], i16::MIN as int, i16::MAX as int) {
        WorldError::ParseInt
    } else if !is_dec_in(f[3], 0, u8::MAX as int) {
        WorldError::ParseInt
    } else if int_literal_value(f[3]) > 5 {
        WorldError::InvalidBlockFace(
            InvalidBlockFaceError { id: int_literal_value(f[3]) as i32 },
        )
    } else {
        WorldError::ParseInt
    }
}

/// Reads the block hits from a response: segments separated by pipes, each
/// holding `x,y,z,face,player`.  A malformed response yields the error of
/// its first malformed segment.
pub fn parse_block_hits(frame: &[u8]) -> (r: Result<Vec<BlockHit>, WorldError>)
    ensures
        ({
            let segs = split_bytes(frame@, 124);
            match r {
                Ok(v) => {
                    &&& v@.len() == segs.len()
                    &&& forall|i: int| 0 <= i < v@.len() ==> block_hit_ok(#[trigger] segs[i])
                        && v@[i] == spec_block_hit(segs[i])
                },
                Err(e) => exists|i: int|
                    {
                        &&& 0 <= i < segs.len()
                        &&& !block_hit_ok(#[trigger] segs[i])
                        &&& e == segment_error(segs[i])
                        &&& forall|j: int| 0 <= j < i ==> block_hit_ok(#[trigger] segs[j])
                    },
            }
        }),
{
    let segs = split_bytes_exec(frame, 124);
    let ghost gsegs = split_bytes(frame@, 124);
    let mut out: Vec<BlockHit> = Vec::new();
    let mut i: usize = 0;
    while i < segs.len()
        invariant
            segs@.map_values(|p: Vec<u8>| p@) == gsegs,
            gsegs == split_bytes(frame@, 124),
            i <= segs@.len(),
            out@.len() == i,
            forall|j: int| 0 <= j < i ==> block_hit_ok(#[trigger] gsegs[j]) && out@[j]
                == spec_block_hit(gsegs[j]),
        decreases segs@.len() - i,
    {
        proof {
            assert(segs@[i as int]@ == gsegs[i as int]);
        }
        let fields = split_bytes_exec(segs[i].as_slice(), 44);
        let ghost gf = split_bytes(gsegs[i as int], 44);
        if fields.len() != 5 {
            return Err(WorldError::NotEnoughParts);
        }
        proof {
            assert(fields@[0]@ == gf[0]);
            assert(fields@[1]@ == gf[1]);
            assert(fields@[2]@ == gf[2]);
            assert(fields@[3]@ == gf[3]);
            assert(fields@[4]@ == gf[4]);
        }
        let x = match parse_i16_bytes(fields[0].as_slice()) {
            Some(v) => v,
            None => {
                return Err(WorldError::ParseInt);
            },
        };
        let y = match parse_i16_bytes(fields[1].as_slice()) {
            Some(v) => v,
            None => {
                return Err(WorldError::ParseInt);
            },
        };
        let z = match parse_i16_bytes(fields[2].as_slice()) {
            Some(v) => v,
            None => {
                return Err(WorldError::ParseInt);
            },
        };
        let face_id = match parse_u8_bytes(fields[3].as_slice()) {
            Some(v) => v,
            None => {
                return Err(WorldError::ParseInt);
            },
        };
        let face = match BlockFace::from_id(face_id) {
            Ok(f) => f,
            Err(e) => {
                return Err(WorldError::InvalidBlockFace(e));
            },
        };
        let player = match parse_i32_bytes(fields[4].as_slice()) {
            Some(v) => v,
            None => {
                return Err(WorldError::ParseInt);
            },
        };
        out.push(
            BlockHit { location: TileCoords { x, y, z }, face, player_id: EntityId(player) },
        );
        i += 1;
    }
    Ok(out)
}

/// Reads a cuboid of block types from a response: comma-separated
/// decimals, one per block, ordered by z, then x, then y.  Each entry is
/// returned with its offset from the cuboid's first corner.
///
/// The cuboid must be given with its corners in order and small enough for
/// the offsets to fit the coordinate type, and the response may not hold
/// more entries than the cuboid has blocks.
pub fn parse_tiles_response(frame: &[u8], coords_1: TileCoords, coords_2: TileCoords) -> (r: Result<
    Vec<(Tile, TileCoords)>,
    WorldError,
>)
    requires
        coords_1.x <= coords_2.x && coords_2.x - coords_1.x < 32767,
        coords_1.y <= coords_2.y && coords_2.y - coords_1.y < 32767,
        coords_1.z <= coords_2.z && coords_2.z - coords_1.z < 32767,
        split_bytes(frame@, 44).len() <= (coords_2.x - coords_1.x + 1) * (coords_2.y - coords_1.y
            + 1) * (coords_2.z - coords_1.z + 1),
    ensures
        ({
            let pieces = split_bytes(frame@, 44);
            let x_len = coords_2.x - coords_1.x + 1int;
            let y_len = coords_2.y - coords_1.y + 1int;
            match r {
                Ok(v) => {
                    &&& v@.len() == pieces.len()
                    &&& forall|i: int| 0 <= i < v@.len() ==> is_dec_in(
                        #[trigger] pieces[i],
                        0,
                        u8::MAX as int,
                    ) && v@[i].0 == Tile(int_literal_value(pieces[i]) as u8) && v@[i].1
                        == (TileCoords {
                        x: ((i / y_len) % x_len) as i16,
                        y: (i % y_len) as i16,
                        z: (i / (x_len * y_len)) as i16,
                    })
                },
                Err(e) => e == WorldError::ParseInt && exists|i: int| 0 <= i < pieces.len()
                    && !is_dec_in(#[trigger] pieces[i], 0, u8::MAX as int),
            }
        }),
{
    let pieces = split_bytes_exec(frame, 44);
    let ghost specs = split_bytes(frame@, 44);
    let x_len: i64 = coords_2.x as i64 - coords_1.x as i64 + 1;
    let y_len: i64 = coords_2.y as i64 - coords_1.y as i64 + 1;
    let z_len: i64 = coords_2.z as i64 - coords_1.z as i64 + 1;
    let mut out: Vec<(Tile, TileCoords)> = Vec::new();
    let mut i: usize = 0;
    while i < pieces.len()
        invariant
            pieces@.map_values(|p: Vec<u8>| p@) == specs,
            specs == split_bytes(frame@, 44),
            x_len == coords_2.x - coords_1.x + 1int && 1 <= x_len <= 32767,
            y_len == coords_2.y - coords_1.y + 1int && 1 <= y_len <= 32767,
            z_len == coords_2.z - coords_1.z + 1int && 1 <= z_len <= 32767,
            specs.len() <= x_len * y_len * z_len,
            i <= pieces@.len(),
            out@.len() == i,
            forall|j: int| 0 <= j < i ==> is_dec_in(#[trigger] specs[j], 0, u8::MAX as int)
                && out@[j].0 == Tile(int_literal_value(specs[j]) as u8) && out@[j].1
                == (TileCoords {
                x: ((j / (y_len as int)) % (x_len as int)) as i16,
                y: (j % (y_len as int)) as i16,
                z: (j / ((x_len as int) * (y_len as int))) as i16,
            }),
        decreases pieces@.len() - i,
    {
        proof {
            assert(pieces@[i as int]@ == specs[i as int]);
        }
        let tile = match parse_u8_bytes(pieces[i].as_slice()) {
            Some(v) => v,
            None => {
                return Err(WorldError::ParseInt);
            },
        };
        proof {
            assert(x_len * y_len * z_len <= 32767 * 32767 * 32767) by (nonlinear_arith)
                requires
                    1 <= x_len <= 32767 && 1 <= y_len <= 32767 && 1 <= z_len <= 32767,
            ;
        }
        let idx = i as i64;
        proof {
            assert(x_len * y_len <= 32767 * 32767 && x_len * y_len >= 1) by (nonlinear_arith)
                requires
                    1 <= x_len <= 32767 && 1 <= y_len <= 32767,
            ;
            assert(0 <= idx as int);
            lemma_mod_bound(idx as int, y_len as int);
            lemma_div_pos_is_pos(idx as int, y_len as int);
            lemma_mod_bound((idx as int) / (y_len as int), x_len as int);
            lemma_div_pos_is_pos(idx as int, (x_len as int) * (y_len as int));
            assert((idx as int) < (x_len as int) * (y_len as int) * (z_len as int));
            lemma_multiply_divide_lt(idx as int, (x_len as int) * (y_len as int), z_len as int);
        }
        let ox = (idx / y_len) % x_len;
        let oy = idx % y_len;
        let oz = idx / (x_len * y_len);
        out.push((Tile(tile), TileCoords { x: ox as i16, y: oy as i16, z: oz as i16 }));
        i += 1;
    }
    Ok(out)
}

} // verus!
