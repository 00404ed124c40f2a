//! Blocks: a tile type, its data value, and optional NBT text.

use vstd::prelude::*;

verus! {

use crate::connection::{Tile, TileData};
use crate::util::{
    first_byte, int_literal_value, is_int_literal, lemma_first_byte, lemma_first_byte_is,
    parse_u8_bytes,
};
use vstd::slice::slice_subrange;

/// A block type with its data value and, for servers that understand it,
/// NBT data as JSON text.
#[derive(Debug, Clone, PartialEq, Eq)]
pub struct Block {
    pub tile: Tile,
    pub data: TileData,
    pub nbt: Option<String>,
}

impl Block {
    /// A block with no NBT data.
    pub fn new(tile: Tile, data: TileData) -> (r: Block)
        ensures
            r.tile == tile,
            r.data == data,
            r.nbt is None,
    {
        Block { tile, data, nbt: None }
    }

    /// The same block with the given NBT JSON text attached.
    pub fn with_nbt(self, nbt: String) -> (r: Block)
        ensures
            r.tile == self.tile,
            r.data == self.data,
            r.nbt == Some(nbt),
    {
        Block { tile: self.tile, data: self.data, nbt: Some(nbt) }
    }

    /// The NBT data as JSON text, if any.
    pub fn json_nbt(&self) -> (r: Option<String>)
        ensures
            match r {
                Some(t) => self.nbt is Some && t@ == self.nbt->0@,
                None => self.nbt is None,
            },
    {
        match &self.nbt {
            Some(t) => Some(t.clone()),
            None => None,
        }
    }

    /// Reads a block from a response of the form `tile,data`: the bytes
    /// before the first comma and the bytes after it, each a decimal that
    /// fits in a byte.
    pub fn parse(s: &[u8]) -> (r: Result<Block, ParseBlockError>)
        ensures
            ({
                let i = first_byte(s@, 44) as int;
                match r {
                    Ok(b) => {
                        &&& i < s@.len()
                        &&& is_int_literal(s@.take(i))
                        &&& 0 <= int_literal_value(s@.take(i)) <= u8::MAX
                        &&& b.tile.0 == int_literal_value(s@.take(i))
                        &&& is_int_literal(s@.skip(i + 1))
                        &&& 0 <= int_literal_value(s@.skip(i + 1)) <= u8::MAX
                        &&& b.data.0 == int_literal_value(s@.skip(i + 1))
                        &&& b.nbt is None
                    },
                    Err(ParseBlockError::NotEnoughParts) => i == s@.len(),
                    Err(ParseBlockError::ParseInt) => {
                        &&& i < s@.len()
                        &&& {
                            ||| !is_int_literal(s@.take(i))
                            ||| !(0 <= int_literal_value(s@.take(i)) <= u8::MAX)
                            ||| !is_int_literal(s@.skip(i + 1))
                            ||| !(0 <= int_literal_value(s@.skip(i + 1)) <= u8::MAX)
                        }
                    },
                }
            }),
    {
        let n = s.len();
        let mut i: usize = 0;
        while i < n
            invariant
                i <= n == s@.len(),
                forall|j: int| 0 <= j < i ==> s@[j] != 44,
            decreases n - i,
        {
            if s[i] == 44 {
                proof {
                    lemma_first_byte_is(s@, 44, i as int);
                }
                let head = slice_subrange(s, 0, i);
                let tail = slice_subrange(s, i + 1, n);
                proof {
                    assert(head@ =~= s@.take(i as int));
                    assert(tail@ =~= s@.skip(i + 1));
                }
                let tile = match parse_u8_bytes(head) {
                    Some(v) => v,
                    None => {
                        return Err(ParseBlockError::ParseInt);
                    },
                };
                let data = match parse_u8_bytes(tail) {
                    Some(v) => v,
                    None => {
                        return Err(ParseBlockError::ParseInt);
                    },
                };
                return Ok(Block { tile: Tile(tile), data: TileData(data), nbt: None });
            }
            i += 1;
        }
        proof {
            lemma_first_byte(s@, 44);
            if first_byte(s@, 44) < s@.len() {
                assert(s@[first_byte(s@, 44) as int] == 44);
            }
        }
        Err(ParseBlockError::NotEnoughParts)
    }
}

/// The error when a server's block response cannot be read.
#[derive(Debug, Clone, Copy, PartialEq, Eq)]
pub enum ParseBlockError {
    /// The response held no comma.
    NotEnoughParts,
    /// A field was not a decimal that fits in a byte.
    ParseInt,
}

/// The error when a number does not name a face of a block.
#[derive(Debug, Clone, Copy, PartialEq, Eq)]
pub struct InvalidBlockFaceError {
    pub id: i32,
}

/// A face of a block.
#[derive(Debug, Clone, Copy, PartialEq, Eq, Hash)]
pub enum BlockFace {
    /// The side facing down, towards smaller Y.
    NegativeY,
    /// The side facing up, towards larger Y.
    PositiveY,
    /// The side facing towards smaller Z.
    NegativeZ,
    /// The side facing towards larger Z.
    PositiveZ,
    /// The side facing towards smaller X.
    NegativeX,
    /// The side facing towards larger X.
    PositiveX,
}

/// The face each of the numbers zero through five names.
pub open spec fn spec_block_face(id: int) -> BlockFace {
    if id == 0 {
        BlockFace::NegativeY
    } else if id == 1 {
        BlockFace::PositiveY
    } else if id == 2 {
        BlockFace::NegativeZ
    } else if id == 3 {
        BlockFace::PositiveZ
    } else if id == 4 {
        BlockFace::NegativeX
    } else {
        BlockFace::PositiveX
    }
}

impl BlockFace {
    /// The face the wire numbers zero through five; anything else is
    /// refused.
    pub fn from_id(id: u8) -> (r: Result<BlockFace, InvalidBlockFaceError>)
        ensures
            match r {
                Ok(f) => id <= 5 && f == spec_block_face(id as int),
                Err(e) => id > 5 && e.id == id as i32,
            },
    {
        match id {
            0 => Ok(BlockFace::NegativeY),
            1 => Ok(BlockFace::PositiveY),
            2 => Ok(BlockFace::NegativeZ),
            3 => Ok(BlockFace::PositiveZ),
            4 => Ok(BlockFace::NegativeX),
            5 => Ok(BlockFace::PositiveX),
            _ => Err(InvalidBlockFaceError { id: id as i32 }),
        }
    }
}

} // verus!
