//! Video RAM and the tile cache decoded from it.
//!
//! The first `TILE_DATA_SIZE` bytes of video RAM hold 384 tiles of 8 rows.
//! A row is two bytes: bit `7 - column` of the first byte is the low bit of
//! the pixel in `column`, the same bit of the second byte its high bit. The
//! cache holds every pixel decoded, and every write renews the row it
//! touches, so that the cache always agrees with the bytes.

use vstd::prelude::*;
use crate::alu::{bit_is_set, lemma_single_bit};

verus! {

/// First bus address of video RAM.
pub const VRAM_BEGIN: usize = 0x8000;

/// Last bus address of video RAM.
pub const VRAM_END: usize = 0x9FFF;

/// Number of bytes of video RAM.
pub const VRAM_SIZE: usize = VRAM_END - VRAM_BEGIN + 1;

/// Number of bytes, from the start of video RAM, that hold tile data.
pub const TILE_DATA_SIZE: usize = 0x1800;

/// Number of tiles in the tile data.
pub const TILE_COUNT: usize = 384;

/// One of the four intensities of a pixel.
#[derive(Copy, Clone, Debug, PartialEq, Eq)]
pub enum TilePixelValue {
    Zero,
    One,
    Two,
    Three,
}

/// Eight rows of eight pixels.
pub type Tile = [[TilePixelValue; 8]; 8];

/// The pixel whose high bit is `most` and whose low bit is `least`.
pub open spec fn pixel_of(most: bool, least: bool) -> TilePixelValue {
    if most {
        if least {
            TilePixelValue::Three
        } else {
            TilePixelValue::Two
        }
    } else {
        if least {
            TilePixelValue::One
        } else {
            TilePixelValue::Zero
        }
    }
}

/// Offset in video RAM of the first byte of a tile's row.
pub open spec fn row_offset(tile: int, row: int) -> int {
    16 * tile + 2 * row
}

/// Whether `tile`, `row` and `column` name a pixel of the tile data.
pub open spec fn is_pixel(tile: int, row: int, column: int) -> bool {
    0 <= tile < TILE_COUNT && 0 <= row < 8 && 0 <= column < 8
}

/// The pixel that the two bytes of a row hold for `column`; column 0 is the
/// leftmost and comes from bit 7.
pub open spec fn row_pixel(low: u8, high: u8, column: int) -> TilePixelValue {
    pixel_of(bit_is_set(high, (7 - column) as u8), bit_is_set(low, (7 - column) as u8))
}

/// The pixel that the bytes of `vram` hold at `column` of `row` of `tile`.
pub open spec fn decoded_pixel(vram: Seq<u8>, tile: int, row: int, column: int) -> TilePixelValue {
    row_pixel(vram[row_offset(tile, row)], vram[row_offset(tile, row) + 1], column)
}

/// A tile with every pixel at `TilePixelValue::Zero`.
pub fn empty_tile() -> (tile: Tile)
    ensures
        forall|row: int, column: int|
            0 <= row < 8 && 0 <= column < 8 ==> (#[trigger] tile@[row]@[column])
                == TilePixelValue::Zero,
{
    [[TilePixelValue::Zero; 8]; 8]
}

/// Video RAM together with the pixels decoded from its tile data.
pub struct GPU {
    vram: [u8; VRAM_SIZE],
    tile_set: [Tile; 384],
}

impl View for GPU {
    type V = Seq<u8>;

    /// The bytes of video RAM.
    closed spec fn view(&self) -> Seq<u8> {
        self.vram@
    }
}

impl GPU {
    /// The pixel that the cache holds.
    pub closed spec fn cached_pixel(&self, tile: int, row: int, column: int) -> TilePixelValue {
        self.tile_set@[tile]@[row]@[column]
    }

    /// The cache agrees with the bytes: every pixel is the one decoded from
    /// the two bytes of its row.
    pub open spec fn wf(&self) -> bool {
        &&& self@.len() == VRAM_SIZE
        &&& forall|tile: int, row: int, column: int|
            is_pixel(tile, row, column) ==> #[trigger] self.cached_pixel(tile, row, column)
                == decoded_pixel(self@, tile, row, column)
    }

    /// Video RAM of zeros, and the tiles that this decodes to.
    pub fn new() -> (gpu: GPU)
        ensures
            gpu.wf(),
            forall|address: int| 0 <= address < VRAM_SIZE ==> gpu@[address] == 0,
    {
        let tile = empty_tile();
        GPU { vram: [0u8; VRAM_SIZE], tile_set: [tile; 384] }
    }

    /// The byte at offset `address` of video RAM.
    pub fn read_vram(&self, address: usize) -> (value: u8)
        requires
            address < VRAM_SIZE,
        ensures
            value == self@[address as int],
    {
        self.vram[address]
    }

    /// The decoded pixel at `column` of `row` of `tile`.
    pub fn tile_pixel(&self, tile: usize, row: usize, column: usize) -> (pixel: TilePixelValue)
        requires
            self.wf(),
            is_pixel(tile as int, row as int, column as int),
        ensures
            pixel == decoded_pixel(self@, tile as int, row as int, column as int),
    {
        assert(self.cached_pixel(tile as int, row as int, column as int) == decoded_pixel(
            self@,
            tile as int,
            row as int,
            column as int,
        ));
        self.tile_set[tile][row][column]
    }

    /// Stores `value` at `index` and, if `index` lies in the tile data,
    /// decodes the row that the byte belongs to anew.
    pub fn write_vram(&mut self, index: usize, value: u8)
        requires
            old(self).wf(),
            index < VRAM_SIZE,
        ensures
            final(self).wf(),
            final(self)@ == old(self)@.update(index as int, value),
    {
        self.vram[index] = value;
        if index >= TILE_DATA_SIZE {
            assert forall|tile: int, row: int, column: int|
                is_pixel(tile, row, column) implies #[trigger] self.cached_pixel(tile, row, column)
                == decoded_pixel(self@, tile, row, column) by {
                assert(old(self).cached_pixel(tile, row, column) == decoded_pixel(
                    old(self)@,
                    tile,
                    row,
                    column,
                ));
            }
            return ;
        }
        proof {
            lemma_row_start(index);
        }
        let row_start = index & 0xFFFE;
        let byte1 = self.vram[row_start];
        let byte2 = self.vram[row_start + 1];
        let tile_index = row_start / 16;
        let row_index = (row_start % 16) / 2;
        let mut pixel_index: usize = 0;
        while pixel_index < 8
            invariant
                pixel_index <= 8,
                tile_index < TILE_COUNT,
                row_index < 8,
                old(self).wf(),
                index < TILE_DATA_SIZE,
                row_start == index - index % 2,
                tile_index == row_start / 16,
                row_index == (row_start % 16) / 2,
                self@ == old(self)@.update(index as int, value),
                byte1 == self@[row_start as int],
                byte2 == self@[row_start + 1],
                forall|tile: int, row: int, column: int|
                    is_pixel(tile, row, column) && (tile != tile_index || row != row_index)
                        ==> #[trigger] self.cached_pixel(tile, row, column) == old(
                        self,
                    ).cached_pixel(tile, row, column),
                forall|column: int|
                    0 <= column < pixel_index ==> #[trigger] self.cached_pixel(
                        tile_index as int,
                        row_index as int,
                        column,
                    ) == row_pixel(byte1, byte2, column),
            decreases 8 - pixel_index,
        {
            let bit: u8 = 7 - pixel_index as u8;
            proof {
                lemma_single_bit(byte1, bit);
                lemma_single_bit(byte2, bit);
            }
            let mask = 1u8 << bit;
            let lsb = byte1 & mask;
            let msb = byte2 & mask;
            let value = match (msb != 0, lsb != 0) {
                (true, true) => TilePixelValue::Three,
                (true, false) => TilePixelValue::Two,
                (false, true) => TilePixelValue::One,
                (false, false) => TilePixelValue::Zero,
            };
            let ghost before = *self;
            self.tile_set[tile_index][row_index][pixel_index] = value;
            // The store changes this one pixel and no other.
            assert forall|tile: int, row: int, column: int|
                is_pixel(tile, row, column) && (tile != tile_index || row != row_index
                    || column != pixel_index) implies #[trigger] self.cached_pixel(
                tile,
                row,
                column,
            ) == before.cached_pixel(tile, row, column) by {}
            pixel_index += 1;
        }
        assert forall|tile: int, row: int, column: int|
            is_pixel(tile, row, column) implies #[trigger] self.cached_pixel(tile, row, column)
            == decoded_pixel(self@, tile, row, column) by {
            if tile != tile_index || row != row_index {
                assert(old(self).cached_pixel(tile, row, column) == decoded_pixel(
                    old(self)@,
                    tile,
                    row,
                    column,
                ));
            }
        }
    }
}

/// Clearing bit 0 of an offset gives the even offset at or below it.
proof fn lemma_row_start(index: usize)
    by (bit_vector)
    requires
        index < 0x1800,
    ensures
        index & 0xFFFE == index - index % 2,
{
}

} // verus!
