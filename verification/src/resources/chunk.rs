//! Tile layers in chunks.
//!
//! A layer of `width` by `height` tiles, stored row by row, is drawn in
//! square chunks of [`CHUNK_SIZE`] tiles a side. A chunk that reaches over
//! the layer's edge is filled up with empty tiles.

use vstd::prelude::*;

verus! {

/// The side of a chunk, in tiles.
pub const CHUNK_SIZE: usize = 16;

/// The number of chunks that cover `length` tiles in a row or a column.
pub open spec fn spec_chunks_along(length: int) -> int {
    (length + CHUNK_SIZE - 1) / (CHUNK_SIZE as int)
}

/// How many tiles of a chunk that starts at `origin` lie within `length`.
pub open spec fn spec_chunk_extent(origin: int, length: int) -> int {
    if origin + CHUNK_SIZE <= length {
        CHUNK_SIZE as int
    } else {
        length - origin
    }
}

/// The tile in column `x` of row `y` of a layer `width` tiles wide.
pub open spec fn spec_tile_at(tiles: Seq<u32>, width: int, x: int, y: int) -> u32 {
    tiles[y * width + x]
}

/// The number that a tile with the global identifier `gid` has within the
/// tileset whose first tile is `first_gid`, counted from one, in the 16 bits
/// that a chunk has for a tile; zero is the empty tile.
pub open spec fn spec_local_tile(gid: u32, first_gid: u32) -> u16 {
    ((gid + 1 - first_gid) % 0x1_0000) as u16
}

/// Whether the chunk with origin (`chunk_x`, `chunk_y`) can be cut from
/// `tiles`: the origin lies in the layer, the layer's tiles are all there,
/// and each tile of the chunk has a number within the tileset.
pub open spec fn spec_chunk_fits(
    tiles: Seq<u32>,
    width: int,
    height: int,
    chunk_x: int,
    chunk_y: int,
    first_gid: u32,
) -> bool {
    &&& 0 <= chunk_x <= width
    &&& 0 <= chunk_y <= height
    &&& width * height <= tiles.len()
    &&& forall|x: int, y: int|
        chunk_x <= x < chunk_x + spec_chunk_extent(chunk_x, width) && chunk_y <= y < chunk_y
            + spec_chunk_extent(chunk_y, height) ==> first_gid <= #[trigger] spec_tile_at(
            tiles,
            width,
            x,
            y,
        ) + 1 <= u32::MAX
}

/// The chunk with origin (`chunk_x`, `chunk_y`), row by row: the local
/// number of each tile that lies in the layer, and zero for the rest.
pub open spec fn spec_chunk_tiles(
    tiles: Seq<u32>,
    width: int,
    height: int,
    chunk_x: int,
    chunk_y: int,
    first_gid: u32,
) -> Seq<u16> {
    Seq::new(
        (CHUNK_SIZE * CHUNK_SIZE) as nat,
        |i: int|
            {
                let x = i % (CHUNK_SIZE as int);
                let y = i / (CHUNK_SIZE as int);
                if x < spec_chunk_extent(chunk_x, width) && y < spec_chunk_extent(chunk_y, height) {
                    spec_local_tile(spec_tile_at(tiles, width, chunk_x + x, chunk_y + y), first_gid)
                } else {
                    0u16
                }
            },
    )
}

/// The origins of the chunks that cover a layer, row of chunks by row of
/// chunks, each as column and row of the chunk's first tile.
pub open spec fn spec_chunk_origins(width: int, height: int) -> Seq<(usize, usize)> {
    Seq::new(
        (spec_chunks_along(width) * spec_chunks_along(height)) as nat,
        |i: int|
            (
                ((i % spec_chunks_along(width)) * CHUNK_SIZE) as usize,
                ((i / spec_chunks_along(width)) * CHUNK_SIZE) as usize,
            ),
    )
}

pub fn chunks_along(length: usize) -> (chunks: usize)
    ensures
        chunks == spec_chunks_along(length as int),
{
    if length % CHUNK_SIZE == 0 {
        length / CHUNK_SIZE
    } else {
        length / CHUNK_SIZE + 1
    }
}

/// How many tiles of the chunk that starts at `origin` lie within `length`.
pub fn chunk_extent(origin: usize, length: usize) -> (extent: usize)
    requires
        origin <= length,
    ensures
        extent == spec_chunk_extent(origin as int, length as int),
        extent <= CHUNK_SIZE,
{
    if length - origin >= CHUNK_SIZE {
        CHUNK_SIZE
    } else {
        length - origin
    }
}

pub fn chunk_origins(width: usize, height: usize) -> (origins: Vec<(usize, usize)>)
    ensures
        origins@ == spec_chunk_origins(width as int, height as int),
{
    let columns = chunks_along(width);
    let rows = chunks_along(height);
    let mut origins: Vec<(usize, usize)> = Vec::new();
    let mut row: usize = 0;
    while row < rows
        invariant
            columns == spec_chunks_along(width as int),
            rows == spec_chunks_along(height as int),
            row <= rows,
            origins@.len() == row * columns,
            forall|i: int|
                0 <= i < origins@.len() ==> origins@[i] == spec_chunk_origins(
                    width as int,
                    height as int,
                )[i],
        decreases rows - row,
    {
        let mut column: usize = 0;
        while column < columns
            invariant
                columns == spec_chunks_along(width as int),
                rows == spec_chunks_along(height as int),
                row < rows,
                column <= columns,
                origins@.len() == row * columns + column,
                forall|i: int|
                    0 <= i < origins@.len() ==> origins@[i] == spec_chunk_origins(
                        width as int,
                        height as int,
                    )[i],
            decreases columns - column,
        {
            proof {
                let i = row * columns + column;
                assert(i % (columns as int) == column && i / (columns as int) == row) by {
                    vstd::arithmetic::div_mod::lemma_fundamental_div_mod_converse(
                        i,
                        columns as int,
                        row as int,
                        column as int,
                    );
                }
                assert(i < columns * rows) by (nonlinear_arith)
                    requires
                        i == row * columns + column,
                        0 <= column < columns,
                        0 <= row < rows,
                ;
            }
            origins.push((column * CHUNK_SIZE, row * CHUNK_SIZE));
            column = column + 1;
        }
        assert((row + 1) * columns == row * columns + columns) by (nonlinear_arith);
        row = row + 1;
    }
    assert(origins@.len() == rows * columns);
    assert(rows * columns == columns * rows) by (nonlinear_arith);
    assert(origins@ =~= spec_chunk_origins(width as int, height as int));
    origins
}

/// Cuts the chunk with origin (`chunk_x`, `chunk_y`) from the layer, or
/// says that it cannot be cut.
pub fn try_chunk_tiles(
    tiles: &Vec<u32>,
    width: usize,
    height: usize,
    chunk_x: usize,
    chunk_y: usize,
    first_gid: u32,
) -> (chunk: Option<Vec<u16>>)
    ensures
        match chunk {
            Some(chunk) => {
                &&& spec_chunk_fits(
                    tiles@,
                    width as int,
                    height as int,
                    chunk_x as int,
                    chunk_y as int,
                    first_gid,
                )
                &&& chunk@ == spec_chunk_tiles(
                    tiles@,
                    width as int,
                    height as int,
                    chunk_x as int,
                    chunk_y as int,
                    first_gid,
                )
            },
            None => !spec_chunk_fits(
                tiles@,
                width as int,
                height as int,
                chunk_x as int,
                chunk_y as int,
                first_gid,
            ),
        },
{
    if chunk_x > width || chunk_y > height {
        return None;
    }
    let tiles_in_all = tiles.len();
    match width.checked_mul(height) {
        Some(tiles_in_layer) => {
            if tiles_in_layer > tiles_in_all {
                return None;
            }
        },
        None => {
            return None;
        },
    }
    let extent_x = chunk_extent(chunk_x, width);
    let extent_y = chunk_extent(chunk_y, height);
    let mut chunk: Vec<u16> = Vec::new();
    let mut i: usize = 0;
    while i < CHUNK_SIZE * CHUNK_SIZE
        invariant
            i <= CHUNK_SIZE * CHUNK_SIZE,
            chunk_x <= width,
            chunk_y <= height,
            width * height <= tiles@.len(),
            tiles@.len() == tiles_in_all,
            extent_x == spec_chunk_extent(chunk_x as int, width as int),
            extent_y == spec_chunk_extent(chunk_y as int, height as int),
            chunk@.len() == i,
            forall|j: int|
                0 <= j < i ==> chunk@[j] == spec_chunk_tiles(
                    tiles@,
                    width as int,
                    height as int,
                    chunk_x as int,
                    chunk_y as int,
                    first_gid,
                )[j],
            forall|x: int, y: int|
                chunk_x <= x < chunk_x + extent_x && chunk_y <= y < chunk_y + extent_y && (y
                    - chunk_y) * CHUNK_SIZE + (x - chunk_x) < i ==> first_gid
                    <= #[trigger] spec_tile_at(tiles@, width as int, x, y) + 1 <= u32::MAX,
        decreases CHUNK_SIZE * CHUNK_SIZE - i,
    {
        let x = i % CHUNK_SIZE;
        let y = i / CHUNK_SIZE;
        if x < extent_x && y < extent_y {
            assert((chunk_y + y) * width + (chunk_x + x) < width * height) by (nonlinear_arith)
                requires
                    chunk_y + y < height,
                    chunk_x + x < width,
                    0 <= chunk_y + y,
                    0 <= chunk_x + x,
            ;
            assert((chunk_y + y) * width >= 0) by (nonlinear_arith)
                requires
                    0 <= chunk_y + y,
                    0 <= width,
            ;
            let tile: u32 = tiles[(chunk_y + y) * width + (chunk_x + x)];
            assert(tile == spec_tile_at(tiles@, width as int, chunk_x + x, chunk_y + y));
            if tile == u32::MAX || tile + 1 < first_gid {
                return None;
            }
            let local: u32 = tile + 1 - first_gid;
            assert(local & 0xffff == local % 0x1_0000) by (bit_vector);
            assert(local & 0xffff <= 0xffff) by (bit_vector);
            chunk.push((local & 0xffff) as u16);
        } else {
            chunk.push(0);
        }
        i = i + 1;
    }
    assert(chunk@ =~= spec_chunk_tiles(
        tiles@,
        width as int,
        height as int,
        chunk_x as int,
        chunk_y as int,
        first_gid,
    ));
    assert(spec_chunk_fits(
        tiles@,
        width as int,
        height as int,
        chunk_x as int,
        chunk_y as int,
        first_gid,
    )) by {
        assert forall|x: int, y: int|
            chunk_x <= x < chunk_x + extent_x && chunk_y <= y < chunk_y + extent_y implies first_gid
                <= #[trigger] spec_tile_at(tiles@, width as int, x, y) + 1 <= u32::MAX by {
            assert((y - chunk_y) * CHUNK_SIZE + (x - chunk_x) < CHUNK_SIZE * CHUNK_SIZE);
        }
    }
    Some(chunk)
}

/// Cuts the chunk with origin (`chunk_x`, `chunk_y`) from the layer.
pub fn chunk_tiles(
    tiles: &Vec<u32>,
    width: usize,
    height: usize,
    chunk_x: usize,
    chunk_y: usize,
    first_gid: u32,
) -> (chunk: Vec<u16>)
    requires
        spec_chunk_fits(tiles@, width as int, height as int, chunk_x as int, chunk_y as int, first_gid),
    ensures
        chunk@ == spec_chunk_tiles(
            tiles@,
            width as int,
            height as int,
            chunk_x as int,
            chunk_y as int,
            first_gid,
        ),
        chunk@.len() == CHUNK_SIZE * CHUNK_SIZE,
{
    match try_chunk_tiles(tiles, width, height, chunk_x, chunk_y, first_gid) {
        Some(chunk) => chunk,
        None => Vec::new(),
    }
}

} // verus!
