use vstd::prelude::*;
use crate::error::ConvertError;
use crate::level::{box_extent, grid_level, level_of, MAX_EXTENT};

verus! {

/// The red channel that every record carries.
pub const COLOR_RED: u8 = 233;

/// The green channel that every record carries.
pub const COLOR_GREEN: u8 = 163;

/// The blue channel that every record carries.
pub const COLOR_BLUE: u8 = 201;

/// The material that every record carries.
pub const MATERIAL: u8 = 255;

/// One row of the exported table: an occupied cell in the target's axes, the
/// grid's level, and the colour and material.
#[derive(Clone, Copy, Debug, PartialEq, Eq, Structural)]
pub struct VoxelRecord {
    pub x: i32,
    pub y: i32,
    pub z: i32,
    pub level: usize,
    pub red: u8,
    pub green: u8,
    pub blue: u8,
    pub material: u8,
}

/// The names of the table's columns, in the order of a record's fields.
pub open spec fn column_names() -> Seq<Seq<char>> {
    seq!["X"@, "Y"@, "Z"@, "level"@, "R"@, "G"@, "B"@, "mat"@]
}

/// The header row of the table.
pub fn header() -> (names: [&'static str; 8])
    ensures
        names@.map_values(|name: &'static str| name@) == column_names(),
{
    let names = ["X", "Y", "Z", "level", "R", "G", "B", "mat"];
    assert(names@.map_values(|name: &'static str| name@) =~= column_names());
    names
}

/// A coordinate with its second and third components exchanged: what points
/// up along the second axis in the source points up along the third in the
/// target.
pub open spec fn swapped_yz(cell: Seq<i32>) -> Seq<i32> {
    seq![cell[0], cell[2], cell[1]]
}

/// The record of one occupied cell of a grid with the given level.
pub open spec fn record_of(cell: [i32; 3], level: usize) -> VoxelRecord {
    VoxelRecord {
        x: swapped_yz(cell@)[0],
        y: swapped_yz(cell@)[1],
        z: swapped_yz(cell@)[2],
        level,
        red: COLOR_RED,
        green: COLOR_GREEN,
        blue: COLOR_BLUE,
        material: MATERIAL,
    }
}

/// The records of the cells of a grid, one for each cell and in their order.
pub open spec fn records_of(cells: Seq<[i32; 3]>, level: usize) -> Seq<VoxelRecord> {
    cells.map_values(|cell: [i32; 3]| record_of(cell, level))
}

/// Exchanging the second and third components twice gives the coordinate
/// back, and the first component never moves.
pub proof fn lemma_swap_involution(cell: Seq<i32>)
    requires
        cell.len() == 3,
    ensures
        swapped_yz(cell)[0] == cell[0],
        swapped_yz(swapped_yz(cell)) == cell,
{
    assert(swapped_yz(swapped_yz(cell)) =~= cell);
}

/// The table has as many rows as the grid has cells, each row holds the level
/// and the fixed colour and material, and its position is the cell's with the
/// second and third components exchanged.
pub proof fn lemma_records_match_cells(cells: Seq<[i32; 3]>, level: usize)
    ensures
        records_of(cells, level).len() == cells.len(),
        forall|i: int|
            0 <= i < cells.len() ==> {
                let row = #[trigger] records_of(cells, level)[i];
                &&& row.x == cells[i][0]
                &&& row.y == cells[i][2]
                &&& row.z == cells[i][1]
                &&& row.level == level
                &&& row.red == 233
                &&& row.green == 163
                &&& row.blue == 201
                &&& row.material == 255
            },
{
}

/// Moves a cell from the source's axes to the target's.
pub fn remap_axes(cell: [i32; 3]) -> (moved: [i32; 3])
    ensures
        moved@ == swapped_yz(cell@),
{
    let moved = [cell[0], cell[2], cell[1]];
    assert(moved@ =~= swapped_yz(cell@));
    moved
}

/// The record of one occupied cell.
pub fn voxel_record(cell: [i32; 3], level: usize) -> (row: VoxelRecord)
    ensures
        row == record_of(cell, level),
{
    let moved = remap_axes(cell);
    VoxelRecord {
        x: moved[0],
        y: moved[1],
        z: moved[2],
        level,
        red: COLOR_RED,
        green: COLOR_GREEN,
        blue: COLOR_BLUE,
        material: MATERIAL,
    }
}

/// The rows of the table for the given cells, in the order of the cells:
/// none is added, dropped or moved.
pub fn voxel_records(cells: &Vec<[i32; 3]>, level: usize) -> (rows: Vec<VoxelRecord>)
    ensures
        rows@.len() == cells@.len(),
        rows@ == records_of(cells@, level),
{
    let mut rows: Vec<VoxelRecord> = Vec::new();
    let mut i: usize = 0;
    while i < cells.len()
        invariant
            i <= cells.len(),
            rows@ =~= records_of(cells@, level).take(i as int),
        decreases cells.len() - i,
    {
        rows.push(voxel_record(cells[i], level));
        i = i + 1;
    }
    assert(records_of(cells@, level).take(cells@.len() as int) =~= records_of(cells@, level));
    rows
}

/// The whole table of a grid with the given occupied cells and the bounding
/// box from `min` to `max`: the level is found from the box, and every row
/// carries it. A box that reaches further than `MAX_EXTENT` from the origin
/// is refused, and nothing else is.
pub fn voxel_table(cells: &Vec<[i32; 3]>, min: [i32; 3], max: [i32; 3]) -> (result: Result<
    Vec<VoxelRecord>,
    ConvertError,
>)
    ensures
        match result {
            Ok(rows) => box_extent(min, max) <= MAX_EXTENT && rows@.len() == cells@.len()
                && rows@ == records_of(cells@, level_of(box_extent(min, max)) as usize),
            Err(e) => e == ConvertError::GridTooLarge && box_extent(min, max) > MAX_EXTENT,
        },
{
    match grid_level(min, max) {
        Ok(level) => Ok(voxel_records(cells, level)),
        Err(e) => Err(e),
    }
}

} // verus!
