//! The framed box behind a menu, laid out from nine kinds of tile.

use vstd::prelude::*;

verus! {

/// The nine kinds of tile a box is built from.
#[derive(Clone, Copy, Debug, PartialEq, Eq, Structural)]
pub enum MenuBoxTile {
    TopLeft,
    TopCenter,
    TopRight,
    MidLeft,
    MidCenter,
    MidRight,
    BottomLeft,
    BottomCenter,
    BottomRight,
}

/// The number under which a box's plan lists a kind of tile: 0 to 8, row by row.
pub open spec fn tile_number(tile: MenuBoxTile) -> int {
    match tile {
        MenuBoxTile::TopLeft => 0,
        MenuBoxTile::TopCenter => 1,
        MenuBoxTile::TopRight => 2,
        MenuBoxTile::MidLeft => 3,
        MenuBoxTile::MidCenter => 4,
        MenuBoxTile::MidRight => 5,
        MenuBoxTile::BottomLeft => 6,
        MenuBoxTile::BottomCenter => 7,
        MenuBoxTile::BottomRight => 8,
    }
}

/// The number of the tile at a place of a box with `rows` rows and `columns`
/// columns: corners in the corners, edges along the edges, the centre tile
/// everywhere else.
pub open spec fn frame_number(rows: int, columns: int, row: int, column: int) -> int {
    let band = if row == 0 {
        0int
    } else if row == rows - 1 {
        6int
    } else {
        3int
    };
    let side = if column == 0 {
        0int
    } else if column == columns - 1 {
        2int
    } else {
        1int
    };
    band + side
}

/// Reads a number of a box's plan.
pub fn tile(value: i8) -> (kind: MenuBoxTile)
    requires
        0 <= value <= 8,
    ensures
        tile_number(kind) == value,
{
    if value == 0 {
        MenuBoxTile::TopLeft
    } else if value == 1 {
        MenuBoxTile::TopCenter
    } else if value == 2 {
        MenuBoxTile::TopRight
    } else if value == 3 {
        MenuBoxTile::MidLeft
    } else if value == 4 {
        MenuBoxTile::MidCenter
    } else if value == 5 {
        MenuBoxTile::MidRight
    } else if value == 6 {
        MenuBoxTile::BottomLeft
    } else if value == 7 {
        MenuBoxTile::BottomCenter
    } else {
        MenuBoxTile::BottomRight
    }
}

/// Draws the plan of a box: for each row, the numbers of its tiles from left to
/// right.
pub fn menu_box(rows: usize, columns: usize) -> (plan: Vec<Vec<i8>>)
    requires
        rows >= 2,
        columns >= 2,
    ensures
        plan@.len() == rows,
        forall|row: int| 0 <= row < rows ==> (#[trigger] plan@[row])@.len() == columns,
        forall|row: int, column: int| 0 <= row < rows && 0 <= column < columns ==> (#[trigger] plan@[row]@[column]) == frame_number(rows as int, columns as int, row, column),
{
    let mut plan: Vec<Vec<i8>> = Vec::new();
    let mut row: usize = 0;
    while row < rows
        invariant
            rows >= 2,
            columns >= 2,
            row <= rows,
            plan@.len() == row,
            forall|r: int| 0 <= r < row ==> (#[trigger] plan@[r])@.len() == columns,
            forall|r: int, c: int| 0 <= r < row && 0 <= c < columns ==> (#[trigger] plan@[r]@[c]) == frame_number(rows as int, columns as int, r, c),
        decreases rows - row,
    {
        let band: i8 = if row == 0 {
            0
        } else if row == rows - 1 {
            6
        } else {
            3
        };
        let mut line: Vec<i8> = Vec::new();
        let mut column: usize = 0;
        while column < columns
            invariant
                columns >= 2,
                column <= columns,
                row < rows,
                band == (if row == 0 { 0int } else if row == rows - 1 { 6int } else { 3int }),
                line@.len() == column,
                forall|c: int| 0 <= c < column ==> (#[trigger] line@[c]) == frame_number(rows as int, columns as int, row as int, c),
            decreases columns - column,
        {
            let side: i8 = if column == 0 {
                0
            } else if column == columns - 1 {
                2
            } else {
                1
            };
            line.push(band + side);
            column += 1;
        }
        plan.push(line);
        row += 1;
    }
    plan
}

/// Every number of a plan stands for a tile, and the four corners of a box are
/// the four corner tiles.
pub proof fn lemma_frame_is_made_of_tiles(rows: int, columns: int, row: int, column: int)
    requires
        rows >= 2,
        columns >= 2,
        0 <= row < rows,
        0 <= column < columns,
    ensures
        0 <= frame_number(rows, columns, row, column) <= 8,
        frame_number(rows, columns, 0, 0) == tile_number(MenuBoxTile::TopLeft),
        frame_number(rows, columns, 0, columns - 1) == tile_number(MenuBoxTile::TopRight),
        frame_number(rows, columns, rows - 1, 0) == tile_number(MenuBoxTile::BottomLeft),
        frame_number(rows, columns, rows - 1, columns - 1) == tile_number(
            MenuBoxTile::BottomRight,
        ),
        frame_number(rows, columns, row, column) == tile_number(MenuBoxTile::MidCenter) <==> (0
            < row < rows - 1 && 0 < column < columns - 1),
{
}

} // verus!
