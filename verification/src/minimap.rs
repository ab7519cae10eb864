//! Minimap cell layout: the connector rectangles that bridge the gap
//! between adjacent area cells in each exit direction.
//!
//! Drawing itself is an external concern; the geometry here is what keeps
//! connectors aligned with their cells.

use vstd::prelude::*;

use crate::area::Direction;

verus! {

/// Width of one area cell in the minimap, in pixels.
pub const CELL_W_PX: u16 = 14;

/// Height of one area cell, in pixels.
pub const CELL_H_PX: u16 = 9;

/// Gap between cells; exit connectors are drawn inside it.
pub const GAP_PX: u16 = 4;

/// The `(left, top, width, height)` of the connector rectangle bridging the
/// gap from the cell at `(cell_left, cell_top)` toward its neighbour in
/// direction `d`; `None` when the connector would leave the container
/// (above or left of the top-left corner).
pub open spec fn spec_connector_rect(d: Direction, cell_left: u16, cell_top: u16) -> Option<
    (u16, u16, u16, u16),
> {
    match d {
        Direction::North => if cell_top < GAP_PX {
            None
        } else {
            Some(
                (
                    (cell_left + CELL_W_PX / 4) as u16,
                    (cell_top - GAP_PX) as u16,
                    CELL_W_PX / 2 as u16,
                    GAP_PX,
                ),
            )
        },
        Direction::South => Some(
            (
                (cell_left + CELL_W_PX / 4) as u16,
                (cell_top + CELL_H_PX) as u16,
                CELL_W_PX / 2 as u16,
                GAP_PX,
            ),
        ),
        Direction::East => Some(
            (
                (cell_left + CELL_W_PX) as u16,
                (cell_top + CELL_H_PX / 4) as u16,
                GAP_PX,
                CELL_H_PX / 2 as u16,
            ),
        ),
        Direction::West => if cell_left < GAP_PX {
            None
        } else {
            Some(
                (
                    (cell_left - GAP_PX) as u16,
                    (cell_top + CELL_H_PX / 4) as u16,
                    GAP_PX,
                    CELL_H_PX / 2 as u16,
                ),
            )
        },
    }
}

/// Compute the connector rectangle bridging the gap between two adjacent
/// cells in the given direction.
pub fn connector_rect(dir: Direction, cell_left: u16, cell_top: u16) -> (r: Option<
    (u16, u16, u16, u16),
>)
    requires
        cell_left + CELL_W_PX <= u16::MAX,
        cell_top + CELL_H_PX <= u16::MAX,
    ensures
        r == spec_connector_rect(dir, cell_left, cell_top),
{
    let con_w = CELL_W_PX / 2;
    let con_h = CELL_H_PX / 2;
    match dir {
        Direction::North => {
            if cell_top < GAP_PX {
                None
            } else {
                Some((cell_left + CELL_W_PX / 4, cell_top - GAP_PX, con_w, GAP_PX))
            }
        },
        Direction::South => Some((cell_left + CELL_W_PX / 4, cell_top + CELL_H_PX, con_w, GAP_PX)),
        Direction::East => Some((cell_left + CELL_W_PX, cell_top + CELL_H_PX / 4, GAP_PX, con_h)),
        Direction::West => {
            if cell_left < GAP_PX {
                None
            } else {
                Some((cell_left - GAP_PX, cell_top + CELL_H_PX / 4, GAP_PX, con_h))
            }
        },
    }
}

} // verus!
