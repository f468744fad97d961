//! The inspector cards of the Canva-style editor panels and the nine-point
//! anchor grid.

use vstd::prelude::*;

verus! {

#[derive(Debug, Clone, Copy, PartialEq, Eq, Structural)]
pub struct CanvaInspectorCard {
    pub padding_x: i8,
    pub padding_y: i8,
}

impl CanvaInspectorCard {
    pub fn new() -> (r: Self)
        ensures
            r == (CanvaInspectorCard { padding_x: 16, padding_y: 16 }),
    {
        CanvaInspectorCard { padding_x: 16, padding_y: 16 }
    }

    pub fn padding(self, x: i8, y: i8) -> (r: Self)
        ensures
            r == (CanvaInspectorCard { padding_x: x, padding_y: y }),
    {
        CanvaInspectorCard { padding_x: x, padding_y: y }
    }
}

impl Default for CanvaInspectorCard {
    fn default() -> (r: Self)
        ensures
            r == (CanvaInspectorCard { padding_x: 16, padding_y: 16 }),
    {
        CanvaInspectorCard::new()
    }
}

#[derive(Debug, Clone, Copy)]
pub struct CanvaInspectorHeader<'a> {
    pub title: &'a str,
    pub description: Option<&'a str>,
}

impl<'a> CanvaInspectorHeader<'a> {
    pub fn new(title: &'a str) -> (r: Self)
        ensures
            r == (CanvaInspectorHeader { title, description: None }),
    {
        CanvaInspectorHeader { title, description: None }
    }

    pub fn description(self, description: &'a str) -> (r: Self)
        ensures
            r == (CanvaInspectorHeader { description: Some(description), ..self }),
    {
        CanvaInspectorHeader { description: Some(description), ..self }
    }
}

#[derive(Debug, Clone, Copy, PartialEq, Eq, Structural)]
pub enum CanvaNinePoint {
    TopLeft,
    TopCenter,
    TopRight,
    MiddleLeft,
    MiddleCenter,
    MiddleRight,
    BottomLeft,
    BottomCenter,
    BottomRight,
}

#[derive(Debug, Clone, Copy, PartialEq, Eq, Structural)]
pub enum CanvaTimelineAction {
    AddAtPointer,
}

/// The anchor at row `row` and column `col` (each 0, 1 or 2) of the grid.
pub open spec fn point_at(row: int, col: int) -> CanvaNinePoint {
    if row == 0 {
        if col == 0 {
            CanvaNinePoint::TopLeft
        } else if col == 1 {
            CanvaNinePoint::TopCenter
        } else {
            CanvaNinePoint::TopRight
        }
    } else if row == 1 {
        if col == 0 {
            CanvaNinePoint::MiddleLeft
        } else if col == 1 {
            CanvaNinePoint::MiddleCenter
        } else {
            CanvaNinePoint::MiddleRight
        }
    } else {
        if col == 0 {
            CanvaNinePoint::BottomLeft
        } else if col == 1 {
            CanvaNinePoint::BottomCenter
        } else {
            CanvaNinePoint::BottomRight
        }
    }
}

/// The row and column of an anchor.
pub open spec fn position_of(value: CanvaNinePoint) -> (usize, usize) {
    match value {
        CanvaNinePoint::TopLeft => (0, 0),
        CanvaNinePoint::TopCenter => (0, 1),
        CanvaNinePoint::TopRight => (0, 2),
        CanvaNinePoint::MiddleLeft => (1, 0),
        CanvaNinePoint::MiddleCenter => (1, 1),
        CanvaNinePoint::MiddleRight => (1, 2),
        CanvaNinePoint::BottomLeft => (2, 0),
        CanvaNinePoint::BottomCenter => (2, 1),
        CanvaNinePoint::BottomRight => (2, 2),
    }
}

pub open spec fn at_most_two(v: usize) -> int {
    if v < 2 {
        v as int
    } else {
        2
    }
}

/// The anchor at a grid cell; a row or column past the last counts as the last.
pub fn point_from_grid(row: usize, col: usize) -> (r: CanvaNinePoint)
    ensures
        r == point_at(at_most_two(row), at_most_two(col)),
{
    let row = if row < 2 {
        row
    } else {
        2
    };
    let col = if col < 2 {
        col
    } else {
        2
    };
    if row == 0 {
        if col == 0 {
            CanvaNinePoint::TopLeft
        } else if col == 1 {
            CanvaNinePoint::TopCenter
        } else {
            CanvaNinePoint::TopRight
        }
    } else if row == 1 {
        if col == 0 {
            CanvaNinePoint::MiddleLeft
        } else if col == 1 {
            CanvaNinePoint::MiddleCenter
        } else {
            CanvaNinePoint::MiddleRight
        }
    } else {
        if col == 0 {
            CanvaNinePoint::BottomLeft
        } else if col == 1 {
            CanvaNinePoint::BottomCenter
        } else {
            CanvaNinePoint::BottomRight
        }
    }
}

/// The grid cell, as (row, column), of an anchor.
pub fn grid_position(value: CanvaNinePoint) -> (r: (usize, usize))
    ensures
        r == position_of(value),
{
    match value {
        CanvaNinePoint::TopLeft => (0, 0),
        CanvaNinePoint::TopCenter => (0, 1),
        CanvaNinePoint::TopRight => (0, 2),
        CanvaNinePoint::MiddleLeft => (1, 0),
        CanvaNinePoint::MiddleCenter => (1, 1),
        CanvaNinePoint::MiddleRight => (1, 2),
        CanvaNinePoint::BottomLeft => (2, 0),
        CanvaNinePoint::BottomCenter => (2, 1),
        CanvaNinePoint::BottomRight => (2, 2),
    }
}

/// The cell of an anchor holds that anchor, and the anchor of a cell sits in
/// that cell (rows and columns past the last counting as the last).
pub proof fn lemma_grid_round_trip(value: CanvaNinePoint, row: usize, col: usize)
    ensures
        point_at(position_of(value).0 as int, position_of(value).1 as int) == value,
        position_of(point_at(at_most_two(row), at_most_two(col))) == (
            at_most_two(row) as usize,
            at_most_two(col) as usize,
        ),
{
}

/// A click on choice chip `index`: it becomes the chosen chip. Whether the
/// choice changed.
pub fn choose_chip(selected: &mut usize, index: usize) -> (r: bool)
    ensures
        *final(selected) == index,
        r == (*old(selected) != index),
{
    let changed = *selected != index;
    *selected = index;
    changed
}

} // verus!
