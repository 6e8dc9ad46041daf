//! Cells of the grid and the four headings.

use vstd::prelude::*;

verus! {

/// One cell of the grid, by column `x` and row `y`.
#[derive(Clone, Copy, Debug, PartialEq, Eq, Structural)]
pub struct Location {
    pub x: u16,
    pub y: u16,
}

/// A heading. `Up` leads to smaller rows, `Left` to smaller columns.
#[derive(Clone, Copy, Debug, PartialEq, Eq, Structural)]
pub enum Direction {
    Up,
    Down,
    Left,
    Right,
}

impl Direction {
    /// Change of column made by one step in this heading.
    pub open spec fn dx(self) -> int {
        match self {
            Direction::Left => -1,
            Direction::Right => 1,
            _ => 0,
        }
    }

    /// Change of row made by one step in this heading.
    pub open spec fn dy(self) -> int {
        match self {
            Direction::Up => -1,
            Direction::Down => 1,
            _ => 0,
        }
    }

    /// The heading that undoes this one.
    pub open spec fn reverse(self) -> Direction {
        match self {
            Direction::Up => Direction::Down,
            Direction::Down => Direction::Up,
            Direction::Left => Direction::Right,
            Direction::Right => Direction::Left,
        }
    }

    /// The heading that undoes this one.
    pub fn opposite(self) -> (r: Direction)
        ensures
            r == self.reverse(),
    {
        match self {
            Direction::Up => Direction::Down,
            Direction::Down => Direction::Up,
            Direction::Left => Direction::Right,
            Direction::Right => Direction::Left,
        }
    }
}

impl Location {
    /// Column reached from this cell by one step in heading `d`, as a
    /// mathematical integer: it may be -1 or 65536.
    pub open spec fn col_after(self, d: Direction) -> int {
        self.x + d.dx()
    }

    /// Row reached from this cell by one step in heading `d`.
    pub open spec fn row_after(self, d: Direction) -> int {
        self.y + d.dy()
    }

    /// Whether the cell one step away in heading `d` has coordinates that a
    /// `Location` can hold.
    pub open spec fn can_step(self, d: Direction) -> bool {
        0 <= self.col_after(d) <= u16::MAX && 0 <= self.row_after(d) <= u16::MAX
    }

    /// The cell one step away in heading `d`. Meaningful where `can_step`
    /// holds.
    pub open spec fn stepped(self, d: Direction) -> Location {
        Location { x: self.col_after(d) as u16, y: self.row_after(d) as u16 }
    }

    pub fn new(x: u16, y: u16) -> (p: Location)
        ensures
            p == (Location { x, y }),
    {
        Location { x, y }
    }

    /// The neighbouring cell in heading `d`, computed without wrapping: `None`
    /// exactly when the step would leave the range of the coordinates.
    pub fn neighbour(self, d: Direction) -> (r: Option<Location>)
        ensures
            r.is_some() == self.can_step(d),
            r.is_some() ==> r.unwrap() == self.stepped(d),
    {
        match d {
            Direction::Up => {
                if self.y == 0 {
                    None
                } else {
                    Some(Location { x: self.x, y: self.y - 1 })
                }
            },
            Direction::Down => {
                if self.y == u16::MAX {
                    None
                } else {
                    Some(Location { x: self.x, y: self.y + 1 })
                }
            },
            Direction::Left => {
                if self.x == 0 {
                    None
                } else {
                    Some(Location { x: self.x - 1, y: self.y })
                }
            },
            Direction::Right => {
                if self.x == u16::MAX {
                    None
                } else {
                    Some(Location { x: self.x + 1, y: self.y })
                }
            },
        }
    }
}

} // verus!
