use vstd::prelude::*;

verus! {

/// The eight neighbours of a cell. Rows are numbered from the top, so `Down`
/// is the next row.
#[derive(Debug, Clone, Copy, PartialEq, Eq, Structural)]
pub enum Direction {
    Up,
    Down,
    Left,
    Right,
    UpLeft,
    UpRight,
    DownLeft,
    DownRight,
}

impl Direction {
    /// The step this direction takes in x and in y.
    pub open spec fn delta(self) -> (int, int) {
        match self {
            Direction::Up => (0, -1),
            Direction::Down => (0, 1),
            Direction::Left => (-1, 0),
            Direction::Right => (1, 0),
            Direction::UpLeft => (-1, -1),
            Direction::UpRight => (1, -1),
            Direction::DownLeft => (-1, 1),
            Direction::DownRight => (1, 1),
        }
    }

    /// The three upward directions in one of their six orders.
    pub open spec fn up_list(pick: int) -> Seq<Direction> {
        let k = pick % 6;
        if k == 0 {
            seq![Direction::Up, Direction::UpLeft, Direction::UpRight]
        } else if k == 1 {
            seq![Direction::Up, Direction::UpRight, Direction::UpLeft]
        } else if k == 2 {
            seq![Direction::UpLeft, Direction::UpRight, Direction::Up]
        } else if k == 3 {
            seq![Direction::UpLeft, Direction::Up, Direction::UpRight]
        } else if k == 4 {
            seq![Direction::UpRight, Direction::UpLeft, Direction::Up]
        } else {
            seq![Direction::UpRight, Direction::Up, Direction::UpLeft]
        }
    }

    /// `Down`, then the two downward diagonals in one of their two orders.
    pub open spec fn down_list(pick: int) -> Seq<Direction> {
        if pick % 2 == 0 {
            seq![Direction::Down, Direction::DownLeft, Direction::DownRight]
        } else {
            seq![Direction::Down, Direction::DownRight, Direction::DownLeft]
        }
    }

    /// `Left` and `Right` in one of their two orders.
    pub open spec fn horizontal_list(pick: int) -> Seq<Direction> {
        if pick % 2 == 0 {
            seq![Direction::Left, Direction::Right]
        } else {
            seq![Direction::Right, Direction::Left]
        }
    }

    /// One of the twelve candidate lists of a gas: an upward order, then a
    /// horizontal order.
    pub open spec fn gas_list(pick: int) -> Seq<Direction> {
        Self::up_list((pick % 12) / 2) + Self::horizontal_list(pick % 2)
    }

    /// One of the four candidate lists of a liquid: a downward order, then a
    /// horizontal order.
    pub open spec fn liquid_list(pick: int) -> Seq<Direction> {
        Self::down_list((pick % 4) / 2) + Self::horizontal_list(pick % 2)
    }

    /// One of the two candidate lists of a solid: a downward order.
    pub open spec fn solid_list(pick: int) -> Seq<Direction> {
        Self::down_list(pick)
    }

    /// `Up`, `UpLeft` and `UpRight` in the order that `pick` selects.
    pub fn up_directions(pick: usize) -> (r: [Direction; 3])
        ensures
            r@ == Self::up_list(pick as int),
    {
        let k: usize = pick % 6;
        if k == 0 {
            [Direction::Up, Direction::UpLeft, Direction::UpRight]
        } else if k == 1 {
            [Direction::Up, Direction::UpRight, Direction::UpLeft]
        } else if k == 2 {
            [Direction::UpLeft, Direction::UpRight, Direction::Up]
        } else if k == 3 {
            [Direction::UpLeft, Direction::Up, Direction::UpRight]
        } else if k == 4 {
            [Direction::UpRight, Direction::UpLeft, Direction::Up]
        } else {
            [Direction::UpRight, Direction::Up, Direction::UpLeft]
        }
    }

    /// `Down` first, then `DownLeft` and `DownRight` in the order that `pick`
    /// selects.
    pub fn down_directions(pick: usize) -> (r: [Direction; 3])
        ensures
            r@ == Self::down_list(pick as int),
    {
        if pick % 2 == 0 {
            [Direction::Down, Direction::DownLeft, Direction::DownRight]
        } else {
            [Direction::Down, Direction::DownRight, Direction::DownLeft]
        }
    }

    /// `Left` and `Right` in the order that `pick` selects.
    pub fn horizontal_directions(pick: usize) -> (r: [Direction; 2])
        ensures
            r@ == Self::horizontal_list(pick as int),
    {
        if pick % 2 == 0 {
            [Direction::Left, Direction::Right]
        } else {
            [Direction::Right, Direction::Left]
        }
    }

    /// The candidate list of a gas that `pick` selects from the pool of twelve.
    pub fn gas_directions(pick: usize) -> (r: [Direction; 5])
        ensures
            r@ == Self::gas_list(pick as int),
    {
        let up = Self::up_directions((pick % 12) / 2);
        let side = Self::horizontal_directions(pick % 2);
        [up[0], up[1], up[2], side[0], side[1]]
    }

    /// The candidate list of a liquid that `pick` selects from the pool of
    /// four.
    pub fn liquid_directions(pick: usize) -> (r: [Direction; 5])
        ensures
            r@ == Self::liquid_list(pick as int),
    {
        let down = Self::down_directions((pick % 4) / 2);
        let side = Self::horizontal_directions(pick % 2);
        [down[0], down[1], down[2], side[0], side[1]]
    }

    /// The candidate list of a solid that `pick` selects from the pool of two.
    pub fn solid_directions(pick: usize) -> (r: [Direction; 3])
        ensures
            r@ == Self::solid_list(pick as int),
    {
        Self::down_directions(pick)
    }
}

} // verus!
