use vstd::prelude::*;

verus! {

/// How one coordinate of a point compares with zero.
///
/// `Unordered` is the outcome for a coordinate that is neither `>= 0` nor
/// `< 0`, which is what a not-a-number value gives.
#[derive(Clone, Copy, Debug, PartialEq, Eq)]
pub enum Sign {
    NonNegative,
    Negative,
    Unordered,
}

impl Sign {
    /// The sign of a coordinate, from the outcome of its two comparisons
    /// with zero: `non_negative` for `>= 0`, tried first, and `negative`
    /// for `< 0`.
    pub open spec fn spec_of_comparisons(non_negative: bool, negative: bool) -> Sign {
        if non_negative {
            Sign::NonNegative
        } else if negative {
            Sign::Negative
        } else {
            Sign::Unordered
        }
    }

    pub fn of_comparisons(non_negative: bool, negative: bool) -> (sign: Sign)
        ensures
            sign == Sign::spec_of_comparisons(non_negative, negative),
    {
        if non_negative {
            Sign::NonNegative
        } else if negative {
            Sign::Negative
        } else {
            Sign::Unordered
        }
    }
}

/// One of the four corners of a rectangle, named in the rectangle's own
/// frame: x grows to the right and y grows to the top.
#[derive(Clone, Copy, Debug, PartialEq, Eq)]
pub enum Corner {
    TopLeft,
    TopRight,
    BottomLeft,
    BottomRight,
}

impl Corner {
    /// Whether this corner lies on the side of growing x.
    pub open spec fn spec_is_right(self) -> bool {
        self is TopRight || self is BottomRight
    }

    /// Whether this corner lies on the side of growing y.
    pub open spec fn spec_is_top(self) -> bool {
        self is TopLeft || self is TopRight
    }

    /// The corner whose quadrant holds a point, given the signs of the
    /// point's coordinates in the rectangle's frame.
    ///
    /// A coordinate of exactly zero counts as non-negative, so the axes
    /// belong to the right and to the top. A point with an unordered
    /// coordinate lies in no quadrant.
    pub open spec fn spec_select(x: Sign, y: Sign) -> Option<Corner> {
        match (x, y) {
            (Sign::NonNegative, Sign::NonNegative) => Some(Corner::TopRight),
            (Sign::NonNegative, Sign::Negative) => Some(Corner::BottomRight),
            (Sign::Negative, Sign::NonNegative) => Some(Corner::TopLeft),
            (Sign::Negative, Sign::Negative) => Some(Corner::BottomLeft),
            _ => None,
        }
    }

    pub fn is_right(&self) -> (right: bool)
        ensures
            right == self.spec_is_right(),
    {
        match self {
            Corner::TopRight => true,
            Corner::BottomRight => true,
            Corner::TopLeft => false,
            Corner::BottomLeft => false,
        }
    }

    pub fn is_top(&self) -> (top: bool)
        ensures
            top == self.spec_is_top(),
    {
        match self {
            Corner::TopLeft => true,
            Corner::TopRight => true,
            Corner::BottomLeft => false,
            Corner::BottomRight => false,
        }
    }

    /// Picks the corner for a point from the signs of its coordinates,
    /// trying top-right, bottom-right, top-left and bottom-left in turn.
    pub fn select(x: Sign, y: Sign) -> (corner: Option<Corner>)
        ensures
            corner == Corner::spec_select(x, y),
    {
        match x {
            Sign::NonNegative => match y {
                Sign::NonNegative => Some(Corner::TopRight),
                Sign::Negative => Some(Corner::BottomRight),
                Sign::Unordered => None,
            },
            Sign::Negative => match y {
                Sign::NonNegative => Some(Corner::TopLeft),
                Sign::Negative => Some(Corner::BottomLeft),
                Sign::Unordered => None,
            },
            Sign::Unordered => None,
        }
    }

    /// A corner is selected exactly when both coordinates are ordered, and
    /// it is then the one on the side that each sign points to.
    pub proof fn lemma_select_matches_sides(x: Sign, y: Sign, corner: Corner)
        ensures
            Corner::spec_select(x, y) == Some(corner) <==> {
                &&& !(x is Unordered)
                &&& !(y is Unordered)
                &&& (x is NonNegative) == corner.spec_is_right()
                &&& (y is NonNegative) == corner.spec_is_top()
            },
    {
    }

    /// No quadrant is chosen exactly when a coordinate is unordered.
    pub proof fn lemma_select_none(x: Sign, y: Sign)
        ensures
            Corner::spec_select(x, y) is None <==> (x is Unordered || y is Unordered),
    {
    }
}

} // verus!
