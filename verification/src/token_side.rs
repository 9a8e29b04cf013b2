use vstd::prelude::*;

verus! {

/// One of the two tokens of a pool.
#[derive(Clone, Copy, Debug, PartialEq, Eq, Structural)]
pub enum TokenSide {
    X,
    Y,
}

impl TokenSide {
    /// The side that `is_x` names: `X` for `true`, `Y` for `false`.
    pub open spec fn of_bool(is_x: bool) -> TokenSide {
        if is_x {
            TokenSide::X
        } else {
            TokenSide::Y
        }
    }

    /// The other side of the pool.
    pub open spec fn other(self) -> TokenSide {
        match self {
            TokenSide::X => TokenSide::Y,
            TokenSide::Y => TokenSide::X,
        }
    }

    /// Returns the other side of the pool.
    pub fn opposite(self) -> (r: TokenSide)
        ensures
            r == self.other(),
    {
        match self {
            TokenSide::X => TokenSide::Y,
            TokenSide::Y => TokenSide::X,
        }
    }
}

impl From<bool> for TokenSide {
    fn from(is_x: bool) -> (r: TokenSide) {
        if is_x {
            TokenSide::X
        } else {
            TokenSide::Y
        }
    }
}

impl vstd::std_specs::convert::FromSpecImpl<bool> for TokenSide {
    open spec fn obeys_from_spec() -> bool {
        true
    }

    open spec fn from_spec(is_x: bool) -> TokenSide {
        TokenSide::of_bool(is_x)
    }
}

/// The value that belongs to `side`: `x` for `X`, `y` for `Y`.
pub open spec fn chosen<T>(side: TokenSide, x: T, y: T) -> T {
    match side {
        TokenSide::X => x,
        TokenSide::Y => y,
    }
}

/// Picks, of two values given for the sides `X` and `Y`, the one for `side`.
pub fn select_for_side<T>(side: TokenSide, x: T, y: T) -> (r: T)
    ensures
        r == chosen(side, x, y),
{
    match side {
        TokenSide::X => x,
        TokenSide::Y => y,
    }
}

/// Taking the opposite side twice gives the side back, and a side is never
/// its own opposite.
pub proof fn lemma_opposite_involution(side: TokenSide)
    ensures
        side.other().other() == side,
        side.other() != side,
{
}

/// The side named by `!is_x` is the opposite of the side named by `is_x`.
pub proof fn lemma_opposite_of_bool(is_x: bool)
    ensures
        TokenSide::of_bool(is_x).other() == TokenSide::of_bool(!is_x),
{
}

/// Selecting for the opposite side is selecting for the side with the two
/// values swapped.
pub proof fn lemma_select_opposite<T>(side: TokenSide, x: T, y: T)
    ensures
        chosen(side.other(), x, y) == chosen(side, y, x),
{
}

} // verus!
