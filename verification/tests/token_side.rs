use amm_video::token_side::{select_for_side, TokenSide};

#[test]
fn converts_bool_to_token_side() {
    assert_eq!(TokenSide::from(true), TokenSide::X);
    assert_eq!(TokenSide::from(false), TokenSide::Y);
}

#[test]
fn returns_the_opposite_token_side() {
    assert_eq!(TokenSide::X.opposite(), TokenSide::Y);
    assert_eq!(TokenSide::Y.opposite(), TokenSide::X);
}

#[test]
fn selects_the_value_for_the_requested_side() {
    assert_eq!(select_for_side(TokenSide::X, "x", "y"), "x");
    assert_eq!(select_for_side(TokenSide::Y, "x", "y"), "y");
}

#[test]
fn opposite_twice_is_the_same_side() {
    for side in [TokenSide::X, TokenSide::Y] {
        assert_eq!(side.opposite().opposite(), side);
        assert_ne!(side.opposite(), side);
    }
}

#[test]
fn selecting_for_the_opposite_side_swaps_the_values() {
    for side in [TokenSide::X, TokenSide::Y] {
        assert_eq!(select_for_side(side.opposite(), 1, 2), select_for_side(side, 2, 1));
    }
    assert_eq!(TokenSide::from(true).opposite(), TokenSide::from(false));
}
