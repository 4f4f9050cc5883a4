use vstd::prelude::*;

verus! {

/// The side of the book that a resting order sits on.
#[derive(Debug, Clone, Copy, PartialEq, Eq, Structural)]
pub enum Side {
    Buy,
    Sell,
}

/// The side that took liquidity in a trade.
#[derive(Debug, Clone, Copy, PartialEq, Eq, Structural)]
pub enum AggressorSide {
    Buyer,
    Seller,
}

/// Order side as a plain two-valued code.
#[derive(Debug, Copy, Clone, PartialEq, Eq, Structural)]
pub enum OrderSide {
    Buy,
    Sell,
}

} // verus!
