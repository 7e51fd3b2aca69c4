use crate::bounding_curve::AccountKey;
use crate::safe_number::SafeNumber;
use vstd::prelude::*;

verus! {

/// A receipt of one purchase: written once, never changed.
#[derive(Clone, Copy, Debug, PartialEq, Eq, Structural)]
pub struct Position {
    /// The market's price at entry.
    pub price: SafeNumber,
    pub token: AccountKey,
    pub bounding_curve: AccountKey,
    pub creator: AccountKey,
    pub timestamp: i64,
}

impl Position {
    /// The receipt of a purchase of `token` by `creator` on the market
    /// `bounding_curve`, at `price`, at `timestamp`.
    pub fn open(
        price: SafeNumber,
        token: AccountKey,
        bounding_curve: AccountKey,
        creator: AccountKey,
        timestamp: i64,
    ) -> (r: Position)
        ensures
            r == (Position { price, token, bounding_curve, creator, timestamp }),
    {
        Position { price, token, bounding_curve, creator, timestamp }
    }
}

} // verus!
