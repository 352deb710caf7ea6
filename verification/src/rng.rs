//! The one source of chance in the game: drawing a secret word's length.
use rand::RngExt;
use vstd::prelude::*;

verus! {

/// Draws a number from `low..=high` with `rand::rng().random_range`.
///
/// The contract claims what rand documents for `RngExt::random_range`: the
/// value lies in the given inclusive range, and the call panics only on an
/// empty range, which `requires` leaves out. Which value comes back is left
/// open: it depends on the thread-local generator's state.
#[verifier::external_body]
pub(crate) fn random_in_range(low: u8, high: u8) -> (n: u8)
    requires
        low <= high,
    ensures
        low <= n <= high,
{
    rand::rng().random_range(low..=high)
}

} // verus!
