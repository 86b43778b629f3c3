//! The randomness capability that generators draw from.
use vstd::prelude::*;

verus! {

/// A source of randomness, handed to a generator on every call.
///
/// A source is modelled as a deterministic state machine: what `below`
/// returns, and the state it leaves behind, depend on the state before the
/// call and the bound alone. A source seeded the same way therefore replays
/// the same draws.
pub trait Rand: Sized {
    /// The value that `below(upper_bound_excl)` returns from this state.
    spec fn below_value(&self, upper_bound_excl: u64) -> u64;

    /// The state that `below(upper_bound_excl)` leaves behind.
    spec fn below_next(&self, upper_bound_excl: u64) -> Self;

    /// Draws an integer uniformly from `[0, upper_bound_excl)`.
    fn below(&mut self, upper_bound_excl: u64) -> (r: u64)
        requires
            upper_bound_excl > 0,
        ensures
            r < upper_bound_excl,
            r == old(self).below_value(upper_bound_excl),
            *final(self) == old(self).below_next(upper_bound_excl),
    ;
}

/// The element that `choose_item(rand, items)` picks from the state `rand`.
pub open spec fn chosen_item<R: Rand>(rand: R, items: Seq<u8>) -> u8 {
    items[rand.below_value(items.len() as u64) as int]
}

/// Picks one element of `items` uniformly, by one draw of `below(items.len())`.
pub fn choose_item<R: Rand>(rand: &mut R, items: &[u8]) -> (r: u8)
    requires
        0 < items@.len() <= u64::MAX,
    ensures
        r == chosen_item(*old(rand), items@),
        items@.contains(r),
        *final(rand) == old(rand).below_next(items@.len() as u64),
{
    let i = rand.below(items.len() as u64);
    let r = items[i as usize];
    assert(items@[i as int] == r);
    r
}

} // verus!
