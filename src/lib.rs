//! A contract store that holds one price, a byte, which can be read back and
//! overwritten.
//!
//! The abstract state of a store is the price it holds (its view). The spec
//! functions `created`, `updated` and `read` describe what each operation does
//! to that state; every executable operation is proved to follow them, and the
//! proof functions at the end state the laws that hold between operations.
use vstd::prelude::*;

verus! {

/// The state of a store after it is set up with the price `v`.
pub open spec fn created(v: u8) -> u8 {
    v
}

/// The state of a store in state `p` after the price is replaced by `v`.
/// The old price plays no part in the new state.
pub open spec fn updated(p: u8, v: u8) -> u8 {
    v
}

/// The price that a read of a store in state `p` returns.
pub open spec fn read(p: u8) -> u8 {
    p
}

/// Storage of the contract: one price in [0, 255].
pub struct FixedPrice {
    price: u8,
}

impl View for FixedPrice {
    type V = u8;

    /// The price the store holds.
    closed spec fn view(&self) -> u8 {
        self.price
    }
}

impl FixedPrice {
    /// Sets up a store that holds `init_value`.
    pub fn new(init_value: u8) -> (r: Self)
        ensures
            r@ == created(init_value),
    {
        FixedPrice { price: init_value }
    }

    /// Sets up a store that holds 0, by way of `new`.
    pub fn default() -> (r: Self)
        ensures
            r@ == created(0),
    {
        Self::new(0)
    }

    /// Replaces the stored price by `new_price`; the old one is discarded.
    pub fn update_price(&mut self, new_price: u8)
        ensures
            final(self)@ == updated(old(self)@, new_price),
    {
        self.price = new_price;
    }

    /// Returns the stored price.
    pub fn get_price(&self) -> (r: u8)
        ensures
            r == read(self@),
    {
        self.price
    }
}

/// A store set up with `v` reads back `v`.
pub proof fn lemma_read_after_new(v: u8)
    ensures
        read(created(v)) == v,
{
}

/// A store set up by `default` reads back 0.
pub proof fn lemma_read_after_default()
    ensures
        read(created(0)) == 0,
{
}

/// A store set up with `v1` and then updated to `v2` reads back `v2`: the
/// first price is overwritten, not merged with the second.
pub proof fn lemma_read_after_update(v1: u8, v2: u8)
    ensures
        read(updated(created(v1), v2)) == v2,
{
}

/// Updating to `v` twice in a row leaves the same state as updating once, and
/// a read then returns `v`.
pub proof fn lemma_update_idempotent(p: u8, v: u8)
    ensures
        updated(updated(p, v), v) == updated(p, v),
        read(updated(updated(p, v), v)) == v,
{
}

} // verus!
