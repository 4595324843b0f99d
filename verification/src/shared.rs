//! The shared observable brightness cell.
//!
//! One `SharedBrightness` exists per leader process. The control surface and
//! the command server write into it; the device writer observes it through a
//! subscription. The cell itself is `futures_signals`' `Mutable`, a
//! lock-protected observable value: every handle sees the same cell, a
//! mutation holds the write lock for its whole read-transform-store, and a
//! subscription yields the latest value (current value first, later values
//! coalesced to the most recent one).
//!
//! The cell is shared between threads, so no contract here can pin the value
//! a read returns to an earlier write: another writer may run in between.
//! What is proved instead: every value this module hands to the cell is a
//! clamped percentage, every delta application stores the clamp of some held
//! value, and every value handed back out is in `[0, 100]`.

use vstd::prelude::*;
use futures_signals::signal::Mutable;
use futures_signals::signal::MutableSignal;
use crate::percent::{add_brightness, applies_some, apply_spec, clamp_percent, is_percent, set_spec};

verus! {

#[verifier::external_type_specification]
#[verifier::external_body]
#[verifier::reject_recursive_types(A)]
pub struct ExMutable<A>(Mutable<A>);

#[verifier::external_type_specification]
#[verifier::external_body]
#[verifier::reject_recursive_types(A)]
pub struct ExMutableSignal<A>(MutableSignal<A>);

/// Mutating an observable cell by a pure transform of its value, atomically:
/// no concurrent writer runs between the read and the store. The transform
/// must accept whatever value the cell holds at that instant, and must not
/// touch the same cell itself: it runs under the cell's write lock, so a
/// re-entrant use would deadlock.
pub trait MutableExt<T> {
    fn replace_pure<F>(&self, f: F) where T: Copy, F: FnOnce(T) -> T
        requires
            forall|t: T| #[trigger] call_requires(f, (t,)),
    ;
}

/// Relies on `Mutable::lock_mut`: the returned guard holds the cell's
/// write lock until it is dropped, so the read, the transform and the
/// store happen with no other mutation in between, and the cell's
/// subscribers are notified of the store. The new, stored value is
/// returned, and it is the transform's result on the `T` value the cell
/// held — the one fact a caller can build on, stated over the transform's
/// own contract.
#[verifier::external_body]
fn mutable_replace_pure<T: Copy, F: FnOnce(T) -> T>(cell: &Mutable<T>, f: F) -> (r: T)
    requires
        forall|t: T| #[trigger] call_requires(f, (t,)),
    ensures
        exists|b: T| call_ensures(f, (b,), r),
{
    let mut value = cell.lock_mut();
    *value = f(*value);
    *value
}

impl<T> MutableExt<T> for Mutable<T> {
    fn replace_pure<F>(&self, f: F) where T: Copy, F: FnOnce(T) -> T {
        let _ = mutable_replace_pure(self, f);
    }
}

/// Relies on `Mutable::new`: creates a fresh observable cell holding `v`.
#[verifier::external_body]
fn cell_new(v: u8) -> Mutable<u8> {
    Mutable::new(v)
}

/// Relies on `ReadOnlyMutable::get` (through `Mutable`'s deref): returns
/// the value the cell holds at some instant during the call.
#[verifier::external_body]
fn cell_get(cell: &Mutable<u8>) -> u8 {
    cell.get()
}

/// Relies on `Mutable::set`: stores `v` in the cell under its write lock
/// and notifies subscribers.
#[verifier::external_body]
fn cell_set(cell: &Mutable<u8>, v: u8) {
    cell.set(v);
}

/// Relies on `ReadOnlyMutable::signal` (through `Mutable`'s deref): returns
/// a subscription that yields the cell's current value once, then the
/// latest value after each subsequent mutation, coalescing rapid updates
/// to the most recent one.
#[verifier::external_body]
fn cell_signal(cell: &Mutable<u8>) -> MutableSignal<u8> {
    cell.signal()
}

/// Relies on `Mutable`'s `Clone`: returns a new handle to the same cell,
/// not a copy of the value.
#[verifier::external_body]
fn cell_handle(cell: &Mutable<u8>) -> Mutable<u8> {
    cell.clone()
}

/// One mutation as the cell serializes it: each `apply_delta` call is a
/// `Delta`, each `set` call an `Absolute`.
pub enum Mutation {
    Delta(i16),
    Absolute(u8),
}

/// What one serialized mutation does to the held value.
pub open spec fn mutate_spec(current: int, m: Mutation) -> int {
    match m {
        Mutation::Delta(d) => apply_spec(current, d as int),
        Mutation::Absolute(v) => set_spec(v as int),
    }
}

/// The value after a whole serialized history of mutations, oldest first.
pub open spec fn run_spec(initial: int, ms: Seq<Mutation>) -> int
    decreases ms.len(),
{
    if ms.len() == 0 {
        initial
    } else {
        mutate_spec(run_spec(initial, ms.drop_last()), ms.last())
    }
}

/// The cell applies each mutation whole, under its write lock, so any group
/// of concurrent `apply_delta`/`set` calls leaves the value of *some*
/// serialization of them — this law says every such serialization, whatever
/// order the lock hands out, ends (and stays throughout) in `[0, 100]`.
pub proof fn lemma_run_in_range(initial: int, ms: Seq<Mutation>)
    requires
        is_percent(initial),
    ensures
        is_percent(run_spec(initial, ms)),
    decreases ms.len(),
{
    if ms.len() > 0 {
        lemma_run_in_range(initial, ms.drop_last());
    }
}

/// What a subscriber may observe: every value a serialized history passes
/// through — each prefix's result — is in `[0, 100]`.
pub proof fn lemma_observed_in_range(initial: int, ms: Seq<Mutation>, i: int)
    requires
        is_percent(initial),
        0 <= i <= ms.len(),
    ensures
        is_percent(run_spec(initial, ms.take(i))),
{
    lemma_run_in_range(initial, ms.take(i));
}

/// The one shared brightness value of a leader process. Every mutation
/// clamps to `[0, 100]` before the store, and every read clamps on the way
/// out, so no component observes or propagates an out-of-range value.
pub struct SharedBrightness {
    cell: Mutable<u8>,
}

impl SharedBrightness {
    /// Creates the cell, clamping the initial value.
    pub fn new(initial: u8) -> SharedBrightness {
        SharedBrightness { cell: cell_new(clamp_percent(initial)) }
    }

    /// A new handle to the same cell: mutations through either handle are
    /// seen by both and by every subscriber.
    pub fn handle(&self) -> SharedBrightness {
        SharedBrightness { cell: cell_handle(&self.cell) }
    }

    /// The value the cell holds at some instant during the call, clamped
    /// defensively on the way out.
    pub fn get(&self) -> (r: u8)
        ensures
            is_percent(r as int),
    {
        clamp_percent(cell_get(&self.cell))
    }

    /// Stores an absolute value, clamped: the cell receives
    /// `set_spec(v)`, never an out-of-range value.
    pub fn set(&self, v: u8) {
        let clamped = clamp_percent(v);
        cell_set(&self.cell, clamped);
    }

    /// Applies a signed delta to the held value, atomically with respect to
    /// every other mutation. The result is the clamp of `b + delta` for the
    /// `u8` value `b` the cell held, so it is in `[0, 100]`.
    pub fn apply_delta(&self, delta: i16) -> (r: u8)
        ensures
            applies_some(r as int, delta as int),
            is_percent(r as int),
    {
        let f = |b: u8| -> (out: u8)
            ensures
                out == apply_spec(b as int, delta as int),
            { add_brightness(b, delta) };
        let r = mutable_replace_pure(&self.cell, f);
        proof {
            let b = choose|b: u8| call_ensures(f, (b,), r);
            assert(r == apply_spec(b as int, delta as int));
            assert(applies_some(r as int, delta as int));
            assert(is_percent(apply_spec(b as int, delta as int)));
        }
        r
    }

    /// A subscription to every change: yields the current value first, then
    /// the latest value after each mutation.
    pub fn subscribe(&self) -> MutableSignal<u8> {
        cell_signal(&self.cell)
    }
}

} // verus!
