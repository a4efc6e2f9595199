use vstd::prelude::*;

verus! {

/// Generator of the identifiers used to correlate outbound requests with
/// inbound responses on the compositor IPC connection. It lives as long as
/// the process and hands out each identifier at most once.
#[derive(PartialEq, Eq, Debug, Clone, Copy)]
pub struct SerialGenerator {
    pub counter: u64,
}

/// The identifier handed out by the `k`-th call on a generator whose counter
/// stood at `start`.
pub open spec fn nth_serial(start: int, k: int) -> int {
    start + k
}

impl SerialGenerator {
    /// A fresh generator; its first identifier is 0.
    pub fn new() -> (r: Self)
        ensures
            r.counter == 0,
    {
        SerialGenerator { counter: 0 }
    }

    /// Hands out the current identifier and advances the counter, so later
    /// calls always receive strictly larger identifiers.
    pub fn increment_get(&mut self) -> (r: u64)
        requires
            old(self).counter < u64::MAX,
        ensures
            r as int == nth_serial(old(self).counter as int, 0),
            final(self).counter as int == nth_serial(old(self).counter as int, 1),
    {
        let serial = self.counter;
        self.counter = self.counter + 1;
        serial
    }
}

/// Identifiers are unique and ordered: of any two identifiers drawn from one
/// generator, the one drawn by the earlier call is strictly smaller, so no
/// two calls ever receive the same identifier. Interleaved callers share the
/// one counter, so this holds across all of them together.
pub proof fn lemma_serials_distinct(start: int, i: int, j: int)
    requires
        0 <= i < j,
    ensures
        nth_serial(start, i) < nth_serial(start, j),
{
}

} // verus!
