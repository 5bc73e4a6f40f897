//! The cursor that drives sampling of a signal at a fixed rate.
//!
//! Sampling visits the instants `n / rate` for `n = 0, 1, 2, ...`. A sampler
//! keeps the rate and the index of the instant that comes next; it only moves
//! forward, and a fresh one has to be made to start over.

use crate::units::FrequencyHz;
use vstd::prelude::*;

verus! {

/// One sampling instant: the `index`-th sample at `rate` samples per second,
/// taken `index / rate` seconds after the origin.
#[derive(Debug, Clone, Copy, PartialEq, Eq, Structural)]
pub struct SampleInstant {
    pub index: u64,
    pub rate: FrequencyHz,
}

/// A one-way cursor over the sampling instants of a fixed rate.
#[derive(Debug)]
pub struct Sampler {
    rate: FrequencyHz,
    next: u64,
}

impl Sampler {
    /// The rate the sampler was made with.
    pub closed spec fn rate_spec(&self) -> FrequencyHz {
        self.rate
    }

    /// The index of the instant that the next call of `advance` hands out.
    pub closed spec fn position(&self) -> nat {
        self.next as nat
    }

    #[verifier::type_invariant]
    spec fn has_sample_period(&self) -> bool {
        self.rate.0 != 0
    }

    /// Makes a sampler that starts at the origin. A rate of zero has no sample
    /// period, so no sampler exists for it.
    pub fn new(rate: FrequencyHz) -> (r: Option<Sampler>)
        ensures
            rate.0 == 0 <==> r.is_none(),
            r matches Some(s) ==> s.rate_spec() == rate && s.position() == 0,
    {
        if rate.0 == 0 {
            None
        } else {
            Some(Sampler { rate, next: 0 })
        }
    }

    /// The sampling rate, which is never zero.
    pub fn rate(&self) -> (r: FrequencyHz)
        ensures
            r == self.rate_spec(),
            r.0 != 0,
    {
        proof {
            use_type_invariant(self);
        }
        self.rate
    }

    /// How many instants a call of `take` for `n` of them hands out from
    /// `position` on: all `n`, unless the index runs out first.
    pub open spec fn taken(position: nat, n: nat) -> nat {
        if position + n <= u64::MAX {
            n
        } else {
            (u64::MAX - position) as nat
        }
    }

    /// Hands out the next `n` instants in order and moves past them. A
    /// sampler whose index runs out on the way hands out those that are left.
    pub fn take(&mut self, n: usize) -> (instants: Vec<SampleInstant>)
        ensures
            final(self).rate_spec() == old(self).rate_spec(),
            instants@.len() == Self::taken(old(self).position(), n as nat),
            final(self).position() == old(self).position() + instants@.len(),
            forall|k: int|
                0 <= k < instants@.len() ==> #[trigger] instants@[k] == (SampleInstant {
                    index: (old(self).position() + k) as u64,
                    rate: old(self).rate_spec(),
                }),
    {
        let mut instants: Vec<SampleInstant> = Vec::new();
        let mut k: usize = 0;
        while k < n && self.next < u64::MAX
            invariant
                k <= n,
                self.rate_spec() == old(self).rate_spec(),
                self.position() == old(self).position() + k,
                self.position() <= u64::MAX,
                instants@.len() == k,
                forall|j: int|
                    0 <= j < k ==> #[trigger] instants@[j] == (SampleInstant {
                        index: (old(self).position() + j) as u64,
                        rate: old(self).rate_spec(),
                    }),
            decreases n - k,
        {
            match self.advance() {
                Some(instant) => instants.push(instant),
                None => {},
            }
            k = k + 1;
        }
        instants
    }

    /// Hands out the next instant and moves past it. Once the index can grow
    /// no further the sampler is spent: it hands out nothing and stays as it is.
    pub fn advance(&mut self) -> (r: Option<SampleInstant>)
        ensures
            final(self).rate_spec() == old(self).rate_spec(),
            old(self).position() < u64::MAX ==> final(self).position() == old(self).position() + 1
                && r == Some(
                (SampleInstant { index: old(self).position() as u64, rate: old(self).rate_spec() }),
            ),
            old(self).position() == u64::MAX ==> r.is_none() && final(self).position() == old(
                self,
            ).position(),
    {
        proof {
            use_type_invariant(&*self);
        }
        if self.next == u64::MAX {
            None
        } else {
            let index: u64 = self.next;
            self.next = index + 1;
            Some(SampleInstant { index, rate: self.rate })
        }
    }
}

} // verus!
