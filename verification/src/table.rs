//! Periodic sample tables.
//!
//! A table holds the amplitudes of one period of a signal, taken at evenly
//! spaced instants. Looking a signal up in its table costs one index
//! computation: the position of an instant, counted in samples from the
//! origin, is wrapped around the length of the table. A shift in time becomes
//! a rotation of the table.
//!
//! The table does not care what an amplitude is. It keeps the samples in
//! order, wraps positions, and hands each sample to the caller's own code
//! wherever amplitudes have to be computed, scaled or added.

use vstd::arithmetic::div_mod::lemma_add_mod_noop;
use vstd::arithmetic::div_mod::lemma_fundamental_div_mod;
use vstd::arithmetic::div_mod::lemma_fundamental_div_mod_converse;
use vstd::arithmetic::div_mod::lemma_mod_bound;
use vstd::arithmetic::div_mod::lemma_mod_multiples_vanish;
use vstd::arithmetic::div_mod::lemma_small_mod;
use vstd::prelude::*;

verus! {

/// Why a table could not be made.
#[derive(Debug, Clone, Copy, PartialEq, Eq, Structural)]
pub enum TableError {
    /// The samples given do not cover the period the table is declared for.
    TooFewSamples,
    /// Two tables that were to be combined sample by sample differ in length.
    LengthMismatch,
}

/// The index at which a table of `len` samples holds the sample for
/// `position`. The table repeats in both directions: positions past the end
/// start over from the front, and positions before the origin come in from
/// the back.
pub open spec fn wrapped_index(position: int, len: nat) -> nat
    recommends
        0 < len,
{
    (position % (len as int)) as nat
}

/// The number of leading samples that a rotation by `offset` positions moves
/// to the end of a table of `len` samples.
pub open spec fn pivot_of(offset: int, len: nat) -> nat {
    if len == 0 {
        0
    } else {
        wrapped_index(offset, len)
    }
}

/// The samples `s` with the first `pivot_of(offset, s.len())` of them moved to
/// the end, the order within both parts kept.
pub open spec fn rotated<T>(s: Seq<T>, offset: int) -> Seq<T> {
    let pivot = pivot_of(offset, s.len()) as int;
    s.subrange(pivot, s.len() as int) + s.subrange(0, pivot)
}

/// Whether `len` samples are enough for a period that spans `span` sampling
/// instants: at most one sample may be missing.
pub open spec fn covers(len: nat, span: nat) -> bool {
    len + 1 >= span
}

/// Rotation is a shift in time: what a rotated table holds for a position is
/// what the table held, before the rotation, for the position `offset` places
/// further on.
pub proof fn lemma_rotated_lookup<T>(s: Seq<T>, offset: int, position: int)
    requires
        s.len() > 0,
    ensures
        rotated(s, offset).len() == s.len(),
        wrapped_index(position, s.len()) < s.len(),
        wrapped_index(position + offset, s.len()) < s.len(),
        rotated(s, offset)[wrapped_index(position, s.len()) as int] == s[wrapped_index(
            position + offset,
            s.len(),
        ) as int],
{
    let len = s.len() as int;
    let pivot = offset % len;
    let index = position % len;
    lemma_mod_bound(offset, len);
    lemma_mod_bound(position, len);
    lemma_mod_bound(position + offset, len);
    lemma_add_mod_noop(position, offset, len);
    if index + pivot < len {
        lemma_small_mod((index + pivot) as nat, len as nat);
    } else {
        lemma_add_mod_noop(index + pivot - len, len, len);
        lemma_small_mod((index + pivot - len) as nat, len as nat);
    }
}

/// Sampling a table once per period lands on the same sample every time:
/// positions that lie a whole number of table lengths apart share an index.
pub proof fn lemma_whole_periods_apart(position: int, periods: int, len: nat)
    requires
        len > 0,
    ensures
        wrapped_index(position + periods * len, len) == wrapped_index(position, len),
{
    lemma_mod_multiples_vanish(periods, position, len as int);
    assert(periods * len == (len as int) * periods) by (nonlinear_arith);
}

/// Wraps a position around a table of `len` samples.
fn wrap(position: i64, len: usize) -> (index: usize)
    requires
        len > 0,
    ensures
        index == wrapped_index(position as int, len as nat),
        index < len,
{
    if position >= 0 {
        let index: u64 = (position as u64) % (len as u64);
        index as usize
    } else {
        let below: u64 = (-(position + 1)) as u64;
        let back: u64 = below % (len as u64);
        proof {
            let whole: int = (below as int) / (len as int);
            lemma_fundamental_div_mod(below as int, len as int);
            assert((-whole - 1) * (len as int) == -((len as int) * whole) - len as int)
                by (nonlinear_arith);
            lemma_fundamental_div_mod_converse(
                position as int,
                len as int,
                -whole - 1,
                len as int - 1 - back as int,
            );
        }
        len - 1 - (back as usize)
    }
}

/// One period of a signal as a fixed sequence of samples.
///
/// The table records the number of sampling instants that the period spans,
/// and always holds enough samples to cover it.
#[derive(Debug)]
pub struct SampleTable<T> {
    samples: Vec<T>,
    span: usize,
}

impl<T> SampleTable<T> {
    /// The samples, in order.
    pub closed spec fn view(&self) -> Seq<T> {
        self.samples@
    }

    /// The number of sampling instants that one period spans.
    pub closed spec fn span_spec(&self) -> nat {
        self.span as nat
    }

    #[verifier::type_invariant]
    spec fn covers_its_period(&self) -> bool {
        covers(self.samples@.len(), self.span as nat)
    }

    /// Makes a table of the given samples for a period of `span` sampling
    /// instants. Samples that fall short of the period are refused; nothing is
    /// cut off or filled in.
    pub fn new(samples: Vec<T>, span: usize) -> (r: Result<SampleTable<T>, TableError>)
        ensures
            covers(samples@.len(), span as nat) <==> r is Ok,
            r matches Ok(table) ==> table@ == samples@ && table.span_spec() == span,
            r matches Err(e) ==> e == TableError::TooFewSamples,
    {
        if span == 0 || samples.len() >= span - 1 {
            Ok(SampleTable { samples, span })
        } else {
            Err(TableError::TooFewSamples)
        }
    }

    /// Fills a table for a period of `span` sampling instants by asking
    /// `evaluator` for the sample of each instant `0, 1, ..., span - 1` in turn.
    pub fn from_fn<F: Fn(usize) -> T>(evaluator: F, span: usize) -> (table: SampleTable<T>)
        requires
            forall|k: usize| 0 <= k < span ==> call_requires(evaluator, (k,)),
        ensures
            table.span_spec() == span,
            table@.len() == span,
            forall|k: usize| 0 <= k < span ==> call_ensures(evaluator, (k,), #[trigger] table@[k as int]),
    {
        let mut samples: Vec<T> = Vec::new();
        let mut k: usize = 0;
        while k < span
            invariant
                k <= span,
                samples@.len() == k,
                forall|j: usize| 0 <= j < span ==> call_requires(evaluator, (j,)),
                forall|j: usize| 0 <= j < k ==> call_ensures(evaluator, (j,), #[trigger] samples@[j as int]),
            decreases span - k,
        {
            let sample = evaluator(k);
            samples.push(sample);
            k = k + 1;
        }
        SampleTable { samples, span }
    }

    /// The number of samples in the table.
    pub fn len(&self) -> (n: usize)
        ensures
            n == self@.len(),
            covers(n as nat, self.span_spec()),
    {
        proof {
            use_type_invariant(self);
        }
        self.samples.len()
    }

    /// Whether the table holds no sample at all.
    pub fn is_empty(&self) -> (r: bool)
        ensures
            r == (self@.len() == 0),
    {
        self.samples.len() == 0
    }

    /// The number of sampling instants that one period spans.
    pub fn span(&self) -> (n: usize)
        ensures
            n == self.span_spec(),
            covers(self@.len(), n as nat),
    {
        proof {
            use_type_invariant(self);
        }
        self.span
    }

    /// The index of the sample for `position`, wrapped around the table. An
    /// empty table has no index to give.
    pub fn index_for(&self, position: i64) -> (r: Option<usize>)
        ensures
            self@.len() == 0 <==> r.is_none(),
            r matches Some(index) ==> index == wrapped_index(position as int, self@.len()) && index
                < self@.len(),
    {
        let len = self.samples.len();
        if len == 0 {
            None
        } else {
            Some(wrap(position, len))
        }
    }

    /// The sample for `position`, looked up at the wrapped index. An empty
    /// table has no sample to give.
    pub fn at(&self, position: i64) -> (r: Option<&T>)
        ensures
            self@.len() == 0 <==> r.is_none(),
            r matches Some(sample) ==> *sample == self@[wrapped_index(
                position as int,
                self@.len(),
            ) as int],
    {
        let len = self.samples.len();
        if len == 0 {
            None
        } else {
            Some(&self.samples[wrap(position, len)])
        }
    }

    /// Shifts the table by `offset` positions: the first
    /// `pivot_of(offset, len)` samples move to the end. Afterwards every
    /// position finds the sample that stood `offset` positions further on, so
    /// that a positive offset brings the samples forward in time.
    pub fn rotate(self, offset: i64) -> (r: SampleTable<T>)
        ensures
            r.span_spec() == self.span_spec(),
            r@ == rotated(self@, offset as int),
            r@.len() == self@.len(),
            forall|position: int|
                self@.len() > 0 ==> r@[#[trigger] wrapped_index(position, self@.len()) as int]
                    == self@[wrapped_index(position + offset, self@.len()) as int],
    {
        proof {
            use_type_invariant(&self);
            assert forall|position: int| self@.len() > 0 implies rotated(
                self@,
                offset as int,
            )[#[trigger] wrapped_index(position, self@.len()) as int] == self@[wrapped_index(
                position + offset,
                self@.len(),
            ) as int] by {
                lemma_rotated_lookup(self@, offset as int, position);
            }
        }
        let span = self.span;
        let mut head = self.samples;
        let len = head.len();
        if len == 0 {
            assert(rotated(head@, offset as int) =~= head@);
            SampleTable { samples: head, span }
        } else {
            let pivot = wrap(offset, len);
            let mut tail = head.split_off(pivot);
            tail.append(&mut head);
            SampleTable { samples: tail, span }
        }
    }

    /// Makes a table of the same shape whose samples are those of this one,
    /// each passed through `f`.
    pub fn map<U, F: Fn(&T) -> U>(&self, f: F) -> (r: SampleTable<U>)
        requires
            forall|i: int| 0 <= i < self@.len() ==> call_requires(f, (&#[trigger] self@[i],)),
        ensures
            r.span_spec() == self.span_spec(),
            r@.len() == self@.len(),
            forall|i: int| 0 <= i < self@.len() ==> call_ensures(f, (&self@[i],), #[trigger] r@[i]),
    {
        proof {
            use_type_invariant(self);
        }
        let len = self.samples.len();
        let mut samples: Vec<U> = Vec::new();
        let mut i: usize = 0;
        while i < len
            invariant
                i <= len,
                len == self@.len(),
                self@ == self.samples@,
                samples@.len() == i,
                forall|j: int| 0 <= j < self@.len() ==> call_requires(f, (&#[trigger] self@[j],)),
                forall|j: int| 0 <= j < i ==> call_ensures(f, (&self@[j],), #[trigger] samples@[j]),
            decreases len - i,
        {
            let sample = f(&self.samples[i]);
            samples.push(sample);
            i = i + 1;
        }
        SampleTable { samples, span: self.span }
    }

    /// Combines two tables sample by sample through `f`. The tables have to
    /// agree in length; where they do not, nothing is combined.
    pub fn combine<F: Fn(&T, &T) -> T>(&self, other: &SampleTable<T>, f: F) -> (r: Result<
        SampleTable<T>,
        TableError,
    >)
        requires
            forall|i: int|
                0 <= i < self@.len() && i < other@.len() ==> call_requires(
                    f,
                    (&#[trigger] self@[i], &other@[i]),
                ),
        ensures
            self@.len() == other@.len() <==> r is Ok,
            r matches Err(e) ==> e == TableError::LengthMismatch,
            r matches Ok(table) ==> table.span_spec() == self.span_spec() && table@.len()
                == self@.len() && forall|i: int|
                0 <= i < self@.len() ==> call_ensures(f, (&self@[i], &other@[i]), #[trigger] table@[i]),
    {
        proof {
            use_type_invariant(self);
        }
        let len = self.samples.len();
        if other.samples.len() != len {
            return Err(TableError::LengthMismatch);
        }
        let mut samples: Vec<T> = Vec::new();
        let mut i: usize = 0;
        while i < len
            invariant
                i <= len,
                len == self@.len(),
                len == other@.len(),
                self@ == self.samples@,
                other@ == other.samples@,
                samples@.len() == i,
                forall|j: int|
                    0 <= j < self@.len() && j < other@.len() ==> call_requires(
                        f,
                        (&#[trigger] self@[j], &other@[j]),
                    ),
                forall|j: int|
                    0 <= j < i ==> call_ensures(f, (&self@[j], &other@[j]), #[trigger] samples@[j]),
            decreases len - i,
        {
            let sample = f(&self.samples[i], &other.samples[i]);
            samples.push(sample);
            i = i + 1;
        }
        Ok(SampleTable { samples, span: self.span })
    }
}

} // verus!
