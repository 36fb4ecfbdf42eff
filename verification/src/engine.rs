//! The generation engine.
//!
//! One engine owns the compiled generator, the time accumulator and the two
//! reusable block buffers, and renders audio a block at a time: it pulls the
//! next integer time values from the accumulator, evaluates the generator at
//! each, and normalizes the raw samples into trimmed output numerators (see
//! [`crate::norm`]). The engine itself is single-threaded state; callers
//! that share it between an audio thread and a control thread serialize
//! access behind their own lock, under which each of these operations is
//! atomic.
//!
//! A formula change compiles synchronously: on success the new generator is
//! installed whole, on failure the previous generator stays active, so a
//! render never observes an engine without a working generator.

use vstd::prelude::*;
use vstd::string::StringSliceAdditionalSpecFns;

use crate::expr::Expr;
use crate::expr::sample_at;
use crate::expr::spec_sample;
use crate::lex::CompileError;
use crate::norm::norm_sample;
use crate::norm::spec_norm;
use crate::parse::compile;
use crate::parse::spec_compile;
use crate::time::TimeAcc;
use crate::time::TimeStep;
use crate::time::spec_advance_n;
use crate::time::spec_time_at;
use crate::time::spec_trunc;

verus! {

/// What a render reports; rendering always succeeds.
#[derive(Clone, Copy, PartialEq, Eq, Structural, Debug)]
pub enum Status {
    Normal,
}

/// The trimmed output numerator owed for sample `i` of a block rendered
/// from accumulator `acc` with generator `e` and per-sample steps `steps`:
/// the generator's raw sample at the `i`-th time value, normalized.
pub open spec fn spec_out_at(e: Expr, acc: TimeAcc, steps: Seq<TimeStep>, i: int) -> int {
    spec_norm(spec_sample(e, spec_time_at(acc, steps, i)))
}

/// The bytebeat generation engine.
pub struct Engine {
    expr: Expr,
    acc: TimeAcc,
    ts: Vec<i64>,
    out: Vec<i16>,
}

/// A vector of `n` copies of `x`.
fn filled<T: Copy>(x: T, n: usize) -> (v: Vec<T>)
    ensures
        v@.len() == n,
        forall|i: int| 0 <= i < n ==> v@[i] == x,
{
    let mut v: Vec<T> = Vec::new();
    let mut i: usize = 0;
    while i < n
        invariant
            i <= n,
            v@.len() == i,
            forall|j: int| 0 <= j < i ==> v@[j] == x,
        decreases n - i,
    {
        v.push(x);
        i += 1;
    }
    v
}

impl Engine {
    /// The two block buffers always have the same capacity.
    pub closed spec fn wf(self) -> bool {
        self.ts@.len() == self.out@.len()
    }

    /// The installed generator.
    pub closed spec fn func(self) -> Expr {
        self.expr
    }

    /// The time accumulator.
    pub closed spec fn time_acc(self) -> TimeAcc {
        self.acc
    }

    /// The capacity of the reusable block buffers, fixed by `init`.
    pub closed spec fn max_block(self) -> nat {
        self.ts@.len()
    }

    /// The output block, as numerators over [`crate::norm::SCALE`].
    pub closed spec fn out_view(self) -> Seq<i16> {
        self.out@
    }

    /// The time block of the last render.
    pub closed spec fn times_view(self) -> Seq<i64> {
        self.ts@
    }

    /// A fresh engine: time at zero, the identity formula `t` installed,
    /// and no block storage until `init` is called.
    pub fn new() -> (r: Engine)
        ensures
            r.wf(),
            r.func() == Expr::Time,
            r.time_acc() == (TimeAcc { whole: 0i64, frac: 0u32 }),
            r.max_block() == 0,
    {
        Engine { expr: Expr::Time, acc: TimeAcc::zero(), ts: Vec::new(), out: Vec::new() }
    }

    /// Allocates (or re-allocates) the reusable block buffers for the given
    /// maximum block length, keeping the accumulator and the installed
    /// generator, so `init` may be called again for a new configuration.
    /// Every configuration is supported, so this always reports success.
    pub fn init(&mut self, max_block: usize) -> (ok: bool)
        ensures
            ok,
            final(self).wf(),
            final(self).max_block() == max_block,
            final(self).func() == old(self).func(),
            final(self).time_acc() == old(self).time_acc(),
    {
        self.ts = filled(0i64, max_block);
        self.out = filled(0i16, max_block);
        true
    }

    /// The current integer time index, for display: the accumulator's value
    /// truncated toward zero.
    pub fn t(&self) -> (r: i64)
        ensures
            r == spec_trunc(self.time_acc()),
    {
        self.acc.trunc()
    }

    /// Resets the time index to zero; the next rendered block starts at
    /// time value `0`.
    pub fn reset_t(&mut self)
        ensures
            final(self).time_acc() == (TimeAcc { whole: 0i64, frac: 0u32 }),
            final(self).wf() == old(self).wf(),
            final(self).func() == old(self).func(),
            final(self).max_block() == old(self).max_block(),
            final(self).out_view() == old(self).out_view(),
            final(self).times_view() == old(self).times_view(),
    {
        self.acc = TimeAcc::zero();
    }

    /// Compiles the formula text and installs the result: after a
    /// successful compilation the new generator is active, and after a
    /// failed one the previously active generator is kept and the error is
    /// reported, so the engine never loses a working generator.
    pub fn set_func(&mut self, src: &str) -> (r: Result<(), CompileError>)
        ensures
            match spec_compile(src.spec_bytes()) {
                Ok(e) => final(self).func() == e && r == Ok::<(), CompileError>(()),
                Err(er) => final(self).func() == old(self).func() && r == Err::<
                    (),
                    CompileError,
                >(er),
            },
            final(self).wf() == old(self).wf(),
            final(self).time_acc() == old(self).time_acc(),
            final(self).max_block() == old(self).max_block(),
            final(self).out_view() == old(self).out_view(),
            final(self).times_view() == old(self).times_view(),
    {
        match compile(src) {
            Ok(e) => {
                self.expr = e;
                Ok(())
            },
            Err(er) => Err(er),
        }
    }

    /// Renders one block of `steps.len()` samples: for each position in
    /// order, the accumulator's truncation becomes the time value, the
    /// generator's raw sample at it is normalized into the output slot, and
    /// the accumulator advances by that position's step. The accumulator is
    /// left past the whole block; output slots beyond the block keep their
    /// old contents.
    pub fn process(&mut self, steps: &Vec<TimeStep>) -> (r: Status)
        requires
            old(self).wf(),
            steps@.len() <= old(self).max_block(),
        ensures
            r == Status::Normal,
            final(self).wf(),
            final(self).func() == old(self).func(),
            final(self).max_block() == old(self).max_block(),
            final(self).time_acc() == spec_advance_n(
                old(self).time_acc(),
                steps@,
                steps@.len() as int,
            ),
            forall|i: int|
                0 <= i < steps@.len() ==> final(self).times_view()[i] == spec_time_at(
                    old(self).time_acc(),
                    steps@,
                    i,
                ),
            forall|i: int|
                0 <= i < steps@.len() ==> final(self).out_view()[i] == spec_out_at(
                    old(self).func(),
                    old(self).time_acc(),
                    steps@,
                    i,
                ),
            forall|i: int|
                steps@.len() <= i < final(self).out_view().len() ==> final(self).out_view()[i]
                    == old(self).out_view()[i],
            forall|i: int|
                steps@.len() <= i < final(self).times_view().len() ==> final(self).times_view()[i]
                    == old(self).times_view()[i],
    {
        let n = steps.len();
        let mut i: usize = 0;
        while i < n
            invariant
                i <= n,
                n == steps@.len(),
                n <= self.ts@.len(),
                self.ts@.len() == old(self).ts@.len(),
                self.out@.len() == old(self).out@.len(),
                self.ts@.len() == self.out@.len(),
                self.expr == old(self).expr,
                self.acc == spec_advance_n(old(self).acc, steps@, i as int),
                forall|j: int|
                    0 <= j < i ==> self.ts@[j] == spec_time_at(old(self).acc, steps@, j),
                forall|j: int|
                    0 <= j < i ==> self.out@[j] == spec_out_at(
                        old(self).expr,
                        old(self).acc,
                        steps@,
                        j,
                    ),
                forall|j: int| i <= j < self.out@.len() ==> self.out@[j] == old(self).out@[j],
                forall|j: int| i <= j < self.ts@.len() ==> self.ts@[j] == old(self).ts@[j],
            decreases n - i,
        {
            let tv = self.acc.trunc();
            self.ts.set(i, tv);
            let raw = sample_at(&self.expr, tv);
            let nv = norm_sample(raw);
            self.out.set(i, nv);
            self.acc.advance(steps[i]);
            i += 1;
        }
        Status::Normal
    }

    /// The rendered output block: the leading `steps.len()` numerators of
    /// the last `process` call, each to be divided by
    /// [`crate::norm::SCALE`] by the consumer and broadcast identically to
    /// every output channel.
    pub fn output(&self) -> (r: &Vec<i16>)
        ensures
            r@ == self.out_view(),
    {
        &self.out
    }

    /// The time block of the last render: the leading `steps.len()` integer
    /// time values the generator was evaluated at.
    pub fn times(&self) -> (r: &Vec<i64>)
        ensures
            r@ == self.times_view(),
    {
        &self.ts
    }
}

} // verus!
