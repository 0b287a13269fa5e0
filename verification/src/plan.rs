//! Raw plan handles and pre-packaged one-dimensional plans.
//!
//! [`RawPlan`] owns exactly one native plan resource, bundled with the
//! buffers it was created against; the resource is released exactly once,
//! when the owner lets go of it.  [`Plan`] is the convenience layer: fixed
//! estimate-level rigor, forward direction where a direction applies, and
//! self-allocated storage unless the caller supplies its own.

use vstd::prelude::*;

use core::marker::PhantomData;

use crate::engine::c2c_input;
use crate::engine::c2c_output;
use crate::engine::c2c_result;
use crate::engine::c2r_input;
use crate::engine::c2r_output;
use crate::engine::c2r_result;
use crate::engine::cplx_seq;
use crate::engine::r2c_input;
use crate::engine::r2c_output;
use crate::engine::r2c_result;
use crate::engine::real_seq;
use crate::engine::ComplexVec;
use crate::engine::CtoCEngine;
use crate::engine::CtoREngine;
use crate::engine::RealVec;
use crate::engine::RtoCEngine;

verus! {

/// One native plan resource, together with the buffers it was created
/// against.  The variant records the transform kind the resource was
/// planned for.
pub enum RawPlan {
    CtoC(CtoCEngine),
    RtoC(RtoCEngine),
    CtoR(CtoREngine),
}

impl RawPlan {
    /// How one execution of the native plan relates the state before the
    /// call to the state after it: the kind and the input contents are
    /// unchanged, the output buffer holds exactly what the plan computes
    /// from its input, and what a further execution would compute is
    /// unchanged as well.
    pub open spec fn executes_to(pre: RawPlan, post: RawPlan) -> bool {
        match (pre, post) {
            (RawPlan::CtoC(a), RawPlan::CtoC(b)) => {
                &&& c2c_input(b) == c2c_input(a)
                &&& c2c_output(b) == c2c_result(a)
                &&& c2c_result(b) == c2c_result(a)
                &&& c2c_output(b).len() == c2c_output(a).len()
            },
            (RawPlan::RtoC(a), RawPlan::RtoC(b)) => {
                &&& r2c_input(b) == r2c_input(a)
                &&& r2c_output(b) == r2c_result(a)
                &&& r2c_result(b) == r2c_result(a)
                &&& r2c_output(b).len() == r2c_output(a).len()
            },
            (RawPlan::CtoR(a), RawPlan::CtoR(b)) => {
                &&& c2r_input(b) == c2r_input(a)
                &&& c2r_output(b) == c2r_result(a)
                &&& c2r_result(b) == c2r_result(a)
                &&& c2r_output(b).len() == c2r_output(a).len()
            },
            _ => false,
        }
    }

    /// Invoke the native execution entry point against the buffers the
    /// resource was bound to at creation.
    pub fn execute(&mut self)
        ensures
            RawPlan::executes_to(*old(self), *final(self)),
    {
        match self {
            RawPlan::CtoC(e) => e.run(),
            RawPlan::RtoC(e) => e.run(),
            RawPlan::CtoR(e) => e.run(),
        }
    }
}

/// Executing a plan is deterministic: two executions from the same state
/// leave the same output contents.
pub proof fn lemma_execute_deterministic(p: RawPlan, q1: RawPlan, q2: RawPlan)
    requires
        RawPlan::executes_to(p, q1),
        RawPlan::executes_to(p, q2),
    ensures
        match (q1, q2) {
            (RawPlan::CtoC(a), RawPlan::CtoC(b)) => c2c_output(a) == c2c_output(b),
            (RawPlan::RtoC(a), RawPlan::RtoC(b)) => r2c_output(a) == r2c_output(b),
            (RawPlan::CtoR(a), RawPlan::CtoR(b)) => c2r_output(a) == c2r_output(b),
            _ => false,
        },
{
}

/// Executing a plan twice in a row, without touching the input in between,
/// leaves the output bit-for-bit as after the first execution.
pub proof fn lemma_execute_idempotent(p0: RawPlan, p1: RawPlan, p2: RawPlan)
    requires
        RawPlan::executes_to(p0, p1),
        RawPlan::executes_to(p1, p2),
    ensures
        match (p1, p2) {
            (RawPlan::CtoC(a), RawPlan::CtoC(b)) => c2c_output(a) == c2c_output(b)
                && c2c_input(a) == c2c_input(b),
            (RawPlan::RtoC(a), RawPlan::RtoC(b)) => r2c_output(a) == r2c_output(b)
                && r2c_input(a) == r2c_input(b),
            (RawPlan::CtoR(a), RawPlan::CtoR(b)) => c2r_output(a) == c2r_output(b)
                && c2r_input(a) == c2r_input(b),
            _ => false,
        },
{
}

/// Copy the output buffer of a complex-to-complex plan over its input
/// buffer, element by element.
pub(crate) fn copy_c2c_output_to_input(e: &mut CtoCEngine, n: usize)
    requires
        n == c2c_input(*old(e)).len(),
        n == c2c_output(*old(e)).len(),
    ensures
        c2c_input(*final(e)) =~= c2c_output(*old(e)),
        c2c_output(*final(e)) == c2c_output(*old(e)),
{
    let mut i: usize = 0;
    while i < n
        invariant
            i <= n,
            n == c2c_input(*e).len(),
            c2c_output(*e) == c2c_output(*old(e)),
            n == c2c_output(*e).len(),
            forall|j: int| 0 <= j < i ==> c2c_input(*e)[j] == c2c_output(*old(e))[j],
        decreases n - i,
    {
        let x = e.get_output(i);
        e.set_input(i, x);
        i = i + 1;
    }
}

/// Read the output buffer of a complex-to-complex plan into a vector of
/// bit-pattern pairs.
pub(crate) fn read_c2c_output(e: &CtoCEngine, n: usize) -> (v: Vec<(u64, u64)>)
    requires
        n == c2c_output(*e).len(),
    ensures
        v@ =~= c2c_output(*e),
{
    let mut v: Vec<(u64, u64)> = Vec::new();
    let mut i: usize = 0;
    while i < n
        invariant
            i <= n,
            n == c2c_output(*e).len(),
            v@.len() == i,
            forall|j: int| 0 <= j < i ==> v@[j] == c2c_output(*e)[j],
        decreases n - i,
    {
        v.push(e.get_output(i));
        i = i + 1;
    }
    v
}

/// Read the input buffer of a complex-to-complex plan.
pub(crate) fn read_c2c_input(e: &CtoCEngine, n: usize) -> (v: Vec<(u64, u64)>)
    requires
        n == c2c_input(*e).len(),
    ensures
        v@ =~= c2c_input(*e),
{
    let mut v: Vec<(u64, u64)> = Vec::new();
    let mut i: usize = 0;
    while i < n
        invariant
            i <= n,
            n == c2c_input(*e).len(),
            v@.len() == i,
            forall|j: int| 0 <= j < i ==> v@[j] == c2c_input(*e)[j],
        decreases n - i,
    {
        v.push(e.get_input(i));
        i = i + 1;
    }
    v
}

/// Read the output buffer of a real-to-complex plan.
pub(crate) fn read_r2c_output(e: &RtoCEngine, n: usize) -> (v: Vec<(u64, u64)>)
    requires
        n == r2c_output(*e).len(),
    ensures
        v@ =~= r2c_output(*e),
{
    let mut v: Vec<(u64, u64)> = Vec::new();
    let mut i: usize = 0;
    while i < n
        invariant
            i <= n,
            n == r2c_output(*e).len(),
            v@.len() == i,
            forall|j: int| 0 <= j < i ==> v@[j] == r2c_output(*e)[j],
        decreases n - i,
    {
        v.push(e.get_output(i));
        i = i + 1;
    }
    v
}

/// Read the input buffer of a real-to-complex plan.
pub(crate) fn read_r2c_input(e: &RtoCEngine, n: usize) -> (v: Vec<u64>)
    requires
        n == r2c_input(*e).len(),
    ensures
        v@ =~= r2c_input(*e),
{
    let mut v: Vec<u64> = Vec::new();
    let mut i: usize = 0;
    while i < n
        invariant
            i <= n,
            n == r2c_input(*e).len(),
            v@.len() == i,
            forall|j: int| 0 <= j < i ==> v@[j] == r2c_input(*e)[j],
        decreases n - i,
    {
        v.push(e.get_input(i));
        i = i + 1;
    }
    v
}

/// Read the output buffer of a complex-to-real plan.
pub(crate) fn read_c2r_output(e: &CtoREngine, n: usize) -> (v: Vec<u64>)
    requires
        n == c2r_output(*e).len(),
    ensures
        v@ =~= c2r_output(*e),
{
    let mut v: Vec<u64> = Vec::new();
    let mut i: usize = 0;
    while i < n
        invariant
            i <= n,
            n == c2r_output(*e).len(),
            v@.len() == i,
            forall|j: int| 0 <= j < i ==> v@[j] == c2r_output(*e)[j],
        decreases n - i,
    {
        v.push(e.get_output(i));
        i = i + 1;
    }
    v
}

/// Read the input buffer of a complex-to-real plan.
pub(crate) fn read_c2r_input(e: &CtoREngine, n: usize) -> (v: Vec<(u64, u64)>)
    requires
        n == c2r_input(*e).len(),
    ensures
        v@ =~= c2r_input(*e),
{
    let mut v: Vec<(u64, u64)> = Vec::new();
    let mut i: usize = 0;
    while i < n
        invariant
            i <= n,
            n == c2r_input(*e).len(),
            v@.len() == i,
            forall|j: int| 0 <= j < i ==> v@[j] == c2r_input(*e)[j],
        decreases n - i,
    {
        v.push(e.get_input(i));
        i = i + 1;
    }
    v
}

/// Whether a complex-to-complex plan may be built over buffers of these
/// lengths: the output must hold every transformed element and the length
/// must fit the engine's 32-bit length argument.  This is the test a caller
/// makes before [`Plan::c2c_1d_prealloc`], whose violation is a caller bug.
pub fn c2c_lengths_ok(in_len: usize, out_len: usize) -> (b: bool)
    ensures
        b <==> (in_len <= out_len && in_len <= 0x7FFF_FFFF),
{
    in_len <= out_len && in_len <= 0x7FFF_FFFF
}

/// Whether a real-to-complex plan may be built over buffers of these
/// lengths: the output must hold the half spectrum `in_len / 2 + 1`.
pub fn r2c_lengths_ok(in_len: usize, out_len: usize) -> (b: bool)
    ensures
        b <==> (in_len / 2 + 1 <= out_len && in_len <= 0x7FFF_FFFF),
{
    in_len / 2 + 1 <= out_len && in_len <= 0x7FFF_FFFF
}

/// Whether a complex-to-real plan may be built over buffers of these
/// lengths: the input must supply exactly the half spectrum
/// `out_len / 2 + 1` of the real transform the engine reads.
pub fn c2r_lengths_ok(in_len: usize, out_len: usize) -> (b: bool)
    ensures
        b <==> (in_len == out_len / 2 + 1 && out_len <= 0x7FFF_FFFF),
{
    in_len == out_len / 2 + 1 && out_len <= 0x7FFF_FFFF
}

/// An input longer than the half spectrum `out_len / 2 + 1` can never
/// reach the engine through a complex-to-real plan: it fails the length
/// check, which is also the construction precondition, for every such
/// pair of lengths.
pub proof fn lemma_c2r_overlong_input_rejected(in_len: usize, out_len: usize)
    requires
        in_len > out_len / 2 + 1,
    ensures
        !(in_len == out_len / 2 + 1 && out_len <= 0x7FFF_FFFF),
{
}

/// A finalized one-dimensional plan bound to the buffers it was created
/// against; estimate rigor, forward direction where one applies.  Callers
/// cannot execute it against buffers that no longer match it: the buffers
/// are owned by the plan until a take operation consumes it.
pub struct Plan<In, Out> {
    raw: RawPlan,
    n_in: usize,
    n_out: usize,
    marker: PhantomData<(In, Out)>,
}

impl Plan<RealVec, ComplexVec> {
    /// The raw resource is a real-to-complex plan and the recorded buffer
    /// lengths match it.
    pub closed spec fn wf(self) -> bool {
        &&& self.raw is RtoC
        &&& self.n_in == r2c_input(self.raw->RtoC_0).len()
        &&& self.n_out == r2c_output(self.raw->RtoC_0).len()
    }

    /// Contents of the plan's input buffer, as bit patterns.
    pub closed spec fn input_view(self) -> Seq<u64> {
        r2c_input(self.raw->RtoC_0)
    }

    /// Contents of the plan's output buffer.
    pub closed spec fn output_view(self) -> Seq<(u64, u64)> {
        r2c_output(self.raw->RtoC_0)
    }

    /// What executing the plan writes to the output buffer: a function of
    /// the plan and its current input contents alone.
    pub closed spec fn result_view(self) -> Seq<(u64, u64)> {
        r2c_result(self.raw->RtoC_0)
    }

    /// Build a real-to-complex plan over caller-supplied storage, with
    /// estimate rigor, which leaves the buffer contents untouched during
    /// planning.  On failure the engine returned a null plan and both
    /// buffers come back unchanged.
    pub fn r2c_1d_prealloc(in_: RealVec, out: ComplexVec) -> (r: Result<
        Plan<RealVec, ComplexVec>,
        (RealVec, ComplexVec),
    >)
        requires
            real_seq(in_).len() <= 0x7FFF_FFFF,
            real_seq(in_).len() / 2 + 1 <= cplx_seq(out).len(),
        ensures
            match r {
                Ok(p) => {
                    &&& p.wf()
                    &&& p.input_view() == real_seq(in_)
                    &&& p.output_view() == cplx_seq(out)
                    &&& p.input_view().len() == real_seq(in_).len()
                    &&& p.output_view().len() == cplx_seq(out).len()
                },
                Err(b) => {
                    &&& real_seq(b.0) == real_seq(in_)
                    &&& cplx_seq(b.1) == cplx_seq(out)
                },
            },
    {
        let n = in_.len();
        let n_out = out.len();
        proof {
            assert(0x40u32 & 0x1u32 == 0) by (bit_vector);
        }
        match RtoCEngine::plan(n, in_, out, crate::builder::FLAG_ESTIMATE) {
            Ok(e) => Ok(Plan { raw: RawPlan::RtoC(e), n_in: n, n_out, marker: PhantomData }),
            Err(b) => Err(b),
        }
    }

    /// Build a real-to-complex plan of length `n` over self-allocated
    /// storage: a real input of `n` elements and a complex output of
    /// `n / 2 + 1` elements.
    pub fn r2c_1d(n: usize) -> (r: Result<Plan<RealVec, ComplexVec>, (RealVec, ComplexVec)>)
        requires
            n <= 0x7FFF_FFFF,
        ensures
            match r {
                Ok(p) => {
                    &&& p.wf()
                    &&& p.input_view().len() == n
                    &&& p.output_view().len() == n / 2 + 1
                    &&& forall|i: int| 0 <= i < n ==> p.input_view()[i] == 0u64
                },
                Err(b) => {
                    &&& real_seq(b.0).len() == n
                    &&& cplx_seq(b.1).len() == n / 2 + 1
                },
            },
    {
        let in_ = RealVec::zeros(n);
        let out = ComplexVec::zeros(n / 2 + 1);
        Plan::r2c_1d_prealloc(in_, out)
    }

    /// Read the input buffer.
    pub fn input(&self) -> (v: Vec<u64>)
        requires
            self.wf(),
        ensures
            v@ == self.input_view(),
    {
        match &self.raw {
            RawPlan::RtoC(e) => read_r2c_input(e, self.n_in),
            _ => {
                proof {
                    assert(false);
                }
                Vec::new()
            },
        }
    }

    /// Overwrite one element of the input buffer with the given bit
    /// pattern.
    pub fn set_input(&mut self, i: usize, x: u64)
        requires
            old(self).wf(),
            i < old(self).input_view().len(),
        ensures
            final(self).wf(),
            final(self).input_view() == old(self).input_view().update(i as int, x),
            final(self).output_view() == old(self).output_view(),
    {
        match &mut self.raw {
            RawPlan::RtoC(e) => e.set_input(i, x),
            _ => {
                proof {
                    assert(false);
                }
            },
        }
    }

    /// Execute the transform and return the output buffer's contents.  The
    /// output is exactly what the plan computes from the unchanged input;
    /// executing again without touching the input returns the same bits.
    pub fn execute(&mut self) -> (v: Vec<(u64, u64)>)
        requires
            old(self).wf(),
        ensures
            final(self).wf(),
            v@ == old(self).result_view(),
            v@.len() == old(self).output_view().len(),
            final(self).output_view() == old(self).result_view(),
            final(self).output_view().len() == old(self).output_view().len(),
            final(self).input_view() == old(self).input_view(),
            final(self).result_view() == old(self).result_view(),
    {
        self.raw.execute();
        match &self.raw {
            RawPlan::RtoC(e) => read_r2c_output(e, self.n_out),
            _ => {
                proof {
                    assert(false);
                }
                Vec::new()
            },
        }
    }

    /// Consume the plan, releasing the native resource, and reclaim the
    /// input buffer.
    pub fn take_in(self) -> (b: RealVec)
        requires
            self.wf(),
        ensures
            real_seq(b) == self.input_view(),
    {
        match self.raw {
            RawPlan::RtoC(e) => e.release().0,
            _ => {
                proof {
                    assert(false);
                }
                RealVec::zeros(0)
            },
        }
    }

    /// Consume the plan, releasing the native resource, and reclaim the
    /// output buffer.
    pub fn take_out(self) -> (b: ComplexVec)
        requires
            self.wf(),
        ensures
            cplx_seq(b) == self.output_view(),
    {
        match self.raw {
            RawPlan::RtoC(e) => e.release().1,
            _ => {
                proof {
                    assert(false);
                }
                ComplexVec::zeros(0)
            },
        }
    }
}

impl Plan<ComplexVec, RealVec> {
    /// The raw resource is a complex-to-real plan and the recorded buffer
    /// lengths match it.
    pub closed spec fn wf(self) -> bool {
        &&& self.raw is CtoR
        &&& self.n_in == c2r_input(self.raw->CtoR_0).len()
        &&& self.n_out == c2r_output(self.raw->CtoR_0).len()
    }

    /// Contents of the plan's input buffer, as bit-pattern pairs.
    pub closed spec fn input_view(self) -> Seq<(u64, u64)> {
        c2r_input(self.raw->CtoR_0)
    }

    /// Contents of the plan's output buffer.
    pub closed spec fn output_view(self) -> Seq<u64> {
        c2r_output(self.raw->CtoR_0)
    }

    /// What executing the plan writes to the output buffer.
    pub closed spec fn result_view(self) -> Seq<u64> {
        c2r_result(self.raw->CtoR_0)
    }

    /// Build a complex-to-real plan over caller-supplied storage, with
    /// estimate rigor.  The transform length is the output length `n`, of
    /// which the engine reads the half spectrum `n / 2 + 1`, which the
    /// input must supply exactly.
    pub fn c2r_1d_prealloc(in_: ComplexVec, out: RealVec) -> (r: Result<
        Plan<ComplexVec, RealVec>,
        (ComplexVec, RealVec),
    >)
        requires
            real_seq(out).len() <= 0x7FFF_FFFF,
            cplx_seq(in_).len() == real_seq(out).len() / 2 + 1,
        ensures
            match r {
                Ok(p) => {
                    &&& p.wf()
                    &&& p.input_view() == cplx_seq(in_)
                    &&& p.output_view() == real_seq(out)
                    &&& p.input_view().len() == cplx_seq(in_).len()
                    &&& p.output_view().len() == real_seq(out).len()
                },
                Err(b) => {
                    &&& cplx_seq(b.0) == cplx_seq(in_)
                    &&& real_seq(b.1) == real_seq(out)
                },
            },
    {
        let n = out.len();
        let n_in = in_.len();
        proof {
            assert(0x40u32 & 0x1u32 == 0) by (bit_vector);
        }
        match CtoREngine::plan(n, in_, out, crate::builder::FLAG_ESTIMATE) {
            Ok(e) => Ok(Plan { raw: RawPlan::CtoR(e), n_in, n_out: n, marker: PhantomData }),
            Err(b) => Err(b),
        }
    }

    /// Build a complex-to-real plan of logical length `n` over
    /// self-allocated storage: a complex input of `n / 2 + 1` elements and
    /// a real output of `n` elements.
    pub fn c2r_1d(n: usize) -> (r: Result<Plan<ComplexVec, RealVec>, (ComplexVec, RealVec)>)
        requires
            n <= 0x7FFF_FFFF,
        ensures
            match r {
                Ok(p) => {
                    &&& p.wf()
                    &&& p.input_view().len() == n / 2 + 1
                    &&& p.output_view().len() == n
                    &&& forall|i: int| 0 <= i < n / 2 + 1 ==> p.input_view()[i] == (0u64, 0u64)
                },
                Err(b) => {
                    &&& cplx_seq(b.0).len() == n / 2 + 1
                    &&& real_seq(b.1).len() == n
                },
            },
    {
        let in_ = ComplexVec::zeros(n / 2 + 1);
        let out = RealVec::zeros(n);
        Plan::c2r_1d_prealloc(in_, out)
    }

    /// Read the input buffer.
    pub fn input(&self) -> (v: Vec<(u64, u64)>)
        requires
            self.wf(),
        ensures
            v@ == self.input_view(),
    {
        match &self.raw {
            RawPlan::CtoR(e) => read_c2r_input(e, self.n_in),
            _ => {
                proof {
                    assert(false);
                }
                Vec::new()
            },
        }
    }

    /// Overwrite one element of the input buffer.
    pub fn set_input(&mut self, i: usize, x: (u64, u64))
        requires
            old(self).wf(),
            i < old(self).input_view().len(),
        ensures
            final(self).wf(),
            final(self).input_view() == old(self).input_view().update(i as int, x),
            final(self).output_view() == old(self).output_view(),
    {
        match &mut self.raw {
            RawPlan::CtoR(e) => e.set_input(i, x),
            _ => {
                proof {
                    assert(false);
                }
            },
        }
    }

    /// Execute the transform and return the output buffer's contents.
    pub fn execute(&mut self) -> (v: Vec<u64>)
        requires
            old(self).wf(),
        ensures
            final(self).wf(),
            v@ == old(self).result_view(),
            v@.len() == old(self).output_view().len(),
            final(self).output_view() == old(self).result_view(),
            final(self).output_view().len() == old(self).output_view().len(),
            final(self).input_view() == old(self).input_view(),
            final(self).result_view() == old(self).result_view(),
    {
        self.raw.execute();
        match &self.raw {
            RawPlan::CtoR(e) => read_c2r_output(e, self.n_out),
            _ => {
                proof {
                    assert(false);
                }
                Vec::new()
            },
        }
    }

    /// Consume the plan and reclaim the input buffer.
    pub fn take_in(self) -> (b: ComplexVec)
        requires
            self.wf(),
        ensures
            cplx_seq(b) == self.input_view(),
    {
        match self.raw {
            RawPlan::CtoR(e) => e.release().0,
            _ => {
                proof {
                    assert(false);
                }
                ComplexVec::zeros(0)
            },
        }
    }

    /// Consume the plan and reclaim the output buffer.
    pub fn take_out(self) -> (b: RealVec)
        requires
            self.wf(),
        ensures
            real_seq(b) == self.output_view(),
    {
        match self.raw {
            RawPlan::CtoR(e) => e.release().1,
            _ => {
                proof {
                    assert(false);
                }
                RealVec::zeros(0)
            },
        }
    }
}

impl Plan<ComplexVec, ComplexVec> {
    /// The raw resource is a complex-to-complex plan and the recorded
    /// buffer lengths match it.
    pub closed spec fn wf(self) -> bool {
        &&& self.raw is CtoC
        &&& self.n_in == c2c_input(self.raw->CtoC_0).len()
        &&& self.n_out == c2c_output(self.raw->CtoC_0).len()
    }

    /// Contents of the plan's input buffer, as bit-pattern pairs.
    pub closed spec fn input_view(self) -> Seq<(u64, u64)> {
        c2c_input(self.raw->CtoC_0)
    }

    /// Contents of the plan's output buffer.
    pub closed spec fn output_view(self) -> Seq<(u64, u64)> {
        c2c_output(self.raw->CtoC_0)
    }

    /// What executing the plan writes to the output buffer.
    pub closed spec fn result_view(self) -> Seq<(u64, u64)> {
        c2c_result(self.raw->CtoC_0)
    }

    /// Build a forward complex-to-complex plan over caller-supplied
    /// storage, with estimate rigor.
    pub fn c2c_1d_prealloc(in_: ComplexVec, out: ComplexVec) -> (r: Result<
        Plan<ComplexVec, ComplexVec>,
        (ComplexVec, ComplexVec),
    >)
        requires
            cplx_seq(in_).len() <= 0x7FFF_FFFF,
            cplx_seq(in_).len() <= cplx_seq(out).len(),
        ensures
            match r {
                Ok(p) => {
                    &&& p.wf()
                    &&& p.input_view() == cplx_seq(in_)
                    &&& p.output_view() == cplx_seq(out)
                    &&& p.input_view().len() == cplx_seq(in_).len()
                    &&& p.output_view().len() == cplx_seq(out).len()
                },
                Err(b) => {
                    &&& cplx_seq(b.0) == cplx_seq(in_)
                    &&& cplx_seq(b.1) == cplx_seq(out)
                },
            },
    {
        let n = in_.len();
        let n_out = out.len();
        proof {
            assert(0x40u32 & 0x1u32 == 0) by (bit_vector);
        }
        match CtoCEngine::plan(n, in_, out, -1, crate::builder::FLAG_ESTIMATE) {
            Ok(e) => Ok(Plan { raw: RawPlan::CtoC(e), n_in: n, n_out, marker: PhantomData }),
            Err(b) => Err(b),
        }
    }

    /// Build a forward complex-to-complex plan of length `n` over
    /// self-allocated storage.
    pub fn c2c_1d(n: usize) -> (r: Result<Plan<ComplexVec, ComplexVec>, (ComplexVec, ComplexVec)>)
        requires
            n <= 0x7FFF_FFFF,
        ensures
            match r {
                Ok(p) => {
                    &&& p.wf()
                    &&& p.input_view().len() == n
                    &&& p.output_view().len() == n
                    &&& forall|i: int| 0 <= i < n ==> p.input_view()[i] == (0u64, 0u64)
                },
                Err(b) => {
                    &&& cplx_seq(b.0).len() == n
                    &&& cplx_seq(b.1).len() == n
                },
            },
    {
        let in_ = ComplexVec::zeros(n);
        let out = ComplexVec::zeros(n);
        Plan::c2c_1d_prealloc(in_, out)
    }

    /// Read the input buffer.
    pub fn input(&self) -> (v: Vec<(u64, u64)>)
        requires
            self.wf(),
        ensures
            v@ == self.input_view(),
    {
        match &self.raw {
            RawPlan::CtoC(e) => read_c2c_input(e, self.n_in),
            _ => {
                proof {
                    assert(false);
                }
                Vec::new()
            },
        }
    }

    /// Overwrite one element of the input buffer.
    pub fn set_input(&mut self, i: usize, x: (u64, u64))
        requires
            old(self).wf(),
            i < old(self).input_view().len(),
        ensures
            final(self).wf(),
            final(self).input_view() == old(self).input_view().update(i as int, x),
            final(self).output_view() == old(self).output_view(),
    {
        match &mut self.raw {
            RawPlan::CtoC(e) => e.set_input(i, x),
            _ => {
                proof {
                    assert(false);
                }
            },
        }
    }

    /// Execute the transform and return the output buffer's contents.
    pub fn execute(&mut self) -> (v: Vec<(u64, u64)>)
        requires
            old(self).wf(),
        ensures
            final(self).wf(),
            v@ == old(self).result_view(),
            v@.len() == old(self).output_view().len(),
            final(self).output_view() == old(self).result_view(),
            final(self).output_view().len() == old(self).output_view().len(),
            final(self).input_view() == old(self).input_view(),
            final(self).result_view() == old(self).result_view(),
    {
        self.raw.execute();
        match &self.raw {
            RawPlan::CtoC(e) => read_c2c_output(e, self.n_out),
            _ => {
                proof {
                    assert(false);
                }
                Vec::new()
            },
        }
    }

    /// Consume the plan and reclaim the input buffer.
    pub fn take_in(self) -> (b: ComplexVec)
        requires
            self.wf(),
        ensures
            cplx_seq(b) == self.input_view(),
    {
        match self.raw {
            RawPlan::CtoC(e) => e.release().0,
            _ => {
                proof {
                    assert(false);
                }
                ComplexVec::zeros(0)
            },
        }
    }

    /// Consume the plan and reclaim the output buffer.
    pub fn take_out(self) -> (b: ComplexVec)
        requires
            self.wf(),
        ensures
            cplx_seq(b) == self.output_view(),
    {
        match self.raw {
            RawPlan::CtoC(e) => e.release().1,
            _ => {
                proof {
                    assert(false);
                }
                ComplexVec::zeros(0)
            },
        }
    }
}


} // verus!
