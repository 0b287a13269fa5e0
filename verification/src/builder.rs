//! Configurable planner: rigor, direction and wisdom restriction, dimension
//! descriptors, and the buffer-bound configuration stage of a plan.
//!
//! A [`Planner`] collects the basic properties of a set of transforms and
//! binds them to caller-owned buffers, yielding a [`PlanMem`].  Attempting
//! construction with [`PlanMem::plan`] either produces a finalized
//! [`Planned`] transform, consuming the configuration, or hands the whole
//! configuration back so the caller can retry with different settings
//! without re-supplying buffers.

use vstd::prelude::*;

use core::marker::PhantomData;

use crate::engine::c2c_input;
use crate::engine::c2c_output;
use crate::engine::c2c_result;
use crate::engine::c2r_input;
use crate::engine::c2r_output;
use crate::engine::c2r_result;
use crate::engine::cplx_seq;
use crate::engine::r2c_input;
use crate::engine::r2c_output;
use crate::engine::r2c_result;
use crate::engine::real_seq;
use crate::engine::ComplexVec;
use crate::engine::CtoCEngine;
use crate::engine::CtoREngine;
use crate::engine::RealVec;
use crate::engine::RtoCEngine;
use crate::plan::copy_c2c_output_to_input;
use crate::plan::read_c2c_input;
use crate::plan::read_c2c_output;
use crate::plan::read_c2r_input;
use crate::plan::read_c2r_output;
use crate::plan::read_r2c_input;
use crate::plan::read_r2c_output;
use crate::plan::RawPlan;

verus! {

/// Estimate-level planner-flag bits, as the engine's public header defines
/// them.
pub const FLAG_ESTIMATE: u32 = 0x40;

/// Measure-level planner-flag bits of the engine.
pub const FLAG_MEASURE: u32 = 0;

/// Patient-level planner-flag bits of the engine.
pub const FLAG_PATIENT: u32 = 0x20;

/// Exhaustive-level planner-flag bits of the engine.
pub const FLAG_EXHAUSTIVE: u32 = 0x8;

/// The engine's wisdom-only restriction flag: planning fails unless a
/// previously computed strategy of at least the requested rigor exists.
pub const FLAG_WISDOM_ONLY: u32 = 0x200000;

/// How much effort the engine should put into computing the best strategy
/// to use.
#[derive(Clone, Copy, PartialEq, Eq, Structural, Debug)]
pub enum Rigor {
    Estimate,
    Measure,
    Patient,
    Exhaustive,
}

impl Rigor {
    /// The engine flag bits this rigor level maps to.
    pub open spec fn spec_flags(self) -> u32 {
        match self {
            Rigor::Estimate => FLAG_ESTIMATE,
            Rigor::Measure => FLAG_MEASURE,
            Rigor::Patient => FLAG_PATIENT,
            Rigor::Exhaustive => FLAG_EXHAUSTIVE,
        }
    }

    fn flags(self) -> (f: u32)
        ensures
            f == self.spec_flags(),
    {
        match self {
            Rigor::Estimate => FLAG_ESTIMATE,
            Rigor::Measure => FLAG_MEASURE,
            Rigor::Patient => FLAG_PATIENT,
            Rigor::Exhaustive => FLAG_EXHAUSTIVE,
        }
    }
}

/// The direction of the transform to perform.
#[derive(Clone, Copy, PartialEq, Eq, Structural, Debug)]
pub enum Direction {
    Forward,
    Backward,
}

/// Controls the basic properties of a set of transforms.
#[derive(Clone, Copy, PartialEq, Eq, Structural, Debug)]
pub struct Planner {
    pub rigor: Rigor,
    pub wisdom_restriction: bool,
    pub direction: Direction,
}

impl Planner {
    /// The full flag word handed to the engine: the rigor bits, plus the
    /// wisdom-only restriction bit when requested.
    pub open spec fn spec_flags(self) -> u32 {
        self.rigor.spec_flags() | if self.wisdom_restriction {
            FLAG_WISDOM_ONLY
        } else {
            0
        }
    }

    /// The engine's direction constant: negative one for forward, one for
    /// backward.
    pub open spec fn spec_dir(self) -> i32 {
        match self.direction {
            Direction::Forward => -1i32,
            Direction::Backward => 1i32,
        }
    }

    /// Construct a new planner with default values: a forward transform
    /// with estimate rigor and no wisdom restriction.
    pub fn new() -> (p: Planner)
        ensures
            p == (Planner {
                rigor: Rigor::Estimate,
                wisdom_restriction: false,
                direction: Direction::Forward,
            }),
    {
        Planner { rigor: Rigor::Estimate, wisdom_restriction: false, direction: Direction::Forward }
    }

    /// Set the rigor to use for this plan.
    pub fn rigor(self, r: Rigor) -> (p: Planner)
        ensures
            p == (Planner { rigor: r, ..self }),
    {
        Planner { rigor: r, ..self }
    }

    /// Set whether the plan should only be successfully created if wisdom
    /// of at least the rigor level set already exists.
    pub fn wisdom_restriction(self, wisdom_only: bool) -> (p: Planner)
        ensures
            p == (Planner { wisdom_restriction: wisdom_only, ..self }),
    {
        Planner { wisdom_restriction: wisdom_only, ..self }
    }

    /// Set the direction of the transform to perform.
    pub fn direction(self, direction: Direction) -> (p: Planner)
        ensures
            p == (Planner { direction, ..self }),
    {
        Planner { direction, ..self }
    }

    fn flags(&self) -> (f: u32)
        ensures
            f == self.spec_flags(),
    {
        self.rigor.flags() | if self.wisdom_restriction {
            FLAG_WISDOM_ONLY
        } else {
            0
        }
    }

    fn dir(&self) -> (s: i32)
        ensures
            s == self.spec_dir(),
    {
        match self.direction {
            Direction::Forward => -1,
            Direction::Backward => 1,
        }
    }

    /// Plan transforms whose input and output are the same buffer.
    pub fn inplace(&self) -> (ip: InPlacePlanner)
        ensures
            ip.plan == *self,
    {
        InPlacePlanner { plan: *self }
    }

    /// Bind a complex-to-complex transform to the given buffers.
    pub fn c2c(&self, in_: ComplexVec, out: ComplexVec) -> (m: PlanMem<ComplexVec, ComplexVec>)
        requires
            cplx_seq(in_).len() <= 0x7FFF_FFFF,
            cplx_seq(in_).len() <= cplx_seq(out).len(),
        ensures
            m.wf(),
            m.spec_config() == *self,
            m.spec_in() == in_,
            m.spec_out() == Some(out),
            m.spec_dims().is_unit_detailed(),
            m.spec_dims().axis_len() as int == cplx_seq(in_).len() as int,
    {
        let n = in_.len();
        let dims = Dims::Detailed(vec![Dim { n, in_stride: 1, out_stride: 1 }]);
        PlanMem {
            plan: *self,
            dims,
            how_many: Dims::Contiguous(vec![1]),
            in_,
            out: Some(out),
        }
    }

    /// Bind a complex-to-real transform to the given buffers.  The axis
    /// length is the logical real-domain length `2 * (len(in) - 1)`,
    /// recovered from the half-spectrum input; the engine reads exactly
    /// `len(in)` complex elements and writes the logical length of real
    /// elements, which both buffers must supply.
    pub fn c2r(&self, in_: ComplexVec, out: RealVec) -> (m: PlanMem<ComplexVec, RealVec>)
        requires
            1 <= cplx_seq(in_).len(),
            cplx_seq(in_).len() <= 0x4000_0000,
            cplx_seq(in_).len() <= real_seq(out).len() / 2 + 1,
        ensures
            m.wf(),
            m.spec_config() == *self,
            m.spec_in() == in_,
            m.spec_out() == Some(out),
            m.spec_dims().is_unit_detailed(),
            m.spec_dims().axis_len() as int == 2 * (cplx_seq(in_).len() - 1),
    {
        let n = 2 * (in_.len() - 1);
        let dims = Dims::Detailed(vec![Dim { n, in_stride: 1, out_stride: 1 }]);
        PlanMem {
            plan: *self,
            dims,
            how_many: Dims::Contiguous(vec![1]),
            in_,
            out: Some(out),
        }
    }

    /// Bind a real-to-complex transform to the given buffers.
    pub fn r2c(&self, in_: RealVec, out: ComplexVec) -> (m: PlanMem<RealVec, ComplexVec>)
        requires
            real_seq(in_).len() <= 0x7FFF_FFFF,
            real_seq(in_).len() / 2 + 1 <= cplx_seq(out).len(),
        ensures
            m.wf(),
            m.spec_config() == *self,
            m.spec_in() == in_,
            m.spec_out() == Some(out),
            m.spec_dims().is_unit_detailed(),
            m.spec_dims().axis_len() as int == real_seq(in_).len() as int,
    {
        let n = in_.len();
        let dims = Dims::Detailed(vec![Dim { n, in_stride: 1, out_stride: 1 }]);
        PlanMem {
            plan: *self,
            dims,
            how_many: Dims::Contiguous(vec![1]),
            in_,
            out: Some(out),
        }
    }
}

/// A planner at estimate rigor produces exactly the estimate flag word,
/// with or without the wisdom-only bit.
pub proof fn lemma_estimate_flag_word(p: Planner)
    requires
        p.rigor == Rigor::Estimate,
    ensures
        p.spec_flags() == if p.wisdom_restriction {
            0x200040u32
        } else {
            0x40u32
        },
{
    assert((0x40u32 | 0x200000u32) == 0x200040u32) by (bit_vector);
    assert((0x40u32 | 0u32) == 0x40u32) by (bit_vector);
}

/// No flag word a [`Planner`] can produce carries the engine's
/// destroy-input bit: every rigor level and the wisdom restriction map to
/// bits well away from it.
pub proof fn lemma_flags_have_no_destroy_bit(p: Planner)
    ensures
        p.spec_flags() & 0x1u32 == 0,
{
    assert(forall|r: u32|
        (r == 0x40u32 || r == 0u32 || r == 0x20u32 || r == 0x8u32) ==> ((r | 0x200000u32)
            & 0x1u32 == 0 && (r | 0u32) & 0x1u32 == 0)) by (bit_vector);
}

/// Planner for transforms that use one buffer as both input and output.
pub struct InPlacePlanner {
    pub plan: Planner,
}

impl InPlacePlanner {
    /// Bind an in-place complex-to-complex transform to the given buffer.
    ///
    /// The engine binding in use executes only out-of-place transforms, so
    /// an in-place plan is emulated: planning allocates a hidden scratch
    /// buffer of the same length, the transform runs into it, and executing
    /// copies the result back over the input buffer.  Observable
    /// differences from a native in-place plan: one extra buffer of the
    /// same length is allocated, and the engine plans (and accumulates
    /// wisdom for) an out-of-place transform.
    pub fn c2c(&self, in_: ComplexVec) -> (m: PlanMem<ComplexVec, ComplexVec>)
        requires
            cplx_seq(in_).len() <= 0x7FFF_FFFF,
        ensures
            m.wf(),
            m.spec_config() == self.plan,
            m.spec_in() == in_,
            m.spec_out() is None,
            m.spec_dims().is_unit_detailed(),
            m.spec_dims().axis_len() as int == cplx_seq(in_).len() as int,
    {
        let n = in_.len();
        let dims = Dims::Detailed(vec![Dim { n, in_stride: 1, out_stride: 1 }]);
        PlanMem {
            plan: self.plan,
            dims,
            how_many: Dims::Contiguous(vec![1]),
            in_,
            out: None,
        }
    }
}

/// One axis of a dimension descriptor: extent and the strides between
/// consecutive input and output elements along that axis.
#[derive(Clone, Copy, PartialEq, Eq, Structural, Debug)]
pub struct Dim {
    pub n: usize,
    pub in_stride: usize,
    pub out_stride: usize,
}

/// A dimension descriptor: either a flat list of per-axis extents with
/// unit strides implied, or explicit per-axis stride triples.  Only
/// single-axis detailed descriptors are resolvable at construction time:
/// resolving a contiguous-form descriptor, more than one axis, or a
/// replication count other than one is an unimplemented extension, and no
/// constructor exposes an override for them.
pub enum Dims {
    Contiguous(Vec<usize>),
    Detailed(Vec<Dim>),
}

impl Dims {
    /// A detailed descriptor with exactly one axis and unit strides.
    pub open spec fn is_unit_detailed(self) -> bool {
        match self {
            Dims::Detailed(v) => v@.len() == 1 && v@[0].in_stride == 1 && v@[0].out_stride == 1,
            Dims::Contiguous(_) => false,
        }
    }

    /// The extent of the first axis.
    pub open spec fn axis_len(self) -> usize {
        match self {
            Dims::Detailed(v) => v@[0].n,
            Dims::Contiguous(v) => v@[0],
        }
    }

    /// A single contiguous repetition: batch size one.
    pub open spec fn is_single_batch(self) -> bool {
        match self {
            Dims::Contiguous(v) => v@.len() == 1 && v@[0] == 1usize,
            Dims::Detailed(_) => false,
        }
    }
}

/// A transform configuration bound to the buffers it will be planned
/// against.  Exclusively owns both buffers until planning succeeds; a
/// failed planning attempt hands the whole configuration back.
pub struct PlanMem<I, O> {
    plan: Planner,
    dims: Dims,
    how_many: Dims,
    in_: I,
    out: Option<O>,
}

impl<I, O> PlanMem<I, O> {
    /// The planner configuration this binding carries.
    pub closed spec fn spec_config(self) -> Planner {
        self.plan
    }

    /// The dimension descriptor derived for this binding.
    pub closed spec fn spec_dims(self) -> Dims {
        self.dims
    }

    /// The replication descriptor of this binding.
    pub closed spec fn spec_how_many(self) -> Dims {
        self.how_many
    }

    /// The owned input buffer.
    pub closed spec fn spec_in(self) -> I {
        self.in_
    }

    /// The owned output buffer; absent for an in-place binding.
    pub closed spec fn spec_out(self) -> Option<O> {
        self.out
    }
}

impl PlanMem<ComplexVec, ComplexVec> {
    /// The configuration can be handed to the engine: a single detailed
    /// axis with unit strides, batch size one, and buffers long enough for
    /// the axis extent, which fits the engine's 32-bit length argument.
    pub open spec fn wf(self) -> bool {
        &&& self.spec_dims().is_unit_detailed()
        &&& self.spec_how_many().is_single_batch()
        &&& self.spec_dims().axis_len() <= 0x7FFF_FFFF
        &&& self.spec_dims().axis_len() <= cplx_seq(self.spec_in()).len()
        &&& match self.spec_out() {
            Some(o) => self.spec_dims().axis_len() <= cplx_seq(o).len(),
            None => true,
        }
    }

    /// Attempt plan creation.  On success the configuration and its buffers
    /// are consumed into the finalized plan; on failure the original
    /// configuration is returned with both buffers intact (their lengths
    /// unchanged, though planning may have overwritten their contents), so
    /// the caller can retry.  A binding without an output buffer is planned
    /// out of place against a hidden scratch buffer of the input's length;
    /// see [`InPlacePlanner::c2c`].
    pub fn plan(self) -> (r: Result<Planned<ComplexVec, ComplexVec>, PlanMem<ComplexVec, ComplexVec>>)
        requires
            self.wf(),
        ensures
            match r {
                Ok(p) => {
                    &&& p.wf()
                    &&& p.spec_config() == self.spec_config()
                    &&& p.spec_dims() == self.spec_dims()
                    &&& p.is_inplace() == (self.spec_out() is None)
                    &&& p.input_view().len() == cplx_seq(self.spec_in()).len()
                    &&& match self.spec_out() {
                        Some(o) => p.output_view().len() == cplx_seq(o).len(),
                        None => p.output_view().len() == cplx_seq(self.spec_in()).len(),
                    }
                    &&& (self.spec_config().rigor == Rigor::Estimate ==> {
                        &&& p.input_view() == cplx_seq(self.spec_in())
                        &&& match self.spec_out() {
                            Some(o) => p.output_view() == cplx_seq(o),
                            None => true,
                        }
                    })
                },
                Err(m) => {
                    &&& m.wf()
                    &&& m.spec_config() == self.spec_config()
                    &&& m.spec_dims() == self.spec_dims()
                    &&& m.spec_how_many() == self.spec_how_many()
                    &&& cplx_seq(m.spec_in()).len() == cplx_seq(self.spec_in()).len()
                    &&& match (m.spec_out(), self.spec_out()) {
                        (Some(a), Some(b)) => cplx_seq(a).len() == cplx_seq(b).len(),
                        (None, None) => true,
                        _ => false,
                    }
                    &&& (self.spec_config().rigor == Rigor::Estimate ==> {
                        &&& cplx_seq(m.spec_in()) == cplx_seq(self.spec_in())
                        &&& match (m.spec_out(), self.spec_out()) {
                            (Some(a), Some(b)) => cplx_seq(a) == cplx_seq(b),
                            _ => true,
                        }
                    })
                },
            },
    {
        let PlanMem { plan, dims, how_many, in_, out } = self;
        let n = match &dims {
            Dims::Detailed(v) => v[0].n,
            Dims::Contiguous(_) => {
                proof {
                    assert(false);
                }
                0
            },
        };
        let sign = plan.dir();
        let flags = plan.flags();
        proof {
            lemma_flags_have_no_destroy_bit(plan);
            if plan.rigor == Rigor::Estimate {
                lemma_estimate_flag_word(plan);
            }
        }
        let n_in = in_.len();
        match out {
            Some(o) => {
                let n_out = o.len();
                match CtoCEngine::plan(n, in_, o, sign, flags) {
                    Ok(e) => Ok(Planned {
                        config: plan,
                        dims,
                        how_many,
                        raw: RawPlan::CtoC(e),
                        n_in,
                        n_out,
                        inplace: false,
                        marker: PhantomData,
                    }),
                    Err(b) => Err(PlanMem { plan, dims, how_many, in_: b.0, out: Some(b.1) }),
                }
            },
            None => {
                let scratch = ComplexVec::zeros(n_in);
                match CtoCEngine::plan(n, in_, scratch, sign, flags) {
                    Ok(e) => Ok(Planned {
                        config: plan,
                        dims,
                        how_many,
                        raw: RawPlan::CtoC(e),
                        n_in,
                        n_out: n_in,
                        inplace: true,
                        marker: PhantomData,
                    }),
                    Err(b) => Err(PlanMem { plan, dims, how_many, in_: b.0, out: None }),
                }
            },
        }
    }
}

impl PlanMem<RealVec, ComplexVec> {
    /// The configuration can be handed to the engine: the real input covers
    /// the axis extent and the complex output its half-spectrum length.
    pub open spec fn wf(self) -> bool {
        &&& self.spec_dims().is_unit_detailed()
        &&& self.spec_how_many().is_single_batch()
        &&& self.spec_dims().axis_len() <= 0x7FFF_FFFF
        &&& self.spec_dims().axis_len() <= real_seq(self.spec_in()).len()
        &&& match self.spec_out() {
            Some(o) => self.spec_dims().axis_len() / 2 + 1 <= cplx_seq(o).len(),
            None => false,
        }
    }

    /// Attempt plan creation; see [`PlanMem::<ComplexVec, ComplexVec>::plan`].
    pub fn plan(self) -> (r: Result<Planned<RealVec, ComplexVec>, PlanMem<RealVec, ComplexVec>>)
        requires
            self.wf(),
        ensures
            match r {
                Ok(p) => {
                    &&& p.wf()
                    &&& p.spec_config() == self.spec_config()
                    &&& p.spec_dims() == self.spec_dims()
                    &&& !p.is_inplace()
                    &&& p.input_view().len() == real_seq(self.spec_in()).len()
                    &&& match self.spec_out() {
                        Some(o) => p.output_view().len() == cplx_seq(o).len(),
                        None => false,
                    }
                    &&& (self.spec_config().rigor == Rigor::Estimate ==> {
                        &&& p.input_view() == real_seq(self.spec_in())
                        &&& match self.spec_out() {
                            Some(o) => p.output_view() == cplx_seq(o),
                            None => true,
                        }
                    })
                },
                Err(m) => {
                    &&& m.wf()
                    &&& m.spec_config() == self.spec_config()
                    &&& m.spec_dims() == self.spec_dims()
                    &&& m.spec_how_many() == self.spec_how_many()
                    &&& real_seq(m.spec_in()).len() == real_seq(self.spec_in()).len()
                    &&& match (m.spec_out(), self.spec_out()) {
                        (Some(a), Some(b)) => cplx_seq(a).len() == cplx_seq(b).len(),
                        _ => false,
                    }
                    &&& (self.spec_config().rigor == Rigor::Estimate ==> {
                        &&& real_seq(m.spec_in()) == real_seq(self.spec_in())
                        &&& match (m.spec_out(), self.spec_out()) {
                            (Some(a), Some(b)) => cplx_seq(a) == cplx_seq(b),
                            _ => true,
                        }
                    })
                },
            },
    {
        let PlanMem { plan, dims, how_many, in_, out } = self;
        let n = match &dims {
            Dims::Detailed(v) => v[0].n,
            Dims::Contiguous(_) => {
                proof {
                    assert(false);
                }
                0
            },
        };
        let flags = plan.flags();
        proof {
            lemma_flags_have_no_destroy_bit(plan);
            if plan.rigor == Rigor::Estimate {
                lemma_estimate_flag_word(plan);
            }
        }
        let n_in = in_.len();
        match out {
            Some(o) => {
                let n_out = o.len();
                match RtoCEngine::plan(n, in_, o, flags) {
                    Ok(e) => Ok(Planned {
                        config: plan,
                        dims,
                        how_many,
                        raw: RawPlan::RtoC(e),
                        n_in,
                        n_out,
                        inplace: false,
                        marker: PhantomData,
                    }),
                    Err(b) => Err(PlanMem { plan, dims, how_many, in_: b.0, out: Some(b.1) }),
                }
            },
            None => {
                proof {
                    assert(false);
                }
                Err(PlanMem { plan, dims, how_many, in_, out: None })
            },
        }
    }
}

impl PlanMem<ComplexVec, RealVec> {
    /// The configuration can be handed to the engine: the complex input
    /// covers the half-spectrum length of the axis extent and the real
    /// output the extent itself.
    pub open spec fn wf(self) -> bool {
        &&& self.spec_dims().is_unit_detailed()
        &&& self.spec_how_many().is_single_batch()
        &&& self.spec_dims().axis_len() <= 0x7FFF_FFFF
        &&& self.spec_dims().axis_len() / 2 + 1 <= cplx_seq(self.spec_in()).len()
        &&& match self.spec_out() {
            Some(o) => self.spec_dims().axis_len() <= real_seq(o).len(),
            None => false,
        }
    }

    /// Attempt plan creation; see [`PlanMem::<ComplexVec, ComplexVec>::plan`].
    pub fn plan(self) -> (r: Result<Planned<ComplexVec, RealVec>, PlanMem<ComplexVec, RealVec>>)
        requires
            self.wf(),
        ensures
            match r {
                Ok(p) => {
                    &&& p.wf()
                    &&& p.spec_config() == self.spec_config()
                    &&& p.spec_dims() == self.spec_dims()
                    &&& !p.is_inplace()
                    &&& p.input_view().len() == cplx_seq(self.spec_in()).len()
                    &&& match self.spec_out() {
                        Some(o) => p.output_view().len() == real_seq(o).len(),
                        None => false,
                    }
                    &&& (self.spec_config().rigor == Rigor::Estimate ==> {
                        &&& p.input_view() == cplx_seq(self.spec_in())
                        &&& match self.spec_out() {
                            Some(o) => p.output_view() == real_seq(o),
                            None => true,
                        }
                    })
                },
                Err(m) => {
                    &&& m.wf()
                    &&& m.spec_config() == self.spec_config()
                    &&& m.spec_dims() == self.spec_dims()
                    &&& m.spec_how_many() == self.spec_how_many()
                    &&& cplx_seq(m.spec_in()).len() == cplx_seq(self.spec_in()).len()
                    &&& match (m.spec_out(), self.spec_out()) {
                        (Some(a), Some(b)) => real_seq(a).len() == real_seq(b).len(),
                        _ => false,
                    }
                    &&& (self.spec_config().rigor == Rigor::Estimate ==> {
                        &&& cplx_seq(m.spec_in()) == cplx_seq(self.spec_in())
                        &&& match (m.spec_out(), self.spec_out()) {
                            (Some(a), Some(b)) => real_seq(a) == real_seq(b),
                            _ => true,
                        }
                    })
                },
            },
    {
        let PlanMem { plan, dims, how_many, in_, out } = self;
        let n = match &dims {
            Dims::Detailed(v) => v[0].n,
            Dims::Contiguous(_) => {
                proof {
                    assert(false);
                }
                0
            },
        };
        let flags = plan.flags();
        proof {
            lemma_flags_have_no_destroy_bit(plan);
            if plan.rigor == Rigor::Estimate {
                lemma_estimate_flag_word(plan);
            }
        }
        let n_in = in_.len();
        match out {
            Some(o) => {
                let n_out = o.len();
                match CtoREngine::plan(n, in_, o, flags) {
                    Ok(e) => Ok(Planned {
                        config: plan,
                        dims,
                        how_many,
                        raw: RawPlan::CtoR(e),
                        n_in,
                        n_out,
                        inplace: false,
                        marker: PhantomData,
                    }),
                    Err(b) => Err(PlanMem { plan, dims, how_many, in_: b.0, out: Some(b.1) }),
                }
            },
            None => {
                proof {
                    assert(false);
                }
                Err(PlanMem { plan, dims, how_many, in_, out: None })
            },
        }
    }
}

/// A finalized transform: the raw plan resource bound to the buffers it
/// was created against, together with the configuration it was planned
/// from.
pub struct Planned<I, O> {
    config: Planner,
    dims: Dims,
    how_many: Dims,
    raw: RawPlan,
    n_in: usize,
    n_out: usize,
    inplace: bool,
    marker: PhantomData<(I, O)>,
}

impl<I, O> Planned<I, O> {
    /// The planner configuration this plan was created from.
    pub closed spec fn spec_config(self) -> Planner {
        self.config
    }

    /// The dimension descriptor this plan was created from.
    pub closed spec fn spec_dims(self) -> Dims {
        self.dims
    }

    /// Whether input and output are the same buffer.
    pub closed spec fn is_inplace(self) -> bool {
        self.inplace
    }
}

impl Planned<ComplexVec, ComplexVec> {
    /// The raw resource is a complex-to-complex plan and the recorded
    /// buffer lengths match it.
    pub closed spec fn wf(self) -> bool {
        &&& self.raw is CtoC
        &&& self.n_in == c2c_input(self.raw->CtoC_0).len()
        &&& self.n_out == c2c_output(self.raw->CtoC_0).len()
        &&& self.is_inplace() ==> self.n_in == self.n_out
    }

    /// Contents of the plan's input buffer, as bit-pattern pairs.
    pub closed spec fn input_view(self) -> Seq<(u64, u64)> {
        c2c_input(self.raw->CtoC_0)
    }

    /// Contents of the plan's output buffer.
    pub closed spec fn output_view(self) -> Seq<(u64, u64)> {
        c2c_output(self.raw->CtoC_0)
    }

    /// What executing the plan writes to the output buffer: a function of
    /// the plan and its current input contents alone.
    pub closed spec fn result_view(self) -> Seq<(u64, u64)> {
        c2c_result(self.raw->CtoC_0)
    }

    /// Read the input buffer.
    pub fn input(&self) -> (v: Vec<(u64, u64)>)
        requires
            self.wf(),
        ensures
            v@ == self.input_view(),
    {
        match &self.raw {
            RawPlan::CtoC(e) => read_c2c_input(e, self.n_in),
            _ => {
                proof {
                    assert(false);
                }
                Vec::new()
            },
        }
    }

    /// Overwrite one element of the input buffer with the given bit-pattern
    /// pair.
    pub fn set_input(&mut self, i: usize, x: (u64, u64))
        requires
            old(self).wf(),
            i < old(self).input_view().len(),
        ensures
            final(self).wf(),
            final(self).spec_config() == old(self).spec_config(),
            final(self).spec_dims() == old(self).spec_dims(),
            final(self).is_inplace() == old(self).is_inplace(),
            final(self).input_view() == old(self).input_view().update(i as int, x),
            final(self).output_view() == old(self).output_view(),
    {
        match &mut self.raw {
            RawPlan::CtoC(e) => e.set_input(i, x),
            _ => {
                proof {
                    assert(false);
                }
            },
        }
    }

    /// Read the output buffer; `None` for an in-place plan, whose output is
    /// its input buffer.
    pub fn output(&self) -> (r: Option<Vec<(u64, u64)>>)
        requires
            self.wf(),
        ensures
            match r {
                Some(v) => !self.is_inplace() && v@ == self.output_view(),
                None => self.is_inplace(),
            },
    {
        if self.inplace {
            None
        } else {
            match &self.raw {
                RawPlan::CtoC(e) => Some(read_c2c_output(e, self.n_out)),
                _ => {
                    proof {
                        assert(false);
                    }
                    None
                },
            }
        }
    }

    /// Execute the transform.  Out of place, the output buffer receives
    /// exactly what the plan computes from the unchanged input; in place,
    /// the input buffer itself receives that result.
    pub fn execute(&mut self)
        requires
            old(self).wf(),
        ensures
            final(self).wf(),
            final(self).spec_config() == old(self).spec_config(),
            final(self).spec_dims() == old(self).spec_dims(),
            final(self).is_inplace() == old(self).is_inplace(),
            final(self).output_view() == old(self).result_view(),
            final(self).output_view().len() == old(self).output_view().len(),
            final(self).input_view().len() == old(self).input_view().len(),
            !old(self).is_inplace() ==> {
                &&& final(self).input_view() == old(self).input_view()
                &&& final(self).result_view() == old(self).result_view()
            },
            old(self).is_inplace() ==> final(self).input_view() == old(self).result_view(),
    {
        self.raw.execute();
        if self.inplace {
            match &mut self.raw {
                RawPlan::CtoC(e) => copy_c2c_output_to_input(e, self.n_in),
                _ => {
                    proof {
                        assert(false);
                    }
                },
            }
        }
    }
}

impl Planned<RealVec, ComplexVec> {
    /// The raw resource is a real-to-complex plan and the recorded buffer
    /// lengths match it.
    pub closed spec fn wf(self) -> bool {
        &&& self.raw is RtoC
        &&& !self.is_inplace()
        &&& self.n_in == r2c_input(self.raw->RtoC_0).len()
        &&& self.n_out == r2c_output(self.raw->RtoC_0).len()
    }

    /// Contents of the plan's input buffer, as bit patterns.
    pub closed spec fn input_view(self) -> Seq<u64> {
        r2c_input(self.raw->RtoC_0)
    }

    /// Contents of the plan's output buffer.
    pub closed spec fn output_view(self) -> Seq<(u64, u64)> {
        r2c_output(self.raw->RtoC_0)
    }

    /// What executing the plan writes to the output buffer.
    pub closed spec fn result_view(self) -> Seq<(u64, u64)> {
        r2c_result(self.raw->RtoC_0)
    }

    /// Read the input buffer.
    pub fn input(&self) -> (v: Vec<u64>)
        requires
            self.wf(),
        ensures
            v@ == self.input_view(),
    {
        match &self.raw {
            RawPlan::RtoC(e) => read_r2c_input(e, self.n_in),
            _ => {
                proof {
                    assert(false);
                }
                Vec::new()
            },
        }
    }

    /// Overwrite one element of the input buffer.
    pub fn set_input(&mut self, i: usize, x: u64)
        requires
            old(self).wf(),
            i < old(self).input_view().len(),
        ensures
            final(self).wf(),
            final(self).spec_config() == old(self).spec_config(),
            final(self).spec_dims() == old(self).spec_dims(),
            final(self).input_view() == old(self).input_view().update(i as int, x),
            final(self).output_view() == old(self).output_view(),
    {
        match &mut self.raw {
            RawPlan::RtoC(e) => e.set_input(i, x),
            _ => {
                proof {
                    assert(false);
                }
            },
        }
    }

    /// Read the output buffer.
    pub fn output(&self) -> (r: Option<Vec<(u64, u64)>>)
        requires
            self.wf(),
        ensures
            match r {
                Some(v) => v@ == self.output_view(),
                None => false,
            },
    {
        match &self.raw {
            RawPlan::RtoC(e) => Some(read_r2c_output(e, self.n_out)),
            _ => {
                proof {
                    assert(false);
                }
                None
            },
        }
    }

    /// Execute the transform: the output buffer receives exactly what the
    /// plan computes from the unchanged input.
    pub fn execute(&mut self)
        requires
            old(self).wf(),
        ensures
            final(self).wf(),
            final(self).spec_config() == old(self).spec_config(),
            final(self).spec_dims() == old(self).spec_dims(),
            final(self).input_view() == old(self).input_view(),
            final(self).output_view() == old(self).result_view(),
            final(self).output_view().len() == old(self).output_view().len(),
            final(self).result_view() == old(self).result_view(),
    {
        self.raw.execute();
    }
}

impl Planned<ComplexVec, RealVec> {
    /// The raw resource is a complex-to-real plan and the recorded buffer
    /// lengths match it.
    pub closed spec fn wf(self) -> bool {
        &&& self.raw is CtoR
        &&& !self.is_inplace()
        &&& self.n_in == c2r_input(self.raw->CtoR_0).len()
        &&& self.n_out == c2r_output(self.raw->CtoR_0).len()
    }

    /// Contents of the plan's input buffer, as bit-pattern pairs.
    pub closed spec fn input_view(self) -> Seq<(u64, u64)> {
        c2r_input(self.raw->CtoR_0)
    }

    /// Contents of the plan's output buffer.
    pub closed spec fn output_view(self) -> Seq<u64> {
        c2r_output(self.raw->CtoR_0)
    }

    /// What executing the plan writes to the output buffer.
    pub closed spec fn result_view(self) -> Seq<u64> {
        c2r_result(self.raw->CtoR_0)
    }

    /// Read the input buffer.
    pub fn input(&self) -> (v: Vec<(u64, u64)>)
        requires
            self.wf(),
        ensures
            v@ == self.input_view(),
    {
        match &self.raw {
            RawPlan::CtoR(e) => read_c2r_input(e, self.n_in),
            _ => {
                proof {
                    assert(false);
                }
                Vec::new()
            },
        }
    }

    /// Overwrite one element of the input buffer.
    pub fn set_input(&mut self, i: usize, x: (u64, u64))
        requires
            old(self).wf(),
            i < old(self).input_view().len(),
        ensures
            final(self).wf(),
            final(self).spec_config() == old(self).spec_config(),
            final(self).spec_dims() == old(self).spec_dims(),
            final(self).input_view() == old(self).input_view().update(i as int, x),
            final(self).output_view() == old(self).output_view(),
    {
        match &mut self.raw {
            RawPlan::CtoR(e) => e.set_input(i, x),
            _ => {
                proof {
                    assert(false);
                }
            },
        }
    }

    /// Read the output buffer.
    pub fn output(&self) -> (r: Option<Vec<u64>>)
        requires
            self.wf(),
        ensures
            match r {
                Some(v) => v@ == self.output_view(),
                None => false,
            },
    {
        match &self.raw {
            RawPlan::CtoR(e) => Some(read_c2r_output(e, self.n_out)),
            _ => {
                proof {
                    assert(false);
                }
                None
            },
        }
    }

    /// Execute the transform: the output buffer receives exactly what the
    /// plan computes from the unchanged input.
    pub fn execute(&mut self)
        requires
            old(self).wf(),
        ensures
            final(self).wf(),
            final(self).spec_config() == old(self).spec_config(),
            final(self).spec_dims() == old(self).spec_dims(),
            final(self).input_view() == old(self).input_view(),
            final(self).output_view() == old(self).result_view(),
            final(self).output_view().len() == old(self).output_view().len(),
            final(self).result_view() == old(self).result_view(),
    {
        self.raw.execute();
    }
}

} // verus!
