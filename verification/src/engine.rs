//! Trusted boundary to the native transform engine.
//!
//! Everything the library assumes of the engine is stated in this module:
//! aligned buffer storage, one opaque handle type per transform kind, and
//! contracts over uninterpreted views of their contents.  Plan construction
//! goes through the binding crate's process-wide planning lock, because the
//! engine's planning routines are not safe for concurrent invocation even
//! across unrelated plans; execution of finished plans is not serialized.
//!
//! Buffer elements cross this boundary as IEEE-754 bit patterns: a real
//! element is its 64-bit pattern, a complex element the pair
//! `(real bits, imaginary bits)`.  The buffers themselves hold the engine's
//! native floating-point values.

use vstd::prelude::*;

verus! {

/// Real-valued storage with the SIMD alignment the engine requires.
///
/// Owns memory obtained from the engine's aligned allocator and frees it on
/// drop.  Opaque to the verifier; its contents are described by [`real_seq`].
#[verifier::external_body]
pub struct RealVec {
    v: fftw::array::AlignedVec<<fftw::plan::R2CPlan64 as fftw::plan::R2CPlan>::Real>,
}

/// Complex-valued storage with the SIMD alignment the engine requires.
///
/// Opaque to the verifier; its contents are described by [`cplx_seq`].
#[verifier::external_body]
pub struct ComplexVec {
    v: fftw::array::AlignedVec<fftw::types::c64>,
}

/// The bit patterns held by a [`RealVec`], in storage order.
pub uninterp spec fn real_seq(v: RealVec) -> Seq<u64>;

/// The bit patterns held by a [`ComplexVec`], in storage order.
pub uninterp spec fn cplx_seq(v: ComplexVec) -> Seq<(u64, u64)>;

impl RealVec {
    /// Relies on `fftw::array::AlignedVec::new` (`fftw_alloc_real` behind the
    /// binding crate's engine lock): allocates `n` elements, all set to zero.
    /// Aborts only on allocation failure, as the system allocator does.
    #[verifier::external_body]
    pub fn zeros(n: usize) -> (r: RealVec)
        ensures
            real_seq(r).len() == n,
            forall|i: int| 0 <= i < n ==> real_seq(r)[i] == 0u64,
    {
        RealVec { v: fftw::array::AlignedVec::new(n) }
    }

    /// Relies on `fftw::array::AlignedVec` dereferencing to a slice of the
    /// `n` elements it was allocated with.
    #[verifier::external_body]
    pub fn len(&self) -> (n: usize)
        ensures
            n == real_seq(*self).len(),
    {
        self.v.len()
    }

    /// Relies on slice indexing of the allocation; converts the element to
    /// its bit pattern.
    #[verifier::external_body]
    pub fn get(&self, i: usize) -> (x: u64)
        requires
            i < real_seq(*self).len(),
        ensures
            x == real_seq(*self)[i as int],
    {
        self.v[i].to_bits()
    }
}

impl ComplexVec {
    /// Relies on `fftw::array::AlignedVec::new` (`fftw_alloc_complex` behind
    /// the binding crate's engine lock): allocates `n` elements, all zero.
    #[verifier::external_body]
    pub fn zeros(n: usize) -> (r: ComplexVec)
        ensures
            cplx_seq(r).len() == n,
            forall|i: int| 0 <= i < n ==> cplx_seq(r)[i] == (0u64, 0u64),
    {
        ComplexVec { v: fftw::array::AlignedVec::new(n) }
    }

    /// Relies on `fftw::array::AlignedVec` dereferencing to a slice of the
    /// `n` elements it was allocated with.
    #[verifier::external_body]
    pub fn len(&self) -> (n: usize)
        ensures
            n == cplx_seq(*self).len(),
    {
        self.v.len()
    }

    /// Relies on slice indexing of the allocation; converts the element to
    /// its bit-pattern pair.
    #[verifier::external_body]
    pub fn get(&self, i: usize) -> (x: (u64, u64))
        requires
            i < cplx_seq(*self).len(),
        ensures
            x == cplx_seq(*self)[i as int],
    {
        let z = self.v[i];
        (z.re.to_bits(), z.im.to_bits())
    }
}

/// A complex-to-complex plan together with the two buffers it was created
/// against.  The engine records the extent and alignment of both buffers at
/// planning time and executes against those same buffers, so the bundle is
/// kept together behind one opaque value.
#[verifier::external_body]
pub struct CtoCEngine {
    plan: fftw::plan::C2CPlan64,
    src: fftw::array::AlignedVec<fftw::types::c64>,
    dst: fftw::array::AlignedVec<fftw::types::c64>,
}

/// A real-to-complex plan with its bound buffers.
#[verifier::external_body]
pub struct RtoCEngine {
    plan: fftw::plan::R2CPlan64,
    src: fftw::array::AlignedVec<<fftw::plan::R2CPlan64 as fftw::plan::R2CPlan>::Real>,
    dst: fftw::array::AlignedVec<fftw::types::c64>,
}

/// A complex-to-real plan with its bound buffers.
#[verifier::external_body]
pub struct CtoREngine {
    plan: fftw::plan::C2RPlan64,
    src: fftw::array::AlignedVec<fftw::types::c64>,
    dst: fftw::array::AlignedVec<<fftw::plan::R2CPlan64 as fftw::plan::R2CPlan>::Real>,
}

/// Contents of the input buffer bound to a complex-to-complex plan.
pub uninterp spec fn c2c_input(e: CtoCEngine) -> Seq<(u64, u64)>;

/// Contents of the output buffer bound to a complex-to-complex plan.
pub uninterp spec fn c2c_output(e: CtoCEngine) -> Seq<(u64, u64)>;

/// What one execution of a complex-to-complex plan writes to its output
/// buffer: a function of the plan and its current input contents alone.
pub uninterp spec fn c2c_result(e: CtoCEngine) -> Seq<(u64, u64)>;

/// Contents of the input buffer bound to a real-to-complex plan.
pub uninterp spec fn r2c_input(e: RtoCEngine) -> Seq<u64>;

/// Contents of the output buffer bound to a real-to-complex plan.
pub uninterp spec fn r2c_output(e: RtoCEngine) -> Seq<(u64, u64)>;

/// What one execution of a real-to-complex plan writes to its output buffer.
pub uninterp spec fn r2c_result(e: RtoCEngine) -> Seq<(u64, u64)>;

/// Contents of the input buffer bound to a complex-to-real plan.
pub uninterp spec fn c2r_input(e: CtoREngine) -> Seq<(u64, u64)>;

/// Contents of the output buffer bound to a complex-to-real plan.
pub uninterp spec fn c2r_output(e: CtoREngine) -> Seq<u64>;

/// What one execution of a complex-to-real plan writes to its output buffer.
pub uninterp spec fn c2r_result(e: CtoREngine) -> Seq<u64>;

impl CtoCEngine {
    /// Relies on `fftw::plan::C2CPlan::new` (`fftw_plan_dft` behind the
    /// binding crate's process-wide planning lock): plans an `n`-point
    /// complex transform bound to the given buffers, of which the engine
    /// reads and writes the first `n` elements.  `Err` exactly when the
    /// engine returned a null plan, handing both buffers back.  Planning may
    /// overwrite buffer contents, so only the lengths are promised in
    /// general; with the estimate heuristic (alone or with the wisdom
    /// restriction) the engine does not overwrite the arrays during
    /// planning, and the contents carry over exactly.  The flag word must
    /// not carry the engine's destroy-input bit, on which the execution
    /// contract's input preservation relies.
    #[verifier::external_body]
    pub(crate) fn plan(
        n: usize,
        src: ComplexVec,
        dst: ComplexVec,
        sign: i32,
        flags: u32,
    ) -> (r: Result<CtoCEngine, (ComplexVec, ComplexVec)>)
        requires
            n <= cplx_seq(src).len(),
            n <= cplx_seq(dst).len(),
            n <= 0x7FFF_FFFF,
            sign == -1i32 || sign == 1i32,
            flags & 0x1u32 == 0,
        ensures
            match r {
                Ok(e) => {
                    &&& c2c_input(e).len() == cplx_seq(src).len()
                    &&& c2c_output(e).len() == cplx_seq(dst).len()
                },
                Err(b) => {
                    &&& cplx_seq(b.0).len() == cplx_seq(src).len()
                    &&& cplx_seq(b.1).len() == cplx_seq(dst).len()
                },
            },
            (flags == 0x40u32 || flags == 0x200040u32) ==> match r {
                Ok(e) => c2c_input(e) == cplx_seq(src) && c2c_output(e) == cplx_seq(dst),
                Err(b) => cplx_seq(b.0) == cplx_seq(src) && cplx_seq(b.1) == cplx_seq(dst),
            },
    {
        let mut src = src;
        let mut dst = dst;
        let sgn = if sign == -1 { fftw::types::Sign::Forward } else { fftw::types::Sign::Backward };
        let flag = fftw::types::Flag::from_bits_truncate(flags);
        match <fftw::plan::C2CPlan64 as fftw::plan::C2CPlan>::new(&[n], &mut src.v, &mut dst.v, sgn, flag) {
            Ok(p) => Ok(CtoCEngine { plan: p, src: src.v, dst: dst.v }),
            Err(_) => Err((src, dst)),
        }
    }

    /// Relies on `fftw::plan::C2CPlan::c2c` (`fftw_execute_dft`): executes
    /// the plan against the buffers it was created on, which match the
    /// extent and alignment recorded at planning time, so the call cannot be
    /// rejected.  The input is not modified, and what an execution writes is
    /// a function of the plan and its input contents alone.
    #[verifier::external_body]
    pub(crate) fn run(&mut self)
        ensures
            c2c_input(*final(self)) == c2c_input(*old(self)),
            c2c_output(*final(self)) == c2c_result(*old(self)),
            c2c_result(*final(self)) == c2c_result(*old(self)),
            c2c_output(*final(self)).len() == c2c_output(*old(self)).len(),
    {
        fftw::plan::C2CPlan::c2c(&mut self.plan, &mut self.src, &mut self.dst).unwrap();
    }

    /// Moving the buffers out drops the plan handle, which releases the
    /// native plan exactly once (`fftw_destroy_plan` through the binding
    /// crate's `Drop`).
    #[verifier::external_body]
    pub(crate) fn release(self) -> (r: (ComplexVec, ComplexVec))
        ensures
            cplx_seq(r.0) == c2c_input(self),
            cplx_seq(r.1) == c2c_output(self),
    {
        let CtoCEngine { plan, src, dst } = self;
        drop(plan);
        (ComplexVec { v: src }, ComplexVec { v: dst })
    }

    /// Relies on slice indexing of the bound input buffer; converts the
    /// element to its bit pattern.
    #[verifier::external_body]
    pub(crate) fn get_input(&self, i: usize) -> (x: (u64, u64))
        requires
            i < c2c_input(*self).len(),
        ensures
            x == c2c_input(*self)[i as int],
    {
        let z = self.src[i];
        (z.re.to_bits(), z.im.to_bits())
    }

    /// Relies on slice indexing of the bound input buffer; stores the
    /// element given by its bit pattern.  The buffer keeps its place, so the
    /// binding recorded at planning time is unaffected.
    #[verifier::external_body]
    pub(crate) fn set_input(&mut self, i: usize, x: (u64, u64))
        requires
            i < c2c_input(*old(self)).len(),
        ensures
            c2c_input(*final(self)) == c2c_input(*old(self)).update(i as int, x),
            c2c_output(*final(self)) == c2c_output(*old(self)),
    {
        self.src[i] = fftw::types::c64::new(<<fftw::plan::R2CPlan64 as fftw::plan::R2CPlan>::Real>::from_bits(x.0), <<fftw::plan::R2CPlan64 as fftw::plan::R2CPlan>::Real>::from_bits(x.1));
    }

    /// Relies on slice indexing of the bound output buffer.
    #[verifier::external_body]
    pub(crate) fn get_output(&self, i: usize) -> (x: (u64, u64))
        requires
            i < c2c_output(*self).len(),
        ensures
            x == c2c_output(*self)[i as int],
    {
        let z = self.dst[i];
        (z.re.to_bits(), z.im.to_bits())
    }
}

impl RtoCEngine {
    /// Relies on `fftw::plan::R2CPlan::new` (`fftw_plan_dft_r2c` behind the
    /// binding crate's planning lock): plans an `n`-point real-to-complex
    /// transform bound to the given buffers; the engine reads `n` real
    /// elements and writes `n / 2 + 1` complex elements.  `Err` exactly when
    /// the engine returned a null plan, handing both buffers back.  With
    /// the estimate heuristic (alone or with the wisdom restriction)
    /// planning does not overwrite the arrays, and the contents carry over
    /// exactly.
    #[verifier::external_body]
    pub(crate) fn plan(
        n: usize,
        src: RealVec,
        dst: ComplexVec,
        flags: u32,
    ) -> (r: Result<RtoCEngine, (RealVec, ComplexVec)>)
        requires
            n <= real_seq(src).len(),
            n / 2 + 1 <= cplx_seq(dst).len(),
            n <= 0x7FFF_FFFF,
            flags & 0x1u32 == 0,
        ensures
            match r {
                Ok(e) => {
                    &&& r2c_input(e).len() == real_seq(src).len()
                    &&& r2c_output(e).len() == cplx_seq(dst).len()
                },
                Err(b) => {
                    &&& real_seq(b.0).len() == real_seq(src).len()
                    &&& cplx_seq(b.1).len() == cplx_seq(dst).len()
                },
            },
            (flags == 0x40u32 || flags == 0x200040u32) ==> match r {
                Ok(e) => r2c_input(e) == real_seq(src) && r2c_output(e) == cplx_seq(dst),
                Err(b) => real_seq(b.0) == real_seq(src) && cplx_seq(b.1) == cplx_seq(dst),
            },
    {
        let mut src = src;
        let mut dst = dst;
        let flag = fftw::types::Flag::from_bits_truncate(flags);
        match <fftw::plan::R2CPlan64 as fftw::plan::R2CPlan>::new(&[n], &mut src.v, &mut dst.v, flag) {
            Ok(p) => Ok(RtoCEngine { plan: p, src: src.v, dst: dst.v }),
            Err(_) => Err((src, dst)),
        }
    }

    /// Relies on `fftw::plan::R2CPlan::r2c` (`fftw_execute_dft_r2c`):
    /// executes the plan against its own buffers; cannot be rejected, does
    /// not modify the input, and writes a function of the plan and its input
    /// contents alone.
    #[verifier::external_body]
    pub(crate) fn run(&mut self)
        ensures
            r2c_input(*final(self)) == r2c_input(*old(self)),
            r2c_output(*final(self)) == r2c_result(*old(self)),
            r2c_result(*final(self)) == r2c_result(*old(self)),
            r2c_output(*final(self)).len() == r2c_output(*old(self)).len(),
    {
        fftw::plan::R2CPlan::r2c(&mut self.plan, &mut self.src, &mut self.dst).unwrap();
    }

    /// Moving the buffers out drops the plan handle, releasing the native
    /// plan exactly once.
    #[verifier::external_body]
    pub(crate) fn release(self) -> (r: (RealVec, ComplexVec))
        ensures
            real_seq(r.0) == r2c_input(self),
            cplx_seq(r.1) == r2c_output(self),
    {
        let RtoCEngine { plan, src, dst } = self;
        drop(plan);
        (RealVec { v: src }, ComplexVec { v: dst })
    }

    /// Relies on slice indexing of the bound input buffer.
    #[verifier::external_body]
    pub(crate) fn get_input(&self, i: usize) -> (x: u64)
        requires
            i < r2c_input(*self).len(),
        ensures
            x == r2c_input(*self)[i as int],
    {
        self.src[i].to_bits()
    }

    /// Relies on slice indexing of the bound input buffer.
    #[verifier::external_body]
    pub(crate) fn set_input(&mut self, i: usize, x: u64)
        requires
            i < r2c_input(*old(self)).len(),
        ensures
            r2c_input(*final(self)) == r2c_input(*old(self)).update(i as int, x),
            r2c_output(*final(self)) == r2c_output(*old(self)),
    {
        self.src[i] = <<fftw::plan::R2CPlan64 as fftw::plan::R2CPlan>::Real>::from_bits(x);
    }

    /// Relies on slice indexing of the bound output buffer.
    #[verifier::external_body]
    pub(crate) fn get_output(&self, i: usize) -> (x: (u64, u64))
        requires
            i < r2c_output(*self).len(),
        ensures
            x == r2c_output(*self)[i as int],
    {
        let z = self.dst[i];
        (z.re.to_bits(), z.im.to_bits())
    }
}

impl CtoREngine {
    /// Relies on `fftw::plan::C2RPlan::new` (`fftw_plan_dft_c2r` behind the
    /// binding crate's planning lock): plans a transform of logical real
    /// length `n` bound to the given buffers; the engine reads `n / 2 + 1`
    /// complex elements and writes `n` real elements.  `Err` exactly when
    /// the engine returned a null plan, handing both buffers back.  The
    /// engine's preserve-input flag is added to the request: a
    /// complex-to-real transform otherwise defaults to overwriting its
    /// input, and the execution contract relies on the input surviving.
    /// Input-preserving algorithms exist for the single-axis transforms
    /// this wrapper plans, so the flag does not make planning fail.  With
    /// the estimate heuristic (alone or with the wisdom restriction)
    /// planning does not overwrite the arrays, and the contents carry over
    /// exactly.
    #[verifier::external_body]
    pub(crate) fn plan(
        n: usize,
        src: ComplexVec,
        dst: RealVec,
        flags: u32,
    ) -> (r: Result<CtoREngine, (ComplexVec, RealVec)>)
        requires
            n / 2 + 1 <= cplx_seq(src).len(),
            n <= real_seq(dst).len(),
            n <= 0x7FFF_FFFF,
            flags & 0x1u32 == 0,
        ensures
            match r {
                Ok(e) => {
                    &&& c2r_input(e).len() == cplx_seq(src).len()
                    &&& c2r_output(e).len() == real_seq(dst).len()
                },
                Err(b) => {
                    &&& cplx_seq(b.0).len() == cplx_seq(src).len()
                    &&& real_seq(b.1).len() == real_seq(dst).len()
                },
            },
            (flags == 0x40u32 || flags == 0x200040u32) ==> match r {
                Ok(e) => c2r_input(e) == cplx_seq(src) && c2r_output(e) == real_seq(dst),
                Err(b) => cplx_seq(b.0) == cplx_seq(src) && real_seq(b.1) == real_seq(dst),
            },
    {
        let mut src = src;
        let mut dst = dst;
        let flag = fftw::types::Flag::from_bits_truncate(flags) | fftw::types::Flag::PRESERVEINPUT;
        match <fftw::plan::C2RPlan64 as fftw::plan::C2RPlan>::new(&[n], &mut src.v, &mut dst.v, flag) {
            Ok(p) => Ok(CtoREngine { plan: p, src: src.v, dst: dst.v }),
            Err(_) => Err((src, dst)),
        }
    }

    /// Relies on `fftw::plan::C2RPlan::c2r` (`fftw_execute_dft_c2r`):
    /// executes the plan against its own buffers; cannot be rejected, does
    /// not modify the input -- the plan was created with the engine's
    /// preserve-input flag -- and writes a function of the plan and its
    /// input contents alone.
    #[verifier::external_body]
    pub(crate) fn run(&mut self)
        ensures
            c2r_input(*final(self)) == c2r_input(*old(self)),
            c2r_output(*final(self)) == c2r_result(*old(self)),
            c2r_result(*final(self)) == c2r_result(*old(self)),
            c2r_output(*final(self)).len() == c2r_output(*old(self)).len(),
    {
        fftw::plan::C2RPlan::c2r(&mut self.plan, &mut self.src, &mut self.dst).unwrap();
    }

    /// Moving the buffers out drops the plan handle, releasing the native
    /// plan exactly once.
    #[verifier::external_body]
    pub(crate) fn release(self) -> (r: (ComplexVec, RealVec))
        ensures
            cplx_seq(r.0) == c2r_input(self),
            real_seq(r.1) == c2r_output(self),
    {
        let CtoREngine { plan, src, dst } = self;
        drop(plan);
        (ComplexVec { v: src }, RealVec { v: dst })
    }

    /// Relies on slice indexing of the bound input buffer.
    #[verifier::external_body]
    pub(crate) fn get_input(&self, i: usize) -> (x: (u64, u64))
        requires
            i < c2r_input(*self).len(),
        ensures
            x == c2r_input(*self)[i as int],
    {
        let z = self.src[i];
        (z.re.to_bits(), z.im.to_bits())
    }

    /// Relies on slice indexing of the bound input buffer.
    #[verifier::external_body]
    pub(crate) fn set_input(&mut self, i: usize, x: (u64, u64))
        requires
            i < c2r_input(*old(self)).len(),
        ensures
            c2r_input(*final(self)) == c2r_input(*old(self)).update(i as int, x),
            c2r_output(*final(self)) == c2r_output(*old(self)),
    {
        self.src[i] = fftw::types::c64::new(<<fftw::plan::R2CPlan64 as fftw::plan::R2CPlan>::Real>::from_bits(x.0), <<fftw::plan::R2CPlan64 as fftw::plan::R2CPlan>::Real>::from_bits(x.1));
    }

    /// Relies on slice indexing of the bound output buffer.
    #[verifier::external_body]
    pub(crate) fn get_output(&self, i: usize) -> (x: u64)
        requires
            i < c2r_output(*self).len(),
        ensures
            x == c2r_output(*self)[i as int],
    {
        self.dst[i].to_bits()
    }
}

} // verus!
