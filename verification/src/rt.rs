//! The runtime façade and the stack-managed allocator for foreign-visible
//! memory.
//!
//! The protection-domain switch itself is hardware- and
//! architecture-specific; this module holds every decision around it as
//! verified code: constructing the runtime from a parsed binary, planning
//! the MPU regions, moving the foreign stack pointer for LIFO allocations,
//! registering callback descriptors, and looking up foreign symbols.

use crate::binary::{spec_header_valid, spec_parsed_header, OmniglotBinary};
use crate::invoke::{
    apply_callback_return,
    TockRv32iCInvokeErr,
    TockRv32iCInvokeResInner,
    TockRv32iCRtCallbackAsmContext,
    TockRv32iCRtCallbackContext,
    TockRv32iCRtCallbackReturn,
};
use crate::scopes::{AccessScope, AllocScope};
use crate::tracker::{
    TockRv32iCCallbackDescriptor,
    TockRv32iCRtAllocChain,
    TockRv32iCRtAllocations,
};
use crate::{OGError, TockOGError};
use vstd::arithmetic::div_mod::{
    lemma_fundamental_div_mod,
    lemma_mod_bound,
    lemma_mod_multiples_basic,
};
use vstd::bytes::u32_from_le_bytes;
use vstd::prelude::*;
use vstd::slice::slice_subrange;

verus! {

/// The mutable state shared with the protection-domain switch: the foreign
/// stack pointer, the bounds of the foreign RAM region, and the pointer to
/// the allocation scope active across an invocation.
///
/// All values are plain machine addresses; `active_alloc_scope` is zero
/// while no `execute` call is live.
pub struct TockRv32iCRtAsmState {
    /// Top of the foreign stack; the next allocation moves it downward.
    pub foreign_stack_ptr: u32,
    /// Lowest usable foreign stack address (the bottom of the RAM region).
    pub foreign_stack_bottom: u32,
    /// Start of the foreign RAM region.
    pub ram_region_start: u32,
    /// Length of the foreign RAM region.
    pub ram_region_length: u32,
    /// Address of the allocation scope active across an invocation; zero
    /// outside `execute`.
    pub active_alloc_scope: u32,
}

/// The pointer a stack allocation of `size` bytes aligned to `align` yields
/// when the foreign stack pointer stands at `fsp`: move down by `size`,
/// then further down to the next multiple of `align`.
pub open spec fn spec_alloc_ptr(fsp: int, size: int, align: int) -> int {
    let down = fsp - size;
    down - (down % align)
}

/// Whether a stack allocation of `size` bytes aligned to `align` fits
/// between `bottom` and `fsp`.
pub open spec fn spec_alloc_fits(fsp: int, bottom: int, size: int, align: int) -> bool {
    &&& size <= fsp
    &&& spec_alloc_ptr(fsp, size, align) >= bottom
}

/// The allocation closure `f`, handed the pointer `p` on the committed
/// state `mid` (whose stack pointer stands at `p`), can have produced the
/// value `v`.
pub open spec fn alloc_closure_delivered<R, F: FnOnce(&mut TockRv32iCRtAsmState, u32) -> R>(
    f: F,
    mid: TockRv32iCRtAsmState,
    p: u32,
    v: R,
) -> bool {
    exists|st: &mut TockRv32iCRtAsmState| #[trigger] call_ensures(f, (st, p), v) && *st == mid
}

impl TockRv32iCRtAsmState {
    /// The stack pointer lies between the bottom and the end of the RAM
    /// region, and the region fits in the address space.
    pub open spec fn wf(&self) -> bool {
        &&& self.ram_region_start + self.ram_region_length <= u32::MAX
        &&& self.foreign_stack_bottom == self.ram_region_start
        &&& self.foreign_stack_bottom <= self.foreign_stack_ptr
        &&& self.foreign_stack_ptr <= self.ram_region_start + self.ram_region_length
    }

    /// Moves the foreign stack pointer down for an allocation of `size`
    /// bytes aligned to `align` and returns the allocation's address, or
    /// fails with `AllocNoMem` when the new pointer would fall below the
    /// bottom of the region.  On success the returned pointer is aligned,
    /// the allocated bytes lie inside the RAM region below the old stack
    /// pointer, and the stack pointer stands at the returned address.
    pub fn alloc_frame(&mut self, size: u32, align: u32) -> (r: Result<u32, OGError>)
        requires
            old(self).wf(),
            align >= 1,
        ensures
            match r {
                Ok(p) => {
                    &&& spec_alloc_fits(
                        old(self).foreign_stack_ptr as int,
                        old(self).foreign_stack_bottom as int,
                        size as int,
                        align as int,
                    )
                    &&& p == spec_alloc_ptr(
                        old(self).foreign_stack_ptr as int,
                        size as int,
                        align as int,
                    )
                    &&& p % align == 0
                    &&& old(self).foreign_stack_bottom <= p
                    &&& p + size <= old(self).foreign_stack_ptr
                    &&& *final(self) == (TockRv32iCRtAsmState {
                        foreign_stack_ptr: p,
                        ..*old(self)
                    })
                    &&& final(self).wf()
                },
                Err(e) => {
                    &&& e == OGError::AllocNoMem
                    &&& !spec_alloc_fits(
                        old(self).foreign_stack_ptr as int,
                        old(self).foreign_stack_bottom as int,
                        size as int,
                        align as int,
                    )
                    &&& *final(self) == *old(self)
                },
            },
    {
        let fsp = self.foreign_stack_ptr;

        // Move the stack pointer downward by the requested size; falling
        // below zero can never leave room above the region bottom.
        if size > fsp {
            return Err(OGError::AllocNoMem);
        }
        let down = fsp - size;

        // Adjust downward to the requested alignment.
        let rem = down % align;
        proof {
            let q = down as int / align as int;
            lemma_mod_bound(down as int, align as int);
            lemma_fundamental_div_mod(down as int, align as int);
            lemma_mod_multiples_basic(q, align as int);
            assert(rem <= down);
            assert(down as int - rem as int == q * align as int) by (nonlinear_arith)
                requires
                    down as int == align as int * q + rem as int,
            ;
            assert((down - rem) % (align as int) == 0);
        }
        let p = down - rem;

        // Check that the adjusted pointer still lies inside the region.
        if p < self.foreign_stack_bottom {
            return Err(OGError::AllocNoMem);
        }

        self.foreign_stack_ptr = p;
        Ok(p)
    }

    /// Restores the foreign stack pointer to `saved_fsp`, releasing every
    /// frame allocated below it.
    pub fn release_frame(&mut self, saved_fsp: u32)
        ensures
            *final(self) == (TockRv32iCRtAsmState { foreign_stack_ptr: saved_fsp, ..*old(self) }),
    {
        self.foreign_stack_ptr = saved_fsp;
    }

    /// Runs `f` on a fresh stack allocation of `size` bytes aligned to
    /// `align`, handing it this state so that it may allocate nested
    /// frames, and restores the foreign stack pointer unconditionally when
    /// `f` returns.  Fails with `AllocNoMem`, without entering `f`, when
    /// the allocation does not fit.
    ///
    /// `f` is called, if at all, with exactly the committed state: this
    /// state with the stack pointer moved to the allocation's address,
    /// which is also the pointer argument.  Its own `requires` may rely on
    /// that.
    pub fn allocate_stacked_untracked_mut<R, F: FnOnce(&mut TockRv32iCRtAsmState, u32) -> R>(
        &mut self,
        size: u32,
        align: u32,
        f: F,
    ) -> (r: Result<R, OGError>)
        requires
            old(self).wf(),
            align >= 1,
            forall|st: &mut TockRv32iCRtAsmState, p: u32|
                (p == spec_alloc_ptr(
                    old(self).foreign_stack_ptr as int,
                    size as int,
                    align as int,
                ) && *st == (TockRv32iCRtAsmState { foreign_stack_ptr: p, ..*old(self) }))
                    ==> call_requires(f, (st, p)),
        ensures
            final(self).foreign_stack_ptr == old(self).foreign_stack_ptr,
            r is Ok <==> spec_alloc_fits(
                old(self).foreign_stack_ptr as int,
                old(self).foreign_stack_bottom as int,
                size as int,
                align as int,
            ),
            r matches Ok(v) ==> alloc_closure_delivered(
                f,
                TockRv32iCRtAsmState {
                    foreign_stack_ptr: spec_alloc_ptr(
                        old(self).foreign_stack_ptr as int,
                        size as int,
                        align as int,
                    ) as u32,
                    ..*old(self)
                },
                spec_alloc_ptr(
                    old(self).foreign_stack_ptr as int,
                    size as int,
                    align as int,
                ) as u32,
                v,
            ),
            r matches Err(e) ==> e == OGError::AllocNoMem && *final(self) == *old(self),
    {
        let saved_fsp = self.foreign_stack_ptr;

        let p = match self.alloc_frame(size, align) {
            Ok(p) => p,
            Err(e) => {
                return Err(e);
            },
        };

        let ghost mid = *self;
        let res = f(self, p);

        proof {
            assert(spec_alloc_ptr(
                old(self).foreign_stack_ptr as int,
                size as int,
                align as int,
            ) as u32 == p);
            assert(alloc_closure_delivered(f, mid, p, res));
        }

        self.release_frame(saved_fsp);

        Ok(res)
    }
}

/// The foreign stack pointer the protection-domain switch uses for an
/// invocation with `stack_spill` bytes of stacked arguments: the stack
/// moves down by the spill and is aligned down to the 16-byte boundary
/// the C calling convention demands, and entering the foreign domain
/// fails when that would fall below the bottom of the stack.
pub fn trampoline_spill_fsp(fsp: u32, stack_spill: u32, stack_bottom: u32) -> (r: Option<u32>)
    ensures
        r is Some <==> spec_alloc_fits(fsp as int, stack_bottom as int, stack_spill as int, 16),
        r matches Some(new_fsp) ==> {
            &&& new_fsp == spec_alloc_ptr(fsp as int, stack_spill as int, 16)
            &&& new_fsp % 16 == 0
            &&& stack_bottom <= new_fsp
            &&& new_fsp + stack_spill <= fsp
        },
{
    if stack_spill > fsp {
        return None;
    }
    let down = fsp - stack_spill;
    let rem = down % 16;
    proof {
        let q = down as int / 16;
        lemma_mod_bound(down as int, 16);
        lemma_fundamental_div_mod(down as int, 16);
        lemma_mod_multiples_basic(q, 16);
        assert(down as int - rem as int == q * 16) by (nonlinear_arith)
            requires
                down as int == 16 * q + rem as int,
        ;
        assert((down - rem) % 16int == 0);
    }
    let new_fsp = down - rem;
    if new_fsp < stack_bottom {
        return None;
    }
    Some(new_fsp)
}

/// On success, the allocation pointer is aligned and the allocated bytes
/// lie wholly inside the foreign RAM region.
pub proof fn lemma_allocation_soundness(st: TockRv32iCRtAsmState, size: u32, align: u32)
    requires
        st.wf(),
        align >= 1,
        spec_alloc_fits(
            st.foreign_stack_ptr as int,
            st.foreign_stack_bottom as int,
            size as int,
            align as int,
        ),
    ensures
        ({
            let p = spec_alloc_ptr(st.foreign_stack_ptr as int, size as int, align as int);
            &&& p % (align as int) == 0
            &&& st.ram_region_start <= p
            &&& p + size <= st.ram_region_start + st.ram_region_length
        }),
{
    let down = st.foreign_stack_ptr as int - size as int;
    let q = down / align as int;
    lemma_mod_bound(down, align as int);
    lemma_fundamental_div_mod(down, align as int);
    lemma_mod_multiples_basic(q, align as int);
    assert(down - (down % align as int) == q * align as int) by (nonlinear_arith)
        requires
            down == align as int * q + (down % align as int),
    ;
}

/// Region permissions the runtime requests from the MPU driver.
#[derive(Copy, Clone, Debug, PartialEq, Eq, Structural)]
pub enum MpuPermissions {
    /// Readable and executable: the foreign binary in flash.
    ReadExecuteOnly,
    /// Readable and writable: the foreign RAM region.
    ReadWriteOnly,
    /// Readable, writable and executable.
    ReadWriteExecute,
}

/// The MPU driver the runtime drives; the embedder implements it for its
/// hardware.  `new_config` starts a fresh region configuration;
/// `allocate_region` adds a region to it and reports whether the hardware
/// can hold it; `configure_mpu` installs the configuration, and
/// `enable_app_mpu` / `disable_app_mpu` switch enforcement on and off.
pub trait TockMpu {
    /// Starts a fresh region configuration; `false` when none is
    /// available.
    fn new_config(&mut self) -> bool;

    /// Adds the region `[start, start + size)` with the given permissions;
    /// `false` when the hardware cannot hold it.
    fn allocate_region(&mut self, start: u32, size: u32, permissions: MpuPermissions) -> bool;

    /// Installs the prepared configuration into the hardware.
    fn configure_mpu(&mut self);

    /// Switches memory protection on.
    fn enable_app_mpu(&mut self);

    /// Switches memory protection off.
    fn disable_app_mpu(&mut self);
}

/// Two regions share at least one byte.
pub open spec fn spec_regions_overlap(a_start: int, a_len: int, b_start: int, b_len: int) -> bool {
    &&& a_len > 0
    &&& b_len > 0
    &&& a_start < b_start + b_len
    &&& b_start < a_start + a_len
}

/// The scope-tracked allocation closure `f`, handed the pointer `p` on the
/// committed state `mid` together with a nested allocation scope — one
/// whose tracker is a pass-through node over `outer_tracker` and whose
/// imprint is `imprint` — can have produced the value `v`.
pub open spec fn scoped_closure_delivered<
    't,
    R,
    F: FnOnce(&mut TockRv32iCRtAsmState, u32, &AllocScope<'t>) -> R,
>(
    f: F,
    mid: TockRv32iCRtAsmState,
    p: u32,
    outer_tracker: TockRv32iCRtAllocChain<'t>,
    imprint: usize,
    v: R,
) -> bool {
    exists|st: &mut TockRv32iCRtAsmState, sc: &AllocScope<'t>|
        #[trigger] call_ensures(f, (st, p, sc), v) && *st == mid && sc.spec_imprint() == imprint
            && (sc.spec_tracker() matches TockRv32iCRtAllocChain::Cons(pred) && *pred
            == outer_tracker)
}

/// The callback body `f`, handed the springboard address `sb` together
/// with a registration scope — one whose tracker stacks the descriptor
/// `desc` on `outer_tracker` and whose imprint is `imprint` — can have
/// produced the value `v`.
pub open spec fn callback_closure_delivered<'t, R, F: FnOnce(u32, &AllocScope<'t>) -> R>(
    f: F,
    sb: u32,
    desc: TockRv32iCCallbackDescriptor,
    outer_tracker: TockRv32iCRtAllocChain<'t>,
    imprint: usize,
    v: R,
) -> bool {
    exists|sc: &AllocScope<'t>|
        #[trigger] call_ensures(f, (sb, sc), v) && sc.spec_imprint() == imprint && (
        sc.spec_tracker() matches TockRv32iCRtAllocChain::CallbackDescriptor(d, pred) && d == desc
            && *pred == outer_tracker)
}

/// A runtime instance: the shared trampoline state, the located and parsed
/// foreign binary, the MPU driver, and the imprint identifying this
/// instance.
pub struct TockRv32iCRt<M: TockMpu> {
    /// State shared with the protection-domain switch.
    pub asm_state: TockRv32iCRtAsmState,
    /// The located foreign binary.
    pub binary: OmniglotBinary,
    /// Address of the runtime header handed to the foreign init function.
    pub rthdr_addr: u32,
    /// Address of the foreign init function.
    pub init_addr: u32,
    /// Address of the function table.
    pub fntab_addr: u32,
    /// Number of entries in the function table.
    pub fntab_length: u32,
    /// The MPU driver.
    pub mpu: M,
    /// The imprint carried by every scope and reference of this runtime.
    pub imprint: usize,
}

impl<M: TockMpu> TockRv32iCRt<M> {
    /// The trampoline state is well-formed and the function table lies
    /// inside the binary.
    pub open spec fn wf(&self) -> bool {
        &&& self.asm_state.wf()
        &&& self.binary.binary_start + self.binary.binary_length <= u32::MAX
        &&& self.binary.binary_start <= self.fntab_addr
        &&& self.fntab_addr + 4 * self.fntab_length + 4 <= self.binary.binary_start
            + self.binary.binary_length
    }

    /// Constructs a runtime around a located binary.
    ///
    /// The binary's header is validated and parsed; the foreign RAM region
    /// must not overlap the binary's flash; the MPU driver is asked for a
    /// configuration holding the binary (read and execute), the RAM region
    /// (read and write) and any additional regions, and any refusal
    /// surfaces as `MPUConfigError`.  The foreign stack pointer starts at
    /// the top of the RAM region; the foreign init function is invoked
    /// separately (see `init`), through the embedder's protection-domain
    /// switch, inside `execute`.
    ///
    /// Returns the runtime together with the root allocation scope and the
    /// single access scope of this instance.
    pub fn new(
        mpu: M,
        binary: OmniglotBinary,
        binary_bytes: &[u8],
        ram_region_start: u32,
        ram_region_length: u32,
        addl_mpu_regions: &[(u32, u32, MpuPermissions)],
        imprint: usize,
    ) -> (r: Result<(TockRv32iCRt<M>, AllocScope<'static>, AccessScope), TockOGError>)
        requires
            binary_bytes@.len() == binary.binary_length,
            binary.binary_start + binary.binary_length <= u32::MAX,
            ram_region_start + ram_region_length <= u32::MAX,
        ensures
            r matches Ok(t) ==> {
                &&& spec_header_valid(binary.binary_start, binary_bytes@)
                &&& !spec_regions_overlap(
                    ram_region_start as int,
                    ram_region_length as int,
                    binary.binary_start as int,
                    binary.binary_length as int,
                )
                &&& t.0.wf()
                &&& t.0.asm_state == (TockRv32iCRtAsmState {
                    foreign_stack_ptr: (ram_region_start + ram_region_length) as u32,
                    foreign_stack_bottom: ram_region_start,
                    ram_region_start,
                    ram_region_length,
                    active_alloc_scope: 0,
                })
                &&& t.0.binary == binary
                &&& t.0.rthdr_addr == spec_parsed_header(
                    binary.binary_start,
                    binary_bytes@,
                ).rthdr_addr
                &&& t.0.init_addr == spec_parsed_header(
                    binary.binary_start,
                    binary_bytes@,
                ).init_addr
                &&& t.0.fntab_addr == spec_parsed_header(
                    binary.binary_start,
                    binary_bytes@,
                ).fntab_addr
                &&& t.0.fntab_length == spec_parsed_header(
                    binary.binary_start,
                    binary_bytes@,
                ).fntab_length
                &&& t.0.imprint == imprint
                &&& t.1.spec_imprint() == imprint
                &&& t.1.spec_tracker() == TockRv32iCRtAllocChain::BaseAllocations(
                    TockRv32iCRtAllocations {
                        ram_region_start,
                        ram_region_length,
                        flash_region_start: binary.binary_start,
                        flash_region_length: binary.binary_length,
                    },
                )
                &&& t.2.spec_imprint() == imprint
            },
            !spec_header_valid(binary.binary_start, binary_bytes@) ==> (r matches Err(e)
                && crate::binary::spec_parse_err(binary.binary_start, binary_bytes@, e)),
            spec_header_valid(binary.binary_start, binary_bytes@) && spec_regions_overlap(
                ram_region_start as int,
                ram_region_length as int,
                binary.binary_start as int,
                binary.binary_length as int,
            ) ==> (r matches Err(e) && e == TockOGError::RAMRegionAliasesFlash),
            spec_header_valid(binary.binary_start, binary_bytes@) && !spec_regions_overlap(
                ram_region_start as int,
                ram_region_length as int,
                binary.binary_start as int,
                binary.binary_length as int,
            ) ==> (r is Ok || (r matches Err(e) && e == TockOGError::MPUConfigError)),
    {
        let parsed = match binary.parse(binary_bytes) {
            Ok(p) => p,
            Err(e) => {
                return Err(e);
            },
        };

        // The RAM region is foreign-writable; it must not reach into the
        // binary's flash.
        if ram_region_length > 0 && binary.binary_length > 0 && ram_region_start
            < binary.binary_start + binary.binary_length && binary.binary_start < ram_region_start
            + ram_region_length {
            return Err(TockOGError::RAMRegionAliasesFlash);
        }

        // Ask the MPU driver for a configuration covering the binary, the
        // RAM region, and the embedder's additional regions.
        let mut mpu = mpu;
        if !mpu.new_config() {
            return Err(TockOGError::MPUConfigError);
        }
        if !mpu.allocate_region(
            binary.binary_start,
            binary.binary_length,
            MpuPermissions::ReadExecuteOnly,
        ) {
            return Err(TockOGError::MPUConfigError);
        }
        if !mpu.allocate_region(ram_region_start, ram_region_length, MpuPermissions::ReadWriteOnly)
        {
            return Err(TockOGError::MPUConfigError);
        }
        let mut i: usize = 0;
        while i < addl_mpu_regions.len()
            invariant
                spec_header_valid(binary.binary_start, binary_bytes@),
                !spec_regions_overlap(
                    ram_region_start as int,
                    ram_region_length as int,
                    binary.binary_start as int,
                    binary.binary_length as int,
                ),
            decreases addl_mpu_regions.len() - i,
        {
            let (start, size, permissions) = addl_mpu_regions[i];
            if !mpu.allocate_region(start, size, permissions) {
                return Err(TockOGError::MPUConfigError);
            }
            i = i + 1;
        }

        // The stack pointer starts at the top of the region; the foreign
        // init function later supplies the real top of stack below its
        // static data.
        let ram_region_end = ram_region_start + ram_region_length;

        let rt = TockRv32iCRt {
            asm_state: TockRv32iCRtAsmState {
                foreign_stack_ptr: ram_region_end,
                foreign_stack_bottom: ram_region_start,
                ram_region_start,
                ram_region_length,
                active_alloc_scope: 0,
            },
            binary,
            rthdr_addr: parsed.rthdr_addr,
            init_addr: parsed.init_addr,
            fntab_addr: parsed.fntab_addr,
            fntab_length: parsed.fntab_length,
            mpu,
            imprint,
        };

        let alloc_scope = AllocScope::new(
            TockRv32iCRtAllocChain::BaseAllocations(
                TockRv32iCRtAllocations {
                    ram_region_start,
                    ram_region_length,
                    flash_region_start: binary.binary_start,
                    flash_region_length: binary.binary_length,
                },
            ),
            imprint,
        );
        let access_scope = AccessScope::new(imprint);

        Ok((rt, alloc_scope, access_scope))
    }

    /// Consumes the result of the foreign init invocation.
    ///
    /// A fault, a nonzero first return register, or a returned top of
    /// stack outside the RAM region fails the construction; otherwise the
    /// returned value becomes the foreign stack pointer for all later
    /// invocations.
    pub fn init(&mut self, res: &TockRv32iCInvokeResInner) -> (r: Result<(), OGError>)
        requires
            old(self).wf(),
            res.error != TockRv32iCInvokeErr::NotCalled,
        ensures
            res.error matches TockRv32iCInvokeErr::Fault { cause, tval, pc } ==> (r == Err::<
                (),
                OGError,
            >(OGError::Fault { cause, tval, pc }) && *final(self) == *old(self)),
            res.error == TockRv32iCInvokeErr::NoError && res.a0 != 0 ==> (r == Err::<(), OGError>(
                OGError::BitPatternInvalid,
            ) && *final(self) == *old(self)),
            (res.error == TockRv32iCInvokeErr::NoError && res.a0 == 0 && !(
            old(self).asm_state.foreign_stack_bottom <= res.sp && res.sp
                <= old(self).asm_state.ram_region_start + old(self).asm_state.ram_region_length))
                ==> (r == Err::<(), OGError>(OGError::BitPatternInvalid) && *final(self) == *old(
                self,
            )),
            (res.error == TockRv32iCInvokeErr::NoError && res.a0 == 0 && old(
                self,
            ).asm_state.foreign_stack_bottom <= res.sp && res.sp
                <= old(self).asm_state.ram_region_start + old(self).asm_state.ram_region_length)
                ==> (r is Ok && *final(self) == (TockRv32iCRt {
                asm_state: TockRv32iCRtAsmState {
                    foreign_stack_ptr: res.sp,
                    ..old(self).asm_state
                },
                ..*old(self)
            }) && final(self).wf()),
    {
        match res.error {
            TockRv32iCInvokeErr::NotCalled => vstd::pervasive::unreached(),
            TockRv32iCInvokeErr::Fault { cause, tval, pc } => Err(
                OGError::Fault { cause, tval, pc },
            ),
            TockRv32iCInvokeErr::NoError => {
                if res.a0 != 0 {
                    // The foreign init reported an error of its own.
                    return Err(OGError::BitPatternInvalid);
                }
                // The returned top of stack must lie inside the region.
                if res.sp < self.asm_state.foreign_stack_bottom {
                    return Err(OGError::BitPatternInvalid);
                }
                let ram_end = self.asm_state.ram_region_start + self.asm_state.ram_region_length;
                if res.sp > ram_end {
                    return Err(OGError::BitPatternInvalid);
                }
                self.asm_state.foreign_stack_ptr = res.sp;
                Ok(())
            },
        }
    }

    /// Installs the MPU configuration, enables it, runs `f`, and disables
    /// it again.  `f` is expected to drive one or more foreign
    /// invocations through the protection-domain switch.
    pub fn execute_int_configure_mpu<R, F: FnOnce() -> R>(&mut self, f: F) -> (r: R)
        requires
            call_requires(f, ()),
        ensures
            call_ensures(f, (), r),
            final(self).asm_state == old(self).asm_state,
            final(self).binary == old(self).binary,
            final(self).rthdr_addr == old(self).rthdr_addr,
            final(self).init_addr == old(self).init_addr,
            final(self).fntab_addr == old(self).fntab_addr,
            final(self).fntab_length == old(self).fntab_length,
            final(self).imprint == old(self).imprint,
    {
        self.mpu.configure_mpu();
        self.mpu.enable_app_mpu();

        let res = f();

        self.mpu.disable_app_mpu();

        res
    }

    /// Runs `f` with memory protection enabled and this runtime's
    /// allocation scope installed as the active one, so that the trap
    /// handler can find the registered callback descriptors; the prior
    /// active scope is restored afterwards.
    ///
    /// `alloc_scope_addr` is the machine address at which the embedder
    /// placed `alloc_scope`; the verified state records it opaquely.
    pub fn execute<R, F: FnOnce() -> R>(
        &mut self,
        alloc_scope: &mut AllocScope<'_>,
        access_scope: &mut AccessScope,
        alloc_scope_addr: u32,
        f: F,
    ) -> (r: R)
        requires
            call_requires(f, ()),
            old(alloc_scope).spec_imprint() == old(self).imprint,
            old(access_scope).spec_imprint() == old(self).imprint,
        ensures
            call_ensures(f, (), r),
            final(self).asm_state == old(self).asm_state,
            final(self).binary == old(self).binary,
            final(self).rthdr_addr == old(self).rthdr_addr,
            final(self).init_addr == old(self).init_addr,
            final(self).fntab_addr == old(self).fntab_addr,
            final(self).fntab_length == old(self).fntab_length,
            final(self).imprint == old(self).imprint,
            *final(alloc_scope) == *old(alloc_scope),
            *final(access_scope) == *old(access_scope),
    {
        // Install this scope as the one the trap handler walks, run the
        // invocations, and restore the previous one, so that nested
        // `execute` calls (from inside a callback) compose.
        let prev_active_alloc_scope = self.asm_state.active_alloc_scope;
        self.asm_state.active_alloc_scope = alloc_scope_addr;

        let res = self.execute_int_configure_mpu(f);

        self.asm_state.active_alloc_scope = prev_active_alloc_scope;

        res
    }

    /// Runs a callback closure on behalf of suspended foreign code.
    ///
    /// Memory protection is switched off for exactly the closure's
    /// duration — the closure runs kernel code on the foreign code's
    /// behalf — and the return registers it produces are written into the
    /// trap context, from which the trampoline places them into the
    /// foreign code on resume.
    pub fn dispatch_callback<F: FnOnce(&TockRv32iCRtCallbackContext) -> TockRv32iCRtCallbackReturn>(
        &mut self,
        callback_ctx: &TockRv32iCRtCallbackContext,
        asm_ctx: &mut TockRv32iCRtCallbackAsmContext,
        f: F,
    )
        requires
            forall|c: &TockRv32iCRtCallbackContext|
                *c == *callback_ctx ==> call_requires(f, (c,)),
        ensures
            exists|c: &TockRv32iCRtCallbackContext, ret: TockRv32iCRtCallbackReturn|
                #[trigger] call_ensures(f, (c,), ret) && *c == *callback_ctx && *final(asm_ctx)
                    == (TockRv32iCRtCallbackAsmContext {
                    ret_a0: ret.ret_regs@[0],
                    ret_a1: ret.ret_regs@[1],
                    ..*old(asm_ctx)
                }),
            final(self).asm_state == old(self).asm_state,
            final(self).binary == old(self).binary,
            final(self).rthdr_addr == old(self).rthdr_addr,
            final(self).init_addr == old(self).init_addr,
            final(self).fntab_addr == old(self).fntab_addr,
            final(self).fntab_length == old(self).fntab_length,
            final(self).imprint == old(self).imprint,
    {
        self.mpu.disable_app_mpu();

        let ret = f(callback_ctx);
        apply_callback_return(&ret, asm_ctx);

        self.mpu.enable_app_mpu();
    }

    /// Checks that every index of a fixed-offset symbol table of the given
    /// length can be served by the binary's function table.
    pub fn resolve_symbols(&self, fixed_offset_symbol_table_len: u32) -> (r: Option<()>)
        ensures
            r is Some <==> fixed_offset_symbol_table_len <= self.fntab_length,
    {
        if fixed_offset_symbol_table_len > self.fntab_length {
            None
        } else {
            Some(())
        }
    }

    /// Reads entry `fixed_offset_symtab_index` of the binary's function
    /// table: the absolute address of the foreign function exported under
    /// that fixed index.  `binary_bytes` holds the binary's bytes.
    pub fn lookup_symbol(&self, binary_bytes: &[u8], fixed_offset_symtab_index: u32) -> (r: Option<
        u32,
    >)
        requires
            self.wf(),
            binary_bytes@.len() == self.binary.binary_length,
        ensures
            fixed_offset_symtab_index < self.fntab_length ==> r == Some(
                crate::tbf::spec_le32(
                    binary_bytes@,
                    self.fntab_addr - self.binary.binary_start + 4 * fixed_offset_symtab_index,
                ),
            ),
            fixed_offset_symtab_index >= self.fntab_length ==> r is None,
    {
        if fixed_offset_symtab_index < self.fntab_length {
            let off = (self.fntab_addr - self.binary.binary_start) as usize + 4
                * fixed_offset_symtab_index as usize;
            Some(u32_from_le_bytes(slice_subrange(binary_bytes, off, off + 4)))
        } else {
            None
        }
    }

    /// Runs `f` on a fresh stack allocation, handing it the trampoline
    /// state for nested allocations; the foreign stack pointer is restored
    /// when `f` returns.
    ///
    /// `f` is called, if at all, with exactly the committed trampoline
    /// state, whose stack pointer stands at the allocation's address.
    pub fn allocate_stacked_untracked_mut<R, F: FnOnce(&mut TockRv32iCRtAsmState, u32) -> R>(
        &mut self,
        size: u32,
        align: u32,
        f: F,
    ) -> (r: Result<R, OGError>)
        requires
            old(self).wf(),
            align >= 1,
            forall|st: &mut TockRv32iCRtAsmState, p: u32|
                (p == spec_alloc_ptr(
                    old(self).asm_state.foreign_stack_ptr as int,
                    size as int,
                    align as int,
                ) && *st == (TockRv32iCRtAsmState {
                    foreign_stack_ptr: p,
                    ..old(self).asm_state
                })) ==> call_requires(f, (st, p)),
        ensures
            final(self).asm_state.foreign_stack_ptr == old(self).asm_state.foreign_stack_ptr,
            r is Ok <==> spec_alloc_fits(
                old(self).asm_state.foreign_stack_ptr as int,
                old(self).asm_state.foreign_stack_bottom as int,
                size as int,
                align as int,
            ),
            r matches Ok(v) ==> alloc_closure_delivered(
                f,
                TockRv32iCRtAsmState {
                    foreign_stack_ptr: spec_alloc_ptr(
                        old(self).asm_state.foreign_stack_ptr as int,
                        size as int,
                        align as int,
                    ) as u32,
                    ..old(self).asm_state
                },
                spec_alloc_ptr(
                    old(self).asm_state.foreign_stack_ptr as int,
                    size as int,
                    align as int,
                ) as u32,
                v,
            ),
            r matches Err(e) ==> e == OGError::AllocNoMem && *final(self) == *old(self),
    {
        self.asm_state.allocate_stacked_untracked_mut(size, align, f)
    }

    /// Runs `f` on a fresh stack allocation, handing it the trampoline
    /// state and a new allocation scope nested inside `alloc_scope`; the
    /// foreign stack pointer is restored when `f` returns, and the nested
    /// scope ends with it.
    ///
    /// `f` is called, if at all, with exactly the committed trampoline
    /// state (stack pointer at the allocation's address) and a scope whose
    /// tracker is a pass-through node over `alloc_scope`'s tracker,
    /// carrying `alloc_scope`'s imprint.
    pub fn allocate_stacked_mut<
        't,
        R,
        F: FnOnce(&mut TockRv32iCRtAsmState, u32, &AllocScope<'t>) -> R,
    >(
        &mut self,
        size: u32,
        align: u32,
        alloc_scope: &'t AllocScope<'t>,
        f: F,
    ) -> (r: Result<R, OGError>)
        requires
            old(self).wf(),
            align >= 1,
            alloc_scope.spec_imprint() == old(self).imprint,
            forall|st: &mut TockRv32iCRtAsmState, p: u32, sc: &AllocScope<'t>|
                (p == spec_alloc_ptr(
                    old(self).asm_state.foreign_stack_ptr as int,
                    size as int,
                    align as int,
                ) && *st == (TockRv32iCRtAsmState { foreign_stack_ptr: p, ..old(self).asm_state })
                    && sc.spec_imprint() == alloc_scope.spec_imprint() && (sc.spec_tracker()
                    matches TockRv32iCRtAllocChain::Cons(pred) && *pred
                    == alloc_scope.spec_tracker())) ==> call_requires(f, (st, p, sc)),
        ensures
            final(self).asm_state.foreign_stack_ptr == old(self).asm_state.foreign_stack_ptr,
            r is Ok <==> spec_alloc_fits(
                old(self).asm_state.foreign_stack_ptr as int,
                old(self).asm_state.foreign_stack_bottom as int,
                size as int,
                align as int,
            ),
            r matches Ok(v) ==> scoped_closure_delivered(
                f,
                TockRv32iCRtAsmState {
                    foreign_stack_ptr: spec_alloc_ptr(
                        old(self).asm_state.foreign_stack_ptr as int,
                        size as int,
                        align as int,
                    ) as u32,
                    ..old(self).asm_state
                },
                spec_alloc_ptr(
                    old(self).asm_state.foreign_stack_ptr as int,
                    size as int,
                    align as int,
                ) as u32,
                alloc_scope.spec_tracker(),
                alloc_scope.spec_imprint(),
                v,
            ),
            r matches Err(e) ==> e == OGError::AllocNoMem && *final(self) == *old(self),
    {
        let saved_fsp = self.asm_state.foreign_stack_ptr;

        let p = match self.asm_state.alloc_frame(size, align) {
            Ok(p) => p,
            Err(e) => {
                return Err(e);
            },
        };

        // Record the nesting on the tracker chain; the nested scope cannot
        // outlive this call.
        let inner_alloc_scope = AllocScope::new(
            TockRv32iCRtAllocChain::Cons(alloc_scope.tracker()),
            alloc_scope.id_imprint(),
        );

        let ghost mid = self.asm_state;
        let res = f(&mut self.asm_state, p, &inner_alloc_scope);

        proof {
            assert(spec_alloc_ptr(
                old(self).asm_state.foreign_stack_ptr as int,
                size as int,
                align as int,
            ) as u32 == p);
            assert(scoped_closure_delivered(
                f,
                mid,
                p,
                alloc_scope.spec_tracker(),
                alloc_scope.spec_imprint(),
                res,
            ));
        }

        self.asm_state.release_frame(saved_fsp);

        Ok(res)
    }

    /// Registers a callback and runs `fun` with the address foreign code
    /// must call to reach it.
    ///
    /// A descriptor carrying the springboard word (an illegal
    /// instruction), its foreign-visible address, and the erased wrapper
    /// and context is stacked on `alloc_scope`; `fun` receives the
    /// springboard address to pass to foreign code, together with the
    /// nested scope.  When `fun` returns the descriptor ends with the
    /// nested scope, unregistering the callback.
    ///
    /// `fun` is called with exactly the registration scope: one whose
    /// tracker stacks the new descriptor on `alloc_scope`'s tracker and
    /// which carries `alloc_scope`'s imprint.
    pub fn setup_callback<'t, R, F: FnOnce(u32, &AllocScope<'t>) -> R>(
        &self,
        wrapper: u32,
        context: u32,
        springboard_addr: u32,
        alloc_scope: &'t AllocScope<'t>,
        fun: F,
    ) -> (r: Result<R, OGError>)
        requires
            alloc_scope.spec_imprint() == self.imprint,
            forall|sb: u32, sc: &AllocScope<'t>|
                (sb == springboard_addr && sc.spec_imprint() == alloc_scope.spec_imprint() && (
                sc.spec_tracker() matches TockRv32iCRtAllocChain::CallbackDescriptor(d, pred) && d
                    == (TockRv32iCCallbackDescriptor {
                    springboard: 0x00000000,
                    springboard_addr,
                    wrapper,
                    context,
                }) && *pred == alloc_scope.spec_tracker())) ==> call_requires(fun, (sb, sc)),
        ensures
            r is Ok,
            r matches Ok(v) ==> callback_closure_delivered(
                fun,
                springboard_addr,
                TockRv32iCCallbackDescriptor {
                    springboard: 0x00000000,
                    springboard_addr,
                    wrapper,
                    context,
                },
                alloc_scope.spec_tracker(),
                alloc_scope.spec_imprint(),
                v,
            ),
    {
        let inner_alloc_scope = AllocScope::new(
            TockRv32iCRtAllocChain::CallbackDescriptor(
                TockRv32iCCallbackDescriptor {
                    springboard: 0x00000000,
                    springboard_addr,
                    wrapper,
                    context,
                },
                alloc_scope.tracker(),
            ),
            alloc_scope.id_imprint(),
        );

        let res = fun(springboard_addr, &inner_alloc_scope);

        proof {
            assert(callback_closure_delivered(
                fun,
                springboard_addr,
                TockRv32iCCallbackDescriptor {
                    springboard: 0x00000000,
                    springboard_addr,
                    wrapper,
                    context,
                },
                alloc_scope.spec_tracker(),
                alloc_scope.spec_imprint(),
                res,
            ));
        }

        Ok(res)
    }
}

} // verus!


