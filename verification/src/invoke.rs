//! The invoke result slot and the classification and encoding of traps
//! raised while foreign code runs.
//!
//! A foreign invocation ends in a trap: a clean return (an environment
//! call, or an instruction access fault at the well-known return
//! springboard), a callback (a fault at the springboard word of a
//! registered descriptor), a transparently serviced interrupt, or a fault.
//! The decision between these, and the encoding of the outcome into the
//! invoke result, is plain computation on the saved trap state and is
//! verified here; the surrounding register save and restore is the
//! trampoline's.

use crate::tracker::{TockRv32iCCallbackDescriptor, TockRv32iCRtAllocChain};
use crate::OGError;
use vstd::bytes::{spec_u32_to_le_bytes, u32_to_le_bytes};
use vstd::prelude::*;

verus! {

/// Trap cause: instruction access fault.
pub const MCAUSE_INSTRUCTION_ACCESS_FAULT: u32 = 1;

/// Trap cause: illegal instruction.
pub const MCAUSE_ILLEGAL_INSTRUCTION: u32 = 2;

/// Trap cause: environment call from user mode.
pub const MCAUSE_ENV_CALL_UMODE: u32 = 8;

/// The two registers a callback hands back to the foreign code it
/// suspended.
#[derive(Copy, Clone, Debug, PartialEq, Eq, Structural)]
pub struct CallbackTrampolineFnReturn {
    /// First return register.
    pub reg0: u32,
    /// Second return register.
    pub reg1: u32,
}

/// The per-trap context the trampoline shares with the callback path: the
/// suspended foreign stack pointer, the address of the runtime's shared
/// state, and the two registers to place into the foreign code on resume.
#[derive(Copy, Clone, Debug, PartialEq, Eq, Structural)]
pub struct TockRv32iCRtCallbackAsmContext {
    /// Foreign stack pointer at the moment of the trap.
    pub foreign_stack_ptr: u32,
    /// Address of the runtime's shared state.
    pub runtime: u32,
    /// Value for the first foreign return register on resume.
    pub ret_a0: u32,
    /// Value for the second foreign return register on resume.
    pub ret_a1: u32,
}

/// The argument registers of the foreign code at the moment it entered a
/// callback springboard.
#[derive(Copy, Clone, Debug, PartialEq, Eq)]
pub struct TockRv32iCRtCallbackContext {
    /// The eight argument registers, in order.
    pub arg_regs: [u32; 8],
}

impl TockRv32iCRtCallbackContext {
    /// The value of argument register `reg`, if there is such a register.
    pub fn get_argument_register(&self, reg: usize) -> (r: Option<u32>)
        ensures
            reg < 8 ==> r == Some(self.arg_regs@[reg as int]),
            reg >= 8 ==> r is None,
    {
        if reg < 8 {
            Some(self.arg_regs[reg])
        } else {
            None
        }
    }
}

/// The return registers a callback closure fills in for the suspended
/// foreign code.
#[derive(Copy, Clone, Debug, PartialEq, Eq)]
pub struct TockRv32iCRtCallbackReturn {
    /// The two return registers, in order.
    pub ret_regs: [u32; 2],
}

impl TockRv32iCRtCallbackReturn {
    /// Sets return register `reg` to `value`; reports whether such a
    /// register exists.
    pub fn set_return_register(&mut self, reg: usize, value: u32) -> (r: bool)
        ensures
            reg < 2 ==> r && final(self).ret_regs@ == old(self).ret_regs@.update(
                reg as int,
                value,
            ),
            reg >= 2 ==> !r && *final(self) == *old(self),
    {
        if reg < 2 {
            self.ret_regs[reg] = value;
            true
        } else {
            false
        }
    }
}

/// Writes the registers a callback closure filled in into the trap
/// context, so that the trampoline places them into the foreign code when
/// it resumes.
pub fn apply_callback_return(
    ret: &TockRv32iCRtCallbackReturn,
    asm_ctx: &mut TockRv32iCRtCallbackAsmContext,
)
    ensures
        *final(asm_ctx) == (TockRv32iCRtCallbackAsmContext {
            ret_a0: ret.ret_regs@[0],
            ret_a1: ret.ret_regs@[1],
            ..*old(asm_ctx)
        }),
{
    asm_ctx.ret_a0 = ret.ret_regs[0];
    asm_ctx.ret_a1 = ret.ret_regs[1];
}

/// How a foreign invocation ended: not at all yet, cleanly, or in a fault
/// whose saved trap state is carried along.
#[derive(Copy, Clone, Debug, PartialEq, Eq, Structural)]
pub enum TockRv32iCInvokeErr {
    /// The result slot has not been written by an invocation.
    NotCalled,
    /// The foreign function returned cleanly.
    NoError,
    /// The foreign code terminated abnormally.
    Fault { cause: u32, tval: u32, pc: u32 },
}

/// The fixed-layout result slot the trap handler fills in before returning
/// to the kernel.
#[derive(Copy, Clone, Debug, PartialEq, Eq, Structural)]
pub struct TockRv32iCInvokeResInner {
    /// How the invocation ended.
    pub error: TockRv32iCInvokeErr,
    /// First return register of the foreign function.
    pub a0: u32,
    /// Second return register of the foreign function.
    pub a1: u32,
    /// Foreign stack pointer at the end of the invocation.
    pub sp: u32,
}

/// The result of one foreign invocation.
pub struct TockRv32iCInvokeRes {
    /// The slot the trap handler writes.
    pub inner: TockRv32iCInvokeResInner,
}

impl TockRv32iCInvokeRes {
    /// A fresh result slot: marked as not yet written, so that reading it
    /// without an invocation in between is rejected.
    pub fn new() -> (r: TockRv32iCInvokeRes)
        ensures
            r.inner == (TockRv32iCInvokeResInner {
                error: TockRv32iCInvokeErr::NotCalled,
                a0: 0,
                a1: 0,
                sp: 0,
            }),
    {
        TockRv32iCInvokeRes {
            inner: TockRv32iCInvokeResInner {
                error: TockRv32iCInvokeErr::NotCalled,
                a0: 0,
                a1: 0,
                sp: 0,
            },
        }
    }

    /// Turns the recorded outcome into a result: a clean return is `Ok`, a
    /// fault carries its saved trap state.  A slot that no invocation has
    /// written must not be consumed.
    pub fn encode_ogerror(&self) -> (r: Result<(), OGError>)
        requires
            self.inner.error != TockRv32iCInvokeErr::NotCalled,
        ensures
            self.inner.error == TockRv32iCInvokeErr::NoError ==> r is Ok,
            self.inner.error matches TockRv32iCInvokeErr::Fault { cause, tval, pc } ==> r
                == Err::<(), OGError>(OGError::Fault { cause, tval, pc }),
    {
        match self.inner.error {
            TockRv32iCInvokeErr::NotCalled => vstd::pervasive::unreached(),
            TockRv32iCInvokeErr::NoError => Ok(()),
            TockRv32iCInvokeErr::Fault { cause, tval, pc } => Err(
                OGError::Fault { cause, tval, pc },
            ),
        }
    }

    /// The return value of the invocation as it was encoded into the two
    /// return registers: the little-endian bytes of `a0` followed by those
    /// of `a1`.  A caller keeps the prefix matching its expected type's
    /// size.
    pub fn into_result_registers(self) -> (r: Result<Vec<u8>, OGError>)
        requires
            self.inner.error != TockRv32iCInvokeErr::NotCalled,
        ensures
            self.inner.error == TockRv32iCInvokeErr::NoError ==> (r matches Ok(v) && v@
                == spec_u32_to_le_bytes(self.inner.a0) + spec_u32_to_le_bytes(self.inner.a1)),
            self.inner.error matches TockRv32iCInvokeErr::Fault { cause, tval, pc } ==> r
                == Err::<Vec<u8>, OGError>(OGError::Fault { cause, tval, pc }),
    {
        match self.encode_ogerror() {
            Ok(()) => {},
            Err(e) => {
                return Err(e);
            },
        }

        let mut bytes = u32_to_le_bytes(self.inner.a0);
        let mut high = u32_to_le_bytes(self.inner.a1);
        bytes.append(&mut high);
        Ok(bytes)
    }

    /// The return value of the invocation as it was written to a stacked
    /// result slot, whose bytes the caller hands in.
    pub fn into_result_stacked(self, stacked: &[u8]) -> (r: Result<Vec<u8>, OGError>)
        requires
            self.inner.error != TockRv32iCInvokeErr::NotCalled,
        ensures
            self.inner.error == TockRv32iCInvokeErr::NoError ==> (r matches Ok(v) && v@
                == stacked@),
            self.inner.error matches TockRv32iCInvokeErr::Fault { cause, tval, pc } ==> r
                == Err::<Vec<u8>, OGError>(OGError::Fault { cause, tval, pc }),
    {
        match self.encode_ogerror() {
            Ok(()) => {},
            Err(e) => {
                return Err(e);
            },
        }

        Ok(vstd::slice::slice_to_vec(stacked))
    }
}

/// The trap ends the invocation cleanly: an environment call from user
/// mode, or an instruction access fault exactly at the return springboard
/// (foreign code cannot execute the springboard, which lies outside its
/// executable region, so returning to it faults there).
pub open spec fn spec_is_function_return(mcause: u32, mepc: u32, ret_springboard: u32) -> bool {
    ||| mcause == MCAUSE_ENV_CALL_UMODE
    ||| (mcause == MCAUSE_INSTRUCTION_ACCESS_FAULT && mepc == ret_springboard)
}

/// The trap is an interrupt: the high bit of its cause is set.
pub open spec fn spec_is_interrupt(mcause: u32) -> bool {
    mcause >= 0x8000_0000
}

/// The invoke result a trap with the given saved state encodes: the two
/// return registers and the foreign stack pointer, marked as a clean
/// return or as a fault carrying the trap state.
pub open spec fn spec_encode_return(
    a0: u32,
    a1: u32,
    fsp: u32,
    mcause: u32,
    mtval: u32,
    mepc: u32,
    ret_springboard: u32,
) -> TockRv32iCInvokeResInner {
    if spec_is_function_return(mcause, mepc, ret_springboard) {
        TockRv32iCInvokeResInner { error: TockRv32iCInvokeErr::NoError, a0, a1, sp: fsp }
    } else {
        TockRv32iCInvokeResInner {
            error: TockRv32iCInvokeErr::Fault { cause: mcause, tval: mtval, pc: mepc },
            a0,
            a1,
            sp: fsp,
        }
    }
}

/// Writes the outcome of a trap that ends an invocation into the invoke
/// result slot: a clean return records the return registers and the final
/// foreign stack pointer; anything else records a fault with the saved
/// trap state.
pub fn encode_return(
    a0: u32,
    a1: u32,
    invoke_res: &mut TockRv32iCInvokeResInner,
    fsp: u32,
    mcause: u32,
    mtval: u32,
    mepc: u32,
    ret_springboard: u32,
)
    ensures
        *final(invoke_res) == spec_encode_return(a0, a1, fsp, mcause, mtval, mepc, ret_springboard),
{
    let is_return = mcause == MCAUSE_ENV_CALL_UMODE || (mcause == MCAUSE_INSTRUCTION_ACCESS_FAULT
        && mepc == ret_springboard);
    if is_return {
        invoke_res.error = TockRv32iCInvokeErr::NoError;
    } else {
        invoke_res.error = TockRv32iCInvokeErr::Fault { cause: mcause, tval: mtval, pc: mepc };
    }
    invoke_res.a0 = a0;
    invoke_res.a1 = a1;
    invoke_res.sp = fsp;
}

/// Encoding an invocation's end is a function of the saved trap state
/// alone: two encodings of identical state are identical.
pub proof fn lemma_encode_return_deterministic(
    r1: TockRv32iCInvokeResInner,
    r2: TockRv32iCInvokeResInner,
    a0: u32,
    a1: u32,
    fsp: u32,
    mcause: u32,
    mtval: u32,
    mepc: u32,
    ret_springboard: u32,
)
    requires
        r1 == spec_encode_return(a0, a1, fsp, mcause, mtval, mepc, ret_springboard),
        r2 == spec_encode_return(a0, a1, fsp, mcause, mtval, mepc, ret_springboard),
    ensures
        r1 == r2,
{
}

/// The phase one foreign invocation is in.
#[derive(Copy, Clone, Debug, PartialEq, Eq, Structural)]
pub enum InvokeState {
    /// No invocation is in flight.
    Idle,
    /// The invoke stub has loaded its registers; the trampoline is about
    /// to enter the foreign domain.
    Prepared,
    /// Foreign code runs in its protection domain.
    Running,
    /// A callback closure runs on behalf of the suspended foreign code.
    InCallback,
    /// The trap handler encodes the invocation's end into the result slot.
    EncodeReturn,
}

/// An event that moves an invocation from one phase to the next.
#[derive(Copy, Clone, Debug, PartialEq, Eq, Structural)]
pub enum InvokeEvent {
    /// The kernel starts an invocation.
    Invoke,
    /// The trampoline executes its trap return into the foreign domain.
    EnterForeign,
    /// An interrupt arrives and is serviced transparently.
    Interrupt,
    /// Foreign code faults on a registered callback springboard.
    CallbackSpringboard,
    /// The callback closure returns and the foreign code resumes.
    ClosureReturn,
    /// Foreign code returns cleanly or faults.
    ReturnOrFault,
    /// The result slot has been written; control is back in the kernel.
    Encoded,
}

/// The phase an invocation moves to when `event` arrives in `state`, or
/// nothing when the event cannot occur there.
pub open spec fn spec_invoke_step(state: InvokeState, event: InvokeEvent) -> Option<InvokeState> {
    match (state, event) {
        (InvokeState::Idle, InvokeEvent::Invoke) => Some(InvokeState::Prepared),
        (InvokeState::Prepared, InvokeEvent::EnterForeign) => Some(InvokeState::Running),
        (InvokeState::Running, InvokeEvent::Interrupt) => Some(InvokeState::Running),
        (InvokeState::Running, InvokeEvent::CallbackSpringboard) => Some(InvokeState::InCallback),
        (InvokeState::InCallback, InvokeEvent::ClosureReturn) => Some(InvokeState::Running),
        (InvokeState::Running, InvokeEvent::ReturnOrFault) => Some(InvokeState::EncodeReturn),
        (InvokeState::EncodeReturn, InvokeEvent::Encoded) => Some(InvokeState::Idle),
        _ => None,
    }
}

/// Advances the invocation lifecycle by one event.
///
/// An invocation starts and ends in `Idle`; an interrupt leaves `Running`
/// in place; a callback suspends `Running` into `InCallback` and resumes
/// it; a return or fault passes through `EncodeReturn` back to `Idle`.
/// Events that cannot occur in the given phase yield nothing.
pub fn invoke_step(state: InvokeState, event: InvokeEvent) -> (r: Option<InvokeState>)
    ensures
        r == spec_invoke_step(state, event),
{
    match (state, event) {
        (InvokeState::Idle, InvokeEvent::Invoke) => Some(InvokeState::Prepared),
        (InvokeState::Prepared, InvokeEvent::EnterForeign) => Some(InvokeState::Running),
        (InvokeState::Running, InvokeEvent::Interrupt) => Some(InvokeState::Running),
        (InvokeState::Running, InvokeEvent::CallbackSpringboard) => Some(InvokeState::InCallback),
        (InvokeState::InCallback, InvokeEvent::ClosureReturn) => Some(InvokeState::Running),
        (InvokeState::Running, InvokeEvent::ReturnOrFault) => Some(InvokeState::EncodeReturn),
        (InvokeState::EncodeReturn, InvokeEvent::Encoded) => Some(InvokeState::Idle),
        _ => None,
    }
}

/// Only an `Invoke` event leaves `Idle`, and only an `Encoded` event
/// arrives there: the lifecycle begins and ends in `Idle`.
pub proof fn lemma_invoke_idle_boundary(state: InvokeState, event: InvokeEvent)
    ensures
        state == InvokeState::Idle && spec_invoke_step(state, event) is Some ==> event
            == InvokeEvent::Invoke,
        spec_invoke_step(state, event) == Some(InvokeState::Idle) ==> state
            == InvokeState::EncodeReturn && event == InvokeEvent::Encoded,
{
}

/// What the trap handler decides to do with a trap raised while foreign
/// code runs.
#[derive(Debug)]
pub enum TrapDecision<'a> {
    /// An interrupt: service it and resume the foreign code transparently.
    Interrupt,
    /// A clean function return: encode the result and return to the
    /// kernel.
    FunctionReturn,
    /// A callback: run the registered descriptor's closure and resume.
    Callback(&'a TockRv32iCCallbackDescriptor),
    /// Anything else: encode a fault and return to the kernel.
    Fault,
}

/// Decides what a trap raised in the foreign domain means: an interrupt is
/// serviced transparently; an environment call or a fault at the return
/// springboard is a clean return; an instruction access fault or illegal
/// instruction at the springboard word of a registered descriptor is a
/// callback, dispatched to the most recently registered matching
/// descriptor; any other trap is a fault.
pub fn classify_trap<'a>(
    mcause: u32,
    mepc: u32,
    ret_springboard: u32,
    chain: &'a TockRv32iCRtAllocChain<'a>,
) -> (r: TrapDecision<'a>)
    ensures
        spec_is_interrupt(mcause) ==> r is Interrupt,
        !spec_is_interrupt(mcause) && spec_is_function_return(mcause, mepc, ret_springboard) ==> r
            is FunctionReturn,
        (!spec_is_interrupt(mcause) && !spec_is_function_return(mcause, mepc, ret_springboard)
            && (mcause == MCAUSE_INSTRUCTION_ACCESS_FAULT || mcause == MCAUSE_ILLEGAL_INSTRUCTION))
            ==> (match chain.spec_find_descriptor(mepc) {
            Some(d) => r matches TrapDecision::Callback(dr) && *dr == d,
            None => r is Fault,
        }),
        (!spec_is_interrupt(mcause) && !spec_is_function_return(mcause, mepc, ret_springboard) && !(
        mcause == MCAUSE_INSTRUCTION_ACCESS_FAULT || mcause == MCAUSE_ILLEGAL_INSTRUCTION)) ==> r
            is Fault,
{
    if mcause >= 0x8000_0000 {
        return TrapDecision::Interrupt;
    }

    let ecall_function_return = mcause == MCAUSE_ENV_CALL_UMODE;
    let iaf_function_return = mcause == MCAUSE_INSTRUCTION_ACCESS_FAULT && mepc == ret_springboard;
    if ecall_function_return || iaf_function_return {
        return TrapDecision::FunctionReturn;
    }

    // Callbacks are triggered through an instruction access fault or an
    // illegal instruction at a registered springboard word.
    let callback_fault = mcause == MCAUSE_INSTRUCTION_ACCESS_FAULT || mcause
        == MCAUSE_ILLEGAL_INSTRUCTION;
    if !callback_fault {
        return TrapDecision::Fault;
    }

    match chain.find_callback_descriptor(mepc) {
        Some(desc) => TrapDecision::Callback(desc),
        None => TrapDecision::Fault,
    }
}

/// The lifecycle event a trap decision stands for: an interrupt resumes
/// the foreign code in place, a callback suspends it, and a clean return
/// or fault both end the invocation through the result encoding.
pub fn trap_decision_event(decision: &TrapDecision<'_>) -> (r: InvokeEvent)
    ensures
        decision is Interrupt ==> r == InvokeEvent::Interrupt,
        decision is Callback ==> r == InvokeEvent::CallbackSpringboard,
        decision is FunctionReturn || decision is Fault ==> r == InvokeEvent::ReturnOrFault,
{
    match decision {
        TrapDecision::Interrupt => InvokeEvent::Interrupt,
        TrapDecision::Callback(_) => InvokeEvent::CallbackSpringboard,
        TrapDecision::FunctionReturn => InvokeEvent::ReturnOrFault,
        TrapDecision::Fault => InvokeEvent::ReturnOrFault,
    }
}

} // verus!

