//! The allocation tracker: a borrow-stacked chain of nodes describing the
//! foreign RAM and flash regions and the currently registered callback
//! descriptors, against which raw foreign pointers are validated.

use vstd::prelude::*;

verus! {

/// The base regions a runtime validates foreign pointers against.
///
/// Addresses are plain machine addresses.  Both regions are half-open
/// intervals `[start, start + length)` that must fit in the address space.
#[derive(Copy, Clone, Debug)]
pub struct TockRv32iCRtAllocations {
    pub ram_region_start: u32,
    pub ram_region_length: u32,
    pub flash_region_start: u32,
    pub flash_region_length: u32,
}

impl TockRv32iCRtAllocations {
    /// Both regions lie inside the address space.
    pub open spec fn wf(&self) -> bool {
        &&& self.ram_region_start + self.ram_region_length <= u32::MAX
        &&& self.flash_region_start + self.flash_region_length <= u32::MAX
    }

    /// `[ptr, ptr + len)` lies inside the foreign RAM region.
    pub open spec fn spec_is_valid_mut(&self, ptr: int, len: int) -> bool {
        &&& self.ram_region_start <= ptr
        &&& ptr + len <= self.ram_region_start + self.ram_region_length
    }

    /// `[ptr, ptr + len)` lies inside the RAM region or the flash region.
    pub open spec fn spec_is_valid(&self, ptr: int, len: int) -> bool {
        ||| (self.flash_region_start <= ptr && ptr + len <= self.flash_region_start
            + self.flash_region_length)
        ||| self.spec_is_valid_mut(ptr, len)
    }

    /// Whether `[ptr, ptr + len)` may be read by foreign code: inside RAM or
    /// inside flash (flash holds read-only binary constants).  A range whose
    /// end overflows the address space is never valid.
    pub fn is_valid(&self, ptr: u32, len: u32) -> (r: bool)
        requires
            self.wf(),
        ensures
            r == self.spec_is_valid(ptr as int, len as int),
    {
        let is_valid_flash = ptr >= self.flash_region_start && (match ptr.checked_add(len) {
            Some(end) => end <= self.flash_region_start + self.flash_region_length,
            None => false,
        });

        is_valid_flash || self.is_valid_mut(ptr, len)
    }

    /// Whether `[ptr, ptr + len)` may be written by foreign code: inside the
    /// RAM region only.  A range whose end overflows is never valid.
    pub fn is_valid_mut(&self, ptr: u32, len: u32) -> (r: bool)
        requires
            self.wf(),
        ensures
            r == self.spec_is_valid_mut(ptr as int, len as int),
    {
        ptr >= self.ram_region_start && (match ptr.checked_add(len) {
            Some(end) => end <= self.ram_region_start + self.ram_region_length,
            None => false,
        })
    }
}

/// A registered callback: the springboard word (an illegal instruction), the
/// address at which that word is visible to foreign code, and the erased
/// wrapper function and closure context, carried as plain addresses.
#[derive(Copy, Clone, Debug)]
pub struct TockRv32iCCallbackDescriptor {
    /// Bit pattern of the springboard word: an illegal instruction, so that
    /// foreign code jumping to it traps.
    pub springboard: u32,
    /// The foreign-visible address of the springboard word.  A trap whose
    /// program counter equals this address is dispatched to this descriptor.
    pub springboard_addr: u32,
    /// Address of the C-ABI wrapper function that runs the closure.
    pub wrapper: u32,
    /// Address of the erased closure context handed to the wrapper.
    pub context: u32,
}

/// The allocation tracker chain.  Each node borrows its predecessor, so the
/// chain is a strict stack whose lifetime follows the program's call graph.
#[derive(Debug)]
pub enum TockRv32iCRtAllocChain<'a> {
    /// The root, carrying the foreign RAM and flash bounds.
    BaseAllocations(TockRv32iCRtAllocations),
    /// A node registering a callback descriptor.
    CallbackDescriptor(TockRv32iCCallbackDescriptor, &'a TockRv32iCRtAllocChain<'a>),
    /// A pass-through node recording allocation nesting.
    Cons(&'a TockRv32iCRtAllocChain<'a>),
}

impl<'a> TockRv32iCRtAllocChain<'a> {
    /// Number of nodes until the base.
    pub open spec fn depth(&self) -> nat
        decreases self,
    {
        match self {
            TockRv32iCRtAllocChain::BaseAllocations(_) => 0,
            TockRv32iCRtAllocChain::CallbackDescriptor(_, pred) => 1 + pred.depth(),
            TockRv32iCRtAllocChain::Cons(pred) => 1 + pred.depth(),
        }
    }

    /// The base regions at the root of the chain.
    pub open spec fn spec_base_allocations(&self) -> TockRv32iCRtAllocations
        decreases self,
    {
        match self {
            TockRv32iCRtAllocChain::BaseAllocations(base) => *base,
            TockRv32iCRtAllocChain::CallbackDescriptor(_, pred) => pred.spec_base_allocations(),
            TockRv32iCRtAllocChain::Cons(pred) => pred.spec_base_allocations(),
        }
    }

    /// All nodes up to the root have well-formed base regions.
    pub open spec fn wf(&self) -> bool {
        self.spec_base_allocations().wf()
    }

    /// Walks to the root of the chain and returns the base regions.
    pub fn get_base_allocations(&self) -> (r: &TockRv32iCRtAllocations)
        ensures
            *r == self.spec_base_allocations(),
    {
        let mut cur = self;
        loop
            invariant
                cur.spec_base_allocations() == self.spec_base_allocations(),
            decreases cur.depth(),
        {
            match cur {
                TockRv32iCRtAllocChain::BaseAllocations(base) => {
                    return base;
                },
                TockRv32iCRtAllocChain::CallbackDescriptor(_, pred) => {
                    cur = pred;
                },
                TockRv32iCRtAllocChain::Cons(pred) => {
                    cur = pred;
                },
            }
        }
    }

    /// The most recently registered callback descriptor whose springboard
    /// stands at address `mepc`, if any.
    pub open spec fn spec_find_descriptor(&self, mepc: u32) -> Option<TockRv32iCCallbackDescriptor>
        decreases self,
    {
        match self {
            TockRv32iCRtAllocChain::BaseAllocations(_) => None,
            TockRv32iCRtAllocChain::CallbackDescriptor(desc, pred) => if desc.springboard_addr
                == mepc {
                Some(*desc)
            } else {
                pred.spec_find_descriptor(mepc)
            },
            TockRv32iCRtAllocChain::Cons(pred) => pred.spec_find_descriptor(mepc),
        }
    }

    /// Walks the chain from its most recent node and returns the first
    /// callback descriptor whose springboard stands at address `mepc`.
    pub fn find_callback_descriptor(&self, mepc: u32) -> (r: Option<
        &TockRv32iCCallbackDescriptor,
    >)
        ensures
            match r {
                Some(d) => self.spec_find_descriptor(mepc) == Some(*d),
                None => self.spec_find_descriptor(mepc) is None,
            },
    {
        let mut cur = self;
        loop
            invariant
                cur.spec_find_descriptor(mepc) == self.spec_find_descriptor(mepc),
            decreases cur.depth(),
        {
            match cur {
                TockRv32iCRtAllocChain::BaseAllocations(_) => {
                    return None;
                },
                TockRv32iCRtAllocChain::CallbackDescriptor(desc, pred) => {
                    if desc.springboard_addr == mepc {
                        return Some(desc);
                    }
                    cur = pred;
                },
                TockRv32iCRtAllocChain::Cons(pred) => {
                    cur = pred;
                },
            }
        }
    }

    /// Pointer validity against the chain is validity against its base
    /// regions alone; descriptor and pass-through nodes contribute nothing.
    pub fn is_valid(&self, ptr: u32, len: u32) -> (r: bool)
        requires
            self.wf(),
        ensures
            r == self.spec_base_allocations().spec_is_valid(ptr as int, len as int),
    {
        self.get_base_allocations().is_valid(ptr, len)
    }

    /// Mutable pointer validity against the chain: the base RAM region only.
    pub fn is_valid_mut(&self, ptr: u32, len: u32) -> (r: bool)
        requires
            self.wf(),
        ensures
            r == self.spec_base_allocations().spec_is_valid_mut(ptr as int, len as int),
    {
        self.get_base_allocations().is_valid_mut(ptr, len)
    }
}

} // verus!
