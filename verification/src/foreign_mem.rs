//! Capability-checked references into foreign memory.
//!
//! A reference into the foreign region is created from a raw address only
//! through an allocation scope, which proves the bytes lie inside a valid
//! interval; every read or write through it takes the runtime's access
//! scope, and the imprints of the reference and the scope must match, so
//! that references and scopes of two runtimes cannot be combined.
//!
//! Foreign memory itself is handed to the accessors as a byte vector
//! together with the machine address of its first byte.

use crate::scopes::{AccessScope, AllocScope};
use crate::OGError;
use vstd::prelude::*;

verus! {

/// An unvalidated mutable reference to `len` bytes of foreign memory at
/// address `addr`, branded with the imprint of the runtime that issued it.
#[derive(Copy, Clone, Debug)]
pub struct UnvalidatedMutRef {
    addr: u32,
    len: u32,
    imprint: usize,
}

impl UnvalidatedMutRef {
    /// The referenced address.
    pub closed spec fn spec_addr(&self) -> u32 {
        self.addr
    }

    /// The referenced length in bytes.
    pub closed spec fn spec_len(&self) -> u32 {
        self.len
    }

    /// The imprint of the runtime that issued this reference.
    pub closed spec fn spec_imprint(&self) -> usize {
        self.imprint
    }

    /// The referenced address.
    pub fn addr(&self) -> (r: u32)
        ensures
            r == self.spec_addr(),
    {
        self.addr
    }

    /// The referenced length in bytes.
    pub fn len(&self) -> (r: u32)
        ensures
            r == self.spec_len(),
    {
        self.len
    }

    /// Turns a raw foreign address into a reference, when the allocation
    /// scope's tracker shows the bytes to be writable foreign memory.  The
    /// reference carries the scope's imprint.
    pub fn upgrade_from_ptr<'a>(addr: u32, len: u32, alloc_scope: &AllocScope<'a>) -> (r: Option<
        UnvalidatedMutRef,
    >)
        requires
            alloc_scope.spec_tracker().wf(),
        ensures
            r is Some <==> alloc_scope.spec_tracker().spec_base_allocations().spec_is_valid_mut(
                addr as int,
                len as int,
            ),
            r matches Some(m) ==> m.spec_addr() == addr && m.spec_len() == len && m.spec_imprint()
                == alloc_scope.spec_imprint(),
    {
        if alloc_scope.tracker().is_valid_mut(addr, len) {
            Some(UnvalidatedMutRef { addr, len, imprint: alloc_scope.id_imprint() })
        } else {
            None
        }
    }

    /// Projects a field out of the referenced bytes: a reference to `len`
    /// bytes at `offset` inside this reference, carrying the same imprint.
    /// Validity of the whole reference covers every subrange of it, so no
    /// check against the tracker is needed.
    pub fn project(&self, offset: u32, len: u32) -> (r: UnvalidatedMutRef)
        requires
            offset + len <= self.spec_len(),
            self.spec_addr() + self.spec_len() <= u32::MAX,
        ensures
            r.spec_addr() == self.spec_addr() + offset,
            r.spec_len() == len,
            r.spec_imprint() == self.spec_imprint(),
    {
        UnvalidatedMutRef { addr: self.addr + offset, len, imprint: self.imprint }
    }

    /// Validates the referenced byte as a boolean.  The bit patterns 0 and
    /// 1 are the legal ones; anything else is rejected as
    /// `BitPatternInvalid` and the memory stays untouched.
    pub fn validate_bool(&self, access_scope: &AccessScope, ram: &Vec<u8>, ram_base: u32) -> (r:
        Result<bool, OGError>)
        requires
            self.spec_len() == 1,
            ram_base <= self.spec_addr(),
            self.spec_addr() - ram_base + 1 <= ram@.len(),
        ensures
            self.spec_imprint() != access_scope.spec_imprint() ==> r == Err::<bool, OGError>(
                OGError::IDMismatch,
            ),
            self.spec_imprint() == access_scope.spec_imprint() ==> {
                let byte = ram@[self.spec_addr() - ram_base];
                &&& byte == 0 ==> r == Ok::<bool, OGError>(false)
                &&& byte == 1 ==> r == Ok::<bool, OGError>(true)
                &&& byte >= 2 ==> r == Err::<bool, OGError>(OGError::BitPatternInvalid)
            },
    {
        if self.imprint != access_scope.id_imprint() {
            return Err(OGError::IDMismatch);
        }
        let byte = ram[(self.addr - ram_base) as usize];
        match byte {
            0 => Ok(false),
            1 => Ok(true),
            _ => Err(OGError::BitPatternInvalid),
        }
    }

    /// Validates the referenced bytes as an unsigned 32-bit integer.  Every
    /// bit pattern is a legal integer, so the check itself cannot fail;
    /// only a scope of the wrong imprint is rejected.
    pub fn validate_u32(&self, access_scope: &AccessScope, ram: &Vec<u8>, ram_base: u32) -> (r:
        Result<u32, OGError>)
        requires
            self.spec_len() == 4,
            ram_base <= self.spec_addr(),
            self.spec_addr() - ram_base + 4 <= ram@.len(),
        ensures
            self.spec_imprint() != access_scope.spec_imprint() ==> r == Err::<u32, OGError>(
                OGError::IDMismatch,
            ),
            self.spec_imprint() == access_scope.spec_imprint() ==> r == Ok::<u32, OGError>(
                crate::tbf::spec_le32(ram@, self.spec_addr() - ram_base),
            ),
    {
        if self.imprint != access_scope.id_imprint() {
            return Err(OGError::IDMismatch);
        }
        let off = (self.addr - ram_base) as usize;
        let ram_len = ram.len();
        proof {
            assert(off + 4 <= ram_len);
        }
        Ok(
            vstd::bytes::u32_from_le_bytes(
                vstd::slice::slice_subrange(ram.as_slice(), off, off + 4),
            ),
        )
    }

    /// Copies `val` into the referenced bytes of `ram`, whose first byte
    /// stands at machine address `ram_base`.  The access scope's imprint
    /// must match the reference's; a mismatch is rejected and the memory
    /// is untouched.
    pub fn write(
        &self,
        access_scope: &mut AccessScope,
        ram: &mut Vec<u8>,
        ram_base: u32,
        val: &[u8],
    ) -> (r: Result<(), OGError>)
        requires
            val@.len() == self.spec_len(),
            ram_base <= self.spec_addr(),
            self.spec_addr() - ram_base + self.spec_len() <= old(ram)@.len(),
        ensures
            *final(access_scope) == *old(access_scope),
            self.spec_imprint() != old(access_scope).spec_imprint() ==> (r == Err::<(), OGError>(
                OGError::IDMismatch,
            ) && final(ram)@ == old(ram)@),
            self.spec_imprint() == old(access_scope).spec_imprint() ==> r is Ok && ({
                let off = self.spec_addr() - ram_base;
                final(ram)@ == old(ram)@.subrange(0, off) + val@ + old(ram)@.subrange(
                    off + self.spec_len(),
                    old(ram)@.len() as int,
                )
            }),
    {
        if self.imprint != access_scope.id_imprint() {
            return Err(OGError::IDMismatch);
        }

        let off = (self.addr - ram_base) as usize;
        let n = self.len as usize;
        let ram_len = ram.len();
        let mut i: usize = 0;
        while i < n
            invariant
                n == val@.len(),
                off + n <= ram_len,
                ram_len == ram@.len(),
                ram@.len() == old(ram)@.len(),
                i <= n,
                forall|j: int| 0 <= j < i ==> ram@[off + j] == #[trigger] val@[j],
                forall|j: int| 0 <= j < off ==> ram@[j] == old(ram)@[j],
                forall|j: int| off + n <= j < ram@.len() ==> ram@[j] == old(ram)@[j],
                forall|j: int| i <= j < n ==> #[trigger] ram@[off + j] == old(ram)@[off + j],
            decreases n - i,
        {
            ram[off + i] = val[i];
            i = i + 1;
        }

        proof {
            let offi = self.spec_addr() - ram_base;
            assert(final(ram)@ =~= old(ram)@.subrange(0, offi) + val@ + old(ram)@.subrange(
                offi + self.spec_len(),
                old(ram)@.len() as int,
            ));
        }

        Ok(())
    }

    /// Reads the referenced bytes out of `ram`, whose first byte stands at
    /// machine address `ram_base`.  The access scope's imprint must match
    /// the reference's; a mismatch is rejected.
    pub fn read(&self, access_scope: &AccessScope, ram: &Vec<u8>, ram_base: u32) -> (r: Result<
        Vec<u8>,
        OGError,
    >)
        requires
            ram_base <= self.spec_addr(),
            self.spec_addr() - ram_base + self.spec_len() <= ram@.len(),
        ensures
            self.spec_imprint() != access_scope.spec_imprint() ==> r == Err::<Vec<u8>, OGError>(
                OGError::IDMismatch,
            ),
            self.spec_imprint() == access_scope.spec_imprint() ==> (r matches Ok(v) && ({
                let off = self.spec_addr() - ram_base;
                v@ == ram@.subrange(off, off + self.spec_len())
            })),
    {
        if self.imprint != access_scope.id_imprint() {
            return Err(OGError::IDMismatch);
        }

        let off = (self.addr - ram_base) as usize;
        let n = self.len as usize;
        let ram_len = ram.len();
        let mut out: Vec<u8> = Vec::new();
        let mut i: usize = 0;
        while i < n
            invariant
                off + n <= ram_len,
                ram_len == ram@.len(),
                i <= n,
                out@.len() == i,
                forall|j: int| 0 <= j < i ==> out@[j] == ram@[off + j],
            decreases n - i,
        {
            out.push(ram[off + i]);
            i = i + 1;
        }

        proof {
            let offi = self.spec_addr() - ram_base;
            assert(out@ =~= ram@.subrange(offi, offi + self.spec_len()));
        }

        Ok(out)
    }
}

} // verus!
