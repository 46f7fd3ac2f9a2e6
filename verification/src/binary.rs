//! The foreign binary's self-describing header: location, validation and
//! parsing.
//!
//! A foreign binary starts with a five-word little-endian header: a magic
//! word, then byte offsets (relative to the binary start) of the runtime
//! header, the init function and the function table, and the function
//! table's length in pointer-sized entries.  `parse` validates the header
//! and turns the offsets into absolute addresses; `serialize_header` writes
//! a header back to bytes, and the round-trip between the two is proved.

use crate::TockOGError;
use vstd::bytes::{
    lemma_auto_spec_u32_to_from_le_bytes,
    spec_u32_from_le_bytes,
    spec_u32_to_le_bytes,
    u32_from_le_bytes,
    u32_to_le_bytes,
};
use vstd::prelude::*;
use vstd::slice::slice_subrange;

verus! {

/// Word offset of the magic word inside the header.
pub const OMNIGLOT_HEADER_MAGIC_WOFFSET: usize = 0;

/// Word offset of the runtime-header byte offset.
pub const OMNIGLOT_HEADER_RTHDR_PTR_WOFFSET: usize = 1;

/// Word offset of the init-function byte offset.
pub const OMNIGLOT_HEADER_INIT_PTR_WOFFSET: usize = 2;

/// Word offset of the function-table byte offset.
pub const OMNIGLOT_HEADER_FNTAB_PTR_WOFFSET: usize = 3;

/// Word offset of the function-table length.
pub const OMNIGLOT_HEADER_FNTAB_LEN_WOFFSET: usize = 4;

/// Length of the header in words.
pub const OMNIGLOT_HEADER_WLEN: usize = 5;

/// The magic word at the start of every foreign binary header.
pub const OMNIGLOT_HEADER_MAGIC: u32 = 0x454E4350;

/// Bytes per word and per function-table entry on the 32-bit target.
pub const WORD_BYTES: u32 = 4;

/// Length of the header in bytes.
pub const OMNIGLOT_HEADER_BYTES: u32 = 20;

/// A located foreign binary: its flash position and length, and the start
/// of the record it was found in, when it came out of a record scan.
///
/// Addresses are plain 32-bit machine addresses of the target.
#[derive(Copy, Clone, Debug, PartialEq, Eq)]
pub struct OmniglotBinary {
    /// Start of the flash record the binary was found in, if any.
    pub tbf_start: Option<u32>,
    /// Address of the first byte of the binary (and of its header).
    pub binary_start: u32,
    /// Length of the binary in bytes.
    pub binary_length: u32,
}

/// The validated contents of a foreign binary header, with all offsets
/// resolved to absolute addresses.
#[derive(Copy, Clone, Debug, PartialEq, Eq, Structural)]
pub struct OmniglotBinaryParsed {
    /// Address of the runtime header consumed by the foreign init function.
    pub rthdr_addr: u32,
    /// Address of the foreign init function.
    pub init_addr: u32,
    /// Address of the function table.
    pub fntab_addr: u32,
    /// Number of pointer-sized entries in the function table.
    pub fntab_length: u32,
}

/// The `w`-th little-endian word of the byte sequence `b`.
pub open spec fn spec_header_word(b: Seq<u8>, w: int) -> u32 {
    spec_u32_from_le_bytes(b.subrange(4 * w, 4 * w + 4))
}

/// The binary is long enough to hold the header.
pub open spec fn hdr_len_ok(b: Seq<u8>) -> bool {
    b.len() >= 20
}

/// ... and the binary start is word-aligned.
pub open spec fn hdr_start_ok(start: u32, b: Seq<u8>) -> bool {
    hdr_len_ok(b) && start as int % 4 == 0
}

/// ... and the magic word matches.
pub open spec fn hdr_magic_ok(start: u32, b: Seq<u8>) -> bool {
    hdr_start_ok(start, b) && spec_header_word(b, 0) == OMNIGLOT_HEADER_MAGIC
}

/// ... and the runtime header (one word at its offset) lies in the binary.
pub open spec fn hdr_rthdr_bounds_ok(start: u32, b: Seq<u8>) -> bool {
    hdr_magic_ok(start, b) && spec_header_word(b, 1) <= b.len() - 4
}

/// ... and the runtime header's address is word-aligned.
pub open spec fn hdr_rthdr_align_ok(start: u32, b: Seq<u8>) -> bool {
    hdr_rthdr_bounds_ok(start, b) && (start + spec_header_word(b, 1)) % 4 == 0
}

/// ... and the init function (one word at its offset) lies in the binary.
pub open spec fn hdr_init_bounds_ok(start: u32, b: Seq<u8>) -> bool {
    hdr_rthdr_align_ok(start, b) && spec_header_word(b, 2) <= b.len() - 4
}

/// ... and the init address is half-word-aligned (it may be a compressed
/// instruction).
pub open spec fn hdr_init_align_ok(start: u32, b: Seq<u8>) -> bool {
    hdr_init_bounds_ok(start, b) && (start + spec_header_word(b, 2)) % 2 == 0
}

/// ... and the function table's extent computes without overflowing the
/// 32-bit address space.
pub open spec fn hdr_fntab_no_overflow(start: u32, b: Seq<u8>) -> bool {
    hdr_init_align_ok(start, b) && 4 * spec_header_word(b, 4) <= u32::MAX && spec_header_word(b, 3)
        + 4 * spec_header_word(b, 4) <= u32::MAX
}

/// ... and the function table, plus one trailing word, lies in the binary.
pub open spec fn hdr_fntab_bounds_ok(start: u32, b: Seq<u8>) -> bool {
    hdr_fntab_no_overflow(start, b) && spec_header_word(b, 3) + 4 * spec_header_word(b, 4) <= b.len()
        - 4
}

/// All header checks pass: the function table's address is word-aligned too.
pub open spec fn spec_header_valid(start: u32, b: Seq<u8>) -> bool {
    hdr_fntab_bounds_ok(start, b) && (start + spec_header_word(b, 3)) % 4 == 0
}

/// The parsed header of a valid binary: each offset resolved against the
/// binary's start address.
pub open spec fn spec_parsed_header(start: u32, b: Seq<u8>) -> OmniglotBinaryParsed {
    OmniglotBinaryParsed {
        rthdr_addr: (start + spec_header_word(b, 1)) as u32,
        init_addr: (start + spec_header_word(b, 2)) as u32,
        fntab_addr: (start + spec_header_word(b, 3)) as u32,
        fntab_length: spec_header_word(b, 4),
    }
}

/// `x + y`, saturating at the top of the 32-bit address space.
pub open spec fn spec_sat_add(x: int, y: int) -> int {
    if x + y <= u32::MAX {
        x + y
    } else {
        u32::MAX as int
    }
}

/// The error `parse` yields for a binary at `start` whose bytes are `b`:
/// the first failed check, in the fixed order of the checks, decides the
/// error and its fields.
pub open spec fn spec_parse_err(start: u32, b: Seq<u8>, e: TockOGError) -> bool {
    if !hdr_len_ok(b) {
        e matches TockOGError::BinaryLengthInvalid { min_expected, actual, desc } && min_expected
            == 20 && actual == b.len() && desc@ == "Required space for the OG header"@
    } else if !hdr_start_ok(start, b) {
        e matches TockOGError::BinaryAlignError { expected, actual } && expected == 4 && actual
            == start as int % 4
    } else if !hdr_magic_ok(start, b) {
        e == TockOGError::BinaryMagicInvalid
    } else if !hdr_rthdr_bounds_ok(start, b) {
        e matches TockOGError::BinaryLengthInvalid { min_expected, actual, desc } && min_expected
            == spec_sat_add(spec_header_word(b, 1) as int, 4) && actual == b.len() && desc@
            == "Required space for the RT header (as indicated by rthdr_offset)"@
    } else if !hdr_rthdr_align_ok(start, b) {
        e matches TockOGError::BinaryAlignError { expected, actual } && expected == 4 && actual == (
        start + spec_header_word(b, 1)) % 4
    } else if !hdr_init_bounds_ok(start, b) {
        e matches TockOGError::BinaryLengthInvalid { min_expected, actual, desc } && min_expected
            == spec_sat_add(spec_header_word(b, 2) as int, 4) && actual == b.len() && desc@
            == "Required space for the init function (as indicated by init_offset)"@
    } else if !hdr_init_align_ok(start, b) {
        e matches TockOGError::BinaryAlignError { expected, actual } && expected == 2 && actual == (
        start + spec_header_word(b, 2)) % 2
    } else if !hdr_fntab_no_overflow(start, b) {
        e == TockOGError::BinarySizeOverflow
    } else if !hdr_fntab_bounds_ok(start, b) {
        e matches TockOGError::BinaryLengthInvalid { min_expected, actual, desc } && min_expected
            == spec_sat_add(spec_header_word(b, 3) + 4 * spec_header_word(b, 4), 4) && actual
            == b.len() && desc@
            == "Required space for the function table (as indicated by fntab_offset + fntab_len * word size)"@
    } else if !spec_header_valid(start, b) {
        e matches TockOGError::BinaryAlignError { expected, actual } && expected == 4 && actual == (
        start + spec_header_word(b, 3)) % 4
    } else {
        false
    }
}

/// The error of a failed parse is determined by the inputs: two errors
/// accepted for the same binary agree in kind, in every numeric field and
/// in their description text.
pub proof fn lemma_parse_err_deterministic(start: u32, b: Seq<u8>, e1: TockOGError, e2: TockOGError)
    requires
        spec_parse_err(start, b, e1),
        spec_parse_err(start, b, e2),
    ensures
        e1 matches TockOGError::BinaryLengthInvalid { min_expected: m1, actual: a1, desc: d1 }
            ==> (e2 matches TockOGError::BinaryLengthInvalid { min_expected: m2, actual: a2, desc: d2 }
            && m1 == m2 && a1 == a2 && d1@ == d2@),
        e1 matches TockOGError::BinaryAlignError { expected: x1, actual: y1 } ==> (e2 matches
            TockOGError::BinaryAlignError { expected: x2, actual: y2 } && x1 == x2 && y1 == y2),
        e1 == TockOGError::BinaryMagicInvalid ==> e2 == TockOGError::BinaryMagicInvalid,
        e1 == TockOGError::BinarySizeOverflow ==> e2 == TockOGError::BinarySizeOverflow,
{
}

/// A mutation that breaks the magic word of an otherwise readable header
/// is rejected as exactly `BinaryMagicInvalid`.
pub proof fn lemma_bad_magic_rejected(start: u32, b: Seq<u8>, e: TockOGError)
    requires
        hdr_start_ok(start, b),
        spec_header_word(b, 0) != OMNIGLOT_HEADER_MAGIC,
        spec_parse_err(start, b, e),
    ensures
        e == TockOGError::BinaryMagicInvalid,
{
}

/// The record at offset `off` of `flash` carries a disabled binary whose
/// package name is `svc_name`, and `b` describes that binary: it starts
/// right after the record's protected bytes and runs to the record's end.
pub open spec fn spec_record_match(
    svc_name: Seq<u8>,
    flash: Seq<u8>,
    flash_base: u32,
    off: int,
    b: OmniglotBinary,
) -> bool {
    let prefix = flash.subrange(off, off + 8);
    let hl = crate::tbf::spec_le16(prefix, 2) as int;
    let el = crate::tbf::spec_le32(prefix, 4) as int;
    let header = flash.subrange(off, off + hl);
    let prot = crate::tbf::spec_tbf_protected_total(header);
    &&& 0 <= off
    &&& off + 8 <= flash.len()
    &&& crate::tbf::spec_prefix_understood(prefix)
    &&& crate::tbf::spec_prefix_consistent(prefix)
    &&& off + el <= flash.len()
    &&& hl <= el
    &&& crate::tbf::spec_tbf_header_ok(header, 2)
    &&& !crate::tbf::spec_tbf_enabled(header)
    &&& crate::tbf::spec_tbf_package_name(header) == Some(svc_name)
    &&& prot <= el
    &&& b == (OmniglotBinary {
        tbf_start: Some((flash_base + off) as u32),
        binary_start: (flash_base + off + prot) as u32,
        binary_length: (el - prot) as u32,
    })
}

/// The binary the record scan yields when it starts at offset `off` of
/// `flash`: the first record from there whose header parses to a disabled
/// binary named `svc_name`.  The scan ends empty-handed at an unreadable
/// prefix, a zero-length record, a record poking past the end of flash, or
/// one whose lengths are inconsistent beyond use.
pub open spec fn spec_find_from(
    svc_name: Seq<u8>,
    flash: Seq<u8>,
    flash_base: u32,
    off: int,
) -> Option<OmniglotBinary>
    decreases flash.len() + 1 - off,
{
    if off + 8 > flash.len() {
        None
    } else {
        let prefix = flash.subrange(off, off + 8);
        if !crate::tbf::spec_prefix_understood(prefix) {
            None
        } else {
            let hl = if crate::tbf::spec_prefix_consistent(prefix) {
                crate::tbf::spec_le16(prefix, 2) as int
            } else {
                0
            };
            let el = crate::tbf::spec_le32(prefix, 4) as int;
            if el == 0 {
                None
            } else if off + el > flash.len() {
                None
            } else if hl > 0 {
                if hl > el {
                    None
                } else {
                    let header = flash.subrange(off, off + hl);
                    if crate::tbf::spec_tbf_header_ok(header, 2) && !crate::tbf::spec_tbf_enabled(
                        header,
                    ) && crate::tbf::spec_tbf_package_name(header) == Some(svc_name) {
                        let prot = crate::tbf::spec_tbf_protected_total(header);
                        if prot <= el {
                            Some(
                                OmniglotBinary {
                                    tbf_start: Some((flash_base + off) as u32),
                                    binary_start: (flash_base + off + prot) as u32,
                                    binary_length: (el - prot) as u32,
                                },
                            )
                        } else {
                            None
                        }
                    } else {
                        spec_find_from(svc_name, flash, flash_base, off + el)
                    }
                }
            } else {
                spec_find_from(svc_name, flash, flash_base, off + el)
            }
        }
    }
}

/// Whether two byte slices hold the same bytes.
fn bytes_eq(a: &[u8], b: &[u8]) -> (r: bool)
    ensures
        r == (a@ == b@),
{
    if a.len() != b.len() {
        proof {
            assert(a@.len() != b@.len());
        }
        return false;
    }
    let n = a.len();
    let mut i: usize = 0;
    while i < n
        invariant
            n == a@.len(),
            n == b@.len(),
            i <= n,
            forall|j: int| 0 <= j < i ==> a@[j] == b@[j],
        decreases n - i,
    {
        if a[i] != b[i] {
            proof {
                assert(a@[i as int] != b@[i as int]);
            }
            return false;
        }
        i = i + 1;
    }
    proof {
        assert(a@ =~= b@);
    }
    true
}

impl OmniglotBinary {
    /// Scans the concatenated flash records for the binary of a disabled
    /// record whose package name is `svc_name`.
    ///
    /// `app_flash` holds the records and `flash_base` is the machine
    /// address of its first byte, so that the result carries absolute
    /// addresses.  A record whose prefix is readable but inconsistent is
    /// skipped over; an unreadable prefix, a zero-length record or the end
    /// of flash ends the scan with `Err`.  On success the returned binary
    /// lies inside a record that parses to a disabled header carrying
    /// exactly `svc_name`.
    pub fn find(svc_name: &[u8], app_flash: &[u8], flash_base: u32) -> (r: Result<
        OmniglotBinary,
        (),
    >)
        requires
            flash_base + app_flash@.len() <= u32::MAX,
        ensures
            r matches Ok(b) ==> exists|off: int|
                spec_record_match(svc_name@, app_flash@, flash_base, off, b),
            match spec_find_from(svc_name@, app_flash@, flash_base, 0) {
                Some(b) => r == Ok::<OmniglotBinary, ()>(b),
                None => r == Err::<OmniglotBinary, ()>(()),
            },
    {
        let mut offset: usize = 0;

        loop
            invariant
                flash_base + app_flash@.len() <= u32::MAX,
                offset <= app_flash@.len(),
                spec_find_from(svc_name@, app_flash@, flash_base, 0) == spec_find_from(
                    svc_name@,
                    app_flash@,
                    flash_base,
                    offset as int,
                ),
            decreases app_flash@.len() - offset,
        {
            // The first eight bytes of what remains tell whether another
            // record follows at all.
            if app_flash.len() - offset < 8 {
                return Err(());
            }
            let prefix = slice_subrange(app_flash, offset, offset + 8);

            let (version, header_length, entry_length) = match crate::tbf::parse_tbf_header_lengths(
                prefix,
            ) {
                Ok((v, hl, el)) => (v, hl, el),
                Err(crate::tbf::InitialTbfParseError::InvalidHeader(el)) => {
                    // A readable but inconsistent record: skip over it and
                    // keep looking.
                    (0u16, 0u16, el)
                },
                Err(crate::tbf::InitialTbfParseError::UnableToParse) => {
                    // Records form a terminated list; an unreadable prefix
                    // marks its end.
                    return Err(());
                },
            };

            // A record of zero length could never make progress; end the
            // scan.
            if entry_length == 0 {
                return Err(());
            }
            let el = entry_length as usize;
            if el > app_flash.len() - offset {
                return Err(());
            }

            if header_length > 0 {
                let hl = header_length as usize;
                if hl > el {
                    return Err(());
                }
                let header_flash = slice_subrange(app_flash, offset, offset + hl);

                if let Ok(tbf_header) = crate::tbf::parse_tbf_header(header_flash, version) {
                    // An enabled record is an ordinary application, not a
                    // binary of this runtime.
                    if !tbf_header.enabled() {
                        let name_matches = match tbf_header.get_package_name() {
                            Some(name) => bytes_eq(name.as_slice(), svc_name),
                            None => false,
                        };
                        if name_matches {
                            let protected = tbf_header.get_protected_size();
                            if protected > entry_length {
                                // The record claims more protected bytes
                                // than it holds; it is unusable.
                                return Err(());
                            }
                            let found = OmniglotBinary {
                                tbf_start: Some(flash_base + offset as u32),
                                binary_start: flash_base + offset as u32 + protected,
                                binary_length: entry_length - protected,
                            };
                            proof {
                                assert(spec_record_match(
                                    svc_name@,
                                    app_flash@,
                                    flash_base,
                                    offset as int,
                                    found,
                                ));
                            }
                            return Ok(found);
                        }
                    }
                }
            }

            offset = offset + el;
        }
    }

    /// Validates the five-word header at the start of the binary and
    /// resolves its offsets into absolute addresses.
    ///
    /// `binary` holds the binary's bytes (at least the header's 20 bytes
    /// are read).  The checks run in a fixed order and the first failure is
    /// returned: binary length, binary alignment, magic, then bounds and
    /// alignment of the runtime header, the init function and the function
    /// table, with `BinarySizeOverflow` when the table's extent overflows
    /// the address space.
    pub fn parse(&self, binary: &[u8]) -> (r: Result<OmniglotBinaryParsed, TockOGError>)
        requires
            binary@.len() == self.binary_length,
            self.binary_start + self.binary_length <= u32::MAX,
        ensures
            r is Ok <==> spec_header_valid(self.binary_start, binary@),
            r matches Ok(p) ==> p == spec_parsed_header(self.binary_start, binary@),
            r matches Err(e) ==> spec_parse_err(self.binary_start, binary@, e),
    {
        let len = self.binary_length;

        // The binary must at least hold the header itself.
        if len < OMNIGLOT_HEADER_BYTES {
            return Err(
                TockOGError::BinaryLengthInvalid {
                    min_expected: OMNIGLOT_HEADER_BYTES,
                    actual: len,
                    desc: "Required space for the OG header",
                },
            );
        }

        // The header is read as whole words, so the binary must start on a
        // word boundary.
        if self.binary_start % WORD_BYTES != 0 {
            return Err(
                TockOGError::BinaryAlignError {
                    expected: WORD_BYTES,
                    actual: self.binary_start % WORD_BYTES,
                },
            );
        }

        let magic = u32_from_le_bytes(slice_subrange(binary, 0, 4));
        if magic != OMNIGLOT_HEADER_MAGIC {
            return Err(TockOGError::BinaryMagicInvalid);
        }

        // The runtime header pointer, with one trailing word, must lie
        // within the binary, at a word-aligned address.
        let rthdr_offset = u32_from_le_bytes(slice_subrange(binary, 4, 8));
        if rthdr_offset > len - WORD_BYTES {
            return Err(
                TockOGError::BinaryLengthInvalid {
                    min_expected: sat_add(rthdr_offset, WORD_BYTES),
                    actual: len,
                    desc: "Required space for the RT header (as indicated by rthdr_offset)",
                },
            );
        }
        let rthdr_addr = self.binary_start + rthdr_offset;
        if rthdr_addr % WORD_BYTES != 0 {
            return Err(
                TockOGError::BinaryAlignError {
                    expected: WORD_BYTES,
                    actual: rthdr_addr % WORD_BYTES,
                },
            );
        }

        // The init function pointer must lie within the binary too.  Its
        // address may land on a half-word boundary: the function may start
        // with a compressed instruction.
        let init_offset = u32_from_le_bytes(slice_subrange(binary, 8, 12));
        if init_offset > len - WORD_BYTES {
            return Err(
                TockOGError::BinaryLengthInvalid {
                    min_expected: sat_add(init_offset, WORD_BYTES),
                    actual: len,
                    desc: "Required space for the init function (as indicated by init_offset)",
                },
            );
        }
        let init_addr = self.binary_start + init_offset;
        if init_addr % 2 != 0 {
            return Err(TockOGError::BinaryAlignError { expected: 2, actual: init_addr % 2 });
        }

        // The function table, with one trailing word, must lie within the
        // binary, and its extent must not overflow the address space.
        let fntab_offset = u32_from_le_bytes(slice_subrange(binary, 12, 16));
        let fntab_length = u32_from_le_bytes(slice_subrange(binary, 16, 20));
        let fntab_bytes = match fntab_length.checked_mul(WORD_BYTES) {
            Some(x) => x,
            None => {
                return Err(TockOGError::BinarySizeOverflow);
            },
        };
        let fntab_end = match fntab_offset.checked_add(fntab_bytes) {
            Some(x) => x,
            None => {
                return Err(TockOGError::BinarySizeOverflow);
            },
        };
        if fntab_end > len - WORD_BYTES {
            return Err(
                TockOGError::BinaryLengthInvalid {
                    min_expected: sat_add(fntab_end, WORD_BYTES),
                    actual: len,
                    desc: "Required space for the function table (as indicated by fntab_offset + fntab_len * word size)",
                },
            );
        }
        let fntab_addr = self.binary_start + fntab_offset;
        if fntab_addr % WORD_BYTES != 0 {
            return Err(
                TockOGError::BinaryAlignError {
                    expected: WORD_BYTES,
                    actual: fntab_addr % WORD_BYTES,
                },
            );
        }

        Ok(OmniglotBinaryParsed { rthdr_addr, init_addr, fntab_addr, fntab_length })
    }
}

/// The bytes of a header whose offsets resolve, against the binary start
/// `start`, to the addresses in `p`.
pub open spec fn spec_serialize_header(start: u32, p: OmniglotBinaryParsed) -> Seq<u8> {
    spec_u32_to_le_bytes(OMNIGLOT_HEADER_MAGIC) + spec_u32_to_le_bytes(
        (p.rthdr_addr - start) as u32,
    ) + spec_u32_to_le_bytes((p.init_addr - start) as u32) + spec_u32_to_le_bytes(
        (p.fntab_addr - start) as u32,
    ) + spec_u32_to_le_bytes(p.fntab_length)
}

/// Writes the header that `parse` would resolve to `p` for a binary that
/// starts at address `start`.
pub fn serialize_header(start: u32, p: &OmniglotBinaryParsed) -> (r: Vec<u8>)
    requires
        start <= p.rthdr_addr,
        start <= p.init_addr,
        start <= p.fntab_addr,
    ensures
        r@ == spec_serialize_header(start, *p),
        r@.len() == 20,
{
    proof {
        vstd::bytes::lemma_auto_spec_u32_to_from_le_bytes();
    }
    let mut r = u32_to_le_bytes(OMNIGLOT_HEADER_MAGIC);
    let mut w1 = u32_to_le_bytes(p.rthdr_addr - start);
    let mut w2 = u32_to_le_bytes(p.init_addr - start);
    let mut w3 = u32_to_le_bytes(p.fntab_addr - start);
    let mut w4 = u32_to_le_bytes(p.fntab_length);
    r.append(&mut w1);
    r.append(&mut w2);
    r.append(&mut w3);
    r.append(&mut w4);
    r
}

/// Round trip: a serialized header, followed by arbitrary binary contents,
/// parses back to exactly the addresses it was written from, provided the
/// addresses obey the alignment rules of the format and the structures they
/// point to fit inside the binary.
pub proof fn lemma_header_round_trip(start: u32, p: OmniglotBinaryParsed, rest: Seq<u8>)
    requires
        start % 4 == 0,
        start <= p.rthdr_addr,
        p.rthdr_addr % 4 == 0,
        start <= p.init_addr,
        p.init_addr % 2 == 0,
        start <= p.fntab_addr,
        p.fntab_addr % 4 == 0,
        20 + rest.len() <= u32::MAX,
        p.rthdr_addr - start <= 20 + rest.len() - 4,
        p.init_addr - start <= 20 + rest.len() - 4,
        (p.fntab_addr - start) + 4 * p.fntab_length <= 20 + rest.len() - 4,
    ensures
        spec_header_valid(start, spec_serialize_header(start, p) + rest),
        spec_parsed_header(start, spec_serialize_header(start, p) + rest) == p,
{
    lemma_auto_spec_u32_to_from_le_bytes();
    let s = spec_serialize_header(start, p);
    let b = s + rest;
    let m = spec_u32_to_le_bytes(OMNIGLOT_HEADER_MAGIC);
    let w1 = spec_u32_to_le_bytes((p.rthdr_addr - start) as u32);
    let w2 = spec_u32_to_le_bytes((p.init_addr - start) as u32);
    let w3 = spec_u32_to_le_bytes((p.fntab_addr - start) as u32);
    let w4 = spec_u32_to_le_bytes(p.fntab_length);
    assert(b.subrange(0, 4) =~= m);
    assert(b.subrange(4, 8) =~= w1);
    assert(b.subrange(8, 12) =~= w2);
    assert(b.subrange(12, 16) =~= w3);
    assert(b.subrange(16, 20) =~= w4);
    assert(spec_header_word(b, 0) == OMNIGLOT_HEADER_MAGIC);
    assert(spec_header_word(b, 1) == (p.rthdr_addr - start) as u32);
    assert(spec_header_word(b, 2) == (p.init_addr - start) as u32);
    assert(spec_header_word(b, 3) == (p.fntab_addr - start) as u32);
    assert(spec_header_word(b, 4) == p.fntab_length);
}

/// `x + y`, saturating at the top of the 32-bit address space.
fn sat_add(x: u32, y: u32) -> (r: u32)
    ensures
        r == spec_sat_add(x as int, y as int),
{
    if x <= u32::MAX - y {
        x + y
    } else {
        u32::MAX
    }
}

} // verus!
