//! The flash record format that carries application binaries: records are
//! concatenated in flash, each preceded by an 8-byte prefix giving its
//! version, header length and total length, followed by a checksummed
//! header of tag-length-value elements that names the binary and describes
//! the flash space reserved in front of it.

use vstd::bytes::{spec_u16_from_le_bytes, spec_u32_from_le_bytes, u16_from_le_bytes, u32_from_le_bytes};
use vstd::prelude::*;
use vstd::slice::slice_subrange;

verus! {

/// Size in bytes of a record's base header.
pub const TBF_BASE_HEADER_BYTES: u16 = 16;

/// Element tag carrying the main program description.
pub const TBF_TLV_MAIN: u16 = 1;

/// Element tag carrying the package name.
pub const TBF_TLV_PACKAGE_NAME: u16 = 3;

/// Element tag carrying the program description with a binary end offset.
pub const TBF_TLV_PROGRAM: u16 = 9;

/// Failure of the 8-byte record prefix check.
#[derive(Copy, Clone, Debug, PartialEq, Eq, Structural)]
pub enum InitialTbfParseError {
    /// The prefix describes a record, but its lengths are inconsistent; the
    /// carried total length allows the scan to skip the record.
    InvalidHeader(u32),
    /// The prefix does not describe a record at all.
    UnableToParse,
}

/// Failure of the full record header check.
#[derive(Copy, Clone, Debug, PartialEq, Eq, Structural)]
pub enum TbfParseError {
    /// The slice is shorter than the header it should hold.
    NotEnoughFlash,
    /// The record's version is not understood.
    UnsupportedVersion(u16),
    /// The checksum stored in the header does not match the computed one.
    ChecksumMismatch(u32, u32),
    /// A tag-length-value element is malformed.
    BadTlvEntry(u32),
}

/// The fields of a validated record header that the scan reads.
#[derive(Debug, PartialEq, Eq)]
pub struct TbfHeader {
    /// Record format version.
    pub version: u16,
    /// Length of the header in bytes.
    pub header_size: u16,
    /// Length of the whole record in bytes.
    pub total_size: u32,
    /// Header flags; bit 0 is the `enabled` flag.
    pub flags: u32,
    /// Bytes reserved in front of the binary, counted from the record
    /// start: the header itself plus the protected region after it.
    pub protected_size: u32,
    /// The package name carried by the header, as raw bytes.
    pub package_name: Option<Vec<u8>>,
}

/// The little-endian half-word of `b` at byte offset `i`.
pub open spec fn spec_le16(b: Seq<u8>, i: int) -> u16 {
    spec_u16_from_le_bytes(b.subrange(i, i + 2))
}

/// The little-endian word of `b` at byte offset `i`.
pub open spec fn spec_le32(b: Seq<u8>, i: int) -> u32 {
    spec_u32_from_le_bytes(b.subrange(i, i + 4))
}

/// The little-endian word of `b` at byte offset `i`, reading zero for any
/// byte at or past `end`.
pub open spec fn spec_word_padded(b: Seq<u8>, i: int, end: int) -> u32 {
    let b0 = if i < end { b[i] } else { 0 };
    let b1 = if i + 1 < end { b[i + 1] } else { 0 };
    let b2 = if i + 2 < end { b[i + 2] } else { 0 };
    let b3 = if i + 3 < end { b[i + 3] } else { 0 };
    (b0 as u32) | (b1 as u32) << 8 | (b2 as u32) << 16 | (b3 as u32) << 24
}

/// Exclusive or of the zero-padded words of `b` from `i` up to `end`.
pub open spec fn spec_xor_words(b: Seq<u8>, i: int, end: int) -> u32
    decreases end + 4 - i,
{
    if i >= end {
        0
    } else {
        spec_word_padded(b, i, end) ^ spec_xor_words(b, i + 4, end)
    }
}

/// The checksum of a record header of `hs` bytes: the exclusive or of all
/// its words, with the checksum word itself read as zero.
pub open spec fn spec_tbf_checksum(b: Seq<u8>, hs: int) -> u32 {
    spec_xor_words(b, 0, 12) ^ spec_xor_words(b, 16, hs)
}

/// The number of padding bytes after a tag-length-value element of length
/// `l`, aligning the next element to a word boundary.
pub open spec fn spec_tlv_pad(l: int) -> int {
    (4 - l % 4) % 4
}

/// Offset and length of the payload of the first element with tag `ty`,
/// walking the elements of `b` from offset `pos` up to `end`.
pub open spec fn spec_tlv_find(b: Seq<u8>, pos: int, end: int, ty: u16) -> Option<(int, int)>
    decreases end + 8 - pos,
{
    if pos + 4 > end {
        None
    } else {
        let t = spec_le16(b, pos);
        let l = spec_le16(b, pos + 2) as int;
        if pos + 4 + l > end {
            None
        } else if t == ty {
            Some((pos + 4, l))
        } else {
            spec_tlv_find(b, pos + 4 + l + spec_tlv_pad(l), end, ty)
        }
    }
}

/// The record prefix is understood: its version is 2.
pub open spec fn spec_prefix_understood(b: Seq<u8>) -> bool {
    spec_le16(b, 0) == 2
}

/// The record prefix is consistent: the header fits the base header and
/// the record fits the header.
pub open spec fn spec_prefix_consistent(b: Seq<u8>) -> bool {
    &&& spec_le16(b, 2) >= TBF_BASE_HEADER_BYTES
    &&& spec_le32(b, 4) >= spec_le16(b, 2)
}

/// Reads the 8-byte record prefix: version, header length and record
/// length.  A prefix of an unknown version cannot be read at all; one of a
/// known version with inconsistent lengths yields `InvalidHeader` carrying
/// the record length, so that the scan can skip the record.
pub fn parse_tbf_header_lengths(b: &[u8]) -> (r: Result<(u16, u16, u32), InitialTbfParseError>)
    requires
        b@.len() == 8,
    ensures
        r is Ok <==> spec_prefix_understood(b@) && spec_prefix_consistent(b@),
        r matches Ok(v) ==> v == (spec_le16(b@, 0), spec_le16(b@, 2), spec_le32(b@, 4)),
        !spec_prefix_understood(b@) ==> r matches Err(InitialTbfParseError::UnableToParse),
        spec_prefix_understood(b@) && !spec_prefix_consistent(b@) ==> (r matches Err(
            InitialTbfParseError::InvalidHeader(l),
        ) && l == spec_le32(b@, 4)),
{
    let version = u16_from_le_bytes(slice_subrange(b, 0, 2));
    let header_size = u16_from_le_bytes(slice_subrange(b, 2, 4));
    let total_size = u32_from_le_bytes(slice_subrange(b, 4, 8));

    if version != 2 {
        return Err(InitialTbfParseError::UnableToParse);
    }
    if header_size < TBF_BASE_HEADER_BYTES || total_size < header_size as u32 {
        return Err(InitialTbfParseError::InvalidHeader(total_size));
    }
    Ok((version, header_size, total_size))
}

/// The whole header of the record is well-formed for version 2: the slice
/// holds the full header, the lengths repeat the prefix, the checksum
/// matches, and where a main, program or package-name element exists it is
/// long enough and in bounds.
pub open spec fn spec_tbf_header_ok(b: Seq<u8>, version: u16) -> bool {
    let hs = spec_le16(b, 2) as int;
    &&& version == 2
    &&& b.len() >= 16
    &&& hs >= 16
    &&& hs <= b.len()
    &&& spec_le32(b, 12) == spec_tbf_checksum(b, hs)
    &&& (spec_tlv_find(b, 16, hs, TBF_TLV_MAIN) matches Some(e) ==> e.1 >= 12)
    &&& (spec_tlv_find(b, 16, hs, TBF_TLV_PROGRAM) matches Some(e) ==> e.1 >= 12)
    &&& spec_tbf_protected_total(b) <= u32::MAX
}

/// Bytes reserved in front of the binary: the protected size given by the
/// main (or else program) element, plus the header itself.
pub open spec fn spec_tbf_protected_total(b: Seq<u8>) -> int {
    let hs = spec_le16(b, 2) as int;
    match spec_tlv_find(b, 16, hs, TBF_TLV_MAIN) {
        Some(e) => spec_le32(b, e.0 + 4) + hs,
        None => match spec_tlv_find(b, 16, hs, TBF_TLV_PROGRAM) {
            Some(e) => spec_le32(b, e.0 + 4) + hs,
            None => 0,
        },
    }
}

/// The enabled flag of the record: bit 0 of the flags word.
pub open spec fn spec_tbf_enabled(b: Seq<u8>) -> bool {
    spec_le32(b, 8) & 1 == 1
}

/// The package name carried by the record's header, if any.
pub open spec fn spec_tbf_package_name(b: Seq<u8>) -> Option<Seq<u8>> {
    let hs = spec_le16(b, 2) as int;
    match spec_tlv_find(b, 16, hs, TBF_TLV_PACKAGE_NAME) {
        Some(e) => Some(b.subrange(e.0, e.0 + e.1)),
        None => None,
    }
}

impl TbfHeader {
    /// Whether the record is enabled: bit 0 of the flags word.  A binary
    /// meant for this runtime is marked disabled, so that the surrounding
    /// kernel's own loader leaves it alone.
    pub fn enabled(&self) -> (r: bool)
        ensures
            r == (self.flags & 1 == 1),
    {
        self.flags & 1 == 1
    }

    /// The package name carried by the record's header, if any.
    pub fn get_package_name(&self) -> (r: Option<&Vec<u8>>)
        ensures
            match r {
                Some(v) => self.package_name matches Some(w) && v@ == w@,
                None => self.package_name is None,
            },
    {
        self.package_name.as_ref()
    }

    /// Bytes reserved in front of the binary, counted from the record
    /// start.
    pub fn get_protected_size(&self) -> (r: u32)
        ensures
            r == self.protected_size,
    {
        self.protected_size
    }
}

/// Walks the tag-length-value elements of `b` between `start` and `end`
/// and returns the payload offset and length of the first element whose
/// tag is `ty`.
fn tlv_find(b: &[u8], start: usize, end: usize, ty: u16) -> (r: Option<(usize, usize)>)
    requires
        end <= b@.len(),
        end <= 65535,
    ensures
        r matches Some(e) ==> spec_tlv_find(b@, start as int, end as int, ty) == Some(
            (e.0 as int, e.1 as int),
        ),
        r matches Some(e) ==> start + 4 <= e.0 && e.0 + e.1 <= end,
        r is None ==> spec_tlv_find(b@, start as int, end as int, ty) is None,
{
    let mut pos = start;
    loop
        invariant
            end <= b@.len(),
            end <= 65535,
            start <= pos,
            pos == start || pos <= end + 7,
            spec_tlv_find(b@, start as int, end as int, ty) == spec_tlv_find(
                b@,
                pos as int,
                end as int,
                ty,
            ),
        decreases end + 8 - pos,
    {
        if pos > end || end - pos < 4 {
            return None;
        }
        let t = u16_from_le_bytes(slice_subrange(b, pos, pos + 2));
        let l = u16_from_le_bytes(slice_subrange(b, pos + 2, pos + 4)) as usize;
        if l > end - (pos + 4) {
            return None;
        }
        if t == ty {
            return Some((pos + 4, l));
        }
        pos = pos + 4 + l + ((4 - l % 4) % 4);
    }
}

/// Validates a whole record header of version 2 and extracts the fields
/// the scan reads: the flags, the protected size and the package name.
///
/// The slice must hold the record's header bytes; its checksum (the
/// exclusive or of all header words, the checksum word itself read as
/// zero) must match the stored one.
pub fn parse_tbf_header(header: &[u8], version: u16) -> (r: Result<TbfHeader, TbfParseError>)
    requires
        header@.len() <= 65535,
    ensures
        r is Ok <==> spec_tbf_header_ok(header@, version),
        r matches Ok(h) ==> {
            &&& h.version == version
            &&& h.header_size == spec_le16(header@, 2)
            &&& h.total_size == spec_le32(header@, 4)
            &&& h.flags == spec_le32(header@, 8)
            &&& h.protected_size == spec_tbf_protected_total(header@)
            &&& (match h.package_name {
                Some(v) => spec_tbf_package_name(header@) matches Some(s) && v@ == s,
                None => spec_tbf_package_name(header@) is None,
            })
        },
        version != 2 ==> (r matches Err(TbfParseError::UnsupportedVersion(v)) && v == version),
        version == 2 && (header@.len() < 16 || spec_le16(header@, 2) < 16 || spec_le16(header@, 2)
            > header@.len()) ==> r matches Err(TbfParseError::NotEnoughFlash),
        (version == 2 && header@.len() >= 16 && 16 <= spec_le16(header@, 2) && spec_le16(header@, 2)
            <= header@.len() && spec_le32(header@, 12) != spec_tbf_checksum(
            header@,
            spec_le16(header@, 2) as int,
        )) ==> (r matches Err(TbfParseError::ChecksumMismatch(computed, stored)) && computed
            == spec_tbf_checksum(header@, spec_le16(header@, 2) as int) && stored == spec_le32(
            header@,
            12,
        )),
{
    if version != 2 {
        return Err(TbfParseError::UnsupportedVersion(version));
    }
    if header.len() < 16 {
        return Err(TbfParseError::NotEnoughFlash);
    }
    let hs_field = u16_from_le_bytes(slice_subrange(header, 2, 4));
    let hs = hs_field as usize;
    if hs < 16 || hs > header.len() {
        return Err(TbfParseError::NotEnoughFlash);
    }

    let total_size = u32_from_le_bytes(slice_subrange(header, 4, 8));
    let flags = u32_from_le_bytes(slice_subrange(header, 8, 12));
    let stored_checksum = u32_from_le_bytes(slice_subrange(header, 12, 16));

    let computed_checksum = xor_words(header, 0, 12) ^ xor_words(header, 16, hs);
    if computed_checksum != stored_checksum {
        return Err(TbfParseError::ChecksumMismatch(computed_checksum, stored_checksum));
    }

    // The protected size comes from the main element, or, failing that,
    // from the program element; either must be long enough to hold it.
    let main = tlv_find(header, 16, hs, TBF_TLV_MAIN);
    if (match main {
        Some(e) => e.1 < 12,
        None => false,
    }) {
        return Err(TbfParseError::BadTlvEntry(TBF_TLV_MAIN as u32));
    }
    let program = tlv_find(header, 16, hs, TBF_TLV_PROGRAM);
    if (match program {
        Some(e) => e.1 < 12,
        None => false,
    }) {
        return Err(TbfParseError::BadTlvEntry(TBF_TLV_PROGRAM as u32));
    }

    let protected_field = match main {
        Some(e) => Some(u32_from_le_bytes(slice_subrange(header, e.0 + 4, e.0 + 8))),
        None => match program {
            Some(e) => Some(u32_from_le_bytes(slice_subrange(header, e.0 + 4, e.0 + 8))),
            None => None,
        },
    };
    let protected_size = match protected_field {
        Some(p) => match p.checked_add(hs_field as u32) {
            Some(total) => total,
            None => {
                return Err(TbfParseError::BadTlvEntry(TBF_TLV_MAIN as u32));
            },
        },
        None => 0,
    };

    let package_name = match tlv_find(header, 16, hs, TBF_TLV_PACKAGE_NAME) {
        Some(e) => Some(vstd::slice::slice_to_vec(slice_subrange(header, e.0, e.0 + e.1))),
        None => None,
    };

    Ok(
        TbfHeader {
            version,
            header_size: hs_field,
            total_size,
            flags,
            protected_size,
            package_name,
        },
    )
}

/// The little-endian word of `b` at offset `i`, reading zero past `end`.
fn word_padded(b: &[u8], i: usize, end: usize) -> (r: u32)
    requires
        end <= b@.len(),
        end + 4 <= usize::MAX,
        i < end,
    ensures
        r == spec_word_padded(b@, i as int, end as int),
{
    let b0 = b[i];
    let b1 = if i + 1 < end { b[i + 1] } else { 0 };
    let b2 = if i + 2 < end { b[i + 2] } else { 0 };
    let b3 = if i + 3 < end { b[i + 3] } else { 0 };
    (b0 as u32) | (b1 as u32) << 8 | (b2 as u32) << 16 | (b3 as u32) << 24
}

/// Exclusive or of the zero-padded words of `b` from `start` up to `end`.
fn xor_words(b: &[u8], start: usize, end: usize) -> (r: u32)
    requires
        end <= b@.len(),
        end + 4 <= usize::MAX,
        start % 4 == 0,
    ensures
        r == spec_xor_words(b@, start as int, end as int),
{
    let mut acc: u32 = 0;
    let mut i: usize = start;
    proof {
        let x = spec_xor_words(b@, start as int, end as int);
        assert(0u32 ^ x == x) by (bit_vector);
    }
    while i < end
        invariant
            start <= i,
            end <= b@.len(),
            end + 4 <= usize::MAX,
            i % 4 == 0,
            spec_xor_words(b@, start as int, end as int) == acc ^ spec_xor_words(
                b@,
                i as int,
                end as int,
            ),
        decreases end + 4 - i,
    {
        let w = word_padded(b, i, end);
        proof {
            let ghost a = acc;
            let ghost t = spec_xor_words(b@, i as int + 4, end as int);
            assert(a ^ (w ^ t) == (a ^ w) ^ t) by (bit_vector);
        }
        acc = acc ^ w;
        i = i + 4;
    }
    proof {
        assert(spec_xor_words(b@, i as int, end as int) == 0);
        assert(acc ^ 0 == acc) by (bit_vector);
    }
    acc
}

} // verus!
