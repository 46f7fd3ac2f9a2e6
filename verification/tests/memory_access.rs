use omniglot_tock::binary::OmniglotBinary;
use omniglot_tock::foreign_mem::UnvalidatedMutRef;
use omniglot_tock::rt::{MpuPermissions, TockMpu, TockRv32iCRt};
use omniglot_tock::tracker::TockRv32iCRtAllocations;
use omniglot_tock::OGError;

const BINARY_BASE: u32 = 0x2001_0000;
const RAM_START: u32 = 0x1000;
const RAM_LENGTH: u32 = 0x1000;

struct MockMpu;

impl TockMpu for MockMpu {
    fn new_config(&mut self) -> bool {
        true
    }

    fn allocate_region(&mut self, _start: u32, _size: u32, _permissions: MpuPermissions) -> bool {
        true
    }

    fn configure_mpu(&mut self) {}

    fn enable_app_mpu(&mut self) {}

    fn disable_app_mpu(&mut self) {}
}

fn sample_binary_bytes() -> Vec<u8> {
    let mut bytes = vec![
        0x50, 0x43, 0x4E, 0x45, // magic
        0x00, 0x00, 0x00, 0x00, // rthdr offset 0
        0x20, 0x00, 0x00, 0x00, // init offset 32
        0x10, 0x00, 0x00, 0x00, // fntab offset 16
        0x02, 0x00, 0x00, 0x00, // fntab length 2
    ];
    bytes.resize(64, 0);
    bytes
}

fn build_runtime(
    imprint: usize,
) -> (
    TockRv32iCRt<MockMpu>,
    omniglot_tock::scopes::AllocScope<'static>,
    omniglot_tock::scopes::AccessScope,
) {
    let bytes = sample_binary_bytes();
    let binary = OmniglotBinary { tbf_start: None, binary_start: BINARY_BASE, binary_length: 64 };
    TockRv32iCRt::new(MockMpu, binary, &bytes, RAM_START, RAM_LENGTH, &[], imprint).unwrap()
}

fn sample_allocations() -> TockRv32iCRtAllocations {
    TockRv32iCRtAllocations {
        ram_region_start: RAM_START,
        ram_region_length: RAM_LENGTH,
        flash_region_start: BINARY_BASE,
        flash_region_length: 64,
    }
}

#[test]
fn validity_covers_ram_and_flash() {
    let a = sample_allocations();
    // Readable: anywhere inside RAM or inside flash.
    assert!(a.is_valid(RAM_START, 4));
    assert!(a.is_valid(RAM_START + RAM_LENGTH - 4, 4));
    assert!(a.is_valid(BINARY_BASE, 64));
    assert!(a.is_valid(BINARY_BASE + 60, 4));
    // Writable: RAM only.
    assert!(a.is_valid_mut(RAM_START, RAM_LENGTH));
    assert!(!a.is_valid_mut(BINARY_BASE, 4));
}

#[test]
fn validity_rejects_straddling_ranges() {
    let a = sample_allocations();
    assert!(!a.is_valid(RAM_START - 1, 4));
    assert!(!a.is_valid(RAM_START + RAM_LENGTH - 2, 4));
    assert!(!a.is_valid(BINARY_BASE + 62, 4));
    assert!(!a.is_valid_mut(RAM_START + RAM_LENGTH, 1));
}

#[test]
fn validity_rejects_overflowing_ranges() {
    let a = sample_allocations();
    assert!(!a.is_valid(u32::MAX - 1, 8));
    assert!(!a.is_valid_mut(u32::MAX, u32::MAX));
}

#[test]
fn zero_length_range_at_region_edge() {
    let a = sample_allocations();
    // An empty range inside the region is valid; one outside is not.
    assert!(a.is_valid_mut(RAM_START + RAM_LENGTH, 0));
    assert!(!a.is_valid_mut(RAM_START - 1, 0));
}

#[test]
fn upgrade_checks_tracker() {
    let (_rt, alloc_scope, _access) = build_runtime(1);
    assert!(UnvalidatedMutRef::upgrade_from_ptr(RAM_START + 16, 8, &alloc_scope).is_some());
    // Flash is not writable, and out-of-region addresses are rejected.
    assert!(UnvalidatedMutRef::upgrade_from_ptr(BINARY_BASE, 8, &alloc_scope).is_none());
    assert!(UnvalidatedMutRef::upgrade_from_ptr(RAM_START + RAM_LENGTH - 4, 8, &alloc_scope).is_none());
}

#[test]
fn read_and_write_round_trip() {
    let (_rt, alloc_scope, mut access_scope) = build_runtime(1);
    let mut ram = vec![0u8; RAM_LENGTH as usize];

    let r = UnvalidatedMutRef::upgrade_from_ptr(RAM_START + 16, 4, &alloc_scope).unwrap();
    r.write(&mut access_scope, &mut ram, RAM_START, &[0xDE, 0xAD, 0xBE, 0xEF]).unwrap();
    assert_eq!(&ram[16..20], &[0xDE, 0xAD, 0xBE, 0xEF]);
    assert_eq!(ram[15], 0);
    assert_eq!(ram[20], 0);

    let back = r.read(&access_scope, &ram, RAM_START).unwrap();
    assert_eq!(back, vec![0xDE, 0xAD, 0xBE, 0xEF]);
}

#[test]
fn projection_narrows_a_reference() {
    let (_rt, alloc_scope, mut access_scope) = build_runtime(1);
    let mut ram = vec![0u8; RAM_LENGTH as usize];

    let outer = UnvalidatedMutRef::upgrade_from_ptr(RAM_START + 32, 16, &alloc_scope).unwrap();
    let field = outer.project(4, 4);
    assert_eq!(field.addr(), RAM_START + 36);
    assert_eq!(field.len(), 4);

    field.write(&mut access_scope, &mut ram, RAM_START, &[0x78, 0x56, 0x34, 0x12]).unwrap();
    assert_eq!(field.validate_u32(&access_scope, &ram, RAM_START), Ok(0x1234_5678));
}

#[test]
fn boolean_validation_checks_bit_pattern() {
    let (_rt, alloc_scope, mut access_scope) = build_runtime(1);
    let mut ram = vec![0u8; RAM_LENGTH as usize];

    let r = UnvalidatedMutRef::upgrade_from_ptr(RAM_START + 8, 1, &alloc_scope).unwrap();
    r.write(&mut access_scope, &mut ram, RAM_START, &[1]).unwrap();
    assert_eq!(r.validate_bool(&access_scope, &ram, RAM_START), Ok(true));
    r.write(&mut access_scope, &mut ram, RAM_START, &[0]).unwrap();
    assert_eq!(r.validate_bool(&access_scope, &ram, RAM_START), Ok(false));
    // Any other bit pattern is illegal for a boolean, and the bytes stay
    // as they were.
    r.write(&mut access_scope, &mut ram, RAM_START, &[7]).unwrap();
    assert_eq!(
        r.validate_bool(&access_scope, &ram, RAM_START),
        Err(OGError::BitPatternInvalid)
    );
    assert_eq!(ram[8], 7);
}

#[test]
fn mismatched_imprints_are_rejected() {
    // A reference issued by one runtime cannot be used with the access
    // scope of another.
    let (_rt1, alloc_scope_1, _access_1) = build_runtime(1);
    let (_rt2, _alloc_scope_2, mut access_2) = build_runtime(2);
    let mut ram = vec![0u8; RAM_LENGTH as usize];

    let r = UnvalidatedMutRef::upgrade_from_ptr(RAM_START + 16, 4, &alloc_scope_1).unwrap();
    assert_eq!(
        r.write(&mut access_2, &mut ram, RAM_START, &[1, 2, 3, 4]),
        Err(OGError::IDMismatch)
    );
    assert_eq!(ram[16], 0);
    assert_eq!(r.read(&access_2, &ram, RAM_START), Err(OGError::IDMismatch));
}

#[test]
fn one_access_scope_per_runtime() {
    // The only way to obtain an access scope is runtime construction,
    // which hands out exactly one; it moves rather than copies.
    let (_rt, _alloc_scope, access_scope) = build_runtime(9);
    let moved = access_scope;
    assert_eq!(moved.id_imprint(), 9);
}
