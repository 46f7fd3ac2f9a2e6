use omniglot_tock::binary::OmniglotBinary;
use omniglot_tock::rt::{trampoline_spill_fsp, MpuPermissions, TockMpu, TockRv32iCRt};
use omniglot_tock::OGError;

const BINARY_BASE: u32 = 0x2001_0000;
const RAM_START: u32 = 0x1000;
const RAM_LENGTH: u32 = 0x1000;

/// An MPU driver that accepts every region and counts its uses.
struct MockMpu {
    regions: Vec<(u32, u32, MpuPermissions)>,
    enabled: u32,
    disabled: u32,
}

impl MockMpu {
    fn new() -> MockMpu {
        MockMpu { regions: Vec::new(), enabled: 0, disabled: 0 }
    }
}

impl TockMpu for MockMpu {
    fn new_config(&mut self) -> bool {
        true
    }

    fn allocate_region(&mut self, start: u32, size: u32, permissions: MpuPermissions) -> bool {
        self.regions.push((start, size, permissions));
        true
    }

    fn configure_mpu(&mut self) {}

    fn enable_app_mpu(&mut self) {
        self.enabled += 1;
    }

    fn disable_app_mpu(&mut self) {
        self.disabled += 1;
    }
}

fn sample_binary_bytes() -> Vec<u8> {
    let mut bytes = vec![
        0x50, 0x43, 0x4E, 0x45, // magic
        0x00, 0x00, 0x00, 0x00, // rthdr offset 0
        0x20, 0x00, 0x00, 0x00, // init offset 32
        0x10, 0x00, 0x00, 0x00, // fntab offset 16
        0x02, 0x00, 0x00, 0x00, // fntab length 2
    ];
    bytes.resize(64, 0);
    bytes
}

fn build_runtime() -> (
    TockRv32iCRt<MockMpu>,
    omniglot_tock::scopes::AllocScope<'static>,
    omniglot_tock::scopes::AccessScope,
) {
    let bytes = sample_binary_bytes();
    let binary = OmniglotBinary {
        tbf_start: None,
        binary_start: BINARY_BASE,
        binary_length: 64,
    };
    TockRv32iCRt::new(MockMpu::new(), binary, &bytes, RAM_START, RAM_LENGTH, &[], 1).unwrap()
}

#[test]
fn lifo_round_trip() {
    // The stack pointer starts at the top of the RAM region (0x2000),
    // moves to 0x1FF8 for an eight-byte allocation, to 0x1FF4 for a
    // nested four-byte one, and returns to 0x2000 after both.
    let (mut rt, alloc_scope, _access_scope) = build_runtime();
    assert_eq!(rt.asm_state.foreign_stack_ptr, 0x2000);

    let mut p1_seen: u32 = 0;
    let mut p2_seen: u32 = 0;
    let mut inner_fsp: u32 = 0;

    rt.allocate_stacked_mut(8, 4, &alloc_scope, |st, p1, inner_scope| {
        p1_seen = p1;
        assert_eq!(st.foreign_stack_ptr, p1);
        // The nested scope carries the runtime's imprint and answers
        // validity like the outer one: through the same base regions.
        assert_eq!(inner_scope.id_imprint(), 1);
        assert!(inner_scope.tracker().is_valid_mut(p1, 8));
        st.allocate_stacked_untracked_mut(4, 4, |st2, p2| {
            p2_seen = p2;
            inner_fsp = st2.foreign_stack_ptr;
        })
        .unwrap();
        assert_eq!(st.foreign_stack_ptr, p1);
    })
    .unwrap();

    assert_eq!(p1_seen, 0x1FF8);
    assert_eq!(p2_seen, 0x1FF4);
    assert_eq!(inner_fsp, 0x1FF4);
    assert!(p2_seen + 4 <= p1_seen);
    assert!(p1_seen + 8 <= 0x2000);
    assert_eq!(rt.asm_state.foreign_stack_ptr, 0x2000);
}

#[test]
fn allocation_is_aligned() {
    // An allocation of five bytes aligned to eight: down to 0x1FFB, then
    // aligned down to 0x1FF8.
    let (mut rt, _alloc_scope, _access_scope) = build_runtime();
    let mut seen: u32 = 0;
    rt.allocate_stacked_untracked_mut(5, 8, |_st, p| {
        seen = p;
    })
    .unwrap();
    assert_eq!(seen, 0x1FF8);
    assert_eq!(seen % 8, 0);
    assert_eq!(rt.asm_state.foreign_stack_ptr, 0x2000);
}

#[test]
fn allocation_without_room_fails() {
    // The region holds 0x1000 bytes; a larger allocation must fail
    // without entering the closure and without moving the stack pointer.
    let (mut rt, _alloc_scope, _access_scope) = build_runtime();
    let mut entered = false;
    let r = rt.allocate_stacked_untracked_mut(0x1001, 1, |_st, _p| {
        entered = true;
    });
    assert_eq!(r, Err(OGError::AllocNoMem));
    assert!(!entered);
    assert_eq!(rt.asm_state.foreign_stack_ptr, 0x2000);
}

#[test]
fn allocation_exactly_filling_region_succeeds() {
    let (mut rt, _alloc_scope, _access_scope) = build_runtime();
    let mut seen: u32 = 0;
    rt.allocate_stacked_untracked_mut(0x1000, 1, |_st, p| {
        seen = p;
    })
    .unwrap();
    assert_eq!(seen, RAM_START);
    assert_eq!(rt.asm_state.foreign_stack_ptr, 0x2000);
}

#[test]
fn stack_spill_aligns_to_sixteen_bytes() {
    // Twenty spilled bytes from 0x2000: down to 0x1FEC, aligned down to
    // 0x1FE0.
    assert_eq!(trampoline_spill_fsp(0x2000, 20, RAM_START), Some(0x1FE0));
    // No spilled bytes leave an already aligned stack in place.
    assert_eq!(trampoline_spill_fsp(0x2000, 0, RAM_START), Some(0x2000));
    // A spill that cannot fit above the stack bottom fails.
    assert_eq!(trampoline_spill_fsp(0x1008, 12, RAM_START), None);
    assert_eq!(trampoline_spill_fsp(0x2000, 0x2001, RAM_START), None);
}

#[test]
fn frame_allocation_moves_and_restores() {
    let (mut rt, _alloc_scope, _access_scope) = build_runtime();
    let p = rt.asm_state.alloc_frame(16, 16).unwrap();
    assert_eq!(p, 0x1FF0);
    assert_eq!(rt.asm_state.foreign_stack_ptr, 0x1FF0);
    rt.asm_state.release_frame(0x2000);
    assert_eq!(rt.asm_state.foreign_stack_ptr, 0x2000);
}
