use omniglot_tock::binary::OmniglotBinary;
use omniglot_tock::invoke::{classify_trap, TrapDecision, MCAUSE_ILLEGAL_INSTRUCTION};
use omniglot_tock::invoke::{TockRv32iCRtCallbackAsmContext, TockRv32iCRtCallbackContext, TockRv32iCRtCallbackReturn};
use omniglot_tock::invoke::{TockRv32iCInvokeErr, TockRv32iCInvokeResInner};
use omniglot_tock::rt::{MpuPermissions, TockMpu, TockRv32iCRt};
use omniglot_tock::{OGError, TockOGError};

const BINARY_BASE: u32 = 0x2001_0000;
const RAM_START: u32 = 0x1000;
const RAM_LENGTH: u32 = 0x1000;

/// An MPU driver that records regions and can be told to refuse them.
struct MockMpu {
    refuse_regions: bool,
    regions: Vec<(u32, u32, MpuPermissions)>,
    enabled: u32,
    disabled: u32,
}

impl MockMpu {
    fn new() -> MockMpu {
        MockMpu { refuse_regions: false, regions: Vec::new(), enabled: 0, disabled: 0 }
    }

    fn refusing() -> MockMpu {
        MockMpu { refuse_regions: true, regions: Vec::new(), enabled: 0, disabled: 0 }
    }
}

impl TockMpu for MockMpu {
    fn new_config(&mut self) -> bool {
        true
    }

    fn allocate_region(&mut self, start: u32, size: u32, permissions: MpuPermissions) -> bool {
        if self.refuse_regions {
            return false;
        }
        self.regions.push((start, size, permissions));
        true
    }

    fn configure_mpu(&mut self) {}

    fn enable_app_mpu(&mut self) {
        self.enabled += 1;
    }

    fn disable_app_mpu(&mut self) {
        self.disabled += 1;
    }
}

/// A 64-byte binary with the function table at offset 24, holding two
/// entries.
fn binary_bytes_with_symbols() -> Vec<u8> {
    let mut bytes = vec![
        0x50, 0x43, 0x4E, 0x45, // magic
        0x00, 0x00, 0x00, 0x00, // rthdr offset 0
        0x20, 0x00, 0x00, 0x00, // init offset 32
        0x18, 0x00, 0x00, 0x00, // fntab offset 24
        0x02, 0x00, 0x00, 0x00, // fntab length 2
    ];
    bytes.resize(64, 0);
    bytes[24..28].copy_from_slice(&0x2001_0100u32.to_le_bytes());
    bytes[28..32].copy_from_slice(&0x2001_0200u32.to_le_bytes());
    bytes
}

fn located_binary() -> OmniglotBinary {
    OmniglotBinary { tbf_start: None, binary_start: BINARY_BASE, binary_length: 64 }
}

#[test]
fn construction_configures_regions() {
    let bytes = binary_bytes_with_symbols();
    let extra = [(0x4000_0000u32, 0x100u32, MpuPermissions::ReadWriteExecute)];
    let (rt, alloc_scope, access_scope) =
        TockRv32iCRt::new(MockMpu::new(), located_binary(), &bytes, RAM_START, RAM_LENGTH, &extra, 7)
            .unwrap();

    assert_eq!(rt.asm_state.foreign_stack_ptr, RAM_START + RAM_LENGTH);
    assert_eq!(rt.asm_state.foreign_stack_bottom, RAM_START);
    assert_eq!(rt.asm_state.active_alloc_scope, 0);
    assert_eq!(rt.rthdr_addr, BINARY_BASE);
    assert_eq!(rt.init_addr, BINARY_BASE + 32);
    assert_eq!(rt.fntab_addr, BINARY_BASE + 24);
    assert_eq!(rt.fntab_length, 2);
    assert_eq!(rt.imprint, 7);
    assert_eq!(alloc_scope.id_imprint(), 7);
    assert_eq!(access_scope.id_imprint(), 7);

    assert_eq!(
        rt.mpu.regions,
        vec![
            (BINARY_BASE, 64, MpuPermissions::ReadExecuteOnly),
            (RAM_START, RAM_LENGTH, MpuPermissions::ReadWriteOnly),
            (0x4000_0000, 0x100, MpuPermissions::ReadWriteExecute),
        ]
    );
}

#[test]
fn construction_rejects_bad_header() {
    let mut bytes = binary_bytes_with_symbols();
    bytes[0] = 0;
    let r = TockRv32iCRt::new(MockMpu::new(), located_binary(), &bytes, RAM_START, RAM_LENGTH, &[], 1);
    assert!(matches!(r, Err(TockOGError::BinaryMagicInvalid)));
}

#[test]
fn construction_rejects_aliasing_ram() {
    let bytes = binary_bytes_with_symbols();
    // A RAM region overlapping the binary's flash is refused.
    let r = TockRv32iCRt::new(
        MockMpu::new(),
        located_binary(),
        &bytes,
        BINARY_BASE + 32,
        0x1000,
        &[],
        1,
    );
    assert!(matches!(r, Err(TockOGError::RAMRegionAliasesFlash)));
}

#[test]
fn construction_surfaces_mpu_refusal() {
    let bytes = binary_bytes_with_symbols();
    let r = TockRv32iCRt::new(MockMpu::refusing(), located_binary(), &bytes, RAM_START, RAM_LENGTH, &[], 1);
    assert!(matches!(r, Err(TockOGError::MPUConfigError)));
}

#[test]
fn init_stores_returned_stack_top() {
    let bytes = binary_bytes_with_symbols();
    let (mut rt, _a, _s) =
        TockRv32iCRt::new(MockMpu::new(), located_binary(), &bytes, RAM_START, RAM_LENGTH, &[], 1)
            .unwrap();
    let res = TockRv32iCInvokeResInner {
        error: TockRv32iCInvokeErr::NoError,
        a0: 0,
        a1: 0,
        sp: 0x1F00,
    };
    rt.init(&res).unwrap();
    assert_eq!(rt.asm_state.foreign_stack_ptr, 0x1F00);
}

#[test]
fn init_rejects_fault() {
    let bytes = binary_bytes_with_symbols();
    let (mut rt, _a, _s) =
        TockRv32iCRt::new(MockMpu::new(), located_binary(), &bytes, RAM_START, RAM_LENGTH, &[], 1)
            .unwrap();
    let res = TockRv32iCInvokeResInner {
        error: TockRv32iCInvokeErr::Fault { cause: 2, tval: 0, pc: BINARY_BASE + 32 },
        a0: 0,
        a1: 0,
        sp: 0,
    };
    assert_eq!(
        rt.init(&res),
        Err(OGError::Fault { cause: 2, tval: 0, pc: BINARY_BASE + 32 })
    );
    assert_eq!(rt.asm_state.foreign_stack_ptr, RAM_START + RAM_LENGTH);
}

#[test]
fn init_rejects_nonzero_return() {
    let bytes = binary_bytes_with_symbols();
    let (mut rt, _a, _s) =
        TockRv32iCRt::new(MockMpu::new(), located_binary(), &bytes, RAM_START, RAM_LENGTH, &[], 1)
            .unwrap();
    let res = TockRv32iCInvokeResInner {
        error: TockRv32iCInvokeErr::NoError,
        a0: 1,
        a1: 0,
        sp: 0x1F00,
    };
    assert_eq!(rt.init(&res), Err(OGError::BitPatternInvalid));
}

#[test]
fn init_rejects_stack_top_outside_region() {
    let bytes = binary_bytes_with_symbols();
    let (mut rt, _a, _s) =
        TockRv32iCRt::new(MockMpu::new(), located_binary(), &bytes, RAM_START, RAM_LENGTH, &[], 1)
            .unwrap();
    let res = TockRv32iCInvokeResInner {
        error: TockRv32iCInvokeErr::NoError,
        a0: 0,
        a1: 0,
        sp: 0x0500,
    };
    assert_eq!(rt.init(&res), Err(OGError::BitPatternInvalid));
}

#[test]
fn execute_toggles_mpu_and_restores_scope() {
    let bytes = binary_bytes_with_symbols();
    let (mut rt, mut alloc_scope, mut access_scope) =
        TockRv32iCRt::new(MockMpu::new(), located_binary(), &bytes, RAM_START, RAM_LENGTH, &[], 1)
            .unwrap();

    let r = rt.execute(&mut alloc_scope, &mut access_scope, 0x0040_0000, || 42u32);
    assert_eq!(r, 42);
    assert_eq!(rt.asm_state.active_alloc_scope, 0);
    assert_eq!(rt.mpu.enabled, 1);
    assert_eq!(rt.mpu.disabled, 1);
}

#[test]
fn lookup_symbol_reads_table_entries() {
    let bytes = binary_bytes_with_symbols();
    let (rt, _a, _s) =
        TockRv32iCRt::new(MockMpu::new(), located_binary(), &bytes, RAM_START, RAM_LENGTH, &[], 1)
            .unwrap();
    assert_eq!(rt.lookup_symbol(&bytes, 0), Some(0x2001_0100));
    assert_eq!(rt.lookup_symbol(&bytes, 1), Some(0x2001_0200));
    assert_eq!(rt.lookup_symbol(&bytes, 2), None);
}

#[test]
fn resolve_symbols_checks_table_length() {
    let bytes = binary_bytes_with_symbols();
    let (rt, _a, _s) =
        TockRv32iCRt::new(MockMpu::new(), located_binary(), &bytes, RAM_START, RAM_LENGTH, &[], 1)
            .unwrap();
    assert_eq!(rt.resolve_symbols(2), Some(()));
    assert_eq!(rt.resolve_symbols(3), None);
}

#[test]
fn setup_callback_registers_descriptor() {
    let bytes = binary_bytes_with_symbols();
    let (rt, alloc_scope, _s) =
        TockRv32iCRt::new(MockMpu::new(), located_binary(), &bytes, RAM_START, RAM_LENGTH, &[], 1)
            .unwrap();

    let springboard_addr: u32 = 0x0040_2000;
    let seen = rt
        .setup_callback(0x0040_1000, 0x0040_3000, springboard_addr, &alloc_scope, |sb, inner| {
            assert_eq!(sb, springboard_addr);
            // While the registration lives, a fault at the springboard
            // dispatches to the descriptor.
            match classify_trap(MCAUSE_ILLEGAL_INSTRUCTION, sb, 0x1000_0500, inner.tracker()) {
                TrapDecision::Callback(desc) => {
                    assert_eq!(desc.springboard_addr, springboard_addr);
                    assert_eq!(desc.wrapper, 0x0040_1000);
                    assert_eq!(desc.context, 0x0040_3000);
                },
                other => panic!("expected Callback, got {:?}", other),
            }
            sb
        })
        .unwrap();
    assert_eq!(seen, springboard_addr);
}

#[test]
fn dispatch_callback_brackets_mpu_and_returns_registers() {
    let bytes = binary_bytes_with_symbols();
    let (mut rt, _a, _s) =
        TockRv32iCRt::new(MockMpu::new(), located_binary(), &bytes, RAM_START, RAM_LENGTH, &[], 1)
            .unwrap();

    let ctx = TockRv32iCRtCallbackContext { arg_regs: [0x77, 1, 2, 3, 4, 5, 6, 7] };
    let mut asm_ctx = TockRv32iCRtCallbackAsmContext {
        foreign_stack_ptr: 0x1FF0,
        runtime: 0,
        ret_a0: 0,
        ret_a1: 0,
    };

    let mut seen_a0: u32 = 0;
    rt.dispatch_callback(&ctx, &mut asm_ctx, |c| {
        seen_a0 = c.get_argument_register(0).unwrap();
        let mut ret = TockRv32iCRtCallbackReturn { ret_regs: [0, 0] };
        ret.set_return_register(0, 0xAA);
        ret.set_return_register(1, 0xBB);
        ret
    });

    // The closure saw the foreign argument registers, its return registers
    // reached the trap context, and memory protection was switched off for
    // the closure and back on afterwards.
    assert_eq!(seen_a0, 0x77);
    assert_eq!(asm_ctx.ret_a0, 0xAA);
    assert_eq!(asm_ctx.ret_a1, 0xBB);
    assert_eq!(rt.mpu.disabled, 1);
    assert_eq!(rt.mpu.enabled, 1);
}
