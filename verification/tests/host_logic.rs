use kvmsample::config::VmConfig;
use kvmsample::config::DEFAULT_CODE_SELECTOR;
use kvmsample::config::DEFAULT_RFLAGS;
use kvmsample::config::DEFAULT_RSP;
use kvmsample::errors::VmError;
use kvmsample::exit::ExitEvent;
use kvmsample::exit::LoopState;
use kvmsample::exit::run_events;
use kvmsample::memory::GuestMemory;
use kvmsample::regs::GeneralRegisters;
use kvmsample::regs::SegmentRegister;
use kvmsample::regs::SpecialRegisters;
use kvmsample::regs::VcpuState;
use kvmsample::vm::VirtualMachine;

fn scratch_state() -> VcpuState {
    let seg = SegmentRegister { selector: 0xdead, base: 0x1234 };
    VcpuState {
        sregs: SpecialRegisters {
            cs: seg,
            ss: seg,
            ds: seg,
            es: seg,
            fs: seg,
            gs: SegmentRegister { selector: 0xdead, base: 0x777 },
        },
        regs: GeneralRegisters { rflags: 0xff, rip: 0x55, rsp: 0x66, rbp: 0x88 },
    }
}

#[test]
fn image_smaller_than_arena_copies_exactly_and_leaves_tail_zero() {
    let mut mem = GuestMemory::new(8);
    let image: Vec<u8> = vec![0xf4, 0x90, 0x12];
    let r = mem.load_image(&image);
    assert_eq!(r, Ok(()));
    assert_eq!(mem.size(), 8);
    assert_eq!(mem.read_byte(0), 0xf4);
    assert_eq!(mem.read_byte(1), 0x90);
    assert_eq!(mem.read_byte(2), 0x12);
    for i in 3..8 {
        assert_eq!(mem.read_byte(i), 0);
    }
}

#[test]
fn image_of_exactly_arena_size_is_accepted() {
    let mut mem = GuestMemory::new(4);
    let image: Vec<u8> = vec![1, 2, 3, 4];
    assert_eq!(mem.load_image(&image), Ok(()));
    for i in 0..4 {
        assert_eq!(mem.read_byte(i), (i + 1) as u8);
    }
}

#[test]
fn empty_image_leaves_arena_unchanged() {
    let mut mem = GuestMemory::new(3);
    let image: Vec<u8> = Vec::new();
    assert_eq!(mem.load_image(&image), Ok(()));
    for i in 0..3 {
        assert_eq!(mem.read_byte(i), 0);
    }
}

#[test]
fn absent_image_is_not_fatal_and_memory_stays_zero() {
    let mut mem = GuestMemory::new(6);
    let r = mem.apply_image(&None);
    assert_eq!(r, Ok(false));
    for i in 0..6 {
        assert_eq!(mem.read_byte(i), 0);
    }
}

#[test]
fn present_image_is_applied_through_apply_image() {
    let mut mem = GuestMemory::new(4);
    let r = mem.apply_image(&Some(vec![9, 8]));
    assert_eq!(r, Ok(true));
    assert_eq!(mem.read_byte(0), 9);
    assert_eq!(mem.read_byte(1), 8);
    assert_eq!(mem.read_byte(2), 0);
    assert_eq!(mem.read_byte(3), 0);
}

#[test]
fn oversized_image_is_rejected_and_arena_untouched() {
    let mut mem = GuestMemory::new(2);
    let small: Vec<u8> = vec![5, 6];
    assert_eq!(mem.load_image(&small), Ok(()));
    let big: Vec<u8> = vec![1, 2, 3];
    assert_eq!(mem.load_image(&big), Err(VmError::ImageTooLarge));
    assert_eq!(mem.read_byte(0), 5);
    assert_eq!(mem.read_byte(1), 6);
    let mut zeroed = GuestMemory::new(2);
    assert_eq!(zeroed.apply_image(&Some(vec![1, 2, 3])), Err(VmError::ImageTooLarge));
    assert_eq!(zeroed.read_byte(0), 0);
    assert_eq!(zeroed.read_byte(1), 0);
}

#[test]
fn reset_establishes_the_fixed_entry_state() {
    let cfg = VmConfig::default();
    let mut st = scratch_state();
    st.reset(&cfg);
    let expected_base = (DEFAULT_CODE_SELECTOR as u64) * 16;
    for seg in [st.sregs.cs, st.sregs.ss, st.sregs.ds, st.sregs.es, st.sregs.fs] {
        assert_eq!(seg.selector, DEFAULT_CODE_SELECTOR);
        assert_eq!(seg.base, expected_base);
    }
    // The last extra segment gets the selector but keeps its prior base.
    assert_eq!(st.sregs.gs.selector, DEFAULT_CODE_SELECTOR);
    assert_eq!(st.sregs.gs.base, 0x777);
    assert_eq!(st.regs.rflags, DEFAULT_RFLAGS);
    assert_eq!(st.regs.rflags, 0x2);
    assert_eq!(st.regs.rip, 0);
    assert_eq!(st.regs.rsp, DEFAULT_RSP);
    assert_eq!(st.regs.rsp, 0xffffffff);
    assert_eq!(st.regs.rbp, 0);
}

#[test]
fn reset_is_idempotent() {
    let cfg = VmConfig::default();
    let mut once = scratch_state();
    once.reset(&cfg);
    let mut twice = once;
    twice.reset(&cfg);
    assert_eq!(once, twice);
}

#[test]
fn segment_base_is_selector_times_sixteen() {
    let cfg = VmConfig::default();
    assert_eq!(cfg.segment_base(), 0x10000);
    let other = VmConfig { code_selector: 0x20, ..cfg };
    assert_eq!(other.segment_base(), 0x200);
}

#[test]
fn single_shutdown_terminates_after_one_logged_event() {
    let r = run_events(vec![ExitEvent::Shutdown]);
    assert_eq!(r.state, LoopState::Terminated);
    assert_eq!(r.fault, None);
    assert_eq!(r.log, vec![ExitEvent::Shutdown]);
}

#[test]
fn io_out_events_are_logged_exactly_in_order_then_shutdown() {
    let events = vec![
        ExitEvent::IoOut { addr: 0x3f8, data: vec![0x41] },
        ExitEvent::IoOut { addr: 0x3f8, data: vec![0x42] },
        ExitEvent::IoOut { addr: 0x2e8, data: vec![0x43] },
        ExitEvent::Shutdown,
    ];
    let r = run_events(events.clone());
    assert_eq!(r.state, LoopState::Terminated);
    assert_eq!(r.fault, None);
    assert_eq!(r.log, events);
}

#[test]
fn every_enumerated_nonterminal_exit_resumes_and_is_logged() {
    let events = vec![
        ExitEvent::IoIn { addr: 0x60 },
        ExitEvent::MmioRead { addr: 0xfee00000 },
        ExitEvent::MmioWrite { addr: 0xfee00000, data: vec![1, 2, 3, 4] },
        ExitEvent::DebugTrap,
        ExitEvent::Interrupt,
        ExitEvent::Unknown,
        ExitEvent::Shutdown,
    ];
    let r = run_events(events.clone());
    assert_eq!(r.state, LoopState::Terminated);
    assert_eq!(r.fault, None);
    assert_eq!(r.log, events);
}

#[test]
fn trace_without_terminal_exit_leaves_loop_running() {
    let events = vec![ExitEvent::IoIn { addr: 1 }, ExitEvent::DebugTrap];
    let r = run_events(events.clone());
    assert_eq!(r.state, LoopState::Running);
    assert_eq!(r.fault, None);
    assert_eq!(r.log, events);
}

#[test]
fn empty_trace_leaves_loop_running_with_empty_log() {
    let r = run_events(Vec::new());
    assert_eq!(r.state, LoopState::Running);
    assert_eq!(r.fault, None);
    assert!(r.log.is_empty());
}

#[test]
fn out_of_set_exit_aborts_with_the_faulting_reason_and_no_log_entry() {
    let events = vec![
        ExitEvent::IoOut { addr: 1, data: vec![9] },
        ExitEvent::Other { code: 35 },
        ExitEvent::Shutdown,
    ];
    let r = run_events(events);
    assert_eq!(r.state, LoopState::Aborted);
    assert_eq!(r.fault, Some(ExitEvent::Other { code: 35 }));
    assert_eq!(r.log, vec![ExitEvent::IoOut { addr: 1, data: vec![9] }]);
}

#[test]
fn operations_on_invalid_handle_fail_distinguishably() {
    let mut h = VirtualMachine::invalid();
    assert_eq!(h.register_memory(4096, 0x1000), Err(VmError::InvalidHandle));
    assert_eq!(h.create_vcpu(0), Err(VmError::InvalidHandle));
}

#[test]
fn valid_handle_registers_slot_zero_with_dirty_logging_once() {
    let mut h = VirtualMachine::created();
    let reg = h.register_memory(4096, 0xabc000).expect("first registration");
    assert_eq!(reg.slot, 0);
    assert_eq!(reg.guest_phys_addr, 0);
    assert_eq!(reg.memory_size, 4096);
    assert_eq!(reg.userspace_addr, 0xabc000);
    assert!(reg.log_dirty_pages);
    assert_eq!(h.register_memory(4096, 0xabc000), Err(VmError::RegionAlreadyRegistered));
}

#[test]
fn exactly_one_vcpu_is_created() {
    let mut h = VirtualMachine::created();
    assert_eq!(h.create_vcpu(0), Ok(0));
    assert_eq!(h.create_vcpu(1), Err(VmError::VcpuAlreadyCreated));
}
