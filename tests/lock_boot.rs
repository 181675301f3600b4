use armv7a::boot::{BootAction, BootConfig, BootEvent, BootSequencer, BootStage};
use armv7a::lock::{CriticalSection, ReleasePlan, SpinStep, LOCKED};
use armv7a::scu::{is_cortex_a9, SnoopControlUnit};

fn unmask(cpsr: u32, p: ReleasePlan) -> u32 {
    let mut c = cpsr;
    if p.enable_irq {
        c &= !0x80;
    }
    if p.enable_fiq {
        c &= !0x40;
    }
    c
}

#[test]
fn acquire_release_keeps_mask_state() {
    for before in [0x13u32, 0x93, 0x53, 0xD3, 0x6000_001F] {
        let a = CriticalSection::acquire(before);
        assert_eq!(a.restore, before);
        assert_eq!(a.cpsr & 0xC0, 0xC0);
        assert_eq!(a.cpsr & !0xC0, before & !0xC0);
        let after = unmask(a.cpsr, CriticalSection::release(a.restore));
        assert_eq!(after, before);
    }
}

#[test]
fn release_plans() {
    assert_eq!(
        CriticalSection::release(0x13),
        ReleasePlan { enable_irq: true, enable_fiq: true }
    );
    assert_eq!(
        CriticalSection::release(0x93),
        ReleasePlan { enable_irq: false, enable_fiq: true }
    );
    assert_eq!(
        CriticalSection::release(0xD3),
        ReleasePlan { enable_irq: false, enable_fiq: false }
    );
}

#[test]
fn spin_steps() {
    assert_eq!(CriticalSection::lock_step(0), SpinStep::Take(LOCKED));
    assert_eq!(CriticalSection::lock_step(1), SpinStep::Wait);
}

#[test]
fn snoop_control_unit() {
    assert!(is_cortex_a9(0x413F_C090));
    assert!(is_cortex_a9(0x412F_C09A));
    assert!(!is_cortex_a9(0x410F_C070));
    let a9 = SnoopControlUnit::enable(0x2, 0x0, 0x413F_C090);
    assert_eq!(a9.control, 0x3);
    assert_eq!(a9.diagnostic, Some(0x1));
    let a7 = SnoopControlUnit::enable(0x0, 0x0, 0x410F_C070);
    assert_eq!(a7.control, 0x1);
    assert_eq!(a7.diagnostic, None);
    assert_eq!(SnoopControlUnit::disable(0x3), 0x2);
    assert_eq!(SnoopControlUnit::enable_smp(0, 0x413F_C090), 0x41);
    assert_eq!(SnoopControlUnit::enable_smp(0, 0x410F_C070), 0x40);
    assert_eq!(SnoopControlUnit::disable_smp(0xFF, 0x413F_C090), 0xBE);
    assert_eq!(SnoopControlUnit::disable_smp(0xFF, 0x410F_C070), 0xBF);
}

fn config(multicore: bool) -> BootConfig {
    BootConfig {
        multicore,
        num_cpus: 4,
        cpu_stack_size: 0x1000,
        stack_start: 0x0010_0000,
        stack_end: 0x0010_4000,
        bss_start: 0x0020_0000,
        bss_end: 0x0020_1000,
        vectors: 0x8000,
    }
}

/// Runs a core through reset, mode check and identification.
fn identify(b: &mut BootSequencer, mpidr: u32) -> BootAction {
    assert_eq!(b.step(BootEvent::Done), BootAction::MaskInterrupts);
    assert_eq!(b.step(BootEvent::Done), BootAction::ReadMode);
    assert_eq!(b.step(BootEvent::Value(0x1D3)), BootAction::EnterSupervisorMode);
    assert_eq!(b.step(BootEvent::Done), BootAction::ReadIdentity);
    b.step(BootEvent::Value(mpidr))
}

#[test]
fn primary_core_boots_and_enters_once() {
    let mut b = BootSequencer::new(config(true));
    let mut actions = vec![identify(&mut b, 0x8000_0000)];
    actions.push(b.step(BootEvent::Value(0x00C5_187F)));
    actions.push(b.step(BootEvent::Done));
    actions.push(b.step(BootEvent::Value(0)));
    actions.push(b.step(BootEvent::Value(0x413F_C090)));
    for _ in 0..8 {
        actions.push(b.step(BootEvent::Done));
    }
    assert_eq!(
        actions,
        vec![
            BootAction::ReadSystemControl,
            BootAction::WriteSystemControl(0x00C5_007A),
            BootAction::ReadAuxiliaryControl,
            BootAction::ReadMainId,
            BootAction::WriteAuxiliaryControl(0x41),
            BootAction::InvalidateTlbAndCaches,
            BootAction::SetVectorBase(0x8000),
            BootAction::SetStackPointer(0x0010_4000),
            BootAction::ZeroRegion { start: 0x0020_0000, end: 0x0020_1000 },
            BootAction::EnterPrimary,
            BootAction::Park,
            BootAction::Park,
            BootAction::Park,
        ]
    );
    let entries = actions.iter().filter(|a| **a == BootAction::EnterPrimary).count();
    assert_eq!(entries, 1);
    assert_eq!(b.stage, BootStage::Parked);
}

#[test]
fn secondary_core_waits_for_release() {
    let mut b = BootSequencer::new(config(true));
    assert_eq!(identify(&mut b, 0x8000_0003), BootAction::AwaitRelease);
    assert_eq!(b.step(BootEvent::Value(1)), BootAction::AwaitRelease);
    assert_eq!(b.step(BootEvent::Value(1)), BootAction::AwaitRelease);
    assert_eq!(b.step(BootEvent::Value(0)), BootAction::ReadSystemControl);
    assert_eq!(b.step(BootEvent::Value(0)), BootAction::WriteSystemControl(0));
    assert_eq!(b.step(BootEvent::Done), BootAction::ReadAuxiliaryControl);
    assert_eq!(b.step(BootEvent::Value(0)), BootAction::ReadMainId);
    assert_eq!(b.step(BootEvent::Value(0x410F_C070)), BootAction::WriteAuxiliaryControl(0x40));
    assert_eq!(b.step(BootEvent::Done), BootAction::InvalidateTlbAndCaches);
    assert_eq!(b.step(BootEvent::Done), BootAction::SetVectorBase(0x8000));
    assert_eq!(b.step(BootEvent::Done), BootAction::SetStackPointer(0x0010_1000));
    assert_eq!(b.step(BootEvent::Done), BootAction::EnterSecondary(3));
    assert_eq!(b.step(BootEvent::Done), BootAction::Park);
}

#[test]
fn secondary_core_parks_in_single_core_build() {
    let mut b = BootSequencer::new(config(false));
    assert_eq!(identify(&mut b, 0x8000_0003), BootAction::Park);
    assert_eq!(b.step(BootEvent::Value(0)), BootAction::Park);
}

#[test]
fn core_beyond_count_parks() {
    let mut b = BootSequencer::new(config(true));
    assert_eq!(identify(&mut b, 0x8000_0004), BootAction::Park);
}

#[test]
fn user_mode_parks() {
    let mut b = BootSequencer::new(config(true));
    assert_eq!(b.step(BootEvent::Done), BootAction::MaskInterrupts);
    assert_eq!(b.step(BootEvent::Done), BootAction::ReadMode);
    assert_eq!(b.step(BootEvent::Value(0x6000_0010)), BootAction::Park);
    assert_eq!(b.step(BootEvent::Done), BootAction::Park);
}

#[test]
fn unexpected_event_parks() {
    let mut b = BootSequencer::new(config(true));
    assert_eq!(b.step(BootEvent::Done), BootAction::MaskInterrupts);
    assert_eq!(b.step(BootEvent::Value(7)), BootAction::Park);
}
