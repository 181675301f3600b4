//! The decisions of the reset-time bring-up sequence.
//!
//! Each core runs the sequence from reset, before any stack or initialized
//! static exists. [`BootSequencer::step`] takes what the core observed last
//! (a register value, or that the previous action is done) and says what to
//! do next; the caller carries the action out with the matching instruction
//! and feeds the outcome back.

use crate::bits::{field_read, lemma_field_at_zero};
use crate::scu::{smp_bits, SnoopControlUnit};
use vstd::prelude::*;

verus! {

/// CPSR.M value of user mode, which cannot configure the system.
pub const MODE_USER: u32 = 0x10;

/// SCTLR bits cleared at reset whatever their reset value: MMU (M), data
/// cache (C), branch prediction (Z), instruction cache (I), high vectors (V).
pub const SCTLR_RESET_CLEAR: u32 = 0x3805;

/// Link-time facts that the sequence needs.
#[derive(Clone, Copy, PartialEq, Eq, Structural, Debug)]
pub struct BootConfig {
    /// Whether secondary cores are woken, or parked for good.
    pub multicore: bool,
    /// Number of cores that a multi-core build runs.
    pub num_cpus: u32,
    /// Stack bytes per secondary core.
    pub cpu_stack_size: u32,
    /// Start of the reset-time stack region.
    pub stack_start: u32,
    /// End of the reset-time stack region: the primary core's stack top.
    pub stack_end: u32,
    /// Start of the zero-initialized statics.
    pub bss_start: u32,
    /// End of the zero-initialized statics.
    pub bss_end: u32,
    /// Address of the exception vector table.
    pub vectors: u32,
}

impl BootConfig {
    /// At least one core, and every per-core stack top is a 32-bit address.
    pub open spec fn wf(&self) -> bool {
        &&& self.num_cpus >= 1
        &&& self.stack_start + self.num_cpus * self.cpu_stack_size <= 0xFFFF_FFFF
    }
}

/// The initial stack pointer of secondary core `core`.
pub open spec fn secondary_stack(config: BootConfig, core: u32) -> int {
    config.stack_start + (config.num_cpus - core) * config.cpu_stack_size
}

/// What the core observed since the last action.
#[derive(Clone, Copy, PartialEq, Eq, Structural, Debug)]
pub enum BootEvent {
    /// The last action is carried out (or, at reset, there was none).
    Done,
    /// The register value, or release flag, that the last action read.
    Value(u32),
}

/// What the core does next.
#[derive(Clone, Copy, PartialEq, Eq, Structural, Debug)]
pub enum BootAction {
    /// Mask IRQs, FIQs and imprecise aborts.
    MaskInterrupts,
    /// Read the CPSR.
    ReadMode,
    /// Switch to supervisor mode.
    EnterSupervisorMode,
    /// Read the multiprocessor affinity register (MPIDR).
    ReadIdentity,
    /// Wait for an event, then read the release flag.
    AwaitRelease,
    /// Read the system control register (SCTLR).
    ReadSystemControl,
    /// Write SCTLR, then issue an instruction synchronization barrier.
    WriteSystemControl(u32),
    /// Read the auxiliary control register (ACTLR).
    ReadAuxiliaryControl,
    /// Read the main ID register (MIDR).
    ReadMainId,
    /// Write ACTLR.
    WriteAuxiliaryControl(u32),
    /// Invalidate the unified TLB, the instruction cache and the branch
    /// predictor, then issue a data and an instruction synchronization
    /// barrier.
    InvalidateTlbAndCaches,
    /// Write the vector base address register.
    SetVectorBase(u32),
    /// Set the stack pointer.
    SetStackPointer(u32),
    /// Zero the words from `start` up to `end`.
    ZeroRegion { start: u32, end: u32 },
    /// Call the primary entry point.
    EnterPrimary,
    /// Call the secondary entry point with this core index.
    EnterSecondary(u32),
    /// Wait for events forever.
    Park,
}

/// Where a core stands in the sequence: what it waits to hear about.
#[derive(Clone, Copy, PartialEq, Eq, Structural, Debug)]
pub enum BootStage {
    Reset,
    Masking,
    CheckingMode,
    EnteringSupervisor,
    Identifying,
    AwaitingRelease { core: u32 },
    ReadingControl { core: u32 },
    WritingControl { core: u32 },
    ReadingAux { core: u32 },
    ReadingMainId { core: u32, actlr: u32 },
    WritingAux { core: u32 },
    Invalidating { core: u32 },
    SettingVectors { core: u32 },
    SettingStack { core: u32 },
    ZeroingStatics,
    Running,
    Parked,
}

/// The next stage and action of a core in `stage` that observed `event`.
/// An event that the stage does not expect parks the core.
pub open spec fn boot_transition(config: BootConfig, stage: BootStage, event: BootEvent) -> (
    BootStage,
    BootAction,
) {
    let park = (BootStage::Parked, BootAction::Park);
    match (stage, event) {
        (BootStage::Reset, _) => (BootStage::Masking, BootAction::MaskInterrupts),
        (BootStage::Masking, BootEvent::Done) => (BootStage::CheckingMode, BootAction::ReadMode),
        (BootStage::CheckingMode, BootEvent::Value(cpsr)) => if cpsr & 0x1F == MODE_USER {
            park
        } else {
            (BootStage::EnteringSupervisor, BootAction::EnterSupervisorMode)
        },
        (BootStage::EnteringSupervisor, BootEvent::Done) => (
            BootStage::Identifying,
            BootAction::ReadIdentity,
        ),
        (BootStage::Identifying, BootEvent::Value(mpidr)) => {
            let core = mpidr & 0xFF;
            if core == 0 {
                (BootStage::ReadingControl { core }, BootAction::ReadSystemControl)
            } else if config.multicore && core < config.num_cpus {
                (BootStage::AwaitingRelease { core }, BootAction::AwaitRelease)
            } else {
                park
            }
        },
        (BootStage::AwaitingRelease { core }, BootEvent::Value(flag)) => if flag == 0 {
            (BootStage::ReadingControl { core }, BootAction::ReadSystemControl)
        } else {
            (BootStage::AwaitingRelease { core }, BootAction::AwaitRelease)
        },
        (BootStage::ReadingControl { core }, BootEvent::Value(sctlr)) => (
            BootStage::WritingControl { core },
            BootAction::WriteSystemControl(sctlr & !SCTLR_RESET_CLEAR),
        ),
        (BootStage::WritingControl { core }, BootEvent::Done) => (
            BootStage::ReadingAux { core },
            BootAction::ReadAuxiliaryControl,
        ),
        (BootStage::ReadingAux { core }, BootEvent::Value(actlr)) => (
            BootStage::ReadingMainId { core, actlr },
            BootAction::ReadMainId,
        ),
        (BootStage::ReadingMainId { core, actlr }, BootEvent::Value(midr)) => (
            BootStage::WritingAux { core },
            BootAction::WriteAuxiliaryControl(actlr | smp_bits(midr)),
        ),
        (BootStage::WritingAux { core }, BootEvent::Done) => (
            BootStage::Invalidating { core },
            BootAction::InvalidateTlbAndCaches,
        ),
        (BootStage::Invalidating { core }, BootEvent::Done) => (
            BootStage::SettingVectors { core },
            BootAction::SetVectorBase(config.vectors),
        ),
        (BootStage::SettingVectors { core }, BootEvent::Done) => (
            BootStage::SettingStack { core },
            BootAction::SetStackPointer(
                if core == 0 {
                    config.stack_end
                } else {
                    secondary_stack(config, core) as u32
                },
            ),
        ),
        (BootStage::SettingStack { core }, BootEvent::Done) => if core == 0 {
            (
                BootStage::ZeroingStatics,
                BootAction::ZeroRegion { start: config.bss_start, end: config.bss_end },
            )
        } else {
            (BootStage::Running, BootAction::EnterSecondary(core))
        },
        (BootStage::ZeroingStatics, BootEvent::Done) => (BootStage::Running, BootAction::EnterPrimary),
        _ => park,
    }
}

/// A core in some stage of its bring-up within one build.
pub open spec fn stage_wf(config: BootConfig, stage: BootStage) -> bool {
    match stage {
        BootStage::AwaitingRelease { core } => 0 < core < config.num_cpus,
        BootStage::ReadingControl { core } => core < config.num_cpus,
        BootStage::WritingControl { core } => core < config.num_cpus,
        BootStage::ReadingAux { core } => core < config.num_cpus,
        BootStage::ReadingMainId { core, .. } => core < config.num_cpus,
        BootStage::WritingAux { core } => core < config.num_cpus,
        BootStage::Invalidating { core } => core < config.num_cpus,
        BootStage::SettingVectors { core } => core < config.num_cpus,
        BootStage::SettingStack { core } => core < config.num_cpus,
        _ => true,
    }
}

/// The bring-up sequence of one core.
pub struct BootSequencer {
    pub config: BootConfig,
    pub stage: BootStage,
}

impl BootSequencer {
    pub open spec fn wf(&self) -> bool {
        self.config.wf() && stage_wf(self.config, self.stage)
    }

    /// A core at reset, in a build with `config`.
    pub fn new(config: BootConfig) -> (r: Self)
        requires
            config.wf(),
        ensures
            r.wf(),
            r.config == config,
            r.stage == BootStage::Reset,
    {
        BootSequencer { config, stage: BootStage::Reset }
    }

    /// Takes what the core observed since the last action and returns the
    /// next action.
    pub fn step(&mut self, event: BootEvent) -> (r: BootAction)
        requires
            old(self).wf(),
        ensures
            final(self).wf(),
            final(self).config == old(self).config,
            (final(self).stage, r) == boot_transition(old(self).config, old(self).stage, event),
    {
        let config = self.config;
        let (stage, action) = match (self.stage, event) {
            (BootStage::Reset, _) => (BootStage::Masking, BootAction::MaskInterrupts),
            (BootStage::Masking, BootEvent::Done) => (BootStage::CheckingMode, BootAction::ReadMode),
            (BootStage::CheckingMode, BootEvent::Value(cpsr)) => {
                let mode = field_read(cpsr, 0x1F, 0);
                proof {
                    lemma_field_at_zero(cpsr, 0x1F);
                }
                if mode == MODE_USER {
                    (BootStage::Parked, BootAction::Park)
                } else {
                    (BootStage::EnteringSupervisor, BootAction::EnterSupervisorMode)
                }
            },
            (BootStage::EnteringSupervisor, BootEvent::Done) => (
                BootStage::Identifying,
                BootAction::ReadIdentity,
            ),
            (BootStage::Identifying, BootEvent::Value(mpidr)) => {
                let core = field_read(mpidr, 0xFF, 0);
                proof {
                    lemma_field_at_zero(mpidr, 0xFF);
                }
                if core == 0 {
                    (BootStage::ReadingControl { core }, BootAction::ReadSystemControl)
                } else if config.multicore && core < config.num_cpus {
                    (BootStage::AwaitingRelease { core }, BootAction::AwaitRelease)
                } else {
                    (BootStage::Parked, BootAction::Park)
                }
            },
            (BootStage::AwaitingRelease { core }, BootEvent::Value(flag)) => if flag == 0 {
                (BootStage::ReadingControl { core }, BootAction::ReadSystemControl)
            } else {
                (BootStage::AwaitingRelease { core }, BootAction::AwaitRelease)
            },
            (BootStage::ReadingControl { core }, BootEvent::Value(sctlr)) => (
                BootStage::WritingControl { core },
                BootAction::WriteSystemControl(sctlr & !SCTLR_RESET_CLEAR),
            ),
            (BootStage::WritingControl { core }, BootEvent::Done) => (
                BootStage::ReadingAux { core },
                BootAction::ReadAuxiliaryControl,
            ),
            (BootStage::ReadingAux { core }, BootEvent::Value(actlr)) => (
                BootStage::ReadingMainId { core, actlr },
                BootAction::ReadMainId,
            ),
            (BootStage::ReadingMainId { core, actlr }, BootEvent::Value(midr)) => (
                BootStage::WritingAux { core },
                BootAction::WriteAuxiliaryControl(SnoopControlUnit::enable_smp(actlr, midr)),
            ),
            (BootStage::WritingAux { core }, BootEvent::Done) => (
                BootStage::Invalidating { core },
                BootAction::InvalidateTlbAndCaches,
            ),
            (BootStage::Invalidating { core }, BootEvent::Done) => (
                BootStage::SettingVectors { core },
                BootAction::SetVectorBase(config.vectors),
            ),
            (BootStage::SettingVectors { core }, BootEvent::Done) => {
                let sp = if core == 0 {
                    config.stack_end
                } else {
                    proof {
                        let (n, c, z) = (
                            config.num_cpus as int,
                            core as int,
                            config.cpu_stack_size as int,
                        );
                        assert((n - c) * z <= n * z) by (nonlinear_arith)
                            requires
                                0 < c < n,
                                z >= 0,
                        ;
                    }
                    config.stack_start + (config.num_cpus - core) * config.cpu_stack_size
                };
                (BootStage::SettingStack { core }, BootAction::SetStackPointer(sp))
            },
            (BootStage::SettingStack { core }, BootEvent::Done) => if core == 0 {
                (
                    BootStage::ZeroingStatics,
                    BootAction::ZeroRegion { start: config.bss_start, end: config.bss_end },
                )
            } else {
                (BootStage::Running, BootAction::EnterSecondary(core))
            },
            (BootStage::ZeroingStatics, BootEvent::Done) => (
                BootStage::Running,
                BootAction::EnterPrimary,
            ),
            _ => (BootStage::Parked, BootAction::Park),
        };
        self.stage = stage;
        action
    }
}

/// An entry point is called only on the step into `Running`, and a core
/// that is running or parked never calls one again: a core calls its entry
/// point at most once, and parks if the entry point returns.
pub proof fn lemma_entry_called_once(config: BootConfig, stage: BootStage, event: BootEvent)
    ensures
        ({
            let (next, action) = boot_transition(config, stage, event);
            &&& (action == BootAction::EnterPrimary || action is EnterSecondary) ==> next
                == BootStage::Running && stage != BootStage::Running && stage != BootStage::Parked
            &&& stage == BootStage::Running ==> next == BootStage::Parked && action
                == BootAction::Park
            &&& stage == BootStage::Parked ==> next == BootStage::Parked && action
                == BootAction::Park
        }),
{
}

/// Core 0 takes the primary path; another core of a multi-core build waits
/// for the release flag and then takes the secondary path with its own
/// index; any other core parks.
pub proof fn lemma_core_routing(config: BootConfig, mpidr: u32)
    ensures
        ({
            let (next, action) = boot_transition(
                config,
                BootStage::Identifying,
                BootEvent::Value(mpidr),
            );
            let core = mpidr & 0xFF;
            &&& core == 0 ==> next == (BootStage::ReadingControl { core: 0 })
            &&& (core != 0 && config.multicore && core < config.num_cpus) ==> next
                == (BootStage::AwaitingRelease { core }) && action == BootAction::AwaitRelease
            &&& (core != 0 && !(config.multicore && core < config.num_cpus)) ==> next
                == BootStage::Parked
        }),
{
}

} // verus!
