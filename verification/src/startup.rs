//! The power management unit's start-up sequence, as a state machine that
//! says which bus transfer to make next and what to do with its outcome.
//! The caller performs the transfers on the I2C bus.
use vstd::prelude::*;

use crate::pmu::{
    axp210_aldos, axp2101_view, enable_bit, voltage_command, ALDO_ENABLE_ADDRESS,
    ALDO_TARGETS_MV, AXP210_ALDO_NUMBER, DC4_TARGET_MV, ON_LED_COMMAND, PMU_LED_ON,
    SYSTEM_POWER_ON_BIT, VBUS_GOOD_STATUS, XPOWERS_AXP2101_CHGLED_SET_CTRL,
    XPOWERS_AXP2101_DCDC4_VOL1_MIN, XPOWERS_AXP2101_DCDC4_VOL_STEPS1, XPOWERS_AXP2101_DC_VOL3_CTRL,
    XPOWERS_AXP2101_PMU_STATUS1, XPOWERS_AXP2101_PMU_STATUS2,
};

verus! {

/// Where the start-up sequence stands.
#[derive(Debug, Clone, Copy, PartialEq, Eq, Structural)]
pub enum StartupStep {
    /// Read the first status byte; VBUS must be good.
    ReadVbus,
    /// Read the second status byte; the system must be powered on.
    ReadPower,
    /// Turn the charge LED on; a failure is ignored.
    LedOn,
    /// Read the charge-LED register back; it must hold the value written.
    ReadLed,
    /// Set the DC-DC converter's voltage.
    SetDc4,
    /// Set the voltage of this regulator.
    SetAldoVoltage(usize),
    /// Enable this regulator.
    EnableAldo(usize),
    /// The sequence is over.
    Finished,
}

/// The bus transfer to make next.
#[derive(Debug, Clone, Copy, PartialEq, Eq)]
pub enum BusAction {
    /// Write this register address, then read one byte back.
    WriteRead(u8),
    /// Write these two bytes: a register address and its value.
    Write([u8; 2]),
    /// Nothing is left to do.
    Done,
}

/// The outcome of the last transfer.
#[derive(Debug, Clone, Copy, PartialEq, Eq, Structural)]
pub enum BusOutcome {
    /// A read returned this byte.
    Read(u8),
    /// A read failed.
    ReadFailed,
    /// A write succeeded.
    Written,
    /// A write failed.
    WriteFailed,
}

/// Why start-up stopped.
#[derive(Debug, Clone, Copy, PartialEq, Eq, Structural)]
pub enum StartupFault {
    /// The first status byte read was not the one of a good VBUS.
    VbusNotGood,
    /// The second status byte read did not have the power-on bit.
    SystemNotPowered,
    /// The charge-LED register read back held this byte instead of the value written.
    LedNotSet(u8),
    /// Setting the DC-DC converter's voltage failed.
    Dc4Voltage,
    /// Setting the voltage of this regulator failed.
    AldoVoltage(usize),
    /// Enabling this regulator failed.
    AldoEnable(usize),
}

/// The regulator indices of a step are those of the AXP2101.
pub open spec fn step_wf(s: StartupStep) -> bool {
    match s {
        StartupStep::SetAldoVoltage(i) => i < AXP210_ALDO_NUMBER,
        StartupStep::EnableAldo(i) => i < AXP210_ALDO_NUMBER,
        _ => true,
    }
}

/// The register value that sets the DC-DC converter to [`DC4_TARGET_MV`].
pub open spec fn dc4_command() -> u8 {
    ((DC4_TARGET_MV - XPOWERS_AXP2101_DCDC4_VOL1_MIN) / (XPOWERS_AXP2101_DCDC4_VOL_STEPS1 as int))
        as u8
}

/// The register a step reads, if it is a read.
pub open spec fn planned_read(s: StartupStep) -> Option<u8> {
    match s {
        StartupStep::ReadVbus => Some(XPOWERS_AXP2101_PMU_STATUS1),
        StartupStep::ReadPower => Some(XPOWERS_AXP2101_PMU_STATUS2),
        StartupStep::ReadLed => Some(XPOWERS_AXP2101_CHGLED_SET_CTRL),
        _ => None,
    }
}

/// The two bytes a step writes, if it is a write.
pub open spec fn planned_write(s: StartupStep) -> Option<Seq<u8>> {
    match s {
        StartupStep::LedOn => Some(ON_LED_COMMAND@),
        StartupStep::SetDc4 => Some(seq![XPOWERS_AXP2101_DC_VOL3_CTRL, dc4_command()]),
        StartupStep::SetAldoVoltage(i) => Some(
            seq![
                axp2101_view().voltage_address_control[i as int],
                voltage_command(axp2101_view(), i as int, ALDO_TARGETS_MV@[i as int]),
            ],
        ),
        StartupStep::EnableAldo(i) => Some(seq![ALDO_ENABLE_ADDRESS, enable_bit(i)]),
        _ => None,
    }
}

/// The action of step `s`: its read, its write, or `Done` once the sequence is over.
pub open spec fn action_of(s: StartupStep, a: BusAction) -> bool {
    match a {
        BusAction::WriteRead(reg) => planned_read(s) == Some(reg),
        BusAction::Write(frame) => planned_write(s) == Some(frame@),
        BusAction::Done => s == StartupStep::Finished,
    }
}

/// The step after regulator `i`'s voltage is set.
pub open spec fn after_aldo_voltage(i: usize) -> StartupStep {
    if i + 1 < AXP210_ALDO_NUMBER {
        StartupStep::SetAldoVoltage((i + 1) as usize)
    } else {
        StartupStep::EnableAldo(0)
    }
}

/// The step after regulator `i` is enabled.
pub open spec fn after_aldo_enable(i: usize) -> StartupStep {
    if i + 1 < AXP210_ALDO_NUMBER {
        StartupStep::EnableAldo((i + 1) as usize)
    } else {
        StartupStep::Finished
    }
}

/// What follows step `s` when its transfer had outcome `o`. A read that fails is passed over; a
/// read that returns a wrong byte stops the sequence; the LED write goes on whatever happened;
/// every other write must succeed.
pub open spec fn next_step(s: StartupStep, o: BusOutcome) -> Result<StartupStep, StartupFault> {
    match s {
        StartupStep::ReadVbus => match o {
            BusOutcome::Read(b) => if b != VBUS_GOOD_STATUS {
                Err(StartupFault::VbusNotGood)
            } else {
                Ok(StartupStep::ReadPower)
            },
            _ => Ok(StartupStep::ReadPower),
        },
        StartupStep::ReadPower => match o {
            BusOutcome::Read(b) => if b & SYSTEM_POWER_ON_BIT == 0 {
                Err(StartupFault::SystemNotPowered)
            } else {
                Ok(StartupStep::LedOn)
            },
            _ => Ok(StartupStep::LedOn),
        },
        StartupStep::LedOn => Ok(StartupStep::ReadLed),
        StartupStep::ReadLed => match o {
            BusOutcome::Read(b) => if b != PMU_LED_ON {
                Err(StartupFault::LedNotSet(b))
            } else {
                Ok(StartupStep::SetDc4)
            },
            _ => Ok(StartupStep::SetDc4),
        },
        StartupStep::SetDc4 => if o == BusOutcome::Written {
            Ok(StartupStep::SetAldoVoltage(0))
        } else {
            Err(StartupFault::Dc4Voltage)
        },
        StartupStep::SetAldoVoltage(i) => if o == BusOutcome::Written {
            Ok(after_aldo_voltage(i))
        } else {
            Err(StartupFault::AldoVoltage(i))
        },
        StartupStep::EnableAldo(i) => if o == BusOutcome::Written {
            Ok(after_aldo_enable(i))
        } else {
            Err(StartupFault::AldoEnable(i))
        },
        StartupStep::Finished => Ok(StartupStep::Finished),
    }
}

/// The start-up sequence of the power management unit.
pub struct PmuStartup {
    step: StartupStep,
}

impl View for PmuStartup {
    type V = StartupStep;

    closed spec fn view(&self) -> StartupStep {
        self.step
    }
}

impl PmuStartup {
    #[verifier::type_invariant]
    spec fn well_formed(self) -> bool {
        step_wf(self.step)
    }

    /// A sequence at its first step.
    pub fn new() -> (r: Self)
        ensures
            r@ == StartupStep::ReadVbus,
    {
        PmuStartup { step: StartupStep::ReadVbus }
    }

    /// The current step, whose indices are those of the AXP2101.
    pub fn step(&self) -> (r: StartupStep)
        ensures
            r == self@,
            step_wf(r),
    {
        proof {
            use_type_invariant(self);
        }
        self.step
    }

    /// The transfer to make at the current step.
    pub fn action(&self) -> (a: BusAction)
        ensures
            action_of(self@, a),
    {
        proof {
            use_type_invariant(self);
        }
        let bank = axp210_aldos();
        match self.step {
            StartupStep::ReadVbus => BusAction::WriteRead(XPOWERS_AXP2101_PMU_STATUS1),
            StartupStep::ReadPower => BusAction::WriteRead(XPOWERS_AXP2101_PMU_STATUS2),
            StartupStep::LedOn => BusAction::Write(ON_LED_COMMAND),
            StartupStep::ReadLed => BusAction::WriteRead(XPOWERS_AXP2101_CHGLED_SET_CTRL),
            StartupStep::SetDc4 => BusAction::Write(set_dc4_voltage_frame()),
            StartupStep::SetAldoVoltage(i) => {
                let target: u16 = ALDO_TARGETS_MV[i];
                BusAction::Write(bank.voltage_frame(i, target))
            },
            StartupStep::EnableAldo(i) => match bank.enable_frame(i) {
                Ok(frame) => BusAction::Write(frame),
                Err(_) => BusAction::Done,
            },
            StartupStep::Finished => BusAction::Done,
        }
    }

    /// Takes in the outcome of the current step's transfer: moves to the next step, or reports
    /// why the sequence must stop and stays where it is.
    pub fn advance(&mut self, outcome: BusOutcome) -> (r: Result<(), StartupFault>)
        ensures
            match next_step(old(self)@, outcome) {
                Ok(n) => r is Ok && final(self)@ == n,
                Err(f) => r == Err::<(), StartupFault>(f) && final(self)@ == old(self)@,
            },
    {
        proof {
            use_type_invariant(&*self);
        }
        let next = match self.step {
            StartupStep::ReadVbus => match outcome {
                BusOutcome::Read(b) => if b != VBUS_GOOD_STATUS {
                    return Err(StartupFault::VbusNotGood);
                } else {
                    StartupStep::ReadPower
                },
                _ => StartupStep::ReadPower,
            },
            StartupStep::ReadPower => match outcome {
                BusOutcome::Read(b) => if b & SYSTEM_POWER_ON_BIT == 0 {
                    return Err(StartupFault::SystemNotPowered);
                } else {
                    StartupStep::LedOn
                },
                _ => StartupStep::LedOn,
            },
            StartupStep::LedOn => StartupStep::ReadLed,
            StartupStep::ReadLed => match outcome {
                BusOutcome::Read(b) => if b != PMU_LED_ON {
                    return Err(StartupFault::LedNotSet(b));
                } else {
                    StartupStep::SetDc4
                },
                _ => StartupStep::SetDc4,
            },
            StartupStep::SetDc4 => match outcome {
                BusOutcome::Written => StartupStep::SetAldoVoltage(0),
                _ => return Err(StartupFault::Dc4Voltage),
            },
            StartupStep::SetAldoVoltage(i) => match outcome {
                BusOutcome::Written => if i + 1 < AXP210_ALDO_NUMBER {
                    StartupStep::SetAldoVoltage(i + 1)
                } else {
                    StartupStep::EnableAldo(0)
                },
                _ => return Err(StartupFault::AldoVoltage(i)),
            },
            StartupStep::EnableAldo(i) => match outcome {
                BusOutcome::Written => if i + 1 < AXP210_ALDO_NUMBER {
                    StartupStep::EnableAldo(i + 1)
                } else {
                    StartupStep::Finished
                },
                _ => return Err(StartupFault::AldoEnable(i)),
            },
            StartupStep::Finished => StartupStep::Finished,
        };
        self.step = next;
        Ok(())
    }
}

/// The register write that sets the DC-DC converter to [`DC4_TARGET_MV`].
pub fn set_dc4_voltage_frame() -> (r: [u8; 2])
    ensures
        r@ == seq![XPOWERS_AXP2101_DC_VOL3_CTRL, dc4_command()],
{
    let value_to_write: u16 = (DC4_TARGET_MV - XPOWERS_AXP2101_DCDC4_VOL1_MIN)
        / XPOWERS_AXP2101_DCDC4_VOL_STEPS1 as u16;
    let r = [XPOWERS_AXP2101_DC_VOL3_CTRL, value_to_write as u8];
    assert(r@ =~= seq![r[0], r[1]]);
    r
}


/// The steps of a start-up that nothing stops, in order.
pub open spec fn startup_schedule() -> Seq<StartupStep> {
    seq![
        StartupStep::ReadVbus,
        StartupStep::ReadPower,
        StartupStep::LedOn,
        StartupStep::ReadLed,
        StartupStep::SetDc4,
        StartupStep::SetAldoVoltage(0),
        StartupStep::SetAldoVoltage(1),
        StartupStep::SetAldoVoltage(2),
        StartupStep::SetAldoVoltage(3),
        StartupStep::EnableAldo(0),
        StartupStep::EnableAldo(1),
        StartupStep::EnableAldo(2),
        StartupStep::EnableAldo(3),
    ]
}

/// The `k`-th step of the schedule, or `Finished` past its end.
pub open spec fn scheduled(k: int) -> StartupStep {
    if 0 <= k < startup_schedule().len() {
        startup_schedule()[k]
    } else {
        StartupStep::Finished
    }
}

/// Whether outcome `o` lets step `s` go on: a read goes on unless it returns a wrong byte, the
/// LED write always goes on, any other write only when it succeeded.
pub open spec fn acceptable(s: StartupStep, o: BusOutcome) -> bool {
    match s {
        StartupStep::ReadVbus => !(o matches BusOutcome::Read(b) && b != VBUS_GOOD_STATUS),
        StartupStep::ReadPower => !(o matches BusOutcome::Read(b) && b & SYSTEM_POWER_ON_BIT == 0),
        StartupStep::ReadLed => !(o matches BusOutcome::Read(b) && b != PMU_LED_ON),
        StartupStep::SetDc4 | StartupStep::SetAldoVoltage(_) | StartupStep::EnableAldo(_) => o
            == BusOutcome::Written,
        _ => true,
    }
}

/// Where the sequence ends up from step `s` after the outcomes `outcomes`, or the fault that
/// stopped it.
pub open spec fn run(s: StartupStep, outcomes: Seq<BusOutcome>) -> Result<StartupStep, StartupFault>
    decreases outcomes.len(),
{
    if outcomes.len() == 0 {
        Ok(s)
    } else {
        match next_step(s, outcomes[0]) {
            Ok(n) => run(n, outcomes.drop_first()),
            Err(f) => Err(f),
        }
    }
}

/// The register writes made from step `s` on, in order, while the outcomes `outcomes` come in.
pub open spec fn writes(s: StartupStep, outcomes: Seq<BusOutcome>) -> Seq<Seq<u8>>
    decreases outcomes.len(),
{
    if outcomes.len() == 0 {
        seq![]
    } else {
        let w = match planned_write(s) {
            Some(f) => seq![f],
            None => seq![],
        };
        match next_step(s, outcomes[0]) {
            Ok(n) => w + writes(n, outcomes.drop_first()),
            Err(_) => w,
        }
    }
}

/// The register writes of a start-up that nothing stops: the LED on, the DC-DC converter at
/// 1.2 V, the regulators at 3.3 V, 3.3 V, 2.5 V and 1.8 V, then each regulator enabled.
pub open spec fn startup_writes() -> Seq<Seq<u8>> {
    seq![
        seq![0x69u8, 0x35u8],
        seq![0x85u8, 70u8],
        seq![0x92u8, 28u8],
        seq![0x93u8, 28u8],
        seq![0x94u8, 20u8],
        seq![0x95u8, 13u8],
        seq![0x90u8, 1u8],
        seq![0x90u8, 2u8],
        seq![0x90u8, 4u8],
        seq![0x90u8, 8u8],
    ]
}

/// The writes that the schedule makes from its `k`-th step on.
pub open spec fn scheduled_writes(k: int) -> Seq<Seq<u8>>
    decreases startup_schedule().len() - k,
{
    if 0 <= k < startup_schedule().len() {
        let w = match planned_write(startup_schedule()[k]) {
            Some(f) => seq![f],
            None => seq![],
        };
        w + scheduled_writes(k + 1)
    } else {
        seq![]
    }
}

/// A step of the schedule with an acceptable outcome is followed by the next step of the
/// schedule.
proof fn lemma_schedule_step(k: int, o: BusOutcome)
    requires
        0 <= k < startup_schedule().len(),
        acceptable(startup_schedule()[k], o),
    ensures
        next_step(startup_schedule()[k], o) == Ok::<StartupStep, StartupFault>(scheduled(k + 1)),
{
}

proof fn lemma_run_schedule(k: int, outcomes: Seq<BusOutcome>)
    requires
        0 <= k <= startup_schedule().len(),
        outcomes.len() == startup_schedule().len() - k,
        forall|i: int| 0 <= i < outcomes.len() ==> acceptable(startup_schedule()[k + i], #[trigger] outcomes[i]),
    ensures
        run(scheduled(k), outcomes) == Ok::<StartupStep, StartupFault>(StartupStep::Finished),
        writes(scheduled(k), outcomes) == scheduled_writes(k),
    decreases outcomes.len(),
{
    if outcomes.len() > 0 {
        assert(acceptable(startup_schedule()[k + 0], outcomes[0]));
        lemma_schedule_step(k, outcomes[0]);
        let rest = outcomes.drop_first();
        assert forall|i: int| 0 <= i < rest.len() implies acceptable(
            startup_schedule()[(k + 1) + i],
            #[trigger] rest[i],
        ) by {
            assert(acceptable(startup_schedule()[k + (i + 1)], outcomes[i + 1]));
        }
        lemma_run_schedule(k + 1, rest);
    }
}

/// Start-up law: whatever the reads return, as long as none returns a wrong byte, and whatever
/// happens to the LED write, as long as every other write succeeds, the sequence goes through
/// its thirteen steps and finishes, having written exactly the LED command, the DC-DC voltage,
/// the four regulator voltages and the four enable bits, in that order.
pub proof fn lemma_startup_completes(outcomes: Seq<BusOutcome>)
    requires
        outcomes.len() == startup_schedule().len(),
        forall|i: int| 0 <= i < outcomes.len() ==> acceptable(startup_schedule()[i], #[trigger] outcomes[i]),
    ensures
        run(StartupStep::ReadVbus, outcomes) == Ok::<StartupStep, StartupFault>(StartupStep::Finished),
        writes(StartupStep::ReadVbus, outcomes) == startup_writes(),
{
    assert forall|i: int| 0 <= i < outcomes.len() implies acceptable(
        startup_schedule()[0 + i],
        #[trigger] outcomes[i],
    ) by {}
    lemma_run_schedule(0, outcomes);
    assert(enable_bit(0) == 1u8) by (bit_vector);
    assert(enable_bit(1) == 2u8) by (bit_vector);
    assert(enable_bit(2) == 4u8) by (bit_vector);
    assert(enable_bit(3) == 8u8) by (bit_vector);
    reveal_with_fuel(scheduled_writes, 14);
    assert(scheduled_writes(0) =~= startup_writes());
}

/// Fault law: a step stops the sequence exactly when its outcome is not acceptable: a read
/// returned a wrong byte, or a write other than the LED's failed.
pub proof fn lemma_fault_iff_unacceptable(s: StartupStep, o: BusOutcome)
    ensures
        next_step(s, o) is Err <==> !acceptable(s, o),
{
}

/// Progress law: every step of the schedule that goes on moves to the next step of the
/// schedule, so a start-up takes at most thirteen transfers; once finished it stays finished.
pub proof fn lemma_progress(k: int, o: BusOutcome)
    requires
        0 <= k <= startup_schedule().len(),
    ensures
        next_step(scheduled(k), o) matches Ok(n) ==> n == scheduled(k + 1),
{
    if k < startup_schedule().len() {
        if next_step(scheduled(k), o) is Ok {
            lemma_fault_iff_unacceptable(scheduled(k), o);
            lemma_schedule_step(k, o);
        }
    }
}

} // verus!
