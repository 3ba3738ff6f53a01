//! The AXP2101 power management unit: its adjustable low-dropout regulators
//! (ALDOs), the two-byte register writes that set and enable them, and the
//! unit's registers. Its start-up sequence is in `startup`.
use vstd::prelude::*;

verus! {

/// Register holding the first status byte.
pub const XPOWERS_AXP2101_PMU_STATUS1: u8 = 0x00;

/// Register holding the second status byte.
pub const XPOWERS_AXP2101_PMU_STATUS2: u8 = 0x01;

/// Value of the charge-LED control register that turns the LED on (its control is inverted).
pub const PMU_LED_ON: u8 = 0x35;

/// Charge-LED control register.
pub const XPOWERS_AXP2101_CHGLED_SET_CTRL: u8 = 0x69;

/// Voltage control register of the DC-DC converter set at start-up.
pub const XPOWERS_AXP2101_DC_VOL3_CTRL: u8 = 0x85;

/// The write that turns the charge LED on.
pub const ON_LED_COMMAND: [u8; 2] = [0x69, 0x35];

/// Lowest voltage of the DC-DC converter, in millivolts.
pub const XPOWERS_AXP2101_DCDC4_VOL1_MIN: u16 = 500;

/// Step of the DC-DC converter's voltage, in millivolts.
pub const XPOWERS_AXP2101_DCDC4_VOL_STEPS1: u8 = 10;

/// Voltage given to the DC-DC converter at start-up, in millivolts.
pub const DC4_TARGET_MV: u16 = 1200;

/// First status byte of a unit whose VBUS is good.
pub const VBUS_GOOD_STATUS: u8 = 32;

/// Bit of the second status byte that is set while the system is powered on.
pub const SYSTEM_POWER_ON_BIT: u8 = 16;

/// Number of ALDOs of the AXP2101.
pub const AXP210_ALDO_NUMBER: usize = 4;

/// Voltage register of the first ALDO; the others follow it.
pub const LDO_VOL_CONTROL_BASE_REGISTER_ADDR: u8 = 0x92;

/// Register whose bits enable the ALDOs.
pub const ALDO_ENABLE_ADDRESS: u8 = 0x90;

/// Lowest ALDO voltage, in millivolts.
pub const ALDO_MIN_MV: u16 = 500;

/// Step of the ALDO voltages, in millivolts.
pub const ALDO_STEP_MV: u16 = 100;

/// Voltages given to the ALDOs at start-up, in millivolts.
pub const ALDO_TARGETS_MV: [u16; 4] = [3300, 3300, 2500, 1800];

/// What a bank of ALDOs is: per regulator its lowest voltage, its step and its voltage
/// register, and the register that enables them.
pub struct AldoBankView {
    pub min_voltage: Seq<u16>,
    pub steps_mv: Seq<u16>,
    pub voltage_address_control: Seq<u8>,
    pub enable_address: u8,
}

/// A bank of `ALDO_NUMBER` regulators that share one enable register.
pub struct AldoBank<const ALDO_NUMBER: usize> {
    min_voltage: [u16; ALDO_NUMBER],
    steps_mv: [u16; ALDO_NUMBER],
    voltage_address_control: [u8; ALDO_NUMBER],
    enable_address: u8,
}

impl<const ALDO_NUMBER: usize> View for AldoBank<ALDO_NUMBER> {
    type V = AldoBankView;

    closed spec fn view(&self) -> AldoBankView {
        AldoBankView {
            min_voltage: self.min_voltage@,
            steps_mv: self.steps_mv@,
            voltage_address_control: self.voltage_address_control@,
            enable_address: self.enable_address,
        }
    }
}

/// The command byte that sets regulator `aldo` of `bank` to `mv` millivolts: the number of
/// steps above its lowest voltage, truncated to a byte.
pub open spec fn voltage_command(bank: AldoBankView, aldo: int, mv: u16) -> u8 {
    (((mv - bank.min_voltage[aldo]) / (bank.steps_mv[aldo] as int)) % 256) as u8
}

/// The bit that enables regulator `aldo` in the enable register.
pub open spec fn enable_bit(aldo: usize) -> u8 {
    (1u8 << aldo)
}

impl<const ALDO_NUMBER: usize> AldoBank<ALDO_NUMBER> {
    /// Every regulator has a step of at least one millivolt.
    #[verifier::type_invariant]
    spec fn well_formed(self) -> bool {
        forall|i: int| 0 <= i < ALDO_NUMBER ==> self.steps_mv@[i] > 0
    }

    /// The command byte that sets regulator `aldo_number` to `voltage_in_mv` millivolts.
    pub fn compute_voltage_command(&self, aldo_number: usize, voltage_in_mv: u16) -> (r: u8)
        requires
            aldo_number < ALDO_NUMBER,
            self@.min_voltage[aldo_number as int] <= voltage_in_mv,
        ensures
            r == voltage_command(self@, aldo_number as int, voltage_in_mv),
    {
        proof {
            use_type_invariant(self);
        }
        let scale_from_zero: u16 = voltage_in_mv - self.min_voltage[aldo_number];
        let steps: u16 = scale_from_zero / self.steps_mv[aldo_number];
        let r: u8 = #[verifier::truncate] (steps as u8);
        assert(r == (steps % 256) as u8) by (bit_vector)
            requires
                r == #[verifier::truncate] (steps as u8),
        ;
        r
    }

    /// `Err(0)` when `aldo_number` is past the number of regulators, `Ok(())` otherwise (the
    /// number of regulators itself passes).
    pub fn check_aldo_number(&self, aldo_number: usize) -> (r: Result<(), u8>)
        ensures
            r == (if aldo_number > ALDO_NUMBER {
                Err::<(), u8>(0u8)
            } else {
                Ok(())
            }),
    {
        if aldo_number > ALDO_NUMBER {
            return Err(0);
        }
        Ok(())
    }

    /// The register write that sets regulator `aldo_number` to `voltage_in_mv` millivolts.
    pub fn voltage_frame(&self, aldo_number: usize, voltage_in_mv: u16) -> (r: [u8; 2])
        requires
            aldo_number < ALDO_NUMBER,
            self@.min_voltage[aldo_number as int] <= voltage_in_mv,
        ensures
            r@ == seq![
                self@.voltage_address_control[aldo_number as int],
                voltage_command(self@, aldo_number as int, voltage_in_mv),
            ],
    {
        let r = [
            self.voltage_address_control[aldo_number],
            self.compute_voltage_command(aldo_number, voltage_in_mv),
        ];
        assert(r@ =~= seq![r[0], r[1]]);
        r
    }

    /// The register write that enables regulator `aldo_number`, or the error of
    /// [`Self::check_aldo_number`].
    pub fn enable_frame(&self, aldo_number: usize) -> (r: Result<[u8; 2], u8>)
        requires
            aldo_number <= ALDO_NUMBER ==> aldo_number < 8,
        ensures
            aldo_number > ALDO_NUMBER ==> r == Err::<[u8; 2], u8>(0u8),
            aldo_number <= ALDO_NUMBER ==> (r matches Ok(f) && f@ == seq![
                self@.enable_address,
                enable_bit(aldo_number),
            ]),
    {
        match self.check_aldo_number(aldo_number) {
            Ok(_v) => {},
            Err(e) => return Err(e),
        }
        let r = [self.enable_address, 1u8 << aldo_number];
        assert(r@ =~= seq![r[0], r[1]]);
        Ok(r)
    }
}

/// The AXP2101's regulators: from 500 mV in steps of 100 mV, voltage registers from 0x92 on,
/// enabled through register 0x90.
pub open spec fn axp2101_view() -> AldoBankView {
    AldoBankView {
        min_voltage: seq![ALDO_MIN_MV, ALDO_MIN_MV, ALDO_MIN_MV, ALDO_MIN_MV],
        steps_mv: seq![ALDO_STEP_MV, ALDO_STEP_MV, ALDO_STEP_MV, ALDO_STEP_MV],
        voltage_address_control: seq![
            LDO_VOL_CONTROL_BASE_REGISTER_ADDR,
            (LDO_VOL_CONTROL_BASE_REGISTER_ADDR + 1) as u8,
            (LDO_VOL_CONTROL_BASE_REGISTER_ADDR + 2) as u8,
            (LDO_VOL_CONTROL_BASE_REGISTER_ADDR + 3) as u8,
        ],
        enable_address: ALDO_ENABLE_ADDRESS,
    }
}

/// The AXP2101's bank of regulators.
pub fn axp210_aldos() -> (r: AldoBank<4>)
    ensures
        r@ == axp2101_view(),
{
    let r = AldoBank {
        min_voltage: [ALDO_MIN_MV, ALDO_MIN_MV, ALDO_MIN_MV, ALDO_MIN_MV],
        steps_mv: [ALDO_STEP_MV, ALDO_STEP_MV, ALDO_STEP_MV, ALDO_STEP_MV],
        voltage_address_control: [
            LDO_VOL_CONTROL_BASE_REGISTER_ADDR,
            LDO_VOL_CONTROL_BASE_REGISTER_ADDR + 1,
            LDO_VOL_CONTROL_BASE_REGISTER_ADDR + 2,
            LDO_VOL_CONTROL_BASE_REGISTER_ADDR + 3,
        ],
        enable_address: ALDO_ENABLE_ADDRESS,
    };
    assert(r@ =~= axp2101_view());
    r
}


/// Voltage law: when the number of steps fits in a byte, the command selects the highest level of
/// the regulator that does not exceed the voltage asked for.
pub proof fn lemma_voltage_command_floor(bank: AldoBankView, aldo: int, mv: u16)
    requires
        0 <= aldo < bank.min_voltage.len(),
        aldo < bank.steps_mv.len(),
        bank.steps_mv[aldo] > 0,
        bank.min_voltage[aldo] <= mv,
        (mv - bank.min_voltage[aldo]) / (bank.steps_mv[aldo] as int) < 256,
    ensures
        bank.min_voltage[aldo] + voltage_command(bank, aldo, mv) * bank.steps_mv[aldo] <= mv,
        mv < bank.min_voltage[aldo] + (voltage_command(bank, aldo, mv) + 1) * bank.steps_mv[aldo],
{
    let d: int = mv - bank.min_voltage[aldo];
    let st: int = bank.steps_mv[aldo] as int;
    let q: int = d / st;
    assert(0 <= q < 256 ==> q % 256 == q);
    assert(q * st <= d < (q + 1) * st) by (nonlinear_arith)
        requires
            st > 0,
            d >= 0,
            q == d / st,
    ;
}

} // verus!
