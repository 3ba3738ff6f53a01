use http_node::pmu::axp210_aldos;
use http_node::startup::{
    set_dc4_voltage_frame, BusAction, BusOutcome, PmuStartup, StartupFault, StartupStep,
};

#[test]
fn voltage_commands_of_the_startup_targets() {
    let bank = axp210_aldos();
    assert_eq!(bank.compute_voltage_command(0, 3300), 28);
    assert_eq!(bank.compute_voltage_command(2, 2500), 20);
    assert_eq!(bank.compute_voltage_command(3, 1800), 13);
    assert_eq!(bank.compute_voltage_command(1, 500), 0);
    assert_eq!(bank.compute_voltage_command(1, 549), 0);
    assert_eq!(bank.compute_voltage_command(1, 650), 1);
}

#[test]
fn voltage_command_truncates_to_a_byte() {
    let bank = axp210_aldos();
    assert_eq!(bank.compute_voltage_command(0, 26100), 0);
    assert_eq!(bank.compute_voltage_command(0, 26200), 1);
}

#[test]
fn check_aldo_number_lets_the_count_itself_pass() {
    let bank = axp210_aldos();
    assert_eq!(bank.check_aldo_number(0), Ok(()));
    assert_eq!(bank.check_aldo_number(4), Ok(()));
    assert_eq!(bank.check_aldo_number(5), Err(0));
}

#[test]
fn frames_of_the_bank() {
    let bank = axp210_aldos();
    assert_eq!(bank.voltage_frame(0, 3300), [0x92, 28]);
    assert_eq!(bank.voltage_frame(3, 1800), [0x95, 13]);
    assert_eq!(bank.enable_frame(0), Ok([0x90, 1]));
    assert_eq!(bank.enable_frame(2), Ok([0x90, 4]));
    assert_eq!(bank.enable_frame(4), Ok([0x90, 16]));
    assert_eq!(bank.enable_frame(5), Err(0));
    assert_eq!(set_dc4_voltage_frame(), [0x85, 70]);
}

fn run(outcome_for: impl Fn(&BusAction) -> BusOutcome) -> (Vec<BusAction>, Result<(), StartupFault>) {
    let mut startup = PmuStartup::new();
    let mut actions = Vec::new();
    loop {
        let action = startup.action();
        if action == BusAction::Done {
            return (actions, Ok(()));
        }
        actions.push(action);
        if let Err(f) = startup.advance(outcome_for(&action)) {
            return (actions, Err(f));
        }
    }
}

fn good(action: &BusAction) -> BusOutcome {
    match action {
        BusAction::WriteRead(0x00) => BusOutcome::Read(32),
        BusAction::WriteRead(0x01) => BusOutcome::Read(16),
        BusAction::WriteRead(_) => BusOutcome::Read(0x35),
        _ => BusOutcome::Written,
    }
}

#[test]
fn startup_goes_through_its_thirteen_transfers() {
    let (actions, result) = run(good);
    assert_eq!(result, Ok(()));
    assert_eq!(
        actions,
        vec![
            BusAction::WriteRead(0x00),
            BusAction::WriteRead(0x01),
            BusAction::Write([0x69, 0x35]),
            BusAction::WriteRead(0x69),
            BusAction::Write([0x85, 70]),
            BusAction::Write([0x92, 28]),
            BusAction::Write([0x93, 28]),
            BusAction::Write([0x94, 20]),
            BusAction::Write([0x95, 13]),
            BusAction::Write([0x90, 1]),
            BusAction::Write([0x90, 2]),
            BusAction::Write([0x90, 4]),
            BusAction::Write([0x90, 8]),
        ]
    );
}

#[test]
fn failed_reads_and_led_write_are_passed_over() {
    let (actions, result) = run(|a| match a {
        BusAction::WriteRead(_) => BusOutcome::ReadFailed,
        BusAction::Write([0x69, _]) => BusOutcome::WriteFailed,
        _ => BusOutcome::Written,
    });
    assert_eq!(result, Ok(()));
    assert_eq!(actions.len(), 13);
}

#[test]
fn bad_vbus_stops_startup() {
    let (actions, result) = run(|a| match a {
        BusAction::WriteRead(0x00) => BusOutcome::Read(0),
        other => good(other),
    });
    assert_eq!(result, Err(StartupFault::VbusNotGood));
    assert_eq!(actions.len(), 1);
}

#[test]
fn unpowered_system_stops_startup() {
    let (_, result) = run(|a| match a {
        BusAction::WriteRead(0x01) => BusOutcome::Read(0xef),
        other => good(other),
    });
    assert_eq!(result, Err(StartupFault::SystemNotPowered));
}

#[test]
fn led_read_back_must_match() {
    let (_, result) = run(|a| match a {
        BusAction::WriteRead(0x69) => BusOutcome::Read(0x34),
        other => good(other),
    });
    assert_eq!(result, Err(StartupFault::LedNotSet(0x34)));
}

#[test]
fn failed_writes_stop_startup() {
    let (_, r) = run(|a| match a {
        BusAction::Write([0x85, _]) => BusOutcome::WriteFailed,
        other => good(other),
    });
    assert_eq!(r, Err(StartupFault::Dc4Voltage));
    let (_, r) = run(|a| match a {
        BusAction::Write([0x94, _]) => BusOutcome::WriteFailed,
        other => good(other),
    });
    assert_eq!(r, Err(StartupFault::AldoVoltage(2)));
    let (_, r) = run(|a| match a {
        BusAction::Write([0x90, 8]) => BusOutcome::WriteFailed,
        other => good(other),
    });
    assert_eq!(r, Err(StartupFault::AldoEnable(3)));
}

#[test]
fn fault_keeps_the_step_and_finished_stays_finished() {
    let mut startup = PmuStartup::new();
    assert_eq!(startup.advance(BusOutcome::Read(1)), Err(StartupFault::VbusNotGood));
    assert_eq!(startup.step(), StartupStep::ReadVbus);
    let mut done = PmuStartup::new();
    while done.action() != BusAction::Done {
        let a = done.action();
        done.advance(good(&a)).unwrap();
    }
    assert_eq!(done.step(), StartupStep::Finished);
    assert_eq!(done.advance(BusOutcome::WriteFailed), Ok(()));
    assert_eq!(done.step(), StartupStep::Finished);
}
