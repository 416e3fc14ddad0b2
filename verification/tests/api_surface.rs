//! The smaller pieces of the API: status codes and sentinels, address and
//! protocol parsing, probe selection, session planning, log mapping, progress
//! clamping, and the assembled command output.

use stm32cubeprogrammer::api_log::{
    log_level_for, progress_update, LogLevel, LogMessageType, Verbosity,
};
use stm32cubeprogrammer::api_types::{CoreRegister, GeneralInformation};
use stm32cubeprogrammer::cube_programmer::ConnectedProgrammer;
use stm32cubeprogrammer::error::{
    Action, ConnectionFailureKind, CubeProgrammerError, ErrorCode, ReturnCode,
};
use stm32cubeprogrammer::output::{CommandOutput, Output};
use stm32cubeprogrammer::probe::{
    ConnectionMode, ConnectionParameters, Frequency, Probe, Protocol, ResetMode, Serial,
};
use stm32cubeprogrammer::session_plan::{
    select_probe, ConnectionDirective, ConnectionState, ProgrammerConnection,
};
use stm32cubeprogrammer::utility::{remove_extended_path_prefix, HexAddress};

fn make_session(name: &str) -> ConnectedProgrammer {
    ConnectedProgrammer {
        probe: Probe {
            serial_number: "a".to_string(),
            board: "NUCLEO-WB55".to_string(),
            firmware_version: "V2J38M27".to_string(),
            debug_port: Protocol::Swd,
            connection_mode: ConnectionMode::Normal,
            reset_mode: ResetMode::Hardware,
            shared: false,
            frequency: 4000,
            swd_frequencies: vec![4000, 1800, 950, 400],
            jtag_frequencies: vec![18000, 9000, 4500, 2250],
        },
        general_information: GeneralInformation::from_fields(
            0x495,
            1024 * 1024,
            0x0100,
            "MCU".to_string(),
            "Cortex-M4".to_string(),
            name.to_string(),
            "WB".to_string(),
            "wireless dual core".to_string(),
            "Rev A".to_string(),
            "NUCLEO-WB55".to_string(),
        ),
    }
}

#[test]
fn hex_addresses_parse_with_and_without_prefix() {
    assert_eq!(HexAddress::from_str("0x123").unwrap().0, 0x123);
    assert_eq!(HexAddress::from_str("0X1a").unwrap().0, 0x1A);
    assert_eq!(HexAddress::from_str("08000000").unwrap().0, 0x0800_0000);
    assert_eq!(HexAddress::from_str("0xFFFFFFFF").unwrap().0, u32::MAX);
    assert_eq!(HexAddress::from_str("0x00000000001").unwrap().0, 1);
    assert!(HexAddress::from_str("").is_err());
    assert!(HexAddress::from_str("0x").is_err());
    assert!(HexAddress::from_str("wxyz").is_err());
    assert!(HexAddress::from_str("0x100000000").is_err());
}

#[test]
fn extended_path_prefix_is_stripped() {
    assert_eq!(remove_extended_path_prefix("\\\\?\\C:\\tools"), "C:\\tools");
    assert_eq!(remove_extended_path_prefix("/opt/st/cubeprogrammer"), "/opt/st/cubeprogrammer");
    assert_eq!(remove_extended_path_prefix(""), "");
}

#[test]
fn protocols_and_serials_parse() {
    assert_eq!(Protocol::from_str("swd").unwrap(), Protocol::Swd);
    assert_eq!(Protocol::from_str("jtag").unwrap(), Protocol::Jtag);
    assert!(Protocol::from_str("uart").is_err());
    assert_eq!(Serial::from_str("066DFF3").unwrap().as_str(), "066DFF3");
    assert!(Serial::from_str("").is_err());
    assert_eq!(Protocol::Swd.raw_value(), 1);
    assert_eq!(Protocol::from_raw(0), Some(Protocol::Jtag));
    assert_eq!(ResetMode::Core.raw_value(), 2);
    assert_eq!(ConnectionMode::HotPlug.raw_value(), 1);
    assert_eq!(ConnectionMode::from_raw(4), Some(ConnectionMode::HardwareResetPulse));
    assert_eq!(ConnectionMode::from_raw(9), None);
}

#[test]
fn default_connection_parameters_match_the_driver_defaults() {
    let params = ConnectionParameters::default();
    assert_eq!(params.frequency, Frequency::Highest);
    assert_eq!(params.reset_mode, ResetMode::Hardware);
    assert_eq!(params.connection_mode, ConnectionMode::Normal);
}

#[test]
fn return_codes_respect_their_sentinel() {
    assert!(ReturnCode::expect_zero(0).check(Action::Reset).is_ok());
    assert!(ReturnCode::expect_zero(1).check(Action::Reset).is_err());
    assert!(ReturnCode::expect_one(1).check(Action::StartFus).is_ok());
    assert!(ReturnCode::expect_one(0).check(Action::StartFus).is_err());
    let r = ReturnCode::expect_zero(-14).check(Action::MassErase);
    assert!(matches!(
        r,
        Err(CubeProgrammerError::CommandFailure {
            action: Action::MassErase,
            return_code: ErrorCode::SecurityError,
        })
    ));
}

#[test]
fn error_codes_map_the_documented_range() {
    assert_eq!(ErrorCode::from_raw(-1), ErrorCode::DeviceNotConnected);
    assert_eq!(ErrorCode::from_raw(-5), ErrorCode::UnsupportedOperation);
    assert_eq!(ErrorCode::from_raw(-16), ErrorCode::RdpEnabledError);
    assert_eq!(ErrorCode::from_raw(-17), ErrorCode::UnknownError);
    assert_eq!(ErrorCode::from_raw(99), ErrorCode::Unknown(99));
}

#[test]
fn select_probe_prefers_requested_serial() {
    let probes = vec![
        Serial::from_str("a").unwrap(),
        Serial::from_str("b").unwrap(),
        Serial::from_str("c").unwrap(),
    ];
    assert_eq!(select_probe(&probes, &None).unwrap(), 0);
    let wanted = Some(Serial::from_str("b").unwrap());
    assert_eq!(select_probe(&probes, &wanted).unwrap(), 1);
    let missing = Some(Serial::from_str("zz").unwrap());
    assert!(matches!(
        select_probe(&probes, &missing),
        Err(CubeProgrammerError::ConnectionFailure(ConnectionFailureKind::ProbeNotFound))
    ));
}

#[test]
fn session_plan_reuses_or_reconnects() {
    let mut plan = ProgrammerConnection::new(Protocol::Swd);
    assert_eq!(plan.connection(), ConnectionDirective::Connect);
    assert_eq!(plan.fus_connection(), ConnectionDirective::Connect);
    plan.note_connected();
    assert_eq!(plan.state, ConnectionState::Connected);
    assert_eq!(plan.connection(), ConnectionDirective::UseCurrent);
    assert_eq!(plan.fus_connection(), ConnectionDirective::DisconnectThenConnect);
    plan.note_fus_connected();
    assert_eq!(plan.fus_connection(), ConnectionDirective::UseCurrent);
    assert_eq!(plan.connection(), ConnectionDirective::DisconnectThenConnect);
    plan.note_disconnected();
    assert_eq!(plan.connection(), ConnectionDirective::Connect);
}

#[test]
fn log_levels_follow_the_message_class() {
    assert_eq!(log_level_for(LogMessageType::Verbosity3), LogLevel::Trace);
    assert_eq!(log_level_for(LogMessageType::Verbosity2), LogLevel::Debug);
    assert_eq!(log_level_for(LogMessageType::Normal), LogLevel::Info);
    assert_eq!(log_level_for(LogMessageType::WarningNoPopup), LogLevel::Warn);
    assert_eq!(log_level_for(LogMessageType::Error), LogLevel::Error);
    assert_eq!(log_level_for(LogMessageType::Unknown(77)), LogLevel::Error);
    assert_eq!(LogMessageType::from_raw(3), LogMessageType::Title);
    assert_eq!(LogMessageType::from_raw(42), LogMessageType::Unknown(42));
    assert_eq!(Verbosity::from_raw(3), Verbosity::Level3);
    assert_eq!(Verbosity::Level2.raw_value(), 2);
}

#[test]
fn progress_reports_are_clamped_and_filtered() {
    assert_eq!(progress_update(5, 0), None);
    assert_eq!(progress_update(-1, 10), None);
    assert_eq!(progress_update(5, -10), None);
    assert_eq!(progress_update(15, 10), Some((10, 10)));
    assert_eq!(progress_update(5, 10), Some((5, 10)));
}

#[test]
fn core_registers_use_their_enumerated_ids() {
    assert_eq!(CoreRegister::R0.raw_value(), 0);
    assert_eq!(CoreRegister::R12.raw_value(), 12);
    assert_eq!(CoreRegister::Sp.raw_value(), 13);
    assert_eq!(CoreRegister::Lr.raw_value(), 14);
    assert_eq!(CoreRegister::Pc.raw_value(), 15);
}

#[test]
fn session_commands_track_liveness_and_sentinels() {
    let session = make_session("STM32WB55xx");
    assert!(session.check_connection(1).is_ok());
    assert!(session.check_connection(0).is_err());
    assert!(session.reset_target(ResetMode::Software, 1, Some(0)).is_ok());
    assert!(matches!(
        session.reset_target(ResetMode::Software, 0, None),
        Err(CubeProgrammerError::CommandFailure { action: Action::CheckConnection, .. })
    ));
    assert!(session.mass_erase(1, Some(0)).is_ok());
    assert!(session.enable_read_out_protection(1, Some(0)).is_ok());
    assert!(session.disable_read_out_protection(1, Some(0)).is_ok());
    assert_eq!(ConnectedProgrammer::read_out_protection_command(), "-ob rdp=0xbb");
    assert!(session.save_memory(0x0800_0000, 1024, 1, Some(0)).is_ok());
    assert!(matches!(
        session.save_memory(0xF000_0000, 1024, 1, None),
        Err(CubeProgrammerError::ResourceExhaustion { action: Action::SaveMemory })
    ));
    assert!(session.write_core_register(CoreRegister::R0, 7, 1, Some(0)).is_ok());
    assert_eq!(
        session.read_core_register(CoreRegister::R0, 1, Some((0, 0x12345678))).unwrap(),
        0x12345678
    );
    assert!(session.start_wireless_stack(Some(1)).is_ok());
    assert!(session.start_wireless_stack(Some(0)).is_err());
    let plain = make_session("STM32F407");
    assert!(matches!(
        plain.start_wireless_stack(None),
        Err(CubeProgrammerError::Unsupported { action: Action::StartFus, .. })
    ));
}

#[test]
fn output_collects_the_run() {
    let mut output = Output::new("reset protect".to_string(), "/opt/st".to_string());
    assert_eq!(output.schema_version, "1");
    assert!(output.connected_probes.is_none());
    let probes = vec![Serial::from_str("a").unwrap(), Serial::from_str("b").unwrap()];
    output.add_probe_list(&probes);
    assert_eq!(output.connected_probes.as_ref().unwrap().len(), 2);
    output.add_selected_probe(&probes[1]);
    assert_eq!(output.selected_probe.as_ref().unwrap().as_str(), "b");
    let info = make_session("STM32WB55xx").general_information;
    output.add_general_information(&info);
    assert!(output.general_information.as_ref().unwrap().fus_support);
    output.add_command_output(CommandOutput::MassErase);
    output.add_command_output(CommandOutput::Reset { reset_mode: ResetMode::Hardware });
    let commands = output.command_output.as_ref().unwrap();
    assert_eq!(commands.len(), 2);
    assert!(matches!(commands[0], CommandOutput::MassErase));
    assert!(matches!(commands[1], CommandOutput::Reset { .. }));
}

#[test]
fn fus_support_follows_the_device_name() {
    let wireless = make_session("STM32WB55xx").general_information;
    assert!(wireless.fus_support);
    assert!(wireless.fus_layout().is_some());
    let plain = make_session("STM32F407").general_information;
    assert!(!plain.fus_support);
    assert!(plain.fus_layout().is_none());
}
