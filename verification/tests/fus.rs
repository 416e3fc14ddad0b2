//! Firmware update service behaviour: version words and strings, the
//! validity-keyword check, family detection, and the handshake's support check.

use stm32cubeprogrammer::api_types::GeneralInformation;
use stm32cubeprogrammer::cube_programmer::CubeProgrammer;
use stm32cubeprogrammer::error::{Action, CubeProgrammerError, UnexpectedOutput};
use stm32cubeprogrammer::fus::{
    decode_fus_info, fus_family_of, fus_field_addresses, fus_info_table_address, FusFamily,
    FusLayout, FusTableWords, Version, FUS_DEVICE_INFO_TABLE_VALIDITY_KEYWORD,
};
use stm32cubeprogrammer::probe::{
    ConnectionMode, ConnectionParameters, Probe, Protocol, ResetMode, Serial,
};

fn make_probe(serial: &str) -> Probe {
    Probe {
        serial_number: serial.to_string(),
        board: "NUCLEO-WB55".to_string(),
        firmware_version: "V2J38M27".to_string(),
        debug_port: Protocol::Swd,
        connection_mode: ConnectionMode::Normal,
        reset_mode: ResetMode::Hardware,
        shared: false,
        frequency: 4000,
        swd_frequencies: vec![4000, 1800, 950, 400],
        jtag_frequencies: vec![18000, 9000, 4500, 2250],
    }
}

fn make_info(name: &str) -> GeneralInformation {
    GeneralInformation::from_fields(
        0x495,
        1024 * 1024,
        0x0100,
        "MCU".to_string(),
        "Cortex-M4".to_string(),
        name.to_string(),
        "WB".to_string(),
        "wireless dual core".to_string(),
        "Rev A".to_string(),
        "NUCLEO-WB55".to_string(),
    )
}

fn wb5x_words(state: u32) -> FusTableWords {
    FusTableWords {
        state,
        fus_version: 0x01020000,
        wireless_stack_version: 0x01110000,
        uid64: 0x0080E1_00_0012_3456,
        device_id: 0x0495,
    }
}

#[test]
fn version_word_decodes_by_byte() {
    let v = Version::from_word(0x01020304, true);
    assert_eq!(v.major, 1);
    assert_eq!(v.minor, 2);
    assert_eq!(v.sub, 3);
    assert_eq!(v.type_, Some(4));
    let v = Version::from_word(0x01020304, false);
    assert_eq!(v.type_, None);
}

#[test]
fn version_parses_three_and_four_components() {
    let v = Version::from_str("1.2.3").unwrap();
    assert_eq!(v.major, 1);
    assert_eq!(v.minor, 2);
    assert_eq!(v.sub, 3);
    assert_eq!(v.type_, None);
    let v = Version::from_str("1.2.3.4").unwrap();
    assert_eq!(v.type_, Some(4));
    assert!(Version::from_str("").is_err());
    assert!(Version::from_str("1.2").is_err());
    assert!(Version::from_str("1.2.3.4.5").is_err());
    assert!(Version::from_str("1.2.x").is_err());
    assert!(Version::from_str("1..3").is_err());
    assert!(Version::from_str("1.2.300").is_err());
    assert!(Version::from_str("256.0.0").is_err());
    let padded = Version::from_str("01.002.3").unwrap();
    assert_eq!((padded.major, padded.minor, padded.sub), (1, 2, 3));
}

#[test]
fn version_display_round_trips() {
    let v = Version::from_str("1.2.3.4").unwrap();
    let shown = v.to_display_string();
    assert_eq!(shown, "1.2.3.4");
    let again = Version::from_str(&shown).unwrap();
    assert!(again == v);
    let v = Version::from_str("0.251.13").unwrap();
    assert_eq!(v.to_display_string(), "0.251.13");
}

#[test]
fn version_comparison_ignores_missing_type() {
    let with_type = Version { major: 1, minor: 17, sub: 0, type_: Some(2) };
    let without = Version { major: 1, minor: 17, sub: 0, type_: None };
    let other_type = Version { major: 1, minor: 17, sub: 0, type_: Some(3) };
    // A version without a supplied type compares by the three numbers alone.
    assert!(without == with_type);
    assert!(without == other_type);
    // A version with a supplied type demands an exact match.
    assert!(with_type != without);
    assert!(with_type != other_type);
    assert!(with_type == Version { major: 1, minor: 17, sub: 0, type_: Some(2) });
}

#[test]
fn fus_family_follows_device_name() {
    assert_eq!(fus_family_of("STM32WB55xx"), Some(FusFamily::Wb5x));
    assert_eq!(fus_family_of("STM32WB1Mxx"), Some(FusFamily::Wb1x));
    assert_eq!(fus_family_of("STM32F407"), None);
    assert_eq!(fus_family_of(""), None);
    assert_eq!(fus_family_of("STM32WB"), None);
    let wb5 = FusLayout::for_family(FusFamily::Wb5x);
    assert_eq!(wb5.sram2a_base, 0x2003_0000);
    assert!(wb5.version_has_type);
    let wb1 = FusLayout::for_family(FusFamily::Wb1x);
    assert_eq!(wb1.sram2a_base, 0x2000_3000);
    assert!(!wb1.version_has_type);
    assert_eq!(wb5.fus_version_offset, 12);
    assert_eq!(wb5.wireless_stack_version_offset, 20);
    assert_eq!(wb5.uid64_offset, 40);
    assert_eq!(wb5.device_id_offset, 48);
}

#[test]
fn invalid_keyword_is_rejected_whatever_the_fields() {
    let layout = FusLayout::for_family(FusFamily::Wb5x);
    let r = decode_fus_info(&layout, &wb5x_words(0xDEADBEEF));
    assert!(matches!(
        r,
        Err(CubeProgrammerError::DataIntegrity {
            action: Action::ReadFusInfo,
            unexpected_output: UnexpectedOutput::InvalidKeyword,
        })
    ));
    let r = decode_fus_info(&layout, &wb5x_words(0));
    assert!(r.is_err());
    let r = decode_fus_info(&layout, &wb5x_words(FUS_DEVICE_INFO_TABLE_VALIDITY_KEYWORD));
    let info = r.unwrap();
    assert_eq!(info.fus_version.major, 1);
    assert_eq!(info.fus_version.minor, 2);
    assert_eq!(info.wireless_stack_version.minor, 0x11);
    assert_eq!(info.device_id, 0x0495);
    assert_eq!(info.uid64, 0x0080E1_00_0012_3456);
}

#[test]
fn table_pointer_and_field_addresses() {
    assert!(matches!(
        fus_info_table_address(0),
        Err(CubeProgrammerError::DataIntegrity {
            action: Action::ReadFusInfo,
            unexpected_output: UnexpectedOutput::Null,
        })
    ));
    assert_eq!(fus_info_table_address(0x2003_0000).unwrap(), 0x2003_0000);
    let layout = FusLayout::for_family(FusFamily::Wb5x);
    let f = fus_field_addresses(&layout, 0x2003_1000).unwrap();
    assert_eq!(f.state, 0x2003_1000);
    assert_eq!(f.fus_version, 0x2003_100C);
    assert_eq!(f.wireless_stack_version, 0x2003_1014);
    assert_eq!(f.uid64, 0x2003_1028);
    assert_eq!(f.device_id, 0x2003_1030);
    assert!(matches!(
        fus_field_addresses(&layout, u32::MAX - 8),
        Err(CubeProgrammerError::ResourceExhaustion { action: Action::ReadFusInfo })
    ));
}

#[test]
fn fus_on_unsupported_target_leaves_probe_available() {
    let mut api = CubeProgrammer::new();
    api.list_available_probes(vec![make_probe("a")]);
    let serial = Serial::from_str("a").unwrap();
    let pending = api
        .begin_connect(&serial, &Protocol::Swd, &CubeProgrammer::fus_connection_parameters_normal())
        .unwrap();
    let session = api.finish_connect(pending, 0, Some(make_info("STM32F407"))).unwrap();
    assert!(session.check_fus_support().is_err());
    let r = api.fus_start(session, None);
    assert!(matches!(
        r,
        Err(CubeProgrammerError::Unsupported { action: Action::StartFus, .. })
    ));
    let listed = api.registry.list_available();
    assert_eq!(listed.len(), 1);
    assert_eq!(listed[0].as_str(), "a");
}

#[test]
fn fus_handshake_succeeds_on_wireless_target() {
    let mut api = CubeProgrammer::new();
    api.list_available_probes(vec![make_probe("a")]);
    let serial = Serial::from_str("a").unwrap();
    // Phase one: connect in normal mode, check support, start the FUS.
    let pending = api
        .begin_connect(&serial, &Protocol::Swd, &CubeProgrammer::fus_connection_parameters_normal())
        .unwrap();
    let session = api.finish_connect(pending, 0, Some(make_info("STM32WB55xx"))).unwrap();
    assert!(session.check_fus_support().is_ok());
    let started = api.fus_start(session, Some(1)).unwrap();
    assert_eq!(started.serial.as_str(), "a");
    // The probe is back while the target reboots into the service.
    assert_eq!(api.registry.list_available().len(), 1);
    // Phase two: reconnect hot-plug and decode the information table.
    let pending = api
        .begin_connect(
            &serial,
            &Protocol::Swd,
            &CubeProgrammer::fus_connection_parameters_hotplug(),
        )
        .unwrap();
    let session = api.finish_connect(pending, 0, Some(make_info("STM32WB55xx"))).unwrap();
    let fus_session = api
        .finish_connect_fus(started, session, &wb5x_words(FUS_DEVICE_INFO_TABLE_VALIDITY_KEYWORD))
        .unwrap();
    assert_eq!(fus_session.fus_info().fus_version.major, 1);
    assert!(fus_session.start_wireless_stack(Some(1)).is_ok());
    assert!(fus_session.delete_wireless_stack(1).is_ok());
    assert!(fus_session.delete_wireless_stack(0).is_err());
    assert!(fus_session.upgrade_wireless_stack(1, Some(1)).is_ok());
    fus_session.disconnect(&mut api);
    assert_eq!(api.registry.list_available().len(), 1);
}

#[test]
fn fus_start_command_failure_returns_probe() {
    let mut api = CubeProgrammer::new();
    api.list_available_probes(vec![make_probe("a")]);
    let serial = Serial::from_str("a").unwrap();
    let pending = api
        .begin_connect(&serial, &Protocol::Swd, &CubeProgrammer::fus_connection_parameters_normal())
        .unwrap();
    let session = api.finish_connect(pending, 0, Some(make_info("STM32WB55xx"))).unwrap();
    // The start-FUS call reports zero, which for this call is a failure.
    let r = api.fus_start(session, Some(0));
    assert!(matches!(
        r,
        Err(CubeProgrammerError::CommandFailure { action: Action::StartFus, .. })
    ));
    assert_eq!(api.registry.list_available().len(), 1);
}
