//! Registry behaviour: scan idempotence, exclusive lending, and probe
//! custody across connect/disconnect cycles.

use stm32cubeprogrammer::api_types::GeneralInformation;
use stm32cubeprogrammer::cube_programmer::CubeProgrammer;
use stm32cubeprogrammer::error::{ConnectionFailureKind, CubeProgrammerError};
use stm32cubeprogrammer::probe::{ConnectionMode, ConnectionParameters, Probe, Protocol, ResetMode, Serial};
use stm32cubeprogrammer::registry::ProbeRegistry;

fn make_probe(serial: &str) -> Probe {
    Probe {
        serial_number: serial.to_string(),
        board: "NUCLEO-WB55".to_string(),
        firmware_version: "V2J38M27".to_string(),
        debug_port: Protocol::Swd,
        connection_mode: ConnectionMode::Normal,
        reset_mode: ResetMode::Hardware,
        shared: false,
        frequency: 4000,
        swd_frequencies: vec![4000, 1800, 950, 400],
        jtag_frequencies: vec![18000, 9000, 4500, 2250],
    }
}

fn make_info(name: &str) -> GeneralInformation {
    GeneralInformation::from_fields(
        0x495,
        1024 * 1024,
        0x0100,
        "MCU".to_string(),
        "Cortex-M4".to_string(),
        name.to_string(),
        "WB".to_string(),
        "wireless dual core".to_string(),
        "Rev A".to_string(),
        "NUCLEO-WB55".to_string(),
    )
}

fn serials(v: &[Serial]) -> Vec<String> {
    v.iter().map(|s| s.as_str().to_string()).collect()
}

#[test]
fn scan_is_idempotent() {
    let mut api = CubeProgrammer::new();
    let first = api.list_available_probes(vec![make_probe("a"), make_probe("b")]);
    let second = api.list_available_probes(vec![make_probe("a"), make_probe("b")]);
    assert_eq!(serials(&first), vec!["a".to_string(), "b".to_string()]);
    assert_eq!(serials(&first), serials(&second));
}

#[test]
fn scan_drops_vanished_available_probes() {
    let mut api = CubeProgrammer::new();
    let first = api.list_available_probes(vec![make_probe("a"), make_probe("b")]);
    assert_eq!(first.len(), 2);
    let second = api.list_available_probes(vec![make_probe("b")]);
    assert_eq!(serials(&second), vec!["b".to_string()]);
}

#[test]
fn scan_keeps_lent_entries() {
    let mut api = CubeProgrammer::new();
    api.list_available_probes(vec![make_probe("a")]);
    let serial = Serial::from_str("a").unwrap();
    let pending = api
        .begin_connect(&serial, &Protocol::Swd, &ConnectionParameters::default())
        .unwrap();
    let session = api.finish_connect(pending, 0, Some(make_info("STM32F407"))).unwrap();
    // While lent, a scan that still sees the probe must not make it available.
    let listed = api.list_available_probes(vec![make_probe("a")]);
    assert!(listed.is_empty());
    session.disconnect(&mut api);
    let listed = api.list_available_probes(vec![make_probe("a")]);
    assert_eq!(serials(&listed), vec!["a".to_string()]);
}

#[test]
fn lend_unknown_serial_fails_not_found() {
    let mut registry = ProbeRegistry::new();
    registry.sync_scan(vec![make_probe("a")]);
    let missing = Serial::from_str("zz").unwrap();
    let r = registry.lend(&missing);
    assert!(matches!(
        r,
        Err(CubeProgrammerError::ConnectionFailure(ConnectionFailureKind::ProbeNotFound))
    ));
}

#[test]
fn lend_twice_fails_already_lent() {
    let mut registry = ProbeRegistry::new();
    registry.sync_scan(vec![make_probe("a")]);
    let serial = Serial::from_str("a").unwrap();
    let first = registry.lend(&serial);
    assert!(first.is_ok());
    let second = registry.lend(&serial);
    assert!(matches!(
        second,
        Err(CubeProgrammerError::ConnectionFailure(ConnectionFailureKind::ProbeAlreadyLent))
    ));
}

#[test]
fn connect_cycles_leak_no_probe() {
    let mut api = CubeProgrammer::new();
    api.list_available_probes(vec![make_probe("a")]);
    let serial = Serial::from_str("a").unwrap();
    // Successful connect/disconnect cycles.
    for _ in 0..5 {
        let pending = api
            .begin_connect(&serial, &Protocol::Swd, &ConnectionParameters::default())
            .unwrap();
        let session = api.finish_connect(pending, 0, Some(make_info("STM32F407"))).unwrap();
        session.disconnect(&mut api);
    }
    // A cycle whose connect fails at the driver.
    let pending = api
        .begin_connect(&serial, &Protocol::Swd, &ConnectionParameters::default())
        .unwrap();
    let failed = api.finish_connect(pending, -3, None);
    assert!(matches!(
        failed,
        Err(CubeProgrammerError::ConnectionFailure(ConnectionFailureKind::Link(_)))
    ));
    // A cycle whose target snapshot comes back empty.
    let pending = api
        .begin_connect(&serial, &Protocol::Swd, &ConnectionParameters::default())
        .unwrap();
    let failed = api.finish_connect(pending, 0, None);
    assert!(matches!(failed, Err(CubeProgrammerError::DataIntegrity { .. })));
    // Exactly one available entry for the serial remains.
    let listed = api.registry.list_available();
    assert_eq!(serials(&listed), vec!["a".to_string()]);
}

#[test]
fn configured_probe_resolves_frequency() {
    let probe = make_probe("a");
    let params = ConnectionParameters {
        frequency: stm32cubeprogrammer::probe::Frequency::Medium,
        reset_mode: ResetMode::Software,
        connection_mode: ConnectionMode::UnderReset,
    };
    let configured = Probe::new(&probe, &Protocol::Swd, &params);
    assert_eq!(configured.frequency, 950);
    assert_eq!(configured.reset_mode(), ResetMode::Software);
    assert_eq!(configured.connection_mode(), ConnectionMode::UnderReset);
    assert_eq!(configured.debug_port(), Protocol::Swd);
    assert!(!configured.shared());
    assert_eq!(configured.serial_number(), "a");
    let custom = Probe::new(
        &probe,
        &Protocol::Jtag,
        &ConnectionParameters {
            frequency: stm32cubeprogrammer::probe::Frequency::Custom(123),
            reset_mode: ResetMode::Hardware,
            connection_mode: ConnectionMode::Normal,
        },
    );
    assert_eq!(custom.frequency, 123);
}
