//! Structural validation of Intel-hex files, and its place in front of every
//! hex download.

use stm32cubeprogrammer::cube_programmer::ConnectedProgrammer;
use stm32cubeprogrammer::api_types::GeneralInformation;
use stm32cubeprogrammer::error::{Action, CubeProgrammerError};
use stm32cubeprogrammer::hex_file::validate_intel_hex;
use stm32cubeprogrammer::probe::{ConnectionMode, Probe, Protocol, ResetMode};

fn make_session() -> ConnectedProgrammer {
    ConnectedProgrammer {
        probe: Probe {
            serial_number: "a".to_string(),
            board: "NUCLEO-WB55".to_string(),
            firmware_version: "V2J38M27".to_string(),
            debug_port: Protocol::Swd,
            connection_mode: ConnectionMode::Normal,
            reset_mode: ResetMode::Hardware,
            shared: false,
            frequency: 4000,
            swd_frequencies: vec![4000, 1800, 950, 400],
            jtag_frequencies: vec![18000, 9000, 4500, 2250],
        },
        general_information: GeneralInformation::from_fields(
            0x495,
            1024 * 1024,
            0x0100,
            "MCU".to_string(),
            "Cortex-M4".to_string(),
            "STM32F407".to_string(),
            "F4".to_string(),
            "mainstream".to_string(),
            "Rev A".to_string(),
            "NUCLEO-F407".to_string(),
        ),
    }
}

fn bytes(s: &str) -> Vec<u8> {
    s.as_bytes().to_vec()
}

#[test]
fn well_formed_file_is_accepted() {
    let content = bytes(":0B0010006164647265737320676170A7\n:00000001FF\n");
    assert!(validate_intel_hex(&content));
}

#[test]
fn blank_lines_and_carriage_returns_are_accepted() {
    let content = bytes("\r\n:0B0010006164647265737320676170A7\r\n\n:00000001FF\r\n");
    assert!(validate_intel_hex(&content));
}

#[test]
fn lines_after_the_end_record_are_ignored() {
    let content = bytes(":00000001FF\nthis is not a record at all\n");
    assert!(validate_intel_hex(&content));
}

#[test]
fn empty_file_is_accepted() {
    assert!(validate_intel_hex(&bytes("")));
}

#[test]
fn malformed_files_are_rejected() {
    // Not a record line at all.
    assert!(!validate_intel_hex(&bytes("hello world\n")));
    // Missing the leading colon.
    assert!(!validate_intel_hex(&bytes("0B0010006164647265737320676170A7\n")));
    // Too short to carry count, address, type and checksum.
    assert!(!validate_intel_hex(&bytes(":0102\n")));
    // An odd number of digits.
    assert!(!validate_intel_hex(&bytes(":0B0010006164647265737320676170A\n")));
    // A digit outside the hexadecimal alphabet.
    assert!(!validate_intel_hex(&bytes(":0B00100061646472657373206761g0A7\n")));
    // A wrong checksum.
    assert!(!validate_intel_hex(&bytes(":0B0010006164647265737320676170A8\n")));
    // A byte count that disagrees with the line length.
    assert!(!validate_intel_hex(&bytes(":0A0010006164647265737320676170A8\n")));
    // A record type outside the defined range.
    assert!(!validate_intel_hex(&bytes(":00000006FA\n")));
    // An extended-address record with the wrong payload length.
    assert!(!validate_intel_hex(&bytes(":03000002AABBCCCA\n")));
    // A bad record before the end record still fails the file.
    assert!(!validate_intel_hex(&bytes(":0102\n:00000001FF\n")));
    // An end-of-file record that carries a payload.
    assert!(!validate_intel_hex(&bytes(":0100000155A9\n")));
}

#[test]
fn malformed_hex_is_rejected_before_any_driver_call() {
    let session = make_session();
    // No driver status is supplied: nothing may be called for a bad file.
    let r = session.download_hex_file(&bytes("not a hex file"), false, true, None, None);
    assert!(matches!(
        r,
        Err(CubeProgrammerError::Parameter { action: Action::DownloadFile, .. })
    ));
}

#[test]
fn valid_hex_download_checks_liveness_then_status() {
    let session = make_session();
    let content = bytes(":0B0010006164647265737320676170A7\n:00000001FF\n");
    assert!(session.download_hex_file(&content, false, true, Some(1), Some(0)).is_ok());
    let r = session.download_hex_file(&content, false, true, Some(0), None);
    assert!(matches!(
        r,
        Err(CubeProgrammerError::CommandFailure { action: Action::CheckConnection, .. })
    ));
    let r = session.download_hex_file(&content, false, true, Some(1), Some(-4));
    assert!(matches!(
        r,
        Err(CubeProgrammerError::CommandFailure { action: Action::DownloadFile, .. })
    ));
}

#[test]
fn bin_download_checks_liveness_then_status() {
    let session = make_session();
    assert!(session.download_bin_file(0x0800_0000, false, true, 1, Some(0)).is_ok());
    let r = session.download_bin_file(0x0800_0000, false, true, 0, None);
    assert!(matches!(
        r,
        Err(CubeProgrammerError::CommandFailure { action: Action::CheckConnection, .. })
    ));
    let r = session.download_bin_file(0x0800_0000, false, true, 1, Some(-12));
    assert!(matches!(
        r,
        Err(CubeProgrammerError::CommandFailure { action: Action::DownloadFile, .. })
    ));
}
