//! Typed memory access: the write/read round trip against a simulated target
//! memory, and each rejection the read path owes.

use stm32cubeprogrammer::api_types::GeneralInformation;
use stm32cubeprogrammer::cube_programmer::ConnectedProgrammer;
use stm32cubeprogrammer::error::{Action, CubeProgrammerError, UnexpectedOutput};
use stm32cubeprogrammer::memory::{decode_u16s, decode_u64s, encode_u16s, encode_u64s};
use stm32cubeprogrammer::probe::{ConnectionMode, Probe, Protocol, ResetMode};

fn make_session() -> ConnectedProgrammer {
    ConnectedProgrammer {
        probe: Probe {
            serial_number: "a".to_string(),
            board: "NUCLEO-WB55".to_string(),
            firmware_version: "V2J38M27".to_string(),
            debug_port: Protocol::Swd,
            connection_mode: ConnectionMode::Normal,
            reset_mode: ResetMode::Hardware,
            shared: false,
            frequency: 4000,
            swd_frequencies: vec![4000, 1800, 950, 400],
            jtag_frequencies: vec![18000, 9000, 4500, 2250],
        },
        general_information: GeneralInformation::from_fields(
            0x495,
            1024 * 1024,
            0x0100,
            "MCU".to_string(),
            "Cortex-M4".to_string(),
            "STM32WB55xx".to_string(),
            "WB".to_string(),
            "wireless dual core".to_string(),
            "Rev A".to_string(),
            "NUCLEO-WB55".to_string(),
        ),
    }
}

/// A simulated target memory: a raw write stores bytes at an offset, a raw
/// read hands them back.
struct FakeTargetMemory {
    bytes: Vec<u8>,
}

impl FakeTargetMemory {
    fn new(size: usize) -> FakeTargetMemory {
        FakeTargetMemory { bytes: vec![0; size] }
    }

    fn write(&mut self, address: usize, data: &[u8]) {
        self.bytes[address..address + data.len()].copy_from_slice(data);
    }

    fn read(&self, address: usize, len: usize) -> Vec<u8> {
        self.bytes[address..address + len].to_vec()
    }
}

#[test]
fn typed_u32_round_trip_through_target_memory() {
    let session = make_session();
    let mut memory = FakeTargetMemory::new(64);
    let written = vec![0xDEADBEEFu32, 42, 0, u32::MAX];
    // Serialize, let the simulated driver store the bytes, confirm the write.
    let bytes = session.write_memory_u32(16, &written).unwrap();
    assert_eq!(bytes.len(), 16);
    memory.write(16, &bytes);
    assert!(session.write_memory_complete(0).is_ok());
    // Read the same region back and decode it.
    let data = memory.read(16, 16);
    let read = session.read_memory_u32(16, 4, Some(0), Some(&data)).unwrap();
    assert_eq!(read, written);
}

#[test]
fn typed_round_trip_holds_for_every_width() {
    let session = make_session();
    let mut memory = FakeTargetMemory::new(64);

    let bytes = session.write_memory_u8(0, &vec![1, 2, 0xFF]).unwrap();
    memory.write(0, &bytes);
    let read = session.read_memory_u8(0, 3, Some(0), Some(&memory.read(0, 3))).unwrap();
    assert_eq!(read, vec![1, 2, 0xFF]);

    let bytes = session.write_memory_u16(8, &vec![0x0203, 0xFFFF]).unwrap();
    memory.write(8, &bytes);
    let read = session.read_memory_u16(8, 2, Some(0), Some(&memory.read(8, 4))).unwrap();
    assert_eq!(read, vec![0x0203, 0xFFFF]);

    let bytes = session.write_memory_u64(24, &vec![0x0102030405060708]).unwrap();
    memory.write(24, &bytes);
    let read = session.read_memory_u64(24, 1, Some(0), Some(&memory.read(24, 8))).unwrap();
    assert_eq!(read, vec![0x0102030405060708]);
}

#[test]
fn typed_values_are_little_endian() {
    let session = make_session();
    let bytes = session.write_memory_u32(0, &vec![0x04050607]).unwrap();
    assert_eq!(bytes, vec![0x07, 0x06, 0x05, 0x04]);
    assert_eq!(encode_u16s(&vec![0x0203]), vec![0x03, 0x02]);
    assert_eq!(decode_u16s(&vec![0x03, 0x02], 1), vec![0x0203]);
    assert_eq!(
        encode_u64s(&vec![0x0102030405060708]),
        vec![0x08, 0x07, 0x06, 0x05, 0x04, 0x03, 0x02, 0x01]
    );
    assert_eq!(
        decode_u64s(&vec![0x08, 0x07, 0x06, 0x05, 0x04, 0x03, 0x02, 0x01], 1),
        vec![0x0102030405060708]
    );
}

#[test]
fn read_rejects_null_result() {
    let session = make_session();
    let r = session.read_memory_u32(0, 1, Some(0), None);
    assert!(matches!(
        r,
        Err(CubeProgrammerError::DataIntegrity {
            action: Action::ReadMemory,
            unexpected_output: UnexpectedOutput::Null,
        })
    ));
}

#[test]
fn read_rejects_wrong_byte_count() {
    let session = make_session();
    let three_bytes = vec![1u8, 2, 3];
    let r = session.read_memory_u32(0, 1, Some(0), Some(&three_bytes));
    assert!(matches!(
        r,
        Err(CubeProgrammerError::DataIntegrity {
            action: Action::ReadMemory,
            unexpected_output: UnexpectedOutput::SliceLength,
        })
    ));
}

#[test]
fn read_surfaces_driver_failure() {
    let session = make_session();
    let r = session.read_memory_u32(0, 1, Some(-9), None);
    assert!(matches!(
        r,
        Err(CubeProgrammerError::CommandFailure { action: Action::ReadMemory, .. })
    ));
}

#[test]
fn oversized_request_is_rejected_before_any_call() {
    let session = make_session();
    let r = session.read_memory_u32(0, usize::MAX / 2, None, None);
    assert!(matches!(
        r,
        Err(CubeProgrammerError::ResourceExhaustion { action: Action::ReadMemory })
    ));
}
