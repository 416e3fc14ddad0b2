//! High-level logic for driving STM32 programming hardware: probe discovery
//! and exclusive lending, target connection management (including the
//! multi-phase handshake needed to reach the firmware update service of
//! wireless parts), typed memory access over raw byte primitives, and the
//! decoding of on-target information tables.
//!
//! The vendor programming driver itself is a dynamically loaded library that
//! only the surrounding application can call. Every decision this crate makes
//! is a function from plain values (driver status codes, bytes read from the
//! target) to plain values, so the whole decision layer is verified; the
//! application performs the driver calls and feeds the results back in.

pub mod api_log;
pub mod api_types;
pub mod cube_programmer;
pub mod display;
pub mod error;
pub mod fus;
pub mod hex_file;
pub mod memory;
pub mod output;
pub mod probe;
pub mod registry;
pub mod session_plan;
pub mod utility;

pub use api_log::{LogMessageType, Verbosity};
pub use api_types::{CoreRegister, GeneralInformation};
pub use cube_programmer::{ConnectedFusProgrammer, ConnectedProgrammer, CubeProgrammer};
pub use display::DisplayCallback;
pub use error::{Action, CubeProgrammerError, ErrorCode, TypeConversionError, UnexpectedOutput};
pub use utility::HexAddress;
