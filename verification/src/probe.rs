//! Probes and the parameters of a target connection: debug protocol, reset
//! mode, connection mode, and the clock frequency, which is either an explicit
//! value or a tier resolved against the probe's supported-frequency table.

use vstd::prelude::*;
use vstd::string::*;

use crate::error::{CubeProgrammerError, TypeConversionError};
use crate::utility::str_eq;

verus! {

/// Debug protocol for the target connection.
#[derive(Clone, Copy, Debug, PartialEq, Eq, Structural)]
pub enum Protocol {
    Jtag,
    Swd,
}

impl Protocol {
    /// The raw driver encoding of the protocol.
    pub fn raw_value(&self) -> (r: i32)
        ensures
            *self == Protocol::Jtag ==> r == 0,
            *self == Protocol::Swd ==> r == 1,
    {
        match self {
            Protocol::Jtag => 0,
            Protocol::Swd => 1,
        }
    }

    /// The protocol a raw driver value denotes, if any.
    pub fn from_raw(value: i32) -> (r: Option<Protocol>)
        ensures
            value == 0 ==> r == Some(Protocol::Jtag),
            value == 1 ==> r == Some(Protocol::Swd),
            value != 0 && value != 1 ==> r is None,
    {
        if value == 0 {
            Some(Protocol::Jtag)
        } else if value == 1 {
            Some(Protocol::Swd)
        } else {
            None
        }
    }

    /// Parse a protocol name as the command line spells it.
    pub fn from_str(s: &str) -> (r: Result<Protocol, String>)
        ensures
            s@ == "swd"@ ==> r == Ok::<Protocol, String>(Protocol::Swd),
            s@ == "jtag"@ ==> r == Ok::<Protocol, String>(Protocol::Jtag),
            s@ != "swd"@ && s@ != "jtag"@ ==> r is Err,
    {
        proof {
            reveal_strlit("swd");
            reveal_strlit("jtag");
            assert("swd"@.len() == 3);
            assert("jtag"@.len() == 4);
        }
        if str_eq(s, "swd") {
            Ok(Protocol::Swd)
        } else if str_eq(s, "jtag") {
            Ok(Protocol::Jtag)
        } else {
            Err(String::from_str("Invalid protocol"))
        }
    }
}

/// Reset behaviour applied when connecting to or resetting the target.
#[derive(Clone, Copy, Debug, PartialEq, Eq, Structural)]
pub enum ResetMode {
    Software,
    Hardware,
    Core,
}

impl ResetMode {
    /// The raw driver encoding of the reset mode.
    pub fn raw_value(&self) -> (r: i32)
        ensures
            *self == ResetMode::Software ==> r == 0,
            *self == ResetMode::Hardware ==> r == 1,
            *self == ResetMode::Core ==> r == 2,
    {
        match self {
            ResetMode::Software => 0,
            ResetMode::Hardware => 1,
            ResetMode::Core => 2,
        }
    }

    /// The reset mode a raw driver value denotes, if any.
    pub fn from_raw(value: i32) -> (r: Option<ResetMode>)
        ensures
            value == 0 ==> r == Some(ResetMode::Software),
            value == 1 ==> r == Some(ResetMode::Hardware),
            value == 2 ==> r == Some(ResetMode::Core),
            value < 0 || value > 2 ==> r is None,
    {
        if value == 0 {
            Some(ResetMode::Software)
        } else if value == 1 {
            Some(ResetMode::Hardware)
        } else if value == 2 {
            Some(ResetMode::Core)
        } else {
            None
        }
    }
}

/// How the link to the target is brought up.
#[derive(Clone, Copy, Debug, PartialEq, Eq, Structural)]
pub enum ConnectionMode {
    Normal,
    HotPlug,
    UnderReset,
    PowerDown,
    HardwareResetPulse,
}

impl ConnectionMode {
    /// The raw driver encoding of the connection mode.
    pub fn raw_value(&self) -> (r: i32)
        ensures
            *self == ConnectionMode::Normal ==> r == 0,
            *self == ConnectionMode::HotPlug ==> r == 1,
            *self == ConnectionMode::UnderReset ==> r == 2,
            *self == ConnectionMode::PowerDown ==> r == 3,
            *self == ConnectionMode::HardwareResetPulse ==> r == 4,
    {
        match self {
            ConnectionMode::Normal => 0,
            ConnectionMode::HotPlug => 1,
            ConnectionMode::UnderReset => 2,
            ConnectionMode::PowerDown => 3,
            ConnectionMode::HardwareResetPulse => 4,
        }
    }

    /// The connection mode a raw driver value denotes, if any.
    pub fn from_raw(value: i32) -> (r: Option<ConnectionMode>)
        ensures
            value == 0 ==> r == Some(ConnectionMode::Normal),
            value == 1 ==> r == Some(ConnectionMode::HotPlug),
            value == 2 ==> r == Some(ConnectionMode::UnderReset),
            value == 3 ==> r == Some(ConnectionMode::PowerDown),
            value == 4 ==> r == Some(ConnectionMode::HardwareResetPulse),
            value < 0 || value > 4 ==> r is None,
    {
        if value == 0 {
            Some(ConnectionMode::Normal)
        } else if value == 1 {
            Some(ConnectionMode::HotPlug)
        } else if value == 2 {
            Some(ConnectionMode::UnderReset)
        } else if value == 3 {
            Some(ConnectionMode::PowerDown)
        } else if value == 4 {
            Some(ConnectionMode::HardwareResetPulse)
        } else {
            None
        }
    }
}

/// Clock frequency of the target connection: a tier resolved against the
/// probe's supported-frequency table, or an explicit value in hertz.
#[derive(Clone, Copy, Debug, PartialEq, Eq, Structural)]
pub enum Frequency {
    Low,
    Medium,
    High,
    Highest,
    Custom(u32),
}

/// Parameters of one connection attempt; immutable per attempt.
#[derive(Clone, Copy, Debug, PartialEq, Eq, Structural)]
pub struct ConnectionParameters {
    pub frequency: Frequency,
    pub reset_mode: ResetMode,
    pub connection_mode: ConnectionMode,
}

impl Default for ConnectionParameters {
    /// The default attempt: highest supported frequency, hardware reset,
    /// normal connection mode.
    fn default() -> (r: Self)
        ensures
            r.frequency == Frequency::Highest,
            r.reset_mode == ResetMode::Hardware,
            r.connection_mode == ConnectionMode::Normal,
    {
        ConnectionParameters {
            frequency: Frequency::Highest,
            reset_mode: ResetMode::Hardware,
            connection_mode: ConnectionMode::Normal,
        }
    }
}

/// The serial number that identifies a probe.
#[derive(Debug)]
pub struct Serial(pub String);

impl View for Serial {
    type V = Seq<char>;

    open spec fn view(&self) -> Seq<char> {
        self.0@
    }
}

impl Clone for Serial {
    /// A clone carries the same serial string.
    fn clone(&self) -> (r: Self)
        ensures
            r == *self,
    {
        Serial(self.0.clone())
    }
}

impl Serial {
    /// Parse a serial number; the empty string is rejected.
    pub fn from_str(s: &str) -> (r: Result<Serial, CubeProgrammerError>)
        ensures
            s@.len() > 0 <==> r is Ok,
            r matches Ok(serial) ==> serial@ == s@,
            s@.len() == 0 ==> (r matches Err(CubeProgrammerError::TypeConversion {
                message: _,
                source,
            }) && source == TypeConversionError::NullError),
    {
        if s.unicode_len() == 0 {
            Err(CubeProgrammerError::TypeConversion {
                message: String::from_str("Cannot convert empty string to serial"),
                source: TypeConversionError::NullError,
            })
        } else {
            Ok(Serial(s.to_owned()))
        }
    }

    /// The serial as a string slice.
    pub fn as_str(&self) -> (r: &str)
        ensures
            r@ == self@,
    {
        self.0.as_str()
    }

    /// Exact equality of two serials.
    pub fn matches(&self, other: &Serial) -> (r: bool)
        ensures
            r == (self@ == other@),
    {
        self.0 == other.0
    }
}

/// The position a frequency tier selects in a probe's supported-frequency
/// table, which the driver reports fastest first; an explicit frequency
/// selects no position.
pub open spec fn spec_tier_index(f: Frequency) -> int {
    match f {
        Frequency::Highest => 0,
        Frequency::High => 1,
        Frequency::Medium => 2,
        Frequency::Low => 3,
        Frequency::Custom(_) => -1,
    }
}

/// The frequency table of `probe` that `protocol` selects.
pub open spec fn spec_frequency_table(probe: &Probe, protocol: Protocol) -> Seq<u32> {
    match protocol {
        Protocol::Jtag => probe.jtag_frequencies@,
        Protocol::Swd => probe.swd_frequencies@,
    }
}

/// The frequency in hertz that a requested tier or explicit value resolves to
/// on a given probe and protocol.
pub open spec fn spec_resolved_frequency(probe: &Probe, protocol: Protocol, f: Frequency) -> u32 {
    match f {
        Frequency::Custom(hz) => hz,
        _ => spec_frequency_table(probe, protocol)[spec_tier_index(f)],
    }
}

/// What a probe configured for one connection attempt looks like: the copy
/// keeps the probe's identity and frequency tables, carries the requested
/// protocol, reset and connection mode, has sharing switched off, and its
/// frequency resolved against the table.
pub open spec fn configured_for(
    c: Probe,
    probe: Probe,
    protocol: Protocol,
    params: ConnectionParameters,
) -> bool {
    &&& c.serial_number == probe.serial_number
    &&& c.board == probe.board
    &&& c.firmware_version == probe.firmware_version
    &&& c.debug_port == protocol
    &&& c.connection_mode == params.connection_mode
    &&& c.reset_mode == params.reset_mode
    &&& !c.shared
    &&& c.frequency == spec_resolved_frequency(&probe, protocol, params.frequency)
    &&& c.swd_frequencies@ == probe.swd_frequencies@
    &&& c.jtag_frequencies@ == probe.jtag_frequencies@
}

/// A discovered debug probe: identity, descriptive attributes, and the
/// connection settings the driver will use for it.
#[derive(Debug)]
pub struct Probe {
    pub serial_number: String,
    pub board: String,
    pub firmware_version: String,
    pub debug_port: Protocol,
    pub connection_mode: ConnectionMode,
    pub reset_mode: ResetMode,
    pub shared: bool,
    pub frequency: u32,
    pub swd_frequencies: Vec<u32>,
    pub jtag_frequencies: Vec<u32>,
}

/// Copy a frequency table.
fn clone_u32_vec(v: &Vec<u32>) -> (r: Vec<u32>)
    ensures
        r@ == v@,
{
    let mut r: Vec<u32> = Vec::new();
    let mut i: usize = 0;
    while i < v.len()
        invariant
            0 <= i <= v.len(),
            r@ == v@.take(i as int),
        decreases v.len() - i,
    {
        r.push(v[i]);
        proof {
            assert(v@.take(i + 1) =~= v@.take(i as int).push(v@[i as int]));
        }
        i = i + 1;
    }
    proof {
        assert(v@.take(v@.len() as int) =~= v@);
    }
    r
}

impl Probe {
    /// A copy of `probe` configured for one connection attempt: the requested
    /// protocol, reset and connection mode are set, sharing is switched off,
    /// and the frequency is resolved against the probe's table for the
    /// protocol. A tier must have an entry in that table.
    pub fn new(probe: &Probe, protocol: &Protocol, connect_parameters: &ConnectionParameters) -> (r:
        Probe)
        requires
            spec_tier_index(connect_parameters.frequency) < spec_frequency_table(
                probe,
                *protocol,
            ).len(),
        ensures
            configured_for(r, *probe, *protocol, *connect_parameters),
    {
        let frequency: u32 = match connect_parameters.frequency {
            Frequency::Custom(hz) => hz,
            Frequency::Highest => match protocol {
                Protocol::Jtag => probe.jtag_frequencies[0],
                Protocol::Swd => probe.swd_frequencies[0],
            },
            Frequency::High => match protocol {
                Protocol::Jtag => probe.jtag_frequencies[1],
                Protocol::Swd => probe.swd_frequencies[1],
            },
            Frequency::Medium => match protocol {
                Protocol::Jtag => probe.jtag_frequencies[2],
                Protocol::Swd => probe.swd_frequencies[2],
            },
            Frequency::Low => match protocol {
                Protocol::Jtag => probe.jtag_frequencies[3],
                Protocol::Swd => probe.swd_frequencies[3],
            },
        };

        Probe {
            serial_number: probe.serial_number.clone(),
            board: probe.board.clone(),
            firmware_version: probe.firmware_version.clone(),
            debug_port: *protocol,
            connection_mode: connect_parameters.connection_mode,
            reset_mode: connect_parameters.reset_mode,
            shared: false,
            frequency,
            swd_frequencies: clone_u32_vec(&probe.swd_frequencies),
            jtag_frequencies: clone_u32_vec(&probe.jtag_frequencies),
        }
    }

    /// The probe's serial number.
    pub fn serial_number(&self) -> (r: &str)
        ensures
            r@ == self.serial_number@,
    {
        self.serial_number.as_str()
    }

    /// The board the probe sits on.
    pub fn board(&self) -> (r: &str)
        ensures
            r@ == self.board@,
    {
        self.board.as_str()
    }

    /// The probe's firmware version string.
    pub fn firmware_version(&self) -> (r: &str)
        ensures
            r@ == self.firmware_version@,
    {
        self.firmware_version.as_str()
    }

    /// The configured connection mode.
    pub fn connection_mode(&self) -> (r: ConnectionMode)
        ensures
            r == self.connection_mode,
    {
        self.connection_mode
    }

    /// The configured debug protocol.
    pub fn debug_port(&self) -> (r: Protocol)
        ensures
            r == self.debug_port,
    {
        self.debug_port
    }

    /// The configured reset mode.
    pub fn reset_mode(&self) -> (r: ResetMode)
        ensures
            r == self.reset_mode,
    {
        self.reset_mode
    }

    /// Whether the probe is configured as shared between hosts.
    pub fn shared(&self) -> (r: bool)
        ensures
            r == self.shared,
    {
        self.shared
    }

    /// Set the connection mode.
    pub fn set_connection_mode(&mut self, connection_mode: ConnectionMode)
        ensures
            *final(self) == (Probe { connection_mode, ..*old(self) }),
    {
        self.connection_mode = connection_mode;
    }

    /// Set the debug protocol.
    pub fn set_debug_protocol(&mut self, protocol: Protocol)
        ensures
            *final(self) == (Probe { debug_port: protocol, ..*old(self) }),
    {
        self.debug_port = protocol;
    }

    /// Set the reset mode.
    pub fn set_reset_mode(&mut self, reset_mode: ResetMode)
        ensures
            *final(self) == (Probe { reset_mode, ..*old(self) }),
    {
        self.reset_mode = reset_mode;
    }

    /// Set whether the probe is shared between hosts.
    pub fn set_shared(&mut self, shared: bool)
        ensures
            *final(self) == (Probe { shared, ..*old(self) }),
    {
        self.shared = shared;
    }
}

} // verus!
