//! The connection manager and the session types.
//!
//! [`CubeProgrammer`] owns the probe registry and decides every step of the
//! connection lifecycle. The vendor driver is outside this crate, so each
//! step that involves a driver call is split in two: this crate hands the
//! caller the exact request (a configured probe, bytes to write, a command
//! string), the caller performs the driver call, and passes the outcome (a
//! status code, bytes read) back in; this crate decides what it means. Every
//! failure path returns the lent probe to the registry before the error
//! propagates, so no path leaks the exclusive lock.
//!
//! The multi-phase handshake to the firmware update service runs through
//! [`CubeProgrammer::begin_connect`] / [`CubeProgrammer::finish_connect`]
//! with the normal-mode parameters, [`CubeProgrammer::fus_start`], a
//! reconnect with the hot-plug parameters, and
//! [`CubeProgrammer::finish_connect_fus`].

use vstd::prelude::*;
use vstd::string::*;

use crate::api_types::GeneralInformation;
use crate::error::{
    is_command_failure, spec_error_code, Action, ConnectionFailureKind, CubeProgrammerError,
    ErrorCode, ReturnCode, UnexpectedOutput,
};
use crate::fus;
use crate::fus::{
    decode_fus_info, spec_decoded_information, spec_fus_family, FusLayout, FusTableWords,
    FUS_DEVICE_INFO_TABLE_VALIDITY_KEYWORD,
};
use crate::memory;
use crate::probe::{
    configured_for, ConnectionMode, ConnectionParameters, Frequency, Probe, Protocol, ResetMode,
    Serial, spec_frequency_table, spec_tier_index,
};
use crate::registry::{
    has_serial, lent_probe, serial_available, spec_after_insert, spec_after_lend, ProbeRegistry,
    RegistryEntry, wf_entries,
};

verus! {

/// Central manager: owns the probe registry; factory for connections.
#[derive(Debug)]
pub struct CubeProgrammer {
    pub registry: ProbeRegistry,
}

/// Custody token of a connect attempt in flight: the lent probe, and the
/// configured copy the driver's connect call takes.
#[derive(Debug)]
pub struct PendingConnect {
    pub probe: Probe,
    pub configured: Probe,
}

/// A session with a connected target: owns the lent probe and the target
/// snapshot fetched at connect time.
#[derive(Debug)]
pub struct ConnectedProgrammer {
    pub probe: Probe,
    pub general_information: GeneralInformation,
}

/// Witness that the start-FUS command succeeded on this serial and the first
/// session was ended; the handshake continues with a hot-plug reconnect.
#[derive(Debug)]
pub struct FusStarted {
    pub serial: Serial,
}

/// A session with the firmware update service of a connected target.
#[derive(Debug)]
pub struct ConnectedFusProgrammer {
    pub programmer: ConnectedProgrammer,
    pub fus_info: fus::Information,
}

impl CubeProgrammer {
    /// Manager well-formedness: the registry is well-formed.
    pub open spec fn wf(&self) -> bool {
        self.registry.wf()
    }

    /// A manager with an empty registry.
    pub fn new() -> (r: Self)
        ensures
            r.wf(),
            r.registry.entries@ =~= Seq::<RegistryEntry>::empty(),
    {
        CubeProgrammer { registry: ProbeRegistry::new() }
    }

    /// Fold the probes a driver scan discovered into the registry and list
    /// the serials available for lending. Lent entries are untouched.
    pub fn list_available_probes(&mut self, discovered: Vec<Probe>) -> (r: Vec<Serial>)
        requires
            old(self).wf(),
        ensures
            final(self).wf(),
            final(self).registry.entries@ == crate::registry::spec_sync(
                old(self).registry.entries@,
                discovered@,
            ),
            r@.map_values(|s: Serial| s@) == crate::registry::spec_available_serials(
                final(self).registry.entries@,
            ),
    {
        self.registry.sync_scan(discovered);
        self.registry.list_available()
    }

    /// Return a probe to the registry. Called when a session ends, on every
    /// path.
    pub fn insert_probe(&mut self, probe: Probe)
        requires
            old(self).wf(),
        ensures
            final(self).wf(),
            final(self).registry.entries@ == spec_after_insert(old(self).registry.entries@, probe),
    {
        self.registry.insert_probe(probe);
    }

    /// First half of a connect: lend the probe and configure it for the
    /// attempt. The caller passes the configured probe to the driver's
    /// connect call and reports the outcome to [`Self::finish_connect`]; on
    /// failure here the registry is unchanged. A requested frequency tier
    /// must have an entry in the probe's table for the protocol.
    pub fn begin_connect(
        &mut self,
        probe_serial_number: &Serial,
        protocol: &Protocol,
        connection_parameters: &ConnectionParameters,
    ) -> (r: Result<PendingConnect, CubeProgrammerError>)
        requires
            old(self).wf(),
            serial_available(old(self).registry.entries@, probe_serial_number@) ==> spec_tier_index(
                connection_parameters.frequency,
            ) < spec_frequency_table(
                &lent_probe(old(self).registry.entries@, probe_serial_number@),
                *protocol,
            ).len(),
        ensures
            final(self).wf(),
            !has_serial(old(self).registry.entries@, probe_serial_number@) ==> (r matches Err(
                CubeProgrammerError::ConnectionFailure(ConnectionFailureKind::ProbeNotFound),
            ) && final(self).registry.entries@ == old(self).registry.entries@),
            has_serial(old(self).registry.entries@, probe_serial_number@) && !serial_available(
                old(self).registry.entries@,
                probe_serial_number@,
            ) ==> (r matches Err(
                CubeProgrammerError::ConnectionFailure(ConnectionFailureKind::ProbeAlreadyLent),
            ) && final(self).registry.entries@ == old(self).registry.entries@),
            serial_available(old(self).registry.entries@, probe_serial_number@) ==> (r matches Ok(
                pending,
            ) && pending.probe == lent_probe(old(self).registry.entries@, probe_serial_number@)
                && configured_for(
                pending.configured,
                pending.probe,
                *protocol,
                *connection_parameters,
            ) && final(self).registry.entries@ == spec_after_lend(
                old(self).registry.entries@,
                probe_serial_number@,
            )),
    {
        let probe = self.registry.lend(probe_serial_number)?;
        let configured = Probe::new(&probe, protocol, connection_parameters);
        Ok(PendingConnect { probe, configured })
    }

    /// Second half of a connect: interpret the driver's connect status and
    /// the target snapshot it reported. A failed connect, and a connect whose
    /// snapshot came back empty, return the probe to the registry before the
    /// error propagates; in the empty-snapshot case the caller must also
    /// issue the driver's disconnect, since the link did come up.
    pub fn finish_connect(
        &mut self,
        pending: PendingConnect,
        connect_status: i32,
        general_information: Option<GeneralInformation>,
    ) -> (r: Result<ConnectedProgrammer, CubeProgrammerError>)
        requires
            old(self).wf(),
        ensures
            final(self).wf(),
            connect_status != 0 ==> (r matches Err(CubeProgrammerError::ConnectionFailure(
                ConnectionFailureKind::Link(code),
            )) && code == spec_error_code(connect_status as int) && final(self).registry.entries@
                == spec_after_insert(old(self).registry.entries@, pending.probe)),
            connect_status == 0 && general_information is None ==> (r matches Err(
                CubeProgrammerError::DataIntegrity {
                    action: Action::ReadTargetInfo,
                    unexpected_output: UnexpectedOutput::Null,
                },
            ) && final(self).registry.entries@ == spec_after_insert(
                old(self).registry.entries@,
                pending.probe,
            )),
            connect_status == 0 ==> (general_information matches Some(info) ==> (r matches Ok(
                session,
            ) && session.probe == pending.probe && session.general_information == info
                && final(self).registry.entries@ == old(self).registry.entries@)),
    {
        if connect_status != 0 {
            self.registry.insert_probe(pending.probe);
            return Err(
                CubeProgrammerError::ConnectionFailure(
                    ConnectionFailureKind::Link(ErrorCode::from_raw(connect_status)),
                ),
            );
        }
        match general_information {
            None => {
                self.registry.insert_probe(pending.probe);
                Err(CubeProgrammerError::DataIntegrity {
                    action: Action::ReadTargetInfo,
                    unexpected_output: UnexpectedOutput::Null,
                })
            },
            Some(info) => Ok(
                ConnectedProgrammer { probe: pending.probe, general_information: info },
            ),
        }
    }

    /// The connection parameters of the first FUS handshake phase: highest
    /// frequency, hardware reset, normal mode.
    pub fn fus_connection_parameters_normal() -> (r: ConnectionParameters)
        ensures
            r.frequency == Frequency::Highest,
            r.reset_mode == ResetMode::Hardware,
            r.connection_mode == ConnectionMode::Normal,
    {
        ConnectionParameters {
            frequency: Frequency::Highest,
            reset_mode: ResetMode::Hardware,
            connection_mode: ConnectionMode::Normal,
        }
    }

    /// The connection parameters of the FUS reconnect phase: highest
    /// frequency, hardware reset, hot-plug mode, so the running service is
    /// not reset away.
    pub fn fus_connection_parameters_hotplug() -> (r: ConnectionParameters)
        ensures
            r.frequency == Frequency::Highest,
            r.reset_mode == ResetMode::Hardware,
            r.connection_mode == ConnectionMode::HotPlug,
    {
        ConnectionParameters {
            frequency: Frequency::Highest,
            reset_mode: ResetMode::Hardware,
            connection_mode: ConnectionMode::HotPlug,
        }
    }

    /// Step between the first FUS phase and the reconnect: the target must
    /// support the FUS, and the driver's start-FUS command must report its
    /// success sentinel, which is `1` for this call, not the usual `0`. The
    /// start-FUS command is only issued on a supporting target, so the status
    /// is owed only then. Whatever the outcome, the first session ends here
    /// and the probe returns to the registry; the caller must issue the
    /// driver's disconnect in every case.
    pub fn fus_start(&mut self, session: ConnectedProgrammer, start_status: Option<i32>) -> (r:
        Result<FusStarted, CubeProgrammerError>)
        requires
            old(self).wf(),
            session.general_information.fus_support ==> start_status is Some,
        ensures
            final(self).wf(),
            final(self).registry.entries@ == spec_after_insert(
                old(self).registry.entries@,
                session.probe,
            ),
            !session.general_information.fus_support ==> (r matches Err(
                CubeProgrammerError::Unsupported { action: Action::StartFus, message: _ },
            )),
            session.general_information.fus_support ==> (start_status matches Some(s) && (r is Ok
                <==> s == 1) && (s != 1 ==> (r matches Err(e) && is_command_failure(
                e,
                Action::StartFus,
                s as int,
            )))),
            r matches Ok(t) ==> t.serial@ == session.probe.serial_number@,
    {
        let fus_support = session.general_information.fus_support;
        let serial = Serial(session.probe.serial_number.clone());
        self.registry.insert_probe(session.probe);
        if !fus_support {
            return Err(CubeProgrammerError::Unsupported {
                action: Action::StartFus,
                message: String::from_str("the connected target does not support the FUS"),
            });
        }
        match start_status {
            Some(s) => {
                ReturnCode::expect_one(s).check(Action::StartFus)?;
                Ok(FusStarted { serial })
            },
            None => {
                // Unreachable under the precondition; kept total for the
                // caller that breaks the protocol.
                Err(CubeProgrammerError::Unsupported {
                    action: Action::StartFus,
                    message: String::from_str("the start-FUS status is missing"),
                })
            },
        }
    }

    /// Final FUS phase: bind the decoded device-information table to the
    /// hot-plug session. On a table that fails its validity check — or a
    /// session whose target family is unknown — the session ends, the probe
    /// returns to the registry, and the caller must issue the driver's
    /// disconnect.
    pub fn finish_connect_fus(
        &mut self,
        started: FusStarted,
        session: ConnectedProgrammer,
        words: &FusTableWords,
    ) -> (r: Result<ConnectedFusProgrammer, CubeProgrammerError>)
        requires
            old(self).wf(),
        ensures
            final(self).wf(),
            spec_fus_family(session.general_information.name@) is None ==> (r matches Err(
                CubeProgrammerError::Unsupported { action: Action::ReadFusInfo, message: _ },
            ) && final(self).registry.entries@ == spec_after_insert(
                old(self).registry.entries@,
                session.probe,
            )),
            spec_fus_family(session.general_information.name@) is Some && words.state
                != FUS_DEVICE_INFO_TABLE_VALIDITY_KEYWORD ==> (r matches Err(
                CubeProgrammerError::DataIntegrity {
                    action: Action::ReadFusInfo,
                    unexpected_output: UnexpectedOutput::InvalidKeyword,
                },
            ) && final(self).registry.entries@ == spec_after_insert(
                old(self).registry.entries@,
                session.probe,
            )),
            words.state == FUS_DEVICE_INFO_TABLE_VALIDITY_KEYWORD ==> (spec_fus_family(
                session.general_information.name@,
            ) matches Some(family) ==> (r matches Ok(fus_session) && fus_session.programmer
                == session && fus_session.fus_info == spec_decoded_information(
                FusLayout::spec_for_family(family),
                *words,
            ) && final(self).registry.entries@ == old(self).registry.entries@)),
    {
        let _ = started;
        match session.general_information.fus_layout() {
            None => {
                self.registry.insert_probe(session.probe);
                Err(CubeProgrammerError::Unsupported {
                    action: Action::ReadFusInfo,
                    message: String::from_str("the connected target does not support the FUS"),
                })
            },
            Some(layout) => {
                match decode_fus_info(&layout, words) {
                    Ok(fus_info) => Ok(ConnectedFusProgrammer { programmer: session, fus_info }),
                    Err(e) => {
                        self.registry.insert_probe(session.probe);
                        Err(e)
                    },
                }
            },
        }
    }
}

impl ConnectedProgrammer {
    /// The target snapshot fetched at connect time.
    pub fn general_information(&self) -> (r: &GeneralInformation)
        ensures
            *r == self.general_information,
    {
        &self.general_information
    }

    /// End the session: the probe returns to the registry. The caller must
    /// have issued the driver's disconnect first.
    pub fn disconnect(self, programmer: &mut CubeProgrammer)
        requires
            old(programmer).wf(),
        ensures
            final(programmer).wf(),
            final(programmer).registry.entries@ == spec_after_insert(
                old(programmer).registry.entries@,
                self.probe,
            ),
    {
        programmer.insert_probe(self.probe);
    }

    /// Succeeds exactly when the connected target supports the FUS.
    pub fn check_fus_support(&self) -> (r: Result<(), CubeProgrammerError>)
        ensures
            r is Ok <==> self.general_information.fus_support,
            !self.general_information.fus_support ==> (r matches Err(
                CubeProgrammerError::Unsupported { action: Action::StartFus, message: _ },
            )),
    {
        if !self.general_information.fus_support {
            return Err(CubeProgrammerError::Unsupported {
                action: Action::StartFus,
                message: String::from_str("the connected target does not support the FUS"),
            });
        }
        Ok(())
    }

    /// Interpret the driver's liveness probe; this call's success sentinel is
    /// `1`, inverted from the usual `0`.
    pub fn check_connection(&self, liveness_status: i32) -> (r: Result<(), CubeProgrammerError>)
        ensures
            r is Ok <==> liveness_status == 1,
            liveness_status != 1 ==> (r matches Err(e) && is_command_failure(
                e,
                Action::CheckConnection,
                liveness_status as int,
            )),
    {
        ReturnCode::expect_one(liveness_status).check(Action::CheckConnection)
    }

    /// Interpret a reset attempt: the liveness probe runs first, and the
    /// reset command is issued — and its status owed — only when the target
    /// answered.
    pub fn reset_target(
        &self,
        reset_mode: ResetMode,
        liveness_status: i32,
        reset_status: Option<i32>,
    ) -> (r: Result<(), CubeProgrammerError>)
        requires
            liveness_status == 1 ==> reset_status is Some,
        ensures
            liveness_status != 1 ==> (r matches Err(e) && is_command_failure(
                e,
                Action::CheckConnection,
                liveness_status as int,
            )),
            liveness_status == 1 ==> (reset_status matches Some(s) && (r is Ok <==> s == 0) && (s
                != 0 ==> (r matches Err(e) && is_command_failure(e, Action::Reset, s as int)))),
    {
        let _ = reset_mode;
        self.check_connection(liveness_status)?;
        match reset_status {
            Some(s) => ReturnCode::expect_zero(s).check(Action::Reset),
            None => Ok(()),
        }
    }

    /// Interpret a mass-erase attempt, after the liveness probe.
    pub fn mass_erase(&self, liveness_status: i32, erase_status: Option<i32>) -> (r: Result<
        (),
        CubeProgrammerError,
    >)
        requires
            liveness_status == 1 ==> erase_status is Some,
        ensures
            liveness_status != 1 ==> (r matches Err(e) && is_command_failure(
                e,
                Action::CheckConnection,
                liveness_status as int,
            )),
            liveness_status == 1 ==> (erase_status matches Some(s) && (r is Ok <==> s == 0) && (s
                != 0 ==> (r matches Err(e) && is_command_failure(e, Action::MassErase, s as int)))),
    {
        self.check_connection(liveness_status)?;
        match erase_status {
            Some(s) => ReturnCode::expect_zero(s).check(Action::MassErase),
            None => Ok(()),
        }
    }

    /// Interpret a save-memory attempt: after the liveness probe, the start
    /// address and the size must both fit the driver's signed 32-bit
    /// arguments, and only then is the save command issued and its status
    /// owed.
    pub fn save_memory(
        &self,
        start_address: u32,
        size_bytes: u32,
        liveness_status: i32,
        save_status: Option<i32>,
    ) -> (r: Result<(), CubeProgrammerError>)
        requires
            liveness_status == 1 && start_address <= i32::MAX && size_bytes <= i32::MAX
                ==> save_status is Some,
        ensures
            liveness_status != 1 ==> (r matches Err(e) && is_command_failure(
                e,
                Action::CheckConnection,
                liveness_status as int,
            )),
            liveness_status == 1 && (start_address > i32::MAX || size_bytes > i32::MAX) ==> (
            r matches Err(CubeProgrammerError::ResourceExhaustion { action: Action::SaveMemory })),
            liveness_status == 1 && start_address <= i32::MAX && size_bytes <= i32::MAX ==> (
            save_status matches Some(s) && (r is Ok <==> s == 0) && (s != 0 ==> (r matches Err(e)
                && is_command_failure(e, Action::SaveMemory, s as int)))),
    {
        self.check_connection(liveness_status)?;
        if start_address > i32::MAX as u32 || size_bytes > i32::MAX as u32 {
            return Err(CubeProgrammerError::ResourceExhaustion { action: Action::SaveMemory });
        }
        match save_status {
            Some(s) => ReturnCode::expect_zero(s).check(Action::SaveMemory),
            None => Ok(()),
        }
    }

    /// The option-bytes command that sets read-out protection to its first
    /// level.
    pub fn read_out_protection_command() -> (r: String)
        ensures
            r@ == "-ob rdp=0xbb"@,
    {
        String::from_str("-ob rdp=0xbb")
    }

    /// Interpret an enable-read-out-protection attempt, after the liveness
    /// probe. The caller sends [`Self::read_out_protection_command`] to the
    /// driver's option-bytes call.
    pub fn enable_read_out_protection(&self, liveness_status: i32, command_status: Option<i32>) -> (
    r: Result<(), CubeProgrammerError>)
        requires
            liveness_status == 1 ==> command_status is Some,
        ensures
            liveness_status != 1 ==> (r matches Err(e) && is_command_failure(
                e,
                Action::CheckConnection,
                liveness_status as int,
            )),
            liveness_status == 1 ==> (command_status matches Some(s) && (r is Ok <==> s == 0) && (s
                != 0 ==> (r matches Err(e) && is_command_failure(
                e,
                Action::EnableReadOutProtection,
                s as int,
            )))),
    {
        self.check_connection(liveness_status)?;
        match command_status {
            Some(s) => ReturnCode::expect_zero(s).check(Action::EnableReadOutProtection),
            None => Ok(()),
        }
    }

    /// Interpret a disable-read-out-protection attempt, after the liveness
    /// probe. The driver's unprotect command erases the device memory as a
    /// side effect.
    pub fn disable_read_out_protection(
        &self,
        liveness_status: i32,
        command_status: Option<i32>,
    ) -> (r: Result<(), CubeProgrammerError>)
        requires
            liveness_status == 1 ==> command_status is Some,
        ensures
            liveness_status != 1 ==> (r matches Err(e) && is_command_failure(
                e,
                Action::CheckConnection,
                liveness_status as int,
            )),
            liveness_status == 1 ==> (command_status matches Some(s) && (r is Ok <==> s == 0) && (s
                != 0 ==> (r matches Err(e) && is_command_failure(
                e,
                Action::DisableReadOutProtection,
                s as int,
            )))),
    {
        self.check_connection(liveness_status)?;
        match command_status {
            Some(s) => ReturnCode::expect_zero(s).check(Action::DisableReadOutProtection),
            None => Ok(()),
        }
    }

    /// Interpret a write to a core register, after the liveness probe.
    pub fn write_core_register(
        &self,
        register: crate::api_types::CoreRegister,
        value: u32,
        liveness_status: i32,
        write_status: Option<i32>,
    ) -> (r: Result<(), CubeProgrammerError>)
        requires
            liveness_status == 1 ==> write_status is Some,
        ensures
            liveness_status != 1 ==> (r matches Err(e) && is_command_failure(
                e,
                Action::CheckConnection,
                liveness_status as int,
            )),
            liveness_status == 1 ==> (write_status matches Some(s) && (r is Ok <==> s == 0) && (s
                != 0 ==> (r matches Err(e) && is_command_failure(
                e,
                Action::WriteCoreRegister,
                s as int,
            )))),
    {
        let _ = register;
        let _ = value;
        self.check_connection(liveness_status)?;
        match write_status {
            Some(s) => ReturnCode::expect_zero(s).check(Action::WriteCoreRegister),
            None => Ok(()),
        }
    }

    /// Interpret a read of a core register, after the liveness probe: the
    /// value the driver filled in counts only when the read status is its
    /// success sentinel.
    pub fn read_core_register(
        &self,
        register: crate::api_types::CoreRegister,
        liveness_status: i32,
        read_outcome: Option<(i32, u32)>,
    ) -> (r: Result<u32, CubeProgrammerError>)
        requires
            liveness_status == 1 ==> read_outcome is Some,
        ensures
            liveness_status != 1 ==> (r matches Err(e) && is_command_failure(
                e,
                Action::CheckConnection,
                liveness_status as int,
            )),
            liveness_status == 1 ==> (read_outcome matches Some((s, value)) && (r is Ok <==> s == 0)
                && (s == 0 ==> r == Ok::<u32, CubeProgrammerError>(value)) && (s != 0 ==> (
            r matches Err(e) && is_command_failure(e, Action::ReadCoreRegister, s as int)))),
    {
        let _ = register;
        self.check_connection(liveness_status)?;
        match read_outcome {
            Some((s, value)) => {
                ReturnCode::expect_zero(s).check(Action::ReadCoreRegister)?;
                Ok(value)
            },
            None => Ok(0),
        }
    }

    /// Interpret a start of the wireless stack: the target must support the
    /// FUS, and this driver command's success sentinel is `1`. The command is
    /// only issued on a supporting target, so the status is owed only then.
    pub fn start_wireless_stack(&self, start_status: Option<i32>) -> (r: Result<
        (),
        CubeProgrammerError,
    >)
        requires
            self.general_information.fus_support ==> start_status is Some,
        ensures
            !self.general_information.fus_support ==> (r matches Err(
                CubeProgrammerError::Unsupported { action: Action::StartFus, message: _ },
            )),
            self.general_information.fus_support ==> (start_status matches Some(s) && (r is Ok <==>
                s == 1) && (s != 1 ==> (r matches Err(e) && is_command_failure(
                e,
                Action::StartWirelessStack,
                s as int,
            )))),
    {
        self.check_fus_support()?;
        match start_status {
            Some(s) => ReturnCode::expect_one(s).check(Action::StartWirelessStack),
            None => Ok(()),
        }
    }

    /// Interpret a hex-file download. The file content is validated
    /// structurally before anything else: the driver accepts a malformed hex
    /// file and silently programs it at address zero, so an invalid file is
    /// rejected before any driver call — neither the liveness probe nor the
    /// download runs, and no status is owed for them. Hex files are
    /// self-addressing, so no load address is taken.
    pub fn download_hex_file(
        &self,
        content: &Vec<u8>,
        skip_erase: bool,
        verify: bool,
        liveness_status: Option<i32>,
        download_status: Option<i32>,
    ) -> (r: Result<(), CubeProgrammerError>)
        requires
            crate::hex_file::spec_hex_file_valid(content@) ==> liveness_status is Some,
            crate::hex_file::spec_hex_file_valid(content@) && liveness_status == Some(1i32)
                ==> download_status is Some,
        ensures
            !crate::hex_file::spec_hex_file_valid(content@) ==> (r matches Err(
                CubeProgrammerError::Parameter { action: Action::DownloadFile, message: _ },
            )),
            crate::hex_file::spec_hex_file_valid(content@) ==> (liveness_status matches Some(ls) && (
            ls != 1 ==> (r matches Err(e) && is_command_failure(
                e,
                Action::CheckConnection,
                ls as int,
            )))),
            crate::hex_file::spec_hex_file_valid(content@) && liveness_status == Some(1i32) ==> (
            download_status matches Some(s) && (r is Ok <==> s == 0) && (s != 0 ==> (r matches Err(
                e,
            ) && is_command_failure(e, Action::DownloadFile, s as int)))),
    {
        let _ = skip_erase;
        let _ = verify;
        if !crate::hex_file::validate_intel_hex(content) {
            return Err(CubeProgrammerError::Parameter {
                action: Action::DownloadFile,
                message: String::from_str("the file is not a structurally valid hex file"),
            });
        }
        let ls = match liveness_status {
            Some(ls) => ls,
            None => vstd::pervasive::unreached(),
        };
        self.check_connection(ls)?;
        match download_status {
            Some(s) => ReturnCode::expect_zero(s).check(Action::DownloadFile),
            None => vstd::pervasive::unreached(),
        }
    }

    /// Interpret a binary-file download to an explicit load address, after
    /// the liveness probe.
    pub fn download_bin_file(
        &self,
        start_address: u32,
        skip_erase: bool,
        verify: bool,
        liveness_status: i32,
        download_status: Option<i32>,
    ) -> (r: Result<(), CubeProgrammerError>)
        requires
            liveness_status == 1 ==> download_status is Some,
        ensures
            liveness_status != 1 ==> (r matches Err(e) && is_command_failure(
                e,
                Action::CheckConnection,
                liveness_status as int,
            )),
            liveness_status == 1 ==> (download_status matches Some(s) && (r is Ok <==> s == 0) && (s
                != 0 ==> (r matches Err(e) && is_command_failure(e, Action::DownloadFile, s as int)))),
    {
        let _ = start_address;
        let _ = skip_erase;
        let _ = verify;
        self.check_connection(liveness_status)?;
        match download_status {
            Some(s) => ReturnCode::expect_zero(s).check(Action::DownloadFile),
            None => Ok(()),
        }
    }

    /// Interpret a typed read of bytes: the byte length is computed and
    /// checked before any driver call, a failing read status surfaces
    /// verbatim, a null result and a result of the wrong length are rejected
    /// apart, and a sound result is returned as an owned copy.
    pub fn read_memory_u8(
        &self,
        address: u32,
        count: usize,
        read_status: Option<i32>,
        data: Option<&Vec<u8>>,
    ) -> (r: Result<Vec<u8>, CubeProgrammerError>)
        requires
            count <= u32::MAX ==> read_status is Some,
        ensures
            count > u32::MAX ==> (r matches Err(CubeProgrammerError::ResourceExhaustion {
                action: Action::ReadMemory,
            })),
            count <= u32::MAX ==> (read_status matches Some(s) && (s != 0 ==> (r matches Err(e)
                && is_command_failure(e, Action::ReadMemory, s as int)))),
            count <= u32::MAX && read_status == Some(0i32) && data is None ==> (r matches Err(
                CubeProgrammerError::DataIntegrity {
                    action: Action::ReadMemory,
                    unexpected_output: UnexpectedOutput::Null,
                },
            )),
            count <= u32::MAX && read_status == Some(0i32) ==> (data matches Some(b) ==> {
                &&& b@.len() != count ==> (r matches Err(CubeProgrammerError::DataIntegrity {
                    action: Action::ReadMemory,
                    unexpected_output: UnexpectedOutput::SliceLength,
                }))
                &&& b@.len() == count ==> (r matches Ok(vs) && vs@ == b@)
            }),
    {
        let _ = address;
        let byte_len = memory::typed_byte_length(1, count, Action::ReadMemory)?;
        let s = match read_status {
            Some(s) => s,
            None => vstd::pervasive::unreached(),
        };
        ReturnCode::expect_zero(s).check(Action::ReadMemory)?;
        match data {
            None => Err(CubeProgrammerError::DataIntegrity {
                action: Action::ReadMemory,
                unexpected_output: UnexpectedOutput::Null,
            }),
            Some(b) => {
                if b.len() != byte_len as usize {
                    Err(CubeProgrammerError::DataIntegrity {
                        action: Action::ReadMemory,
                        unexpected_output: UnexpectedOutput::SliceLength,
                    })
                } else {
                    Ok(vstd::slice::slice_to_vec(b.as_slice()))
                }
            },
        }
    }

    /// Interpret a typed read of 16-bit values; a sound result is decoded
    /// two bytes per value.
    pub fn read_memory_u16(
        &self,
        address: u32,
        count: usize,
        read_status: Option<i32>,
        data: Option<&Vec<u8>>,
    ) -> (r: Result<Vec<u16>, CubeProgrammerError>)
        requires
            2 * count <= u32::MAX ==> read_status is Some,
        ensures
            2 * count > u32::MAX ==> (r matches Err(CubeProgrammerError::ResourceExhaustion {
                action: Action::ReadMemory,
            })),
            2 * count <= u32::MAX ==> (read_status matches Some(s) && (s != 0 ==> (r matches Err(e)
                && is_command_failure(e, Action::ReadMemory, s as int)))),
            2 * count <= u32::MAX && read_status == Some(0i32) && data is None ==> (r matches Err(
                CubeProgrammerError::DataIntegrity {
                    action: Action::ReadMemory,
                    unexpected_output: UnexpectedOutput::Null,
                },
            )),
            2 * count <= u32::MAX && read_status == Some(0i32) ==> (data matches Some(b) ==> {
                &&& b@.len() != 2 * count ==> (r matches Err(CubeProgrammerError::DataIntegrity {
                    action: Action::ReadMemory,
                    unexpected_output: UnexpectedOutput::SliceLength,
                }))
                &&& b@.len() == 2 * count ==> (r matches Ok(vs) && vs@ == memory::spec_decode_u16s(
                    b@,
                ) && vs@.len() == count)
            }),
    {
        let _ = address;
        let byte_len = memory::typed_byte_length(2, count, Action::ReadMemory)?;
        let s = match read_status {
            Some(s) => s,
            None => vstd::pervasive::unreached(),
        };
        ReturnCode::expect_zero(s).check(Action::ReadMemory)?;
        match data {
            None => Err(CubeProgrammerError::DataIntegrity {
                action: Action::ReadMemory,
                unexpected_output: UnexpectedOutput::Null,
            }),
            Some(b) => {
                if b.len() != byte_len as usize {
                    Err(CubeProgrammerError::DataIntegrity {
                        action: Action::ReadMemory,
                        unexpected_output: UnexpectedOutput::SliceLength,
                    })
                } else {
                    Ok(memory::decode_u16s(b, count))
                }
            },
        }
    }

    /// Interpret a typed read of 32-bit values; a sound result is decoded
    /// four bytes per value.
    pub fn read_memory_u32(
        &self,
        address: u32,
        count: usize,
        read_status: Option<i32>,
        data: Option<&Vec<u8>>,
    ) -> (r: Result<Vec<u32>, CubeProgrammerError>)
        requires
            4 * count <= u32::MAX ==> read_status is Some,
        ensures
            4 * count > u32::MAX ==> (r matches Err(CubeProgrammerError::ResourceExhaustion {
                action: Action::ReadMemory,
            })),
            4 * count <= u32::MAX ==> (read_status matches Some(s) && (s != 0 ==> (r matches Err(e)
                && is_command_failure(e, Action::ReadMemory, s as int)))),
            4 * count <= u32::MAX && read_status == Some(0i32) && data is None ==> (r matches Err(
                CubeProgrammerError::DataIntegrity {
                    action: Action::ReadMemory,
                    unexpected_output: UnexpectedOutput::Null,
                },
            )),
            4 * count <= u32::MAX && read_status == Some(0i32) ==> (data matches Some(b) ==> {
                &&& b@.len() != 4 * count ==> (r matches Err(CubeProgrammerError::DataIntegrity {
                    action: Action::ReadMemory,
                    unexpected_output: UnexpectedOutput::SliceLength,
                }))
                &&& b@.len() == 4 * count ==> (r matches Ok(vs) && vs@ == memory::spec_decode_u32s(
                    b@,
                ) && vs@.len() == count)
            }),
    {
        let _ = address;
        let byte_len = memory::typed_byte_length(4, count, Action::ReadMemory)?;
        let s = match read_status {
            Some(s) => s,
            None => vstd::pervasive::unreached(),
        };
        ReturnCode::expect_zero(s).check(Action::ReadMemory)?;
        match data {
            None => Err(CubeProgrammerError::DataIntegrity {
                action: Action::ReadMemory,
                unexpected_output: UnexpectedOutput::Null,
            }),
            Some(b) => {
                if b.len() != byte_len as usize {
                    Err(CubeProgrammerError::DataIntegrity {
                        action: Action::ReadMemory,
                        unexpected_output: UnexpectedOutput::SliceLength,
                    })
                } else {
                    Ok(memory::decode_u32s(b, count))
                }
            },
        }
    }

    /// Interpret a typed read of 64-bit values; a sound result is decoded
    /// eight bytes per value.
    pub fn read_memory_u64(
        &self,
        address: u32,
        count: usize,
        read_status: Option<i32>,
        data: Option<&Vec<u8>>,
    ) -> (r: Result<Vec<u64>, CubeProgrammerError>)
        requires
            8 * count <= u32::MAX ==> read_status is Some,
        ensures
            8 * count > u32::MAX ==> (r matches Err(CubeProgrammerError::ResourceExhaustion {
                action: Action::ReadMemory,
            })),
            8 * count <= u32::MAX ==> (read_status matches Some(s) && (s != 0 ==> (r matches Err(e)
                && is_command_failure(e, Action::ReadMemory, s as int)))),
            8 * count <= u32::MAX && read_status == Some(0i32) && data is None ==> (r matches Err(
                CubeProgrammerError::DataIntegrity {
                    action: Action::ReadMemory,
                    unexpected_output: UnexpectedOutput::Null,
                },
            )),
            8 * count <= u32::MAX && read_status == Some(0i32) ==> (data matches Some(b) ==> {
                &&& b@.len() != 8 * count ==> (r matches Err(CubeProgrammerError::DataIntegrity {
                    action: Action::ReadMemory,
                    unexpected_output: UnexpectedOutput::SliceLength,
                }))
                &&& b@.len() == 8 * count ==> (r matches Ok(vs) && vs@ == memory::spec_decode_u64s(
                    b@,
                ) && vs@.len() == count)
            }),
    {
        let _ = address;
        let byte_len = memory::typed_byte_length(8, count, Action::ReadMemory)?;
        let s = match read_status {
            Some(s) => s,
            None => vstd::pervasive::unreached(),
        };
        ReturnCode::expect_zero(s).check(Action::ReadMemory)?;
        match data {
            None => Err(CubeProgrammerError::DataIntegrity {
                action: Action::ReadMemory,
                unexpected_output: UnexpectedOutput::Null,
            }),
            Some(b) => {
                if b.len() != byte_len as usize {
                    Err(CubeProgrammerError::DataIntegrity {
                        action: Action::ReadMemory,
                        unexpected_output: UnexpectedOutput::SliceLength,
                    })
                } else {
                    Ok(memory::decode_u64s(b, count))
                }
            },
        }
    }

    /// Serialize bytes for a typed write; the byte length is checked against
    /// the driver's 32-bit size argument before any call. The caller hands
    /// the bytes to the driver's raw write and reports the status to
    /// [`Self::write_memory_complete`].
    pub fn write_memory_u8(&self, address: u32, data: &Vec<u8>) -> (r: Result<
        Vec<u8>,
        CubeProgrammerError,
    >)
        ensures
            data@.len() > u32::MAX ==> (r matches Err(CubeProgrammerError::ResourceExhaustion {
                action: Action::WriteMemory,
            })),
            data@.len() <= u32::MAX ==> (r matches Ok(bytes) && bytes@ == data@),
    {
        let _ = address;
        let _ = memory::typed_byte_length(1, data.len(), Action::WriteMemory)?;
        Ok(vstd::slice::slice_to_vec(data.as_slice()))
    }

    /// Serialize 16-bit values for a typed write, two bytes per value.
    pub fn write_memory_u16(&self, address: u32, data: &Vec<u16>) -> (r: Result<
        Vec<u8>,
        CubeProgrammerError,
    >)
        ensures
            2 * data@.len() > u32::MAX ==> (r matches Err(CubeProgrammerError::ResourceExhaustion {
                action: Action::WriteMemory,
            })),
            2 * data@.len() <= u32::MAX ==> (r matches Ok(bytes) && bytes@
                == memory::spec_encode_u16s(data@) && bytes@.len() == 2 * data@.len()),
    {
        let _ = address;
        let _ = memory::typed_byte_length(2, data.len(), Action::WriteMemory)?;
        Ok(memory::encode_u16s(data))
    }

    /// Serialize 32-bit values for a typed write, four bytes per value.
    pub fn write_memory_u32(&self, address: u32, data: &Vec<u32>) -> (r: Result<
        Vec<u8>,
        CubeProgrammerError,
    >)
        ensures
            4 * data@.len() > u32::MAX ==> (r matches Err(CubeProgrammerError::ResourceExhaustion {
                action: Action::WriteMemory,
            })),
            4 * data@.len() <= u32::MAX ==> (r matches Ok(bytes) && bytes@
                == memory::spec_encode_u32s(data@) && bytes@.len() == 4 * data@.len()),
    {
        let _ = address;
        let _ = memory::typed_byte_length(4, data.len(), Action::WriteMemory)?;
        Ok(memory::encode_u32s(data))
    }

    /// Serialize 64-bit values for a typed write, eight bytes per value.
    pub fn write_memory_u64(&self, address: u32, data: &Vec<u64>) -> (r: Result<
        Vec<u8>,
        CubeProgrammerError,
    >)
        ensures
            8 * data@.len() > u32::MAX ==> (r matches Err(CubeProgrammerError::ResourceExhaustion {
                action: Action::WriteMemory,
            })),
            8 * data@.len() <= u32::MAX ==> (r matches Ok(bytes) && bytes@
                == memory::spec_encode_u64s(data@) && bytes@.len() == 8 * data@.len()),
    {
        let _ = address;
        let _ = memory::typed_byte_length(8, data.len(), Action::WriteMemory)?;
        Ok(memory::encode_u64s(data))
    }

    /// Interpret the status of the driver's raw write.
    pub fn write_memory_complete(&self, write_status: i32) -> (r: Result<(), CubeProgrammerError>)
        ensures
            r is Ok <==> write_status == 0,
            write_status != 0 ==> (r matches Err(e) && is_command_failure(
                e,
                Action::WriteMemory,
                write_status as int,
            )),
    {
        ReturnCode::expect_zero(write_status).check(Action::WriteMemory)
    }

    /// Decode the FUS device-information table read from the target, using
    /// the layout of the target's device family.
    pub fn read_fus_info(&self, words: &FusTableWords) -> (r: Result<
        fus::Information,
        CubeProgrammerError,
    >)
        ensures
            spec_fus_family(self.general_information.name@) is None ==> (r matches Err(
                CubeProgrammerError::Unsupported { action: Action::ReadFusInfo, message: _ },
            )),
            spec_fus_family(self.general_information.name@) is Some && words.state
                != FUS_DEVICE_INFO_TABLE_VALIDITY_KEYWORD ==> (r matches Err(
                CubeProgrammerError::DataIntegrity {
                    action: Action::ReadFusInfo,
                    unexpected_output: UnexpectedOutput::InvalidKeyword,
                },
            )),
            words.state == FUS_DEVICE_INFO_TABLE_VALIDITY_KEYWORD ==> (spec_fus_family(
                self.general_information.name@,
            ) matches Some(family) ==> r == Ok::<fus::Information, CubeProgrammerError>(
                spec_decoded_information(FusLayout::spec_for_family(family), *words),
            )),
    {
        match self.general_information.fus_layout() {
            None => Err(CubeProgrammerError::Unsupported {
                action: Action::ReadFusInfo,
                message: String::from_str("the connected target does not support the FUS"),
            }),
            Some(layout) => decode_fus_info(&layout, words),
        }
    }
}

impl ConnectedFusProgrammer {
    /// The FUS information decoded during the handshake.
    pub fn fus_info(&self) -> (r: &fus::Information)
        ensures
            *r == self.fus_info,
    {
        &self.fus_info
    }

    /// Interpret a delete of the wireless stack; this driver command's
    /// success sentinel is `1`.
    pub fn delete_wireless_stack(&self, delete_status: i32) -> (r: Result<
        (),
        CubeProgrammerError,
    >)
        ensures
            r is Ok <==> delete_status == 1,
            delete_status != 1 ==> (r matches Err(e) && is_command_failure(
                e,
                Action::DeleteWirelessStack,
                delete_status as int,
            )),
    {
        ReturnCode::expect_one(delete_status).check(Action::DeleteWirelessStack)
    }

    /// Interpret an upgrade of the wireless stack, after the liveness probe;
    /// this driver command's success sentinel is `1`.
    pub fn upgrade_wireless_stack(&self, liveness_status: i32, upgrade_status: Option<i32>) -> (r:
        Result<(), CubeProgrammerError>)
        requires
            liveness_status == 1 ==> upgrade_status is Some,
        ensures
            liveness_status != 1 ==> (r matches Err(e) && is_command_failure(
                e,
                Action::CheckConnection,
                liveness_status as int,
            )),
            liveness_status == 1 ==> (upgrade_status matches Some(s) && (r is Ok <==> s == 1) && (s
                != 1 ==> (r matches Err(e) && is_command_failure(
                e,
                Action::UpgradeWirelessStack,
                s as int,
            )))),
    {
        self.programmer.check_connection(liveness_status)?;
        match upgrade_status {
            Some(s) => ReturnCode::expect_one(s).check(Action::UpgradeWirelessStack),
            None => Ok(()),
        }
    }

    /// Start the wireless stack through the underlying session.
    pub fn start_wireless_stack(&self, start_status: Option<i32>) -> (r: Result<
        (),
        CubeProgrammerError,
    >)
        requires
            self.programmer.general_information.fus_support ==> start_status is Some,
        ensures
            !self.programmer.general_information.fus_support ==> (r matches Err(
                CubeProgrammerError::Unsupported { action: Action::StartFus, message: _ },
            )),
            self.programmer.general_information.fus_support ==> (start_status matches Some(s) && (
            r is Ok <==> s == 1) && (s != 1 ==> (r matches Err(e) && is_command_failure(
                e,
                Action::StartWirelessStack,
                s as int,
            )))),
    {
        self.programmer.start_wireless_stack(start_status)
    }

    /// End the FUS session: the probe returns to the registry. The caller
    /// must have issued the driver's disconnect first.
    pub fn disconnect(self, programmer: &mut CubeProgrammer)
        requires
            old(programmer).wf(),
        ensures
            final(programmer).wf(),
            final(programmer).registry.entries@ == spec_after_insert(
                old(programmer).registry.entries@,
                self.programmer.probe,
            ),
    {
        self.programmer.disconnect(programmer);
    }
}

/// Law: the FUS handshake on a target outside the FUS-capable set fails as
/// unsupported and leaves the probe available. The support check runs right
/// after the first connect, whose lend left the registry in the lent state;
/// returning the probe restores the registry exactly, so the serial is
/// available again.
pub proof fn lemma_fus_unsupported_leaves_probe_available(
    entries: Seq<RegistryEntry>,
    serial: Seq<char>,
)
    requires
        wf_entries(entries),
        serial_available(entries, serial),
    ensures
        spec_after_insert(spec_after_lend(entries, serial), lent_probe(entries, serial)) == entries,
        serial_available(
            spec_after_insert(spec_after_lend(entries, serial), lent_probe(entries, serial)),
            serial,
        ),
{
    crate::registry::lemma_return_after_lend_restores(entries, serial);
}

} // verus!
