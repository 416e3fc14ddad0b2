//! The read-only snapshot of a connected target, and the addressable core
//! registers.

use vstd::prelude::*;

use crate::fus::{spec_fus_family, fus_family_of, FusFamily, FusLayout};

verus! {

/// Information about the target, fetched once at connect time. Whether the
/// target offers the firmware update service is derived from the device name.
#[derive(Debug)]
pub struct GeneralInformation {
    pub device_id: u32,
    pub flash_size: u32,
    pub bootloader_version: u32,
    pub device_type: String,
    pub cpu: String,
    pub name: String,
    pub series: String,
    pub description: String,
    pub revision_id: String,
    pub probe_board: String,
    pub fus_support: bool,
}

impl GeneralInformation {
    /// The derived flag agrees with the device name.
    pub open spec fn wf(&self) -> bool {
        self.fus_support == spec_fus_family(self.name@) is Some
    }

    /// Assemble the snapshot from the fields the driver reports; the FUS
    /// support flag is computed from the device name.
    pub fn from_fields(
        device_id: u32,
        flash_size: u32,
        bootloader_version: u32,
        device_type: String,
        cpu: String,
        name: String,
        series: String,
        description: String,
        revision_id: String,
        probe_board: String,
    ) -> (r: GeneralInformation)
        ensures
            r.wf(),
            r.device_id == device_id,
            r.flash_size == flash_size,
            r.bootloader_version == bootloader_version,
            r.device_type == device_type,
            r.cpu == cpu,
            r.name == name,
            r.series == series,
            r.description == description,
            r.revision_id == revision_id,
            r.probe_board == probe_board,
            r.fus_support == spec_fus_family(name@) is Some,
    {
        let fus_support = fus_family_of(name.as_str()).is_some();
        GeneralInformation {
            device_id,
            flash_size,
            bootloader_version,
            device_type,
            cpu,
            name,
            series,
            description,
            revision_id,
            probe_board,
            fus_support,
        }
    }

    /// The FUS table layout of the target's device family, when the target
    /// belongs to a FUS-capable family.
    pub fn fus_layout(&self) -> (r: Option<FusLayout>)
        ensures
            r is Some <==> spec_fus_family(self.name@) is Some,
            spec_fus_family(self.name@) matches Some(family) ==> r == Some(
                FusLayout::spec_for_family(family),
            ),
    {
        match fus_family_of(self.name.as_str()) {
            Some(family) => Some(FusLayout::for_family(family)),
            None => None,
        }
    }
}

/// The addressable core registers, by enumerated id.
#[derive(Clone, Copy, Debug, PartialEq, Eq, Structural)]
pub enum CoreRegister {
    R0,
    R1,
    R2,
    R3,
    R4,
    R5,
    R6,
    R7,
    R8,
    R9,
    R10,
    R11,
    R12,
    Sp,
    Lr,
    Pc,
}

impl CoreRegister {
    /// The raw driver id of the register: the thirteen general registers in
    /// order, then stack pointer, link register and program counter.
    pub fn raw_value(&self) -> (r: u32)
        ensures
            r == self.spec_raw_value(),
    {
        match self {
            CoreRegister::R0 => 0,
            CoreRegister::R1 => 1,
            CoreRegister::R2 => 2,
            CoreRegister::R3 => 3,
            CoreRegister::R4 => 4,
            CoreRegister::R5 => 5,
            CoreRegister::R6 => 6,
            CoreRegister::R7 => 7,
            CoreRegister::R8 => 8,
            CoreRegister::R9 => 9,
            CoreRegister::R10 => 10,
            CoreRegister::R11 => 11,
            CoreRegister::R12 => 12,
            CoreRegister::Sp => 13,
            CoreRegister::Lr => 14,
            CoreRegister::Pc => 15,
        }
    }

    /// The raw driver id of the register.
    pub open spec fn spec_raw_value(&self) -> u32 {
        match self {
            CoreRegister::R0 => 0,
            CoreRegister::R1 => 1,
            CoreRegister::R2 => 2,
            CoreRegister::R3 => 3,
            CoreRegister::R4 => 4,
            CoreRegister::R5 => 5,
            CoreRegister::R6 => 6,
            CoreRegister::R7 => 7,
            CoreRegister::R8 => 8,
            CoreRegister::R9 => 9,
            CoreRegister::R10 => 10,
            CoreRegister::R11 => 11,
            CoreRegister::R12 => 12,
            CoreRegister::Sp => 13,
            CoreRegister::Lr => 14,
            CoreRegister::Pc => 15,
        }
    }
}

} // verus!
