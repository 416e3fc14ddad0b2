//! The structured result of a command-line run: which probes were seen,
//! which was used, what the target is, and what each command did. The
//! surrounding application renders this; the library only assembles it.

use vstd::prelude::*;
use vstd::string::*;

use crate::api_types::GeneralInformation;
use crate::fus;
use crate::probe::{ResetMode, Serial};

verus! {

/// What one executed command reports.
#[derive(Debug)]
pub enum CommandOutput {
    FlashBin { file: String, address: u32 },
    FlashHex { file: String },
    UpdateBleStack { file: String, address: u32, ble_stack_updated: BleStackUpdated },
    BleStackInfo(fus::Information),
    Reset { reset_mode: ResetMode },
    MassErase,
    Protect,
    Unprotect,
}

/// Whether a wireless-stack update was performed.
#[derive(Debug)]
pub enum BleStackUpdated {
    NotUpdated,
    Updated(BleStackUpdateReason),
}

/// Why a wireless-stack update was performed.
#[derive(Debug)]
pub enum BleStackUpdateReason {
    Force,
    VersionNotEqual { expected: fus::Version, on_target: fus::Version },
    NoVersionProvided,
}

impl Clone for GeneralInformation {
    /// A clone carries the same snapshot.
    fn clone(&self) -> (r: Self)
        ensures
            r == *self,
    {
        GeneralInformation {
            device_id: self.device_id,
            flash_size: self.flash_size,
            bootloader_version: self.bootloader_version,
            device_type: self.device_type.clone(),
            cpu: self.cpu.clone(),
            name: self.name.clone(),
            series: self.series.clone(),
            description: self.description.clone(),
            revision_id: self.revision_id.clone(),
            probe_board: self.probe_board.clone(),
            fus_support: self.fus_support,
        }
    }
}

/// The collected result of a run.
#[derive(Debug)]
pub struct Output {
    pub schema_version: String,
    pub args: String,
    pub cube_programmer_dir: String,
    pub connected_probes: Option<Vec<Serial>>,
    pub selected_probe: Option<Serial>,
    pub general_information: Option<GeneralInformation>,
    pub command_output: Option<Vec<CommandOutput>>,
}

impl Output {
    /// An empty result for a run started with these arguments.
    pub fn new(args: String, cube_programmer_dir: String) -> (r: Output)
        ensures
            r.schema_version@ == "1"@,
            r.args == args,
            r.cube_programmer_dir == cube_programmer_dir,
            r.connected_probes is None,
            r.selected_probe is None,
            r.general_information is None,
            r.command_output is None,
    {
        Output {
            schema_version: String::from_str("1"),
            args,
            cube_programmer_dir,
            connected_probes: None,
            selected_probe: None,
            general_information: None,
            command_output: None,
        }
    }

    /// Record which probe was selected.
    pub fn add_selected_probe(&mut self, probe: &Serial)
        ensures
            *final(self) == (Output { selected_probe: Some(*probe), ..*old(self) }),
    {
        self.selected_probe = Some(probe.clone());
    }

    /// Record the connected target's snapshot.
    pub fn add_general_information(&mut self, general_information: &GeneralInformation)
        ensures
            *final(self) == (Output {
                general_information: Some(*general_information),
                ..*old(self)
            }),
    {
        self.general_information = Some(general_information.clone());
    }

    /// Record the serials a scan discovered.
    pub fn add_probe_list(&mut self, list: &Vec<Serial>)
        ensures
            final(self).connected_probes matches Some(probes) && probes@ == list@,
            final(self).schema_version == old(self).schema_version,
            final(self).args == old(self).args,
            final(self).cube_programmer_dir == old(self).cube_programmer_dir,
            final(self).selected_probe == old(self).selected_probe,
            final(self).general_information == old(self).general_information,
            final(self).command_output == old(self).command_output,
    {
        let mut copy: Vec<Serial> = Vec::new();
        let mut i: usize = 0;
        while i < list.len()
            invariant
                0 <= i <= list@.len(),
                copy@ =~= list@.take(i as int),
            decreases list@.len() - i,
        {
            copy.push(list[i].clone());
            proof {
                assert(list@.take(i + 1) =~= list@.take(i as int).push(list@[i as int]));
            }
            i = i + 1;
        }
        proof {
            assert(list@.take(list@.len() as int) =~= list@);
        }
        self.connected_probes = Some(copy);
    }

    /// Append the output of one command.
    pub fn add_command_output(&mut self, command: CommandOutput)
        ensures
            final(self).command_output matches Some(v) && v@ == (match old(self).command_output {
                Some(old_v) => old_v@.push(command),
                None => seq![command],
            }),
            final(self).schema_version == old(self).schema_version,
            final(self).args == old(self).args,
            final(self).cube_programmer_dir == old(self).cube_programmer_dir,
            final(self).selected_probe == old(self).selected_probe,
            final(self).general_information == old(self).general_information,
            final(self).connected_probes == old(self).connected_probes,
    {
        match &mut self.command_output {
            Some(v) => {
                v.push(command);
            },
            None => {
                let mut v: Vec<CommandOutput> = Vec::new();
                v.push(command);
                proof {
                    assert(v@ =~= seq![command]);
                }
                self.command_output = Some(v);
            },
        }
    }
}

} // verus!
