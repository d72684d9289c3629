//! `hyperv_set_vm_hard_disk_drive`: configures a virtual hard disk.
use vstd::prelude::*;
use crate::command::{
    bool_arg, holds, join, lemma_add_contains, lemma_push_contains, lemma_script_holds_argument,
    number_arg, opt_bool, opt_i32, opt_quoted, opt_u64, quoted_arg, switch_arg, ArgList,
};
use crate::error::{invalid_input, script_outcome, ToolError};
use crate::json::{
    decode_records, describes_all, effective_output, parsed_json, read_printed, FromJson, JsonValue,
};
use crate::text::{is_blank, text_is_blank};

verus! {

/// The tool's name.
pub const NAME: &'static str = "hyperv_set_vm_hard_disk_drive";

/// What the tool does.
pub const DESCRIPTION: &'static str = "Configures a virtual hard disk.";

/// What the script runs after the cmdlet: the fields it prints, as JSON.
pub const SELECT: &'static str = " | Select-Object Name, Path, @{N='ControllerType';E={$_.ControllerType.ToString()}}, ControllerNumber, ControllerLocation, DiskNumber, PoolName, SupportPersistentReservations, @{N='MaximumIops';E={$_.MaximumIops.ToString()}}, @{N='MinimumIops';E={$_.MinimumIops.ToString()}}, @{N='QualityOfServicePriority';E={$_.QualityOfServicePriority.ToString()}}, ComputerName | ConvertTo-Json -Compress -Depth 3";

/// What the tool is asked.
#[derive(Debug)]
pub struct SetVmHardDiskDriveInput {
    /// Name of the virtual machine whose hard disk drive is to be configured.
    pub vm_name: String,
    /// Hyper-V host on which the virtual machine resides. Defaults to localhost.
    pub computer_name: Option<String>,
    /// Type of the controller to which the hard disk drive is attached: IDE or SCSI.
    pub controller_type: Option<String>,
    /// Number of the controller to which the hard disk drive is attached.
    pub controller_number: Option<i32>,
    /// Location on the controller of the hard disk drive to configure.
    pub controller_location: Option<i32>,
    /// Name of the hard disk drive to configure. Can be used instead of controller identification.
    pub name: Option<String>,
    /// New path to the virtual hard disk file.
    pub path: Option<String>,
    /// Name of the resource pool to which the virtual hard disk belongs.
    pub pool_name: Option<String>,
    /// Indicates whether the hard disk drive supports persistent reservations.
    pub support_persistent_reservations: Option<bool>,
    /// Maximum IOPS for the hard disk drive.
    pub maximum_iops: Option<u64>,
    /// Minimum IOPS for the hard disk drive.
    pub minimum_iops: Option<u64>,
    /// Quality of Service priority for storage I/O: VeryLow, Low, Normal, High, or VeryHigh.
    pub quality_of_service_priority: Option<String>,
    /// Allows the cmdlet to use paths that have not been verified.
    pub allow_unverified_paths: Option<bool>,
}

/// One record of the answer.
#[derive(Debug)]
pub struct VmHardDiskDriveInfo {
    pub name: String,
    pub path: String,
    pub controller_type: String,
    pub controller_number: i32,
    pub controller_location: i32,
    pub disk_number: i32,
    pub pool_name: String,
    pub support_persistent_reservations: bool,
    pub maximum_iops: String,
    pub minimum_iops: String,
    pub quality_of_service_priority: String,
    pub computer_name: String,
}

/// What the tool answers.
#[derive(Debug)]
pub struct SetVmHardDiskDriveOutput {
    pub hard_disk_drives: Vec<VmHardDiskDriveInfo>,
}

/// The tool.
#[derive(Default)]
pub struct SetVmHardDiskDriveTool;

impl FromJson for VmHardDiskDriveInfo {
    open spec fn describes(&self, item: JsonValue) -> bool {
        &&& self.name@ == item.text_or_empty("Name"@)
        &&& self.path@ == item.text_or_empty("Path"@)
        &&& self.controller_type@ == item.text_or_empty("ControllerType"@)
        &&& self.controller_number == item.i64_or_zero("ControllerNumber"@) as i32
        &&& self.controller_location == item.i64_or_zero("ControllerLocation"@) as i32
        &&& self.disk_number == item.i64_or_zero("DiskNumber"@) as i32
        &&& self.pool_name@ == item.text_or_empty("PoolName"@)
        &&& self.support_persistent_reservations
            == item.flag_or_false("SupportPersistentReservations"@)
        &&& self.maximum_iops@ == item.text_or_empty("MaximumIops"@)
        &&& self.minimum_iops@ == item.text_or_empty("MinimumIops"@)
        &&& self.quality_of_service_priority@ == item.text_or_empty("QualityOfServicePriority"@)
        &&& self.computer_name@ == item.text_or_empty("ComputerName"@)
    }

    fn from_json(item: &JsonValue) -> (r: Self) {
        VmHardDiskDriveInfo {
            name: item.text_or_empty_at("Name"),
            path: item.text_or_empty_at("Path"),
            controller_type: item.text_or_empty_at("ControllerType"),
            controller_number: item.i64_or_zero_at("ControllerNumber") as i32,
            controller_location: item.i64_or_zero_at("ControllerLocation") as i32,
            disk_number: item.i64_or_zero_at("DiskNumber") as i32,
            pool_name: item.text_or_empty_at("PoolName"),
            support_persistent_reservations: item.flag_or_false_at("SupportPersistentReservations"),
            maximum_iops: item.text_or_empty_at("MaximumIops"),
            minimum_iops: item.text_or_empty_at("MinimumIops"),
            quality_of_service_priority: item.text_or_empty_at("QualityOfServicePriority"),
            computer_name: item.text_or_empty_at("ComputerName"),
        }
    }
}

impl SetVmHardDiskDriveTool {
    /// The first problem with the request, as the message that reports it.
    pub open spec fn input_problem(input: SetVmHardDiskDriveInput) -> Option<Seq<char>> {
        if is_blank(input.vm_name@) {
            Some("VM name must not be empty"@)
        } else {
            None
        }
    }

    /// The arguments of the cmdlet.
    pub open spec fn command_args(input: SetVmHardDiskDriveInput) -> Seq<Seq<char>> {
        seq!["Set-VMHardDiskDrive"@, quoted_arg("-VMName"@, input.vm_name@)]
            + opt_quoted("-ComputerName"@, input.computer_name)
            + opt_quoted("-ControllerType"@, input.controller_type)
            + opt_i32("-ControllerNumber"@, input.controller_number)
            + opt_i32("-ControllerLocation"@, input.controller_location)
            + opt_quoted("-Name"@, input.name)
            + opt_quoted("-Path"@, input.path)
            + opt_quoted("-PoolName"@, input.pool_name)
            + opt_bool("-SupportPersistentReservations"@, input.support_persistent_reservations)
            + opt_u64("-MaximumIops"@, input.maximum_iops)
            + opt_u64("-MinimumIops"@, input.minimum_iops)
            + opt_quoted("-QualityOfServicePriority"@, input.quality_of_service_priority)
            + switch_arg("-AllowUnverifiedPaths"@, input.allow_unverified_paths == Some(true))
            + seq!["-PassThru"@]
    }

    /// The script that runs for a valid request.
    pub open spec fn script(input: SetVmHardDiskDriveInput) -> Seq<char> {
        join(Self::command_args(input), seq![' ']) + SELECT@
    }

    /// Checks the request and builds its script.
    pub fn build_script(input: &SetVmHardDiskDriveInput) -> (r: Result<String, ToolError>)
        ensures
            script_outcome(r, Self::input_problem(*input), Self::script(*input)),
    {
        if text_is_blank(input.vm_name.as_str()) {
            return Err(invalid_input("VM name must not be empty"));
        }
        let mut args = ArgList::new("Set-VMHardDiskDrive");
        args.push_quoted("-VMName", input.vm_name.as_str());
        args.push_opt_quoted("-ComputerName", &input.computer_name);
        args.push_opt_quoted("-ControllerType", &input.controller_type);
        args.push_opt_i32("-ControllerNumber", input.controller_number);
        args.push_opt_i32("-ControllerLocation", input.controller_location);
        args.push_opt_quoted("-Name", &input.name);
        args.push_opt_quoted("-Path", &input.path);
        args.push_opt_quoted("-PoolName", &input.pool_name);
        args.push_opt_bool("-SupportPersistentReservations", input.support_persistent_reservations);
        args.push_opt_u64("-MaximumIops", input.maximum_iops);
        args.push_opt_u64("-MinimumIops", input.minimum_iops);
        args.push_opt_quoted("-QualityOfServicePriority", &input.quality_of_service_priority);
        args.push_switch(
            "-AllowUnverifiedPaths",
            matches!(input.allow_unverified_paths, Some(true)),
        );
        args.push_literal("-PassThru");
        assert(args@ === Self::command_args(*input));
        Ok(args.to_command_with(SELECT))
    }

    /// Reads the answer from what the script printed: one entry per record.
    pub fn parse_output(raw: JsonValue) -> (r: SetVmHardDiskDriveOutput)
        ensures
            describes_all(r.hard_disk_drives@, raw.records()),
    {
        SetVmHardDiskDriveOutput { hard_disk_drives: decode_records(raw) }
    }

    /// Reads the answer from the text the script printed; blank text reads as
    /// an empty list, and text that is not JSON is a `Json` error.
    pub fn read_output(printed: &str) -> (r: Result<SetVmHardDiskDriveOutput, ToolError>)
        ensures
            match parsed_json(effective_output(printed@)) {
                Some(raw) => r matches Ok(out) && describes_all(
                    out.hard_disk_drives@,
                    raw.records(),
                ),
                None => r matches Err(ToolError::Json(_)),
            },
    {
        match read_printed(printed) {
            Ok(raw) => Ok(Self::parse_output(raw)),
            Err(e) => Err(e),
        }
    }

    /// Every value of a valid request reaches the script that `build_script`
    /// returns under its own flag: each flag below stands in the script
    /// followed by the value of the field of the same name.
    pub proof fn lemma_script_carries_each_value(input: SetVmHardDiskDriveInput)
        requires
            Self::input_problem(input) is None,
        ensures
            holds(Self::script(input), quoted_arg("-VMName"@, input.vm_name@)),
            input.computer_name matches Some(v) ==> holds(
                Self::script(input),
                quoted_arg("-ComputerName"@, v@),
            ),
            input.controller_type matches Some(v) ==> holds(
                Self::script(input),
                quoted_arg("-ControllerType"@, v@),
            ),
            input.controller_number matches Some(v) ==> holds(
                Self::script(input),
                number_arg("-ControllerNumber"@, v as int),
            ),
            input.controller_location matches Some(v) ==> holds(
                Self::script(input),
                number_arg("-ControllerLocation"@, v as int),
            ),
            input.name matches Some(v) ==> holds(Self::script(input), quoted_arg("-Name"@, v@)),
            input.path matches Some(v) ==> holds(Self::script(input), quoted_arg("-Path"@, v@)),
            input.pool_name matches Some(v) ==> holds(
                Self::script(input),
                quoted_arg("-PoolName"@, v@),
            ),
            input.support_persistent_reservations matches Some(v) ==> holds(
                Self::script(input),
                bool_arg("-SupportPersistentReservations"@, v),
            ),
            input.maximum_iops matches Some(v) ==> holds(
                Self::script(input),
                number_arg("-MaximumIops"@, v as int),
            ),
            input.minimum_iops matches Some(v) ==> holds(
                Self::script(input),
                number_arg("-MinimumIops"@, v as int),
            ),
            input.quality_of_service_priority matches Some(v) ==> holds(
                Self::script(input),
                quoted_arg("-QualityOfServicePriority"@, v@),
            ),
            input.allow_unverified_paths == Some(true) ==> holds(
                Self::script(input),
                "-AllowUnverifiedPaths"@,
            ),
    {
        Self::script_carries_vm_name(input);
        Self::script_carries_computer_name(input);
        Self::script_carries_controller_type(input);
        Self::script_carries_controller_number(input);
        Self::script_carries_controller_location(input);
        Self::script_carries_name(input);
        Self::script_carries_path(input);
        Self::script_carries_pool_name(input);
        Self::script_carries_support_persistent_reservations(input);
        Self::script_carries_maximum_iops(input);
        Self::script_carries_minimum_iops(input);
        Self::script_carries_quality_of_service_priority(input);
        Self::script_carries_allow_unverified_paths(input);
    }

    proof fn script_carries_vm_name(input: SetVmHardDiskDriveInput)
        ensures
            holds(Self::script(input), quoted_arg("-VMName"@, input.vm_name@)),
    {
        broadcast use lemma_add_contains, lemma_push_contains;

        let args = Self::command_args(input);
        let tail = SELECT@;
        lemma_script_holds_argument(args, tail, quoted_arg("-VMName"@, input.vm_name@));
    }

    proof fn script_carries_computer_name(input: SetVmHardDiskDriveInput)
        ensures
            input.computer_name matches Some(v) ==> holds(
                Self::script(input),
                quoted_arg("-ComputerName"@, v@),
            ),
    {
        broadcast use lemma_add_contains, lemma_push_contains;

        let args = Self::command_args(input);
        let tail = SELECT@;
        if let Some(v) = input.computer_name {
            lemma_script_holds_argument(args, tail, quoted_arg("-ComputerName"@, v@));
        }
    }

    proof fn script_carries_controller_type(input: SetVmHardDiskDriveInput)
        ensures
            input.controller_type matches Some(v) ==> holds(
                Self::script(input),
                quoted_arg("-ControllerType"@, v@),
            ),
    {
        broadcast use lemma_add_contains, lemma_push_contains;

        let args = Self::command_args(input);
        let tail = SELECT@;
        if let Some(v) = input.controller_type {
            lemma_script_holds_argument(args, tail, quoted_arg("-ControllerType"@, v@));
        }
    }

    proof fn script_carries_controller_number(input: SetVmHardDiskDriveInput)
        ensures
            input.controller_number matches Some(v) ==> holds(
                Self::script(input),
                number_arg("-ControllerNumber"@, v as int),
            ),
    {
        broadcast use lemma_add_contains, lemma_push_contains;

        let args = Self::command_args(input);
        let tail = SELECT@;
        if let Some(v) = input.controller_number {
            lemma_script_holds_argument(args, tail, number_arg("-ControllerNumber"@, v as int));
        }
    }

    proof fn script_carries_controller_location(input: SetVmHardDiskDriveInput)
        ensures
            input.controller_location matches Some(v) ==> holds(
                Self::script(input),
                number_arg("-ControllerLocation"@, v as int),
            ),
    {
        broadcast use lemma_add_contains, lemma_push_contains;

        let args = Self::command_args(input);
        let tail = SELECT@;
        if let Some(v) = input.controller_location {
            lemma_script_holds_argument(args, tail, number_arg("-ControllerLocation"@, v as int));
        }
    }

    proof fn script_carries_name(input: SetVmHardDiskDriveInput)
        ensures
            input.name matches Some(v) ==> holds(Self::script(input), quoted_arg("-Name"@, v@)),
    {
        broadcast use lemma_add_contains, lemma_push_contains;

        let args = Self::command_args(input);
        let tail = SELECT@;
        if let Some(v) = input.name {
            lemma_script_holds_argument(args, tail, quoted_arg("-Name"@, v@));
        }
    }

    proof fn script_carries_path(input: SetVmHardDiskDriveInput)
        ensures
            input.path matches Some(v) ==> holds(Self::script(input), quoted_arg("-Path"@, v@)),
    {
        broadcast use lemma_add_contains, lemma_push_contains;

        let args = Self::command_args(input);
        let tail = SELECT@;
        if let Some(v) = input.path {
            lemma_script_holds_argument(args, tail, quoted_arg("-Path"@, v@));
        }
    }

    proof fn script_carries_pool_name(input: SetVmHardDiskDriveInput)
        ensures
            input.pool_name matches Some(v) ==> holds(
                Self::script(input),
                quoted_arg("-PoolName"@, v@),
            ),
    {
        broadcast use lemma_add_contains, lemma_push_contains;

        let args = Self::command_args(input);
        let tail = SELECT@;
        if let Some(v) = input.pool_name {
            lemma_script_holds_argument(args, tail, quoted_arg("-PoolName"@, v@));
        }
    }

    proof fn script_carries_support_persistent_reservations(input: SetVmHardDiskDriveInput)
        ensures
            input.support_persistent_reservations matches Some(v) ==> holds(
                Self::script(input),
                bool_arg("-SupportPersistentReservations"@, v),
            ),
    {
        broadcast use lemma_add_contains, lemma_push_contains;

        let args = Self::command_args(input);
        let tail = SELECT@;
        if let Some(v) = input.support_persistent_reservations {
            lemma_script_holds_argument(args, tail, bool_arg("-SupportPersistentReservations"@, v));
        }
    }

    proof fn script_carries_maximum_iops(input: SetVmHardDiskDriveInput)
        ensures
            input.maximum_iops matches Some(v) ==> holds(
                Self::script(input),
                number_arg("-MaximumIops"@, v as int),
            ),
    {
        broadcast use lemma_add_contains, lemma_push_contains;

        let args = Self::command_args(input);
        let tail = SELECT@;
        if let Some(v) = input.maximum_iops {
            lemma_script_holds_argument(args, tail, number_arg("-MaximumIops"@, v as int));
        }
    }

    proof fn script_carries_minimum_iops(input: SetVmHardDiskDriveInput)
        ensures
            input.minimum_iops matches Some(v) ==> holds(
                Self::script(input),
                number_arg("-MinimumIops"@, v as int),
            ),
    {
        broadcast use lemma_add_contains, lemma_push_contains;

        let args = Self::command_args(input);
        let tail = SELECT@;
        if let Some(v) = input.minimum_iops {
            lemma_script_holds_argument(args, tail, number_arg("-MinimumIops"@, v as int));
        }
    }

    proof fn script_carries_quality_of_service_priority(input: SetVmHardDiskDriveInput)
        ensures
            input.quality_of_service_priority matches Some(v) ==> holds(
                Self::script(input),
                quoted_arg("-QualityOfServicePriority"@, v@),
            ),
    {
        broadcast use lemma_add_contains, lemma_push_contains;

        let args = Self::command_args(input);
        let tail = SELECT@;
        if let Some(v) = input.quality_of_service_priority {
            lemma_script_holds_argument(args, tail, quoted_arg("-QualityOfServicePriority"@, v@));
        }
    }

    proof fn script_carries_allow_unverified_paths(input: SetVmHardDiskDriveInput)
        ensures
            input.allow_unverified_paths == Some(true) ==> holds(
                Self::script(input),
                "-AllowUnverifiedPaths"@,
            ),
    {
        broadcast use lemma_add_contains, lemma_push_contains;

        let args = Self::command_args(input);
        let tail = SELECT@;
        if input.allow_unverified_paths == Some(true) {
            lemma_script_holds_argument(args, tail, "-AllowUnverifiedPaths"@);
        }
    }

    /// Each entry of the answer reads the printed record at its place: every
    /// field holds the record's member of the matching name.
    pub proof fn lemma_answer_reads_each_record(raw: JsonValue, out: SetVmHardDiskDriveOutput)
        requires
            describes_all(out.hard_disk_drives@, raw.records()),
        ensures
            out.hard_disk_drives@.len() == raw.records().len(),
            forall|i: int|
                #![trigger out.hard_disk_drives@[i]]
                0 <= i < raw.records().len() ==> {
                    &&& out.hard_disk_drives@[i].name@ == raw.records()[i].text_or_empty("Name"@)
                    &&& out.hard_disk_drives@[i].path@ == raw.records()[i].text_or_empty("Path"@)
                    &&& out.hard_disk_drives@[i].controller_type@
                        == raw.records()[i].text_or_empty("ControllerType"@)
                    &&& out.hard_disk_drives@[i].controller_number
                        == raw.records()[i].i64_or_zero("ControllerNumber"@) as i32
                    &&& out.hard_disk_drives@[i].controller_location
                        == raw.records()[i].i64_or_zero("ControllerLocation"@) as i32
                    &&& out.hard_disk_drives@[i].disk_number
                        == raw.records()[i].i64_or_zero("DiskNumber"@) as i32
                    &&& out.hard_disk_drives@[i].pool_name@
                        == raw.records()[i].text_or_empty("PoolName"@)
                    &&& out.hard_disk_drives@[i].support_persistent_reservations
                        == raw.records()[i].flag_or_false("SupportPersistentReservations"@)
                    &&& out.hard_disk_drives@[i].maximum_iops@
                        == raw.records()[i].text_or_empty("MaximumIops"@)
                    &&& out.hard_disk_drives@[i].minimum_iops@
                        == raw.records()[i].text_or_empty("MinimumIops"@)
                    &&& out.hard_disk_drives@[i].quality_of_service_priority@
                        == raw.records()[i].text_or_empty("QualityOfServicePriority"@)
                    &&& out.hard_disk_drives@[i].computer_name@
                        == raw.records()[i].text_or_empty("ComputerName"@)
                },
    {
        assert forall|i: int| 0 <= i < raw.records().len() implies {
            &&& out.hard_disk_drives@[i].name@ == raw.records()[i].text_or_empty("Name"@)
            &&& out.hard_disk_drives@[i].path@ == raw.records()[i].text_or_empty("Path"@)
            &&& out.hard_disk_drives@[i].controller_type@
                == raw.records()[i].text_or_empty("ControllerType"@)
            &&& out.hard_disk_drives@[i].controller_number
                == raw.records()[i].i64_or_zero("ControllerNumber"@) as i32
            &&& out.hard_disk_drives@[i].controller_location
                == raw.records()[i].i64_or_zero("ControllerLocation"@) as i32
            &&& out.hard_disk_drives@[i].disk_number
                == raw.records()[i].i64_or_zero("DiskNumber"@) as i32
            &&& out.hard_disk_drives@[i].pool_name@ == raw.records()[i].text_or_empty("PoolName"@)
            &&& out.hard_disk_drives@[i].support_persistent_reservations
                == raw.records()[i].flag_or_false("SupportPersistentReservations"@)
            &&& out.hard_disk_drives@[i].maximum_iops@
                == raw.records()[i].text_or_empty("MaximumIops"@)
            &&& out.hard_disk_drives@[i].minimum_iops@
                == raw.records()[i].text_or_empty("MinimumIops"@)
            &&& out.hard_disk_drives@[i].quality_of_service_priority@
                == raw.records()[i].text_or_empty("QualityOfServicePriority"@)
            &&& out.hard_disk_drives@[i].computer_name@
                == raw.records()[i].text_or_empty("ComputerName"@)
        } by {
            assert(out.hard_disk_drives@[i].describes(raw.records()[i]));
        }
    }
}

} // verus!
