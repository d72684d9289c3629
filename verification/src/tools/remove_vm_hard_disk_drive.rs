//! `hyperv_remove_vm_hard_disk_drive`: deletes a hard disk drive from a virtual machine.
use vstd::prelude::*;
use crate::command::{
    holds, join, lemma_add_contains, lemma_push_contains, lemma_script_holds_argument, number_arg,
    opt_quoted, quoted_arg, ArgList,
};
use crate::error::{invalid_input, script_outcome, ToolError};
use crate::json::{
    decode_records, describes_all, effective_output, parsed_json, read_printed, FromJson, JsonValue,
};
use crate::text::{
    eq_ignore_ascii_case, is_blank, lower_equals, option_is_blank, text_is_blank, trim, trimmed,
};

verus! {

/// The tool's name.
pub const NAME: &'static str = "hyperv_remove_vm_hard_disk_drive";

/// What the tool does.
pub const DESCRIPTION: &'static str = "Deletes a hard disk drive from a virtual machine.";

/// What the script runs after the cmdlet: the fields it prints, as JSON.
pub const SELECT: &'static str = " | Select-Object Name, Id, VMName, Path, @{N='ControllerType';E={$_.ControllerType.ToString()}}, ControllerNumber, ControllerLocation, PoolName | ConvertTo-Json -Compress -Depth 3";

/// What the tool is asked.
#[derive(Debug)]
pub struct RemoveVmHardDiskDriveInput {
    /// Name of the virtual machine from which to delete the hard disk drive.
    pub vm_name: String,
    /// Type of the controller where the hard disk is attached. Allowed values are IDE and SCSI.
    pub controller_type: String,
    /// Number of the controller from which the hard disk drive is to be deleted.
    pub controller_number: i32,
    /// Location on the controller from which the hard disk drive is to be deleted.
    pub controller_location: i32,
    /// Hyper-V host to target. Defaults to localhost.
    pub computer_name: Option<String>,
}

/// One record of the answer.
#[derive(Debug)]
pub struct RemovedHardDiskDriveInfo {
    pub name: String,
    pub id: String,
    pub vm_name: String,
    pub path: String,
    pub controller_type: String,
    pub controller_number: i32,
    pub controller_location: i32,
    pub pool_name: String,
}

/// What the tool answers.
#[derive(Debug)]
pub struct RemoveVmHardDiskDriveOutput {
    /// Hard disk drives that were removed.
    pub removed: Vec<RemovedHardDiskDriveInfo>,
}

/// The tool.
#[derive(Default)]
pub struct RemoveVmHardDiskDriveTool;

impl FromJson for RemovedHardDiskDriveInfo {
    open spec fn describes(&self, item: JsonValue) -> bool {
        &&& self.name@ == item.text_or_empty("Name"@)
        &&& self.id@ == item.text_or_empty("Id"@)
        &&& self.vm_name@ == item.text_or_empty("VMName"@)
        &&& self.path@ == item.text_or_empty("Path"@)
        &&& self.controller_type@ == item.text_or_empty("ControllerType"@)
        &&& self.controller_number == item.i64_or_zero("ControllerNumber"@) as i32
        &&& self.controller_location == item.i64_or_zero("ControllerLocation"@) as i32
        &&& self.pool_name@ == item.text_or_empty("PoolName"@)
    }

    fn from_json(item: &JsonValue) -> (r: Self) {
        RemovedHardDiskDriveInfo {
            name: item.text_or_empty_at("Name"),
            id: item.text_or_empty_at("Id"),
            vm_name: item.text_or_empty_at("VMName"),
            path: item.text_or_empty_at("Path"),
            controller_type: item.text_or_empty_at("ControllerType"),
            controller_number: item.i64_or_zero_at("ControllerNumber") as i32,
            controller_location: item.i64_or_zero_at("ControllerLocation") as i32,
            pool_name: item.text_or_empty_at("PoolName"),
        }
    }
}

impl RemoveVmHardDiskDriveTool {
    /// The first problem with the request, as the message that reports it.
    pub open spec fn input_problem(input: RemoveVmHardDiskDriveInput) -> Option<Seq<char>> {
        if is_blank(input.vm_name@) {
            Some("vmName must not be empty"@)
        } else if is_blank(input.controller_type@) {
            Some("controllerType must not be empty"@)
        } else if !eq_ignore_ascii_case(trim(input.controller_type@), "IDE"@)
            && !eq_ignore_ascii_case(trim(input.controller_type@), "SCSI"@) {
            Some("controllerType must be IDE or SCSI"@)
        } else if input.computer_name matches Some(s) && is_blank(s@) {
            Some("computerName must not be empty"@)
        } else {
            None
        }
    }

    /// The arguments of the cmdlet.
    pub open spec fn command_args(input: RemoveVmHardDiskDriveInput) -> Seq<Seq<char>> {
        seq![
            "Remove-VMHardDiskDrive"@,
            quoted_arg("-VMName"@, input.vm_name@),
            quoted_arg("-ControllerType"@, trim(input.controller_type@)),
            number_arg("-ControllerNumber"@, input.controller_number as int),
            number_arg("-ControllerLocation"@, input.controller_location as int),
        ]
            + opt_quoted("-ComputerName"@, input.computer_name)
            + seq!["-Confirm:$false"@]
    }

    /// The script that runs for a valid request.
    pub open spec fn script(input: RemoveVmHardDiskDriveInput) -> Seq<char> {
        join(Self::command_args(input), seq![' ']) + SELECT@
    }

    /// Checks the request and builds its script.
    pub fn build_script(input: &RemoveVmHardDiskDriveInput) -> (r: Result<String, ToolError>)
        ensures
            script_outcome(r, Self::input_problem(*input), Self::script(*input)),
    {
        let controller_type = trimmed(input.controller_type.as_str());
        if text_is_blank(input.vm_name.as_str()) {
            return Err(invalid_input("vmName must not be empty"));
        }
        if text_is_blank(input.controller_type.as_str()) {
            return Err(invalid_input("controllerType must not be empty"));
        }
        if !lower_equals(controller_type.as_str(), "IDE")
            && !lower_equals(controller_type.as_str(), "SCSI") {
            return Err(invalid_input("controllerType must be IDE or SCSI"));
        }
        if option_is_blank(&input.computer_name) {
            return Err(invalid_input("computerName must not be empty"));
        }
        let mut args = ArgList::new("Remove-VMHardDiskDrive");
        args.push_quoted("-VMName", input.vm_name.as_str());
        args.push_quoted("-ControllerType", controller_type.as_str());
        args.push_signed("-ControllerNumber", input.controller_number as i64);
        args.push_signed("-ControllerLocation", input.controller_location as i64);
        assert(args@ =~= seq![
            "Remove-VMHardDiskDrive"@,
            quoted_arg("-VMName"@, input.vm_name@),
            quoted_arg("-ControllerType"@, trim(input.controller_type@)),
            number_arg("-ControllerNumber"@, input.controller_number as int),
            number_arg("-ControllerLocation"@, input.controller_location as int),
        ]);
        args.push_opt_quoted("-ComputerName", &input.computer_name);
        args.push_literal("-Confirm:$false");
        assert(args@ === Self::command_args(*input));
        Ok(args.to_command_with(SELECT))
    }

    /// Reads the answer from what the script printed: one entry per record.
    pub fn parse_output(raw: JsonValue) -> (r: RemoveVmHardDiskDriveOutput)
        ensures
            describes_all(r.removed@, raw.records()),
    {
        RemoveVmHardDiskDriveOutput { removed: decode_records(raw) }
    }

    /// Reads the answer from the text the script printed; blank text reads as
    /// an empty list, and text that is not JSON is a `Json` error.
    pub fn read_output(printed: &str) -> (r: Result<RemoveVmHardDiskDriveOutput, ToolError>)
        ensures
            match parsed_json(effective_output(printed@)) {
                Some(raw) => r matches Ok(out) && describes_all(out.removed@, raw.records()),
                None => r matches Err(ToolError::Json(_)),
            },
    {
        match read_printed(printed) {
            Ok(raw) => Ok(Self::parse_output(raw)),
            Err(e) => Err(e),
        }
    }

    /// Every value of a valid request reaches the script that `build_script`
    /// returns under its own flag: each flag below stands in the script
    /// followed by the value of the field of the same name.
    pub proof fn lemma_script_carries_each_value(input: RemoveVmHardDiskDriveInput)
        requires
            Self::input_problem(input) is None,
        ensures
            holds(Self::script(input), quoted_arg("-VMName"@, input.vm_name@)),
            holds(
                Self::script(input),
                quoted_arg("-ControllerType"@, trim(input.controller_type@)),
            ),
            holds(
                Self::script(input),
                number_arg("-ControllerNumber"@, input.controller_number as int),
            ),
            holds(
                Self::script(input),
                number_arg("-ControllerLocation"@, input.controller_location as int),
            ),
            input.computer_name matches Some(v) ==> holds(
                Self::script(input),
                quoted_arg("-ComputerName"@, v@),
            ),
    {
        Self::script_carries_vm_name(input);
        Self::script_carries_controller_type(input);
        Self::script_carries_controller_number(input);
        Self::script_carries_controller_location(input);
        Self::script_carries_computer_name(input);
    }

    proof fn script_carries_vm_name(input: RemoveVmHardDiskDriveInput)
        ensures
            holds(Self::script(input), quoted_arg("-VMName"@, input.vm_name@)),
    {
        broadcast use lemma_add_contains, lemma_push_contains;

        let args = Self::command_args(input);
        let tail = SELECT@;
        lemma_script_holds_argument(args, tail, quoted_arg("-VMName"@, input.vm_name@));
    }

    proof fn script_carries_controller_type(input: RemoveVmHardDiskDriveInput)
        ensures
            holds(
                Self::script(input),
                quoted_arg("-ControllerType"@, trim(input.controller_type@)),
            ),
    {
        broadcast use lemma_add_contains, lemma_push_contains;

        let args = Self::command_args(input);
        let tail = SELECT@;
        lemma_script_holds_argument(
            args,
            tail,
            quoted_arg("-ControllerType"@, trim(input.controller_type@)),
        );
    }

    proof fn script_carries_controller_number(input: RemoveVmHardDiskDriveInput)
        ensures
            holds(
                Self::script(input),
                number_arg("-ControllerNumber"@, input.controller_number as int),
            ),
    {
        broadcast use lemma_add_contains, lemma_push_contains;

        let args = Self::command_args(input);
        let tail = SELECT@;
        lemma_script_holds_argument(
            args,
            tail,
            number_arg("-ControllerNumber"@, input.controller_number as int),
        );
    }

    proof fn script_carries_controller_location(input: RemoveVmHardDiskDriveInput)
        ensures
            holds(
                Self::script(input),
                number_arg("-ControllerLocation"@, input.controller_location as int),
            ),
    {
        broadcast use lemma_add_contains, lemma_push_contains;

        let args = Self::command_args(input);
        let tail = SELECT@;
        lemma_script_holds_argument(
            args,
            tail,
            number_arg("-ControllerLocation"@, input.controller_location as int),
        );
    }

    proof fn script_carries_computer_name(input: RemoveVmHardDiskDriveInput)
        ensures
            input.computer_name matches Some(v) ==> holds(
                Self::script(input),
                quoted_arg("-ComputerName"@, v@),
            ),
    {
        broadcast use lemma_add_contains, lemma_push_contains;

        let args = Self::command_args(input);
        let tail = SELECT@;
        if let Some(v) = input.computer_name {
            lemma_script_holds_argument(args, tail, quoted_arg("-ComputerName"@, v@));
        }
    }

    /// Each entry of the answer reads the printed record at its place: every
    /// field holds the record's member of the matching name.
    pub proof fn lemma_answer_reads_each_record(raw: JsonValue, out: RemoveVmHardDiskDriveOutput)
        requires
            describes_all(out.removed@, raw.records()),
        ensures
            out.removed@.len() == raw.records().len(),
            forall|i: int|
                #![trigger out.removed@[i]]
                0 <= i < raw.records().len() ==> {
                    &&& out.removed@[i].name@ == raw.records()[i].text_or_empty("Name"@)
                    &&& out.removed@[i].id@ == raw.records()[i].text_or_empty("Id"@)
                    &&& out.removed@[i].vm_name@ == raw.records()[i].text_or_empty("VMName"@)
                    &&& out.removed@[i].path@ == raw.records()[i].text_or_empty("Path"@)
                    &&& out.removed@[i].controller_type@
                        == raw.records()[i].text_or_empty("ControllerType"@)
                    &&& out.removed@[i].controller_number
                        == raw.records()[i].i64_or_zero("ControllerNumber"@) as i32
                    &&& out.removed@[i].controller_location
                        == raw.records()[i].i64_or_zero("ControllerLocation"@) as i32
                    &&& out.removed@[i].pool_name@ == raw.records()[i].text_or_empty("PoolName"@)
                },
    {
        assert forall|i: int| 0 <= i < raw.records().len() implies {
            &&& out.removed@[i].name@ == raw.records()[i].text_or_empty("Name"@)
            &&& out.removed@[i].id@ == raw.records()[i].text_or_empty("Id"@)
            &&& out.removed@[i].vm_name@ == raw.records()[i].text_or_empty("VMName"@)
            &&& out.removed@[i].path@ == raw.records()[i].text_or_empty("Path"@)
            &&& out.removed@[i].controller_type@
                == raw.records()[i].text_or_empty("ControllerType"@)
            &&& out.removed@[i].controller_number
                == raw.records()[i].i64_or_zero("ControllerNumber"@) as i32
            &&& out.removed@[i].controller_location
                == raw.records()[i].i64_or_zero("ControllerLocation"@) as i32
            &&& out.removed@[i].pool_name@ == raw.records()[i].text_or_empty("PoolName"@)
        } by {
            assert(out.removed@[i].describes(raw.records()[i]));
        }
    }

    /// A request is valid only when it passes every check: none of the
    /// conditions that refuse a request holds of it.
    pub proof fn lemma_valid_request_passes_every_check(input: RemoveVmHardDiskDriveInput)
        requires
            Self::input_problem(input) is None,
        ensures
            !(is_blank(input.vm_name@)),
            !(is_blank(input.controller_type@)),
            !(!eq_ignore_ascii_case(
                trim(input.controller_type@),
                "IDE"@,
            ) && !eq_ignore_ascii_case(trim(input.controller_type@), "SCSI"@)),
            !(input.computer_name matches Some(s) && is_blank(s@)),
    {
    }
}

} // verus!
