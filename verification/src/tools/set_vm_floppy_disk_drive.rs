//! `hyperv_set_vm_floppy_disk_drive`: configures a virtual floppy disk drive.
use vstd::prelude::*;
use crate::command::{
    holds, join, lemma_add_contains, lemma_push_contains, lemma_script_holds_argument, opt_quoted,
    quoted_arg, ArgList,
};
use crate::error::{invalid_input, script_outcome, ToolError};
use crate::json::{
    decode_records, describes_all, effective_output, parsed_json, read_printed, FromJson, JsonValue,
};
use crate::text::{is_blank, text_is_blank};

verus! {

/// The tool's name.
pub const NAME: &'static str = "hyperv_set_vm_floppy_disk_drive";

/// What the tool does.
pub const DESCRIPTION: &'static str = "Configures a virtual floppy disk drive.";

/// What the script runs after the cmdlet: the fields it prints, as JSON.
pub const SELECT: &'static str = " | Select-Object Name, @{N='Id';E={$_.Id.ToString()}}, VMName, ComputerName, Path, PoolName, IsDeleted | ConvertTo-Json -Compress -Depth 3";

/// What the tool is asked.
#[derive(Debug)]
pub struct SetVmFloppyDiskDriveInput {
    /// Name of the virtual machine whose floppy disk drive is to be configured.
    pub vm_name: String,
    /// Hyper-V host on which the virtual machine resides. Defaults to localhost.
    pub computer_name: Option<String>,
    /// Path to the virtual floppy disk file to attach. Pass an empty string to dismount the drive.
    pub path: Option<String>,
    /// Name of the resource pool to which the virtual floppy disk drive is to be associated.
    pub resource_pool_name: Option<String>,
}

/// One record of the answer.
#[derive(Debug)]
pub struct FloppyDiskDriveInfo {
    pub name: String,
    pub id: String,
    pub vm_name: String,
    pub computer_name: String,
    pub path: String,
    pub pool_name: String,
    pub is_deleted: bool,
}

/// What the tool answers.
#[derive(Debug)]
pub struct SetVmFloppyDiskDriveOutput {
    pub drives: Vec<FloppyDiskDriveInfo>,
}

/// The tool.
#[derive(Default)]
pub struct SetVmFloppyDiskDriveTool;

impl FromJson for FloppyDiskDriveInfo {
    open spec fn describes(&self, item: JsonValue) -> bool {
        &&& self.name@ == item.text_or_empty("Name"@)
        &&& self.id@ == item.text_or_empty("Id"@)
        &&& self.vm_name@ == item.text_or_empty("VMName"@)
        &&& self.computer_name@ == item.text_or_empty("ComputerName"@)
        &&& self.path@ == item.text_or_empty("Path"@)
        &&& self.pool_name@ == item.text_or_empty("PoolName"@)
        &&& self.is_deleted == item.flag_or_false("IsDeleted"@)
    }

    fn from_json(item: &JsonValue) -> (r: Self) {
        FloppyDiskDriveInfo {
            name: item.text_or_empty_at("Name"),
            id: item.text_or_empty_at("Id"),
            vm_name: item.text_or_empty_at("VMName"),
            computer_name: item.text_or_empty_at("ComputerName"),
            path: item.text_or_empty_at("Path"),
            pool_name: item.text_or_empty_at("PoolName"),
            is_deleted: item.flag_or_false_at("IsDeleted"),
        }
    }
}

impl SetVmFloppyDiskDriveTool {
    /// The first problem with the request, as the message that reports it.
    pub open spec fn input_problem(input: SetVmFloppyDiskDriveInput) -> Option<Seq<char>> {
        if is_blank(input.vm_name@) {
            Some("VM name must not be empty"@)
        } else {
            None
        }
    }

    /// The arguments of the cmdlet.
    pub open spec fn command_args(input: SetVmFloppyDiskDriveInput) -> Seq<Seq<char>> {
        seq!["Set-VMFloppyDiskDrive"@, quoted_arg("-VMName"@, input.vm_name@)]
            + opt_quoted("-ComputerName"@, input.computer_name)
            + path_args(input.path)
            + opt_quoted("-ResourcePoolName"@, input.resource_pool_name)
    }

    /// The script that runs for a valid request.
    pub open spec fn script(input: SetVmFloppyDiskDriveInput) -> Seq<char> {
        join(Self::command_args(input), seq![' ']) + SELECT@
    }

    /// Checks the request and builds its script.
    pub fn build_script(input: &SetVmFloppyDiskDriveInput) -> (r: Result<String, ToolError>)
        ensures
            script_outcome(r, Self::input_problem(*input), Self::script(*input)),
    {
        if text_is_blank(input.vm_name.as_str()) {
            return Err(invalid_input("VM name must not be empty"));
        }
        let mut args = ArgList::new("Set-VMFloppyDiskDrive");
        args.push_quoted("-VMName", input.vm_name.as_str());
        args.push_opt_quoted("-ComputerName", &input.computer_name);
        if let Some(p) = &input.path {
            if text_is_blank(p.as_str()) {
                args.push_literal("-Path $null");
            } else {
                args.push_quoted("-Path", p.as_str());
            }
        }
        args.push_opt_quoted("-ResourcePoolName", &input.resource_pool_name);
        assert(args@ === Self::command_args(*input));
        Ok(args.to_command_with(SELECT))
    }

    /// Reads the answer from what the script printed: one entry per record.
    pub fn parse_output(raw: JsonValue) -> (r: SetVmFloppyDiskDriveOutput)
        ensures
            describes_all(r.drives@, raw.records()),
    {
        SetVmFloppyDiskDriveOutput { drives: decode_records(raw) }
    }

    /// Reads the answer from the text the script printed; blank text reads as
    /// an empty list, and text that is not JSON is a `Json` error.
    pub fn read_output(printed: &str) -> (r: Result<SetVmFloppyDiskDriveOutput, ToolError>)
        ensures
            match parsed_json(effective_output(printed@)) {
                Some(raw) => r matches Ok(out) && describes_all(out.drives@, raw.records()),
                None => r matches Err(ToolError::Json(_)),
            },
    {
        match read_printed(printed) {
            Ok(raw) => Ok(Self::parse_output(raw)),
            Err(e) => Err(e),
        }
    }

    /// Every value of a valid request reaches the script that `build_script`
    /// returns under its own flag: each flag below stands in the script
    /// followed by the value of the field of the same name.
    pub proof fn lemma_script_carries_each_value(input: SetVmFloppyDiskDriveInput)
        requires
            Self::input_problem(input) is None,
        ensures
            holds(Self::script(input), quoted_arg("-VMName"@, input.vm_name@)),
            input.computer_name matches Some(v) ==> holds(
                Self::script(input),
                quoted_arg("-ComputerName"@, v@),
            ),
            input.resource_pool_name matches Some(v) ==> holds(
                Self::script(input),
                quoted_arg("-ResourcePoolName"@, v@),
            ),
            input.path matches Some(p) ==> is_blank(p@) ==> holds(
                Self::script(input),
                "-Path $null"@,
            ),
            input.path matches Some(p) ==> !is_blank(p@) ==> holds(
                Self::script(input),
                quoted_arg("-Path"@, p@),
            ),
    {
        Self::script_carries_vm_name(input);
        Self::script_carries_computer_name(input);
        Self::script_carries_resource_pool_name(input);
        Self::script_carries_path(input);
        Self::script_carries_path_2(input);
    }

    proof fn script_carries_vm_name(input: SetVmFloppyDiskDriveInput)
        ensures
            holds(Self::script(input), quoted_arg("-VMName"@, input.vm_name@)),
    {
        broadcast use lemma_add_contains, lemma_push_contains;

        let args = Self::command_args(input);
        let tail = SELECT@;
        lemma_script_holds_argument(args, tail, quoted_arg("-VMName"@, input.vm_name@));
    }

    proof fn script_carries_computer_name(input: SetVmFloppyDiskDriveInput)
        ensures
            input.computer_name matches Some(v) ==> holds(
                Self::script(input),
                quoted_arg("-ComputerName"@, v@),
            ),
    {
        broadcast use lemma_add_contains, lemma_push_contains;

        let args = Self::command_args(input);
        let tail = SELECT@;
        if let Some(v) = input.computer_name {
            lemma_script_holds_argument(args, tail, quoted_arg("-ComputerName"@, v@));
        }
    }

    proof fn script_carries_resource_pool_name(input: SetVmFloppyDiskDriveInput)
        ensures
            input.resource_pool_name matches Some(v) ==> holds(
                Self::script(input),
                quoted_arg("-ResourcePoolName"@, v@),
            ),
    {
        broadcast use lemma_add_contains, lemma_push_contains;

        let args = Self::command_args(input);
        let tail = SELECT@;
        if let Some(v) = input.resource_pool_name {
            lemma_script_holds_argument(args, tail, quoted_arg("-ResourcePoolName"@, v@));
        }
    }

    proof fn script_carries_path(input: SetVmFloppyDiskDriveInput)
        ensures
            input.path matches Some(p) ==> is_blank(p@) ==> holds(
                Self::script(input),
                "-Path $null"@,
            ),
    {
        broadcast use lemma_add_contains, lemma_push_contains;

        let args = Self::command_args(input);
        let tail = SELECT@;
        if let Some(p) = input.path {
            if is_blank(p@) {
                lemma_script_holds_argument(args, tail, "-Path $null"@);
            } else {
                lemma_script_holds_argument(args, tail, quoted_arg("-Path"@, p@));
            }
        }
    }

    proof fn script_carries_path_2(input: SetVmFloppyDiskDriveInput)
        ensures
            input.path matches Some(p) ==> !is_blank(p@) ==> holds(
                Self::script(input),
                quoted_arg("-Path"@, p@),
            ),
    {
        broadcast use lemma_add_contains, lemma_push_contains;

        let args = Self::command_args(input);
        let tail = SELECT@;
        if let Some(p) = input.path {
            if is_blank(p@) {
                lemma_script_holds_argument(args, tail, "-Path $null"@);
            } else {
                lemma_script_holds_argument(args, tail, quoted_arg("-Path"@, p@));
            }
        }
    }

    /// Each entry of the answer reads the printed record at its place: every
    /// field holds the record's member of the matching name.
    pub proof fn lemma_answer_reads_each_record(raw: JsonValue, out: SetVmFloppyDiskDriveOutput)
        requires
            describes_all(out.drives@, raw.records()),
        ensures
            out.drives@.len() == raw.records().len(),
            forall|i: int|
                #![trigger out.drives@[i]]
                0 <= i < raw.records().len() ==> {
                    &&& out.drives@[i].name@ == raw.records()[i].text_or_empty("Name"@)
                    &&& out.drives@[i].id@ == raw.records()[i].text_or_empty("Id"@)
                    &&& out.drives@[i].vm_name@ == raw.records()[i].text_or_empty("VMName"@)
                    &&& out.drives@[i].computer_name@
                        == raw.records()[i].text_or_empty("ComputerName"@)
                    &&& out.drives@[i].path@ == raw.records()[i].text_or_empty("Path"@)
                    &&& out.drives@[i].pool_name@ == raw.records()[i].text_or_empty("PoolName"@)
                    &&& out.drives@[i].is_deleted == raw.records()[i].flag_or_false("IsDeleted"@)
                },
    {
        assert forall|i: int| 0 <= i < raw.records().len() implies {
            &&& out.drives@[i].name@ == raw.records()[i].text_or_empty("Name"@)
            &&& out.drives@[i].id@ == raw.records()[i].text_or_empty("Id"@)
            &&& out.drives@[i].vm_name@ == raw.records()[i].text_or_empty("VMName"@)
            &&& out.drives@[i].computer_name@ == raw.records()[i].text_or_empty("ComputerName"@)
            &&& out.drives@[i].path@ == raw.records()[i].text_or_empty("Path"@)
            &&& out.drives@[i].pool_name@ == raw.records()[i].text_or_empty("PoolName"@)
            &&& out.drives@[i].is_deleted == raw.records()[i].flag_or_false("IsDeleted"@)
        } by {
            assert(out.drives@[i].describes(raw.records()[i]));
        }
    }
}

/// `-Path 'file'` for a file, `-Path $null` for a blank path (which
/// dismounts the disk), nothing when no path is given.
pub open spec fn path_args(path: Option<String>) -> Seq<Seq<char>> {
    match path {
        Some(p) => if is_blank(p@) {
            seq!["-Path $null"@]
        } else {
            seq![quoted_arg("-Path"@, p@)]
        },
        None => Seq::empty(),
    }
}

} // verus!
