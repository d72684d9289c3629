//! `hyperv_set_vhd`: sets properties associated with a virtual hard disk.
use vstd::prelude::*;
use crate::command::{
    holds, join, lemma_add_contains, lemma_push_contains, lemma_script_holds_argument, number_arg,
    opt_quoted, opt_u32, quoted_arg, switch_arg, ArgList,
};
use crate::error::{invalid_input, script_outcome, ToolError};
use crate::json::{
    decode_records, describes_all, effective_output, parsed_json, read_printed, FromJson, JsonValue,
};
use crate::text::{is_blank, text_is_blank};

verus! {

/// The tool's name.
pub const NAME: &'static str = "hyperv_set_vhd";

/// What the tool does.
pub const DESCRIPTION: &'static str = "Sets properties associated with a virtual hard disk.";

/// What the script runs after the cmdlet: the fields it prints, as JSON.
pub const SELECT: &'static str = " | Select-Object Path, Attached, @{N='BlockSize';E={$_.BlockSize.ToString()}}, ComputerName, DiskIdentifier, @{N='FileSize';E={$_.FileSize.ToString()}}, IsDeleted, @{N='LogicalSectorSize';E={$_.LogicalSectorSize.ToString()}}, @{N='MinimumSize';E={$_.MinimumSize.ToString()}}, Number, ParentPath, @{N='PhysicalSectorSize';E={$_.PhysicalSectorSize.ToString()}}, PoolName, @{N='Size';E={$_.Size.ToString()}}, @{N='VHDFormat';E={$_.VHDFormat.ToString()}}, @{N='VHDType';E={$_.VHDType.ToString()}} | ConvertTo-Json -Compress -Depth 3";

/// What the tool is asked.
#[derive(Debug)]
pub struct SetVhdInput {
    /// Path to the virtual hard disk file whose properties are to be set.
    pub path: String,
    /// Hyper-V host on which the virtual hard disk resides. Defaults to localhost.
    pub computer_name: Option<String>,
    /// Path to the parent disk of a differencing virtual hard disk.
    pub parent_path: Option<String>,
    /// Path to the leaf virtual hard disk file in a differencing disk chain. Required when performing the operation in online mode.
    pub leaf_path: Option<String>,
    /// Skip the identifier mismatch check between parent and child virtual hard disks.
    pub ignore_id_mismatch: Option<bool>,
    /// Physical sector size in bytes. Valid values are 512 and 4096. Supported only on a VHDX-format disk that is not attached.
    pub physical_sector_size_bytes: Option<u32>,
    /// Reset the disk identifier of the VHDX-format virtual disk.
    pub reset_disk_identifier: Option<bool>,
    /// Force the command to run without asking for user confirmation.
    pub force: Option<bool>,
}

/// One record of the answer.
#[derive(Debug)]
pub struct VhdInfo {
    pub path: String,
    pub attached: bool,
    pub block_size: String,
    pub computer_name: String,
    pub disk_identifier: String,
    pub file_size: String,
    pub is_deleted: bool,
    pub logical_sector_size: String,
    pub minimum_size: String,
    pub number: u32,
    pub parent_path: String,
    pub physical_sector_size: String,
    pub pool_name: String,
    pub size: String,
    pub vhd_format: String,
    pub vhd_type: String,
}

/// What the tool answers.
#[derive(Debug)]
pub struct SetVhdOutput {
    pub vhds: Vec<VhdInfo>,
}

/// The tool.
#[derive(Default)]
pub struct SetVhdTool;

impl FromJson for VhdInfo {
    open spec fn describes(&self, item: JsonValue) -> bool {
        &&& self.path@ == item.text_or_empty("Path"@)
        &&& self.attached == item.flag_or_false("Attached"@)
        &&& self.block_size@ == item.text_or_empty("BlockSize"@)
        &&& self.computer_name@ == item.text_or_empty("ComputerName"@)
        &&& self.disk_identifier@ == item.text_or_empty("DiskIdentifier"@)
        &&& self.file_size@ == item.text_or_empty("FileSize"@)
        &&& self.is_deleted == item.flag_or_false("IsDeleted"@)
        &&& self.logical_sector_size@ == item.text_or_empty("LogicalSectorSize"@)
        &&& self.minimum_size@ == item.text_or_empty("MinimumSize"@)
        &&& self.number == item.u64_or_zero("Number"@) as u32
        &&& self.parent_path@ == item.text_or_empty("ParentPath"@)
        &&& self.physical_sector_size@ == item.text_or_empty("PhysicalSectorSize"@)
        &&& self.pool_name@ == item.text_or_empty("PoolName"@)
        &&& self.size@ == item.text_or_empty("Size"@)
        &&& self.vhd_format@ == item.text_or_empty("VHDFormat"@)
        &&& self.vhd_type@ == item.text_or_empty("VHDType"@)
    }

    fn from_json(item: &JsonValue) -> (r: Self) {
        VhdInfo {
            path: item.text_or_empty_at("Path"),
            attached: item.flag_or_false_at("Attached"),
            block_size: item.text_or_empty_at("BlockSize"),
            computer_name: item.text_or_empty_at("ComputerName"),
            disk_identifier: item.text_or_empty_at("DiskIdentifier"),
            file_size: item.text_or_empty_at("FileSize"),
            is_deleted: item.flag_or_false_at("IsDeleted"),
            logical_sector_size: item.text_or_empty_at("LogicalSectorSize"),
            minimum_size: item.text_or_empty_at("MinimumSize"),
            number: item.u64_or_zero_at("Number") as u32,
            parent_path: item.text_or_empty_at("ParentPath"),
            physical_sector_size: item.text_or_empty_at("PhysicalSectorSize"),
            pool_name: item.text_or_empty_at("PoolName"),
            size: item.text_or_empty_at("Size"),
            vhd_format: item.text_or_empty_at("VHDFormat"),
            vhd_type: item.text_or_empty_at("VHDType"),
        }
    }
}

impl SetVhdTool {
    /// The first problem with the request, as the message that reports it.
    pub open spec fn input_problem(input: SetVhdInput) -> Option<Seq<char>> {
        if is_blank(input.path@) {
            Some("VHD path must not be empty"@)
        } else if input.parent_path is None
            && input.physical_sector_size_bytes is None
            && input.reset_disk_identifier is None {
            Some(
                "At least one of parent_path, physical_sector_size_bytes, or reset_disk_identifier must be provided"@,
            )
        } else {
            None
        }
    }

    /// The arguments of the cmdlet.
    pub open spec fn command_args(input: SetVhdInput) -> Seq<Seq<char>> {
        seq!["Set-VHD"@, quoted_arg("-Path"@, input.path@)]
            + opt_quoted("-ComputerName"@, input.computer_name)
            + opt_quoted("-ParentPath"@, input.parent_path)
            + opt_quoted("-LeafPath"@, input.leaf_path)
            + switch_arg("-IgnoreIdMismatch"@, input.ignore_id_mismatch == Some(true))
            + opt_u32("-PhysicalSectorSizeBytes"@, input.physical_sector_size_bytes)
            + switch_arg("-ResetDiskIdentifier"@, input.reset_disk_identifier == Some(true))
            + switch_arg("-Force"@, input.force == Some(true))
    }

    /// The script that runs for a valid request.
    pub open spec fn script(input: SetVhdInput) -> Seq<char> {
        join(Self::command_args(input), seq![' ']) + SELECT@
    }

    /// Checks the request and builds its script.
    pub fn build_script(input: &SetVhdInput) -> (r: Result<String, ToolError>)
        ensures
            script_outcome(r, Self::input_problem(*input), Self::script(*input)),
    {
        if text_is_blank(input.path.as_str()) {
            return Err(invalid_input("VHD path must not be empty"));
        }
        if input.parent_path.is_none()
            && input.physical_sector_size_bytes.is_none()
            && input.reset_disk_identifier.is_none() {
            return Err(invalid_input(
                "At least one of parent_path, physical_sector_size_bytes, or reset_disk_identifier must be provided",
            ));
        }
        let mut args = ArgList::new("Set-VHD");
        args.push_quoted("-Path", input.path.as_str());
        args.push_opt_quoted("-ComputerName", &input.computer_name);
        args.push_opt_quoted("-ParentPath", &input.parent_path);
        args.push_opt_quoted("-LeafPath", &input.leaf_path);
        args.push_switch("-IgnoreIdMismatch", matches!(input.ignore_id_mismatch, Some(true)));
        args.push_opt_u32("-PhysicalSectorSizeBytes", input.physical_sector_size_bytes);
        args.push_switch("-ResetDiskIdentifier", matches!(input.reset_disk_identifier, Some(true)));
        args.push_switch("-Force", matches!(input.force, Some(true)));
        assert(args@ === Self::command_args(*input));
        Ok(args.to_command_with(SELECT))
    }

    /// Reads the answer from what the script printed: one entry per record.
    pub fn parse_output(raw: JsonValue) -> (r: SetVhdOutput)
        ensures
            describes_all(r.vhds@, raw.records()),
    {
        SetVhdOutput { vhds: decode_records(raw) }
    }

    /// Reads the answer from the text the script printed; blank text reads as
    /// an empty list, and text that is not JSON is a `Json` error.
    pub fn read_output(printed: &str) -> (r: Result<SetVhdOutput, ToolError>)
        ensures
            match parsed_json(effective_output(printed@)) {
                Some(raw) => r matches Ok(out) && describes_all(out.vhds@, raw.records()),
                None => r matches Err(ToolError::Json(_)),
            },
    {
        match read_printed(printed) {
            Ok(raw) => Ok(Self::parse_output(raw)),
            Err(e) => Err(e),
        }
    }

    /// Every value of a valid request reaches the script that `build_script`
    /// returns under its own flag: each flag below stands in the script
    /// followed by the value of the field of the same name.
    pub proof fn lemma_script_carries_each_value(input: SetVhdInput)
        requires
            Self::input_problem(input) is None,
        ensures
            holds(Self::script(input), quoted_arg("-Path"@, input.path@)),
            input.computer_name matches Some(v) ==> holds(
                Self::script(input),
                quoted_arg("-ComputerName"@, v@),
            ),
            input.parent_path matches Some(v) ==> holds(
                Self::script(input),
                quoted_arg("-ParentPath"@, v@),
            ),
            input.leaf_path matches Some(v) ==> holds(
                Self::script(input),
                quoted_arg("-LeafPath"@, v@),
            ),
            input.ignore_id_mismatch == Some(true) ==> holds(
                Self::script(input),
                "-IgnoreIdMismatch"@,
            ),
            input.physical_sector_size_bytes matches Some(v) ==> holds(
                Self::script(input),
                number_arg("-PhysicalSectorSizeBytes"@, v as int),
            ),
            input.reset_disk_identifier == Some(true) ==> holds(
                Self::script(input),
                "-ResetDiskIdentifier"@,
            ),
            input.force == Some(true) ==> holds(Self::script(input), "-Force"@),
    {
        Self::script_carries_path(input);
        Self::script_carries_computer_name(input);
        Self::script_carries_parent_path(input);
        Self::script_carries_leaf_path(input);
        Self::script_carries_ignore_id_mismatch(input);
        Self::script_carries_physical_sector_size_bytes(input);
        Self::script_carries_reset_disk_identifier(input);
        Self::script_carries_force(input);
    }

    proof fn script_carries_path(input: SetVhdInput)
        ensures
            holds(Self::script(input), quoted_arg("-Path"@, input.path@)),
    {
        broadcast use lemma_add_contains, lemma_push_contains;

        let args = Self::command_args(input);
        let tail = SELECT@;
        lemma_script_holds_argument(args, tail, quoted_arg("-Path"@, input.path@));
    }

    proof fn script_carries_computer_name(input: SetVhdInput)
        ensures
            input.computer_name matches Some(v) ==> holds(
                Self::script(input),
                quoted_arg("-ComputerName"@, v@),
            ),
    {
        broadcast use lemma_add_contains, lemma_push_contains;

        let args = Self::command_args(input);
        let tail = SELECT@;
        if let Some(v) = input.computer_name {
            lemma_script_holds_argument(args, tail, quoted_arg("-ComputerName"@, v@));
        }
    }

    proof fn script_carries_parent_path(input: SetVhdInput)
        ensures
            input.parent_path matches Some(v) ==> holds(
                Self::script(input),
                quoted_arg("-ParentPath"@, v@),
            ),
    {
        broadcast use lemma_add_contains, lemma_push_contains;

        let args = Self::command_args(input);
        let tail = SELECT@;
        if let Some(v) = input.parent_path {
            lemma_script_holds_argument(args, tail, quoted_arg("-ParentPath"@, v@));
        }
    }

    proof fn script_carries_leaf_path(input: SetVhdInput)
        ensures
            input.leaf_path matches Some(v) ==> holds(
                Self::script(input),
                quoted_arg("-LeafPath"@, v@),
            ),
    {
        broadcast use lemma_add_contains, lemma_push_contains;

        let args = Self::command_args(input);
        let tail = SELECT@;
        if let Some(v) = input.leaf_path {
            lemma_script_holds_argument(args, tail, quoted_arg("-LeafPath"@, v@));
        }
    }

    proof fn script_carries_ignore_id_mismatch(input: SetVhdInput)
        ensures
            input.ignore_id_mismatch == Some(true) ==> holds(
                Self::script(input),
                "-IgnoreIdMismatch"@,
            ),
    {
        broadcast use lemma_add_contains, lemma_push_contains;

        let args = Self::command_args(input);
        let tail = SELECT@;
        if input.ignore_id_mismatch == Some(true) {
            lemma_script_holds_argument(args, tail, "-IgnoreIdMismatch"@);
        }
    }

    proof fn script_carries_physical_sector_size_bytes(input: SetVhdInput)
        ensures
            input.physical_sector_size_bytes matches Some(v) ==> holds(
                Self::script(input),
                number_arg("-PhysicalSectorSizeBytes"@, v as int),
            ),
    {
        broadcast use lemma_add_contains, lemma_push_contains;

        let args = Self::command_args(input);
        let tail = SELECT@;
        if let Some(v) = input.physical_sector_size_bytes {
            lemma_script_holds_argument(
                args,
                tail,
                number_arg("-PhysicalSectorSizeBytes"@, v as int),
            );
        }
    }

    proof fn script_carries_reset_disk_identifier(input: SetVhdInput)
        ensures
            input.reset_disk_identifier == Some(true) ==> holds(
                Self::script(input),
                "-ResetDiskIdentifier"@,
            ),
    {
        broadcast use lemma_add_contains, lemma_push_contains;

        let args = Self::command_args(input);
        let tail = SELECT@;
        if input.reset_disk_identifier == Some(true) {
            lemma_script_holds_argument(args, tail, "-ResetDiskIdentifier"@);
        }
    }

    proof fn script_carries_force(input: SetVhdInput)
        ensures
            input.force == Some(true) ==> holds(Self::script(input), "-Force"@),
    {
        broadcast use lemma_add_contains, lemma_push_contains;

        let args = Self::command_args(input);
        let tail = SELECT@;
        if input.force == Some(true) {
            lemma_script_holds_argument(args, tail, "-Force"@);
        }
    }

    /// Each entry of the answer reads the printed record at its place: every
    /// field holds the record's member of the matching name.
    pub proof fn lemma_answer_reads_each_record(raw: JsonValue, out: SetVhdOutput)
        requires
            describes_all(out.vhds@, raw.records()),
        ensures
            out.vhds@.len() == raw.records().len(),
            forall|i: int|
                #![trigger out.vhds@[i]]
                0 <= i < raw.records().len() ==> {
                    &&& out.vhds@[i].path@ == raw.records()[i].text_or_empty("Path"@)
                    &&& out.vhds@[i].attached == raw.records()[i].flag_or_false("Attached"@)
                    &&& out.vhds@[i].block_size@ == raw.records()[i].text_or_empty("BlockSize"@)
                    &&& out.vhds@[i].computer_name@
                        == raw.records()[i].text_or_empty("ComputerName"@)
                    &&& out.vhds@[i].disk_identifier@
                        == raw.records()[i].text_or_empty("DiskIdentifier"@)
                    &&& out.vhds@[i].file_size@ == raw.records()[i].text_or_empty("FileSize"@)
                    &&& out.vhds@[i].is_deleted == raw.records()[i].flag_or_false("IsDeleted"@)
                    &&& out.vhds@[i].logical_sector_size@
                        == raw.records()[i].text_or_empty("LogicalSectorSize"@)
                    &&& out.vhds@[i].minimum_size@ == raw.records()[i].text_or_empty("MinimumSize"@)
                    &&& out.vhds@[i].number == raw.records()[i].u64_or_zero("Number"@) as u32
                    &&& out.vhds@[i].parent_path@ == raw.records()[i].text_or_empty("ParentPath"@)
                    &&& out.vhds@[i].physical_sector_size@
                        == raw.records()[i].text_or_empty("PhysicalSectorSize"@)
                    &&& out.vhds@[i].pool_name@ == raw.records()[i].text_or_empty("PoolName"@)
                    &&& out.vhds@[i].size@ == raw.records()[i].text_or_empty("Size"@)
                    &&& out.vhds@[i].vhd_format@ == raw.records()[i].text_or_empty("VHDFormat"@)
                    &&& out.vhds@[i].vhd_type@ == raw.records()[i].text_or_empty("VHDType"@)
                },
    {
        assert forall|i: int| 0 <= i < raw.records().len() implies {
            &&& out.vhds@[i].path@ == raw.records()[i].text_or_empty("Path"@)
            &&& out.vhds@[i].attached == raw.records()[i].flag_or_false("Attached"@)
            &&& out.vhds@[i].block_size@ == raw.records()[i].text_or_empty("BlockSize"@)
            &&& out.vhds@[i].computer_name@ == raw.records()[i].text_or_empty("ComputerName"@)
            &&& out.vhds@[i].disk_identifier@ == raw.records()[i].text_or_empty("DiskIdentifier"@)
            &&& out.vhds@[i].file_size@ == raw.records()[i].text_or_empty("FileSize"@)
            &&& out.vhds@[i].is_deleted == raw.records()[i].flag_or_false("IsDeleted"@)
            &&& out.vhds@[i].logical_sector_size@
                == raw.records()[i].text_or_empty("LogicalSectorSize"@)
            &&& out.vhds@[i].minimum_size@ == raw.records()[i].text_or_empty("MinimumSize"@)
            &&& out.vhds@[i].number == raw.records()[i].u64_or_zero("Number"@) as u32
            &&& out.vhds@[i].parent_path@ == raw.records()[i].text_or_empty("ParentPath"@)
            &&& out.vhds@[i].physical_sector_size@
                == raw.records()[i].text_or_empty("PhysicalSectorSize"@)
            &&& out.vhds@[i].pool_name@ == raw.records()[i].text_or_empty("PoolName"@)
            &&& out.vhds@[i].size@ == raw.records()[i].text_or_empty("Size"@)
            &&& out.vhds@[i].vhd_format@ == raw.records()[i].text_or_empty("VHDFormat"@)
            &&& out.vhds@[i].vhd_type@ == raw.records()[i].text_or_empty("VHDType"@)
        } by {
            assert(out.vhds@[i].describes(raw.records()[i]));
        }
    }

    /// A request is valid only when it passes every check: none of the
    /// conditions that refuse a request holds of it.
    pub proof fn lemma_valid_request_passes_every_check(input: SetVhdInput)
        requires
            Self::input_problem(input) is None,
        ensures
            !(is_blank(input.path@)),
            !(input.parent_path is None && input.physical_sector_size_bytes is None && input.reset_disk_identifier is None),
    {
    }
}

} // verus!
