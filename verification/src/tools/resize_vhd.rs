//! `hyperv_resize_vhd`: resizes a virtual hard disk.
use vstd::prelude::*;
use crate::command::{
    holds, join, lemma_add_contains, lemma_push_contains, lemma_script_holds_argument, number_arg,
    opt_quoted, opt_u64, quoted_arg, switch_arg, ArgList,
};
use crate::error::{invalid_input, script_outcome, ToolError};
use crate::json::{
    decode_records, describes_all, effective_output, parsed_json, read_printed, FromJson, JsonValue,
};
use crate::text::{is_blank, option_is_blank, text_is_blank};

verus! {

/// The tool's name.
pub const NAME: &'static str = "hyperv_resize_vhd";

/// What the tool does.
pub const DESCRIPTION: &'static str = "Resizes a virtual hard disk.";

/// What the script runs after the cmdlet: the fields it prints, as JSON.
pub const SELECT: &'static str = " | Select-Object Path, @{N='VhdFormat';E={$_.VhdFormat.ToString()}}, @{N='VhdType';E={$_.VhdType.ToString()}}, FileSize, Size, MinimumSize, LogicalSectorSize, PhysicalSectorSize, BlockSize, ParentPath, DiskIdentifier, FragmentationPercentage, Attached, DiskNumber, Number, IsDeleted | ConvertTo-Json -Compress -Depth 3";

/// What the tool is asked.
#[derive(Debug)]
pub struct ResizeVhdInput {
    /// Path to the virtual hard disk file to resize.
    pub path: String,
    /// New size, in bytes, for the virtual hard disk.
    pub size_bytes: Option<u64>,
    /// Shrink the virtual hard disk to its minimum possible size.
    pub to_minimum_size: bool,
    /// Hyper-V host to target. Defaults to localhost.
    pub computer_name: Option<String>,
}

/// One record of the answer.
#[derive(Debug)]
pub struct VhdInfo {
    pub path: String,
    pub vhd_format: String,
    pub vhd_type: String,
    pub file_size: u64,
    pub size: u64,
    pub minimum_size: u64,
    pub logical_sector_size: u32,
    pub physical_sector_size: u32,
    pub block_size: u64,
    pub parent_path: String,
    pub disk_identifier: String,
    pub fragmentation_percentage: u32,
    pub attached: bool,
    pub disk_number: u32,
    pub number: u32,
    pub is_deleted: bool,
}

/// What the tool answers.
#[derive(Debug)]
pub struct ResizeVhdOutput {
    pub vhds: Vec<VhdInfo>,
}

/// The tool.
#[derive(Default)]
pub struct ResizeVhdTool;

impl FromJson for VhdInfo {
    open spec fn describes(&self, item: JsonValue) -> bool {
        &&& self.path@ == item.text_or_empty("Path"@)
        &&& self.vhd_format@ == item.text_or_empty("VhdFormat"@)
        &&& self.vhd_type@ == item.text_or_empty("VhdType"@)
        &&& self.file_size == item.u64_or_zero("FileSize"@)
        &&& self.size == item.u64_or_zero("Size"@)
        &&& self.minimum_size == item.u64_or_zero("MinimumSize"@)
        &&& self.logical_sector_size == item.u64_or_zero("LogicalSectorSize"@) as u32
        &&& self.physical_sector_size == item.u64_or_zero("PhysicalSectorSize"@) as u32
        &&& self.block_size == item.u64_or_zero("BlockSize"@)
        &&& self.parent_path@ == item.text_or_empty("ParentPath"@)
        &&& self.disk_identifier@ == item.text_or_empty("DiskIdentifier"@)
        &&& self.fragmentation_percentage == item.u64_or_zero("FragmentationPercentage"@) as u32
        &&& self.attached == item.flag_or_false("Attached"@)
        &&& self.disk_number == item.u64_or_zero("DiskNumber"@) as u32
        &&& self.number == item.u64_or_zero("Number"@) as u32
        &&& self.is_deleted == item.flag_or_false("IsDeleted"@)
    }

    fn from_json(item: &JsonValue) -> (r: Self) {
        VhdInfo {
            path: item.text_or_empty_at("Path"),
            vhd_format: item.text_or_empty_at("VhdFormat"),
            vhd_type: item.text_or_empty_at("VhdType"),
            file_size: item.u64_or_zero_at("FileSize"),
            size: item.u64_or_zero_at("Size"),
            minimum_size: item.u64_or_zero_at("MinimumSize"),
            logical_sector_size: item.u64_or_zero_at("LogicalSectorSize") as u32,
            physical_sector_size: item.u64_or_zero_at("PhysicalSectorSize") as u32,
            block_size: item.u64_or_zero_at("BlockSize"),
            parent_path: item.text_or_empty_at("ParentPath"),
            disk_identifier: item.text_or_empty_at("DiskIdentifier"),
            fragmentation_percentage: item.u64_or_zero_at("FragmentationPercentage") as u32,
            attached: item.flag_or_false_at("Attached"),
            disk_number: item.u64_or_zero_at("DiskNumber") as u32,
            number: item.u64_or_zero_at("Number") as u32,
            is_deleted: item.flag_or_false_at("IsDeleted"),
        }
    }
}

impl ResizeVhdTool {
    /// The first problem with the request, as the message that reports it.
    pub open spec fn input_problem(input: ResizeVhdInput) -> Option<Seq<char>> {
        if is_blank(input.path@) {
            Some("Path must not be empty"@)
        } else if input.size_bytes is Some && input.to_minimum_size {
            Some("Specify either size_bytes or to_minimum_size, not both"@)
        } else if input.size_bytes is None && !input.to_minimum_size {
            Some("Either size_bytes or to_minimum_size must be specified"@)
        } else if input.computer_name matches Some(s) && is_blank(s@) {
            Some("ComputerName must not be empty when provided"@)
        } else {
            None
        }
    }

    /// The arguments of the cmdlet.
    pub open spec fn command_args(input: ResizeVhdInput) -> Seq<Seq<char>> {
        seq!["Resize-VHD"@, quoted_arg("-Path"@, input.path@)]
            + opt_u64("-SizeBytes"@, input.size_bytes)
            + switch_arg("-ToMinimumSize"@, input.to_minimum_size)
            + opt_quoted("-ComputerName"@, input.computer_name)
            + seq!["-Passthru"@]
    }

    /// The script that runs for a valid request.
    pub open spec fn script(input: ResizeVhdInput) -> Seq<char> {
        join(Self::command_args(input), seq![' ']) + SELECT@
    }

    /// Checks the request and builds its script.
    pub fn build_script(input: &ResizeVhdInput) -> (r: Result<String, ToolError>)
        ensures
            script_outcome(r, Self::input_problem(*input), Self::script(*input)),
    {
        if text_is_blank(input.path.as_str()) {
            return Err(invalid_input("Path must not be empty"));
        }
        if input.size_bytes.is_some() && input.to_minimum_size {
            return Err(invalid_input("Specify either size_bytes or to_minimum_size, not both"));
        }
        if input.size_bytes.is_none() && !input.to_minimum_size {
            return Err(invalid_input("Either size_bytes or to_minimum_size must be specified"));
        }
        if option_is_blank(&input.computer_name) {
            return Err(invalid_input("ComputerName must not be empty when provided"));
        }
        let mut args = ArgList::new("Resize-VHD");
        args.push_quoted("-Path", input.path.as_str());
        args.push_opt_u64("-SizeBytes", input.size_bytes);
        args.push_switch("-ToMinimumSize", input.to_minimum_size);
        args.push_opt_quoted("-ComputerName", &input.computer_name);
        args.push_literal("-Passthru");
        assert(args@ === Self::command_args(*input));
        Ok(args.to_command_with(SELECT))
    }

    /// Reads the answer from what the script printed: one entry per record.
    pub fn parse_output(raw: JsonValue) -> (r: ResizeVhdOutput)
        ensures
            describes_all(r.vhds@, raw.records()),
    {
        ResizeVhdOutput { vhds: decode_records(raw) }
    }

    /// Reads the answer from the text the script printed; blank text reads as
    /// an empty list, and text that is not JSON is a `Json` error.
    pub fn read_output(printed: &str) -> (r: Result<ResizeVhdOutput, ToolError>)
        ensures
            match parsed_json(effective_output(printed@)) {
                Some(raw) => r matches Ok(out) && describes_all(out.vhds@, raw.records()),
                None => r matches Err(ToolError::Json(_)),
            },
    {
        match read_printed(printed) {
            Ok(raw) => Ok(Self::parse_output(raw)),
            Err(e) => Err(e),
        }
    }

    /// Every value of a valid request reaches the script that `build_script`
    /// returns under its own flag: each flag below stands in the script
    /// followed by the value of the field of the same name.
    pub proof fn lemma_script_carries_each_value(input: ResizeVhdInput)
        requires
            Self::input_problem(input) is None,
        ensures
            holds(Self::script(input), quoted_arg("-Path"@, input.path@)),
            input.size_bytes matches Some(v) ==> holds(
                Self::script(input),
                number_arg("-SizeBytes"@, v as int),
            ),
            input.to_minimum_size ==> holds(Self::script(input), "-ToMinimumSize"@),
            input.computer_name matches Some(v) ==> holds(
                Self::script(input),
                quoted_arg("-ComputerName"@, v@),
            ),
    {
        Self::script_carries_path(input);
        Self::script_carries_size_bytes(input);
        Self::script_carries_to_minimum_size(input);
        Self::script_carries_computer_name(input);
    }

    proof fn script_carries_path(input: ResizeVhdInput)
        ensures
            holds(Self::script(input), quoted_arg("-Path"@, input.path@)),
    {
        broadcast use lemma_add_contains, lemma_push_contains;

        let args = Self::command_args(input);
        let tail = SELECT@;
        lemma_script_holds_argument(args, tail, quoted_arg("-Path"@, input.path@));
    }

    proof fn script_carries_size_bytes(input: ResizeVhdInput)
        ensures
            input.size_bytes matches Some(v) ==> holds(
                Self::script(input),
                number_arg("-SizeBytes"@, v as int),
            ),
    {
        broadcast use lemma_add_contains, lemma_push_contains;

        let args = Self::command_args(input);
        let tail = SELECT@;
        if let Some(v) = input.size_bytes {
            lemma_script_holds_argument(args, tail, number_arg("-SizeBytes"@, v as int));
        }
    }

    proof fn script_carries_to_minimum_size(input: ResizeVhdInput)
        ensures
            input.to_minimum_size ==> holds(Self::script(input), "-ToMinimumSize"@),
    {
        broadcast use lemma_add_contains, lemma_push_contains;

        let args = Self::command_args(input);
        let tail = SELECT@;
        if input.to_minimum_size {
            lemma_script_holds_argument(args, tail, "-ToMinimumSize"@);
        }
    }

    proof fn script_carries_computer_name(input: ResizeVhdInput)
        ensures
            input.computer_name matches Some(v) ==> holds(
                Self::script(input),
                quoted_arg("-ComputerName"@, v@),
            ),
    {
        broadcast use lemma_add_contains, lemma_push_contains;

        let args = Self::command_args(input);
        let tail = SELECT@;
        if let Some(v) = input.computer_name {
            lemma_script_holds_argument(args, tail, quoted_arg("-ComputerName"@, v@));
        }
    }

    /// Each entry of the answer reads the printed record at its place: every
    /// field holds the record's member of the matching name.
    pub proof fn lemma_answer_reads_each_record(raw: JsonValue, out: ResizeVhdOutput)
        requires
            describes_all(out.vhds@, raw.records()),
        ensures
            out.vhds@.len() == raw.records().len(),
            forall|i: int|
                #![trigger out.vhds@[i]]
                0 <= i < raw.records().len() ==> {
                    &&& out.vhds@[i].path@ == raw.records()[i].text_or_empty("Path"@)
                    &&& out.vhds@[i].vhd_format@ == raw.records()[i].text_or_empty("VhdFormat"@)
                    &&& out.vhds@[i].vhd_type@ == raw.records()[i].text_or_empty("VhdType"@)
                    &&& out.vhds@[i].file_size == raw.records()[i].u64_or_zero("FileSize"@)
                    &&& out.vhds@[i].size == raw.records()[i].u64_or_zero("Size"@)
                    &&& out.vhds@[i].minimum_size == raw.records()[i].u64_or_zero("MinimumSize"@)
                    &&& out.vhds@[i].logical_sector_size
                        == raw.records()[i].u64_or_zero("LogicalSectorSize"@) as u32
                    &&& out.vhds@[i].physical_sector_size
                        == raw.records()[i].u64_or_zero("PhysicalSectorSize"@) as u32
                    &&& out.vhds@[i].block_size == raw.records()[i].u64_or_zero("BlockSize"@)
                    &&& out.vhds@[i].parent_path@ == raw.records()[i].text_or_empty("ParentPath"@)
                    &&& out.vhds@[i].disk_identifier@
                        == raw.records()[i].text_or_empty("DiskIdentifier"@)
                    &&& out.vhds@[i].fragmentation_percentage
                        == raw.records()[i].u64_or_zero("FragmentationPercentage"@) as u32
                    &&& out.vhds@[i].attached == raw.records()[i].flag_or_false("Attached"@)
                    &&& out.vhds@[i].disk_number
                        == raw.records()[i].u64_or_zero("DiskNumber"@) as u32
                    &&& out.vhds@[i].number == raw.records()[i].u64_or_zero("Number"@) as u32
                    &&& out.vhds@[i].is_deleted == raw.records()[i].flag_or_false("IsDeleted"@)
                },
    {
        assert forall|i: int| 0 <= i < raw.records().len() implies {
            &&& out.vhds@[i].path@ == raw.records()[i].text_or_empty("Path"@)
            &&& out.vhds@[i].vhd_format@ == raw.records()[i].text_or_empty("VhdFormat"@)
            &&& out.vhds@[i].vhd_type@ == raw.records()[i].text_or_empty("VhdType"@)
            &&& out.vhds@[i].file_size == raw.records()[i].u64_or_zero("FileSize"@)
            &&& out.vhds@[i].size == raw.records()[i].u64_or_zero("Size"@)
            &&& out.vhds@[i].minimum_size == raw.records()[i].u64_or_zero("MinimumSize"@)
            &&& out.vhds@[i].logical_sector_size
                == raw.records()[i].u64_or_zero("LogicalSectorSize"@) as u32
            &&& out.vhds@[i].physical_sector_size
                == raw.records()[i].u64_or_zero("PhysicalSectorSize"@) as u32
            &&& out.vhds@[i].block_size == raw.records()[i].u64_or_zero("BlockSize"@)
            &&& out.vhds@[i].parent_path@ == raw.records()[i].text_or_empty("ParentPath"@)
            &&& out.vhds@[i].disk_identifier@ == raw.records()[i].text_or_empty("DiskIdentifier"@)
            &&& out.vhds@[i].fragmentation_percentage
                == raw.records()[i].u64_or_zero("FragmentationPercentage"@) as u32
            &&& out.vhds@[i].attached == raw.records()[i].flag_or_false("Attached"@)
            &&& out.vhds@[i].disk_number == raw.records()[i].u64_or_zero("DiskNumber"@) as u32
            &&& out.vhds@[i].number == raw.records()[i].u64_or_zero("Number"@) as u32
            &&& out.vhds@[i].is_deleted == raw.records()[i].flag_or_false("IsDeleted"@)
        } by {
            assert(out.vhds@[i].describes(raw.records()[i]));
        }
    }

    /// A request is valid only when it passes every check: none of the
    /// conditions that refuse a request holds of it.
    pub proof fn lemma_valid_request_passes_every_check(input: ResizeVhdInput)
        requires
            Self::input_problem(input) is None,
        ensures
            !(is_blank(input.path@)),
            !(input.size_bytes is Some && input.to_minimum_size),
            !(input.size_bytes is None && !input.to_minimum_size),
            !(input.computer_name matches Some(s) && is_blank(s@)),
    {
    }
}

} // verus!
