//! `hyperv_rename_vm_snapshot`: renames a virtual machine checkpoint.
use vstd::prelude::*;
use crate::command::{
    holds, join, lemma_add_contains, lemma_push_contains, lemma_script_holds_argument, opt_quoted,
    quoted_arg, ArgList,
};
use crate::error::{invalid_input, script_outcome, ToolError};
use crate::json::{
    decode_records, describes_all, effective_output, parsed_json, read_printed, FromJson, JsonValue,
};
use crate::text::{is_blank, option_is_blank, text_is_blank};

verus! {

/// The tool's name.
pub const NAME: &'static str = "hyperv_rename_vm_snapshot";

/// What the tool does.
pub const DESCRIPTION: &'static str = "Renames a virtual machine checkpoint.";

/// What the script runs after the cmdlet: the fields it prints, as JSON.
pub const SELECT: &'static str = " | Select-Object Name, Id, VMName, @{N='CreationTime';E={$_.CreationTime.ToString()}}, @{N='SnapshotType';E={$_.SnapshotType.ToString()}}, ParentSnapshotName | ConvertTo-Json -Compress -Depth 3";

/// What the tool is asked.
#[derive(Debug)]
pub struct RenameVmSnapshotInput {
    /// Name of the virtual machine whose checkpoint is to be renamed.
    pub vm_name: String,
    /// Name of the checkpoint to be renamed.
    pub snapshot_name: String,
    /// New name for the checkpoint.
    pub new_name: String,
    /// Hyper-V host to target. Defaults to localhost.
    pub computer_name: Option<String>,
}

/// One record of the answer.
#[derive(Debug)]
pub struct SnapshotInfo {
    pub name: String,
    pub id: String,
    pub vm_name: String,
    pub creation_time: String,
    pub snapshot_type: String,
    pub parent_snapshot_name: String,
}

/// What the tool answers.
#[derive(Debug)]
pub struct RenameVmSnapshotOutput {
    pub snapshots: Vec<SnapshotInfo>,
}

/// The tool.
#[derive(Default)]
pub struct RenameVmSnapshotTool;

impl FromJson for SnapshotInfo {
    open spec fn describes(&self, item: JsonValue) -> bool {
        &&& self.name@ == item.text_or_empty("Name"@)
        &&& self.id@ == item.text_or_empty("Id"@)
        &&& self.vm_name@ == item.text_or_empty("VMName"@)
        &&& self.creation_time@ == item.text_or_empty("CreationTime"@)
        &&& self.snapshot_type@ == item.text_or_empty("SnapshotType"@)
        &&& self.parent_snapshot_name@ == item.text_or_empty("ParentSnapshotName"@)
    }

    fn from_json(item: &JsonValue) -> (r: Self) {
        SnapshotInfo {
            name: item.text_or_empty_at("Name"),
            id: item.text_or_empty_at("Id"),
            vm_name: item.text_or_empty_at("VMName"),
            creation_time: item.text_or_empty_at("CreationTime"),
            snapshot_type: item.text_or_empty_at("SnapshotType"),
            parent_snapshot_name: item.text_or_empty_at("ParentSnapshotName"),
        }
    }
}

impl RenameVmSnapshotTool {
    /// The first problem with the request, as the message that reports it.
    pub open spec fn input_problem(input: RenameVmSnapshotInput) -> Option<Seq<char>> {
        if is_blank(input.vm_name@) {
            Some("VM name must not be empty"@)
        } else if is_blank(input.snapshot_name@) {
            Some("Snapshot name must not be empty"@)
        } else if is_blank(input.new_name@) {
            Some("New name must not be empty"@)
        } else if input.computer_name matches Some(s) && is_blank(s@) {
            Some("ComputerName must not be empty"@)
        } else {
            None
        }
    }

    /// The arguments of the cmdlet.
    pub open spec fn command_args(input: RenameVmSnapshotInput) -> Seq<Seq<char>> {
        seq![
            "Rename-VMSnapshot"@,
            quoted_arg("-VMName"@, input.vm_name@),
            quoted_arg("-Name"@, input.snapshot_name@),
            quoted_arg("-NewName"@, input.new_name@),
        ]
            + opt_quoted("-ComputerName"@, input.computer_name)
    }

    /// The script that runs for a valid request.
    pub open spec fn script(input: RenameVmSnapshotInput) -> Seq<char> {
        join(Self::command_args(input), seq![' ']) + SELECT@
    }

    /// Checks the request and builds its script.
    pub fn build_script(input: &RenameVmSnapshotInput) -> (r: Result<String, ToolError>)
        ensures
            script_outcome(r, Self::input_problem(*input), Self::script(*input)),
    {
        if text_is_blank(input.vm_name.as_str()) {
            return Err(invalid_input("VM name must not be empty"));
        }
        if text_is_blank(input.snapshot_name.as_str()) {
            return Err(invalid_input("Snapshot name must not be empty"));
        }
        if text_is_blank(input.new_name.as_str()) {
            return Err(invalid_input("New name must not be empty"));
        }
        if option_is_blank(&input.computer_name) {
            return Err(invalid_input("ComputerName must not be empty"));
        }
        let mut args = ArgList::new("Rename-VMSnapshot");
        args.push_quoted("-VMName", input.vm_name.as_str());
        args.push_quoted("-Name", input.snapshot_name.as_str());
        args.push_quoted("-NewName", input.new_name.as_str());
        assert(args@ =~= seq![
            "Rename-VMSnapshot"@,
            quoted_arg("-VMName"@, input.vm_name@),
            quoted_arg("-Name"@, input.snapshot_name@),
            quoted_arg("-NewName"@, input.new_name@),
        ]);
        args.push_opt_quoted("-ComputerName", &input.computer_name);
        assert(args@ === Self::command_args(*input));
        Ok(args.to_command_with(SELECT))
    }

    /// Reads the answer from what the script printed: one entry per record.
    pub fn parse_output(raw: JsonValue) -> (r: RenameVmSnapshotOutput)
        ensures
            describes_all(r.snapshots@, raw.records()),
    {
        RenameVmSnapshotOutput { snapshots: decode_records(raw) }
    }

    /// Reads the answer from the text the script printed; blank text reads as
    /// an empty list, and text that is not JSON is a `Json` error.
    pub fn read_output(printed: &str) -> (r: Result<RenameVmSnapshotOutput, ToolError>)
        ensures
            match parsed_json(effective_output(printed@)) {
                Some(raw) => r matches Ok(out) && describes_all(out.snapshots@, raw.records()),
                None => r matches Err(ToolError::Json(_)),
            },
    {
        match read_printed(printed) {
            Ok(raw) => Ok(Self::parse_output(raw)),
            Err(e) => Err(e),
        }
    }

    /// Every value of a valid request reaches the script that `build_script`
    /// returns under its own flag: each flag below stands in the script
    /// followed by the value of the field of the same name.
    pub proof fn lemma_script_carries_each_value(input: RenameVmSnapshotInput)
        requires
            Self::input_problem(input) is None,
        ensures
            holds(Self::script(input), quoted_arg("-VMName"@, input.vm_name@)),
            holds(Self::script(input), quoted_arg("-Name"@, input.snapshot_name@)),
            holds(Self::script(input), quoted_arg("-NewName"@, input.new_name@)),
            input.computer_name matches Some(v) ==> holds(
                Self::script(input),
                quoted_arg("-ComputerName"@, v@),
            ),
    {
        Self::script_carries_vm_name(input);
        Self::script_carries_snapshot_name(input);
        Self::script_carries_new_name(input);
        Self::script_carries_computer_name(input);
    }

    proof fn script_carries_vm_name(input: RenameVmSnapshotInput)
        ensures
            holds(Self::script(input), quoted_arg("-VMName"@, input.vm_name@)),
    {
        broadcast use lemma_add_contains, lemma_push_contains;

        let args = Self::command_args(input);
        let tail = SELECT@;
        lemma_script_holds_argument(args, tail, quoted_arg("-VMName"@, input.vm_name@));
    }

    proof fn script_carries_snapshot_name(input: RenameVmSnapshotInput)
        ensures
            holds(Self::script(input), quoted_arg("-Name"@, input.snapshot_name@)),
    {
        broadcast use lemma_add_contains, lemma_push_contains;

        let args = Self::command_args(input);
        let tail = SELECT@;
        lemma_script_holds_argument(args, tail, quoted_arg("-Name"@, input.snapshot_name@));
    }

    proof fn script_carries_new_name(input: RenameVmSnapshotInput)
        ensures
            holds(Self::script(input), quoted_arg("-NewName"@, input.new_name@)),
    {
        broadcast use lemma_add_contains, lemma_push_contains;

        let args = Self::command_args(input);
        let tail = SELECT@;
        lemma_script_holds_argument(args, tail, quoted_arg("-NewName"@, input.new_name@));
    }

    proof fn script_carries_computer_name(input: RenameVmSnapshotInput)
        ensures
            input.computer_name matches Some(v) ==> holds(
                Self::script(input),
                quoted_arg("-ComputerName"@, v@),
            ),
    {
        broadcast use lemma_add_contains, lemma_push_contains;

        let args = Self::command_args(input);
        let tail = SELECT@;
        if let Some(v) = input.computer_name {
            lemma_script_holds_argument(args, tail, quoted_arg("-ComputerName"@, v@));
        }
    }

    /// Each entry of the answer reads the printed record at its place: every
    /// field holds the record's member of the matching name.
    pub proof fn lemma_answer_reads_each_record(raw: JsonValue, out: RenameVmSnapshotOutput)
        requires
            describes_all(out.snapshots@, raw.records()),
        ensures
            out.snapshots@.len() == raw.records().len(),
            forall|i: int|
                #![trigger out.snapshots@[i]]
                0 <= i < raw.records().len() ==> {
                    &&& out.snapshots@[i].name@ == raw.records()[i].text_or_empty("Name"@)
                    &&& out.snapshots@[i].id@ == raw.records()[i].text_or_empty("Id"@)
                    &&& out.snapshots@[i].vm_name@ == raw.records()[i].text_or_empty("VMName"@)
                    &&& out.snapshots@[i].creation_time@
                        == raw.records()[i].text_or_empty("CreationTime"@)
                    &&& out.snapshots@[i].snapshot_type@
                        == raw.records()[i].text_or_empty("SnapshotType"@)
                    &&& out.snapshots@[i].parent_snapshot_name@
                        == raw.records()[i].text_or_empty("ParentSnapshotName"@)
                },
    {
        assert forall|i: int| 0 <= i < raw.records().len() implies {
            &&& out.snapshots@[i].name@ == raw.records()[i].text_or_empty("Name"@)
            &&& out.snapshots@[i].id@ == raw.records()[i].text_or_empty("Id"@)
            &&& out.snapshots@[i].vm_name@ == raw.records()[i].text_or_empty("VMName"@)
            &&& out.snapshots@[i].creation_time@ == raw.records()[i].text_or_empty("CreationTime"@)
            &&& out.snapshots@[i].snapshot_type@ == raw.records()[i].text_or_empty("SnapshotType"@)
            &&& out.snapshots@[i].parent_snapshot_name@
                == raw.records()[i].text_or_empty("ParentSnapshotName"@)
        } by {
            assert(out.snapshots@[i].describes(raw.records()[i]));
        }
    }

    /// A request is valid only when it passes every check: none of the
    /// conditions that refuse a request holds of it.
    pub proof fn lemma_valid_request_passes_every_check(input: RenameVmSnapshotInput)
        requires
            Self::input_problem(input) is None,
        ensures
            !(is_blank(input.vm_name@)),
            !(is_blank(input.snapshot_name@)),
            !(is_blank(input.new_name@)),
            !(input.computer_name matches Some(s) && is_blank(s@)),
    {
    }
}

} // verus!
