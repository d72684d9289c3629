//! `hyperv_remove_vm_snapshot`: deletes a virtual machine checkpoint.
use vstd::prelude::*;
use crate::command::{
    holds, join, lemma_add_contains, lemma_push_contains, lemma_script_holds_argument, opt_quoted,
    quoted_arg, ArgList,
};
use crate::error::{invalid_input, script_outcome, ToolError};
use crate::json::{
    decode_records, describes_all, effective_output, parsed_json, read_printed, FromJson, JsonValue,
};
use crate::text::{is_blank, option_is_blank, text_is_blank};

verus! {

/// The tool's name.
pub const NAME: &'static str = "hyperv_remove_vm_snapshot";

/// What the tool does.
pub const DESCRIPTION: &'static str = "Deletes a virtual machine checkpoint.";

/// What the script runs after the cmdlet: the fields it prints, as JSON.
pub const SELECT: &'static str = " | Select-Object Name, Id, VMName, @{N='SnapshotType';E={$_.SnapshotType.ToString()}}, @{N='CreationTime';E={$_.CreationTime.ToString()}} | ConvertTo-Json -Compress -Depth 3";

/// What the tool is asked.
#[derive(Debug)]
pub struct RemoveVmSnapshotInput {
    /// Name of the virtual machine whose checkpoint is being removed.
    pub vm_name: String,
    /// Name of the checkpoint to remove.
    pub snapshot_name: String,
    /// Hyper-V host to target. Defaults to localhost.
    pub computer_name: Option<String>,
}

/// One record of the answer.
#[derive(Debug)]
pub struct RemovedSnapshotInfo {
    pub name: String,
    pub id: String,
    pub vm_name: String,
    pub snapshot_type: String,
    pub creation_time: String,
}

/// What the tool answers.
#[derive(Debug)]
pub struct RemoveVmSnapshotOutput {
    /// Checkpoints that were removed.
    pub removed: Vec<RemovedSnapshotInfo>,
}

/// The tool.
#[derive(Default)]
pub struct RemoveVmSnapshotTool;

impl FromJson for RemovedSnapshotInfo {
    open spec fn describes(&self, item: JsonValue) -> bool {
        &&& self.name@ == item.text_or_empty("Name"@)
        &&& self.id@ == item.text_or_empty("Id"@)
        &&& self.vm_name@ == item.text_or_empty("VMName"@)
        &&& self.snapshot_type@ == item.text_or_empty("SnapshotType"@)
        &&& self.creation_time@ == item.text_or_empty("CreationTime"@)
    }

    fn from_json(item: &JsonValue) -> (r: Self) {
        RemovedSnapshotInfo {
            name: item.text_or_empty_at("Name"),
            id: item.text_or_empty_at("Id"),
            vm_name: item.text_or_empty_at("VMName"),
            snapshot_type: item.text_or_empty_at("SnapshotType"),
            creation_time: item.text_or_empty_at("CreationTime"),
        }
    }
}

impl RemoveVmSnapshotTool {
    /// The first problem with the request, as the message that reports it.
    pub open spec fn input_problem(input: RemoveVmSnapshotInput) -> Option<Seq<char>> {
        if is_blank(input.vm_name@) {
            Some("vmName must not be empty"@)
        } else if is_blank(input.snapshot_name@) {
            Some("snapshotName must not be empty"@)
        } else if input.computer_name matches Some(s) && is_blank(s@) {
            Some("computerName must not be empty"@)
        } else {
            None
        }
    }

    /// The arguments of the cmdlet.
    pub open spec fn command_args(input: RemoveVmSnapshotInput) -> Seq<Seq<char>> {
        seq![
            "Remove-VMSnapshot"@,
            quoted_arg("-VMName"@, input.vm_name@),
            quoted_arg("-Name"@, input.snapshot_name@),
        ]
            + opt_quoted("-ComputerName"@, input.computer_name)
            + seq!["-Confirm:$false"@]
    }

    /// The script that runs for a valid request.
    pub open spec fn script(input: RemoveVmSnapshotInput) -> Seq<char> {
        join(Self::command_args(input), seq![' ']) + SELECT@
    }

    /// Checks the request and builds its script.
    pub fn build_script(input: &RemoveVmSnapshotInput) -> (r: Result<String, ToolError>)
        ensures
            script_outcome(r, Self::input_problem(*input), Self::script(*input)),
    {
        if text_is_blank(input.vm_name.as_str()) {
            return Err(invalid_input("vmName must not be empty"));
        }
        if text_is_blank(input.snapshot_name.as_str()) {
            return Err(invalid_input("snapshotName must not be empty"));
        }
        if option_is_blank(&input.computer_name) {
            return Err(invalid_input("computerName must not be empty"));
        }
        let mut args = ArgList::new("Remove-VMSnapshot");
        args.push_quoted("-VMName", input.vm_name.as_str());
        args.push_quoted("-Name", input.snapshot_name.as_str());
        assert(args@ =~= seq![
            "Remove-VMSnapshot"@,
            quoted_arg("-VMName"@, input.vm_name@),
            quoted_arg("-Name"@, input.snapshot_name@),
        ]);
        args.push_opt_quoted("-ComputerName", &input.computer_name);
        args.push_literal("-Confirm:$false");
        assert(args@ === Self::command_args(*input));
        Ok(args.to_command_with(SELECT))
    }

    /// Reads the answer from what the script printed: one entry per record.
    pub fn parse_output(raw: JsonValue) -> (r: RemoveVmSnapshotOutput)
        ensures
            describes_all(r.removed@, raw.records()),
    {
        RemoveVmSnapshotOutput { removed: decode_records(raw) }
    }

    /// Reads the answer from the text the script printed; blank text reads as
    /// an empty list, and text that is not JSON is a `Json` error.
    pub fn read_output(printed: &str) -> (r: Result<RemoveVmSnapshotOutput, ToolError>)
        ensures
            match parsed_json(effective_output(printed@)) {
                Some(raw) => r matches Ok(out) && describes_all(out.removed@, raw.records()),
                None => r matches Err(ToolError::Json(_)),
            },
    {
        match read_printed(printed) {
            Ok(raw) => Ok(Self::parse_output(raw)),
            Err(e) => Err(e),
        }
    }

    /// Every value of a valid request reaches the script that `build_script`
    /// returns under its own flag: each flag below stands in the script
    /// followed by the value of the field of the same name.
    pub proof fn lemma_script_carries_each_value(input: RemoveVmSnapshotInput)
        requires
            Self::input_problem(input) is None,
        ensures
            holds(Self::script(input), quoted_arg("-VMName"@, input.vm_name@)),
            holds(Self::script(input), quoted_arg("-Name"@, input.snapshot_name@)),
            input.computer_name matches Some(v) ==> holds(
                Self::script(input),
                quoted_arg("-ComputerName"@, v@),
            ),
    {
        Self::script_carries_vm_name(input);
        Self::script_carries_snapshot_name(input);
        Self::script_carries_computer_name(input);
    }

    proof fn script_carries_vm_name(input: RemoveVmSnapshotInput)
        ensures
            holds(Self::script(input), quoted_arg("-VMName"@, input.vm_name@)),
    {
        broadcast use lemma_add_contains, lemma_push_contains;

        let args = Self::command_args(input);
        let tail = SELECT@;
        lemma_script_holds_argument(args, tail, quoted_arg("-VMName"@, input.vm_name@));
    }

    proof fn script_carries_snapshot_name(input: RemoveVmSnapshotInput)
        ensures
            holds(Self::script(input), quoted_arg("-Name"@, input.snapshot_name@)),
    {
        broadcast use lemma_add_contains, lemma_push_contains;

        let args = Self::command_args(input);
        let tail = SELECT@;
        lemma_script_holds_argument(args, tail, quoted_arg("-Name"@, input.snapshot_name@));
    }

    proof fn script_carries_computer_name(input: RemoveVmSnapshotInput)
        ensures
            input.computer_name matches Some(v) ==> holds(
                Self::script(input),
                quoted_arg("-ComputerName"@, v@),
            ),
    {
        broadcast use lemma_add_contains, lemma_push_contains;

        let args = Self::command_args(input);
        let tail = SELECT@;
        if let Some(v) = input.computer_name {
            lemma_script_holds_argument(args, tail, quoted_arg("-ComputerName"@, v@));
        }
    }

    /// Each entry of the answer reads the printed record at its place: every
    /// field holds the record's member of the matching name.
    pub proof fn lemma_answer_reads_each_record(raw: JsonValue, out: RemoveVmSnapshotOutput)
        requires
            describes_all(out.removed@, raw.records()),
        ensures
            out.removed@.len() == raw.records().len(),
            forall|i: int|
                #![trigger out.removed@[i]]
                0 <= i < raw.records().len() ==> {
                    &&& out.removed@[i].name@ == raw.records()[i].text_or_empty("Name"@)
                    &&& out.removed@[i].id@ == raw.records()[i].text_or_empty("Id"@)
                    &&& out.removed@[i].vm_name@ == raw.records()[i].text_or_empty("VMName"@)
                    &&& out.removed@[i].snapshot_type@
                        == raw.records()[i].text_or_empty("SnapshotType"@)
                    &&& out.removed@[i].creation_time@
                        == raw.records()[i].text_or_empty("CreationTime"@)
                },
    {
        assert forall|i: int| 0 <= i < raw.records().len() implies {
            &&& out.removed@[i].name@ == raw.records()[i].text_or_empty("Name"@)
            &&& out.removed@[i].id@ == raw.records()[i].text_or_empty("Id"@)
            &&& out.removed@[i].vm_name@ == raw.records()[i].text_or_empty("VMName"@)
            &&& out.removed@[i].snapshot_type@ == raw.records()[i].text_or_empty("SnapshotType"@)
            &&& out.removed@[i].creation_time@ == raw.records()[i].text_or_empty("CreationTime"@)
        } by {
            assert(out.removed@[i].describes(raw.records()[i]));
        }
    }

    /// A request is valid only when it passes every check: none of the
    /// conditions that refuse a request holds of it.
    pub proof fn lemma_valid_request_passes_every_check(input: RemoveVmSnapshotInput)
        requires
            Self::input_problem(input) is None,
        ensures
            !(is_blank(input.vm_name@)),
            !(is_blank(input.snapshot_name@)),
            !(input.computer_name matches Some(s) && is_blank(s@)),
    {
    }
}

} // verus!
