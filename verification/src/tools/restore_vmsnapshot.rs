//! `hyperv_restore_vmsnapshot`: restores a virtual machine checkpoint.
use vstd::prelude::*;
use crate::command::{
    holds, join, lemma_add_contains, lemma_push_contains, lemma_script_holds_argument, opt_quoted,
    quoted_arg, ArgList,
};
use crate::error::{invalid_input, is_invalid_input, script_outcome, ToolError};
use crate::json::{
    all_described, effective_output, first_problem, parsed_json, read_printed, try_decode_records,
    JsonValue, TryFromJson,
};
use crate::text::{is_blank, option_is_blank, text_is_blank};

verus! {

/// The tool's name.
pub const NAME: &'static str = "hyperv_restore_vmsnapshot";

/// What the tool does.
pub const DESCRIPTION: &'static str = "Restores a virtual machine checkpoint.";

/// What the script runs after the cmdlet: the fields it prints, as JSON.
pub const SELECT: &'static str = " | Select-Object Name, Id, @{N='State';E={$_.State.ToString()}}, @{N='Uptime';E={$_.Uptime.ToString()}}, ProcessorCount, MemoryAssigned | ConvertTo-Json -Compress -Depth 3";

/// What the tool is asked.
#[derive(Debug)]
pub struct RestoreVmsnapshotInput {
    /// Name of the checkpoint to restore.
    pub snapshot_name: String,
    /// Name of the virtual machine whose checkpoint is being restored.
    pub vm_name: String,
    /// Hyper-V host to target. Defaults to localhost.
    pub computer_name: Option<String>,
}

/// One record of the answer.
#[derive(Debug)]
pub struct RestoredVmInfo {
    pub name: String,
    pub id: String,
    pub state: String,
    pub uptime: String,
    pub processor_count: u32,
    pub memory_assigned: u64,
}

/// What the tool answers.
#[derive(Debug)]
pub struct RestoreVmsnapshotOutput {
    /// Virtual machines that were restored to the checkpoint.
    pub vms: Vec<RestoredVmInfo>,
}

/// The tool.
#[derive(Default)]
pub struct RestoreVmsnapshotTool;

impl TryFromJson for RestoredVmInfo {
    open spec fn problem(item: JsonValue) -> Option<Seq<char>> {
        if item.at("Name"@).str_value() is None {
            Some("missing Name in sidecar output"@)
        } else if item.at("Id"@).str_value() is None {
            Some("missing Id in sidecar output"@)
        } else if item.at("State"@).str_value() is None {
            Some("missing State in sidecar output"@)
        } else {
            None
        }
    }

    open spec fn describes(&self, item: JsonValue) -> bool {
        &&& item.at("Name"@).str_value() == Some(self.name@)
        &&& item.at("Id"@).str_value() == Some(self.id@)
        &&& item.at("State"@).str_value() == Some(self.state@)
        &&& self.uptime@ == item.text_or_empty("Uptime"@)
        &&& self.processor_count == item.u64_or_zero("ProcessorCount"@) as u32
        &&& self.memory_assigned == item.u64_or_zero("MemoryAssigned"@)
    }

    fn try_from_json(item: &JsonValue) -> (r: Result<Self, ToolError>) {
        let name = match item.field_text("Name") {
            Some(s) => s,
            None => return Err(invalid_input("missing Name in sidecar output")),
        };
        let id = match item.field_text("Id") {
            Some(s) => s,
            None => return Err(invalid_input("missing Id in sidecar output")),
        };
        let state = match item.field_text("State") {
            Some(s) => s,
            None => return Err(invalid_input("missing State in sidecar output")),
        };
        Ok(RestoredVmInfo {
            name,
            id,
            state,
            uptime: item.text_or_empty_at("Uptime"),
            processor_count: item.u64_or_zero_at("ProcessorCount") as u32,
            memory_assigned: item.u64_or_zero_at("MemoryAssigned"),
        })
    }
}

impl RestoreVmsnapshotTool {
    /// The first problem with the request, as the message that reports it.
    pub open spec fn input_problem(input: RestoreVmsnapshotInput) -> Option<Seq<char>> {
        if is_blank(input.snapshot_name@) {
            Some("snapshotName must not be empty"@)
        } else if is_blank(input.vm_name@) {
            Some("vmName must not be empty"@)
        } else if input.computer_name matches Some(s) && is_blank(s@) {
            Some("computerName must not be empty"@)
        } else {
            None
        }
    }

    /// The arguments of the cmdlet.
    pub open spec fn command_args(input: RestoreVmsnapshotInput) -> Seq<Seq<char>> {
        seq![
            "Restore-VMSnapshot"@,
            quoted_arg("-Name"@, input.snapshot_name@),
            quoted_arg("-VMName"@, input.vm_name@),
        ]
            + opt_quoted("-ComputerName"@, input.computer_name)
            + seq!["-Confirm:$false"@]
            + seq!["-PassThru"@]
    }

    /// The script that runs for a valid request.
    pub open spec fn script(input: RestoreVmsnapshotInput) -> Seq<char> {
        join(Self::command_args(input), seq![' ']) + SELECT@
    }

    /// Checks the request and builds its script.
    pub fn build_script(input: &RestoreVmsnapshotInput) -> (r: Result<String, ToolError>)
        ensures
            script_outcome(r, Self::input_problem(*input), Self::script(*input)),
    {
        if text_is_blank(input.snapshot_name.as_str()) {
            return Err(invalid_input("snapshotName must not be empty"));
        }
        if text_is_blank(input.vm_name.as_str()) {
            return Err(invalid_input("vmName must not be empty"));
        }
        if option_is_blank(&input.computer_name) {
            return Err(invalid_input("computerName must not be empty"));
        }
        let mut args = ArgList::new("Restore-VMSnapshot");
        args.push_quoted("-Name", input.snapshot_name.as_str());
        args.push_quoted("-VMName", input.vm_name.as_str());
        assert(args@ =~= seq![
            "Restore-VMSnapshot"@,
            quoted_arg("-Name"@, input.snapshot_name@),
            quoted_arg("-VMName"@, input.vm_name@),
        ]);
        args.push_opt_quoted("-ComputerName", &input.computer_name);
        args.push_literal("-Confirm:$false");
        args.push_literal("-PassThru");
        assert(args@ === Self::command_args(*input));
        Ok(args.to_command_with(SELECT))
    }

    /// Reads the answer from what the script printed: one entry per record,
    /// or the first record's missing field.
    pub fn parse_output(raw: JsonValue) -> (r: Result<RestoreVmsnapshotOutput, ToolError>)
        ensures
            match first_problem::<RestoredVmInfo>(raw.records()) {
                Some(msg) => r matches Err(e) && is_invalid_input(e, msg),
                None => r matches Ok(out) && all_described(out.vms@, raw.records()),
            },
    {
        match try_decode_records::<RestoredVmInfo>(raw) {
            Ok(vms) => Ok(RestoreVmsnapshotOutput { vms }),
            Err(e) => Err(e),
        }
    }

    /// Reads the answer from the text the script printed; blank text reads as
    /// an empty list, and text that is not JSON is a `Json` error.
    pub fn read_output(printed: &str) -> (r: Result<RestoreVmsnapshotOutput, ToolError>)
        ensures
            match parsed_json(effective_output(printed@)) {
                Some(raw) => match first_problem::<RestoredVmInfo>(raw.records()) {
                    Some(msg) => r matches Err(e) && is_invalid_input(e, msg),
                    None => r matches Ok(out) && all_described(out.vms@, raw.records()),
                },
                None => r matches Err(ToolError::Json(_)),
            },
    {
        match read_printed(printed) {
            Ok(raw) => Self::parse_output(raw),
            Err(e) => Err(e),
        }
    }

    /// Every value of a valid request reaches the script that `build_script`
    /// returns under its own flag: each flag below stands in the script
    /// followed by the value of the field of the same name.
    pub proof fn lemma_script_carries_each_value(input: RestoreVmsnapshotInput)
        requires
            Self::input_problem(input) is None,
        ensures
            holds(Self::script(input), quoted_arg("-Name"@, input.snapshot_name@)),
            holds(Self::script(input), quoted_arg("-VMName"@, input.vm_name@)),
            input.computer_name matches Some(v) ==> holds(
                Self::script(input),
                quoted_arg("-ComputerName"@, v@),
            ),
    {
        Self::script_carries_snapshot_name(input);
        Self::script_carries_vm_name(input);
        Self::script_carries_computer_name(input);
    }

    proof fn script_carries_snapshot_name(input: RestoreVmsnapshotInput)
        ensures
            holds(Self::script(input), quoted_arg("-Name"@, input.snapshot_name@)),
    {
        broadcast use lemma_add_contains, lemma_push_contains;

        let args = Self::command_args(input);
        let tail = SELECT@;
        lemma_script_holds_argument(args, tail, quoted_arg("-Name"@, input.snapshot_name@));
    }

    proof fn script_carries_vm_name(input: RestoreVmsnapshotInput)
        ensures
            holds(Self::script(input), quoted_arg("-VMName"@, input.vm_name@)),
    {
        broadcast use lemma_add_contains, lemma_push_contains;

        let args = Self::command_args(input);
        let tail = SELECT@;
        lemma_script_holds_argument(args, tail, quoted_arg("-VMName"@, input.vm_name@));
    }

    proof fn script_carries_computer_name(input: RestoreVmsnapshotInput)
        ensures
            input.computer_name matches Some(v) ==> holds(
                Self::script(input),
                quoted_arg("-ComputerName"@, v@),
            ),
    {
        broadcast use lemma_add_contains, lemma_push_contains;

        let args = Self::command_args(input);
        let tail = SELECT@;
        if let Some(v) = input.computer_name {
            lemma_script_holds_argument(args, tail, quoted_arg("-ComputerName"@, v@));
        }
    }

    /// Each entry of the answer reads the printed record at its place: every
    /// field holds the record's member of the matching name.
    pub proof fn lemma_answer_reads_each_record(raw: JsonValue, out: RestoreVmsnapshotOutput)
        requires
            all_described(out.vms@, raw.records()),
        ensures
            out.vms@.len() == raw.records().len(),
            forall|i: int|
                #![trigger out.vms@[i]]
                0 <= i < raw.records().len() ==> {
                    &&& raw.records()[i].at("Name"@).str_value() == Some(out.vms@[i].name@)
                    &&& raw.records()[i].at("Id"@).str_value() == Some(out.vms@[i].id@)
                    &&& raw.records()[i].at("State"@).str_value() == Some(out.vms@[i].state@)
                    &&& out.vms@[i].uptime@ == raw.records()[i].text_or_empty("Uptime"@)
                    &&& out.vms@[i].processor_count
                        == raw.records()[i].u64_or_zero("ProcessorCount"@) as u32
                    &&& out.vms@[i].memory_assigned
                        == raw.records()[i].u64_or_zero("MemoryAssigned"@)
                },
    {
        assert forall|i: int| 0 <= i < raw.records().len() implies {
            &&& raw.records()[i].at("Name"@).str_value() == Some(out.vms@[i].name@)
            &&& raw.records()[i].at("Id"@).str_value() == Some(out.vms@[i].id@)
            &&& raw.records()[i].at("State"@).str_value() == Some(out.vms@[i].state@)
            &&& out.vms@[i].uptime@ == raw.records()[i].text_or_empty("Uptime"@)
            &&& out.vms@[i].processor_count
                == raw.records()[i].u64_or_zero("ProcessorCount"@) as u32
            &&& out.vms@[i].memory_assigned == raw.records()[i].u64_or_zero("MemoryAssigned"@)
        } by {
            assert(out.vms@[i].describes(raw.records()[i]));
        }
    }

    /// A request is valid only when it passes every check: none of the
    /// conditions that refuse a request holds of it.
    pub proof fn lemma_valid_request_passes_every_check(input: RestoreVmsnapshotInput)
        requires
            Self::input_problem(input) is None,
        ensures
            !(is_blank(input.snapshot_name@)),
            !(is_blank(input.vm_name@)),
            !(input.computer_name matches Some(s) && is_blank(s@)),
    {
    }
}

} // verus!
