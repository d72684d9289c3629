//! `hyperv_remove_vm_scsi_controller`: removes a SCSI controller from a virtual machine.
use vstd::prelude::*;
use crate::command::{
    holds, join, lemma_add_contains, lemma_push_contains, lemma_script_holds_argument, number_arg,
    opt_quoted, quoted_arg, ArgList,
};
use crate::error::{invalid_input, script_outcome, ToolError};
use crate::json::{
    decode_records, describes_all, effective_output, parsed_json, read_printed, FromJson, JsonValue,
};
use crate::text::{is_blank, option_is_blank, text_is_blank};

verus! {

/// The tool's name.
pub const NAME: &'static str = "hyperv_remove_vm_scsi_controller";

/// What the tool does.
pub const DESCRIPTION: &'static str = "Removes a SCSI controller from a virtual machine.";

/// What the script runs after the cmdlet: the fields it prints, as JSON.
pub const SELECT: &'static str = " | Select-Object Name, @{N='Id';E={$_.Id.ToString()}}, VMName, ControllerNumber, NumberOfQueues, QueueDepth, @{N='Model';E={$_.Model.ToString()}} | ConvertTo-Json -Compress -Depth 3";

/// What the tool is asked.
#[derive(Debug)]
pub struct RemoveVmScsiControllerInput {
    /// Name of the virtual machine whose SCSI controller is being removed.
    pub vm_name: String,
    /// Number of the SCSI controller to remove.
    pub controller_number: u32,
    /// Hyper-V host to target. Defaults to localhost.
    pub computer_name: Option<String>,
}

/// One record of the answer.
#[derive(Debug)]
pub struct RemovedScsiControllerInfo {
    pub name: String,
    pub id: String,
    pub vm_name: String,
    pub controller_number: u32,
    pub number_of_queues: u32,
    pub queue_depth: u32,
    pub model: String,
}

/// What the tool answers.
#[derive(Debug)]
pub struct RemoveVmScsiControllerOutput {
    /// SCSI controllers that were removed.
    pub removed: Vec<RemovedScsiControllerInfo>,
}

/// The tool.
#[derive(Default)]
pub struct RemoveVmScsiControllerTool;

impl FromJson for RemovedScsiControllerInfo {
    open spec fn describes(&self, item: JsonValue) -> bool {
        &&& self.name@ == item.text_or_empty("Name"@)
        &&& self.id@ == item.text_or_empty("Id"@)
        &&& self.vm_name@ == item.text_or_empty("VMName"@)
        &&& self.controller_number == item.u64_or_zero("ControllerNumber"@) as u32
        &&& self.number_of_queues == item.u64_or_zero("NumberOfQueues"@) as u32
        &&& self.queue_depth == item.u64_or_zero("QueueDepth"@) as u32
        &&& self.model@ == item.text_or_empty("Model"@)
    }

    fn from_json(item: &JsonValue) -> (r: Self) {
        RemovedScsiControllerInfo {
            name: item.text_or_empty_at("Name"),
            id: item.text_or_empty_at("Id"),
            vm_name: item.text_or_empty_at("VMName"),
            controller_number: item.u64_or_zero_at("ControllerNumber") as u32,
            number_of_queues: item.u64_or_zero_at("NumberOfQueues") as u32,
            queue_depth: item.u64_or_zero_at("QueueDepth") as u32,
            model: item.text_or_empty_at("Model"),
        }
    }
}

impl RemoveVmScsiControllerTool {
    /// The first problem with the request, as the message that reports it.
    pub open spec fn input_problem(input: RemoveVmScsiControllerInput) -> Option<Seq<char>> {
        if is_blank(input.vm_name@) {
            Some("vmName must not be empty"@)
        } else if input.computer_name matches Some(s) && is_blank(s@) {
            Some("computerName must not be empty"@)
        } else {
            None
        }
    }

    /// The arguments of the cmdlet.
    pub open spec fn command_args(input: RemoveVmScsiControllerInput) -> Seq<Seq<char>> {
        seq![
            "Remove-VMScsiController"@,
            quoted_arg("-VMName"@, input.vm_name@),
            number_arg("-ControllerNumber"@, input.controller_number as int),
        ]
            + opt_quoted("-ComputerName"@, input.computer_name)
            + seq!["-Confirm:$false"@]
    }

    /// The script that runs for a valid request.
    pub open spec fn script(input: RemoveVmScsiControllerInput) -> Seq<char> {
        join(Self::command_args(input), seq![' ']) + SELECT@
    }

    /// Checks the request and builds its script.
    pub fn build_script(input: &RemoveVmScsiControllerInput) -> (r: Result<String, ToolError>)
        ensures
            script_outcome(r, Self::input_problem(*input), Self::script(*input)),
    {
        if text_is_blank(input.vm_name.as_str()) {
            return Err(invalid_input("vmName must not be empty"));
        }
        if option_is_blank(&input.computer_name) {
            return Err(invalid_input("computerName must not be empty"));
        }
        let mut args = ArgList::new("Remove-VMScsiController");
        args.push_quoted("-VMName", input.vm_name.as_str());
        args.push_unsigned("-ControllerNumber", input.controller_number as u64);
        assert(args@ =~= seq![
            "Remove-VMScsiController"@,
            quoted_arg("-VMName"@, input.vm_name@),
            number_arg("-ControllerNumber"@, input.controller_number as int),
        ]);
        args.push_opt_quoted("-ComputerName", &input.computer_name);
        args.push_literal("-Confirm:$false");
        assert(args@ === Self::command_args(*input));
        Ok(args.to_command_with(SELECT))
    }

    /// Reads the answer from what the script printed: one entry per record.
    pub fn parse_output(raw: JsonValue) -> (r: RemoveVmScsiControllerOutput)
        ensures
            describes_all(r.removed@, raw.records()),
    {
        RemoveVmScsiControllerOutput { removed: decode_records(raw) }
    }

    /// Reads the answer from the text the script printed; blank text reads as
    /// an empty list, and text that is not JSON is a `Json` error.
    pub fn read_output(printed: &str) -> (r: Result<RemoveVmScsiControllerOutput, ToolError>)
        ensures
            match parsed_json(effective_output(printed@)) {
                Some(raw) => r matches Ok(out) && describes_all(out.removed@, raw.records()),
                None => r matches Err(ToolError::Json(_)),
            },
    {
        match read_printed(printed) {
            Ok(raw) => Ok(Self::parse_output(raw)),
            Err(e) => Err(e),
        }
    }

    /// Every value of a valid request reaches the script that `build_script`
    /// returns under its own flag: each flag below stands in the script
    /// followed by the value of the field of the same name.
    pub proof fn lemma_script_carries_each_value(input: RemoveVmScsiControllerInput)
        requires
            Self::input_problem(input) is None,
        ensures
            holds(Self::script(input), quoted_arg("-VMName"@, input.vm_name@)),
            holds(
                Self::script(input),
                number_arg("-ControllerNumber"@, input.controller_number as int),
            ),
            input.computer_name matches Some(v) ==> holds(
                Self::script(input),
                quoted_arg("-ComputerName"@, v@),
            ),
    {
        Self::script_carries_vm_name(input);
        Self::script_carries_controller_number(input);
        Self::script_carries_computer_name(input);
    }

    proof fn script_carries_vm_name(input: RemoveVmScsiControllerInput)
        ensures
            holds(Self::script(input), quoted_arg("-VMName"@, input.vm_name@)),
    {
        broadcast use lemma_add_contains, lemma_push_contains;

        let args = Self::command_args(input);
        let tail = SELECT@;
        lemma_script_holds_argument(args, tail, quoted_arg("-VMName"@, input.vm_name@));
    }

    proof fn script_carries_controller_number(input: RemoveVmScsiControllerInput)
        ensures
            holds(
                Self::script(input),
                number_arg("-ControllerNumber"@, input.controller_number as int),
            ),
    {
        broadcast use lemma_add_contains, lemma_push_contains;

        let args = Self::command_args(input);
        let tail = SELECT@;
        lemma_script_holds_argument(
            args,
            tail,
            number_arg("-ControllerNumber"@, input.controller_number as int),
        );
    }

    proof fn script_carries_computer_name(input: RemoveVmScsiControllerInput)
        ensures
            input.computer_name matches Some(v) ==> holds(
                Self::script(input),
                quoted_arg("-ComputerName"@, v@),
            ),
    {
        broadcast use lemma_add_contains, lemma_push_contains;

        let args = Self::command_args(input);
        let tail = SELECT@;
        if let Some(v) = input.computer_name {
            lemma_script_holds_argument(args, tail, quoted_arg("-ComputerName"@, v@));
        }
    }

    /// Each entry of the answer reads the printed record at its place: every
    /// field holds the record's member of the matching name.
    pub proof fn lemma_answer_reads_each_record(raw: JsonValue, out: RemoveVmScsiControllerOutput)
        requires
            describes_all(out.removed@, raw.records()),
        ensures
            out.removed@.len() == raw.records().len(),
            forall|i: int|
                #![trigger out.removed@[i]]
                0 <= i < raw.records().len() ==> {
                    &&& out.removed@[i].name@ == raw.records()[i].text_or_empty("Name"@)
                    &&& out.removed@[i].id@ == raw.records()[i].text_or_empty("Id"@)
                    &&& out.removed@[i].vm_name@ == raw.records()[i].text_or_empty("VMName"@)
                    &&& out.removed@[i].controller_number
                        == raw.records()[i].u64_or_zero("ControllerNumber"@) as u32
                    &&& out.removed@[i].number_of_queues
                        == raw.records()[i].u64_or_zero("NumberOfQueues"@) as u32
                    &&& out.removed@[i].queue_depth
                        == raw.records()[i].u64_or_zero("QueueDepth"@) as u32
                    &&& out.removed@[i].model@ == raw.records()[i].text_or_empty("Model"@)
                },
    {
        assert forall|i: int| 0 <= i < raw.records().len() implies {
            &&& out.removed@[i].name@ == raw.records()[i].text_or_empty("Name"@)
            &&& out.removed@[i].id@ == raw.records()[i].text_or_empty("Id"@)
            &&& out.removed@[i].vm_name@ == raw.records()[i].text_or_empty("VMName"@)
            &&& out.removed@[i].controller_number
                == raw.records()[i].u64_or_zero("ControllerNumber"@) as u32
            &&& out.removed@[i].number_of_queues
                == raw.records()[i].u64_or_zero("NumberOfQueues"@) as u32
            &&& out.removed@[i].queue_depth == raw.records()[i].u64_or_zero("QueueDepth"@) as u32
            &&& out.removed@[i].model@ == raw.records()[i].text_or_empty("Model"@)
        } by {
            assert(out.removed@[i].describes(raw.records()[i]));
        }
    }

    /// A request is valid only when it passes every check: none of the
    /// conditions that refuse a request holds of it.
    pub proof fn lemma_valid_request_passes_every_check(input: RemoveVmScsiControllerInput)
        requires
            Self::input_problem(input) is None,
        ensures
            !(is_blank(input.vm_name@)),
            !(input.computer_name matches Some(s) && is_blank(s@)),
    {
    }
}

} // verus!
