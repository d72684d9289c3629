//! `hyperv_resume_vm`: resumes a suspended (paused) virtual machine.
use vstd::prelude::*;
use crate::command::{
    holds, join, lemma_add_contains, lemma_push_contains, lemma_script_holds_argument, opt_quoted,
    quoted_arg, ArgList,
};
use crate::error::{invalid_input, script_outcome, ToolError};
use crate::json::{
    decode_records, describes_all, effective_output, parsed_json, read_printed, FromJson, JsonValue,
};
use crate::text::{is_blank, text_is_blank};

verus! {

/// The tool's name.
pub const NAME: &'static str = "hyperv_resume_vm";

/// What the tool does.
pub const DESCRIPTION: &'static str = "Resumes a suspended (paused) virtual machine.";

/// What the script runs after the cmdlet: the fields it prints, as JSON.
pub const SELECT: &'static str = " | Select-Object Name, Id, @{N='State';E={$_.State.ToString()}} | ConvertTo-Json -Compress -Depth 3";

/// What the tool is asked.
#[derive(Debug)]
pub struct ResumeVmInput {
    /// Name of the virtual machine to resume.
    pub name: String,
    /// Hyper-V host to target. Defaults to localhost.
    pub computer_name: Option<String>,
}

/// One record of the answer.
#[derive(Debug)]
pub struct ResumedVmInfo {
    pub name: String,
    pub id: String,
    pub state: String,
}

/// What the tool answers.
#[derive(Debug)]
pub struct ResumeVmOutput {
    pub vms: Vec<ResumedVmInfo>,
}

/// The tool.
#[derive(Default)]
pub struct ResumeVmTool;

impl FromJson for ResumedVmInfo {
    open spec fn describes(&self, item: JsonValue) -> bool {
        &&& self.name@ == item.text_or_empty("Name"@)
        &&& self.id@ == item.text_or_empty("Id"@)
        &&& self.state@ == item.text_or_empty("State"@)
    }

    fn from_json(item: &JsonValue) -> (r: Self) {
        ResumedVmInfo {
            name: item.text_or_empty_at("Name"),
            id: item.text_or_empty_at("Id"),
            state: item.text_or_empty_at("State"),
        }
    }
}

impl ResumeVmTool {
    /// The first problem with the request, as the message that reports it.
    pub open spec fn input_problem(input: ResumeVmInput) -> Option<Seq<char>> {
        if is_blank(input.name@) {
            Some("VM name must not be empty"@)
        } else {
            None
        }
    }

    /// The arguments of the cmdlet.
    pub open spec fn command_args(input: ResumeVmInput) -> Seq<Seq<char>> {
        seq!["Resume-VM"@, quoted_arg("-Name"@, input.name@)]
            + opt_quoted("-ComputerName"@, input.computer_name)
            + seq!["-Passthru"@]
    }

    /// The script that runs for a valid request.
    pub open spec fn script(input: ResumeVmInput) -> Seq<char> {
        join(Self::command_args(input), seq![' ']) + SELECT@
    }

    /// Checks the request and builds its script.
    pub fn build_script(input: &ResumeVmInput) -> (r: Result<String, ToolError>)
        ensures
            script_outcome(r, Self::input_problem(*input), Self::script(*input)),
    {
        if text_is_blank(input.name.as_str()) {
            return Err(invalid_input("VM name must not be empty"));
        }
        let mut args = ArgList::new("Resume-VM");
        args.push_quoted("-Name", input.name.as_str());
        args.push_opt_quoted("-ComputerName", &input.computer_name);
        args.push_literal("-Passthru");
        assert(args@ === Self::command_args(*input));
        Ok(args.to_command_with(SELECT))
    }

    /// Reads the answer from what the script printed: one entry per record.
    pub fn parse_output(raw: JsonValue) -> (r: ResumeVmOutput)
        ensures
            describes_all(r.vms@, raw.records()),
    {
        ResumeVmOutput { vms: decode_records(raw) }
    }

    /// Reads the answer from the text the script printed; blank text reads as
    /// an empty list, and text that is not JSON is a `Json` error.
    pub fn read_output(printed: &str) -> (r: Result<ResumeVmOutput, ToolError>)
        ensures
            match parsed_json(effective_output(printed@)) {
                Some(raw) => r matches Ok(out) && describes_all(out.vms@, raw.records()),
                None => r matches Err(ToolError::Json(_)),
            },
    {
        match read_printed(printed) {
            Ok(raw) => Ok(Self::parse_output(raw)),
            Err(e) => Err(e),
        }
    }

    /// Every value of a valid request reaches the script that `build_script`
    /// returns under its own flag: each flag below stands in the script
    /// followed by the value of the field of the same name.
    pub proof fn lemma_script_carries_each_value(input: ResumeVmInput)
        requires
            Self::input_problem(input) is None,
        ensures
            holds(Self::script(input), quoted_arg("-Name"@, input.name@)),
            input.computer_name matches Some(v) ==> holds(
                Self::script(input),
                quoted_arg("-ComputerName"@, v@),
            ),
    {
        Self::script_carries_name(input);
        Self::script_carries_computer_name(input);
    }

    proof fn script_carries_name(input: ResumeVmInput)
        ensures
            holds(Self::script(input), quoted_arg("-Name"@, input.name@)),
    {
        broadcast use lemma_add_contains, lemma_push_contains;

        let args = Self::command_args(input);
        let tail = SELECT@;
        lemma_script_holds_argument(args, tail, quoted_arg("-Name"@, input.name@));
    }

    proof fn script_carries_computer_name(input: ResumeVmInput)
        ensures
            input.computer_name matches Some(v) ==> holds(
                Self::script(input),
                quoted_arg("-ComputerName"@, v@),
            ),
    {
        broadcast use lemma_add_contains, lemma_push_contains;

        let args = Self::command_args(input);
        let tail = SELECT@;
        if let Some(v) = input.computer_name {
            lemma_script_holds_argument(args, tail, quoted_arg("-ComputerName"@, v@));
        }
    }

    /// Each entry of the answer reads the printed record at its place: every
    /// field holds the record's member of the matching name.
    pub proof fn lemma_answer_reads_each_record(raw: JsonValue, out: ResumeVmOutput)
        requires
            describes_all(out.vms@, raw.records()),
        ensures
            out.vms@.len() == raw.records().len(),
            forall|i: int|
                #![trigger out.vms@[i]]
                0 <= i < raw.records().len() ==> {
                    &&& out.vms@[i].name@ == raw.records()[i].text_or_empty("Name"@)
                    &&& out.vms@[i].id@ == raw.records()[i].text_or_empty("Id"@)
                    &&& out.vms@[i].state@ == raw.records()[i].text_or_empty("State"@)
                },
    {
        assert forall|i: int| 0 <= i < raw.records().len() implies {
            &&& out.vms@[i].name@ == raw.records()[i].text_or_empty("Name"@)
            &&& out.vms@[i].id@ == raw.records()[i].text_or_empty("Id"@)
            &&& out.vms@[i].state@ == raw.records()[i].text_or_empty("State"@)
        } by {
            assert(out.vms@[i].describes(raw.records()[i]));
        }
    }
}

} // verus!
