//! `hyperv_rename_vm_switch`: renames a virtual switch.
use vstd::prelude::*;
use crate::command::{
    holds, join, lemma_add_contains, lemma_push_contains, lemma_script_holds_argument, opt_quoted,
    quoted_arg, ArgList,
};
use crate::error::{invalid_input, script_outcome, ToolError};
use crate::json::{
    decode_records, describes_all, effective_output, parsed_json, read_printed, FromJson, JsonValue,
};
use crate::text::{is_blank, option_is_blank, text_is_blank};

verus! {

/// The tool's name.
pub const NAME: &'static str = "hyperv_rename_vm_switch";

/// What the tool does.
pub const DESCRIPTION: &'static str = "Renames a virtual switch.";

/// What the script runs after the cmdlet: the fields it prints, as JSON.
pub const SELECT: &'static str = " | Select-Object Name, Id, @{N='SwitchType';E={$_.SwitchType.ToString()}}, @{N='Status';E={$_.Status.ToString()}} | ConvertTo-Json -Compress -Depth 3";

/// What the tool is asked.
#[derive(Debug)]
pub struct RenameVmSwitchInput {
    /// Name of the virtual switch to rename.
    pub name: String,
    /// New name for the virtual switch.
    pub new_name: String,
    /// Hyper-V host to target. Defaults to localhost.
    pub computer_name: Option<String>,
}

/// One record of the answer.
#[derive(Debug)]
pub struct VMSwitchInfo {
    pub name: String,
    pub id: String,
    pub switch_type: String,
    pub status: String,
}

/// What the tool answers.
#[derive(Debug)]
pub struct RenameVmSwitchOutput {
    pub switches: Vec<VMSwitchInfo>,
}

/// The tool.
#[derive(Default)]
pub struct RenameVmSwitchTool;

impl FromJson for VMSwitchInfo {
    open spec fn describes(&self, item: JsonValue) -> bool {
        &&& self.name@ == item.text_or_empty("Name"@)
        &&& self.id@ == item.text_or_empty("Id"@)
        &&& self.switch_type@ == item.text_or_empty("SwitchType"@)
        &&& self.status@ == item.text_or_empty("Status"@)
    }

    fn from_json(item: &JsonValue) -> (r: Self) {
        VMSwitchInfo {
            name: item.text_or_empty_at("Name"),
            id: item.text_or_empty_at("Id"),
            switch_type: item.text_or_empty_at("SwitchType"),
            status: item.text_or_empty_at("Status"),
        }
    }
}

impl RenameVmSwitchTool {
    /// The first problem with the request, as the message that reports it.
    pub open spec fn input_problem(input: RenameVmSwitchInput) -> Option<Seq<char>> {
        if is_blank(input.name@) {
            Some("Switch name must not be empty"@)
        } else if is_blank(input.new_name@) {
            Some("New name must not be empty"@)
        } else if input.computer_name matches Some(s) && is_blank(s@) {
            Some("ComputerName must not be empty"@)
        } else {
            None
        }
    }

    /// The arguments of the cmdlet.
    pub open spec fn command_args(input: RenameVmSwitchInput) -> Seq<Seq<char>> {
        seq![
            "Rename-VMSwitch"@,
            quoted_arg("-Name"@, input.name@),
            quoted_arg("-NewName"@, input.new_name@),
        ]
            + opt_quoted("-ComputerName"@, input.computer_name)
    }

    /// The script that runs for a valid request.
    pub open spec fn script(input: RenameVmSwitchInput) -> Seq<char> {
        join(Self::command_args(input), seq![' ']) + SELECT@
    }

    /// Checks the request and builds its script.
    pub fn build_script(input: &RenameVmSwitchInput) -> (r: Result<String, ToolError>)
        ensures
            script_outcome(r, Self::input_problem(*input), Self::script(*input)),
    {
        if text_is_blank(input.name.as_str()) {
            return Err(invalid_input("Switch name must not be empty"));
        }
        if text_is_blank(input.new_name.as_str()) {
            return Err(invalid_input("New name must not be empty"));
        }
        if option_is_blank(&input.computer_name) {
            return Err(invalid_input("ComputerName must not be empty"));
        }
        let mut args = ArgList::new("Rename-VMSwitch");
        args.push_quoted("-Name", input.name.as_str());
        args.push_quoted("-NewName", input.new_name.as_str());
        assert(args@ =~= seq![
            "Rename-VMSwitch"@,
            quoted_arg("-Name"@, input.name@),
            quoted_arg("-NewName"@, input.new_name@),
        ]);
        args.push_opt_quoted("-ComputerName", &input.computer_name);
        assert(args@ === Self::command_args(*input));
        Ok(args.to_command_with(SELECT))
    }

    /// Reads the answer from what the script printed: one entry per record.
    pub fn parse_output(raw: JsonValue) -> (r: RenameVmSwitchOutput)
        ensures
            describes_all(r.switches@, raw.records()),
    {
        RenameVmSwitchOutput { switches: decode_records(raw) }
    }

    /// Reads the answer from the text the script printed; blank text reads as
    /// an empty list, and text that is not JSON is a `Json` error.
    pub fn read_output(printed: &str) -> (r: Result<RenameVmSwitchOutput, ToolError>)
        ensures
            match parsed_json(effective_output(printed@)) {
                Some(raw) => r matches Ok(out) && describes_all(out.switches@, raw.records()),
                None => r matches Err(ToolError::Json(_)),
            },
    {
        match read_printed(printed) {
            Ok(raw) => Ok(Self::parse_output(raw)),
            Err(e) => Err(e),
        }
    }

    /// Every value of a valid request reaches the script that `build_script`
    /// returns under its own flag: each flag below stands in the script
    /// followed by the value of the field of the same name.
    pub proof fn lemma_script_carries_each_value(input: RenameVmSwitchInput)
        requires
            Self::input_problem(input) is None,
        ensures
            holds(Self::script(input), quoted_arg("-Name"@, input.name@)),
            holds(Self::script(input), quoted_arg("-NewName"@, input.new_name@)),
            input.computer_name matches Some(v) ==> holds(
                Self::script(input),
                quoted_arg("-ComputerName"@, v@),
            ),
    {
        Self::script_carries_name(input);
        Self::script_carries_new_name(input);
        Self::script_carries_computer_name(input);
    }

    proof fn script_carries_name(input: RenameVmSwitchInput)
        ensures
            holds(Self::script(input), quoted_arg("-Name"@, input.name@)),
    {
        broadcast use lemma_add_contains, lemma_push_contains;

        let args = Self::command_args(input);
        let tail = SELECT@;
        lemma_script_holds_argument(args, tail, quoted_arg("-Name"@, input.name@));
    }

    proof fn script_carries_new_name(input: RenameVmSwitchInput)
        ensures
            holds(Self::script(input), quoted_arg("-NewName"@, input.new_name@)),
    {
        broadcast use lemma_add_contains, lemma_push_contains;

        let args = Self::command_args(input);
        let tail = SELECT@;
        lemma_script_holds_argument(args, tail, quoted_arg("-NewName"@, input.new_name@));
    }

    proof fn script_carries_computer_name(input: RenameVmSwitchInput)
        ensures
            input.computer_name matches Some(v) ==> holds(
                Self::script(input),
                quoted_arg("-ComputerName"@, v@),
            ),
    {
        broadcast use lemma_add_contains, lemma_push_contains;

        let args = Self::command_args(input);
        let tail = SELECT@;
        if let Some(v) = input.computer_name {
            lemma_script_holds_argument(args, tail, quoted_arg("-ComputerName"@, v@));
        }
    }

    /// Each entry of the answer reads the printed record at its place: every
    /// field holds the record's member of the matching name.
    pub proof fn lemma_answer_reads_each_record(raw: JsonValue, out: RenameVmSwitchOutput)
        requires
            describes_all(out.switches@, raw.records()),
        ensures
            out.switches@.len() == raw.records().len(),
            forall|i: int|
                #![trigger out.switches@[i]]
                0 <= i < raw.records().len() ==> {
                    &&& out.switches@[i].name@ == raw.records()[i].text_or_empty("Name"@)
                    &&& out.switches@[i].id@ == raw.records()[i].text_or_empty("Id"@)
                    &&& out.switches@[i].switch_type@
                        == raw.records()[i].text_or_empty("SwitchType"@)
                    &&& out.switches@[i].status@ == raw.records()[i].text_or_empty("Status"@)
                },
    {
        assert forall|i: int| 0 <= i < raw.records().len() implies {
            &&& out.switches@[i].name@ == raw.records()[i].text_or_empty("Name"@)
            &&& out.switches@[i].id@ == raw.records()[i].text_or_empty("Id"@)
            &&& out.switches@[i].switch_type@ == raw.records()[i].text_or_empty("SwitchType"@)
            &&& out.switches@[i].status@ == raw.records()[i].text_or_empty("Status"@)
        } by {
            assert(out.switches@[i].describes(raw.records()[i]));
        }
    }

    /// A request is valid only when it passes every check: none of the
    /// conditions that refuse a request holds of it.
    pub proof fn lemma_valid_request_passes_every_check(input: RenameVmSwitchInput)
        requires
            Self::input_problem(input) is None,
        ensures
            !(is_blank(input.name@)),
            !(is_blank(input.new_name@)),
            !(input.computer_name matches Some(s) && is_blank(s@)),
    {
    }
}

} // verus!
