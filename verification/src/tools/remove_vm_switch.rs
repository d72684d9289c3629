//! `hyperv_remove_vm_switch`: deletes a virtual switch.
use vstd::prelude::*;
use crate::command::{
    holds, join, lemma_add_contains, lemma_push_contains, lemma_script_holds_argument, opt_quoted,
    quoted_arg, switch_arg, ArgList,
};
use crate::error::{invalid_input, is_invalid_input, script_outcome, ToolError};
use crate::json::{
    all_described, effective_output, first_problem, parsed_json, read_printed, try_decode_records,
    JsonValue, TryFromJson,
};
use crate::text::{is_blank, option_is_blank, text_is_blank};

verus! {

/// The tool's name.
pub const NAME: &'static str = "hyperv_remove_vm_switch";

/// What the tool does.
pub const DESCRIPTION: &'static str = "Deletes a virtual switch.";

/// What the script runs after the cmdlet: the fields it prints, as JSON.
pub const SELECT: &'static str = " | Select-Object Name, Id, @{N='SwitchType';E={$_.SwitchType.ToString()}}, NetAdapterInterfaceDescription, NetAdapterName, AllowManagementOS, ComputerName | ConvertTo-Json -Compress -Depth 3";

/// What the tool is asked.
#[derive(Debug)]
pub struct RemoveVmSwitchInput {
    /// Name of the virtual switch to remove.
    pub name: String,
    /// Hyper-V host to target. Defaults to localhost.
    pub computer_name: Option<String>,
    /// Suppress confirmation prompts.
    pub force: bool,
}

/// One record of the answer.
#[derive(Debug)]
pub struct RemovedVmSwitchInfo {
    pub name: String,
    pub id: String,
    pub switch_type: String,
    pub net_adapter_interface_description: String,
    pub net_adapter_name: String,
    pub allow_management_os: bool,
    pub computer_name: String,
}

/// What the tool answers.
#[derive(Debug)]
pub struct RemoveVmSwitchOutput {
    /// Virtual switches that were removed.
    pub removed: Vec<RemovedVmSwitchInfo>,
}

/// The tool.
#[derive(Default)]
pub struct RemoveVmSwitchTool;

impl TryFromJson for RemovedVmSwitchInfo {
    open spec fn problem(item: JsonValue) -> Option<Seq<char>> {
        if item.at("Name"@).str_value() is None {
            Some("missing Name in sidecar output"@)
        } else if item.at("Id"@).str_value() is None {
            Some("missing Id in sidecar output"@)
        } else if item.at("SwitchType"@).str_value() is None {
            Some("missing SwitchType in sidecar output"@)
        } else {
            None
        }
    }

    open spec fn describes(&self, item: JsonValue) -> bool {
        &&& item.at("Name"@).str_value() == Some(self.name@)
        &&& item.at("Id"@).str_value() == Some(self.id@)
        &&& item.at("SwitchType"@).str_value() == Some(self.switch_type@)
        &&& self.net_adapter_interface_description@
            == item.text_or_empty("NetAdapterInterfaceDescription"@)
        &&& self.net_adapter_name@ == item.text_or_empty("NetAdapterName"@)
        &&& self.allow_management_os == item.flag_or_false("AllowManagementOS"@)
        &&& self.computer_name@ == item.text_or_empty("ComputerName"@)
    }

    fn try_from_json(item: &JsonValue) -> (r: Result<Self, ToolError>) {
        let name = match item.field_text("Name") {
            Some(s) => s,
            None => return Err(invalid_input("missing Name in sidecar output")),
        };
        let id = match item.field_text("Id") {
            Some(s) => s,
            None => return Err(invalid_input("missing Id in sidecar output")),
        };
        let switch_type = match item.field_text("SwitchType") {
            Some(s) => s,
            None => return Err(invalid_input("missing SwitchType in sidecar output")),
        };
        Ok(RemovedVmSwitchInfo {
            name,
            id,
            switch_type,
            net_adapter_interface_description: item.text_or_empty_at(
                "NetAdapterInterfaceDescription",
            ),
            net_adapter_name: item.text_or_empty_at("NetAdapterName"),
            allow_management_os: item.flag_or_false_at("AllowManagementOS"),
            computer_name: item.text_or_empty_at("ComputerName"),
        })
    }
}

impl RemoveVmSwitchTool {
    /// The first problem with the request, as the message that reports it.
    pub open spec fn input_problem(input: RemoveVmSwitchInput) -> Option<Seq<char>> {
        if is_blank(input.name@) {
            Some("name must not be empty"@)
        } else if input.computer_name matches Some(s) && is_blank(s@) {
            Some("computerName must not be empty"@)
        } else {
            None
        }
    }

    /// The arguments of the cmdlet.
    pub open spec fn command_args(input: RemoveVmSwitchInput) -> Seq<Seq<char>> {
        seq!["Remove-VMSwitch"@, quoted_arg("-Name"@, input.name@)]
            + opt_quoted("-ComputerName"@, input.computer_name)
            + switch_arg("-Force"@, input.force)
            + seq!["-PassThru"@]
            + seq!["-Confirm:$false"@]
    }

    /// The script that runs for a valid request.
    pub open spec fn script(input: RemoveVmSwitchInput) -> Seq<char> {
        join(Self::command_args(input), seq![' ']) + SELECT@
    }

    /// Checks the request and builds its script.
    pub fn build_script(input: &RemoveVmSwitchInput) -> (r: Result<String, ToolError>)
        ensures
            script_outcome(r, Self::input_problem(*input), Self::script(*input)),
    {
        if text_is_blank(input.name.as_str()) {
            return Err(invalid_input("name must not be empty"));
        }
        if option_is_blank(&input.computer_name) {
            return Err(invalid_input("computerName must not be empty"));
        }
        let mut args = ArgList::new("Remove-VMSwitch");
        args.push_quoted("-Name", input.name.as_str());
        args.push_opt_quoted("-ComputerName", &input.computer_name);
        args.push_switch("-Force", input.force);
        args.push_literal("-PassThru");
        args.push_literal("-Confirm:$false");
        assert(args@ === Self::command_args(*input));
        Ok(args.to_command_with(SELECT))
    }

    /// Reads the answer from what the script printed: one entry per record,
    /// or the first record's missing field.
    pub fn parse_output(raw: JsonValue) -> (r: Result<RemoveVmSwitchOutput, ToolError>)
        ensures
            match first_problem::<RemovedVmSwitchInfo>(raw.records()) {
                Some(msg) => r matches Err(e) && is_invalid_input(e, msg),
                None => r matches Ok(out) && all_described(out.removed@, raw.records()),
            },
    {
        match try_decode_records::<RemovedVmSwitchInfo>(raw) {
            Ok(removed) => Ok(RemoveVmSwitchOutput { removed }),
            Err(e) => Err(e),
        }
    }

    /// Reads the answer from the text the script printed; blank text reads as
    /// an empty list, and text that is not JSON is a `Json` error.
    pub fn read_output(printed: &str) -> (r: Result<RemoveVmSwitchOutput, ToolError>)
        ensures
            match parsed_json(effective_output(printed@)) {
                Some(raw) => match first_problem::<RemovedVmSwitchInfo>(raw.records()) {
                    Some(msg) => r matches Err(e) && is_invalid_input(e, msg),
                    None => r matches Ok(out) && all_described(out.removed@, raw.records()),
                },
                None => r matches Err(ToolError::Json(_)),
            },
    {
        match read_printed(printed) {
            Ok(raw) => Self::parse_output(raw),
            Err(e) => Err(e),
        }
    }

    /// Every value of a valid request reaches the script that `build_script`
    /// returns under its own flag: each flag below stands in the script
    /// followed by the value of the field of the same name.
    pub proof fn lemma_script_carries_each_value(input: RemoveVmSwitchInput)
        requires
            Self::input_problem(input) is None,
        ensures
            holds(Self::script(input), quoted_arg("-Name"@, input.name@)),
            input.computer_name matches Some(v) ==> holds(
                Self::script(input),
                quoted_arg("-ComputerName"@, v@),
            ),
            input.force ==> holds(Self::script(input), "-Force"@),
    {
        Self::script_carries_name(input);
        Self::script_carries_computer_name(input);
        Self::script_carries_force(input);
    }

    proof fn script_carries_name(input: RemoveVmSwitchInput)
        ensures
            holds(Self::script(input), quoted_arg("-Name"@, input.name@)),
    {
        broadcast use lemma_add_contains, lemma_push_contains;

        let args = Self::command_args(input);
        let tail = SELECT@;
        lemma_script_holds_argument(args, tail, quoted_arg("-Name"@, input.name@));
    }

    proof fn script_carries_computer_name(input: RemoveVmSwitchInput)
        ensures
            input.computer_name matches Some(v) ==> holds(
                Self::script(input),
                quoted_arg("-ComputerName"@, v@),
            ),
    {
        broadcast use lemma_add_contains, lemma_push_contains;

        let args = Self::command_args(input);
        let tail = SELECT@;
        if let Some(v) = input.computer_name {
            lemma_script_holds_argument(args, tail, quoted_arg("-ComputerName"@, v@));
        }
    }

    proof fn script_carries_force(input: RemoveVmSwitchInput)
        ensures
            input.force ==> holds(Self::script(input), "-Force"@),
    {
        broadcast use lemma_add_contains, lemma_push_contains;

        let args = Self::command_args(input);
        let tail = SELECT@;
        if input.force {
            lemma_script_holds_argument(args, tail, "-Force"@);
        }
    }

    /// Each entry of the answer reads the printed record at its place: every
    /// field holds the record's member of the matching name.
    pub proof fn lemma_answer_reads_each_record(raw: JsonValue, out: RemoveVmSwitchOutput)
        requires
            all_described(out.removed@, raw.records()),
        ensures
            out.removed@.len() == raw.records().len(),
            forall|i: int|
                #![trigger out.removed@[i]]
                0 <= i < raw.records().len() ==> {
                    &&& raw.records()[i].at("Name"@).str_value() == Some(out.removed@[i].name@)
                    &&& raw.records()[i].at("Id"@).str_value() == Some(out.removed@[i].id@)
                    &&& raw.records()[i].at("SwitchType"@).str_value()
                        == Some(out.removed@[i].switch_type@)
                    &&& out.removed@[i].net_adapter_interface_description@
                        == raw.records()[i].text_or_empty("NetAdapterInterfaceDescription"@)
                    &&& out.removed@[i].net_adapter_name@
                        == raw.records()[i].text_or_empty("NetAdapterName"@)
                    &&& out.removed@[i].allow_management_os
                        == raw.records()[i].flag_or_false("AllowManagementOS"@)
                    &&& out.removed@[i].computer_name@
                        == raw.records()[i].text_or_empty("ComputerName"@)
                },
    {
        assert forall|i: int| 0 <= i < raw.records().len() implies {
            &&& raw.records()[i].at("Name"@).str_value() == Some(out.removed@[i].name@)
            &&& raw.records()[i].at("Id"@).str_value() == Some(out.removed@[i].id@)
            &&& raw.records()[i].at("SwitchType"@).str_value() == Some(out.removed@[i].switch_type@)
            &&& out.removed@[i].net_adapter_interface_description@
                == raw.records()[i].text_or_empty("NetAdapterInterfaceDescription"@)
            &&& out.removed@[i].net_adapter_name@
                == raw.records()[i].text_or_empty("NetAdapterName"@)
            &&& out.removed@[i].allow_management_os
                == raw.records()[i].flag_or_false("AllowManagementOS"@)
            &&& out.removed@[i].computer_name@ == raw.records()[i].text_or_empty("ComputerName"@)
        } by {
            assert(out.removed@[i].describes(raw.records()[i]));
        }
    }

    /// A request is valid only when it passes every check: none of the
    /// conditions that refuse a request holds of it.
    pub proof fn lemma_valid_request_passes_every_check(input: RemoveVmSwitchInput)
        requires
            Self::input_problem(input) is None,
        ensures
            !(is_blank(input.name@)),
            !(input.computer_name matches Some(s) && is_blank(s@)),
    {
    }
}

} // verus!
