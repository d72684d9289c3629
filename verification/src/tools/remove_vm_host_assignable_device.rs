//! `hyperv_remove_vm_host_assignable_device`: removes a device assigned to a virtual machine (VM) host.
use vstd::prelude::*;
use crate::command::{
    holds, join, lemma_add_contains, lemma_push_contains, lemma_script_holds_argument, opt_quoted,
    opt_trimmed_quoted, quoted_arg, switch_arg, ArgList,
};
use crate::error::{invalid_input, script_outcome, ToolError};
use crate::json::{
    decode_records, describes_all, effective_output, parsed_json, read_printed, FromJson, JsonValue,
};
use crate::text::{
    is_blank, is_provided, option_is_blank, option_is_provided, text_is_blank, trim, trimmed,
};

verus! {

/// The tool's name.
pub const NAME: &'static str = "hyperv_remove_vm_host_assignable_device";

/// What the tool does.
pub const DESCRIPTION: &'static str = "Removes a device assigned to a virtual machine (VM) host.";

/// What the script runs after the cmdlet: the fields it prints, as JSON.
pub const SELECT: &'static str = " | Select-Object InstancePath, LocationPath | ConvertTo-Json -Compress -Depth 3";

/// What the tool is asked.
#[derive(Debug)]
pub struct RemoveVmHostAssignableDeviceInput {
    /// Name of the resource pool from which to remove the assignable device.
    pub resource_pool_name: String,
    /// Device instance path in the host machine.
    pub instance_path: Option<String>,
    /// Location path to the assignable device.
    pub location_path: Option<String>,
    /// Hyper-V host to target. Defaults to localhost.
    pub computer_name: Option<String>,
    /// Suppress confirmation prompts.
    pub force: bool,
}

/// One record of the answer.
#[derive(Debug)]
pub struct RemovedHostAssignableDeviceInfo {
    pub instance_path: String,
    pub location_path: String,
}

/// What the tool answers.
#[derive(Debug)]
pub struct RemoveVmHostAssignableDeviceOutput {
    /// Assignable devices that were removed from the VM host.
    pub removed: Vec<RemovedHostAssignableDeviceInfo>,
}

/// The tool.
#[derive(Default)]
pub struct RemoveVmHostAssignableDeviceTool;

impl FromJson for RemovedHostAssignableDeviceInfo {
    open spec fn describes(&self, item: JsonValue) -> bool {
        &&& self.instance_path@ == item.text_or_empty("InstancePath"@)
        &&& self.location_path@ == item.text_or_empty("LocationPath"@)
    }

    fn from_json(item: &JsonValue) -> (r: Self) {
        RemovedHostAssignableDeviceInfo {
            instance_path: item.text_or_empty_at("InstancePath"),
            location_path: item.text_or_empty_at("LocationPath"),
        }
    }
}

impl RemoveVmHostAssignableDeviceTool {
    /// The first problem with the request, as the message that reports it.
    pub open spec fn input_problem(input: RemoveVmHostAssignableDeviceInput) -> Option<Seq<char>> {
        if is_blank(input.resource_pool_name@) {
            Some("resourcePoolName must not be empty"@)
        } else if !is_provided(input.instance_path) && !is_provided(input.location_path) {
            Some("either instancePath or locationPath must be provided"@)
        } else if input.computer_name matches Some(s) && is_blank(s@) {
            Some("computerName must not be empty"@)
        } else {
            None
        }
    }

    /// The arguments of the cmdlet.
    pub open spec fn command_args(input: RemoveVmHostAssignableDeviceInput) -> Seq<Seq<char>> {
        seq![
            "Remove-VMHostAssignableDevice"@,
            quoted_arg("-ResourcePoolName"@, trim(input.resource_pool_name@)),
        ]
            + opt_trimmed_quoted("-InstancePath"@, input.instance_path)
            + opt_trimmed_quoted("-LocationPath"@, input.location_path)
            + opt_quoted("-ComputerName"@, input.computer_name)
            + switch_arg("-Force"@, input.force)
            + seq!["-Confirm:$false"@]
    }

    /// The script that runs for a valid request.
    pub open spec fn script(input: RemoveVmHostAssignableDeviceInput) -> Seq<char> {
        join(Self::command_args(input), seq![' ']) + SELECT@
    }

    /// Checks the request and builds its script.
    pub fn build_script(input: &RemoveVmHostAssignableDeviceInput) -> (r: Result<String, ToolError>)
        ensures
            script_outcome(r, Self::input_problem(*input), Self::script(*input)),
    {
        let resource_pool_name = trimmed(input.resource_pool_name.as_str());
        if text_is_blank(input.resource_pool_name.as_str()) {
            return Err(invalid_input("resourcePoolName must not be empty"));
        }
        if !option_is_provided(&input.instance_path)
            && !option_is_provided(&input.location_path) {
            return Err(invalid_input("either instancePath or locationPath must be provided"));
        }
        if option_is_blank(&input.computer_name) {
            return Err(invalid_input("computerName must not be empty"));
        }
        let mut args = ArgList::new("Remove-VMHostAssignableDevice");
        args.push_quoted("-ResourcePoolName", resource_pool_name.as_str());
        args.push_opt_trimmed_quoted("-InstancePath", &input.instance_path);
        args.push_opt_trimmed_quoted("-LocationPath", &input.location_path);
        args.push_opt_quoted("-ComputerName", &input.computer_name);
        args.push_switch("-Force", input.force);
        args.push_literal("-Confirm:$false");
        assert(args@ === Self::command_args(*input));
        Ok(args.to_command_with(SELECT))
    }

    /// Reads the answer from what the script printed: one entry per record.
    pub fn parse_output(raw: JsonValue) -> (r: RemoveVmHostAssignableDeviceOutput)
        ensures
            describes_all(r.removed@, raw.records()),
    {
        RemoveVmHostAssignableDeviceOutput { removed: decode_records(raw) }
    }

    /// Reads the answer from the text the script printed; blank text reads as
    /// an empty list, and text that is not JSON is a `Json` error.
    pub fn read_output(printed: &str) -> (r: Result<RemoveVmHostAssignableDeviceOutput, ToolError>)
        ensures
            match parsed_json(effective_output(printed@)) {
                Some(raw) => r matches Ok(out) && describes_all(out.removed@, raw.records()),
                None => r matches Err(ToolError::Json(_)),
            },
    {
        match read_printed(printed) {
            Ok(raw) => Ok(Self::parse_output(raw)),
            Err(e) => Err(e),
        }
    }

    /// Every value of a valid request reaches the script that `build_script`
    /// returns under its own flag: each flag below stands in the script
    /// followed by the value of the field of the same name.
    pub proof fn lemma_script_carries_each_value(input: RemoveVmHostAssignableDeviceInput)
        requires
            Self::input_problem(input) is None,
        ensures
            holds(
                Self::script(input),
                quoted_arg("-ResourcePoolName"@, trim(input.resource_pool_name@)),
            ),
            input.instance_path matches Some(v) ==> !is_blank(v@) ==> holds(
                Self::script(input),
                quoted_arg("-InstancePath"@, trim(v@)),
            ),
            input.location_path matches Some(v) ==> !is_blank(v@) ==> holds(
                Self::script(input),
                quoted_arg("-LocationPath"@, trim(v@)),
            ),
            input.computer_name matches Some(v) ==> holds(
                Self::script(input),
                quoted_arg("-ComputerName"@, v@),
            ),
            input.force ==> holds(Self::script(input), "-Force"@),
    {
        Self::script_carries_resource_pool_name(input);
        Self::script_carries_instance_path(input);
        Self::script_carries_location_path(input);
        Self::script_carries_computer_name(input);
        Self::script_carries_force(input);
    }

    proof fn script_carries_resource_pool_name(input: RemoveVmHostAssignableDeviceInput)
        ensures
            holds(
                Self::script(input),
                quoted_arg("-ResourcePoolName"@, trim(input.resource_pool_name@)),
            ),
    {
        broadcast use lemma_add_contains, lemma_push_contains;

        let args = Self::command_args(input);
        let tail = SELECT@;
        lemma_script_holds_argument(
            args,
            tail,
            quoted_arg("-ResourcePoolName"@, trim(input.resource_pool_name@)),
        );
    }

    proof fn script_carries_instance_path(input: RemoveVmHostAssignableDeviceInput)
        ensures
            input.instance_path matches Some(v) ==> !is_blank(v@) ==> holds(
                Self::script(input),
                quoted_arg("-InstancePath"@, trim(v@)),
            ),
    {
        broadcast use lemma_add_contains, lemma_push_contains;

        let args = Self::command_args(input);
        let tail = SELECT@;
        if let Some(v) = input.instance_path {
            if !is_blank(v@) {
                lemma_script_holds_argument(args, tail, quoted_arg("-InstancePath"@, trim(v@)));
            }
        }
    }

    proof fn script_carries_location_path(input: RemoveVmHostAssignableDeviceInput)
        ensures
            input.location_path matches Some(v) ==> !is_blank(v@) ==> holds(
                Self::script(input),
                quoted_arg("-LocationPath"@, trim(v@)),
            ),
    {
        broadcast use lemma_add_contains, lemma_push_contains;

        let args = Self::command_args(input);
        let tail = SELECT@;
        if let Some(v) = input.location_path {
            if !is_blank(v@) {
                lemma_script_holds_argument(args, tail, quoted_arg("-LocationPath"@, trim(v@)));
            }
        }
    }

    proof fn script_carries_computer_name(input: RemoveVmHostAssignableDeviceInput)
        ensures
            input.computer_name matches Some(v) ==> holds(
                Self::script(input),
                quoted_arg("-ComputerName"@, v@),
            ),
    {
        broadcast use lemma_add_contains, lemma_push_contains;

        let args = Self::command_args(input);
        let tail = SELECT@;
        if let Some(v) = input.computer_name {
            lemma_script_holds_argument(args, tail, quoted_arg("-ComputerName"@, v@));
        }
    }

    proof fn script_carries_force(input: RemoveVmHostAssignableDeviceInput)
        ensures
            input.force ==> holds(Self::script(input), "-Force"@),
    {
        broadcast use lemma_add_contains, lemma_push_contains;

        let args = Self::command_args(input);
        let tail = SELECT@;
        if input.force {
            lemma_script_holds_argument(args, tail, "-Force"@);
        }
    }

    /// Each entry of the answer reads the printed record at its place: every
    /// field holds the record's member of the matching name.
    pub proof fn lemma_answer_reads_each_record(
        raw: JsonValue,
        out: RemoveVmHostAssignableDeviceOutput,
    )
        requires
            describes_all(out.removed@, raw.records()),
        ensures
            out.removed@.len() == raw.records().len(),
            forall|i: int|
                #![trigger out.removed@[i]]
                0 <= i < raw.records().len() ==> {
                    &&& out.removed@[i].instance_path@
                        == raw.records()[i].text_or_empty("InstancePath"@)
                    &&& out.removed@[i].location_path@
                        == raw.records()[i].text_or_empty("LocationPath"@)
                },
    {
        assert forall|i: int| 0 <= i < raw.records().len() implies {
            &&& out.removed@[i].instance_path@ == raw.records()[i].text_or_empty("InstancePath"@)
            &&& out.removed@[i].location_path@ == raw.records()[i].text_or_empty("LocationPath"@)
        } by {
            assert(out.removed@[i].describes(raw.records()[i]));
        }
    }

    /// A request is valid only when it passes every check: none of the
    /// conditions that refuse a request holds of it.
    pub proof fn lemma_valid_request_passes_every_check(input: RemoveVmHostAssignableDeviceInput)
        requires
            Self::input_problem(input) is None,
        ensures
            !(is_blank(input.resource_pool_name@)),
            !(!is_provided(input.instance_path) && !is_provided(input.location_path)),
            !(input.computer_name matches Some(s) && is_blank(s@)),
    {
    }
}

} // verus!
