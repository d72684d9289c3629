//! `hyperv_remove_vm_assignable_device`: removes information about the assignable devices from a specific virtual machine.
use vstd::prelude::*;
use crate::command::{
    holds, join, lemma_add_contains, lemma_push_contains, lemma_script_holds_argument, opt_quoted,
    quoted_arg, ArgList,
};
use crate::error::{invalid_input, script_outcome, ToolError};
use crate::text::{is_blank, option_is_blank, text_is_blank};

verus! {

/// The tool's name.
pub const NAME: &'static str = "hyperv_remove_vm_assignable_device";

/// What the tool does.
pub const DESCRIPTION: &'static str = "Removes information about the assignable devices from a specific virtual machine.";

/// What the tool is asked.
#[derive(Debug)]
pub struct RemoveVmAssignableDeviceInput {
    /// Name of the virtual machine.
    pub vm_name: String,
    /// Location path of the assignable device.
    pub location_path: Option<String>,
    /// Hyper-V host to target. Defaults to localhost.
    pub computer_name: Option<String>,
}

/// What the tool answers.
#[derive(Debug)]
pub struct RemoveVmAssignableDeviceOutput {
    pub success: bool,
}

/// The tool.
#[derive(Default)]
pub struct RemoveVmAssignableDeviceTool;

impl RemoveVmAssignableDeviceTool {
    /// The first problem with the request, as the message that reports it.
    pub open spec fn input_problem(input: RemoveVmAssignableDeviceInput) -> Option<Seq<char>> {
        if is_blank(input.vm_name@) {
            Some("vm_name must not be empty"@)
        } else if input.location_path matches Some(s) && is_blank(s@) {
            Some("location_path must not be empty when provided"@)
        } else if input.computer_name matches Some(s) && is_blank(s@) {
            Some("computer_name must not be empty when provided"@)
        } else {
            None
        }
    }

    /// The arguments of the cmdlet.
    pub open spec fn command_args(input: RemoveVmAssignableDeviceInput) -> Seq<Seq<char>> {
        seq!["Remove-VMAssignableDevice"@, quoted_arg("-VMName"@, input.vm_name@)]
            + opt_quoted("-LocationPath"@, input.location_path)
            + opt_quoted("-ComputerName"@, input.computer_name)
    }

    /// The script that runs for a valid request.
    pub open spec fn script(input: RemoveVmAssignableDeviceInput) -> Seq<char> {
        join(Self::command_args(input), seq![' '])
    }

    /// Checks the request and builds its script.
    pub fn build_script(input: &RemoveVmAssignableDeviceInput) -> (r: Result<String, ToolError>)
        ensures
            script_outcome(r, Self::input_problem(*input), Self::script(*input)),
    {
        if text_is_blank(input.vm_name.as_str()) {
            return Err(invalid_input("vm_name must not be empty"));
        }
        if option_is_blank(&input.location_path) {
            return Err(invalid_input("location_path must not be empty when provided"));
        }
        if option_is_blank(&input.computer_name) {
            return Err(invalid_input("computer_name must not be empty when provided"));
        }
        let mut args = ArgList::new("Remove-VMAssignableDevice");
        args.push_quoted("-VMName", input.vm_name.as_str());
        args.push_opt_quoted("-LocationPath", &input.location_path);
        args.push_opt_quoted("-ComputerName", &input.computer_name);
        assert(args@ === Self::command_args(*input));
        Ok(args.to_command())
    }

    /// Every value of a valid request reaches the script that `build_script`
    /// returns under its own flag: each flag below stands in the script
    /// followed by the value of the field of the same name.
    pub proof fn lemma_script_carries_each_value(input: RemoveVmAssignableDeviceInput)
        requires
            Self::input_problem(input) is None,
        ensures
            holds(Self::script(input), quoted_arg("-VMName"@, input.vm_name@)),
            input.location_path matches Some(v) ==> holds(
                Self::script(input),
                quoted_arg("-LocationPath"@, v@),
            ),
            input.computer_name matches Some(v) ==> holds(
                Self::script(input),
                quoted_arg("-ComputerName"@, v@),
            ),
    {
        Self::script_carries_vm_name(input);
        Self::script_carries_location_path(input);
        Self::script_carries_computer_name(input);
    }

    proof fn script_carries_vm_name(input: RemoveVmAssignableDeviceInput)
        ensures
            holds(Self::script(input), quoted_arg("-VMName"@, input.vm_name@)),
    {
        broadcast use lemma_add_contains, lemma_push_contains;

        let args = Self::command_args(input);
        let tail = Seq::<char>::empty();
        assert(Self::script(input) =~= join(args, seq![' ']) + tail);
        lemma_script_holds_argument(args, tail, quoted_arg("-VMName"@, input.vm_name@));
    }

    proof fn script_carries_location_path(input: RemoveVmAssignableDeviceInput)
        ensures
            input.location_path matches Some(v) ==> holds(
                Self::script(input),
                quoted_arg("-LocationPath"@, v@),
            ),
    {
        broadcast use lemma_add_contains, lemma_push_contains;

        let args = Self::command_args(input);
        let tail = Seq::<char>::empty();
        assert(Self::script(input) =~= join(args, seq![' ']) + tail);
        if let Some(v) = input.location_path {
            lemma_script_holds_argument(args, tail, quoted_arg("-LocationPath"@, v@));
        }
    }

    proof fn script_carries_computer_name(input: RemoveVmAssignableDeviceInput)
        ensures
            input.computer_name matches Some(v) ==> holds(
                Self::script(input),
                quoted_arg("-ComputerName"@, v@),
            ),
    {
        broadcast use lemma_add_contains, lemma_push_contains;

        let args = Self::command_args(input);
        let tail = Seq::<char>::empty();
        assert(Self::script(input) =~= join(args, seq![' ']) + tail);
        if let Some(v) = input.computer_name {
            lemma_script_holds_argument(args, tail, quoted_arg("-ComputerName"@, v@));
        }
    }

    /// A request is valid only when it passes every check: none of the
    /// conditions that refuse a request holds of it.
    pub proof fn lemma_valid_request_passes_every_check(input: RemoveVmAssignableDeviceInput)
        requires
            Self::input_problem(input) is None,
        ensures
            !(is_blank(input.vm_name@)),
            !(input.location_path matches Some(s) && is_blank(s@)),
            !(input.computer_name matches Some(s) && is_blank(s@)),
    {
    }
}

} // verus!
