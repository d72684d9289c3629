//! `hyperv_remove_vm_dvd_drive`: deletes a DVD drive from a virtual machine.
use vstd::prelude::*;
use crate::command::{
    holds, join, lemma_add_contains, lemma_push_contains, lemma_script_holds_argument, number_arg,
    opt_quoted, opt_u32, quoted_arg, ArgList,
};
use crate::error::{invalid_input, script_outcome, ToolError};
use crate::text::{is_blank, option_is_blank, text_is_blank};

verus! {

/// The tool's name.
pub const NAME: &'static str = "hyperv_remove_vm_dvd_drive";

/// What the tool does.
pub const DESCRIPTION: &'static str = "Deletes a DVD drive from a virtual machine.";

/// What the tool is asked.
#[derive(Debug)]
pub struct RemoveVmDvdDriveInput {
    /// Name of the virtual machine.
    pub vm_name: String,
    /// Controller number of the DVD drive.
    pub controller_number: Option<u32>,
    /// Controller location of the DVD drive.
    pub controller_location: Option<u32>,
    /// Hyper-V host to target. Defaults to localhost.
    pub computer_name: Option<String>,
}

/// What the tool answers.
#[derive(Debug)]
pub struct RemoveVmDvdDriveOutput {
    pub success: bool,
}

/// The tool.
#[derive(Default)]
pub struct RemoveVmDvdDriveTool;

impl RemoveVmDvdDriveTool {
    /// The first problem with the request, as the message that reports it.
    pub open spec fn input_problem(input: RemoveVmDvdDriveInput) -> Option<Seq<char>> {
        if is_blank(input.vm_name@) {
            Some("vm_name must not be empty"@)
        } else if input.computer_name matches Some(s) && is_blank(s@) {
            Some("computer_name must not be empty when provided"@)
        } else {
            None
        }
    }

    /// The arguments of the cmdlet.
    pub open spec fn command_args(input: RemoveVmDvdDriveInput) -> Seq<Seq<char>> {
        seq!["Remove-VMDvdDrive"@, quoted_arg("-VMName"@, input.vm_name@)]
            + opt_u32("-ControllerNumber"@, input.controller_number)
            + opt_u32("-ControllerLocation"@, input.controller_location)
            + opt_quoted("-ComputerName"@, input.computer_name)
    }

    /// The script that runs for a valid request.
    pub open spec fn script(input: RemoveVmDvdDriveInput) -> Seq<char> {
        join(Self::command_args(input), seq![' '])
    }

    /// Checks the request and builds its script.
    pub fn build_script(input: &RemoveVmDvdDriveInput) -> (r: Result<String, ToolError>)
        ensures
            script_outcome(r, Self::input_problem(*input), Self::script(*input)),
    {
        if text_is_blank(input.vm_name.as_str()) {
            return Err(invalid_input("vm_name must not be empty"));
        }
        if option_is_blank(&input.computer_name) {
            return Err(invalid_input("computer_name must not be empty when provided"));
        }
        let mut args = ArgList::new("Remove-VMDvdDrive");
        args.push_quoted("-VMName", input.vm_name.as_str());
        args.push_opt_u32("-ControllerNumber", input.controller_number);
        args.push_opt_u32("-ControllerLocation", input.controller_location);
        args.push_opt_quoted("-ComputerName", &input.computer_name);
        assert(args@ === Self::command_args(*input));
        Ok(args.to_command())
    }

    /// Every value of a valid request reaches the script that `build_script`
    /// returns under its own flag: each flag below stands in the script
    /// followed by the value of the field of the same name.
    pub proof fn lemma_script_carries_each_value(input: RemoveVmDvdDriveInput)
        requires
            Self::input_problem(input) is None,
        ensures
            holds(Self::script(input), quoted_arg("-VMName"@, input.vm_name@)),
            input.controller_number matches Some(v) ==> holds(
                Self::script(input),
                number_arg("-ControllerNumber"@, v as int),
            ),
            input.controller_location matches Some(v) ==> holds(
                Self::script(input),
                number_arg("-ControllerLocation"@, v as int),
            ),
            input.computer_name matches Some(v) ==> holds(
                Self::script(input),
                quoted_arg("-ComputerName"@, v@),
            ),
    {
        Self::script_carries_vm_name(input);
        Self::script_carries_controller_number(input);
        Self::script_carries_controller_location(input);
        Self::script_carries_computer_name(input);
    }

    proof fn script_carries_vm_name(input: RemoveVmDvdDriveInput)
        ensures
            holds(Self::script(input), quoted_arg("-VMName"@, input.vm_name@)),
    {
        broadcast use lemma_add_contains, lemma_push_contains;

        let args = Self::command_args(input);
        let tail = Seq::<char>::empty();
        assert(Self::script(input) =~= join(args, seq![' ']) + tail);
        lemma_script_holds_argument(args, tail, quoted_arg("-VMName"@, input.vm_name@));
    }

    proof fn script_carries_controller_number(input: RemoveVmDvdDriveInput)
        ensures
            input.controller_number matches Some(v) ==> holds(
                Self::script(input),
                number_arg("-ControllerNumber"@, v as int),
            ),
    {
        broadcast use lemma_add_contains, lemma_push_contains;

        let args = Self::command_args(input);
        let tail = Seq::<char>::empty();
        assert(Self::script(input) =~= join(args, seq![' ']) + tail);
        if let Some(v) = input.controller_number {
            lemma_script_holds_argument(args, tail, number_arg("-ControllerNumber"@, v as int));
        }
    }

    proof fn script_carries_controller_location(input: RemoveVmDvdDriveInput)
        ensures
            input.controller_location matches Some(v) ==> holds(
                Self::script(input),
                number_arg("-ControllerLocation"@, v as int),
            ),
    {
        broadcast use lemma_add_contains, lemma_push_contains;

        let args = Self::command_args(input);
        let tail = Seq::<char>::empty();
        assert(Self::script(input) =~= join(args, seq![' ']) + tail);
        if let Some(v) = input.controller_location {
            lemma_script_holds_argument(args, tail, number_arg("-ControllerLocation"@, v as int));
        }
    }

    proof fn script_carries_computer_name(input: RemoveVmDvdDriveInput)
        ensures
            input.computer_name matches Some(v) ==> holds(
                Self::script(input),
                quoted_arg("-ComputerName"@, v@),
            ),
    {
        broadcast use lemma_add_contains, lemma_push_contains;

        let args = Self::command_args(input);
        let tail = Seq::<char>::empty();
        assert(Self::script(input) =~= join(args, seq![' ']) + tail);
        if let Some(v) = input.computer_name {
            lemma_script_holds_argument(args, tail, quoted_arg("-ComputerName"@, v@));
        }
    }

    /// A request is valid only when it passes every check: none of the
    /// conditions that refuse a request holds of it.
    pub proof fn lemma_valid_request_passes_every_check(input: RemoveVmDvdDriveInput)
        requires
            Self::input_problem(input) is None,
        ensures
            !(is_blank(input.vm_name@)),
            !(input.computer_name matches Some(s) && is_blank(s@)),
    {
    }
}

} // verus!
