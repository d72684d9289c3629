//! `hyperv_reset_vm_resource_metering`: resets the resource utilization data collected by Hyper-V resource metering.
use vstd::prelude::*;
use crate::command::{
    holds, join, lemma_add_contains, lemma_push_contains, lemma_script_holds_argument, opt_quoted,
    quoted_arg, ArgList,
};
use crate::error::{invalid_input, script_outcome, ToolError};
use crate::text::{is_blank, option_is_blank};

verus! {

/// The tool's name.
pub const NAME: &'static str = "hyperv_reset_vm_resource_metering";

/// What the tool does.
pub const DESCRIPTION: &'static str = "Resets the resource utilization data collected by Hyper-V resource metering.";

/// What the tool is asked.
#[derive(Debug)]
pub struct ResetVmResourceMeteringInput {
    /// Name of the virtual machine.
    pub vm_name: Option<String>,
    /// Name of the resource pool.
    pub resource_pool_name: Option<String>,
    /// Hyper-V host to target. Defaults to localhost.
    pub computer_name: Option<String>,
}

/// What the tool answers.
#[derive(Debug)]
pub struct ResetVmResourceMeteringOutput {
    pub success: bool,
}

/// The tool.
#[derive(Default)]
pub struct ResetVmResourceMeteringTool;

impl ResetVmResourceMeteringTool {
    /// The first problem with the request, as the message that reports it.
    pub open spec fn input_problem(input: ResetVmResourceMeteringInput) -> Option<Seq<char>> {
        if input.vm_name matches Some(s) && is_blank(s@) {
            Some("vm_name must not be empty when provided"@)
        } else if input.resource_pool_name matches Some(s) && is_blank(s@) {
            Some("resource_pool_name must not be empty when provided"@)
        } else if input.computer_name matches Some(s) && is_blank(s@) {
            Some("computer_name must not be empty when provided"@)
        } else {
            None
        }
    }

    /// The arguments of the cmdlet.
    pub open spec fn command_args(input: ResetVmResourceMeteringInput) -> Seq<Seq<char>> {
        seq!["Reset-VMResourceMetering"@]
            + opt_quoted("-VMName"@, input.vm_name)
            + opt_quoted("-ResourcePoolName"@, input.resource_pool_name)
            + opt_quoted("-ComputerName"@, input.computer_name)
    }

    /// The script that runs for a valid request.
    pub open spec fn script(input: ResetVmResourceMeteringInput) -> Seq<char> {
        join(Self::command_args(input), seq![' '])
    }

    /// Checks the request and builds its script.
    pub fn build_script(input: &ResetVmResourceMeteringInput) -> (r: Result<String, ToolError>)
        ensures
            script_outcome(r, Self::input_problem(*input), Self::script(*input)),
    {
        if option_is_blank(&input.vm_name) {
            return Err(invalid_input("vm_name must not be empty when provided"));
        }
        if option_is_blank(&input.resource_pool_name) {
            return Err(invalid_input("resource_pool_name must not be empty when provided"));
        }
        if option_is_blank(&input.computer_name) {
            return Err(invalid_input("computer_name must not be empty when provided"));
        }
        let mut args = ArgList::new("Reset-VMResourceMetering");
        args.push_opt_quoted("-VMName", &input.vm_name);
        args.push_opt_quoted("-ResourcePoolName", &input.resource_pool_name);
        args.push_opt_quoted("-ComputerName", &input.computer_name);
        assert(args@ === Self::command_args(*input));
        Ok(args.to_command())
    }

    /// Every value of a valid request reaches the script that `build_script`
    /// returns under its own flag: each flag below stands in the script
    /// followed by the value of the field of the same name.
    pub proof fn lemma_script_carries_each_value(input: ResetVmResourceMeteringInput)
        requires
            Self::input_problem(input) is None,
        ensures
            input.vm_name matches Some(v) ==> holds(
                Self::script(input),
                quoted_arg("-VMName"@, v@),
            ),
            input.resource_pool_name matches Some(v) ==> holds(
                Self::script(input),
                quoted_arg("-ResourcePoolName"@, v@),
            ),
            input.computer_name matches Some(v) ==> holds(
                Self::script(input),
                quoted_arg("-ComputerName"@, v@),
            ),
    {
        Self::script_carries_vm_name(input);
        Self::script_carries_resource_pool_name(input);
        Self::script_carries_computer_name(input);
    }

    proof fn script_carries_vm_name(input: ResetVmResourceMeteringInput)
        ensures
            input.vm_name matches Some(v) ==> holds(
                Self::script(input),
                quoted_arg("-VMName"@, v@),
            ),
    {
        broadcast use lemma_add_contains, lemma_push_contains;

        let args = Self::command_args(input);
        let tail = Seq::<char>::empty();
        assert(Self::script(input) =~= join(args, seq![' ']) + tail);
        if let Some(v) = input.vm_name {
            lemma_script_holds_argument(args, tail, quoted_arg("-VMName"@, v@));
        }
    }

    proof fn script_carries_resource_pool_name(input: ResetVmResourceMeteringInput)
        ensures
            input.resource_pool_name matches Some(v) ==> holds(
                Self::script(input),
                quoted_arg("-ResourcePoolName"@, v@),
            ),
    {
        broadcast use lemma_add_contains, lemma_push_contains;

        let args = Self::command_args(input);
        let tail = Seq::<char>::empty();
        assert(Self::script(input) =~= join(args, seq![' ']) + tail);
        if let Some(v) = input.resource_pool_name {
            lemma_script_holds_argument(args, tail, quoted_arg("-ResourcePoolName"@, v@));
        }
    }

    proof fn script_carries_computer_name(input: ResetVmResourceMeteringInput)
        ensures
            input.computer_name matches Some(v) ==> holds(
                Self::script(input),
                quoted_arg("-ComputerName"@, v@),
            ),
    {
        broadcast use lemma_add_contains, lemma_push_contains;

        let args = Self::command_args(input);
        let tail = Seq::<char>::empty();
        assert(Self::script(input) =~= join(args, seq![' ']) + tail);
        if let Some(v) = input.computer_name {
            lemma_script_holds_argument(args, tail, quoted_arg("-ComputerName"@, v@));
        }
    }

    /// A request is valid only when it passes every check: none of the
    /// conditions that refuse a request holds of it.
    pub proof fn lemma_valid_request_passes_every_check(input: ResetVmResourceMeteringInput)
        requires
            Self::input_problem(input) is None,
        ensures
            !(input.vm_name matches Some(s) && is_blank(s@)),
            !(input.resource_pool_name matches Some(s) && is_blank(s@)),
            !(input.computer_name matches Some(s) && is_blank(s@)),
    {
    }
}

} // verus!
