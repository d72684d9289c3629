//! `hyperv_remove_vm_switch_team_member`: removes a member from a virtual machine switch team.
use vstd::prelude::*;
use crate::command::{
    holds, join, lemma_add_contains, lemma_push_contains, lemma_script_holds_argument, opt_quoted,
    quoted_arg, ArgList,
};
use crate::error::{invalid_input, script_outcome, ToolError};
use crate::text::{is_blank, option_is_blank, text_is_blank};

verus! {

/// The tool's name.
pub const NAME: &'static str = "hyperv_remove_vm_switch_team_member";

/// What the tool does.
pub const DESCRIPTION: &'static str = "Removes a member from a virtual machine switch team.";

/// What the tool is asked.
#[derive(Debug)]
pub struct RemoveVmSwitchTeamMemberInput {
    /// Name of the virtual switch.
    pub vm_switch: String,
    /// Name of the network adapter.
    pub net_adapter_name: String,
    /// Hyper-V host to target. Defaults to localhost.
    pub computer_name: Option<String>,
}

/// What the tool answers.
#[derive(Debug)]
pub struct RemoveVmSwitchTeamMemberOutput {
    pub success: bool,
}

/// The tool.
#[derive(Default)]
pub struct RemoveVmSwitchTeamMemberTool;

impl RemoveVmSwitchTeamMemberTool {
    /// The first problem with the request, as the message that reports it.
    pub open spec fn input_problem(input: RemoveVmSwitchTeamMemberInput) -> Option<Seq<char>> {
        if is_blank(input.vm_switch@) {
            Some("vm_switch must not be empty"@)
        } else if is_blank(input.net_adapter_name@) {
            Some("net_adapter_name must not be empty"@)
        } else if input.computer_name matches Some(s) && is_blank(s@) {
            Some("computer_name must not be empty when provided"@)
        } else {
            None
        }
    }

    /// The arguments of the cmdlet.
    pub open spec fn command_args(input: RemoveVmSwitchTeamMemberInput) -> Seq<Seq<char>> {
        seq![
            "Remove-VMSwitchTeamMember"@,
            quoted_arg("-VMSwitch"@, input.vm_switch@),
            quoted_arg("-NetAdapterName"@, input.net_adapter_name@),
        ]
            + opt_quoted("-ComputerName"@, input.computer_name)
    }

    /// The script that runs for a valid request.
    pub open spec fn script(input: RemoveVmSwitchTeamMemberInput) -> Seq<char> {
        join(Self::command_args(input), seq![' '])
    }

    /// Checks the request and builds its script.
    pub fn build_script(input: &RemoveVmSwitchTeamMemberInput) -> (r: Result<String, ToolError>)
        ensures
            script_outcome(r, Self::input_problem(*input), Self::script(*input)),
    {
        if text_is_blank(input.vm_switch.as_str()) {
            return Err(invalid_input("vm_switch must not be empty"));
        }
        if text_is_blank(input.net_adapter_name.as_str()) {
            return Err(invalid_input("net_adapter_name must not be empty"));
        }
        if option_is_blank(&input.computer_name) {
            return Err(invalid_input("computer_name must not be empty when provided"));
        }
        let mut args = ArgList::new("Remove-VMSwitchTeamMember");
        args.push_quoted("-VMSwitch", input.vm_switch.as_str());
        args.push_quoted("-NetAdapterName", input.net_adapter_name.as_str());
        assert(args@ =~= seq![
            "Remove-VMSwitchTeamMember"@,
            quoted_arg("-VMSwitch"@, input.vm_switch@),
            quoted_arg("-NetAdapterName"@, input.net_adapter_name@),
        ]);
        args.push_opt_quoted("-ComputerName", &input.computer_name);
        assert(args@ === Self::command_args(*input));
        Ok(args.to_command())
    }

    /// Every value of a valid request reaches the script that `build_script`
    /// returns under its own flag: each flag below stands in the script
    /// followed by the value of the field of the same name.
    pub proof fn lemma_script_carries_each_value(input: RemoveVmSwitchTeamMemberInput)
        requires
            Self::input_problem(input) is None,
        ensures
            holds(Self::script(input), quoted_arg("-VMSwitch"@, input.vm_switch@)),
            holds(Self::script(input), quoted_arg("-NetAdapterName"@, input.net_adapter_name@)),
            input.computer_name matches Some(v) ==> holds(
                Self::script(input),
                quoted_arg("-ComputerName"@, v@),
            ),
    {
        Self::script_carries_vm_switch(input);
        Self::script_carries_net_adapter_name(input);
        Self::script_carries_computer_name(input);
    }

    proof fn script_carries_vm_switch(input: RemoveVmSwitchTeamMemberInput)
        ensures
            holds(Self::script(input), quoted_arg("-VMSwitch"@, input.vm_switch@)),
    {
        broadcast use lemma_add_contains, lemma_push_contains;

        let args = Self::command_args(input);
        let tail = Seq::<char>::empty();
        assert(Self::script(input) =~= join(args, seq![' ']) + tail);
        lemma_script_holds_argument(args, tail, quoted_arg("-VMSwitch"@, input.vm_switch@));
    }

    proof fn script_carries_net_adapter_name(input: RemoveVmSwitchTeamMemberInput)
        ensures
            holds(Self::script(input), quoted_arg("-NetAdapterName"@, input.net_adapter_name@)),
    {
        broadcast use lemma_add_contains, lemma_push_contains;

        let args = Self::command_args(input);
        let tail = Seq::<char>::empty();
        assert(Self::script(input) =~= join(args, seq![' ']) + tail);
        lemma_script_holds_argument(
            args,
            tail,
            quoted_arg("-NetAdapterName"@, input.net_adapter_name@),
        );
    }

    proof fn script_carries_computer_name(input: RemoveVmSwitchTeamMemberInput)
        ensures
            input.computer_name matches Some(v) ==> holds(
                Self::script(input),
                quoted_arg("-ComputerName"@, v@),
            ),
    {
        broadcast use lemma_add_contains, lemma_push_contains;

        let args = Self::command_args(input);
        let tail = Seq::<char>::empty();
        assert(Self::script(input) =~= join(args, seq![' ']) + tail);
        if let Some(v) = input.computer_name {
            lemma_script_holds_argument(args, tail, quoted_arg("-ComputerName"@, v@));
        }
    }

    /// A request is valid only when it passes every check: none of the
    /// conditions that refuse a request holds of it.
    pub proof fn lemma_valid_request_passes_every_check(input: RemoveVmSwitchTeamMemberInput)
        requires
            Self::input_problem(input) is None,
        ensures
            !(is_blank(input.vm_switch@)),
            !(is_blank(input.net_adapter_name@)),
            !(input.computer_name matches Some(s) && is_blank(s@)),
    {
    }
}

} // verus!
