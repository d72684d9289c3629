//! `hyperv_remove_vm_network_adapter_team_mapping`: removes the team mapping settings from a virtual network adapter.
use vstd::prelude::*;
use crate::command::{
    holds, join, lemma_add_contains, lemma_push_contains, lemma_script_holds_argument, opt_quoted,
    quoted_arg, target_args, ArgList,
};
use crate::error::{invalid_input, script_outcome, ToolError};
use crate::json::{effective_output, parsed_json, read_printed};
use crate::text::{is_blank, is_provided, option_is_blank, option_is_provided, text_is_blank};

verus! {

/// The tool's name.
pub const NAME: &'static str = "hyperv_remove_vm_network_adapter_team_mapping";

/// What the tool does.
pub const DESCRIPTION: &'static str = "Removes the team mapping settings from a virtual network adapter.";

/// What the tool is asked.
#[derive(Debug)]
pub struct RemoveVmNetworkAdapterTeamMappingInput {
    /// Name of the virtual machine whose network adapter team mapping should be removed.
    /// Not used when management_os is true.
    pub vm_name: Option<String>,
    /// Name of the virtual network adapter whose team mapping should be removed.
    pub name: String,
    /// Hyper-V host to target. Defaults to localhost.
    pub computer_name: Option<String>,
    /// Operate on the management operating system instead of a VM.
    pub management_os: Option<bool>,
    /// Name of the virtual switch. Only used with managementOS.
    pub switch_name: Option<String>,
}

/// What the tool answers.
#[derive(Debug)]
pub struct RemoveVmNetworkAdapterTeamMappingOutput {
    /// True if the cmdlet executed without a sidecar or JSON error.
    pub success: bool,
}

/// The tool.
#[derive(Default)]
pub struct RemoveVmNetworkAdapterTeamMappingTool;

impl RemoveVmNetworkAdapterTeamMappingTool {
    /// The first problem with the request, as the message that reports it.
    pub open spec fn input_problem(
        input: RemoveVmNetworkAdapterTeamMappingInput,
    ) -> Option<Seq<char>> {
        if is_blank(input.name@) {
            Some("Network adapter name must not be empty"@)
        } else if !(input.management_os == Some(true)) && !is_provided(input.vm_name) {
            Some("VM name must be provided when management_os is not enabled"@)
        } else if input.computer_name matches Some(s) && is_blank(s@) {
            Some("Computer name must not be empty"@)
        } else if input.switch_name matches Some(s) && is_blank(s@) {
            Some("Switch name must not be empty"@)
        } else {
            None
        }
    }

    /// The arguments of the cmdlet.
    pub open spec fn command_args(input: RemoveVmNetworkAdapterTeamMappingInput) -> Seq<Seq<char>> {
        seq!["Remove-VMNetworkAdapterTeamMapping"@]
            + target_args(input.management_os == Some(true), input.vm_name)
            + seq![quoted_arg("-Name"@, input.name@)]
            + opt_quoted("-ComputerName"@, input.computer_name)
            + opt_quoted("-SwitchName"@, input.switch_name)
            + seq!["-Confirm:$false"@]
    }

    /// The script that runs for a valid request.
    pub open spec fn script(input: RemoveVmNetworkAdapterTeamMappingInput) -> Seq<char> {
        join(Self::command_args(input), seq![' '])
    }

    /// Checks the request and builds its script.
    pub fn build_script(
        input: &RemoveVmNetworkAdapterTeamMappingInput,
    ) -> (r: Result<String, ToolError>)
        ensures
            script_outcome(r, Self::input_problem(*input), Self::script(*input)),
    {
        let management_os = matches!(input.management_os, Some(true));
        if text_is_blank(input.name.as_str()) {
            return Err(invalid_input("Network adapter name must not be empty"));
        }
        if !management_os && !option_is_provided(&input.vm_name) {
            return Err(invalid_input(
                "VM name must be provided when management_os is not enabled",
            ));
        }
        if option_is_blank(&input.computer_name) {
            return Err(invalid_input("Computer name must not be empty"));
        }
        if option_is_blank(&input.switch_name) {
            return Err(invalid_input("Switch name must not be empty"));
        }
        let mut args = ArgList::new("Remove-VMNetworkAdapterTeamMapping");
        args.push_target(management_os, &input.vm_name);
        args.push_quoted("-Name", input.name.as_str());
        args.push_opt_quoted("-ComputerName", &input.computer_name);
        args.push_opt_quoted("-SwitchName", &input.switch_name);
        args.push_literal("-Confirm:$false");
        assert(args@ === Self::command_args(*input));
        Ok(args.to_command())
    }

    /// Reads the answer from the text the script printed; blank text reads as
    /// an empty list, and text that is not JSON is a `Json` error.
    pub fn read_output(printed: &str) -> (r: Result<RemoveVmNetworkAdapterTeamMappingOutput, ToolError>)
        ensures
            match parsed_json(effective_output(printed@)) {
                Some(_) => r matches Ok(out) && out.success,
                None => r matches Err(ToolError::Json(_)),
            },
    {
        match read_printed(printed) {
            Ok(_) => Ok(RemoveVmNetworkAdapterTeamMappingOutput { success: true }),
            Err(e) => Err(e),
        }
    }

    /// Every value of a valid request reaches the script that `build_script`
    /// returns under its own flag: each flag below stands in the script
    /// followed by the value of the field of the same name.
    pub proof fn lemma_script_carries_each_value(input: RemoveVmNetworkAdapterTeamMappingInput)
        requires
            Self::input_problem(input) is None,
        ensures
            input.management_os == Some(true) ==> holds(Self::script(input), "-ManagementOS"@),
            input.vm_name matches Some(v) ==> !(input.management_os == Some(true)) ==> holds(
                Self::script(input),
                quoted_arg("-VMName"@, v@),
            ),
            holds(Self::script(input), quoted_arg("-Name"@, input.name@)),
            input.computer_name matches Some(v) ==> holds(
                Self::script(input),
                quoted_arg("-ComputerName"@, v@),
            ),
            input.switch_name matches Some(v) ==> holds(
                Self::script(input),
                quoted_arg("-SwitchName"@, v@),
            ),
    {
        Self::script_carries_management_os(input);
        Self::script_carries_vm_name(input);
        Self::script_carries_name(input);
        Self::script_carries_computer_name(input);
        Self::script_carries_switch_name(input);
    }

    proof fn script_carries_management_os(input: RemoveVmNetworkAdapterTeamMappingInput)
        ensures
            input.management_os == Some(true) ==> holds(Self::script(input), "-ManagementOS"@),
    {
        broadcast use lemma_add_contains, lemma_push_contains;

        let args = Self::command_args(input);
        let tail = Seq::<char>::empty();
        assert(Self::script(input) =~= join(args, seq![' ']) + tail);
        if input.management_os == Some(true) {
            lemma_script_holds_argument(args, tail, "-ManagementOS"@);
        }
    }

    proof fn script_carries_vm_name(input: RemoveVmNetworkAdapterTeamMappingInput)
        ensures
            input.vm_name matches Some(v) ==> !(input.management_os == Some(true)) ==> holds(
                Self::script(input),
                quoted_arg("-VMName"@, v@),
            ),
    {
        broadcast use lemma_add_contains, lemma_push_contains;

        let args = Self::command_args(input);
        let tail = Seq::<char>::empty();
        assert(Self::script(input) =~= join(args, seq![' ']) + tail);
        if !(input.management_os == Some(true)) && input.vm_name is Some {
            lemma_script_holds_argument(args, tail, quoted_arg("-VMName"@, input.vm_name->0@));
        }
    }

    proof fn script_carries_name(input: RemoveVmNetworkAdapterTeamMappingInput)
        ensures
            holds(Self::script(input), quoted_arg("-Name"@, input.name@)),
    {
        broadcast use lemma_add_contains, lemma_push_contains;

        let args = Self::command_args(input);
        let tail = Seq::<char>::empty();
        assert(Self::script(input) =~= join(args, seq![' ']) + tail);
        lemma_script_holds_argument(args, tail, quoted_arg("-Name"@, input.name@));
    }

    proof fn script_carries_computer_name(input: RemoveVmNetworkAdapterTeamMappingInput)
        ensures
            input.computer_name matches Some(v) ==> holds(
                Self::script(input),
                quoted_arg("-ComputerName"@, v@),
            ),
    {
        broadcast use lemma_add_contains, lemma_push_contains;

        let args = Self::command_args(input);
        let tail = Seq::<char>::empty();
        assert(Self::script(input) =~= join(args, seq![' ']) + tail);
        if let Some(v) = input.computer_name {
            lemma_script_holds_argument(args, tail, quoted_arg("-ComputerName"@, v@));
        }
    }

    proof fn script_carries_switch_name(input: RemoveVmNetworkAdapterTeamMappingInput)
        ensures
            input.switch_name matches Some(v) ==> holds(
                Self::script(input),
                quoted_arg("-SwitchName"@, v@),
            ),
    {
        broadcast use lemma_add_contains, lemma_push_contains;

        let args = Self::command_args(input);
        let tail = Seq::<char>::empty();
        assert(Self::script(input) =~= join(args, seq![' ']) + tail);
        if let Some(v) = input.switch_name {
            lemma_script_holds_argument(args, tail, quoted_arg("-SwitchName"@, v@));
        }
    }

    /// A request is valid only when it passes every check: none of the
    /// conditions that refuse a request holds of it.
    pub proof fn lemma_valid_request_passes_every_check(
        input: RemoveVmNetworkAdapterTeamMappingInput,
    )
        requires
            Self::input_problem(input) is None,
        ensures
            !(is_blank(input.name@)),
            !(!(input.management_os == Some(true)) && !is_provided(input.vm_name)),
            !(input.computer_name matches Some(s) && is_blank(s@)),
            !(input.switch_name matches Some(s) && is_blank(s@)),
    {
    }

    /// A valid request names its target: the management operating system, or
    /// the virtual machine it names.
    pub proof fn lemma_valid_request_names_target(input: RemoveVmNetworkAdapterTeamMappingInput)
        requires
            Self::input_problem(input) is None,
        ensures
            target_args(input.management_os == Some(true), input.vm_name).len() == 1,
    {
    }
}

} // verus!
