//! `hyperv_remove_vm_switch_extension_port_feature`: removes a feature from a virtual network adapter.
use vstd::prelude::*;
use crate::command::{
    holds, join, lemma_add_contains, lemma_push_contains, lemma_script_holds_argument, opt_quoted,
    quoted_arg, ArgList,
};
use crate::error::{invalid_input, script_outcome, ToolError};
use crate::text::{is_blank, option_is_blank, text_is_blank};

verus! {

/// The tool's name.
pub const NAME: &'static str = "hyperv_remove_vm_switch_extension_port_feature";

/// What the tool does.
pub const DESCRIPTION: &'static str = "Removes a feature from a virtual network adapter.";

/// What the tool is asked.
#[derive(Debug)]
pub struct RemoveVmSwitchExtensionPortFeatureInput {
    /// ID of the feature.
    pub feature_id: String,
    /// Name of the VM network adapter.
    pub vm_network_adapter: Option<String>,
    /// Hyper-V host to target. Defaults to localhost.
    pub computer_name: Option<String>,
}

/// What the tool answers.
#[derive(Debug)]
pub struct RemoveVmSwitchExtensionPortFeatureOutput {
    pub success: bool,
}

/// The tool.
#[derive(Default)]
pub struct RemoveVmSwitchExtensionPortFeatureTool;

impl RemoveVmSwitchExtensionPortFeatureTool {
    /// The first problem with the request, as the message that reports it.
    pub open spec fn input_problem(
        input: RemoveVmSwitchExtensionPortFeatureInput,
    ) -> Option<Seq<char>> {
        if is_blank(input.feature_id@) {
            Some("feature_id must not be empty"@)
        } else if input.vm_network_adapter matches Some(s) && is_blank(s@) {
            Some("vm_network_adapter must not be empty when provided"@)
        } else if input.computer_name matches Some(s) && is_blank(s@) {
            Some("computer_name must not be empty when provided"@)
        } else {
            None
        }
    }

    /// The arguments of the cmdlet.
    pub open spec fn command_args(
        input: RemoveVmSwitchExtensionPortFeatureInput,
    ) -> Seq<Seq<char>> {
        seq![
            "Remove-VMSwitchExtensionPortFeature"@,
            quoted_arg("-FeatureId"@, input.feature_id@),
        ]
            + opt_quoted("-VMNetworkAdapter"@, input.vm_network_adapter)
            + opt_quoted("-ComputerName"@, input.computer_name)
    }

    /// The script that runs for a valid request.
    pub open spec fn script(input: RemoveVmSwitchExtensionPortFeatureInput) -> Seq<char> {
        join(Self::command_args(input), seq![' '])
    }

    /// Checks the request and builds its script.
    pub fn build_script(
        input: &RemoveVmSwitchExtensionPortFeatureInput,
    ) -> (r: Result<String, ToolError>)
        ensures
            script_outcome(r, Self::input_problem(*input), Self::script(*input)),
    {
        if text_is_blank(input.feature_id.as_str()) {
            return Err(invalid_input("feature_id must not be empty"));
        }
        if option_is_blank(&input.vm_network_adapter) {
            return Err(invalid_input("vm_network_adapter must not be empty when provided"));
        }
        if option_is_blank(&input.computer_name) {
            return Err(invalid_input("computer_name must not be empty when provided"));
        }
        let mut args = ArgList::new("Remove-VMSwitchExtensionPortFeature");
        args.push_quoted("-FeatureId", input.feature_id.as_str());
        args.push_opt_quoted("-VMNetworkAdapter", &input.vm_network_adapter);
        args.push_opt_quoted("-ComputerName", &input.computer_name);
        assert(args@ === Self::command_args(*input));
        Ok(args.to_command())
    }

    /// Every value of a valid request reaches the script that `build_script`
    /// returns under its own flag: each flag below stands in the script
    /// followed by the value of the field of the same name.
    pub proof fn lemma_script_carries_each_value(input: RemoveVmSwitchExtensionPortFeatureInput)
        requires
            Self::input_problem(input) is None,
        ensures
            holds(Self::script(input), quoted_arg("-FeatureId"@, input.feature_id@)),
            input.vm_network_adapter matches Some(v) ==> holds(
                Self::script(input),
                quoted_arg("-VMNetworkAdapter"@, v@),
            ),
            input.computer_name matches Some(v) ==> holds(
                Self::script(input),
                quoted_arg("-ComputerName"@, v@),
            ),
    {
        Self::script_carries_feature_id(input);
        Self::script_carries_vm_network_adapter(input);
        Self::script_carries_computer_name(input);
    }

    proof fn script_carries_feature_id(input: RemoveVmSwitchExtensionPortFeatureInput)
        ensures
            holds(Self::script(input), quoted_arg("-FeatureId"@, input.feature_id@)),
    {
        broadcast use lemma_add_contains, lemma_push_contains;

        let args = Self::command_args(input);
        let tail = Seq::<char>::empty();
        assert(Self::script(input) =~= join(args, seq![' ']) + tail);
        lemma_script_holds_argument(args, tail, quoted_arg("-FeatureId"@, input.feature_id@));
    }

    proof fn script_carries_vm_network_adapter(input: RemoveVmSwitchExtensionPortFeatureInput)
        ensures
            input.vm_network_adapter matches Some(v) ==> holds(
                Self::script(input),
                quoted_arg("-VMNetworkAdapter"@, v@),
            ),
    {
        broadcast use lemma_add_contains, lemma_push_contains;

        let args = Self::command_args(input);
        let tail = Seq::<char>::empty();
        assert(Self::script(input) =~= join(args, seq![' ']) + tail);
        if let Some(v) = input.vm_network_adapter {
            lemma_script_holds_argument(args, tail, quoted_arg("-VMNetworkAdapter"@, v@));
        }
    }

    proof fn script_carries_computer_name(input: RemoveVmSwitchExtensionPortFeatureInput)
        ensures
            input.computer_name matches Some(v) ==> holds(
                Self::script(input),
                quoted_arg("-ComputerName"@, v@),
            ),
    {
        broadcast use lemma_add_contains, lemma_push_contains;

        let args = Self::command_args(input);
        let tail = Seq::<char>::empty();
        assert(Self::script(input) =~= join(args, seq![' ']) + tail);
        if let Some(v) = input.computer_name {
            lemma_script_holds_argument(args, tail, quoted_arg("-ComputerName"@, v@));
        }
    }

    /// A request is valid only when it passes every check: none of the
    /// conditions that refuse a request holds of it.
    pub proof fn lemma_valid_request_passes_every_check(
        input: RemoveVmSwitchExtensionPortFeatureInput,
    )
        requires
            Self::input_problem(input) is None,
        ensures
            !(is_blank(input.feature_id@)),
            !(input.vm_network_adapter matches Some(s) && is_blank(s@)),
            !(input.computer_name matches Some(s) && is_blank(s@)),
    {
    }
}

} // verus!
