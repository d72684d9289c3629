//! `hyperv_set_vm_network_adapter_team_mapping`: configures team mapping settings for a virtual network adapter.
use vstd::prelude::*;
use crate::command::{
    holds, join, lemma_add_contains, lemma_push_contains, lemma_script_holds_argument, opt_quoted,
    quoted_arg, target_args, ArgList,
};
use crate::error::{invalid_input, script_outcome, ToolError};
use crate::json::{
    decode_records, describes_all, effective_output, parsed_json, read_printed, FromJson, JsonValue,
};
use crate::text::{is_blank, is_provided, option_is_provided, text_is_blank};

verus! {

/// The tool's name.
pub const NAME: &'static str = "hyperv_set_vm_network_adapter_team_mapping";

/// What the tool does.
pub const DESCRIPTION: &'static str = "Configures team mapping settings for a virtual network adapter.";

/// What the script runs after the cmdlet: the fields it prints, as JSON.
pub const SELECT: &'static str = " | Select-Object @{N='Name';E={$_.Name}}, SwitchName, NetAdapterName, NetAdapterInterfaceDescription, VMName, ComputerName | ConvertTo-Json -Compress -Depth 3";

/// What the tool is asked.
#[derive(Debug)]
pub struct SetVmNetworkAdapterTeamMappingInput {
    /// Name of the virtual machine whose virtual network adapter is to be mapped.
    /// Not used when management_os is true.
    pub vm_name: Option<String>,
    /// Name of the virtual network adapter to map to a physical network adapter.
    pub name: String,
    /// Name of the physical network adapter to map the virtual network adapter to.
    pub physical_net_adapter_name: String,
    /// Hyper-V host to target. Defaults to localhost.
    pub computer_name: Option<String>,
    /// Configure team mapping for the management operating system instead of a VM.
    pub management_os: Option<bool>,
    /// Name of the virtual switch. Only used with management_os.
    pub switch_name: Option<String>,
}

/// One record of the answer.
#[derive(Debug)]
pub struct VmNetworkAdapterTeamMappingInfo {
    pub name: String,
    pub switch_name: String,
    pub net_adapter_name: String,
    pub net_adapter_interface_description: String,
    pub vm_name: String,
    pub computer_name: String,
}

/// What the tool answers.
#[derive(Debug)]
pub struct SetVmNetworkAdapterTeamMappingOutput {
    pub mappings: Vec<VmNetworkAdapterTeamMappingInfo>,
}

/// The tool.
#[derive(Default)]
pub struct SetVmNetworkAdapterTeamMappingTool;

impl FromJson for VmNetworkAdapterTeamMappingInfo {
    open spec fn describes(&self, item: JsonValue) -> bool {
        &&& self.name@ == item.text_or_empty("Name"@)
        &&& self.switch_name@ == item.text_or_empty("SwitchName"@)
        &&& self.net_adapter_name@ == item.text_or_empty("NetAdapterName"@)
        &&& self.net_adapter_interface_description@
            == item.text_or_empty("NetAdapterInterfaceDescription"@)
        &&& self.vm_name@ == item.text_or_empty("VMName"@)
        &&& self.computer_name@ == item.text_or_empty("ComputerName"@)
    }

    fn from_json(item: &JsonValue) -> (r: Self) {
        VmNetworkAdapterTeamMappingInfo {
            name: item.text_or_empty_at("Name"),
            switch_name: item.text_or_empty_at("SwitchName"),
            net_adapter_name: item.text_or_empty_at("NetAdapterName"),
            net_adapter_interface_description: item.text_or_empty_at(
                "NetAdapterInterfaceDescription",
            ),
            vm_name: item.text_or_empty_at("VMName"),
            computer_name: item.text_or_empty_at("ComputerName"),
        }
    }
}

impl SetVmNetworkAdapterTeamMappingTool {
    /// The first problem with the request, as the message that reports it.
    pub open spec fn input_problem(
        input: SetVmNetworkAdapterTeamMappingInput,
    ) -> Option<Seq<char>> {
        if is_blank(input.name@) {
            Some("Virtual network adapter name must not be empty"@)
        } else if is_blank(input.physical_net_adapter_name@) {
            Some("Physical network adapter name must not be empty"@)
        } else if !(input.management_os == Some(true)) && !is_provided(input.vm_name) {
            Some("VM name must be provided when management_os is not enabled"@)
        } else {
            None
        }
    }

    /// The arguments of the cmdlet.
    pub open spec fn command_args(input: SetVmNetworkAdapterTeamMappingInput) -> Seq<Seq<char>> {
        seq!["Set-VMNetworkAdapterTeamMapping"@]
            + target_args(input.management_os == Some(true), input.vm_name)
            + seq![quoted_arg("-VMNetworkAdapterName"@, input.name@)]
            + seq![quoted_arg("-PhysicalNetAdapterName"@, input.physical_net_adapter_name@)]
            + opt_quoted("-ComputerName"@, input.computer_name)
            + opt_quoted("-SwitchName"@, input.switch_name)
    }

    /// The script that runs for a valid request.
    pub open spec fn script(input: SetVmNetworkAdapterTeamMappingInput) -> Seq<char> {
        join(Self::command_args(input), seq![' ']) + SELECT@
    }

    /// Checks the request and builds its script.
    pub fn build_script(
        input: &SetVmNetworkAdapterTeamMappingInput,
    ) -> (r: Result<String, ToolError>)
        ensures
            script_outcome(r, Self::input_problem(*input), Self::script(*input)),
    {
        let management_os = matches!(input.management_os, Some(true));
        if text_is_blank(input.name.as_str()) {
            return Err(invalid_input("Virtual network adapter name must not be empty"));
        }
        if text_is_blank(input.physical_net_adapter_name.as_str()) {
            return Err(invalid_input("Physical network adapter name must not be empty"));
        }
        if !management_os && !option_is_provided(&input.vm_name) {
            return Err(invalid_input(
                "VM name must be provided when management_os is not enabled",
            ));
        }
        let mut args = ArgList::new("Set-VMNetworkAdapterTeamMapping");
        args.push_target(management_os, &input.vm_name);
        args.push_quoted("-VMNetworkAdapterName", input.name.as_str());
        args.push_quoted("-PhysicalNetAdapterName", input.physical_net_adapter_name.as_str());
        args.push_opt_quoted("-ComputerName", &input.computer_name);
        args.push_opt_quoted("-SwitchName", &input.switch_name);
        assert(args@ === Self::command_args(*input));
        Ok(args.to_command_with(SELECT))
    }

    /// Reads the answer from what the script printed: one entry per record.
    pub fn parse_output(raw: JsonValue) -> (r: SetVmNetworkAdapterTeamMappingOutput)
        ensures
            describes_all(r.mappings@, raw.records()),
    {
        SetVmNetworkAdapterTeamMappingOutput { mappings: decode_records(raw) }
    }

    /// Reads the answer from the text the script printed; blank text reads as
    /// an empty list, and text that is not JSON is a `Json` error.
    pub fn read_output(printed: &str) -> (r: Result<SetVmNetworkAdapterTeamMappingOutput, ToolError>)
        ensures
            match parsed_json(effective_output(printed@)) {
                Some(raw) => r matches Ok(out) && describes_all(out.mappings@, raw.records()),
                None => r matches Err(ToolError::Json(_)),
            },
    {
        match read_printed(printed) {
            Ok(raw) => Ok(Self::parse_output(raw)),
            Err(e) => Err(e),
        }
    }

    /// Every value of a valid request reaches the script that `build_script`
    /// returns under its own flag: each flag below stands in the script
    /// followed by the value of the field of the same name.
    pub proof fn lemma_script_carries_each_value(input: SetVmNetworkAdapterTeamMappingInput)
        requires
            Self::input_problem(input) is None,
        ensures
            input.management_os == Some(true) ==> holds(Self::script(input), "-ManagementOS"@),
            input.vm_name matches Some(v) ==> !(input.management_os == Some(true)) ==> holds(
                Self::script(input),
                quoted_arg("-VMName"@, v@),
            ),
            holds(Self::script(input), quoted_arg("-VMNetworkAdapterName"@, input.name@)),
            holds(
                Self::script(input),
                quoted_arg("-PhysicalNetAdapterName"@, input.physical_net_adapter_name@),
            ),
            input.computer_name matches Some(v) ==> holds(
                Self::script(input),
                quoted_arg("-ComputerName"@, v@),
            ),
            input.switch_name matches Some(v) ==> holds(
                Self::script(input),
                quoted_arg("-SwitchName"@, v@),
            ),
    {
        Self::script_carries_management_os(input);
        Self::script_carries_vm_name(input);
        Self::script_carries_name(input);
        Self::script_carries_physical_net_adapter_name(input);
        Self::script_carries_computer_name(input);
        Self::script_carries_switch_name(input);
    }

    proof fn script_carries_management_os(input: SetVmNetworkAdapterTeamMappingInput)
        ensures
            input.management_os == Some(true) ==> holds(Self::script(input), "-ManagementOS"@),
    {
        broadcast use lemma_add_contains, lemma_push_contains;

        let args = Self::command_args(input);
        let tail = SELECT@;
        if input.management_os == Some(true) {
            lemma_script_holds_argument(args, tail, "-ManagementOS"@);
        }
    }

    proof fn script_carries_vm_name(input: SetVmNetworkAdapterTeamMappingInput)
        ensures
            input.vm_name matches Some(v) ==> !(input.management_os == Some(true)) ==> holds(
                Self::script(input),
                quoted_arg("-VMName"@, v@),
            ),
    {
        broadcast use lemma_add_contains, lemma_push_contains;

        let args = Self::command_args(input);
        let tail = SELECT@;
        if !(input.management_os == Some(true)) && input.vm_name is Some {
            lemma_script_holds_argument(args, tail, quoted_arg("-VMName"@, input.vm_name->0@));
        }
    }

    proof fn script_carries_name(input: SetVmNetworkAdapterTeamMappingInput)
        ensures
            holds(Self::script(input), quoted_arg("-VMNetworkAdapterName"@, input.name@)),
    {
        broadcast use lemma_add_contains, lemma_push_contains;

        let args = Self::command_args(input);
        let tail = SELECT@;
        lemma_script_holds_argument(args, tail, quoted_arg("-VMNetworkAdapterName"@, input.name@));
    }

    proof fn script_carries_physical_net_adapter_name(input: SetVmNetworkAdapterTeamMappingInput)
        ensures
            holds(
                Self::script(input),
                quoted_arg("-PhysicalNetAdapterName"@, input.physical_net_adapter_name@),
            ),
    {
        broadcast use lemma_add_contains, lemma_push_contains;

        let args = Self::command_args(input);
        let tail = SELECT@;
        lemma_script_holds_argument(
            args,
            tail,
            quoted_arg("-PhysicalNetAdapterName"@, input.physical_net_adapter_name@),
        );
    }

    proof fn script_carries_computer_name(input: SetVmNetworkAdapterTeamMappingInput)
        ensures
            input.computer_name matches Some(v) ==> holds(
                Self::script(input),
                quoted_arg("-ComputerName"@, v@),
            ),
    {
        broadcast use lemma_add_contains, lemma_push_contains;

        let args = Self::command_args(input);
        let tail = SELECT@;
        if let Some(v) = input.computer_name {
            lemma_script_holds_argument(args, tail, quoted_arg("-ComputerName"@, v@));
        }
    }

    proof fn script_carries_switch_name(input: SetVmNetworkAdapterTeamMappingInput)
        ensures
            input.switch_name matches Some(v) ==> holds(
                Self::script(input),
                quoted_arg("-SwitchName"@, v@),
            ),
    {
        broadcast use lemma_add_contains, lemma_push_contains;

        let args = Self::command_args(input);
        let tail = SELECT@;
        if let Some(v) = input.switch_name {
            lemma_script_holds_argument(args, tail, quoted_arg("-SwitchName"@, v@));
        }
    }

    /// Each entry of the answer reads the printed record at its place: every
    /// field holds the record's member of the matching name.
    pub proof fn lemma_answer_reads_each_record(
        raw: JsonValue,
        out: SetVmNetworkAdapterTeamMappingOutput,
    )
        requires
            describes_all(out.mappings@, raw.records()),
        ensures
            out.mappings@.len() == raw.records().len(),
            forall|i: int|
                #![trigger out.mappings@[i]]
                0 <= i < raw.records().len() ==> {
                    &&& out.mappings@[i].name@ == raw.records()[i].text_or_empty("Name"@)
                    &&& out.mappings@[i].switch_name@
                        == raw.records()[i].text_or_empty("SwitchName"@)
                    &&& out.mappings@[i].net_adapter_name@
                        == raw.records()[i].text_or_empty("NetAdapterName"@)
                    &&& out.mappings@[i].net_adapter_interface_description@
                        == raw.records()[i].text_or_empty("NetAdapterInterfaceDescription"@)
                    &&& out.mappings@[i].vm_name@ == raw.records()[i].text_or_empty("VMName"@)
                    &&& out.mappings@[i].computer_name@
                        == raw.records()[i].text_or_empty("ComputerName"@)
                },
    {
        assert forall|i: int| 0 <= i < raw.records().len() implies {
            &&& out.mappings@[i].name@ == raw.records()[i].text_or_empty("Name"@)
            &&& out.mappings@[i].switch_name@ == raw.records()[i].text_or_empty("SwitchName"@)
            &&& out.mappings@[i].net_adapter_name@
                == raw.records()[i].text_or_empty("NetAdapterName"@)
            &&& out.mappings@[i].net_adapter_interface_description@
                == raw.records()[i].text_or_empty("NetAdapterInterfaceDescription"@)
            &&& out.mappings@[i].vm_name@ == raw.records()[i].text_or_empty("VMName"@)
            &&& out.mappings@[i].computer_name@ == raw.records()[i].text_or_empty("ComputerName"@)
        } by {
            assert(out.mappings@[i].describes(raw.records()[i]));
        }
    }

    /// A request is valid only when it passes every check: none of the
    /// conditions that refuse a request holds of it.
    pub proof fn lemma_valid_request_passes_every_check(input: SetVmNetworkAdapterTeamMappingInput)
        requires
            Self::input_problem(input) is None,
        ensures
            !(is_blank(input.name@)),
            !(is_blank(input.physical_net_adapter_name@)),
            !(!(input.management_os == Some(true)) && !is_provided(input.vm_name)),
    {
    }

    /// A valid request names its target: the management operating system, or
    /// the virtual machine it names.
    pub proof fn lemma_valid_request_names_target(input: SetVmNetworkAdapterTeamMappingInput)
        requires
            Self::input_problem(input) is None,
        ensures
            target_args(input.management_os == Some(true), input.vm_name).len() == 1,
    {
    }
}

} // verus!
