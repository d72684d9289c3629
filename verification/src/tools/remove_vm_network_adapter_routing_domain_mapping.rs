//! `hyperv_remove_vm_network_adapter_routing_domain_mapping`: removes a routing domain from a virtual network adapter.
use vstd::prelude::*;
use crate::command::{
    holds, join, lemma_add_contains, lemma_push_contains, lemma_script_holds_argument, opt_quoted,
    quoted_arg, target_args, ArgList,
};
use crate::error::{invalid_input, script_outcome, ToolError};
use crate::json::{
    decode_records, describes_all, effective_output, parsed_json, read_printed, FromJson, JsonValue,
};
use crate::text::{is_blank, is_provided, option_is_blank, option_is_provided};

verus! {

/// The tool's name.
pub const NAME: &'static str = "hyperv_remove_vm_network_adapter_routing_domain_mapping";

/// What the tool does.
pub const DESCRIPTION: &'static str = "Removes a routing domain from a virtual network adapter.";

/// What the script runs after the cmdlet: the fields it prints, as JSON.
pub const SELECT: &'static str = " | Select-Object @{N='RoutingDomainID';E={$_.RoutingDomainID.ToString()}}, RoutingDomainName, VMName, VMNetworkAdapterName, ComputerName | ConvertTo-Json -Compress -Depth 3";

/// What the tool is asked.
#[derive(Debug)]
pub struct RemoveVmNetworkAdapterRoutingDomainMappingInput {
    /// Name of the virtual machine whose network adapter has the routing domain mapping.
    pub vm_name: Option<String>,
    /// Name of the virtual network adapter that has the routing domain mapping.
    pub vm_network_adapter_name: Option<String>,
    /// Remove the mapping from the management operating system adapter instead of a VM.
    pub management_os: bool,
    /// ID of the routing domain to remove.
    pub routing_domain_id: Option<String>,
    /// Name of the routing domain to remove.
    pub routing_domain_name: Option<String>,
    /// Hyper-V host to target. Defaults to localhost.
    pub computer_name: Option<String>,
}

/// One record of the answer.
#[derive(Debug)]
pub struct RoutingDomainMappingInfo {
    pub routing_domain_id: String,
    pub routing_domain_name: String,
    pub vm_name: String,
    pub vm_network_adapter_name: String,
    pub computer_name: String,
}

/// What the tool answers.
#[derive(Debug)]
pub struct RemoveVmNetworkAdapterRoutingDomainMappingOutput {
    /// Routing domain mappings that were removed.
    pub removed: Vec<RoutingDomainMappingInfo>,
}

/// The tool.
#[derive(Default)]
pub struct RemoveVmNetworkAdapterRoutingDomainMappingTool;

impl FromJson for RoutingDomainMappingInfo {
    open spec fn describes(&self, item: JsonValue) -> bool {
        &&& self.routing_domain_id@ == item.text_or_empty("RoutingDomainID"@)
        &&& self.routing_domain_name@ == item.text_or_empty("RoutingDomainName"@)
        &&& self.vm_name@ == item.text_or_empty("VMName"@)
        &&& self.vm_network_adapter_name@ == item.text_or_empty("VMNetworkAdapterName"@)
        &&& self.computer_name@ == item.text_or_empty("ComputerName"@)
    }

    fn from_json(item: &JsonValue) -> (r: Self) {
        RoutingDomainMappingInfo {
            routing_domain_id: item.text_or_empty_at("RoutingDomainID"),
            routing_domain_name: item.text_or_empty_at("RoutingDomainName"),
            vm_name: item.text_or_empty_at("VMName"),
            vm_network_adapter_name: item.text_or_empty_at("VMNetworkAdapterName"),
            computer_name: item.text_or_empty_at("ComputerName"),
        }
    }
}

impl RemoveVmNetworkAdapterRoutingDomainMappingTool {
    /// The first problem with the request, as the message that reports it.
    pub open spec fn input_problem(
        input: RemoveVmNetworkAdapterRoutingDomainMappingInput,
    ) -> Option<Seq<char>> {
        if input.management_os && input.vm_name is Some {
            Some("vmName cannot be combined with managementOS"@)
        } else if !input.management_os && !is_provided(input.vm_name) {
            Some("vmName must be provided when managementOS is not enabled"@)
        } else if input.routing_domain_id is None && input.routing_domain_name is None {
            Some("At least one of routingDomainID or routingDomainName must be specified"@)
        } else if input.routing_domain_id matches Some(s) && is_blank(s@) {
            Some("routingDomainID must not be empty when provided"@)
        } else if input.routing_domain_name matches Some(s) && is_blank(s@) {
            Some("routingDomainName must not be empty when provided"@)
        } else if input.vm_network_adapter_name matches Some(s) && is_blank(s@) {
            Some("vmNetworkAdapterName must not be empty when provided"@)
        } else if input.computer_name matches Some(s) && is_blank(s@) {
            Some("computerName must not be empty when provided"@)
        } else {
            None
        }
    }

    /// The arguments of the cmdlet.
    pub open spec fn command_args(
        input: RemoveVmNetworkAdapterRoutingDomainMappingInput,
    ) -> Seq<Seq<char>> {
        seq!["Remove-VMNetworkAdapterRoutingDomainMapping"@]
            + target_args(input.management_os, input.vm_name)
            + opt_quoted("-VMNetworkAdapterName"@, input.vm_network_adapter_name)
            + opt_quoted("-RoutingDomainID"@, input.routing_domain_id)
            + opt_quoted("-RoutingDomainName"@, input.routing_domain_name)
            + opt_quoted("-ComputerName"@, input.computer_name)
            + seq!["-Confirm:$false"@]
    }

    /// The script that runs for a valid request.
    pub open spec fn script(input: RemoveVmNetworkAdapterRoutingDomainMappingInput) -> Seq<char> {
        join(Self::command_args(input), seq![' ']) + SELECT@
    }

    /// Checks the request and builds its script.
    pub fn build_script(
        input: &RemoveVmNetworkAdapterRoutingDomainMappingInput,
    ) -> (r: Result<String, ToolError>)
        ensures
            script_outcome(r, Self::input_problem(*input), Self::script(*input)),
    {
        if input.management_os && input.vm_name.is_some() {
            return Err(invalid_input("vmName cannot be combined with managementOS"));
        }
        if !input.management_os && !option_is_provided(&input.vm_name) {
            return Err(invalid_input(
                "vmName must be provided when managementOS is not enabled",
            ));
        }
        if input.routing_domain_id.is_none() && input.routing_domain_name.is_none() {
            return Err(invalid_input(
                "At least one of routingDomainID or routingDomainName must be specified",
            ));
        }
        if option_is_blank(&input.routing_domain_id) {
            return Err(invalid_input("routingDomainID must not be empty when provided"));
        }
        if option_is_blank(&input.routing_domain_name) {
            return Err(invalid_input("routingDomainName must not be empty when provided"));
        }
        if option_is_blank(&input.vm_network_adapter_name) {
            return Err(invalid_input("vmNetworkAdapterName must not be empty when provided"));
        }
        if option_is_blank(&input.computer_name) {
            return Err(invalid_input("computerName must not be empty when provided"));
        }
        let mut args = ArgList::new("Remove-VMNetworkAdapterRoutingDomainMapping");
        args.push_target(input.management_os, &input.vm_name);
        args.push_opt_quoted("-VMNetworkAdapterName", &input.vm_network_adapter_name);
        args.push_opt_quoted("-RoutingDomainID", &input.routing_domain_id);
        args.push_opt_quoted("-RoutingDomainName", &input.routing_domain_name);
        args.push_opt_quoted("-ComputerName", &input.computer_name);
        args.push_literal("-Confirm:$false");
        assert(args@ === Self::command_args(*input));
        Ok(args.to_command_with(SELECT))
    }

    /// Reads the answer from what the script printed: one entry per record.
    pub fn parse_output(raw: JsonValue) -> (r: RemoveVmNetworkAdapterRoutingDomainMappingOutput)
        ensures
            describes_all(r.removed@, raw.records()),
    {
        RemoveVmNetworkAdapterRoutingDomainMappingOutput { removed: decode_records(raw) }
    }

    /// Reads the answer from the text the script printed; blank text reads as
    /// an empty list, and text that is not JSON is a `Json` error.
    pub fn read_output(printed: &str) -> (r: Result<RemoveVmNetworkAdapterRoutingDomainMappingOutput, ToolError>)
        ensures
            match parsed_json(effective_output(printed@)) {
                Some(raw) => r matches Ok(out) && describes_all(out.removed@, raw.records()),
                None => r matches Err(ToolError::Json(_)),
            },
    {
        match read_printed(printed) {
            Ok(raw) => Ok(Self::parse_output(raw)),
            Err(e) => Err(e),
        }
    }

    /// Every value of a valid request reaches the script that `build_script`
    /// returns under its own flag: each flag below stands in the script
    /// followed by the value of the field of the same name.
    pub proof fn lemma_script_carries_each_value(
        input: RemoveVmNetworkAdapterRoutingDomainMappingInput,
    )
        requires
            Self::input_problem(input) is None,
        ensures
            input.management_os ==> holds(Self::script(input), "-ManagementOS"@),
            input.vm_name matches Some(v) ==> !(input.management_os) ==> holds(
                Self::script(input),
                quoted_arg("-VMName"@, v@),
            ),
            input.vm_network_adapter_name matches Some(v) ==> holds(
                Self::script(input),
                quoted_arg("-VMNetworkAdapterName"@, v@),
            ),
            input.routing_domain_id matches Some(v) ==> holds(
                Self::script(input),
                quoted_arg("-RoutingDomainID"@, v@),
            ),
            input.routing_domain_name matches Some(v) ==> holds(
                Self::script(input),
                quoted_arg("-RoutingDomainName"@, v@),
            ),
            input.computer_name matches Some(v) ==> holds(
                Self::script(input),
                quoted_arg("-ComputerName"@, v@),
            ),
    {
        Self::script_carries_management_os(input);
        Self::script_carries_vm_name(input);
        Self::script_carries_vm_network_adapter_name(input);
        Self::script_carries_routing_domain_id(input);
        Self::script_carries_routing_domain_name(input);
        Self::script_carries_computer_name(input);
    }

    proof fn script_carries_management_os(input: RemoveVmNetworkAdapterRoutingDomainMappingInput)
        ensures
            input.management_os ==> holds(Self::script(input), "-ManagementOS"@),
    {
        broadcast use lemma_add_contains, lemma_push_contains;

        let args = Self::command_args(input);
        let tail = SELECT@;
        if input.management_os {
            lemma_script_holds_argument(args, tail, "-ManagementOS"@);
        }
    }

    proof fn script_carries_vm_name(input: RemoveVmNetworkAdapterRoutingDomainMappingInput)
        ensures
            input.vm_name matches Some(v) ==> !(input.management_os) ==> holds(
                Self::script(input),
                quoted_arg("-VMName"@, v@),
            ),
    {
        broadcast use lemma_add_contains, lemma_push_contains;

        let args = Self::command_args(input);
        let tail = SELECT@;
        if !(input.management_os) && input.vm_name is Some {
            lemma_script_holds_argument(args, tail, quoted_arg("-VMName"@, input.vm_name->0@));
        }
    }

    proof fn script_carries_vm_network_adapter_name(
        input: RemoveVmNetworkAdapterRoutingDomainMappingInput,
    )
        ensures
            input.vm_network_adapter_name matches Some(v) ==> holds(
                Self::script(input),
                quoted_arg("-VMNetworkAdapterName"@, v@),
            ),
    {
        broadcast use lemma_add_contains, lemma_push_contains;

        let args = Self::command_args(input);
        let tail = SELECT@;
        if let Some(v) = input.vm_network_adapter_name {
            lemma_script_holds_argument(args, tail, quoted_arg("-VMNetworkAdapterName"@, v@));
        }
    }

    proof fn script_carries_routing_domain_id(
        input: RemoveVmNetworkAdapterRoutingDomainMappingInput,
    )
        ensures
            input.routing_domain_id matches Some(v) ==> holds(
                Self::script(input),
                quoted_arg("-RoutingDomainID"@, v@),
            ),
    {
        broadcast use lemma_add_contains, lemma_push_contains;

        let args = Self::command_args(input);
        let tail = SELECT@;
        if let Some(v) = input.routing_domain_id {
            lemma_script_holds_argument(args, tail, quoted_arg("-RoutingDomainID"@, v@));
        }
    }

    proof fn script_carries_routing_domain_name(
        input: RemoveVmNetworkAdapterRoutingDomainMappingInput,
    )
        ensures
            input.routing_domain_name matches Some(v) ==> holds(
                Self::script(input),
                quoted_arg("-RoutingDomainName"@, v@),
            ),
    {
        broadcast use lemma_add_contains, lemma_push_contains;

        let args = Self::command_args(input);
        let tail = SELECT@;
        if let Some(v) = input.routing_domain_name {
            lemma_script_holds_argument(args, tail, quoted_arg("-RoutingDomainName"@, v@));
        }
    }

    proof fn script_carries_computer_name(input: RemoveVmNetworkAdapterRoutingDomainMappingInput)
        ensures
            input.computer_name matches Some(v) ==> holds(
                Self::script(input),
                quoted_arg("-ComputerName"@, v@),
            ),
    {
        broadcast use lemma_add_contains, lemma_push_contains;

        let args = Self::command_args(input);
        let tail = SELECT@;
        if let Some(v) = input.computer_name {
            lemma_script_holds_argument(args, tail, quoted_arg("-ComputerName"@, v@));
        }
    }

    /// Each entry of the answer reads the printed record at its place: every
    /// field holds the record's member of the matching name.
    pub proof fn lemma_answer_reads_each_record(
        raw: JsonValue,
        out: RemoveVmNetworkAdapterRoutingDomainMappingOutput,
    )
        requires
            describes_all(out.removed@, raw.records()),
        ensures
            out.removed@.len() == raw.records().len(),
            forall|i: int|
                #![trigger out.removed@[i]]
                0 <= i < raw.records().len() ==> {
                    &&& out.removed@[i].routing_domain_id@
                        == raw.records()[i].text_or_empty("RoutingDomainID"@)
                    &&& out.removed@[i].routing_domain_name@
                        == raw.records()[i].text_or_empty("RoutingDomainName"@)
                    &&& out.removed@[i].vm_name@ == raw.records()[i].text_or_empty("VMName"@)
                    &&& out.removed@[i].vm_network_adapter_name@
                        == raw.records()[i].text_or_empty("VMNetworkAdapterName"@)
                    &&& out.removed@[i].computer_name@
                        == raw.records()[i].text_or_empty("ComputerName"@)
                },
    {
        assert forall|i: int| 0 <= i < raw.records().len() implies {
            &&& out.removed@[i].routing_domain_id@
                == raw.records()[i].text_or_empty("RoutingDomainID"@)
            &&& out.removed@[i].routing_domain_name@
                == raw.records()[i].text_or_empty("RoutingDomainName"@)
            &&& out.removed@[i].vm_name@ == raw.records()[i].text_or_empty("VMName"@)
            &&& out.removed@[i].vm_network_adapter_name@
                == raw.records()[i].text_or_empty("VMNetworkAdapterName"@)
            &&& out.removed@[i].computer_name@ == raw.records()[i].text_or_empty("ComputerName"@)
        } by {
            assert(out.removed@[i].describes(raw.records()[i]));
        }
    }

    /// A request is valid only when it passes every check: none of the
    /// conditions that refuse a request holds of it.
    pub proof fn lemma_valid_request_passes_every_check(
        input: RemoveVmNetworkAdapterRoutingDomainMappingInput,
    )
        requires
            Self::input_problem(input) is None,
        ensures
            !(input.management_os && input.vm_name is Some),
            !(!input.management_os && !is_provided(input.vm_name)),
            !(input.routing_domain_id is None && input.routing_domain_name is None),
            !(input.routing_domain_id matches Some(s) && is_blank(s@)),
            !(input.routing_domain_name matches Some(s) && is_blank(s@)),
            !(input.vm_network_adapter_name matches Some(s) && is_blank(s@)),
            !(input.computer_name matches Some(s) && is_blank(s@)),
    {
    }

    /// A valid request names one target, the management operating system or a
    /// virtual machine, never both.
    pub proof fn lemma_valid_request_names_one_target(
        input: RemoveVmNetworkAdapterRoutingDomainMappingInput,
    )
        requires
            Self::input_problem(input) is None,
        ensures
            input.management_os == (input.vm_name is None),
            target_args(input.management_os, input.vm_name).len() == 1,
    {
    }
}

} // verus!
