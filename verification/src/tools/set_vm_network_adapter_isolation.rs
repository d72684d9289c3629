//! `hyperv_set_vm_network_adapter_isolation`: modifies isolation settings for a virtual network adapter.
use vstd::prelude::*;
use crate::command::{
    bool_arg, holds, join, lemma_add_contains, lemma_push_contains, lemma_script_holds_argument,
    number_arg, opt_bool, opt_i32, opt_quoted, quoted_arg, target_args, ArgList,
};
use crate::error::{invalid_input, script_outcome, ToolError};
use crate::json::{
    decode_records, describes_all, effective_output, parsed_json, read_printed, FromJson, JsonValue,
};
use crate::text::{is_blank, is_provided, option_is_provided, text_is_blank};

verus! {

/// The tool's name.
pub const NAME: &'static str = "hyperv_set_vm_network_adapter_isolation";

/// What the tool does.
pub const DESCRIPTION: &'static str = "Modifies isolation settings for a virtual network adapter.";

/// What the script runs after the cmdlet: the fields it prints, as JSON.
pub const SELECT: &'static str = " | Select-Object @{N='IsolationMode';E={$_.IsolationMode.ToString()}}, AllowUntaggedTraffic, DefaultIsolationID, @{N='MultiTenantStack';E={$_.MultiTenantStack.ToString()}}, @{N='AdapterName';E={$_.ParentAdapter.Name}}, @{N='VMName';E={$_.ParentAdapter.VMName}}, ComputerName | ConvertTo-Json -Compress -Depth 3";

/// What the tool is asked.
#[derive(Debug)]
pub struct SetVmNetworkAdapterIsolationInput {
    /// Name of the virtual machine whose network adapter isolation is to be configured.
    /// Not used when management_os is true.
    pub vm_name: Option<String>,
    /// Name of the virtual network adapter to configure.
    pub name: String,
    /// Hyper-V host to target. Defaults to localhost.
    pub computer_name: Option<String>,
    /// Configure the adapter in the management operating system instead of a VM.
    pub management_os: Option<bool>,
    /// Isolation mode for the network adapter. Valid values: None, NativeVirtualSubnet, ExternalVirtualSubnet, Vlan.
    pub isolation_mode: Option<String>,
    /// Allow untagged traffic on the adapter.
    pub allow_untagged_traffic: Option<bool>,
    /// Default isolation ID for the adapter.
    pub default_isolation_id: Option<i32>,
    /// Enable or disable the multi-tenant stack. Valid values: On, Off.
    pub multi_tenant_stack: Option<String>,
}

/// One record of the answer.
#[derive(Debug)]
pub struct VmNetworkAdapterIsolationInfo {
    pub isolation_mode: String,
    pub allow_untagged_traffic: bool,
    pub default_isolation_id: i32,
    pub multi_tenant_stack: String,
    pub adapter_name: String,
    pub vm_name: String,
    pub computer_name: String,
}

/// What the tool answers.
#[derive(Debug)]
pub struct SetVmNetworkAdapterIsolationOutput {
    pub settings: Vec<VmNetworkAdapterIsolationInfo>,
}

/// The tool.
#[derive(Default)]
pub struct SetVmNetworkAdapterIsolationTool;

impl FromJson for VmNetworkAdapterIsolationInfo {
    open spec fn describes(&self, item: JsonValue) -> bool {
        &&& self.isolation_mode@ == item.text_or_empty("IsolationMode"@)
        &&& self.allow_untagged_traffic == item.flag_or_false("AllowUntaggedTraffic"@)
        &&& self.default_isolation_id == item.i64_or_zero("DefaultIsolationID"@) as i32
        &&& self.multi_tenant_stack@ == item.text_or_empty("MultiTenantStack"@)
        &&& self.adapter_name@ == item.text_or_empty("AdapterName"@)
        &&& self.vm_name@ == item.text_or_empty("VMName"@)
        &&& self.computer_name@ == item.text_or_empty("ComputerName"@)
    }

    fn from_json(item: &JsonValue) -> (r: Self) {
        VmNetworkAdapterIsolationInfo {
            isolation_mode: item.text_or_empty_at("IsolationMode"),
            allow_untagged_traffic: item.flag_or_false_at("AllowUntaggedTraffic"),
            default_isolation_id: item.i64_or_zero_at("DefaultIsolationID") as i32,
            multi_tenant_stack: item.text_or_empty_at("MultiTenantStack"),
            adapter_name: item.text_or_empty_at("AdapterName"),
            vm_name: item.text_or_empty_at("VMName"),
            computer_name: item.text_or_empty_at("ComputerName"),
        }
    }
}

impl SetVmNetworkAdapterIsolationTool {
    /// The first problem with the request, as the message that reports it.
    pub open spec fn input_problem(input: SetVmNetworkAdapterIsolationInput) -> Option<Seq<char>> {
        if is_blank(input.name@) {
            Some("Network adapter name must not be empty"@)
        } else if !(input.management_os == Some(true)) && !is_provided(input.vm_name) {
            Some("VM name must be provided when management_os is not enabled"@)
        } else if input.isolation_mode is None
            && input.allow_untagged_traffic is None
            && input.default_isolation_id is None
            && input.multi_tenant_stack is None {
            Some("At least one isolation setting must be provided"@)
        } else {
            None
        }
    }

    /// The arguments of the cmdlet.
    pub open spec fn command_args(input: SetVmNetworkAdapterIsolationInput) -> Seq<Seq<char>> {
        seq!["Set-VMNetworkAdapterIsolation"@]
            + target_args(input.management_os == Some(true), input.vm_name)
            + seq![quoted_arg("-VMNetworkAdapterName"@, input.name@)]
            + opt_quoted("-ComputerName"@, input.computer_name)
            + opt_quoted("-IsolationMode"@, input.isolation_mode)
            + opt_bool("-AllowUntaggedTraffic"@, input.allow_untagged_traffic)
            + opt_i32("-DefaultIsolationID"@, input.default_isolation_id)
            + opt_quoted("-MultiTenantStack"@, input.multi_tenant_stack)
    }

    /// The script that runs for a valid request.
    pub open spec fn script(input: SetVmNetworkAdapterIsolationInput) -> Seq<char> {
        join(Self::command_args(input), seq![' ']) + SELECT@
    }

    /// Checks the request and builds its script.
    pub fn build_script(input: &SetVmNetworkAdapterIsolationInput) -> (r: Result<String, ToolError>)
        ensures
            script_outcome(r, Self::input_problem(*input), Self::script(*input)),
    {
        let management_os = matches!(input.management_os, Some(true));
        if text_is_blank(input.name.as_str()) {
            return Err(invalid_input("Network adapter name must not be empty"));
        }
        if !management_os && !option_is_provided(&input.vm_name) {
            return Err(invalid_input(
                "VM name must be provided when management_os is not enabled",
            ));
        }
        if input.isolation_mode.is_none()
            && input.allow_untagged_traffic.is_none()
            && input.default_isolation_id.is_none()
            && input.multi_tenant_stack.is_none() {
            return Err(invalid_input("At least one isolation setting must be provided"));
        }
        let mut args = ArgList::new("Set-VMNetworkAdapterIsolation");
        args.push_target(management_os, &input.vm_name);
        args.push_quoted("-VMNetworkAdapterName", input.name.as_str());
        args.push_opt_quoted("-ComputerName", &input.computer_name);
        args.push_opt_quoted("-IsolationMode", &input.isolation_mode);
        args.push_opt_bool("-AllowUntaggedTraffic", input.allow_untagged_traffic);
        args.push_opt_i32("-DefaultIsolationID", input.default_isolation_id);
        args.push_opt_quoted("-MultiTenantStack", &input.multi_tenant_stack);
        assert(args@ === Self::command_args(*input));
        Ok(args.to_command_with(SELECT))
    }

    /// Reads the answer from what the script printed: one entry per record.
    pub fn parse_output(raw: JsonValue) -> (r: SetVmNetworkAdapterIsolationOutput)
        ensures
            describes_all(r.settings@, raw.records()),
    {
        SetVmNetworkAdapterIsolationOutput { settings: decode_records(raw) }
    }

    /// Reads the answer from the text the script printed; blank text reads as
    /// an empty list, and text that is not JSON is a `Json` error.
    pub fn read_output(printed: &str) -> (r: Result<SetVmNetworkAdapterIsolationOutput, ToolError>)
        ensures
            match parsed_json(effective_output(printed@)) {
                Some(raw) => r matches Ok(out) && describes_all(out.settings@, raw.records()),
                None => r matches Err(ToolError::Json(_)),
            },
    {
        match read_printed(printed) {
            Ok(raw) => Ok(Self::parse_output(raw)),
            Err(e) => Err(e),
        }
    }

    /// Every value of a valid request reaches the script that `build_script`
    /// returns under its own flag: each flag below stands in the script
    /// followed by the value of the field of the same name.
    pub proof fn lemma_script_carries_each_value(input: SetVmNetworkAdapterIsolationInput)
        requires
            Self::input_problem(input) is None,
        ensures
            input.management_os == Some(true) ==> holds(Self::script(input), "-ManagementOS"@),
            input.vm_name matches Some(v) ==> !(input.management_os == Some(true)) ==> holds(
                Self::script(input),
                quoted_arg("-VMName"@, v@),
            ),
            holds(Self::script(input), quoted_arg("-VMNetworkAdapterName"@, input.name@)),
            input.computer_name matches Some(v) ==> holds(
                Self::script(input),
                quoted_arg("-ComputerName"@, v@),
            ),
            input.isolation_mode matches Some(v) ==> holds(
                Self::script(input),
                quoted_arg("-IsolationMode"@, v@),
            ),
            input.allow_untagged_traffic matches Some(v) ==> holds(
                Self::script(input),
                bool_arg("-AllowUntaggedTraffic"@, v),
            ),
            input.default_isolation_id matches Some(v) ==> holds(
                Self::script(input),
                number_arg("-DefaultIsolationID"@, v as int),
            ),
            input.multi_tenant_stack matches Some(v) ==> holds(
                Self::script(input),
                quoted_arg("-MultiTenantStack"@, v@),
            ),
    {
        Self::script_carries_management_os(input);
        Self::script_carries_vm_name(input);
        Self::script_carries_name(input);
        Self::script_carries_computer_name(input);
        Self::script_carries_isolation_mode(input);
        Self::script_carries_allow_untagged_traffic(input);
        Self::script_carries_default_isolation_id(input);
        Self::script_carries_multi_tenant_stack(input);
    }

    proof fn script_carries_management_os(input: SetVmNetworkAdapterIsolationInput)
        ensures
            input.management_os == Some(true) ==> holds(Self::script(input), "-ManagementOS"@),
    {
        broadcast use lemma_add_contains, lemma_push_contains;

        let args = Self::command_args(input);
        let tail = SELECT@;
        if input.management_os == Some(true) {
            lemma_script_holds_argument(args, tail, "-ManagementOS"@);
        }
    }

    proof fn script_carries_vm_name(input: SetVmNetworkAdapterIsolationInput)
        ensures
            input.vm_name matches Some(v) ==> !(input.management_os == Some(true)) ==> holds(
                Self::script(input),
                quoted_arg("-VMName"@, v@),
            ),
    {
        broadcast use lemma_add_contains, lemma_push_contains;

        let args = Self::command_args(input);
        let tail = SELECT@;
        if !(input.management_os == Some(true)) && input.vm_name is Some {
            lemma_script_holds_argument(args, tail, quoted_arg("-VMName"@, input.vm_name->0@));
        }
    }

    proof fn script_carries_name(input: SetVmNetworkAdapterIsolationInput)
        ensures
            holds(Self::script(input), quoted_arg("-VMNetworkAdapterName"@, input.name@)),
    {
        broadcast use lemma_add_contains, lemma_push_contains;

        let args = Self::command_args(input);
        let tail = SELECT@;
        lemma_script_holds_argument(args, tail, quoted_arg("-VMNetworkAdapterName"@, input.name@));
    }

    proof fn script_carries_computer_name(input: SetVmNetworkAdapterIsolationInput)
        ensures
            input.computer_name matches Some(v) ==> holds(
                Self::script(input),
                quoted_arg("-ComputerName"@, v@),
            ),
    {
        broadcast use lemma_add_contains, lemma_push_contains;

        let args = Self::command_args(input);
        let tail = SELECT@;
        if let Some(v) = input.computer_name {
            lemma_script_holds_argument(args, tail, quoted_arg("-ComputerName"@, v@));
        }
    }

    proof fn script_carries_isolation_mode(input: SetVmNetworkAdapterIsolationInput)
        ensures
            input.isolation_mode matches Some(v) ==> holds(
                Self::script(input),
                quoted_arg("-IsolationMode"@, v@),
            ),
    {
        broadcast use lemma_add_contains, lemma_push_contains;

        let args = Self::command_args(input);
        let tail = SELECT@;
        if let Some(v) = input.isolation_mode {
            lemma_script_holds_argument(args, tail, quoted_arg("-IsolationMode"@, v@));
        }
    }

    proof fn script_carries_allow_untagged_traffic(input: SetVmNetworkAdapterIsolationInput)
        ensures
            input.allow_untagged_traffic matches Some(v) ==> holds(
                Self::script(input),
                bool_arg("-AllowUntaggedTraffic"@, v),
            ),
    {
        broadcast use lemma_add_contains, lemma_push_contains;

        let args = Self::command_args(input);
        let tail = SELECT@;
        if let Some(v) = input.allow_untagged_traffic {
            lemma_script_holds_argument(args, tail, bool_arg("-AllowUntaggedTraffic"@, v));
        }
    }

    proof fn script_carries_default_isolation_id(input: SetVmNetworkAdapterIsolationInput)
        ensures
            input.default_isolation_id matches Some(v) ==> holds(
                Self::script(input),
                number_arg("-DefaultIsolationID"@, v as int),
            ),
    {
        broadcast use lemma_add_contains, lemma_push_contains;

        let args = Self::command_args(input);
        let tail = SELECT@;
        if let Some(v) = input.default_isolation_id {
            lemma_script_holds_argument(args, tail, number_arg("-DefaultIsolationID"@, v as int));
        }
    }

    proof fn script_carries_multi_tenant_stack(input: SetVmNetworkAdapterIsolationInput)
        ensures
            input.multi_tenant_stack matches Some(v) ==> holds(
                Self::script(input),
                quoted_arg("-MultiTenantStack"@, v@),
            ),
    {
        broadcast use lemma_add_contains, lemma_push_contains;

        let args = Self::command_args(input);
        let tail = SELECT@;
        if let Some(v) = input.multi_tenant_stack {
            lemma_script_holds_argument(args, tail, quoted_arg("-MultiTenantStack"@, v@));
        }
    }

    /// Each entry of the answer reads the printed record at its place: every
    /// field holds the record's member of the matching name.
    pub proof fn lemma_answer_reads_each_record(
        raw: JsonValue,
        out: SetVmNetworkAdapterIsolationOutput,
    )
        requires
            describes_all(out.settings@, raw.records()),
        ensures
            out.settings@.len() == raw.records().len(),
            forall|i: int|
                #![trigger out.settings@[i]]
                0 <= i < raw.records().len() ==> {
                    &&& out.settings@[i].isolation_mode@
                        == raw.records()[i].text_or_empty("IsolationMode"@)
                    &&& out.settings@[i].allow_untagged_traffic
                        == raw.records()[i].flag_or_false("AllowUntaggedTraffic"@)
                    &&& out.settings@[i].default_isolation_id
                        == raw.records()[i].i64_or_zero("DefaultIsolationID"@) as i32
                    &&& out.settings@[i].multi_tenant_stack@
                        == raw.records()[i].text_or_empty("MultiTenantStack"@)
                    &&& out.settings@[i].adapter_name@
                        == raw.records()[i].text_or_empty("AdapterName"@)
                    &&& out.settings@[i].vm_name@ == raw.records()[i].text_or_empty("VMName"@)
                    &&& out.settings@[i].computer_name@
                        == raw.records()[i].text_or_empty("ComputerName"@)
                },
    {
        assert forall|i: int| 0 <= i < raw.records().len() implies {
            &&& out.settings@[i].isolation_mode@ == raw.records()[i].text_or_empty("IsolationMode"@)
            &&& out.settings@[i].allow_untagged_traffic
                == raw.records()[i].flag_or_false("AllowUntaggedTraffic"@)
            &&& out.settings@[i].default_isolation_id
                == raw.records()[i].i64_or_zero("DefaultIsolationID"@) as i32
            &&& out.settings@[i].multi_tenant_stack@
                == raw.records()[i].text_or_empty("MultiTenantStack"@)
            &&& out.settings@[i].adapter_name@ == raw.records()[i].text_or_empty("AdapterName"@)
            &&& out.settings@[i].vm_name@ == raw.records()[i].text_or_empty("VMName"@)
            &&& out.settings@[i].computer_name@ == raw.records()[i].text_or_empty("ComputerName"@)
        } by {
            assert(out.settings@[i].describes(raw.records()[i]));
        }
    }

    /// A request is valid only when it passes every check: none of the
    /// conditions that refuse a request holds of it.
    pub proof fn lemma_valid_request_passes_every_check(input: SetVmNetworkAdapterIsolationInput)
        requires
            Self::input_problem(input) is None,
        ensures
            !(is_blank(input.name@)),
            !(!(input.management_os == Some(true)) && !is_provided(input.vm_name)),
            !(input.isolation_mode is None && input.allow_untagged_traffic is None && input.default_isolation_id is None && input.multi_tenant_stack is None),
    {
    }

    /// A valid request names its target: the management operating system, or
    /// the virtual machine it names.
    pub proof fn lemma_valid_request_names_target(input: SetVmNetworkAdapterIsolationInput)
        requires
            Self::input_problem(input) is None,
        ensures
            target_args(input.management_os == Some(true), input.vm_name).len() == 1,
    {
    }
}

} // verus!
