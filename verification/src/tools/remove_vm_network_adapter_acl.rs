//! `hyperv_remove_vm_network_adapter_acl`: removes an ACL applied to the traffic through a virtual network adapter.
use vstd::prelude::*;
use crate::command::{
    holds, join, lemma_add_contains, lemma_push_contains, lemma_script_holds_argument, opt_quoted,
    push_quoted_list_text, quoted_arg, quoted_list, target_args, ArgList,
};
use crate::error::{invalid_input, script_outcome, ToolError};
use crate::json::{
    decode_records, describes_all, effective_output, parsed_json, read_printed, FromJson, JsonValue,
};
use crate::text::{
    ascii_lower, is_blank, lower_is, option_is_blank, push_char, text_is_blank, texts, trim,
    trimmed,
};

verus! {

/// The tool's name.
pub const NAME: &'static str = "hyperv_remove_vm_network_adapter_acl";

/// What the tool does.
pub const DESCRIPTION: &'static str = "Removes an ACL applied to the traffic through a virtual network adapter.";

/// What the script runs after the cmdlet: the fields it prints, as JSON.
pub const SELECT: &'static str = " | Select-Object @{N='Action';E={$_.Action.ToString()}}, @{N='Direction';E={$_.Direction.ToString()}}, LocalAddress, RemoteAddress, @{N='LocalAddressType';E={$_.LocalAddressType.ToString()}}, @{N='RemoteAddressType';E={$_.RemoteAddressType.ToString()}}, MeteredMegabytes, ComputerName, IsDeleted, IsTemplate, @{N='AdapterName';E={$_.ParentAdapter.Name}}, @{N='VMName';E={$_.ParentAdapter.VMName}}, @{N='VMId';E={$_.ParentAdapter.VMId.ToString()}}, @{N='AdapterId';E={$_.ParentAdapter.AdapterId}} | ConvertTo-Json -Compress -Depth 3";

/// What the tool is asked.
#[derive(Debug)]
pub struct RemoveVmNetworkAdapterAclInput {
    /// Name of the virtual machine whose network adapter ACL should be removed.
    /// Required unless management_os is true.
    pub vm_name: Option<String>,
    /// Name of the virtual network adapter whose ACL should be removed.
    pub vm_network_adapter_name: Option<String>,
    /// Action of the ACL to remove. Valid values: Allow, Deny, Meter.
    pub action: String,
    /// Direction of traffic for the ACL to remove. Valid values: Inbound, Outbound, Both.
    pub direction: String,
    /// Hyper-V host to target. Defaults to localhost.
    pub computer_name: Option<String>,
    /// Local IP address(es) of the ACL to remove.
    pub local_ip_address: Option<Vec<String>>,
    /// Local MAC address(es) of the ACL to remove.
    pub local_mac_address: Option<Vec<String>>,
    /// Remote IP address(es) of the ACL to remove.
    pub remote_ip_address: Option<Vec<String>>,
    /// Remote MAC address(es) of the ACL to remove.
    pub remote_mac_address: Option<Vec<String>>,
    /// Remove the ACL from the management operating system instead of a VM.
    pub management_os: bool,
}

/// One record of the answer.
#[derive(Debug)]
pub struct VmNetworkAdapterAclInfo {
    pub action: String,
    pub direction: String,
    pub local_address: String,
    pub remote_address: String,
    pub local_address_type: String,
    pub remote_address_type: String,
    pub metered_megabytes: String,
    pub computer_name: String,
    pub is_deleted: bool,
    pub is_template: bool,
    pub adapter_name: String,
    pub vm_name: String,
    pub vm_id: String,
    pub adapter_id: String,
}

/// What the tool answers.
#[derive(Debug)]
pub struct RemoveVmNetworkAdapterAclOutput {
    /// ACL entries that were removed.
    pub removed: Vec<VmNetworkAdapterAclInfo>,
}

/// The tool.
#[derive(Default)]
pub struct RemoveVmNetworkAdapterAclTool;

impl FromJson for VmNetworkAdapterAclInfo {
    open spec fn describes(&self, item: JsonValue) -> bool {
        &&& self.action@ == item.text_or_empty("Action"@)
        &&& self.direction@ == item.text_or_empty("Direction"@)
        &&& self.local_address@ == item.text_or_empty("LocalAddress"@)
        &&& self.remote_address@ == item.text_or_empty("RemoteAddress"@)
        &&& self.local_address_type@ == item.text_or_empty("LocalAddressType"@)
        &&& self.remote_address_type@ == item.text_or_empty("RemoteAddressType"@)
        &&& self.metered_megabytes@ == item.text_or_empty("MeteredMegabytes"@)
        &&& self.computer_name@ == item.text_or_empty("ComputerName"@)
        &&& self.is_deleted == item.flag_or_false("IsDeleted"@)
        &&& self.is_template == item.flag_or_false("IsTemplate"@)
        &&& self.adapter_name@ == item.text_or_empty("AdapterName"@)
        &&& self.vm_name@ == item.text_or_empty("VMName"@)
        &&& self.vm_id@ == item.text_or_empty("VMId"@)
        &&& self.adapter_id@ == item.text_or_empty("AdapterId"@)
    }

    fn from_json(item: &JsonValue) -> (r: Self) {
        VmNetworkAdapterAclInfo {
            action: item.text_or_empty_at("Action"),
            direction: item.text_or_empty_at("Direction"),
            local_address: item.text_or_empty_at("LocalAddress"),
            remote_address: item.text_or_empty_at("RemoteAddress"),
            local_address_type: item.text_or_empty_at("LocalAddressType"),
            remote_address_type: item.text_or_empty_at("RemoteAddressType"),
            metered_megabytes: item.text_or_empty_at("MeteredMegabytes"),
            computer_name: item.text_or_empty_at("ComputerName"),
            is_deleted: item.flag_or_false_at("IsDeleted"),
            is_template: item.flag_or_false_at("IsTemplate"),
            adapter_name: item.text_or_empty_at("AdapterName"),
            vm_name: item.text_or_empty_at("VMName"),
            vm_id: item.text_or_empty_at("VMId"),
            adapter_id: item.text_or_empty_at("AdapterId"),
        }
    }
}

impl RemoveVmNetworkAdapterAclTool {
    /// The first problem with the request, as the message that reports it.
    pub open spec fn input_problem(input: RemoveVmNetworkAdapterAclInput) -> Option<Seq<char>> {
        if input.vm_name is Some && input.management_os {
            Some("vm_name cannot be combined with management_os"@)
        } else if !input.management_os && input.vm_name is None {
            Some("vm_name must be provided when management_os is not enabled"@)
        } else if input.vm_name matches Some(s) && is_blank(s@) {
            Some("VM name must not be empty"@)
        } else if input.vm_network_adapter_name matches Some(s) && is_blank(s@) {
            Some("Adapter name must not be empty"@)
        } else if input.computer_name matches Some(s) && is_blank(s@) {
            Some("Computer name must not be empty"@)
        } else if is_blank(input.action@) {
            Some("action must not be empty"@)
        } else if !(ascii_lower(trim(input.action@)) == "allow"@
            || ascii_lower(trim(input.action@)) == "deny"@
            || ascii_lower(trim(input.action@)) == "meter"@) {
            Some("action must be one of: Allow, Deny, Meter"@)
        } else if is_blank(input.direction@) {
            Some("direction must not be empty"@)
        } else if !(ascii_lower(trim(input.direction@)) == "inbound"@
            || ascii_lower(trim(input.direction@)) == "outbound"@
            || ascii_lower(trim(input.direction@)) == "both"@) {
            Some("direction must be one of: Inbound, Outbound, Both"@)
        } else if input.local_ip_address matches Some(v) && v@.len() == 0 {
            Some("localIpAddress must not be empty when provided"@)
        } else if input.local_mac_address matches Some(v) && v@.len() == 0 {
            Some("localMacAddress must not be empty when provided"@)
        } else if input.remote_ip_address matches Some(v) && v@.len() == 0 {
            Some("remoteIpAddress must not be empty when provided"@)
        } else if input.remote_mac_address matches Some(v) && v@.len() == 0 {
            Some("remoteMacAddress must not be empty when provided"@)
        } else {
            None
        }
    }

    /// The arguments of the cmdlet.
    pub open spec fn command_args(input: RemoveVmNetworkAdapterAclInput) -> Seq<Seq<char>> {
        seq!["Remove-VMNetworkAdapterAcl"@]
            + target_args(input.management_os, input.vm_name)
            + opt_quoted("-VMNetworkAdapterName"@, input.vm_network_adapter_name)
            + opt_quoted("-ComputerName"@, input.computer_name)
            + seq![quoted_arg("-Action"@, trim(input.action@))]
            + seq![quoted_arg("-Direction"@, trim(input.direction@))]
            + address_args(input)
            + seq!["-PassThru"@]
            + seq!["-Confirm:$false"@]
    }

    /// The script that runs for a valid request.
    pub open spec fn script(input: RemoveVmNetworkAdapterAclInput) -> Seq<char> {
        join(Self::command_args(input), seq![' ']) + SELECT@
    }

    /// Checks the request and builds its script.
    pub fn build_script(input: &RemoveVmNetworkAdapterAclInput) -> (r: Result<String, ToolError>)
        ensures
            script_outcome(r, Self::input_problem(*input), Self::script(*input)),
    {
        let action = trimmed(input.action.as_str());
        let direction = trimmed(input.direction.as_str());
        if input.vm_name.is_some() && input.management_os {
            return Err(invalid_input("vm_name cannot be combined with management_os"));
        }
        if !input.management_os && input.vm_name.is_none() {
            return Err(invalid_input(
                "vm_name must be provided when management_os is not enabled",
            ));
        }
        if option_is_blank(&input.vm_name) {
            return Err(invalid_input("VM name must not be empty"));
        }
        if option_is_blank(&input.vm_network_adapter_name) {
            return Err(invalid_input("Adapter name must not be empty"));
        }
        if option_is_blank(&input.computer_name) {
            return Err(invalid_input("Computer name must not be empty"));
        }
        if text_is_blank(input.action.as_str()) {
            return Err(invalid_input("action must not be empty"));
        }
        if !(lower_is(action.as_str(), "allow")
            || lower_is(action.as_str(), "deny")
            || lower_is(action.as_str(), "meter")) {
            return Err(invalid_input("action must be one of: Allow, Deny, Meter"));
        }
        if text_is_blank(input.direction.as_str()) {
            return Err(invalid_input("direction must not be empty"));
        }
        if !(lower_is(direction.as_str(), "inbound")
            || lower_is(direction.as_str(), "outbound")
            || lower_is(direction.as_str(), "both")) {
            return Err(invalid_input("direction must be one of: Inbound, Outbound, Both"));
        }
        if given_but_empty(&input.local_ip_address) {
            return Err(invalid_input("localIpAddress must not be empty when provided"));
        }
        if given_but_empty(&input.local_mac_address) {
            return Err(invalid_input("localMacAddress must not be empty when provided"));
        }
        if given_but_empty(&input.remote_ip_address) {
            return Err(invalid_input("remoteIpAddress must not be empty when provided"));
        }
        if given_but_empty(&input.remote_mac_address) {
            return Err(invalid_input("remoteMacAddress must not be empty when provided"));
        }
        let mut args = ArgList::new("Remove-VMNetworkAdapterAcl");
        args.push_target(input.management_os, &input.vm_name);
        args.push_opt_quoted("-VMNetworkAdapterName", &input.vm_network_adapter_name);
        args.push_opt_quoted("-ComputerName", &input.computer_name);
        args.push_quoted("-Action", action.as_str());
        args.push_quoted("-Direction", direction.as_str());
        args.extend(address_arg_list(input));
        args.push_literal("-PassThru");
        args.push_literal("-Confirm:$false");
        assert(args@ === Self::command_args(*input));
        Ok(args.to_command_with(SELECT))
    }

    /// Reads the answer from what the script printed: one entry per record.
    pub fn parse_output(raw: JsonValue) -> (r: RemoveVmNetworkAdapterAclOutput)
        ensures
            describes_all(r.removed@, raw.records()),
    {
        RemoveVmNetworkAdapterAclOutput { removed: decode_records(raw) }
    }

    /// Reads the answer from the text the script printed; blank text reads as
    /// an empty list, and text that is not JSON is a `Json` error.
    pub fn read_output(printed: &str) -> (r: Result<RemoveVmNetworkAdapterAclOutput, ToolError>)
        ensures
            match parsed_json(effective_output(printed@)) {
                Some(raw) => r matches Ok(out) && describes_all(out.removed@, raw.records()),
                None => r matches Err(ToolError::Json(_)),
            },
    {
        match read_printed(printed) {
            Ok(raw) => Ok(Self::parse_output(raw)),
            Err(e) => Err(e),
        }
    }

    /// Every value of a valid request reaches the script that `build_script`
    /// returns under its own flag: each flag below stands in the script
    /// followed by the value of the field of the same name.
    pub proof fn lemma_script_carries_each_value(input: RemoveVmNetworkAdapterAclInput)
        requires
            Self::input_problem(input) is None,
        ensures
            input.management_os ==> holds(Self::script(input), "-ManagementOS"@),
            input.vm_name matches Some(v) ==> !(input.management_os) ==> holds(
                Self::script(input),
                quoted_arg("-VMName"@, v@),
            ),
            input.vm_network_adapter_name matches Some(v) ==> holds(
                Self::script(input),
                quoted_arg("-VMNetworkAdapterName"@, v@),
            ),
            input.computer_name matches Some(v) ==> holds(
                Self::script(input),
                quoted_arg("-ComputerName"@, v@),
            ),
            holds(Self::script(input), quoted_arg("-Action"@, trim(input.action@))),
            holds(Self::script(input), quoted_arg("-Direction"@, trim(input.direction@))),
            input.local_ip_address matches Some(v) ==> holds(
                Self::script(input),
                string_array_arg("LocalIPAddress"@, v@),
            ),
            input.local_mac_address matches Some(v) ==> holds(
                Self::script(input),
                string_array_arg("LocalMacAddress"@, v@),
            ),
            input.remote_ip_address matches Some(v) ==> holds(
                Self::script(input),
                string_array_arg("RemoteIPAddress"@, v@),
            ),
            input.remote_mac_address matches Some(v) ==> holds(
                Self::script(input),
                string_array_arg("RemoteMacAddress"@, v@),
            ),
    {
        Self::script_carries_management_os(input);
        Self::script_carries_vm_name(input);
        Self::script_carries_vm_network_adapter_name(input);
        Self::script_carries_computer_name(input);
        Self::script_carries_action(input);
        Self::script_carries_direction(input);
        Self::script_carries_local_ip_address(input);
        Self::script_carries_local_mac_address(input);
        Self::script_carries_remote_ip_address(input);
        Self::script_carries_remote_mac_address(input);
    }

    proof fn script_carries_management_os(input: RemoveVmNetworkAdapterAclInput)
        ensures
            input.management_os ==> holds(Self::script(input), "-ManagementOS"@),
    {
        broadcast use lemma_add_contains, lemma_push_contains;

        let args = Self::command_args(input);
        let tail = SELECT@;
        if input.management_os {
            lemma_script_holds_argument(args, tail, "-ManagementOS"@);
        }
    }

    proof fn script_carries_vm_name(input: RemoveVmNetworkAdapterAclInput)
        ensures
            input.vm_name matches Some(v) ==> !(input.management_os) ==> holds(
                Self::script(input),
                quoted_arg("-VMName"@, v@),
            ),
    {
        broadcast use lemma_add_contains, lemma_push_contains;

        let args = Self::command_args(input);
        let tail = SELECT@;
        if !(input.management_os) && input.vm_name is Some {
            lemma_script_holds_argument(args, tail, quoted_arg("-VMName"@, input.vm_name->0@));
        }
    }

    proof fn script_carries_vm_network_adapter_name(input: RemoveVmNetworkAdapterAclInput)
        ensures
            input.vm_network_adapter_name matches Some(v) ==> holds(
                Self::script(input),
                quoted_arg("-VMNetworkAdapterName"@, v@),
            ),
    {
        broadcast use lemma_add_contains, lemma_push_contains;

        let args = Self::command_args(input);
        let tail = SELECT@;
        if let Some(v) = input.vm_network_adapter_name {
            lemma_script_holds_argument(args, tail, quoted_arg("-VMNetworkAdapterName"@, v@));
        }
    }

    proof fn script_carries_computer_name(input: RemoveVmNetworkAdapterAclInput)
        ensures
            input.computer_name matches Some(v) ==> holds(
                Self::script(input),
                quoted_arg("-ComputerName"@, v@),
            ),
    {
        broadcast use lemma_add_contains, lemma_push_contains;

        let args = Self::command_args(input);
        let tail = SELECT@;
        if let Some(v) = input.computer_name {
            lemma_script_holds_argument(args, tail, quoted_arg("-ComputerName"@, v@));
        }
    }

    proof fn script_carries_action(input: RemoveVmNetworkAdapterAclInput)
        ensures
            holds(Self::script(input), quoted_arg("-Action"@, trim(input.action@))),
    {
        broadcast use lemma_add_contains, lemma_push_contains;

        let args = Self::command_args(input);
        let tail = SELECT@;
        lemma_script_holds_argument(args, tail, quoted_arg("-Action"@, trim(input.action@)));
    }

    proof fn script_carries_direction(input: RemoveVmNetworkAdapterAclInput)
        ensures
            holds(Self::script(input), quoted_arg("-Direction"@, trim(input.direction@))),
    {
        broadcast use lemma_add_contains, lemma_push_contains;

        let args = Self::command_args(input);
        let tail = SELECT@;
        lemma_script_holds_argument(args, tail, quoted_arg("-Direction"@, trim(input.direction@)));
    }

    proof fn script_carries_local_ip_address(input: RemoveVmNetworkAdapterAclInput)
        ensures
            input.local_ip_address matches Some(v) ==> holds(
                Self::script(input),
                string_array_arg("LocalIPAddress"@, v@),
            ),
    {
        broadcast use lemma_add_contains, lemma_push_contains;

        let args = Self::command_args(input);
        let tail = SELECT@;
        if let Some(v) = input.local_ip_address {
            lemma_script_holds_argument(args, tail, string_array_arg("LocalIPAddress"@, v@));
        }
    }

    proof fn script_carries_local_mac_address(input: RemoveVmNetworkAdapterAclInput)
        ensures
            input.local_mac_address matches Some(v) ==> holds(
                Self::script(input),
                string_array_arg("LocalMacAddress"@, v@),
            ),
    {
        broadcast use lemma_add_contains, lemma_push_contains;

        let args = Self::command_args(input);
        let tail = SELECT@;
        if let Some(v) = input.local_mac_address {
            lemma_script_holds_argument(args, tail, string_array_arg("LocalMacAddress"@, v@));
        }
    }

    proof fn script_carries_remote_ip_address(input: RemoveVmNetworkAdapterAclInput)
        ensures
            input.remote_ip_address matches Some(v) ==> holds(
                Self::script(input),
                string_array_arg("RemoteIPAddress"@, v@),
            ),
    {
        broadcast use lemma_add_contains, lemma_push_contains;

        let args = Self::command_args(input);
        let tail = SELECT@;
        if let Some(v) = input.remote_ip_address {
            lemma_script_holds_argument(args, tail, string_array_arg("RemoteIPAddress"@, v@));
        }
    }

    proof fn script_carries_remote_mac_address(input: RemoveVmNetworkAdapterAclInput)
        ensures
            input.remote_mac_address matches Some(v) ==> holds(
                Self::script(input),
                string_array_arg("RemoteMacAddress"@, v@),
            ),
    {
        broadcast use lemma_add_contains, lemma_push_contains;

        let args = Self::command_args(input);
        let tail = SELECT@;
        if let Some(v) = input.remote_mac_address {
            lemma_script_holds_argument(args, tail, string_array_arg("RemoteMacAddress"@, v@));
        }
    }

    /// Each entry of the answer reads the printed record at its place: every
    /// field holds the record's member of the matching name.
    pub proof fn lemma_answer_reads_each_record(
        raw: JsonValue,
        out: RemoveVmNetworkAdapterAclOutput,
    )
        requires
            describes_all(out.removed@, raw.records()),
        ensures
            out.removed@.len() == raw.records().len(),
            forall|i: int|
                #![trigger out.removed@[i]]
                0 <= i < raw.records().len() ==> {
                    &&& out.removed@[i].action@ == raw.records()[i].text_or_empty("Action"@)
                    &&& out.removed@[i].direction@ == raw.records()[i].text_or_empty("Direction"@)
                    &&& out.removed@[i].local_address@
                        == raw.records()[i].text_or_empty("LocalAddress"@)
                    &&& out.removed@[i].remote_address@
                        == raw.records()[i].text_or_empty("RemoteAddress"@)
                    &&& out.removed@[i].local_address_type@
                        == raw.records()[i].text_or_empty("LocalAddressType"@)
                    &&& out.removed@[i].remote_address_type@
                        == raw.records()[i].text_or_empty("RemoteAddressType"@)
                    &&& out.removed@[i].metered_megabytes@
                        == raw.records()[i].text_or_empty("MeteredMegabytes"@)
                    &&& out.removed@[i].computer_name@
                        == raw.records()[i].text_or_empty("ComputerName"@)
                    &&& out.removed@[i].is_deleted == raw.records()[i].flag_or_false("IsDeleted"@)
                    &&& out.removed@[i].is_template == raw.records()[i].flag_or_false("IsTemplate"@)
                    &&& out.removed@[i].adapter_name@
                        == raw.records()[i].text_or_empty("AdapterName"@)
                    &&& out.removed@[i].vm_name@ == raw.records()[i].text_or_empty("VMName"@)
                    &&& out.removed@[i].vm_id@ == raw.records()[i].text_or_empty("VMId"@)
                    &&& out.removed@[i].adapter_id@ == raw.records()[i].text_or_empty("AdapterId"@)
                },
    {
        assert forall|i: int| 0 <= i < raw.records().len() implies {
            &&& out.removed@[i].action@ == raw.records()[i].text_or_empty("Action"@)
            &&& out.removed@[i].direction@ == raw.records()[i].text_or_empty("Direction"@)
            &&& out.removed@[i].local_address@ == raw.records()[i].text_or_empty("LocalAddress"@)
            &&& out.removed@[i].remote_address@ == raw.records()[i].text_or_empty("RemoteAddress"@)
            &&& out.removed@[i].local_address_type@
                == raw.records()[i].text_or_empty("LocalAddressType"@)
            &&& out.removed@[i].remote_address_type@
                == raw.records()[i].text_or_empty("RemoteAddressType"@)
            &&& out.removed@[i].metered_megabytes@
                == raw.records()[i].text_or_empty("MeteredMegabytes"@)
            &&& out.removed@[i].computer_name@ == raw.records()[i].text_or_empty("ComputerName"@)
            &&& out.removed@[i].is_deleted == raw.records()[i].flag_or_false("IsDeleted"@)
            &&& out.removed@[i].is_template == raw.records()[i].flag_or_false("IsTemplate"@)
            &&& out.removed@[i].adapter_name@ == raw.records()[i].text_or_empty("AdapterName"@)
            &&& out.removed@[i].vm_name@ == raw.records()[i].text_or_empty("VMName"@)
            &&& out.removed@[i].vm_id@ == raw.records()[i].text_or_empty("VMId"@)
            &&& out.removed@[i].adapter_id@ == raw.records()[i].text_or_empty("AdapterId"@)
        } by {
            assert(out.removed@[i].describes(raw.records()[i]));
        }
    }

    /// A request is valid only when it passes every check: none of the
    /// conditions that refuse a request holds of it.
    pub proof fn lemma_valid_request_passes_every_check(input: RemoveVmNetworkAdapterAclInput)
        requires
            Self::input_problem(input) is None,
        ensures
            !(input.vm_name is Some && input.management_os),
            !(!input.management_os && input.vm_name is None),
            !(input.vm_name matches Some(s) && is_blank(s@)),
            !(input.vm_network_adapter_name matches Some(s) && is_blank(s@)),
            !(input.computer_name matches Some(s) && is_blank(s@)),
            !(is_blank(input.action@)),
            !(!(ascii_lower(trim(input.action@)) == "allow"@ || ascii_lower(trim(input.action@)) == "deny"@ || ascii_lower(trim(input.action@)) == "meter"@)),
            !(is_blank(input.direction@)),
            !(!(ascii_lower(
                trim(input.direction@),
            ) == "inbound"@ || ascii_lower(trim(input.direction@)) == "outbound"@ || ascii_lower(trim(input.direction@)) == "both"@)),
            !(input.local_ip_address matches Some(v) && v@.len() == 0),
            !(input.local_mac_address matches Some(v) && v@.len() == 0),
            !(input.remote_ip_address matches Some(v) && v@.len() == 0),
            !(input.remote_mac_address matches Some(v) && v@.len() == 0),
    {
    }

    /// A valid request names one target, the management operating system or a
    /// virtual machine, never both.
    pub proof fn lemma_valid_request_names_one_target(input: RemoveVmNetworkAdapterAclInput)
        requires
            Self::input_problem(input) is None,
        ensures
            input.management_os == (input.vm_name is None),
            target_args(input.management_os, input.vm_name).len() == 1,
    {
    }
}

/// `-Flag 'a','b'`: the flag after a dash, then the values in single quotes,
/// separated by commas.
pub open spec fn string_array_arg(flag: Seq<char>, values: Seq<String>) -> Seq<char> {
    seq!['-'] + flag + seq![' '] + quoted_list(values)
}

/// `-Flag 'a','b'` when the list is given.
pub open spec fn opt_string_array(flag: Seq<char>, values: Option<Vec<String>>) -> Seq<Seq<char>> {
    match values {
        Some(v) => seq![string_array_arg(flag, v@)],
        None => Seq::empty(),
    }
}

/// The address filters of the request, in the order the cmdlet takes them.
pub open spec fn address_args(input: RemoveVmNetworkAdapterAclInput) -> Seq<Seq<char>> {
    opt_string_array("LocalIPAddress"@, input.local_ip_address)
        + opt_string_array("LocalMacAddress"@, input.local_mac_address)
        + opt_string_array("RemoteIPAddress"@, input.remote_ip_address)
        + opt_string_array("RemoteMacAddress"@, input.remote_mac_address)
}

/// Appends `-Flag 'a','b'`: the flag after a dash, then the values in single
/// quotes, separated by commas.
pub fn push_string_array_arg(args: &mut Vec<String>, flag: &str, values: &[String])
    ensures
        texts(final(args)@) == texts(old(args)@).push(string_array_arg(flag@, values@)),
{
    let mut arg = String::new();
    push_char(&mut arg, '-');
    arg.append(flag);
    push_char(&mut arg, ' ');
    push_quoted_list_text(&mut arg, values);
    assert(arg@ =~= string_array_arg(flag@, values@));
    let ghost before = args@;
    args.push(arg);
    assert(texts(args@) =~= texts(before).push(arg@));
}

/// Appends `-Flag 'a','b'` when the list is given.
fn push_opt_string_array(args: &mut Vec<String>, flag: &str, values: &Option<Vec<String>>)
    ensures
        texts(final(args)@) == texts(old(args)@) + opt_string_array(flag@, *values),
{
    let ghost before = texts(args@);
    if let Some(v) = values {
        push_string_array_arg(args, flag, v.as_slice());
    }
    assert(texts(args@) =~= before + opt_string_array(flag@, *values));
}

/// The address filters of the request, in the order the cmdlet takes them.
fn address_arg_list(input: &RemoveVmNetworkAdapterAclInput) -> (r: Vec<String>)
    ensures
        texts(r@) == address_args(*input),
{
    let mut args: Vec<String> = Vec::new();
    assert(texts(args@) =~= Seq::<Seq<char>>::empty());
    push_opt_string_array(&mut args, "LocalIPAddress", &input.local_ip_address);
    push_opt_string_array(&mut args, "LocalMacAddress", &input.local_mac_address);
    push_opt_string_array(&mut args, "RemoteIPAddress", &input.remote_ip_address);
    push_opt_string_array(&mut args, "RemoteMacAddress", &input.remote_mac_address);
    args
}

/// Whether a list is given and holds nothing.
fn given_but_empty(values: &Option<Vec<String>>) -> (r: bool)
    ensures
        r == (values matches Some(v) && v@.len() == 0),
{
    match values {
        Some(v) => v.len() == 0,
        None => false,
    }
}

} // verus!
