//! `hyperv_remove_vm_network_adapter_extended_acl`: removes an extended ACL for a virtual network adapter.
use vstd::prelude::*;
use crate::command::{
    holds, join, lemma_add_contains, lemma_push_contains, lemma_script_holds_argument, number_arg,
    opt_quoted, quoted_arg, switch_arg, ArgList,
};
use crate::error::{invalid_input, script_outcome, ToolError};
use crate::json::{
    decode_records, describes_all, effective_output, parsed_json, read_printed, text_view, FromJson,
    JsonValue,
};
use crate::text::{
    eq_ignore_ascii_case, is_blank, lower_equals, option_is_blank, text_is_blank, trim, trimmed,
};

verus! {

/// The tool's name.
pub const NAME: &'static str = "hyperv_remove_vm_network_adapter_extended_acl";

/// What the tool does.
pub const DESCRIPTION: &'static str = "Removes an extended ACL for a virtual network adapter.";

/// What the script runs after the cmdlet: the fields it prints, as JSON.
pub const SELECT: &'static str = " | Select-Object Weight, @{N='Direction';E={$_.Direction.ToString()}}, @{N='Action';E={$_.Action.ToString()}}, Protocol, LocalIPAddress, RemoteIPAddress, LocalPort, RemotePort, Stateful, IdleSessionTimeout, IsolationID | ConvertTo-Json -Compress -Depth 3";

/// What the tool is asked.
#[derive(Debug)]
pub struct RemoveVmNetworkAdapterExtendedAclInput {
    /// Name of the virtual machine whose extended ACL should be removed.
    pub vm_name: Option<String>,
    /// Name of the virtual network adapter. If omitted, applies to all adapters of the VM.
    pub vm_network_adapter_name: Option<String>,
    /// Weight of the extended ACL entry to remove.
    pub weight: i32,
    /// Direction of the ACL to remove: Inbound or Outbound.
    pub direction: String,
    /// Target the management operating system instead of a VM.
    pub management_os: bool,
    /// Hyper-V host to target. Defaults to localhost.
    pub computer_name: Option<String>,
}

/// One record of the answer.
#[derive(Debug)]
pub struct VmNetworkAdapterExtendedAclInfo {
    pub weight: i32,
    pub direction: String,
    pub action: String,
    pub protocol: Option<String>,
    pub local_ip_address: Option<String>,
    pub remote_ip_address: Option<String>,
    pub local_port: Option<String>,
    pub remote_port: Option<String>,
    pub stateful: Option<bool>,
    pub idle_session_timeout: Option<i32>,
    pub isolation_id: Option<i32>,
}

/// What the tool answers.
#[derive(Debug)]
pub struct RemoveVmNetworkAdapterExtendedAclOutput {
    /// Extended ACLs that were removed.
    pub removed: Vec<VmNetworkAdapterExtendedAclInfo>,
}

/// The tool.
#[derive(Default)]
pub struct RemoveVmNetworkAdapterExtendedAclTool;

impl FromJson for VmNetworkAdapterExtendedAclInfo {
    open spec fn describes(&self, item: JsonValue) -> bool {
        &&& self.weight == item.i64_or_zero("Weight"@) as i32
        &&& self.direction@ == item.text_or_empty("Direction"@)
        &&& self.action@ == item.text_or_empty("Action"@)
        &&& text_view(self.protocol) == item.at("Protocol"@).str_value()
        &&& text_view(self.local_ip_address) == item.at("LocalIPAddress"@).str_value()
        &&& text_view(self.remote_ip_address) == item.at("RemoteIPAddress"@).str_value()
        &&& text_view(self.local_port) == item.at("LocalPort"@).str_value()
        &&& text_view(self.remote_port) == item.at("RemotePort"@).str_value()
        &&& self.stateful == item.at("Stateful"@).bool_value()
        &&& self.idle_session_timeout == match item.at("IdleSessionTimeout"@).i64_value() {
            Some(n) => Some(n as i32),
            None => None,
        }
        &&& self.isolation_id == match item.at("IsolationID"@).i64_value() {
            Some(n) => Some(n as i32),
            None => None,
        }
    }

    fn from_json(item: &JsonValue) -> (r: Self) {
        VmNetworkAdapterExtendedAclInfo {
            weight: item.i64_or_zero_at("Weight") as i32,
            direction: item.text_or_empty_at("Direction"),
            action: item.text_or_empty_at("Action"),
            protocol: item.field_text("Protocol"),
            local_ip_address: item.field_text("LocalIPAddress"),
            remote_ip_address: item.field_text("RemoteIPAddress"),
            local_port: item.field_text("LocalPort"),
            remote_port: item.field_text("RemotePort"),
            stateful: item.field_flag("Stateful"),
            idle_session_timeout: match item.field_i64("IdleSessionTimeout") {
                Some(n) => Some(n as i32),
                None => None,
            },
            isolation_id: match item.field_i64("IsolationID") {
                Some(n) => Some(n as i32),
                None => None,
            },
        }
    }
}

impl RemoveVmNetworkAdapterExtendedAclTool {
    /// The first problem with the request, as the message that reports it.
    pub open spec fn input_problem(
        input: RemoveVmNetworkAdapterExtendedAclInput,
    ) -> Option<Seq<char>> {
        if input.vm_name is None && !input.management_os {
            Some("Either vmName or managementOS must be specified"@)
        } else if input.vm_name is Some && input.management_os {
            Some("Cannot specify both vmName and managementOS"@)
        } else if is_blank(input.direction@) {
            Some("direction must not be empty"@)
        } else if !eq_ignore_ascii_case(trim(input.direction@), "Inbound"@)
            && !eq_ignore_ascii_case(trim(input.direction@), "Outbound"@) {
            Some("direction must be Inbound or Outbound"@)
        } else if input.vm_name matches Some(s) && is_blank(s@) {
            Some("vmName must not be empty"@)
        } else if input.vm_network_adapter_name matches Some(s) && is_blank(s@) {
            Some("vmNetworkAdapterName must not be empty when provided"@)
        } else if input.computer_name matches Some(s) && is_blank(s@) {
            Some("computerName must not be empty"@)
        } else {
            None
        }
    }

    /// The arguments of the cmdlet.
    pub open spec fn command_args(input: RemoveVmNetworkAdapterExtendedAclInput) -> Seq<Seq<char>> {
        seq!["Remove-VMNetworkAdapterExtendedAcl"@]
            + opt_quoted("-VMName"@, input.vm_name)
            + switch_arg("-ManagementOS"@, input.management_os)
            + opt_quoted("-VMNetworkAdapterName"@, input.vm_network_adapter_name)
            + seq![number_arg("-Weight"@, input.weight as int)]
            + seq![quoted_arg("-Direction"@, trim(input.direction@))]
            + opt_quoted("-ComputerName"@, input.computer_name)
            + seq!["-Confirm:$false"@]
    }

    /// The script that runs for a valid request.
    pub open spec fn script(input: RemoveVmNetworkAdapterExtendedAclInput) -> Seq<char> {
        join(Self::command_args(input), seq![' ']) + SELECT@
    }

    /// Checks the request and builds its script.
    pub fn build_script(
        input: &RemoveVmNetworkAdapterExtendedAclInput,
    ) -> (r: Result<String, ToolError>)
        ensures
            script_outcome(r, Self::input_problem(*input), Self::script(*input)),
    {
        let direction = trimmed(input.direction.as_str());
        if input.vm_name.is_none() && !input.management_os {
            return Err(invalid_input("Either vmName or managementOS must be specified"));
        }
        if input.vm_name.is_some() && input.management_os {
            return Err(invalid_input("Cannot specify both vmName and managementOS"));
        }
        if text_is_blank(input.direction.as_str()) {
            return Err(invalid_input("direction must not be empty"));
        }
        if !lower_equals(direction.as_str(), "Inbound")
            && !lower_equals(direction.as_str(), "Outbound") {
            return Err(invalid_input("direction must be Inbound or Outbound"));
        }
        if option_is_blank(&input.vm_name) {
            return Err(invalid_input("vmName must not be empty"));
        }
        if option_is_blank(&input.vm_network_adapter_name) {
            return Err(invalid_input("vmNetworkAdapterName must not be empty when provided"));
        }
        if option_is_blank(&input.computer_name) {
            return Err(invalid_input("computerName must not be empty"));
        }
        let mut args = ArgList::new("Remove-VMNetworkAdapterExtendedAcl");
        args.push_opt_quoted("-VMName", &input.vm_name);
        args.push_switch("-ManagementOS", input.management_os);
        args.push_opt_quoted("-VMNetworkAdapterName", &input.vm_network_adapter_name);
        args.push_signed("-Weight", input.weight as i64);
        args.push_quoted("-Direction", direction.as_str());
        args.push_opt_quoted("-ComputerName", &input.computer_name);
        args.push_literal("-Confirm:$false");
        assert(args@ === Self::command_args(*input));
        Ok(args.to_command_with(SELECT))
    }

    /// Reads the answer from what the script printed: one entry per record.
    pub fn parse_output(raw: JsonValue) -> (r: RemoveVmNetworkAdapterExtendedAclOutput)
        ensures
            describes_all(r.removed@, raw.records()),
    {
        RemoveVmNetworkAdapterExtendedAclOutput { removed: decode_records(raw) }
    }

    /// Reads the answer from the text the script printed; blank text reads as
    /// an empty list, and text that is not JSON is a `Json` error.
    pub fn read_output(printed: &str) -> (r: Result<RemoveVmNetworkAdapterExtendedAclOutput, ToolError>)
        ensures
            match parsed_json(effective_output(printed@)) {
                Some(raw) => r matches Ok(out) && describes_all(out.removed@, raw.records()),
                None => r matches Err(ToolError::Json(_)),
            },
    {
        match read_printed(printed) {
            Ok(raw) => Ok(Self::parse_output(raw)),
            Err(e) => Err(e),
        }
    }

    /// Every value of a valid request reaches the script that `build_script`
    /// returns under its own flag: each flag below stands in the script
    /// followed by the value of the field of the same name.
    pub proof fn lemma_script_carries_each_value(input: RemoveVmNetworkAdapterExtendedAclInput)
        requires
            Self::input_problem(input) is None,
        ensures
            input.vm_name matches Some(v) ==> holds(
                Self::script(input),
                quoted_arg("-VMName"@, v@),
            ),
            input.management_os ==> holds(Self::script(input), "-ManagementOS"@),
            input.vm_network_adapter_name matches Some(v) ==> holds(
                Self::script(input),
                quoted_arg("-VMNetworkAdapterName"@, v@),
            ),
            holds(Self::script(input), number_arg("-Weight"@, input.weight as int)),
            holds(Self::script(input), quoted_arg("-Direction"@, trim(input.direction@))),
            input.computer_name matches Some(v) ==> holds(
                Self::script(input),
                quoted_arg("-ComputerName"@, v@),
            ),
    {
        Self::script_carries_vm_name(input);
        Self::script_carries_management_os(input);
        Self::script_carries_vm_network_adapter_name(input);
        Self::script_carries_weight(input);
        Self::script_carries_direction(input);
        Self::script_carries_computer_name(input);
    }

    proof fn script_carries_vm_name(input: RemoveVmNetworkAdapterExtendedAclInput)
        ensures
            input.vm_name matches Some(v) ==> holds(
                Self::script(input),
                quoted_arg("-VMName"@, v@),
            ),
    {
        broadcast use lemma_add_contains, lemma_push_contains;

        let args = Self::command_args(input);
        let tail = SELECT@;
        if let Some(v) = input.vm_name {
            lemma_script_holds_argument(args, tail, quoted_arg("-VMName"@, v@));
        }
    }

    proof fn script_carries_management_os(input: RemoveVmNetworkAdapterExtendedAclInput)
        ensures
            input.management_os ==> holds(Self::script(input), "-ManagementOS"@),
    {
        broadcast use lemma_add_contains, lemma_push_contains;

        let args = Self::command_args(input);
        let tail = SELECT@;
        if input.management_os {
            lemma_script_holds_argument(args, tail, "-ManagementOS"@);
        }
    }

    proof fn script_carries_vm_network_adapter_name(input: RemoveVmNetworkAdapterExtendedAclInput)
        ensures
            input.vm_network_adapter_name matches Some(v) ==> holds(
                Self::script(input),
                quoted_arg("-VMNetworkAdapterName"@, v@),
            ),
    {
        broadcast use lemma_add_contains, lemma_push_contains;

        let args = Self::command_args(input);
        let tail = SELECT@;
        if let Some(v) = input.vm_network_adapter_name {
            lemma_script_holds_argument(args, tail, quoted_arg("-VMNetworkAdapterName"@, v@));
        }
    }

    proof fn script_carries_weight(input: RemoveVmNetworkAdapterExtendedAclInput)
        ensures
            holds(Self::script(input), number_arg("-Weight"@, input.weight as int)),
    {
        broadcast use lemma_add_contains, lemma_push_contains;

        let args = Self::command_args(input);
        let tail = SELECT@;
        lemma_script_holds_argument(args, tail, number_arg("-Weight"@, input.weight as int));
    }

    proof fn script_carries_direction(input: RemoveVmNetworkAdapterExtendedAclInput)
        ensures
            holds(Self::script(input), quoted_arg("-Direction"@, trim(input.direction@))),
    {
        broadcast use lemma_add_contains, lemma_push_contains;

        let args = Self::command_args(input);
        let tail = SELECT@;
        lemma_script_holds_argument(args, tail, quoted_arg("-Direction"@, trim(input.direction@)));
    }

    proof fn script_carries_computer_name(input: RemoveVmNetworkAdapterExtendedAclInput)
        ensures
            input.computer_name matches Some(v) ==> holds(
                Self::script(input),
                quoted_arg("-ComputerName"@, v@),
            ),
    {
        broadcast use lemma_add_contains, lemma_push_contains;

        let args = Self::command_args(input);
        let tail = SELECT@;
        if let Some(v) = input.computer_name {
            lemma_script_holds_argument(args, tail, quoted_arg("-ComputerName"@, v@));
        }
    }

    /// Each entry of the answer reads the printed record at its place: every
    /// field holds the record's member of the matching name.
    pub proof fn lemma_answer_reads_each_record(
        raw: JsonValue,
        out: RemoveVmNetworkAdapterExtendedAclOutput,
    )
        requires
            describes_all(out.removed@, raw.records()),
        ensures
            out.removed@.len() == raw.records().len(),
            forall|i: int|
                #![trigger out.removed@[i]]
                0 <= i < raw.records().len() ==> {
                    &&& out.removed@[i].weight == raw.records()[i].i64_or_zero("Weight"@) as i32
                    &&& out.removed@[i].direction@ == raw.records()[i].text_or_empty("Direction"@)
                    &&& out.removed@[i].action@ == raw.records()[i].text_or_empty("Action"@)
                    &&& text_view(out.removed@[i].protocol)
                        == raw.records()[i].at("Protocol"@).str_value()
                    &&& text_view(out.removed@[i].local_ip_address)
                        == raw.records()[i].at("LocalIPAddress"@).str_value()
                    &&& text_view(out.removed@[i].remote_ip_address)
                        == raw.records()[i].at("RemoteIPAddress"@).str_value()
                    &&& text_view(out.removed@[i].local_port)
                        == raw.records()[i].at("LocalPort"@).str_value()
                    &&& text_view(out.removed@[i].remote_port)
                        == raw.records()[i].at("RemotePort"@).str_value()
                    &&& out.removed@[i].stateful == raw.records()[i].at("Stateful"@).bool_value()
                    &&& out.removed@[i].idle_session_timeout
                        == match raw.records()[i].at("IdleSessionTimeout"@).i64_value() {
            Some(n) => Some(n as i32),
            None => None,
        }
                    &&& out.removed@[i].isolation_id
                        == match raw.records()[i].at("IsolationID"@).i64_value() {
            Some(n) => Some(n as i32),
            None => None,
        }
                },
    {
        assert forall|i: int| 0 <= i < raw.records().len() implies {
            &&& out.removed@[i].weight == raw.records()[i].i64_or_zero("Weight"@) as i32
            &&& out.removed@[i].direction@ == raw.records()[i].text_or_empty("Direction"@)
            &&& out.removed@[i].action@ == raw.records()[i].text_or_empty("Action"@)
            &&& text_view(out.removed@[i].protocol) == raw.records()[i].at("Protocol"@).str_value()
            &&& text_view(out.removed@[i].local_ip_address)
                == raw.records()[i].at("LocalIPAddress"@).str_value()
            &&& text_view(out.removed@[i].remote_ip_address)
                == raw.records()[i].at("RemoteIPAddress"@).str_value()
            &&& text_view(out.removed@[i].local_port)
                == raw.records()[i].at("LocalPort"@).str_value()
            &&& text_view(out.removed@[i].remote_port)
                == raw.records()[i].at("RemotePort"@).str_value()
            &&& out.removed@[i].stateful == raw.records()[i].at("Stateful"@).bool_value()
            &&& out.removed@[i].idle_session_timeout
                == match raw.records()[i].at("IdleSessionTimeout"@).i64_value() {
            Some(n) => Some(n as i32),
            None => None,
        }
            &&& out.removed@[i].isolation_id
                == match raw.records()[i].at("IsolationID"@).i64_value() {
            Some(n) => Some(n as i32),
            None => None,
        }
        } by {
            assert(out.removed@[i].describes(raw.records()[i]));
        }
    }

    /// A request is valid only when it passes every check: none of the
    /// conditions that refuse a request holds of it.
    pub proof fn lemma_valid_request_passes_every_check(
        input: RemoveVmNetworkAdapterExtendedAclInput,
    )
        requires
            Self::input_problem(input) is None,
        ensures
            !(input.vm_name is None && !input.management_os),
            !(input.vm_name is Some && input.management_os),
            !(is_blank(input.direction@)),
            !(!eq_ignore_ascii_case(
                trim(input.direction@),
                "Inbound"@,
            ) && !eq_ignore_ascii_case(trim(input.direction@), "Outbound"@)),
            !(input.vm_name matches Some(s) && is_blank(s@)),
            !(input.vm_network_adapter_name matches Some(s) && is_blank(s@)),
            !(input.computer_name matches Some(s) && is_blank(s@)),
    {
    }

    /// A valid request names one target, the management operating system or a
    /// virtual machine, never both.
    pub proof fn lemma_valid_request_names_one_target(input: RemoveVmNetworkAdapterExtendedAclInput)
        requires
            Self::input_problem(input) is None,
        ensures
            input.management_os == (input.vm_name is None),
            (opt_quoted(
                "-VMName"@,
                input.vm_name,
            ) + switch_arg("-ManagementOS"@, input.management_os)).len() == 1,
    {
    }
}

} // verus!
