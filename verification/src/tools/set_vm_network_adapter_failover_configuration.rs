//! `hyperv_set_vm_network_adapter_failover_configuration`: configures the IP address of a virtual network adapter to be used when a virtual machine fails over.
use vstd::prelude::*;
use crate::command::{
    array_arg, holds, join, lemma_add_contains, lemma_push_contains, lemma_script_holds_argument,
    opt_quoted, quoted_arg, ArgList,
};
use crate::error::{invalid_input, script_outcome, ToolError};
use crate::json::{
    decode_records, describes_all, effective_output, parsed_json, read_printed, strings_or_empty,
    texts_or_empty, FromJson, JsonValue,
};
use crate::text::{is_blank, option_is_blank, text_is_blank, texts};

verus! {

/// The tool's name.
pub const NAME: &'static str = "hyperv_set_vm_network_adapter_failover_configuration";

/// What the tool does.
pub const DESCRIPTION: &'static str = "Configures the IP address of a virtual network adapter to be used when a virtual machine fails over.";

/// What the script runs after the cmdlet: the fields it prints, as JSON.
pub const SELECT: &'static str = " | Select-Object VMName, NetworkAdapterName, IPAddresses, ComputerName | ConvertTo-Json -Compress -Depth 3";

/// What the tool is asked.
#[derive(Debug)]
pub struct SetVmNetworkAdapterFailoverConfigurationInput {
    /// Name of the virtual machine.
    pub vm_name: String,
    /// Name of the network adapter.
    pub network_adapter_name: String,
    /// IP addresses for failover.
    pub ip_addresses: Vec<String>,
    /// Hyper-V host to target. Defaults to localhost.
    pub computer_name: Option<String>,
}

/// One record of the answer.
#[derive(Debug)]
pub struct VmNetworkAdapterFailoverConfigSetInfo {
    pub vm_name: String,
    pub network_adapter_name: String,
    pub ip_addresses: Vec<String>,
    pub computer_name: String,
}

/// What the tool answers.
#[derive(Debug)]
pub struct SetVmNetworkAdapterFailoverConfigurationOutput {
    pub configs: Vec<VmNetworkAdapterFailoverConfigSetInfo>,
}

/// The tool.
#[derive(Default)]
pub struct SetVmNetworkAdapterFailoverConfigurationTool;

impl FromJson for VmNetworkAdapterFailoverConfigSetInfo {
    open spec fn describes(&self, item: JsonValue) -> bool {
        &&& self.vm_name@ == item.text_or_empty("VMName"@)
        &&& self.network_adapter_name@ == item.text_or_empty("NetworkAdapterName"@)
        &&& texts(self.ip_addresses@) == address_list(item.at("IPAddresses"@))
        &&& self.computer_name@ == item.text_or_empty("ComputerName"@)
    }

    fn from_json(item: &JsonValue) -> (r: Self) {
        VmNetworkAdapterFailoverConfigSetInfo {
            vm_name: item.text_or_empty_at("VMName"),
            network_adapter_name: item.text_or_empty_at("NetworkAdapterName"),
            ip_addresses: match item.get("IPAddresses") {
                Some(v) => addresses_from(v),
                None => addresses_from(&JsonValue::Null),
            },
            computer_name: item.text_or_empty_at("ComputerName"),
        }
    }
}

impl SetVmNetworkAdapterFailoverConfigurationTool {
    /// The first problem with the request, as the message that reports it.
    pub open spec fn input_problem(
        input: SetVmNetworkAdapterFailoverConfigurationInput,
    ) -> Option<Seq<char>> {
        if is_blank(input.vm_name@) {
            Some("vm_name must not be empty"@)
        } else if is_blank(input.network_adapter_name@) {
            Some("network_adapter_name must not be empty"@)
        } else if input.computer_name matches Some(s) && is_blank(s@) {
            Some("computer_name must not be empty when provided"@)
        } else {
            None
        }
    }

    /// The arguments of the cmdlet.
    pub open spec fn command_args(
        input: SetVmNetworkAdapterFailoverConfigurationInput,
    ) -> Seq<Seq<char>> {
        seq![
            "Set-VMNetworkAdapterFailoverConfiguration"@,
            quoted_arg("-VMName"@, input.vm_name@),
            quoted_arg("-NetworkAdapterName"@, input.network_adapter_name@),
        ]
            + (if input.ip_addresses@.len() > 0 {
                seq![array_arg("-IPAddress"@, input.ip_addresses@)]
            } else {
                Seq::empty()
            })
            + opt_quoted("-ComputerName"@, input.computer_name)
    }

    /// The script that runs for a valid request.
    pub open spec fn script(input: SetVmNetworkAdapterFailoverConfigurationInput) -> Seq<char> {
        join(Self::command_args(input), seq![' ']) + SELECT@
    }

    /// Checks the request and builds its script.
    pub fn build_script(
        input: &SetVmNetworkAdapterFailoverConfigurationInput,
    ) -> (r: Result<String, ToolError>)
        ensures
            script_outcome(r, Self::input_problem(*input), Self::script(*input)),
    {
        if text_is_blank(input.vm_name.as_str()) {
            return Err(invalid_input("vm_name must not be empty"));
        }
        if text_is_blank(input.network_adapter_name.as_str()) {
            return Err(invalid_input("network_adapter_name must not be empty"));
        }
        if option_is_blank(&input.computer_name) {
            return Err(invalid_input("computer_name must not be empty when provided"));
        }
        let mut args = ArgList::new("Set-VMNetworkAdapterFailoverConfiguration");
        args.push_quoted("-VMName", input.vm_name.as_str());
        args.push_quoted("-NetworkAdapterName", input.network_adapter_name.as_str());
        assert(args@ =~= seq![
            "Set-VMNetworkAdapterFailoverConfiguration"@,
            quoted_arg("-VMName"@, input.vm_name@),
            quoted_arg("-NetworkAdapterName"@, input.network_adapter_name@),
        ]);
        if input.ip_addresses.len() > 0 {
            args.push_quoted_array("-IPAddress", input.ip_addresses.as_slice());
        }
        args.push_opt_quoted("-ComputerName", &input.computer_name);
        assert(args@ === Self::command_args(*input));
        Ok(args.to_command_with(SELECT))
    }

    /// Reads the answer from what the script printed: one entry per record.
    pub fn parse_output(raw: JsonValue) -> (r: SetVmNetworkAdapterFailoverConfigurationOutput)
        ensures
            describes_all(r.configs@, raw.records()),
    {
        SetVmNetworkAdapterFailoverConfigurationOutput { configs: decode_records(raw) }
    }

    /// Reads the answer from the text the script printed; blank text reads as
    /// an empty list, and text that is not JSON is a `Json` error.
    pub fn read_output(printed: &str) -> (r: Result<SetVmNetworkAdapterFailoverConfigurationOutput, ToolError>)
        ensures
            match parsed_json(effective_output(printed@)) {
                Some(raw) => r matches Ok(out) && describes_all(out.configs@, raw.records()),
                None => r matches Err(ToolError::Json(_)),
            },
    {
        match read_printed(printed) {
            Ok(raw) => Ok(Self::parse_output(raw)),
            Err(e) => Err(e),
        }
    }

    /// Every value of a valid request reaches the script that `build_script`
    /// returns under its own flag: each flag below stands in the script
    /// followed by the value of the field of the same name.
    pub proof fn lemma_script_carries_each_value(
        input: SetVmNetworkAdapterFailoverConfigurationInput,
    )
        requires
            Self::input_problem(input) is None,
        ensures
            holds(Self::script(input), quoted_arg("-VMName"@, input.vm_name@)),
            holds(
                Self::script(input),
                quoted_arg("-NetworkAdapterName"@, input.network_adapter_name@),
            ),
            input.computer_name matches Some(v) ==> holds(
                Self::script(input),
                quoted_arg("-ComputerName"@, v@),
            ),
            input.ip_addresses@.len() > 0 ==> holds(
                Self::script(input),
                array_arg("-IPAddress"@, input.ip_addresses@),
            ),
    {
        Self::script_carries_vm_name(input);
        Self::script_carries_network_adapter_name(input);
        Self::script_carries_computer_name(input);
        Self::script_carries_ip_addresses(input);
    }

    proof fn script_carries_vm_name(input: SetVmNetworkAdapterFailoverConfigurationInput)
        ensures
            holds(Self::script(input), quoted_arg("-VMName"@, input.vm_name@)),
    {
        broadcast use lemma_add_contains, lemma_push_contains;

        let args = Self::command_args(input);
        let tail = SELECT@;
        lemma_script_holds_argument(args, tail, quoted_arg("-VMName"@, input.vm_name@));
    }

    proof fn script_carries_network_adapter_name(
        input: SetVmNetworkAdapterFailoverConfigurationInput,
    )
        ensures
            holds(
                Self::script(input),
                quoted_arg("-NetworkAdapterName"@, input.network_adapter_name@),
            ),
    {
        broadcast use lemma_add_contains, lemma_push_contains;

        let args = Self::command_args(input);
        let tail = SELECT@;
        lemma_script_holds_argument(
            args,
            tail,
            quoted_arg("-NetworkAdapterName"@, input.network_adapter_name@),
        );
    }

    proof fn script_carries_computer_name(input: SetVmNetworkAdapterFailoverConfigurationInput)
        ensures
            input.computer_name matches Some(v) ==> holds(
                Self::script(input),
                quoted_arg("-ComputerName"@, v@),
            ),
    {
        broadcast use lemma_add_contains, lemma_push_contains;

        let args = Self::command_args(input);
        let tail = SELECT@;
        if let Some(v) = input.computer_name {
            lemma_script_holds_argument(args, tail, quoted_arg("-ComputerName"@, v@));
        }
    }

    proof fn script_carries_ip_addresses(input: SetVmNetworkAdapterFailoverConfigurationInput)
        ensures
            input.ip_addresses@.len() > 0 ==> holds(
                Self::script(input),
                array_arg("-IPAddress"@, input.ip_addresses@),
            ),
    {
        broadcast use lemma_add_contains, lemma_push_contains;

        let args = Self::command_args(input);
        let tail = SELECT@;
        if input.ip_addresses@.len() > 0 {
            lemma_script_holds_argument(args, tail, array_arg("-IPAddress"@, input.ip_addresses@));
        }
    }

    /// Each entry of the answer reads the printed record at its place: every
    /// field holds the record's member of the matching name.
    pub proof fn lemma_answer_reads_each_record(
        raw: JsonValue,
        out: SetVmNetworkAdapterFailoverConfigurationOutput,
    )
        requires
            describes_all(out.configs@, raw.records()),
        ensures
            out.configs@.len() == raw.records().len(),
            forall|i: int|
                #![trigger out.configs@[i]]
                0 <= i < raw.records().len() ==> {
                    &&& out.configs@[i].vm_name@ == raw.records()[i].text_or_empty("VMName"@)
                    &&& out.configs@[i].network_adapter_name@
                        == raw.records()[i].text_or_empty("NetworkAdapterName"@)
                    &&& texts(out.configs@[i].ip_addresses@)
                        == address_list(raw.records()[i].at("IPAddresses"@))
                    &&& out.configs@[i].computer_name@
                        == raw.records()[i].text_or_empty("ComputerName"@)
                },
    {
        assert forall|i: int| 0 <= i < raw.records().len() implies {
            &&& out.configs@[i].vm_name@ == raw.records()[i].text_or_empty("VMName"@)
            &&& out.configs@[i].network_adapter_name@
                == raw.records()[i].text_or_empty("NetworkAdapterName"@)
            &&& texts(out.configs@[i].ip_addresses@)
                == address_list(raw.records()[i].at("IPAddresses"@))
            &&& out.configs@[i].computer_name@ == raw.records()[i].text_or_empty("ComputerName"@)
        } by {
            assert(out.configs@[i].describes(raw.records()[i]));
        }
    }

    /// A request is valid only when it passes every check: none of the
    /// conditions that refuse a request holds of it.
    pub proof fn lemma_valid_request_passes_every_check(
        input: SetVmNetworkAdapterFailoverConfigurationInput,
    )
        requires
            Self::input_problem(input) is None,
        ensures
            !(is_blank(input.vm_name@)),
            !(is_blank(input.network_adapter_name@)),
            !(input.computer_name matches Some(s) && is_blank(s@)),
    {
    }
}

/// The addresses as printed: the texts of an array (the empty text for an
/// element that is not a string); nothing otherwise.
pub open spec fn address_list(v: JsonValue) -> Seq<Seq<char>> {
    match v.array_items() {
        Some(a) => texts_or_empty(a),
        None => Seq::empty(),
    }
}

/// Reads the addresses from what the script printed for them.
pub fn addresses_from(v: &JsonValue) -> (r: Vec<String>)
    ensures
        texts(r@) == address_list(*v),
{
    match v.as_array() {
        Some(a) => strings_or_empty(a),
        None => Vec::new(),
    }
}

} // verus!
