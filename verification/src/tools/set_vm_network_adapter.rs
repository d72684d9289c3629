//! `hyperv_set_vm_network_adapter`: configures features of the virtual network adapter in a virtual machine or the management operating system.
use vstd::prelude::*;
use crate::command::{
    bool_arg, holds, join, lemma_add_contains, lemma_push_contains, lemma_script_holds_argument,
    opt_bool, opt_quoted, quoted_arg, target_args, ArgList,
};
use crate::error::{invalid_input, script_outcome, ToolError};
use crate::json::{
    decode_records, describes_all, effective_output, parsed_json, read_printed, FromJson, JsonValue,
};
use crate::text::{is_blank, is_provided, option_is_provided, text_is_blank};

verus! {

/// The tool's name.
pub const NAME: &'static str = "hyperv_set_vm_network_adapter";

/// What the tool does.
pub const DESCRIPTION: &'static str = "Configures features of the virtual network adapter in a virtual machine or the management operating system.";

/// What the script runs after the cmdlet: the fields it prints, as JSON.
pub const SELECT: &'static str = " | Select-Object Name, IsLegacy, SwitchName, MacAddress, DynamicMacAddressEnabled, @{N='MacAddressSpoofing';E={$_.MacAddressSpoofing.ToString()}}, @{N='AllowTeaming';E={$_.AllowTeaming.ToString()}}, @{N='DeviceNaming';E={$_.DeviceNaming.ToString()}}, @{N='IPsecTaskOffload';E={$_.IPsecTaskOffload.ToString()}}, VmmqEnabled, VrssEnabled, PacketDirectEnabled | ConvertTo-Json -Compress -Depth 3";

/// What the tool is asked.
#[derive(Debug)]
pub struct SetVmNetworkAdapterInput {
    /// Name of the virtual machine whose network adapter is to be configured.
    /// Not used when management_os is true.
    pub vm_name: Option<String>,
    /// Name of the virtual network adapter to configure.
    pub name: String,
    /// Hyper-V host to target. Defaults to localhost.
    pub computer_name: Option<String>,
    /// Configure the adapter in the management operating system instead of a VM.
    pub management_os: Option<bool>,
    /// Virtual switch to connect the adapter to.
    pub switch_name: Option<String>,
    /// Static MAC address to assign to the adapter.
    pub static_mac_address: Option<String>,
    /// Enable or disable dynamic MAC address generation.
    pub dynamic_mac_address_enabled: Option<bool>,
    /// Enable MAC address spoofing. Valid values: On, Off.
    pub mac_address_spoofing: Option<String>,
    /// Allow NIC teaming in the VM. Valid values: On, Off.
    pub allow_teaming: Option<String>,
    /// Enable device naming. Valid values: On, Off.
    pub device_naming: Option<String>,
    /// Enable IPsec task offload. Valid values: Enabled, Disabled.
    pub ipsec_task_offload: Option<String>,
    /// Enable Virtual Machine Multi-Queue.
    pub vmmq_enabled: Option<bool>,
    /// Enable Virtual Receive Side Scaling.
    pub vrss_enabled: Option<bool>,
    /// Enable Packet Direct.
    pub packet_direct_enabled: Option<bool>,
}

/// One record of the answer.
#[derive(Debug)]
pub struct VmNetworkAdapterInfo {
    pub name: String,
    pub is_legacy: bool,
    pub switch_name: String,
    pub mac_address: String,
    pub dynamic_mac_address_enabled: bool,
    pub mac_address_spoofing: String,
    pub allow_teaming: String,
    pub device_naming: String,
    pub ipsec_task_offload: String,
    pub vmmq_enabled: bool,
    pub vrss_enabled: bool,
    pub packet_direct_enabled: bool,
}

/// What the tool answers.
#[derive(Debug)]
pub struct SetVmNetworkAdapterOutput {
    pub adapters: Vec<VmNetworkAdapterInfo>,
}

/// The tool.
#[derive(Default)]
pub struct SetVmNetworkAdapterTool;

impl FromJson for VmNetworkAdapterInfo {
    open spec fn describes(&self, item: JsonValue) -> bool {
        &&& self.name@ == item.text_or_empty("Name"@)
        &&& self.is_legacy == item.flag_or_false("IsLegacy"@)
        &&& self.switch_name@ == item.text_or_empty("SwitchName"@)
        &&& self.mac_address@ == item.text_or_empty("MacAddress"@)
        &&& self.dynamic_mac_address_enabled == item.flag_or_false("DynamicMacAddressEnabled"@)
        &&& self.mac_address_spoofing@ == item.text_or_empty("MacAddressSpoofing"@)
        &&& self.allow_teaming@ == item.text_or_empty("AllowTeaming"@)
        &&& self.device_naming@ == item.text_or_empty("DeviceNaming"@)
        &&& self.ipsec_task_offload@ == item.text_or_empty("IPsecTaskOffload"@)
        &&& self.vmmq_enabled == item.flag_or_false("VmmqEnabled"@)
        &&& self.vrss_enabled == item.flag_or_false("VrssEnabled"@)
        &&& self.packet_direct_enabled == item.flag_or_false("PacketDirectEnabled"@)
    }

    fn from_json(item: &JsonValue) -> (r: Self) {
        VmNetworkAdapterInfo {
            name: item.text_or_empty_at("Name"),
            is_legacy: item.flag_or_false_at("IsLegacy"),
            switch_name: item.text_or_empty_at("SwitchName"),
            mac_address: item.text_or_empty_at("MacAddress"),
            dynamic_mac_address_enabled: item.flag_or_false_at("DynamicMacAddressEnabled"),
            mac_address_spoofing: item.text_or_empty_at("MacAddressSpoofing"),
            allow_teaming: item.text_or_empty_at("AllowTeaming"),
            device_naming: item.text_or_empty_at("DeviceNaming"),
            ipsec_task_offload: item.text_or_empty_at("IPsecTaskOffload"),
            vmmq_enabled: item.flag_or_false_at("VmmqEnabled"),
            vrss_enabled: item.flag_or_false_at("VrssEnabled"),
            packet_direct_enabled: item.flag_or_false_at("PacketDirectEnabled"),
        }
    }
}

impl SetVmNetworkAdapterTool {
    /// The first problem with the request, as the message that reports it.
    pub open spec fn input_problem(input: SetVmNetworkAdapterInput) -> Option<Seq<char>> {
        if is_blank(input.name@) {
            Some("Network adapter name must not be empty"@)
        } else if !(input.management_os == Some(true)) && !is_provided(input.vm_name) {
            Some("VM name must be provided when management_os is not enabled"@)
        } else if input.switch_name is None
            && input.static_mac_address is None
            && input.dynamic_mac_address_enabled is None
            && input.mac_address_spoofing is None
            && input.allow_teaming is None
            && input.device_naming is None
            && input.ipsec_task_offload is None
            && input.vmmq_enabled is None
            && input.vrss_enabled is None
            && input.packet_direct_enabled is None {
            Some("At least one network adapter setting must be provided"@)
        } else {
            None
        }
    }

    /// The arguments of the cmdlet.
    pub open spec fn command_args(input: SetVmNetworkAdapterInput) -> Seq<Seq<char>> {
        seq!["Set-VMNetworkAdapter"@]
            + target_args(input.management_os == Some(true), input.vm_name)
            + seq![quoted_arg("-Name"@, input.name@)]
            + opt_quoted("-ComputerName"@, input.computer_name)
            + opt_quoted("-SwitchName"@, input.switch_name)
            + opt_quoted("-StaticMacAddress"@, input.static_mac_address)
            + opt_bool("-DynamicMacAddressEnabled"@, input.dynamic_mac_address_enabled)
            + opt_quoted("-MacAddressSpoofing"@, input.mac_address_spoofing)
            + opt_quoted("-AllowTeaming"@, input.allow_teaming)
            + opt_quoted("-DeviceNaming"@, input.device_naming)
            + opt_quoted("-IPsecTaskOffload"@, input.ipsec_task_offload)
            + opt_bool("-VmmqEnabled"@, input.vmmq_enabled)
            + opt_bool("-VrssEnabled"@, input.vrss_enabled)
            + opt_bool("-PacketDirectEnabled"@, input.packet_direct_enabled)
    }

    /// The script that runs for a valid request.
    pub open spec fn script(input: SetVmNetworkAdapterInput) -> Seq<char> {
        join(Self::command_args(input), seq![' ']) + SELECT@
    }

    /// Checks the request and builds its script.
    pub fn build_script(input: &SetVmNetworkAdapterInput) -> (r: Result<String, ToolError>)
        ensures
            script_outcome(r, Self::input_problem(*input), Self::script(*input)),
    {
        let management_os = matches!(input.management_os, Some(true));
        if text_is_blank(input.name.as_str()) {
            return Err(invalid_input("Network adapter name must not be empty"));
        }
        if !management_os && !option_is_provided(&input.vm_name) {
            return Err(invalid_input(
                "VM name must be provided when management_os is not enabled",
            ));
        }
        if input.switch_name.is_none()
            && input.static_mac_address.is_none()
            && input.dynamic_mac_address_enabled.is_none()
            && input.mac_address_spoofing.is_none()
            && input.allow_teaming.is_none()
            && input.device_naming.is_none()
            && input.ipsec_task_offload.is_none()
            && input.vmmq_enabled.is_none()
            && input.vrss_enabled.is_none()
            && input.packet_direct_enabled.is_none() {
            return Err(invalid_input("At least one network adapter setting must be provided"));
        }
        let mut args = ArgList::new("Set-VMNetworkAdapter");
        args.push_target(management_os, &input.vm_name);
        args.push_quoted("-Name", input.name.as_str());
        args.push_opt_quoted("-ComputerName", &input.computer_name);
        args.push_opt_quoted("-SwitchName", &input.switch_name);
        args.push_opt_quoted("-StaticMacAddress", &input.static_mac_address);
        args.push_opt_bool("-DynamicMacAddressEnabled", input.dynamic_mac_address_enabled);
        args.push_opt_quoted("-MacAddressSpoofing", &input.mac_address_spoofing);
        args.push_opt_quoted("-AllowTeaming", &input.allow_teaming);
        args.push_opt_quoted("-DeviceNaming", &input.device_naming);
        args.push_opt_quoted("-IPsecTaskOffload", &input.ipsec_task_offload);
        args.push_opt_bool("-VmmqEnabled", input.vmmq_enabled);
        args.push_opt_bool("-VrssEnabled", input.vrss_enabled);
        args.push_opt_bool("-PacketDirectEnabled", input.packet_direct_enabled);
        assert(args@ === Self::command_args(*input));
        Ok(args.to_command_with(SELECT))
    }

    /// Reads the answer from what the script printed: one entry per record.
    pub fn parse_output(raw: JsonValue) -> (r: SetVmNetworkAdapterOutput)
        ensures
            describes_all(r.adapters@, raw.records()),
    {
        SetVmNetworkAdapterOutput { adapters: decode_records(raw) }
    }

    /// Reads the answer from the text the script printed; blank text reads as
    /// an empty list, and text that is not JSON is a `Json` error.
    pub fn read_output(printed: &str) -> (r: Result<SetVmNetworkAdapterOutput, ToolError>)
        ensures
            match parsed_json(effective_output(printed@)) {
                Some(raw) => r matches Ok(out) && describes_all(out.adapters@, raw.records()),
                None => r matches Err(ToolError::Json(_)),
            },
    {
        match read_printed(printed) {
            Ok(raw) => Ok(Self::parse_output(raw)),
            Err(e) => Err(e),
        }
    }

    /// Every value of a valid request reaches the script that `build_script`
    /// returns under its own flag: each flag below stands in the script
    /// followed by the value of the field of the same name.
    pub proof fn lemma_script_carries_each_value(input: SetVmNetworkAdapterInput)
        requires
            Self::input_problem(input) is None,
        ensures
            input.management_os == Some(true) ==> holds(Self::script(input), "-ManagementOS"@),
            input.vm_name matches Some(v) ==> !(input.management_os == Some(true)) ==> holds(
                Self::script(input),
                quoted_arg("-VMName"@, v@),
            ),
            holds(Self::script(input), quoted_arg("-Name"@, input.name@)),
            input.computer_name matches Some(v) ==> holds(
                Self::script(input),
                quoted_arg("-ComputerName"@, v@),
            ),
            input.switch_name matches Some(v) ==> holds(
                Self::script(input),
                quoted_arg("-SwitchName"@, v@),
            ),
            input.static_mac_address matches Some(v) ==> holds(
                Self::script(input),
                quoted_arg("-StaticMacAddress"@, v@),
            ),
            input.dynamic_mac_address_enabled matches Some(v) ==> holds(
                Self::script(input),
                bool_arg("-DynamicMacAddressEnabled"@, v),
            ),
            input.mac_address_spoofing matches Some(v) ==> holds(
                Self::script(input),
                quoted_arg("-MacAddressSpoofing"@, v@),
            ),
            input.allow_teaming matches Some(v) ==> holds(
                Self::script(input),
                quoted_arg("-AllowTeaming"@, v@),
            ),
            input.device_naming matches Some(v) ==> holds(
                Self::script(input),
                quoted_arg("-DeviceNaming"@, v@),
            ),
            input.ipsec_task_offload matches Some(v) ==> holds(
                Self::script(input),
                quoted_arg("-IPsecTaskOffload"@, v@),
            ),
            input.vmmq_enabled matches Some(v) ==> holds(
                Self::script(input),
                bool_arg("-VmmqEnabled"@, v),
            ),
            input.vrss_enabled matches Some(v) ==> holds(
                Self::script(input),
                bool_arg("-VrssEnabled"@, v),
            ),
            input.packet_direct_enabled matches Some(v) ==> holds(
                Self::script(input),
                bool_arg("-PacketDirectEnabled"@, v),
            ),
    {
        Self::script_carries_management_os(input);
        Self::script_carries_vm_name(input);
        Self::script_carries_name(input);
        Self::script_carries_computer_name(input);
        Self::script_carries_switch_name(input);
        Self::script_carries_static_mac_address(input);
        Self::script_carries_dynamic_mac_address_enabled(input);
        Self::script_carries_mac_address_spoofing(input);
        Self::script_carries_allow_teaming(input);
        Self::script_carries_device_naming(input);
        Self::script_carries_ipsec_task_offload(input);
        Self::script_carries_vmmq_enabled(input);
        Self::script_carries_vrss_enabled(input);
        Self::script_carries_packet_direct_enabled(input);
    }

    proof fn script_carries_management_os(input: SetVmNetworkAdapterInput)
        ensures
            input.management_os == Some(true) ==> holds(Self::script(input), "-ManagementOS"@),
    {
        broadcast use lemma_add_contains, lemma_push_contains;

        let args = Self::command_args(input);
        let tail = SELECT@;
        if input.management_os == Some(true) {
            lemma_script_holds_argument(args, tail, "-ManagementOS"@);
        }
    }

    proof fn script_carries_vm_name(input: SetVmNetworkAdapterInput)
        ensures
            input.vm_name matches Some(v) ==> !(input.management_os == Some(true)) ==> holds(
                Self::script(input),
                quoted_arg("-VMName"@, v@),
            ),
    {
        broadcast use lemma_add_contains, lemma_push_contains;

        let args = Self::command_args(input);
        let tail = SELECT@;
        if !(input.management_os == Some(true)) && input.vm_name is Some {
            lemma_script_holds_argument(args, tail, quoted_arg("-VMName"@, input.vm_name->0@));
        }
    }

    proof fn script_carries_name(input: SetVmNetworkAdapterInput)
        ensures
            holds(Self::script(input), quoted_arg("-Name"@, input.name@)),
    {
        broadcast use lemma_add_contains, lemma_push_contains;

        let args = Self::command_args(input);
        let tail = SELECT@;
        lemma_script_holds_argument(args, tail, quoted_arg("-Name"@, input.name@));
    }

    proof fn script_carries_computer_name(input: SetVmNetworkAdapterInput)
        ensures
            input.computer_name matches Some(v) ==> holds(
                Self::script(input),
                quoted_arg("-ComputerName"@, v@),
            ),
    {
        broadcast use lemma_add_contains, lemma_push_contains;

        let args = Self::command_args(input);
        let tail = SELECT@;
        if let Some(v) = input.computer_name {
            lemma_script_holds_argument(args, tail, quoted_arg("-ComputerName"@, v@));
        }
    }

    proof fn script_carries_switch_name(input: SetVmNetworkAdapterInput)
        ensures
            input.switch_name matches Some(v) ==> holds(
                Self::script(input),
                quoted_arg("-SwitchName"@, v@),
            ),
    {
        broadcast use lemma_add_contains, lemma_push_contains;

        let args = Self::command_args(input);
        let tail = SELECT@;
        if let Some(v) = input.switch_name {
            lemma_script_holds_argument(args, tail, quoted_arg("-SwitchName"@, v@));
        }
    }

    proof fn script_carries_static_mac_address(input: SetVmNetworkAdapterInput)
        ensures
            input.static_mac_address matches Some(v) ==> holds(
                Self::script(input),
                quoted_arg("-StaticMacAddress"@, v@),
            ),
    {
        broadcast use lemma_add_contains, lemma_push_contains;

        let args = Self::command_args(input);
        let tail = SELECT@;
        if let Some(v) = input.static_mac_address {
            lemma_script_holds_argument(args, tail, quoted_arg("-StaticMacAddress"@, v@));
        }
    }

    proof fn script_carries_dynamic_mac_address_enabled(input: SetVmNetworkAdapterInput)
        ensures
            input.dynamic_mac_address_enabled matches Some(v) ==> holds(
                Self::script(input),
                bool_arg("-DynamicMacAddressEnabled"@, v),
            ),
    {
        broadcast use lemma_add_contains, lemma_push_contains;

        let args = Self::command_args(input);
        let tail = SELECT@;
        if let Some(v) = input.dynamic_mac_address_enabled {
            lemma_script_holds_argument(args, tail, bool_arg("-DynamicMacAddressEnabled"@, v));
        }
    }

    proof fn script_carries_mac_address_spoofing(input: SetVmNetworkAdapterInput)
        ensures
            input.mac_address_spoofing matches Some(v) ==> holds(
                Self::script(input),
                quoted_arg("-MacAddressSpoofing"@, v@),
            ),
    {
        broadcast use lemma_add_contains, lemma_push_contains;

        let args = Self::command_args(input);
        let tail = SELECT@;
        if let Some(v) = input.mac_address_spoofing {
            lemma_script_holds_argument(args, tail, quoted_arg("-MacAddressSpoofing"@, v@));
        }
    }

    proof fn script_carries_allow_teaming(input: SetVmNetworkAdapterInput)
        ensures
            input.allow_teaming matches Some(v) ==> holds(
                Self::script(input),
                quoted_arg("-AllowTeaming"@, v@),
            ),
    {
        broadcast use lemma_add_contains, lemma_push_contains;

        let args = Self::command_args(input);
        let tail = SELECT@;
        if let Some(v) = input.allow_teaming {
            lemma_script_holds_argument(args, tail, quoted_arg("-AllowTeaming"@, v@));
        }
    }

    proof fn script_carries_device_naming(input: SetVmNetworkAdapterInput)
        ensures
            input.device_naming matches Some(v) ==> holds(
                Self::script(input),
                quoted_arg("-DeviceNaming"@, v@),
            ),
    {
        broadcast use lemma_add_contains, lemma_push_contains;

        let args = Self::command_args(input);
        let tail = SELECT@;
        if let Some(v) = input.device_naming {
            lemma_script_holds_argument(args, tail, quoted_arg("-DeviceNaming"@, v@));
        }
    }

    proof fn script_carries_ipsec_task_offload(input: SetVmNetworkAdapterInput)
        ensures
            input.ipsec_task_offload matches Some(v) ==> holds(
                Self::script(input),
                quoted_arg("-IPsecTaskOffload"@, v@),
            ),
    {
        broadcast use lemma_add_contains, lemma_push_contains;

        let args = Self::command_args(input);
        let tail = SELECT@;
        if let Some(v) = input.ipsec_task_offload {
            lemma_script_holds_argument(args, tail, quoted_arg("-IPsecTaskOffload"@, v@));
        }
    }

    proof fn script_carries_vmmq_enabled(input: SetVmNetworkAdapterInput)
        ensures
            input.vmmq_enabled matches Some(v) ==> holds(
                Self::script(input),
                bool_arg("-VmmqEnabled"@, v),
            ),
    {
        broadcast use lemma_add_contains, lemma_push_contains;

        let args = Self::command_args(input);
        let tail = SELECT@;
        if let Some(v) = input.vmmq_enabled {
            lemma_script_holds_argument(args, tail, bool_arg("-VmmqEnabled"@, v));
        }
    }

    proof fn script_carries_vrss_enabled(input: SetVmNetworkAdapterInput)
        ensures
            input.vrss_enabled matches Some(v) ==> holds(
                Self::script(input),
                bool_arg("-VrssEnabled"@, v),
            ),
    {
        broadcast use lemma_add_contains, lemma_push_contains;

        let args = Self::command_args(input);
        let tail = SELECT@;
        if let Some(v) = input.vrss_enabled {
            lemma_script_holds_argument(args, tail, bool_arg("-VrssEnabled"@, v));
        }
    }

    proof fn script_carries_packet_direct_enabled(input: SetVmNetworkAdapterInput)
        ensures
            input.packet_direct_enabled matches Some(v) ==> holds(
                Self::script(input),
                bool_arg("-PacketDirectEnabled"@, v),
            ),
    {
        broadcast use lemma_add_contains, lemma_push_contains;

        let args = Self::command_args(input);
        let tail = SELECT@;
        if let Some(v) = input.packet_direct_enabled {
            lemma_script_holds_argument(args, tail, bool_arg("-PacketDirectEnabled"@, v));
        }
    }

    /// Each entry of the answer reads the printed record at its place: every
    /// field holds the record's member of the matching name.
    pub proof fn lemma_answer_reads_each_record(raw: JsonValue, out: SetVmNetworkAdapterOutput)
        requires
            describes_all(out.adapters@, raw.records()),
        ensures
            out.adapters@.len() == raw.records().len(),
            forall|i: int|
                #![trigger out.adapters@[i]]
                0 <= i < raw.records().len() ==> {
                    &&& out.adapters@[i].name@ == raw.records()[i].text_or_empty("Name"@)
                    &&& out.adapters@[i].is_legacy == raw.records()[i].flag_or_false("IsLegacy"@)
                    &&& out.adapters@[i].switch_name@
                        == raw.records()[i].text_or_empty("SwitchName"@)
                    &&& out.adapters@[i].mac_address@
                        == raw.records()[i].text_or_empty("MacAddress"@)
                    &&& out.adapters@[i].dynamic_mac_address_enabled
                        == raw.records()[i].flag_or_false("DynamicMacAddressEnabled"@)
                    &&& out.adapters@[i].mac_address_spoofing@
                        == raw.records()[i].text_or_empty("MacAddressSpoofing"@)
                    &&& out.adapters@[i].allow_teaming@
                        == raw.records()[i].text_or_empty("AllowTeaming"@)
                    &&& out.adapters@[i].device_naming@
                        == raw.records()[i].text_or_empty("DeviceNaming"@)
                    &&& out.adapters@[i].ipsec_task_offload@
                        == raw.records()[i].text_or_empty("IPsecTaskOffload"@)
                    &&& out.adapters@[i].vmmq_enabled
                        == raw.records()[i].flag_or_false("VmmqEnabled"@)
                    &&& out.adapters@[i].vrss_enabled
                        == raw.records()[i].flag_or_false("VrssEnabled"@)
                    &&& out.adapters@[i].packet_direct_enabled
                        == raw.records()[i].flag_or_false("PacketDirectEnabled"@)
                },
    {
        assert forall|i: int| 0 <= i < raw.records().len() implies {
            &&& out.adapters@[i].name@ == raw.records()[i].text_or_empty("Name"@)
            &&& out.adapters@[i].is_legacy == raw.records()[i].flag_or_false("IsLegacy"@)
            &&& out.adapters@[i].switch_name@ == raw.records()[i].text_or_empty("SwitchName"@)
            &&& out.adapters@[i].mac_address@ == raw.records()[i].text_or_empty("MacAddress"@)
            &&& out.adapters@[i].dynamic_mac_address_enabled
                == raw.records()[i].flag_or_false("DynamicMacAddressEnabled"@)
            &&& out.adapters@[i].mac_address_spoofing@
                == raw.records()[i].text_or_empty("MacAddressSpoofing"@)
            &&& out.adapters@[i].allow_teaming@ == raw.records()[i].text_or_empty("AllowTeaming"@)
            &&& out.adapters@[i].device_naming@ == raw.records()[i].text_or_empty("DeviceNaming"@)
            &&& out.adapters@[i].ipsec_task_offload@
                == raw.records()[i].text_or_empty("IPsecTaskOffload"@)
            &&& out.adapters@[i].vmmq_enabled == raw.records()[i].flag_or_false("VmmqEnabled"@)
            &&& out.adapters@[i].vrss_enabled == raw.records()[i].flag_or_false("VrssEnabled"@)
            &&& out.adapters@[i].packet_direct_enabled
                == raw.records()[i].flag_or_false("PacketDirectEnabled"@)
        } by {
            assert(out.adapters@[i].describes(raw.records()[i]));
        }
    }

    /// A request is valid only when it passes every check: none of the
    /// conditions that refuse a request holds of it.
    pub proof fn lemma_valid_request_passes_every_check(input: SetVmNetworkAdapterInput)
        requires
            Self::input_problem(input) is None,
        ensures
            !(is_blank(input.name@)),
            !(!(input.management_os == Some(true)) && !is_provided(input.vm_name)),
            !(input.switch_name is None && input.static_mac_address is None && input.dynamic_mac_address_enabled is None && input.mac_address_spoofing is None && input.allow_teaming is None && input.device_naming is None && input.ipsec_task_offload is None && input.vmmq_enabled is None && input.vrss_enabled is None && input.packet_direct_enabled is None),
    {
    }

    /// A valid request names its target: the management operating system, or
    /// the virtual machine it names.
    pub proof fn lemma_valid_request_names_target(input: SetVmNetworkAdapterInput)
        requires
            Self::input_problem(input) is None,
        ensures
            target_args(input.management_os == Some(true), input.vm_name).len() == 1,
    {
    }
}

} // verus!
