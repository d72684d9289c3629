//! `hyperv_set_vm_network_adapter_vlan`: configures the virtual LAN settings for the traffic through a virtual network adapter.
use vstd::prelude::*;
use crate::command::{
    holds, join, lemma_add_contains, lemma_push_contains, lemma_script_holds_argument, number_arg,
    opt_quoted, quoted_arg, target_args, ArgList,
};
use crate::error::{invalid_input, script_outcome, ToolError};
use crate::json::{
    decode_records, describes_all, effective_output, parsed_json, read_printed, FromJson, JsonValue,
};
use crate::text::{
    ascii_lower, is_blank, is_provided, lower_is, option_is_provided, text_is_blank, trim, trimmed,
};

verus! {

/// The tool's name.
pub const NAME: &'static str = "hyperv_set_vm_network_adapter_vlan";

/// What the tool does.
pub const DESCRIPTION: &'static str = "Configures the virtual LAN settings for the traffic through a virtual network adapter.";

/// What the script runs after the cmdlet: the fields it prints, as JSON.
pub const SELECT: &'static str = " | Select-Object VMName, VMNetworkAdapterName, ComputerName, @{N='OperationMode';E={$_.OperationMode.ToString()}}, AccessVlanId, NativeVlanId, AllowedVlanIdList, PrimaryVlanId, SecondaryVlanId, SecondaryVlanIdList | ConvertTo-Json -Compress -Depth 3";

/// What the tool is asked.
#[derive(Debug)]
pub struct SetVmNetworkAdapterVlanInput {
    /// Name of the virtual machine whose network adapter VLAN is to be configured.
    /// Not used when management_os is true.
    pub vm_name: Option<String>,
    /// Hyper-V host to target. Defaults to localhost.
    pub computer_name: Option<String>,
    /// Configure the adapter in the management operating system instead of a VM.
    pub management_os: Option<bool>,
    /// Name of the virtual network adapter to configure.
    pub vm_network_adapter_name: Option<String>,
    /// VLAN operation mode: Access, Untagged, Trunk, Isolated, Community, or Promiscuous.
    pub operation_mode: String,
    /// VLAN ID for Access mode.
    pub vlan_id: Option<i32>,
    /// Native VLAN ID for Trunk mode.
    pub native_vlan_id: Option<i32>,
    /// Comma-separated or ranged list of allowed VLAN IDs for Trunk mode.
    pub allowed_vlan_id_list: Option<String>,
    /// Primary VLAN ID for Private VLAN modes.
    pub primary_vlan_id: Option<i32>,
    /// Secondary VLAN ID for Isolated or Community mode.
    pub secondary_vlan_id: Option<i32>,
    /// Comma-separated or ranged list of secondary VLAN IDs for Promiscuous mode.
    pub secondary_vlan_id_list: Option<String>,
}

/// One record of the answer.
#[derive(Debug)]
pub struct VmNetworkAdapterVlanInfo {
    pub vm_name: String,
    pub vm_network_adapter_name: String,
    pub computer_name: String,
    pub operation_mode: String,
    pub access_vlan_id: i32,
    pub native_vlan_id: i32,
    pub allowed_vlan_id_list: String,
    pub primary_vlan_id: i32,
    pub secondary_vlan_id: i32,
    pub secondary_vlan_id_list: String,
}

/// What the tool answers.
#[derive(Debug)]
pub struct SetVmNetworkAdapterVlanOutput {
    pub adapters: Vec<VmNetworkAdapterVlanInfo>,
}

/// The VLAN operation modes that the cmdlet knows.
#[derive(Debug, Clone, Copy)]
pub enum VlanMode {
    Access,
    Untagged,
    Trunk,
    Isolated,
    Community,
    Promiscuous,
}

/// The mode that a lower-case name stands for.
pub open spec fn mode_named(lower: Seq<char>) -> Option<VlanMode> {
    if lower == "access"@ {
        Some(VlanMode::Access)
    } else if lower == "untagged"@ {
        Some(VlanMode::Untagged)
    } else if lower == "trunk"@ {
        Some(VlanMode::Trunk)
    } else if lower == "isolated"@ {
        Some(VlanMode::Isolated)
    } else if lower == "community"@ {
        Some(VlanMode::Community)
    } else if lower == "promiscuous"@ {
        Some(VlanMode::Promiscuous)
    } else {
        None
    }
}

/// The cmdlet's switch for a mode.
pub open spec fn mode_switch(mode: VlanMode) -> Seq<char> {
    match mode {
        VlanMode::Access => "-Access"@,
        VlanMode::Untagged => "-Untagged"@,
        VlanMode::Trunk => "-Trunk"@,
        VlanMode::Isolated => "-Isolated"@,
        VlanMode::Community => "-Community"@,
        VlanMode::Promiscuous => "-Promiscuous"@,
    }
}

/// The mode that a name stands for, whatever the case of its letters.
pub fn parse_mode(name: &str) -> (r: Option<VlanMode>)
    ensures
        r == mode_named(ascii_lower(name@)),
{
    if lower_is(name, "access") {
        Some(VlanMode::Access)
    } else if lower_is(name, "untagged") {
        Some(VlanMode::Untagged)
    } else if lower_is(name, "trunk") {
        Some(VlanMode::Trunk)
    } else if lower_is(name, "isolated") {
        Some(VlanMode::Isolated)
    } else if lower_is(name, "community") {
        Some(VlanMode::Community)
    } else if lower_is(name, "promiscuous") {
        Some(VlanMode::Promiscuous)
    } else {
        None
    }
}

/// The tool.
#[derive(Default)]
pub struct SetVmNetworkAdapterVlanTool;

impl FromJson for VmNetworkAdapterVlanInfo {
    open spec fn describes(&self, item: JsonValue) -> bool {
        &&& self.vm_name@ == item.text_or_empty("VMName"@)
        &&& self.vm_network_adapter_name@ == item.text_or_empty("VMNetworkAdapterName"@)
        &&& self.computer_name@ == item.text_or_empty("ComputerName"@)
        &&& self.operation_mode@ == item.text_or_empty("OperationMode"@)
        &&& self.access_vlan_id == item.i64_or_zero("AccessVlanId"@) as i32
        &&& self.native_vlan_id == item.i64_or_zero("NativeVlanId"@) as i32
        &&& self.allowed_vlan_id_list@ == item.text_or_empty("AllowedVlanIdList"@)
        &&& self.primary_vlan_id == item.i64_or_zero("PrimaryVlanId"@) as i32
        &&& self.secondary_vlan_id == item.i64_or_zero("SecondaryVlanId"@) as i32
        &&& self.secondary_vlan_id_list@ == item.text_or_empty("SecondaryVlanIdList"@)
    }

    fn from_json(item: &JsonValue) -> (r: Self) {
        VmNetworkAdapterVlanInfo {
            vm_name: item.text_or_empty_at("VMName"),
            vm_network_adapter_name: item.text_or_empty_at("VMNetworkAdapterName"),
            computer_name: item.text_or_empty_at("ComputerName"),
            operation_mode: item.text_or_empty_at("OperationMode"),
            access_vlan_id: item.i64_or_zero_at("AccessVlanId") as i32,
            native_vlan_id: item.i64_or_zero_at("NativeVlanId") as i32,
            allowed_vlan_id_list: item.text_or_empty_at("AllowedVlanIdList"),
            primary_vlan_id: item.i64_or_zero_at("PrimaryVlanId") as i32,
            secondary_vlan_id: item.i64_or_zero_at("SecondaryVlanId") as i32,
            secondary_vlan_id_list: item.text_or_empty_at("SecondaryVlanIdList"),
        }
    }
}

impl SetVmNetworkAdapterVlanTool {
    /// The mode the request names, once trimmed and read without regard to case.
    pub open spec fn requested_mode(input: SetVmNetworkAdapterVlanInput) -> Option<VlanMode> {
        mode_named(ascii_lower(trim(input.operation_mode@)))
    }

    /// What the named mode needs that the request lacks, as the message that
    /// reports it.
    pub open spec fn mode_problem(
        input: SetVmNetworkAdapterVlanInput,
        mode: VlanMode,
    ) -> Option<Seq<char>> {
        match mode {
            VlanMode::Access => if input.vlan_id is None {
                Some("vlan_id is required for Access mode"@)
            } else {
                None
            },
            VlanMode::Untagged => None,
            VlanMode::Trunk => if input.native_vlan_id is None {
                Some("native_vlan_id is required for Trunk mode"@)
            } else if !is_provided(input.allowed_vlan_id_list) {
                Some("allowed_vlan_id_list is required for Trunk mode"@)
            } else {
                None
            },
            VlanMode::Isolated | VlanMode::Community => if input.primary_vlan_id is None {
                Some("primary_vlan_id is required for Isolated/Community mode"@)
            } else if input.secondary_vlan_id is None {
                Some("secondary_vlan_id is required for Isolated/Community mode"@)
            } else {
                None
            },
            VlanMode::Promiscuous => if input.primary_vlan_id is None {
                Some("primary_vlan_id is required for Promiscuous mode"@)
            } else if !is_provided(input.secondary_vlan_id_list) {
                Some("secondary_vlan_id_list is required for Promiscuous mode"@)
            } else {
                None
            },
        }
    }

    /// The first problem with the request, as the message that reports it.
    pub open spec fn input_problem(input: SetVmNetworkAdapterVlanInput) -> Option<Seq<char>> {
        if !(input.management_os == Some(true)) && !is_provided(input.vm_name) {
            Some("VM name must be provided when management_os is not enabled"@)
        } else if is_blank(input.operation_mode@) {
            Some("operation_mode must not be empty"@)
        } else {
            match Self::requested_mode(input) {
                None => Some(
                    "operation_mode must be one of: Access, Untagged, Trunk, Isolated, Community, Promiscuous"@,
                ),
                Some(mode) => Self::mode_problem(input, mode),
            }
        }
    }

    /// The arguments that set the mode and its VLAN ids.
    pub open spec fn mode_args(
        input: SetVmNetworkAdapterVlanInput,
        mode: VlanMode,
    ) -> Seq<Seq<char>> {
        match mode {
            VlanMode::Access => seq!["-Access"@, number_arg(
                "-VlanId"@,
                input.vlan_id.unwrap() as int,
            )],
            VlanMode::Untagged => seq!["-Untagged"@],
            VlanMode::Trunk => seq![
                "-Trunk"@,
                number_arg("-NativeVlanId"@, input.native_vlan_id.unwrap() as int),
                quoted_arg("-AllowedVlanIdList"@, input.allowed_vlan_id_list.unwrap()@),
            ],
            VlanMode::Isolated => seq![
                "-Isolated"@,
                number_arg("-PrimaryVlanId"@, input.primary_vlan_id.unwrap() as int),
                number_arg("-SecondaryVlanId"@, input.secondary_vlan_id.unwrap() as int),
            ],
            VlanMode::Community => seq![
                "-Community"@,
                number_arg("-PrimaryVlanId"@, input.primary_vlan_id.unwrap() as int),
                number_arg("-SecondaryVlanId"@, input.secondary_vlan_id.unwrap() as int),
            ],
            VlanMode::Promiscuous => seq![
                "-Promiscuous"@,
                number_arg("-PrimaryVlanId"@, input.primary_vlan_id.unwrap() as int),
                quoted_arg("-SecondaryVlanIdList"@, input.secondary_vlan_id_list.unwrap()@),
            ],
        }
    }

    /// The arguments of the cmdlet, for a request whose mode is known.
    pub open spec fn command_args(input: SetVmNetworkAdapterVlanInput) -> Seq<Seq<char>> {
        seq!["Set-VMNetworkAdapterVlan"@]
            + target_args(input.management_os == Some(true), input.vm_name)
            + opt_quoted("-VMNetworkAdapterName"@, input.vm_network_adapter_name)
            + opt_quoted("-ComputerName"@, input.computer_name)
            + Self::mode_args(input, Self::requested_mode(input).unwrap())
            + seq!["-Passthru"@]
    }

    /// The script that runs for a valid request.
    pub open spec fn script(input: SetVmNetworkAdapterVlanInput) -> Seq<char> {
        join(Self::command_args(input), seq![' ']) + SELECT@
    }

    /// Appends the arguments of the mode, or reports what the mode needs.
    fn push_mode_args(
        args: &mut ArgList,
        input: &SetVmNetworkAdapterVlanInput,
        mode: VlanMode,
    ) -> (r: Result<(), ToolError>)
        ensures
            match Self::mode_problem(*input, mode) {
                Some(msg) => r matches Err(ToolError::InvalidInput(m)) && m@ == msg,
                None => r is Ok && final(args)@ == old(args)@ + Self::mode_args(*input, mode),
            },
    {
        let ghost before = args@;
        match mode {
            VlanMode::Access => {
                match input.vlan_id {
                    Some(id) => {
                        args.push_literal("-Access");
                        args.push_signed("-VlanId", id as i64);
                    },
                    None => return Err(invalid_input("vlan_id is required for Access mode")),
                }
            },
            VlanMode::Untagged => {
                args.push_literal("-Untagged");
            },
            VlanMode::Trunk => {
                let native = match input.native_vlan_id {
                    Some(id) => id,
                    None => return Err(invalid_input("native_vlan_id is required for Trunk mode")),
                };
                if !option_is_provided(&input.allowed_vlan_id_list) {
                    return Err(invalid_input("allowed_vlan_id_list is required for Trunk mode"));
                }
                args.push_literal("-Trunk");
                args.push_signed("-NativeVlanId", native as i64);
                match &input.allowed_vlan_id_list {
                    Some(list) => args.push_quoted("-AllowedVlanIdList", list.as_str()),
                    None => {},
                }
            },
            VlanMode::Isolated | VlanMode::Community => {
                let primary = match input.primary_vlan_id {
                    Some(id) => id,
                    None => return Err(
                        invalid_input("primary_vlan_id is required for Isolated/Community mode"),
                    ),
                };
                let secondary = match input.secondary_vlan_id {
                    Some(id) => id,
                    None => return Err(
                        invalid_input("secondary_vlan_id is required for Isolated/Community mode"),
                    ),
                };
                match mode {
                    VlanMode::Isolated => args.push_literal("-Isolated"),
                    _ => args.push_literal("-Community"),
                }
                args.push_signed("-PrimaryVlanId", primary as i64);
                args.push_signed("-SecondaryVlanId", secondary as i64);
            },
            VlanMode::Promiscuous => {
                let primary = match input.primary_vlan_id {
                    Some(id) => id,
                    None => return Err(
                        invalid_input("primary_vlan_id is required for Promiscuous mode"),
                    ),
                };
                if !option_is_provided(&input.secondary_vlan_id_list) {
                    return Err(
                        invalid_input("secondary_vlan_id_list is required for Promiscuous mode"),
                    );
                }
                args.push_literal("-Promiscuous");
                args.push_signed("-PrimaryVlanId", primary as i64);
                match &input.secondary_vlan_id_list {
                    Some(list) => args.push_quoted("-SecondaryVlanIdList", list.as_str()),
                    None => {},
                }
            },
        }
        assert(args@ =~= before + Self::mode_args(*input, mode));
        Ok(())
    }

    /// Checks the request and builds its script.
    pub fn build_script(input: &SetVmNetworkAdapterVlanInput) -> (r: Result<String, ToolError>)
        ensures
            script_outcome(r, Self::input_problem(*input), Self::script(*input)),
    {
        let management_os = matches!(input.management_os, Some(true));
        if !management_os && !option_is_provided(&input.vm_name) {
            return Err(invalid_input("VM name must be provided when management_os is not enabled"));
        }
        if text_is_blank(input.operation_mode.as_str()) {
            return Err(invalid_input("operation_mode must not be empty"));
        }
        let mode_name = trimmed(input.operation_mode.as_str());
        let mode = match parse_mode(mode_name.as_str()) {
            Some(m) => m,
            None => return Err(
                invalid_input(
                    "operation_mode must be one of: Access, Untagged, Trunk, Isolated, Community, Promiscuous",
                ),
            ),
        };
        let mut args = ArgList::new("Set-VMNetworkAdapterVlan");
        args.push_target(management_os, &input.vm_name);
        args.push_opt_quoted("-VMNetworkAdapterName", &input.vm_network_adapter_name);
        args.push_opt_quoted("-ComputerName", &input.computer_name);
        match Self::push_mode_args(&mut args, input, mode) {
            Ok(()) => {},
            Err(e) => return Err(e),
        }
        args.push_literal("-Passthru");
        assert(args@ === Self::command_args(*input));
        Ok(args.to_command_with(SELECT))
    }

    /// A valid request names its target and a known mode, and the arguments
    /// of that mode open with the mode's switch.
    pub proof fn lemma_valid_request_sets_its_mode(input: SetVmNetworkAdapterVlanInput)
        requires
            Self::input_problem(input) is None,
        ensures
            target_args(input.management_os == Some(true), input.vm_name).len() == 1,
            Self::requested_mode(input) is Some,
            Self::mode_args(input, Self::requested_mode(input).unwrap())[0] == mode_switch(
                Self::requested_mode(input).unwrap(),
            ),
    {
    }

    /// Every value of a valid request reaches the script that `build_script`
    /// returns under its own flag: each flag below stands in the script
    /// followed by the value of the field of the same name.
    pub proof fn lemma_script_carries_each_value(input: SetVmNetworkAdapterVlanInput)
        requires
            Self::input_problem(input) is None,
        ensures
            input.management_os == Some(true) ==> holds(Self::script(input), "-ManagementOS"@),
            input.vm_name matches Some(v) ==> input.management_os != Some(true) ==> holds(
                Self::script(input),
                quoted_arg("-VMName"@, v@),
            ),
            input.vm_network_adapter_name matches Some(v) ==> holds(
                Self::script(input),
                quoted_arg("-VMNetworkAdapterName"@, v@),
            ),
            input.computer_name matches Some(v) ==> holds(
                Self::script(input),
                quoted_arg("-ComputerName"@, v@),
            ),
            Self::requested_mode(input) matches Some(m) ==> holds(
                Self::script(input),
                mode_switch(m),
            ),
            input.vlan_id matches Some(v) ==> Self::requested_mode(input) == Some(VlanMode::Access) ==> holds(
                Self::script(input),
                number_arg("-VlanId"@, v as int),
            ),
            input.native_vlan_id matches Some(v) ==> Self::requested_mode(input) == Some(VlanMode::Trunk) ==> holds(
                Self::script(input),
                number_arg("-NativeVlanId"@, v as int),
            ),
            input.allowed_vlan_id_list matches Some(v) ==> Self::requested_mode(input) == Some(VlanMode::Trunk) ==> holds(
                Self::script(input),
                quoted_arg("-AllowedVlanIdList"@, v@),
            ),
            input.primary_vlan_id matches Some(v) ==> (Self::requested_mode(input) == Some(VlanMode::Isolated) || Self::requested_mode(input) == Some(VlanMode::Community) || Self::requested_mode(input) == Some(
                VlanMode::Promiscuous,
            )) ==> holds(Self::script(input), number_arg("-PrimaryVlanId"@, v as int)),
            input.secondary_vlan_id matches Some(v) ==> (Self::requested_mode(input) == Some(VlanMode::Isolated) || Self::requested_mode(input) == Some(VlanMode::Community)) ==> holds(
                Self::script(input),
                number_arg("-SecondaryVlanId"@, v as int),
            ),
            input.secondary_vlan_id_list matches Some(v) ==> Self::requested_mode(input) == Some(
                VlanMode::Promiscuous,
            ) ==> holds(Self::script(input), quoted_arg("-SecondaryVlanIdList"@, v@)),
    {
        Self::script_carries_management_os(input);
        Self::script_carries_vm_name(input);
        Self::script_carries_vm_network_adapter_name(input);
        Self::script_carries_computer_name(input);
        Self::script_carries_mode_switch(input);
        Self::script_carries_vlan_id(input);
        Self::script_carries_native_vlan_id(input);
        Self::script_carries_allowed_vlan_id_list(input);
        Self::script_carries_primary_vlan_id(input);
        Self::script_carries_secondary_vlan_id(input);
        Self::script_carries_secondary_vlan_id_list(input);
    }

    proof fn script_carries_management_os(input: SetVmNetworkAdapterVlanInput)
        ensures
            input.management_os == Some(true) ==> holds(Self::script(input), "-ManagementOS"@),
    {
        broadcast use lemma_add_contains, lemma_push_contains;

        let args = Self::command_args(input);
        let tail = SELECT@;
        if input.management_os == Some(true) {
            lemma_script_holds_argument(args, tail, "-ManagementOS"@);
        }
    }

    proof fn script_carries_vm_name(input: SetVmNetworkAdapterVlanInput)
        ensures
            input.vm_name matches Some(v) ==> input.management_os != Some(true) ==> holds(
                Self::script(input),
                quoted_arg("-VMName"@, v@),
            ),
    {
        broadcast use lemma_add_contains, lemma_push_contains;

        let args = Self::command_args(input);
        let tail = SELECT@;
        if let Some(v) = input.vm_name {
            if input.management_os != Some(true) {
                lemma_script_holds_argument(args, tail, quoted_arg("-VMName"@, v@));
            }
        }
    }

    proof fn script_carries_vm_network_adapter_name(input: SetVmNetworkAdapterVlanInput)
        ensures
            input.vm_network_adapter_name matches Some(v) ==> holds(
                Self::script(input),
                quoted_arg("-VMNetworkAdapterName"@, v@),
            ),
    {
        broadcast use lemma_add_contains, lemma_push_contains;

        let args = Self::command_args(input);
        let tail = SELECT@;
        if let Some(v) = input.vm_network_adapter_name {
            lemma_script_holds_argument(args, tail, quoted_arg("-VMNetworkAdapterName"@, v@));
        }
    }

    proof fn script_carries_computer_name(input: SetVmNetworkAdapterVlanInput)
        ensures
            input.computer_name matches Some(v) ==> holds(
                Self::script(input),
                quoted_arg("-ComputerName"@, v@),
            ),
    {
        broadcast use lemma_add_contains, lemma_push_contains;

        let args = Self::command_args(input);
        let tail = SELECT@;
        if let Some(v) = input.computer_name {
            lemma_script_holds_argument(args, tail, quoted_arg("-ComputerName"@, v@));
        }
    }

    proof fn script_carries_mode_switch(input: SetVmNetworkAdapterVlanInput)
        ensures
            Self::requested_mode(input) matches Some(m) ==> holds(
                Self::script(input),
                mode_switch(m),
            ),
    {
        broadcast use lemma_add_contains, lemma_push_contains;

        let args = Self::command_args(input);
        let tail = SELECT@;
        if let Some(m) = Self::requested_mode(input) {
            lemma_script_holds_argument(args, tail, mode_switch(m));
        }
    }

    proof fn script_carries_vlan_id(input: SetVmNetworkAdapterVlanInput)
        ensures
            input.vlan_id matches Some(v) ==> Self::requested_mode(input) == Some(VlanMode::Access) ==> holds(
                Self::script(input),
                number_arg("-VlanId"@, v as int),
            ),
    {
        broadcast use lemma_add_contains, lemma_push_contains;

        let args = Self::command_args(input);
        let tail = SELECT@;
        if let Some(v) = input.vlan_id {
            if Self::requested_mode(input) == Some(VlanMode::Access) {
                lemma_script_holds_argument(args, tail, number_arg("-VlanId"@, v as int));
            }
        }
    }

    proof fn script_carries_native_vlan_id(input: SetVmNetworkAdapterVlanInput)
        ensures
            input.native_vlan_id matches Some(v) ==> Self::requested_mode(input) == Some(VlanMode::Trunk) ==> holds(
                Self::script(input),
                number_arg("-NativeVlanId"@, v as int),
            ),
    {
        broadcast use lemma_add_contains, lemma_push_contains;

        let args = Self::command_args(input);
        let tail = SELECT@;
        if let Some(v) = input.native_vlan_id {
            if Self::requested_mode(input) == Some(VlanMode::Trunk) {
                lemma_script_holds_argument(args, tail, number_arg("-NativeVlanId"@, v as int));
            }
        }
    }

    proof fn script_carries_allowed_vlan_id_list(input: SetVmNetworkAdapterVlanInput)
        ensures
            input.allowed_vlan_id_list matches Some(v) ==> Self::requested_mode(input) == Some(VlanMode::Trunk) ==> holds(
                Self::script(input),
                quoted_arg("-AllowedVlanIdList"@, v@),
            ),
    {
        broadcast use lemma_add_contains, lemma_push_contains;

        let args = Self::command_args(input);
        let tail = SELECT@;
        if let Some(v) = input.allowed_vlan_id_list {
            if Self::requested_mode(input) == Some(VlanMode::Trunk) {
                lemma_script_holds_argument(args, tail, quoted_arg("-AllowedVlanIdList"@, v@));
            }
        }
    }

    proof fn script_carries_primary_vlan_id(input: SetVmNetworkAdapterVlanInput)
        ensures
            input.primary_vlan_id matches Some(v) ==> (Self::requested_mode(input) == Some(VlanMode::Isolated) || Self::requested_mode(input) == Some(VlanMode::Community) || Self::requested_mode(input) == Some(
                VlanMode::Promiscuous,
            )) ==> holds(Self::script(input), number_arg("-PrimaryVlanId"@, v as int)),
    {
        broadcast use lemma_add_contains, lemma_push_contains;

        let args = Self::command_args(input);
        let tail = SELECT@;
        if let Some(v) = input.primary_vlan_id {
            if (Self::requested_mode(input) == Some(VlanMode::Isolated) || Self::requested_mode(input) == Some(VlanMode::Community) || Self::requested_mode(input) == Some(
                VlanMode::Promiscuous,
            )) {
                lemma_script_holds_argument(args, tail, number_arg("-PrimaryVlanId"@, v as int));
            }
        }
    }

    proof fn script_carries_secondary_vlan_id(input: SetVmNetworkAdapterVlanInput)
        ensures
            input.secondary_vlan_id matches Some(v) ==> (Self::requested_mode(input) == Some(VlanMode::Isolated) || Self::requested_mode(input) == Some(VlanMode::Community)) ==> holds(
                Self::script(input),
                number_arg("-SecondaryVlanId"@, v as int),
            ),
    {
        broadcast use lemma_add_contains, lemma_push_contains;

        let args = Self::command_args(input);
        let tail = SELECT@;
        if let Some(v) = input.secondary_vlan_id {
            if (Self::requested_mode(input) == Some(VlanMode::Isolated) || Self::requested_mode(input) == Some(VlanMode::Community)) {
                lemma_script_holds_argument(args, tail, number_arg("-SecondaryVlanId"@, v as int));
            }
        }
    }

    proof fn script_carries_secondary_vlan_id_list(input: SetVmNetworkAdapterVlanInput)
        ensures
            input.secondary_vlan_id_list matches Some(v) ==> Self::requested_mode(input) == Some(
                VlanMode::Promiscuous,
            ) ==> holds(Self::script(input), quoted_arg("-SecondaryVlanIdList"@, v@)),
    {
        broadcast use lemma_add_contains, lemma_push_contains;

        let args = Self::command_args(input);
        let tail = SELECT@;
        if let Some(v) = input.secondary_vlan_id_list {
            if Self::requested_mode(input) == Some(VlanMode::Promiscuous) {
                lemma_script_holds_argument(args, tail, quoted_arg("-SecondaryVlanIdList"@, v@));
            }
        }
    }

    /// Each entry of the answer reads the printed record at its place: every
    /// field holds the record's member of the matching name.
    pub proof fn lemma_answer_reads_each_record(raw: JsonValue, out: SetVmNetworkAdapterVlanOutput)
        requires
            describes_all(out.adapters@, raw.records()),
        ensures
            out.adapters@.len() == raw.records().len(),
            forall|i: int|
                #![trigger out.adapters@[i]]
                0 <= i < raw.records().len() ==> {
                    &&& out.adapters@[i].vm_name@ == raw.records()[i].text_or_empty("VMName"@)
                    &&& out.adapters@[i].vm_network_adapter_name@
                        == raw.records()[i].text_or_empty("VMNetworkAdapterName"@)
                    &&& out.adapters@[i].computer_name@
                        == raw.records()[i].text_or_empty("ComputerName"@)
                    &&& out.adapters@[i].operation_mode@
                        == raw.records()[i].text_or_empty("OperationMode"@)
                    &&& out.adapters@[i].access_vlan_id
                        == raw.records()[i].i64_or_zero("AccessVlanId"@) as i32
                    &&& out.adapters@[i].native_vlan_id
                        == raw.records()[i].i64_or_zero("NativeVlanId"@) as i32
                    &&& out.adapters@[i].allowed_vlan_id_list@
                        == raw.records()[i].text_or_empty("AllowedVlanIdList"@)
                    &&& out.adapters@[i].primary_vlan_id
                        == raw.records()[i].i64_or_zero("PrimaryVlanId"@) as i32
                    &&& out.adapters@[i].secondary_vlan_id
                        == raw.records()[i].i64_or_zero("SecondaryVlanId"@) as i32
                    &&& out.adapters@[i].secondary_vlan_id_list@
                        == raw.records()[i].text_or_empty("SecondaryVlanIdList"@)
                },
    {
        assert forall|i: int| 0 <= i < raw.records().len() implies {
            &&& out.adapters@[i].vm_name@ == raw.records()[i].text_or_empty("VMName"@)
            &&& out.adapters@[i].vm_network_adapter_name@
                == raw.records()[i].text_or_empty("VMNetworkAdapterName"@)
            &&& out.adapters@[i].computer_name@ == raw.records()[i].text_or_empty("ComputerName"@)
            &&& out.adapters@[i].operation_mode@ == raw.records()[i].text_or_empty("OperationMode"@)
            &&& out.adapters@[i].access_vlan_id
                == raw.records()[i].i64_or_zero("AccessVlanId"@) as i32
            &&& out.adapters@[i].native_vlan_id
                == raw.records()[i].i64_or_zero("NativeVlanId"@) as i32
            &&& out.adapters@[i].allowed_vlan_id_list@
                == raw.records()[i].text_or_empty("AllowedVlanIdList"@)
            &&& out.adapters@[i].primary_vlan_id
                == raw.records()[i].i64_or_zero("PrimaryVlanId"@) as i32
            &&& out.adapters@[i].secondary_vlan_id
                == raw.records()[i].i64_or_zero("SecondaryVlanId"@) as i32
            &&& out.adapters@[i].secondary_vlan_id_list@
                == raw.records()[i].text_or_empty("SecondaryVlanIdList"@)
        } by {
            assert(out.adapters@[i].describes(raw.records()[i]));
        }
    }

    /// Reads the answer from what the script printed: one entry per record.
    pub fn parse_output(raw: JsonValue) -> (r: SetVmNetworkAdapterVlanOutput)
        ensures
            describes_all(r.adapters@, raw.records()),
    {
        SetVmNetworkAdapterVlanOutput { adapters: decode_records(raw) }
    }

    /// Reads the answer from the text the script printed; blank text reads as
    /// an empty list, and text that is not JSON is a `Json` error.
    pub fn read_output(printed: &str) -> (r: Result<SetVmNetworkAdapterVlanOutput, ToolError>)
        ensures
            match parsed_json(effective_output(printed@)) {
                Some(raw) => r matches Ok(out) && describes_all(out.adapters@, raw.records()),
                None => r matches Err(ToolError::Json(_)),
            },
    {
        match read_printed(printed) {
            Ok(raw) => Ok(Self::parse_output(raw)),
            Err(e) => Err(e),
        }
    }
}

} // verus!
