//! `hyperv_set_vm_host`: configures a Hyper-V host.
use vstd::prelude::*;
use crate::command::{
    bool_arg, holds, join, lemma_add_contains, lemma_push_contains, lemma_script_holds_argument,
    number_arg, opt_bool, opt_quoted, opt_u32, quoted_arg, ArgList,
};
use crate::error::{invalid_input, script_outcome, ToolError};
use crate::json::{
    decode_records, describes_all, effective_output, parsed_json, read_printed, FromJson, JsonValue,
};
use crate::text::{is_blank, option_is_blank};

verus! {

/// The tool's name.
pub const NAME: &'static str = "hyperv_set_vm_host";

/// What the tool does.
pub const DESCRIPTION: &'static str = "Configures a Hyper-V host.";

/// What the script runs after the cmdlet: the fields it prints, as JSON.
pub const SELECT: &'static str = " | Select-Object ComputerName, FullyQualifiedDomainName, Name, LogicalProcessorCount, @{N='MemoryCapacity';E={$_.MemoryCapacity.ToString()}}, VirtualMachinePath, VirtualHardDiskPath, EnableEnhancedSessionMode, NumaSpanningEnabled, UseAnyNetworkForMigration, @{N='VirtualMachineMigrationAuthenticationType';E={$_.VirtualMachineMigrationAuthenticationType.ToString()}}, @{N='VirtualMachineMigrationPerformanceOption';E={$_.VirtualMachineMigrationPerformanceOption.ToString()}}, MaximumVirtualMachineMigrations, MaximumStorageMigrations, @{N='ResourceMeteringSaveInterval';E={$_.ResourceMeteringSaveInterval.ToString()}}, MacAddressMinimum, MacAddressMaximum, FibreChannelWwnn, FibreChannelWwpnMinimum, FibreChannelWwpnMaximum | ConvertTo-Json -Compress -Depth 3";

/// What the tool is asked.
#[derive(Debug)]
pub struct SetVmHostInput {
    /// Hyper-V host to configure. Defaults to localhost.
    pub computer_name: Option<String>,
    /// Maximum number of storage migrations that can be performed at the same time.
    pub maximum_storage_migrations: Option<u32>,
    /// Maximum number of live migrations that can be performed at the same time.
    pub maximum_virtual_machine_migrations: Option<u32>,
    /// Authentication type for live migrations: CredSSP or Kerberos.
    pub virtual_machine_migration_authentication_type: Option<String>,
    /// Whether any available network may be used for incoming live migration traffic.
    pub use_any_network_for_migration: Option<bool>,
    /// Performance option for live migrations: TCPIP, Compression, or SMB.
    pub virtual_machine_migration_performance_option: Option<String>,
    /// How often resource usage data is saved, as a TimeSpan string (e.g. "01:30:00").
    pub resource_metering_save_interval: Option<String>,
    /// Default folder to store virtual hard disks on the Hyper-V host.
    pub virtual_hard_disk_path: Option<String>,
    /// Default folder to store virtual machine configuration files on the Hyper-V host.
    pub virtual_machine_path: Option<String>,
    /// Maximum dynamic MAC address, as a hexadecimal string.
    pub mac_address_maximum: Option<String>,
    /// Minimum dynamic MAC address, as a hexadecimal string.
    pub mac_address_minimum: Option<String>,
    /// Default World Wide Node Name for virtual Fibre Channel adapters.
    pub fibre_channel_wwnn: Option<String>,
    /// Maximum World Wide Port Name for virtual Fibre Channel adapters.
    pub fibre_channel_wwpn_maximum: Option<String>,
    /// Minimum World Wide Port Name for virtual Fibre Channel adapters.
    pub fibre_channel_wwpn_minimum: Option<String>,
    /// Whether virtual machines can use resources from more than one NUMA node.
    pub numa_spanning_enabled: Option<bool>,
    /// Whether enhanced session mode is enabled for VM connections.
    pub enable_enhanced_session_mode: Option<bool>,
}

/// One record of the answer.
#[derive(Debug)]
pub struct VmHostInfo {
    pub computer_name: String,
    pub fully_qualified_domain_name: String,
    pub name: String,
    pub logical_processor_count: u32,
    /// Total host memory capacity, as a string.
    pub memory_capacity: String,
    pub virtual_machine_path: String,
    pub virtual_hard_disk_path: String,
    pub enable_enhanced_session_mode: bool,
    pub numa_spanning_enabled: bool,
    pub use_any_network_for_migration: bool,
    pub virtual_machine_migration_authentication_type: String,
    pub virtual_machine_migration_performance_option: String,
    pub maximum_virtual_machine_migrations: u32,
    pub maximum_storage_migrations: u32,
    /// Resource metering save interval, as a string.
    pub resource_metering_save_interval: String,
    pub mac_address_minimum: String,
    pub mac_address_maximum: String,
    pub fibre_channel_wwnn: String,
    pub fibre_channel_wwpn_minimum: String,
    pub fibre_channel_wwpn_maximum: String,
}

/// What the tool answers.
#[derive(Debug)]
pub struct SetVmHostOutput {
    pub hosts: Vec<VmHostInfo>,
}

/// The tool.
#[derive(Default)]
pub struct SetVmHostTool;

impl FromJson for VmHostInfo {
    open spec fn describes(&self, item: JsonValue) -> bool {
        &&& self.computer_name@ == item.text_or_empty("ComputerName"@)
        &&& self.fully_qualified_domain_name@ == item.text_or_empty("FullyQualifiedDomainName"@)
        &&& self.name@ == item.text_or_empty("Name"@)
        &&& self.logical_processor_count == item.u64_or_zero("LogicalProcessorCount"@) as u32
        &&& self.memory_capacity@ == item.text_or_empty("MemoryCapacity"@)
        &&& self.virtual_machine_path@ == item.text_or_empty("VirtualMachinePath"@)
        &&& self.virtual_hard_disk_path@ == item.text_or_empty("VirtualHardDiskPath"@)
        &&& self.enable_enhanced_session_mode == item.flag_or_false("EnableEnhancedSessionMode"@)
        &&& self.numa_spanning_enabled == item.flag_or_false("NumaSpanningEnabled"@)
        &&& self.use_any_network_for_migration == item.flag_or_false("UseAnyNetworkForMigration"@)
        &&& self.virtual_machine_migration_authentication_type@
            == item.text_or_empty("VirtualMachineMigrationAuthenticationType"@)
        &&& self.virtual_machine_migration_performance_option@
            == item.text_or_empty("VirtualMachineMigrationPerformanceOption"@)
        &&& self.maximum_virtual_machine_migrations
            == item.u64_or_zero("MaximumVirtualMachineMigrations"@) as u32
        &&& self.maximum_storage_migrations == item.u64_or_zero("MaximumStorageMigrations"@) as u32
        &&& self.resource_metering_save_interval@
            == item.text_or_empty("ResourceMeteringSaveInterval"@)
        &&& self.mac_address_minimum@ == item.text_or_empty("MacAddressMinimum"@)
        &&& self.mac_address_maximum@ == item.text_or_empty("MacAddressMaximum"@)
        &&& self.fibre_channel_wwnn@ == item.text_or_empty("FibreChannelWwnn"@)
        &&& self.fibre_channel_wwpn_minimum@ == item.text_or_empty("FibreChannelWwpnMinimum"@)
        &&& self.fibre_channel_wwpn_maximum@ == item.text_or_empty("FibreChannelWwpnMaximum"@)
    }

    fn from_json(item: &JsonValue) -> (r: Self) {
        VmHostInfo {
            computer_name: item.text_or_empty_at("ComputerName"),
            fully_qualified_domain_name: item.text_or_empty_at("FullyQualifiedDomainName"),
            name: item.text_or_empty_at("Name"),
            logical_processor_count: item.u64_or_zero_at("LogicalProcessorCount") as u32,
            memory_capacity: item.text_or_empty_at("MemoryCapacity"),
            virtual_machine_path: item.text_or_empty_at("VirtualMachinePath"),
            virtual_hard_disk_path: item.text_or_empty_at("VirtualHardDiskPath"),
            enable_enhanced_session_mode: item.flag_or_false_at("EnableEnhancedSessionMode"),
            numa_spanning_enabled: item.flag_or_false_at("NumaSpanningEnabled"),
            use_any_network_for_migration: item.flag_or_false_at("UseAnyNetworkForMigration"),
            virtual_machine_migration_authentication_type: item.text_or_empty_at(
                "VirtualMachineMigrationAuthenticationType",
            ),
            virtual_machine_migration_performance_option: item.text_or_empty_at(
                "VirtualMachineMigrationPerformanceOption",
            ),
            maximum_virtual_machine_migrations: item.u64_or_zero_at(
                "MaximumVirtualMachineMigrations",
            ) as u32,
            maximum_storage_migrations: item.u64_or_zero_at("MaximumStorageMigrations") as u32,
            resource_metering_save_interval: item.text_or_empty_at("ResourceMeteringSaveInterval"),
            mac_address_minimum: item.text_or_empty_at("MacAddressMinimum"),
            mac_address_maximum: item.text_or_empty_at("MacAddressMaximum"),
            fibre_channel_wwnn: item.text_or_empty_at("FibreChannelWwnn"),
            fibre_channel_wwpn_minimum: item.text_or_empty_at("FibreChannelWwpnMinimum"),
            fibre_channel_wwpn_maximum: item.text_or_empty_at("FibreChannelWwpnMaximum"),
        }
    }
}

impl SetVmHostTool {
    /// The first problem with the request, as the message that reports it.
    pub open spec fn input_problem(input: SetVmHostInput) -> Option<Seq<char>> {
        if input.computer_name matches Some(s) && is_blank(s@) {
            Some("ComputerName must not be empty when provided"@)
        } else {
            None
        }
    }

    /// The arguments of the cmdlet.
    pub open spec fn command_args(input: SetVmHostInput) -> Seq<Seq<char>> {
        seq!["Set-VMHost"@]
            + opt_quoted("-ComputerName"@, input.computer_name)
            + opt_u32("-MaximumStorageMigrations"@, input.maximum_storage_migrations)
            + opt_u32("-MaximumVirtualMachineMigrations"@, input.maximum_virtual_machine_migrations)
            + opt_quoted(
                "-VirtualMachineMigrationAuthenticationType"@,
                input.virtual_machine_migration_authentication_type,
            )
            + opt_bool("-UseAnyNetworkForMigration"@, input.use_any_network_for_migration)
            + opt_quoted(
                "-VirtualMachineMigrationPerformanceOption"@,
                input.virtual_machine_migration_performance_option,
            )
            + opt_quoted("-ResourceMeteringSaveInterval"@, input.resource_metering_save_interval)
            + opt_quoted("-VirtualHardDiskPath"@, input.virtual_hard_disk_path)
            + opt_quoted("-VirtualMachinePath"@, input.virtual_machine_path)
            + opt_quoted("-MacAddressMaximum"@, input.mac_address_maximum)
            + opt_quoted("-MacAddressMinimum"@, input.mac_address_minimum)
            + opt_quoted("-FibreChannelWwnn"@, input.fibre_channel_wwnn)
            + opt_quoted("-FibreChannelWwpnMaximum"@, input.fibre_channel_wwpn_maximum)
            + opt_quoted("-FibreChannelWwpnMinimum"@, input.fibre_channel_wwpn_minimum)
            + opt_bool("-NumaSpanningEnabled"@, input.numa_spanning_enabled)
            + opt_bool("-EnableEnhancedSessionMode"@, input.enable_enhanced_session_mode)
    }

    /// The script that runs for a valid request.
    pub open spec fn script(input: SetVmHostInput) -> Seq<char> {
        join(Self::command_args(input), seq![' ']) + SELECT@
    }

    /// Checks the request and builds its script.
    pub fn build_script(input: &SetVmHostInput) -> (r: Result<String, ToolError>)
        ensures
            script_outcome(r, Self::input_problem(*input), Self::script(*input)),
    {
        if option_is_blank(&input.computer_name) {
            return Err(invalid_input("ComputerName must not be empty when provided"));
        }
        let mut args = ArgList::new("Set-VMHost");
        args.push_opt_quoted("-ComputerName", &input.computer_name);
        args.push_opt_u32("-MaximumStorageMigrations", input.maximum_storage_migrations);
        args.push_opt_u32(
            "-MaximumVirtualMachineMigrations",
            input.maximum_virtual_machine_migrations,
        );
        args.push_opt_quoted(
            "-VirtualMachineMigrationAuthenticationType",
            &input.virtual_machine_migration_authentication_type,
        );
        args.push_opt_bool("-UseAnyNetworkForMigration", input.use_any_network_for_migration);
        args.push_opt_quoted(
            "-VirtualMachineMigrationPerformanceOption",
            &input.virtual_machine_migration_performance_option,
        );
        args.push_opt_quoted(
            "-ResourceMeteringSaveInterval",
            &input.resource_metering_save_interval,
        );
        args.push_opt_quoted("-VirtualHardDiskPath", &input.virtual_hard_disk_path);
        args.push_opt_quoted("-VirtualMachinePath", &input.virtual_machine_path);
        args.push_opt_quoted("-MacAddressMaximum", &input.mac_address_maximum);
        args.push_opt_quoted("-MacAddressMinimum", &input.mac_address_minimum);
        args.push_opt_quoted("-FibreChannelWwnn", &input.fibre_channel_wwnn);
        args.push_opt_quoted("-FibreChannelWwpnMaximum", &input.fibre_channel_wwpn_maximum);
        args.push_opt_quoted("-FibreChannelWwpnMinimum", &input.fibre_channel_wwpn_minimum);
        args.push_opt_bool("-NumaSpanningEnabled", input.numa_spanning_enabled);
        args.push_opt_bool("-EnableEnhancedSessionMode", input.enable_enhanced_session_mode);
        assert(args@ === Self::command_args(*input));
        Ok(args.to_command_with(SELECT))
    }

    /// Reads the answer from what the script printed: one entry per record.
    pub fn parse_output(raw: JsonValue) -> (r: SetVmHostOutput)
        ensures
            describes_all(r.hosts@, raw.records()),
    {
        SetVmHostOutput { hosts: decode_records(raw) }
    }

    /// Reads the answer from the text the script printed; blank text reads as
    /// an empty list, and text that is not JSON is a `Json` error.
    pub fn read_output(printed: &str) -> (r: Result<SetVmHostOutput, ToolError>)
        ensures
            match parsed_json(effective_output(printed@)) {
                Some(raw) => r matches Ok(out) && describes_all(out.hosts@, raw.records()),
                None => r matches Err(ToolError::Json(_)),
            },
    {
        match read_printed(printed) {
            Ok(raw) => Ok(Self::parse_output(raw)),
            Err(e) => Err(e),
        }
    }

    /// Every value of a valid request reaches the script that `build_script`
    /// returns under its own flag: each flag below stands in the script
    /// followed by the value of the field of the same name.
    pub proof fn lemma_script_carries_each_value(input: SetVmHostInput)
        requires
            Self::input_problem(input) is None,
        ensures
            input.computer_name matches Some(v) ==> holds(
                Self::script(input),
                quoted_arg("-ComputerName"@, v@),
            ),
            input.maximum_storage_migrations matches Some(v) ==> holds(
                Self::script(input),
                number_arg("-MaximumStorageMigrations"@, v as int),
            ),
            input.maximum_virtual_machine_migrations matches Some(v) ==> holds(
                Self::script(input),
                number_arg("-MaximumVirtualMachineMigrations"@, v as int),
            ),
            input.virtual_machine_migration_authentication_type matches Some(v) ==> holds(
                Self::script(input),
                quoted_arg("-VirtualMachineMigrationAuthenticationType"@, v@),
            ),
            input.use_any_network_for_migration matches Some(v) ==> holds(
                Self::script(input),
                bool_arg("-UseAnyNetworkForMigration"@, v),
            ),
            input.virtual_machine_migration_performance_option matches Some(v) ==> holds(
                Self::script(input),
                quoted_arg("-VirtualMachineMigrationPerformanceOption"@, v@),
            ),
            input.resource_metering_save_interval matches Some(v) ==> holds(
                Self::script(input),
                quoted_arg("-ResourceMeteringSaveInterval"@, v@),
            ),
            input.virtual_hard_disk_path matches Some(v) ==> holds(
                Self::script(input),
                quoted_arg("-VirtualHardDiskPath"@, v@),
            ),
            input.virtual_machine_path matches Some(v) ==> holds(
                Self::script(input),
                quoted_arg("-VirtualMachinePath"@, v@),
            ),
            input.mac_address_maximum matches Some(v) ==> holds(
                Self::script(input),
                quoted_arg("-MacAddressMaximum"@, v@),
            ),
            input.mac_address_minimum matches Some(v) ==> holds(
                Self::script(input),
                quoted_arg("-MacAddressMinimum"@, v@),
            ),
            input.fibre_channel_wwnn matches Some(v) ==> holds(
                Self::script(input),
                quoted_arg("-FibreChannelWwnn"@, v@),
            ),
            input.fibre_channel_wwpn_maximum matches Some(v) ==> holds(
                Self::script(input),
                quoted_arg("-FibreChannelWwpnMaximum"@, v@),
            ),
            input.fibre_channel_wwpn_minimum matches Some(v) ==> holds(
                Self::script(input),
                quoted_arg("-FibreChannelWwpnMinimum"@, v@),
            ),
            input.numa_spanning_enabled matches Some(v) ==> holds(
                Self::script(input),
                bool_arg("-NumaSpanningEnabled"@, v),
            ),
            input.enable_enhanced_session_mode matches Some(v) ==> holds(
                Self::script(input),
                bool_arg("-EnableEnhancedSessionMode"@, v),
            ),
    {
        Self::script_carries_computer_name(input);
        Self::script_carries_maximum_storage_migrations(input);
        Self::script_carries_maximum_virtual_machine_migrations(input);
        Self::script_carries_virtual_machine_migration_authentication_type(input);
        Self::script_carries_use_any_network_for_migration(input);
        Self::script_carries_virtual_machine_migration_performance_option(input);
        Self::script_carries_resource_metering_save_interval(input);
        Self::script_carries_virtual_hard_disk_path(input);
        Self::script_carries_virtual_machine_path(input);
        Self::script_carries_mac_address_maximum(input);
        Self::script_carries_mac_address_minimum(input);
        Self::script_carries_fibre_channel_wwnn(input);
        Self::script_carries_fibre_channel_wwpn_maximum(input);
        Self::script_carries_fibre_channel_wwpn_minimum(input);
        Self::script_carries_numa_spanning_enabled(input);
        Self::script_carries_enable_enhanced_session_mode(input);
    }

    proof fn script_carries_computer_name(input: SetVmHostInput)
        ensures
            input.computer_name matches Some(v) ==> holds(
                Self::script(input),
                quoted_arg("-ComputerName"@, v@),
            ),
    {
        broadcast use lemma_add_contains, lemma_push_contains;

        let args = Self::command_args(input);
        let tail = SELECT@;
        if let Some(v) = input.computer_name {
            lemma_script_holds_argument(args, tail, quoted_arg("-ComputerName"@, v@));
        }
    }

    proof fn script_carries_maximum_storage_migrations(input: SetVmHostInput)
        ensures
            input.maximum_storage_migrations matches Some(v) ==> holds(
                Self::script(input),
                number_arg("-MaximumStorageMigrations"@, v as int),
            ),
    {
        broadcast use lemma_add_contains, lemma_push_contains;

        let args = Self::command_args(input);
        let tail = SELECT@;
        if let Some(v) = input.maximum_storage_migrations {
            lemma_script_holds_argument(
                args,
                tail,
                number_arg("-MaximumStorageMigrations"@, v as int),
            );
        }
    }

    proof fn script_carries_maximum_virtual_machine_migrations(input: SetVmHostInput)
        ensures
            input.maximum_virtual_machine_migrations matches Some(v) ==> holds(
                Self::script(input),
                number_arg("-MaximumVirtualMachineMigrations"@, v as int),
            ),
    {
        broadcast use lemma_add_contains, lemma_push_contains;

        let args = Self::command_args(input);
        let tail = SELECT@;
        if let Some(v) = input.maximum_virtual_machine_migrations {
            lemma_script_holds_argument(
                args,
                tail,
                number_arg("-MaximumVirtualMachineMigrations"@, v as int),
            );
        }
    }

    proof fn script_carries_virtual_machine_migration_authentication_type(input: SetVmHostInput)
        ensures
            input.virtual_machine_migration_authentication_type matches Some(v) ==> holds(
                Self::script(input),
                quoted_arg("-VirtualMachineMigrationAuthenticationType"@, v@),
            ),
    {
        broadcast use lemma_add_contains, lemma_push_contains;

        let args = Self::command_args(input);
        let tail = SELECT@;
        if let Some(v) = input.virtual_machine_migration_authentication_type {
            lemma_script_holds_argument(
                args,
                tail,
                quoted_arg("-VirtualMachineMigrationAuthenticationType"@, v@),
            );
        }
    }

    proof fn script_carries_use_any_network_for_migration(input: SetVmHostInput)
        ensures
            input.use_any_network_for_migration matches Some(v) ==> holds(
                Self::script(input),
                bool_arg("-UseAnyNetworkForMigration"@, v),
            ),
    {
        broadcast use lemma_add_contains, lemma_push_contains;

        let args = Self::command_args(input);
        let tail = SELECT@;
        if let Some(v) = input.use_any_network_for_migration {
            lemma_script_holds_argument(args, tail, bool_arg("-UseAnyNetworkForMigration"@, v));
        }
    }

    proof fn script_carries_virtual_machine_migration_performance_option(input: SetVmHostInput)
        ensures
            input.virtual_machine_migration_performance_option matches Some(v) ==> holds(
                Self::script(input),
                quoted_arg("-VirtualMachineMigrationPerformanceOption"@, v@),
            ),
    {
        broadcast use lemma_add_contains, lemma_push_contains;

        let args = Self::command_args(input);
        let tail = SELECT@;
        if let Some(v) = input.virtual_machine_migration_performance_option {
            lemma_script_holds_argument(
                args,
                tail,
                quoted_arg("-VirtualMachineMigrationPerformanceOption"@, v@),
            );
        }
    }

    proof fn script_carries_resource_metering_save_interval(input: SetVmHostInput)
        ensures
            input.resource_metering_save_interval matches Some(v) ==> holds(
                Self::script(input),
                quoted_arg("-ResourceMeteringSaveInterval"@, v@),
            ),
    {
        broadcast use lemma_add_contains, lemma_push_contains;

        let args = Self::command_args(input);
        let tail = SELECT@;
        if let Some(v) = input.resource_metering_save_interval {
            lemma_script_holds_argument(
                args,
                tail,
                quoted_arg("-ResourceMeteringSaveInterval"@, v@),
            );
        }
    }

    proof fn script_carries_virtual_hard_disk_path(input: SetVmHostInput)
        ensures
            input.virtual_hard_disk_path matches Some(v) ==> holds(
                Self::script(input),
                quoted_arg("-VirtualHardDiskPath"@, v@),
            ),
    {
        broadcast use lemma_add_contains, lemma_push_contains;

        let args = Self::command_args(input);
        let tail = SELECT@;
        if let Some(v) = input.virtual_hard_disk_path {
            lemma_script_holds_argument(args, tail, quoted_arg("-VirtualHardDiskPath"@, v@));
        }
    }

    proof fn script_carries_virtual_machine_path(input: SetVmHostInput)
        ensures
            input.virtual_machine_path matches Some(v) ==> holds(
                Self::script(input),
                quoted_arg("-VirtualMachinePath"@, v@),
            ),
    {
        broadcast use lemma_add_contains, lemma_push_contains;

        let args = Self::command_args(input);
        let tail = SELECT@;
        if let Some(v) = input.virtual_machine_path {
            lemma_script_holds_argument(args, tail, quoted_arg("-VirtualMachinePath"@, v@));
        }
    }

    proof fn script_carries_mac_address_maximum(input: SetVmHostInput)
        ensures
            input.mac_address_maximum matches Some(v) ==> holds(
                Self::script(input),
                quoted_arg("-MacAddressMaximum"@, v@),
            ),
    {
        broadcast use lemma_add_contains, lemma_push_contains;

        let args = Self::command_args(input);
        let tail = SELECT@;
        if let Some(v) = input.mac_address_maximum {
            lemma_script_holds_argument(args, tail, quoted_arg("-MacAddressMaximum"@, v@));
        }
    }

    proof fn script_carries_mac_address_minimum(input: SetVmHostInput)
        ensures
            input.mac_address_minimum matches Some(v) ==> holds(
                Self::script(input),
                quoted_arg("-MacAddressMinimum"@, v@),
            ),
    {
        broadcast use lemma_add_contains, lemma_push_contains;

        let args = Self::command_args(input);
        let tail = SELECT@;
        if let Some(v) = input.mac_address_minimum {
            lemma_script_holds_argument(args, tail, quoted_arg("-MacAddressMinimum"@, v@));
        }
    }

    proof fn script_carries_fibre_channel_wwnn(input: SetVmHostInput)
        ensures
            input.fibre_channel_wwnn matches Some(v) ==> holds(
                Self::script(input),
                quoted_arg("-FibreChannelWwnn"@, v@),
            ),
    {
        broadcast use lemma_add_contains, lemma_push_contains;

        let args = Self::command_args(input);
        let tail = SELECT@;
        if let Some(v) = input.fibre_channel_wwnn {
            lemma_script_holds_argument(args, tail, quoted_arg("-FibreChannelWwnn"@, v@));
        }
    }

    proof fn script_carries_fibre_channel_wwpn_maximum(input: SetVmHostInput)
        ensures
            input.fibre_channel_wwpn_maximum matches Some(v) ==> holds(
                Self::script(input),
                quoted_arg("-FibreChannelWwpnMaximum"@, v@),
            ),
    {
        broadcast use lemma_add_contains, lemma_push_contains;

        let args = Self::command_args(input);
        let tail = SELECT@;
        if let Some(v) = input.fibre_channel_wwpn_maximum {
            lemma_script_holds_argument(args, tail, quoted_arg("-FibreChannelWwpnMaximum"@, v@));
        }
    }

    proof fn script_carries_fibre_channel_wwpn_minimum(input: SetVmHostInput)
        ensures
            input.fibre_channel_wwpn_minimum matches Some(v) ==> holds(
                Self::script(input),
                quoted_arg("-FibreChannelWwpnMinimum"@, v@),
            ),
    {
        broadcast use lemma_add_contains, lemma_push_contains;

        let args = Self::command_args(input);
        let tail = SELECT@;
        if let Some(v) = input.fibre_channel_wwpn_minimum {
            lemma_script_holds_argument(args, tail, quoted_arg("-FibreChannelWwpnMinimum"@, v@));
        }
    }

    proof fn script_carries_numa_spanning_enabled(input: SetVmHostInput)
        ensures
            input.numa_spanning_enabled matches Some(v) ==> holds(
                Self::script(input),
                bool_arg("-NumaSpanningEnabled"@, v),
            ),
    {
        broadcast use lemma_add_contains, lemma_push_contains;

        let args = Self::command_args(input);
        let tail = SELECT@;
        if let Some(v) = input.numa_spanning_enabled {
            lemma_script_holds_argument(args, tail, bool_arg("-NumaSpanningEnabled"@, v));
        }
    }

    proof fn script_carries_enable_enhanced_session_mode(input: SetVmHostInput)
        ensures
            input.enable_enhanced_session_mode matches Some(v) ==> holds(
                Self::script(input),
                bool_arg("-EnableEnhancedSessionMode"@, v),
            ),
    {
        broadcast use lemma_add_contains, lemma_push_contains;

        let args = Self::command_args(input);
        let tail = SELECT@;
        if let Some(v) = input.enable_enhanced_session_mode {
            lemma_script_holds_argument(args, tail, bool_arg("-EnableEnhancedSessionMode"@, v));
        }
    }

    /// Each entry of the answer reads the printed record at its place: every
    /// field holds the record's member of the matching name.
    pub proof fn lemma_answer_reads_each_record(raw: JsonValue, out: SetVmHostOutput)
        requires
            describes_all(out.hosts@, raw.records()),
        ensures
            out.hosts@.len() == raw.records().len(),
            forall|i: int|
                #![trigger out.hosts@[i]]
                0 <= i < raw.records().len() ==> {
                    &&& out.hosts@[i].computer_name@
                        == raw.records()[i].text_or_empty("ComputerName"@)
                    &&& out.hosts@[i].fully_qualified_domain_name@
                        == raw.records()[i].text_or_empty("FullyQualifiedDomainName"@)
                    &&& out.hosts@[i].name@ == raw.records()[i].text_or_empty("Name"@)
                    &&& out.hosts@[i].logical_processor_count
                        == raw.records()[i].u64_or_zero("LogicalProcessorCount"@) as u32
                    &&& out.hosts@[i].memory_capacity@
                        == raw.records()[i].text_or_empty("MemoryCapacity"@)
                    &&& out.hosts@[i].virtual_machine_path@
                        == raw.records()[i].text_or_empty("VirtualMachinePath"@)
                    &&& out.hosts@[i].virtual_hard_disk_path@
                        == raw.records()[i].text_or_empty("VirtualHardDiskPath"@)
                    &&& out.hosts@[i].enable_enhanced_session_mode
                        == raw.records()[i].flag_or_false("EnableEnhancedSessionMode"@)
                    &&& out.hosts@[i].numa_spanning_enabled
                        == raw.records()[i].flag_or_false("NumaSpanningEnabled"@)
                    &&& out.hosts@[i].use_any_network_for_migration
                        == raw.records()[i].flag_or_false("UseAnyNetworkForMigration"@)
                    &&& out.hosts@[i].virtual_machine_migration_authentication_type@
                        == raw.records()[i].text_or_empty("VirtualMachineMigrationAuthenticationType"@)
                    &&& out.hosts@[i].virtual_machine_migration_performance_option@
                        == raw.records()[i].text_or_empty("VirtualMachineMigrationPerformanceOption"@)
                    &&& out.hosts@[i].maximum_virtual_machine_migrations
                        == raw.records()[i].u64_or_zero("MaximumVirtualMachineMigrations"@) as u32
                    &&& out.hosts@[i].maximum_storage_migrations
                        == raw.records()[i].u64_or_zero("MaximumStorageMigrations"@) as u32
                    &&& out.hosts@[i].resource_metering_save_interval@
                        == raw.records()[i].text_or_empty("ResourceMeteringSaveInterval"@)
                    &&& out.hosts@[i].mac_address_minimum@
                        == raw.records()[i].text_or_empty("MacAddressMinimum"@)
                    &&& out.hosts@[i].mac_address_maximum@
                        == raw.records()[i].text_or_empty("MacAddressMaximum"@)
                    &&& out.hosts@[i].fibre_channel_wwnn@
                        == raw.records()[i].text_or_empty("FibreChannelWwnn"@)
                    &&& out.hosts@[i].fibre_channel_wwpn_minimum@
                        == raw.records()[i].text_or_empty("FibreChannelWwpnMinimum"@)
                    &&& out.hosts@[i].fibre_channel_wwpn_maximum@
                        == raw.records()[i].text_or_empty("FibreChannelWwpnMaximum"@)
                },
    {
        assert forall|i: int| 0 <= i < raw.records().len() implies {
            &&& out.hosts@[i].computer_name@ == raw.records()[i].text_or_empty("ComputerName"@)
            &&& out.hosts@[i].fully_qualified_domain_name@
                == raw.records()[i].text_or_empty("FullyQualifiedDomainName"@)
            &&& out.hosts@[i].name@ == raw.records()[i].text_or_empty("Name"@)
            &&& out.hosts@[i].logical_processor_count
                == raw.records()[i].u64_or_zero("LogicalProcessorCount"@) as u32
            &&& out.hosts@[i].memory_capacity@ == raw.records()[i].text_or_empty("MemoryCapacity"@)
            &&& out.hosts@[i].virtual_machine_path@
                == raw.records()[i].text_or_empty("VirtualMachinePath"@)
            &&& out.hosts@[i].virtual_hard_disk_path@
                == raw.records()[i].text_or_empty("VirtualHardDiskPath"@)
            &&& out.hosts@[i].enable_enhanced_session_mode
                == raw.records()[i].flag_or_false("EnableEnhancedSessionMode"@)
            &&& out.hosts@[i].numa_spanning_enabled
                == raw.records()[i].flag_or_false("NumaSpanningEnabled"@)
            &&& out.hosts@[i].use_any_network_for_migration
                == raw.records()[i].flag_or_false("UseAnyNetworkForMigration"@)
            &&& out.hosts@[i].virtual_machine_migration_authentication_type@
                == raw.records()[i].text_or_empty("VirtualMachineMigrationAuthenticationType"@)
            &&& out.hosts@[i].virtual_machine_migration_performance_option@
                == raw.records()[i].text_or_empty("VirtualMachineMigrationPerformanceOption"@)
            &&& out.hosts@[i].maximum_virtual_machine_migrations
                == raw.records()[i].u64_or_zero("MaximumVirtualMachineMigrations"@) as u32
            &&& out.hosts@[i].maximum_storage_migrations
                == raw.records()[i].u64_or_zero("MaximumStorageMigrations"@) as u32
            &&& out.hosts@[i].resource_metering_save_interval@
                == raw.records()[i].text_or_empty("ResourceMeteringSaveInterval"@)
            &&& out.hosts@[i].mac_address_minimum@
                == raw.records()[i].text_or_empty("MacAddressMinimum"@)
            &&& out.hosts@[i].mac_address_maximum@
                == raw.records()[i].text_or_empty("MacAddressMaximum"@)
            &&& out.hosts@[i].fibre_channel_wwnn@
                == raw.records()[i].text_or_empty("FibreChannelWwnn"@)
            &&& out.hosts@[i].fibre_channel_wwpn_minimum@
                == raw.records()[i].text_or_empty("FibreChannelWwpnMinimum"@)
            &&& out.hosts@[i].fibre_channel_wwpn_maximum@
                == raw.records()[i].text_or_empty("FibreChannelWwpnMaximum"@)
        } by {
            assert(out.hosts@[i].describes(raw.records()[i]));
        }
    }
}

} // verus!
