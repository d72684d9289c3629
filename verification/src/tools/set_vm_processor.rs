//! `hyperv_set_vm_processor`: configures settings for the virtual processors of a virtual machine. Settings are applied uniformly to all virtual processors belonging to the virtual machine.
use vstd::prelude::*;
use crate::command::{
    bool_arg, holds, join, lemma_add_contains, lemma_push_contains, lemma_script_holds_argument,
    number_arg, opt_bool, opt_i32, opt_i64, opt_quoted, quoted_arg, ArgList,
};
use crate::error::{invalid_input, script_outcome, ToolError};
use crate::json::{
    decode_records, describes_all, effective_output, parsed_json, read_printed, FromJson, JsonValue,
};
use crate::text::{is_blank, text_is_blank};

verus! {

/// The tool's name.
pub const NAME: &'static str = "hyperv_set_vm_processor";

/// What the tool does.
pub const DESCRIPTION: &'static str = "Configures settings for the virtual processors of a virtual machine. Settings are applied uniformly to all virtual processors belonging to the virtual machine.";

/// What the script runs after the cmdlet: the fields it prints, as JSON.
pub const SELECT: &'static str = " | Select-Object VMName, Count, CompatibilityForMigrationEnabled, CompatibilityForOlderOperatingSystemsEnabled, HwThreadCountPerCore, Maximum, Reserve, RelativeWeight, MaximumCountPerNumaNode, MaximumCountPerNumaSocket, ResourcePoolName, Perfmon, EnableHostResourceProtection, ExposeVirtualizationExtensions, ComputerName | ConvertTo-Json -Compress -Depth 3";

/// What the tool is asked.
#[derive(Debug)]
pub struct SetVmProcessorInput {
    /// Name of the virtual machine whose processors are to be configured.
    pub name: String,
    /// Hyper-V host on which the virtual machine resides. Defaults to localhost.
    pub computer_name: Option<String>,
    /// Number of virtual processors for the virtual machine.
    pub count: Option<i64>,
    /// Enables processor compatibility for live migration.
    pub compatibility_for_migration_enabled: Option<bool>,
    /// Enables processor compatibility for older operating systems.
    pub compatibility_for_older_operating_systems_enabled: Option<bool>,
    /// Number of virtual SMT threads exposed per core. 0 means inherit from the host.
    pub hw_thread_count_per_core: Option<i64>,
    /// Maximum percentage of host processor resources available to the VM (0-100).
    pub maximum: Option<i64>,
    /// Percentage of processor resources reserved for the VM (0-100).
    pub reserve: Option<i64>,
    /// Relative weight for CPU allocation (1-10000).
    pub relative_weight: Option<i32>,
    /// Maximum number of processors per NUMA node.
    pub maximum_count_per_numa_node: Option<i32>,
    /// Maximum number of sockets per NUMA node.
    pub maximum_count_per_numa_socket: Option<i32>,
    /// Name of the processor resource pool to be used.
    pub resource_pool_name: Option<String>,
    /// Performance monitoring hardware to expose (e.g. "pmu,pebs,lbr").
    pub perfmon: Option<String>,
    /// Enables host resource protection for the virtual machine.
    pub enable_host_resource_protection: Option<bool>,
    /// Exposes virtualization extensions to the VM to enable nested virtualization.
    pub expose_virtualization_extensions: Option<bool>,
}

/// One record of the answer.
#[derive(Debug)]
pub struct VmProcessorInfo {
    pub vm_name: String,
    pub count: i64,
    pub compatibility_for_migration_enabled: bool,
    pub compatibility_for_older_operating_systems_enabled: bool,
    pub hw_thread_count_per_core: i64,
    pub maximum: i64,
    pub reserve: i64,
    pub relative_weight: i32,
    pub maximum_count_per_numa_node: i32,
    pub maximum_count_per_numa_socket: i32,
    pub resource_pool_name: String,
    pub perfmon: String,
    pub enable_host_resource_protection: bool,
    pub expose_virtualization_extensions: bool,
    pub computer_name: String,
}

/// What the tool answers.
#[derive(Debug)]
pub struct SetVmProcessorOutput {
    pub processors: Vec<VmProcessorInfo>,
}

/// The tool.
#[derive(Default)]
pub struct SetVmProcessorTool;

impl FromJson for VmProcessorInfo {
    open spec fn describes(&self, item: JsonValue) -> bool {
        &&& self.vm_name@ == item.text_or_empty("VMName"@)
        &&& self.count == item.i64_or_zero("Count"@)
        &&& self.compatibility_for_migration_enabled
            == item.flag_or_false("CompatibilityForMigrationEnabled"@)
        &&& self.compatibility_for_older_operating_systems_enabled
            == item.flag_or_false("CompatibilityForOlderOperatingSystemsEnabled"@)
        &&& self.hw_thread_count_per_core == item.i64_or_zero("HwThreadCountPerCore"@)
        &&& self.maximum == item.i64_or_zero("Maximum"@)
        &&& self.reserve == item.i64_or_zero("Reserve"@)
        &&& self.relative_weight == item.i64_or_zero("RelativeWeight"@) as i32
        &&& self.maximum_count_per_numa_node == item.i64_or_zero("MaximumCountPerNumaNode"@) as i32
        &&& self.maximum_count_per_numa_socket
            == item.i64_or_zero("MaximumCountPerNumaSocket"@) as i32
        &&& self.resource_pool_name@ == item.text_or_empty("ResourcePoolName"@)
        &&& self.perfmon@ == item.text_or_empty("Perfmon"@)
        &&& self.enable_host_resource_protection
            == item.flag_or_false("EnableHostResourceProtection"@)
        &&& self.expose_virtualization_extensions
            == item.flag_or_false("ExposeVirtualizationExtensions"@)
        &&& self.computer_name@ == item.text_or_empty("ComputerName"@)
    }

    fn from_json(item: &JsonValue) -> (r: Self) {
        VmProcessorInfo {
            vm_name: item.text_or_empty_at("VMName"),
            count: item.i64_or_zero_at("Count"),
            compatibility_for_migration_enabled: item.flag_or_false_at(
                "CompatibilityForMigrationEnabled",
            ),
            compatibility_for_older_operating_systems_enabled: item.flag_or_false_at(
                "CompatibilityForOlderOperatingSystemsEnabled",
            ),
            hw_thread_count_per_core: item.i64_or_zero_at("HwThreadCountPerCore"),
            maximum: item.i64_or_zero_at("Maximum"),
            reserve: item.i64_or_zero_at("Reserve"),
            relative_weight: item.i64_or_zero_at("RelativeWeight") as i32,
            maximum_count_per_numa_node: item.i64_or_zero_at("MaximumCountPerNumaNode") as i32,
            maximum_count_per_numa_socket: item.i64_or_zero_at("MaximumCountPerNumaSocket") as i32,
            resource_pool_name: item.text_or_empty_at("ResourcePoolName"),
            perfmon: item.text_or_empty_at("Perfmon"),
            enable_host_resource_protection: item.flag_or_false_at("EnableHostResourceProtection"),
            expose_virtualization_extensions: item.flag_or_false_at(
                "ExposeVirtualizationExtensions",
            ),
            computer_name: item.text_or_empty_at("ComputerName"),
        }
    }
}

impl SetVmProcessorTool {
    /// The first problem with the request, as the message that reports it.
    pub open spec fn input_problem(input: SetVmProcessorInput) -> Option<Seq<char>> {
        if is_blank(input.name@) {
            Some("VM name must not be empty"@)
        } else {
            None
        }
    }

    /// The arguments of the cmdlet.
    pub open spec fn command_args(input: SetVmProcessorInput) -> Seq<Seq<char>> {
        seq!["Set-VMProcessor"@, quoted_arg("-VMName"@, input.name@)]
            + opt_quoted("-ComputerName"@, input.computer_name)
            + opt_i64("-Count"@, input.count)
            + opt_bool(
                "-CompatibilityForMigrationEnabled"@,
                input.compatibility_for_migration_enabled,
            )
            + opt_bool(
                "-CompatibilityForOlderOperatingSystemsEnabled"@,
                input.compatibility_for_older_operating_systems_enabled,
            )
            + opt_i64("-HwThreadCountPerCore"@, input.hw_thread_count_per_core)
            + opt_i64("-Maximum"@, input.maximum)
            + opt_i64("-Reserve"@, input.reserve)
            + opt_i32("-RelativeWeight"@, input.relative_weight)
            + opt_i32("-MaximumCountPerNumaNode"@, input.maximum_count_per_numa_node)
            + opt_i32("-MaximumCountPerNumaSocket"@, input.maximum_count_per_numa_socket)
            + opt_quoted("-ResourcePoolName"@, input.resource_pool_name)
            + opt_quoted("-Perfmon"@, input.perfmon)
            + opt_bool("-EnableHostResourceProtection"@, input.enable_host_resource_protection)
            + opt_bool("-ExposeVirtualizationExtensions"@, input.expose_virtualization_extensions)
            + seq!["-PassThru"@]
    }

    /// The script that runs for a valid request.
    pub open spec fn script(input: SetVmProcessorInput) -> Seq<char> {
        join(Self::command_args(input), seq![' ']) + SELECT@
    }

    /// Checks the request and builds its script.
    pub fn build_script(input: &SetVmProcessorInput) -> (r: Result<String, ToolError>)
        ensures
            script_outcome(r, Self::input_problem(*input), Self::script(*input)),
    {
        if text_is_blank(input.name.as_str()) {
            return Err(invalid_input("VM name must not be empty"));
        }
        let mut args = ArgList::new("Set-VMProcessor");
        args.push_quoted("-VMName", input.name.as_str());
        args.push_opt_quoted("-ComputerName", &input.computer_name);
        args.push_opt_i64("-Count", input.count);
        args.push_opt_bool(
            "-CompatibilityForMigrationEnabled",
            input.compatibility_for_migration_enabled,
        );
        args.push_opt_bool(
            "-CompatibilityForOlderOperatingSystemsEnabled",
            input.compatibility_for_older_operating_systems_enabled,
        );
        args.push_opt_i64("-HwThreadCountPerCore", input.hw_thread_count_per_core);
        args.push_opt_i64("-Maximum", input.maximum);
        args.push_opt_i64("-Reserve", input.reserve);
        args.push_opt_i32("-RelativeWeight", input.relative_weight);
        args.push_opt_i32("-MaximumCountPerNumaNode", input.maximum_count_per_numa_node);
        args.push_opt_i32("-MaximumCountPerNumaSocket", input.maximum_count_per_numa_socket);
        args.push_opt_quoted("-ResourcePoolName", &input.resource_pool_name);
        args.push_opt_quoted("-Perfmon", &input.perfmon);
        args.push_opt_bool("-EnableHostResourceProtection", input.enable_host_resource_protection);
        args.push_opt_bool(
            "-ExposeVirtualizationExtensions",
            input.expose_virtualization_extensions,
        );
        args.push_literal("-PassThru");
        assert(args@ === Self::command_args(*input));
        Ok(args.to_command_with(SELECT))
    }

    /// Reads the answer from what the script printed: one entry per record.
    pub fn parse_output(raw: JsonValue) -> (r: SetVmProcessorOutput)
        ensures
            describes_all(r.processors@, raw.records()),
    {
        SetVmProcessorOutput { processors: decode_records(raw) }
    }

    /// Reads the answer from the text the script printed; blank text reads as
    /// an empty list, and text that is not JSON is a `Json` error.
    pub fn read_output(printed: &str) -> (r: Result<SetVmProcessorOutput, ToolError>)
        ensures
            match parsed_json(effective_output(printed@)) {
                Some(raw) => r matches Ok(out) && describes_all(out.processors@, raw.records()),
                None => r matches Err(ToolError::Json(_)),
            },
    {
        match read_printed(printed) {
            Ok(raw) => Ok(Self::parse_output(raw)),
            Err(e) => Err(e),
        }
    }

    /// Every value of a valid request reaches the script that `build_script`
    /// returns under its own flag: each flag below stands in the script
    /// followed by the value of the field of the same name.
    pub proof fn lemma_script_carries_each_value(input: SetVmProcessorInput)
        requires
            Self::input_problem(input) is None,
        ensures
            holds(Self::script(input), quoted_arg("-VMName"@, input.name@)),
            input.computer_name matches Some(v) ==> holds(
                Self::script(input),
                quoted_arg("-ComputerName"@, v@),
            ),
            input.count matches Some(v) ==> holds(
                Self::script(input),
                number_arg("-Count"@, v as int),
            ),
            input.compatibility_for_migration_enabled matches Some(v) ==> holds(
                Self::script(input),
                bool_arg("-CompatibilityForMigrationEnabled"@, v),
            ),
            input.compatibility_for_older_operating_systems_enabled matches Some(v) ==> holds(
                Self::script(input),
                bool_arg("-CompatibilityForOlderOperatingSystemsEnabled"@, v),
            ),
            input.hw_thread_count_per_core matches Some(v) ==> holds(
                Self::script(input),
                number_arg("-HwThreadCountPerCore"@, v as int),
            ),
            input.maximum matches Some(v) ==> holds(
                Self::script(input),
                number_arg("-Maximum"@, v as int),
            ),
            input.reserve matches Some(v) ==> holds(
                Self::script(input),
                number_arg("-Reserve"@, v as int),
            ),
            input.relative_weight matches Some(v) ==> holds(
                Self::script(input),
                number_arg("-RelativeWeight"@, v as int),
            ),
            input.maximum_count_per_numa_node matches Some(v) ==> holds(
                Self::script(input),
                number_arg("-MaximumCountPerNumaNode"@, v as int),
            ),
            input.maximum_count_per_numa_socket matches Some(v) ==> holds(
                Self::script(input),
                number_arg("-MaximumCountPerNumaSocket"@, v as int),
            ),
            input.resource_pool_name matches Some(v) ==> holds(
                Self::script(input),
                quoted_arg("-ResourcePoolName"@, v@),
            ),
            input.perfmon matches Some(v) ==> holds(
                Self::script(input),
                quoted_arg("-Perfmon"@, v@),
            ),
            input.enable_host_resource_protection matches Some(v) ==> holds(
                Self::script(input),
                bool_arg("-EnableHostResourceProtection"@, v),
            ),
            input.expose_virtualization_extensions matches Some(v) ==> holds(
                Self::script(input),
                bool_arg("-ExposeVirtualizationExtensions"@, v),
            ),
    {
        Self::script_carries_name(input);
        Self::script_carries_computer_name(input);
        Self::script_carries_count(input);
        Self::script_carries_compatibility_for_migration_enabled(input);
        Self::script_carries_compatibility_for_older_operating_systems_enabled(input);
        Self::script_carries_hw_thread_count_per_core(input);
        Self::script_carries_maximum(input);
        Self::script_carries_reserve(input);
        Self::script_carries_relative_weight(input);
        Self::script_carries_maximum_count_per_numa_node(input);
        Self::script_carries_maximum_count_per_numa_socket(input);
        Self::script_carries_resource_pool_name(input);
        Self::script_carries_perfmon(input);
        Self::script_carries_enable_host_resource_protection(input);
        Self::script_carries_expose_virtualization_extensions(input);
    }

    proof fn script_carries_name(input: SetVmProcessorInput)
        ensures
            holds(Self::script(input), quoted_arg("-VMName"@, input.name@)),
    {
        broadcast use lemma_add_contains, lemma_push_contains;

        let args = Self::command_args(input);
        let tail = SELECT@;
        lemma_script_holds_argument(args, tail, quoted_arg("-VMName"@, input.name@));
    }

    proof fn script_carries_computer_name(input: SetVmProcessorInput)
        ensures
            input.computer_name matches Some(v) ==> holds(
                Self::script(input),
                quoted_arg("-ComputerName"@, v@),
            ),
    {
        broadcast use lemma_add_contains, lemma_push_contains;

        let args = Self::command_args(input);
        let tail = SELECT@;
        if let Some(v) = input.computer_name {
            lemma_script_holds_argument(args, tail, quoted_arg("-ComputerName"@, v@));
        }
    }

    proof fn script_carries_count(input: SetVmProcessorInput)
        ensures
            input.count matches Some(v) ==> holds(
                Self::script(input),
                number_arg("-Count"@, v as int),
            ),
    {
        broadcast use lemma_add_contains, lemma_push_contains;

        let args = Self::command_args(input);
        let tail = SELECT@;
        if let Some(v) = input.count {
            lemma_script_holds_argument(args, tail, number_arg("-Count"@, v as int));
        }
    }

    proof fn script_carries_compatibility_for_migration_enabled(input: SetVmProcessorInput)
        ensures
            input.compatibility_for_migration_enabled matches Some(v) ==> holds(
                Self::script(input),
                bool_arg("-CompatibilityForMigrationEnabled"@, v),
            ),
    {
        broadcast use lemma_add_contains, lemma_push_contains;

        let args = Self::command_args(input);
        let tail = SELECT@;
        if let Some(v) = input.compatibility_for_migration_enabled {
            lemma_script_holds_argument(
                args,
                tail,
                bool_arg("-CompatibilityForMigrationEnabled"@, v),
            );
        }
    }

    proof fn script_carries_compatibility_for_older_operating_systems_enabled(
        input: SetVmProcessorInput,
    )
        ensures
            input.compatibility_for_older_operating_systems_enabled matches Some(v) ==> holds(
                Self::script(input),
                bool_arg("-CompatibilityForOlderOperatingSystemsEnabled"@, v),
            ),
    {
        broadcast use lemma_add_contains, lemma_push_contains;

        let args = Self::command_args(input);
        let tail = SELECT@;
        if let Some(v) = input.compatibility_for_older_operating_systems_enabled {
            lemma_script_holds_argument(
                args,
                tail,
                bool_arg("-CompatibilityForOlderOperatingSystemsEnabled"@, v),
            );
        }
    }

    proof fn script_carries_hw_thread_count_per_core(input: SetVmProcessorInput)
        ensures
            input.hw_thread_count_per_core matches Some(v) ==> holds(
                Self::script(input),
                number_arg("-HwThreadCountPerCore"@, v as int),
            ),
    {
        broadcast use lemma_add_contains, lemma_push_contains;

        let args = Self::command_args(input);
        let tail = SELECT@;
        if let Some(v) = input.hw_thread_count_per_core {
            lemma_script_holds_argument(args, tail, number_arg("-HwThreadCountPerCore"@, v as int));
        }
    }

    proof fn script_carries_maximum(input: SetVmProcessorInput)
        ensures
            input.maximum matches Some(v) ==> holds(
                Self::script(input),
                number_arg("-Maximum"@, v as int),
            ),
    {
        broadcast use lemma_add_contains, lemma_push_contains;

        let args = Self::command_args(input);
        let tail = SELECT@;
        if let Some(v) = input.maximum {
            lemma_script_holds_argument(args, tail, number_arg("-Maximum"@, v as int));
        }
    }

    proof fn script_carries_reserve(input: SetVmProcessorInput)
        ensures
            input.reserve matches Some(v) ==> holds(
                Self::script(input),
                number_arg("-Reserve"@, v as int),
            ),
    {
        broadcast use lemma_add_contains, lemma_push_contains;

        let args = Self::command_args(input);
        let tail = SELECT@;
        if let Some(v) = input.reserve {
            lemma_script_holds_argument(args, tail, number_arg("-Reserve"@, v as int));
        }
    }

    proof fn script_carries_relative_weight(input: SetVmProcessorInput)
        ensures
            input.relative_weight matches Some(v) ==> holds(
                Self::script(input),
                number_arg("-RelativeWeight"@, v as int),
            ),
    {
        broadcast use lemma_add_contains, lemma_push_contains;

        let args = Self::command_args(input);
        let tail = SELECT@;
        if let Some(v) = input.relative_weight {
            lemma_script_holds_argument(args, tail, number_arg("-RelativeWeight"@, v as int));
        }
    }

    proof fn script_carries_maximum_count_per_numa_node(input: SetVmProcessorInput)
        ensures
            input.maximum_count_per_numa_node matches Some(v) ==> holds(
                Self::script(input),
                number_arg("-MaximumCountPerNumaNode"@, v as int),
            ),
    {
        broadcast use lemma_add_contains, lemma_push_contains;

        let args = Self::command_args(input);
        let tail = SELECT@;
        if let Some(v) = input.maximum_count_per_numa_node {
            lemma_script_holds_argument(
                args,
                tail,
                number_arg("-MaximumCountPerNumaNode"@, v as int),
            );
        }
    }

    proof fn script_carries_maximum_count_per_numa_socket(input: SetVmProcessorInput)
        ensures
            input.maximum_count_per_numa_socket matches Some(v) ==> holds(
                Self::script(input),
                number_arg("-MaximumCountPerNumaSocket"@, v as int),
            ),
    {
        broadcast use lemma_add_contains, lemma_push_contains;

        let args = Self::command_args(input);
        let tail = SELECT@;
        if let Some(v) = input.maximum_count_per_numa_socket {
            lemma_script_holds_argument(
                args,
                tail,
                number_arg("-MaximumCountPerNumaSocket"@, v as int),
            );
        }
    }

    proof fn script_carries_resource_pool_name(input: SetVmProcessorInput)
        ensures
            input.resource_pool_name matches Some(v) ==> holds(
                Self::script(input),
                quoted_arg("-ResourcePoolName"@, v@),
            ),
    {
        broadcast use lemma_add_contains, lemma_push_contains;

        let args = Self::command_args(input);
        let tail = SELECT@;
        if let Some(v) = input.resource_pool_name {
            lemma_script_holds_argument(args, tail, quoted_arg("-ResourcePoolName"@, v@));
        }
    }

    proof fn script_carries_perfmon(input: SetVmProcessorInput)
        ensures
            input.perfmon matches Some(v) ==> holds(
                Self::script(input),
                quoted_arg("-Perfmon"@, v@),
            ),
    {
        broadcast use lemma_add_contains, lemma_push_contains;

        let args = Self::command_args(input);
        let tail = SELECT@;
        if let Some(v) = input.perfmon {
            lemma_script_holds_argument(args, tail, quoted_arg("-Perfmon"@, v@));
        }
    }

    proof fn script_carries_enable_host_resource_protection(input: SetVmProcessorInput)
        ensures
            input.enable_host_resource_protection matches Some(v) ==> holds(
                Self::script(input),
                bool_arg("-EnableHostResourceProtection"@, v),
            ),
    {
        broadcast use lemma_add_contains, lemma_push_contains;

        let args = Self::command_args(input);
        let tail = SELECT@;
        if let Some(v) = input.enable_host_resource_protection {
            lemma_script_holds_argument(args, tail, bool_arg("-EnableHostResourceProtection"@, v));
        }
    }

    proof fn script_carries_expose_virtualization_extensions(input: SetVmProcessorInput)
        ensures
            input.expose_virtualization_extensions matches Some(v) ==> holds(
                Self::script(input),
                bool_arg("-ExposeVirtualizationExtensions"@, v),
            ),
    {
        broadcast use lemma_add_contains, lemma_push_contains;

        let args = Self::command_args(input);
        let tail = SELECT@;
        if let Some(v) = input.expose_virtualization_extensions {
            lemma_script_holds_argument(
                args,
                tail,
                bool_arg("-ExposeVirtualizationExtensions"@, v),
            );
        }
    }

    /// Each entry of the answer reads the printed record at its place: every
    /// field holds the record's member of the matching name.
    pub proof fn lemma_answer_reads_each_record(raw: JsonValue, out: SetVmProcessorOutput)
        requires
            describes_all(out.processors@, raw.records()),
        ensures
            out.processors@.len() == raw.records().len(),
            forall|i: int|
                #![trigger out.processors@[i]]
                0 <= i < raw.records().len() ==> {
                    &&& out.processors@[i].vm_name@ == raw.records()[i].text_or_empty("VMName"@)
                    &&& out.processors@[i].count == raw.records()[i].i64_or_zero("Count"@)
                    &&& out.processors@[i].compatibility_for_migration_enabled
                        == raw.records()[i].flag_or_false("CompatibilityForMigrationEnabled"@)
                    &&& out.processors@[i].compatibility_for_older_operating_systems_enabled
                        == raw.records()[i].flag_or_false("CompatibilityForOlderOperatingSystemsEnabled"@)
                    &&& out.processors@[i].hw_thread_count_per_core
                        == raw.records()[i].i64_or_zero("HwThreadCountPerCore"@)
                    &&& out.processors@[i].maximum == raw.records()[i].i64_or_zero("Maximum"@)
                    &&& out.processors@[i].reserve == raw.records()[i].i64_or_zero("Reserve"@)
                    &&& out.processors@[i].relative_weight
                        == raw.records()[i].i64_or_zero("RelativeWeight"@) as i32
                    &&& out.processors@[i].maximum_count_per_numa_node
                        == raw.records()[i].i64_or_zero("MaximumCountPerNumaNode"@) as i32
                    &&& out.processors@[i].maximum_count_per_numa_socket
                        == raw.records()[i].i64_or_zero("MaximumCountPerNumaSocket"@) as i32
                    &&& out.processors@[i].resource_pool_name@
                        == raw.records()[i].text_or_empty("ResourcePoolName"@)
                    &&& out.processors@[i].perfmon@ == raw.records()[i].text_or_empty("Perfmon"@)
                    &&& out.processors@[i].enable_host_resource_protection
                        == raw.records()[i].flag_or_false("EnableHostResourceProtection"@)
                    &&& out.processors@[i].expose_virtualization_extensions
                        == raw.records()[i].flag_or_false("ExposeVirtualizationExtensions"@)
                    &&& out.processors@[i].computer_name@
                        == raw.records()[i].text_or_empty("ComputerName"@)
                },
    {
        assert forall|i: int| 0 <= i < raw.records().len() implies {
            &&& out.processors@[i].vm_name@ == raw.records()[i].text_or_empty("VMName"@)
            &&& out.processors@[i].count == raw.records()[i].i64_or_zero("Count"@)
            &&& out.processors@[i].compatibility_for_migration_enabled
                == raw.records()[i].flag_or_false("CompatibilityForMigrationEnabled"@)
            &&& out.processors@[i].compatibility_for_older_operating_systems_enabled
                == raw.records()[i].flag_or_false("CompatibilityForOlderOperatingSystemsEnabled"@)
            &&& out.processors@[i].hw_thread_count_per_core
                == raw.records()[i].i64_or_zero("HwThreadCountPerCore"@)
            &&& out.processors@[i].maximum == raw.records()[i].i64_or_zero("Maximum"@)
            &&& out.processors@[i].reserve == raw.records()[i].i64_or_zero("Reserve"@)
            &&& out.processors@[i].relative_weight
                == raw.records()[i].i64_or_zero("RelativeWeight"@) as i32
            &&& out.processors@[i].maximum_count_per_numa_node
                == raw.records()[i].i64_or_zero("MaximumCountPerNumaNode"@) as i32
            &&& out.processors@[i].maximum_count_per_numa_socket
                == raw.records()[i].i64_or_zero("MaximumCountPerNumaSocket"@) as i32
            &&& out.processors@[i].resource_pool_name@
                == raw.records()[i].text_or_empty("ResourcePoolName"@)
            &&& out.processors@[i].perfmon@ == raw.records()[i].text_or_empty("Perfmon"@)
            &&& out.processors@[i].enable_host_resource_protection
                == raw.records()[i].flag_or_false("EnableHostResourceProtection"@)
            &&& out.processors@[i].expose_virtualization_extensions
                == raw.records()[i].flag_or_false("ExposeVirtualizationExtensions"@)
            &&& out.processors@[i].computer_name@ == raw.records()[i].text_or_empty("ComputerName"@)
        } by {
            assert(out.processors@[i].describes(raw.records()[i]));
        }
    }
}

} // verus!
