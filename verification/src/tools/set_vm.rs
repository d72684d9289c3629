//! `hyperv_set_vm`: configures a virtual machine.
use vstd::prelude::*;
use crate::command::{
    bool_arg, colon_bool_arg, holds, join, lemma_add_contains, lemma_push_contains,
    lemma_script_holds_argument, number_arg, opt_bool, opt_colon_bool, opt_i32, opt_quoted, opt_u32,
    opt_u64, quoted_arg, ArgList,
};
use crate::error::{invalid_input, script_outcome, ToolError};
use crate::json::{
    decode_records, describes_all, effective_output, parsed_json, read_printed, FromJson, JsonValue,
};
use crate::text::{is_blank, text_is_blank};

verus! {

/// The tool's name.
pub const NAME: &'static str = "hyperv_set_vm";

/// What the tool does.
pub const DESCRIPTION: &'static str = "Configures a virtual machine.";

/// What the script runs after the cmdlet: the fields it prints, as JSON.
pub const SELECT: &'static str = " | Select-Object Name, Id, @{N='State';E={$_.State.ToString()}}, @{N='Uptime';E={$_.Uptime.ToString()}}, ProcessorCount, MemoryAssigned | ConvertTo-Json -Compress -Depth 3";

/// What the tool is asked.
#[derive(Debug)]
pub struct SetVmInput {
    /// Name of the virtual machine to configure.
    pub name: String,
    /// Hyper-V host on which the virtual machine resides. Defaults to localhost.
    pub computer_name: Option<String>,
    /// New name for the virtual machine.
    pub new_name: Option<String>,
    /// Amount of memory, in bytes, allocated to the virtual machine at startup.
    pub memory_startup_bytes: Option<u64>,
    /// Number of virtual processors for the virtual machine.
    pub processor_count: Option<u32>,
    /// Action the virtual machine takes on host start: Nothing, StartIfRunning, or Start.
    pub automatic_start_action: Option<String>,
    /// Action the virtual machine takes on host shutdown: TurnOff, Save, or ShutDown.
    pub automatic_stop_action: Option<String>,
    /// Number of seconds by which the virtual machine's start is delayed.
    pub automatic_start_delay: Option<i32>,
    /// Action on critical error: None or Pause.
    pub automatic_critical_error_action: Option<String>,
    /// Minutes to wait in critical pause before powering off.
    pub automatic_critical_error_action_timeout: Option<i32>,
    /// Enables or disables automatic checkpoints.
    pub automatic_checkpoints_enabled: Option<bool>,
    /// Notes to associate with the virtual machine.
    pub notes: Option<String>,
    /// Folder in which snapshot files are stored.
    pub snapshot_file_location: Option<String>,
    /// Folder in which the Smart Paging file is stored.
    pub smart_paging_file_path: Option<String>,
    /// Checkpoint type: Disabled, Production, ProductionOnly, or Standard.
    pub checkpoint_type: Option<String>,
    /// Configure dynamic memory.
    pub dynamic_memory: Option<bool>,
    /// Configure static memory.
    pub static_memory: Option<bool>,
    /// Minimum memory, in bytes, for dynamic memory.
    pub memory_minimum_bytes: Option<u64>,
    /// Maximum memory, in bytes, for dynamic memory.
    pub memory_maximum_bytes: Option<u64>,
    /// Specifies whether guest controlled cache types are used.
    pub guest_controlled_cache_types: Option<bool>,
    /// Lock console on disconnect: On or Off.
    pub lock_on_disconnect: Option<String>,
    /// Low memory mapped I/O space.
    pub low_memory_mapped_io_space: Option<u32>,
    /// High memory mapped I/O space.
    pub high_memory_mapped_io_space: Option<u64>,
}

/// One record of the answer.
#[derive(Debug)]
pub struct VmConfig {
    pub name: String,
    pub id: String,
    pub state: String,
    pub uptime: String,
    pub processor_count: u32,
    pub memory_assigned: u64,
}

/// What the tool answers.
#[derive(Debug)]
pub struct SetVmOutput {
    pub vms: Vec<VmConfig>,
}

/// The tool.
#[derive(Default)]
pub struct SetVmTool;

impl FromJson for VmConfig {
    open spec fn describes(&self, item: JsonValue) -> bool {
        &&& self.name@ == item.text_or_empty("Name"@)
        &&& self.id@ == item.text_or_empty("Id"@)
        &&& self.state@ == item.text_or_empty("State"@)
        &&& self.uptime@ == item.text_or_empty("Uptime"@)
        &&& self.processor_count == item.u64_or_zero("ProcessorCount"@) as u32
        &&& self.memory_assigned == item.u64_or_zero("MemoryAssigned"@)
    }

    fn from_json(item: &JsonValue) -> (r: Self) {
        VmConfig {
            name: item.text_or_empty_at("Name"),
            id: item.text_or_empty_at("Id"),
            state: item.text_or_empty_at("State"),
            uptime: item.text_or_empty_at("Uptime"),
            processor_count: item.u64_or_zero_at("ProcessorCount") as u32,
            memory_assigned: item.u64_or_zero_at("MemoryAssigned"),
        }
    }
}

impl SetVmTool {
    /// The first problem with the request, as the message that reports it.
    pub open spec fn input_problem(input: SetVmInput) -> Option<Seq<char>> {
        if is_blank(input.name@) {
            Some("VM name must not be empty"@)
        } else {
            None
        }
    }

    /// The arguments of the cmdlet.
    pub open spec fn command_args(input: SetVmInput) -> Seq<Seq<char>> {
        seq!["Set-VM"@, quoted_arg("-Name"@, input.name@)]
            + opt_quoted("-ComputerName"@, input.computer_name)
            + opt_quoted("-NewVMName"@, input.new_name)
            + opt_u64("-MemoryStartupBytes"@, input.memory_startup_bytes)
            + opt_u32("-ProcessorCount"@, input.processor_count)
            + opt_quoted("-AutomaticStartAction"@, input.automatic_start_action)
            + opt_quoted("-AutomaticStopAction"@, input.automatic_stop_action)
            + opt_i32("-AutomaticStartDelay"@, input.automatic_start_delay)
            + opt_quoted("-AutomaticCriticalErrorAction"@, input.automatic_critical_error_action)
            + opt_i32(
                "-AutomaticCriticalErrorActionTimeout"@,
                input.automatic_critical_error_action_timeout,
            )
            + opt_bool("-AutomaticCheckpointsEnabled"@, input.automatic_checkpoints_enabled)
            + opt_quoted("-Notes"@, input.notes)
            + opt_quoted("-SnapshotFileLocation"@, input.snapshot_file_location)
            + opt_quoted("-SmartPagingFilePath"@, input.smart_paging_file_path)
            + opt_quoted("-CheckpointType"@, input.checkpoint_type)
            + opt_colon_bool("-DynamicMemory"@, input.dynamic_memory)
            + opt_colon_bool("-StaticMemory"@, input.static_memory)
            + opt_u64("-MemoryMinimumBytes"@, input.memory_minimum_bytes)
            + opt_u64("-MemoryMaximumBytes"@, input.memory_maximum_bytes)
            + opt_bool("-GuestControlledCacheTypes"@, input.guest_controlled_cache_types)
            + opt_quoted("-LockOnDisconnect"@, input.lock_on_disconnect)
            + opt_u32("-LowMemoryMappedIoSpace"@, input.low_memory_mapped_io_space)
            + opt_u64("-HighMemoryMappedIoSpace"@, input.high_memory_mapped_io_space)
            + seq!["-PassThru"@]
    }

    /// The script that runs for a valid request.
    pub open spec fn script(input: SetVmInput) -> Seq<char> {
        join(Self::command_args(input), seq![' ']) + SELECT@
    }

    /// Checks the request and builds its script.
    pub fn build_script(input: &SetVmInput) -> (r: Result<String, ToolError>)
        ensures
            script_outcome(r, Self::input_problem(*input), Self::script(*input)),
    {
        if text_is_blank(input.name.as_str()) {
            return Err(invalid_input("VM name must not be empty"));
        }
        let mut args = ArgList::new("Set-VM");
        args.push_quoted("-Name", input.name.as_str());
        args.push_opt_quoted("-ComputerName", &input.computer_name);
        args.push_opt_quoted("-NewVMName", &input.new_name);
        args.push_opt_u64("-MemoryStartupBytes", input.memory_startup_bytes);
        args.push_opt_u32("-ProcessorCount", input.processor_count);
        args.push_opt_quoted("-AutomaticStartAction", &input.automatic_start_action);
        args.push_opt_quoted("-AutomaticStopAction", &input.automatic_stop_action);
        args.push_opt_i32("-AutomaticStartDelay", input.automatic_start_delay);
        args.push_opt_quoted(
            "-AutomaticCriticalErrorAction",
            &input.automatic_critical_error_action,
        );
        args.push_opt_i32(
            "-AutomaticCriticalErrorActionTimeout",
            input.automatic_critical_error_action_timeout,
        );
        args.push_opt_bool("-AutomaticCheckpointsEnabled", input.automatic_checkpoints_enabled);
        args.push_opt_quoted("-Notes", &input.notes);
        args.push_opt_quoted("-SnapshotFileLocation", &input.snapshot_file_location);
        args.push_opt_quoted("-SmartPagingFilePath", &input.smart_paging_file_path);
        args.push_opt_quoted("-CheckpointType", &input.checkpoint_type);
        args.push_opt_colon_bool("-DynamicMemory", input.dynamic_memory);
        args.push_opt_colon_bool("-StaticMemory", input.static_memory);
        args.push_opt_u64("-MemoryMinimumBytes", input.memory_minimum_bytes);
        args.push_opt_u64("-MemoryMaximumBytes", input.memory_maximum_bytes);
        args.push_opt_bool("-GuestControlledCacheTypes", input.guest_controlled_cache_types);
        args.push_opt_quoted("-LockOnDisconnect", &input.lock_on_disconnect);
        args.push_opt_u32("-LowMemoryMappedIoSpace", input.low_memory_mapped_io_space);
        args.push_opt_u64("-HighMemoryMappedIoSpace", input.high_memory_mapped_io_space);
        args.push_literal("-PassThru");
        assert(args@ === Self::command_args(*input));
        Ok(args.to_command_with(SELECT))
    }

    /// Reads the answer from what the script printed: one entry per record.
    pub fn parse_output(raw: JsonValue) -> (r: SetVmOutput)
        ensures
            describes_all(r.vms@, raw.records()),
    {
        SetVmOutput { vms: decode_records(raw) }
    }

    /// Reads the answer from the text the script printed; blank text reads as
    /// an empty list, and text that is not JSON is a `Json` error.
    pub fn read_output(printed: &str) -> (r: Result<SetVmOutput, ToolError>)
        ensures
            match parsed_json(effective_output(printed@)) {
                Some(raw) => r matches Ok(out) && describes_all(out.vms@, raw.records()),
                None => r matches Err(ToolError::Json(_)),
            },
    {
        match read_printed(printed) {
            Ok(raw) => Ok(Self::parse_output(raw)),
            Err(e) => Err(e),
        }
    }

    /// Every value of a valid request reaches the script that `build_script`
    /// returns under its own flag: each flag below stands in the script
    /// followed by the value of the field of the same name.
    pub proof fn lemma_script_carries_each_value(input: SetVmInput)
        requires
            Self::input_problem(input) is None,
        ensures
            holds(Self::script(input), quoted_arg("-Name"@, input.name@)),
            input.computer_name matches Some(v) ==> holds(
                Self::script(input),
                quoted_arg("-ComputerName"@, v@),
            ),
            input.new_name matches Some(v) ==> holds(
                Self::script(input),
                quoted_arg("-NewVMName"@, v@),
            ),
            input.memory_startup_bytes matches Some(v) ==> holds(
                Self::script(input),
                number_arg("-MemoryStartupBytes"@, v as int),
            ),
            input.processor_count matches Some(v) ==> holds(
                Self::script(input),
                number_arg("-ProcessorCount"@, v as int),
            ),
            input.automatic_start_action matches Some(v) ==> holds(
                Self::script(input),
                quoted_arg("-AutomaticStartAction"@, v@),
            ),
            input.automatic_stop_action matches Some(v) ==> holds(
                Self::script(input),
                quoted_arg("-AutomaticStopAction"@, v@),
            ),
            input.automatic_start_delay matches Some(v) ==> holds(
                Self::script(input),
                number_arg("-AutomaticStartDelay"@, v as int),
            ),
            input.automatic_critical_error_action matches Some(v) ==> holds(
                Self::script(input),
                quoted_arg("-AutomaticCriticalErrorAction"@, v@),
            ),
            input.automatic_critical_error_action_timeout matches Some(v) ==> holds(
                Self::script(input),
                number_arg("-AutomaticCriticalErrorActionTimeout"@, v as int),
            ),
            input.automatic_checkpoints_enabled matches Some(v) ==> holds(
                Self::script(input),
                bool_arg("-AutomaticCheckpointsEnabled"@, v),
            ),
            input.notes matches Some(v) ==> holds(Self::script(input), quoted_arg("-Notes"@, v@)),
            input.snapshot_file_location matches Some(v) ==> holds(
                Self::script(input),
                quoted_arg("-SnapshotFileLocation"@, v@),
            ),
            input.smart_paging_file_path matches Some(v) ==> holds(
                Self::script(input),
                quoted_arg("-SmartPagingFilePath"@, v@),
            ),
            input.checkpoint_type matches Some(v) ==> holds(
                Self::script(input),
                quoted_arg("-CheckpointType"@, v@),
            ),
            input.dynamic_memory matches Some(v) ==> holds(
                Self::script(input),
                colon_bool_arg("-DynamicMemory"@, v),
            ),
            input.static_memory matches Some(v) ==> holds(
                Self::script(input),
                colon_bool_arg("-StaticMemory"@, v),
            ),
            input.memory_minimum_bytes matches Some(v) ==> holds(
                Self::script(input),
                number_arg("-MemoryMinimumBytes"@, v as int),
            ),
            input.memory_maximum_bytes matches Some(v) ==> holds(
                Self::script(input),
                number_arg("-MemoryMaximumBytes"@, v as int),
            ),
            input.guest_controlled_cache_types matches Some(v) ==> holds(
                Self::script(input),
                bool_arg("-GuestControlledCacheTypes"@, v),
            ),
            input.lock_on_disconnect matches Some(v) ==> holds(
                Self::script(input),
                quoted_arg("-LockOnDisconnect"@, v@),
            ),
            input.low_memory_mapped_io_space matches Some(v) ==> holds(
                Self::script(input),
                number_arg("-LowMemoryMappedIoSpace"@, v as int),
            ),
            input.high_memory_mapped_io_space matches Some(v) ==> holds(
                Self::script(input),
                number_arg("-HighMemoryMappedIoSpace"@, v as int),
            ),
    {
        Self::script_carries_name(input);
        Self::script_carries_computer_name(input);
        Self::script_carries_new_name(input);
        Self::script_carries_memory_startup_bytes(input);
        Self::script_carries_processor_count(input);
        Self::script_carries_automatic_start_action(input);
        Self::script_carries_automatic_stop_action(input);
        Self::script_carries_automatic_start_delay(input);
        Self::script_carries_automatic_critical_error_action(input);
        Self::script_carries_automatic_critical_error_action_timeout(input);
        Self::script_carries_automatic_checkpoints_enabled(input);
        Self::script_carries_notes(input);
        Self::script_carries_snapshot_file_location(input);
        Self::script_carries_smart_paging_file_path(input);
        Self::script_carries_checkpoint_type(input);
        Self::script_carries_dynamic_memory(input);
        Self::script_carries_static_memory(input);
        Self::script_carries_memory_minimum_bytes(input);
        Self::script_carries_memory_maximum_bytes(input);
        Self::script_carries_guest_controlled_cache_types(input);
        Self::script_carries_lock_on_disconnect(input);
        Self::script_carries_low_memory_mapped_io_space(input);
        Self::script_carries_high_memory_mapped_io_space(input);
    }

    proof fn script_carries_name(input: SetVmInput)
        ensures
            holds(Self::script(input), quoted_arg("-Name"@, input.name@)),
    {
        broadcast use lemma_add_contains, lemma_push_contains;

        let args = Self::command_args(input);
        let tail = SELECT@;
        lemma_script_holds_argument(args, tail, quoted_arg("-Name"@, input.name@));
    }

    proof fn script_carries_computer_name(input: SetVmInput)
        ensures
            input.computer_name matches Some(v) ==> holds(
                Self::script(input),
                quoted_arg("-ComputerName"@, v@),
            ),
    {
        broadcast use lemma_add_contains, lemma_push_contains;

        let args = Self::command_args(input);
        let tail = SELECT@;
        if let Some(v) = input.computer_name {
            lemma_script_holds_argument(args, tail, quoted_arg("-ComputerName"@, v@));
        }
    }

    proof fn script_carries_new_name(input: SetVmInput)
        ensures
            input.new_name matches Some(v) ==> holds(
                Self::script(input),
                quoted_arg("-NewVMName"@, v@),
            ),
    {
        broadcast use lemma_add_contains, lemma_push_contains;

        let args = Self::command_args(input);
        let tail = SELECT@;
        if let Some(v) = input.new_name {
            lemma_script_holds_argument(args, tail, quoted_arg("-NewVMName"@, v@));
        }
    }

    proof fn script_carries_memory_startup_bytes(input: SetVmInput)
        ensures
            input.memory_startup_bytes matches Some(v) ==> holds(
                Self::script(input),
                number_arg("-MemoryStartupBytes"@, v as int),
            ),
    {
        broadcast use lemma_add_contains, lemma_push_contains;

        let args = Self::command_args(input);
        let tail = SELECT@;
        if let Some(v) = input.memory_startup_bytes {
            lemma_script_holds_argument(args, tail, number_arg("-MemoryStartupBytes"@, v as int));
        }
    }

    proof fn script_carries_processor_count(input: SetVmInput)
        ensures
            input.processor_count matches Some(v) ==> holds(
                Self::script(input),
                number_arg("-ProcessorCount"@, v as int),
            ),
    {
        broadcast use lemma_add_contains, lemma_push_contains;

        let args = Self::command_args(input);
        let tail = SELECT@;
        if let Some(v) = input.processor_count {
            lemma_script_holds_argument(args, tail, number_arg("-ProcessorCount"@, v as int));
        }
    }

    proof fn script_carries_automatic_start_action(input: SetVmInput)
        ensures
            input.automatic_start_action matches Some(v) ==> holds(
                Self::script(input),
                quoted_arg("-AutomaticStartAction"@, v@),
            ),
    {
        broadcast use lemma_add_contains, lemma_push_contains;

        let args = Self::command_args(input);
        let tail = SELECT@;
        if let Some(v) = input.automatic_start_action {
            lemma_script_holds_argument(args, tail, quoted_arg("-AutomaticStartAction"@, v@));
        }
    }

    proof fn script_carries_automatic_stop_action(input: SetVmInput)
        ensures
            input.automatic_stop_action matches Some(v) ==> holds(
                Self::script(input),
                quoted_arg("-AutomaticStopAction"@, v@),
            ),
    {
        broadcast use lemma_add_contains, lemma_push_contains;

        let args = Self::command_args(input);
        let tail = SELECT@;
        if let Some(v) = input.automatic_stop_action {
            lemma_script_holds_argument(args, tail, quoted_arg("-AutomaticStopAction"@, v@));
        }
    }

    proof fn script_carries_automatic_start_delay(input: SetVmInput)
        ensures
            input.automatic_start_delay matches Some(v) ==> holds(
                Self::script(input),
                number_arg("-AutomaticStartDelay"@, v as int),
            ),
    {
        broadcast use lemma_add_contains, lemma_push_contains;

        let args = Self::command_args(input);
        let tail = SELECT@;
        if let Some(v) = input.automatic_start_delay {
            lemma_script_holds_argument(args, tail, number_arg("-AutomaticStartDelay"@, v as int));
        }
    }

    proof fn script_carries_automatic_critical_error_action(input: SetVmInput)
        ensures
            input.automatic_critical_error_action matches Some(v) ==> holds(
                Self::script(input),
                quoted_arg("-AutomaticCriticalErrorAction"@, v@),
            ),
    {
        broadcast use lemma_add_contains, lemma_push_contains;

        let args = Self::command_args(input);
        let tail = SELECT@;
        if let Some(v) = input.automatic_critical_error_action {
            lemma_script_holds_argument(
                args,
                tail,
                quoted_arg("-AutomaticCriticalErrorAction"@, v@),
            );
        }
    }

    proof fn script_carries_automatic_critical_error_action_timeout(input: SetVmInput)
        ensures
            input.automatic_critical_error_action_timeout matches Some(v) ==> holds(
                Self::script(input),
                number_arg("-AutomaticCriticalErrorActionTimeout"@, v as int),
            ),
    {
        broadcast use lemma_add_contains, lemma_push_contains;

        let args = Self::command_args(input);
        let tail = SELECT@;
        if let Some(v) = input.automatic_critical_error_action_timeout {
            lemma_script_holds_argument(
                args,
                tail,
                number_arg("-AutomaticCriticalErrorActionTimeout"@, v as int),
            );
        }
    }

    proof fn script_carries_automatic_checkpoints_enabled(input: SetVmInput)
        ensures
            input.automatic_checkpoints_enabled matches Some(v) ==> holds(
                Self::script(input),
                bool_arg("-AutomaticCheckpointsEnabled"@, v),
            ),
    {
        broadcast use lemma_add_contains, lemma_push_contains;

        let args = Self::command_args(input);
        let tail = SELECT@;
        if let Some(v) = input.automatic_checkpoints_enabled {
            lemma_script_holds_argument(args, tail, bool_arg("-AutomaticCheckpointsEnabled"@, v));
        }
    }

    proof fn script_carries_notes(input: SetVmInput)
        ensures
            input.notes matches Some(v) ==> holds(Self::script(input), quoted_arg("-Notes"@, v@)),
    {
        broadcast use lemma_add_contains, lemma_push_contains;

        let args = Self::command_args(input);
        let tail = SELECT@;
        if let Some(v) = input.notes {
            lemma_script_holds_argument(args, tail, quoted_arg("-Notes"@, v@));
        }
    }

    proof fn script_carries_snapshot_file_location(input: SetVmInput)
        ensures
            input.snapshot_file_location matches Some(v) ==> holds(
                Self::script(input),
                quoted_arg("-SnapshotFileLocation"@, v@),
            ),
    {
        broadcast use lemma_add_contains, lemma_push_contains;

        let args = Self::command_args(input);
        let tail = SELECT@;
        if let Some(v) = input.snapshot_file_location {
            lemma_script_holds_argument(args, tail, quoted_arg("-SnapshotFileLocation"@, v@));
        }
    }

    proof fn script_carries_smart_paging_file_path(input: SetVmInput)
        ensures
            input.smart_paging_file_path matches Some(v) ==> holds(
                Self::script(input),
                quoted_arg("-SmartPagingFilePath"@, v@),
            ),
    {
        broadcast use lemma_add_contains, lemma_push_contains;

        let args = Self::command_args(input);
        let tail = SELECT@;
        if let Some(v) = input.smart_paging_file_path {
            lemma_script_holds_argument(args, tail, quoted_arg("-SmartPagingFilePath"@, v@));
        }
    }

    proof fn script_carries_checkpoint_type(input: SetVmInput)
        ensures
            input.checkpoint_type matches Some(v) ==> holds(
                Self::script(input),
                quoted_arg("-CheckpointType"@, v@),
            ),
    {
        broadcast use lemma_add_contains, lemma_push_contains;

        let args = Self::command_args(input);
        let tail = SELECT@;
        if let Some(v) = input.checkpoint_type {
            lemma_script_holds_argument(args, tail, quoted_arg("-CheckpointType"@, v@));
        }
    }

    proof fn script_carries_dynamic_memory(input: SetVmInput)
        ensures
            input.dynamic_memory matches Some(v) ==> holds(
                Self::script(input),
                colon_bool_arg("-DynamicMemory"@, v),
            ),
    {
        broadcast use lemma_add_contains, lemma_push_contains;

        let args = Self::command_args(input);
        let tail = SELECT@;
        if let Some(v) = input.dynamic_memory {
            lemma_script_holds_argument(args, tail, colon_bool_arg("-DynamicMemory"@, v));
        }
    }

    proof fn script_carries_static_memory(input: SetVmInput)
        ensures
            input.static_memory matches Some(v) ==> holds(
                Self::script(input),
                colon_bool_arg("-StaticMemory"@, v),
            ),
    {
        broadcast use lemma_add_contains, lemma_push_contains;

        let args = Self::command_args(input);
        let tail = SELECT@;
        if let Some(v) = input.static_memory {
            lemma_script_holds_argument(args, tail, colon_bool_arg("-StaticMemory"@, v));
        }
    }

    proof fn script_carries_memory_minimum_bytes(input: SetVmInput)
        ensures
            input.memory_minimum_bytes matches Some(v) ==> holds(
                Self::script(input),
                number_arg("-MemoryMinimumBytes"@, v as int),
            ),
    {
        broadcast use lemma_add_contains, lemma_push_contains;

        let args = Self::command_args(input);
        let tail = SELECT@;
        if let Some(v) = input.memory_minimum_bytes {
            lemma_script_holds_argument(args, tail, number_arg("-MemoryMinimumBytes"@, v as int));
        }
    }

    proof fn script_carries_memory_maximum_bytes(input: SetVmInput)
        ensures
            input.memory_maximum_bytes matches Some(v) ==> holds(
                Self::script(input),
                number_arg("-MemoryMaximumBytes"@, v as int),
            ),
    {
        broadcast use lemma_add_contains, lemma_push_contains;

        let args = Self::command_args(input);
        let tail = SELECT@;
        if let Some(v) = input.memory_maximum_bytes {
            lemma_script_holds_argument(args, tail, number_arg("-MemoryMaximumBytes"@, v as int));
        }
    }

    proof fn script_carries_guest_controlled_cache_types(input: SetVmInput)
        ensures
            input.guest_controlled_cache_types matches Some(v) ==> holds(
                Self::script(input),
                bool_arg("-GuestControlledCacheTypes"@, v),
            ),
    {
        broadcast use lemma_add_contains, lemma_push_contains;

        let args = Self::command_args(input);
        let tail = SELECT@;
        if let Some(v) = input.guest_controlled_cache_types {
            lemma_script_holds_argument(args, tail, bool_arg("-GuestControlledCacheTypes"@, v));
        }
    }

    proof fn script_carries_lock_on_disconnect(input: SetVmInput)
        ensures
            input.lock_on_disconnect matches Some(v) ==> holds(
                Self::script(input),
                quoted_arg("-LockOnDisconnect"@, v@),
            ),
    {
        broadcast use lemma_add_contains, lemma_push_contains;

        let args = Self::command_args(input);
        let tail = SELECT@;
        if let Some(v) = input.lock_on_disconnect {
            lemma_script_holds_argument(args, tail, quoted_arg("-LockOnDisconnect"@, v@));
        }
    }

    proof fn script_carries_low_memory_mapped_io_space(input: SetVmInput)
        ensures
            input.low_memory_mapped_io_space matches Some(v) ==> holds(
                Self::script(input),
                number_arg("-LowMemoryMappedIoSpace"@, v as int),
            ),
    {
        broadcast use lemma_add_contains, lemma_push_contains;

        let args = Self::command_args(input);
        let tail = SELECT@;
        if let Some(v) = input.low_memory_mapped_io_space {
            lemma_script_holds_argument(
                args,
                tail,
                number_arg("-LowMemoryMappedIoSpace"@, v as int),
            );
        }
    }

    proof fn script_carries_high_memory_mapped_io_space(input: SetVmInput)
        ensures
            input.high_memory_mapped_io_space matches Some(v) ==> holds(
                Self::script(input),
                number_arg("-HighMemoryMappedIoSpace"@, v as int),
            ),
    {
        broadcast use lemma_add_contains, lemma_push_contains;

        let args = Self::command_args(input);
        let tail = SELECT@;
        if let Some(v) = input.high_memory_mapped_io_space {
            lemma_script_holds_argument(
                args,
                tail,
                number_arg("-HighMemoryMappedIoSpace"@, v as int),
            );
        }
    }

    /// Each entry of the answer reads the printed record at its place: every
    /// field holds the record's member of the matching name.
    pub proof fn lemma_answer_reads_each_record(raw: JsonValue, out: SetVmOutput)
        requires
            describes_all(out.vms@, raw.records()),
        ensures
            out.vms@.len() == raw.records().len(),
            forall|i: int|
                #![trigger out.vms@[i]]
                0 <= i < raw.records().len() ==> {
                    &&& out.vms@[i].name@ == raw.records()[i].text_or_empty("Name"@)
                    &&& out.vms@[i].id@ == raw.records()[i].text_or_empty("Id"@)
                    &&& out.vms@[i].state@ == raw.records()[i].text_or_empty("State"@)
                    &&& out.vms@[i].uptime@ == raw.records()[i].text_or_empty("Uptime"@)
                    &&& out.vms@[i].processor_count
                        == raw.records()[i].u64_or_zero("ProcessorCount"@) as u32
                    &&& out.vms@[i].memory_assigned
                        == raw.records()[i].u64_or_zero("MemoryAssigned"@)
                },
    {
        assert forall|i: int| 0 <= i < raw.records().len() implies {
            &&& out.vms@[i].name@ == raw.records()[i].text_or_empty("Name"@)
            &&& out.vms@[i].id@ == raw.records()[i].text_or_empty("Id"@)
            &&& out.vms@[i].state@ == raw.records()[i].text_or_empty("State"@)
            &&& out.vms@[i].uptime@ == raw.records()[i].text_or_empty("Uptime"@)
            &&& out.vms@[i].processor_count
                == raw.records()[i].u64_or_zero("ProcessorCount"@) as u32
            &&& out.vms@[i].memory_assigned == raw.records()[i].u64_or_zero("MemoryAssigned"@)
        } by {
            assert(out.vms@[i].describes(raw.records()[i]));
        }
    }
}

} // verus!
