//! `hyperv_set_vm_memory`: configures the memory of a virtual machine.
use vstd::prelude::*;
use crate::command::{
    bool_arg, holds, join, lemma_add_contains, lemma_push_contains, lemma_script_holds_argument,
    number_arg, opt_bool, opt_quoted, opt_u32, opt_u64, quoted_arg, ArgList,
};
use crate::error::{invalid_input, script_outcome, ToolError};
use crate::json::{
    decode_records, describes_all, effective_output, parsed_json, read_printed, FromJson, JsonValue,
};
use crate::text::{is_blank, option_is_blank, text_is_blank};

verus! {

/// The tool's name.
pub const NAME: &'static str = "hyperv_set_vm_memory";

/// What the tool does.
pub const DESCRIPTION: &'static str = "Configures the memory of a virtual machine.";

/// What the script runs after the cmdlet: the fields it prints, as JSON.
pub const SELECT: &'static str = " | Select-Object VMName, ComputerName, @{N='Startup';E={$_.Startup.ToString()}}, @{N='Minimum';E={$_.Minimum.ToString()}}, @{N='Maximum';E={$_.Maximum.ToString()}}, DynamicMemoryEnabled, Buffer, Priority, @{N='SmartPagingFilePath';E={$_.SmartPagingFilePath.ToString()}} | ConvertTo-Json -Compress -Depth 3";

/// What the tool is asked.
#[derive(Debug)]
pub struct SetVmMemoryInput {
    /// Name of the virtual machine whose memory is to be configured.
    pub vm_name: String,
    /// Hyper-V host on which the virtual machine resides. Defaults to localhost.
    pub computer_name: Option<String>,
    /// Amount of memory, in bytes, allocated to the virtual machine at startup.
    pub startup_bytes: Option<u64>,
    /// Minimum amount of memory, in bytes, that can be allocated to the virtual machine when dynamic memory is enabled.
    pub minimum_bytes: Option<u64>,
    /// Maximum amount of memory, in bytes, that can be allocated to the virtual machine when dynamic memory is enabled.
    pub maximum_bytes: Option<u64>,
    /// Enables or disables dynamic memory for the virtual machine.
    pub dynamic_memory_enabled: Option<bool>,
    /// Percentage of extra memory to reserve for the virtual machine, from 5 to 2000.
    pub buffer: Option<u32>,
    /// Priority for memory allocation among virtual machines, from 1 to 10000.
    pub priority: Option<u32>,
    /// Folder in which the Smart Paging file is stored.
    pub smart_paging_file_path: Option<String>,
}

/// One record of the answer.
#[derive(Debug)]
pub struct VmMemoryInfo {
    pub vm_name: String,
    pub computer_name: String,
    /// Startup memory, in bytes.
    pub startup: String,
    /// Minimum memory, in bytes.
    pub minimum: String,
    /// Maximum memory, in bytes.
    pub maximum: String,
    pub dynamic_memory_enabled: bool,
    /// Memory buffer percentage.
    pub buffer: u32,
    /// Memory priority.
    pub priority: u32,
    pub smart_paging_file_path: String,
}

/// What the tool answers.
#[derive(Debug)]
pub struct SetVmMemoryOutput {
    pub memory: Vec<VmMemoryInfo>,
}

/// The tool.
#[derive(Default)]
pub struct SetVmMemoryTool;

impl FromJson for VmMemoryInfo {
    open spec fn describes(&self, item: JsonValue) -> bool {
        &&& self.vm_name@ == item.text_or_empty("VMName"@)
        &&& self.computer_name@ == item.text_or_empty("ComputerName"@)
        &&& self.startup@ == item.text_or_empty("Startup"@)
        &&& self.minimum@ == item.text_or_empty("Minimum"@)
        &&& self.maximum@ == item.text_or_empty("Maximum"@)
        &&& self.dynamic_memory_enabled == item.flag_or_false("DynamicMemoryEnabled"@)
        &&& self.buffer == item.u64_or_zero("Buffer"@) as u32
        &&& self.priority == item.u64_or_zero("Priority"@) as u32
        &&& self.smart_paging_file_path@ == item.text_or_empty("SmartPagingFilePath"@)
    }

    fn from_json(item: &JsonValue) -> (r: Self) {
        VmMemoryInfo {
            vm_name: item.text_or_empty_at("VMName"),
            computer_name: item.text_or_empty_at("ComputerName"),
            startup: item.text_or_empty_at("Startup"),
            minimum: item.text_or_empty_at("Minimum"),
            maximum: item.text_or_empty_at("Maximum"),
            dynamic_memory_enabled: item.flag_or_false_at("DynamicMemoryEnabled"),
            buffer: item.u64_or_zero_at("Buffer") as u32,
            priority: item.u64_or_zero_at("Priority") as u32,
            smart_paging_file_path: item.text_or_empty_at("SmartPagingFilePath"),
        }
    }
}

impl SetVmMemoryTool {
    /// The first problem with the request, as the message that reports it.
    pub open spec fn input_problem(input: SetVmMemoryInput) -> Option<Seq<char>> {
        if is_blank(input.vm_name@) {
            Some("VM name must not be empty"@)
        } else if input.computer_name matches Some(s) && is_blank(s@) {
            Some("ComputerName must not be empty when provided"@)
        } else {
            None
        }
    }

    /// The arguments of the cmdlet.
    pub open spec fn command_args(input: SetVmMemoryInput) -> Seq<Seq<char>> {
        seq!["Set-VMMemory"@, quoted_arg("-VMName"@, input.vm_name@)]
            + opt_quoted("-ComputerName"@, input.computer_name)
            + opt_u64("-StartupBytes"@, input.startup_bytes)
            + opt_u64("-MinimumBytes"@, input.minimum_bytes)
            + opt_u64("-MaximumBytes"@, input.maximum_bytes)
            + opt_bool("-DynamicMemoryEnabled"@, input.dynamic_memory_enabled)
            + opt_u32("-Buffer"@, input.buffer)
            + opt_u32("-Priority"@, input.priority)
            + opt_quoted("-SmartPagingFilePath"@, input.smart_paging_file_path)
            + seq!["-PassThru"@]
    }

    /// The script that runs for a valid request.
    pub open spec fn script(input: SetVmMemoryInput) -> Seq<char> {
        join(Self::command_args(input), seq![' ']) + SELECT@
    }

    /// Checks the request and builds its script.
    pub fn build_script(input: &SetVmMemoryInput) -> (r: Result<String, ToolError>)
        ensures
            script_outcome(r, Self::input_problem(*input), Self::script(*input)),
    {
        if text_is_blank(input.vm_name.as_str()) {
            return Err(invalid_input("VM name must not be empty"));
        }
        if option_is_blank(&input.computer_name) {
            return Err(invalid_input("ComputerName must not be empty when provided"));
        }
        let mut args = ArgList::new("Set-VMMemory");
        args.push_quoted("-VMName", input.vm_name.as_str());
        args.push_opt_quoted("-ComputerName", &input.computer_name);
        args.push_opt_u64("-StartupBytes", input.startup_bytes);
        args.push_opt_u64("-MinimumBytes", input.minimum_bytes);
        args.push_opt_u64("-MaximumBytes", input.maximum_bytes);
        args.push_opt_bool("-DynamicMemoryEnabled", input.dynamic_memory_enabled);
        args.push_opt_u32("-Buffer", input.buffer);
        args.push_opt_u32("-Priority", input.priority);
        args.push_opt_quoted("-SmartPagingFilePath", &input.smart_paging_file_path);
        args.push_literal("-PassThru");
        assert(args@ === Self::command_args(*input));
        Ok(args.to_command_with(SELECT))
    }

    /// Reads the answer from what the script printed: one entry per record.
    pub fn parse_output(raw: JsonValue) -> (r: SetVmMemoryOutput)
        ensures
            describes_all(r.memory@, raw.records()),
    {
        SetVmMemoryOutput { memory: decode_records(raw) }
    }

    /// Reads the answer from the text the script printed; blank text reads as
    /// an empty list, and text that is not JSON is a `Json` error.
    pub fn read_output(printed: &str) -> (r: Result<SetVmMemoryOutput, ToolError>)
        ensures
            match parsed_json(effective_output(printed@)) {
                Some(raw) => r matches Ok(out) && describes_all(out.memory@, raw.records()),
                None => r matches Err(ToolError::Json(_)),
            },
    {
        match read_printed(printed) {
            Ok(raw) => Ok(Self::parse_output(raw)),
            Err(e) => Err(e),
        }
    }

    /// Every value of a valid request reaches the script that `build_script`
    /// returns under its own flag: each flag below stands in the script
    /// followed by the value of the field of the same name.
    pub proof fn lemma_script_carries_each_value(input: SetVmMemoryInput)
        requires
            Self::input_problem(input) is None,
        ensures
            holds(Self::script(input), quoted_arg("-VMName"@, input.vm_name@)),
            input.computer_name matches Some(v) ==> holds(
                Self::script(input),
                quoted_arg("-ComputerName"@, v@),
            ),
            input.startup_bytes matches Some(v) ==> holds(
                Self::script(input),
                number_arg("-StartupBytes"@, v as int),
            ),
            input.minimum_bytes matches Some(v) ==> holds(
                Self::script(input),
                number_arg("-MinimumBytes"@, v as int),
            ),
            input.maximum_bytes matches Some(v) ==> holds(
                Self::script(input),
                number_arg("-MaximumBytes"@, v as int),
            ),
            input.dynamic_memory_enabled matches Some(v) ==> holds(
                Self::script(input),
                bool_arg("-DynamicMemoryEnabled"@, v),
            ),
            input.buffer matches Some(v) ==> holds(
                Self::script(input),
                number_arg("-Buffer"@, v as int),
            ),
            input.priority matches Some(v) ==> holds(
                Self::script(input),
                number_arg("-Priority"@, v as int),
            ),
            input.smart_paging_file_path matches Some(v) ==> holds(
                Self::script(input),
                quoted_arg("-SmartPagingFilePath"@, v@),
            ),
    {
        Self::script_carries_vm_name(input);
        Self::script_carries_computer_name(input);
        Self::script_carries_startup_bytes(input);
        Self::script_carries_minimum_bytes(input);
        Self::script_carries_maximum_bytes(input);
        Self::script_carries_dynamic_memory_enabled(input);
        Self::script_carries_buffer(input);
        Self::script_carries_priority(input);
        Self::script_carries_smart_paging_file_path(input);
    }

    proof fn script_carries_vm_name(input: SetVmMemoryInput)
        ensures
            holds(Self::script(input), quoted_arg("-VMName"@, input.vm_name@)),
    {
        broadcast use lemma_add_contains, lemma_push_contains;

        let args = Self::command_args(input);
        let tail = SELECT@;
        lemma_script_holds_argument(args, tail, quoted_arg("-VMName"@, input.vm_name@));
    }

    proof fn script_carries_computer_name(input: SetVmMemoryInput)
        ensures
            input.computer_name matches Some(v) ==> holds(
                Self::script(input),
                quoted_arg("-ComputerName"@, v@),
            ),
    {
        broadcast use lemma_add_contains, lemma_push_contains;

        let args = Self::command_args(input);
        let tail = SELECT@;
        if let Some(v) = input.computer_name {
            lemma_script_holds_argument(args, tail, quoted_arg("-ComputerName"@, v@));
        }
    }

    proof fn script_carries_startup_bytes(input: SetVmMemoryInput)
        ensures
            input.startup_bytes matches Some(v) ==> holds(
                Self::script(input),
                number_arg("-StartupBytes"@, v as int),
            ),
    {
        broadcast use lemma_add_contains, lemma_push_contains;

        let args = Self::command_args(input);
        let tail = SELECT@;
        if let Some(v) = input.startup_bytes {
            lemma_script_holds_argument(args, tail, number_arg("-StartupBytes"@, v as int));
        }
    }

    proof fn script_carries_minimum_bytes(input: SetVmMemoryInput)
        ensures
            input.minimum_bytes matches Some(v) ==> holds(
                Self::script(input),
                number_arg("-MinimumBytes"@, v as int),
            ),
    {
        broadcast use lemma_add_contains, lemma_push_contains;

        let args = Self::command_args(input);
        let tail = SELECT@;
        if let Some(v) = input.minimum_bytes {
            lemma_script_holds_argument(args, tail, number_arg("-MinimumBytes"@, v as int));
        }
    }

    proof fn script_carries_maximum_bytes(input: SetVmMemoryInput)
        ensures
            input.maximum_bytes matches Some(v) ==> holds(
                Self::script(input),
                number_arg("-MaximumBytes"@, v as int),
            ),
    {
        broadcast use lemma_add_contains, lemma_push_contains;

        let args = Self::command_args(input);
        let tail = SELECT@;
        if let Some(v) = input.maximum_bytes {
            lemma_script_holds_argument(args, tail, number_arg("-MaximumBytes"@, v as int));
        }
    }

    proof fn script_carries_dynamic_memory_enabled(input: SetVmMemoryInput)
        ensures
            input.dynamic_memory_enabled matches Some(v) ==> holds(
                Self::script(input),
                bool_arg("-DynamicMemoryEnabled"@, v),
            ),
    {
        broadcast use lemma_add_contains, lemma_push_contains;

        let args = Self::command_args(input);
        let tail = SELECT@;
        if let Some(v) = input.dynamic_memory_enabled {
            lemma_script_holds_argument(args, tail, bool_arg("-DynamicMemoryEnabled"@, v));
        }
    }

    proof fn script_carries_buffer(input: SetVmMemoryInput)
        ensures
            input.buffer matches Some(v) ==> holds(
                Self::script(input),
                number_arg("-Buffer"@, v as int),
            ),
    {
        broadcast use lemma_add_contains, lemma_push_contains;

        let args = Self::command_args(input);
        let tail = SELECT@;
        if let Some(v) = input.buffer {
            lemma_script_holds_argument(args, tail, number_arg("-Buffer"@, v as int));
        }
    }

    proof fn script_carries_priority(input: SetVmMemoryInput)
        ensures
            input.priority matches Some(v) ==> holds(
                Self::script(input),
                number_arg("-Priority"@, v as int),
            ),
    {
        broadcast use lemma_add_contains, lemma_push_contains;

        let args = Self::command_args(input);
        let tail = SELECT@;
        if let Some(v) = input.priority {
            lemma_script_holds_argument(args, tail, number_arg("-Priority"@, v as int));
        }
    }

    proof fn script_carries_smart_paging_file_path(input: SetVmMemoryInput)
        ensures
            input.smart_paging_file_path matches Some(v) ==> holds(
                Self::script(input),
                quoted_arg("-SmartPagingFilePath"@, v@),
            ),
    {
        broadcast use lemma_add_contains, lemma_push_contains;

        let args = Self::command_args(input);
        let tail = SELECT@;
        if let Some(v) = input.smart_paging_file_path {
            lemma_script_holds_argument(args, tail, quoted_arg("-SmartPagingFilePath"@, v@));
        }
    }

    /// Each entry of the answer reads the printed record at its place: every
    /// field holds the record's member of the matching name.
    pub proof fn lemma_answer_reads_each_record(raw: JsonValue, out: SetVmMemoryOutput)
        requires
            describes_all(out.memory@, raw.records()),
        ensures
            out.memory@.len() == raw.records().len(),
            forall|i: int|
                #![trigger out.memory@[i]]
                0 <= i < raw.records().len() ==> {
                    &&& out.memory@[i].vm_name@ == raw.records()[i].text_or_empty("VMName"@)
                    &&& out.memory@[i].computer_name@
                        == raw.records()[i].text_or_empty("ComputerName"@)
                    &&& out.memory@[i].startup@ == raw.records()[i].text_or_empty("Startup"@)
                    &&& out.memory@[i].minimum@ == raw.records()[i].text_or_empty("Minimum"@)
                    &&& out.memory@[i].maximum@ == raw.records()[i].text_or_empty("Maximum"@)
                    &&& out.memory@[i].dynamic_memory_enabled
                        == raw.records()[i].flag_or_false("DynamicMemoryEnabled"@)
                    &&& out.memory@[i].buffer == raw.records()[i].u64_or_zero("Buffer"@) as u32
                    &&& out.memory@[i].priority == raw.records()[i].u64_or_zero("Priority"@) as u32
                    &&& out.memory@[i].smart_paging_file_path@
                        == raw.records()[i].text_or_empty("SmartPagingFilePath"@)
                },
    {
        assert forall|i: int| 0 <= i < raw.records().len() implies {
            &&& out.memory@[i].vm_name@ == raw.records()[i].text_or_empty("VMName"@)
            &&& out.memory@[i].computer_name@ == raw.records()[i].text_or_empty("ComputerName"@)
            &&& out.memory@[i].startup@ == raw.records()[i].text_or_empty("Startup"@)
            &&& out.memory@[i].minimum@ == raw.records()[i].text_or_empty("Minimum"@)
            &&& out.memory@[i].maximum@ == raw.records()[i].text_or_empty("Maximum"@)
            &&& out.memory@[i].dynamic_memory_enabled
                == raw.records()[i].flag_or_false("DynamicMemoryEnabled"@)
            &&& out.memory@[i].buffer == raw.records()[i].u64_or_zero("Buffer"@) as u32
            &&& out.memory@[i].priority == raw.records()[i].u64_or_zero("Priority"@) as u32
            &&& out.memory@[i].smart_paging_file_path@
                == raw.records()[i].text_or_empty("SmartPagingFilePath"@)
        } by {
            assert(out.memory@[i].describes(raw.records()[i]));
        }
    }

    /// A request is valid only when it passes every check: none of the
    /// conditions that refuse a request holds of it.
    pub proof fn lemma_valid_request_passes_every_check(input: SetVmMemoryInput)
        requires
            Self::input_problem(input) is None,
        ensures
            !(is_blank(input.vm_name@)),
            !(input.computer_name matches Some(s) && is_blank(s@)),
    {
    }
}

} // verus!
