//! `hyperv_set_vm_com_port`: configures the COM port of a virtual machine.
use vstd::prelude::*;
use crate::command::{
    holds, join, lemma_add_contains, lemma_push_contains, lemma_script_holds_argument, number_arg,
    opt_quoted, quoted_arg, ArgList,
};
use crate::error::{invalid_input, script_outcome, ToolError};
use crate::json::{
    decode_records, describes_all, effective_output, parsed_json, read_printed, FromJson, JsonValue,
};
use crate::text::{is_blank, text_is_blank};

verus! {

/// The tool's name.
pub const NAME: &'static str = "hyperv_set_vm_com_port";

/// What the tool does.
pub const DESCRIPTION: &'static str = "Configures the COM port of a virtual machine.";

/// What the script runs after the cmdlet: the fields it prints, as JSON.
pub const SELECT: &'static str = " | Select-Object Name, VMName, Number, Path, @{N='DebuggerMode';E={$_.DebuggerMode.ToString()}} | ConvertTo-Json -Compress -Depth 3";

/// What the tool is asked.
#[derive(Debug)]
pub struct SetVmComPortInput {
    /// Name of the virtual machine whose COM port is to be configured.
    pub name: String,
    /// Id (1 or 2) of the COM port to be configured.
    pub number: i32,
    /// Named pipe path for the COM port, e.g. \\.\pipe\PipeName.
    pub path: Option<String>,
    /// Hyper-V host on which the virtual machine resides. Defaults to localhost.
    pub computer_name: Option<String>,
    /// Debugger mode state: On or Off.
    pub debugger_mode: Option<String>,
}

/// One record of the answer.
#[derive(Debug)]
pub struct ComPortInfo {
    pub name: String,
    pub vm_name: String,
    pub number: i32,
    pub path: String,
    pub debugger_mode: String,
}

/// What the tool answers.
#[derive(Debug)]
pub struct SetVmComPortOutput {
    pub com_ports: Vec<ComPortInfo>,
}

/// The tool.
#[derive(Default)]
pub struct SetVmComPortTool;

impl FromJson for ComPortInfo {
    open spec fn describes(&self, item: JsonValue) -> bool {
        &&& self.name@ == item.text_or_empty("Name"@)
        &&& self.vm_name@ == item.text_or_empty("VMName"@)
        &&& self.number == item.i64_or_zero("Number"@) as i32
        &&& self.path@ == item.text_or_empty("Path"@)
        &&& self.debugger_mode@ == item.text_or_empty("DebuggerMode"@)
    }

    fn from_json(item: &JsonValue) -> (r: Self) {
        ComPortInfo {
            name: item.text_or_empty_at("Name"),
            vm_name: item.text_or_empty_at("VMName"),
            number: item.i64_or_zero_at("Number") as i32,
            path: item.text_or_empty_at("Path"),
            debugger_mode: item.text_or_empty_at("DebuggerMode"),
        }
    }
}

impl SetVmComPortTool {
    /// The first problem with the request, as the message that reports it.
    pub open spec fn input_problem(input: SetVmComPortInput) -> Option<Seq<char>> {
        if is_blank(input.name@) {
            Some("VM name must not be empty"@)
        } else if input.number != 1 && input.number != 2 {
            Some("COM port number must be 1 or 2"@)
        } else {
            None
        }
    }

    /// The arguments of the cmdlet.
    pub open spec fn command_args(input: SetVmComPortInput) -> Seq<Seq<char>> {
        seq!["Set-VMComPort"@, quoted_arg("-VMName"@, input.name@)]
            + opt_quoted("-ComputerName"@, input.computer_name)
            + seq![number_arg("-Number"@, input.number as int)]
            + opt_quoted("-Path"@, input.path)
            + opt_quoted("-DebuggerMode"@, input.debugger_mode)
    }

    /// The script that runs for a valid request.
    pub open spec fn script(input: SetVmComPortInput) -> Seq<char> {
        join(Self::command_args(input), seq![' ']) + SELECT@
    }

    /// Checks the request and builds its script.
    pub fn build_script(input: &SetVmComPortInput) -> (r: Result<String, ToolError>)
        ensures
            script_outcome(r, Self::input_problem(*input), Self::script(*input)),
    {
        if text_is_blank(input.name.as_str()) {
            return Err(invalid_input("VM name must not be empty"));
        }
        if input.number != 1 && input.number != 2 {
            return Err(invalid_input("COM port number must be 1 or 2"));
        }
        let mut args = ArgList::new("Set-VMComPort");
        args.push_quoted("-VMName", input.name.as_str());
        args.push_opt_quoted("-ComputerName", &input.computer_name);
        args.push_signed("-Number", input.number as i64);
        args.push_opt_quoted("-Path", &input.path);
        args.push_opt_quoted("-DebuggerMode", &input.debugger_mode);
        assert(args@ === Self::command_args(*input));
        Ok(args.to_command_with(SELECT))
    }

    /// Reads the answer from what the script printed: one entry per record.
    pub fn parse_output(raw: JsonValue) -> (r: SetVmComPortOutput)
        ensures
            describes_all(r.com_ports@, raw.records()),
    {
        SetVmComPortOutput { com_ports: decode_records(raw) }
    }

    /// Reads the answer from the text the script printed; blank text reads as
    /// an empty list, and text that is not JSON is a `Json` error.
    pub fn read_output(printed: &str) -> (r: Result<SetVmComPortOutput, ToolError>)
        ensures
            match parsed_json(effective_output(printed@)) {
                Some(raw) => r matches Ok(out) && describes_all(out.com_ports@, raw.records()),
                None => r matches Err(ToolError::Json(_)),
            },
    {
        match read_printed(printed) {
            Ok(raw) => Ok(Self::parse_output(raw)),
            Err(e) => Err(e),
        }
    }

    /// Every value of a valid request reaches the script that `build_script`
    /// returns under its own flag: each flag below stands in the script
    /// followed by the value of the field of the same name.
    pub proof fn lemma_script_carries_each_value(input: SetVmComPortInput)
        requires
            Self::input_problem(input) is None,
        ensures
            holds(Self::script(input), quoted_arg("-VMName"@, input.name@)),
            input.computer_name matches Some(v) ==> holds(
                Self::script(input),
                quoted_arg("-ComputerName"@, v@),
            ),
            holds(Self::script(input), number_arg("-Number"@, input.number as int)),
            input.path matches Some(v) ==> holds(Self::script(input), quoted_arg("-Path"@, v@)),
            input.debugger_mode matches Some(v) ==> holds(
                Self::script(input),
                quoted_arg("-DebuggerMode"@, v@),
            ),
    {
        Self::script_carries_name(input);
        Self::script_carries_computer_name(input);
        Self::script_carries_number(input);
        Self::script_carries_path(input);
        Self::script_carries_debugger_mode(input);
    }

    proof fn script_carries_name(input: SetVmComPortInput)
        ensures
            holds(Self::script(input), quoted_arg("-VMName"@, input.name@)),
    {
        broadcast use lemma_add_contains, lemma_push_contains;

        let args = Self::command_args(input);
        let tail = SELECT@;
        lemma_script_holds_argument(args, tail, quoted_arg("-VMName"@, input.name@));
    }

    proof fn script_carries_computer_name(input: SetVmComPortInput)
        ensures
            input.computer_name matches Some(v) ==> holds(
                Self::script(input),
                quoted_arg("-ComputerName"@, v@),
            ),
    {
        broadcast use lemma_add_contains, lemma_push_contains;

        let args = Self::command_args(input);
        let tail = SELECT@;
        if let Some(v) = input.computer_name {
            lemma_script_holds_argument(args, tail, quoted_arg("-ComputerName"@, v@));
        }
    }

    proof fn script_carries_number(input: SetVmComPortInput)
        ensures
            holds(Self::script(input), number_arg("-Number"@, input.number as int)),
    {
        broadcast use lemma_add_contains, lemma_push_contains;

        let args = Self::command_args(input);
        let tail = SELECT@;
        lemma_script_holds_argument(args, tail, number_arg("-Number"@, input.number as int));
    }

    proof fn script_carries_path(input: SetVmComPortInput)
        ensures
            input.path matches Some(v) ==> holds(Self::script(input), quoted_arg("-Path"@, v@)),
    {
        broadcast use lemma_add_contains, lemma_push_contains;

        let args = Self::command_args(input);
        let tail = SELECT@;
        if let Some(v) = input.path {
            lemma_script_holds_argument(args, tail, quoted_arg("-Path"@, v@));
        }
    }

    proof fn script_carries_debugger_mode(input: SetVmComPortInput)
        ensures
            input.debugger_mode matches Some(v) ==> holds(
                Self::script(input),
                quoted_arg("-DebuggerMode"@, v@),
            ),
    {
        broadcast use lemma_add_contains, lemma_push_contains;

        let args = Self::command_args(input);
        let tail = SELECT@;
        if let Some(v) = input.debugger_mode {
            lemma_script_holds_argument(args, tail, quoted_arg("-DebuggerMode"@, v@));
        }
    }

    /// Each entry of the answer reads the printed record at its place: every
    /// field holds the record's member of the matching name.
    pub proof fn lemma_answer_reads_each_record(raw: JsonValue, out: SetVmComPortOutput)
        requires
            describes_all(out.com_ports@, raw.records()),
        ensures
            out.com_ports@.len() == raw.records().len(),
            forall|i: int|
                #![trigger out.com_ports@[i]]
                0 <= i < raw.records().len() ==> {
                    &&& out.com_ports@[i].name@ == raw.records()[i].text_or_empty("Name"@)
                    &&& out.com_ports@[i].vm_name@ == raw.records()[i].text_or_empty("VMName"@)
                    &&& out.com_ports@[i].number == raw.records()[i].i64_or_zero("Number"@) as i32
                    &&& out.com_ports@[i].path@ == raw.records()[i].text_or_empty("Path"@)
                    &&& out.com_ports@[i].debugger_mode@
                        == raw.records()[i].text_or_empty("DebuggerMode"@)
                },
    {
        assert forall|i: int| 0 <= i < raw.records().len() implies {
            &&& out.com_ports@[i].name@ == raw.records()[i].text_or_empty("Name"@)
            &&& out.com_ports@[i].vm_name@ == raw.records()[i].text_or_empty("VMName"@)
            &&& out.com_ports@[i].number == raw.records()[i].i64_or_zero("Number"@) as i32
            &&& out.com_ports@[i].path@ == raw.records()[i].text_or_empty("Path"@)
            &&& out.com_ports@[i].debugger_mode@ == raw.records()[i].text_or_empty("DebuggerMode"@)
        } by {
            assert(out.com_ports@[i].describes(raw.records()[i]));
        }
    }

    /// A request is valid only when it passes every check: none of the
    /// conditions that refuse a request holds of it.
    pub proof fn lemma_valid_request_passes_every_check(input: SetVmComPortInput)
        requires
            Self::input_problem(input) is None,
        ensures
            !(is_blank(input.name@)),
            !(input.number != 1 && input.number != 2),
    {
    }
}

} // verus!
