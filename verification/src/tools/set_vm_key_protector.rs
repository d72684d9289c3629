//! `hyperv_set_vm_key_protector`: configures a key protector for a virtual machine.
use vstd::prelude::*;
use crate::command::{
    holds, join, lemma_add_contains, lemma_push_contains, lemma_script_holds_argument, opt_quoted,
    quoted_arg, ArgList,
};
use crate::error::{invalid_input, script_outcome, ToolError};
use crate::json::{
    decode_records, describes_all, effective_output, parsed_json, read_printed, FromJson, JsonValue,
};
use crate::text::{is_blank, option_is_blank, text_is_blank};

verus! {

/// The tool's name.
pub const NAME: &'static str = "hyperv_set_vm_key_protector";

/// What the tool does.
pub const DESCRIPTION: &'static str = "Configures a key protector for a virtual machine.";

/// What the script runs after the cmdlet: the fields it prints, as JSON.
pub const SELECT: &'static str = " | Select-Object VMName, VMId, @{N='KeyProtector';E={$_.KeyProtector.ToString()}} | ConvertTo-Json -Compress -Depth 3";

/// What the tool is asked.
#[derive(Debug)]
pub struct SetVmKeyProtectorInput {
    /// Name of the virtual machine.
    pub vm_name: String,
    /// Key protector string.
    pub key_protector: String,
    /// Hyper-V host to target. Defaults to localhost.
    pub computer_name: Option<String>,
}

/// One record of the answer.
#[derive(Debug)]
pub struct VmKeyProtectorSetInfo {
    pub vm_name: String,
    pub vm_id: String,
    pub key_protector: String,
}

/// What the tool answers.
#[derive(Debug)]
pub struct SetVmKeyProtectorOutput {
    pub protectors: Vec<VmKeyProtectorSetInfo>,
}

/// The tool.
#[derive(Default)]
pub struct SetVmKeyProtectorTool;

impl FromJson for VmKeyProtectorSetInfo {
    open spec fn describes(&self, item: JsonValue) -> bool {
        &&& self.vm_name@ == item.text_or_empty("VMName"@)
        &&& self.vm_id@ == item.text_or_empty("VMId"@)
        &&& self.key_protector@ == item.text_or_empty("KeyProtector"@)
    }

    fn from_json(item: &JsonValue) -> (r: Self) {
        VmKeyProtectorSetInfo {
            vm_name: item.text_or_empty_at("VMName"),
            vm_id: item.text_or_empty_at("VMId"),
            key_protector: item.text_or_empty_at("KeyProtector"),
        }
    }
}

impl SetVmKeyProtectorTool {
    /// The first problem with the request, as the message that reports it.
    pub open spec fn input_problem(input: SetVmKeyProtectorInput) -> Option<Seq<char>> {
        if is_blank(input.vm_name@) {
            Some("vm_name must not be empty"@)
        } else if is_blank(input.key_protector@) {
            Some("key_protector must not be empty"@)
        } else if input.computer_name matches Some(s) && is_blank(s@) {
            Some("computer_name must not be empty when provided"@)
        } else {
            None
        }
    }

    /// The arguments of the cmdlet.
    pub open spec fn command_args(input: SetVmKeyProtectorInput) -> Seq<Seq<char>> {
        seq![
            "Set-VMKeyProtector"@,
            quoted_arg("-VMName"@, input.vm_name@),
            quoted_arg("-KeyProtector"@, input.key_protector@),
        ]
            + opt_quoted("-ComputerName"@, input.computer_name)
    }

    /// The script that runs for a valid request.
    pub open spec fn script(input: SetVmKeyProtectorInput) -> Seq<char> {
        join(Self::command_args(input), seq![' ']) + SELECT@
    }

    /// Checks the request and builds its script.
    pub fn build_script(input: &SetVmKeyProtectorInput) -> (r: Result<String, ToolError>)
        ensures
            script_outcome(r, Self::input_problem(*input), Self::script(*input)),
    {
        if text_is_blank(input.vm_name.as_str()) {
            return Err(invalid_input("vm_name must not be empty"));
        }
        if text_is_blank(input.key_protector.as_str()) {
            return Err(invalid_input("key_protector must not be empty"));
        }
        if option_is_blank(&input.computer_name) {
            return Err(invalid_input("computer_name must not be empty when provided"));
        }
        let mut args = ArgList::new("Set-VMKeyProtector");
        args.push_quoted("-VMName", input.vm_name.as_str());
        args.push_quoted("-KeyProtector", input.key_protector.as_str());
        assert(args@ =~= seq![
            "Set-VMKeyProtector"@,
            quoted_arg("-VMName"@, input.vm_name@),
            quoted_arg("-KeyProtector"@, input.key_protector@),
        ]);
        args.push_opt_quoted("-ComputerName", &input.computer_name);
        assert(args@ === Self::command_args(*input));
        Ok(args.to_command_with(SELECT))
    }

    /// Reads the answer from what the script printed: one entry per record.
    pub fn parse_output(raw: JsonValue) -> (r: SetVmKeyProtectorOutput)
        ensures
            describes_all(r.protectors@, raw.records()),
    {
        SetVmKeyProtectorOutput { protectors: decode_records(raw) }
    }

    /// Reads the answer from the text the script printed; blank text reads as
    /// an empty list, and text that is not JSON is a `Json` error.
    pub fn read_output(printed: &str) -> (r: Result<SetVmKeyProtectorOutput, ToolError>)
        ensures
            match parsed_json(effective_output(printed@)) {
                Some(raw) => r matches Ok(out) && describes_all(out.protectors@, raw.records()),
                None => r matches Err(ToolError::Json(_)),
            },
    {
        match read_printed(printed) {
            Ok(raw) => Ok(Self::parse_output(raw)),
            Err(e) => Err(e),
        }
    }

    /// Every value of a valid request reaches the script that `build_script`
    /// returns under its own flag: each flag below stands in the script
    /// followed by the value of the field of the same name.
    pub proof fn lemma_script_carries_each_value(input: SetVmKeyProtectorInput)
        requires
            Self::input_problem(input) is None,
        ensures
            holds(Self::script(input), quoted_arg("-VMName"@, input.vm_name@)),
            holds(Self::script(input), quoted_arg("-KeyProtector"@, input.key_protector@)),
            input.computer_name matches Some(v) ==> holds(
                Self::script(input),
                quoted_arg("-ComputerName"@, v@),
            ),
    {
        Self::script_carries_vm_name(input);
        Self::script_carries_key_protector(input);
        Self::script_carries_computer_name(input);
    }

    proof fn script_carries_vm_name(input: SetVmKeyProtectorInput)
        ensures
            holds(Self::script(input), quoted_arg("-VMName"@, input.vm_name@)),
    {
        broadcast use lemma_add_contains, lemma_push_contains;

        let args = Self::command_args(input);
        let tail = SELECT@;
        lemma_script_holds_argument(args, tail, quoted_arg("-VMName"@, input.vm_name@));
    }

    proof fn script_carries_key_protector(input: SetVmKeyProtectorInput)
        ensures
            holds(Self::script(input), quoted_arg("-KeyProtector"@, input.key_protector@)),
    {
        broadcast use lemma_add_contains, lemma_push_contains;

        let args = Self::command_args(input);
        let tail = SELECT@;
        lemma_script_holds_argument(args, tail, quoted_arg("-KeyProtector"@, input.key_protector@));
    }

    proof fn script_carries_computer_name(input: SetVmKeyProtectorInput)
        ensures
            input.computer_name matches Some(v) ==> holds(
                Self::script(input),
                quoted_arg("-ComputerName"@, v@),
            ),
    {
        broadcast use lemma_add_contains, lemma_push_contains;

        let args = Self::command_args(input);
        let tail = SELECT@;
        if let Some(v) = input.computer_name {
            lemma_script_holds_argument(args, tail, quoted_arg("-ComputerName"@, v@));
        }
    }

    /// Each entry of the answer reads the printed record at its place: every
    /// field holds the record's member of the matching name.
    pub proof fn lemma_answer_reads_each_record(raw: JsonValue, out: SetVmKeyProtectorOutput)
        requires
            describes_all(out.protectors@, raw.records()),
        ensures
            out.protectors@.len() == raw.records().len(),
            forall|i: int|
                #![trigger out.protectors@[i]]
                0 <= i < raw.records().len() ==> {
                    &&& out.protectors@[i].vm_name@ == raw.records()[i].text_or_empty("VMName"@)
                    &&& out.protectors@[i].vm_id@ == raw.records()[i].text_or_empty("VMId"@)
                    &&& out.protectors@[i].key_protector@
                        == raw.records()[i].text_or_empty("KeyProtector"@)
                },
    {
        assert forall|i: int| 0 <= i < raw.records().len() implies {
            &&& out.protectors@[i].vm_name@ == raw.records()[i].text_or_empty("VMName"@)
            &&& out.protectors@[i].vm_id@ == raw.records()[i].text_or_empty("VMId"@)
            &&& out.protectors@[i].key_protector@ == raw.records()[i].text_or_empty("KeyProtector"@)
        } by {
            assert(out.protectors@[i].describes(raw.records()[i]));
        }
    }

    /// A request is valid only when it passes every check: none of the
    /// conditions that refuse a request holds of it.
    pub proof fn lemma_valid_request_passes_every_check(input: SetVmKeyProtectorInput)
        requires
            Self::input_problem(input) is None,
        ensures
            !(is_blank(input.vm_name@)),
            !(is_blank(input.key_protector@)),
            !(input.computer_name matches Some(s) && is_blank(s@)),
    {
    }
}

} // verus!
