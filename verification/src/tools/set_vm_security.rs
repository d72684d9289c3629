//! `hyperv_set_vm_security`: configures security settings for a virtual machine.
use vstd::prelude::*;
use crate::command::{
    bool_arg, holds, join, lemma_add_contains, lemma_push_contains, lemma_script_holds_argument,
    opt_bool, opt_quoted, quoted_arg, ArgList,
};
use crate::error::{invalid_input, script_outcome, ToolError};
use crate::json::{
    decode_records, describes_all, effective_output, parsed_json, read_printed, FromJson, JsonValue,
};
use crate::text::{is_blank, option_is_blank, text_is_blank};

verus! {

/// The tool's name.
pub const NAME: &'static str = "hyperv_set_vm_security";

/// What the tool does.
pub const DESCRIPTION: &'static str = "Configures security settings for a virtual machine.";

/// What the script runs after the cmdlet: the fields it prints, as JSON.
pub const SELECT: &'static str = " | Select-Object VMName, VMId, TpmEnabled, KsdEnabled, Shielded, ComputerName | ConvertTo-Json -Compress -Depth 3";

/// What the tool is asked.
#[derive(Debug)]
pub struct SetVmSecurityInput {
    /// Name of the virtual machine.
    pub vm_name: String,
    /// Enable or disable TPM.
    pub tpm_enabled: Option<bool>,
    /// Enable or disable KSD.
    pub ksd_enabled: Option<bool>,
    /// Enable or disable shielding.
    pub shielded: Option<bool>,
    /// Hyper-V host to target. Defaults to localhost.
    pub computer_name: Option<String>,
}

/// One record of the answer.
#[derive(Debug)]
pub struct VmSecuritySetInfo {
    pub vm_name: String,
    pub vm_id: String,
    pub tpm_enabled: bool,
    pub ksd_enabled: bool,
    pub shielded: bool,
    pub computer_name: String,
}

/// What the tool answers.
#[derive(Debug)]
pub struct SetVmSecurityOutput {
    pub security: Vec<VmSecuritySetInfo>,
}

/// The tool.
#[derive(Default)]
pub struct SetVmSecurityTool;

impl FromJson for VmSecuritySetInfo {
    open spec fn describes(&self, item: JsonValue) -> bool {
        &&& self.vm_name@ == item.text_or_empty("VMName"@)
        &&& self.vm_id@ == item.text_or_empty("VMId"@)
        &&& self.tpm_enabled == item.flag_or_false("TpmEnabled"@)
        &&& self.ksd_enabled == item.flag_or_false("KsdEnabled"@)
        &&& self.shielded == item.flag_or_false("Shielded"@)
        &&& self.computer_name@ == item.text_or_empty("ComputerName"@)
    }

    fn from_json(item: &JsonValue) -> (r: Self) {
        VmSecuritySetInfo {
            vm_name: item.text_or_empty_at("VMName"),
            vm_id: item.text_or_empty_at("VMId"),
            tpm_enabled: item.flag_or_false_at("TpmEnabled"),
            ksd_enabled: item.flag_or_false_at("KsdEnabled"),
            shielded: item.flag_or_false_at("Shielded"),
            computer_name: item.text_or_empty_at("ComputerName"),
        }
    }
}

impl SetVmSecurityTool {
    /// The first problem with the request, as the message that reports it.
    pub open spec fn input_problem(input: SetVmSecurityInput) -> Option<Seq<char>> {
        if is_blank(input.vm_name@) {
            Some("vm_name must not be empty"@)
        } else if input.computer_name matches Some(s) && is_blank(s@) {
            Some("computer_name must not be empty when provided"@)
        } else {
            None
        }
    }

    /// The arguments of the cmdlet.
    pub open spec fn command_args(input: SetVmSecurityInput) -> Seq<Seq<char>> {
        seq!["Set-VMSecurity"@, quoted_arg("-VMName"@, input.vm_name@)]
            + opt_bool("-TpmEnabled"@, input.tpm_enabled)
            + opt_bool("-KsdEnabled"@, input.ksd_enabled)
            + opt_bool("-Shielded"@, input.shielded)
            + opt_quoted("-ComputerName"@, input.computer_name)
    }

    /// The script that runs for a valid request.
    pub open spec fn script(input: SetVmSecurityInput) -> Seq<char> {
        join(Self::command_args(input), seq![' ']) + SELECT@
    }

    /// Checks the request and builds its script.
    pub fn build_script(input: &SetVmSecurityInput) -> (r: Result<String, ToolError>)
        ensures
            script_outcome(r, Self::input_problem(*input), Self::script(*input)),
    {
        if text_is_blank(input.vm_name.as_str()) {
            return Err(invalid_input("vm_name must not be empty"));
        }
        if option_is_blank(&input.computer_name) {
            return Err(invalid_input("computer_name must not be empty when provided"));
        }
        let mut args = ArgList::new("Set-VMSecurity");
        args.push_quoted("-VMName", input.vm_name.as_str());
        args.push_opt_bool("-TpmEnabled", input.tpm_enabled);
        args.push_opt_bool("-KsdEnabled", input.ksd_enabled);
        args.push_opt_bool("-Shielded", input.shielded);
        args.push_opt_quoted("-ComputerName", &input.computer_name);
        assert(args@ === Self::command_args(*input));
        Ok(args.to_command_with(SELECT))
    }

    /// Reads the answer from what the script printed: one entry per record.
    pub fn parse_output(raw: JsonValue) -> (r: SetVmSecurityOutput)
        ensures
            describes_all(r.security@, raw.records()),
    {
        SetVmSecurityOutput { security: decode_records(raw) }
    }

    /// Reads the answer from the text the script printed; blank text reads as
    /// an empty list, and text that is not JSON is a `Json` error.
    pub fn read_output(printed: &str) -> (r: Result<SetVmSecurityOutput, ToolError>)
        ensures
            match parsed_json(effective_output(printed@)) {
                Some(raw) => r matches Ok(out) && describes_all(out.security@, raw.records()),
                None => r matches Err(ToolError::Json(_)),
            },
    {
        match read_printed(printed) {
            Ok(raw) => Ok(Self::parse_output(raw)),
            Err(e) => Err(e),
        }
    }

    /// Every value of a valid request reaches the script that `build_script`
    /// returns under its own flag: each flag below stands in the script
    /// followed by the value of the field of the same name.
    pub proof fn lemma_script_carries_each_value(input: SetVmSecurityInput)
        requires
            Self::input_problem(input) is None,
        ensures
            holds(Self::script(input), quoted_arg("-VMName"@, input.vm_name@)),
            input.tpm_enabled matches Some(v) ==> holds(
                Self::script(input),
                bool_arg("-TpmEnabled"@, v),
            ),
            input.ksd_enabled matches Some(v) ==> holds(
                Self::script(input),
                bool_arg("-KsdEnabled"@, v),
            ),
            input.shielded matches Some(v) ==> holds(
                Self::script(input),
                bool_arg("-Shielded"@, v),
            ),
            input.computer_name matches Some(v) ==> holds(
                Self::script(input),
                quoted_arg("-ComputerName"@, v@),
            ),
    {
        Self::script_carries_vm_name(input);
        Self::script_carries_tpm_enabled(input);
        Self::script_carries_ksd_enabled(input);
        Self::script_carries_shielded(input);
        Self::script_carries_computer_name(input);
    }

    proof fn script_carries_vm_name(input: SetVmSecurityInput)
        ensures
            holds(Self::script(input), quoted_arg("-VMName"@, input.vm_name@)),
    {
        broadcast use lemma_add_contains, lemma_push_contains;

        let args = Self::command_args(input);
        let tail = SELECT@;
        lemma_script_holds_argument(args, tail, quoted_arg("-VMName"@, input.vm_name@));
    }

    proof fn script_carries_tpm_enabled(input: SetVmSecurityInput)
        ensures
            input.tpm_enabled matches Some(v) ==> holds(
                Self::script(input),
                bool_arg("-TpmEnabled"@, v),
            ),
    {
        broadcast use lemma_add_contains, lemma_push_contains;

        let args = Self::command_args(input);
        let tail = SELECT@;
        if let Some(v) = input.tpm_enabled {
            lemma_script_holds_argument(args, tail, bool_arg("-TpmEnabled"@, v));
        }
    }

    proof fn script_carries_ksd_enabled(input: SetVmSecurityInput)
        ensures
            input.ksd_enabled matches Some(v) ==> holds(
                Self::script(input),
                bool_arg("-KsdEnabled"@, v),
            ),
    {
        broadcast use lemma_add_contains, lemma_push_contains;

        let args = Self::command_args(input);
        let tail = SELECT@;
        if let Some(v) = input.ksd_enabled {
            lemma_script_holds_argument(args, tail, bool_arg("-KsdEnabled"@, v));
        }
    }

    proof fn script_carries_shielded(input: SetVmSecurityInput)
        ensures
            input.shielded matches Some(v) ==> holds(
                Self::script(input),
                bool_arg("-Shielded"@, v),
            ),
    {
        broadcast use lemma_add_contains, lemma_push_contains;

        let args = Self::command_args(input);
        let tail = SELECT@;
        if let Some(v) = input.shielded {
            lemma_script_holds_argument(args, tail, bool_arg("-Shielded"@, v));
        }
    }

    proof fn script_carries_computer_name(input: SetVmSecurityInput)
        ensures
            input.computer_name matches Some(v) ==> holds(
                Self::script(input),
                quoted_arg("-ComputerName"@, v@),
            ),
    {
        broadcast use lemma_add_contains, lemma_push_contains;

        let args = Self::command_args(input);
        let tail = SELECT@;
        if let Some(v) = input.computer_name {
            lemma_script_holds_argument(args, tail, quoted_arg("-ComputerName"@, v@));
        }
    }

    /// Each entry of the answer reads the printed record at its place: every
    /// field holds the record's member of the matching name.
    pub proof fn lemma_answer_reads_each_record(raw: JsonValue, out: SetVmSecurityOutput)
        requires
            describes_all(out.security@, raw.records()),
        ensures
            out.security@.len() == raw.records().len(),
            forall|i: int|
                #![trigger out.security@[i]]
                0 <= i < raw.records().len() ==> {
                    &&& out.security@[i].vm_name@ == raw.records()[i].text_or_empty("VMName"@)
                    &&& out.security@[i].vm_id@ == raw.records()[i].text_or_empty("VMId"@)
                    &&& out.security@[i].tpm_enabled
                        == raw.records()[i].flag_or_false("TpmEnabled"@)
                    &&& out.security@[i].ksd_enabled
                        == raw.records()[i].flag_or_false("KsdEnabled"@)
                    &&& out.security@[i].shielded == raw.records()[i].flag_or_false("Shielded"@)
                    &&& out.security@[i].computer_name@
                        == raw.records()[i].text_or_empty("ComputerName"@)
                },
    {
        assert forall|i: int| 0 <= i < raw.records().len() implies {
            &&& out.security@[i].vm_name@ == raw.records()[i].text_or_empty("VMName"@)
            &&& out.security@[i].vm_id@ == raw.records()[i].text_or_empty("VMId"@)
            &&& out.security@[i].tpm_enabled == raw.records()[i].flag_or_false("TpmEnabled"@)
            &&& out.security@[i].ksd_enabled == raw.records()[i].flag_or_false("KsdEnabled"@)
            &&& out.security@[i].shielded == raw.records()[i].flag_or_false("Shielded"@)
            &&& out.security@[i].computer_name@ == raw.records()[i].text_or_empty("ComputerName"@)
        } by {
            assert(out.security@[i].describes(raw.records()[i]));
        }
    }

    /// A request is valid only when it passes every check: none of the
    /// conditions that refuse a request holds of it.
    pub proof fn lemma_valid_request_passes_every_check(input: SetVmSecurityInput)
        requires
            Self::input_problem(input) is None,
        ensures
            !(is_blank(input.vm_name@)),
            !(input.computer_name matches Some(s) && is_blank(s@)),
    {
    }
}

} // verus!
