//! `hyperv_set_vm_security_policy`: configures the security policy for a virtual machine.
use vstd::prelude::*;
use crate::command::{
    holds, join, lemma_add_contains, lemma_push_contains, lemma_script_holds_argument, opt_quoted,
    quoted_arg, ArgList,
};
use crate::error::{invalid_input, script_outcome, ToolError};
use crate::json::{
    decode_records, describes_all, effective_output, parsed_json, read_printed, FromJson, JsonValue,
};
use crate::text::{is_blank, option_is_blank, text_is_blank};

verus! {

/// The tool's name.
pub const NAME: &'static str = "hyperv_set_vm_security_policy";

/// What the tool does.
pub const DESCRIPTION: &'static str = "Configures the security policy for a virtual machine.";

/// What the script runs after the cmdlet: the fields it prints, as JSON.
pub const SELECT: &'static str = " | Select-Object VMName, VMId, EncryptionType, ShieldingDataFilePath, ComputerName | ConvertTo-Json -Compress -Depth 3";

/// What the tool is asked.
#[derive(Debug)]
pub struct SetVmSecurityPolicyInput {
    /// Name of the virtual machine.
    pub vm_name: String,
    /// Encryption type.
    pub encryption_type: Option<String>,
    /// Path to the shielding data file.
    pub shielding_data_file_path: Option<String>,
    /// Hyper-V host to target. Defaults to localhost.
    pub computer_name: Option<String>,
}

/// One record of the answer.
#[derive(Debug)]
pub struct VmSecurityPolicySetInfo {
    pub vm_name: String,
    pub vm_id: String,
    pub encryption_type: String,
    pub shielding_data_file_path: String,
    pub computer_name: String,
}

/// What the tool answers.
#[derive(Debug)]
pub struct SetVmSecurityPolicyOutput {
    pub policies: Vec<VmSecurityPolicySetInfo>,
}

/// The tool.
#[derive(Default)]
pub struct SetVmSecurityPolicyTool;

impl FromJson for VmSecurityPolicySetInfo {
    open spec fn describes(&self, item: JsonValue) -> bool {
        &&& self.vm_name@ == item.text_or_empty("VMName"@)
        &&& self.vm_id@ == item.text_or_empty("VMId"@)
        &&& self.encryption_type@ == item.text_or_empty("EncryptionType"@)
        &&& self.shielding_data_file_path@ == item.text_or_empty("ShieldingDataFilePath"@)
        &&& self.computer_name@ == item.text_or_empty("ComputerName"@)
    }

    fn from_json(item: &JsonValue) -> (r: Self) {
        VmSecurityPolicySetInfo {
            vm_name: item.text_or_empty_at("VMName"),
            vm_id: item.text_or_empty_at("VMId"),
            encryption_type: item.text_or_empty_at("EncryptionType"),
            shielding_data_file_path: item.text_or_empty_at("ShieldingDataFilePath"),
            computer_name: item.text_or_empty_at("ComputerName"),
        }
    }
}

impl SetVmSecurityPolicyTool {
    /// The first problem with the request, as the message that reports it.
    pub open spec fn input_problem(input: SetVmSecurityPolicyInput) -> Option<Seq<char>> {
        if is_blank(input.vm_name@) {
            Some("vm_name must not be empty"@)
        } else if input.encryption_type matches Some(s) && is_blank(s@) {
            Some("encryption_type must not be empty when provided"@)
        } else if input.shielding_data_file_path matches Some(s) && is_blank(s@) {
            Some("shielding_data_file_path must not be empty when provided"@)
        } else if input.computer_name matches Some(s) && is_blank(s@) {
            Some("computer_name must not be empty when provided"@)
        } else {
            None
        }
    }

    /// The arguments of the cmdlet.
    pub open spec fn command_args(input: SetVmSecurityPolicyInput) -> Seq<Seq<char>> {
        seq!["Set-VMSecurityPolicy"@, quoted_arg("-VMName"@, input.vm_name@)]
            + opt_quoted("-EncryptionType"@, input.encryption_type)
            + opt_quoted("-ShieldingDataFilePath"@, input.shielding_data_file_path)
            + opt_quoted("-ComputerName"@, input.computer_name)
    }

    /// The script that runs for a valid request.
    pub open spec fn script(input: SetVmSecurityPolicyInput) -> Seq<char> {
        join(Self::command_args(input), seq![' ']) + SELECT@
    }

    /// Checks the request and builds its script.
    pub fn build_script(input: &SetVmSecurityPolicyInput) -> (r: Result<String, ToolError>)
        ensures
            script_outcome(r, Self::input_problem(*input), Self::script(*input)),
    {
        if text_is_blank(input.vm_name.as_str()) {
            return Err(invalid_input("vm_name must not be empty"));
        }
        if option_is_blank(&input.encryption_type) {
            return Err(invalid_input("encryption_type must not be empty when provided"));
        }
        if option_is_blank(&input.shielding_data_file_path) {
            return Err(invalid_input(
                "shielding_data_file_path must not be empty when provided",
            ));
        }
        if option_is_blank(&input.computer_name) {
            return Err(invalid_input("computer_name must not be empty when provided"));
        }
        let mut args = ArgList::new("Set-VMSecurityPolicy");
        args.push_quoted("-VMName", input.vm_name.as_str());
        args.push_opt_quoted("-EncryptionType", &input.encryption_type);
        args.push_opt_quoted("-ShieldingDataFilePath", &input.shielding_data_file_path);
        args.push_opt_quoted("-ComputerName", &input.computer_name);
        assert(args@ === Self::command_args(*input));
        Ok(args.to_command_with(SELECT))
    }

    /// Reads the answer from what the script printed: one entry per record.
    pub fn parse_output(raw: JsonValue) -> (r: SetVmSecurityPolicyOutput)
        ensures
            describes_all(r.policies@, raw.records()),
    {
        SetVmSecurityPolicyOutput { policies: decode_records(raw) }
    }

    /// Reads the answer from the text the script printed; blank text reads as
    /// an empty list, and text that is not JSON is a `Json` error.
    pub fn read_output(printed: &str) -> (r: Result<SetVmSecurityPolicyOutput, ToolError>)
        ensures
            match parsed_json(effective_output(printed@)) {
                Some(raw) => r matches Ok(out) && describes_all(out.policies@, raw.records()),
                None => r matches Err(ToolError::Json(_)),
            },
    {
        match read_printed(printed) {
            Ok(raw) => Ok(Self::parse_output(raw)),
            Err(e) => Err(e),
        }
    }

    /// Every value of a valid request reaches the script that `build_script`
    /// returns under its own flag: each flag below stands in the script
    /// followed by the value of the field of the same name.
    pub proof fn lemma_script_carries_each_value(input: SetVmSecurityPolicyInput)
        requires
            Self::input_problem(input) is None,
        ensures
            holds(Self::script(input), quoted_arg("-VMName"@, input.vm_name@)),
            input.encryption_type matches Some(v) ==> holds(
                Self::script(input),
                quoted_arg("-EncryptionType"@, v@),
            ),
            input.shielding_data_file_path matches Some(v) ==> holds(
                Self::script(input),
                quoted_arg("-ShieldingDataFilePath"@, v@),
            ),
            input.computer_name matches Some(v) ==> holds(
                Self::script(input),
                quoted_arg("-ComputerName"@, v@),
            ),
    {
        Self::script_carries_vm_name(input);
        Self::script_carries_encryption_type(input);
        Self::script_carries_shielding_data_file_path(input);
        Self::script_carries_computer_name(input);
    }

    proof fn script_carries_vm_name(input: SetVmSecurityPolicyInput)
        ensures
            holds(Self::script(input), quoted_arg("-VMName"@, input.vm_name@)),
    {
        broadcast use lemma_add_contains, lemma_push_contains;

        let args = Self::command_args(input);
        let tail = SELECT@;
        lemma_script_holds_argument(args, tail, quoted_arg("-VMName"@, input.vm_name@));
    }

    proof fn script_carries_encryption_type(input: SetVmSecurityPolicyInput)
        ensures
            input.encryption_type matches Some(v) ==> holds(
                Self::script(input),
                quoted_arg("-EncryptionType"@, v@),
            ),
    {
        broadcast use lemma_add_contains, lemma_push_contains;

        let args = Self::command_args(input);
        let tail = SELECT@;
        if let Some(v) = input.encryption_type {
            lemma_script_holds_argument(args, tail, quoted_arg("-EncryptionType"@, v@));
        }
    }

    proof fn script_carries_shielding_data_file_path(input: SetVmSecurityPolicyInput)
        ensures
            input.shielding_data_file_path matches Some(v) ==> holds(
                Self::script(input),
                quoted_arg("-ShieldingDataFilePath"@, v@),
            ),
    {
        broadcast use lemma_add_contains, lemma_push_contains;

        let args = Self::command_args(input);
        let tail = SELECT@;
        if let Some(v) = input.shielding_data_file_path {
            lemma_script_holds_argument(args, tail, quoted_arg("-ShieldingDataFilePath"@, v@));
        }
    }

    proof fn script_carries_computer_name(input: SetVmSecurityPolicyInput)
        ensures
            input.computer_name matches Some(v) ==> holds(
                Self::script(input),
                quoted_arg("-ComputerName"@, v@),
            ),
    {
        broadcast use lemma_add_contains, lemma_push_contains;

        let args = Self::command_args(input);
        let tail = SELECT@;
        if let Some(v) = input.computer_name {
            lemma_script_holds_argument(args, tail, quoted_arg("-ComputerName"@, v@));
        }
    }

    /// Each entry of the answer reads the printed record at its place: every
    /// field holds the record's member of the matching name.
    pub proof fn lemma_answer_reads_each_record(raw: JsonValue, out: SetVmSecurityPolicyOutput)
        requires
            describes_all(out.policies@, raw.records()),
        ensures
            out.policies@.len() == raw.records().len(),
            forall|i: int|
                #![trigger out.policies@[i]]
                0 <= i < raw.records().len() ==> {
                    &&& out.policies@[i].vm_name@ == raw.records()[i].text_or_empty("VMName"@)
                    &&& out.policies@[i].vm_id@ == raw.records()[i].text_or_empty("VMId"@)
                    &&& out.policies@[i].encryption_type@
                        == raw.records()[i].text_or_empty("EncryptionType"@)
                    &&& out.policies@[i].shielding_data_file_path@
                        == raw.records()[i].text_or_empty("ShieldingDataFilePath"@)
                    &&& out.policies@[i].computer_name@
                        == raw.records()[i].text_or_empty("ComputerName"@)
                },
    {
        assert forall|i: int| 0 <= i < raw.records().len() implies {
            &&& out.policies@[i].vm_name@ == raw.records()[i].text_or_empty("VMName"@)
            &&& out.policies@[i].vm_id@ == raw.records()[i].text_or_empty("VMId"@)
            &&& out.policies@[i].encryption_type@
                == raw.records()[i].text_or_empty("EncryptionType"@)
            &&& out.policies@[i].shielding_data_file_path@
                == raw.records()[i].text_or_empty("ShieldingDataFilePath"@)
            &&& out.policies@[i].computer_name@ == raw.records()[i].text_or_empty("ComputerName"@)
        } by {
            assert(out.policies@[i].describes(raw.records()[i]));
        }
    }

    /// A request is valid only when it passes every check: none of the
    /// conditions that refuse a request holds of it.
    pub proof fn lemma_valid_request_passes_every_check(input: SetVmSecurityPolicyInput)
        requires
            Self::input_problem(input) is None,
        ensures
            !(is_blank(input.vm_name@)),
            !(input.encryption_type matches Some(s) && is_blank(s@)),
            !(input.shielding_data_file_path matches Some(s) && is_blank(s@)),
            !(input.computer_name matches Some(s) && is_blank(s@)),
    {
    }
}

} // verus!
