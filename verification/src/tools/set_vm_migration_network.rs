//! `hyperv_set_vm_migration_network`: sets the subnet, subnet mask, and/or priority of a migration network.
use vstd::prelude::*;
use crate::command::{
    holds, join, lemma_add_contains, lemma_push_contains, lemma_script_holds_argument, number_arg,
    opt_i32, opt_quoted, quoted_arg, ArgList,
};
use crate::error::{invalid_input, script_outcome, ToolError};
use crate::json::{
    decode_records, describes_all, effective_output, parsed_json, read_printed, FromJson, JsonValue,
};
use crate::text::{is_blank, option_is_blank, text_is_blank};

verus! {

/// The tool's name.
pub const NAME: &'static str = "hyperv_set_vm_migration_network";

/// What the tool does.
pub const DESCRIPTION: &'static str = "Sets the subnet, subnet mask, and/or priority of a migration network.";

/// What the script runs after the cmdlet: the fields it prints, as JSON.
pub const SELECT: &'static str = " | Select-Object Subnet, SubnetMask, Priority, ComputerName | ConvertTo-Json -Compress -Depth 3";

/// What the tool is asked.
#[derive(Debug)]
pub struct SetVmMigrationNetworkInput {
    /// Subnet of the migration network to configure (e.g. "192.168.1.0").
    pub subnet: String,
    /// New subnet mask for the migration network (e.g. "255.255.255.0").
    pub subnet_mask: Option<String>,
    /// New priority for the migration network.
    pub priority: Option<i32>,
    /// Hyper-V host to target. Defaults to localhost.
    pub computer_name: Option<String>,
}

/// One record of the answer.
#[derive(Debug)]
pub struct MigrationNetworkInfo {
    pub subnet: String,
    pub subnet_mask: String,
    pub priority: i32,
    pub computer_name: String,
}

/// What the tool answers.
#[derive(Debug)]
pub struct SetVmMigrationNetworkOutput {
    pub networks: Vec<MigrationNetworkInfo>,
}

/// The tool.
#[derive(Default)]
pub struct SetVmMigrationNetworkTool;

impl FromJson for MigrationNetworkInfo {
    open spec fn describes(&self, item: JsonValue) -> bool {
        &&& self.subnet@ == item.text_or_empty("Subnet"@)
        &&& self.subnet_mask@ == item.text_or_empty("SubnetMask"@)
        &&& self.priority == item.i64_or_zero("Priority"@) as i32
        &&& self.computer_name@ == item.text_or_empty("ComputerName"@)
    }

    fn from_json(item: &JsonValue) -> (r: Self) {
        MigrationNetworkInfo {
            subnet: item.text_or_empty_at("Subnet"),
            subnet_mask: item.text_or_empty_at("SubnetMask"),
            priority: item.i64_or_zero_at("Priority") as i32,
            computer_name: item.text_or_empty_at("ComputerName"),
        }
    }
}

impl SetVmMigrationNetworkTool {
    /// The first problem with the request, as the message that reports it.
    pub open spec fn input_problem(input: SetVmMigrationNetworkInput) -> Option<Seq<char>> {
        if is_blank(input.subnet@) {
            Some("Subnet must not be empty"@)
        } else if input.subnet_mask is None && input.priority is None {
            Some("At least one of subnet_mask or priority must be provided"@)
        } else if input.subnet_mask matches Some(s) && is_blank(s@) {
            Some("SubnetMask must not be empty when provided"@)
        } else if input.computer_name matches Some(s) && is_blank(s@) {
            Some("ComputerName must not be empty when provided"@)
        } else {
            None
        }
    }

    /// The arguments of the cmdlet.
    pub open spec fn command_args(input: SetVmMigrationNetworkInput) -> Seq<Seq<char>> {
        seq!["Set-VMMigrationNetwork"@, quoted_arg("-Subnet"@, input.subnet@)]
            + opt_quoted("-SubnetMask"@, input.subnet_mask)
            + opt_i32("-Priority"@, input.priority)
            + opt_quoted("-ComputerName"@, input.computer_name)
    }

    /// The script that runs for a valid request.
    pub open spec fn script(input: SetVmMigrationNetworkInput) -> Seq<char> {
        join(Self::command_args(input), seq![' ']) + SELECT@
    }

    /// Checks the request and builds its script.
    pub fn build_script(input: &SetVmMigrationNetworkInput) -> (r: Result<String, ToolError>)
        ensures
            script_outcome(r, Self::input_problem(*input), Self::script(*input)),
    {
        if text_is_blank(input.subnet.as_str()) {
            return Err(invalid_input("Subnet must not be empty"));
        }
        if input.subnet_mask.is_none() && input.priority.is_none() {
            return Err(invalid_input(
                "At least one of subnet_mask or priority must be provided",
            ));
        }
        if option_is_blank(&input.subnet_mask) {
            return Err(invalid_input("SubnetMask must not be empty when provided"));
        }
        if option_is_blank(&input.computer_name) {
            return Err(invalid_input("ComputerName must not be empty when provided"));
        }
        let mut args = ArgList::new("Set-VMMigrationNetwork");
        args.push_quoted("-Subnet", input.subnet.as_str());
        args.push_opt_quoted("-SubnetMask", &input.subnet_mask);
        args.push_opt_i32("-Priority", input.priority);
        args.push_opt_quoted("-ComputerName", &input.computer_name);
        assert(args@ === Self::command_args(*input));
        Ok(args.to_command_with(SELECT))
    }

    /// Reads the answer from what the script printed: one entry per record.
    pub fn parse_output(raw: JsonValue) -> (r: SetVmMigrationNetworkOutput)
        ensures
            describes_all(r.networks@, raw.records()),
    {
        SetVmMigrationNetworkOutput { networks: decode_records(raw) }
    }

    /// Reads the answer from the text the script printed; blank text reads as
    /// an empty list, and text that is not JSON is a `Json` error.
    pub fn read_output(printed: &str) -> (r: Result<SetVmMigrationNetworkOutput, ToolError>)
        ensures
            match parsed_json(effective_output(printed@)) {
                Some(raw) => r matches Ok(out) && describes_all(out.networks@, raw.records()),
                None => r matches Err(ToolError::Json(_)),
            },
    {
        match read_printed(printed) {
            Ok(raw) => Ok(Self::parse_output(raw)),
            Err(e) => Err(e),
        }
    }

    /// Every value of a valid request reaches the script that `build_script`
    /// returns under its own flag: each flag below stands in the script
    /// followed by the value of the field of the same name.
    pub proof fn lemma_script_carries_each_value(input: SetVmMigrationNetworkInput)
        requires
            Self::input_problem(input) is None,
        ensures
            holds(Self::script(input), quoted_arg("-Subnet"@, input.subnet@)),
            input.subnet_mask matches Some(v) ==> holds(
                Self::script(input),
                quoted_arg("-SubnetMask"@, v@),
            ),
            input.priority matches Some(v) ==> holds(
                Self::script(input),
                number_arg("-Priority"@, v as int),
            ),
            input.computer_name matches Some(v) ==> holds(
                Self::script(input),
                quoted_arg("-ComputerName"@, v@),
            ),
    {
        Self::script_carries_subnet(input);
        Self::script_carries_subnet_mask(input);
        Self::script_carries_priority(input);
        Self::script_carries_computer_name(input);
    }

    proof fn script_carries_subnet(input: SetVmMigrationNetworkInput)
        ensures
            holds(Self::script(input), quoted_arg("-Subnet"@, input.subnet@)),
    {
        broadcast use lemma_add_contains, lemma_push_contains;

        let args = Self::command_args(input);
        let tail = SELECT@;
        lemma_script_holds_argument(args, tail, quoted_arg("-Subnet"@, input.subnet@));
    }

    proof fn script_carries_subnet_mask(input: SetVmMigrationNetworkInput)
        ensures
            input.subnet_mask matches Some(v) ==> holds(
                Self::script(input),
                quoted_arg("-SubnetMask"@, v@),
            ),
    {
        broadcast use lemma_add_contains, lemma_push_contains;

        let args = Self::command_args(input);
        let tail = SELECT@;
        if let Some(v) = input.subnet_mask {
            lemma_script_holds_argument(args, tail, quoted_arg("-SubnetMask"@, v@));
        }
    }

    proof fn script_carries_priority(input: SetVmMigrationNetworkInput)
        ensures
            input.priority matches Some(v) ==> holds(
                Self::script(input),
                number_arg("-Priority"@, v as int),
            ),
    {
        broadcast use lemma_add_contains, lemma_push_contains;

        let args = Self::command_args(input);
        let tail = SELECT@;
        if let Some(v) = input.priority {
            lemma_script_holds_argument(args, tail, number_arg("-Priority"@, v as int));
        }
    }

    proof fn script_carries_computer_name(input: SetVmMigrationNetworkInput)
        ensures
            input.computer_name matches Some(v) ==> holds(
                Self::script(input),
                quoted_arg("-ComputerName"@, v@),
            ),
    {
        broadcast use lemma_add_contains, lemma_push_contains;

        let args = Self::command_args(input);
        let tail = SELECT@;
        if let Some(v) = input.computer_name {
            lemma_script_holds_argument(args, tail, quoted_arg("-ComputerName"@, v@));
        }
    }

    /// Each entry of the answer reads the printed record at its place: every
    /// field holds the record's member of the matching name.
    pub proof fn lemma_answer_reads_each_record(raw: JsonValue, out: SetVmMigrationNetworkOutput)
        requires
            describes_all(out.networks@, raw.records()),
        ensures
            out.networks@.len() == raw.records().len(),
            forall|i: int|
                #![trigger out.networks@[i]]
                0 <= i < raw.records().len() ==> {
                    &&& out.networks@[i].subnet@ == raw.records()[i].text_or_empty("Subnet"@)
                    &&& out.networks@[i].subnet_mask@
                        == raw.records()[i].text_or_empty("SubnetMask"@)
                    &&& out.networks@[i].priority
                        == raw.records()[i].i64_or_zero("Priority"@) as i32
                    &&& out.networks@[i].computer_name@
                        == raw.records()[i].text_or_empty("ComputerName"@)
                },
    {
        assert forall|i: int| 0 <= i < raw.records().len() implies {
            &&& out.networks@[i].subnet@ == raw.records()[i].text_or_empty("Subnet"@)
            &&& out.networks@[i].subnet_mask@ == raw.records()[i].text_or_empty("SubnetMask"@)
            &&& out.networks@[i].priority == raw.records()[i].i64_or_zero("Priority"@) as i32
            &&& out.networks@[i].computer_name@ == raw.records()[i].text_or_empty("ComputerName"@)
        } by {
            assert(out.networks@[i].describes(raw.records()[i]));
        }
    }

    /// A request is valid only when it passes every check: none of the
    /// conditions that refuse a request holds of it.
    pub proof fn lemma_valid_request_passes_every_check(input: SetVmMigrationNetworkInput)
        requires
            Self::input_problem(input) is None,
        ensures
            !(is_blank(input.subnet@)),
            !(input.subnet_mask is None && input.priority is None),
            !(input.subnet_mask matches Some(s) && is_blank(s@)),
            !(input.computer_name matches Some(s) && is_blank(s@)),
    {
    }
}

} // verus!
