//! `hyperv_remove_vm_migration_network`: removes a network from use with migration.
use vstd::prelude::*;
use crate::command::{
    holds, join, lemma_add_contains, lemma_push_contains, lemma_script_holds_argument, opt_quoted,
    quoted_arg, ArgList,
};
use crate::error::{invalid_input, script_outcome, ToolError};
use crate::json::{
    decode_records, describes_all, effective_output, parsed_json, read_printed, FromJson, JsonValue,
};
use crate::text::{is_blank, option_is_blank, text_is_blank};

verus! {

/// The tool's name.
pub const NAME: &'static str = "hyperv_remove_vm_migration_network";

/// What the tool does.
pub const DESCRIPTION: &'static str = "Removes a network from use with migration.";

/// What the script runs after the cmdlet: the fields it prints, as JSON.
pub const SELECT: &'static str = " | Select-Object ComputerName, Subnet, Priority, Metric, IsDeleted | ConvertTo-Json -Compress -Depth 3";

/// What the tool is asked.
#[derive(Debug)]
pub struct RemoveVmMigrationNetworkInput {
    /// Subnet of the migration network to remove, in CIDR notation (e.g. 192.168.1.0/24).
    pub subnet: String,
    /// Hyper-V host to target. Defaults to localhost.
    pub computer_name: Option<String>,
}

/// One record of the answer.
#[derive(Debug)]
pub struct RemovedMigrationNetworkInfo {
    pub computer_name: String,
    pub subnet: String,
    pub priority: u32,
    pub metric: u32,
    pub is_deleted: bool,
}

/// What the tool answers.
#[derive(Debug)]
pub struct RemoveVmMigrationNetworkOutput {
    /// Migration networks that were removed.
    pub removed: Vec<RemovedMigrationNetworkInfo>,
}

/// The tool.
#[derive(Default)]
pub struct RemoveVmMigrationNetworkTool;

impl FromJson for RemovedMigrationNetworkInfo {
    open spec fn describes(&self, item: JsonValue) -> bool {
        &&& self.computer_name@ == item.text_or_empty("ComputerName"@)
        &&& self.subnet@ == item.text_or_empty("Subnet"@)
        &&& self.priority == item.u64_or_zero("Priority"@) as u32
        &&& self.metric == item.u64_or_zero("Metric"@) as u32
        &&& self.is_deleted == item.flag_or_false("IsDeleted"@)
    }

    fn from_json(item: &JsonValue) -> (r: Self) {
        RemovedMigrationNetworkInfo {
            computer_name: item.text_or_empty_at("ComputerName"),
            subnet: item.text_or_empty_at("Subnet"),
            priority: item.u64_or_zero_at("Priority") as u32,
            metric: item.u64_or_zero_at("Metric") as u32,
            is_deleted: item.flag_or_false_at("IsDeleted"),
        }
    }
}

impl RemoveVmMigrationNetworkTool {
    /// The first problem with the request, as the message that reports it.
    pub open spec fn input_problem(input: RemoveVmMigrationNetworkInput) -> Option<Seq<char>> {
        if is_blank(input.subnet@) {
            Some("subnet must not be empty"@)
        } else if input.computer_name matches Some(s) && is_blank(s@) {
            Some("computerName must not be empty"@)
        } else {
            None
        }
    }

    /// The arguments of the cmdlet.
    pub open spec fn command_args(input: RemoveVmMigrationNetworkInput) -> Seq<Seq<char>> {
        seq!["Remove-VMMigrationNetwork"@, quoted_arg("-Subnet"@, input.subnet@)]
            + opt_quoted("-ComputerName"@, input.computer_name)
            + seq!["-PassThru"@]
            + seq!["-Confirm:$false"@]
    }

    /// The script that runs for a valid request.
    pub open spec fn script(input: RemoveVmMigrationNetworkInput) -> Seq<char> {
        join(Self::command_args(input), seq![' ']) + SELECT@
    }

    /// Checks the request and builds its script.
    pub fn build_script(input: &RemoveVmMigrationNetworkInput) -> (r: Result<String, ToolError>)
        ensures
            script_outcome(r, Self::input_problem(*input), Self::script(*input)),
    {
        if text_is_blank(input.subnet.as_str()) {
            return Err(invalid_input("subnet must not be empty"));
        }
        if option_is_blank(&input.computer_name) {
            return Err(invalid_input("computerName must not be empty"));
        }
        let mut args = ArgList::new("Remove-VMMigrationNetwork");
        args.push_quoted("-Subnet", input.subnet.as_str());
        args.push_opt_quoted("-ComputerName", &input.computer_name);
        args.push_literal("-PassThru");
        args.push_literal("-Confirm:$false");
        assert(args@ === Self::command_args(*input));
        Ok(args.to_command_with(SELECT))
    }

    /// Reads the answer from what the script printed: one entry per record.
    pub fn parse_output(raw: JsonValue) -> (r: RemoveVmMigrationNetworkOutput)
        ensures
            describes_all(r.removed@, raw.records()),
    {
        RemoveVmMigrationNetworkOutput { removed: decode_records(raw) }
    }

    /// Reads the answer from the text the script printed; blank text reads as
    /// an empty list, and text that is not JSON is a `Json` error.
    pub fn read_output(printed: &str) -> (r: Result<RemoveVmMigrationNetworkOutput, ToolError>)
        ensures
            match parsed_json(effective_output(printed@)) {
                Some(raw) => r matches Ok(out) && describes_all(out.removed@, raw.records()),
                None => r matches Err(ToolError::Json(_)),
            },
    {
        match read_printed(printed) {
            Ok(raw) => Ok(Self::parse_output(raw)),
            Err(e) => Err(e),
        }
    }

    /// Every value of a valid request reaches the script that `build_script`
    /// returns under its own flag: each flag below stands in the script
    /// followed by the value of the field of the same name.
    pub proof fn lemma_script_carries_each_value(input: RemoveVmMigrationNetworkInput)
        requires
            Self::input_problem(input) is None,
        ensures
            holds(Self::script(input), quoted_arg("-Subnet"@, input.subnet@)),
            input.computer_name matches Some(v) ==> holds(
                Self::script(input),
                quoted_arg("-ComputerName"@, v@),
            ),
    {
        Self::script_carries_subnet(input);
        Self::script_carries_computer_name(input);
    }

    proof fn script_carries_subnet(input: RemoveVmMigrationNetworkInput)
        ensures
            holds(Self::script(input), quoted_arg("-Subnet"@, input.subnet@)),
    {
        broadcast use lemma_add_contains, lemma_push_contains;

        let args = Self::command_args(input);
        let tail = SELECT@;
        lemma_script_holds_argument(args, tail, quoted_arg("-Subnet"@, input.subnet@));
    }

    proof fn script_carries_computer_name(input: RemoveVmMigrationNetworkInput)
        ensures
            input.computer_name matches Some(v) ==> holds(
                Self::script(input),
                quoted_arg("-ComputerName"@, v@),
            ),
    {
        broadcast use lemma_add_contains, lemma_push_contains;

        let args = Self::command_args(input);
        let tail = SELECT@;
        if let Some(v) = input.computer_name {
            lemma_script_holds_argument(args, tail, quoted_arg("-ComputerName"@, v@));
        }
    }

    /// Each entry of the answer reads the printed record at its place: every
    /// field holds the record's member of the matching name.
    pub proof fn lemma_answer_reads_each_record(raw: JsonValue, out: RemoveVmMigrationNetworkOutput)
        requires
            describes_all(out.removed@, raw.records()),
        ensures
            out.removed@.len() == raw.records().len(),
            forall|i: int|
                #![trigger out.removed@[i]]
                0 <= i < raw.records().len() ==> {
                    &&& out.removed@[i].computer_name@
                        == raw.records()[i].text_or_empty("ComputerName"@)
                    &&& out.removed@[i].subnet@ == raw.records()[i].text_or_empty("Subnet"@)
                    &&& out.removed@[i].priority == raw.records()[i].u64_or_zero("Priority"@) as u32
                    &&& out.removed@[i].metric == raw.records()[i].u64_or_zero("Metric"@) as u32
                    &&& out.removed@[i].is_deleted == raw.records()[i].flag_or_false("IsDeleted"@)
                },
    {
        assert forall|i: int| 0 <= i < raw.records().len() implies {
            &&& out.removed@[i].computer_name@ == raw.records()[i].text_or_empty("ComputerName"@)
            &&& out.removed@[i].subnet@ == raw.records()[i].text_or_empty("Subnet"@)
            &&& out.removed@[i].priority == raw.records()[i].u64_or_zero("Priority"@) as u32
            &&& out.removed@[i].metric == raw.records()[i].u64_or_zero("Metric"@) as u32
            &&& out.removed@[i].is_deleted == raw.records()[i].flag_or_false("IsDeleted"@)
        } by {
            assert(out.removed@[i].describes(raw.records()[i]));
        }
    }

    /// A request is valid only when it passes every check: none of the
    /// conditions that refuse a request holds of it.
    pub proof fn lemma_valid_request_passes_every_check(input: RemoveVmMigrationNetworkInput)
        requires
            Self::input_problem(input) is None,
        ensures
            !(is_blank(input.subnet@)),
            !(input.computer_name matches Some(s) && is_blank(s@)),
    {
    }
}

} // verus!
