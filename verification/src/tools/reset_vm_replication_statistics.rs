//! `hyperv_reset_vm_replication_statistics`: resets the replication statistics of a virtual machine.
use vstd::prelude::*;
use crate::command::{
    holds, join, lemma_add_contains, lemma_push_contains, lemma_script_holds_argument, opt_quoted,
    quoted_arg, ArgList,
};
use crate::error::{invalid_input, script_outcome, ToolError};
use crate::json::{
    decode_records, describes_all, effective_output, parsed_json, read_printed, FromJson, JsonValue,
};
use crate::text::{is_blank, option_is_blank};

verus! {

/// The tool's name.
pub const NAME: &'static str = "hyperv_reset_vm_replication_statistics";

/// What the tool does.
pub const DESCRIPTION: &'static str = "Resets the replication statistics of a virtual machine.";

/// What the script runs after the cmdlet: the fields it prints, as JSON.
pub const SELECT: &'static str = " | Select-Object VMName, @{N='State';E={$_.State.ToString()}}, @{N='Health';E={$_.Health.ToString()}}, @{N='Mode';E={$_.Mode.ToString()}}, FrequencySec, PrimaryServerName, ReplicaServerName, ReplicaServerPort, @{N='AuthenticationType';E={$_.AuthenticationType.ToString()}} | ConvertTo-Json -Compress -Depth 3";

/// What the tool is asked.
#[derive(Debug)]
pub struct ResetVmReplicationStatisticsInput {
    /// Name of the virtual machine whose replication statistics are to be reset.
    pub name: Option<String>,
    /// Hyper-V host to target. Defaults to localhost.
    pub computer_name: Option<String>,
}

/// One record of the answer.
#[derive(Debug)]
pub struct VmReplicationInfo {
    pub vm_name: String,
    pub state: String,
    pub health: String,
    pub mode: String,
    pub frequency_sec: i32,
    pub primary_server_name: String,
    pub replica_server_name: String,
    pub replica_server_port: i32,
    pub authentication_type: String,
}

/// What the tool answers.
#[derive(Debug)]
pub struct ResetVmReplicationStatisticsOutput {
    pub replication: Vec<VmReplicationInfo>,
}

/// The tool.
#[derive(Default)]
pub struct ResetVmReplicationStatisticsTool;

impl FromJson for VmReplicationInfo {
    open spec fn describes(&self, item: JsonValue) -> bool {
        &&& self.vm_name@ == item.text_or_empty("VMName"@)
        &&& self.state@ == item.text_or_empty("State"@)
        &&& self.health@ == item.text_or_empty("Health"@)
        &&& self.mode@ == item.text_or_empty("Mode"@)
        &&& self.frequency_sec == item.i64_or_zero("FrequencySec"@) as i32
        &&& self.primary_server_name@ == item.text_or_empty("PrimaryServerName"@)
        &&& self.replica_server_name@ == item.text_or_empty("ReplicaServerName"@)
        &&& self.replica_server_port == item.i64_or_zero("ReplicaServerPort"@) as i32
        &&& self.authentication_type@ == item.text_or_empty("AuthenticationType"@)
    }

    fn from_json(item: &JsonValue) -> (r: Self) {
        VmReplicationInfo {
            vm_name: item.text_or_empty_at("VMName"),
            state: item.text_or_empty_at("State"),
            health: item.text_or_empty_at("Health"),
            mode: item.text_or_empty_at("Mode"),
            frequency_sec: item.i64_or_zero_at("FrequencySec") as i32,
            primary_server_name: item.text_or_empty_at("PrimaryServerName"),
            replica_server_name: item.text_or_empty_at("ReplicaServerName"),
            replica_server_port: item.i64_or_zero_at("ReplicaServerPort") as i32,
            authentication_type: item.text_or_empty_at("AuthenticationType"),
        }
    }
}

impl ResetVmReplicationStatisticsTool {
    /// The first problem with the request, as the message that reports it.
    pub open spec fn input_problem(input: ResetVmReplicationStatisticsInput) -> Option<Seq<char>> {
        if input.name is None {
            Some("name is required"@)
        } else if input.name matches Some(s) && is_blank(s@) {
            Some("VM name must not be empty"@)
        } else {
            None
        }
    }

    /// The arguments of the cmdlet.
    pub open spec fn command_args(input: ResetVmReplicationStatisticsInput) -> Seq<Seq<char>> {
        seq!["Reset-VMReplicationStatistics"@]
            + opt_quoted("-VMName"@, input.name)
            + opt_quoted("-ComputerName"@, input.computer_name)
            + seq!["-Passthru"@]
    }

    /// The script that runs for a valid request.
    pub open spec fn script(input: ResetVmReplicationStatisticsInput) -> Seq<char> {
        join(Self::command_args(input), seq![' ']) + SELECT@
    }

    /// Checks the request and builds its script.
    pub fn build_script(input: &ResetVmReplicationStatisticsInput) -> (r: Result<String, ToolError>)
        ensures
            script_outcome(r, Self::input_problem(*input), Self::script(*input)),
    {
        if input.name.is_none() {
            return Err(invalid_input("name is required"));
        }
        if option_is_blank(&input.name) {
            return Err(invalid_input("VM name must not be empty"));
        }
        let mut args = ArgList::new("Reset-VMReplicationStatistics");
        args.push_opt_quoted("-VMName", &input.name);
        args.push_opt_quoted("-ComputerName", &input.computer_name);
        args.push_literal("-Passthru");
        assert(args@ === Self::command_args(*input));
        Ok(args.to_command_with(SELECT))
    }

    /// Reads the answer from what the script printed: one entry per record.
    pub fn parse_output(raw: JsonValue) -> (r: ResetVmReplicationStatisticsOutput)
        ensures
            describes_all(r.replication@, raw.records()),
    {
        ResetVmReplicationStatisticsOutput { replication: decode_records(raw) }
    }

    /// Reads the answer from the text the script printed; blank text reads as
    /// an empty list, and text that is not JSON is a `Json` error.
    pub fn read_output(printed: &str) -> (r: Result<ResetVmReplicationStatisticsOutput, ToolError>)
        ensures
            match parsed_json(effective_output(printed@)) {
                Some(raw) => r matches Ok(out) && describes_all(out.replication@, raw.records()),
                None => r matches Err(ToolError::Json(_)),
            },
    {
        match read_printed(printed) {
            Ok(raw) => Ok(Self::parse_output(raw)),
            Err(e) => Err(e),
        }
    }

    /// Every value of a valid request reaches the script that `build_script`
    /// returns under its own flag: each flag below stands in the script
    /// followed by the value of the field of the same name.
    pub proof fn lemma_script_carries_each_value(input: ResetVmReplicationStatisticsInput)
        requires
            Self::input_problem(input) is None,
        ensures
            input.name matches Some(v) ==> holds(Self::script(input), quoted_arg("-VMName"@, v@)),
            input.computer_name matches Some(v) ==> holds(
                Self::script(input),
                quoted_arg("-ComputerName"@, v@),
            ),
    {
        Self::script_carries_name(input);
        Self::script_carries_computer_name(input);
    }

    proof fn script_carries_name(input: ResetVmReplicationStatisticsInput)
        ensures
            input.name matches Some(v) ==> holds(Self::script(input), quoted_arg("-VMName"@, v@)),
    {
        broadcast use lemma_add_contains, lemma_push_contains;

        let args = Self::command_args(input);
        let tail = SELECT@;
        if let Some(v) = input.name {
            lemma_script_holds_argument(args, tail, quoted_arg("-VMName"@, v@));
        }
    }

    proof fn script_carries_computer_name(input: ResetVmReplicationStatisticsInput)
        ensures
            input.computer_name matches Some(v) ==> holds(
                Self::script(input),
                quoted_arg("-ComputerName"@, v@),
            ),
    {
        broadcast use lemma_add_contains, lemma_push_contains;

        let args = Self::command_args(input);
        let tail = SELECT@;
        if let Some(v) = input.computer_name {
            lemma_script_holds_argument(args, tail, quoted_arg("-ComputerName"@, v@));
        }
    }

    /// Each entry of the answer reads the printed record at its place: every
    /// field holds the record's member of the matching name.
    pub proof fn lemma_answer_reads_each_record(
        raw: JsonValue,
        out: ResetVmReplicationStatisticsOutput,
    )
        requires
            describes_all(out.replication@, raw.records()),
        ensures
            out.replication@.len() == raw.records().len(),
            forall|i: int|
                #![trigger out.replication@[i]]
                0 <= i < raw.records().len() ==> {
                    &&& out.replication@[i].vm_name@ == raw.records()[i].text_or_empty("VMName"@)
                    &&& out.replication@[i].state@ == raw.records()[i].text_or_empty("State"@)
                    &&& out.replication@[i].health@ == raw.records()[i].text_or_empty("Health"@)
                    &&& out.replication@[i].mode@ == raw.records()[i].text_or_empty("Mode"@)
                    &&& out.replication@[i].frequency_sec
                        == raw.records()[i].i64_or_zero("FrequencySec"@) as i32
                    &&& out.replication@[i].primary_server_name@
                        == raw.records()[i].text_or_empty("PrimaryServerName"@)
                    &&& out.replication@[i].replica_server_name@
                        == raw.records()[i].text_or_empty("ReplicaServerName"@)
                    &&& out.replication@[i].replica_server_port
                        == raw.records()[i].i64_or_zero("ReplicaServerPort"@) as i32
                    &&& out.replication@[i].authentication_type@
                        == raw.records()[i].text_or_empty("AuthenticationType"@)
                },
    {
        assert forall|i: int| 0 <= i < raw.records().len() implies {
            &&& out.replication@[i].vm_name@ == raw.records()[i].text_or_empty("VMName"@)
            &&& out.replication@[i].state@ == raw.records()[i].text_or_empty("State"@)
            &&& out.replication@[i].health@ == raw.records()[i].text_or_empty("Health"@)
            &&& out.replication@[i].mode@ == raw.records()[i].text_or_empty("Mode"@)
            &&& out.replication@[i].frequency_sec
                == raw.records()[i].i64_or_zero("FrequencySec"@) as i32
            &&& out.replication@[i].primary_server_name@
                == raw.records()[i].text_or_empty("PrimaryServerName"@)
            &&& out.replication@[i].replica_server_name@
                == raw.records()[i].text_or_empty("ReplicaServerName"@)
            &&& out.replication@[i].replica_server_port
                == raw.records()[i].i64_or_zero("ReplicaServerPort"@) as i32
            &&& out.replication@[i].authentication_type@
                == raw.records()[i].text_or_empty("AuthenticationType"@)
        } by {
            assert(out.replication@[i].describes(raw.records()[i]));
        }
    }

    /// A request is valid only when it passes every check: none of the
    /// conditions that refuse a request holds of it.
    pub proof fn lemma_valid_request_passes_every_check(input: ResetVmReplicationStatisticsInput)
        requires
            Self::input_problem(input) is None,
        ensures
            !(input.name is None),
            !(input.name matches Some(s) && is_blank(s@)),
    {
    }
}

} // verus!
