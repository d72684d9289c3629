//! `hyperv_resume_vm_replication`: resumes a virtual machine replication that is in a state of Paused, Error, Resynchronization Required, or Suspended.
use vstd::prelude::*;
use crate::command::{
    holds, join, lemma_add_contains, lemma_push_contains, lemma_script_holds_argument, opt_quoted,
    quoted_arg, switch_arg, ArgList,
};
use crate::error::{invalid_input, script_outcome, ToolError};
use crate::json::{
    decode_records, describes_all, effective_output, parsed_json, read_printed, FromJson, JsonValue,
};
use crate::text::{is_blank, text_is_blank};

verus! {

/// The tool's name.
pub const NAME: &'static str = "hyperv_resume_vm_replication";

/// What the tool does.
pub const DESCRIPTION: &'static str = "Resumes a virtual machine replication that is in a state of Paused, Error, Resynchronization Required, or Suspended.";

/// What the script runs after the cmdlet: the fields it prints, as JSON.
pub const SELECT: &'static str = " | Select-Object VMName, ComputerName, PrimaryServerName, ReplicaServerName, @{N='ReplicationState';E={$_.ReplicationState.ToString()}}, @{N='ReplicationHealth';E={$_.ReplicationHealth.ToString()}}, @{N='ReplicationMode';E={$_.ReplicationMode.ToString()}}, @{N='ReplicationRelationshipType';E={$_.ReplicationRelationshipType.ToString()}} | ConvertTo-Json -Compress -Depth 3";

/// What the tool is asked.
#[derive(Debug)]
pub struct ResumeVmReplicationInput {
    /// Name of the virtual machine whose replication to resume.
    pub vm_name: String,
    /// Hyper-V host to target. Defaults to localhost.
    pub computer_name: Option<String>,
    /// Replication relationship type: Simple or Extended.
    pub replication_relationship_type: Option<String>,
    /// Resynchronizes the replica virtual machine.
    pub resynchronize: bool,
}

/// One record of the answer.
#[derive(Debug)]
pub struct VmReplicationInfo {
    pub vm_name: String,
    pub computer_name: String,
    pub primary_server_name: String,
    pub replica_server_name: String,
    pub replication_state: String,
    pub replication_health: String,
    pub replication_mode: String,
    pub replication_relationship_type: String,
}

/// What the tool answers.
#[derive(Debug)]
pub struct ResumeVmReplicationOutput {
    pub replications: Vec<VmReplicationInfo>,
}

/// The tool.
#[derive(Default)]
pub struct ResumeVmReplicationTool;

impl FromJson for VmReplicationInfo {
    open spec fn describes(&self, item: JsonValue) -> bool {
        &&& self.vm_name@ == item.text_or_empty("VMName"@)
        &&& self.computer_name@ == item.text_or_empty("ComputerName"@)
        &&& self.primary_server_name@ == item.text_or_empty("PrimaryServerName"@)
        &&& self.replica_server_name@ == item.text_or_empty("ReplicaServerName"@)
        &&& self.replication_state@ == item.text_or_empty("ReplicationState"@)
        &&& self.replication_health@ == item.text_or_empty("ReplicationHealth"@)
        &&& self.replication_mode@ == item.text_or_empty("ReplicationMode"@)
        &&& self.replication_relationship_type@
            == item.text_or_empty("ReplicationRelationshipType"@)
    }

    fn from_json(item: &JsonValue) -> (r: Self) {
        VmReplicationInfo {
            vm_name: item.text_or_empty_at("VMName"),
            computer_name: item.text_or_empty_at("ComputerName"),
            primary_server_name: item.text_or_empty_at("PrimaryServerName"),
            replica_server_name: item.text_or_empty_at("ReplicaServerName"),
            replication_state: item.text_or_empty_at("ReplicationState"),
            replication_health: item.text_or_empty_at("ReplicationHealth"),
            replication_mode: item.text_or_empty_at("ReplicationMode"),
            replication_relationship_type: item.text_or_empty_at("ReplicationRelationshipType"),
        }
    }
}

impl ResumeVmReplicationTool {
    /// The first problem with the request, as the message that reports it.
    pub open spec fn input_problem(input: ResumeVmReplicationInput) -> Option<Seq<char>> {
        if is_blank(input.vm_name@) {
            Some("VM name must not be empty"@)
        } else {
            None
        }
    }

    /// The arguments of the cmdlet.
    pub open spec fn command_args(input: ResumeVmReplicationInput) -> Seq<Seq<char>> {
        seq!["Resume-VMReplication"@, quoted_arg("-VMName"@, input.vm_name@)]
            + opt_quoted("-ComputerName"@, input.computer_name)
            + opt_quoted("-ReplicationRelationshipType"@, input.replication_relationship_type)
            + switch_arg("-Resynchronize"@, input.resynchronize)
    }

    /// The script that runs for a valid request.
    pub open spec fn script(input: ResumeVmReplicationInput) -> Seq<char> {
        join(Self::command_args(input), seq![' ']) + SELECT@
    }

    /// Checks the request and builds its script.
    pub fn build_script(input: &ResumeVmReplicationInput) -> (r: Result<String, ToolError>)
        ensures
            script_outcome(r, Self::input_problem(*input), Self::script(*input)),
    {
        if text_is_blank(input.vm_name.as_str()) {
            return Err(invalid_input("VM name must not be empty"));
        }
        let mut args = ArgList::new("Resume-VMReplication");
        args.push_quoted("-VMName", input.vm_name.as_str());
        args.push_opt_quoted("-ComputerName", &input.computer_name);
        args.push_opt_quoted("-ReplicationRelationshipType", &input.replication_relationship_type);
        args.push_switch("-Resynchronize", input.resynchronize);
        assert(args@ === Self::command_args(*input));
        Ok(args.to_command_with(SELECT))
    }

    /// Reads the answer from what the script printed: one entry per record.
    pub fn parse_output(raw: JsonValue) -> (r: ResumeVmReplicationOutput)
        ensures
            describes_all(r.replications@, raw.records()),
    {
        ResumeVmReplicationOutput { replications: decode_records(raw) }
    }

    /// Reads the answer from the text the script printed; blank text reads as
    /// an empty list, and text that is not JSON is a `Json` error.
    pub fn read_output(printed: &str) -> (r: Result<ResumeVmReplicationOutput, ToolError>)
        ensures
            match parsed_json(effective_output(printed@)) {
                Some(raw) => r matches Ok(out) && describes_all(out.replications@, raw.records()),
                None => r matches Err(ToolError::Json(_)),
            },
    {
        match read_printed(printed) {
            Ok(raw) => Ok(Self::parse_output(raw)),
            Err(e) => Err(e),
        }
    }

    /// Every value of a valid request reaches the script that `build_script`
    /// returns under its own flag: each flag below stands in the script
    /// followed by the value of the field of the same name.
    pub proof fn lemma_script_carries_each_value(input: ResumeVmReplicationInput)
        requires
            Self::input_problem(input) is None,
        ensures
            holds(Self::script(input), quoted_arg("-VMName"@, input.vm_name@)),
            input.computer_name matches Some(v) ==> holds(
                Self::script(input),
                quoted_arg("-ComputerName"@, v@),
            ),
            input.replication_relationship_type matches Some(v) ==> holds(
                Self::script(input),
                quoted_arg("-ReplicationRelationshipType"@, v@),
            ),
            input.resynchronize ==> holds(Self::script(input), "-Resynchronize"@),
    {
        Self::script_carries_vm_name(input);
        Self::script_carries_computer_name(input);
        Self::script_carries_replication_relationship_type(input);
        Self::script_carries_resynchronize(input);
    }

    proof fn script_carries_vm_name(input: ResumeVmReplicationInput)
        ensures
            holds(Self::script(input), quoted_arg("-VMName"@, input.vm_name@)),
    {
        broadcast use lemma_add_contains, lemma_push_contains;

        let args = Self::command_args(input);
        let tail = SELECT@;
        lemma_script_holds_argument(args, tail, quoted_arg("-VMName"@, input.vm_name@));
    }

    proof fn script_carries_computer_name(input: ResumeVmReplicationInput)
        ensures
            input.computer_name matches Some(v) ==> holds(
                Self::script(input),
                quoted_arg("-ComputerName"@, v@),
            ),
    {
        broadcast use lemma_add_contains, lemma_push_contains;

        let args = Self::command_args(input);
        let tail = SELECT@;
        if let Some(v) = input.computer_name {
            lemma_script_holds_argument(args, tail, quoted_arg("-ComputerName"@, v@));
        }
    }

    proof fn script_carries_replication_relationship_type(input: ResumeVmReplicationInput)
        ensures
            input.replication_relationship_type matches Some(v) ==> holds(
                Self::script(input),
                quoted_arg("-ReplicationRelationshipType"@, v@),
            ),
    {
        broadcast use lemma_add_contains, lemma_push_contains;

        let args = Self::command_args(input);
        let tail = SELECT@;
        if let Some(v) = input.replication_relationship_type {
            lemma_script_holds_argument(
                args,
                tail,
                quoted_arg("-ReplicationRelationshipType"@, v@),
            );
        }
    }

    proof fn script_carries_resynchronize(input: ResumeVmReplicationInput)
        ensures
            input.resynchronize ==> holds(Self::script(input), "-Resynchronize"@),
    {
        broadcast use lemma_add_contains, lemma_push_contains;

        let args = Self::command_args(input);
        let tail = SELECT@;
        if input.resynchronize {
            lemma_script_holds_argument(args, tail, "-Resynchronize"@);
        }
    }

    /// Each entry of the answer reads the printed record at its place: every
    /// field holds the record's member of the matching name.
    pub proof fn lemma_answer_reads_each_record(raw: JsonValue, out: ResumeVmReplicationOutput)
        requires
            describes_all(out.replications@, raw.records()),
        ensures
            out.replications@.len() == raw.records().len(),
            forall|i: int|
                #![trigger out.replications@[i]]
                0 <= i < raw.records().len() ==> {
                    &&& out.replications@[i].vm_name@ == raw.records()[i].text_or_empty("VMName"@)
                    &&& out.replications@[i].computer_name@
                        == raw.records()[i].text_or_empty("ComputerName"@)
                    &&& out.replications@[i].primary_server_name@
                        == raw.records()[i].text_or_empty("PrimaryServerName"@)
                    &&& out.replications@[i].replica_server_name@
                        == raw.records()[i].text_or_empty("ReplicaServerName"@)
                    &&& out.replications@[i].replication_state@
                        == raw.records()[i].text_or_empty("ReplicationState"@)
                    &&& out.replications@[i].replication_health@
                        == raw.records()[i].text_or_empty("ReplicationHealth"@)
                    &&& out.replications@[i].replication_mode@
                        == raw.records()[i].text_or_empty("ReplicationMode"@)
                    &&& out.replications@[i].replication_relationship_type@
                        == raw.records()[i].text_or_empty("ReplicationRelationshipType"@)
                },
    {
        assert forall|i: int| 0 <= i < raw.records().len() implies {
            &&& out.replications@[i].vm_name@ == raw.records()[i].text_or_empty("VMName"@)
            &&& out.replications@[i].computer_name@
                == raw.records()[i].text_or_empty("ComputerName"@)
            &&& out.replications@[i].primary_server_name@
                == raw.records()[i].text_or_empty("PrimaryServerName"@)
            &&& out.replications@[i].replica_server_name@
                == raw.records()[i].text_or_empty("ReplicaServerName"@)
            &&& out.replications@[i].replication_state@
                == raw.records()[i].text_or_empty("ReplicationState"@)
            &&& out.replications@[i].replication_health@
                == raw.records()[i].text_or_empty("ReplicationHealth"@)
            &&& out.replications@[i].replication_mode@
                == raw.records()[i].text_or_empty("ReplicationMode"@)
            &&& out.replications@[i].replication_relationship_type@
                == raw.records()[i].text_or_empty("ReplicationRelationshipType"@)
        } by {
            assert(out.replications@[i].describes(raw.records()[i]));
        }
    }
}

} // verus!
