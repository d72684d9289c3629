//! `hyperv_set_vm_replication_authorization_entry`: modifies an authorization entry on a Replica server.
use vstd::prelude::*;
use crate::command::{
    holds, join, lemma_add_contains, lemma_push_contains, lemma_script_holds_argument, opt_quoted,
    quoted_arg, ArgList,
};
use crate::error::{invalid_input, script_outcome, ToolError};
use crate::json::{
    decode_records, describes_all, effective_output, parsed_json, read_printed, FromJson, JsonValue,
};
use crate::text::{is_blank, option_is_blank, text_is_blank};

verus! {

/// The tool's name.
pub const NAME: &'static str = "hyperv_set_vm_replication_authorization_entry";

/// What the tool does.
pub const DESCRIPTION: &'static str = "Modifies an authorization entry on a Replica server.";

/// What the script runs after the cmdlet: the fields it prints, as JSON.
pub const SELECT: &'static str = " | Select-Object AllowedPrimaryServer, ReplicaStorageLocation, TrustGroup | ConvertTo-Json -Compress -Depth 3";

/// What the tool is asked.
#[derive(Debug)]
pub struct SetVmReplicationAuthorizationEntryInput {
    /// The fully qualified domain name (FQDN) or NetBIOS name of the primary server whose
    /// authorization entry is to be modified.
    pub allowed_primary_server: String,
    /// Hyper-V host on which to modify the authorization entry. Defaults to localhost.
    pub computer_name: Option<String>,
    /// New location for storing replication data on the Replica server.
    pub replica_storage_location: Option<String>,
    /// New trust group tag for the authorization entry.
    pub trust_group: Option<String>,
}

/// One record of the answer.
#[derive(Debug)]
pub struct VmReplicationAuthorizationEntryInfo {
    pub allowed_primary_server: String,
    pub replica_storage_location: String,
    pub trust_group: String,
}

/// What the tool answers.
#[derive(Debug)]
pub struct SetVmReplicationAuthorizationEntryOutput {
    pub entries: Vec<VmReplicationAuthorizationEntryInfo>,
}

/// The tool.
#[derive(Default)]
pub struct SetVmReplicationAuthorizationEntryTool;

impl FromJson for VmReplicationAuthorizationEntryInfo {
    open spec fn describes(&self, item: JsonValue) -> bool {
        &&& self.allowed_primary_server@ == item.text_or_empty("AllowedPrimaryServer"@)
        &&& self.replica_storage_location@ == item.text_or_empty("ReplicaStorageLocation"@)
        &&& self.trust_group@ == item.text_or_empty("TrustGroup"@)
    }

    fn from_json(item: &JsonValue) -> (r: Self) {
        VmReplicationAuthorizationEntryInfo {
            allowed_primary_server: item.text_or_empty_at("AllowedPrimaryServer"),
            replica_storage_location: item.text_or_empty_at("ReplicaStorageLocation"),
            trust_group: item.text_or_empty_at("TrustGroup"),
        }
    }
}

impl SetVmReplicationAuthorizationEntryTool {
    /// The first problem with the request, as the message that reports it.
    pub open spec fn input_problem(
        input: SetVmReplicationAuthorizationEntryInput,
    ) -> Option<Seq<char>> {
        if is_blank(input.allowed_primary_server@) {
            Some("AllowedPrimaryServer must not be empty"@)
        } else if input.computer_name matches Some(s) && is_blank(s@) {
            Some("ComputerName must not be empty when provided"@)
        } else {
            None
        }
    }

    /// The arguments of the cmdlet.
    pub open spec fn command_args(
        input: SetVmReplicationAuthorizationEntryInput,
    ) -> Seq<Seq<char>> {
        seq![
            "Set-VMReplicationAuthorizationEntry"@,
            quoted_arg("-AllowedPrimaryServer"@, input.allowed_primary_server@),
        ]
            + opt_quoted("-ComputerName"@, input.computer_name)
            + opt_quoted("-ReplicaStorageLocation"@, input.replica_storage_location)
            + opt_quoted("-TrustGroup"@, input.trust_group)
            + seq!["-PassThru"@]
    }

    /// The script that runs for a valid request.
    pub open spec fn script(input: SetVmReplicationAuthorizationEntryInput) -> Seq<char> {
        join(Self::command_args(input), seq![' ']) + SELECT@
    }

    /// Checks the request and builds its script.
    pub fn build_script(
        input: &SetVmReplicationAuthorizationEntryInput,
    ) -> (r: Result<String, ToolError>)
        ensures
            script_outcome(r, Self::input_problem(*input), Self::script(*input)),
    {
        if text_is_blank(input.allowed_primary_server.as_str()) {
            return Err(invalid_input("AllowedPrimaryServer must not be empty"));
        }
        if option_is_blank(&input.computer_name) {
            return Err(invalid_input("ComputerName must not be empty when provided"));
        }
        let mut args = ArgList::new("Set-VMReplicationAuthorizationEntry");
        args.push_quoted("-AllowedPrimaryServer", input.allowed_primary_server.as_str());
        args.push_opt_quoted("-ComputerName", &input.computer_name);
        args.push_opt_quoted("-ReplicaStorageLocation", &input.replica_storage_location);
        args.push_opt_quoted("-TrustGroup", &input.trust_group);
        args.push_literal("-PassThru");
        assert(args@ === Self::command_args(*input));
        Ok(args.to_command_with(SELECT))
    }

    /// Reads the answer from what the script printed: one entry per record.
    pub fn parse_output(raw: JsonValue) -> (r: SetVmReplicationAuthorizationEntryOutput)
        ensures
            describes_all(r.entries@, raw.records()),
    {
        SetVmReplicationAuthorizationEntryOutput { entries: decode_records(raw) }
    }

    /// Reads the answer from the text the script printed; blank text reads as
    /// an empty list, and text that is not JSON is a `Json` error.
    pub fn read_output(printed: &str) -> (r: Result<SetVmReplicationAuthorizationEntryOutput, ToolError>)
        ensures
            match parsed_json(effective_output(printed@)) {
                Some(raw) => r matches Ok(out) && describes_all(out.entries@, raw.records()),
                None => r matches Err(ToolError::Json(_)),
            },
    {
        match read_printed(printed) {
            Ok(raw) => Ok(Self::parse_output(raw)),
            Err(e) => Err(e),
        }
    }

    /// Every value of a valid request reaches the script that `build_script`
    /// returns under its own flag: each flag below stands in the script
    /// followed by the value of the field of the same name.
    pub proof fn lemma_script_carries_each_value(input: SetVmReplicationAuthorizationEntryInput)
        requires
            Self::input_problem(input) is None,
        ensures
            holds(
                Self::script(input),
                quoted_arg("-AllowedPrimaryServer"@, input.allowed_primary_server@),
            ),
            input.computer_name matches Some(v) ==> holds(
                Self::script(input),
                quoted_arg("-ComputerName"@, v@),
            ),
            input.replica_storage_location matches Some(v) ==> holds(
                Self::script(input),
                quoted_arg("-ReplicaStorageLocation"@, v@),
            ),
            input.trust_group matches Some(v) ==> holds(
                Self::script(input),
                quoted_arg("-TrustGroup"@, v@),
            ),
    {
        Self::script_carries_allowed_primary_server(input);
        Self::script_carries_computer_name(input);
        Self::script_carries_replica_storage_location(input);
        Self::script_carries_trust_group(input);
    }

    proof fn script_carries_allowed_primary_server(input: SetVmReplicationAuthorizationEntryInput)
        ensures
            holds(
                Self::script(input),
                quoted_arg("-AllowedPrimaryServer"@, input.allowed_primary_server@),
            ),
    {
        broadcast use lemma_add_contains, lemma_push_contains;

        let args = Self::command_args(input);
        let tail = SELECT@;
        lemma_script_holds_argument(
            args,
            tail,
            quoted_arg("-AllowedPrimaryServer"@, input.allowed_primary_server@),
        );
    }

    proof fn script_carries_computer_name(input: SetVmReplicationAuthorizationEntryInput)
        ensures
            input.computer_name matches Some(v) ==> holds(
                Self::script(input),
                quoted_arg("-ComputerName"@, v@),
            ),
    {
        broadcast use lemma_add_contains, lemma_push_contains;

        let args = Self::command_args(input);
        let tail = SELECT@;
        if let Some(v) = input.computer_name {
            lemma_script_holds_argument(args, tail, quoted_arg("-ComputerName"@, v@));
        }
    }

    proof fn script_carries_replica_storage_location(input: SetVmReplicationAuthorizationEntryInput)
        ensures
            input.replica_storage_location matches Some(v) ==> holds(
                Self::script(input),
                quoted_arg("-ReplicaStorageLocation"@, v@),
            ),
    {
        broadcast use lemma_add_contains, lemma_push_contains;

        let args = Self::command_args(input);
        let tail = SELECT@;
        if let Some(v) = input.replica_storage_location {
            lemma_script_holds_argument(args, tail, quoted_arg("-ReplicaStorageLocation"@, v@));
        }
    }

    proof fn script_carries_trust_group(input: SetVmReplicationAuthorizationEntryInput)
        ensures
            input.trust_group matches Some(v) ==> holds(
                Self::script(input),
                quoted_arg("-TrustGroup"@, v@),
            ),
    {
        broadcast use lemma_add_contains, lemma_push_contains;

        let args = Self::command_args(input);
        let tail = SELECT@;
        if let Some(v) = input.trust_group {
            lemma_script_holds_argument(args, tail, quoted_arg("-TrustGroup"@, v@));
        }
    }

    /// Each entry of the answer reads the printed record at its place: every
    /// field holds the record's member of the matching name.
    pub proof fn lemma_answer_reads_each_record(
        raw: JsonValue,
        out: SetVmReplicationAuthorizationEntryOutput,
    )
        requires
            describes_all(out.entries@, raw.records()),
        ensures
            out.entries@.len() == raw.records().len(),
            forall|i: int|
                #![trigger out.entries@[i]]
                0 <= i < raw.records().len() ==> {
                    &&& out.entries@[i].allowed_primary_server@
                        == raw.records()[i].text_or_empty("AllowedPrimaryServer"@)
                    &&& out.entries@[i].replica_storage_location@
                        == raw.records()[i].text_or_empty("ReplicaStorageLocation"@)
                    &&& out.entries@[i].trust_group@
                        == raw.records()[i].text_or_empty("TrustGroup"@)
                },
    {
        assert forall|i: int| 0 <= i < raw.records().len() implies {
            &&& out.entries@[i].allowed_primary_server@
                == raw.records()[i].text_or_empty("AllowedPrimaryServer"@)
            &&& out.entries@[i].replica_storage_location@
                == raw.records()[i].text_or_empty("ReplicaStorageLocation"@)
            &&& out.entries@[i].trust_group@ == raw.records()[i].text_or_empty("TrustGroup"@)
        } by {
            assert(out.entries@[i].describes(raw.records()[i]));
        }
    }

    /// A request is valid only when it passes every check: none of the
    /// conditions that refuse a request holds of it.
    pub proof fn lemma_valid_request_passes_every_check(
        input: SetVmReplicationAuthorizationEntryInput,
    )
        requires
            Self::input_problem(input) is None,
        ensures
            !(is_blank(input.allowed_primary_server@)),
            !(input.computer_name matches Some(s) && is_blank(s@)),
    {
    }
}

} // verus!
