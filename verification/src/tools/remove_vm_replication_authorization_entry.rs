//! `hyperv_remove_vm_replication_authorization_entry`: removes an authorization entry from a Replica server.
use vstd::prelude::*;
use crate::command::{
    holds, join, lemma_add_contains, lemma_push_contains, lemma_script_holds_argument, opt_quoted,
    quoted_arg, ArgList,
};
use crate::error::{invalid_input, script_outcome, ToolError};
use crate::json::{
    decode_records, describes_all, effective_output, parsed_json, read_printed, FromJson, JsonValue,
};
use crate::text::{is_blank, is_provided, option_is_blank, option_is_provided};

verus! {

/// The tool's name.
pub const NAME: &'static str = "hyperv_remove_vm_replication_authorization_entry";

/// What the tool does.
pub const DESCRIPTION: &'static str = "Removes an authorization entry from a Replica server.";

/// What the script runs after the cmdlet: the fields it prints, as JSON.
pub const SELECT: &'static str = " | Select-Object AllowedPrimaryServer, ReplicaStorageLocation, TrustGroup | ConvertTo-Json -Compress -Depth 3";

/// What the tool is asked.
#[derive(Debug)]
pub struct RemoveVmReplicationAuthorizationEntryInput {
    /// Allowed primary server for which the authorization entry should be removed.
    pub allowed_primary_server: Option<String>,
    /// Trust group for which the authorization entries should be removed.
    pub trust_group: Option<String>,
    /// Hyper-V host to target. Defaults to localhost.
    pub computer_name: Option<String>,
}

/// One record of the answer.
#[derive(Debug)]
pub struct RemovedAuthorizationEntryInfo {
    pub allowed_primary_server: String,
    pub replica_storage_location: String,
    pub trust_group: String,
}

/// What the tool answers.
#[derive(Debug)]
pub struct RemoveVmReplicationAuthorizationEntryOutput {
    /// Authorization entries that were removed.
    pub removed: Vec<RemovedAuthorizationEntryInfo>,
}

/// The tool.
#[derive(Default)]
pub struct RemoveVmReplicationAuthorizationEntryTool;

impl FromJson for RemovedAuthorizationEntryInfo {
    open spec fn describes(&self, item: JsonValue) -> bool {
        &&& self.allowed_primary_server@ == item.text_or_empty("AllowedPrimaryServer"@)
        &&& self.replica_storage_location@ == item.text_or_empty("ReplicaStorageLocation"@)
        &&& self.trust_group@ == item.text_or_empty("TrustGroup"@)
    }

    fn from_json(item: &JsonValue) -> (r: Self) {
        RemovedAuthorizationEntryInfo {
            allowed_primary_server: item.text_or_empty_at("AllowedPrimaryServer"),
            replica_storage_location: item.text_or_empty_at("ReplicaStorageLocation"),
            trust_group: item.text_or_empty_at("TrustGroup"),
        }
    }
}

impl RemoveVmReplicationAuthorizationEntryTool {
    /// The first problem with the request, as the message that reports it.
    pub open spec fn input_problem(
        input: RemoveVmReplicationAuthorizationEntryInput,
    ) -> Option<Seq<char>> {
        if !is_provided(input.allowed_primary_server) && !is_provided(input.trust_group) {
            Some("Either allowedPrimaryServer or trustGroup must be provided"@)
        } else if is_provided(input.allowed_primary_server) && is_provided(input.trust_group) {
            Some("allowedPrimaryServer and trustGroup cannot both be provided"@)
        } else if input.computer_name matches Some(s) && is_blank(s@) {
            Some("computerName must not be empty when provided"@)
        } else {
            None
        }
    }

    /// The arguments of the cmdlet.
    pub open spec fn command_args(
        input: RemoveVmReplicationAuthorizationEntryInput,
    ) -> Seq<Seq<char>> {
        seq!["Remove-VMReplicationAuthorizationEntry"@]
            + (if is_provided(input.allowed_primary_server) {
                opt_quoted("-AllowedPrimaryServer"@, input.allowed_primary_server)
            } else {
                opt_quoted("-TrustGroup"@, input.trust_group)
            })
            + opt_quoted("-ComputerName"@, input.computer_name)
            + seq!["-PassThru"@]
            + seq!["-Confirm:$false"@]
    }

    /// The script that runs for a valid request.
    pub open spec fn script(input: RemoveVmReplicationAuthorizationEntryInput) -> Seq<char> {
        join(Self::command_args(input), seq![' ']) + SELECT@
    }

    /// Checks the request and builds its script.
    pub fn build_script(
        input: &RemoveVmReplicationAuthorizationEntryInput,
    ) -> (r: Result<String, ToolError>)
        ensures
            script_outcome(r, Self::input_problem(*input), Self::script(*input)),
    {
        if !option_is_provided(&input.allowed_primary_server)
            && !option_is_provided(&input.trust_group) {
            return Err(invalid_input(
                "Either allowedPrimaryServer or trustGroup must be provided",
            ));
        }
        if option_is_provided(&input.allowed_primary_server)
            && option_is_provided(&input.trust_group) {
            return Err(invalid_input(
                "allowedPrimaryServer and trustGroup cannot both be provided",
            ));
        }
        if option_is_blank(&input.computer_name) {
            return Err(invalid_input("computerName must not be empty when provided"));
        }
        let mut args = ArgList::new("Remove-VMReplicationAuthorizationEntry");
        if option_is_provided(&input.allowed_primary_server) {
            args.push_opt_quoted("-AllowedPrimaryServer", &input.allowed_primary_server);
        } else {
            args.push_opt_quoted("-TrustGroup", &input.trust_group);
        }
        args.push_opt_quoted("-ComputerName", &input.computer_name);
        args.push_literal("-PassThru");
        args.push_literal("-Confirm:$false");
        assert(args@ === Self::command_args(*input));
        Ok(args.to_command_with(SELECT))
    }

    /// Reads the answer from what the script printed: one entry per record.
    pub fn parse_output(raw: JsonValue) -> (r: RemoveVmReplicationAuthorizationEntryOutput)
        ensures
            describes_all(r.removed@, raw.records()),
    {
        RemoveVmReplicationAuthorizationEntryOutput { removed: decode_records(raw) }
    }

    /// Reads the answer from the text the script printed; blank text reads as
    /// an empty list, and text that is not JSON is a `Json` error.
    pub fn read_output(printed: &str) -> (r: Result<RemoveVmReplicationAuthorizationEntryOutput, ToolError>)
        ensures
            match parsed_json(effective_output(printed@)) {
                Some(raw) => r matches Ok(out) && describes_all(out.removed@, raw.records()),
                None => r matches Err(ToolError::Json(_)),
            },
    {
        match read_printed(printed) {
            Ok(raw) => Ok(Self::parse_output(raw)),
            Err(e) => Err(e),
        }
    }

    /// Every value of a valid request reaches the script that `build_script`
    /// returns under its own flag: each flag below stands in the script
    /// followed by the value of the field of the same name.
    pub proof fn lemma_script_carries_each_value(input: RemoveVmReplicationAuthorizationEntryInput)
        requires
            Self::input_problem(input) is None,
        ensures
            input.computer_name matches Some(v) ==> holds(
                Self::script(input),
                quoted_arg("-ComputerName"@, v@),
            ),
            input.allowed_primary_server matches Some(v) ==> !is_blank(v@) ==> holds(
                Self::script(input),
                quoted_arg("-AllowedPrimaryServer"@, v@),
            ),
            input.trust_group matches Some(v) ==> !is_provided(
                input.allowed_primary_server,
            ) ==> holds(Self::script(input), quoted_arg("-TrustGroup"@, v@)),
    {
        Self::script_carries_computer_name(input);
        Self::script_carries_allowed_primary_server(input);
        Self::script_carries_trust_group(input);
    }

    proof fn script_carries_computer_name(input: RemoveVmReplicationAuthorizationEntryInput)
        ensures
            input.computer_name matches Some(v) ==> holds(
                Self::script(input),
                quoted_arg("-ComputerName"@, v@),
            ),
    {
        broadcast use lemma_add_contains, lemma_push_contains;

        let args = Self::command_args(input);
        let tail = SELECT@;
        if let Some(v) = input.computer_name {
            lemma_script_holds_argument(args, tail, quoted_arg("-ComputerName"@, v@));
        }
    }

    proof fn script_carries_allowed_primary_server(
        input: RemoveVmReplicationAuthorizationEntryInput,
    )
        ensures
            input.allowed_primary_server matches Some(v) ==> !is_blank(v@) ==> holds(
                Self::script(input),
                quoted_arg("-AllowedPrimaryServer"@, v@),
            ),
    {
        broadcast use lemma_add_contains, lemma_push_contains;

        let args = Self::command_args(input);
        let tail = SELECT@;
        if let Some(v) = input.allowed_primary_server {
            if !is_blank(v@) {
                lemma_script_holds_argument(args, tail, quoted_arg("-AllowedPrimaryServer"@, v@));
            }
        }
    }

    proof fn script_carries_trust_group(input: RemoveVmReplicationAuthorizationEntryInput)
        ensures
            input.trust_group matches Some(v) ==> !is_provided(
                input.allowed_primary_server,
            ) ==> holds(Self::script(input), quoted_arg("-TrustGroup"@, v@)),
    {
        broadcast use lemma_add_contains, lemma_push_contains;

        let args = Self::command_args(input);
        let tail = SELECT@;
        if let Some(v) = input.trust_group {
            if !is_provided(input.allowed_primary_server) {
                lemma_script_holds_argument(args, tail, quoted_arg("-TrustGroup"@, v@));
            }
        }
    }

    /// Each entry of the answer reads the printed record at its place: every
    /// field holds the record's member of the matching name.
    pub proof fn lemma_answer_reads_each_record(
        raw: JsonValue,
        out: RemoveVmReplicationAuthorizationEntryOutput,
    )
        requires
            describes_all(out.removed@, raw.records()),
        ensures
            out.removed@.len() == raw.records().len(),
            forall|i: int|
                #![trigger out.removed@[i]]
                0 <= i < raw.records().len() ==> {
                    &&& out.removed@[i].allowed_primary_server@
                        == raw.records()[i].text_or_empty("AllowedPrimaryServer"@)
                    &&& out.removed@[i].replica_storage_location@
                        == raw.records()[i].text_or_empty("ReplicaStorageLocation"@)
                    &&& out.removed@[i].trust_group@
                        == raw.records()[i].text_or_empty("TrustGroup"@)
                },
    {
        assert forall|i: int| 0 <= i < raw.records().len() implies {
            &&& out.removed@[i].allowed_primary_server@
                == raw.records()[i].text_or_empty("AllowedPrimaryServer"@)
            &&& out.removed@[i].replica_storage_location@
                == raw.records()[i].text_or_empty("ReplicaStorageLocation"@)
            &&& out.removed@[i].trust_group@ == raw.records()[i].text_or_empty("TrustGroup"@)
        } by {
            assert(out.removed@[i].describes(raw.records()[i]));
        }
    }

    /// A request is valid only when it passes every check: none of the
    /// conditions that refuse a request holds of it.
    pub proof fn lemma_valid_request_passes_every_check(
        input: RemoveVmReplicationAuthorizationEntryInput,
    )
        requires
            Self::input_problem(input) is None,
        ensures
            !(!is_provided(input.allowed_primary_server) && !is_provided(input.trust_group)),
            !(is_provided(input.allowed_primary_server) && is_provided(input.trust_group)),
            !(input.computer_name matches Some(s) && is_blank(s@)),
    {
    }
}

} // verus!
