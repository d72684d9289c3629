//! `hyperv_set_vm_host_cluster`: configures a virtual machine host cluster.
use vstd::prelude::*;
use crate::command::{
    holds, join, lemma_add_contains, lemma_push_contains, lemma_script_holds_argument, opt_quoted,
    quoted_arg, ArgList,
};
use crate::error::{invalid_input, script_outcome, ToolError};
use crate::json::{
    decode_records, describes_all, effective_output, parsed_json, read_printed, FromJson, JsonValue,
};
use crate::text::{is_blank, text_is_blank};

verus! {

/// The tool's name.
pub const NAME: &'static str = "hyperv_set_vm_host_cluster";

/// What the tool does.
pub const DESCRIPTION: &'static str = "Configures a virtual machine host cluster.";

/// What the script runs after the cmdlet: the fields it prints, as JSON.
pub const SELECT: &'static str = " | Select-Object ClusterName, SharedStoragePath, Path | ConvertTo-Json -Compress -Depth 3";

/// What the tool is asked.
#[derive(Debug)]
pub struct SetVmHostClusterInput {
    /// Name of the virtual machine host cluster to configure.
    pub cluster_name: String,
    /// Location of the shared storage for the virtual machine host cluster.
    pub shared_storage_path: Option<String>,
}

/// One record of the answer.
#[derive(Debug)]
pub struct VmHostClusterConfig {
    pub cluster_name: String,
    pub shared_storage_path: String,
    pub path: String,
}

/// What the tool answers.
#[derive(Debug)]
pub struct SetVmHostClusterOutput {
    pub clusters: Vec<VmHostClusterConfig>,
}

/// The tool.
#[derive(Default)]
pub struct SetVmHostClusterTool;

impl FromJson for VmHostClusterConfig {
    open spec fn describes(&self, item: JsonValue) -> bool {
        &&& self.cluster_name@ == item.text_or_empty("ClusterName"@)
        &&& self.shared_storage_path@ == item.text_or_empty("SharedStoragePath"@)
        &&& self.path@ == item.text_or_empty("Path"@)
    }

    fn from_json(item: &JsonValue) -> (r: Self) {
        VmHostClusterConfig {
            cluster_name: item.text_or_empty_at("ClusterName"),
            shared_storage_path: item.text_or_empty_at("SharedStoragePath"),
            path: item.text_or_empty_at("Path"),
        }
    }
}

impl SetVmHostClusterTool {
    /// The first problem with the request, as the message that reports it.
    pub open spec fn input_problem(input: SetVmHostClusterInput) -> Option<Seq<char>> {
        if is_blank(input.cluster_name@) {
            Some("Cluster name must not be empty"@)
        } else {
            None
        }
    }

    /// The arguments of the cmdlet.
    pub open spec fn command_args(input: SetVmHostClusterInput) -> Seq<Seq<char>> {
        seq!["Set-VMHostCluster"@, quoted_arg("-ClusterName"@, input.cluster_name@)]
            + opt_quoted("-SharedStoragePath"@, input.shared_storage_path)
    }

    /// The script that runs for a valid request.
    pub open spec fn script(input: SetVmHostClusterInput) -> Seq<char> {
        join(Self::command_args(input), seq![' ']) + SELECT@
    }

    /// Checks the request and builds its script.
    pub fn build_script(input: &SetVmHostClusterInput) -> (r: Result<String, ToolError>)
        ensures
            script_outcome(r, Self::input_problem(*input), Self::script(*input)),
    {
        if text_is_blank(input.cluster_name.as_str()) {
            return Err(invalid_input("Cluster name must not be empty"));
        }
        let mut args = ArgList::new("Set-VMHostCluster");
        args.push_quoted("-ClusterName", input.cluster_name.as_str());
        args.push_opt_quoted("-SharedStoragePath", &input.shared_storage_path);
        assert(args@ === Self::command_args(*input));
        Ok(args.to_command_with(SELECT))
    }

    /// Reads the answer from what the script printed: one entry per record.
    pub fn parse_output(raw: JsonValue) -> (r: SetVmHostClusterOutput)
        ensures
            describes_all(r.clusters@, raw.records()),
    {
        SetVmHostClusterOutput { clusters: decode_records(raw) }
    }

    /// Reads the answer from the text the script printed; blank text reads as
    /// an empty list, and text that is not JSON is a `Json` error.
    pub fn read_output(printed: &str) -> (r: Result<SetVmHostClusterOutput, ToolError>)
        ensures
            match parsed_json(effective_output(printed@)) {
                Some(raw) => r matches Ok(out) && describes_all(out.clusters@, raw.records()),
                None => r matches Err(ToolError::Json(_)),
            },
    {
        match read_printed(printed) {
            Ok(raw) => Ok(Self::parse_output(raw)),
            Err(e) => Err(e),
        }
    }

    /// Every value of a valid request reaches the script that `build_script`
    /// returns under its own flag: each flag below stands in the script
    /// followed by the value of the field of the same name.
    pub proof fn lemma_script_carries_each_value(input: SetVmHostClusterInput)
        requires
            Self::input_problem(input) is None,
        ensures
            holds(Self::script(input), quoted_arg("-ClusterName"@, input.cluster_name@)),
            input.shared_storage_path matches Some(v) ==> holds(
                Self::script(input),
                quoted_arg("-SharedStoragePath"@, v@),
            ),
    {
        Self::script_carries_cluster_name(input);
        Self::script_carries_shared_storage_path(input);
    }

    proof fn script_carries_cluster_name(input: SetVmHostClusterInput)
        ensures
            holds(Self::script(input), quoted_arg("-ClusterName"@, input.cluster_name@)),
    {
        broadcast use lemma_add_contains, lemma_push_contains;

        let args = Self::command_args(input);
        let tail = SELECT@;
        lemma_script_holds_argument(args, tail, quoted_arg("-ClusterName"@, input.cluster_name@));
    }

    proof fn script_carries_shared_storage_path(input: SetVmHostClusterInput)
        ensures
            input.shared_storage_path matches Some(v) ==> holds(
                Self::script(input),
                quoted_arg("-SharedStoragePath"@, v@),
            ),
    {
        broadcast use lemma_add_contains, lemma_push_contains;

        let args = Self::command_args(input);
        let tail = SELECT@;
        if let Some(v) = input.shared_storage_path {
            lemma_script_holds_argument(args, tail, quoted_arg("-SharedStoragePath"@, v@));
        }
    }

    /// Each entry of the answer reads the printed record at its place: every
    /// field holds the record's member of the matching name.
    pub proof fn lemma_answer_reads_each_record(raw: JsonValue, out: SetVmHostClusterOutput)
        requires
            describes_all(out.clusters@, raw.records()),
        ensures
            out.clusters@.len() == raw.records().len(),
            forall|i: int|
                #![trigger out.clusters@[i]]
                0 <= i < raw.records().len() ==> {
                    &&& out.clusters@[i].cluster_name@
                        == raw.records()[i].text_or_empty("ClusterName"@)
                    &&& out.clusters@[i].shared_storage_path@
                        == raw.records()[i].text_or_empty("SharedStoragePath"@)
                    &&& out.clusters@[i].path@ == raw.records()[i].text_or_empty("Path"@)
                },
    {
        assert forall|i: int| 0 <= i < raw.records().len() implies {
            &&& out.clusters@[i].cluster_name@ == raw.records()[i].text_or_empty("ClusterName"@)
            &&& out.clusters@[i].shared_storage_path@
                == raw.records()[i].text_or_empty("SharedStoragePath"@)
            &&& out.clusters@[i].path@ == raw.records()[i].text_or_empty("Path"@)
        } by {
            assert(out.clusters@[i].describes(raw.records()[i]));
        }
    }
}

} // verus!
