//! `hyperv_set_vm_host_partitionable_gpu`: configures the host partitionable GPU to the number of partitions supported by the manufacturer.
use vstd::prelude::*;
use crate::command::{
    holds, join, lemma_add_contains, lemma_push_contains, lemma_script_holds_argument, number_arg,
    opt_quoted, opt_u16, quoted_arg, ArgList,
};
use crate::error::{invalid_input, script_outcome, ToolError};
use crate::json::{
    decode_records, describes_all, effective_output, parsed_json, read_printed, FromJson, JsonValue,
};
use crate::text::{is_blank, option_is_blank};

verus! {

/// The tool's name.
pub const NAME: &'static str = "hyperv_set_vm_host_partitionable_gpu";

/// What the tool does.
pub const DESCRIPTION: &'static str = "Configures the host partitionable GPU to the number of partitions supported by the manufacturer.";

/// What the script runs after the cmdlet: the fields it prints, as JSON.
pub const SELECT: &'static str = " | Select-Object Name, InstancePath, PartitionCount, TotalPartitionCount, ValidPartitionCounts | ConvertTo-Json -Compress -Depth 3";

/// What the tool is asked.
#[derive(Debug)]
pub struct SetVmHostPartitionableGpuInput {
    /// Hyper-V host on which the GPU resides. Defaults to localhost.
    pub computer_name: Option<String>,
    /// Name of the GPU to configure.
    pub name: Option<String>,
    /// Number of partitions that the GPU will assign. The number of partitions
    /// is defined by the GPU manufacturer.
    pub partition_count: Option<u16>,
}

/// One record of the answer.
#[derive(Debug)]
pub struct VmHostPartitionableGpuInfo {
    pub name: String,
    pub instance_path: String,
    pub partition_count: u16,
    pub total_partition_count: u16,
    pub valid_partition_counts: Vec<u16>,
}

/// What the tool answers.
#[derive(Debug)]
pub struct SetVmHostPartitionableGpuOutput {
    pub gpus: Vec<VmHostPartitionableGpuInfo>,
}

/// The tool.
#[derive(Default)]
pub struct SetVmHostPartitionableGpuTool;

impl FromJson for VmHostPartitionableGpuInfo {
    open spec fn describes(&self, item: JsonValue) -> bool {
        &&& self.name@ == item.text_or_empty("Name"@)
        &&& self.instance_path@ == item.text_or_empty("InstancePath"@)
        &&& self.partition_count == item.u64_or_zero("PartitionCount"@) as u16
        &&& self.total_partition_count == item.u64_or_zero("TotalPartitionCount"@) as u16
        &&& self.valid_partition_counts@ == match item.at("ValidPartitionCounts"@).array_items() {
            Some(a) => partition_counts(a),
            None => Seq::empty(),
        }
    }

    fn from_json(item: &JsonValue) -> (r: Self) {
        VmHostPartitionableGpuInfo {
            name: item.text_or_empty_at("Name"),
            instance_path: item.text_or_empty_at("InstancePath"),
            partition_count: item.u64_or_zero_at("PartitionCount") as u16,
            total_partition_count: item.u64_or_zero_at("TotalPartitionCount") as u16,
            valid_partition_counts: match item.get("ValidPartitionCounts") {
                Some(v) => match v.as_array() {
                    Some(a) => partition_counts_of(a),
                    None => Vec::new(),
                },
                None => Vec::new(),
            },
        }
    }
}

impl SetVmHostPartitionableGpuTool {
    /// The first problem with the request, as the message that reports it.
    pub open spec fn input_problem(input: SetVmHostPartitionableGpuInput) -> Option<Seq<char>> {
        if input.name matches Some(s) && is_blank(s@) {
            Some("GPU name must not be empty"@)
        } else if input.computer_name matches Some(s) && is_blank(s@) {
            Some("Computer name must not be empty"@)
        } else {
            None
        }
    }

    /// The arguments of the cmdlet.
    pub open spec fn command_args(input: SetVmHostPartitionableGpuInput) -> Seq<Seq<char>> {
        seq!["Set-VMHostPartitionableGpu"@]
            + opt_quoted("-ComputerName"@, input.computer_name)
            + opt_quoted("-Name"@, input.name)
            + opt_u16("-PartitionCount"@, input.partition_count)
    }

    /// The script that runs for a valid request.
    pub open spec fn script(input: SetVmHostPartitionableGpuInput) -> Seq<char> {
        join(Self::command_args(input), seq![' ']) + SELECT@
    }

    /// Checks the request and builds its script.
    pub fn build_script(input: &SetVmHostPartitionableGpuInput) -> (r: Result<String, ToolError>)
        ensures
            script_outcome(r, Self::input_problem(*input), Self::script(*input)),
    {
        if option_is_blank(&input.name) {
            return Err(invalid_input("GPU name must not be empty"));
        }
        if option_is_blank(&input.computer_name) {
            return Err(invalid_input("Computer name must not be empty"));
        }
        let mut args = ArgList::new("Set-VMHostPartitionableGpu");
        args.push_opt_quoted("-ComputerName", &input.computer_name);
        args.push_opt_quoted("-Name", &input.name);
        args.push_opt_u16("-PartitionCount", input.partition_count);
        assert(args@ === Self::command_args(*input));
        Ok(args.to_command_with(SELECT))
    }

    /// Reads the answer from what the script printed: one entry per record.
    pub fn parse_output(raw: JsonValue) -> (r: SetVmHostPartitionableGpuOutput)
        ensures
            describes_all(r.gpus@, raw.records()),
    {
        SetVmHostPartitionableGpuOutput { gpus: decode_records(raw) }
    }

    /// Reads the answer from the text the script printed; blank text reads as
    /// an empty list, and text that is not JSON is a `Json` error.
    pub fn read_output(printed: &str) -> (r: Result<SetVmHostPartitionableGpuOutput, ToolError>)
        ensures
            match parsed_json(effective_output(printed@)) {
                Some(raw) => r matches Ok(out) && describes_all(out.gpus@, raw.records()),
                None => r matches Err(ToolError::Json(_)),
            },
    {
        match read_printed(printed) {
            Ok(raw) => Ok(Self::parse_output(raw)),
            Err(e) => Err(e),
        }
    }

    /// Every value of a valid request reaches the script that `build_script`
    /// returns under its own flag: each flag below stands in the script
    /// followed by the value of the field of the same name.
    pub proof fn lemma_script_carries_each_value(input: SetVmHostPartitionableGpuInput)
        requires
            Self::input_problem(input) is None,
        ensures
            input.computer_name matches Some(v) ==> holds(
                Self::script(input),
                quoted_arg("-ComputerName"@, v@),
            ),
            input.name matches Some(v) ==> holds(Self::script(input), quoted_arg("-Name"@, v@)),
            input.partition_count matches Some(v) ==> holds(
                Self::script(input),
                number_arg("-PartitionCount"@, v as int),
            ),
    {
        Self::script_carries_computer_name(input);
        Self::script_carries_name(input);
        Self::script_carries_partition_count(input);
    }

    proof fn script_carries_computer_name(input: SetVmHostPartitionableGpuInput)
        ensures
            input.computer_name matches Some(v) ==> holds(
                Self::script(input),
                quoted_arg("-ComputerName"@, v@),
            ),
    {
        broadcast use lemma_add_contains, lemma_push_contains;

        let args = Self::command_args(input);
        let tail = SELECT@;
        if let Some(v) = input.computer_name {
            lemma_script_holds_argument(args, tail, quoted_arg("-ComputerName"@, v@));
        }
    }

    proof fn script_carries_name(input: SetVmHostPartitionableGpuInput)
        ensures
            input.name matches Some(v) ==> holds(Self::script(input), quoted_arg("-Name"@, v@)),
    {
        broadcast use lemma_add_contains, lemma_push_contains;

        let args = Self::command_args(input);
        let tail = SELECT@;
        if let Some(v) = input.name {
            lemma_script_holds_argument(args, tail, quoted_arg("-Name"@, v@));
        }
    }

    proof fn script_carries_partition_count(input: SetVmHostPartitionableGpuInput)
        ensures
            input.partition_count matches Some(v) ==> holds(
                Self::script(input),
                number_arg("-PartitionCount"@, v as int),
            ),
    {
        broadcast use lemma_add_contains, lemma_push_contains;

        let args = Self::command_args(input);
        let tail = SELECT@;
        if let Some(v) = input.partition_count {
            lemma_script_holds_argument(args, tail, number_arg("-PartitionCount"@, v as int));
        }
    }

    /// Each entry of the answer reads the printed record at its place: every
    /// field holds the record's member of the matching name.
    pub proof fn lemma_answer_reads_each_record(
        raw: JsonValue,
        out: SetVmHostPartitionableGpuOutput,
    )
        requires
            describes_all(out.gpus@, raw.records()),
        ensures
            out.gpus@.len() == raw.records().len(),
            forall|i: int|
                #![trigger out.gpus@[i]]
                0 <= i < raw.records().len() ==> {
                    &&& out.gpus@[i].name@ == raw.records()[i].text_or_empty("Name"@)
                    &&& out.gpus@[i].instance_path@
                        == raw.records()[i].text_or_empty("InstancePath"@)
                    &&& out.gpus@[i].partition_count
                        == raw.records()[i].u64_or_zero("PartitionCount"@) as u16
                    &&& out.gpus@[i].total_partition_count
                        == raw.records()[i].u64_or_zero("TotalPartitionCount"@) as u16
                    &&& out.gpus@[i].valid_partition_counts@
                        == match raw.records()[i].at("ValidPartitionCounts"@).array_items() {
            Some(a) => partition_counts(a),
            None => Seq::empty(),
        }
                },
    {
        assert forall|i: int| 0 <= i < raw.records().len() implies {
            &&& out.gpus@[i].name@ == raw.records()[i].text_or_empty("Name"@)
            &&& out.gpus@[i].instance_path@ == raw.records()[i].text_or_empty("InstancePath"@)
            &&& out.gpus@[i].partition_count
                == raw.records()[i].u64_or_zero("PartitionCount"@) as u16
            &&& out.gpus@[i].total_partition_count
                == raw.records()[i].u64_or_zero("TotalPartitionCount"@) as u16
            &&& out.gpus@[i].valid_partition_counts@
                == match raw.records()[i].at("ValidPartitionCounts"@).array_items() {
            Some(a) => partition_counts(a),
            None => Seq::empty(),
        }
        } by {
            assert(out.gpus@[i].describes(raw.records()[i]));
        }
    }

    /// A request is valid only when it passes every check: none of the
    /// conditions that refuse a request holds of it.
    pub proof fn lemma_valid_request_passes_every_check(input: SetVmHostPartitionableGpuInput)
        requires
            Self::input_problem(input) is None,
        ensures
            !(input.name matches Some(s) && is_blank(s@)),
            !(input.computer_name matches Some(s) && is_blank(s@)),
    {
    }
}

/// `filter_map(as_u64)` with each number cut to a `u16`: the numbers among
/// the values, in order.
pub open spec fn partition_counts(items: Seq<JsonValue>) -> Seq<u16>
    decreases items.len(),
{
    if items.len() == 0 {
        Seq::empty()
    } else {
        partition_counts(items.drop_last()) + match items.last().u64_value() {
            Some(n) => seq![n as u16],
            None => Seq::empty(),
        }
    }
}

/// The numbers among the values, in order, each cut to a `u16`.
pub fn partition_counts_of(items: &Vec<JsonValue>) -> (r: Vec<u16>)
    ensures
        r@ == partition_counts(items@),
{
    let mut out: Vec<u16> = Vec::new();
    let mut i: usize = 0;
    while i < items.len()
        invariant
            i <= items.len(),
            out@ == partition_counts(items@.take(i as int)),
        decreases items.len() - i,
    {
        assert(items@.take(i + 1).drop_last() =~= items@.take(i as int));
        if let Some(n) = items[i].as_u64() {
            out.push(n as u16);
        }
        assert(out@ =~= partition_counts(items@.take(i + 1)));
        i = i + 1;
    }
    assert(items@.take(items.len() as int) =~= items@);
    out
}

} // verus!
