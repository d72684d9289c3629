//! `hyperv_rename_vm_san`: renames a virtual storage area network (SAN).
use vstd::prelude::*;
use crate::command::{
    holds, join, lemma_add_contains, lemma_push_contains, lemma_script_holds_argument, opt_quoted,
    quoted_arg, ArgList,
};
use crate::error::{invalid_input, script_outcome, ToolError};
use crate::json::{
    decode_records, describes_all, effective_output, parsed_json, read_printed, FromJson, JsonValue,
};
use crate::text::{is_blank, option_is_blank, text_is_blank};

verus! {

/// The tool's name.
pub const NAME: &'static str = "hyperv_rename_vm_san";

/// What the tool does.
pub const DESCRIPTION: &'static str = "Renames a virtual storage area network (SAN).";

/// What the script runs after the cmdlet: the fields it prints, as JSON.
pub const SELECT: &'static str = " | Select-Object Name, Id, WorldWideNodeNameSetA, WorldWidePortNameSetA, WorldWideNodeNameSetB, WorldWidePortNameSetB, ComputerName | ConvertTo-Json -Compress -Depth 3";

/// What the tool is asked.
#[derive(Debug)]
pub struct RenameVmSanInput {
    /// Current name of the virtual SAN.
    pub name: String,
    /// New name for the SAN.
    pub new_name: String,
    /// Hyper-V host to target. Defaults to localhost.
    pub computer_name: Option<String>,
}

/// One record of the answer.
#[derive(Debug)]
pub struct VmSanRenameInfo {
    pub name: String,
    pub id: String,
    pub world_wide_node_name_set_a: String,
    pub world_wide_port_name_set_a: String,
    pub world_wide_node_name_set_b: String,
    pub world_wide_port_name_set_b: String,
    pub computer_name: String,
}

/// What the tool answers.
#[derive(Debug)]
pub struct RenameVmSanOutput {
    pub sans: Vec<VmSanRenameInfo>,
}

/// The tool.
#[derive(Default)]
pub struct RenameVmSanTool;

impl FromJson for VmSanRenameInfo {
    open spec fn describes(&self, item: JsonValue) -> bool {
        &&& self.name@ == item.text_or_empty("Name"@)
        &&& self.id@ == item.text_or_empty("Id"@)
        &&& self.world_wide_node_name_set_a@ == item.text_or_empty("WorldWideNodeNameSetA"@)
        &&& self.world_wide_port_name_set_a@ == item.text_or_empty("WorldWidePortNameSetA"@)
        &&& self.world_wide_node_name_set_b@ == item.text_or_empty("WorldWideNodeNameSetB"@)
        &&& self.world_wide_port_name_set_b@ == item.text_or_empty("WorldWidePortNameSetB"@)
        &&& self.computer_name@ == item.text_or_empty("ComputerName"@)
    }

    fn from_json(item: &JsonValue) -> (r: Self) {
        VmSanRenameInfo {
            name: item.text_or_empty_at("Name"),
            id: item.text_or_empty_at("Id"),
            world_wide_node_name_set_a: item.text_or_empty_at("WorldWideNodeNameSetA"),
            world_wide_port_name_set_a: item.text_or_empty_at("WorldWidePortNameSetA"),
            world_wide_node_name_set_b: item.text_or_empty_at("WorldWideNodeNameSetB"),
            world_wide_port_name_set_b: item.text_or_empty_at("WorldWidePortNameSetB"),
            computer_name: item.text_or_empty_at("ComputerName"),
        }
    }
}

impl RenameVmSanTool {
    /// The first problem with the request, as the message that reports it.
    pub open spec fn input_problem(input: RenameVmSanInput) -> Option<Seq<char>> {
        if is_blank(input.name@) {
            Some("name must not be empty"@)
        } else if is_blank(input.new_name@) {
            Some("new_name must not be empty"@)
        } else if input.computer_name matches Some(s) && is_blank(s@) {
            Some("computer_name must not be empty when provided"@)
        } else {
            None
        }
    }

    /// The arguments of the cmdlet.
    pub open spec fn command_args(input: RenameVmSanInput) -> Seq<Seq<char>> {
        seq![
            "Rename-VMSan"@,
            quoted_arg("-Name"@, input.name@),
            quoted_arg("-NewName"@, input.new_name@),
        ]
            + opt_quoted("-ComputerName"@, input.computer_name)
            + seq!["-PassThru"@]
    }

    /// The script that runs for a valid request.
    pub open spec fn script(input: RenameVmSanInput) -> Seq<char> {
        join(Self::command_args(input), seq![' ']) + SELECT@
    }

    /// Checks the request and builds its script.
    pub fn build_script(input: &RenameVmSanInput) -> (r: Result<String, ToolError>)
        ensures
            script_outcome(r, Self::input_problem(*input), Self::script(*input)),
    {
        if text_is_blank(input.name.as_str()) {
            return Err(invalid_input("name must not be empty"));
        }
        if text_is_blank(input.new_name.as_str()) {
            return Err(invalid_input("new_name must not be empty"));
        }
        if option_is_blank(&input.computer_name) {
            return Err(invalid_input("computer_name must not be empty when provided"));
        }
        let mut args = ArgList::new("Rename-VMSan");
        args.push_quoted("-Name", input.name.as_str());
        args.push_quoted("-NewName", input.new_name.as_str());
        assert(args@ =~= seq![
            "Rename-VMSan"@,
            quoted_arg("-Name"@, input.name@),
            quoted_arg("-NewName"@, input.new_name@),
        ]);
        args.push_opt_quoted("-ComputerName", &input.computer_name);
        args.push_literal("-PassThru");
        assert(args@ === Self::command_args(*input));
        Ok(args.to_command_with(SELECT))
    }

    /// Reads the answer from what the script printed: one entry per record.
    pub fn parse_output(raw: JsonValue) -> (r: RenameVmSanOutput)
        ensures
            describes_all(r.sans@, raw.records()),
    {
        RenameVmSanOutput { sans: decode_records(raw) }
    }

    /// Reads the answer from the text the script printed; blank text reads as
    /// an empty list, and text that is not JSON is a `Json` error.
    pub fn read_output(printed: &str) -> (r: Result<RenameVmSanOutput, ToolError>)
        ensures
            match parsed_json(effective_output(printed@)) {
                Some(raw) => r matches Ok(out) && describes_all(out.sans@, raw.records()),
                None => r matches Err(ToolError::Json(_)),
            },
    {
        match read_printed(printed) {
            Ok(raw) => Ok(Self::parse_output(raw)),
            Err(e) => Err(e),
        }
    }

    /// Every value of a valid request reaches the script that `build_script`
    /// returns under its own flag: each flag below stands in the script
    /// followed by the value of the field of the same name.
    pub proof fn lemma_script_carries_each_value(input: RenameVmSanInput)
        requires
            Self::input_problem(input) is None,
        ensures
            holds(Self::script(input), quoted_arg("-Name"@, input.name@)),
            holds(Self::script(input), quoted_arg("-NewName"@, input.new_name@)),
            input.computer_name matches Some(v) ==> holds(
                Self::script(input),
                quoted_arg("-ComputerName"@, v@),
            ),
    {
        Self::script_carries_name(input);
        Self::script_carries_new_name(input);
        Self::script_carries_computer_name(input);
    }

    proof fn script_carries_name(input: RenameVmSanInput)
        ensures
            holds(Self::script(input), quoted_arg("-Name"@, input.name@)),
    {
        broadcast use lemma_add_contains, lemma_push_contains;

        let args = Self::command_args(input);
        let tail = SELECT@;
        lemma_script_holds_argument(args, tail, quoted_arg("-Name"@, input.name@));
    }

    proof fn script_carries_new_name(input: RenameVmSanInput)
        ensures
            holds(Self::script(input), quoted_arg("-NewName"@, input.new_name@)),
    {
        broadcast use lemma_add_contains, lemma_push_contains;

        let args = Self::command_args(input);
        let tail = SELECT@;
        lemma_script_holds_argument(args, tail, quoted_arg("-NewName"@, input.new_name@));
    }

    proof fn script_carries_computer_name(input: RenameVmSanInput)
        ensures
            input.computer_name matches Some(v) ==> holds(
                Self::script(input),
                quoted_arg("-ComputerName"@, v@),
            ),
    {
        broadcast use lemma_add_contains, lemma_push_contains;

        let args = Self::command_args(input);
        let tail = SELECT@;
        if let Some(v) = input.computer_name {
            lemma_script_holds_argument(args, tail, quoted_arg("-ComputerName"@, v@));
        }
    }

    /// Each entry of the answer reads the printed record at its place: every
    /// field holds the record's member of the matching name.
    pub proof fn lemma_answer_reads_each_record(raw: JsonValue, out: RenameVmSanOutput)
        requires
            describes_all(out.sans@, raw.records()),
        ensures
            out.sans@.len() == raw.records().len(),
            forall|i: int|
                #![trigger out.sans@[i]]
                0 <= i < raw.records().len() ==> {
                    &&& out.sans@[i].name@ == raw.records()[i].text_or_empty("Name"@)
                    &&& out.sans@[i].id@ == raw.records()[i].text_or_empty("Id"@)
                    &&& out.sans@[i].world_wide_node_name_set_a@
                        == raw.records()[i].text_or_empty("WorldWideNodeNameSetA"@)
                    &&& out.sans@[i].world_wide_port_name_set_a@
                        == raw.records()[i].text_or_empty("WorldWidePortNameSetA"@)
                    &&& out.sans@[i].world_wide_node_name_set_b@
                        == raw.records()[i].text_or_empty("WorldWideNodeNameSetB"@)
                    &&& out.sans@[i].world_wide_port_name_set_b@
                        == raw.records()[i].text_or_empty("WorldWidePortNameSetB"@)
                    &&& out.sans@[i].computer_name@
                        == raw.records()[i].text_or_empty("ComputerName"@)
                },
    {
        assert forall|i: int| 0 <= i < raw.records().len() implies {
            &&& out.sans@[i].name@ == raw.records()[i].text_or_empty("Name"@)
            &&& out.sans@[i].id@ == raw.records()[i].text_or_empty("Id"@)
            &&& out.sans@[i].world_wide_node_name_set_a@
                == raw.records()[i].text_or_empty("WorldWideNodeNameSetA"@)
            &&& out.sans@[i].world_wide_port_name_set_a@
                == raw.records()[i].text_or_empty("WorldWidePortNameSetA"@)
            &&& out.sans@[i].world_wide_node_name_set_b@
                == raw.records()[i].text_or_empty("WorldWideNodeNameSetB"@)
            &&& out.sans@[i].world_wide_port_name_set_b@
                == raw.records()[i].text_or_empty("WorldWidePortNameSetB"@)
            &&& out.sans@[i].computer_name@ == raw.records()[i].text_or_empty("ComputerName"@)
        } by {
            assert(out.sans@[i].describes(raw.records()[i]));
        }
    }

    /// A request is valid only when it passes every check: none of the
    /// conditions that refuse a request holds of it.
    pub proof fn lemma_valid_request_passes_every_check(input: RenameVmSanInput)
        requires
            Self::input_problem(input) is None,
        ensures
            !(is_blank(input.name@)),
            !(is_blank(input.new_name@)),
            !(input.computer_name matches Some(s) && is_blank(s@)),
    {
    }
}

} // verus!
