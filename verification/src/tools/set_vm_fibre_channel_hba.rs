//! `hyperv_set_vm_fibre_channel_hba`: configures a Fibre Channel host bus adapter on a virtual machine.
use vstd::prelude::*;
use crate::command::{
    holds, join, lemma_add_contains, lemma_push_contains, lemma_script_holds_argument, opt_quoted,
    quoted_arg, ArgList,
};
use crate::error::{invalid_input, script_outcome, ToolError};
use crate::json::{
    decode_records, describes_all, effective_output, parsed_json, read_printed, FromJson, JsonValue,
};
use crate::text::{is_blank, option_is_blank, text_is_blank};

verus! {

/// The tool's name.
pub const NAME: &'static str = "hyperv_set_vm_fibre_channel_hba";

/// What the tool does.
pub const DESCRIPTION: &'static str = "Configures a Fibre Channel host bus adapter on a virtual machine.";

/// What the script runs after the cmdlet: the fields it prints, as JSON.
pub const SELECT: &'static str = " | Select-Object Name, Id, VMName, VMId, SanName, WorldWideNodeNameSetA, WorldWidePortNameSetA, WorldWideNodeNameSetB, WorldWidePortNameSetB, IsTemplate | ConvertTo-Json -Compress -Depth 3";

/// What the tool is asked.
#[derive(Debug)]
pub struct SetVmFibreChannelHbaInput {
    /// Name of the virtual machine.
    pub vm_name: String,
    /// Name of the Fibre Channel HBA.
    pub name: String,
    /// World-wide node name of address set A.
    pub world_wide_node_name_set_a: Option<String>,
    /// World-wide port name of address set A.
    pub world_wide_port_name_set_a: Option<String>,
    /// World-wide node name of address set B.
    pub world_wide_node_name_set_b: Option<String>,
    /// World-wide port name of address set B.
    pub world_wide_port_name_set_b: Option<String>,
    /// Hyper-V host to target. Defaults to localhost.
    pub computer_name: Option<String>,
}

/// One record of the answer.
#[derive(Debug)]
pub struct VmFibreChannelHbaSetInfo {
    pub name: String,
    pub id: String,
    pub vm_name: String,
    pub vm_id: String,
    pub san_name: String,
    pub world_wide_node_name_set_a: String,
    pub world_wide_port_name_set_a: String,
    pub world_wide_node_name_set_b: String,
    pub world_wide_port_name_set_b: String,
    pub is_template: bool,
}

/// What the tool answers.
#[derive(Debug)]
pub struct SetVmFibreChannelHbaOutput {
    pub adapters: Vec<VmFibreChannelHbaSetInfo>,
}

/// The tool.
#[derive(Default)]
pub struct SetVmFibreChannelHbaTool;

impl FromJson for VmFibreChannelHbaSetInfo {
    open spec fn describes(&self, item: JsonValue) -> bool {
        &&& self.name@ == item.text_or_empty("Name"@)
        &&& self.id@ == item.text_or_empty("Id"@)
        &&& self.vm_name@ == item.text_or_empty("VMName"@)
        &&& self.vm_id@ == item.text_or_empty("VMId"@)
        &&& self.san_name@ == item.text_or_empty("SanName"@)
        &&& self.world_wide_node_name_set_a@ == item.text_or_empty("WorldWideNodeNameSetA"@)
        &&& self.world_wide_port_name_set_a@ == item.text_or_empty("WorldWidePortNameSetA"@)
        &&& self.world_wide_node_name_set_b@ == item.text_or_empty("WorldWideNodeNameSetB"@)
        &&& self.world_wide_port_name_set_b@ == item.text_or_empty("WorldWidePortNameSetB"@)
        &&& self.is_template == item.flag_or_false("IsTemplate"@)
    }

    fn from_json(item: &JsonValue) -> (r: Self) {
        VmFibreChannelHbaSetInfo {
            name: item.text_or_empty_at("Name"),
            id: item.text_or_empty_at("Id"),
            vm_name: item.text_or_empty_at("VMName"),
            vm_id: item.text_or_empty_at("VMId"),
            san_name: item.text_or_empty_at("SanName"),
            world_wide_node_name_set_a: item.text_or_empty_at("WorldWideNodeNameSetA"),
            world_wide_port_name_set_a: item.text_or_empty_at("WorldWidePortNameSetA"),
            world_wide_node_name_set_b: item.text_or_empty_at("WorldWideNodeNameSetB"),
            world_wide_port_name_set_b: item.text_or_empty_at("WorldWidePortNameSetB"),
            is_template: item.flag_or_false_at("IsTemplate"),
        }
    }
}

impl SetVmFibreChannelHbaTool {
    /// The first problem with the request, as the message that reports it.
    pub open spec fn input_problem(input: SetVmFibreChannelHbaInput) -> Option<Seq<char>> {
        if is_blank(input.vm_name@) {
            Some("vm_name must not be empty"@)
        } else if is_blank(input.name@) {
            Some("name must not be empty"@)
        } else if input.world_wide_node_name_set_a matches Some(s) && is_blank(s@) {
            Some("world_wide_node_name_set_a must not be empty when provided"@)
        } else if input.world_wide_port_name_set_a matches Some(s) && is_blank(s@) {
            Some("world_wide_port_name_set_a must not be empty when provided"@)
        } else if input.world_wide_node_name_set_b matches Some(s) && is_blank(s@) {
            Some("world_wide_node_name_set_b must not be empty when provided"@)
        } else if input.world_wide_port_name_set_b matches Some(s) && is_blank(s@) {
            Some("world_wide_port_name_set_b must not be empty when provided"@)
        } else if input.computer_name matches Some(s) && is_blank(s@) {
            Some("computer_name must not be empty when provided"@)
        } else {
            None
        }
    }

    /// The arguments of the cmdlet.
    pub open spec fn command_args(input: SetVmFibreChannelHbaInput) -> Seq<Seq<char>> {
        seq![
            "Set-VMFibreChannelHba"@,
            quoted_arg("-VMName"@, input.vm_name@),
            quoted_arg("-Name"@, input.name@),
        ]
            + opt_quoted("-WorldWideNodeNameSetA"@, input.world_wide_node_name_set_a)
            + opt_quoted("-WorldWidePortNameSetA"@, input.world_wide_port_name_set_a)
            + opt_quoted("-WorldWideNodeNameSetB"@, input.world_wide_node_name_set_b)
            + opt_quoted("-WorldWidePortNameSetB"@, input.world_wide_port_name_set_b)
            + opt_quoted("-ComputerName"@, input.computer_name)
    }

    /// The script that runs for a valid request.
    pub open spec fn script(input: SetVmFibreChannelHbaInput) -> Seq<char> {
        join(Self::command_args(input), seq![' ']) + SELECT@
    }

    /// Checks the request and builds its script.
    pub fn build_script(input: &SetVmFibreChannelHbaInput) -> (r: Result<String, ToolError>)
        ensures
            script_outcome(r, Self::input_problem(*input), Self::script(*input)),
    {
        if text_is_blank(input.vm_name.as_str()) {
            return Err(invalid_input("vm_name must not be empty"));
        }
        if text_is_blank(input.name.as_str()) {
            return Err(invalid_input("name must not be empty"));
        }
        if option_is_blank(&input.world_wide_node_name_set_a) {
            return Err(invalid_input(
                "world_wide_node_name_set_a must not be empty when provided",
            ));
        }
        if option_is_blank(&input.world_wide_port_name_set_a) {
            return Err(invalid_input(
                "world_wide_port_name_set_a must not be empty when provided",
            ));
        }
        if option_is_blank(&input.world_wide_node_name_set_b) {
            return Err(invalid_input(
                "world_wide_node_name_set_b must not be empty when provided",
            ));
        }
        if option_is_blank(&input.world_wide_port_name_set_b) {
            return Err(invalid_input(
                "world_wide_port_name_set_b must not be empty when provided",
            ));
        }
        if option_is_blank(&input.computer_name) {
            return Err(invalid_input("computer_name must not be empty when provided"));
        }
        let mut args = ArgList::new("Set-VMFibreChannelHba");
        args.push_quoted("-VMName", input.vm_name.as_str());
        args.push_quoted("-Name", input.name.as_str());
        assert(args@ =~= seq![
            "Set-VMFibreChannelHba"@,
            quoted_arg("-VMName"@, input.vm_name@),
            quoted_arg("-Name"@, input.name@),
        ]);
        args.push_opt_quoted("-WorldWideNodeNameSetA", &input.world_wide_node_name_set_a);
        args.push_opt_quoted("-WorldWidePortNameSetA", &input.world_wide_port_name_set_a);
        args.push_opt_quoted("-WorldWideNodeNameSetB", &input.world_wide_node_name_set_b);
        args.push_opt_quoted("-WorldWidePortNameSetB", &input.world_wide_port_name_set_b);
        args.push_opt_quoted("-ComputerName", &input.computer_name);
        assert(args@ === Self::command_args(*input));
        Ok(args.to_command_with(SELECT))
    }

    /// Reads the answer from what the script printed: one entry per record.
    pub fn parse_output(raw: JsonValue) -> (r: SetVmFibreChannelHbaOutput)
        ensures
            describes_all(r.adapters@, raw.records()),
    {
        SetVmFibreChannelHbaOutput { adapters: decode_records(raw) }
    }

    /// Reads the answer from the text the script printed; blank text reads as
    /// an empty list, and text that is not JSON is a `Json` error.
    pub fn read_output(printed: &str) -> (r: Result<SetVmFibreChannelHbaOutput, ToolError>)
        ensures
            match parsed_json(effective_output(printed@)) {
                Some(raw) => r matches Ok(out) && describes_all(out.adapters@, raw.records()),
                None => r matches Err(ToolError::Json(_)),
            },
    {
        match read_printed(printed) {
            Ok(raw) => Ok(Self::parse_output(raw)),
            Err(e) => Err(e),
        }
    }

    /// Every value of a valid request reaches the script that `build_script`
    /// returns under its own flag: each flag below stands in the script
    /// followed by the value of the field of the same name.
    pub proof fn lemma_script_carries_each_value(input: SetVmFibreChannelHbaInput)
        requires
            Self::input_problem(input) is None,
        ensures
            holds(Self::script(input), quoted_arg("-VMName"@, input.vm_name@)),
            holds(Self::script(input), quoted_arg("-Name"@, input.name@)),
            input.world_wide_node_name_set_a matches Some(v) ==> holds(
                Self::script(input),
                quoted_arg("-WorldWideNodeNameSetA"@, v@),
            ),
            input.world_wide_port_name_set_a matches Some(v) ==> holds(
                Self::script(input),
                quoted_arg("-WorldWidePortNameSetA"@, v@),
            ),
            input.world_wide_node_name_set_b matches Some(v) ==> holds(
                Self::script(input),
                quoted_arg("-WorldWideNodeNameSetB"@, v@),
            ),
            input.world_wide_port_name_set_b matches Some(v) ==> holds(
                Self::script(input),
                quoted_arg("-WorldWidePortNameSetB"@, v@),
            ),
            input.computer_name matches Some(v) ==> holds(
                Self::script(input),
                quoted_arg("-ComputerName"@, v@),
            ),
    {
        Self::script_carries_vm_name(input);
        Self::script_carries_name(input);
        Self::script_carries_world_wide_node_name_set_a(input);
        Self::script_carries_world_wide_port_name_set_a(input);
        Self::script_carries_world_wide_node_name_set_b(input);
        Self::script_carries_world_wide_port_name_set_b(input);
        Self::script_carries_computer_name(input);
    }

    proof fn script_carries_vm_name(input: SetVmFibreChannelHbaInput)
        ensures
            holds(Self::script(input), quoted_arg("-VMName"@, input.vm_name@)),
    {
        broadcast use lemma_add_contains, lemma_push_contains;

        let args = Self::command_args(input);
        let tail = SELECT@;
        lemma_script_holds_argument(args, tail, quoted_arg("-VMName"@, input.vm_name@));
    }

    proof fn script_carries_name(input: SetVmFibreChannelHbaInput)
        ensures
            holds(Self::script(input), quoted_arg("-Name"@, input.name@)),
    {
        broadcast use lemma_add_contains, lemma_push_contains;

        let args = Self::command_args(input);
        let tail = SELECT@;
        lemma_script_holds_argument(args, tail, quoted_arg("-Name"@, input.name@));
    }

    proof fn script_carries_world_wide_node_name_set_a(input: SetVmFibreChannelHbaInput)
        ensures
            input.world_wide_node_name_set_a matches Some(v) ==> holds(
                Self::script(input),
                quoted_arg("-WorldWideNodeNameSetA"@, v@),
            ),
    {
        broadcast use lemma_add_contains, lemma_push_contains;

        let args = Self::command_args(input);
        let tail = SELECT@;
        if let Some(v) = input.world_wide_node_name_set_a {
            lemma_script_holds_argument(args, tail, quoted_arg("-WorldWideNodeNameSetA"@, v@));
        }
    }

    proof fn script_carries_world_wide_port_name_set_a(input: SetVmFibreChannelHbaInput)
        ensures
            input.world_wide_port_name_set_a matches Some(v) ==> holds(
                Self::script(input),
                quoted_arg("-WorldWidePortNameSetA"@, v@),
            ),
    {
        broadcast use lemma_add_contains, lemma_push_contains;

        let args = Self::command_args(input);
        let tail = SELECT@;
        if let Some(v) = input.world_wide_port_name_set_a {
            lemma_script_holds_argument(args, tail, quoted_arg("-WorldWidePortNameSetA"@, v@));
        }
    }

    proof fn script_carries_world_wide_node_name_set_b(input: SetVmFibreChannelHbaInput)
        ensures
            input.world_wide_node_name_set_b matches Some(v) ==> holds(
                Self::script(input),
                quoted_arg("-WorldWideNodeNameSetB"@, v@),
            ),
    {
        broadcast use lemma_add_contains, lemma_push_contains;

        let args = Self::command_args(input);
        let tail = SELECT@;
        if let Some(v) = input.world_wide_node_name_set_b {
            lemma_script_holds_argument(args, tail, quoted_arg("-WorldWideNodeNameSetB"@, v@));
        }
    }

    proof fn script_carries_world_wide_port_name_set_b(input: SetVmFibreChannelHbaInput)
        ensures
            input.world_wide_port_name_set_b matches Some(v) ==> holds(
                Self::script(input),
                quoted_arg("-WorldWidePortNameSetB"@, v@),
            ),
    {
        broadcast use lemma_add_contains, lemma_push_contains;

        let args = Self::command_args(input);
        let tail = SELECT@;
        if let Some(v) = input.world_wide_port_name_set_b {
            lemma_script_holds_argument(args, tail, quoted_arg("-WorldWidePortNameSetB"@, v@));
        }
    }

    proof fn script_carries_computer_name(input: SetVmFibreChannelHbaInput)
        ensures
            input.computer_name matches Some(v) ==> holds(
                Self::script(input),
                quoted_arg("-ComputerName"@, v@),
            ),
    {
        broadcast use lemma_add_contains, lemma_push_contains;

        let args = Self::command_args(input);
        let tail = SELECT@;
        if let Some(v) = input.computer_name {
            lemma_script_holds_argument(args, tail, quoted_arg("-ComputerName"@, v@));
        }
    }

    /// Each entry of the answer reads the printed record at its place: every
    /// field holds the record's member of the matching name.
    pub proof fn lemma_answer_reads_each_record(raw: JsonValue, out: SetVmFibreChannelHbaOutput)
        requires
            describes_all(out.adapters@, raw.records()),
        ensures
            out.adapters@.len() == raw.records().len(),
            forall|i: int|
                #![trigger out.adapters@[i]]
                0 <= i < raw.records().len() ==> {
                    &&& out.adapters@[i].name@ == raw.records()[i].text_or_empty("Name"@)
                    &&& out.adapters@[i].id@ == raw.records()[i].text_or_empty("Id"@)
                    &&& out.adapters@[i].vm_name@ == raw.records()[i].text_or_empty("VMName"@)
                    &&& out.adapters@[i].vm_id@ == raw.records()[i].text_or_empty("VMId"@)
                    &&& out.adapters@[i].san_name@ == raw.records()[i].text_or_empty("SanName"@)
                    &&& out.adapters@[i].world_wide_node_name_set_a@
                        == raw.records()[i].text_or_empty("WorldWideNodeNameSetA"@)
                    &&& out.adapters@[i].world_wide_port_name_set_a@
                        == raw.records()[i].text_or_empty("WorldWidePortNameSetA"@)
                    &&& out.adapters@[i].world_wide_node_name_set_b@
                        == raw.records()[i].text_or_empty("WorldWideNodeNameSetB"@)
                    &&& out.adapters@[i].world_wide_port_name_set_b@
                        == raw.records()[i].text_or_empty("WorldWidePortNameSetB"@)
                    &&& out.adapters@[i].is_template
                        == raw.records()[i].flag_or_false("IsTemplate"@)
                },
    {
        assert forall|i: int| 0 <= i < raw.records().len() implies {
            &&& out.adapters@[i].name@ == raw.records()[i].text_or_empty("Name"@)
            &&& out.adapters@[i].id@ == raw.records()[i].text_or_empty("Id"@)
            &&& out.adapters@[i].vm_name@ == raw.records()[i].text_or_empty("VMName"@)
            &&& out.adapters@[i].vm_id@ == raw.records()[i].text_or_empty("VMId"@)
            &&& out.adapters@[i].san_name@ == raw.records()[i].text_or_empty("SanName"@)
            &&& out.adapters@[i].world_wide_node_name_set_a@
                == raw.records()[i].text_or_empty("WorldWideNodeNameSetA"@)
            &&& out.adapters@[i].world_wide_port_name_set_a@
                == raw.records()[i].text_or_empty("WorldWidePortNameSetA"@)
            &&& out.adapters@[i].world_wide_node_name_set_b@
                == raw.records()[i].text_or_empty("WorldWideNodeNameSetB"@)
            &&& out.adapters@[i].world_wide_port_name_set_b@
                == raw.records()[i].text_or_empty("WorldWidePortNameSetB"@)
            &&& out.adapters@[i].is_template == raw.records()[i].flag_or_false("IsTemplate"@)
        } by {
            assert(out.adapters@[i].describes(raw.records()[i]));
        }
    }

    /// A request is valid only when it passes every check: none of the
    /// conditions that refuse a request holds of it.
    pub proof fn lemma_valid_request_passes_every_check(input: SetVmFibreChannelHbaInput)
        requires
            Self::input_problem(input) is None,
        ensures
            !(is_blank(input.vm_name@)),
            !(is_blank(input.name@)),
            !(input.world_wide_node_name_set_a matches Some(s) && is_blank(s@)),
            !(input.world_wide_port_name_set_a matches Some(s) && is_blank(s@)),
            !(input.world_wide_node_name_set_b matches Some(s) && is_blank(s@)),
            !(input.world_wide_port_name_set_b matches Some(s) && is_blank(s@)),
            !(input.computer_name matches Some(s) && is_blank(s@)),
    {
    }
}

} // verus!
