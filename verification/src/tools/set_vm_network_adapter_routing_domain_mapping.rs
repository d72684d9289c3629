//! `hyperv_set_vm_network_adapter_routing_domain_mapping`: sets virtual subnets on a routing domain.
use vstd::prelude::*;
use crate::command::{
    holds, join, lemma_add_contains, lemma_push_contains, lemma_script_holds_argument, list_arg,
    number_list_arg, opt_quoted, quoted_arg, target_args, ArgList,
};
use crate::error::{invalid_input, script_outcome, ToolError};
use crate::json::{
    decode_records, describes_all, effective_output, parsed_json, read_printed, strings_or_empty,
    texts_or_empty, FromJson, JsonValue,
};
use crate::text::{is_blank, is_provided, option_is_blank, option_is_provided, texts};

verus! {

/// The tool's name.
pub const NAME: &'static str = "hyperv_set_vm_network_adapter_routing_domain_mapping";

/// What the tool does.
pub const DESCRIPTION: &'static str = "Sets virtual subnets on a routing domain.";

/// What the script runs after the cmdlet: the fields it prints, as JSON.
pub const SELECT: &'static str = " | Select-Object @{N='RoutingDomainID';E={$_.RoutingDomainID.ToString()}}, RoutingDomainName, IsolationID, IsolationName | ConvertTo-Json -Compress -Depth 3";

/// What the tool is asked.
#[derive(Debug)]
pub struct SetVmNetworkAdapterRoutingDomainMappingInput {
    /// Name of the virtual machine whose network adapter routing domain mapping is to be set.
    /// Not used when management_os is true.
    pub vm_name: Option<String>,
    /// Name of the virtual network adapter on which to set the routing domain mapping.
    pub vm_network_adapter_name: Option<String>,
    /// Hyper-V host to target. Defaults to localhost.
    pub computer_name: Option<String>,
    /// Configure the adapter in the management operating system instead of a VM.
    pub management_os: Option<bool>,
    /// ID of the routing domain. Either routing_domain_id or routing_domain_name is required.
    pub routing_domain_id: Option<String>,
    /// Name of the routing domain. Either routing_domain_id or routing_domain_name is required.
    pub routing_domain_name: Option<String>,
    /// New name to assign to the routing domain.
    pub new_routing_domain_name: Option<String>,
    /// IDs of virtual subnets to set on the routing domain.
    pub isolation_id: Vec<i32>,
    /// Names of virtual subnets to set on the routing domain.
    pub isolation_name: Vec<String>,
}

/// One record of the answer.
#[derive(Debug)]
pub struct VmNetworkAdapterRoutingDomainSettingInfo {
    pub routing_domain_id: String,
    pub routing_domain_name: String,
    pub isolation_id: Vec<i32>,
    pub isolation_name: Vec<String>,
}

/// What the tool answers.
#[derive(Debug)]
pub struct SetVmNetworkAdapterRoutingDomainMappingOutput {
    pub mappings: Vec<VmNetworkAdapterRoutingDomainSettingInfo>,
}

/// The tool.
#[derive(Default)]
pub struct SetVmNetworkAdapterRoutingDomainMappingTool;

impl FromJson for VmNetworkAdapterRoutingDomainSettingInfo {
    open spec fn describes(&self, item: JsonValue) -> bool {
        &&& self.routing_domain_id@ == item.text_or_empty("RoutingDomainID"@)
        &&& self.routing_domain_name@ == item.text_or_empty("RoutingDomainName"@)
        &&& self.isolation_id@ == int_list(item.at("IsolationID"@))
        &&& texts(self.isolation_name@) == string_list(item.at("IsolationName"@))
    }

    fn from_json(item: &JsonValue) -> (r: Self) {
        VmNetworkAdapterRoutingDomainSettingInfo {
            routing_domain_id: item.text_or_empty_at("RoutingDomainID"),
            routing_domain_name: item.text_or_empty_at("RoutingDomainName"),
            isolation_id: match item.get("IsolationID") {
                Some(v) => ints_from(v),
                None => ints_from(&JsonValue::Null),
            },
            isolation_name: match item.get("IsolationName") {
                Some(v) => strings_from(v),
                None => strings_from(&JsonValue::Null),
            },
        }
    }
}

impl SetVmNetworkAdapterRoutingDomainMappingTool {
    /// The first problem with the request, as the message that reports it.
    pub open spec fn input_problem(
        input: SetVmNetworkAdapterRoutingDomainMappingInput,
    ) -> Option<Seq<char>> {
        if !(input.management_os == Some(true)) && !is_provided(input.vm_name) {
            Some("VM name must be provided when management_os is not enabled"@)
        } else if input.routing_domain_id is None && input.routing_domain_name is None {
            Some("At least one of routing_domain_id or routing_domain_name must be provided"@)
        } else if input.new_routing_domain_name is None
            && input.isolation_id@.len() == 0
            && input.isolation_name@.len() == 0 {
            Some(
                "At least one of new_routing_domain_name, isolation_id, or isolation_name must be provided"@,
            )
        } else if input.routing_domain_id matches Some(s) && is_blank(s@) {
            Some("routing_domain_id must not be empty"@)
        } else if input.routing_domain_name matches Some(s) && is_blank(s@) {
            Some("routing_domain_name must not be empty"@)
        } else if input.new_routing_domain_name matches Some(s) && is_blank(s@) {
            Some("new_routing_domain_name must not be empty"@)
        } else {
            None
        }
    }

    /// The arguments of the cmdlet.
    pub open spec fn command_args(
        input: SetVmNetworkAdapterRoutingDomainMappingInput,
    ) -> Seq<Seq<char>> {
        seq!["Set-VMNetworkAdapterRoutingDomainMapping"@]
            + target_args(input.management_os == Some(true), input.vm_name)
            + opt_quoted("-VMNetworkAdapterName"@, input.vm_network_adapter_name)
            + opt_quoted("-ComputerName"@, input.computer_name)
            + opt_quoted("-RoutingDomainID"@, input.routing_domain_id)
            + opt_quoted("-RoutingDomainName"@, input.routing_domain_name)
            + opt_quoted("-NewRoutingDomainName"@, input.new_routing_domain_name)
            + (if input.isolation_id@.len() > 0 {
                seq![number_list_arg("-IsolationID"@, input.isolation_id@)]
            } else {
                Seq::empty()
            })
            + (if input.isolation_name@.len() > 0 {
                seq![list_arg("-IsolationName"@, input.isolation_name@)]
            } else {
                Seq::empty()
            })
            + seq!["-PassThru"@]
    }

    /// The script that runs for a valid request.
    pub open spec fn script(input: SetVmNetworkAdapterRoutingDomainMappingInput) -> Seq<char> {
        join(Self::command_args(input), seq![' ']) + SELECT@
    }

    /// Checks the request and builds its script.
    pub fn build_script(
        input: &SetVmNetworkAdapterRoutingDomainMappingInput,
    ) -> (r: Result<String, ToolError>)
        ensures
            script_outcome(r, Self::input_problem(*input), Self::script(*input)),
    {
        let management_os = matches!(input.management_os, Some(true));
        if !management_os && !option_is_provided(&input.vm_name) {
            return Err(invalid_input(
                "VM name must be provided when management_os is not enabled",
            ));
        }
        if input.routing_domain_id.is_none() && input.routing_domain_name.is_none() {
            return Err(invalid_input(
                "At least one of routing_domain_id or routing_domain_name must be provided",
            ));
        }
        if input.new_routing_domain_name.is_none()
            && input.isolation_id.len() == 0
            && input.isolation_name.len() == 0 {
            return Err(invalid_input(
                "At least one of new_routing_domain_name, isolation_id, or isolation_name must be provided",
            ));
        }
        if option_is_blank(&input.routing_domain_id) {
            return Err(invalid_input("routing_domain_id must not be empty"));
        }
        if option_is_blank(&input.routing_domain_name) {
            return Err(invalid_input("routing_domain_name must not be empty"));
        }
        if option_is_blank(&input.new_routing_domain_name) {
            return Err(invalid_input("new_routing_domain_name must not be empty"));
        }
        let mut args = ArgList::new("Set-VMNetworkAdapterRoutingDomainMapping");
        args.push_target(management_os, &input.vm_name);
        args.push_opt_quoted("-VMNetworkAdapterName", &input.vm_network_adapter_name);
        args.push_opt_quoted("-ComputerName", &input.computer_name);
        args.push_opt_quoted("-RoutingDomainID", &input.routing_domain_id);
        args.push_opt_quoted("-RoutingDomainName", &input.routing_domain_name);
        args.push_opt_quoted("-NewRoutingDomainName", &input.new_routing_domain_name);
        if input.isolation_id.len() > 0 {
            args.push_number_list("-IsolationID", &input.isolation_id);
        }
        if input.isolation_name.len() > 0 {
            args.push_quoted_list("-IsolationName", input.isolation_name.as_slice());
        }
        args.push_literal("-PassThru");
        assert(args@ === Self::command_args(*input));
        Ok(args.to_command_with(SELECT))
    }

    /// Reads the answer from what the script printed: one entry per record.
    pub fn parse_output(raw: JsonValue) -> (r: SetVmNetworkAdapterRoutingDomainMappingOutput)
        ensures
            describes_all(r.mappings@, raw.records()),
    {
        SetVmNetworkAdapterRoutingDomainMappingOutput { mappings: decode_records(raw) }
    }

    /// Reads the answer from the text the script printed; blank text reads as
    /// an empty list, and text that is not JSON is a `Json` error.
    pub fn read_output(printed: &str) -> (r: Result<SetVmNetworkAdapterRoutingDomainMappingOutput, ToolError>)
        ensures
            match parsed_json(effective_output(printed@)) {
                Some(raw) => r matches Ok(out) && describes_all(out.mappings@, raw.records()),
                None => r matches Err(ToolError::Json(_)),
            },
    {
        match read_printed(printed) {
            Ok(raw) => Ok(Self::parse_output(raw)),
            Err(e) => Err(e),
        }
    }

    /// Every value of a valid request reaches the script that `build_script`
    /// returns under its own flag: each flag below stands in the script
    /// followed by the value of the field of the same name.
    pub proof fn lemma_script_carries_each_value(
        input: SetVmNetworkAdapterRoutingDomainMappingInput,
    )
        requires
            Self::input_problem(input) is None,
        ensures
            input.management_os == Some(true) ==> holds(Self::script(input), "-ManagementOS"@),
            input.vm_name matches Some(v) ==> !(input.management_os == Some(true)) ==> holds(
                Self::script(input),
                quoted_arg("-VMName"@, v@),
            ),
            input.vm_network_adapter_name matches Some(v) ==> holds(
                Self::script(input),
                quoted_arg("-VMNetworkAdapterName"@, v@),
            ),
            input.computer_name matches Some(v) ==> holds(
                Self::script(input),
                quoted_arg("-ComputerName"@, v@),
            ),
            input.routing_domain_id matches Some(v) ==> holds(
                Self::script(input),
                quoted_arg("-RoutingDomainID"@, v@),
            ),
            input.routing_domain_name matches Some(v) ==> holds(
                Self::script(input),
                quoted_arg("-RoutingDomainName"@, v@),
            ),
            input.new_routing_domain_name matches Some(v) ==> holds(
                Self::script(input),
                quoted_arg("-NewRoutingDomainName"@, v@),
            ),
            input.isolation_id@.len() > 0 ==> holds(
                Self::script(input),
                number_list_arg("-IsolationID"@, input.isolation_id@),
            ),
            input.isolation_name@.len() > 0 ==> holds(
                Self::script(input),
                list_arg("-IsolationName"@, input.isolation_name@),
            ),
    {
        Self::script_carries_management_os(input);
        Self::script_carries_vm_name(input);
        Self::script_carries_vm_network_adapter_name(input);
        Self::script_carries_computer_name(input);
        Self::script_carries_routing_domain_id(input);
        Self::script_carries_routing_domain_name(input);
        Self::script_carries_new_routing_domain_name(input);
        Self::script_carries_isolation_id(input);
        Self::script_carries_isolation_name(input);
    }

    proof fn script_carries_management_os(input: SetVmNetworkAdapterRoutingDomainMappingInput)
        ensures
            input.management_os == Some(true) ==> holds(Self::script(input), "-ManagementOS"@),
    {
        broadcast use lemma_add_contains, lemma_push_contains;

        let args = Self::command_args(input);
        let tail = SELECT@;
        if input.management_os == Some(true) {
            lemma_script_holds_argument(args, tail, "-ManagementOS"@);
        }
    }

    proof fn script_carries_vm_name(input: SetVmNetworkAdapterRoutingDomainMappingInput)
        ensures
            input.vm_name matches Some(v) ==> !(input.management_os == Some(true)) ==> holds(
                Self::script(input),
                quoted_arg("-VMName"@, v@),
            ),
    {
        broadcast use lemma_add_contains, lemma_push_contains;

        let args = Self::command_args(input);
        let tail = SELECT@;
        if !(input.management_os == Some(true)) && input.vm_name is Some {
            lemma_script_holds_argument(args, tail, quoted_arg("-VMName"@, input.vm_name->0@));
        }
    }

    proof fn script_carries_vm_network_adapter_name(
        input: SetVmNetworkAdapterRoutingDomainMappingInput,
    )
        ensures
            input.vm_network_adapter_name matches Some(v) ==> holds(
                Self::script(input),
                quoted_arg("-VMNetworkAdapterName"@, v@),
            ),
    {
        broadcast use lemma_add_contains, lemma_push_contains;

        let args = Self::command_args(input);
        let tail = SELECT@;
        if let Some(v) = input.vm_network_adapter_name {
            lemma_script_holds_argument(args, tail, quoted_arg("-VMNetworkAdapterName"@, v@));
        }
    }

    proof fn script_carries_computer_name(input: SetVmNetworkAdapterRoutingDomainMappingInput)
        ensures
            input.computer_name matches Some(v) ==> holds(
                Self::script(input),
                quoted_arg("-ComputerName"@, v@),
            ),
    {
        broadcast use lemma_add_contains, lemma_push_contains;

        let args = Self::command_args(input);
        let tail = SELECT@;
        if let Some(v) = input.computer_name {
            lemma_script_holds_argument(args, tail, quoted_arg("-ComputerName"@, v@));
        }
    }

    proof fn script_carries_routing_domain_id(input: SetVmNetworkAdapterRoutingDomainMappingInput)
        ensures
            input.routing_domain_id matches Some(v) ==> holds(
                Self::script(input),
                quoted_arg("-RoutingDomainID"@, v@),
            ),
    {
        broadcast use lemma_add_contains, lemma_push_contains;

        let args = Self::command_args(input);
        let tail = SELECT@;
        if let Some(v) = input.routing_domain_id {
            lemma_script_holds_argument(args, tail, quoted_arg("-RoutingDomainID"@, v@));
        }
    }

    proof fn script_carries_routing_domain_name(input: SetVmNetworkAdapterRoutingDomainMappingInput)
        ensures
            input.routing_domain_name matches Some(v) ==> holds(
                Self::script(input),
                quoted_arg("-RoutingDomainName"@, v@),
            ),
    {
        broadcast use lemma_add_contains, lemma_push_contains;

        let args = Self::command_args(input);
        let tail = SELECT@;
        if let Some(v) = input.routing_domain_name {
            lemma_script_holds_argument(args, tail, quoted_arg("-RoutingDomainName"@, v@));
        }
    }

    proof fn script_carries_new_routing_domain_name(
        input: SetVmNetworkAdapterRoutingDomainMappingInput,
    )
        ensures
            input.new_routing_domain_name matches Some(v) ==> holds(
                Self::script(input),
                quoted_arg("-NewRoutingDomainName"@, v@),
            ),
    {
        broadcast use lemma_add_contains, lemma_push_contains;

        let args = Self::command_args(input);
        let tail = SELECT@;
        if let Some(v) = input.new_routing_domain_name {
            lemma_script_holds_argument(args, tail, quoted_arg("-NewRoutingDomainName"@, v@));
        }
    }

    proof fn script_carries_isolation_id(input: SetVmNetworkAdapterRoutingDomainMappingInput)
        ensures
            input.isolation_id@.len() > 0 ==> holds(
                Self::script(input),
                number_list_arg("-IsolationID"@, input.isolation_id@),
            ),
    {
        broadcast use lemma_add_contains, lemma_push_contains;

        let args = Self::command_args(input);
        let tail = SELECT@;
        if input.isolation_id@.len() > 0 {
            lemma_script_holds_argument(
                args,
                tail,
                number_list_arg("-IsolationID"@, input.isolation_id@),
            );
        }
    }

    proof fn script_carries_isolation_name(input: SetVmNetworkAdapterRoutingDomainMappingInput)
        ensures
            input.isolation_name@.len() > 0 ==> holds(
                Self::script(input),
                list_arg("-IsolationName"@, input.isolation_name@),
            ),
    {
        broadcast use lemma_add_contains, lemma_push_contains;

        let args = Self::command_args(input);
        let tail = SELECT@;
        if input.isolation_name@.len() > 0 {
            lemma_script_holds_argument(
                args,
                tail,
                list_arg("-IsolationName"@, input.isolation_name@),
            );
        }
    }

    /// Each entry of the answer reads the printed record at its place: every
    /// field holds the record's member of the matching name.
    pub proof fn lemma_answer_reads_each_record(
        raw: JsonValue,
        out: SetVmNetworkAdapterRoutingDomainMappingOutput,
    )
        requires
            describes_all(out.mappings@, raw.records()),
        ensures
            out.mappings@.len() == raw.records().len(),
            forall|i: int|
                #![trigger out.mappings@[i]]
                0 <= i < raw.records().len() ==> {
                    &&& out.mappings@[i].routing_domain_id@
                        == raw.records()[i].text_or_empty("RoutingDomainID"@)
                    &&& out.mappings@[i].routing_domain_name@
                        == raw.records()[i].text_or_empty("RoutingDomainName"@)
                    &&& out.mappings@[i].isolation_id@
                        == int_list(raw.records()[i].at("IsolationID"@))
                    &&& texts(out.mappings@[i].isolation_name@)
                        == string_list(raw.records()[i].at("IsolationName"@))
                },
    {
        assert forall|i: int| 0 <= i < raw.records().len() implies {
            &&& out.mappings@[i].routing_domain_id@
                == raw.records()[i].text_or_empty("RoutingDomainID"@)
            &&& out.mappings@[i].routing_domain_name@
                == raw.records()[i].text_or_empty("RoutingDomainName"@)
            &&& out.mappings@[i].isolation_id@ == int_list(raw.records()[i].at("IsolationID"@))
            &&& texts(out.mappings@[i].isolation_name@)
                == string_list(raw.records()[i].at("IsolationName"@))
        } by {
            assert(out.mappings@[i].describes(raw.records()[i]));
        }
    }

    /// A request is valid only when it passes every check: none of the
    /// conditions that refuse a request holds of it.
    pub proof fn lemma_valid_request_passes_every_check(
        input: SetVmNetworkAdapterRoutingDomainMappingInput,
    )
        requires
            Self::input_problem(input) is None,
        ensures
            !(!(input.management_os == Some(true)) && !is_provided(input.vm_name)),
            !(input.routing_domain_id is None && input.routing_domain_name is None),
            !(input.new_routing_domain_name is None && input.isolation_id@.len() == 0 && input.isolation_name@.len() == 0),
            !(input.routing_domain_id matches Some(s) && is_blank(s@)),
            !(input.routing_domain_name matches Some(s) && is_blank(s@)),
            !(input.new_routing_domain_name matches Some(s) && is_blank(s@)),
    {
    }

    /// A valid request names its target: the management operating system, or
    /// the virtual machine it names.
    pub proof fn lemma_valid_request_names_target(
        input: SetVmNetworkAdapterRoutingDomainMappingInput,
    )
        requires
            Self::input_problem(input) is None,
        ensures
            target_args(input.management_os == Some(true), input.vm_name).len() == 1,
    {
    }
}

/// The texts of a printed list: each element of an array (the empty text
/// for one that is not a string), or a single string; nothing otherwise.
pub open spec fn string_list(v: JsonValue) -> Seq<Seq<char>> {
    match v {
        JsonValue::Array(a) => texts_or_empty(a@),
        JsonValue::String(s) => seq![s@],
        _ => Seq::empty(),
    }
}

/// `filter_map(as_i64)` with each number cut to an `i32`: the integers among
/// the values, in order.
pub open spec fn int_values(items: Seq<JsonValue>) -> Seq<i32>
    decreases items.len(),
{
    if items.len() == 0 {
        Seq::empty()
    } else {
        int_values(items.drop_last()) + match items.last().i64_value() {
            Some(n) => seq![n as i32],
            None => Seq::empty(),
        }
    }
}

/// The integers of a printed list: those among the elements of an array, or
/// a single number; nothing otherwise.
pub open spec fn int_list(v: JsonValue) -> Seq<i32> {
    match v {
        JsonValue::Array(a) => int_values(a@),
        JsonValue::Number(_) => match v.i64_value() {
            Some(n) => seq![n as i32],
            None => Seq::empty(),
        },
        _ => Seq::empty(),
    }
}

/// Reads a list of texts: an array (an element that is not a string reads
/// as the empty text) or a single string.
pub fn strings_from(value: &JsonValue) -> (r: Vec<String>)
    ensures
        texts(r@) == string_list(*value),
{
    match value {
        JsonValue::Array(a) => strings_or_empty(a),
        JsonValue::String(s) => {
            let r = vec![s.clone()];
            assert(texts(r@) =~= seq![s@]);
            r
        },
        _ => Vec::new(),
    }
}

/// Reads a list of integers: those among the elements of an array, or a
/// single number; each is cut to an `i32`.
pub fn ints_from(value: &JsonValue) -> (r: Vec<i32>)
    ensures
        r@ == int_list(*value),
{
    match value {
        JsonValue::Array(items) => {
            let mut out: Vec<i32> = Vec::new();
            let mut i: usize = 0;
            while i < items.len()
                invariant
                    i <= items.len(),
                    out@ == int_values(items@.take(i as int)),
                decreases items.len() - i,
            {
                assert(items@.take(i + 1).drop_last() =~= items@.take(i as int));
                if let Some(n) = items[i].as_i64() {
                    out.push(n as i32);
                }
                assert(out@ =~= int_values(items@.take(i + 1)));
                i = i + 1;
            }
            assert(items@.take(items.len() as int) =~= items@);
            out
        },
        JsonValue::Number(_) => match value.as_i64() {
            Some(n) => {
                let r = vec![n as i32];
                assert(r@ =~= seq![n as i32]);
                r
            },
            None => Vec::new(),
        },
        _ => Vec::new(),
    }
}

} // verus!
