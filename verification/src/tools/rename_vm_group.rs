//! `hyperv_rename_vm_group`: renames virtual machine groups.
use vstd::prelude::*;
use crate::command::{
    holds, join, lemma_add_contains, lemma_push_contains, lemma_script_holds_argument, opt_quoted,
    quoted_arg, ArgList,
};
use crate::error::{invalid_input, is_invalid_input, script_outcome, ToolError};
use crate::json::{
    decode_all, describes_all, effective_output, parsed_json, read_printed, FromJson, JsonValue,
};
use crate::text::{is_blank, option_is_blank, text_is_blank};

verus! {

/// The tool's name.
pub const NAME: &'static str = "hyperv_rename_vm_group";

/// What the tool does.
pub const DESCRIPTION: &'static str = "Renames virtual machine groups.";

/// What the script runs after the cmdlet: the fields it prints, as JSON.
pub const SELECT: &'static str = " | Select-Object Name, Id, @{N='GroupType';E={$_.GroupType.ToString()}}, VMMembers, VMGroupMembers, ComputerName | ConvertTo-Json -Compress -Depth 10";

/// What the tool is asked.
#[derive(Debug)]
pub struct RenameVmGroupInput {
    /// Current name of the virtual machine group.
    pub name: String,
    /// New name for the group.
    pub new_name: String,
    /// Hyper-V host to target. Defaults to localhost.
    pub computer_name: Option<String>,
}

/// The renamed group, as the host reports it.
#[derive(Debug)]
pub struct VmGroupRenameInfo {
    pub name: String,
    pub id: String,
    pub group_type: String,
    pub vm_members: Vec<VmGroupMemberInfo>,
    pub vm_group_members: Vec<VmGroupMemberInfo>,
    pub computer_name: String,
}

/// A member of the group: a virtual machine or another group.
#[derive(Debug)]
pub struct VmGroupMemberInfo {
    pub name: String,
    pub id: String,
}

/// What the tool answers.
#[derive(Debug)]
pub struct RenameVmGroupOutput {
    pub group: VmGroupRenameInfo,
}

/// The tool.
#[derive(Default)]
pub struct RenameVmGroupTool;

impl RenameVmGroupTool {
    /// The first problem with the request, as the message that reports it.
    pub open spec fn input_problem(input: RenameVmGroupInput) -> Option<Seq<char>> {
        if is_blank(input.name@) {
            Some("name must not be empty"@)
        } else if is_blank(input.new_name@) {
            Some("new_name must not be empty"@)
        } else if input.computer_name matches Some(s) && is_blank(s@) {
            Some("computer_name must not be empty when provided"@)
        } else {
            None
        }
    }

    /// The arguments of the cmdlet.
    pub open spec fn command_args(input: RenameVmGroupInput) -> Seq<Seq<char>> {
        seq![
            "Rename-VMGroup"@,
            quoted_arg("-Name"@, input.name@),
            quoted_arg("-NewName"@, input.new_name@),
        ]
            + opt_quoted("-ComputerName"@, input.computer_name)
    }

    /// The script that runs for a valid request.
    pub open spec fn script(input: RenameVmGroupInput) -> Seq<char> {
        join(Self::command_args(input), seq![' ']) + SELECT@
    }

    /// Checks the request and builds its script.
    pub fn build_script(input: &RenameVmGroupInput) -> (r: Result<String, ToolError>)
        ensures
            script_outcome(r, Self::input_problem(*input), Self::script(*input)),
    {
        if text_is_blank(input.name.as_str()) {
            return Err(invalid_input("name must not be empty"));
        }
        if text_is_blank(input.new_name.as_str()) {
            return Err(invalid_input("new_name must not be empty"));
        }
        if option_is_blank(&input.computer_name) {
            return Err(invalid_input("computer_name must not be empty when provided"));
        }
        let mut args = ArgList::new("Rename-VMGroup");
        args.push_quoted("-Name", input.name.as_str());
        args.push_quoted("-NewName", input.new_name.as_str());
        assert(args@ =~= seq![
            "Rename-VMGroup"@,
            quoted_arg("-Name"@, input.name@),
            quoted_arg("-NewName"@, input.new_name@),
        ]);
        args.push_opt_quoted("-ComputerName", &input.computer_name);
        assert(args@ === Self::command_args(*input));
        Ok(args.to_command_with(SELECT))
    }

    /// Every value of a valid request reaches the script that `build_script`
    /// returns under its own flag: each flag below stands in the script
    /// followed by the value of the field of the same name.
    pub proof fn lemma_script_carries_each_value(input: RenameVmGroupInput)
        requires
            Self::input_problem(input) is None,
        ensures
            holds(Self::script(input), quoted_arg("-Name"@, input.name@)),
            holds(Self::script(input), quoted_arg("-NewName"@, input.new_name@)),
            input.computer_name matches Some(v) ==> holds(
                Self::script(input),
                quoted_arg("-ComputerName"@, v@),
            ),
    {
        Self::script_carries_name(input);
        Self::script_carries_new_name(input);
        Self::script_carries_computer_name(input);
    }

    proof fn script_carries_name(input: RenameVmGroupInput)
        ensures
            holds(Self::script(input), quoted_arg("-Name"@, input.name@)),
    {
        broadcast use lemma_add_contains, lemma_push_contains;

        let args = Self::command_args(input);
        let tail = SELECT@;
        lemma_script_holds_argument(args, tail, quoted_arg("-Name"@, input.name@));
    }

    proof fn script_carries_new_name(input: RenameVmGroupInput)
        ensures
            holds(Self::script(input), quoted_arg("-NewName"@, input.new_name@)),
    {
        broadcast use lemma_add_contains, lemma_push_contains;

        let args = Self::command_args(input);
        let tail = SELECT@;
        lemma_script_holds_argument(args, tail, quoted_arg("-NewName"@, input.new_name@));
    }

    proof fn script_carries_computer_name(input: RenameVmGroupInput)
        ensures
            input.computer_name matches Some(v) ==> holds(
                Self::script(input),
                quoted_arg("-ComputerName"@, v@),
            ),
    {
        broadcast use lemma_add_contains, lemma_push_contains;

        let args = Self::command_args(input);
        let tail = SELECT@;
        if let Some(v) = input.computer_name {
            lemma_script_holds_argument(args, tail, quoted_arg("-ComputerName"@, v@));
        }
    }

    /// Reads the answer from what the script printed.
    pub fn parse_output(raw: JsonValue) -> (r: Result<RenameVmGroupOutput, ToolError>)
        ensures
            match r {
                Ok(out) => group_outcome(Ok(out.group), raw),
                Err(e) => group_outcome(Err(e), raw),
            },
    {
        match parse_vm_group_rename_info(&raw) {
            Ok(group) => Ok(RenameVmGroupOutput { group }),
            Err(e) => Err(e),
        }
    }

    /// The renamed group is read from the first printed record, or from the
    /// one object printed: its name, id, type, host and both member lists
    /// come from the members of the matching names.
    pub proof fn lemma_group_reads_its_record(raw: JsonValue, group: VmGroupRenameInfo)
        requires
            group_outcome(Ok(group), raw),
        ensures
            raw is Array || raw is Object,
            ({
                let record = match raw {
                    JsonValue::Array(items) => items@[0],
                    _ => raw,
                };
                &&& group.name@ == record.text_or_empty("Name"@)
                &&& group.id@ == record.text_or_empty("Id"@)
                &&& group.group_type@ == record.text_or_empty("GroupType"@)
                &&& group.computer_name@ == record.text_or_empty("ComputerName"@)
                &&& members_describe(group.vm_members@, record.at("VMMembers"@))
                &&& members_describe(group.vm_group_members@, record.at("VMGroupMembers"@))
            }),
    {
    }

    /// Reads the answer from the text the script printed; blank text reads as
    /// an empty list, and text that is not JSON is a `Json` error.
    pub fn read_output(printed: &str) -> (r: Result<RenameVmGroupOutput, ToolError>)
        ensures
            match parsed_json(effective_output(printed@)) {
                Some(raw) => match r {
                    Ok(out) => group_outcome(Ok(out.group), raw),
                    Err(e) => group_outcome(Err(e), raw),
                },
                None => r matches Err(ToolError::Json(_)),
            },
    {
        match read_printed(printed) {
            Ok(raw) => Self::parse_output(raw),
            Err(e) => Err(e),
        }
    }
}

impl FromJson for VmGroupMemberInfo {
    open spec fn describes(&self, item: JsonValue) -> bool {
        &&& self.name@ == item.text_or_empty("Name"@)
        &&& self.id@ == item.text_or_empty("Id"@)
    }

    fn from_json(item: &JsonValue) -> (r: Self) {
        VmGroupMemberInfo { name: item.text_or_empty_at("Name"), id: item.text_or_empty_at("Id") }
    }
}

/// The members read from a printed list: one per element of an array, none
/// for any other value.
pub open spec fn members_describe(out: Seq<VmGroupMemberInfo>, value: JsonValue) -> bool {
    match value {
        JsonValue::Array(items) => describes_all(out, items@),
        _ => out.len() == 0,
    }
}

/// Reads the members of a group: one per element of an array, none for any
/// other value.
pub fn parse_rename_member_array(value: &JsonValue) -> (r: Vec<VmGroupMemberInfo>)
    ensures
        members_describe(r@, *value),
{
    match value {
        JsonValue::Array(items) => decode_all(items),
        _ => Vec::new(),
    }
}

impl VmGroupRenameInfo {
    /// The group holds what the record holds.
    pub open spec fn describes(self, item: JsonValue) -> bool {
        &&& self.name@ == item.text_or_empty("Name"@)
        &&& self.id@ == item.text_or_empty("Id"@)
        &&& self.group_type@ == item.text_or_empty("GroupType"@)
        &&& members_describe(self.vm_members@, item.at("VMMembers"@))
        &&& members_describe(self.vm_group_members@, item.at("VMGroupMembers"@))
        &&& self.computer_name@ == item.text_or_empty("ComputerName"@)
    }
}

/// Reads the members of the group listed under `key`.
fn members_at(value: &JsonValue, key: &str) -> (r: Vec<VmGroupMemberInfo>)
    ensures
        members_describe(r@, value.at(key@)),
{
    match value.get(key) {
        Some(v) => parse_rename_member_array(v),
        None => Vec::new(),
    }
}

/// Reads the renamed group from one record.
pub fn build_rename_group_info(value: &JsonValue) -> (r: VmGroupRenameInfo)
    ensures
        r.describes(*value),
{
    VmGroupRenameInfo {
        name: value.text_or_empty_at("Name"),
        id: value.text_or_empty_at("Id"),
        group_type: value.text_or_empty_at("GroupType"),
        vm_members: members_at(value, "VMMembers"),
        vm_group_members: members_at(value, "VMGroupMembers"),
        computer_name: value.text_or_empty_at("ComputerName"),
    }
}

/// What reading the script's output gives: the first record of an array, an
/// object as the one record; an error for an empty array and for any other
/// value, which the message shows.
pub open spec fn group_outcome(r: Result<VmGroupRenameInfo, ToolError>, raw: JsonValue) -> bool {
    match raw {
        JsonValue::Array(items) => if items@.len() == 0 {
            r matches Err(e) && is_invalid_input(e, "Cmdlet returned an empty array"@)
        } else {
            r matches Ok(g) && g.describes(items@[0])
        },
        JsonValue::Object(_) => r matches Ok(g) && g.describes(raw),
        _ => r matches Err(e) && is_invalid_input(
            e,
            "Unexpected cmdlet output: "@ + raw.scalar_text(),
        ),
    }
}

/// Reads the renamed group from what the script printed.
pub fn parse_vm_group_rename_info(raw: &JsonValue) -> (r: Result<VmGroupRenameInfo, ToolError>)
    ensures
        group_outcome(r, *raw),
{
    match raw {
        JsonValue::Array(items) => {
            if items.len() == 0 {
                Err(invalid_input("Cmdlet returned an empty array"))
            } else {
                Ok(build_rename_group_info(&items[0]))
            }
        },
        JsonValue::Object(_) => Ok(build_rename_group_info(raw)),
        _ => {
            let mut msg = "Unexpected cmdlet output: ".to_string();
            let shown = raw.display_scalar();
            msg.append(shown.as_str());
            Err(ToolError::InvalidInput(msg))
        },
    }
}

} // verus!
