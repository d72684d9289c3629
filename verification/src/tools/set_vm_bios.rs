//! `hyperv_set_vm_bios`: configures the BIOS of a Generation 1 virtual machine.
use vstd::prelude::*;
use crate::command::{
    array_arg, holds, join, lemma_add_contains, lemma_push_contains, lemma_script_holds_argument,
    opt_array, opt_quoted, quoted_arg, ArgList,
};
use crate::error::{invalid_input, script_outcome, ToolError};
use crate::json::{
    decode_records, describes_all, effective_output, parsed_json, read_printed, strings_or_empty,
    texts_or_empty, FromJson, JsonValue,
};
use crate::text::{is_blank, text_is_blank, texts};

verus! {

/// The tool's name.
pub const NAME: &'static str = "hyperv_set_vm_bios";

/// What the tool does.
pub const DESCRIPTION: &'static str = "Configures the BIOS of a Generation 1 virtual machine.";

/// What the script runs after the cmdlet: the fields it prints, as JSON.
pub const SELECT: &'static str = " | ForEach-Object { [pscustomobject]@{ VMName = $_.VMName; VMId = $_.VMId.ToString(); ComputerName = $_.ComputerName; NumLockEnabled = $_.NumLockEnabled; StartupOrder = @($_.StartupOrder | ForEach-Object {$_.ToString()}); IsDeleted = $_.IsDeleted } } | ConvertTo-Json -Compress -Depth 3";

/// What the tool is asked.
#[derive(Debug)]
pub struct SetVmBiosInput {
    /// Name of the Generation 1 virtual machine whose BIOS is to be configured.
    pub name: String,
    /// Hyper-V host on which the virtual machine resides. Defaults to localhost.
    pub computer_name: Option<String>,
    /// Boot device startup order, from first to last.
    pub startup_order: Option<Vec<String>>,
    /// Enable or disable Num Lock in the BIOS.
    pub num_lock_enabled: Option<bool>,
}

/// One record of the answer.
#[derive(Debug)]
pub struct VmBiosInfo {
    pub vm_name: String,
    pub vm_id: String,
    pub computer_name: String,
    pub num_lock_enabled: bool,
    pub startup_order: Vec<String>,
    pub is_deleted: bool,
}

/// What the tool answers.
#[derive(Debug)]
pub struct SetVmBiosOutput {
    pub bios_entries: Vec<VmBiosInfo>,
}

/// The tool.
#[derive(Default)]
pub struct SetVmBiosTool;

impl FromJson for VmBiosInfo {
    open spec fn describes(&self, item: JsonValue) -> bool {
        &&& self.vm_name@ == item.text_or_empty("VMName"@)
        &&& self.vm_id@ == item.text_or_empty("VMId"@)
        &&& self.computer_name@ == item.text_or_empty("ComputerName"@)
        &&& self.num_lock_enabled == item.flag_or_false("NumLockEnabled"@)
        &&& texts(self.startup_order@) == startup_order_of(item.at("StartupOrder"@))
        &&& self.is_deleted == item.flag_or_false("IsDeleted"@)
    }

    fn from_json(item: &JsonValue) -> (r: Self) {
        VmBiosInfo {
            vm_name: item.text_or_empty_at("VMName"),
            vm_id: item.text_or_empty_at("VMId"),
            computer_name: item.text_or_empty_at("ComputerName"),
            num_lock_enabled: item.flag_or_false_at("NumLockEnabled"),
            startup_order: match item.get("StartupOrder") {
                Some(v) => startup_order_from(v),
                None => startup_order_from(&JsonValue::Null),
            },
            is_deleted: item.flag_or_false_at("IsDeleted"),
        }
    }
}

impl SetVmBiosTool {
    /// The first problem with the request, as the message that reports it.
    pub open spec fn input_problem(input: SetVmBiosInput) -> Option<Seq<char>> {
        if is_blank(input.name@) {
            Some("VM name must not be empty"@)
        } else {
            None
        }
    }

    /// The arguments of the cmdlet.
    pub open spec fn command_args(input: SetVmBiosInput) -> Seq<Seq<char>> {
        seq!["Set-VMBios"@, quoted_arg("-VMName"@, input.name@)]
            + opt_quoted("-ComputerName"@, input.computer_name)
            + opt_array("-StartupOrder"@, input.startup_order)
            + num_lock_args(input.num_lock_enabled)
    }

    /// The script that runs for a valid request.
    pub open spec fn script(input: SetVmBiosInput) -> Seq<char> {
        join(Self::command_args(input), seq![' ']) + SELECT@
    }

    /// Checks the request and builds its script.
    pub fn build_script(input: &SetVmBiosInput) -> (r: Result<String, ToolError>)
        ensures
            script_outcome(r, Self::input_problem(*input), Self::script(*input)),
    {
        if text_is_blank(input.name.as_str()) {
            return Err(invalid_input("VM name must not be empty"));
        }
        let mut args = ArgList::new("Set-VMBios");
        args.push_quoted("-VMName", input.name.as_str());
        args.push_opt_quoted("-ComputerName", &input.computer_name);
        args.push_opt_array("-StartupOrder", &input.startup_order);
        match input.num_lock_enabled {
            Some(true) => args.push_literal("-EnableNumLock"),
            Some(false) => args.push_literal("-DisableNumLock"),
            None => {},
        }
        assert(args@ === Self::command_args(*input));
        Ok(args.to_command_with(SELECT))
    }

    /// Reads the answer from what the script printed: one entry per record.
    pub fn parse_output(raw: JsonValue) -> (r: SetVmBiosOutput)
        ensures
            describes_all(r.bios_entries@, raw.records()),
    {
        SetVmBiosOutput { bios_entries: decode_records(raw) }
    }

    /// Reads the answer from the text the script printed; blank text reads as
    /// an empty list, and text that is not JSON is a `Json` error.
    pub fn read_output(printed: &str) -> (r: Result<SetVmBiosOutput, ToolError>)
        ensures
            match parsed_json(effective_output(printed@)) {
                Some(raw) => r matches Ok(out) && describes_all(out.bios_entries@, raw.records()),
                None => r matches Err(ToolError::Json(_)),
            },
    {
        match read_printed(printed) {
            Ok(raw) => Ok(Self::parse_output(raw)),
            Err(e) => Err(e),
        }
    }

    /// Every value of a valid request reaches the script that `build_script`
    /// returns under its own flag: each flag below stands in the script
    /// followed by the value of the field of the same name.
    pub proof fn lemma_script_carries_each_value(input: SetVmBiosInput)
        requires
            Self::input_problem(input) is None,
        ensures
            holds(Self::script(input), quoted_arg("-VMName"@, input.name@)),
            input.computer_name matches Some(v) ==> holds(
                Self::script(input),
                quoted_arg("-ComputerName"@, v@),
            ),
            input.startup_order matches Some(v) ==> holds(
                Self::script(input),
                array_arg("-StartupOrder"@, v@),
            ),
            input.num_lock_enabled == Some(true) ==> holds(Self::script(input), "-EnableNumLock"@),
            input.num_lock_enabled == Some(false) ==> holds(
                Self::script(input),
                "-DisableNumLock"@,
            ),
    {
        Self::script_carries_name(input);
        Self::script_carries_computer_name(input);
        Self::script_carries_startup_order(input);
        Self::script_carries_num_lock_enabled(input);
        Self::script_carries_num_lock_enabled_2(input);
    }

    proof fn script_carries_name(input: SetVmBiosInput)
        ensures
            holds(Self::script(input), quoted_arg("-VMName"@, input.name@)),
    {
        broadcast use lemma_add_contains, lemma_push_contains;

        let args = Self::command_args(input);
        let tail = SELECT@;
        lemma_script_holds_argument(args, tail, quoted_arg("-VMName"@, input.name@));
    }

    proof fn script_carries_computer_name(input: SetVmBiosInput)
        ensures
            input.computer_name matches Some(v) ==> holds(
                Self::script(input),
                quoted_arg("-ComputerName"@, v@),
            ),
    {
        broadcast use lemma_add_contains, lemma_push_contains;

        let args = Self::command_args(input);
        let tail = SELECT@;
        if let Some(v) = input.computer_name {
            lemma_script_holds_argument(args, tail, quoted_arg("-ComputerName"@, v@));
        }
    }

    proof fn script_carries_startup_order(input: SetVmBiosInput)
        ensures
            input.startup_order matches Some(v) ==> holds(
                Self::script(input),
                array_arg("-StartupOrder"@, v@),
            ),
    {
        broadcast use lemma_add_contains, lemma_push_contains;

        let args = Self::command_args(input);
        let tail = SELECT@;
        if let Some(v) = input.startup_order {
            lemma_script_holds_argument(args, tail, array_arg("-StartupOrder"@, v@));
        }
    }

    proof fn script_carries_num_lock_enabled(input: SetVmBiosInput)
        ensures
            input.num_lock_enabled == Some(true) ==> holds(Self::script(input), "-EnableNumLock"@),
    {
        broadcast use lemma_add_contains, lemma_push_contains;

        let args = Self::command_args(input);
        let tail = SELECT@;
        if input.num_lock_enabled == Some(true) {
            lemma_script_holds_argument(args, tail, "-EnableNumLock"@);
        }
    }

    proof fn script_carries_num_lock_enabled_2(input: SetVmBiosInput)
        ensures
            input.num_lock_enabled == Some(false) ==> holds(
                Self::script(input),
                "-DisableNumLock"@,
            ),
    {
        broadcast use lemma_add_contains, lemma_push_contains;

        let args = Self::command_args(input);
        let tail = SELECT@;
        if input.num_lock_enabled == Some(false) {
            lemma_script_holds_argument(args, tail, "-DisableNumLock"@);
        }
    }

    /// Each entry of the answer reads the printed record at its place: every
    /// field holds the record's member of the matching name.
    pub proof fn lemma_answer_reads_each_record(raw: JsonValue, out: SetVmBiosOutput)
        requires
            describes_all(out.bios_entries@, raw.records()),
        ensures
            out.bios_entries@.len() == raw.records().len(),
            forall|i: int|
                #![trigger out.bios_entries@[i]]
                0 <= i < raw.records().len() ==> {
                    &&& out.bios_entries@[i].vm_name@ == raw.records()[i].text_or_empty("VMName"@)
                    &&& out.bios_entries@[i].vm_id@ == raw.records()[i].text_or_empty("VMId"@)
                    &&& out.bios_entries@[i].computer_name@
                        == raw.records()[i].text_or_empty("ComputerName"@)
                    &&& out.bios_entries@[i].num_lock_enabled
                        == raw.records()[i].flag_or_false("NumLockEnabled"@)
                    &&& texts(out.bios_entries@[i].startup_order@)
                        == startup_order_of(raw.records()[i].at("StartupOrder"@))
                    &&& out.bios_entries@[i].is_deleted
                        == raw.records()[i].flag_or_false("IsDeleted"@)
                },
    {
        assert forall|i: int| 0 <= i < raw.records().len() implies {
            &&& out.bios_entries@[i].vm_name@ == raw.records()[i].text_or_empty("VMName"@)
            &&& out.bios_entries@[i].vm_id@ == raw.records()[i].text_or_empty("VMId"@)
            &&& out.bios_entries@[i].computer_name@
                == raw.records()[i].text_or_empty("ComputerName"@)
            &&& out.bios_entries@[i].num_lock_enabled
                == raw.records()[i].flag_or_false("NumLockEnabled"@)
            &&& texts(out.bios_entries@[i].startup_order@)
                == startup_order_of(raw.records()[i].at("StartupOrder"@))
            &&& out.bios_entries@[i].is_deleted == raw.records()[i].flag_or_false("IsDeleted"@)
        } by {
            assert(out.bios_entries@[i].describes(raw.records()[i]));
        }
    }
}

/// `-EnableNumLock` or `-DisableNumLock` when the setting is given.
pub open spec fn num_lock_args(enabled: Option<bool>) -> Seq<Seq<char>> {
    match enabled {
        Some(true) => seq!["-EnableNumLock"@],
        Some(false) => seq!["-DisableNumLock"@],
        None => Seq::empty(),
    }
}

/// The boot order as printed: the texts of an array, or of the array under
/// `value` of an object; nothing otherwise.
pub open spec fn startup_order_of(v: JsonValue) -> Seq<Seq<char>> {
    match v {
        JsonValue::Array(a) => texts_or_empty(a@),
        JsonValue::Object(_) => match v.member("value"@) {
            Some(inner) => match inner.array_items() {
                Some(items) => texts_or_empty(items),
                None => Seq::empty(),
            },
            None => Seq::empty(),
        },
        _ => Seq::empty(),
    }
}

/// Reads the boot order from what the script printed for it.
pub fn startup_order_from(v: &JsonValue) -> (r: Vec<String>)
    ensures
        texts(r@) == startup_order_of(*v),
{
    match v {
        JsonValue::Array(a) => strings_or_empty(a),
        JsonValue::Object(_) => match v.get("value") {
            Some(inner) => match inner.as_array() {
                Some(items) => strings_or_empty(items),
                None => Vec::new(),
            },
            None => Vec::new(),
        },
        _ => Vec::new(),
    }
}

} // verus!
