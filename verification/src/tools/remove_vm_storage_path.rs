//! `hyperv_remove_vm_storage_path`: removes a path from a storage resource pool.
use vstd::prelude::*;
use crate::command::{
    holds, join, lemma_add_contains, lemma_push_contains, lemma_script_holds_argument, opt_quoted,
    quoted_arg, ArgList,
};
use crate::error::{invalid_input, script_outcome, ToolError};
use crate::text::{is_blank, option_is_blank, text_is_blank};

verus! {

/// The tool's name.
pub const NAME: &'static str = "hyperv_remove_vm_storage_path";

/// What the tool does.
pub const DESCRIPTION: &'static str = "Removes a path from a storage resource pool.";

/// What the tool is asked.
#[derive(Debug)]
pub struct RemoveVmStoragePathInput {
    /// Name of the storage resource pool.
    pub name: String,
    /// Path to remove.
    pub path: String,
    /// Hyper-V host to target. Defaults to localhost.
    pub computer_name: Option<String>,
}

/// What the tool answers.
#[derive(Debug)]
pub struct RemoveVmStoragePathOutput {
    pub success: bool,
}

/// The tool.
#[derive(Default)]
pub struct RemoveVmStoragePathTool;

impl RemoveVmStoragePathTool {
    /// The first problem with the request, as the message that reports it.
    pub open spec fn input_problem(input: RemoveVmStoragePathInput) -> Option<Seq<char>> {
        if is_blank(input.name@) {
            Some("name must not be empty"@)
        } else if is_blank(input.path@) {
            Some("path must not be empty"@)
        } else if input.computer_name matches Some(s) && is_blank(s@) {
            Some("computer_name must not be empty when provided"@)
        } else {
            None
        }
    }

    /// The arguments of the cmdlet.
    pub open spec fn command_args(input: RemoveVmStoragePathInput) -> Seq<Seq<char>> {
        seq![
            "Remove-VMStoragePath"@,
            quoted_arg("-Name"@, input.name@),
            quoted_arg("-Path"@, input.path@),
        ]
            + opt_quoted("-ComputerName"@, input.computer_name)
    }

    /// The script that runs for a valid request.
    pub open spec fn script(input: RemoveVmStoragePathInput) -> Seq<char> {
        join(Self::command_args(input), seq![' '])
    }

    /// Checks the request and builds its script.
    pub fn build_script(input: &RemoveVmStoragePathInput) -> (r: Result<String, ToolError>)
        ensures
            script_outcome(r, Self::input_problem(*input), Self::script(*input)),
    {
        if text_is_blank(input.name.as_str()) {
            return Err(invalid_input("name must not be empty"));
        }
        if text_is_blank(input.path.as_str()) {
            return Err(invalid_input("path must not be empty"));
        }
        if option_is_blank(&input.computer_name) {
            return Err(invalid_input("computer_name must not be empty when provided"));
        }
        let mut args = ArgList::new("Remove-VMStoragePath");
        args.push_quoted("-Name", input.name.as_str());
        args.push_quoted("-Path", input.path.as_str());
        assert(args@ =~= seq![
            "Remove-VMStoragePath"@,
            quoted_arg("-Name"@, input.name@),
            quoted_arg("-Path"@, input.path@),
        ]);
        args.push_opt_quoted("-ComputerName", &input.computer_name);
        assert(args@ === Self::command_args(*input));
        Ok(args.to_command())
    }

    /// Every value of a valid request reaches the script that `build_script`
    /// returns under its own flag: each flag below stands in the script
    /// followed by the value of the field of the same name.
    pub proof fn lemma_script_carries_each_value(input: RemoveVmStoragePathInput)
        requires
            Self::input_problem(input) is None,
        ensures
            holds(Self::script(input), quoted_arg("-Name"@, input.name@)),
            holds(Self::script(input), quoted_arg("-Path"@, input.path@)),
            input.computer_name matches Some(v) ==> holds(
                Self::script(input),
                quoted_arg("-ComputerName"@, v@),
            ),
    {
        Self::script_carries_name(input);
        Self::script_carries_path(input);
        Self::script_carries_computer_name(input);
    }

    proof fn script_carries_name(input: RemoveVmStoragePathInput)
        ensures
            holds(Self::script(input), quoted_arg("-Name"@, input.name@)),
    {
        broadcast use lemma_add_contains, lemma_push_contains;

        let args = Self::command_args(input);
        let tail = Seq::<char>::empty();
        assert(Self::script(input) =~= join(args, seq![' ']) + tail);
        lemma_script_holds_argument(args, tail, quoted_arg("-Name"@, input.name@));
    }

    proof fn script_carries_path(input: RemoveVmStoragePathInput)
        ensures
            holds(Self::script(input), quoted_arg("-Path"@, input.path@)),
    {
        broadcast use lemma_add_contains, lemma_push_contains;

        let args = Self::command_args(input);
        let tail = Seq::<char>::empty();
        assert(Self::script(input) =~= join(args, seq![' ']) + tail);
        lemma_script_holds_argument(args, tail, quoted_arg("-Path"@, input.path@));
    }

    proof fn script_carries_computer_name(input: RemoveVmStoragePathInput)
        ensures
            input.computer_name matches Some(v) ==> holds(
                Self::script(input),
                quoted_arg("-ComputerName"@, v@),
            ),
    {
        broadcast use lemma_add_contains, lemma_push_contains;

        let args = Self::command_args(input);
        let tail = Seq::<char>::empty();
        assert(Self::script(input) =~= join(args, seq![' ']) + tail);
        if let Some(v) = input.computer_name {
            lemma_script_holds_argument(args, tail, quoted_arg("-ComputerName"@, v@));
        }
    }

    /// A request is valid only when it passes every check: none of the
    /// conditions that refuse a request holds of it.
    pub proof fn lemma_valid_request_passes_every_check(input: RemoveVmStoragePathInput)
        requires
            Self::input_problem(input) is None,
        ensures
            !(is_blank(input.name@)),
            !(is_blank(input.path@)),
            !(input.computer_name matches Some(s) && is_blank(s@)),
    {
    }
}

} // verus!
