//! `hyperv_set_vm_firmware`: sets the firmware configuration of a virtual machine.
use vstd::prelude::*;
use crate::command::{
    bool_arg, holds, join, lemma_add_contains, lemma_push_contains, lemma_script_holds_argument,
    opt_bool, opt_quoted, quoted_arg, ArgList,
};
use crate::error::{invalid_input, script_outcome, ToolError};
use crate::json::{
    decode_records, describes_all, effective_output, parsed_json, read_printed, FromJson, JsonValue,
};
use crate::text::{is_blank, text_is_blank};

verus! {

/// The tool's name.
pub const NAME: &'static str = "hyperv_set_vm_firmware";

/// What the tool does.
pub const DESCRIPTION: &'static str = "Sets the firmware configuration of a virtual machine.";

/// What the script runs after the cmdlet: the fields it prints, as JSON.
pub const SELECT: &'static str = " | Select-Object VMName, @{N='SecureBoot';E={$_.SecureBoot.ToString()}}, @{N='SecureBootTemplate';E={$_.SecureBootTemplate.ToString()}}, @{N='PreferredNetworkBootProtocol';E={$_.PreferredNetworkBootProtocol.ToString()}}, AllowLegacyNetworkAdapter | ConvertTo-Json -Compress -Depth 3";

/// What the tool is asked.
#[derive(Debug)]
pub struct SetVmFirmwareInput {
    /// Name of the virtual machine whose firmware configuration is to be set.
    pub name: String,
    /// Hyper-V host on which the virtual machine resides. Defaults to localhost.
    pub computer_name: Option<String>,
    /// Enables or disables Secure Boot for Generation 2 virtual machines: On or Off.
    pub enable_secure_boot: Option<String>,
    /// Secure Boot template to apply (e.g., MicrosoftWindows, MicrosoftUEFICertificateAuthority).
    pub secure_boot_template: Option<String>,
    /// Preferred network boot protocol: IPv4, IPv6, or IPv4IPv6.
    pub preferred_network_boot_protocol: Option<String>,
    /// Allows a legacy network adapter to be used for network boot.
    pub allow_legacy_network_adapter: Option<bool>,
}

/// One record of the answer.
#[derive(Debug)]
pub struct VmFirmwareConfig {
    pub vm_name: String,
    pub secure_boot: String,
    pub secure_boot_template: String,
    pub preferred_network_boot_protocol: String,
    pub allow_legacy_network_adapter: bool,
}

/// What the tool answers.
#[derive(Debug)]
pub struct SetVmFirmwareOutput {
    pub firmware: Vec<VmFirmwareConfig>,
}

/// The tool.
#[derive(Default)]
pub struct SetVmFirmwareTool;

impl FromJson for VmFirmwareConfig {
    open spec fn describes(&self, item: JsonValue) -> bool {
        &&& self.vm_name@ == item.text_or_empty("VMName"@)
        &&& self.secure_boot@ == item.text_or_empty("SecureBoot"@)
        &&& self.secure_boot_template@ == item.text_or_empty("SecureBootTemplate"@)
        &&& self.preferred_network_boot_protocol@
            == item.text_or_empty("PreferredNetworkBootProtocol"@)
        &&& self.allow_legacy_network_adapter == item.flag_or_false("AllowLegacyNetworkAdapter"@)
    }

    fn from_json(item: &JsonValue) -> (r: Self) {
        VmFirmwareConfig {
            vm_name: item.text_or_empty_at("VMName"),
            secure_boot: item.text_or_empty_at("SecureBoot"),
            secure_boot_template: item.text_or_empty_at("SecureBootTemplate"),
            preferred_network_boot_protocol: item.text_or_empty_at("PreferredNetworkBootProtocol"),
            allow_legacy_network_adapter: item.flag_or_false_at("AllowLegacyNetworkAdapter"),
        }
    }
}

impl SetVmFirmwareTool {
    /// The first problem with the request, as the message that reports it.
    pub open spec fn input_problem(input: SetVmFirmwareInput) -> Option<Seq<char>> {
        if is_blank(input.name@) {
            Some("VM name must not be empty"@)
        } else {
            None
        }
    }

    /// The arguments of the cmdlet.
    pub open spec fn command_args(input: SetVmFirmwareInput) -> Seq<Seq<char>> {
        seq!["Set-VMFirmware"@, quoted_arg("-VMName"@, input.name@)]
            + opt_quoted("-ComputerName"@, input.computer_name)
            + opt_quoted("-EnableSecureBoot"@, input.enable_secure_boot)
            + opt_quoted("-SecureBootTemplate"@, input.secure_boot_template)
            + opt_quoted("-PreferredNetworkBootProtocol"@, input.preferred_network_boot_protocol)
            + opt_bool("-AllowLegacyNetworkAdapter"@, input.allow_legacy_network_adapter)
    }

    /// The script that runs for a valid request.
    pub open spec fn script(input: SetVmFirmwareInput) -> Seq<char> {
        join(Self::command_args(input), seq![' ']) + SELECT@
    }

    /// Checks the request and builds its script.
    pub fn build_script(input: &SetVmFirmwareInput) -> (r: Result<String, ToolError>)
        ensures
            script_outcome(r, Self::input_problem(*input), Self::script(*input)),
    {
        if text_is_blank(input.name.as_str()) {
            return Err(invalid_input("VM name must not be empty"));
        }
        let mut args = ArgList::new("Set-VMFirmware");
        args.push_quoted("-VMName", input.name.as_str());
        args.push_opt_quoted("-ComputerName", &input.computer_name);
        args.push_opt_quoted("-EnableSecureBoot", &input.enable_secure_boot);
        args.push_opt_quoted("-SecureBootTemplate", &input.secure_boot_template);
        args.push_opt_quoted(
            "-PreferredNetworkBootProtocol",
            &input.preferred_network_boot_protocol,
        );
        args.push_opt_bool("-AllowLegacyNetworkAdapter", input.allow_legacy_network_adapter);
        assert(args@ === Self::command_args(*input));
        Ok(args.to_command_with(SELECT))
    }

    /// Reads the answer from what the script printed: one entry per record.
    pub fn parse_output(raw: JsonValue) -> (r: SetVmFirmwareOutput)
        ensures
            describes_all(r.firmware@, raw.records()),
    {
        SetVmFirmwareOutput { firmware: decode_records(raw) }
    }

    /// Reads the answer from the text the script printed; blank text reads as
    /// an empty list, and text that is not JSON is a `Json` error.
    pub fn read_output(printed: &str) -> (r: Result<SetVmFirmwareOutput, ToolError>)
        ensures
            match parsed_json(effective_output(printed@)) {
                Some(raw) => r matches Ok(out) && describes_all(out.firmware@, raw.records()),
                None => r matches Err(ToolError::Json(_)),
            },
    {
        match read_printed(printed) {
            Ok(raw) => Ok(Self::parse_output(raw)),
            Err(e) => Err(e),
        }
    }

    /// Every value of a valid request reaches the script that `build_script`
    /// returns under its own flag: each flag below stands in the script
    /// followed by the value of the field of the same name.
    pub proof fn lemma_script_carries_each_value(input: SetVmFirmwareInput)
        requires
            Self::input_problem(input) is None,
        ensures
            holds(Self::script(input), quoted_arg("-VMName"@, input.name@)),
            input.computer_name matches Some(v) ==> holds(
                Self::script(input),
                quoted_arg("-ComputerName"@, v@),
            ),
            input.enable_secure_boot matches Some(v) ==> holds(
                Self::script(input),
                quoted_arg("-EnableSecureBoot"@, v@),
            ),
            input.secure_boot_template matches Some(v) ==> holds(
                Self::script(input),
                quoted_arg("-SecureBootTemplate"@, v@),
            ),
            input.preferred_network_boot_protocol matches Some(v) ==> holds(
                Self::script(input),
                quoted_arg("-PreferredNetworkBootProtocol"@, v@),
            ),
            input.allow_legacy_network_adapter matches Some(v) ==> holds(
                Self::script(input),
                bool_arg("-AllowLegacyNetworkAdapter"@, v),
            ),
    {
        Self::script_carries_name(input);
        Self::script_carries_computer_name(input);
        Self::script_carries_enable_secure_boot(input);
        Self::script_carries_secure_boot_template(input);
        Self::script_carries_preferred_network_boot_protocol(input);
        Self::script_carries_allow_legacy_network_adapter(input);
    }

    proof fn script_carries_name(input: SetVmFirmwareInput)
        ensures
            holds(Self::script(input), quoted_arg("-VMName"@, input.name@)),
    {
        broadcast use lemma_add_contains, lemma_push_contains;

        let args = Self::command_args(input);
        let tail = SELECT@;
        lemma_script_holds_argument(args, tail, quoted_arg("-VMName"@, input.name@));
    }

    proof fn script_carries_computer_name(input: SetVmFirmwareInput)
        ensures
            input.computer_name matches Some(v) ==> holds(
                Self::script(input),
                quoted_arg("-ComputerName"@, v@),
            ),
    {
        broadcast use lemma_add_contains, lemma_push_contains;

        let args = Self::command_args(input);
        let tail = SELECT@;
        if let Some(v) = input.computer_name {
            lemma_script_holds_argument(args, tail, quoted_arg("-ComputerName"@, v@));
        }
    }

    proof fn script_carries_enable_secure_boot(input: SetVmFirmwareInput)
        ensures
            input.enable_secure_boot matches Some(v) ==> holds(
                Self::script(input),
                quoted_arg("-EnableSecureBoot"@, v@),
            ),
    {
        broadcast use lemma_add_contains, lemma_push_contains;

        let args = Self::command_args(input);
        let tail = SELECT@;
        if let Some(v) = input.enable_secure_boot {
            lemma_script_holds_argument(args, tail, quoted_arg("-EnableSecureBoot"@, v@));
        }
    }

    proof fn script_carries_secure_boot_template(input: SetVmFirmwareInput)
        ensures
            input.secure_boot_template matches Some(v) ==> holds(
                Self::script(input),
                quoted_arg("-SecureBootTemplate"@, v@),
            ),
    {
        broadcast use lemma_add_contains, lemma_push_contains;

        let args = Self::command_args(input);
        let tail = SELECT@;
        if let Some(v) = input.secure_boot_template {
            lemma_script_holds_argument(args, tail, quoted_arg("-SecureBootTemplate"@, v@));
        }
    }

    proof fn script_carries_preferred_network_boot_protocol(input: SetVmFirmwareInput)
        ensures
            input.preferred_network_boot_protocol matches Some(v) ==> holds(
                Self::script(input),
                quoted_arg("-PreferredNetworkBootProtocol"@, v@),
            ),
    {
        broadcast use lemma_add_contains, lemma_push_contains;

        let args = Self::command_args(input);
        let tail = SELECT@;
        if let Some(v) = input.preferred_network_boot_protocol {
            lemma_script_holds_argument(
                args,
                tail,
                quoted_arg("-PreferredNetworkBootProtocol"@, v@),
            );
        }
    }

    proof fn script_carries_allow_legacy_network_adapter(input: SetVmFirmwareInput)
        ensures
            input.allow_legacy_network_adapter matches Some(v) ==> holds(
                Self::script(input),
                bool_arg("-AllowLegacyNetworkAdapter"@, v),
            ),
    {
        broadcast use lemma_add_contains, lemma_push_contains;

        let args = Self::command_args(input);
        let tail = SELECT@;
        if let Some(v) = input.allow_legacy_network_adapter {
            lemma_script_holds_argument(args, tail, bool_arg("-AllowLegacyNetworkAdapter"@, v));
        }
    }

    /// Each entry of the answer reads the printed record at its place: every
    /// field holds the record's member of the matching name.
    pub proof fn lemma_answer_reads_each_record(raw: JsonValue, out: SetVmFirmwareOutput)
        requires
            describes_all(out.firmware@, raw.records()),
        ensures
            out.firmware@.len() == raw.records().len(),
            forall|i: int|
                #![trigger out.firmware@[i]]
                0 <= i < raw.records().len() ==> {
                    &&& out.firmware@[i].vm_name@ == raw.records()[i].text_or_empty("VMName"@)
                    &&& out.firmware@[i].secure_boot@
                        == raw.records()[i].text_or_empty("SecureBoot"@)
                    &&& out.firmware@[i].secure_boot_template@
                        == raw.records()[i].text_or_empty("SecureBootTemplate"@)
                    &&& out.firmware@[i].preferred_network_boot_protocol@
                        == raw.records()[i].text_or_empty("PreferredNetworkBootProtocol"@)
                    &&& out.firmware@[i].allow_legacy_network_adapter
                        == raw.records()[i].flag_or_false("AllowLegacyNetworkAdapter"@)
                },
    {
        assert forall|i: int| 0 <= i < raw.records().len() implies {
            &&& out.firmware@[i].vm_name@ == raw.records()[i].text_or_empty("VMName"@)
            &&& out.firmware@[i].secure_boot@ == raw.records()[i].text_or_empty("SecureBoot"@)
            &&& out.firmware@[i].secure_boot_template@
                == raw.records()[i].text_or_empty("SecureBootTemplate"@)
            &&& out.firmware@[i].preferred_network_boot_protocol@
                == raw.records()[i].text_or_empty("PreferredNetworkBootProtocol"@)
            &&& out.firmware@[i].allow_legacy_network_adapter
                == raw.records()[i].flag_or_false("AllowLegacyNetworkAdapter"@)
        } by {
            assert(out.firmware@[i].describes(raw.records()[i]));
        }
    }
}

} // verus!
