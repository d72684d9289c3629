//! `hyperv_set_vm_replication_server`: configures a host as a Replica server.
use vstd::prelude::*;
use crate::command::{
    bool_arg, holds, join, lemma_add_contains, lemma_push_contains, lemma_script_holds_argument,
    number_arg, opt_bool, opt_i32, opt_quoted, quoted_arg, switch_arg, ArgList,
};
use crate::error::{invalid_input, script_outcome, ToolError};
use crate::json::{
    decode_records, describes_all, effective_output, parsed_json, read_printed, FromJson, JsonValue,
};
use crate::text::{
    ascii_lower, is_blank, is_provided, lower_is, option_is_blank, option_is_provided, trim,
    trimmed,
};

verus! {

/// The tool's name.
pub const NAME: &'static str = "hyperv_set_vm_replication_server";

/// What the tool does.
pub const DESCRIPTION: &'static str = "Configures a host as a Replica server.";

/// What the script runs after the cmdlet: the fields it prints, as JSON.
pub const SELECT: &'static str = " | Select-Object ComputerName, ReplicationEnabled, @{N='AllowedAuthenticationType';E={$_.AllowedAuthenticationType.ToString()}}, ReplicationAllowedFromAnyServer, DefaultStorageLocation, CertificateThumbprint, KerberosAuthenticationPort, CertificateAuthenticationPort, @{N='MonitoringInterval';E={$_.MonitoringInterval.ToString()}}, @{N='MonitoringStartTime';E={$_.MonitoringStartTime.ToString()}} | ConvertTo-Json -Compress -Depth 3";

/// What the tool is asked.
#[derive(Debug)]
pub struct SetVmReplicationServerInput {
    /// Hyper-V host to configure as a Replica server. Defaults to localhost.
    pub computer_name: Option<String>,
    /// Specifies whether the host is enabled as a Replica server.
    pub replication_enabled: Option<bool>,
    /// Authentication types the Replica server will use: Kerberos, Certificate, or CertificateAndKerberos.
    pub allowed_authentication_type: Option<String>,
    /// Specifies whether to accept replication requests from any server. When true,
    /// DefaultStorageLocation must also be specified.
    pub replication_allowed_from_any_server: Option<bool>,
    /// Certificate thumbprint for mutual authentication. Required when the authentication type is Certificate.
    pub certificate_thumbprint: Option<String>,
    /// Default location to store replica virtual hard disk files.
    pub default_storage_location: Option<String>,
    /// Port that the HTTP listener uses on the Replica server host for Kerberos authentication.
    pub kerberos_authentication_port: Option<i32>,
    /// Port on which the Replica server will receive replication data using certificate-based authentication.
    pub certificate_authentication_port: Option<i32>,
    /// Monitoring interval as a TimeSpan string (e.g. "12:00:00").
    pub monitoring_interval: Option<String>,
    /// Monitoring start time as a TimeSpan string (e.g. "17:00:00").
    pub monitoring_start_time: Option<String>,
    /// Run the cmdlet without requiring confirmation.
    pub force: Option<bool>,
}

/// One record of the answer.
#[derive(Debug)]
pub struct VmReplicationServerInfo {
    pub computer_name: String,
    pub replication_enabled: bool,
    pub allowed_authentication_type: String,
    pub replication_allowed_from_any_server: bool,
    pub default_storage_location: String,
    pub certificate_thumbprint: String,
    pub kerberos_authentication_port: i32,
    pub certificate_authentication_port: i32,
    pub monitoring_interval: String,
    pub monitoring_start_time: String,
}

/// What the tool answers.
#[derive(Debug)]
pub struct SetVmReplicationServerOutput {
    pub servers: Vec<VmReplicationServerInfo>,
}

/// The tool.
#[derive(Default)]
pub struct SetVmReplicationServerTool;

impl FromJson for VmReplicationServerInfo {
    open spec fn describes(&self, item: JsonValue) -> bool {
        &&& self.computer_name@ == item.text_or_empty("ComputerName"@)
        &&& self.replication_enabled == item.flag_or_false("ReplicationEnabled"@)
        &&& self.allowed_authentication_type@ == item.text_or_empty("AllowedAuthenticationType"@)
        &&& self.replication_allowed_from_any_server
            == item.flag_or_false("ReplicationAllowedFromAnyServer"@)
        &&& self.default_storage_location@ == item.text_or_empty("DefaultStorageLocation"@)
        &&& self.certificate_thumbprint@ == item.text_or_empty("CertificateThumbprint"@)
        &&& self.kerberos_authentication_port
            == item.i64_or_zero("KerberosAuthenticationPort"@) as i32
        &&& self.certificate_authentication_port
            == item.i64_or_zero("CertificateAuthenticationPort"@) as i32
        &&& self.monitoring_interval@ == item.text_or_empty("MonitoringInterval"@)
        &&& self.monitoring_start_time@ == item.text_or_empty("MonitoringStartTime"@)
    }

    fn from_json(item: &JsonValue) -> (r: Self) {
        VmReplicationServerInfo {
            computer_name: item.text_or_empty_at("ComputerName"),
            replication_enabled: item.flag_or_false_at("ReplicationEnabled"),
            allowed_authentication_type: item.text_or_empty_at("AllowedAuthenticationType"),
            replication_allowed_from_any_server: item.flag_or_false_at(
                "ReplicationAllowedFromAnyServer",
            ),
            default_storage_location: item.text_or_empty_at("DefaultStorageLocation"),
            certificate_thumbprint: item.text_or_empty_at("CertificateThumbprint"),
            kerberos_authentication_port: item.i64_or_zero_at("KerberosAuthenticationPort") as i32,
            certificate_authentication_port: item.i64_or_zero_at(
                "CertificateAuthenticationPort",
            ) as i32,
            monitoring_interval: item.text_or_empty_at("MonitoringInterval"),
            monitoring_start_time: item.text_or_empty_at("MonitoringStartTime"),
        }
    }
}

impl SetVmReplicationServerTool {
    /// The first problem with the request, as the message that reports it.
    pub open spec fn input_problem(input: SetVmReplicationServerInput) -> Option<Seq<char>> {
        if input.replication_enabled is None
            && input.allowed_authentication_type is None
            && input.replication_allowed_from_any_server is None
            && input.certificate_thumbprint is None
            && input.default_storage_location is None
            && input.kerberos_authentication_port is None
            && input.certificate_authentication_port is None
            && input.monitoring_interval is None
            && input.monitoring_start_time is None {
            Some("At least one Replica server setting must be provided"@)
        } else if input.replication_allowed_from_any_server == Some(true)
            && input.default_storage_location is None {
            Some(
                "DefaultStorageLocation must be provided when ReplicationAllowedFromAnyServer is true"@,
            )
        } else if uses_certificate(input.allowed_authentication_type)
            && !is_provided(input.certificate_thumbprint) {
            Some(
                "CertificateThumbprint must be provided when AllowedAuthenticationType is Certificate"@,
            )
        } else if input.computer_name matches Some(s) && is_blank(s@) {
            Some("ComputerName must not be empty when provided"@)
        } else if input.allowed_authentication_type matches Some(s) && is_blank(s@) {
            Some("AllowedAuthenticationType must not be empty when provided"@)
        } else if input.certificate_thumbprint matches Some(s) && is_blank(s@) {
            Some("CertificateThumbprint must not be empty when provided"@)
        } else if input.default_storage_location matches Some(s) && is_blank(s@) {
            Some("DefaultStorageLocation must not be empty when provided"@)
        } else if input.monitoring_interval matches Some(s) && is_blank(s@) {
            Some("MonitoringInterval must not be empty when provided"@)
        } else if input.monitoring_start_time matches Some(s) && is_blank(s@) {
            Some("MonitoringStartTime must not be empty when provided"@)
        } else {
            None
        }
    }

    /// The arguments of the cmdlet.
    pub open spec fn command_args(input: SetVmReplicationServerInput) -> Seq<Seq<char>> {
        seq!["Set-VMReplicationServer"@]
            + opt_quoted("-ComputerName"@, input.computer_name)
            + opt_bool("-ReplicationEnabled"@, input.replication_enabled)
            + opt_quoted("-AllowedAuthenticationType"@, input.allowed_authentication_type)
            + opt_bool(
                "-ReplicationAllowedFromAnyServer"@,
                input.replication_allowed_from_any_server,
            )
            + opt_quoted("-CertificateThumbprint"@, input.certificate_thumbprint)
            + opt_quoted("-DefaultStorageLocation"@, input.default_storage_location)
            + opt_i32("-KerberosAuthenticationPort"@, input.kerberos_authentication_port)
            + opt_i32("-CertificateAuthenticationPort"@, input.certificate_authentication_port)
            + opt_quoted("-MonitoringInterval"@, input.monitoring_interval)
            + opt_quoted("-MonitoringStartTime"@, input.monitoring_start_time)
            + switch_arg("-Force"@, input.force == Some(true))
    }

    /// The script that runs for a valid request.
    pub open spec fn script(input: SetVmReplicationServerInput) -> Seq<char> {
        join(Self::command_args(input), seq![' ']) + SELECT@
    }

    /// Checks the request and builds its script.
    pub fn build_script(input: &SetVmReplicationServerInput) -> (r: Result<String, ToolError>)
        ensures
            script_outcome(r, Self::input_problem(*input), Self::script(*input)),
    {
        if input.replication_enabled.is_none()
            && input.allowed_authentication_type.is_none()
            && input.replication_allowed_from_any_server.is_none()
            && input.certificate_thumbprint.is_none()
            && input.default_storage_location.is_none()
            && input.kerberos_authentication_port.is_none()
            && input.certificate_authentication_port.is_none()
            && input.monitoring_interval.is_none()
            && input.monitoring_start_time.is_none() {
            return Err(invalid_input("At least one Replica server setting must be provided"));
        }
        if matches!(input.replication_allowed_from_any_server, Some(true))
            && input.default_storage_location.is_none() {
            return Err(invalid_input(
                "DefaultStorageLocation must be provided when ReplicationAllowedFromAnyServer is true",
            ));
        }
        if asks_for_certificate(&input.allowed_authentication_type)
            && !option_is_provided(&input.certificate_thumbprint) {
            return Err(invalid_input(
                "CertificateThumbprint must be provided when AllowedAuthenticationType is Certificate",
            ));
        }
        if option_is_blank(&input.computer_name) {
            return Err(invalid_input("ComputerName must not be empty when provided"));
        }
        if option_is_blank(&input.allowed_authentication_type) {
            return Err(invalid_input(
                "AllowedAuthenticationType must not be empty when provided",
            ));
        }
        if option_is_blank(&input.certificate_thumbprint) {
            return Err(invalid_input("CertificateThumbprint must not be empty when provided"));
        }
        if option_is_blank(&input.default_storage_location) {
            return Err(invalid_input("DefaultStorageLocation must not be empty when provided"));
        }
        if option_is_blank(&input.monitoring_interval) {
            return Err(invalid_input("MonitoringInterval must not be empty when provided"));
        }
        if option_is_blank(&input.monitoring_start_time) {
            return Err(invalid_input("MonitoringStartTime must not be empty when provided"));
        }
        let mut args = ArgList::new("Set-VMReplicationServer");
        args.push_opt_quoted("-ComputerName", &input.computer_name);
        args.push_opt_bool("-ReplicationEnabled", input.replication_enabled);
        args.push_opt_quoted("-AllowedAuthenticationType", &input.allowed_authentication_type);
        args.push_opt_bool(
            "-ReplicationAllowedFromAnyServer",
            input.replication_allowed_from_any_server,
        );
        args.push_opt_quoted("-CertificateThumbprint", &input.certificate_thumbprint);
        args.push_opt_quoted("-DefaultStorageLocation", &input.default_storage_location);
        args.push_opt_i32("-KerberosAuthenticationPort", input.kerberos_authentication_port);
        args.push_opt_i32("-CertificateAuthenticationPort", input.certificate_authentication_port);
        args.push_opt_quoted("-MonitoringInterval", &input.monitoring_interval);
        args.push_opt_quoted("-MonitoringStartTime", &input.monitoring_start_time);
        args.push_switch("-Force", matches!(input.force, Some(true)));
        assert(args@ === Self::command_args(*input));
        Ok(args.to_command_with(SELECT))
    }

    /// Reads the answer from what the script printed: one entry per record.
    pub fn parse_output(raw: JsonValue) -> (r: SetVmReplicationServerOutput)
        ensures
            describes_all(r.servers@, raw.records()),
    {
        SetVmReplicationServerOutput { servers: decode_records(raw) }
    }

    /// Reads the answer from the text the script printed; blank text reads as
    /// an empty list, and text that is not JSON is a `Json` error.
    pub fn read_output(printed: &str) -> (r: Result<SetVmReplicationServerOutput, ToolError>)
        ensures
            match parsed_json(effective_output(printed@)) {
                Some(raw) => r matches Ok(out) && describes_all(out.servers@, raw.records()),
                None => r matches Err(ToolError::Json(_)),
            },
    {
        match read_printed(printed) {
            Ok(raw) => Ok(Self::parse_output(raw)),
            Err(e) => Err(e),
        }
    }

    /// Every value of a valid request reaches the script that `build_script`
    /// returns under its own flag: each flag below stands in the script
    /// followed by the value of the field of the same name.
    pub proof fn lemma_script_carries_each_value(input: SetVmReplicationServerInput)
        requires
            Self::input_problem(input) is None,
        ensures
            input.computer_name matches Some(v) ==> holds(
                Self::script(input),
                quoted_arg("-ComputerName"@, v@),
            ),
            input.replication_enabled matches Some(v) ==> holds(
                Self::script(input),
                bool_arg("-ReplicationEnabled"@, v),
            ),
            input.allowed_authentication_type matches Some(v) ==> holds(
                Self::script(input),
                quoted_arg("-AllowedAuthenticationType"@, v@),
            ),
            input.replication_allowed_from_any_server matches Some(v) ==> holds(
                Self::script(input),
                bool_arg("-ReplicationAllowedFromAnyServer"@, v),
            ),
            input.certificate_thumbprint matches Some(v) ==> holds(
                Self::script(input),
                quoted_arg("-CertificateThumbprint"@, v@),
            ),
            input.default_storage_location matches Some(v) ==> holds(
                Self::script(input),
                quoted_arg("-DefaultStorageLocation"@, v@),
            ),
            input.kerberos_authentication_port matches Some(v) ==> holds(
                Self::script(input),
                number_arg("-KerberosAuthenticationPort"@, v as int),
            ),
            input.certificate_authentication_port matches Some(v) ==> holds(
                Self::script(input),
                number_arg("-CertificateAuthenticationPort"@, v as int),
            ),
            input.monitoring_interval matches Some(v) ==> holds(
                Self::script(input),
                quoted_arg("-MonitoringInterval"@, v@),
            ),
            input.monitoring_start_time matches Some(v) ==> holds(
                Self::script(input),
                quoted_arg("-MonitoringStartTime"@, v@),
            ),
            input.force == Some(true) ==> holds(Self::script(input), "-Force"@),
    {
        Self::script_carries_computer_name(input);
        Self::script_carries_replication_enabled(input);
        Self::script_carries_allowed_authentication_type(input);
        Self::script_carries_replication_allowed_from_any_server(input);
        Self::script_carries_certificate_thumbprint(input);
        Self::script_carries_default_storage_location(input);
        Self::script_carries_kerberos_authentication_port(input);
        Self::script_carries_certificate_authentication_port(input);
        Self::script_carries_monitoring_interval(input);
        Self::script_carries_monitoring_start_time(input);
        Self::script_carries_force(input);
    }

    proof fn script_carries_computer_name(input: SetVmReplicationServerInput)
        ensures
            input.computer_name matches Some(v) ==> holds(
                Self::script(input),
                quoted_arg("-ComputerName"@, v@),
            ),
    {
        broadcast use lemma_add_contains, lemma_push_contains;

        let args = Self::command_args(input);
        let tail = SELECT@;
        if let Some(v) = input.computer_name {
            lemma_script_holds_argument(args, tail, quoted_arg("-ComputerName"@, v@));
        }
    }

    proof fn script_carries_replication_enabled(input: SetVmReplicationServerInput)
        ensures
            input.replication_enabled matches Some(v) ==> holds(
                Self::script(input),
                bool_arg("-ReplicationEnabled"@, v),
            ),
    {
        broadcast use lemma_add_contains, lemma_push_contains;

        let args = Self::command_args(input);
        let tail = SELECT@;
        if let Some(v) = input.replication_enabled {
            lemma_script_holds_argument(args, tail, bool_arg("-ReplicationEnabled"@, v));
        }
    }

    proof fn script_carries_allowed_authentication_type(input: SetVmReplicationServerInput)
        ensures
            input.allowed_authentication_type matches Some(v) ==> holds(
                Self::script(input),
                quoted_arg("-AllowedAuthenticationType"@, v@),
            ),
    {
        broadcast use lemma_add_contains, lemma_push_contains;

        let args = Self::command_args(input);
        let tail = SELECT@;
        if let Some(v) = input.allowed_authentication_type {
            lemma_script_holds_argument(args, tail, quoted_arg("-AllowedAuthenticationType"@, v@));
        }
    }

    proof fn script_carries_replication_allowed_from_any_server(input: SetVmReplicationServerInput)
        ensures
            input.replication_allowed_from_any_server matches Some(v) ==> holds(
                Self::script(input),
                bool_arg("-ReplicationAllowedFromAnyServer"@, v),
            ),
    {
        broadcast use lemma_add_contains, lemma_push_contains;

        let args = Self::command_args(input);
        let tail = SELECT@;
        if let Some(v) = input.replication_allowed_from_any_server {
            lemma_script_holds_argument(
                args,
                tail,
                bool_arg("-ReplicationAllowedFromAnyServer"@, v),
            );
        }
    }

    proof fn script_carries_certificate_thumbprint(input: SetVmReplicationServerInput)
        ensures
            input.certificate_thumbprint matches Some(v) ==> holds(
                Self::script(input),
                quoted_arg("-CertificateThumbprint"@, v@),
            ),
    {
        broadcast use lemma_add_contains, lemma_push_contains;

        let args = Self::command_args(input);
        let tail = SELECT@;
        if let Some(v) = input.certificate_thumbprint {
            lemma_script_holds_argument(args, tail, quoted_arg("-CertificateThumbprint"@, v@));
        }
    }

    proof fn script_carries_default_storage_location(input: SetVmReplicationServerInput)
        ensures
            input.default_storage_location matches Some(v) ==> holds(
                Self::script(input),
                quoted_arg("-DefaultStorageLocation"@, v@),
            ),
    {
        broadcast use lemma_add_contains, lemma_push_contains;

        let args = Self::command_args(input);
        let tail = SELECT@;
        if let Some(v) = input.default_storage_location {
            lemma_script_holds_argument(args, tail, quoted_arg("-DefaultStorageLocation"@, v@));
        }
    }

    proof fn script_carries_kerberos_authentication_port(input: SetVmReplicationServerInput)
        ensures
            input.kerberos_authentication_port matches Some(v) ==> holds(
                Self::script(input),
                number_arg("-KerberosAuthenticationPort"@, v as int),
            ),
    {
        broadcast use lemma_add_contains, lemma_push_contains;

        let args = Self::command_args(input);
        let tail = SELECT@;
        if let Some(v) = input.kerberos_authentication_port {
            lemma_script_holds_argument(
                args,
                tail,
                number_arg("-KerberosAuthenticationPort"@, v as int),
            );
        }
    }

    proof fn script_carries_certificate_authentication_port(input: SetVmReplicationServerInput)
        ensures
            input.certificate_authentication_port matches Some(v) ==> holds(
                Self::script(input),
                number_arg("-CertificateAuthenticationPort"@, v as int),
            ),
    {
        broadcast use lemma_add_contains, lemma_push_contains;

        let args = Self::command_args(input);
        let tail = SELECT@;
        if let Some(v) = input.certificate_authentication_port {
            lemma_script_holds_argument(
                args,
                tail,
                number_arg("-CertificateAuthenticationPort"@, v as int),
            );
        }
    }

    proof fn script_carries_monitoring_interval(input: SetVmReplicationServerInput)
        ensures
            input.monitoring_interval matches Some(v) ==> holds(
                Self::script(input),
                quoted_arg("-MonitoringInterval"@, v@),
            ),
    {
        broadcast use lemma_add_contains, lemma_push_contains;

        let args = Self::command_args(input);
        let tail = SELECT@;
        if let Some(v) = input.monitoring_interval {
            lemma_script_holds_argument(args, tail, quoted_arg("-MonitoringInterval"@, v@));
        }
    }

    proof fn script_carries_monitoring_start_time(input: SetVmReplicationServerInput)
        ensures
            input.monitoring_start_time matches Some(v) ==> holds(
                Self::script(input),
                quoted_arg("-MonitoringStartTime"@, v@),
            ),
    {
        broadcast use lemma_add_contains, lemma_push_contains;

        let args = Self::command_args(input);
        let tail = SELECT@;
        if let Some(v) = input.monitoring_start_time {
            lemma_script_holds_argument(args, tail, quoted_arg("-MonitoringStartTime"@, v@));
        }
    }

    proof fn script_carries_force(input: SetVmReplicationServerInput)
        ensures
            input.force == Some(true) ==> holds(Self::script(input), "-Force"@),
    {
        broadcast use lemma_add_contains, lemma_push_contains;

        let args = Self::command_args(input);
        let tail = SELECT@;
        if input.force == Some(true) {
            lemma_script_holds_argument(args, tail, "-Force"@);
        }
    }

    /// Each entry of the answer reads the printed record at its place: every
    /// field holds the record's member of the matching name.
    pub proof fn lemma_answer_reads_each_record(raw: JsonValue, out: SetVmReplicationServerOutput)
        requires
            describes_all(out.servers@, raw.records()),
        ensures
            out.servers@.len() == raw.records().len(),
            forall|i: int|
                #![trigger out.servers@[i]]
                0 <= i < raw.records().len() ==> {
                    &&& out.servers@[i].computer_name@
                        == raw.records()[i].text_or_empty("ComputerName"@)
                    &&& out.servers@[i].replication_enabled
                        == raw.records()[i].flag_or_false("ReplicationEnabled"@)
                    &&& out.servers@[i].allowed_authentication_type@
                        == raw.records()[i].text_or_empty("AllowedAuthenticationType"@)
                    &&& out.servers@[i].replication_allowed_from_any_server
                        == raw.records()[i].flag_or_false("ReplicationAllowedFromAnyServer"@)
                    &&& out.servers@[i].default_storage_location@
                        == raw.records()[i].text_or_empty("DefaultStorageLocation"@)
                    &&& out.servers@[i].certificate_thumbprint@
                        == raw.records()[i].text_or_empty("CertificateThumbprint"@)
                    &&& out.servers@[i].kerberos_authentication_port
                        == raw.records()[i].i64_or_zero("KerberosAuthenticationPort"@) as i32
                    &&& out.servers@[i].certificate_authentication_port
                        == raw.records()[i].i64_or_zero("CertificateAuthenticationPort"@) as i32
                    &&& out.servers@[i].monitoring_interval@
                        == raw.records()[i].text_or_empty("MonitoringInterval"@)
                    &&& out.servers@[i].monitoring_start_time@
                        == raw.records()[i].text_or_empty("MonitoringStartTime"@)
                },
    {
        assert forall|i: int| 0 <= i < raw.records().len() implies {
            &&& out.servers@[i].computer_name@ == raw.records()[i].text_or_empty("ComputerName"@)
            &&& out.servers@[i].replication_enabled
                == raw.records()[i].flag_or_false("ReplicationEnabled"@)
            &&& out.servers@[i].allowed_authentication_type@
                == raw.records()[i].text_or_empty("AllowedAuthenticationType"@)
            &&& out.servers@[i].replication_allowed_from_any_server
                == raw.records()[i].flag_or_false("ReplicationAllowedFromAnyServer"@)
            &&& out.servers@[i].default_storage_location@
                == raw.records()[i].text_or_empty("DefaultStorageLocation"@)
            &&& out.servers@[i].certificate_thumbprint@
                == raw.records()[i].text_or_empty("CertificateThumbprint"@)
            &&& out.servers@[i].kerberos_authentication_port
                == raw.records()[i].i64_or_zero("KerberosAuthenticationPort"@) as i32
            &&& out.servers@[i].certificate_authentication_port
                == raw.records()[i].i64_or_zero("CertificateAuthenticationPort"@) as i32
            &&& out.servers@[i].monitoring_interval@
                == raw.records()[i].text_or_empty("MonitoringInterval"@)
            &&& out.servers@[i].monitoring_start_time@
                == raw.records()[i].text_or_empty("MonitoringStartTime"@)
        } by {
            assert(out.servers@[i].describes(raw.records()[i]));
        }
    }

    /// A request is valid only when it passes every check: none of the
    /// conditions that refuse a request holds of it.
    pub proof fn lemma_valid_request_passes_every_check(input: SetVmReplicationServerInput)
        requires
            Self::input_problem(input) is None,
        ensures
            !(input.replication_enabled is None && input.allowed_authentication_type is None && input.replication_allowed_from_any_server is None && input.certificate_thumbprint is None && input.default_storage_location is None && input.kerberos_authentication_port is None && input.certificate_authentication_port is None && input.monitoring_interval is None && input.monitoring_start_time is None),
            !(input.replication_allowed_from_any_server == Some(true) && input.default_storage_location is None),
            !(uses_certificate(
                input.allowed_authentication_type,
            ) && !is_provided(input.certificate_thumbprint)),
            !(input.computer_name matches Some(s) && is_blank(s@)),
            !(input.allowed_authentication_type matches Some(s) && is_blank(s@)),
            !(input.certificate_thumbprint matches Some(s) && is_blank(s@)),
            !(input.default_storage_location matches Some(s) && is_blank(s@)),
            !(input.monitoring_interval matches Some(s) && is_blank(s@)),
            !(input.monitoring_start_time matches Some(s) && is_blank(s@)),
    {
    }

    /// A valid request that asks for certificate authentication carries a
    /// certificate thumbprint.
    pub proof fn lemma_certificate_authentication_has_thumbprint(input: SetVmReplicationServerInput)
        requires
            Self::input_problem(input) is None,
            uses_certificate(input.allowed_authentication_type),
        ensures
            is_provided(input.certificate_thumbprint),
    {
    }
}

/// The authentication type, trimmed and read without regard to ASCII case,
/// is `Certificate`.
pub open spec fn uses_certificate(authentication_type: Option<String>) -> bool {
    authentication_type matches Some(t) && ascii_lower(trim(t@)) == "certificate"@
}

/// Whether the authentication type, trimmed and read without regard to ASCII
/// case, is `Certificate`.
fn asks_for_certificate(authentication_type: &Option<String>) -> (r: bool)
    ensures
        r == uses_certificate(*authentication_type),
{
    match authentication_type {
        Some(t) => {
            let name = trimmed(t.as_str());
            lower_is(name.as_str(), "certificate")
        },
        None => false,
    }
}

} // verus!
