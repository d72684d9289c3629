//! `hyperv_set_vm_replication`: modifies the replication settings of a virtual machine.
use vstd::prelude::*;
use crate::command::{
    array_arg, bool_arg, holds, join, lemma_add_contains, lemma_push_contains,
    lemma_script_holds_argument, number_arg, opt_array, opt_bool, opt_quoted, opt_u32, quoted_arg,
    switch_arg, ArgList,
};
use crate::error::{invalid_input, script_outcome, ToolError};
use crate::json::{
    decode_records, describes_all, effective_output, parsed_json, read_printed, FromJson, JsonValue,
};
use crate::text::{is_blank, option_is_blank, text_is_blank};

verus! {

/// The tool's name.
pub const NAME: &'static str = "hyperv_set_vm_replication";

/// What the tool does.
pub const DESCRIPTION: &'static str = "Modifies the replication settings of a virtual machine.";

/// What the script runs after the cmdlet: the fields it prints, as JSON.
pub const SELECT: &'static str = " | Select-Object VMName, ComputerName, @{N='State';E={$_.State.ToString()}}, @{N='Health';E={$_.Health.ToString()}}, @{N='Mode';E={$_.Mode.ToString()}}, @{N='AuthenticationType';E={$_.AuthenticationType.ToString()}}, ReplicationFrequencySec, PrimaryServerName, ReplicaServerName, ReplicaServerPort, @{N='LastReplicationTime';E={$_.LastReplicationTime.ToString()}}, @{N='LastTestFailoverInitiatedTime';E={$_.LastTestFailoverInitiatedTime.ToString()}} | ConvertTo-Json -Compress -Depth 3";

/// What the tool is asked.
#[derive(Debug)]
pub struct SetVmReplicationInput {
    /// Name of the virtual machine whose replication settings are to be modified.
    pub vm_name: String,
    /// Hyper-V host on which the virtual machine resides. Defaults to localhost.
    pub computer_name: Option<String>,
    /// Authentication type used for replication: Kerberos or Certificate.
    pub authentication_type: Option<String>,
    /// Number of hours of recovery history to maintain.
    pub recovery_history: Option<u32>,
    /// Replication frequency in seconds. Valid values depend on the host version.
    pub replication_frequency_sec: Option<u32>,
    /// Frequency, in hours, at which VSS performs an application-consistent snapshot.
    pub vss_snapshot_frequency_hour: Option<u32>,
    /// Enables or disables compression of replicated data.
    pub compression_enabled: Option<bool>,
    /// Enables or disables bypassing the proxy server for replication.
    pub bypass_proxy_server: Option<bool>,
    /// Name of the Replica server.
    pub replica_server_name: Option<String>,
    /// Port used on the Replica server.
    pub replica_server_port: Option<u32>,
    /// Thumbprint of the certificate used for certificate-based authentication.
    pub certificate_thumbprint: Option<String>,
    /// Enables or disables automatic resynchronization.
    pub auto_resynchronize_enabled: Option<bool>,
    /// Start of the automatic resynchronization window (TimeSpan string, e.g. "20:00:00").
    pub auto_resynchronize_interval_start: Option<String>,
    /// End of the automatic resynchronization window (TimeSpan string, e.g. "23:59:00").
    pub auto_resynchronize_interval_end: Option<String>,
    /// Reverses replication direction for the virtual machine.
    pub reverse: Option<bool>,
    /// Primary server allowed to replicate to this Replica virtual machine.
    pub allowed_primary_server: Option<String>,
    /// Configures the virtual machine as a Replica virtual machine.
    pub as_replica: Option<bool>,
    /// Specifies that the virtual machine is restored from a backup.
    pub use_backup: Option<bool>,
    /// Disables application-consistent snapshot replication.
    pub disable_vss_snapshot_replication: Option<bool>,
    /// Enables or disables write order preservation across replicated disks.
    pub enable_write_order_preservation_across_disks: Option<bool>,
    /// Enables or disables replication of host-only KVP items.
    pub replicate_host_kvp_items: Option<bool>,
    /// Scheduled start time for initial replication (DateTime string).
    pub initial_replication_start_time: Option<String>,
    /// Paths of virtual hard disks to include in replication.
    pub replicated_disk_paths: Option<Vec<String>>,
}

/// One record of the answer.
#[derive(Debug)]
pub struct VmReplicationInfo {
    pub vm_name: String,
    pub computer_name: String,
    pub state: String,
    pub health: String,
    pub mode: String,
    pub authentication_type: String,
    pub replication_frequency_sec: u32,
    pub primary_server_name: String,
    pub replica_server_name: String,
    pub replica_server_port: u32,
    pub last_replication_time: String,
    pub last_test_failover_initiated_time: String,
}

/// What the tool answers.
#[derive(Debug)]
pub struct SetVmReplicationOutput {
    pub replication: Vec<VmReplicationInfo>,
}

/// The tool.
#[derive(Default)]
pub struct SetVmReplicationTool;

impl FromJson for VmReplicationInfo {
    open spec fn describes(&self, item: JsonValue) -> bool {
        &&& self.vm_name@ == item.text_or_empty("VMName"@)
        &&& self.computer_name@ == item.text_or_empty("ComputerName"@)
        &&& self.state@ == item.text_or_empty("State"@)
        &&& self.health@ == item.text_or_empty("Health"@)
        &&& self.mode@ == item.text_or_empty("Mode"@)
        &&& self.authentication_type@ == item.text_or_empty("AuthenticationType"@)
        &&& self.replication_frequency_sec == item.u64_or_zero("ReplicationFrequencySec"@) as u32
        &&& self.primary_server_name@ == item.text_or_empty("PrimaryServerName"@)
        &&& self.replica_server_name@ == item.text_or_empty("ReplicaServerName"@)
        &&& self.replica_server_port == item.u64_or_zero("ReplicaServerPort"@) as u32
        &&& self.last_replication_time@ == item.text_or_empty("LastReplicationTime"@)
        &&& self.last_test_failover_initiated_time@
            == item.text_or_empty("LastTestFailoverInitiatedTime"@)
    }

    fn from_json(item: &JsonValue) -> (r: Self) {
        VmReplicationInfo {
            vm_name: item.text_or_empty_at("VMName"),
            computer_name: item.text_or_empty_at("ComputerName"),
            state: item.text_or_empty_at("State"),
            health: item.text_or_empty_at("Health"),
            mode: item.text_or_empty_at("Mode"),
            authentication_type: item.text_or_empty_at("AuthenticationType"),
            replication_frequency_sec: item.u64_or_zero_at("ReplicationFrequencySec") as u32,
            primary_server_name: item.text_or_empty_at("PrimaryServerName"),
            replica_server_name: item.text_or_empty_at("ReplicaServerName"),
            replica_server_port: item.u64_or_zero_at("ReplicaServerPort") as u32,
            last_replication_time: item.text_or_empty_at("LastReplicationTime"),
            last_test_failover_initiated_time: item.text_or_empty_at(
                "LastTestFailoverInitiatedTime",
            ),
        }
    }
}

impl SetVmReplicationTool {
    /// The first problem with the request, as the message that reports it.
    pub open spec fn input_problem(input: SetVmReplicationInput) -> Option<Seq<char>> {
        if is_blank(input.vm_name@) {
            Some("VM name must not be empty"@)
        } else if input.computer_name matches Some(s) && is_blank(s@) {
            Some("ComputerName must not be empty when provided"@)
        } else {
            None
        }
    }

    /// The arguments of the cmdlet.
    pub open spec fn command_args(input: SetVmReplicationInput) -> Seq<Seq<char>> {
        seq!["Set-VMReplication"@, quoted_arg("-VMName"@, input.vm_name@)]
            + opt_quoted("-ComputerName"@, input.computer_name)
            + opt_quoted("-ReplicaServerName"@, input.replica_server_name)
            + opt_u32("-ReplicaServerPort"@, input.replica_server_port)
            + opt_quoted("-AuthenticationType"@, input.authentication_type)
            + opt_quoted("-CertificateThumbprint"@, input.certificate_thumbprint)
            + opt_bool("-CompressionEnabled"@, input.compression_enabled)
            + opt_bool("-ReplicateHostKvpItems"@, input.replicate_host_kvp_items)
            + opt_bool("-BypassProxyServer"@, input.bypass_proxy_server)
            + opt_bool(
                "-EnableWriteOrderPreservationAcrossDisks"@,
                input.enable_write_order_preservation_across_disks,
            )
            + opt_quoted("-InitialReplicationStartTime"@, input.initial_replication_start_time)
            + switch_arg(
                "-DisableVSSSnapshotReplication"@,
                input.disable_vss_snapshot_replication == Some(true),
            )
            + opt_u32("-VSSSnapshotFrequencyHour"@, input.vss_snapshot_frequency_hour)
            + opt_u32("-RecoveryHistory"@, input.recovery_history)
            + opt_u32("-ReplicationFrequencySec"@, input.replication_frequency_sec)
            + opt_array("-ReplicatedDiskPaths"@, input.replicated_disk_paths)
            + switch_arg("-Reverse"@, input.reverse == Some(true))
            + opt_bool("-AutoResynchronizeEnabled"@, input.auto_resynchronize_enabled)
            + opt_quoted(
                "-AutoResynchronizeIntervalStart"@,
                input.auto_resynchronize_interval_start,
            )
            + opt_quoted("-AutoResynchronizeIntervalEnd"@, input.auto_resynchronize_interval_end)
            + switch_arg("-AsReplica"@, input.as_replica == Some(true))
            + opt_quoted("-AllowedPrimaryServer"@, input.allowed_primary_server)
            + switch_arg("-UseBackup"@, input.use_backup == Some(true))
    }

    /// The script that runs for a valid request.
    pub open spec fn script(input: SetVmReplicationInput) -> Seq<char> {
        join(Self::command_args(input), seq![' ']) + SELECT@
    }

    /// Checks the request and builds its script.
    #[verifier::rlimit(30)]
    pub fn build_script(input: &SetVmReplicationInput) -> (r: Result<String, ToolError>)
        ensures
            script_outcome(r, Self::input_problem(*input), Self::script(*input)),
    {
        if text_is_blank(input.vm_name.as_str()) {
            return Err(invalid_input("VM name must not be empty"));
        }
        if option_is_blank(&input.computer_name) {
            return Err(invalid_input("ComputerName must not be empty when provided"));
        }
        let mut args = ArgList::new("Set-VMReplication");
        args.push_quoted("-VMName", input.vm_name.as_str());
        args.push_opt_quoted("-ComputerName", &input.computer_name);
        args.push_opt_quoted("-ReplicaServerName", &input.replica_server_name);
        args.push_opt_u32("-ReplicaServerPort", input.replica_server_port);
        args.push_opt_quoted("-AuthenticationType", &input.authentication_type);
        args.push_opt_quoted("-CertificateThumbprint", &input.certificate_thumbprint);
        args.push_opt_bool("-CompressionEnabled", input.compression_enabled);
        args.push_opt_bool("-ReplicateHostKvpItems", input.replicate_host_kvp_items);
        args.push_opt_bool("-BypassProxyServer", input.bypass_proxy_server);
        args.push_opt_bool(
            "-EnableWriteOrderPreservationAcrossDisks",
            input.enable_write_order_preservation_across_disks,
        );
        args.push_opt_quoted("-InitialReplicationStartTime", &input.initial_replication_start_time);
        args.push_switch(
            "-DisableVSSSnapshotReplication",
            matches!(input.disable_vss_snapshot_replication, Some(true)),
        );
        args.push_opt_u32("-VSSSnapshotFrequencyHour", input.vss_snapshot_frequency_hour);
        args.push_opt_u32("-RecoveryHistory", input.recovery_history);
        args.push_opt_u32("-ReplicationFrequencySec", input.replication_frequency_sec);
        args.push_opt_array("-ReplicatedDiskPaths", &input.replicated_disk_paths);
        args.push_switch("-Reverse", matches!(input.reverse, Some(true)));
        args.push_opt_bool("-AutoResynchronizeEnabled", input.auto_resynchronize_enabled);
        args.push_opt_quoted(
            "-AutoResynchronizeIntervalStart",
            &input.auto_resynchronize_interval_start,
        );
        args.push_opt_quoted(
            "-AutoResynchronizeIntervalEnd",
            &input.auto_resynchronize_interval_end,
        );
        args.push_switch("-AsReplica", matches!(input.as_replica, Some(true)));
        args.push_opt_quoted("-AllowedPrimaryServer", &input.allowed_primary_server);
        args.push_switch("-UseBackup", matches!(input.use_backup, Some(true)));
        assert(args@ === Self::command_args(*input));
        Ok(args.to_command_with(SELECT))
    }

    /// Reads the answer from what the script printed: one entry per record.
    pub fn parse_output(raw: JsonValue) -> (r: SetVmReplicationOutput)
        ensures
            describes_all(r.replication@, raw.records()),
    {
        SetVmReplicationOutput { replication: decode_records(raw) }
    }

    /// Reads the answer from the text the script printed; blank text reads as
    /// an empty list, and text that is not JSON is a `Json` error.
    pub fn read_output(printed: &str) -> (r: Result<SetVmReplicationOutput, ToolError>)
        ensures
            match parsed_json(effective_output(printed@)) {
                Some(raw) => r matches Ok(out) && describes_all(out.replication@, raw.records()),
                None => r matches Err(ToolError::Json(_)),
            },
    {
        match read_printed(printed) {
            Ok(raw) => Ok(Self::parse_output(raw)),
            Err(e) => Err(e),
        }
    }

    /// Every value of a valid request reaches the script that `build_script`
    /// returns under its own flag: each flag below stands in the script
    /// followed by the value of the field of the same name.
    pub proof fn lemma_script_carries_each_value(input: SetVmReplicationInput)
        requires
            Self::input_problem(input) is None,
        ensures
            holds(Self::script(input), quoted_arg("-VMName"@, input.vm_name@)),
            input.computer_name matches Some(v) ==> holds(
                Self::script(input),
                quoted_arg("-ComputerName"@, v@),
            ),
            input.replica_server_name matches Some(v) ==> holds(
                Self::script(input),
                quoted_arg("-ReplicaServerName"@, v@),
            ),
            input.replica_server_port matches Some(v) ==> holds(
                Self::script(input),
                number_arg("-ReplicaServerPort"@, v as int),
            ),
            input.authentication_type matches Some(v) ==> holds(
                Self::script(input),
                quoted_arg("-AuthenticationType"@, v@),
            ),
            input.certificate_thumbprint matches Some(v) ==> holds(
                Self::script(input),
                quoted_arg("-CertificateThumbprint"@, v@),
            ),
            input.compression_enabled matches Some(v) ==> holds(
                Self::script(input),
                bool_arg("-CompressionEnabled"@, v),
            ),
            input.replicate_host_kvp_items matches Some(v) ==> holds(
                Self::script(input),
                bool_arg("-ReplicateHostKvpItems"@, v),
            ),
            input.bypass_proxy_server matches Some(v) ==> holds(
                Self::script(input),
                bool_arg("-BypassProxyServer"@, v),
            ),
            input.enable_write_order_preservation_across_disks matches Some(v) ==> holds(
                Self::script(input),
                bool_arg("-EnableWriteOrderPreservationAcrossDisks"@, v),
            ),
            input.initial_replication_start_time matches Some(v) ==> holds(
                Self::script(input),
                quoted_arg("-InitialReplicationStartTime"@, v@),
            ),
            input.disable_vss_snapshot_replication == Some(true) ==> holds(
                Self::script(input),
                "-DisableVSSSnapshotReplication"@,
            ),
            input.vss_snapshot_frequency_hour matches Some(v) ==> holds(
                Self::script(input),
                number_arg("-VSSSnapshotFrequencyHour"@, v as int),
            ),
            input.recovery_history matches Some(v) ==> holds(
                Self::script(input),
                number_arg("-RecoveryHistory"@, v as int),
            ),
            input.replication_frequency_sec matches Some(v) ==> holds(
                Self::script(input),
                number_arg("-ReplicationFrequencySec"@, v as int),
            ),
            input.replicated_disk_paths matches Some(v) ==> holds(
                Self::script(input),
                array_arg("-ReplicatedDiskPaths"@, v@),
            ),
            input.reverse == Some(true) ==> holds(Self::script(input), "-Reverse"@),
            input.auto_resynchronize_enabled matches Some(v) ==> holds(
                Self::script(input),
                bool_arg("-AutoResynchronizeEnabled"@, v),
            ),
            input.auto_resynchronize_interval_start matches Some(v) ==> holds(
                Self::script(input),
                quoted_arg("-AutoResynchronizeIntervalStart"@, v@),
            ),
            input.auto_resynchronize_interval_end matches Some(v) ==> holds(
                Self::script(input),
                quoted_arg("-AutoResynchronizeIntervalEnd"@, v@),
            ),
            input.as_replica == Some(true) ==> holds(Self::script(input), "-AsReplica"@),
            input.allowed_primary_server matches Some(v) ==> holds(
                Self::script(input),
                quoted_arg("-AllowedPrimaryServer"@, v@),
            ),
            input.use_backup == Some(true) ==> holds(Self::script(input), "-UseBackup"@),
    {
        Self::script_carries_vm_name(input);
        Self::script_carries_computer_name(input);
        Self::script_carries_replica_server_name(input);
        Self::script_carries_replica_server_port(input);
        Self::script_carries_authentication_type(input);
        Self::script_carries_certificate_thumbprint(input);
        Self::script_carries_compression_enabled(input);
        Self::script_carries_replicate_host_kvp_items(input);
        Self::script_carries_bypass_proxy_server(input);
        Self::script_carries_enable_write_order_preservation_across_disks(input);
        Self::script_carries_initial_replication_start_time(input);
        Self::script_carries_disable_vss_snapshot_replication(input);
        Self::script_carries_vss_snapshot_frequency_hour(input);
        Self::script_carries_recovery_history(input);
        Self::script_carries_replication_frequency_sec(input);
        Self::script_carries_replicated_disk_paths(input);
        Self::script_carries_reverse(input);
        Self::script_carries_auto_resynchronize_enabled(input);
        Self::script_carries_auto_resynchronize_interval_start(input);
        Self::script_carries_auto_resynchronize_interval_end(input);
        Self::script_carries_as_replica(input);
        Self::script_carries_allowed_primary_server(input);
        Self::script_carries_use_backup(input);
    }

    proof fn script_carries_vm_name(input: SetVmReplicationInput)
        ensures
            holds(Self::script(input), quoted_arg("-VMName"@, input.vm_name@)),
    {
        broadcast use lemma_add_contains, lemma_push_contains;

        let args = Self::command_args(input);
        let tail = SELECT@;
        lemma_script_holds_argument(args, tail, quoted_arg("-VMName"@, input.vm_name@));
    }

    proof fn script_carries_computer_name(input: SetVmReplicationInput)
        ensures
            input.computer_name matches Some(v) ==> holds(
                Self::script(input),
                quoted_arg("-ComputerName"@, v@),
            ),
    {
        broadcast use lemma_add_contains, lemma_push_contains;

        let args = Self::command_args(input);
        let tail = SELECT@;
        if let Some(v) = input.computer_name {
            lemma_script_holds_argument(args, tail, quoted_arg("-ComputerName"@, v@));
        }
    }

    proof fn script_carries_replica_server_name(input: SetVmReplicationInput)
        ensures
            input.replica_server_name matches Some(v) ==> holds(
                Self::script(input),
                quoted_arg("-ReplicaServerName"@, v@),
            ),
    {
        broadcast use lemma_add_contains, lemma_push_contains;

        let args = Self::command_args(input);
        let tail = SELECT@;
        if let Some(v) = input.replica_server_name {
            lemma_script_holds_argument(args, tail, quoted_arg("-ReplicaServerName"@, v@));
        }
    }

    proof fn script_carries_replica_server_port(input: SetVmReplicationInput)
        ensures
            input.replica_server_port matches Some(v) ==> holds(
                Self::script(input),
                number_arg("-ReplicaServerPort"@, v as int),
            ),
    {
        broadcast use lemma_add_contains, lemma_push_contains;

        let args = Self::command_args(input);
        let tail = SELECT@;
        if let Some(v) = input.replica_server_port {
            lemma_script_holds_argument(args, tail, number_arg("-ReplicaServerPort"@, v as int));
        }
    }

    proof fn script_carries_authentication_type(input: SetVmReplicationInput)
        ensures
            input.authentication_type matches Some(v) ==> holds(
                Self::script(input),
                quoted_arg("-AuthenticationType"@, v@),
            ),
    {
        broadcast use lemma_add_contains, lemma_push_contains;

        let args = Self::command_args(input);
        let tail = SELECT@;
        if let Some(v) = input.authentication_type {
            lemma_script_holds_argument(args, tail, quoted_arg("-AuthenticationType"@, v@));
        }
    }

    proof fn script_carries_certificate_thumbprint(input: SetVmReplicationInput)
        ensures
            input.certificate_thumbprint matches Some(v) ==> holds(
                Self::script(input),
                quoted_arg("-CertificateThumbprint"@, v@),
            ),
    {
        broadcast use lemma_add_contains, lemma_push_contains;

        let args = Self::command_args(input);
        let tail = SELECT@;
        if let Some(v) = input.certificate_thumbprint {
            lemma_script_holds_argument(args, tail, quoted_arg("-CertificateThumbprint"@, v@));
        }
    }

    proof fn script_carries_compression_enabled(input: SetVmReplicationInput)
        ensures
            input.compression_enabled matches Some(v) ==> holds(
                Self::script(input),
                bool_arg("-CompressionEnabled"@, v),
            ),
    {
        broadcast use lemma_add_contains, lemma_push_contains;

        let args = Self::command_args(input);
        let tail = SELECT@;
        if let Some(v) = input.compression_enabled {
            lemma_script_holds_argument(args, tail, bool_arg("-CompressionEnabled"@, v));
        }
    }

    proof fn script_carries_replicate_host_kvp_items(input: SetVmReplicationInput)
        ensures
            input.replicate_host_kvp_items matches Some(v) ==> holds(
                Self::script(input),
                bool_arg("-ReplicateHostKvpItems"@, v),
            ),
    {
        broadcast use lemma_add_contains, lemma_push_contains;

        let args = Self::command_args(input);
        let tail = SELECT@;
        if let Some(v) = input.replicate_host_kvp_items {
            lemma_script_holds_argument(args, tail, bool_arg("-ReplicateHostKvpItems"@, v));
        }
    }

    proof fn script_carries_bypass_proxy_server(input: SetVmReplicationInput)
        ensures
            input.bypass_proxy_server matches Some(v) ==> holds(
                Self::script(input),
                bool_arg("-BypassProxyServer"@, v),
            ),
    {
        broadcast use lemma_add_contains, lemma_push_contains;

        let args = Self::command_args(input);
        let tail = SELECT@;
        if let Some(v) = input.bypass_proxy_server {
            lemma_script_holds_argument(args, tail, bool_arg("-BypassProxyServer"@, v));
        }
    }

    proof fn script_carries_enable_write_order_preservation_across_disks(
        input: SetVmReplicationInput,
    )
        ensures
            input.enable_write_order_preservation_across_disks matches Some(v) ==> holds(
                Self::script(input),
                bool_arg("-EnableWriteOrderPreservationAcrossDisks"@, v),
            ),
    {
        broadcast use lemma_add_contains, lemma_push_contains;

        let args = Self::command_args(input);
        let tail = SELECT@;
        if let Some(v) = input.enable_write_order_preservation_across_disks {
            lemma_script_holds_argument(
                args,
                tail,
                bool_arg("-EnableWriteOrderPreservationAcrossDisks"@, v),
            );
        }
    }

    proof fn script_carries_initial_replication_start_time(input: SetVmReplicationInput)
        ensures
            input.initial_replication_start_time matches Some(v) ==> holds(
                Self::script(input),
                quoted_arg("-InitialReplicationStartTime"@, v@),
            ),
    {
        broadcast use lemma_add_contains, lemma_push_contains;

        let args = Self::command_args(input);
        let tail = SELECT@;
        if let Some(v) = input.initial_replication_start_time {
            lemma_script_holds_argument(
                args,
                tail,
                quoted_arg("-InitialReplicationStartTime"@, v@),
            );
        }
    }

    proof fn script_carries_disable_vss_snapshot_replication(input: SetVmReplicationInput)
        ensures
            input.disable_vss_snapshot_replication == Some(true) ==> holds(
                Self::script(input),
                "-DisableVSSSnapshotReplication"@,
            ),
    {
        broadcast use lemma_add_contains, lemma_push_contains;

        let args = Self::command_args(input);
        let tail = SELECT@;
        if input.disable_vss_snapshot_replication == Some(true) {
            lemma_script_holds_argument(args, tail, "-DisableVSSSnapshotReplication"@);
        }
    }

    proof fn script_carries_vss_snapshot_frequency_hour(input: SetVmReplicationInput)
        ensures
            input.vss_snapshot_frequency_hour matches Some(v) ==> holds(
                Self::script(input),
                number_arg("-VSSSnapshotFrequencyHour"@, v as int),
            ),
    {
        broadcast use lemma_add_contains, lemma_push_contains;

        let args = Self::command_args(input);
        let tail = SELECT@;
        if let Some(v) = input.vss_snapshot_frequency_hour {
            lemma_script_holds_argument(
                args,
                tail,
                number_arg("-VSSSnapshotFrequencyHour"@, v as int),
            );
        }
    }

    proof fn script_carries_recovery_history(input: SetVmReplicationInput)
        ensures
            input.recovery_history matches Some(v) ==> holds(
                Self::script(input),
                number_arg("-RecoveryHistory"@, v as int),
            ),
    {
        broadcast use lemma_add_contains, lemma_push_contains;

        let args = Self::command_args(input);
        let tail = SELECT@;
        if let Some(v) = input.recovery_history {
            lemma_script_holds_argument(args, tail, number_arg("-RecoveryHistory"@, v as int));
        }
    }

    proof fn script_carries_replication_frequency_sec(input: SetVmReplicationInput)
        ensures
            input.replication_frequency_sec matches Some(v) ==> holds(
                Self::script(input),
                number_arg("-ReplicationFrequencySec"@, v as int),
            ),
    {
        broadcast use lemma_add_contains, lemma_push_contains;

        let args = Self::command_args(input);
        let tail = SELECT@;
        if let Some(v) = input.replication_frequency_sec {
            lemma_script_holds_argument(
                args,
                tail,
                number_arg("-ReplicationFrequencySec"@, v as int),
            );
        }
    }

    proof fn script_carries_replicated_disk_paths(input: SetVmReplicationInput)
        ensures
            input.replicated_disk_paths matches Some(v) ==> holds(
                Self::script(input),
                array_arg("-ReplicatedDiskPaths"@, v@),
            ),
    {
        broadcast use lemma_add_contains, lemma_push_contains;

        let args = Self::command_args(input);
        let tail = SELECT@;
        if let Some(v) = input.replicated_disk_paths {
            lemma_script_holds_argument(args, tail, array_arg("-ReplicatedDiskPaths"@, v@));
        }
    }

    proof fn script_carries_reverse(input: SetVmReplicationInput)
        ensures
            input.reverse == Some(true) ==> holds(Self::script(input), "-Reverse"@),
    {
        broadcast use lemma_add_contains, lemma_push_contains;

        let args = Self::command_args(input);
        let tail = SELECT@;
        if input.reverse == Some(true) {
            lemma_script_holds_argument(args, tail, "-Reverse"@);
        }
    }

    proof fn script_carries_auto_resynchronize_enabled(input: SetVmReplicationInput)
        ensures
            input.auto_resynchronize_enabled matches Some(v) ==> holds(
                Self::script(input),
                bool_arg("-AutoResynchronizeEnabled"@, v),
            ),
    {
        broadcast use lemma_add_contains, lemma_push_contains;

        let args = Self::command_args(input);
        let tail = SELECT@;
        if let Some(v) = input.auto_resynchronize_enabled {
            lemma_script_holds_argument(args, tail, bool_arg("-AutoResynchronizeEnabled"@, v));
        }
    }

    proof fn script_carries_auto_resynchronize_interval_start(input: SetVmReplicationInput)
        ensures
            input.auto_resynchronize_interval_start matches Some(v) ==> holds(
                Self::script(input),
                quoted_arg("-AutoResynchronizeIntervalStart"@, v@),
            ),
    {
        broadcast use lemma_add_contains, lemma_push_contains;

        let args = Self::command_args(input);
        let tail = SELECT@;
        if let Some(v) = input.auto_resynchronize_interval_start {
            lemma_script_holds_argument(
                args,
                tail,
                quoted_arg("-AutoResynchronizeIntervalStart"@, v@),
            );
        }
    }

    proof fn script_carries_auto_resynchronize_interval_end(input: SetVmReplicationInput)
        ensures
            input.auto_resynchronize_interval_end matches Some(v) ==> holds(
                Self::script(input),
                quoted_arg("-AutoResynchronizeIntervalEnd"@, v@),
            ),
    {
        broadcast use lemma_add_contains, lemma_push_contains;

        let args = Self::command_args(input);
        let tail = SELECT@;
        if let Some(v) = input.auto_resynchronize_interval_end {
            lemma_script_holds_argument(
                args,
                tail,
                quoted_arg("-AutoResynchronizeIntervalEnd"@, v@),
            );
        }
    }

    proof fn script_carries_as_replica(input: SetVmReplicationInput)
        ensures
            input.as_replica == Some(true) ==> holds(Self::script(input), "-AsReplica"@),
    {
        broadcast use lemma_add_contains, lemma_push_contains;

        let args = Self::command_args(input);
        let tail = SELECT@;
        if input.as_replica == Some(true) {
            lemma_script_holds_argument(args, tail, "-AsReplica"@);
        }
    }

    proof fn script_carries_allowed_primary_server(input: SetVmReplicationInput)
        ensures
            input.allowed_primary_server matches Some(v) ==> holds(
                Self::script(input),
                quoted_arg("-AllowedPrimaryServer"@, v@),
            ),
    {
        broadcast use lemma_add_contains, lemma_push_contains;

        let args = Self::command_args(input);
        let tail = SELECT@;
        if let Some(v) = input.allowed_primary_server {
            lemma_script_holds_argument(args, tail, quoted_arg("-AllowedPrimaryServer"@, v@));
        }
    }

    proof fn script_carries_use_backup(input: SetVmReplicationInput)
        ensures
            input.use_backup == Some(true) ==> holds(Self::script(input), "-UseBackup"@),
    {
        broadcast use lemma_add_contains, lemma_push_contains;

        let args = Self::command_args(input);
        let tail = SELECT@;
        if input.use_backup == Some(true) {
            lemma_script_holds_argument(args, tail, "-UseBackup"@);
        }
    }

    /// Each entry of the answer reads the printed record at its place: every
    /// field holds the record's member of the matching name.
    pub proof fn lemma_answer_reads_each_record(raw: JsonValue, out: SetVmReplicationOutput)
        requires
            describes_all(out.replication@, raw.records()),
        ensures
            out.replication@.len() == raw.records().len(),
            forall|i: int|
                #![trigger out.replication@[i]]
                0 <= i < raw.records().len() ==> {
                    &&& out.replication@[i].vm_name@ == raw.records()[i].text_or_empty("VMName"@)
                    &&& out.replication@[i].computer_name@
                        == raw.records()[i].text_or_empty("ComputerName"@)
                    &&& out.replication@[i].state@ == raw.records()[i].text_or_empty("State"@)
                    &&& out.replication@[i].health@ == raw.records()[i].text_or_empty("Health"@)
                    &&& out.replication@[i].mode@ == raw.records()[i].text_or_empty("Mode"@)
                    &&& out.replication@[i].authentication_type@
                        == raw.records()[i].text_or_empty("AuthenticationType"@)
                    &&& out.replication@[i].replication_frequency_sec
                        == raw.records()[i].u64_or_zero("ReplicationFrequencySec"@) as u32
                    &&& out.replication@[i].primary_server_name@
                        == raw.records()[i].text_or_empty("PrimaryServerName"@)
                    &&& out.replication@[i].replica_server_name@
                        == raw.records()[i].text_or_empty("ReplicaServerName"@)
                    &&& out.replication@[i].replica_server_port
                        == raw.records()[i].u64_or_zero("ReplicaServerPort"@) as u32
                    &&& out.replication@[i].last_replication_time@
                        == raw.records()[i].text_or_empty("LastReplicationTime"@)
                    &&& out.replication@[i].last_test_failover_initiated_time@
                        == raw.records()[i].text_or_empty("LastTestFailoverInitiatedTime"@)
                },
    {
        assert forall|i: int| 0 <= i < raw.records().len() implies {
            &&& out.replication@[i].vm_name@ == raw.records()[i].text_or_empty("VMName"@)
            &&& out.replication@[i].computer_name@
                == raw.records()[i].text_or_empty("ComputerName"@)
            &&& out.replication@[i].state@ == raw.records()[i].text_or_empty("State"@)
            &&& out.replication@[i].health@ == raw.records()[i].text_or_empty("Health"@)
            &&& out.replication@[i].mode@ == raw.records()[i].text_or_empty("Mode"@)
            &&& out.replication@[i].authentication_type@
                == raw.records()[i].text_or_empty("AuthenticationType"@)
            &&& out.replication@[i].replication_frequency_sec
                == raw.records()[i].u64_or_zero("ReplicationFrequencySec"@) as u32
            &&& out.replication@[i].primary_server_name@
                == raw.records()[i].text_or_empty("PrimaryServerName"@)
            &&& out.replication@[i].replica_server_name@
                == raw.records()[i].text_or_empty("ReplicaServerName"@)
            &&& out.replication@[i].replica_server_port
                == raw.records()[i].u64_or_zero("ReplicaServerPort"@) as u32
            &&& out.replication@[i].last_replication_time@
                == raw.records()[i].text_or_empty("LastReplicationTime"@)
            &&& out.replication@[i].last_test_failover_initiated_time@
                == raw.records()[i].text_or_empty("LastTestFailoverInitiatedTime"@)
        } by {
            assert(out.replication@[i].describes(raw.records()[i]));
        }
    }

    /// A request is valid only when it passes every check: none of the
    /// conditions that refuse a request holds of it.
    pub proof fn lemma_valid_request_passes_every_check(input: SetVmReplicationInput)
        requires
            Self::input_problem(input) is None,
        ensures
            !(is_blank(input.vm_name@)),
            !(input.computer_name matches Some(s) && is_blank(s@)),
    {
    }
}

} // verus!
