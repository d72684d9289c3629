//! Requests that take the tools down their less common paths.
use hyperv_tools::error::ToolError;
use hyperv_tools::tools::remove_vm_hard_disk_drive::{
    RemoveVmHardDiskDriveInput, RemoveVmHardDiskDriveTool,
};
use hyperv_tools::tools::remove_vm_host_assignable_device::{
    RemoveVmHostAssignableDeviceInput, RemoveVmHostAssignableDeviceTool,
};
use hyperv_tools::tools::remove_vm_network_adapter_acl::{
    RemoveVmNetworkAdapterAclInput, RemoveVmNetworkAdapterAclTool,
};
use hyperv_tools::tools::remove_vm_network_adapter_extended_acl::{
    RemoveVmNetworkAdapterExtendedAclInput, RemoveVmNetworkAdapterExtendedAclTool,
};
use hyperv_tools::tools::remove_vm_network_adapter_routing_domain_mapping::{
    RemoveVmNetworkAdapterRoutingDomainMappingInput, RemoveVmNetworkAdapterRoutingDomainMappingTool,
};
use hyperv_tools::tools::remove_vm_replication_authorization_entry::{
    RemoveVmReplicationAuthorizationEntryInput, RemoveVmReplicationAuthorizationEntryTool,
};
use hyperv_tools::tools::resize_vhd::{ResizeVhdInput, ResizeVhdTool};
use hyperv_tools::tools::set_vhd::{SetVhdInput, SetVhdTool};
use hyperv_tools::tools::set_vm_bios::{SetVmBiosInput, SetVmBiosTool};
use hyperv_tools::tools::set_vm_com_port::{SetVmComPortInput, SetVmComPortTool};
use hyperv_tools::tools::set_vm_floppy_disk_drive::{
    SetVmFloppyDiskDriveInput, SetVmFloppyDiskDriveTool,
};
use hyperv_tools::tools::set_vm_network_adapter_failover_configuration::{
    SetVmNetworkAdapterFailoverConfigurationInput, SetVmNetworkAdapterFailoverConfigurationTool,
};
use hyperv_tools::tools::set_vm_network_adapter_isolation::{
    SetVmNetworkAdapterIsolationInput, SetVmNetworkAdapterIsolationTool,
};
use hyperv_tools::tools::set_vm_network_adapter_routing_domain_mapping::{
    SetVmNetworkAdapterRoutingDomainMappingInput, SetVmNetworkAdapterRoutingDomainMappingTool,
};
use hyperv_tools::tools::set_vm_network_adapter_vlan::{
    parse_mode, SetVmNetworkAdapterVlanInput, SetVmNetworkAdapterVlanTool, VlanMode,
};
use hyperv_tools::tools::set_vm_replication_server::{
    SetVmReplicationServerInput, SetVmReplicationServerTool,
};

fn refused(msg: &str) -> Result<String, ToolError> {
    Err(ToolError::InvalidInput(msg.to_string()))
}

fn head(script: Result<String, ToolError>) -> String {
    let script = script.unwrap();
    script.split(" | ").next().unwrap().to_string()
}

fn some(s: &str) -> Option<String> {
    Some(s.to_string())
}

fn vlan(mode: &str) -> SetVmNetworkAdapterVlanInput {
    SetVmNetworkAdapterVlanInput {
        vm_name: some("web"),
        computer_name: None,
        management_os: None,
        vm_network_adapter_name: None,
        operation_mode: mode.to_string(),
        vlan_id: None,
        native_vlan_id: None,
        allowed_vlan_id_list: None,
        primary_vlan_id: None,
        secondary_vlan_id: None,
        secondary_vlan_id_list: None,
    }
}

#[test]
fn vlan_access_mode_needs_a_vlan_id() {
    let mut input = vlan(" access ");
    assert_eq!(
        SetVmNetworkAdapterVlanTool::build_script(&input),
        refused("vlan_id is required for Access mode"),
    );
    input.vlan_id = Some(10);
    assert_eq!(
        head(SetVmNetworkAdapterVlanTool::build_script(&input)),
        "Set-VMNetworkAdapterVlan -VMName 'web' -Access -VlanId 10 -Passthru"
    );
}

#[test]
fn vlan_untagged_mode_needs_nothing_more() {
    let mut input = vlan("UNTAGGED");
    input.management_os = Some(true);
    input.vm_name = None;
    input.vm_network_adapter_name = some("Ext");
    assert_eq!(
        head(SetVmNetworkAdapterVlanTool::build_script(&input)),
        "Set-VMNetworkAdapterVlan -ManagementOS -VMNetworkAdapterName 'Ext' -Untagged -Passthru"
    );
}

#[test]
fn vlan_trunk_mode_needs_native_id_and_allowed_list() {
    let mut input = vlan("Trunk");
    assert_eq!(
        SetVmNetworkAdapterVlanTool::build_script(&input),
        refused("native_vlan_id is required for Trunk mode"),
    );
    input.native_vlan_id = Some(1);
    assert_eq!(
        SetVmNetworkAdapterVlanTool::build_script(&input),
        refused("allowed_vlan_id_list is required for Trunk mode"),
    );
    input.allowed_vlan_id_list = some("  ");
    assert_eq!(
        SetVmNetworkAdapterVlanTool::build_script(&input),
        refused("allowed_vlan_id_list is required for Trunk mode"),
    );
    input.allowed_vlan_id_list = some("1-100,200");
    input.computer_name = some("hv1");
    assert_eq!(
        head(SetVmNetworkAdapterVlanTool::build_script(&input)),
        "Set-VMNetworkAdapterVlan -VMName 'web' -ComputerName 'hv1' -Trunk -NativeVlanId 1 -AllowedVlanIdList '1-100,200' -Passthru"
    );
}

#[test]
fn vlan_private_modes_need_primary_and_secondary_ids() {
    for (mode, switch) in [("isolated", "-Isolated"), ("Community", "-Community")] {
        let mut input = vlan(mode);
        assert_eq!(
            SetVmNetworkAdapterVlanTool::build_script(&input),
            refused("primary_vlan_id is required for Isolated/Community mode")
        );
        input.primary_vlan_id = Some(100);
        assert_eq!(
            SetVmNetworkAdapterVlanTool::build_script(&input),
            refused("secondary_vlan_id is required for Isolated/Community mode")
        );
        input.secondary_vlan_id = Some(-200);
        assert_eq!(
            head(SetVmNetworkAdapterVlanTool::build_script(&input)),
            format!(
                "Set-VMNetworkAdapterVlan -VMName 'web' {} -PrimaryVlanId 100 -SecondaryVlanId -200 -Passthru",
                switch,
            )
        );
    }
}

#[test]
fn vlan_promiscuous_mode_needs_primary_id_and_secondary_list() {
    let mut input = vlan("Promiscuous");
    assert_eq!(
        SetVmNetworkAdapterVlanTool::build_script(&input),
        refused("primary_vlan_id is required for Promiscuous mode"),
    );
    input.primary_vlan_id = Some(5);
    assert_eq!(
        SetVmNetworkAdapterVlanTool::build_script(&input),
        refused("secondary_vlan_id_list is required for Promiscuous mode")
    );
    input.secondary_vlan_id_list = some("6-9");
    assert_eq!(
        head(SetVmNetworkAdapterVlanTool::build_script(&input)),
        "Set-VMNetworkAdapterVlan -VMName 'web' -Promiscuous -PrimaryVlanId 5 -SecondaryVlanIdList '6-9' -Passthru"
    );
}

#[test]
fn vlan_refuses_unknown_or_missing_modes_and_targets() {
    assert_eq!(
        SetVmNetworkAdapterVlanTool::build_script(&vlan("Tagged")),
        refused(
            "operation_mode must be one of: Access, Untagged, Trunk, Isolated, Community, Promiscuous",
        )
    );
    assert_eq!(
        SetVmNetworkAdapterVlanTool::build_script(&vlan(" \t")),
        refused("operation_mode must not be empty"),
    );
    let mut input = vlan("Access");
    input.vm_name = some(" ");
    assert_eq!(
        SetVmNetworkAdapterVlanTool::build_script(&input),
        refused("VM name must be provided when management_os is not enabled")
    );
    input.management_os = Some(false);
    input.vm_name = None;
    assert_eq!(
        SetVmNetworkAdapterVlanTool::build_script(&input),
        refused("VM name must be provided when management_os is not enabled")
    );
}

#[test]
fn vlan_mode_names_ignore_case() {
    assert!(matches!(parse_mode("pRoMiScUoUs"), Some(VlanMode::Promiscuous)));
    assert!(matches!(parse_mode("ACCESS"), Some(VlanMode::Access)));
    assert!(matches!(parse_mode(" access"), None));
    assert!(matches!(parse_mode(""), None));
}

fn acl() -> RemoveVmNetworkAdapterAclInput {
    RemoveVmNetworkAdapterAclInput {
        vm_name: some("web"),
        vm_network_adapter_name: None,
        action: " deny ".to_string(),
        direction: "BOTH".to_string(),
        computer_name: None,
        local_ip_address: None,
        local_mac_address: None,
        remote_ip_address: None,
        remote_mac_address: None,
        management_os: false,
    }
}

#[test]
fn acl_removal_writes_trimmed_action_and_address_lists() {
    let mut input = acl();
    input.remote_ip_address = Some(vec!["10.0.0.0/8".to_string(), "192.168.1.1".to_string()]);
    input.local_mac_address = Some(vec!["00-15-5D-00-00-01".to_string()]);
    assert_eq!(
        head(RemoveVmNetworkAdapterAclTool::build_script(&input)),
        "Remove-VMNetworkAdapterAcl -VMName 'web' -Action 'deny' -Direction 'BOTH' -LocalMacAddress '00-15-5D-00-00-01' -RemoteIPAddress '10.0.0.0/8','192.168.1.1' -PassThru -Confirm:$false"
    );
}

#[test]
fn acl_removal_targets_exactly_one_of_vm_and_host() {
    let mut input = acl();
    input.management_os = true;
    assert_eq!(
        RemoveVmNetworkAdapterAclTool::build_script(&input),
        refused("vm_name cannot be combined with management_os")
    );
    input.vm_name = None;
    assert_eq!(
        head(RemoveVmNetworkAdapterAclTool::build_script(&input)),
        "Remove-VMNetworkAdapterAcl -ManagementOS -Action 'deny' -Direction 'BOTH' -PassThru -Confirm:$false"
    );
    input.management_os = false;
    assert_eq!(
        RemoveVmNetworkAdapterAclTool::build_script(&input),
        refused("vm_name must be provided when management_os is not enabled")
    );
}

#[test]
fn acl_removal_checks_each_value() {
    let mut input = acl();
    input.vm_name = some("");
    assert_eq!(
        RemoveVmNetworkAdapterAclTool::build_script(&input),
        refused("VM name must not be empty"),
    );
    let mut input = acl();
    input.vm_network_adapter_name = some(" ");
    assert_eq!(
        RemoveVmNetworkAdapterAclTool::build_script(&input),
        refused("Adapter name must not be empty"),
    );
    let mut input = acl();
    input.computer_name = some("\t");
    assert_eq!(
        RemoveVmNetworkAdapterAclTool::build_script(&input),
        refused("Computer name must not be empty"),
    );
    let mut input = acl();
    input.action = "  ".to_string();
    assert_eq!(
        RemoveVmNetworkAdapterAclTool::build_script(&input),
        refused("action must not be empty"),
    );
    input.action = "Block".to_string();
    assert_eq!(
        RemoveVmNetworkAdapterAclTool::build_script(&input),
        refused("action must be one of: Allow, Deny, Meter"),
    );
    let mut input = acl();
    input.direction = String::new();
    assert_eq!(
        RemoveVmNetworkAdapterAclTool::build_script(&input),
        refused("direction must not be empty"),
    );
    input.direction = "Sideways".to_string();
    assert_eq!(
        RemoveVmNetworkAdapterAclTool::build_script(&input),
        refused("direction must be one of: Inbound, Outbound, Both")
    );
    let mut input = acl();
    input.remote_mac_address = Some(vec![]);
    assert_eq!(
        RemoveVmNetworkAdapterAclTool::build_script(&input),
        refused("remoteMacAddress must not be empty when provided")
    );
    input.local_ip_address = Some(vec![]);
    assert_eq!(
        RemoveVmNetworkAdapterAclTool::build_script(&input),
        refused("localIpAddress must not be empty when provided")
    );
}

#[test]
fn extended_acl_removal_targets_exactly_one_of_vm_and_host() {
    let input = RemoveVmNetworkAdapterExtendedAclInput {
        vm_name: None,
        vm_network_adapter_name: None,
        weight: 10,
        direction: " outbound".to_string(),
        management_os: true,
        computer_name: None,
    };
    assert_eq!(
        head(RemoveVmNetworkAdapterExtendedAclTool::build_script(&input)),
        "Remove-VMNetworkAdapterExtendedAcl -ManagementOS -Weight 10 -Direction 'outbound' -Confirm:$false"
    );
    let neither = RemoveVmNetworkAdapterExtendedAclInput { management_os: false, ..input };
    assert_eq!(
        RemoveVmNetworkAdapterExtendedAclTool::build_script(&neither),
        refused("Either vmName or managementOS must be specified")
    );
    let both = RemoveVmNetworkAdapterExtendedAclInput { vm_name: some("a"), management_os: true, ..neither };
    assert_eq!(
        RemoveVmNetworkAdapterExtendedAclTool::build_script(&both),
        refused("Cannot specify both vmName and managementOS")
    );
    let wrong = RemoveVmNetworkAdapterExtendedAclInput { management_os: false, direction: "Both".to_string(), ..both };
    assert_eq!(
        RemoveVmNetworkAdapterExtendedAclTool::build_script(&wrong),
        refused("direction must be Inbound or Outbound")
    );
}

#[test]
fn routing_domain_mapping_removal_needs_a_domain() {
    let input = RemoveVmNetworkAdapterRoutingDomainMappingInput {
        vm_name: None,
        vm_network_adapter_name: None,
        management_os: true,
        routing_domain_id: None,
        routing_domain_name: None,
        computer_name: None,
    };
    assert_eq!(
        RemoveVmNetworkAdapterRoutingDomainMappingTool::build_script(&input),
        refused("At least one of routingDomainID or routingDomainName must be specified")
    );
    let named = RemoveVmNetworkAdapterRoutingDomainMappingInput { routing_domain_name: some("Blue"), ..input };
    assert_eq!(
        head(RemoveVmNetworkAdapterRoutingDomainMappingTool::build_script(&named)),
        "Remove-VMNetworkAdapterRoutingDomainMapping -ManagementOS -RoutingDomainName 'Blue' -Confirm:$false"
    );
    let both = RemoveVmNetworkAdapterRoutingDomainMappingInput { vm_name: some("web"), ..named };
    assert_eq!(
        RemoveVmNetworkAdapterRoutingDomainMappingTool::build_script(&both),
        refused("vmName cannot be combined with managementOS")
    );
}

fn routing() -> SetVmNetworkAdapterRoutingDomainMappingInput {
    SetVmNetworkAdapterRoutingDomainMappingInput {
        vm_name: some("web"),
        vm_network_adapter_name: None,
        computer_name: None,
        management_os: None,
        routing_domain_id: some("{C65D2A8E-0000-0000-0000-000000000001}"),
        routing_domain_name: None,
        new_routing_domain_name: None,
        isolation_id: vec![],
        isolation_name: vec![],
    }
}

#[test]
fn routing_domain_mapping_writes_subnet_ids_and_names() {
    let mut input = routing();
    assert_eq!(
        SetVmNetworkAdapterRoutingDomainMappingTool::build_script(&input),
        refused(
            "At least one of new_routing_domain_name, isolation_id, or isolation_name must be provided",
        )
    );
    input.isolation_id = vec![5001, 5002];
    input.isolation_name = vec!["Red".to_string(), "O'Hare".to_string()];
    assert_eq!(
        head(SetVmNetworkAdapterRoutingDomainMappingTool::build_script(&input)),
        "Set-VMNetworkAdapterRoutingDomainMapping -VMName 'web' -RoutingDomainID '{C65D2A8E-0000-0000-0000-000000000001}' -IsolationID 5001,5002 -IsolationName 'Red','O''Hare' -PassThru"
    );
    input.management_os = Some(true);
    input.isolation_name = vec![];
    assert_eq!(
        head(SetVmNetworkAdapterRoutingDomainMappingTool::build_script(&input)),
        "Set-VMNetworkAdapterRoutingDomainMapping -ManagementOS -RoutingDomainID '{C65D2A8E-0000-0000-0000-000000000001}' -IsolationID 5001,5002 -PassThru"
    );
}

#[test]
fn routing_domain_mapping_checks_in_order() {
    let mut input = routing();
    input.routing_domain_id = None;
    assert_eq!(
        SetVmNetworkAdapterRoutingDomainMappingTool::build_script(&input),
        refused("At least one of routing_domain_id or routing_domain_name must be provided")
    );
    let mut input = routing();
    input.new_routing_domain_name = some(" ");
    input.routing_domain_id = some("");
    assert_eq!(
        SetVmNetworkAdapterRoutingDomainMappingTool::build_script(&input),
        refused("routing_domain_id must not be empty")
    );
    input.routing_domain_id = some("x");
    assert_eq!(
        SetVmNetworkAdapterRoutingDomainMappingTool::build_script(&input),
        refused("new_routing_domain_name must not be empty")
    );
}

#[test]
fn floppy_blank_path_dismounts_the_disk() {
    let mut input = SetVmFloppyDiskDriveInput {
        vm_name: "legacy".to_string(),
        computer_name: None,
        path: some("  "),
        resource_pool_name: some("Primordial"),
    };
    assert_eq!(
        head(SetVmFloppyDiskDriveTool::build_script(&input)),
        "Set-VMFloppyDiskDrive -VMName 'legacy' -Path $null -ResourcePoolName 'Primordial'"
    );
    input.path = some("D:\\boot.vfd");
    assert_eq!(
        head(SetVmFloppyDiskDriveTool::build_script(&input)),
        "Set-VMFloppyDiskDrive -VMName 'legacy' -Path 'D:\\boot.vfd' -ResourcePoolName 'Primordial'"
    );
    input.path = None;
    input.vm_name = String::new();
    assert_eq!(
        SetVmFloppyDiskDriveTool::build_script(&input),
        refused("VM name must not be empty"),
    );
}

#[test]
fn bios_num_lock_is_a_switch_either_way() {
    let mut input = SetVmBiosInput {
        name: "legacy".to_string(),
        computer_name: None,
        startup_order: Some(vec!["CD".to_string(), "IDE".to_string()]),
        num_lock_enabled: Some(false),
    };
    assert_eq!(
        head(SetVmBiosTool::build_script(&input)),
        "Set-VMBios -VMName 'legacy' -StartupOrder @('CD','IDE') -DisableNumLock"
    );
    input.num_lock_enabled = Some(true);
    input.startup_order = None;
    assert_eq!(
        head(SetVmBiosTool::build_script(&input)),
        "Set-VMBios -VMName 'legacy' -EnableNumLock",
    );
    input.num_lock_enabled = None;
    assert_eq!(head(SetVmBiosTool::build_script(&input)), "Set-VMBios -VMName 'legacy'");
}

#[test]
fn failover_addresses_are_written_only_when_given() {
    let input = SetVmNetworkAdapterFailoverConfigurationInput {
        vm_name: "web".to_string(),
        network_adapter_name: "nic".to_string(),
        ip_addresses: vec![],
        computer_name: None,
    };
    assert_eq!(
        head(SetVmNetworkAdapterFailoverConfigurationTool::build_script(&input)),
        "Set-VMNetworkAdapterFailoverConfiguration -VMName 'web' -NetworkAdapterName 'nic'"
    );
    let named = SetVmNetworkAdapterFailoverConfigurationInput { network_adapter_name: " ".to_string(), ..input };
    assert_eq!(
        SetVmNetworkAdapterFailoverConfigurationTool::build_script(&named),
        refused("network_adapter_name must not be empty")
    );
}

#[test]
fn com_port_number_is_one_or_two() {
    let input = SetVmComPortInput { name: "web".to_string(), number: 3, path: None, computer_name: None, debugger_mode: None };
    assert_eq!(SetVmComPortTool::build_script(&input), refused("COM port number must be 1 or 2"));
    let second = SetVmComPortInput { number: 2, ..input };
    assert_eq!(
        head(SetVmComPortTool::build_script(&second)),
        "Set-VMComPort -VMName 'web' -Number 2",
    );
}

#[test]
fn disk_removal_needs_a_known_controller_type() {
    let input = RemoveVmHardDiskDriveInput {
        vm_name: "web".to_string(),
        controller_type: " ide ".to_string(),
        controller_number: 0,
        controller_location: -1,
        computer_name: None,
    };
    assert_eq!(
        head(RemoveVmHardDiskDriveTool::build_script(&input)),
        "Remove-VMHardDiskDrive -VMName 'web' -ControllerType 'ide' -ControllerNumber 0 -ControllerLocation -1 -Confirm:$false"
    );
    let other = RemoveVmHardDiskDriveInput { controller_type: "NVMe".to_string(), ..input };
    assert_eq!(
        RemoveVmHardDiskDriveTool::build_script(&other),
        refused("controllerType must be IDE or SCSI"),
    );
    let blank = RemoveVmHardDiskDriveInput { controller_type: " ".to_string(), ..other };
    assert_eq!(
        RemoveVmHardDiskDriveTool::build_script(&blank),
        refused("controllerType must not be empty"),
    );
}

#[test]
fn host_device_removal_needs_a_path() {
    let input = RemoveVmHostAssignableDeviceInput {
        resource_pool_name: " gpus ".to_string(),
        instance_path: some(" "),
        location_path: None,
        computer_name: None,
        force: false,
    };
    assert_eq!(
        RemoveVmHostAssignableDeviceTool::build_script(&input),
        refused("either instancePath or locationPath must be provided")
    );
    let located = RemoveVmHostAssignableDeviceInput { location_path: some(" PCIROOT(0) "), ..input };
    assert_eq!(
        head(RemoveVmHostAssignableDeviceTool::build_script(&located)),
        "Remove-VMHostAssignableDevice -ResourcePoolName 'gpus' -LocationPath 'PCIROOT(0)' -Confirm:$false"
    );
}

#[test]
fn authorization_entry_removal_takes_one_selector() {
    let input = RemoveVmReplicationAuthorizationEntryInput { allowed_primary_server: None, trust_group: None, computer_name: None };
    assert_eq!(
        RemoveVmReplicationAuthorizationEntryTool::build_script(&input),
        refused("Either allowedPrimaryServer or trustGroup must be provided")
    );
    let grouped = RemoveVmReplicationAuthorizationEntryInput { allowed_primary_server: some(" "), trust_group: some("DEFAULT"), ..input };
    assert_eq!(
        head(RemoveVmReplicationAuthorizationEntryTool::build_script(&grouped)),
        "Remove-VMReplicationAuthorizationEntry -TrustGroup 'DEFAULT' -PassThru -Confirm:$false"
    );
    let both = RemoveVmReplicationAuthorizationEntryInput { allowed_primary_server: some("p.contoso.com"), ..grouped };
    assert_eq!(
        RemoveVmReplicationAuthorizationEntryTool::build_script(&both),
        refused("allowedPrimaryServer and trustGroup cannot both be provided")
    );
}

#[test]
fn resizing_takes_a_size_or_the_minimum() {
    let input = ResizeVhdInput { path: "C:\\d.vhdx".to_string(), size_bytes: Some(10), to_minimum_size: true, computer_name: None };
    assert_eq!(
        ResizeVhdTool::build_script(&input),
        refused("Specify either size_bytes or to_minimum_size, not both"),
    );
    let neither = ResizeVhdInput { size_bytes: None, to_minimum_size: false, ..input };
    assert_eq!(
        ResizeVhdTool::build_script(&neither),
        refused("Either size_bytes or to_minimum_size must be specified"),
    );
    let minimum = ResizeVhdInput { to_minimum_size: true, ..neither };
    assert_eq!(
        head(ResizeVhdTool::build_script(&minimum)),
        "Resize-VHD -Path 'C:\\d.vhdx' -ToMinimumSize -Passthru",
    );
}

#[test]
fn set_vhd_needs_a_setting_and_writes_switches_only_when_true() {
    let input = SetVhdInput {
        path: "C:\\d.vhdx".to_string(),
        computer_name: None,
        parent_path: None,
        leaf_path: None,
        ignore_id_mismatch: Some(false),
        physical_sector_size_bytes: None,
        reset_disk_identifier: None,
        force: Some(true),
    };
    assert_eq!(
        SetVhdTool::build_script(&input),
        refused(
            "At least one of parent_path, physical_sector_size_bytes, or reset_disk_identifier must be provided",
        )
    );
    let reset = SetVhdInput { reset_disk_identifier: Some(false), ..input };
    assert_eq!(head(SetVhdTool::build_script(&reset)), "Set-VHD -Path 'C:\\d.vhdx' -Force");
}

#[test]
fn replica_server_open_to_any_server_needs_a_storage_location() {
    let input = SetVmReplicationServerInput {
        computer_name: None,
        replication_enabled: None,
        allowed_authentication_type: None,
        replication_allowed_from_any_server: None,
        certificate_thumbprint: None,
        default_storage_location: None,
        kerberos_authentication_port: None,
        certificate_authentication_port: None,
        monitoring_interval: None,
        monitoring_start_time: None,
        force: Some(true),
    };
    assert_eq!(
        SetVmReplicationServerTool::build_script(&input),
        refused("At least one Replica server setting must be provided")
    );
    let open = SetVmReplicationServerInput { replication_allowed_from_any_server: Some(true), ..input };
    assert_eq!(
        SetVmReplicationServerTool::build_script(&open),
        refused(
            "DefaultStorageLocation must be provided when ReplicationAllowedFromAnyServer is true",
        )
    );
    let stored = SetVmReplicationServerInput { default_storage_location: some("R:\\Replica"), ..open };
    assert_eq!(
        head(SetVmReplicationServerTool::build_script(&stored)),
        "Set-VMReplicationServer -ReplicationAllowedFromAnyServer $true -DefaultStorageLocation 'R:\\Replica' -Force"
    );
}

#[test]
fn isolation_names_the_host_or_a_machine() {
    let input = SetVmNetworkAdapterIsolationInput {
        vm_name: None,
        name: "nic".to_string(),
        computer_name: None,
        management_os: Some(true),
        isolation_mode: some("Vlan"),
        allow_untagged_traffic: None,
        default_isolation_id: Some(-1),
        multi_tenant_stack: None,
    };
    assert_eq!(
        head(SetVmNetworkAdapterIsolationTool::build_script(&input)),
        "Set-VMNetworkAdapterIsolation -ManagementOS -VMNetworkAdapterName 'nic' -IsolationMode 'Vlan' -DefaultIsolationID -1"
    );
    let guest = SetVmNetworkAdapterIsolationInput { management_os: None, ..input };
    assert_eq!(
        SetVmNetworkAdapterIsolationTool::build_script(&guest),
        refused("VM name must be provided when management_os is not enabled")
    );
}

#[test]
fn certificate_authentication_needs_a_thumbprint() {
    let input = SetVmReplicationServerInput {
        computer_name: None,
        replication_enabled: None,
        allowed_authentication_type: some("Certificate"),
        replication_allowed_from_any_server: None,
        certificate_thumbprint: None,
        default_storage_location: None,
        kerberos_authentication_port: None,
        certificate_authentication_port: None,
        monitoring_interval: None,
        monitoring_start_time: None,
        force: None,
    };
    let missing = "CertificateThumbprint must be provided when AllowedAuthenticationType is Certificate";
    assert_eq!(SetVmReplicationServerTool::build_script(&input), refused(missing));
    let blank = SetVmReplicationServerInput {
        allowed_authentication_type: some(" certificate "),
        certificate_thumbprint: some("  "),
        ..input
    };
    assert_eq!(SetVmReplicationServerTool::build_script(&blank), refused(missing));
    let given = SetVmReplicationServerInput { certificate_thumbprint: some("0442C676"), ..blank };
    assert_eq!(
        head(SetVmReplicationServerTool::build_script(&given)),
        "Set-VMReplicationServer -AllowedAuthenticationType ' certificate ' -CertificateThumbprint '0442C676'"
    );
    let kerberos = SetVmReplicationServerInput {
        allowed_authentication_type: some("CertificateAndKerberos"),
        certificate_thumbprint: None,
        ..given
    };
    assert_eq!(
        head(SetVmReplicationServerTool::build_script(&kerberos)),
        "Set-VMReplicationServer -AllowedAuthenticationType 'CertificateAndKerberos'"
    );
}
