//! Scripts that the tools build for valid requests.
use hyperv_tools::tools::remove_vm::{RemoveVmInput, RemoveVmTool};
use hyperv_tools::tools::remove_vm_assignable_device::{
    RemoveVmAssignableDeviceInput, RemoveVmAssignableDeviceTool,
};
use hyperv_tools::tools::remove_vm_dvd_drive::{RemoveVmDvdDriveInput, RemoveVmDvdDriveTool};
use hyperv_tools::tools::remove_vm_gpu_partition_adapter::{
    RemoveVmGpuPartitionAdapterInput, RemoveVmGpuPartitionAdapterTool,
};
use hyperv_tools::tools::remove_vm_group_member::{
    RemoveVmGroupMemberInput, RemoveVmGroupMemberTool,
};
use hyperv_tools::tools::remove_vm_hard_disk_drive::{
    RemoveVmHardDiskDriveInput, RemoveVmHardDiskDriveTool,
};
use hyperv_tools::tools::remove_vm_host_assignable_device::{
    RemoveVmHostAssignableDeviceInput, RemoveVmHostAssignableDeviceTool,
};
use hyperv_tools::tools::remove_vm_migration_network::{
    RemoveVmMigrationNetworkInput, RemoveVmMigrationNetworkTool,
};
use hyperv_tools::tools::remove_vm_network_adapter::{
    RemoveVmNetworkAdapterInput, RemoveVmNetworkAdapterTool,
};
use hyperv_tools::tools::remove_vm_network_adapter_acl::{
    RemoveVmNetworkAdapterAclInput, RemoveVmNetworkAdapterAclTool,
};
use hyperv_tools::tools::remove_vm_network_adapter_extended_acl::{
    RemoveVmNetworkAdapterExtendedAclInput, RemoveVmNetworkAdapterExtendedAclTool,
};
use hyperv_tools::tools::remove_vm_network_adapter_routing_domain_mapping::{
    RemoveVmNetworkAdapterRoutingDomainMappingInput, RemoveVmNetworkAdapterRoutingDomainMappingTool,
};
use hyperv_tools::tools::remove_vm_network_adapter_team_mapping::{
    RemoveVmNetworkAdapterTeamMappingInput, RemoveVmNetworkAdapterTeamMappingTool,
};
use hyperv_tools::tools::remove_vm_replication::{RemoveVmReplicationInput, RemoveVmReplicationTool};
use hyperv_tools::tools::remove_vm_replication_authorization_entry::{
    RemoveVmReplicationAuthorizationEntryInput, RemoveVmReplicationAuthorizationEntryTool,
};
use hyperv_tools::tools::remove_vm_resource_pool::{
    RemoveVmResourcePoolInput, RemoveVmResourcePoolTool,
};
use hyperv_tools::tools::remove_vm_scsi_controller::{
    RemoveVmScsiControllerInput, RemoveVmScsiControllerTool,
};
use hyperv_tools::tools::remove_vm_snapshot::{RemoveVmSnapshotInput, RemoveVmSnapshotTool};
use hyperv_tools::tools::remove_vm_storage_path::{
    RemoveVmStoragePathInput, RemoveVmStoragePathTool,
};
use hyperv_tools::tools::remove_vm_switch::{RemoveVmSwitchInput, RemoveVmSwitchTool};
use hyperv_tools::tools::remove_vm_switch_extension_port_feature::{
    RemoveVmSwitchExtensionPortFeatureInput, RemoveVmSwitchExtensionPortFeatureTool,
};
use hyperv_tools::tools::remove_vm_switch_team_member::{
    RemoveVmSwitchTeamMemberInput, RemoveVmSwitchTeamMemberTool,
};
use hyperv_tools::tools::rename_vm_group::{RenameVmGroupInput, RenameVmGroupTool};
use hyperv_tools::tools::rename_vm_network_adapter::{
    RenameVmNetworkAdapterInput, RenameVmNetworkAdapterTool,
};
use hyperv_tools::tools::rename_vm_san::{RenameVmSanInput, RenameVmSanTool};
use hyperv_tools::tools::rename_vm_snapshot::{RenameVmSnapshotInput, RenameVmSnapshotTool};
use hyperv_tools::tools::rename_vm_switch::{RenameVmSwitchInput, RenameVmSwitchTool};
use hyperv_tools::tools::reset_vm_replication_statistics::{
    ResetVmReplicationStatisticsInput, ResetVmReplicationStatisticsTool,
};
use hyperv_tools::tools::reset_vm_resource_metering::{
    ResetVmResourceMeteringInput, ResetVmResourceMeteringTool,
};
use hyperv_tools::tools::resize_vhd::{ResizeVhdInput, ResizeVhdTool};
use hyperv_tools::tools::restore_vmsnapshot::{RestoreVmsnapshotInput, RestoreVmsnapshotTool};
use hyperv_tools::tools::resume_vm::{ResumeVmInput, ResumeVmTool};
use hyperv_tools::tools::resume_vm_replication::{ResumeVmReplicationInput, ResumeVmReplicationTool};
use hyperv_tools::tools::revoke_vm_connect_access::{
    RevokeVmConnectAccessInput, RevokeVmConnectAccessTool,
};
use hyperv_tools::tools::set_vhd::{SetVhdInput, SetVhdTool};
use hyperv_tools::tools::set_vm::{SetVmInput, SetVmTool};
use hyperv_tools::tools::set_vm_bios::{SetVmBiosInput, SetVmBiosTool};
use hyperv_tools::tools::set_vm_com_port::{SetVmComPortInput, SetVmComPortTool};
use hyperv_tools::tools::set_vm_fibre_channel_hba::{
    SetVmFibreChannelHbaInput, SetVmFibreChannelHbaTool,
};
use hyperv_tools::tools::set_vm_firmware::{SetVmFirmwareInput, SetVmFirmwareTool};
use hyperv_tools::tools::set_vm_floppy_disk_drive::{
    SetVmFloppyDiskDriveInput, SetVmFloppyDiskDriveTool,
};
use hyperv_tools::tools::set_vm_hard_disk_drive::{SetVmHardDiskDriveInput, SetVmHardDiskDriveTool};
use hyperv_tools::tools::set_vm_host::{SetVmHostInput, SetVmHostTool};
use hyperv_tools::tools::set_vm_host_cluster::{SetVmHostClusterInput, SetVmHostClusterTool};
use hyperv_tools::tools::set_vm_host_partitionable_gpu::{
    SetVmHostPartitionableGpuInput, SetVmHostPartitionableGpuTool,
};
use hyperv_tools::tools::set_vm_key_protector::{SetVmKeyProtectorInput, SetVmKeyProtectorTool};
use hyperv_tools::tools::set_vm_memory::{SetVmMemoryInput, SetVmMemoryTool};
use hyperv_tools::tools::set_vm_migration_network::{
    SetVmMigrationNetworkInput, SetVmMigrationNetworkTool,
};
use hyperv_tools::tools::set_vm_network_adapter::{
    SetVmNetworkAdapterInput, SetVmNetworkAdapterTool,
};
use hyperv_tools::tools::set_vm_network_adapter_failover_configuration::{
    SetVmNetworkAdapterFailoverConfigurationInput, SetVmNetworkAdapterFailoverConfigurationTool,
};
use hyperv_tools::tools::set_vm_network_adapter_isolation::{
    SetVmNetworkAdapterIsolationInput, SetVmNetworkAdapterIsolationTool,
};
use hyperv_tools::tools::set_vm_network_adapter_routing_domain_mapping::{
    SetVmNetworkAdapterRoutingDomainMappingInput, SetVmNetworkAdapterRoutingDomainMappingTool,
};
use hyperv_tools::tools::set_vm_network_adapter_team_mapping::{
    SetVmNetworkAdapterTeamMappingInput, SetVmNetworkAdapterTeamMappingTool,
};
use hyperv_tools::tools::set_vm_network_adapter_vlan::{
    SetVmNetworkAdapterVlanInput, SetVmNetworkAdapterVlanTool,
};
use hyperv_tools::tools::set_vm_processor::{SetVmProcessorInput, SetVmProcessorTool};
use hyperv_tools::tools::set_vm_replication::{SetVmReplicationInput, SetVmReplicationTool};
use hyperv_tools::tools::set_vm_replication_authorization_entry::{
    SetVmReplicationAuthorizationEntryInput, SetVmReplicationAuthorizationEntryTool,
};
use hyperv_tools::tools::set_vm_replication_server::{
    SetVmReplicationServerInput, SetVmReplicationServerTool,
};
use hyperv_tools::tools::set_vm_security::{SetVmSecurityInput, SetVmSecurityTool};
use hyperv_tools::tools::set_vm_security_policy::{
    SetVmSecurityPolicyInput, SetVmSecurityPolicyTool,
};

#[test]
fn remove_vm_builds_its_script() {
    let input = RemoveVmInput {
        name: "lab's-vm".to_string(),
        computer_name: Some("computer-name".to_string()),
        force: true,
    };
    let script = RemoveVmTool::build_script(&input).unwrap();
    assert_eq!(
        script,
        "Remove-VM -Name 'lab''s-vm' -ComputerName 'computer-name' -Force | Select-Object Name, Id, @{N='State';E={$_.State.ToString()}} | ConvertTo-Json -Compress -Depth 3"
    );
}

#[test]
fn remove_vm_assignable_device_builds_its_script() {
    let input = RemoveVmAssignableDeviceInput {
        vm_name: "vm-name".to_string(),
        location_path: Some("location-path".to_string()),
        computer_name: Some("computer-name".to_string()),
    };
    let script = RemoveVmAssignableDeviceTool::build_script(&input).unwrap();
    assert_eq!(
        script,
        "Remove-VMAssignableDevice -VMName 'vm-name' -LocationPath 'location-path' -ComputerName 'computer-name'"
    );
}

#[test]
fn remove_vm_dvd_drive_builds_its_script() {
    let input = RemoveVmDvdDriveInput {
        vm_name: "vm-name".to_string(),
        controller_number: Some(4),
        controller_location: Some(4),
        computer_name: Some("computer-name".to_string()),
    };
    let script = RemoveVmDvdDriveTool::build_script(&input).unwrap();
    assert_eq!(
        script,
        "Remove-VMDvdDrive -VMName 'vm-name' -ControllerNumber 4 -ControllerLocation 4 -ComputerName 'computer-name'"
    );
}

#[test]
fn remove_vm_gpu_partition_adapter_builds_its_script() {
    let input = RemoveVmGpuPartitionAdapterInput {
        vm_name: "vm-name".to_string(),
        instance_path: Some("instance-path".to_string()),
        computer_name: Some("computer-name".to_string()),
    };
    let script = RemoveVmGpuPartitionAdapterTool::build_script(&input).unwrap();
    assert_eq!(
        script,
        "Remove-VMGpuPartitionAdapter -VMName 'vm-name' -InstancePath 'instance-path' -ComputerName 'computer-name'"
    );
}

#[test]
fn remove_vm_group_member_builds_its_script() {
    let input = RemoveVmGroupMemberInput {
        name: "lab's-vm".to_string(),
        vm_names: Some(vec!["a".to_string(), "b".to_string()]),
        vm_group_names: Some(vec!["a".to_string(), "b".to_string()]),
        computer_name: Some("computer-name".to_string()),
    };
    let script = RemoveVmGroupMemberTool::build_script(&input).unwrap();
    assert_eq!(
        script,
        "Remove-VMGroupMember -Name 'lab''s-vm' -VM 'a','b' -VMGroupMember 'a','b' -ComputerName 'computer-name'"
    );
}

#[test]
fn remove_vm_hard_disk_drive_builds_its_script() {
    let input = RemoveVmHardDiskDriveInput {
        vm_name: "vm-name".to_string(),
        controller_type: "SCSI".to_string(),
        controller_number: 1,
        controller_location: 1,
        computer_name: Some("computer-name".to_string()),
    };
    let script = RemoveVmHardDiskDriveTool::build_script(&input).unwrap();
    assert_eq!(
        script,
        "Remove-VMHardDiskDrive -VMName 'vm-name' -ControllerType 'SCSI' -ControllerNumber 1 -ControllerLocation 1 -ComputerName 'computer-name' -Confirm:$false | Select-Object Name, Id, VMName, Path, @{N='ControllerType';E={$_.ControllerType.ToString()}}, ControllerNumber, ControllerLocation, PoolName | ConvertTo-Json -Compress -Depth 3"
    );
}

#[test]
fn remove_vm_host_assignable_device_builds_its_script() {
    let input = RemoveVmHostAssignableDeviceInput {
        resource_pool_name: "resource-pool-name".to_string(),
        instance_path: Some("instance-path".to_string()),
        location_path: Some("location-path".to_string()),
        computer_name: Some("computer-name".to_string()),
        force: true,
    };
    let script = RemoveVmHostAssignableDeviceTool::build_script(&input).unwrap();
    assert_eq!(
        script,
        "Remove-VMHostAssignableDevice -ResourcePoolName 'resource-pool-name' -InstancePath 'instance-path' -LocationPath 'location-path' -ComputerName 'computer-name' -Force -Confirm:$false | Select-Object InstancePath, LocationPath | ConvertTo-Json -Compress -Depth 3"
    );
}

#[test]
fn remove_vm_migration_network_builds_its_script() {
    let input = RemoveVmMigrationNetworkInput {
        subnet: "10.0.0.0/24".to_string(),
        computer_name: Some("computer-name".to_string()),
    };
    let script = RemoveVmMigrationNetworkTool::build_script(&input).unwrap();
    assert_eq!(
        script,
        "Remove-VMMigrationNetwork -Subnet '10.0.0.0/24' -ComputerName 'computer-name' -PassThru -Confirm:$false | Select-Object ComputerName, Subnet, Priority, Metric, IsDeleted | ConvertTo-Json -Compress -Depth 3"
    );
}

#[test]
fn remove_vm_network_adapter_builds_its_script() {
    let input = RemoveVmNetworkAdapterInput {
        vm_name: "vm-name".to_string(),
        adapter_name: Some("adapter-name".to_string()),
        computer_name: Some("computer-name".to_string()),
    };
    let script = RemoveVmNetworkAdapterTool::build_script(&input).unwrap();
    assert_eq!(
        script,
        "Remove-VMNetworkAdapter -VMName 'vm-name' -Name 'adapter-name' -ComputerName 'computer-name' -PassThru -Confirm:$false | Select-Object Name, Id, VMName, MacAddress, SwitchName | ConvertTo-Json -Compress -Depth 3"
    );
}

#[test]
fn remove_vm_network_adapter_acl_builds_its_script() {
    let input = RemoveVmNetworkAdapterAclInput {
        vm_name: Some("vm-name".to_string()),
        vm_network_adapter_name: Some("vm-network-adapter-name".to_string()),
        action: "Allow".to_string(),
        direction: "Inbound".to_string(),
        computer_name: Some("computer-name".to_string()),
        local_ip_address: Some(vec!["a".to_string(), "b".to_string()]),
        local_mac_address: Some(vec!["a".to_string(), "b".to_string()]),
        remote_ip_address: Some(vec!["a".to_string(), "b".to_string()]),
        remote_mac_address: Some(vec!["a".to_string(), "b".to_string()]),
        management_os: false,
    };
    let script = RemoveVmNetworkAdapterAclTool::build_script(&input).unwrap();
    assert_eq!(
        script,
        "Remove-VMNetworkAdapterAcl -VMName 'vm-name' -VMNetworkAdapterName 'vm-network-adapter-name' -ComputerName 'computer-name' -Action 'Allow' -Direction 'Inbound' -LocalIPAddress 'a','b' -LocalMacAddress 'a','b' -RemoteIPAddress 'a','b' -RemoteMacAddress 'a','b' -PassThru -Confirm:$false | Select-Object @{N='Action';E={$_.Action.ToString()}}, @{N='Direction';E={$_.Direction.ToString()}}, LocalAddress, RemoteAddress, @{N='LocalAddressType';E={$_.LocalAddressType.ToString()}}, @{N='RemoteAddressType';E={$_.RemoteAddressType.ToString()}}, MeteredMegabytes, ComputerName, IsDeleted, IsTemplate, @{N='AdapterName';E={$_.ParentAdapter.Name}}, @{N='VMName';E={$_.ParentAdapter.VMName}}, @{N='VMId';E={$_.ParentAdapter.VMId.ToString()}}, @{N='AdapterId';E={$_.ParentAdapter.AdapterId}} | ConvertTo-Json -Compress -Depth 3"
    );
}

#[test]
fn remove_vm_network_adapter_extended_acl_builds_its_script() {
    let input = RemoveVmNetworkAdapterExtendedAclInput {
        vm_name: Some("vm-name".to_string()),
        vm_network_adapter_name: Some("vm-network-adapter-name".to_string()),
        weight: 1,
        direction: "Inbound".to_string(),
        management_os: false,
        computer_name: Some("computer-name".to_string()),
    };
    let script = RemoveVmNetworkAdapterExtendedAclTool::build_script(&input).unwrap();
    assert_eq!(
        script,
        "Remove-VMNetworkAdapterExtendedAcl -VMName 'vm-name' -VMNetworkAdapterName 'vm-network-adapter-name' -Weight 1 -Direction 'Inbound' -ComputerName 'computer-name' -Confirm:$false | Select-Object Weight, @{N='Direction';E={$_.Direction.ToString()}}, @{N='Action';E={$_.Action.ToString()}}, Protocol, LocalIPAddress, RemoteIPAddress, LocalPort, RemotePort, Stateful, IdleSessionTimeout, IsolationID | ConvertTo-Json -Compress -Depth 3"
    );
}

#[test]
fn remove_vm_network_adapter_routing_domain_mapping_builds_its_script() {
    let input = RemoveVmNetworkAdapterRoutingDomainMappingInput {
        vm_name: Some("vm-name".to_string()),
        vm_network_adapter_name: Some("vm-network-adapter-name".to_string()),
        management_os: false,
        routing_domain_id: Some("routing-domain-id".to_string()),
        routing_domain_name: Some("routing-domain-name".to_string()),
        computer_name: Some("computer-name".to_string()),
    };
    let script = RemoveVmNetworkAdapterRoutingDomainMappingTool::build_script(&input).unwrap();
    assert_eq!(
        script,
        "Remove-VMNetworkAdapterRoutingDomainMapping -VMName 'vm-name' -VMNetworkAdapterName 'vm-network-adapter-name' -RoutingDomainID 'routing-domain-id' -RoutingDomainName 'routing-domain-name' -ComputerName 'computer-name' -Confirm:$false | Select-Object @{N='RoutingDomainID';E={$_.RoutingDomainID.ToString()}}, RoutingDomainName, VMName, VMNetworkAdapterName, ComputerName | ConvertTo-Json -Compress -Depth 3"
    );
}

#[test]
fn remove_vm_network_adapter_team_mapping_builds_its_script() {
    let input = RemoveVmNetworkAdapterTeamMappingInput {
        vm_name: Some("vm-name".to_string()),
        name: "lab's-vm".to_string(),
        computer_name: Some("computer-name".to_string()),
        management_os: None,
        switch_name: Some("switch-name".to_string()),
    };
    let script = RemoveVmNetworkAdapterTeamMappingTool::build_script(&input).unwrap();
    assert_eq!(
        script,
        "Remove-VMNetworkAdapterTeamMapping -VMName 'vm-name' -Name 'lab''s-vm' -ComputerName 'computer-name' -SwitchName 'switch-name' -Confirm:$false"
    );
}

#[test]
fn remove_vm_replication_builds_its_script() {
    let input = RemoveVmReplicationInput {
        vm_name: "vm-name".to_string(),
        computer_name: Some("computer-name".to_string()),
    };
    let script = RemoveVmReplicationTool::build_script(&input).unwrap();
    assert_eq!(
        script,
        "Remove-VMReplication -VMName 'vm-name' -ComputerName 'computer-name' -PassThru -Confirm:$false | Select-Object Name, VMName, @{N='State';E={$_.State.ToString()}}, @{N='Health';E={$_.Health.ToString()}}, @{N='Mode';E={$_.Mode.ToString()}}, PrimaryServerName, PrimaryServer, ReplicaServerName, ReplicaServer | ConvertTo-Json -Compress -Depth 3"
    );
}

#[test]
fn remove_vm_replication_authorization_entry_builds_its_script() {
    let input = RemoveVmReplicationAuthorizationEntryInput {
        allowed_primary_server: Some("allowed-primary-server".to_string()),
        trust_group: None,
        computer_name: Some("computer-name".to_string()),
    };
    let script = RemoveVmReplicationAuthorizationEntryTool::build_script(&input).unwrap();
    assert_eq!(
        script,
        "Remove-VMReplicationAuthorizationEntry -AllowedPrimaryServer 'allowed-primary-server' -ComputerName 'computer-name' -PassThru -Confirm:$false | Select-Object AllowedPrimaryServer, ReplicaStorageLocation, TrustGroup | ConvertTo-Json -Compress -Depth 3"
    );
}

#[test]
fn remove_vm_resource_pool_builds_its_script() {
    let input = RemoveVmResourcePoolInput {
        name: "lab's-vm".to_string(),
        resource_pool_type: "Ethernet".to_string(),
        computer_name: Some("computer-name".to_string()),
    };
    let script = RemoveVmResourcePoolTool::build_script(&input).unwrap();
    assert_eq!(
        script,
        "Remove-VMResourcePool -Name 'lab''s-vm' -ResourcePoolType 'Ethernet' -ComputerName 'computer-name'"
    );
}

#[test]
fn remove_vm_scsi_controller_builds_its_script() {
    let input = RemoveVmScsiControllerInput {
        vm_name: "vm-name".to_string(),
        controller_number: 3,
        computer_name: Some("computer-name".to_string()),
    };
    let script = RemoveVmScsiControllerTool::build_script(&input).unwrap();
    assert_eq!(
        script,
        "Remove-VMScsiController -VMName 'vm-name' -ControllerNumber 3 -ComputerName 'computer-name' -Confirm:$false | Select-Object Name, @{N='Id';E={$_.Id.ToString()}}, VMName, ControllerNumber, NumberOfQueues, QueueDepth, @{N='Model';E={$_.Model.ToString()}} | ConvertTo-Json -Compress -Depth 3"
    );
}

#[test]
fn remove_vm_snapshot_builds_its_script() {
    let input = RemoveVmSnapshotInput {
        vm_name: "vm-name".to_string(),
        snapshot_name: "snapshot-name".to_string(),
        computer_name: Some("computer-name".to_string()),
    };
    let script = RemoveVmSnapshotTool::build_script(&input).unwrap();
    assert_eq!(
        script,
        "Remove-VMSnapshot -VMName 'vm-name' -Name 'snapshot-name' -ComputerName 'computer-name' -Confirm:$false | Select-Object Name, Id, VMName, @{N='SnapshotType';E={$_.SnapshotType.ToString()}}, @{N='CreationTime';E={$_.CreationTime.ToString()}} | ConvertTo-Json -Compress -Depth 3"
    );
}

#[test]
fn remove_vm_storage_path_builds_its_script() {
    let input = RemoveVmStoragePathInput {
        name: "lab's-vm".to_string(),
        path: "C:\\VMs\\disk.vhdx".to_string(),
        computer_name: Some("computer-name".to_string()),
    };
    let script = RemoveVmStoragePathTool::build_script(&input).unwrap();
    assert_eq!(
        script,
        "Remove-VMStoragePath -Name 'lab''s-vm' -Path 'C:\\VMs\\disk.vhdx' -ComputerName 'computer-name'"
    );
}

#[test]
fn remove_vm_switch_builds_its_script() {
    let input = RemoveVmSwitchInput {
        name: "lab's-vm".to_string(),
        computer_name: Some("computer-name".to_string()),
        force: true,
    };
    let script = RemoveVmSwitchTool::build_script(&input).unwrap();
    assert_eq!(
        script,
        "Remove-VMSwitch -Name 'lab''s-vm' -ComputerName 'computer-name' -Force -PassThru -Confirm:$false | Select-Object Name, Id, @{N='SwitchType';E={$_.SwitchType.ToString()}}, NetAdapterInterfaceDescription, NetAdapterName, AllowManagementOS, ComputerName | ConvertTo-Json -Compress -Depth 3"
    );
}

#[test]
fn remove_vm_switch_extension_port_feature_builds_its_script() {
    let input = RemoveVmSwitchExtensionPortFeatureInput {
        feature_id: "feature-id".to_string(),
        vm_network_adapter: Some("vm-network-adapter".to_string()),
        computer_name: Some("computer-name".to_string()),
    };
    let script = RemoveVmSwitchExtensionPortFeatureTool::build_script(&input).unwrap();
    assert_eq!(
        script,
        "Remove-VMSwitchExtensionPortFeature -FeatureId 'feature-id' -VMNetworkAdapter 'vm-network-adapter' -ComputerName 'computer-name'"
    );
}

#[test]
fn remove_vm_switch_team_member_builds_its_script() {
    let input = RemoveVmSwitchTeamMemberInput {
        vm_switch: "vm-switch".to_string(),
        net_adapter_name: "net-adapter-name".to_string(),
        computer_name: Some("computer-name".to_string()),
    };
    let script = RemoveVmSwitchTeamMemberTool::build_script(&input).unwrap();
    assert_eq!(
        script,
        "Remove-VMSwitchTeamMember -VMSwitch 'vm-switch' -NetAdapterName 'net-adapter-name' -ComputerName 'computer-name'"
    );
}

#[test]
fn rename_vm_group_builds_its_script() {
    let input = RenameVmGroupInput {
        name: "lab's-vm".to_string(),
        new_name: "renamed".to_string(),
        computer_name: Some("computer-name".to_string()),
    };
    let script = RenameVmGroupTool::build_script(&input).unwrap();
    assert_eq!(
        script,
        "Rename-VMGroup -Name 'lab''s-vm' -NewName 'renamed' -ComputerName 'computer-name' | Select-Object Name, Id, @{N='GroupType';E={$_.GroupType.ToString()}}, VMMembers, VMGroupMembers, ComputerName | ConvertTo-Json -Compress -Depth 10"
    );
}

#[test]
fn rename_vm_network_adapter_builds_its_script() {
    let input = RenameVmNetworkAdapterInput {
        vm_name: Some("vm-name".to_string()),
        name: "lab's-vm".to_string(),
        new_name: "renamed".to_string(),
        computer_name: Some("computer-name".to_string()),
    };
    let script = RenameVmNetworkAdapterTool::build_script(&input).unwrap();
    assert_eq!(
        script,
        "Rename-VMNetworkAdapter -VMName 'vm-name' -Name 'lab''s-vm' -NewName 'renamed' -ComputerName 'computer-name' -PassThru | Select-Object Name, Id, VMName, VMId, MacAddress, ComputerName | ConvertTo-Json -Compress -Depth 3"
    );
}

#[test]
fn rename_vm_san_builds_its_script() {
    let input = RenameVmSanInput {
        name: "lab's-vm".to_string(),
        new_name: "renamed".to_string(),
        computer_name: Some("computer-name".to_string()),
    };
    let script = RenameVmSanTool::build_script(&input).unwrap();
    assert_eq!(
        script,
        "Rename-VMSan -Name 'lab''s-vm' -NewName 'renamed' -ComputerName 'computer-name' -PassThru | Select-Object Name, Id, WorldWideNodeNameSetA, WorldWidePortNameSetA, WorldWideNodeNameSetB, WorldWidePortNameSetB, ComputerName | ConvertTo-Json -Compress -Depth 3"
    );
}

#[test]
fn rename_vm_snapshot_builds_its_script() {
    let input = RenameVmSnapshotInput {
        vm_name: "vm-name".to_string(),
        snapshot_name: "snapshot-name".to_string(),
        new_name: "renamed".to_string(),
        computer_name: Some("computer-name".to_string()),
    };
    let script = RenameVmSnapshotTool::build_script(&input).unwrap();
    assert_eq!(
        script,
        "Rename-VMSnapshot -VMName 'vm-name' -Name 'snapshot-name' -NewName 'renamed' -ComputerName 'computer-name' | Select-Object Name, Id, VMName, @{N='CreationTime';E={$_.CreationTime.ToString()}}, @{N='SnapshotType';E={$_.SnapshotType.ToString()}}, ParentSnapshotName | ConvertTo-Json -Compress -Depth 3"
    );
}

#[test]
fn rename_vm_switch_builds_its_script() {
    let input = RenameVmSwitchInput {
        name: "lab's-vm".to_string(),
        new_name: "renamed".to_string(),
        computer_name: Some("computer-name".to_string()),
    };
    let script = RenameVmSwitchTool::build_script(&input).unwrap();
    assert_eq!(
        script,
        "Rename-VMSwitch -Name 'lab''s-vm' -NewName 'renamed' -ComputerName 'computer-name' | Select-Object Name, Id, @{N='SwitchType';E={$_.SwitchType.ToString()}}, @{N='Status';E={$_.Status.ToString()}} | ConvertTo-Json -Compress -Depth 3"
    );
}

#[test]
fn reset_vm_replication_statistics_builds_its_script() {
    let input = ResetVmReplicationStatisticsInput {
        name: Some("lab's-vm".to_string()),
        computer_name: Some("computer-name".to_string()),
    };
    let script = ResetVmReplicationStatisticsTool::build_script(&input).unwrap();
    assert_eq!(
        script,
        "Reset-VMReplicationStatistics -VMName 'lab''s-vm' -ComputerName 'computer-name' -Passthru | Select-Object VMName, @{N='State';E={$_.State.ToString()}}, @{N='Health';E={$_.Health.ToString()}}, @{N='Mode';E={$_.Mode.ToString()}}, FrequencySec, PrimaryServerName, ReplicaServerName, ReplicaServerPort, @{N='AuthenticationType';E={$_.AuthenticationType.ToString()}} | ConvertTo-Json -Compress -Depth 3"
    );
}

#[test]
fn reset_vm_resource_metering_builds_its_script() {
    let input = ResetVmResourceMeteringInput {
        vm_name: Some("vm-name".to_string()),
        resource_pool_name: Some("resource-pool-name".to_string()),
        computer_name: Some("computer-name".to_string()),
    };
    let script = ResetVmResourceMeteringTool::build_script(&input).unwrap();
    assert_eq!(
        script,
        "Reset-VMResourceMetering -VMName 'vm-name' -ResourcePoolName 'resource-pool-name' -ComputerName 'computer-name'"
    );
}

#[test]
fn resize_vhd_builds_its_script() {
    let input = ResizeVhdInput {
        path: "C:\\VMs\\disk.vhdx".to_string(),
        size_bytes: Some(1073741824),
        to_minimum_size: false,
        computer_name: Some("computer-name".to_string()),
    };
    let script = ResizeVhdTool::build_script(&input).unwrap();
    assert_eq!(
        script,
        "Resize-VHD -Path 'C:\\VMs\\disk.vhdx' -SizeBytes 1073741824 -ComputerName 'computer-name' -Passthru | Select-Object Path, @{N='VhdFormat';E={$_.VhdFormat.ToString()}}, @{N='VhdType';E={$_.VhdType.ToString()}}, FileSize, Size, MinimumSize, LogicalSectorSize, PhysicalSectorSize, BlockSize, ParentPath, DiskIdentifier, FragmentationPercentage, Attached, DiskNumber, Number, IsDeleted | ConvertTo-Json -Compress -Depth 3"
    );
}

#[test]
fn restore_vmsnapshot_builds_its_script() {
    let input = RestoreVmsnapshotInput {
        snapshot_name: "snapshot-name".to_string(),
        vm_name: "vm-name".to_string(),
        computer_name: Some("computer-name".to_string()),
    };
    let script = RestoreVmsnapshotTool::build_script(&input).unwrap();
    assert_eq!(
        script,
        "Restore-VMSnapshot -Name 'snapshot-name' -VMName 'vm-name' -ComputerName 'computer-name' -Confirm:$false -PassThru | Select-Object Name, Id, @{N='State';E={$_.State.ToString()}}, @{N='Uptime';E={$_.Uptime.ToString()}}, ProcessorCount, MemoryAssigned | ConvertTo-Json -Compress -Depth 3"
    );
}

#[test]
fn resume_vm_builds_its_script() {
    let input = ResumeVmInput {
        name: "lab's-vm".to_string(),
        computer_name: Some("computer-name".to_string()),
    };
    let script = ResumeVmTool::build_script(&input).unwrap();
    assert_eq!(
        script,
        "Resume-VM -Name 'lab''s-vm' -ComputerName 'computer-name' -Passthru | Select-Object Name, Id, @{N='State';E={$_.State.ToString()}} | ConvertTo-Json -Compress -Depth 3"
    );
}

#[test]
fn resume_vm_replication_builds_its_script() {
    let input = ResumeVmReplicationInput {
        vm_name: "vm-name".to_string(),
        computer_name: Some("computer-name".to_string()),
        replication_relationship_type: Some("replication-relationship-type".to_string()),
        resynchronize: true,
    };
    let script = ResumeVmReplicationTool::build_script(&input).unwrap();
    assert_eq!(
        script,
        "Resume-VMReplication -VMName 'vm-name' -ComputerName 'computer-name' -ReplicationRelationshipType 'replication-relationship-type' -Resynchronize | Select-Object VMName, ComputerName, PrimaryServerName, ReplicaServerName, @{N='ReplicationState';E={$_.ReplicationState.ToString()}}, @{N='ReplicationHealth';E={$_.ReplicationHealth.ToString()}}, @{N='ReplicationMode';E={$_.ReplicationMode.ToString()}}, @{N='ReplicationRelationshipType';E={$_.ReplicationRelationshipType.ToString()}} | ConvertTo-Json -Compress -Depth 3"
    );
}

#[test]
fn revoke_vm_connect_access_builds_its_script() {
    let input = RevokeVmConnectAccessInput {
        vm_name: "vm-name".to_string(),
        user_name: "user-name".to_string(),
        computer_name: Some("computer-name".to_string()),
    };
    let script = RevokeVmConnectAccessTool::build_script(&input).unwrap();
    assert_eq!(
        script,
        "Revoke-VMConnectAccess -VMName 'vm-name' -UserName 'user-name' -ComputerName 'computer-name'"
    );
}

#[test]
fn set_vhd_builds_its_script() {
    let input = SetVhdInput {
        path: "C:\\VMs\\disk.vhdx".to_string(),
        computer_name: Some("computer-name".to_string()),
        parent_path: Some("parent-path".to_string()),
        leaf_path: Some("leaf-path".to_string()),
        ignore_id_mismatch: Some(true),
        physical_sector_size_bytes: Some(4),
        reset_disk_identifier: Some(true),
        force: Some(true),
    };
    let script = SetVhdTool::build_script(&input).unwrap();
    assert_eq!(
        script,
        "Set-VHD -Path 'C:\\VMs\\disk.vhdx' -ComputerName 'computer-name' -ParentPath 'parent-path' -LeafPath 'leaf-path' -IgnoreIdMismatch -PhysicalSectorSizeBytes 4 -ResetDiskIdentifier -Force | Select-Object Path, Attached, @{N='BlockSize';E={$_.BlockSize.ToString()}}, ComputerName, DiskIdentifier, @{N='FileSize';E={$_.FileSize.ToString()}}, IsDeleted, @{N='LogicalSectorSize';E={$_.LogicalSectorSize.ToString()}}, @{N='MinimumSize';E={$_.MinimumSize.ToString()}}, Number, ParentPath, @{N='PhysicalSectorSize';E={$_.PhysicalSectorSize.ToString()}}, PoolName, @{N='Size';E={$_.Size.ToString()}}, @{N='VHDFormat';E={$_.VHDFormat.ToString()}}, @{N='VHDType';E={$_.VHDType.ToString()}} | ConvertTo-Json -Compress -Depth 3"
    );
}

#[test]
fn set_vm_builds_its_script() {
    let input = SetVmInput {
        name: "lab's-vm".to_string(),
        computer_name: Some("computer-name".to_string()),
        new_name: Some("renamed".to_string()),
        memory_startup_bytes: Some(1073741824),
        processor_count: Some(4),
        automatic_start_action: Some("automatic-start-action".to_string()),
        automatic_stop_action: Some("automatic-stop-action".to_string()),
        automatic_start_delay: Some(5),
        automatic_critical_error_action: Some("automatic-critical-error-action".to_string()),
        automatic_critical_error_action_timeout: Some(5),
        automatic_checkpoints_enabled: Some(true),
        notes: Some("notes".to_string()),
        snapshot_file_location: Some("snapshot-file-location".to_string()),
        smart_paging_file_path: Some("smart-paging-file-path".to_string()),
        checkpoint_type: Some("checkpoint-type".to_string()),
        dynamic_memory: Some(true),
        static_memory: Some(true),
        memory_minimum_bytes: Some(1073741824),
        memory_maximum_bytes: Some(1073741824),
        guest_controlled_cache_types: Some(true),
        lock_on_disconnect: Some("lock-on-disconnect".to_string()),
        low_memory_mapped_io_space: Some(4),
        high_memory_mapped_io_space: Some(1073741824),
    };
    let script = SetVmTool::build_script(&input).unwrap();
    assert_eq!(
        script,
        "Set-VM -Name 'lab''s-vm' -ComputerName 'computer-name' -NewVMName 'renamed' -MemoryStartupBytes 1073741824 -ProcessorCount 4 -AutomaticStartAction 'automatic-start-action' -AutomaticStopAction 'automatic-stop-action' -AutomaticStartDelay 5 -AutomaticCriticalErrorAction 'automatic-critical-error-action' -AutomaticCriticalErrorActionTimeout 5 -AutomaticCheckpointsEnabled $true -Notes 'notes' -SnapshotFileLocation 'snapshot-file-location' -SmartPagingFilePath 'smart-paging-file-path' -CheckpointType 'checkpoint-type' -DynamicMemory:$true -StaticMemory:$true -MemoryMinimumBytes 1073741824 -MemoryMaximumBytes 1073741824 -GuestControlledCacheTypes $true -LockOnDisconnect 'lock-on-disconnect' -LowMemoryMappedIoSpace 4 -HighMemoryMappedIoSpace 1073741824 -PassThru | Select-Object Name, Id, @{N='State';E={$_.State.ToString()}}, @{N='Uptime';E={$_.Uptime.ToString()}}, ProcessorCount, MemoryAssigned | ConvertTo-Json -Compress -Depth 3"
    );
}

#[test]
fn set_vm_bios_builds_its_script() {
    let input = SetVmBiosInput {
        name: "lab's-vm".to_string(),
        computer_name: Some("computer-name".to_string()),
        startup_order: Some(vec!["a".to_string(), "b".to_string()]),
        num_lock_enabled: Some(true),
    };
    let script = SetVmBiosTool::build_script(&input).unwrap();
    assert_eq!(
        script,
        "Set-VMBios -VMName 'lab''s-vm' -ComputerName 'computer-name' -StartupOrder @('a','b') -EnableNumLock | ForEach-Object { [pscustomobject]@{ VMName = $_.VMName; VMId = $_.VMId.ToString(); ComputerName = $_.ComputerName; NumLockEnabled = $_.NumLockEnabled; StartupOrder = @($_.StartupOrder | ForEach-Object {$_.ToString()}); IsDeleted = $_.IsDeleted } } | ConvertTo-Json -Compress -Depth 3"
    );
}

#[test]
fn set_vm_com_port_builds_its_script() {
    let input = SetVmComPortInput {
        name: "lab's-vm".to_string(),
        number: 1,
        path: Some("C:\\VMs\\disk.vhdx".to_string()),
        computer_name: Some("computer-name".to_string()),
        debugger_mode: Some("debugger-mode".to_string()),
    };
    let script = SetVmComPortTool::build_script(&input).unwrap();
    assert_eq!(
        script,
        "Set-VMComPort -VMName 'lab''s-vm' -ComputerName 'computer-name' -Number 1 -Path 'C:\\VMs\\disk.vhdx' -DebuggerMode 'debugger-mode' | Select-Object Name, VMName, Number, Path, @{N='DebuggerMode';E={$_.DebuggerMode.ToString()}} | ConvertTo-Json -Compress -Depth 3"
    );
}

#[test]
fn set_vm_fibre_channel_hba_builds_its_script() {
    let input = SetVmFibreChannelHbaInput {
        vm_name: "vm-name".to_string(),
        name: "lab's-vm".to_string(),
        world_wide_node_name_set_a: Some("world-wide-node-name-set-a".to_string()),
        world_wide_port_name_set_a: Some("world-wide-port-name-set-a".to_string()),
        world_wide_node_name_set_b: Some("world-wide-node-name-set-b".to_string()),
        world_wide_port_name_set_b: Some("world-wide-port-name-set-b".to_string()),
        computer_name: Some("computer-name".to_string()),
    };
    let script = SetVmFibreChannelHbaTool::build_script(&input).unwrap();
    assert_eq!(
        script,
        "Set-VMFibreChannelHba -VMName 'vm-name' -Name 'lab''s-vm' -WorldWideNodeNameSetA 'world-wide-node-name-set-a' -WorldWidePortNameSetA 'world-wide-port-name-set-a' -WorldWideNodeNameSetB 'world-wide-node-name-set-b' -WorldWidePortNameSetB 'world-wide-port-name-set-b' -ComputerName 'computer-name' | Select-Object Name, Id, VMName, VMId, SanName, WorldWideNodeNameSetA, WorldWidePortNameSetA, WorldWideNodeNameSetB, WorldWidePortNameSetB, IsTemplate | ConvertTo-Json -Compress -Depth 3"
    );
}

#[test]
fn set_vm_firmware_builds_its_script() {
    let input = SetVmFirmwareInput {
        name: "lab's-vm".to_string(),
        computer_name: Some("computer-name".to_string()),
        enable_secure_boot: Some("enable-secure-boot".to_string()),
        secure_boot_template: Some("secure-boot-template".to_string()),
        preferred_network_boot_protocol: Some("preferred-network-boot-protocol".to_string()),
        allow_legacy_network_adapter: Some(true),
    };
    let script = SetVmFirmwareTool::build_script(&input).unwrap();
    assert_eq!(
        script,
        "Set-VMFirmware -VMName 'lab''s-vm' -ComputerName 'computer-name' -EnableSecureBoot 'enable-secure-boot' -SecureBootTemplate 'secure-boot-template' -PreferredNetworkBootProtocol 'preferred-network-boot-protocol' -AllowLegacyNetworkAdapter $true | Select-Object VMName, @{N='SecureBoot';E={$_.SecureBoot.ToString()}}, @{N='SecureBootTemplate';E={$_.SecureBootTemplate.ToString()}}, @{N='PreferredNetworkBootProtocol';E={$_.PreferredNetworkBootProtocol.ToString()}}, AllowLegacyNetworkAdapter | ConvertTo-Json -Compress -Depth 3"
    );
}

#[test]
fn set_vm_floppy_disk_drive_builds_its_script() {
    let input = SetVmFloppyDiskDriveInput {
        vm_name: "vm-name".to_string(),
        computer_name: Some("computer-name".to_string()),
        path: Some("C:\\VMs\\disk.vhdx".to_string()),
        resource_pool_name: Some("resource-pool-name".to_string()),
    };
    let script = SetVmFloppyDiskDriveTool::build_script(&input).unwrap();
    assert_eq!(
        script,
        "Set-VMFloppyDiskDrive -VMName 'vm-name' -ComputerName 'computer-name' -Path 'C:\\VMs\\disk.vhdx' -ResourcePoolName 'resource-pool-name' | Select-Object Name, @{N='Id';E={$_.Id.ToString()}}, VMName, ComputerName, Path, PoolName, IsDeleted | ConvertTo-Json -Compress -Depth 3"
    );
}

#[test]
fn set_vm_hard_disk_drive_builds_its_script() {
    let input = SetVmHardDiskDriveInput {
        vm_name: "vm-name".to_string(),
        computer_name: Some("computer-name".to_string()),
        controller_type: Some("SCSI".to_string()),
        controller_number: Some(5),
        controller_location: Some(5),
        name: Some("lab's-vm".to_string()),
        path: Some("C:\\VMs\\disk.vhdx".to_string()),
        pool_name: Some("pool-name".to_string()),
        support_persistent_reservations: Some(true),
        maximum_iops: Some(1073741824),
        minimum_iops: Some(1073741824),
        quality_of_service_priority: Some("quality-of-service-priority".to_string()),
        allow_unverified_paths: Some(true),
    };
    let script = SetVmHardDiskDriveTool::build_script(&input).unwrap();
    assert_eq!(
        script,
        "Set-VMHardDiskDrive -VMName 'vm-name' -ComputerName 'computer-name' -ControllerType 'SCSI' -ControllerNumber 5 -ControllerLocation 5 -Name 'lab''s-vm' -Path 'C:\\VMs\\disk.vhdx' -PoolName 'pool-name' -SupportPersistentReservations $true -MaximumIops 1073741824 -MinimumIops 1073741824 -QualityOfServicePriority 'quality-of-service-priority' -AllowUnverifiedPaths -PassThru | Select-Object Name, Path, @{N='ControllerType';E={$_.ControllerType.ToString()}}, ControllerNumber, ControllerLocation, DiskNumber, PoolName, SupportPersistentReservations, @{N='MaximumIops';E={$_.MaximumIops.ToString()}}, @{N='MinimumIops';E={$_.MinimumIops.ToString()}}, @{N='QualityOfServicePriority';E={$_.QualityOfServicePriority.ToString()}}, ComputerName | ConvertTo-Json -Compress -Depth 3"
    );
}

#[test]
fn set_vm_host_builds_its_script() {
    let input = SetVmHostInput {
        computer_name: Some("computer-name".to_string()),
        maximum_storage_migrations: Some(4),
        maximum_virtual_machine_migrations: Some(4),
        virtual_machine_migration_authentication_type: Some(
            "virtual-machine-migration-authentication-type".to_string(),
        ),
        use_any_network_for_migration: Some(true),
        virtual_machine_migration_performance_option: Some(
            "virtual-machine-migration-performance-option".to_string(),
        ),
        resource_metering_save_interval: Some("resource-metering-save-interval".to_string()),
        virtual_hard_disk_path: Some("virtual-hard-disk-path".to_string()),
        virtual_machine_path: Some("virtual-machine-path".to_string()),
        mac_address_maximum: Some("mac-address-maximum".to_string()),
        mac_address_minimum: Some("mac-address-minimum".to_string()),
        fibre_channel_wwnn: Some("fibre-channel-wwnn".to_string()),
        fibre_channel_wwpn_maximum: Some("fibre-channel-wwpn-maximum".to_string()),
        fibre_channel_wwpn_minimum: Some("fibre-channel-wwpn-minimum".to_string()),
        numa_spanning_enabled: Some(true),
        enable_enhanced_session_mode: Some(true),
    };
    let script = SetVmHostTool::build_script(&input).unwrap();
    assert_eq!(
        script,
        "Set-VMHost -ComputerName 'computer-name' -MaximumStorageMigrations 4 -MaximumVirtualMachineMigrations 4 -VirtualMachineMigrationAuthenticationType 'virtual-machine-migration-authentication-type' -UseAnyNetworkForMigration $true -VirtualMachineMigrationPerformanceOption 'virtual-machine-migration-performance-option' -ResourceMeteringSaveInterval 'resource-metering-save-interval' -VirtualHardDiskPath 'virtual-hard-disk-path' -VirtualMachinePath 'virtual-machine-path' -MacAddressMaximum 'mac-address-maximum' -MacAddressMinimum 'mac-address-minimum' -FibreChannelWwnn 'fibre-channel-wwnn' -FibreChannelWwpnMaximum 'fibre-channel-wwpn-maximum' -FibreChannelWwpnMinimum 'fibre-channel-wwpn-minimum' -NumaSpanningEnabled $true -EnableEnhancedSessionMode $true | Select-Object ComputerName, FullyQualifiedDomainName, Name, LogicalProcessorCount, @{N='MemoryCapacity';E={$_.MemoryCapacity.ToString()}}, VirtualMachinePath, VirtualHardDiskPath, EnableEnhancedSessionMode, NumaSpanningEnabled, UseAnyNetworkForMigration, @{N='VirtualMachineMigrationAuthenticationType';E={$_.VirtualMachineMigrationAuthenticationType.ToString()}}, @{N='VirtualMachineMigrationPerformanceOption';E={$_.VirtualMachineMigrationPerformanceOption.ToString()}}, MaximumVirtualMachineMigrations, MaximumStorageMigrations, @{N='ResourceMeteringSaveInterval';E={$_.ResourceMeteringSaveInterval.ToString()}}, MacAddressMinimum, MacAddressMaximum, FibreChannelWwnn, FibreChannelWwpnMinimum, FibreChannelWwpnMaximum | ConvertTo-Json -Compress -Depth 3"
    );
}

#[test]
fn set_vm_host_cluster_builds_its_script() {
    let input = SetVmHostClusterInput {
        cluster_name: "cluster-name".to_string(),
        shared_storage_path: Some("shared-storage-path".to_string()),
    };
    let script = SetVmHostClusterTool::build_script(&input).unwrap();
    assert_eq!(
        script,
        "Set-VMHostCluster -ClusterName 'cluster-name' -SharedStoragePath 'shared-storage-path' | Select-Object ClusterName, SharedStoragePath, Path | ConvertTo-Json -Compress -Depth 3"
    );
}

#[test]
fn set_vm_host_partitionable_gpu_builds_its_script() {
    let input = SetVmHostPartitionableGpuInput {
        computer_name: Some("computer-name".to_string()),
        name: Some("lab's-vm".to_string()),
        partition_count: Some(4),
    };
    let script = SetVmHostPartitionableGpuTool::build_script(&input).unwrap();
    assert_eq!(
        script,
        "Set-VMHostPartitionableGpu -ComputerName 'computer-name' -Name 'lab''s-vm' -PartitionCount 4 | Select-Object Name, InstancePath, PartitionCount, TotalPartitionCount, ValidPartitionCounts | ConvertTo-Json -Compress -Depth 3"
    );
}

#[test]
fn set_vm_key_protector_builds_its_script() {
    let input = SetVmKeyProtectorInput {
        vm_name: "vm-name".to_string(),
        key_protector: "key-protector".to_string(),
        computer_name: Some("computer-name".to_string()),
    };
    let script = SetVmKeyProtectorTool::build_script(&input).unwrap();
    assert_eq!(
        script,
        "Set-VMKeyProtector -VMName 'vm-name' -KeyProtector 'key-protector' -ComputerName 'computer-name' | Select-Object VMName, VMId, @{N='KeyProtector';E={$_.KeyProtector.ToString()}} | ConvertTo-Json -Compress -Depth 3"
    );
}

#[test]
fn set_vm_memory_builds_its_script() {
    let input = SetVmMemoryInput {
        vm_name: "vm-name".to_string(),
        computer_name: Some("computer-name".to_string()),
        startup_bytes: Some(1073741824),
        minimum_bytes: Some(1073741824),
        maximum_bytes: Some(1073741824),
        dynamic_memory_enabled: Some(true),
        buffer: Some(4),
        priority: Some(4),
        smart_paging_file_path: Some("smart-paging-file-path".to_string()),
    };
    let script = SetVmMemoryTool::build_script(&input).unwrap();
    assert_eq!(
        script,
        "Set-VMMemory -VMName 'vm-name' -ComputerName 'computer-name' -StartupBytes 1073741824 -MinimumBytes 1073741824 -MaximumBytes 1073741824 -DynamicMemoryEnabled $true -Buffer 4 -Priority 4 -SmartPagingFilePath 'smart-paging-file-path' -PassThru | Select-Object VMName, ComputerName, @{N='Startup';E={$_.Startup.ToString()}}, @{N='Minimum';E={$_.Minimum.ToString()}}, @{N='Maximum';E={$_.Maximum.ToString()}}, DynamicMemoryEnabled, Buffer, Priority, @{N='SmartPagingFilePath';E={$_.SmartPagingFilePath.ToString()}} | ConvertTo-Json -Compress -Depth 3"
    );
}

#[test]
fn set_vm_migration_network_builds_its_script() {
    let input = SetVmMigrationNetworkInput {
        subnet: "10.0.0.0/24".to_string(),
        subnet_mask: Some("subnet-mask".to_string()),
        priority: Some(5),
        computer_name: Some("computer-name".to_string()),
    };
    let script = SetVmMigrationNetworkTool::build_script(&input).unwrap();
    assert_eq!(
        script,
        "Set-VMMigrationNetwork -Subnet '10.0.0.0/24' -SubnetMask 'subnet-mask' -Priority 5 -ComputerName 'computer-name' | Select-Object Subnet, SubnetMask, Priority, ComputerName | ConvertTo-Json -Compress -Depth 3"
    );
}

#[test]
fn set_vm_network_adapter_builds_its_script() {
    let input = SetVmNetworkAdapterInput {
        vm_name: Some("vm-name".to_string()),
        name: "lab's-vm".to_string(),
        computer_name: Some("computer-name".to_string()),
        management_os: None,
        switch_name: Some("switch-name".to_string()),
        static_mac_address: Some("static-mac-address".to_string()),
        dynamic_mac_address_enabled: Some(true),
        mac_address_spoofing: Some("mac-address-spoofing".to_string()),
        allow_teaming: Some("allow-teaming".to_string()),
        device_naming: Some("device-naming".to_string()),
        ipsec_task_offload: Some("ipsec-task-offload".to_string()),
        vmmq_enabled: Some(true),
        vrss_enabled: Some(true),
        packet_direct_enabled: Some(true),
    };
    let script = SetVmNetworkAdapterTool::build_script(&input).unwrap();
    assert_eq!(
        script,
        "Set-VMNetworkAdapter -VMName 'vm-name' -Name 'lab''s-vm' -ComputerName 'computer-name' -SwitchName 'switch-name' -StaticMacAddress 'static-mac-address' -DynamicMacAddressEnabled $true -MacAddressSpoofing 'mac-address-spoofing' -AllowTeaming 'allow-teaming' -DeviceNaming 'device-naming' -IPsecTaskOffload 'ipsec-task-offload' -VmmqEnabled $true -VrssEnabled $true -PacketDirectEnabled $true | Select-Object Name, IsLegacy, SwitchName, MacAddress, DynamicMacAddressEnabled, @{N='MacAddressSpoofing';E={$_.MacAddressSpoofing.ToString()}}, @{N='AllowTeaming';E={$_.AllowTeaming.ToString()}}, @{N='DeviceNaming';E={$_.DeviceNaming.ToString()}}, @{N='IPsecTaskOffload';E={$_.IPsecTaskOffload.ToString()}}, VmmqEnabled, VrssEnabled, PacketDirectEnabled | ConvertTo-Json -Compress -Depth 3"
    );
}

#[test]
fn set_vm_network_adapter_failover_configuration_builds_its_script() {
    let input = SetVmNetworkAdapterFailoverConfigurationInput {
        vm_name: "vm-name".to_string(),
        network_adapter_name: "network-adapter-name".to_string(),
        ip_addresses: vec!["10.0.0.1".to_string(), "10.0.0.2".to_string()],
        computer_name: Some("computer-name".to_string()),
    };
    let script = SetVmNetworkAdapterFailoverConfigurationTool::build_script(&input).unwrap();
    assert_eq!(
        script,
        "Set-VMNetworkAdapterFailoverConfiguration -VMName 'vm-name' -NetworkAdapterName 'network-adapter-name' -IPAddress @('10.0.0.1','10.0.0.2') -ComputerName 'computer-name' | Select-Object VMName, NetworkAdapterName, IPAddresses, ComputerName | ConvertTo-Json -Compress -Depth 3"
    );
}

#[test]
fn set_vm_network_adapter_isolation_builds_its_script() {
    let input = SetVmNetworkAdapterIsolationInput {
        vm_name: Some("vm-name".to_string()),
        name: "lab's-vm".to_string(),
        computer_name: Some("computer-name".to_string()),
        management_os: None,
        isolation_mode: Some("isolation-mode".to_string()),
        allow_untagged_traffic: Some(true),
        default_isolation_id: Some(5),
        multi_tenant_stack: Some("multi-tenant-stack".to_string()),
    };
    let script = SetVmNetworkAdapterIsolationTool::build_script(&input).unwrap();
    assert_eq!(
        script,
        "Set-VMNetworkAdapterIsolation -VMName 'vm-name' -VMNetworkAdapterName 'lab''s-vm' -ComputerName 'computer-name' -IsolationMode 'isolation-mode' -AllowUntaggedTraffic $true -DefaultIsolationID 5 -MultiTenantStack 'multi-tenant-stack' | Select-Object @{N='IsolationMode';E={$_.IsolationMode.ToString()}}, AllowUntaggedTraffic, DefaultIsolationID, @{N='MultiTenantStack';E={$_.MultiTenantStack.ToString()}}, @{N='AdapterName';E={$_.ParentAdapter.Name}}, @{N='VMName';E={$_.ParentAdapter.VMName}}, ComputerName | ConvertTo-Json -Compress -Depth 3"
    );
}

#[test]
fn set_vm_network_adapter_routing_domain_mapping_builds_its_script() {
    let input = SetVmNetworkAdapterRoutingDomainMappingInput {
        vm_name: Some("vm-name".to_string()),
        vm_network_adapter_name: Some("vm-network-adapter-name".to_string()),
        computer_name: Some("computer-name".to_string()),
        management_os: None,
        routing_domain_id: Some("routing-domain-id".to_string()),
        routing_domain_name: Some("routing-domain-name".to_string()),
        new_routing_domain_name: Some("new-routing-domain-name".to_string()),
        isolation_id: vec![5001, 5002],
        isolation_name: vec!["10.0.0.1".to_string(), "10.0.0.2".to_string()],
    };
    let script = SetVmNetworkAdapterRoutingDomainMappingTool::build_script(&input).unwrap();
    assert_eq!(
        script,
        "Set-VMNetworkAdapterRoutingDomainMapping -VMName 'vm-name' -VMNetworkAdapterName 'vm-network-adapter-name' -ComputerName 'computer-name' -RoutingDomainID 'routing-domain-id' -RoutingDomainName 'routing-domain-name' -NewRoutingDomainName 'new-routing-domain-name' -IsolationID 5001,5002 -IsolationName '10.0.0.1','10.0.0.2' -PassThru | Select-Object @{N='RoutingDomainID';E={$_.RoutingDomainID.ToString()}}, RoutingDomainName, IsolationID, IsolationName | ConvertTo-Json -Compress -Depth 3"
    );
}

#[test]
fn set_vm_network_adapter_team_mapping_builds_its_script() {
    let input = SetVmNetworkAdapterTeamMappingInput {
        vm_name: Some("vm-name".to_string()),
        name: "lab's-vm".to_string(),
        physical_net_adapter_name: "physical-net-adapter-name".to_string(),
        computer_name: Some("computer-name".to_string()),
        management_os: None,
        switch_name: Some("switch-name".to_string()),
    };
    let script = SetVmNetworkAdapterTeamMappingTool::build_script(&input).unwrap();
    assert_eq!(
        script,
        "Set-VMNetworkAdapterTeamMapping -VMName 'vm-name' -VMNetworkAdapterName 'lab''s-vm' -PhysicalNetAdapterName 'physical-net-adapter-name' -ComputerName 'computer-name' -SwitchName 'switch-name' | Select-Object @{N='Name';E={$_.Name}}, SwitchName, NetAdapterName, NetAdapterInterfaceDescription, VMName, ComputerName | ConvertTo-Json -Compress -Depth 3"
    );
}

#[test]
fn set_vm_network_adapter_vlan_builds_its_script() {
    let input = SetVmNetworkAdapterVlanInput {
        vm_name: Some("vm-name".to_string()),
        computer_name: Some("computer-name".to_string()),
        management_os: None,
        vm_network_adapter_name: Some("vm-network-adapter-name".to_string()),
        operation_mode: "Access".to_string(),
        vlan_id: Some(5),
        native_vlan_id: Some(5),
        allowed_vlan_id_list: Some("allowed-vlan-id-list".to_string()),
        primary_vlan_id: Some(5),
        secondary_vlan_id: Some(5),
        secondary_vlan_id_list: Some("secondary-vlan-id-list".to_string()),
    };
    let script = SetVmNetworkAdapterVlanTool::build_script(&input).unwrap();
    assert_eq!(
        script,
        "Set-VMNetworkAdapterVlan -VMName 'vm-name' -VMNetworkAdapterName 'vm-network-adapter-name' -ComputerName 'computer-name' -Access -VlanId 5 -Passthru | Select-Object VMName, VMNetworkAdapterName, ComputerName, @{N='OperationMode';E={$_.OperationMode.ToString()}}, AccessVlanId, NativeVlanId, AllowedVlanIdList, PrimaryVlanId, SecondaryVlanId, SecondaryVlanIdList | ConvertTo-Json -Compress -Depth 3"
    );
}

#[test]
fn set_vm_processor_builds_its_script() {
    let input = SetVmProcessorInput {
        name: "lab's-vm".to_string(),
        computer_name: Some("computer-name".to_string()),
        count: Some(8),
        compatibility_for_migration_enabled: Some(true),
        compatibility_for_older_operating_systems_enabled: Some(true),
        hw_thread_count_per_core: Some(8),
        maximum: Some(8),
        reserve: Some(8),
        relative_weight: Some(5),
        maximum_count_per_numa_node: Some(5),
        maximum_count_per_numa_socket: Some(5),
        resource_pool_name: Some("resource-pool-name".to_string()),
        perfmon: Some("perfmon".to_string()),
        enable_host_resource_protection: Some(true),
        expose_virtualization_extensions: Some(true),
    };
    let script = SetVmProcessorTool::build_script(&input).unwrap();
    assert_eq!(
        script,
        "Set-VMProcessor -VMName 'lab''s-vm' -ComputerName 'computer-name' -Count 8 -CompatibilityForMigrationEnabled $true -CompatibilityForOlderOperatingSystemsEnabled $true -HwThreadCountPerCore 8 -Maximum 8 -Reserve 8 -RelativeWeight 5 -MaximumCountPerNumaNode 5 -MaximumCountPerNumaSocket 5 -ResourcePoolName 'resource-pool-name' -Perfmon 'perfmon' -EnableHostResourceProtection $true -ExposeVirtualizationExtensions $true -PassThru | Select-Object VMName, Count, CompatibilityForMigrationEnabled, CompatibilityForOlderOperatingSystemsEnabled, HwThreadCountPerCore, Maximum, Reserve, RelativeWeight, MaximumCountPerNumaNode, MaximumCountPerNumaSocket, ResourcePoolName, Perfmon, EnableHostResourceProtection, ExposeVirtualizationExtensions, ComputerName | ConvertTo-Json -Compress -Depth 3"
    );
}

#[test]
fn set_vm_replication_builds_its_script() {
    let input = SetVmReplicationInput {
        vm_name: "vm-name".to_string(),
        computer_name: Some("computer-name".to_string()),
        authentication_type: Some("authentication-type".to_string()),
        recovery_history: Some(4),
        replication_frequency_sec: Some(4),
        vss_snapshot_frequency_hour: Some(4),
        compression_enabled: Some(true),
        bypass_proxy_server: Some(true),
        replica_server_name: Some("replica-server-name".to_string()),
        replica_server_port: Some(4),
        certificate_thumbprint: Some("certificate-thumbprint".to_string()),
        auto_resynchronize_enabled: Some(true),
        auto_resynchronize_interval_start: Some("auto-resynchronize-interval-start".to_string()),
        auto_resynchronize_interval_end: Some("auto-resynchronize-interval-end".to_string()),
        reverse: Some(true),
        allowed_primary_server: Some("allowed-primary-server".to_string()),
        as_replica: Some(true),
        use_backup: Some(true),
        disable_vss_snapshot_replication: Some(true),
        enable_write_order_preservation_across_disks: Some(true),
        replicate_host_kvp_items: Some(true),
        initial_replication_start_time: Some("initial-replication-start-time".to_string()),
        replicated_disk_paths: Some(vec!["a".to_string(), "b".to_string()]),
    };
    let script = SetVmReplicationTool::build_script(&input).unwrap();
    assert_eq!(
        script,
        "Set-VMReplication -VMName 'vm-name' -ComputerName 'computer-name' -ReplicaServerName 'replica-server-name' -ReplicaServerPort 4 -AuthenticationType 'authentication-type' -CertificateThumbprint 'certificate-thumbprint' -CompressionEnabled $true -ReplicateHostKvpItems $true -BypassProxyServer $true -EnableWriteOrderPreservationAcrossDisks $true -InitialReplicationStartTime 'initial-replication-start-time' -DisableVSSSnapshotReplication -VSSSnapshotFrequencyHour 4 -RecoveryHistory 4 -ReplicationFrequencySec 4 -ReplicatedDiskPaths @('a','b') -Reverse -AutoResynchronizeEnabled $true -AutoResynchronizeIntervalStart 'auto-resynchronize-interval-start' -AutoResynchronizeIntervalEnd 'auto-resynchronize-interval-end' -AsReplica -AllowedPrimaryServer 'allowed-primary-server' -UseBackup | Select-Object VMName, ComputerName, @{N='State';E={$_.State.ToString()}}, @{N='Health';E={$_.Health.ToString()}}, @{N='Mode';E={$_.Mode.ToString()}}, @{N='AuthenticationType';E={$_.AuthenticationType.ToString()}}, ReplicationFrequencySec, PrimaryServerName, ReplicaServerName, ReplicaServerPort, @{N='LastReplicationTime';E={$_.LastReplicationTime.ToString()}}, @{N='LastTestFailoverInitiatedTime';E={$_.LastTestFailoverInitiatedTime.ToString()}} | ConvertTo-Json -Compress -Depth 3"
    );
}

#[test]
fn set_vm_replication_authorization_entry_builds_its_script() {
    let input = SetVmReplicationAuthorizationEntryInput {
        allowed_primary_server: "allowed-primary-server".to_string(),
        computer_name: Some("computer-name".to_string()),
        replica_storage_location: Some("replica-storage-location".to_string()),
        trust_group: Some("trust-group".to_string()),
    };
    let script = SetVmReplicationAuthorizationEntryTool::build_script(&input).unwrap();
    assert_eq!(
        script,
        "Set-VMReplicationAuthorizationEntry -AllowedPrimaryServer 'allowed-primary-server' -ComputerName 'computer-name' -ReplicaStorageLocation 'replica-storage-location' -TrustGroup 'trust-group' -PassThru | Select-Object AllowedPrimaryServer, ReplicaStorageLocation, TrustGroup | ConvertTo-Json -Compress -Depth 3"
    );
}

#[test]
fn set_vm_replication_server_builds_its_script() {
    let input = SetVmReplicationServerInput {
        computer_name: Some("computer-name".to_string()),
        replication_enabled: Some(true),
        allowed_authentication_type: Some("allowed-authentication-type".to_string()),
        replication_allowed_from_any_server: Some(true),
        certificate_thumbprint: Some("certificate-thumbprint".to_string()),
        default_storage_location: Some("default-storage-location".to_string()),
        kerberos_authentication_port: Some(5),
        certificate_authentication_port: Some(5),
        monitoring_interval: Some("monitoring-interval".to_string()),
        monitoring_start_time: Some("monitoring-start-time".to_string()),
        force: Some(true),
    };
    let script = SetVmReplicationServerTool::build_script(&input).unwrap();
    assert_eq!(
        script,
        "Set-VMReplicationServer -ComputerName 'computer-name' -ReplicationEnabled $true -AllowedAuthenticationType 'allowed-authentication-type' -ReplicationAllowedFromAnyServer $true -CertificateThumbprint 'certificate-thumbprint' -DefaultStorageLocation 'default-storage-location' -KerberosAuthenticationPort 5 -CertificateAuthenticationPort 5 -MonitoringInterval 'monitoring-interval' -MonitoringStartTime 'monitoring-start-time' -Force | Select-Object ComputerName, ReplicationEnabled, @{N='AllowedAuthenticationType';E={$_.AllowedAuthenticationType.ToString()}}, ReplicationAllowedFromAnyServer, DefaultStorageLocation, CertificateThumbprint, KerberosAuthenticationPort, CertificateAuthenticationPort, @{N='MonitoringInterval';E={$_.MonitoringInterval.ToString()}}, @{N='MonitoringStartTime';E={$_.MonitoringStartTime.ToString()}} | ConvertTo-Json -Compress -Depth 3"
    );
}

#[test]
fn set_vm_security_builds_its_script() {
    let input = SetVmSecurityInput {
        vm_name: "vm-name".to_string(),
        tpm_enabled: Some(true),
        ksd_enabled: Some(true),
        shielded: Some(true),
        computer_name: Some("computer-name".to_string()),
    };
    let script = SetVmSecurityTool::build_script(&input).unwrap();
    assert_eq!(
        script,
        "Set-VMSecurity -VMName 'vm-name' -TpmEnabled $true -KsdEnabled $true -Shielded $true -ComputerName 'computer-name' | Select-Object VMName, VMId, TpmEnabled, KsdEnabled, Shielded, ComputerName | ConvertTo-Json -Compress -Depth 3"
    );
}

#[test]
fn set_vm_security_policy_builds_its_script() {
    let input = SetVmSecurityPolicyInput {
        vm_name: "vm-name".to_string(),
        encryption_type: Some("encryption-type".to_string()),
        shielding_data_file_path: Some("shielding-data-file-path".to_string()),
        computer_name: Some("computer-name".to_string()),
    };
    let script = SetVmSecurityPolicyTool::build_script(&input).unwrap();
    assert_eq!(
        script,
        "Set-VMSecurityPolicy -VMName 'vm-name' -EncryptionType 'encryption-type' -ShieldingDataFilePath 'shielding-data-file-path' -ComputerName 'computer-name' | Select-Object VMName, VMId, EncryptionType, ShieldingDataFilePath, ComputerName | ConvertTo-Json -Compress -Depth 3"
    );
}
