//! Requests that the tools refuse, and the message each one gets.
use hyperv_tools::error::ToolError;
use hyperv_tools::tools::remove_vm::{RemoveVmInput, RemoveVmTool};
use hyperv_tools::tools::remove_vm_assignable_device::{
    RemoveVmAssignableDeviceInput, RemoveVmAssignableDeviceTool,
};
use hyperv_tools::tools::remove_vm_dvd_drive::{RemoveVmDvdDriveInput, RemoveVmDvdDriveTool};
use hyperv_tools::tools::remove_vm_gpu_partition_adapter::{
    RemoveVmGpuPartitionAdapterInput, RemoveVmGpuPartitionAdapterTool,
};
use hyperv_tools::tools::remove_vm_group_member::{
    RemoveVmGroupMemberInput, RemoveVmGroupMemberTool,
};
use hyperv_tools::tools::remove_vm_hard_disk_drive::{
    RemoveVmHardDiskDriveInput, RemoveVmHardDiskDriveTool,
};
use hyperv_tools::tools::remove_vm_migration_network::{
    RemoveVmMigrationNetworkInput, RemoveVmMigrationNetworkTool,
};
use hyperv_tools::tools::remove_vm_network_adapter::{
    RemoveVmNetworkAdapterInput, RemoveVmNetworkAdapterTool,
};
use hyperv_tools::tools::remove_vm_network_adapter_team_mapping::{
    RemoveVmNetworkAdapterTeamMappingInput, RemoveVmNetworkAdapterTeamMappingTool,
};
use hyperv_tools::tools::remove_vm_replication::{RemoveVmReplicationInput, RemoveVmReplicationTool};
use hyperv_tools::tools::remove_vm_resource_pool::{
    RemoveVmResourcePoolInput, RemoveVmResourcePoolTool,
};
use hyperv_tools::tools::remove_vm_scsi_controller::{
    RemoveVmScsiControllerInput, RemoveVmScsiControllerTool,
};
use hyperv_tools::tools::remove_vm_snapshot::{RemoveVmSnapshotInput, RemoveVmSnapshotTool};
use hyperv_tools::tools::remove_vm_storage_path::{
    RemoveVmStoragePathInput, RemoveVmStoragePathTool,
};
use hyperv_tools::tools::remove_vm_switch::{RemoveVmSwitchInput, RemoveVmSwitchTool};
use hyperv_tools::tools::remove_vm_switch_extension_port_feature::{
    RemoveVmSwitchExtensionPortFeatureInput, RemoveVmSwitchExtensionPortFeatureTool,
};
use hyperv_tools::tools::remove_vm_switch_team_member::{
    RemoveVmSwitchTeamMemberInput, RemoveVmSwitchTeamMemberTool,
};
use hyperv_tools::tools::rename_vm_network_adapter::{
    RenameVmNetworkAdapterInput, RenameVmNetworkAdapterTool,
};
use hyperv_tools::tools::rename_vm_san::{RenameVmSanInput, RenameVmSanTool};
use hyperv_tools::tools::rename_vm_snapshot::{RenameVmSnapshotInput, RenameVmSnapshotTool};
use hyperv_tools::tools::rename_vm_switch::{RenameVmSwitchInput, RenameVmSwitchTool};
use hyperv_tools::tools::reset_vm_resource_metering::{
    ResetVmResourceMeteringInput, ResetVmResourceMeteringTool,
};
use hyperv_tools::tools::resize_vhd::{ResizeVhdInput, ResizeVhdTool};
use hyperv_tools::tools::restore_vmsnapshot::{RestoreVmsnapshotInput, RestoreVmsnapshotTool};
use hyperv_tools::tools::resume_vm::{ResumeVmInput, ResumeVmTool};
use hyperv_tools::tools::resume_vm_replication::{ResumeVmReplicationInput, ResumeVmReplicationTool};
use hyperv_tools::tools::revoke_vm_connect_access::{
    RevokeVmConnectAccessInput, RevokeVmConnectAccessTool,
};
use hyperv_tools::tools::set_vhd::{SetVhdInput, SetVhdTool};
use hyperv_tools::tools::set_vm::{SetVmInput, SetVmTool};
use hyperv_tools::tools::set_vm_bios::{SetVmBiosInput, SetVmBiosTool};
use hyperv_tools::tools::set_vm_com_port::{SetVmComPortInput, SetVmComPortTool};
use hyperv_tools::tools::set_vm_fibre_channel_hba::{
    SetVmFibreChannelHbaInput, SetVmFibreChannelHbaTool,
};
use hyperv_tools::tools::set_vm_firmware::{SetVmFirmwareInput, SetVmFirmwareTool};
use hyperv_tools::tools::set_vm_floppy_disk_drive::{
    SetVmFloppyDiskDriveInput, SetVmFloppyDiskDriveTool,
};
use hyperv_tools::tools::set_vm_hard_disk_drive::{SetVmHardDiskDriveInput, SetVmHardDiskDriveTool};
use hyperv_tools::tools::set_vm_host::{SetVmHostInput, SetVmHostTool};
use hyperv_tools::tools::set_vm_host_cluster::{SetVmHostClusterInput, SetVmHostClusterTool};
use hyperv_tools::tools::set_vm_host_partitionable_gpu::{
    SetVmHostPartitionableGpuInput, SetVmHostPartitionableGpuTool,
};
use hyperv_tools::tools::set_vm_key_protector::{SetVmKeyProtectorInput, SetVmKeyProtectorTool};
use hyperv_tools::tools::set_vm_memory::{SetVmMemoryInput, SetVmMemoryTool};
use hyperv_tools::tools::set_vm_migration_network::{
    SetVmMigrationNetworkInput, SetVmMigrationNetworkTool,
};
use hyperv_tools::tools::set_vm_network_adapter::{
    SetVmNetworkAdapterInput, SetVmNetworkAdapterTool,
};
use hyperv_tools::tools::set_vm_network_adapter_failover_configuration::{
    SetVmNetworkAdapterFailoverConfigurationInput, SetVmNetworkAdapterFailoverConfigurationTool,
};
use hyperv_tools::tools::set_vm_network_adapter_isolation::{
    SetVmNetworkAdapterIsolationInput, SetVmNetworkAdapterIsolationTool,
};
use hyperv_tools::tools::set_vm_network_adapter_team_mapping::{
    SetVmNetworkAdapterTeamMappingInput, SetVmNetworkAdapterTeamMappingTool,
};
use hyperv_tools::tools::set_vm_processor::{SetVmProcessorInput, SetVmProcessorTool};
use hyperv_tools::tools::set_vm_replication::{SetVmReplicationInput, SetVmReplicationTool};
use hyperv_tools::tools::set_vm_replication_authorization_entry::{
    SetVmReplicationAuthorizationEntryInput, SetVmReplicationAuthorizationEntryTool,
};
use hyperv_tools::tools::set_vm_security::{SetVmSecurityInput, SetVmSecurityTool};
use hyperv_tools::tools::set_vm_security_policy::{
    SetVmSecurityPolicyInput, SetVmSecurityPolicyTool,
};

#[test]
fn remove_vm_refuses_blank_name() {
    let input = RemoveVmInput {
        name: "   ".to_string(),
        computer_name: Some("computer-name".to_string()),
        force: true,
    };
    assert_eq!(
        RemoveVmTool::build_script(&input),
        Err(ToolError::InvalidInput("name must not be empty".to_string()))
    );
}

#[test]
fn remove_vm_assignable_device_refuses_blank_vm_name() {
    let input = RemoveVmAssignableDeviceInput {
        vm_name: "   ".to_string(),
        location_path: Some("location-path".to_string()),
        computer_name: Some("computer-name".to_string()),
    };
    assert_eq!(
        RemoveVmAssignableDeviceTool::build_script(&input),
        Err(ToolError::InvalidInput("vm_name must not be empty".to_string()))
    );
}

#[test]
fn remove_vm_dvd_drive_refuses_blank_vm_name() {
    let input = RemoveVmDvdDriveInput {
        vm_name: "   ".to_string(),
        controller_number: Some(4),
        controller_location: Some(4),
        computer_name: Some("computer-name".to_string()),
    };
    assert_eq!(
        RemoveVmDvdDriveTool::build_script(&input),
        Err(ToolError::InvalidInput("vm_name must not be empty".to_string()))
    );
}

#[test]
fn remove_vm_gpu_partition_adapter_refuses_blank_vm_name() {
    let input = RemoveVmGpuPartitionAdapterInput {
        vm_name: "   ".to_string(),
        instance_path: Some("instance-path".to_string()),
        computer_name: Some("computer-name".to_string()),
    };
    assert_eq!(
        RemoveVmGpuPartitionAdapterTool::build_script(&input),
        Err(ToolError::InvalidInput("vm_name must not be empty".to_string()))
    );
}

#[test]
fn remove_vm_group_member_refuses_blank_name() {
    let input = RemoveVmGroupMemberInput {
        name: "   ".to_string(),
        vm_names: Some(vec!["a".to_string(), "b".to_string()]),
        vm_group_names: Some(vec!["a".to_string(), "b".to_string()]),
        computer_name: Some("computer-name".to_string()),
    };
    assert_eq!(
        RemoveVmGroupMemberTool::build_script(&input),
        Err(ToolError::InvalidInput("name must not be empty".to_string()))
    );
}

#[test]
fn remove_vm_hard_disk_drive_refuses_blank_vm_name() {
    let input = RemoveVmHardDiskDriveInput {
        vm_name: "   ".to_string(),
        controller_type: "SCSI".to_string(),
        controller_number: 1,
        controller_location: 1,
        computer_name: Some("computer-name".to_string()),
    };
    assert_eq!(
        RemoveVmHardDiskDriveTool::build_script(&input),
        Err(ToolError::InvalidInput("vmName must not be empty".to_string()))
    );
}

#[test]
fn remove_vm_migration_network_refuses_blank_subnet() {
    let input = RemoveVmMigrationNetworkInput {
        subnet: "   ".to_string(),
        computer_name: Some("computer-name".to_string()),
    };
    assert_eq!(
        RemoveVmMigrationNetworkTool::build_script(&input),
        Err(ToolError::InvalidInput("subnet must not be empty".to_string()))
    );
}

#[test]
fn remove_vm_network_adapter_refuses_blank_vm_name() {
    let input = RemoveVmNetworkAdapterInput {
        vm_name: "   ".to_string(),
        adapter_name: Some("adapter-name".to_string()),
        computer_name: Some("computer-name".to_string()),
    };
    assert_eq!(
        RemoveVmNetworkAdapterTool::build_script(&input),
        Err(ToolError::InvalidInput("vmName must not be empty".to_string()))
    );
}

#[test]
fn remove_vm_network_adapter_team_mapping_refuses_blank_name() {
    let input = RemoveVmNetworkAdapterTeamMappingInput {
        vm_name: Some("vm-name".to_string()),
        name: "   ".to_string(),
        computer_name: Some("computer-name".to_string()),
        management_os: None,
        switch_name: Some("switch-name".to_string()),
    };
    assert_eq!(
        RemoveVmNetworkAdapterTeamMappingTool::build_script(&input),
        Err(ToolError::InvalidInput("Network adapter name must not be empty".to_string()))
    );
}

#[test]
fn remove_vm_replication_refuses_blank_vm_name() {
    let input = RemoveVmReplicationInput {
        vm_name: "   ".to_string(),
        computer_name: Some("computer-name".to_string()),
    };
    assert_eq!(
        RemoveVmReplicationTool::build_script(&input),
        Err(ToolError::InvalidInput("vmName must not be empty".to_string()))
    );
}

#[test]
fn remove_vm_resource_pool_refuses_blank_name() {
    let input = RemoveVmResourcePoolInput {
        name: "   ".to_string(),
        resource_pool_type: "Ethernet".to_string(),
        computer_name: Some("computer-name".to_string()),
    };
    assert_eq!(
        RemoveVmResourcePoolTool::build_script(&input),
        Err(ToolError::InvalidInput("name must not be empty".to_string()))
    );
}

#[test]
fn remove_vm_scsi_controller_refuses_blank_vm_name() {
    let input = RemoveVmScsiControllerInput {
        vm_name: "   ".to_string(),
        controller_number: 3,
        computer_name: Some("computer-name".to_string()),
    };
    assert_eq!(
        RemoveVmScsiControllerTool::build_script(&input),
        Err(ToolError::InvalidInput("vmName must not be empty".to_string()))
    );
}

#[test]
fn remove_vm_snapshot_refuses_blank_vm_name() {
    let input = RemoveVmSnapshotInput {
        vm_name: "   ".to_string(),
        snapshot_name: "snapshot-name".to_string(),
        computer_name: Some("computer-name".to_string()),
    };
    assert_eq!(
        RemoveVmSnapshotTool::build_script(&input),
        Err(ToolError::InvalidInput("vmName must not be empty".to_string()))
    );
}

#[test]
fn remove_vm_storage_path_refuses_blank_name() {
    let input = RemoveVmStoragePathInput {
        name: "   ".to_string(),
        path: "C:\\VMs\\disk.vhdx".to_string(),
        computer_name: Some("computer-name".to_string()),
    };
    assert_eq!(
        RemoveVmStoragePathTool::build_script(&input),
        Err(ToolError::InvalidInput("name must not be empty".to_string()))
    );
}

#[test]
fn remove_vm_switch_refuses_blank_name() {
    let input = RemoveVmSwitchInput {
        name: "   ".to_string(),
        computer_name: Some("computer-name".to_string()),
        force: true,
    };
    assert_eq!(
        RemoveVmSwitchTool::build_script(&input),
        Err(ToolError::InvalidInput("name must not be empty".to_string()))
    );
}

#[test]
fn remove_vm_switch_extension_port_feature_refuses_blank_feature_id() {
    let input = RemoveVmSwitchExtensionPortFeatureInput {
        feature_id: "   ".to_string(),
        vm_network_adapter: Some("vm-network-adapter".to_string()),
        computer_name: Some("computer-name".to_string()),
    };
    assert_eq!(
        RemoveVmSwitchExtensionPortFeatureTool::build_script(&input),
        Err(ToolError::InvalidInput("feature_id must not be empty".to_string()))
    );
}

#[test]
fn remove_vm_switch_team_member_refuses_blank_vm_switch() {
    let input = RemoveVmSwitchTeamMemberInput {
        vm_switch: "   ".to_string(),
        net_adapter_name: "net-adapter-name".to_string(),
        computer_name: Some("computer-name".to_string()),
    };
    assert_eq!(
        RemoveVmSwitchTeamMemberTool::build_script(&input),
        Err(ToolError::InvalidInput("vm_switch must not be empty".to_string()))
    );
}

#[test]
fn rename_vm_network_adapter_refuses_blank_vm_name() {
    let input = RenameVmNetworkAdapterInput {
        vm_name: Some("  ".to_string()),
        name: "lab's-vm".to_string(),
        new_name: "renamed".to_string(),
        computer_name: Some("computer-name".to_string()),
    };
    assert_eq!(
        RenameVmNetworkAdapterTool::build_script(&input),
        Err(ToolError::InvalidInput("vm_name must not be empty when provided".to_string()))
    );
}

#[test]
fn rename_vm_san_refuses_blank_name() {
    let input = RenameVmSanInput {
        name: "   ".to_string(),
        new_name: "renamed".to_string(),
        computer_name: Some("computer-name".to_string()),
    };
    assert_eq!(
        RenameVmSanTool::build_script(&input),
        Err(ToolError::InvalidInput("name must not be empty".to_string()))
    );
}

#[test]
fn rename_vm_snapshot_refuses_blank_vm_name() {
    let input = RenameVmSnapshotInput {
        vm_name: "   ".to_string(),
        snapshot_name: "snapshot-name".to_string(),
        new_name: "renamed".to_string(),
        computer_name: Some("computer-name".to_string()),
    };
    assert_eq!(
        RenameVmSnapshotTool::build_script(&input),
        Err(ToolError::InvalidInput("VM name must not be empty".to_string()))
    );
}

#[test]
fn rename_vm_switch_refuses_blank_name() {
    let input = RenameVmSwitchInput {
        name: "   ".to_string(),
        new_name: "renamed".to_string(),
        computer_name: Some("computer-name".to_string()),
    };
    assert_eq!(
        RenameVmSwitchTool::build_script(&input),
        Err(ToolError::InvalidInput("Switch name must not be empty".to_string()))
    );
}

#[test]
fn reset_vm_resource_metering_refuses_blank_vm_name() {
    let input = ResetVmResourceMeteringInput {
        vm_name: Some("  ".to_string()),
        resource_pool_name: Some("resource-pool-name".to_string()),
        computer_name: Some("computer-name".to_string()),
    };
    assert_eq!(
        ResetVmResourceMeteringTool::build_script(&input),
        Err(ToolError::InvalidInput("vm_name must not be empty when provided".to_string()))
    );
}

#[test]
fn resize_vhd_refuses_blank_path() {
    let input = ResizeVhdInput {
        path: "   ".to_string(),
        size_bytes: Some(1073741824),
        to_minimum_size: false,
        computer_name: Some("computer-name".to_string()),
    };
    assert_eq!(
        ResizeVhdTool::build_script(&input),
        Err(ToolError::InvalidInput("Path must not be empty".to_string()))
    );
}

#[test]
fn restore_vmsnapshot_refuses_blank_snapshot_name() {
    let input = RestoreVmsnapshotInput {
        snapshot_name: "   ".to_string(),
        vm_name: "vm-name".to_string(),
        computer_name: Some("computer-name".to_string()),
    };
    assert_eq!(
        RestoreVmsnapshotTool::build_script(&input),
        Err(ToolError::InvalidInput("snapshotName must not be empty".to_string()))
    );
}

#[test]
fn resume_vm_refuses_blank_name() {
    let input = ResumeVmInput {
        name: "   ".to_string(),
        computer_name: Some("computer-name".to_string()),
    };
    assert_eq!(
        ResumeVmTool::build_script(&input),
        Err(ToolError::InvalidInput("VM name must not be empty".to_string()))
    );
}

#[test]
fn resume_vm_replication_refuses_blank_vm_name() {
    let input = ResumeVmReplicationInput {
        vm_name: "   ".to_string(),
        computer_name: Some("computer-name".to_string()),
        replication_relationship_type: Some("replication-relationship-type".to_string()),
        resynchronize: true,
    };
    assert_eq!(
        ResumeVmReplicationTool::build_script(&input),
        Err(ToolError::InvalidInput("VM name must not be empty".to_string()))
    );
}

#[test]
fn revoke_vm_connect_access_refuses_blank_vm_name() {
    let input = RevokeVmConnectAccessInput {
        vm_name: "   ".to_string(),
        user_name: "user-name".to_string(),
        computer_name: Some("computer-name".to_string()),
    };
    assert_eq!(
        RevokeVmConnectAccessTool::build_script(&input),
        Err(ToolError::InvalidInput("vm_name must not be empty".to_string()))
    );
}

#[test]
fn set_vhd_refuses_blank_path() {
    let input = SetVhdInput {
        path: "   ".to_string(),
        computer_name: Some("computer-name".to_string()),
        parent_path: Some("parent-path".to_string()),
        leaf_path: Some("leaf-path".to_string()),
        ignore_id_mismatch: Some(true),
        physical_sector_size_bytes: Some(4),
        reset_disk_identifier: Some(true),
        force: Some(true),
    };
    assert_eq!(
        SetVhdTool::build_script(&input),
        Err(ToolError::InvalidInput("VHD path must not be empty".to_string()))
    );
}

#[test]
fn set_vm_refuses_blank_name() {
    let input = SetVmInput {
        name: "   ".to_string(),
        computer_name: Some("computer-name".to_string()),
        new_name: Some("renamed".to_string()),
        memory_startup_bytes: Some(1073741824),
        processor_count: Some(4),
        automatic_start_action: Some("automatic-start-action".to_string()),
        automatic_stop_action: Some("automatic-stop-action".to_string()),
        automatic_start_delay: Some(5),
        automatic_critical_error_action: Some("automatic-critical-error-action".to_string()),
        automatic_critical_error_action_timeout: Some(5),
        automatic_checkpoints_enabled: Some(true),
        notes: Some("notes".to_string()),
        snapshot_file_location: Some("snapshot-file-location".to_string()),
        smart_paging_file_path: Some("smart-paging-file-path".to_string()),
        checkpoint_type: Some("checkpoint-type".to_string()),
        dynamic_memory: Some(true),
        static_memory: Some(true),
        memory_minimum_bytes: Some(1073741824),
        memory_maximum_bytes: Some(1073741824),
        guest_controlled_cache_types: Some(true),
        lock_on_disconnect: Some("lock-on-disconnect".to_string()),
        low_memory_mapped_io_space: Some(4),
        high_memory_mapped_io_space: Some(1073741824),
    };
    assert_eq!(
        SetVmTool::build_script(&input),
        Err(ToolError::InvalidInput("VM name must not be empty".to_string()))
    );
}

#[test]
fn set_vm_bios_refuses_blank_name() {
    let input = SetVmBiosInput {
        name: "   ".to_string(),
        computer_name: Some("computer-name".to_string()),
        startup_order: Some(vec!["a".to_string(), "b".to_string()]),
        num_lock_enabled: Some(true),
    };
    assert_eq!(
        SetVmBiosTool::build_script(&input),
        Err(ToolError::InvalidInput("VM name must not be empty".to_string()))
    );
}

#[test]
fn set_vm_com_port_refuses_blank_name() {
    let input = SetVmComPortInput {
        name: "   ".to_string(),
        number: 1,
        path: Some("C:\\VMs\\disk.vhdx".to_string()),
        computer_name: Some("computer-name".to_string()),
        debugger_mode: Some("debugger-mode".to_string()),
    };
    assert_eq!(
        SetVmComPortTool::build_script(&input),
        Err(ToolError::InvalidInput("VM name must not be empty".to_string()))
    );
}

#[test]
fn set_vm_fibre_channel_hba_refuses_blank_vm_name() {
    let input = SetVmFibreChannelHbaInput {
        vm_name: "   ".to_string(),
        name: "lab's-vm".to_string(),
        world_wide_node_name_set_a: Some("world-wide-node-name-set-a".to_string()),
        world_wide_port_name_set_a: Some("world-wide-port-name-set-a".to_string()),
        world_wide_node_name_set_b: Some("world-wide-node-name-set-b".to_string()),
        world_wide_port_name_set_b: Some("world-wide-port-name-set-b".to_string()),
        computer_name: Some("computer-name".to_string()),
    };
    assert_eq!(
        SetVmFibreChannelHbaTool::build_script(&input),
        Err(ToolError::InvalidInput("vm_name must not be empty".to_string()))
    );
}

#[test]
fn set_vm_firmware_refuses_blank_name() {
    let input = SetVmFirmwareInput {
        name: "   ".to_string(),
        computer_name: Some("computer-name".to_string()),
        enable_secure_boot: Some("enable-secure-boot".to_string()),
        secure_boot_template: Some("secure-boot-template".to_string()),
        preferred_network_boot_protocol: Some("preferred-network-boot-protocol".to_string()),
        allow_legacy_network_adapter: Some(true),
    };
    assert_eq!(
        SetVmFirmwareTool::build_script(&input),
        Err(ToolError::InvalidInput("VM name must not be empty".to_string()))
    );
}

#[test]
fn set_vm_floppy_disk_drive_refuses_blank_vm_name() {
    let input = SetVmFloppyDiskDriveInput {
        vm_name: "   ".to_string(),
        computer_name: Some("computer-name".to_string()),
        path: Some("C:\\VMs\\disk.vhdx".to_string()),
        resource_pool_name: Some("resource-pool-name".to_string()),
    };
    assert_eq!(
        SetVmFloppyDiskDriveTool::build_script(&input),
        Err(ToolError::InvalidInput("VM name must not be empty".to_string()))
    );
}

#[test]
fn set_vm_hard_disk_drive_refuses_blank_vm_name() {
    let input = SetVmHardDiskDriveInput {
        vm_name: "   ".to_string(),
        computer_name: Some("computer-name".to_string()),
        controller_type: Some("SCSI".to_string()),
        controller_number: Some(5),
        controller_location: Some(5),
        name: Some("lab's-vm".to_string()),
        path: Some("C:\\VMs\\disk.vhdx".to_string()),
        pool_name: Some("pool-name".to_string()),
        support_persistent_reservations: Some(true),
        maximum_iops: Some(1073741824),
        minimum_iops: Some(1073741824),
        quality_of_service_priority: Some("quality-of-service-priority".to_string()),
        allow_unverified_paths: Some(true),
    };
    assert_eq!(
        SetVmHardDiskDriveTool::build_script(&input),
        Err(ToolError::InvalidInput("VM name must not be empty".to_string()))
    );
}

#[test]
fn set_vm_host_refuses_blank_computer_name() {
    let input = SetVmHostInput {
        computer_name: Some("  ".to_string()),
        maximum_storage_migrations: Some(4),
        maximum_virtual_machine_migrations: Some(4),
        virtual_machine_migration_authentication_type: Some(
            "virtual-machine-migration-authentication-type".to_string(),
        ),
        use_any_network_for_migration: Some(true),
        virtual_machine_migration_performance_option: Some(
            "virtual-machine-migration-performance-option".to_string(),
        ),
        resource_metering_save_interval: Some("resource-metering-save-interval".to_string()),
        virtual_hard_disk_path: Some("virtual-hard-disk-path".to_string()),
        virtual_machine_path: Some("virtual-machine-path".to_string()),
        mac_address_maximum: Some("mac-address-maximum".to_string()),
        mac_address_minimum: Some("mac-address-minimum".to_string()),
        fibre_channel_wwnn: Some("fibre-channel-wwnn".to_string()),
        fibre_channel_wwpn_maximum: Some("fibre-channel-wwpn-maximum".to_string()),
        fibre_channel_wwpn_minimum: Some("fibre-channel-wwpn-minimum".to_string()),
        numa_spanning_enabled: Some(true),
        enable_enhanced_session_mode: Some(true),
    };
    assert_eq!(
        SetVmHostTool::build_script(&input),
        Err(ToolError::InvalidInput("ComputerName must not be empty when provided".to_string()))
    );
}

#[test]
fn set_vm_host_cluster_refuses_blank_cluster_name() {
    let input = SetVmHostClusterInput {
        cluster_name: "   ".to_string(),
        shared_storage_path: Some("shared-storage-path".to_string()),
    };
    assert_eq!(
        SetVmHostClusterTool::build_script(&input),
        Err(ToolError::InvalidInput("Cluster name must not be empty".to_string()))
    );
}

#[test]
fn set_vm_host_partitionable_gpu_refuses_blank_name() {
    let input = SetVmHostPartitionableGpuInput {
        computer_name: Some("computer-name".to_string()),
        name: Some("  ".to_string()),
        partition_count: Some(4),
    };
    assert_eq!(
        SetVmHostPartitionableGpuTool::build_script(&input),
        Err(ToolError::InvalidInput("GPU name must not be empty".to_string()))
    );
}

#[test]
fn set_vm_key_protector_refuses_blank_vm_name() {
    let input = SetVmKeyProtectorInput {
        vm_name: "   ".to_string(),
        key_protector: "key-protector".to_string(),
        computer_name: Some("computer-name".to_string()),
    };
    assert_eq!(
        SetVmKeyProtectorTool::build_script(&input),
        Err(ToolError::InvalidInput("vm_name must not be empty".to_string()))
    );
}

#[test]
fn set_vm_memory_refuses_blank_vm_name() {
    let input = SetVmMemoryInput {
        vm_name: "   ".to_string(),
        computer_name: Some("computer-name".to_string()),
        startup_bytes: Some(1073741824),
        minimum_bytes: Some(1073741824),
        maximum_bytes: Some(1073741824),
        dynamic_memory_enabled: Some(true),
        buffer: Some(4),
        priority: Some(4),
        smart_paging_file_path: Some("smart-paging-file-path".to_string()),
    };
    assert_eq!(
        SetVmMemoryTool::build_script(&input),
        Err(ToolError::InvalidInput("VM name must not be empty".to_string()))
    );
}

#[test]
fn set_vm_migration_network_refuses_blank_subnet() {
    let input = SetVmMigrationNetworkInput {
        subnet: "   ".to_string(),
        subnet_mask: Some("subnet-mask".to_string()),
        priority: Some(5),
        computer_name: Some("computer-name".to_string()),
    };
    assert_eq!(
        SetVmMigrationNetworkTool::build_script(&input),
        Err(ToolError::InvalidInput("Subnet must not be empty".to_string()))
    );
}

#[test]
fn set_vm_network_adapter_refuses_blank_name() {
    let input = SetVmNetworkAdapterInput {
        vm_name: Some("vm-name".to_string()),
        name: "   ".to_string(),
        computer_name: Some("computer-name".to_string()),
        management_os: None,
        switch_name: Some("switch-name".to_string()),
        static_mac_address: Some("static-mac-address".to_string()),
        dynamic_mac_address_enabled: Some(true),
        mac_address_spoofing: Some("mac-address-spoofing".to_string()),
        allow_teaming: Some("allow-teaming".to_string()),
        device_naming: Some("device-naming".to_string()),
        ipsec_task_offload: Some("ipsec-task-offload".to_string()),
        vmmq_enabled: Some(true),
        vrss_enabled: Some(true),
        packet_direct_enabled: Some(true),
    };
    assert_eq!(
        SetVmNetworkAdapterTool::build_script(&input),
        Err(ToolError::InvalidInput("Network adapter name must not be empty".to_string()))
    );
}

#[test]
fn set_vm_network_adapter_failover_configuration_refuses_blank_vm_name() {
    let input = SetVmNetworkAdapterFailoverConfigurationInput {
        vm_name: "   ".to_string(),
        network_adapter_name: "network-adapter-name".to_string(),
        ip_addresses: vec!["10.0.0.1".to_string(), "10.0.0.2".to_string()],
        computer_name: Some("computer-name".to_string()),
    };
    assert_eq!(
        SetVmNetworkAdapterFailoverConfigurationTool::build_script(&input),
        Err(ToolError::InvalidInput("vm_name must not be empty".to_string()))
    );
}

#[test]
fn set_vm_network_adapter_isolation_refuses_blank_name() {
    let input = SetVmNetworkAdapterIsolationInput {
        vm_name: Some("vm-name".to_string()),
        name: "   ".to_string(),
        computer_name: Some("computer-name".to_string()),
        management_os: None,
        isolation_mode: Some("isolation-mode".to_string()),
        allow_untagged_traffic: Some(true),
        default_isolation_id: Some(5),
        multi_tenant_stack: Some("multi-tenant-stack".to_string()),
    };
    assert_eq!(
        SetVmNetworkAdapterIsolationTool::build_script(&input),
        Err(ToolError::InvalidInput("Network adapter name must not be empty".to_string()))
    );
}

#[test]
fn set_vm_network_adapter_team_mapping_refuses_blank_name() {
    let input = SetVmNetworkAdapterTeamMappingInput {
        vm_name: Some("vm-name".to_string()),
        name: "   ".to_string(),
        physical_net_adapter_name: "physical-net-adapter-name".to_string(),
        computer_name: Some("computer-name".to_string()),
        management_os: None,
        switch_name: Some("switch-name".to_string()),
    };
    assert_eq!(
        SetVmNetworkAdapterTeamMappingTool::build_script(&input),
        Err(ToolError::InvalidInput("Virtual network adapter name must not be empty".to_string()))
    );
}

#[test]
fn set_vm_processor_refuses_blank_name() {
    let input = SetVmProcessorInput {
        name: "   ".to_string(),
        computer_name: Some("computer-name".to_string()),
        count: Some(8),
        compatibility_for_migration_enabled: Some(true),
        compatibility_for_older_operating_systems_enabled: Some(true),
        hw_thread_count_per_core: Some(8),
        maximum: Some(8),
        reserve: Some(8),
        relative_weight: Some(5),
        maximum_count_per_numa_node: Some(5),
        maximum_count_per_numa_socket: Some(5),
        resource_pool_name: Some("resource-pool-name".to_string()),
        perfmon: Some("perfmon".to_string()),
        enable_host_resource_protection: Some(true),
        expose_virtualization_extensions: Some(true),
    };
    assert_eq!(
        SetVmProcessorTool::build_script(&input),
        Err(ToolError::InvalidInput("VM name must not be empty".to_string()))
    );
}

#[test]
fn set_vm_replication_refuses_blank_vm_name() {
    let input = SetVmReplicationInput {
        vm_name: "   ".to_string(),
        computer_name: Some("computer-name".to_string()),
        authentication_type: Some("authentication-type".to_string()),
        recovery_history: Some(4),
        replication_frequency_sec: Some(4),
        vss_snapshot_frequency_hour: Some(4),
        compression_enabled: Some(true),
        bypass_proxy_server: Some(true),
        replica_server_name: Some("replica-server-name".to_string()),
        replica_server_port: Some(4),
        certificate_thumbprint: Some("certificate-thumbprint".to_string()),
        auto_resynchronize_enabled: Some(true),
        auto_resynchronize_interval_start: Some("auto-resynchronize-interval-start".to_string()),
        auto_resynchronize_interval_end: Some("auto-resynchronize-interval-end".to_string()),
        reverse: Some(true),
        allowed_primary_server: Some("allowed-primary-server".to_string()),
        as_replica: Some(true),
        use_backup: Some(true),
        disable_vss_snapshot_replication: Some(true),
        enable_write_order_preservation_across_disks: Some(true),
        replicate_host_kvp_items: Some(true),
        initial_replication_start_time: Some("initial-replication-start-time".to_string()),
        replicated_disk_paths: Some(vec!["a".to_string(), "b".to_string()]),
    };
    assert_eq!(
        SetVmReplicationTool::build_script(&input),
        Err(ToolError::InvalidInput("VM name must not be empty".to_string()))
    );
}

#[test]
fn set_vm_replication_authorization_entry_refuses_blank_allowed_primary_server() {
    let input = SetVmReplicationAuthorizationEntryInput {
        allowed_primary_server: "   ".to_string(),
        computer_name: Some("computer-name".to_string()),
        replica_storage_location: Some("replica-storage-location".to_string()),
        trust_group: Some("trust-group".to_string()),
    };
    assert_eq!(
        SetVmReplicationAuthorizationEntryTool::build_script(&input),
        Err(ToolError::InvalidInput("AllowedPrimaryServer must not be empty".to_string()))
    );
}

#[test]
fn set_vm_security_refuses_blank_vm_name() {
    let input = SetVmSecurityInput {
        vm_name: "   ".to_string(),
        tpm_enabled: Some(true),
        ksd_enabled: Some(true),
        shielded: Some(true),
        computer_name: Some("computer-name".to_string()),
    };
    assert_eq!(
        SetVmSecurityTool::build_script(&input),
        Err(ToolError::InvalidInput("vm_name must not be empty".to_string()))
    );
}

#[test]
fn set_vm_security_policy_refuses_blank_vm_name() {
    let input = SetVmSecurityPolicyInput {
        vm_name: "   ".to_string(),
        encryption_type: Some("encryption-type".to_string()),
        shielding_data_file_path: Some("shielding-data-file-path".to_string()),
        computer_name: Some("computer-name".to_string()),
    };
    assert_eq!(
        SetVmSecurityPolicyTool::build_script(&input),
        Err(ToolError::InvalidInput("vm_name must not be empty".to_string()))
    );
}
