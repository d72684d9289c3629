//! One module per tool: its request, its script, and its answer.
pub mod remove_vm;
pub mod remove_vm_assignable_device;
pub mod remove_vm_dvd_drive;
pub mod remove_vm_gpu_partition_adapter;
pub mod remove_vm_group_member;
pub mod remove_vm_hard_disk_drive;
pub mod remove_vm_host_assignable_device;
pub mod remove_vm_migration_network;
pub mod remove_vm_network_adapter;
pub mod remove_vm_network_adapter_acl;
pub mod remove_vm_network_adapter_extended_acl;
pub mod remove_vm_network_adapter_routing_domain_mapping;
pub mod remove_vm_network_adapter_team_mapping;
pub mod remove_vm_replication;
pub mod remove_vm_replication_authorization_entry;
pub mod remove_vm_resource_pool;
pub mod remove_vm_scsi_controller;
pub mod remove_vm_snapshot;
pub mod remove_vm_storage_path;
pub mod remove_vm_switch;
pub mod remove_vm_switch_extension_port_feature;
pub mod remove_vm_switch_team_member;
pub mod rename_vm_group;
pub mod rename_vm_network_adapter;
pub mod rename_vm_san;
pub mod rename_vm_snapshot;
pub mod rename_vm_switch;
pub mod reset_vm_replication_statistics;
pub mod reset_vm_resource_metering;
pub mod resize_vhd;
pub mod restore_vmsnapshot;
pub mod resume_vm;
pub mod resume_vm_replication;
pub mod revoke_vm_connect_access;
pub mod set_vhd;
pub mod set_vm;
pub mod set_vm_bios;
pub mod set_vm_com_port;
pub mod set_vm_fibre_channel_hba;
pub mod set_vm_firmware;
pub mod set_vm_floppy_disk_drive;
pub mod set_vm_hard_disk_drive;
pub mod set_vm_host;
pub mod set_vm_host_cluster;
pub mod set_vm_host_partitionable_gpu;
pub mod set_vm_key_protector;
pub mod set_vm_memory;
pub mod set_vm_migration_network;
pub mod set_vm_network_adapter;
pub mod set_vm_network_adapter_failover_configuration;
pub mod set_vm_network_adapter_isolation;
pub mod set_vm_network_adapter_routing_domain_mapping;
pub mod set_vm_network_adapter_team_mapping;
pub mod set_vm_network_adapter_vlan;
pub mod set_vm_processor;
pub mod set_vm_replication;
pub mod set_vm_replication_authorization_entry;
pub mod set_vm_replication_server;
pub mod set_vm_security;
pub mod set_vm_security_policy;
