//! Reading the answers out of what the scripts print.
use hyperv_tools::error::ToolError;
use hyperv_tools::json::{read_printed, sanitize_output, JsonNumber, JsonValue};
use hyperv_tools::tools::remove_vm::RemoveVmTool;
use hyperv_tools::tools::remove_vm_network_adapter_team_mapping::RemoveVmNetworkAdapterTeamMappingTool;
use hyperv_tools::tools::rename_vm_group::{
    parse_rename_member_array, parse_vm_group_rename_info, RenameVmGroupTool,
};
use hyperv_tools::tools::set_vm_bios::{startup_order_from, SetVmBiosTool};
use hyperv_tools::tools::set_vm_com_port::SetVmComPortTool;
use hyperv_tools::tools::set_vm_host_partitionable_gpu::SetVmHostPartitionableGpuTool;
use hyperv_tools::tools::set_vm_network_adapter_failover_configuration::SetVmNetworkAdapterFailoverConfigurationTool;
use hyperv_tools::tools::set_vm_network_adapter_routing_domain_mapping::{
    ints_from, strings_from, SetVmNetworkAdapterRoutingDomainMappingTool,
};
use hyperv_tools::tools::set_vm_network_adapter_vlan::SetVmNetworkAdapterVlanTool;

fn text(s: &str) -> JsonValue {
    JsonValue::String(s.to_string())
}

fn number(n: u64) -> JsonValue {
    JsonValue::Number(JsonNumber {
        unsigned: Some(n),
        signed: i64::try_from(n).ok(),
        text: n.to_string(),
    })
}

fn negative(n: i64) -> JsonValue {
    JsonValue::Number(JsonNumber { unsigned: None, signed: Some(n), text: n.to_string() })
}

fn fraction(text: &str) -> JsonValue {
    JsonValue::Number(JsonNumber { unsigned: None, signed: None, text: text.to_string() })
}

fn object(members: Vec<(&str, JsonValue)>) -> JsonValue {
    JsonValue::Object(members.into_iter().map(|(k, v)| (k.to_string(), v)).collect())
}

#[test]
fn blank_output_reads_as_an_empty_list() {
    assert_eq!(sanitize_output(""), "[]");
    assert_eq!(sanitize_output(" \r\n\t"), "[]");
    assert_eq!(sanitize_output("\u{3000}"), "[]");
    assert_eq!(sanitize_output("{\"Name\":\"a\"}"), "{\"Name\":\"a\"}");
    assert_eq!(sanitize_output(" 1 "), " 1 ");
}

#[test]
fn an_array_gives_one_entry_per_record() {
    let raw = JsonValue::Array(vec![
        object(vec![("Name", text("vm1")), ("VMName", text("a")), ("Number", number(1))]),
        object(
            vec![("Name", text("vm2")), ("Number", number(2)), ("Path", text("\\\\.\\pipe\\p"))],
        ),
    ]);
    let out = SetVmComPortTool::parse_output(raw);
    assert_eq!(out.com_ports.len(), 2);
    assert_eq!(out.com_ports[0].name, "vm1");
    assert_eq!(out.com_ports[0].vm_name, "a");
    assert_eq!(out.com_ports[0].number, 1);
    assert_eq!(out.com_ports[0].path, "");
    assert_eq!(out.com_ports[1].name, "vm2");
    assert_eq!(out.com_ports[1].vm_name, "");
    assert_eq!(out.com_ports[1].number, 2);
    assert_eq!(out.com_ports[1].path, "\\\\.\\pipe\\p");
    assert_eq!(out.com_ports[1].debugger_mode, "");
}

#[test]
fn a_single_object_is_one_record() {
    let raw = object(vec![("Name", text("COM 1")), ("DebuggerMode", text("Off"))]);
    let out = SetVmComPortTool::parse_output(raw);
    assert_eq!(out.com_ports.len(), 1);
    assert_eq!(out.com_ports[0].name, "COM 1");
    assert_eq!(out.com_ports[0].debugger_mode, "Off");
    assert_eq!(out.com_ports[0].number, 0);
}

#[test]
fn null_output_is_one_empty_record() {
    let out = SetVmComPortTool::parse_output(JsonValue::Null);
    assert_eq!(out.com_ports.len(), 1);
    assert_eq!(out.com_ports[0].name, "");
    assert_eq!(out.com_ports[0].number, 0);
}

#[test]
fn an_empty_array_gives_no_entries() {
    let out = SetVmComPortTool::parse_output(JsonValue::Array(vec![]));
    assert_eq!(out.com_ports.len(), 0);
}

#[test]
fn fields_of_the_wrong_kind_read_as_defaults() {
    let raw = object(vec![
        ("Name", number(5)),
        ("Number", text("2")),
        ("Path", JsonValue::Null),
        ("DebuggerMode", JsonValue::Bool(true)),
    ]);
    let out = SetVmComPortTool::parse_output(raw);
    assert_eq!(out.com_ports[0].name, "");
    assert_eq!(out.com_ports[0].number, 0);
    assert_eq!(out.com_ports[0].path, "");
    assert_eq!(out.com_ports[0].debugger_mode, "");
}

#[test]
fn negative_and_oversized_numbers_are_cut_to_the_field() {
    let raw = JsonValue::Array(vec![
        object(vec![("AccessVlanId", negative(-3))]),
        object(vec![("AccessVlanId", number(4294967298))]),
        object(vec![("AccessVlanId", number(u64::MAX))]),
        object(vec![("AccessVlanId", fraction("1.5"))]),
    ]);
    let out = SetVmNetworkAdapterVlanTool::parse_output(raw);
    assert_eq!(out.adapters[0].access_vlan_id, -3);
    assert_eq!(out.adapters[1].access_vlan_id, 2);
    assert_eq!(out.adapters[2].access_vlan_id, 0);
    assert_eq!(out.adapters[3].access_vlan_id, 0);
}

#[test]
fn remove_vm_reads_each_removed_machine() {
    let raw = JsonValue::Array(vec![
        object(vec![("Name", text("a")), ("Id", text("1")), ("State", text("Off"))]),
        object(vec![("Name", text("b")), ("Id", text("2")), ("State", text("Running"))]),
    ]);
    let out = RemoveVmTool::parse_output(raw).unwrap();
    assert_eq!(out.removed.len(), 2);
    assert_eq!(out.removed[1].name, "b");
    assert_eq!(out.removed[1].id, "2");
    assert_eq!(out.removed[1].state, "Running");
}

#[test]
fn remove_vm_reports_the_first_missing_field() {
    let raw = JsonValue::Array(vec![
        object(vec![("Name", text("a")), ("Id", text("1")), ("State", text("Off"))]),
        object(vec![("Name", text("b")), ("State", number(3))]),
    ]);
    assert_eq!(
        RemoveVmTool::parse_output(raw).unwrap_err(),
        ToolError::InvalidInput("missing Id in sidecar output".to_string())
    );
    let raw = object(vec![("Id", text("1"))]);
    assert_eq!(
        RemoveVmTool::parse_output(raw).unwrap_err(),
        ToolError::InvalidInput("missing Name in sidecar output".to_string())
    );
    let raw = object(vec![("Name", text("a")), ("Id", text("1"))]);
    assert_eq!(
        RemoveVmTool::parse_output(raw).unwrap_err(),
        ToolError::InvalidInput("missing State in sidecar output".to_string())
    );
}

#[test]
fn startup_order_reads_an_array_or_its_value_wrapper() {
    let list = JsonValue::Array(vec![text("CD"), text("IDE"), number(1), text("Floppy")]);
    assert_eq!(startup_order_from(&list), vec!["CD", "IDE", "", "Floppy"]);
    let wrapped = object(
        vec![("value", JsonValue::Array(vec![text("LegacyNetworkAdapter")])), ("Count", number(1))],
    );
    assert_eq!(startup_order_from(&wrapped), vec!["LegacyNetworkAdapter"]);
    let wrapped_other = object(vec![("value", text("CD"))]);
    assert_eq!(startup_order_from(&wrapped_other), Vec::<String>::new());
    assert_eq!(startup_order_from(&text("CD")), Vec::<String>::new());
    assert_eq!(startup_order_from(&JsonValue::Null), Vec::<String>::new());
}

#[test]
fn set_vm_bios_reads_its_entries() {
    let raw = object(vec![
        ("VMName", text("legacy")),
        ("VMId", text("42")),
        ("NumLockEnabled", JsonValue::Bool(true)),
        ("StartupOrder", object(vec![("value", JsonValue::Array(vec![text("IDE"), text("CD")]))])),
    ]);
    let out = SetVmBiosTool::parse_output(raw);
    assert_eq!(out.bios_entries.len(), 1);
    let entry = &out.bios_entries[0];
    assert_eq!(entry.vm_name, "legacy");
    assert_eq!(entry.vm_id, "42");
    assert!(entry.num_lock_enabled);
    assert!(!entry.is_deleted);
    assert_eq!(entry.startup_order, vec!["IDE", "CD"]);
}

#[test]
fn partition_counts_keep_the_numbers_only() {
    let raw = object(vec![
        ("Name", text("gpu0")),
        ("PartitionCount", number(65540)),
        ("TotalPartitionCount", number(8)),
        ("ValidPartitionCounts", JsonValue::Array(
            vec![number(1), text("x"), number(65538), negative(-1), number(8)],
        )),
    ]);
    let out = SetVmHostPartitionableGpuTool::parse_output(raw);
    let gpu = &out.gpus[0];
    assert_eq!(gpu.name, "gpu0");
    assert_eq!(gpu.partition_count, 4);
    assert_eq!(gpu.total_partition_count, 8);
    assert_eq!(gpu.valid_partition_counts, vec![1, 2, 8]);
    let raw = object(vec![("ValidPartitionCounts", number(4))]);
    let out = SetVmHostPartitionableGpuTool::parse_output(raw);
    assert_eq!(out.gpus[0].valid_partition_counts, Vec::<u16>::new());
}

#[test]
fn failover_addresses_read_from_an_array_only() {
    let raw = JsonValue::Array(vec![
        object(
            vec![("VMName", text("a")), ("IPAddresses", JsonValue::Array(
                vec![text("10.0.0.5"), JsonValue::Null],
            ))],
        ),
        object(vec![("VMName", text("b")), ("IPAddresses", text("10.0.0.6"))]),
    ]);
    let out = SetVmNetworkAdapterFailoverConfigurationTool::parse_output(raw);
    assert_eq!(out.configs[0].ip_addresses, vec!["10.0.0.5", ""]);
    assert_eq!(out.configs[1].ip_addresses, Vec::<String>::new());
    assert_eq!(out.configs[1].vm_name, "b");
}

#[test]
fn isolation_lists_read_arrays_or_single_values() {
    assert_eq!(
        ints_from(
            &JsonValue::Array(
                vec![number(5001), negative(-2), text("7"), number(4294967297)],
            ),
        ),
        vec![5001, -2, 1]
    );
    assert_eq!(ints_from(&number(77)), vec![77]);
    assert_eq!(
        ints_from(&fraction("2.5")),
        Vec::<i32>::new(),
    );
    assert_eq!(ints_from(&number(u64::MAX)), Vec::<i32>::new());
    assert_eq!(ints_from(&text("5")), Vec::<i32>::new());
    assert_eq!(strings_from(&JsonValue::Array(vec![text("blue"), number(3)])), vec!["blue", ""]);
    assert_eq!(strings_from(&text("red")), vec!["red"]);
    assert_eq!(strings_from(&JsonValue::Null), Vec::<String>::new());
    let raw = object(vec![
        ("RoutingDomainID", text("{1}")),
        ("RoutingDomainName", text("rd")),
        ("IsolationID", number(9)),
        ("IsolationName", JsonValue::Array(vec![text("n1"), text("n2")])),
    ]);
    let out = SetVmNetworkAdapterRoutingDomainMappingTool::parse_output(raw);
    let mapping = &out.mappings[0];
    assert_eq!(mapping.routing_domain_id, "{1}");
    assert_eq!(mapping.isolation_id, vec![9]);
    assert_eq!(mapping.isolation_name, vec!["n1", "n2"]);
}

fn group_record(name: &str) -> JsonValue {
    object(vec![
        ("Name", text(name)),
        ("Id", text("g-1")),
        ("GroupType", text("VMCollectionType")),
        ("VMMembers", JsonValue::Array(
            vec![object(vec![("Name", text("vm1")), ("Id", text("v-1"))])],
        )),
        ("VMGroupMembers", JsonValue::Null),
        ("ComputerName", text("hv1")),
    ])
}

#[test]
fn rename_group_reads_the_first_record() {
    let raw = JsonValue::Array(vec![group_record("first"), group_record("second")]);
    let group = parse_vm_group_rename_info(&raw).unwrap();
    assert_eq!(group.name, "first");
    assert_eq!(group.id, "g-1");
    assert_eq!(group.group_type, "VMCollectionType");
    assert_eq!(group.vm_members.len(), 1);
    assert_eq!(group.vm_members[0].name, "vm1");
    assert_eq!(group.vm_members[0].id, "v-1");
    assert_eq!(group.vm_group_members.len(), 0);
    assert_eq!(group.computer_name, "hv1");
    let out = RenameVmGroupTool::parse_output(group_record("alone")).unwrap();
    assert_eq!(out.group.name, "alone");
}

#[test]
fn rename_group_refuses_an_empty_array() {
    assert_eq!(
        parse_vm_group_rename_info(&JsonValue::Array(vec![])).unwrap_err(),
        ToolError::InvalidInput("Cmdlet returned an empty array".to_string())
    );
}

#[test]
fn rename_group_shows_any_other_output_in_its_message() {
    let cases = vec![
        (JsonValue::Null, "Unexpected cmdlet output: null"),
        (JsonValue::Bool(false), "Unexpected cmdlet output: false"),
        (number(12), "Unexpected cmdlet output: 12"),
        (negative(-7), "Unexpected cmdlet output: -7"),
        (fraction("0.5"), "Unexpected cmdlet output: 0.5"),
        (text("done"), "Unexpected cmdlet output: \"done\""),
        (text("say \"hi\"\\\n"), "Unexpected cmdlet output: \"say \\\"hi\\\"\\\\\\n\""),
        (text(
            "\u{1}\u{8}\t\u{c}\r\u{1f}",
        ), "Unexpected cmdlet output: \"\\u0001\\b\\t\\f\\r\\u001f\""),
    ];
    for (raw, msg) in cases {
        assert_eq!(
            RenameVmGroupTool::parse_output(raw).unwrap_err(),
            ToolError::InvalidInput(msg.to_string())
        );
    }
}

#[test]
fn member_lists_other_than_arrays_read_as_empty() {
    assert_eq!(parse_rename_member_array(&text("vm1")).len(), 0);
    assert_eq!(parse_rename_member_array(&object(vec![("Name", text("vm1"))])).len(), 0);
    let members = parse_rename_member_array(
        &JsonValue::Array(vec![object(vec![("Id", text("x"))]), number(3)]),
    );
    assert_eq!(members.len(), 2);
    assert_eq!(members[0].name, "");
    assert_eq!(members[0].id, "x");
    assert_eq!(members[1].id, "");
}

#[test]
fn printed_text_is_parsed_as_json() {
    assert!(matches!(read_printed("").unwrap(), JsonValue::Array(items) if items.is_empty()));
    assert!(matches!(read_printed(" \n").unwrap(), JsonValue::Array(items) if items.is_empty()));
    assert!(matches!(read_printed("null").unwrap(), JsonValue::Null));
    assert!(matches!(read_printed("true").unwrap(), JsonValue::Bool(true)));
    assert!(matches!(read_printed("\"a\\u0027b\"").unwrap(), JsonValue::String(s) if s == "a'b"));
    match read_printed("[7, -7, 1.5, 18446744073709551615]").unwrap() {
        JsonValue::Array(items) => {
            let readings: Vec<(Option<u64>, Option<i64>, String)> = items
                .into_iter()
                .map(|v| match v {
                    JsonValue::Number(n) => (n.unsigned, n.signed, n.text),
                    _ => panic!("not a number"),
                })
                .collect();
            assert_eq!(
                readings,
                vec![
                    (Some(7), Some(7), "7".to_string()),
                    (None, Some(-7), "-7".to_string()),
                    (None, None, "1.5".to_string()),
                    (Some(u64::MAX), None, "18446744073709551615".to_string()),
                ]
            );
        }
        _ => panic!("not an array"),
    }
    match read_printed("{\"b\":1,\"a\":{\"c\":[]}}").unwrap() {
        JsonValue::Object(members) => {
            let keys: Vec<&str> = members.iter().map(|(k, _)| k.as_str()).collect();
            assert!(keys.contains(&"a") && keys.contains(&"b") && keys.len() == 2);
        }
        _ => panic!("not an object"),
    }
}

#[test]
fn text_that_is_not_json_is_a_json_error() {
    assert!(matches!(read_printed("WARNING: no such VM"), Err(ToolError::Json(_))));
    assert!(matches!(read_printed("{\"Name\":"), Err(ToolError::Json(_))));
    assert!(matches!(SetVmComPortTool::read_output("oops"), Err(ToolError::Json(_))));
    assert!(matches!(RemoveVmTool::read_output("[1,"), Err(ToolError::Json(_))));
}

#[test]
fn read_output_decodes_the_printed_records() {
    let out = SetVmComPortTool::read_output("  ").unwrap();
    assert_eq!(out.com_ports.len(), 0);
    let out = SetVmComPortTool::read_output(
        "[{\"Name\":\"COM 1\",\"VMName\":\"web\",\"Number\":1,\"Path\":null},{\"Name\":\"COM 2\",\"Number\":2}]",
    )
    .unwrap();
    assert_eq!(out.com_ports.len(), 2);
    assert_eq!(out.com_ports[0].vm_name, "web");
    assert_eq!(out.com_ports[1].number, 2);
    let out = RemoveVmTool::read_output("{\"Name\":\"a\",\"Id\":\"1\",\"State\":\"Off\"}").unwrap();
    assert_eq!(out.removed[0].state, "Off");
    assert_eq!(
        RemoveVmTool::read_output("[{\"Name\":\"a\"}]").unwrap_err(),
        ToolError::InvalidInput("missing Id in sidecar output".to_string())
    );
    assert_eq!(
        RenameVmGroupTool::read_output("").unwrap_err(),
        ToolError::InvalidInput("Cmdlet returned an empty array".to_string())
    );
    assert_eq!(
        RenameVmGroupTool::read_output("2.50").unwrap_err(),
        ToolError::InvalidInput("Unexpected cmdlet output: 2.5".to_string())
    );
    assert_eq!(
        RenameVmGroupTool::read_output("\"x\"").unwrap_err(),
        ToolError::InvalidInput("Unexpected cmdlet output: \"x\"".to_string())
    );
    assert_eq!(SetVmNetworkAdapterVlanTool::read_output("[]").unwrap().adapters.len(), 0);
}

#[test]
fn team_mapping_removal_only_needs_json_output() {
    assert!(RemoveVmNetworkAdapterTeamMappingTool::read_output("").unwrap().success);
    assert!(RemoveVmNetworkAdapterTeamMappingTool::read_output("{\"Name\":\"x\"}").unwrap().success);
    assert!(matches!(
        RemoveVmNetworkAdapterTeamMappingTool::read_output("done"),
        Err(ToolError::Json(_))
    ));
}
