//! Text handling and the way arguments are written on a command line.
use hyperv_tools::command::ArgList;
use hyperv_tools::text::{
    escape_ps_string, lower_equals, lower_is, option_is_blank, option_is_provided, push_decimal,
    push_signed_decimal, text_is_blank, trimmed,
};
use hyperv_tools::tools::remove_vm_network_adapter_acl::push_string_array_arg;

#[test]
fn escaping_doubles_single_quotes() {
    assert_eq!(escape_ps_string("plain"), "plain");
    assert_eq!(escape_ps_string("it's"), "it''s");
    assert_eq!(escape_ps_string("''"), "''''");
    assert_eq!(escape_ps_string(""), "");
    assert_eq!(escape_ps_string("a\"b`$c"), "a\"b`$c");
}

#[test]
fn an_escaped_value_reads_back_inside_its_quotes() {
    for value in ["x'; Remove-Item C:\\ -Recurse; '", "'", "a''b", "ünï'cödé"] {
        let escaped = escape_ps_string(value);
        assert_eq!(escaped.replace("''", "'"), value);
        let mut args = ArgList::new("Get-VM");
        args.push_quoted("-Name", value);
        let line = args.to_command();
        let literal = line.strip_prefix("Get-VM -Name ").unwrap();
        assert!(literal.starts_with('\'') && literal.ends_with('\''));
        let inside = &literal[1..literal.len() - 1];
        assert!(!inside.replace("''", "").contains('\''));
        assert_eq!(inside.replace("''", "'"), value);
    }
}

#[test]
fn blank_means_white_space_only() {
    assert!(text_is_blank(""));
    assert!(text_is_blank(" \t\r\n"));
    assert!(text_is_blank("\u{a0}\u{2003}\u{3000}\u{85}"));
    assert!(!text_is_blank(" a "));
    assert!(!text_is_blank("\u{200b}"));
    assert!(option_is_blank(&Some("  ".to_string())));
    assert!(!option_is_blank(&None));
    assert!(!option_is_blank(&Some("x".to_string())));
    assert!(option_is_provided(&Some(" x".to_string())));
    assert!(!option_is_provided(&Some(" ".to_string())));
    assert!(!option_is_provided(&None));
}

#[test]
fn blank_exactly_when_trimming_leaves_nothing() {
    for s in ["", " ", "\t\n", " a", "a ", "\u{3000}b\u{3000}", "\u{2028}", "x"] {
        assert_eq!(text_is_blank(s), trimmed(s).is_empty());
        assert_eq!(trimmed(s), s.trim());
    }
}

#[test]
fn trimming_drops_white_space_at_both_ends() {
    assert_eq!(trimmed("  SCSI \t"), "SCSI");
    assert_eq!(trimmed("\u{a0}In bound\u{2009}"), "In bound");
    assert_eq!(trimmed(""), "");
    assert_eq!(trimmed("   "), "");
    assert_eq!(trimmed("a"), "a");
}

#[test]
fn case_folding_touches_ascii_letters_only() {
    assert!(lower_equals("ScSi", "SCSI"));
    assert!(lower_equals("ide", "IDE"));
    assert!(!lower_equals("IDE ", "IDE"));
    assert!(!lower_equals("ÄB", "äb"));
    assert!(lower_is("OutBound", "outbound"));
    assert!(!lower_is("outbound", "OUTBOUND"));
    assert!(!lower_is("both", "bot"));
}

#[test]
fn numbers_are_written_in_decimal() {
    let mut s = String::new();
    push_decimal(&mut s, 0);
    assert_eq!(s, "0");
    let mut s = String::from("n=");
    push_decimal(&mut s, u64::MAX);
    assert_eq!(s, "n=18446744073709551615");
    for n in [0i64, 7, -1, 10, -4096, i64::MAX, i64::MIN] {
        let mut s = String::new();
        push_signed_decimal(&mut s, n);
        assert_eq!(s, n.to_string());
        assert_eq!(s.parse::<i64>().unwrap(), n);
    }
    for n in [1u64, 9, 10, 99, 100, 1234567890123] {
        let mut s = String::new();
        push_decimal(&mut s, n);
        assert_eq!(s.parse::<u64>().unwrap(), n);
        assert!(!s.starts_with('0'));
    }
}

#[test]
fn arguments_are_joined_with_single_spaces() {
    let mut args = ArgList::new("Set-VM");
    args.push_quoted("-Name", "web 01");
    args.push_opt_quoted("-ComputerName", &None);
    args.push_opt_quoted("-Notes", &Some("it's".to_string()));
    args.push_opt_u64("-MemoryStartupBytes", Some(1073741824));
    args.push_opt_i32("-AutomaticStartDelay", Some(-5));
    args.push_opt_bool("-AutomaticCheckpointsEnabled", Some(false));
    args.push_opt_colon_bool("-DynamicMemory", Some(true));
    args.push_switch("-Force", false);
    args.push_switch("-PassThru", true);
    args.extend(vec![]);
    args.extend(vec!["-WhatIf".to_string(), "-Confirm:$false".to_string()]);
    assert_eq!(
        args.to_command_with(" | ConvertTo-Json"),
        "Set-VM -Name 'web 01' -Notes 'it''s' -MemoryStartupBytes 1073741824 -AutomaticStartDelay -5 -AutomaticCheckpointsEnabled $false -DynamicMemory:$true -PassThru -WhatIf -Confirm:$false | ConvertTo-Json"
    );
}

#[test]
fn lists_are_written_quoted_and_comma_separated() {
    let names = vec!["a".to_string(), "b'c".to_string()];
    let mut args = ArgList::new("X");
    args.push_quoted_list("-VM", &names);
    args.push_quoted_array("-StartupOrder", &names);
    args.push_quoted_array("-Empty", &[]);
    args.push_number_list("-IsolationID", &vec![5001, -2, 0]);
    args.push_opt_list("-Missing", &None);
    args.push_target(true, &Some("ignored".to_string()));
    args.push_target(false, &Some("vm".to_string()));
    args.push_target(false, &None);
    assert_eq!(
        args.to_command(),
        "X -VM 'a','b''c' -StartupOrder @('a','b''c') -Empty @() -IsolationID 5001,-2,0 -ManagementOS -VMName 'vm'"
    );
}

#[test]
fn trimmed_values_are_quoted_only_when_not_blank() {
    let mut args = ArgList::new("X");
    args.push_opt_trimmed_quoted("-InstancePath", &Some("  PCI\\VEN  ".to_string()));
    args.push_opt_trimmed_quoted("-LocationPath", &Some("   ".to_string()));
    args.push_opt_trimmed_quoted("-Other", &None);
    assert_eq!(args.to_command(), "X -InstancePath 'PCI\\VEN'");
}

#[test]
fn string_array_arguments_take_a_dash_before_the_flag() {
    let mut args = vec!["Remove-VMNetworkAdapterAcl".to_string()];
    push_string_array_arg(
        &mut args,
        "LocalIPAddress",
        &["10.0.0.1".to_string(), "fe80::1".to_string()],
    );
    push_string_array_arg(&mut args, "RemoteMacAddress", &["00-15-5D-'1".to_string()]);
    assert_eq!(
        args,
        vec![
            "Remove-VMNetworkAdapterAcl",
            "-LocalIPAddress '10.0.0.1','fe80::1'",
            "-RemoteMacAddress '00-15-5D-''1'",
        ]
    );
}
