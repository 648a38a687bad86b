use nets_monitor::{ActionError, ActionHandler, ActionKind, HostCommand};

fn shell_line(command: HostCommand) -> String {
    match command {
        HostCommand::Shell { line } => line,
        HostCommand::Terminate { .. } => panic!("expected a shell command"),
    }
}

#[test]
fn test_action_handler() {
    // These are integration tests that require admin privileges
    // Just verify the API exists
    let _ = ActionHandler::list_blocked_connections();
}

#[test]
fn list_command_filters_block_rules() {
    assert_eq!(
        shell_line(ActionHandler::list_blocked_connections()),
        "netsh advfirewall firewall show rule name=all | findstr NETS_Block"
    );
}

#[test]
fn block_connection_builds_tcp_rule() {
    let line = shell_line(ActionHandler::block_connection("10.0.0.5", 51515, "10.0.0.8", 445, "tcp"));
    assert_eq!(
        line,
        "netsh advfirewall firewall add rule name=\"NETS_Block_10.0.0.5_51515_10.0.0.8_445\" dir=out protocol=TCP remoteip=10.0.0.8 remoteport=445 action=block"
    );
}

#[test]
fn block_connection_treats_other_protocols_as_udp() {
    let line = shell_line(ActionHandler::block_connection("10.0.0.5", 1, "10.0.0.8", 53, "icmp"));
    assert_eq!(
        line,
        "netsh advfirewall firewall add rule name=\"NETS_Block_10.0.0.5_1_10.0.0.8_53\" dir=out protocol=UDP remoteip=10.0.0.8 remoteport=53 action=block"
    );
}

#[test]
fn rule_names_are_deterministic() {
    assert_eq!(
        ActionHandler::rule_name("192.168.1.2", 0, "8.8.8.8", 65535),
        "NETS_Block_192.168.1.2_0_8.8.8.8_65535"
    );
    assert_eq!(ActionHandler::quarantine_rule(4242), "NETS_Quarantine_PID_4242");
    assert_eq!(ActionHandler::quarantine_rule(-7), "NETS_Quarantine_PID_-7");
    assert_eq!(
        ActionHandler::quarantine_rule(i32::MIN),
        "NETS_Quarantine_PID_-2147483648"
    );
}

#[test]
fn unblock_and_release_remove_the_named_rule() {
    assert_eq!(
        shell_line(ActionHandler::unblock_connection("NETS_Block_a_1_b_2")),
        "netsh advfirewall firewall delete rule name=\"NETS_Block_a_1_b_2\""
    );
    assert_eq!(
        shell_line(ActionHandler::release_quarantine(77)),
        "netsh advfirewall firewall delete rule name=\"NETS_Quarantine_PID_77\""
    );
}

#[test]
fn quarantine_blocks_all_outbound_traffic() {
    assert_eq!(
        shell_line(ActionHandler::quarantine_process(77)),
        "netsh advfirewall firewall add rule name=\"NETS_Quarantine_PID_77\" dir=out program=* action=block"
    );
}

#[test]
fn terminate_rejects_non_positive_pids() {
    match ActionHandler::terminate_process(0) {
        Err(ActionError::InvalidPid(0)) => {}
        other => panic!("unexpected {:?}", other),
    }
    match ActionHandler::terminate_process(-4) {
        Err(e) => assert_eq!(e.message(), "invalid PID: -4"),
        Ok(c) => panic!("unexpected {:?}", c),
    }
    match ActionHandler::terminate_process(1234) {
        Ok(HostCommand::Terminate { pid, exit_code }) => {
            assert_eq!(pid, 1234);
            assert_eq!(exit_code, 1);
        }
        other => panic!("unexpected {:?}", other),
    }
}

#[test]
fn blocked_rules_keeps_matching_lines() {
    let listing = "Rule Name: NETS_Block_a_1_b_2\r\nEnabled: Yes\r\nRule Name: NETS_Block_c_3_d_4\nRule Name: other\n";
    assert_eq!(
        ActionHandler::blocked_rules(listing),
        vec![
            "Rule Name: NETS_Block_a_1_b_2".to_string(),
            "Rule Name: NETS_Block_c_3_d_4".to_string()
        ]
    );
    assert!(ActionHandler::blocked_rules("").is_empty());
}

#[test]
fn command_outcome_surfaces_stderr() {
    assert!(ActionHandler::command_outcome(ActionKind::Block, true, "ignored").is_ok());
    match ActionHandler::command_outcome(ActionKind::Block, false, "access denied") {
        Err(e) => assert_eq!(e.message(), "failed to create firewall rule: access denied"),
        Ok(()) => panic!("expected a failure"),
    }
    match ActionHandler::command_outcome(ActionKind::Unblock, false, "no such rule") {
        Err(e) => assert_eq!(e.message(), "failed to remove firewall rule: no such rule"),
        Ok(()) => panic!("expected a failure"),
    }
    assert!(ActionHandler::command_outcome(ActionKind::Quarantine, true, "x").is_ok());
    match ActionHandler::command_outcome(ActionKind::Quarantine, false, "access denied") {
        Err(e) => assert_eq!(e.message(), "failed to create quarantine rule: access denied"),
        Ok(()) => panic!("expected a failure"),
    }
    match ActionHandler::command_outcome(ActionKind::Terminate(9), false, "") {
        Err(e) => assert_eq!(e.message(), "failed to terminate process PID 9"),
        Ok(()) => panic!("expected a failure"),
    }
}
