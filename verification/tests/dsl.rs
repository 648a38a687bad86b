use nets_monitor::dsl::{parse_expression, Condition, Field};
use nets_monitor::{
    apply_operator, evaluate_expression, Analyzer, DslError, Duration, FlowDirection,
    NormalizedFlow, Rule, Severity, Timestamp,
};

fn utc_now() -> Timestamp {
    let now = chrono::Utc::now();
    Timestamp::new(now.timestamp(), now.timestamp_subsec_nanos())
}

fn smb_flow() -> NormalizedFlow {
    let start = utc_now();
    NormalizedFlow {
        window_start: start,
        window_end: start.checked_add(Duration::seconds(60)).unwrap(),
        proto: "TCP".into(),
        src_ip: "10.0.0.1".into(),
        src_port: 1234,
        dst_ip: "10.0.0.2".into(),
        dst_port: 445,
        direction: FlowDirection::Lateral,
        bytes: 0,
        packets: 0,
        process: Some("notesync.exe".into()),
    }
}

fn rule(id: &str, expression: &str) -> Rule {
    Rule {
        id: id.into(),
        severity: Severity::High,
        summary: None,
        rationale: None,
        suggested_action: None,
        expression: expression.into(),
    }
}

#[test]
fn basic_rule_match() {
    let flow = NormalizedFlow {
        window_start: utc_now(),
        window_end: utc_now().checked_add(Duration::seconds(60)).unwrap(),
        proto: "TCP".into(),
        src_ip: "10.0.0.1".into(),
        src_port: 1234,
        dst_ip: "10.0.0.2".into(),
        dst_port: 445,
        direction: FlowDirection::Lateral,
        bytes: 0,
        packets: 0,
        process: Some("notesync.exe".into()),
    };
    let rule = Rule {
        id: "smb-lateral".into(),
        severity: Severity::High,
        summary: None,
        rationale: None,
        suggested_action: None,
        expression: "dst.port == 445".into(),
    };
    assert!(rule.matches(&flow));
}

#[test]
fn smb_lateral_rule_raises_one_alert() {
    let mut analyzer = Analyzer::new(Duration::hours(1), vec![rule("smb-lateral", "dst.port == 445")]);
    let now = Timestamp::new(1_700_000_000, 0);
    let alerts = analyzer.ingest_at(smb_flow(), now);
    assert_eq!(alerts.len(), 1);
    let alert = &alerts[0];
    assert_eq!(alert.id, "alert-smb-lateral-445");
    assert_eq!(alert.flow_refs, vec!["10.0.0.1:1234->10.0.0.2:445".to_string()]);
    assert_eq!(alert.rule_id, "smb-lateral");
    assert_eq!(alert.severity, Severity::High);
    assert_eq!(alert.summary, "Rule match");
    assert_eq!(alert.rationale, "Matched DSL condition");
    assert_eq!(alert.process_ref, Some("notesync.exe".to_string()));
    assert_eq!(alert.suggested_action, None);
    assert_eq!(alert.ts, now);
}

#[test]
fn rule_texts_override_the_defaults() {
    let custom = Rule {
        id: "r1".into(),
        severity: Severity::Low,
        summary: Some("SMB seen".into()),
        rationale: Some("port 445".into()),
        suggested_action: Some("look".into()),
        expression: "dst.ip == 10.0.0.2".into(),
    };
    let mut analyzer = Analyzer::new(Duration::minutes(5), vec![custom]);
    let alerts = analyzer.ingest(smb_flow());
    assert_eq!(alerts.len(), 1);
    assert_eq!(alerts[0].summary, "SMB seen");
    assert_eq!(alerts[0].rationale, "port 445");
    assert_eq!(alerts[0].suggested_action, Some("look".to_string()));
    assert_eq!(alerts[0].severity, Severity::Low);
}

#[test]
fn matching_is_repeatable() {
    let flow = smb_flow();
    let r = rule("r", "proc.name in [chrome.exe,notesync.exe]");
    let first = r.matches(&flow);
    let second = r.matches(&flow);
    assert!(first);
    assert_eq!(first, second);
    let other = rule("r", "proc.name in [chrome.exe,notesync.exe]");
    assert_eq!(other.matches(&flow), first);
}

#[test]
fn equality_and_inequality_compare_texts() {
    let flow = smb_flow();
    assert_eq!(evaluate_expression("src.ip == 10.0.0.1", &flow).unwrap(), true);
    assert_eq!(evaluate_expression("src.ip == 10.0.0.10", &flow).unwrap(), false);
    assert_eq!(evaluate_expression("src.ip != 10.0.0.1", &flow).unwrap(), false);
    assert_eq!(evaluate_expression("dst.ip != 10.0.0.1", &flow).unwrap(), true);
    assert_eq!(evaluate_expression("dst.port == 0445", &flow).unwrap(), false);
    assert_eq!(evaluate_expression("  dst.port\t==\n445  trailing words", &flow).unwrap(), true);
}

#[test]
fn quotes_around_the_value_are_dropped() {
    let flow = smb_flow();
    assert_eq!(evaluate_expression("proc.name == \"notesync.exe\"", &flow).unwrap(), true);
    assert_eq!(evaluate_expression("proc.name == \"\"notesync.exe\"", &flow).unwrap(), true);
    assert_eq!(evaluate_expression("proc.name == 'notesync.exe'", &flow).unwrap(), false);
}

#[test]
fn a_flow_without_process_has_the_empty_name() {
    let mut flow = smb_flow();
    flow.process = None;
    assert_eq!(evaluate_expression("proc.name == \"\"", &flow).unwrap(), true);
    assert_eq!(evaluate_expression("proc.name != notesync.exe", &flow).unwrap(), true);
}

#[test]
fn membership_takes_brackets_and_commas() {
    let flow = smb_flow();
    assert_eq!(evaluate_expression("dst.port in [80,443,445]", &flow).unwrap(), true);
    assert_eq!(evaluate_expression("dst.port in 80,445", &flow).unwrap(), true);
    assert_eq!(evaluate_expression("dst.port in [[445]]", &flow).unwrap(), true);
    assert_eq!(evaluate_expression("dst.port in [80,443]", &flow).unwrap(), false);
    assert_eq!(evaluate_expression("dst.port in [44,5]", &flow).unwrap(), false);
    assert!(apply_operator("b", "in", "[a, b , c]"));
    assert!(apply_operator("", "in", "[a,,c]"));
    assert!(!apply_operator("d", "in", "[a, b, c]"));
}

#[test]
fn unknown_operators_hold_of_nothing() {
    assert!(!apply_operator("a", "=", "a"));
    assert!(!apply_operator("a", "contains", "a"));
    assert!(apply_operator("a", "==", "a"));
    assert!(apply_operator("a", "!=", "A"));
    let flow = smb_flow();
    assert_eq!(evaluate_expression("dst.port >= 445", &flow).unwrap(), false);
}

#[test]
fn short_expressions_are_invalid() {
    let flow = smb_flow();
    assert!(matches!(evaluate_expression("", &flow), Err(DslError::InvalidExpression)));
    assert!(matches!(evaluate_expression("dst.port ==", &flow), Err(DslError::InvalidExpression)));
    assert!(matches!(
        evaluate_expression("regex(^10\\.)", &flow),
        Err(DslError::InvalidExpression)
    ));
    assert!(!rule("r", "dst.port ==").matches(&flow));
}

#[test]
fn unknown_fields_are_reported() {
    let flow = smb_flow();
    match evaluate_expression("src.port == 1234", &flow) {
        Err(DslError::UnsupportedField(field)) => assert_eq!(field, "src.port"),
        other => panic!("unexpected {:?}", other),
    }
    assert!(!rule("r", "src.port == 1234").matches(&flow));
}

#[test]
fn patterns_are_tried_on_both_addresses() {
    let flow = smb_flow();
    assert_eq!(evaluate_expression("regex(^10\\.0\\.0\\.2$) x y", &flow).unwrap(), true);
    assert_eq!(evaluate_expression("regex(^10\\.0\\.0\\.1$) x y", &flow).unwrap(), true);
    assert_eq!(evaluate_expression("regex(^192\\.) x y", &flow).unwrap(), false);
    assert_eq!(evaluate_expression("regex(0\\.0) == ignored", &flow).unwrap(), true);
    assert_eq!(evaluate_expression("regex(^TCP$) x y", &flow).unwrap(), false);
}

#[test]
fn patterns_that_do_not_compile_match_nothing() {
    let flow = smb_flow();
    match evaluate_expression("regex([) x y", &flow) {
        Err(DslError::InvalidPattern(pattern)) => assert_eq!(pattern, "["),
        other => panic!("unexpected {:?}", other),
    }
    assert!(!rule("r", "regex([) x y").matches(&flow));
}

#[test]
fn errors_have_messages() {
    assert_eq!(DslError::InvalidExpression.message(), "invalid expression");
    assert_eq!(DslError::UnsupportedField("src.port".into()).message(), "unsupported field: src.port");
    assert_eq!(DslError::InvalidPattern("[".into()).message(), "invalid pattern: [");
}

#[test]
fn parsing_gives_the_condition() {
    match parse_expression("dst.port in \"[80,443]\"").unwrap() {
        Condition::Compare { field, op, value } => {
            assert_eq!(field, Field::DstPort);
            assert_eq!(op, "in");
            assert_eq!(value, "[80,443]");
        }
        other => panic!("unexpected {:?}", other),
    }
    match parse_expression("regex(regex(a(b)c))) == x").unwrap() {
        Condition::Pattern { source } => assert_eq!(source, "a(b)c"),
        other => panic!("unexpected {:?}", other),
    }
    match parse_expression("proc.name == x").unwrap() {
        Condition::Compare { field, .. } => assert_eq!(field, Field::ProcName),
        other => panic!("unexpected {:?}", other),
    }
}

#[test]
fn every_matching_rule_alerts_in_order() {
    let rules = vec![
        rule("first", "dst.port == 445"),
        rule("never", "dst.port == 80"),
        rule("broken", "nonsense"),
        rule("second", "src.ip in [10.0.0.1]"),
    ];
    let mut analyzer = Analyzer::new(Duration::seconds(0), rules);
    let alerts = analyzer.ingest(smb_flow());
    let ids: Vec<String> = alerts.iter().map(|a| a.id.clone()).collect();
    assert_eq!(ids, vec!["alert-first-445".to_string(), "alert-second-445".to_string()]);
}
