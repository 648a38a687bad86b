use nets_monitor::{
    recommend_quarantine, validate_decision, Alert, FlowEvent, NoopBackend, PolicyBackend,
    PolicyError, ProcessIdentity, QuarantineDecision, Severity, Timestamp,
};

fn alert(severity: Severity) -> Alert {
    Alert {
        id: "alert-smb-lateral-445".into(),
        ts: Timestamp::new(1_700_000_000, 0),
        severity,
        rule_id: "smb-lateral".into(),
        summary: "Rule match".into(),
        flow_refs: vec!["10.0.0.1:1234->10.0.0.2:445".into()],
        process_ref: None,
        rationale: "Matched DSL condition".into(),
        suggested_action: None,
    }
}

fn flow() -> FlowEvent {
    FlowEvent {
        proto: "TCP".into(),
        src_ip: "10.0.0.1".into(),
        src_port: 1234,
        dst_ip: "10.0.0.2".into(),
        dst_port: 445,
        process: Some(ProcessIdentity {
            pid: 10,
            ppid: None,
            name: Some("notesync.exe".into()),
            exe_path: None,
            sha256_16: None,
            user: None,
            signed: None,
        }),
        ..FlowEvent::default()
    }
}

#[test]
fn high_severity_alerts_call_for_quarantine() {
    let decision = recommend_quarantine(&alert(Severity::High), &flow()).unwrap();
    assert_eq!(decision.process, Some("notesync.exe".to_string()));
    assert_eq!(decision.ports, vec![445]);
    assert_eq!(decision.expires_in_seconds, 600);
    assert!(validate_decision(&decision).is_ok());
    assert!(recommend_quarantine(&alert(Severity::Low), &flow()).is_none());
    assert!(recommend_quarantine(&alert(Severity::Medium), &flow()).is_none());
}

#[test]
fn quarantine_without_process() {
    let mut f = flow();
    f.process = None;
    let decision = recommend_quarantine(&alert(Severity::High), &f).unwrap();
    assert_eq!(decision.process, None);
    assert_eq!(decision.ports, vec![445]);
}

#[test]
fn decisions_need_a_port() {
    let empty = QuarantineDecision { process: Some("pid:1".into()), ports: vec![], expires_in_seconds: 600 };
    match validate_decision(&empty) {
        Err(PolicyError::NoPorts) => {}
        other => panic!("unexpected {:?}", other),
    }
    assert_eq!(
        validate_decision(&empty).unwrap_err().message(),
        "quarantine must target at least one port"
    );
    let one = QuarantineDecision { process: None, ports: vec![0], expires_in_seconds: 0 };
    assert!(validate_decision(&one).is_ok());
    assert_eq!(PolicyError::Backend("stderr text".into()).message(), "stderr text");
}

#[test]
fn the_noop_backend_never_fails() {
    let backend = NoopBackend::default();
    let decision = QuarantineDecision { process: None, ports: vec![445], expires_in_seconds: 600 };
    assert!(backend.apply(&decision).is_ok());
    assert!(backend.rollback(&decision).is_ok());
}
