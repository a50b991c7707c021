use wifi_provisioner::channel::{Delivery, StatusChannel, Subscription, STATUS_BACKLOG};
use wifi_provisioner::coordinator::{Action, Coordinator, Credentials};
use wifi_provisioner::status::WiFiStatus;

fn creds(id: &str, secret: &str) -> Credentials {
    Credentials::new(id.to_string(), secret.to_string())
}

fn drain(c: &Coordinator, sub: &mut Subscription) -> Vec<String> {
    let mut out = Vec::new();
    loop {
        match c.channel().recv(sub) {
            Delivery::Message(m) => out.push(m),
            Delivery::Lagged(n) => out.push(format!("LAGGED {}", n)),
            Delivery::Empty => return out,
        }
    }
}

/// Runs the actions a coordinator asks for against fixed outside results.
fn drive(
    c: &mut Coordinator,
    mut action: Action,
    write: Result<(), String>,
    reload: Result<(), String>,
    found: Result<Option<String>, String>,
) {
    loop {
        action = match action {
            Action::WriteConfig(_) => c.config_written(write.clone()),
            Action::Reload => c.config_reloaded(reload.clone()),
            Action::Settle => c.settled(),
            Action::Verify => c.verified(found.clone()),
            Action::Done => return,
        };
    }
}

fn parse(payload: &[u8]) -> Result<Credentials, String> {
    match serde_json::from_slice::<serde_json::Value>(payload) {
        Ok(v) => match (
            v.get("network_identifier").and_then(|x| x.as_str()),
            v.get("secret").and_then(|x| x.as_str()),
        ) {
            (Some(id), Some(secret)) => Ok(creds(id, secret)),
            _ => Err("missing field".to_string()),
        },
        Err(e) => Err(e.to_string()),
    }
}

#[test]
fn status_wire_texts() {
    assert_eq!(WiFiStatus::Ready.to_string(), "READY");
    assert_eq!(WiFiStatus::Connecting.to_string(), "CONNECTING");
    assert_eq!(WiFiStatus::Connected.to_string(), "CONNECTED");
    assert_eq!(WiFiStatus::Failed.to_string(), "FAILED");
    assert_eq!(WiFiStatus::Error("boom".to_string()).to_string(), "ERROR: boom");
    assert_eq!(WiFiStatus::Error(String::new()).to_string(), "ERROR: ");
}

#[test]
fn new_coordinator_is_ready() {
    let c = Coordinator::new();
    assert_eq!(c.current_status().to_string(), "READY");
    let mut sub = c.subscribe_status();
    assert_eq!(drain(&c, &mut sub), vec!["READY".to_string()]);
}

#[test]
fn matching_network_connects() {
    let mut c = Coordinator::new();
    let mut sub = c.channel().subscribe();
    let payload = br#"{"network_identifier":"HomeNet","secret":"s3cr3t"}"#;
    let a = c.handle_write(parse(payload));
    match &a {
        Action::WriteConfig(cr) => {
            assert_eq!(cr.network_identifier, "HomeNet");
            assert_eq!(cr.secret, "s3cr3t");
        }
        _ => panic!("expected the configuration to be written"),
    }
    drive(&mut c, a, Ok(()), Ok(()), Ok(Some("HomeNet".to_string())));
    assert_eq!(drain(&c, &mut sub), vec!["CONNECTING", "CONNECTED"]);
    assert_eq!(c.current_status().to_string(), "CONNECTED");
}

#[test]
fn other_network_fails() {
    let mut c = Coordinator::new();
    let mut sub = c.channel().subscribe();
    let payload = br#"{"network_identifier":"HomeNet","secret":"s3cr3t"}"#;
    let a = c.handle_write(parse(payload));
    drive(&mut c, a, Ok(()), Ok(()), Ok(Some("OtherNet".to_string())));
    assert_eq!(drain(&c, &mut sub), vec!["CONNECTING", "FAILED"]);
}

#[test]
fn no_network_attached_fails() {
    let mut c = Coordinator::new();
    let mut sub = c.channel().subscribe();
    let a = c.handle_write(Ok(creds("HomeNet", "pw")));
    drive(&mut c, a, Ok(()), Ok(()), Ok(None));
    assert_eq!(drain(&c, &mut sub), vec!["CONNECTING", "FAILED"]);
}

#[test]
fn malformed_payload_reports_error_only() {
    let mut c = Coordinator::new();
    let mut sub = c.channel().subscribe();
    let parsed = parse(b"not json");
    let msg = parsed.as_ref().err().cloned().unwrap();
    let a = c.handle_write(parsed);
    assert!(matches!(a, Action::Done));
    let seen = drain(&c, &mut sub);
    assert_eq!(seen, vec![format!("ERROR: {}", msg)]);
    assert!(!seen.iter().any(|s| s == "CONNECTING"));
    assert_eq!(c.current_status().to_string(), format!("ERROR: {}", msg));
}

#[test]
fn config_write_fault_reports_error() {
    let mut c = Coordinator::new();
    let mut sub = c.channel().subscribe();
    let a = c.handle_write(Ok(creds("HomeNet", "s3cr3t")));
    drive(
        &mut c,
        a,
        Err("Permission denied (os error 13)".to_string()),
        Ok(()),
        Ok(Some("HomeNet".to_string())),
    );
    assert_eq!(
        drain(&c, &mut sub),
        vec!["CONNECTING", "ERROR: Permission denied (os error 13)"]
    );
}

#[test]
fn reload_fault_reports_error() {
    let mut c = Coordinator::new();
    let mut sub = c.channel().subscribe();
    let a = c.handle_write(Ok(creds("HomeNet", "s3cr3t")));
    drive(&mut c, a, Ok(()), Err("no such command".to_string()), Ok(None));
    assert_eq!(drain(&c, &mut sub), vec!["CONNECTING", "ERROR: no such command"]);
}

#[test]
fn verification_fault_reports_error() {
    let mut c = Coordinator::new();
    let mut sub = c.channel().subscribe();
    let a = c.handle_write(Ok(creds("HomeNet", "s3cr3t")));
    drive(&mut c, a, Ok(()), Ok(()), Err("query failed".to_string()));
    assert_eq!(drain(&c, &mut sub), vec!["CONNECTING", "ERROR: query failed"]);
}

#[test]
fn steps_follow_the_attempt_sequence() {
    let mut c = Coordinator::new();
    let a = c.handle_write(Ok(creds("Net", "pw")));
    assert!(matches!(a, Action::WriteConfig(_)));
    assert_eq!(c.current_status().to_string(), "CONNECTING");
    assert!(matches!(c.config_written(Ok(())), Action::Reload));
    assert!(matches!(c.config_reloaded(Ok(())), Action::Settle));
    assert!(matches!(c.settled(), Action::Verify));
    assert!(matches!(c.verified(Ok(Some("Net".to_string()))), Action::Done));
    assert_eq!(c.current_status().to_string(), "CONNECTED");
}

#[test]
fn out_of_order_reports_are_ignored() {
    let mut c = Coordinator::new();
    let mut sub = c.channel().subscribe();
    assert!(matches!(c.settled(), Action::Done));
    assert!(matches!(c.verified(Ok(Some("Net".to_string()))), Action::Done));
    let a = c.handle_write(Ok(creds("Net", "pw")));
    assert!(matches!(a, Action::WriteConfig(_)));
    assert!(matches!(c.config_reloaded(Ok(())), Action::Done));
    assert!(matches!(c.verified(Ok(None)), Action::Done));
    assert_eq!(drain(&c, &mut sub), vec!["CONNECTING"]);
    assert_eq!(c.current_status().to_string(), "CONNECTING");
}

#[test]
fn two_subscribers_see_the_same_sequence() {
    let mut c = Coordinator::new();
    let mut a_sub = c.channel().subscribe();
    let mut b_sub = c.channel().subscribe();
    let a = c.handle_write(Ok(creds("HomeNet", "s3cr3t")));
    drive(&mut c, a, Ok(()), Ok(()), Ok(Some("HomeNet".to_string())));
    let seen_a = drain(&c, &mut a_sub);
    let seen_b = drain(&c, &mut b_sub);
    assert_eq!(seen_a, vec!["CONNECTING", "CONNECTED"]);
    assert_eq!(seen_a, seen_b);
}

#[test]
fn late_subscriber_gets_current_status_then_new_attempts() {
    let mut c = Coordinator::new();
    let a = c.handle_write(Ok(creds("HomeNet", "s3cr3t")));
    drive(&mut c, a, Ok(()), Ok(()), Ok(Some("OtherNet".to_string())));
    let mut late = c.subscribe_status();
    let a = c.handle_write(Ok(creds("HomeNet", "s3cr3t")));
    drive(&mut c, a, Ok(()), Ok(()), Ok(Some("HomeNet".to_string())));
    assert_eq!(drain(&c, &mut late), vec!["FAILED", "CONNECTING", "CONNECTED"]);
}

#[test]
fn write_during_attempt_waits_for_it() {
    let mut c = Coordinator::new();
    let mut sub = c.channel().subscribe();
    let first = c.handle_write(Ok(creds("A", "pa")));
    assert!(matches!(first, Action::WriteConfig(_)));
    let second = c.handle_write(Ok(creds("B", "pb")));
    assert!(matches!(second, Action::Done));
    let bad = c.handle_write(Err("expected value".to_string()));
    assert!(matches!(bad, Action::Done));
    assert_eq!(c.current_status().to_string(), "CONNECTING");
    assert!(matches!(c.config_written(Ok(())), Action::Reload));
    assert!(matches!(c.config_reloaded(Ok(())), Action::Settle));
    assert!(matches!(c.settled(), Action::Verify));
    let next = c.verified(Ok(Some("A".to_string())));
    match &next {
        Action::WriteConfig(cr) => assert_eq!(cr.network_identifier, "B"),
        _ => panic!("expected the queued write to start"),
    }
    drive(&mut c, next, Ok(()), Ok(()), Ok(Some("X".to_string())));
    assert_eq!(
        drain(&c, &mut sub),
        vec!["CONNECTING", "CONNECTED", "CONNECTING", "FAILED", "ERROR: expected value"]
    );
}

#[test]
fn retry_after_failure_reenters_connecting() {
    let mut c = Coordinator::new();
    let mut sub = c.channel().subscribe();
    let a = c.handle_write(Err("bad".to_string()));
    drive(&mut c, a, Ok(()), Ok(()), Ok(None));
    let a = c.handle_write(Ok(creds("N", "p")));
    drive(&mut c, a, Ok(()), Ok(()), Ok(Some("N".to_string())));
    assert_eq!(drain(&c, &mut sub), vec!["ERROR: bad", "CONNECTING", "CONNECTED"]);
}

#[test]
fn has_room_on_fresh_coordinator() {
    let c = Coordinator::new();
    assert!(c.has_room());
}

#[test]
fn channel_with_no_subscribers_accepts_publish() {
    let mut ch = StatusChannel::new();
    ch.publish("READY".to_string());
    let mut sub = ch.subscribe();
    assert!(matches!(ch.recv(&mut sub), Delivery::Empty));
}

#[test]
fn slow_reader_is_told_it_lagged() {
    let mut ch = StatusChannel::new();
    let mut slow = ch.subscribe();
    let mut fast = ch.subscribe();
    let mut fast_seen = Vec::new();
    for i in 0..(STATUS_BACKLOG + 4) {
        ch.publish(format!("M{}", i));
        match ch.recv(&mut fast) {
            Delivery::Message(m) => fast_seen.push(m),
            _ => panic!("fast reader must get every message"),
        }
    }
    assert_eq!(fast_seen.len(), STATUS_BACKLOG + 4);
    match ch.recv(&mut slow) {
        Delivery::Lagged(n) => assert_eq!(n, 4),
        _ => panic!("slow reader must be told it lagged"),
    }
    match ch.recv(&mut slow) {
        Delivery::Message(m) => assert_eq!(m, "M4"),
        _ => panic!("slow reader resumes at the oldest retained message"),
    }
    let mut rest = 0;
    while let Delivery::Message(_) = ch.recv(&mut slow) {
        rest += 1;
    }
    assert_eq!(rest, STATUS_BACKLOG - 1);
}

#[test]
fn backlog_holds_exactly_its_depth() {
    let mut ch = StatusChannel::new();
    let mut sub = ch.subscribe();
    for i in 0..STATUS_BACKLOG {
        ch.publish(format!("M{}", i));
    }
    match ch.recv(&mut sub) {
        Delivery::Message(m) => assert_eq!(m, "M0"),
        _ => panic!("no message may be skipped at exactly the backlog depth"),
    }
}
