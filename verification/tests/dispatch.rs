use clog::ResolveError;
use clog::forward_notifications::ChannelInfo;
use clog::forward_notifications::EventPlan;
use clog::forward_notifications::ForwardEvent;
use clog::forward_notifications::format_failure_line;
use clog::forward_notifications::format_success_line;
use clog::forward_notifications::parse_channel_info;
use clog::forward_notifications::plan_forward_event;
use clog::node_names::ChannelRecord;
use clog::node_names::NodeNames;
use clog::node_names::NodeRecord;
use clog::node_names::ResolveStep;
use clog::pubkey::PublicKey;

fn key(tag: u8) -> PublicKey {
    PublicKey::from_bytes(vec![tag; 33]).unwrap()
}

fn event(status: &str) -> ForwardEvent {
    ForwardEvent {
        status: Some(status.to_string()),
        in_channel: Some("700000x1x0".to_string()),
        out_channel: Some("700001x2x0".to_string()),
        in_msat: Some(100100),
        fee_msat: Some(100),
        failreason: Some("WIRE_TEMPORARY_CHANNEL_FAILURE".to_string()),
    }
}

#[test]
fn missing_event_object_is_a_parse_error() {
    match plan_forward_event(&None, true, true) {
        Err(ResolveError::Parse) => {}
        _ => panic!("expected a parse failure"),
    }
}

#[test]
fn missing_status_is_a_parse_error() {
    let mut e = event("settled");
    e.status = None;
    match plan_forward_event(&Some(e), true, true) {
        Err(ResolveError::Parse) => {}
        _ => panic!("expected a parse failure"),
    }
}

#[test]
fn other_statuses_are_skipped_whatever_the_flags() {
    for status in ["offered", "failed", "in_flight", ""] {
        for flags in [(true, true), (true, false), (false, true), (false, false)] {
            match plan_forward_event(&Some(event(status)), flags.0, flags.1) {
                Ok(EventPlan::Skip) => {}
                _ => panic!("expected a skip for status {:?}", status),
            }
        }
    }
}

#[test]
fn disabled_success_flag_skips_settled_forwards() {
    match plan_forward_event(&Some(event("settled")), false, true) {
        Ok(EventPlan::Skip) => {}
        _ => panic!("expected a skip"),
    }
}

#[test]
fn disabled_failure_flag_skips_local_failures() {
    match plan_forward_event(&Some(event("local_failed")), true, false) {
        Ok(EventPlan::Skip) => {}
        _ => panic!("expected a skip"),
    }
}

#[test]
fn settled_forward_plans_a_success_line() {
    match plan_forward_event(&Some(event("settled")), true, true) {
        Ok(EventPlan::LogSuccess { in_channel, out_channel, in_msat, fee_msat }) => {
            assert_eq!(in_channel, "700000x1x0");
            assert_eq!(out_channel, "700001x2x0");
            assert_eq!(in_msat, 100100);
            assert_eq!(fee_msat, 100);
        }
        _ => panic!("expected a success plan"),
    }
}

#[test]
fn local_failure_plans_a_failure_line() {
    match plan_forward_event(&Some(event("local_failed")), true, true) {
        Ok(EventPlan::LogFailure { in_channel, out_channel, in_msat, failreason }) => {
            assert_eq!(in_channel, "700000x1x0");
            assert_eq!(out_channel, "700001x2x0");
            assert_eq!(in_msat, 100100);
            assert_eq!(failreason, "WIRE_TEMPORARY_CHANNEL_FAILURE");
        }
        _ => panic!("expected a failure plan"),
    }
}

#[test]
fn settled_forward_with_missing_fee_is_a_parse_error() {
    let mut e = event("settled");
    e.fee_msat = None;
    match plan_forward_event(&Some(e), true, true) {
        Err(ResolveError::Parse) => {}
        _ => panic!("expected a parse failure"),
    }
}

#[test]
fn local_failure_with_missing_reason_is_a_parse_error() {
    let mut e = event("local_failed");
    e.failreason = None;
    match plan_forward_event(&Some(e), true, true) {
        Err(ResolveError::Parse) => {}
        _ => panic!("expected a parse failure"),
    }
}

#[test]
fn channel_info_passes_aliases_and_errors_through() {
    let info = parse_channel_info("700000x1x0", Ok("Alice".to_string())).unwrap();
    assert_eq!(info.short_id, "700000x1x0");
    assert_eq!(info.peer_alias, "Alice");
    match parse_channel_info("700000x1x0", Err(ResolveError::NotFound)) {
        Err(ResolveError::NotFound) => {}
        _ => panic!("expected the error to pass through"),
    }
}

#[test]
fn success_line_has_the_exact_text() {
    let inbound = ChannelInfo {
        short_id: "700000x1x0".to_string(),
        peer_alias: "Alice".to_string(),
    };
    let outbound = ChannelInfo {
        short_id: "700001x2x0".to_string(),
        peer_alias: "Bob".to_string(),
    };
    let line = format_success_line(100100, 100, &inbound, &outbound);
    assert_eq!(
        line,
        "Forwarded 100100msat (100msat fee) from 700000x1x0 (Alice) to 700001x2x0 (Bob)"
    );
}

#[test]
fn failure_line_has_the_exact_text() {
    let inbound = ChannelInfo {
        short_id: "700000x1x0".to_string(),
        peer_alias: "Alice".to_string(),
    };
    let outbound = ChannelInfo {
        short_id: "700001x2x0".to_string(),
        peer_alias: "Bob".to_string(),
    };
    let line = format_failure_line(100100, &inbound, &outbound, "WIRE_TEMPORARY_CHANNEL_FAILURE");
    assert_eq!(
        line,
        "Forward for 100100msat from 700000x1x0 (Alice) to 700001x2x0 (Bob) \
         failed because: WIRE_TEMPORARY_CHANNEL_FAILURE"
    );
}

/// Drives one alias resolution against scripted gateway listings,
/// counting the lookups the resolver asks for.
fn resolve_with_gateway(
    names: &mut NodeNames,
    channel_id: &str,
    channels: Vec<ChannelRecord>,
    nodes: Vec<NodeRecord>,
    lookups: &mut usize,
) -> Result<String, ResolveError> {
    let step = names.resolve_start(channel_id)?;
    let step = match step {
        ResolveStep::NeedChannels(sc) => {
            *lookups += 1;
            names.resolve_channels_result(&sc, &channels)?
        }
        other => other,
    };
    match step {
        ResolveStep::Done(name) => Ok(name),
        ResolveStep::NeedNodes(pk) => {
            *lookups += 1;
            names.resolve_nodes_result(&pk, &nodes)
        }
        ResolveStep::NeedChannels(_) => unreachable!(),
    }
}

#[test]
fn settled_event_end_to_end() {
    let own = key(2);
    let alice = key(3);
    let bob = key(5);
    let mut names = NodeNames::new(own.duplicate());

    let plan = plan_forward_event(&Some(event("settled")), true, true);
    let (in_channel, out_channel, in_msat, fee_msat) = match plan {
        Ok(EventPlan::LogSuccess { in_channel, out_channel, in_msat, fee_msat }) => {
            (in_channel, out_channel, in_msat, fee_msat)
        }
        _ => panic!("expected a success plan"),
    };

    let mut lookups: usize = 0;
    let in_alias = resolve_with_gateway(
        &mut names,
        &in_channel,
        vec![ChannelRecord { source: alice.duplicate(), destination: own.duplicate() }],
        vec![NodeRecord { alias: Some("Alice".to_string()) }],
        &mut lookups,
    );
    let out_alias = resolve_with_gateway(
        &mut names,
        &out_channel,
        vec![ChannelRecord { source: own.duplicate(), destination: bob.duplicate() }],
        vec![NodeRecord { alias: None }],
        &mut lookups,
    );
    assert_eq!(lookups, 4);

    let inbound = parse_channel_info(&in_channel, in_alias).unwrap();
    let outbound = parse_channel_info(&out_channel, out_alias).unwrap();
    let line = format_success_line(in_msat, fee_msat, &inbound, &outbound);

    assert!(line.contains("100100msat"));
    assert!(line.contains("100msat"));
    assert!(line.contains("700000x1x0"));
    assert!(line.contains("Alice"));
    assert!(line.contains("700001x2x0"));
    assert!(line.contains(&bob.to_hex()));
    let expected = format!(
        "Forwarded 100100msat (100msat fee) from 700000x1x0 (Alice) to 700001x2x0 ({})",
        bob.to_hex()
    );
    assert_eq!(line, expected);
}

#[test]
fn local_failure_end_to_end() {
    let own = key(2);
    let alice = key(3);
    let bob = key(5);
    let mut names = NodeNames::new(own.duplicate());

    let plan = plan_forward_event(&Some(event("local_failed")), true, true);
    let (in_channel, out_channel, in_msat, failreason) = match plan {
        Ok(EventPlan::LogFailure { in_channel, out_channel, in_msat, failreason }) => {
            (in_channel, out_channel, in_msat, failreason)
        }
        _ => panic!("expected a failure plan"),
    };

    let mut lookups: usize = 0;
    let in_alias = resolve_with_gateway(
        &mut names,
        &in_channel,
        vec![ChannelRecord { source: alice.duplicate(), destination: own.duplicate() }],
        vec![NodeRecord { alias: Some("Alice".to_string()) }],
        &mut lookups,
    );
    let out_alias = resolve_with_gateway(
        &mut names,
        &out_channel,
        vec![ChannelRecord { source: own.duplicate(), destination: bob.duplicate() }],
        vec![NodeRecord { alias: Some("Bob".to_string()) }],
        &mut lookups,
    );

    let inbound = parse_channel_info(&in_channel, in_alias).unwrap();
    let outbound = parse_channel_info(&out_channel, out_alias).unwrap();
    let line = format_failure_line(in_msat, &inbound, &outbound, &failreason);

    assert!(line.contains("WIRE_TEMPORARY_CHANNEL_FAILURE"));
    assert!(line.contains("Alice"));
    assert!(line.contains("Bob"));
    assert_eq!(
        line,
        "Forward for 100100msat from 700000x1x0 (Alice) to 700001x2x0 (Bob) \
         failed because: WIRE_TEMPORARY_CHANNEL_FAILURE"
    );
}

#[test]
fn unresolved_endpoint_abandons_the_log_action() {
    let own = key(2);
    let mut names = NodeNames::new(own.duplicate());

    let mut lookups: usize = 0;
    // gateway knows nothing about the inbound channel
    let in_alias = resolve_with_gateway(&mut names, "700000x1x0", vec![], vec![], &mut lookups);
    match parse_channel_info("700000x1x0", in_alias) {
        Err(ResolveError::NotFound) => {}
        _ => panic!("expected the resolution failure to surface"),
    }
}
