//! The forward-event dispatcher: classifies a notification payload by its
//! outcome status and the configuration flags, and formats the one log
//! line for an enabled, fully resolved event.
//!
//! The caller decodes the host's notification into a [`ForwardEvent`] of
//! plain values, asks [`plan_forward_event`] what to do, performs the two
//! peer-alias resolutions the plan names, and hands the resolved names to
//! the formatting functions.  Every decision and the exact text of the
//! line are verified; only the transport and the log emission stay with
//! the caller.

use crate::ResolveError;
use crate::text::dec_chars;
use crate::text::str_eq;
use crate::text::u64_to_dec;
use vstd::prelude::*;

verus! {

/// A forward-event notification, decoded into plain values: each field
/// is present exactly when the payload carried it with the right type.
pub struct ForwardEvent {
    /// The forward's outcome status string.
    pub status: Option<String>,
    /// Short id of the channel the payment came in on.
    pub in_channel: Option<String>,
    /// Short id of the channel the payment went out on.
    pub out_channel: Option<String>,
    /// Amount forwarded, in millisatoshi.
    pub in_msat: Option<u64>,
    /// Fee earned, in millisatoshi; present for settlements.
    pub fee_msat: Option<u64>,
    /// Failure reason; present for local failures.
    pub failreason: Option<String>,
}

/// What a notification calls for.
pub enum EventPlan {
    /// Nothing: the status is ignorable or the matching flag is off.
    /// No resolution and no log output happen.
    Skip,
    /// Resolve both endpoints' peer aliases, then log a success line.
    LogSuccess { in_channel: String, out_channel: String, in_msat: u64, fee_msat: u64 },
    /// Resolve both endpoints' peer aliases, then log a failure line.
    LogFailure { in_channel: String, out_channel: String, in_msat: u64, failreason: String },
}

/// The status string of a decoded event, when it has one.
pub open spec fn status_of(event: Option<ForwardEvent>) -> Option<Seq<char>> {
    match event {
        Some(e) => match e.status {
            Some(st) => Some(st@),
            None => None,
        },
        None => None,
    }
}

/// Everything a success line needs is present.
pub open spec fn success_fields_present(e: ForwardEvent) -> bool {
    e.in_channel is Some && e.out_channel is Some && e.in_msat is Some && e.fee_msat is Some
}

/// Everything a failure line needs is present.
pub open spec fn failure_fields_present(e: ForwardEvent) -> bool {
    e.in_channel is Some && e.out_channel is Some && e.in_msat is Some && e.failreason is Some
}

/// The plan for an enabled settled forward.
pub open spec fn success_plan_of(e: ForwardEvent) -> EventPlan {
    EventPlan::LogSuccess {
        in_channel: e.in_channel->0,
        out_channel: e.out_channel->0,
        in_msat: e.in_msat->0,
        fee_msat: e.fee_msat->0,
    }
}

/// The plan for an enabled locally failed forward.
pub open spec fn failure_plan_of(e: ForwardEvent) -> EventPlan {
    EventPlan::LogFailure {
        in_channel: e.in_channel->0,
        out_channel: e.out_channel->0,
        in_msat: e.in_msat->0,
        failreason: e.failreason->0,
    }
}

/// Classifies one notification.  `event` is `None` when the payload had
/// no forward-event object at all.  Exactly the statuses `settled` and
/// `local_failed` are actionable, each under its flag; anything else is
/// skipped without error, whatever the flags and whatever else the
/// payload holds, so a skipped event causes no lookup and no log line.
/// Fields are demanded only when a line will actually be logged.
pub fn plan_forward_event(event: &Option<ForwardEvent>, log_successful: bool, log_failed: bool)
    -> (r: Result<EventPlan, ResolveError>)
    ensures
        r is Err ==> r->Err_0 == ResolveError::Parse,
        status_of(*event) is None ==> r is Err,
        status_of(*event) matches Some(st) && st != "settled"@ && st != "local_failed"@ ==> r
            == Ok::<EventPlan, ResolveError>(EventPlan::Skip),
        status_of(*event) == Some("settled"@) && !log_successful ==> r == Ok::<
            EventPlan,
            ResolveError,
        >(EventPlan::Skip),
        status_of(*event) == Some("local_failed"@) && !log_failed ==> r == Ok::<
            EventPlan,
            ResolveError,
        >(EventPlan::Skip),
        status_of(*event) == Some("settled"@) && log_successful && success_fields_present(
            event->0,
        ) ==> r == Ok::<EventPlan, ResolveError>(success_plan_of(event->0)),
        status_of(*event) == Some("settled"@) && log_successful && !success_fields_present(
            event->0,
        ) ==> r is Err,
        status_of(*event) == Some("local_failed"@) && log_failed && failure_fields_present(
            event->0,
        ) ==> r == Ok::<EventPlan, ResolveError>(failure_plan_of(event->0)),
        status_of(*event) == Some("local_failed"@) && log_failed && !failure_fields_present(
            event->0,
        ) ==> r is Err,
{
    proof {
        reveal_strlit("settled");
        reveal_strlit("local_failed");
        assert("settled"@.len() != "local_failed"@.len());
    }
    let e = match event {
        Some(e) => e,
        None => {
            return Err(ResolveError::Parse);
        },
    };
    let st = match &e.status {
        Some(s) => s,
        None => {
            return Err(ResolveError::Parse);
        },
    };
    if str_eq(st.as_str(), "settled") {
        if !log_successful {
            return Ok(EventPlan::Skip);
        }
        let in_channel = match &e.in_channel {
            Some(c) => c.clone(),
            None => {
                return Err(ResolveError::Parse);
            },
        };
        let out_channel = match &e.out_channel {
            Some(c) => c.clone(),
            None => {
                return Err(ResolveError::Parse);
            },
        };
        let in_msat = match e.in_msat {
            Some(v) => v,
            None => {
                return Err(ResolveError::Parse);
            },
        };
        let fee_msat = match e.fee_msat {
            Some(v) => v,
            None => {
                return Err(ResolveError::Parse);
            },
        };
        Ok(EventPlan::LogSuccess { in_channel, out_channel, in_msat, fee_msat })
    } else if str_eq(st.as_str(), "local_failed") {
        if !log_failed {
            return Ok(EventPlan::Skip);
        }
        let in_channel = match &e.in_channel {
            Some(c) => c.clone(),
            None => {
                return Err(ResolveError::Parse);
            },
        };
        let out_channel = match &e.out_channel {
            Some(c) => c.clone(),
            None => {
                return Err(ResolveError::Parse);
            },
        };
        let in_msat = match e.in_msat {
            Some(v) => v,
            None => {
                return Err(ResolveError::Parse);
            },
        };
        let failreason = match &e.failreason {
            Some(fr) => fr.clone(),
            None => {
                return Err(ResolveError::Parse);
            },
        };
        Ok(EventPlan::LogFailure { in_channel, out_channel, in_msat, failreason })
    } else {
        Ok(EventPlan::Skip)
    }
}

/// One endpoint of a forward, ready for formatting: the channel's short
/// id and the resolved display name of the peer on its far side.
pub struct ChannelInfo {
    pub short_id: String,
    pub peer_alias: String,
}

/// Pairs a channel's short id with the outcome of its peer-alias
/// resolution: the error, if any, passes through unchanged, so a failed
/// resolution of either endpoint abandons the whole log action.
pub fn parse_channel_info(short_id: &str, info: Result<String, ResolveError>) -> (r: Result<
    ChannelInfo,
    ResolveError,
>)
    ensures
        info matches Ok(alias) ==> r matches Ok(ci) && ci.short_id@ == short_id@ && ci.peer_alias
            == alias,
        info matches Err(err) ==> r == Err::<ChannelInfo, ResolveError>(err),
{
    match info {
        Ok(alias) => Ok(ChannelInfo { short_id: short_id.to_owned(), peer_alias: alias }),
        Err(err) => Err(err),
    }
}

/// The text of a success line: amount, fee, and both endpoints with
/// their resolved names.
pub open spec fn success_line_spec(
    in_msat: u64,
    fee_msat: u64,
    in_id: Seq<char>,
    in_alias: Seq<char>,
    out_id: Seq<char>,
    out_alias: Seq<char>,
) -> Seq<char> {
    "Forwarded "@ + dec_chars(in_msat as nat) + "msat ("@ + dec_chars(fee_msat as nat)
        + "msat fee) from "@ + in_id + " ("@ + in_alias + ") to "@ + out_id + " ("@ + out_alias
        + ")"@
}

/// The text of a failure line: amount, both endpoints with their
/// resolved names, and the payload's failure reason verbatim.
pub open spec fn failure_line_spec(
    in_msat: u64,
    in_id: Seq<char>,
    in_alias: Seq<char>,
    out_id: Seq<char>,
    out_alias: Seq<char>,
    failreason: Seq<char>,
) -> Seq<char> {
    "Forward for "@ + dec_chars(in_msat as nat) + "msat from "@ + in_id + " ("@ + in_alias
        + ") to "@ + out_id + " ("@ + out_alias + ") failed because: "@ + failreason
}

/// Renders the success line for a settled forward.
pub fn format_success_line(
    in_msat: u64,
    fee_msat: u64,
    inbound: &ChannelInfo,
    outbound: &ChannelInfo,
) -> (r: String)
    ensures
        r@ == success_line_spec(
            in_msat,
            fee_msat,
            inbound.short_id@,
            inbound.peer_alias@,
            outbound.short_id@,
            outbound.peer_alias@,
        ),
{
    let mut s = String::new();
    s.append("Forwarded ");
    let in_dec = u64_to_dec(in_msat);
    s.append(in_dec.as_str());
    s.append("msat (");
    let fee_dec = u64_to_dec(fee_msat);
    s.append(fee_dec.as_str());
    s.append("msat fee) from ");
    s.append(inbound.short_id.as_str());
    s.append(" (");
    s.append(inbound.peer_alias.as_str());
    s.append(") to ");
    s.append(outbound.short_id.as_str());
    s.append(" (");
    s.append(outbound.peer_alias.as_str());
    s.append(")");
    proof {
        assert(s@ =~= success_line_spec(
            in_msat,
            fee_msat,
            inbound.short_id@,
            inbound.peer_alias@,
            outbound.short_id@,
            outbound.peer_alias@,
        ));
    }
    s
}

/// Renders the failure line for a locally failed forward.
pub fn format_failure_line(
    in_msat: u64,
    inbound: &ChannelInfo,
    outbound: &ChannelInfo,
    failreason: &str,
) -> (r: String)
    ensures
        r@ == failure_line_spec(
            in_msat,
            inbound.short_id@,
            inbound.peer_alias@,
            outbound.short_id@,
            outbound.peer_alias@,
            failreason@,
        ),
{
    let mut s = String::new();
    s.append("Forward for ");
    let in_dec = u64_to_dec(in_msat);
    s.append(in_dec.as_str());
    s.append("msat from ");
    s.append(inbound.short_id.as_str());
    s.append(" (");
    s.append(inbound.peer_alias.as_str());
    s.append(") to ");
    s.append(outbound.short_id.as_str());
    s.append(" (");
    s.append(outbound.peer_alias.as_str());
    s.append(") failed because: ");
    s.append(failreason);
    proof {
        assert(s@ =~= failure_line_spec(
            in_msat,
            inbound.short_id@,
            inbound.peer_alias@,
            outbound.short_id@,
            outbound.peer_alias@,
            failreason@,
        ));
    }
    s
}

} // verus!
