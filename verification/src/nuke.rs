//! Channel recreation orchestrator: the full "nuke" sequence. Unless the
//! caller skipped it, a confirmation session gates the destructive work;
//! once confirmed, the orchestrator resolves the channel, snapshots it,
//! creates the replacement, announces it there, and only then deletes the
//! original. Each step's failure aborts the remaining steps and is reported
//! with the step that failed, so the irreversible deletion is reached only
//! after the replacement is known to exist.

use vstd::prelude::*;

use crate::confirm::{ConfirmationSession, ResponseEvent, SessionState, CONFIRM_TIMEOUT_SECS};
use crate::remote::RemoteError;
use crate::snapshot::{
    build_create_request, request_spec, snapshot, snapshot_spec, ChannelInfo, CreateChannelRequest,
};

verus! {

/// The step of the nuke sequence at which a remote call can fail.
#[derive(Clone, Copy, Debug, PartialEq, Eq, Structural)]
pub enum NukeStep {
    Resolve,
    Create,
    Announce,
    Delete,
}

/// The single terminal outcome of a nuke invocation.
#[derive(Clone, Copy, Debug, PartialEq, Eq, Structural)]
pub enum Outcome {
    Completed { old_ref: u64, new_ref: u64 },
    Cancelled,
    Expired,
    NotApplicable,
    Failed { step: NukeStep, error: RemoteError },
}

/// What resolving the target channel came back with: a guild channel with
/// its attributes, something the operation does not apply to (a direct
/// message, for instance), or a remote failure.
#[derive(Clone, Debug, PartialEq, Eq)]
pub enum ResolveResult {
    Guild(ChannelInfo),
    NotGuild,
    Error(RemoteError),
}

/// The announcement posted into the replacement channel before the original
/// is deleted: who invoked the nuke, both channel references, when, and the
/// supplied reason if any.
#[derive(Clone, Debug, PartialEq, Eq)]
pub struct Announcement {
    pub invoker: u64,
    pub original_channel: u64,
    pub new_channel: u64,
    pub timestamp: u64,
    pub reason: Option<String>,
}

/// The remote service's scripted answers for one nuke run, in the order the
/// orchestrator would consume them. An answer beyond the step at which the
/// run stops is never looked at.
#[derive(Debug, PartialEq, Eq)]
pub struct NukeScript {
    pub update_prompt: Result<(), RemoteError>,
    pub resolve: ResolveResult,
    pub create: Result<u64, RemoteError>,
    pub announce: Result<(), RemoteError>,
    pub delete: Result<(), RemoteError>,
}

/// A call the orchestrator issues, recorded for inspection. `PresentPrompt`
/// and `UpdatePrompt` are the confirmation UI; `Create` and `Delete` are the
/// destructive ones.
#[derive(Clone, Debug, PartialEq, Eq)]
pub enum NukeCall {
    PresentPrompt { channel: u64, user: u64 },
    UpdatePrompt { state: SessionState, delivered: bool },
    Resolve { channel: u64 },
    Create { request: CreateChannelRequest },
    Announce { channel: u64, message: Announcement },
    Delete { channel: u64 },
}

/// How the confirmation gate resolves: skipping it counts as confirmed,
/// otherwise the session's outcome over the event stream decides.
pub open spec fn confirm_spec(
    channel: u64,
    invoker: u64,
    invoked_at: u64,
    reason: Option<String>,
    skip_confirmation: bool,
    events: Seq<ResponseEvent>,
) -> SessionState {
    if skip_confirmation {
        SessionState::Confirmed
    } else {
        (ConfirmationSession {
            invoker,
            origin: channel,
            created_at: invoked_at,
            reason,
            state: SessionState::Awaiting,
        }).outcome_of(events)
    }
}

/// The confirmation UI calls: none when confirmation was skipped, otherwise
/// the prompt and its single terminal update. The update is best-effort:
/// whether it was delivered is recorded and nothing more.
pub open spec fn prologue_calls_spec(
    channel: u64,
    invoker: u64,
    skip_confirmation: bool,
    conf: SessionState,
    update_delivered: bool,
) -> Seq<NukeCall> {
    if skip_confirmation {
        Seq::<NukeCall>::empty()
    } else {
        seq![
            NukeCall::PresentPrompt { channel, user: invoker },
            NukeCall::UpdatePrompt { state: conf, delivered: update_delivered },
        ]
    }
}

/// The remote calls of the confirmed sequence: resolve, then create from the
/// snapshot, then announce in the new channel, then delete the original —
/// each later call only if every earlier one succeeded.
pub open spec fn action_calls_spec(
    channel: u64,
    invoker: u64,
    invoked_at: u64,
    reason: Option<String>,
    script: NukeScript,
) -> Seq<NukeCall> {
    match script.resolve {
        ResolveResult::Error(_) => seq![NukeCall::Resolve { channel }],
        ResolveResult::NotGuild => seq![NukeCall::Resolve { channel }],
        ResolveResult::Guild(info) => {
            let request = request_spec(snapshot_spec(info), reason);
            let created = seq![NukeCall::Resolve { channel }, NukeCall::Create { request }];
            match script.create {
                Err(_) => created,
                Ok(new_id) => {
                    let message = Announcement {
                        invoker,
                        original_channel: channel,
                        new_channel: new_id,
                        timestamp: invoked_at,
                        reason,
                    };
                    let announced = created + seq![
                        NukeCall::Announce { channel: new_id, message },
                    ];
                    match script.announce {
                        Err(_) => announced,
                        Ok(_) => announced + seq![NukeCall::Delete { channel }],
                    }
                },
            }
        },
    }
}

/// The outcome of the confirmed sequence: the step that failed, the
/// not-applicable abort, or completion with both channel references.
pub open spec fn action_outcome_spec(channel: u64, script: NukeScript) -> Outcome {
    match script.resolve {
        ResolveResult::Error(e) => Outcome::Failed { step: NukeStep::Resolve, error: e },
        ResolveResult::NotGuild => Outcome::NotApplicable,
        ResolveResult::Guild(_) => match script.create {
            Err(e) => Outcome::Failed { step: NukeStep::Create, error: e },
            Ok(new_id) => match script.announce {
                Err(e) => Outcome::Failed { step: NukeStep::Announce, error: e },
                Ok(_) => match script.delete {
                    Err(e) => Outcome::Failed { step: NukeStep::Delete, error: e },
                    Ok(_) => Outcome::Completed { old_ref: channel, new_ref: new_id },
                },
            },
        },
    }
}

/// The terminal outcome of a whole nuke invocation.
pub open spec fn nuke_outcome_spec(
    channel: u64,
    invoker: u64,
    invoked_at: u64,
    reason: Option<String>,
    skip_confirmation: bool,
    events: Seq<ResponseEvent>,
    script: NukeScript,
) -> Outcome {
    let conf = confirm_spec(channel, invoker, invoked_at, reason, skip_confirmation, events);
    if conf == SessionState::Cancelled {
        Outcome::Cancelled
    } else if conf == SessionState::Expired {
        Outcome::Expired
    } else {
        action_outcome_spec(channel, script)
    }
}

/// Every call a whole nuke invocation issues, in order.
pub open spec fn nuke_calls_spec(
    channel: u64,
    invoker: u64,
    invoked_at: u64,
    reason: Option<String>,
    skip_confirmation: bool,
    events: Seq<ResponseEvent>,
    script: NukeScript,
) -> Seq<NukeCall> {
    let conf = confirm_spec(channel, invoker, invoked_at, reason, skip_confirmation, events);
    let prologue = prologue_calls_spec(
        channel,
        invoker,
        skip_confirmation,
        conf,
        script.update_prompt is Ok,
    );
    prologue + if conf == SessionState::Confirmed {
        action_calls_spec(channel, invoker, invoked_at, reason, script)
    } else {
        Seq::<NukeCall>::empty()
    }
}

/// Copies an optional reason so it can annotate both the create request and
/// the announcement.
fn clone_reason(reason: &Option<String>) -> (r: Option<String>)
    ensures
        r == *reason,
{
    match reason {
        None => None,
        Some(s) => Some(s.clone()),
    }
}

/// Runs one whole nuke invocation against scripted remote answers and a
/// recorded stream of confirmation events, and records every call issued.
///
/// The contract pins both results exactly: the outcome is the one
/// [`nuke_outcome_spec`] assigns, and the calls are, in order, exactly the
/// ones [`nuke_calls_spec`] lists — so a cancelled or expired confirmation
/// issues no remote call at all, and a failure at any step issues none of
/// the later calls; in particular the original channel is deleted only after
/// the replacement was created and announced.
pub fn run_nuke(
    channel: u64,
    invoker: u64,
    invoked_at: u64,
    reason: Option<String>,
    skip_confirmation: bool,
    events: &Vec<ResponseEvent>,
    script: NukeScript,
) -> (r: (Outcome, Vec<NukeCall>))
    requires
        invoked_at + CONFIRM_TIMEOUT_SECS <= u64::MAX,
    ensures
        r.0 == nuke_outcome_spec(
            channel,
            invoker,
            invoked_at,
            reason,
            skip_confirmation,
            events@,
            script,
        ),
        r.1@ == nuke_calls_spec(
            channel,
            invoker,
            invoked_at,
            reason,
            skip_confirmation,
            events@,
            script,
        ),
{
    let mut calls: Vec<NukeCall> = Vec::new();
    let reason_kept: Option<String>;

    if skip_confirmation {
        reason_kept = reason;
    } else {
        let mut session = ConfirmationSession::new(invoker, channel, invoked_at, reason);
        calls.push(NukeCall::PresentPrompt { channel, user: invoker });
        session.resolve_events(events, invoked_at + CONFIRM_TIMEOUT_SECS);
        // updating the prompt is best-effort: its failure is recorded and
        // swallowed, never letting it block the terminal outcome
        let delivered = match &script.update_prompt {
            Ok(_) => true,
            Err(_) => false,
        };
        calls.push(NukeCall::UpdatePrompt { state: session.state, delivered });
        if session.state == SessionState::Cancelled {
            return (Outcome::Cancelled, calls);
        }
        if session.state == SessionState::Expired {
            return (Outcome::Expired, calls);
        }
        reason_kept = session.reason;
    }

    calls.push(NukeCall::Resolve { channel });
    match script.resolve {
        ResolveResult::Error(e) => {
            proof {
                assert(calls@ =~= nuke_calls_spec(
                    channel,
                    invoker,
                    invoked_at,
                    reason,
                    skip_confirmation,
                    events@,
                    script,
                ));
            }
            (Outcome::Failed { step: NukeStep::Resolve, error: e }, calls)
        },
        ResolveResult::NotGuild => {
            proof {
                assert(calls@ =~= nuke_calls_spec(
                    channel,
                    invoker,
                    invoked_at,
                    reason,
                    skip_confirmation,
                    events@,
                    script,
                ));
            }
            (Outcome::NotApplicable, calls)
        },
        ResolveResult::Guild(info) => {
            let snap = snapshot(info);
            let audit_reason = clone_reason(&reason_kept);
            let request = build_create_request(snap, audit_reason);
            calls.push(NukeCall::Create { request });
            match script.create {
                Err(e) => {
                    proof {
                        assert(calls@ =~= nuke_calls_spec(
                            channel,
                            invoker,
                            invoked_at,
                            reason,
                            skip_confirmation,
                            events@,
                            script,
                        ));
                    }
                    (Outcome::Failed { step: NukeStep::Create, error: e }, calls)
                },
                Ok(new_id) => {
                    let message = Announcement {
                        invoker,
                        original_channel: channel,
                        new_channel: new_id,
                        timestamp: invoked_at,
                        reason: reason_kept,
                    };
                    calls.push(NukeCall::Announce { channel: new_id, message });
                    match script.announce {
                        Err(e) => {
                            proof {
                                assert(calls@ =~= nuke_calls_spec(
                                    channel,
                                    invoker,
                                    invoked_at,
                                    reason,
                                    skip_confirmation,
                                    events@,
                                    script,
                                ));
                            }
                            (Outcome::Failed { step: NukeStep::Announce, error: e }, calls)
                        },
                        Ok(_) => {
                            calls.push(NukeCall::Delete { channel });
                            proof {
                                assert(calls@ =~= nuke_calls_spec(
                                    channel,
                                    invoker,
                                    invoked_at,
                                    reason,
                                    skip_confirmation,
                                    events@,
                                    script,
                                ));
                            }
                            match script.delete {
                                Err(e) => (
                                    Outcome::Failed { step: NukeStep::Delete, error: e },
                                    calls,
                                ),
                                Ok(_) => (
                                    Outcome::Completed { old_ref: channel, new_ref: new_id },
                                    calls,
                                ),
                            }
                        },
                    }
                },
            }
        },
    }
}

/// No call in the sequence deletes a channel.
pub open spec fn no_delete_call(calls: Seq<NukeCall>) -> bool {
    forall|i: int| 0 <= i < calls.len() ==> !(#[trigger] calls[i] is Delete)
}

/// No call in the sequence creates or deletes a channel.
pub open spec fn no_destructive_call(calls: Seq<NukeCall>) -> bool {
    forall|i: int|
        0 <= i < calls.len() ==> !(#[trigger] calls[i] is Delete) && !(calls[i] is Create)
}

/// If creating the replacement channel fails, the original channel is never
/// deleted: no run whose create answer is a failure issues a delete call.
pub proof fn lemma_create_failure_preserves_original(
    channel: u64,
    invoker: u64,
    invoked_at: u64,
    reason: Option<String>,
    skip_confirmation: bool,
    events: Seq<ResponseEvent>,
    script: NukeScript,
)
    requires
        script.create is Err,
    ensures
        no_delete_call(
            nuke_calls_spec(
                channel,
                invoker,
                invoked_at,
                reason,
                skip_confirmation,
                events,
                script,
            ),
        ),
{
}

/// A failure to update the confirmation prompt is swallowed: two runs whose
/// remote answers agree on everything but the prompt update reach the same
/// terminal outcome.
pub proof fn lemma_prompt_update_failure_never_blocks(
    channel: u64,
    invoker: u64,
    invoked_at: u64,
    reason: Option<String>,
    skip_confirmation: bool,
    events: Seq<ResponseEvent>,
    left: NukeScript,
    right: NukeScript,
)
    requires
        left.resolve == right.resolve,
        left.create == right.create,
        left.announce == right.announce,
        left.delete == right.delete,
    ensures
        nuke_outcome_spec(channel, invoker, invoked_at, reason, skip_confirmation, events, left)
            == nuke_outcome_spec(
            channel,
            invoker,
            invoked_at,
            reason,
            skip_confirmation,
            events,
            right,
        ),
{
}

/// A confirmation gate that does not confirm — the user cancelled, or no
/// matching response arrived in time — keeps the run free of destructive
/// calls, and the outcome reports exactly which of the two happened.
pub proof fn lemma_unconfirmed_run_is_nondestructive(
    channel: u64,
    invoker: u64,
    invoked_at: u64,
    reason: Option<String>,
    skip_confirmation: bool,
    events: Seq<ResponseEvent>,
    script: NukeScript,
)
    requires
        confirm_spec(channel, invoker, invoked_at, reason, skip_confirmation, events)
            != SessionState::Confirmed,
    ensures
        no_destructive_call(
            nuke_calls_spec(
                channel,
                invoker,
                invoked_at,
                reason,
                skip_confirmation,
                events,
                script,
            ),
        ),
        confirm_spec(channel, invoker, invoked_at, reason, skip_confirmation, events)
            == SessionState::Cancelled ==> nuke_outcome_spec(
            channel,
            invoker,
            invoked_at,
            reason,
            skip_confirmation,
            events,
            script,
        ) == Outcome::Cancelled,
        confirm_spec(channel, invoker, invoked_at, reason, skip_confirmation, events)
            == SessionState::Expired ==> nuke_outcome_spec(
            channel,
            invoker,
            invoked_at,
            reason,
            skip_confirmation,
            events,
            script,
        ) == Outcome::Expired,
{
}

} // verus!
