use channel_ops::confirm::{ResponseEvent, ResponseToken, SessionState};
use channel_ops::nuke::{
    run_nuke, Announcement, NukeCall, NukeScript, NukeStep, Outcome, ResolveResult,
};
use channel_ops::remote::RemoteError;
use channel_ops::snapshot::{
    build_create_request, snapshot, ChannelInfo, ChannelKind, ForumTag, PermissionOverwrite,
    ReactionEmoji, SortOrder,
};

const CHANNEL: u64 = 500;
const GUILD: u64 = 900;
const INVOKER: u64 = 77;
const T0: u64 = 5_000;
const NEW_ID: u64 = 501;

fn full_info() -> ChannelInfo {
    ChannelInfo {
        id: CHANNEL,
        guild_id: GUILD,
        name: String::from("general"),
        kind: ChannelKind::Forum,
        topic: Some(String::from("everything at once")),
        position: 3,
        nsfw: true,
        permission_overwrites: vec![
            PermissionOverwrite { principal: 1, allow_bits: 0b1011, deny_bits: 0b0100 },
            PermissionOverwrite { principal: 2, allow_bits: 0, deny_bits: 0b1 },
        ],
        rate_limit_per_user: Some(15),
        bitrate: Some(64_000),
        user_limit: Some(25),
        rtc_region: Some(String::from("rotterdam")),
        available_tags: Some(vec![
            ForumTag { id: 9, name: String::from("bug"), moderated: false },
            ForumTag { id: 10, name: String::from("meta"), moderated: true },
        ]),
        default_sort_order: Some(SortOrder::CreationDate),
        default_auto_archive_minutes: Some(1440),
        default_reaction_emoji: Some(ReactionEmoji::Unicode(String::from("ok"))),
    }
}

fn bare_info() -> ChannelInfo {
    ChannelInfo {
        id: CHANNEL,
        guild_id: GUILD,
        name: String::from("general"),
        kind: ChannelKind::Text,
        topic: None,
        position: 0,
        nsfw: false,
        permission_overwrites: Vec::new(),
        rate_limit_per_user: None,
        bitrate: None,
        user_limit: None,
        rtc_region: None,
        available_tags: None,
        default_sort_order: None,
        default_auto_archive_minutes: None,
        default_reaction_emoji: None,
    }
}

fn happy_script(info: ChannelInfo) -> NukeScript {
    NukeScript {
        update_prompt: Ok(()),
        resolve: ResolveResult::Guild(info),
        create: Ok(NEW_ID),
        announce: Ok(()),
        delete: Ok(()),
    }
}

fn proceed_event(at: u64) -> ResponseEvent {
    ResponseEvent { user: INVOKER, channel: CHANNEL, token: ResponseToken::Proceed, at }
}

fn count_creates(calls: &[NukeCall]) -> usize {
    calls.iter().filter(|c| matches!(c, NukeCall::Create { .. })).count()
}

fn count_deletes(calls: &[NukeCall]) -> usize {
    calls.iter().filter(|c| matches!(c, NukeCall::Delete { .. })).count()
}

#[test]
fn a_populated_snapshot_is_carried_verbatim_into_the_request() {
    let info = full_info();
    let req = build_create_request(snapshot(info.clone()), Some(String::from("cleanup")));
    assert_eq!(req.guild_id, info.guild_id);
    assert_eq!(req.name, info.name);
    assert_eq!(req.kind, info.kind);
    assert_eq!(req.topic, info.topic);
    assert_eq!(req.position, info.position);
    assert_eq!(req.nsfw, info.nsfw);
    assert_eq!(req.permission_overwrites, info.permission_overwrites);
    assert_eq!(req.rate_limit_per_user, info.rate_limit_per_user);
    assert_eq!(req.bitrate, info.bitrate);
    assert_eq!(req.user_limit, info.user_limit);
    assert_eq!(req.rtc_region, info.rtc_region);
    assert_eq!(req.available_tags, info.available_tags);
    assert_eq!(req.default_sort_order, info.default_sort_order);
    assert_eq!(req.default_auto_archive_minutes, info.default_auto_archive_minutes);
    assert_eq!(req.default_reaction_emoji, info.default_reaction_emoji);
    assert_eq!(req.audit_reason, Some(String::from("cleanup")));
}

#[test]
fn absent_attributes_stay_absent_in_the_request() {
    let req = build_create_request(snapshot(bare_info()), None);
    assert_eq!(req.topic, None);
    assert_eq!(req.rate_limit_per_user, None);
    assert_eq!(req.bitrate, None);
    assert_eq!(req.user_limit, None);
    assert_eq!(req.rtc_region, None);
    assert_eq!(req.available_tags, None);
    assert_eq!(req.default_sort_order, None);
    assert_eq!(req.default_auto_archive_minutes, None);
    assert_eq!(req.default_reaction_emoji, None);
    assert_eq!(req.audit_reason, None);
}

#[test]
fn confirmed_nuke_runs_the_full_sequence_in_order() {
    // A "proceed" answer from the invoking user five seconds in.
    let events = vec![proceed_event(T0 + 5)];
    let (outcome, calls) = run_nuke(
        CHANNEL,
        INVOKER,
        T0,
        Some(String::from("cleanup")),
        false,
        &events,
        happy_script(full_info()),
    );
    assert_eq!(outcome, Outcome::Completed { old_ref: CHANNEL, new_ref: NEW_ID });
    assert_eq!(calls.len(), 6);
    assert_eq!(calls[0], NukeCall::PresentPrompt { channel: CHANNEL, user: INVOKER });
    assert_eq!(calls[1], NukeCall::UpdatePrompt { state: SessionState::Confirmed, delivered: true });
    assert_eq!(calls[2], NukeCall::Resolve { channel: CHANNEL });
    match &calls[3] {
        NukeCall::Create { request } => {
            assert_eq!(request.name, String::from("general"));
            assert_eq!(request.audit_reason, Some(String::from("cleanup")));
        }
        other => panic!("expected a create, got {:?}", other),
    }
    assert_eq!(
        calls[4],
        NukeCall::Announce {
            channel: NEW_ID,
            message: Announcement {
                invoker: INVOKER,
                original_channel: CHANNEL,
                new_channel: NEW_ID,
                timestamp: T0,
                reason: Some(String::from("cleanup")),
            },
        }
    );
    assert_eq!(calls[5], NukeCall::Delete { channel: CHANNEL });
    assert_eq!(count_creates(&calls), 1);
    assert_eq!(count_deletes(&calls), 1);
}

#[test]
fn unanswered_confirmation_expires_and_destroys_nothing() {
    let (outcome, calls) = run_nuke(
        CHANNEL,
        INVOKER,
        T0,
        None,
        false,
        &Vec::new(),
        happy_script(full_info()),
    );
    assert_eq!(outcome, Outcome::Expired);
    assert_eq!(
        calls,
        vec![
            NukeCall::PresentPrompt { channel: CHANNEL, user: INVOKER },
            NukeCall::UpdatePrompt { state: SessionState::Expired, delivered: true },
        ]
    );
    assert_eq!(count_creates(&calls), 0);
    assert_eq!(count_deletes(&calls), 0);
}

#[test]
fn cancelled_confirmation_destroys_nothing() {
    let events = vec![ResponseEvent {
        user: INVOKER,
        channel: CHANNEL,
        token: ResponseToken::Abort,
        at: T0 + 2,
    }];
    let (outcome, calls) =
        run_nuke(CHANNEL, INVOKER, T0, None, false, &events, happy_script(full_info()));
    assert_eq!(outcome, Outcome::Cancelled);
    assert_eq!(count_creates(&calls), 0);
    assert_eq!(count_deletes(&calls), 0);
}

#[test]
fn someone_elses_answer_does_not_confirm() {
    let events = vec![ResponseEvent {
        user: INVOKER + 1,
        channel: CHANNEL,
        token: ResponseToken::Proceed,
        at: T0 + 2,
    }];
    let (outcome, calls) =
        run_nuke(CHANNEL, INVOKER, T0, None, false, &events, happy_script(full_info()));
    assert_eq!(outcome, Outcome::Expired);
    assert_eq!(count_creates(&calls), 0);
    assert_eq!(count_deletes(&calls), 0);
}

#[test]
fn failed_create_never_reaches_delete() {
    let script = NukeScript {
        update_prompt: Ok(()),
        resolve: ResolveResult::Guild(full_info()),
        create: Err(RemoteError::PermissionDenied),
        announce: Ok(()),
        delete: Ok(()),
    };
    let (outcome, calls) = run_nuke(CHANNEL, INVOKER, T0, None, true, &Vec::new(), script);
    assert_eq!(
        outcome,
        Outcome::Failed { step: NukeStep::Create, error: RemoteError::PermissionDenied }
    );
    assert_eq!(count_creates(&calls), 1);
    assert_eq!(count_deletes(&calls), 0);
}

#[test]
fn failed_announcement_never_reaches_delete() {
    let script = NukeScript {
        update_prompt: Ok(()),
        resolve: ResolveResult::Guild(full_info()),
        create: Ok(NEW_ID),
        announce: Err(RemoteError::NetworkFault),
        delete: Ok(()),
    };
    let (outcome, calls) = run_nuke(CHANNEL, INVOKER, T0, None, true, &Vec::new(), script);
    assert_eq!(
        outcome,
        Outcome::Failed { step: NukeStep::Announce, error: RemoteError::NetworkFault }
    );
    assert_eq!(count_deletes(&calls), 0);
}

#[test]
fn failed_delete_is_reported_and_the_replacement_remains() {
    let script = NukeScript {
        update_prompt: Ok(()),
        resolve: ResolveResult::Guild(full_info()),
        create: Ok(NEW_ID),
        announce: Ok(()),
        delete: Err(RemoteError::NotFound),
    };
    let (outcome, calls) = run_nuke(CHANNEL, INVOKER, T0, None, true, &Vec::new(), script);
    assert_eq!(outcome, Outcome::Failed { step: NukeStep::Delete, error: RemoteError::NotFound });
    assert_eq!(count_creates(&calls), 1);
    assert_eq!(count_deletes(&calls), 1);
}

#[test]
fn non_guild_channel_is_not_applicable() {
    let script = NukeScript {
        update_prompt: Ok(()),
        resolve: ResolveResult::NotGuild,
        create: Ok(NEW_ID),
        announce: Ok(()),
        delete: Ok(()),
    };
    let (outcome, calls) = run_nuke(CHANNEL, INVOKER, T0, None, true, &Vec::new(), script);
    assert_eq!(outcome, Outcome::NotApplicable);
    assert_eq!(calls, vec![NukeCall::Resolve { channel: CHANNEL }]);
}

#[test]
fn failed_resolve_is_reported_with_its_step() {
    let script = NukeScript {
        update_prompt: Ok(()),
        resolve: ResolveResult::Error(RemoteError::RateLimited),
        create: Ok(NEW_ID),
        announce: Ok(()),
        delete: Ok(()),
    };
    let (outcome, calls) = run_nuke(CHANNEL, INVOKER, T0, None, true, &Vec::new(), script);
    assert_eq!(
        outcome,
        Outcome::Failed { step: NukeStep::Resolve, error: RemoteError::RateLimited }
    );
    assert_eq!(calls, vec![NukeCall::Resolve { channel: CHANNEL }]);
}

#[test]
fn skipping_confirmation_shows_no_prompt() {
    let (outcome, calls) =
        run_nuke(CHANNEL, INVOKER, T0, None, true, &Vec::new(), happy_script(bare_info()));
    assert_eq!(outcome, Outcome::Completed { old_ref: CHANNEL, new_ref: NEW_ID });
    assert!(calls.iter().all(|c| !matches!(c, NukeCall::PresentPrompt { .. })));
    assert_eq!(calls.len(), 4);
}

#[test]
fn failed_prompt_update_is_swallowed() {
    // the prompt edit fails, the confirmed sequence still runs to completion
    let script = NukeScript {
        update_prompt: Err(RemoteError::NotFound),
        resolve: ResolveResult::Guild(full_info()),
        create: Ok(NEW_ID),
        announce: Ok(()),
        delete: Ok(()),
    };
    let events = vec![proceed_event(T0 + 1)];
    let (outcome, calls) = run_nuke(CHANNEL, INVOKER, T0, None, false, &events, script);
    assert_eq!(outcome, Outcome::Completed { old_ref: CHANNEL, new_ref: NEW_ID });
    assert_eq!(
        calls[1],
        NukeCall::UpdatePrompt { state: SessionState::Confirmed, delivered: false }
    );
    assert_eq!(count_deletes(&calls), 1);
}
