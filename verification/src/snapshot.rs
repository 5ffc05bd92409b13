//! Channel snapshot: the re-creatable attributes of an existing channel,
//! copied by value before the channel is destroyed, and the request that
//! rebuilds an equivalent channel from them.
//!
//! Every optional attribute present on the source is carried forward
//! verbatim; an absent attribute stays absent, so the replacement channel
//! inherits the platform's own defaults rather than this system's.

use vstd::prelude::*;

verus! {

#[derive(Clone, Copy, Debug, PartialEq, Eq, Structural)]
pub enum ChannelKind {
    Text,
    Voice,
    Forum,
    News,
    Stage,
    Category,
}

/// One entry of a channel's ordered permission-overwrite list.
#[derive(Clone, Copy, Debug, PartialEq, Eq, Structural)]
pub struct PermissionOverwrite {
    pub principal: u64,
    pub allow_bits: u64,
    pub deny_bits: u64,
}

/// A tag a forum channel offers on its posts.
#[derive(Clone, Debug, PartialEq, Eq)]
pub struct ForumTag {
    pub id: u64,
    pub name: String,
    pub moderated: bool,
}

/// How a forum channel orders its posts by default.
#[derive(Clone, Copy, Debug, PartialEq, Eq, Structural)]
pub enum SortOrder {
    LatestActivity,
    CreationDate,
}

/// A default reaction emoji: either a custom emoji by id or a unicode one by
/// name.
#[derive(Clone, Debug, PartialEq, Eq)]
pub enum ReactionEmoji {
    Custom(u64),
    Unicode(String),
}

/// The library's picture of a just-fetched guild channel: identity plus
/// every attribute a replacement must reproduce.
#[derive(Clone, Debug, PartialEq, Eq)]
pub struct ChannelInfo {
    pub id: u64,
    pub guild_id: u64,
    pub name: String,
    pub kind: ChannelKind,
    pub topic: Option<String>,
    pub position: u16,
    pub nsfw: bool,
    pub permission_overwrites: Vec<PermissionOverwrite>,
    pub rate_limit_per_user: Option<u16>,
    pub bitrate: Option<u32>,
    pub user_limit: Option<u32>,
    pub rtc_region: Option<String>,
    pub available_tags: Option<Vec<ForumTag>>,
    pub default_sort_order: Option<SortOrder>,
    pub default_auto_archive_minutes: Option<u32>,
    pub default_reaction_emoji: Option<ReactionEmoji>,
}

/// The value captured from a channel about to be replaced. Immutable once
/// taken; `source_id` only references the original, it is not re-created.
#[derive(Clone, Debug, PartialEq, Eq)]
pub struct ChannelSnapshot {
    pub source_id: u64,
    pub guild_id: u64,
    pub name: String,
    pub kind: ChannelKind,
    pub topic: Option<String>,
    pub position: u16,
    pub nsfw: bool,
    pub permission_overwrites: Vec<PermissionOverwrite>,
    pub rate_limit_per_user: Option<u16>,
    pub bitrate: Option<u32>,
    pub user_limit: Option<u32>,
    pub rtc_region: Option<String>,
    pub available_tags: Option<Vec<ForumTag>>,
    pub default_sort_order: Option<SortOrder>,
    pub default_auto_archive_minutes: Option<u32>,
    pub default_reaction_emoji: Option<ReactionEmoji>,
}

/// The create-channel request handed to the remote service: the snapshot's
/// attributes, plus an optional audit annotation. An attribute that is
/// `None` is omitted from the remote call, not sent as a default.
#[derive(Clone, Debug, PartialEq, Eq)]
pub struct CreateChannelRequest {
    pub guild_id: u64,
    pub name: String,
    pub kind: ChannelKind,
    pub topic: Option<String>,
    pub position: u16,
    pub nsfw: bool,
    pub permission_overwrites: Vec<PermissionOverwrite>,
    pub rate_limit_per_user: Option<u16>,
    pub bitrate: Option<u32>,
    pub user_limit: Option<u32>,
    pub rtc_region: Option<String>,
    pub available_tags: Option<Vec<ForumTag>>,
    pub default_sort_order: Option<SortOrder>,
    pub default_auto_archive_minutes: Option<u32>,
    pub default_reaction_emoji: Option<ReactionEmoji>,
    pub audit_reason: Option<String>,
}

/// What a snapshot of a given channel holds: every attribute, verbatim.
pub open spec fn snapshot_spec(source: ChannelInfo) -> ChannelSnapshot {
    ChannelSnapshot {
        source_id: source.id,
        guild_id: source.guild_id,
        name: source.name,
        kind: source.kind,
        topic: source.topic,
        position: source.position,
        nsfw: source.nsfw,
        permission_overwrites: source.permission_overwrites,
        rate_limit_per_user: source.rate_limit_per_user,
        bitrate: source.bitrate,
        user_limit: source.user_limit,
        rtc_region: source.rtc_region,
        available_tags: source.available_tags,
        default_sort_order: source.default_sort_order,
        default_auto_archive_minutes: source.default_auto_archive_minutes,
        default_reaction_emoji: source.default_reaction_emoji,
    }
}

/// What the replacement request built from a snapshot holds: the snapshot's
/// attributes unchanged, and the supplied audit reason.
pub open spec fn request_spec(snap: ChannelSnapshot, audit_reason: Option<String>) -> CreateChannelRequest {
    CreateChannelRequest {
        guild_id: snap.guild_id,
        name: snap.name,
        kind: snap.kind,
        topic: snap.topic,
        position: snap.position,
        nsfw: snap.nsfw,
        permission_overwrites: snap.permission_overwrites,
        rate_limit_per_user: snap.rate_limit_per_user,
        bitrate: snap.bitrate,
        user_limit: snap.user_limit,
        rtc_region: snap.rtc_region,
        available_tags: snap.available_tags,
        default_sort_order: snap.default_sort_order,
        default_auto_archive_minutes: snap.default_auto_archive_minutes,
        default_reaction_emoji: snap.default_reaction_emoji,
        audit_reason,
    }
}

/// Captures the source channel's attributes by value. Pure: no validation,
/// no remote call; whatever the source holds is what the snapshot holds.
pub fn snapshot(source: ChannelInfo) -> (s: ChannelSnapshot)
    ensures
        s == snapshot_spec(source),
{
    ChannelSnapshot {
        source_id: source.id,
        guild_id: source.guild_id,
        name: source.name,
        kind: source.kind,
        topic: source.topic,
        position: source.position,
        nsfw: source.nsfw,
        permission_overwrites: source.permission_overwrites,
        rate_limit_per_user: source.rate_limit_per_user,
        bitrate: source.bitrate,
        user_limit: source.user_limit,
        rtc_region: source.rtc_region,
        available_tags: source.available_tags,
        default_sort_order: source.default_sort_order,
        default_auto_archive_minutes: source.default_auto_archive_minutes,
        default_reaction_emoji: source.default_reaction_emoji,
    }
}

/// Builds the replacement-channel request from a snapshot, attaching the
/// supplied reason (if any) as an audit annotation.
pub fn build_create_request(snap: ChannelSnapshot, audit_reason: Option<String>) -> (r:
    CreateChannelRequest)
    ensures
        r == request_spec(snap, audit_reason),
{
    CreateChannelRequest {
        guild_id: snap.guild_id,
        name: snap.name,
        kind: snap.kind,
        topic: snap.topic,
        position: snap.position,
        nsfw: snap.nsfw,
        permission_overwrites: snap.permission_overwrites,
        rate_limit_per_user: snap.rate_limit_per_user,
        bitrate: snap.bitrate,
        user_limit: snap.user_limit,
        rtc_region: snap.rtc_region,
        available_tags: snap.available_tags,
        default_sort_order: snap.default_sort_order,
        default_auto_archive_minutes: snap.default_auto_archive_minutes,
        default_reaction_emoji: snap.default_reaction_emoji,
        audit_reason,
    }
}

/// The request built for a source channel carries every attribute of that
/// channel unchanged: an attribute populated on the source is populated with
/// the same value on the request, and an absent one stays absent.
pub proof fn lemma_request_carries_source_verbatim(
    source: ChannelInfo,
    audit_reason: Option<String>,
)
    ensures
        ({
            let r = request_spec(snapshot_spec(source), audit_reason);
            &&& r.guild_id == source.guild_id
            &&& r.name == source.name
            &&& r.kind == source.kind
            &&& r.topic == source.topic
            &&& r.position == source.position
            &&& r.nsfw == source.nsfw
            &&& r.permission_overwrites == source.permission_overwrites
            &&& r.rate_limit_per_user == source.rate_limit_per_user
            &&& r.bitrate == source.bitrate
            &&& r.user_limit == source.user_limit
            &&& r.rtc_region == source.rtc_region
            &&& r.available_tags == source.available_tags
            &&& r.default_sort_order == source.default_sort_order
            &&& r.default_auto_archive_minutes == source.default_auto_archive_minutes
            &&& r.default_reaction_emoji == source.default_reaction_emoji
            &&& r.audit_reason == audit_reason
        }),
{
}

} // verus!
