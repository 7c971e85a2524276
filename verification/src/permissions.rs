//! Access levels on a room, and the access-control entries that grant them.
//!
//! An entry allows a set of permissions to one user on one channel. The set
//! is a bit mask in the platform's encoding; the bit of each permission is
//! read from the platform client, so that a mask built here means on the
//! platform what it means here.

use crate::gateway::{Request, RequestView};
use vstd::prelude::*;

verus! {

/// Bit of the permission to view a channel and to join it.
pub const VIEW_CHANNEL: u64 = 0x400;

/// Bit of the permission to send messages in a channel.
pub const SEND_MESSAGES: u64 = 0x800;

/// Bit of the permission to manage and edit a channel.
pub const MANAGE_CHANNELS: u64 = 0x10;

/// Bit of the permission to mute members in a voice channel.
pub const MUTE_MEMBERS: u64 = 0x40_0000;

/// Bit of the permission to deafen members in a voice channel.
pub const DEAFEN_MEMBERS: u64 = 0x80_0000;

/// What the owner of a room is allowed: to view it, send messages, manage the
/// channel, mute and deafen members.
pub const OWNER_ALLOW: u64 = 0xC0_0C10;

/// What a guest of a room is allowed: to view it and to send messages.
pub const GUEST_ALLOW: u64 = 0xC00;

/// `Permissions::VIEW_CHANNEL.bits()` of serenity. The flag is declared there
/// as `1 << 10`, and `bits` hands out the mask of a flag unchanged.
#[verifier::external_body]
fn view_channel_bits() -> (bits: u64)
    ensures
        bits == VIEW_CHANNEL,
{
    serenity::model::Permissions::VIEW_CHANNEL.bits()
}

/// `Permissions::SEND_MESSAGES.bits()` of serenity. The flag is declared
/// there as `1 << 11`.
#[verifier::external_body]
fn send_messages_bits() -> (bits: u64)
    ensures
        bits == SEND_MESSAGES,
{
    serenity::model::Permissions::SEND_MESSAGES.bits()
}

/// `Permissions::MANAGE_CHANNELS.bits()` of serenity. The flag is declared
/// there as `1 << 4`.
#[verifier::external_body]
fn manage_channels_bits() -> (bits: u64)
    ensures
        bits == MANAGE_CHANNELS,
{
    serenity::model::Permissions::MANAGE_CHANNELS.bits()
}

/// `Permissions::MUTE_MEMBERS.bits()` of serenity. The flag is declared there
/// as `1 << 22`.
#[verifier::external_body]
fn mute_members_bits() -> (bits: u64)
    ensures
        bits == MUTE_MEMBERS,
{
    serenity::model::Permissions::MUTE_MEMBERS.bits()
}

/// `Permissions::DEAFEN_MEMBERS.bits()` of serenity. The flag is declared
/// there as `1 << 23`.
#[verifier::external_body]
fn deafen_members_bits() -> (bits: u64)
    ensures
        bits == DEAFEN_MEMBERS,
{
    serenity::model::Permissions::DEAFEN_MEMBERS.bits()
}

/// Whether the mask `allow` holds every permission of the mask `wanted`.
pub open spec fn allows(allow: u64, wanted: u64) -> bool {
    allow & wanted == wanted
}

/// The mask that an owner is allowed.
pub fn owner_allow() -> (allow: u64)
    ensures
        allow == OWNER_ALLOW,
        allow == VIEW_CHANNEL | SEND_MESSAGES | MANAGE_CHANNELS | MUTE_MEMBERS | DEAFEN_MEMBERS,
{
    let view = view_channel_bits();
    let send = send_messages_bits();
    let manage = manage_channels_bits();
    let mute = mute_members_bits();
    let deafen = deafen_members_bits();
    let allow = view | send | manage | mute | deafen;
    assert(0x400u64 | 0x800u64 | 0x10u64 | 0x40_0000u64 | 0x80_0000u64 == 0xC0_0C10u64)
        by (bit_vector);
    allow
}

/// The mask that a guest is allowed.
pub fn guest_allow() -> (allow: u64)
    ensures
        allow == GUEST_ALLOW,
        allow == VIEW_CHANNEL | SEND_MESSAGES,
{
    let view = view_channel_bits();
    let send = send_messages_bits();
    let allow = view | send;
    assert(0x400u64 | 0x800u64 == 0xC00u64) by (bit_vector);
    allow
}

/// The request that makes `user_id` an owner of `channel`: it allows the
/// owner's permissions and denies none.
pub fn grant_owner_privileges(channel: i64, user_id: i64) -> (request: Request)
    ensures
        request@ == (RequestView::SetAccess {
            channel_id: channel,
            user_id,
            allow: OWNER_ALLOW,
            deny: 0,
        }),
{
    Request::SetAccess { channel_id: channel, user_id, allow: owner_allow(), deny: 0 }
}

/// The request that makes `user_id` a guest of `channel`: it allows the
/// guest's permissions and denies none.
pub fn grant_guest_privileges(channel: i64, user_id: i64) -> (request: Request)
    ensures
        request@ == (RequestView::SetAccess {
            channel_id: channel,
            user_id,
            allow: GUEST_ALLOW,
            deny: 0,
        }),
{
    Request::SetAccess { channel_id: channel, user_id, allow: guest_allow(), deny: 0 }
}

/// The two access levels: an owner may view the room, send messages, manage
/// the channel, mute and deafen members; a guest may view the room and send
/// messages, and none of the other three. So an owner may do whatever a
/// guest may.
pub proof fn law_access_levels()
    ensures
        allows(OWNER_ALLOW, GUEST_ALLOW),
        allows(OWNER_ALLOW, VIEW_CHANNEL),
        allows(OWNER_ALLOW, SEND_MESSAGES),
        allows(OWNER_ALLOW, MANAGE_CHANNELS),
        allows(OWNER_ALLOW, MUTE_MEMBERS),
        allows(OWNER_ALLOW, DEAFEN_MEMBERS),
        allows(GUEST_ALLOW, VIEW_CHANNEL),
        allows(GUEST_ALLOW, SEND_MESSAGES),
        !allows(GUEST_ALLOW, MANAGE_CHANNELS),
        !allows(GUEST_ALLOW, MUTE_MEMBERS),
        !allows(GUEST_ALLOW, DEAFEN_MEMBERS),
{
    assert(0xC0_0C10u64 & 0xC00u64 == 0xC00u64) by (bit_vector);
    assert(0xC0_0C10u64 & 0x400u64 == 0x400u64) by (bit_vector);
    assert(0xC0_0C10u64 & 0x800u64 == 0x800u64) by (bit_vector);
    assert(0xC0_0C10u64 & 0x10u64 == 0x10u64) by (bit_vector);
    assert(0xC0_0C10u64 & 0x40_0000u64 == 0x40_0000u64) by (bit_vector);
    assert(0xC0_0C10u64 & 0x80_0000u64 == 0x80_0000u64) by (bit_vector);
    assert(0xC00u64 & 0x400u64 == 0x400u64) by (bit_vector);
    assert(0xC00u64 & 0x800u64 == 0x800u64) by (bit_vector);
    assert(0xC00u64 & 0x10u64 != 0x10u64) by (bit_vector);
    assert(0xC00u64 & 0x40_0000u64 != 0x40_0000u64) by (bit_vector);
    assert(0xC00u64 & 0x80_0000u64 != 0x80_0000u64) by (bit_vector);
}

} // verus!
