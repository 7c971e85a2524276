//! What a command checks about its caller before it acts.

use crate::records::contains_id;
use vstd::prelude::*;

verus! {

/// Why a command cannot act for its caller.
#[derive(Clone, Copy, Debug, PartialEq, Eq, Structural)]
pub enum CommandFailure {
    /// The command was called outside a guild.
    OutsideGuild,
    /// The caller is in no voice channel.
    NotConnected,
    /// The caller's voice channel belongs to no guild.
    OutsideAutoroomGuild,
    /// The caller's voice channel is placed under no category.
    OutsideCategory { channel_id: i64 },
}

/// Whether `author_id` may run the commands kept for administrators: the
/// owners of the bot may, and so may the owner of the guild the command was
/// called in.
pub fn is_admin_or_owner(
    author_id: i64,
    bot_owners: &Vec<i64>,
    guild_owner: Option<i64>,
) -> (allowed: bool)
    ensures
        allowed == (bot_owners@.contains(author_id) || guild_owner == Some(author_id)),
{
    if contains_id(bot_owners, author_id) {
        return true;
    }
    match guild_owner {
        Some(owner) => owner == author_id,
        None => false,
    }
}

/// The guild a command was called in.
pub fn parse_ctx_guild_id(guild_id: Option<i64>) -> (guild: Result<i64, CommandFailure>)
    ensures
        guild == (match guild_id {
            Some(id) => Ok::<i64, CommandFailure>(id),
            None => Err(CommandFailure::OutsideGuild),
        }),
{
    match guild_id {
        Some(id) => Ok(id),
        None => Err(CommandFailure::OutsideGuild),
    }
}

/// Whether a command was called in a guild.
pub fn have_ctx_guild_id(guild_id: Option<i64>) -> (called_in_guild: bool)
    ensures
        called_in_guild == guild_id.is_some(),
{
    parse_ctx_guild_id(guild_id).is_ok()
}

/// The voice channel a user is connected to. `in_guild` tells whether the
/// command was called in a guild; `voice_state` is the user's voice state in
/// that guild, if the guild has one for the user, and holds the channel the
/// user is in, if any.
pub fn get_user_voice_channel(in_guild: bool, voice_state: Option<Option<i64>>) -> (channel: Result<
    i64,
    CommandFailure,
>)
    ensures
        channel == (if !in_guild {
            Err::<i64, CommandFailure>(CommandFailure::OutsideGuild)
        } else {
            match voice_state {
                Some(Some(channel_id)) => Ok(channel_id),
                _ => Err(CommandFailure::NotConnected),
            }
        }),
{
    if !in_guild {
        return Err(CommandFailure::OutsideGuild);
    }
    match voice_state {
        Some(Some(channel_id)) => Ok(channel_id),
        _ => Err(CommandFailure::NotConnected),
    }
}

/// The voice channel of a guild that a user is connected to. It is the
/// channel that [`get_user_voice_channel`] finds, where `is_guild_channel`
/// tells whether the platform resolved that channel to a channel of a
/// guild.
pub fn get_user_guild_voice_channel(
    in_guild: bool,
    voice_state: Option<Option<i64>>,
    is_guild_channel: bool,
) -> (channel: Result<i64, CommandFailure>)
    ensures
        channel == (if !in_guild {
            Err::<i64, CommandFailure>(CommandFailure::OutsideGuild)
        } else {
            match voice_state {
                Some(Some(channel_id)) => if is_guild_channel {
                    Ok(channel_id)
                } else {
                    Err(CommandFailure::OutsideAutoroomGuild)
                },
                _ => Err(CommandFailure::NotConnected),
            }
        }),
{
    let channel_id = match get_user_voice_channel(in_guild, voice_state) {
        Ok(channel_id) => channel_id,
        Err(failure) => {
            return Err(failure);
        },
    };
    if is_guild_channel {
        Ok(channel_id)
    } else {
        Err(CommandFailure::OutsideAutoroomGuild)
    }
}

/// The category that the voice channel `channel_id` is placed under, where
/// `parent_id` is what the platform reports as its parent.
pub fn get_voice_channel_category(channel_id: i64, parent_id: Option<i64>) -> (category: Result<
    i64,
    CommandFailure,
>)
    ensures
        category == (match parent_id {
            Some(id) => Ok::<i64, CommandFailure>(id),
            None => Err(CommandFailure::OutsideCategory { channel_id }),
        }),
{
    match parent_id {
        Some(id) => Ok(id),
        None => Err(CommandFailure::OutsideCategory { channel_id }),
    }
}

} // verus!
