//! Who may use a command and where: the answers, once the bot has asked
//! the chat platform for the facts.

use crate::ids::{ChannelId, GuildId, RoleId, UserId};
use crate::records::DatabaseGuild;
use crate::validate::contains_role;
use vstd::prelude::*;

verus! {

/// A role of a guild and whether it gives the rights of an administrator.
#[derive(Clone, Copy, Debug, PartialEq, Eq, Hash, Structural)]
pub struct GuildRole {
    pub id: RoleId,
    pub administrator: bool,
}

/// Whether one of `held` is among `roles`.
pub open spec fn shares_role(held: Seq<RoleId>, roles: Seq<RoleId>) -> bool {
    exists|i: int| 0 <= i < held.len() && roles.contains(#[trigger] held[i])
}

/// Whether the member holds one of `roles`. `member_roles` are the roles
/// of the author in the guild, or `None` for a message outside a guild.
pub fn has_one_of_roles(member_roles: Option<&Vec<RoleId>>, roles: &Vec<RoleId>) -> (held: bool)
    ensures
        held == (match member_roles {
            Some(own) => shares_role(own@, roles@),
            None => false,
        }),
{
    match member_roles {
        None => false,
        Some(own) => {
            let mut index: usize = 0;
            while index < own.len()
                invariant
                    member_roles == Some(own),
                    index <= own.len(),
                    forall|i: int| 0 <= i < index ==> !roles@.contains(#[trigger] own@[i]),
                decreases own.len() - index,
            {
                if contains_role(roles, own[index]) {
                    assert(roles@.contains(own@[index as int]));
                    return true;
                }
                index = index + 1;
            }
            false
        },
    }
}

/// Whether the member holds `role`.
pub fn has_role(member_roles: Option<&Vec<RoleId>>, role: RoleId) -> (held: bool)
    ensures
        held == (match member_roles {
            Some(own) => own@.contains(role),
            None => false,
        }),
{
    match member_roles {
        None => false,
        Some(own) => contains_role(own, role),
    }
}

/// Whether the member holds none of `roles`. That is so for a message
/// outside a guild.
pub fn has_none_of_roles(member_roles: Option<&Vec<RoleId>>, roles: &Vec<RoleId>) -> (free: bool)
    ensures
        free == (match member_roles {
            Some(own) => !shares_role(own@, roles@),
            None => true,
        }),
{
    !has_one_of_roles(member_roles, roles)
}

/// Whether `role` is one of `guild_roles` that gives the rights of an
/// administrator.
pub open spec fn gives_administrator(guild_roles: Seq<GuildRole>, role: RoleId) -> bool {
    exists|j: int|
        0 <= j < guild_roles.len() && (#[trigger] guild_roles[j]).id == role
            && guild_roles[j].administrator
}

/// Whether one of `held` gives the rights of an administrator.
pub open spec fn holds_administrator(held: Seq<RoleId>, guild_roles: Seq<GuildRole>) -> bool {
    exists|i: int| 0 <= i < held.len() && gives_administrator(guild_roles, #[trigger] held[i])
}

fn role_gives_administrator(guild_roles: &Vec<GuildRole>, role: RoleId) -> (gives: bool)
    ensures
        gives == gives_administrator(guild_roles@, role),
{
    let mut index: usize = 0;
    while index < guild_roles.len()
        invariant
            index <= guild_roles.len(),
            forall|j: int|
                0 <= j < index ==> !((#[trigger] guild_roles@[j]).id == role
                    && guild_roles@[j].administrator),
        decreases guild_roles.len() - index,
    {
        if guild_roles[index].id == role && guild_roles[index].administrator {
            return true;
        }
        index = index + 1;
    }
    false
}

/// Whether the member holds a role that gives the rights of an
/// administrator. `member_roles` and `guild_roles` are `None` for a
/// message outside a guild.
pub fn is_admin(member_roles: Option<&Vec<RoleId>>, guild_roles: Option<&Vec<GuildRole>>) -> (admin:
    bool)
    ensures
        admin == (match (member_roles, guild_roles) {
            (Some(own), Some(all)) => holds_administrator(own@, all@),
            _ => false,
        }),
{
    match (member_roles, guild_roles) {
        (Some(own), Some(all)) => {
            let mut index: usize = 0;
            while index < own.len()
                invariant
                    member_roles == Some(own),
                    guild_roles == Some(all),
                    index <= own.len(),
                    forall|i: int|
                        0 <= i < index ==> !gives_administrator(all@, #[trigger] own@[i]),
                decreases own.len() - index,
            {
                if role_gives_administrator(all, own[index]) {
                    assert(gives_administrator(all@, own@[index as int]));
                    return true;
                }
                index = index + 1;
            }
            false
        },
        _ => false,
    }
}

/// Whether the author is an administrator of the main guild. The roles
/// are `None` where the platform could not give them.
pub fn is_bot_admin(
    main_guild_member_roles: Option<&Vec<RoleId>>,
    main_guild_roles: Option<&Vec<GuildRole>>,
) -> (admin: bool)
    ensures
        admin == (match (main_guild_member_roles, main_guild_roles) {
            (Some(own), Some(all)) => holds_administrator(own@, all@),
            _ => false,
        }),
{
    is_admin(main_guild_member_roles, main_guild_roles)
}

/// Whether the author owns the guild; `owner` is `None` for a message
/// outside a guild.
pub fn is_owner(owner: Option<UserId>, author: UserId) -> (owns: bool)
    ensures
        owns == (owner == Some(author)),
{
    match owner {
        Some(id) => id == author,
        None => false,
    }
}

/// Whether the message was sent in the main guild.
pub fn sent_in_main_guild(guild: Option<GuildId>, main_guild: Option<u64>) -> (there: bool)
    ensures
        there == (match guild {
            Some(id) => main_guild == Some(id.0),
            None => false,
        }),
{
    match (guild, main_guild) {
        (Some(id), Some(main)) => id.get() == main,
        _ => false,
    }
}

/// Whether the message was sent in one of `channels`.
pub fn sent_in_channels(channel: ChannelId, channels: &Vec<ChannelId>) -> (there: bool)
    ensures
        there == channels@.contains(channel),
{
    let mut index: usize = 0;
    while index < channels.len()
        invariant
            index <= channels.len(),
            forall|i: int| 0 <= i < index ==> channels@[i] != channel,
        decreases channels.len() - index,
    {
        if channels[index] == channel {
            return true;
        }
        index = index + 1;
    }
    false
}

/// Whether the message was sent in `wanted`.
pub fn sent_in_channel(channel: ChannelId, wanted: ChannelId) -> (there: bool)
    ensures
        there == (channel == wanted),
{
    channel == wanted
}

/// Whether the message was sent in a guild that is set up. `stored` is the
/// answer of the storage on the guild: `None` if it failed.
pub fn sent_in_setup_guild(guild: Option<GuildId>, stored: Option<bool>) -> (there: bool)
    ensures
        there == (guild is Some && stored == Some(true)),
{
    match (guild, stored) {
        (Some(_), Some(true)) => true,
        _ => false,
    }
}

/// Whether the author is verified: the message was sent in a guild that is
/// set up, and the author holds its studenty role.
pub fn is_user_verified(
    guild: Option<GuildId>,
    db_guild: Option<&DatabaseGuild>,
    member_roles: Option<&Vec<RoleId>>,
) -> (verified: bool)
    ensures
        verified == (match (guild, db_guild, member_roles) {
            (Some(_), Some(stored), Some(own)) => own@.contains(stored.studenty_role),
            _ => false,
        }),
{
    match (guild, db_guild) {
        (Some(_), Some(stored)) => has_role(member_roles, stored.studenty_role),
        _ => false,
    }
}

/// Whether the author may run `setup`: as the owner of the guild or as one
/// of its administrators.
pub fn may_configure(
    owner: Option<UserId>,
    author: UserId,
    member_roles: Option<&Vec<RoleId>>,
    guild_roles: Option<&Vec<GuildRole>>,
) -> (allowed: bool)
    ensures
        allowed == (owner == Some(author) || match (member_roles, guild_roles) {
            (Some(own), Some(all)) => holds_administrator(own@, all@),
            _ => false,
        }),
{
    is_owner(owner, author) || is_admin(member_roles, guild_roles)
}

} // verus!
