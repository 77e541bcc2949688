//! The records kept per guild: the stored configuration, the partial
//! configuration that the wizard fills, and the smaller records around them.

use crate::ids::{ChannelId, GuildId, MessageId, RoleId, UserId};
use crate::time_of_day::TimeOfDay;
use vstd::prelude::*;
use vstd::std_specs::cmp::PartialEqSpecImpl;
use vstd::std_specs::convert::TryFromSpecImpl;

verus! {

/// The configuration of one guild as it is stored.
///
/// `logger_pipe_channel` belongs to log routing. The wizard neither asks for
/// it nor compares it.
#[derive(Clone, Copy, Debug, PartialEq, Eq, Hash, Structural)]
pub struct DatabaseGuild {
    pub guild_id: GuildId,
    pub ghost_warning_deadline: u32,
    pub ghost_kick_deadline: u32,
    pub ghost_time_to_check: TimeOfDay,
    pub ghost_enabled: bool,
    pub debug_channel: ChannelId,
    pub bot_channel: ChannelId,
    pub help_channel: ChannelId,
    pub logger_pipe_channel: Option<ChannelId>,
    pub study_group_category: ChannelId,
    pub subject_group_category: ChannelId,
    pub studenty_role: RoleId,
    pub tmp_studenty_role: Option<RoleId>,
    pub moderator_role: RoleId,
    pub newsletter_role: RoleId,
    pub nsfw_role: RoleId,
    pub study_role_separator_role: RoleId,
    pub subject_role_separator_role: RoleId,
    pub friend_role: RoleId,
    pub tmpc_keep_time: u32,
    pub alumni_role: RoleId,
    pub alumni_role_separator_role: RoleId,
}

/// The configuration of one guild while the wizard collects it. A field is
/// `None` until the wizard has reached it; `tmp_studenty_role` is
/// `Some(None)` once the guild has chosen to have no such role.
#[derive(Clone, Copy, Debug, PartialEq, Eq, Hash, Structural)]
pub struct NewGuild {
    pub guild_id: GuildId,
    pub ghost_warning_deadline: Option<u32>,
    pub ghost_kick_deadline: Option<u32>,
    pub ghost_time_to_check: Option<TimeOfDay>,
    pub ghost_enabled: Option<bool>,
    pub debug_channel: Option<ChannelId>,
    pub bot_channel: Option<ChannelId>,
    pub help_channel: Option<ChannelId>,
    pub study_group_category: Option<ChannelId>,
    pub subject_group_category: Option<ChannelId>,
    pub studenty_role: Option<RoleId>,
    pub tmp_studenty_role: Option<Option<RoleId>>,
    pub moderator_role: Option<RoleId>,
    pub newsletter_role: Option<RoleId>,
    pub nsfw_role: Option<RoleId>,
    pub study_role_separator_role: Option<RoleId>,
    pub subject_role_separator_role: Option<RoleId>,
    pub friend_role: Option<RoleId>,
    pub tmpc_keep_time: Option<u32>,
    pub alumni_role: Option<RoleId>,
    pub alumni_role_separator_role: Option<RoleId>,
}

impl NewGuild {
    /// The configuration of `guild_id` with no field set.
    pub open spec fn empty(guild_id: GuildId) -> NewGuild {
        NewGuild {
            guild_id,
            ghost_warning_deadline: None,
            ghost_kick_deadline: None,
            ghost_time_to_check: None,
            ghost_enabled: None,
            debug_channel: None,
            bot_channel: None,
            help_channel: None,
            study_group_category: None,
            subject_group_category: None,
            studenty_role: None,
            tmp_studenty_role: None,
            moderator_role: None,
            newsletter_role: None,
            nsfw_role: None,
            study_role_separator_role: None,
            subject_role_separator_role: None,
            friend_role: None,
            tmpc_keep_time: None,
            alumni_role: None,
            alumni_role_separator_role: None,
        }
    }

    /// Whether every field is set.
    pub open spec fn complete(self) -> bool {
        &&& self.ghost_warning_deadline is Some
        &&& self.ghost_kick_deadline is Some
        &&& self.ghost_time_to_check is Some
        &&& self.ghost_enabled is Some
        &&& self.debug_channel is Some
        &&& self.bot_channel is Some
        &&& self.help_channel is Some
        &&& self.study_group_category is Some
        &&& self.subject_group_category is Some
        &&& self.studenty_role is Some
        &&& self.tmp_studenty_role is Some
        &&& self.moderator_role is Some
        &&& self.newsletter_role is Some
        &&& self.nsfw_role is Some
        &&& self.study_role_separator_role is Some
        &&& self.subject_role_separator_role is Some
        &&& self.friend_role is Some
        &&& self.tmpc_keep_time is Some
        &&& self.alumni_role is Some
        &&& self.alumni_role_separator_role is Some
    }

    /// The stored form of a complete configuration, with no log channel;
    /// `None` while a field is missing.
    pub open spec fn completed(self) -> Option<DatabaseGuild> {
        if self.complete() {
            Some(
                DatabaseGuild {
                    guild_id: self.guild_id,
                    ghost_warning_deadline: self.ghost_warning_deadline->0,
                    ghost_kick_deadline: self.ghost_kick_deadline->0,
                    ghost_time_to_check: self.ghost_time_to_check->0,
                    ghost_enabled: self.ghost_enabled->0,
                    debug_channel: self.debug_channel->0,
                    bot_channel: self.bot_channel->0,
                    help_channel: self.help_channel->0,
                    logger_pipe_channel: None,
                    study_group_category: self.study_group_category->0,
                    subject_group_category: self.subject_group_category->0,
                    studenty_role: self.studenty_role->0,
                    tmp_studenty_role: self.tmp_studenty_role->0,
                    moderator_role: self.moderator_role->0,
                    newsletter_role: self.newsletter_role->0,
                    nsfw_role: self.nsfw_role->0,
                    study_role_separator_role: self.study_role_separator_role->0,
                    subject_role_separator_role: self.subject_role_separator_role->0,
                    friend_role: self.friend_role->0,
                    tmpc_keep_time: self.tmpc_keep_time->0,
                    alumni_role: self.alumni_role->0,
                    alumni_role_separator_role: self.alumni_role_separator_role->0,
                },
            )
        } else {
            None
        }
    }

    /// The configuration of `guild_id` with no field set.
    pub fn new(guild_id: GuildId) -> (guild: NewGuild)
        ensures
            guild == NewGuild::empty(guild_id),
    {
        NewGuild {
            guild_id,
            ghost_warning_deadline: None,
            ghost_kick_deadline: None,
            ghost_time_to_check: None,
            ghost_enabled: None,
            debug_channel: None,
            bot_channel: None,
            help_channel: None,
            study_group_category: None,
            subject_group_category: None,
            studenty_role: None,
            tmp_studenty_role: None,
            moderator_role: None,
            newsletter_role: None,
            nsfw_role: None,
            study_role_separator_role: None,
            subject_role_separator_role: None,
            friend_role: None,
            tmpc_keep_time: None,
            alumni_role: None,
            alumni_role_separator_role: None,
        }
    }

    /// Whether every field is set.
    pub fn is_setup(&self) -> (done: bool)
        ensures
            done == self.complete(),
    {
        self.ghost_warning_deadline.is_some() && self.ghost_kick_deadline.is_some()
            && self.ghost_time_to_check.is_some() && self.ghost_enabled.is_some()
            && self.debug_channel.is_some() && self.bot_channel.is_some()
            && self.help_channel.is_some() && self.study_group_category.is_some()
            && self.subject_group_category.is_some() && self.studenty_role.is_some()
            && self.tmp_studenty_role.is_some() && self.moderator_role.is_some()
            && self.newsletter_role.is_some() && self.nsfw_role.is_some()
            && self.study_role_separator_role.is_some()
            && self.subject_role_separator_role.is_some() && self.friend_role.is_some()
            && self.tmpc_keep_time.is_some() && self.alumni_role.is_some()
            && self.alumni_role_separator_role.is_some()
    }
}

impl Default for NewGuild {
    /// The empty configuration of guild 0.
    fn default() -> (guild: NewGuild)
        ensures
            guild == NewGuild::empty(GuildId(0)),
    {
        NewGuild::new(GuildId(0))
    }
}

impl TryFrom<NewGuild> for DatabaseGuild {
    type Error = ();

    /// Converts a complete configuration; fails while a field is missing.
    fn try_from(new_guild: NewGuild) -> (converted: Result<DatabaseGuild, ()>) {
        match (
            new_guild.ghost_warning_deadline,
            new_guild.ghost_kick_deadline,
            new_guild.ghost_time_to_check,
            new_guild.ghost_enabled,
            new_guild.debug_channel,
            new_guild.bot_channel,
            new_guild.help_channel,
            new_guild.study_group_category,
            new_guild.subject_group_category,
            new_guild.studenty_role,
        ) {
            (
                Some(ghost_warning_deadline),
                Some(ghost_kick_deadline),
                Some(ghost_time_to_check),
                Some(ghost_enabled),
                Some(debug_channel),
                Some(bot_channel),
                Some(help_channel),
                Some(study_group_category),
                Some(subject_group_category),
                Some(studenty_role),
            ) => match (
                new_guild.tmp_studenty_role,
                new_guild.moderator_role,
                new_guild.newsletter_role,
                new_guild.nsfw_role,
                new_guild.study_role_separator_role,
                new_guild.subject_role_separator_role,
                new_guild.friend_role,
                new_guild.tmpc_keep_time,
                new_guild.alumni_role,
                new_guild.alumni_role_separator_role,
            ) {
                (
                    Some(tmp_studenty_role),
                    Some(moderator_role),
                    Some(newsletter_role),
                    Some(nsfw_role),
                    Some(study_role_separator_role),
                    Some(subject_role_separator_role),
                    Some(friend_role),
                    Some(tmpc_keep_time),
                    Some(alumni_role),
                    Some(alumni_role_separator_role),
                ) => Ok(
                    DatabaseGuild {
                        guild_id: new_guild.guild_id,
                        ghost_warning_deadline,
                        ghost_kick_deadline,
                        ghost_time_to_check,
                        ghost_enabled,
                        debug_channel,
                        bot_channel,
                        help_channel,
                        logger_pipe_channel: None,
                        study_group_category,
                        subject_group_category,
                        studenty_role,
                        tmp_studenty_role,
                        moderator_role,
                        newsletter_role,
                        nsfw_role,
                        study_role_separator_role,
                        subject_role_separator_role,
                        friend_role,
                        tmpc_keep_time,
                        alumni_role,
                        alumni_role_separator_role,
                    },
                ),
                _ => Err(()),
            },
            _ => Err(()),
        }
    }
}

impl TryFromSpecImpl<NewGuild> for DatabaseGuild {
    open spec fn obeys_try_from_spec() -> bool {
        true
    }

    open spec fn try_from_spec(new_guild: NewGuild) -> Result<DatabaseGuild, ()> {
        match new_guild.completed() {
            Some(guild) => Ok(guild),
            None => Err(()),
        }
    }
}

impl DatabaseGuild {
    /// Whether the two records agree on the guild and on every field that
    /// the wizard collects. The log channel is not compared.
    pub open spec fn same_configuration(self, other: DatabaseGuild) -> bool {
        self == (DatabaseGuild { logger_pipe_channel: self.logger_pipe_channel, ..other })
    }
}

impl PartialEq<DatabaseGuild> for NewGuild {
    /// Whether the collected configuration is complete and agrees with the
    /// stored one on the guild and on every field of the wizard.
    fn eq(&self, db_guild: &DatabaseGuild) -> (same: bool) {
        self.guild_id == db_guild.guild_id && self.ghost_warning_deadline == Some(
            db_guild.ghost_warning_deadline,
        ) && self.ghost_kick_deadline == Some(db_guild.ghost_kick_deadline)
            && self.ghost_time_to_check == Some(db_guild.ghost_time_to_check)
            && self.ghost_enabled == Some(db_guild.ghost_enabled) && self.debug_channel == Some(
            db_guild.debug_channel,
        ) && self.bot_channel == Some(db_guild.bot_channel) && self.help_channel == Some(
            db_guild.help_channel,
        ) && self.study_group_category == Some(db_guild.study_group_category)
            && self.subject_group_category == Some(db_guild.subject_group_category)
            && self.studenty_role == Some(db_guild.studenty_role) && self.tmp_studenty_role
            == Some(db_guild.tmp_studenty_role) && self.moderator_role == Some(
            db_guild.moderator_role,
        ) && self.newsletter_role == Some(db_guild.newsletter_role) && self.nsfw_role == Some(
            db_guild.nsfw_role,
        ) && self.study_role_separator_role == Some(db_guild.study_role_separator_role)
            && self.subject_role_separator_role == Some(db_guild.subject_role_separator_role)
            && self.friend_role == Some(db_guild.friend_role) && self.tmpc_keep_time == Some(
            db_guild.tmpc_keep_time,
        ) && self.alumni_role == Some(db_guild.alumni_role) && self.alumni_role_separator_role
            == Some(db_guild.alumni_role_separator_role)
    }
}

impl PartialEqSpecImpl<DatabaseGuild> for NewGuild {
    open spec fn obeys_eq_spec() -> bool {
        true
    }

    open spec fn eq_spec(&self, db_guild: &DatabaseGuild) -> bool {
        match self.completed() {
            Some(guild) => guild.same_configuration(*db_guild),
            None => false,
        }
    }
}

/// A role that marks alumni of a guild.
#[derive(Clone, Copy, Debug, PartialEq, Eq, Hash, Structural)]
pub struct DatabaseAlumniRole {
    pub role: RoleId,
    pub guild_id: GuildId,
}

/// A study group of a guild. `id` is given by the storage and is `None`
/// until the group has been stored.
#[derive(Clone, Debug, PartialEq, Eq, Hash)]
pub struct DatabaseStudyGroup {
    pub id: Option<i32>,
    pub guild_id: GuildId,
    pub name: String,
    pub color: u32,
    pub active: bool,
}

impl DatabaseStudyGroup {
    /// What names the stored record of the group: its id and the number of
    /// its guild. A group that has not been stored has no id and no key.
    pub fn study_group_key(&self) -> (key: Option<(i32, u64)>)
        ensures
            key == (match self.id {
                Some(id) => Some((id, self.guild_id.0)),
                None => None::<(i32, u64)>,
            }),
    {
        match self.id {
            Some(id) => Some((id, self.guild_id.get())),
            None => None,
        }
    }
}

/// One semester of a study group, with its role and text channel.
#[derive(Clone, Copy, Debug, PartialEq, Eq, Hash, Structural)]
pub struct DatabaseSemesterStudyGroup {
    pub role: RoleId,
    pub study_group_id: i32,
    pub semester: u32,
    pub text_channel: ChannelId,
}

/// A subject that members can join, with its role and text channel.
#[derive(Clone, Debug, PartialEq, Eq, Hash)]
pub struct DatabaseSubject {
    pub role: RoleId,
    pub guild_id: GuildId,
    pub name: String,
    pub text_channel: ChannelId,
}

/// Says that the subject belongs to the semester study group.
#[derive(Clone, Copy, Debug, PartialEq, Eq, Hash, Structural)]
pub struct DatabaseStudySubjectLink {
    pub study_group_role: RoleId,
    pub subject_role: RoleId,
    pub guild_id: GuildId,
}

/// A voice channel that opens a temporary channel for whoever joins it.
#[derive(Clone, Copy, Debug, PartialEq, Eq, Hash, Structural)]
pub struct DatabaseTmpcJoinChannel {
    pub voice_channel: ChannelId,
    pub guild_id: GuildId,
    pub persist: bool,
}

/// A day of the calendar and a time on it.
#[derive(Clone, Copy, Debug, PartialEq, Eq, Hash, Structural)]
pub struct DateTime {
    pub year: i32,
    pub month: u8,
    pub day: u8,
    pub time: TimeOfDay,
}

/// A temporary voice channel with its text channel.
#[derive(Clone, Copy, Debug, PartialEq, Eq, Hash, Structural)]
pub struct DatabaseTmpc {
    pub voice_channel: ChannelId,
    pub text_channel: ChannelId,
    pub guild_id: GuildId,
    pub owner: UserId,
    pub persist: bool,
    pub token: u32,
    pub keep: bool,
    pub delete_at: Option<DateTime>,
}

/// A message that shows the token of a temporary channel.
#[derive(Clone, Copy, Debug, PartialEq, Eq, Hash, Structural)]
pub struct DatabaseTokenMessage {
    pub tmpc_voice_channel: ChannelId,
    pub message_channel: ChannelId,
    pub message: MessageId,
}

} // verus!
