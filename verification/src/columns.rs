//! How the configuration of a guild is laid out in the storage: the columns
//! of the table, the statements that write them, and the values that go
//! with each statement.

use crate::ids::{ChannelId, GuildId, RoleId};
use crate::records::DatabaseGuild;
use crate::time_of_day::TimeOfDay;
use vstd::prelude::*;

verus! {

/// A value as the storage takes it.
#[derive(Clone, Copy, Debug, PartialEq, Eq, Hash, Structural)]
pub enum ColumnValue {
    Unsigned(u32),
    Time(TimeOfDay),
    Flag(bool),
    Id(u64),
    OptionalId(Option<u64>),
}

/// One column of the table of guilds, with the value to write to it.
#[derive(Clone, Copy, Debug, PartialEq, Eq, Hash, Structural)]
pub enum Column {
    GhostWarningDeadline(u32),
    GhostKickDeadline(u32),
    GhostTimeToCheck(TimeOfDay),
    GhostEnabled(bool),
    DebugChannel(ChannelId),
    BotChannel(ChannelId),
    HelpChannel(ChannelId),
    LoggerPipeChannel(Option<ChannelId>),
    StudyGroupCategory(ChannelId),
    SubjectGroupCategory(ChannelId),
    StudentyRole(RoleId),
    TmpStudentyRole(Option<RoleId>),
    ModeratorRole(RoleId),
    NewsletterRole(RoleId),
    NsfwRole(RoleId),
    StudyRoleSeparatorRole(RoleId),
    SubjectRoleSeparatorRole(RoleId),
    FriendRole(RoleId),
    TmpcKeepTime(u32),
    AlumniRole(RoleId),
    AlumniRoleSeparatorRole(RoleId),
}

/// The number of an identifier of a channel that may be missing.
pub open spec fn optional_channel(channel: Option<ChannelId>) -> Option<u64> {
    match channel {
        Some(c) => Some(c.0),
        None => None,
    }
}

/// The number of an identifier of a role that may be missing.
pub open spec fn optional_role(role: Option<RoleId>) -> Option<u64> {
    match role {
        Some(r) => Some(r.0),
        None => None,
    }
}

fn channel_number(channel: Option<ChannelId>) -> (number: Option<u64>)
    ensures
        number == optional_channel(channel),
{
    match channel {
        Some(c) => Some(c.get()),
        None => None,
    }
}

fn role_number(role: Option<RoleId>) -> (number: Option<u64>)
    ensures
        number == optional_role(role),
{
    match role {
        Some(r) => Some(r.get()),
        None => None,
    }
}

impl Column {
    /// The name of the column in the table.
    pub open spec fn name_text(self) -> Seq<char> {
        match self {
            Column::GhostWarningDeadline(_) => "ghost_warn_deadline"@,
            Column::GhostKickDeadline(_) => "ghost_kick_deadline"@,
            Column::GhostTimeToCheck(_) => "ghost_time_to_check"@,
            Column::GhostEnabled(_) => "ghost_enabled"@,
            Column::DebugChannel(_) => "debug_channel"@,
            Column::BotChannel(_) => "bot_channel"@,
            Column::HelpChannel(_) => "help_channel"@,
            Column::LoggerPipeChannel(_) => "logger_pipe_channel"@,
            Column::StudyGroupCategory(_) => "study_group_category"@,
            Column::SubjectGroupCategory(_) => "subject_group_category"@,
            Column::StudentyRole(_) => "studenty_role"@,
            Column::TmpStudentyRole(_) => "tmp_studenty_role"@,
            Column::ModeratorRole(_) => "moderator_role"@,
            Column::NewsletterRole(_) => "newsletter_role"@,
            Column::NsfwRole(_) => "nsfw_role"@,
            Column::StudyRoleSeparatorRole(_) => "study_role_separator_role"@,
            Column::SubjectRoleSeparatorRole(_) => "subject_role_separator_role"@,
            Column::FriendRole(_) => "friend_role"@,
            Column::TmpcKeepTime(_) => "tmpc_keep_time"@,
            Column::AlumniRole(_) => "alumni_role"@,
            Column::AlumniRoleSeparatorRole(_) => "alumni_role_separator_role"@,
        }
    }

    /// The value as the storage takes it.
    pub open spec fn stored(self) -> ColumnValue {
        match self {
            Column::GhostWarningDeadline(v) => ColumnValue::Unsigned(v),
            Column::GhostKickDeadline(v) => ColumnValue::Unsigned(v),
            Column::GhostTimeToCheck(v) => ColumnValue::Time(v),
            Column::GhostEnabled(v) => ColumnValue::Flag(v),
            Column::DebugChannel(v) => ColumnValue::Id(v.0),
            Column::BotChannel(v) => ColumnValue::Id(v.0),
            Column::HelpChannel(v) => ColumnValue::Id(v.0),
            Column::LoggerPipeChannel(v) => ColumnValue::OptionalId(optional_channel(v)),
            Column::StudyGroupCategory(v) => ColumnValue::Id(v.0),
            Column::SubjectGroupCategory(v) => ColumnValue::Id(v.0),
            Column::StudentyRole(v) => ColumnValue::Id(v.0),
            Column::TmpStudentyRole(v) => ColumnValue::OptionalId(optional_role(v)),
            Column::ModeratorRole(v) => ColumnValue::Id(v.0),
            Column::NewsletterRole(v) => ColumnValue::Id(v.0),
            Column::NsfwRole(v) => ColumnValue::Id(v.0),
            Column::StudyRoleSeparatorRole(v) => ColumnValue::Id(v.0),
            Column::SubjectRoleSeparatorRole(v) => ColumnValue::Id(v.0),
            Column::FriendRole(v) => ColumnValue::Id(v.0),
            Column::TmpcKeepTime(v) => ColumnValue::Unsigned(v),
            Column::AlumniRole(v) => ColumnValue::Id(v.0),
            Column::AlumniRoleSeparatorRole(v) => ColumnValue::Id(v.0),
        }
    }

    /// The name of the column in the table.
    pub fn name(&self) -> (name: &'static str)
        ensures
            name@ == self.name_text(),
    {
        match self {
            Column::GhostWarningDeadline(_) => "ghost_warn_deadline",
            Column::GhostKickDeadline(_) => "ghost_kick_deadline",
            Column::GhostTimeToCheck(_) => "ghost_time_to_check",
            Column::GhostEnabled(_) => "ghost_enabled",
            Column::DebugChannel(_) => "debug_channel",
            Column::BotChannel(_) => "bot_channel",
            Column::HelpChannel(_) => "help_channel",
            Column::LoggerPipeChannel(_) => "logger_pipe_channel",
            Column::StudyGroupCategory(_) => "study_group_category",
            Column::SubjectGroupCategory(_) => "subject_group_category",
            Column::StudentyRole(_) => "studenty_role",
            Column::TmpStudentyRole(_) => "tmp_studenty_role",
            Column::ModeratorRole(_) => "moderator_role",
            Column::NewsletterRole(_) => "newsletter_role",
            Column::NsfwRole(_) => "nsfw_role",
            Column::StudyRoleSeparatorRole(_) => "study_role_separator_role",
            Column::SubjectRoleSeparatorRole(_) => "subject_role_separator_role",
            Column::FriendRole(_) => "friend_role",
            Column::TmpcKeepTime(_) => "tmpc_keep_time",
            Column::AlumniRole(_) => "alumni_role",
            Column::AlumniRoleSeparatorRole(_) => "alumni_role_separator_role",
        }
    }

    /// The value as the storage takes it.
    pub fn value(&self) -> (value: ColumnValue)
        ensures
            value == self.stored(),
    {
        match self {
            Column::GhostWarningDeadline(v) => ColumnValue::Unsigned(*v),
            Column::GhostKickDeadline(v) => ColumnValue::Unsigned(*v),
            Column::GhostTimeToCheck(v) => ColumnValue::Time(*v),
            Column::GhostEnabled(v) => ColumnValue::Flag(*v),
            Column::DebugChannel(v) => ColumnValue::Id(v.get()),
            Column::BotChannel(v) => ColumnValue::Id(v.get()),
            Column::HelpChannel(v) => ColumnValue::Id(v.get()),
            Column::LoggerPipeChannel(v) => ColumnValue::OptionalId(channel_number(*v)),
            Column::StudyGroupCategory(v) => ColumnValue::Id(v.get()),
            Column::SubjectGroupCategory(v) => ColumnValue::Id(v.get()),
            Column::StudentyRole(v) => ColumnValue::Id(v.get()),
            Column::TmpStudentyRole(v) => ColumnValue::OptionalId(role_number(*v)),
            Column::ModeratorRole(v) => ColumnValue::Id(v.get()),
            Column::NewsletterRole(v) => ColumnValue::Id(v.get()),
            Column::NsfwRole(v) => ColumnValue::Id(v.get()),
            Column::StudyRoleSeparatorRole(v) => ColumnValue::Id(v.get()),
            Column::SubjectRoleSeparatorRole(v) => ColumnValue::Id(v.get()),
            Column::FriendRole(v) => ColumnValue::Id(v.get()),
            Column::TmpcKeepTime(v) => ColumnValue::Unsigned(*v),
            Column::AlumniRole(v) => ColumnValue::Id(v.get()),
            Column::AlumniRoleSeparatorRole(v) => ColumnValue::Id(v.get()),
        }
    }
}

/// The statement that writes one column of one guild. It takes two values:
/// the value of the column, then the identifier of the guild.
pub open spec fn update_statement(column: Column) -> Seq<char> {
    "UPDATE Guild SET "@ + column.name_text() + "=? WHERE guild_id=?"@
}

/// What goes with `update_statement`: the value of the column, then the
/// identifier of the guild.
pub open spec fn update_values(guild_id: GuildId, column: Column) -> Seq<ColumnValue> {
    seq![column.stored(), ColumnValue::Id(guild_id.0)]
}

/// The statement that writes `column` for one guild, and the values that
/// it takes, in the order of its placeholders.
pub fn update_guild_table_value(guild_id: GuildId, column: &Column) -> (query: (
    String,
    Vec<ColumnValue>,
))
    ensures
        query.0@ == update_statement(*column),
        query.1@ == update_values(guild_id, *column),
{
    let mut statement = String::from_str("UPDATE Guild SET ");
    statement.append(column.name());
    statement.append("=? WHERE guild_id=?");
    let mut values: Vec<ColumnValue> = Vec::new();
    values.push(column.value());
    values.push(ColumnValue::Id(guild_id.get()));
    assert(values@ =~= update_values(guild_id, *column));
    (statement, values)
}

/// The statement that stores a new guild. A guild that is stored already
/// is left as it is.
pub const INSERT_GUILD: &'static str =
    "INSERT IGNORE INTO Guild (
guild_id,
ghost_warn_deadline,
ghost_kick_deadline,
ghost_time_to_check,
ghost_enabled,
debug_channel,
bot_channel,
help_channel,
study_group_category,
subject_group_category,
studenty_role,
tmp_studenty_role,
moderator_role,
newsletter_role,
nsfw_role,
study_role_separator_role,
subject_role_separator_role,
friend_role,
tmpc_keep_time,
alumni_role,
alumni_role_separator_role)
VALUES (?, ?, ?, ?, ?, ?, ?, ?, ?, ?, ?, ?, ?, ?, ?, ?, ?, ?, ?, ?, ?);";

/// The statement that replaces the configuration of a stored guild.
pub const UPDATE_GUILD: &'static str =
    "UPDATE Guild SET
ghost_warn_deadline=?,
ghost_kick_deadline=?,
ghost_time_to_check=?,
ghost_enabled=?,
debug_channel=?,
bot_channel=?,
help_channel=?,
study_group_category=?,
subject_group_category=?,
studenty_role=?,
tmp_studenty_role=?,
moderator_role=?,
newsletter_role=?,
nsfw_role=?,
study_role_separator_role=?,
subject_role_separator_role=?,
friend_role=?,
tmpc_keep_time=?,
alumni_role=?,
alumni_role_separator_role=?
WHERE guild_id=?;";

/// The values of the fields that the wizard collects, in the order in
/// which both statements name their columns. The log channel is not among
/// them: neither statement writes it.
pub open spec fn configuration_values(guild: DatabaseGuild) -> Seq<ColumnValue> {
    seq![
        ColumnValue::Unsigned(guild.ghost_warning_deadline),
        ColumnValue::Unsigned(guild.ghost_kick_deadline),
        ColumnValue::Time(guild.ghost_time_to_check),
        ColumnValue::Flag(guild.ghost_enabled),
        ColumnValue::Id(guild.debug_channel.0),
        ColumnValue::Id(guild.bot_channel.0),
        ColumnValue::Id(guild.help_channel.0),
        ColumnValue::Id(guild.study_group_category.0),
        ColumnValue::Id(guild.subject_group_category.0),
        ColumnValue::Id(guild.studenty_role.0),
        ColumnValue::OptionalId(optional_role(guild.tmp_studenty_role)),
        ColumnValue::Id(guild.moderator_role.0),
        ColumnValue::Id(guild.newsletter_role.0),
        ColumnValue::Id(guild.nsfw_role.0),
        ColumnValue::Id(guild.study_role_separator_role.0),
        ColumnValue::Id(guild.subject_role_separator_role.0),
        ColumnValue::Id(guild.friend_role.0),
        ColumnValue::Unsigned(guild.tmpc_keep_time),
        ColumnValue::Id(guild.alumni_role.0),
        ColumnValue::Id(guild.alumni_role_separator_role.0),
    ]
}

/// What goes with `INSERT_GUILD`: the identifier of the guild, then the
/// values of its configuration.
pub open spec fn insert_values(guild: DatabaseGuild) -> Seq<ColumnValue> {
    seq![ColumnValue::Id(guild.guild_id.0)] + configuration_values(guild)
}

/// What goes with `UPDATE_GUILD`: the values of the configuration, then
/// the identifier of the guild.
pub open spec fn replace_values(guild: DatabaseGuild) -> Seq<ColumnValue> {
    configuration_values(guild).push(ColumnValue::Id(guild.guild_id.0))
}

fn push_configuration(values: &mut Vec<ColumnValue>, guild: &DatabaseGuild)
    ensures
        final(values)@ == old(values)@ + configuration_values(*guild),
{
    values.push(ColumnValue::Unsigned(guild.ghost_warning_deadline));
    values.push(ColumnValue::Unsigned(guild.ghost_kick_deadline));
    values.push(ColumnValue::Time(guild.ghost_time_to_check));
    values.push(ColumnValue::Flag(guild.ghost_enabled));
    values.push(ColumnValue::Id(guild.debug_channel.get()));
    values.push(ColumnValue::Id(guild.bot_channel.get()));
    values.push(ColumnValue::Id(guild.help_channel.get()));
    values.push(ColumnValue::Id(guild.study_group_category.get()));
    values.push(ColumnValue::Id(guild.subject_group_category.get()));
    values.push(ColumnValue::Id(guild.studenty_role.get()));
    values.push(ColumnValue::OptionalId(role_number(guild.tmp_studenty_role)));
    values.push(ColumnValue::Id(guild.moderator_role.get()));
    values.push(ColumnValue::Id(guild.newsletter_role.get()));
    values.push(ColumnValue::Id(guild.nsfw_role.get()));
    values.push(ColumnValue::Id(guild.study_role_separator_role.get()));
    values.push(ColumnValue::Id(guild.subject_role_separator_role.get()));
    values.push(ColumnValue::Id(guild.friend_role.get()));
    values.push(ColumnValue::Unsigned(guild.tmpc_keep_time));
    values.push(ColumnValue::Id(guild.alumni_role.get()));
    values.push(ColumnValue::Id(guild.alumni_role_separator_role.get()));
    assert(values@ =~= old(values)@ + configuration_values(*guild));
}

/// The statement that stores `guild` as a new record, and the values that
/// it takes, in the order of its placeholders.
pub fn insert_guild(guild: &DatabaseGuild) -> (query: (&'static str, Vec<ColumnValue>))
    ensures
        query.0@ == INSERT_GUILD@,
        query.1@ == insert_values(*guild),
{
    let mut values: Vec<ColumnValue> = Vec::new();
    values.push(ColumnValue::Id(guild.guild_id.get()));
    push_configuration(&mut values, guild);
    assert(values@ =~= insert_values(*guild));
    (INSERT_GUILD, values)
}

/// The statement that replaces the stored configuration by `guild`, and
/// the values that it takes, in the order of its placeholders.
pub fn update_guild(guild: &DatabaseGuild) -> (query: (&'static str, Vec<ColumnValue>))
    ensures
        query.0@ == UPDATE_GUILD@,
        query.1@ == replace_values(*guild),
{
    let mut values: Vec<ColumnValue> = Vec::new();
    push_configuration(&mut values, guild);
    values.push(ColumnValue::Id(guild.guild_id.get()));
    assert(values@ =~= replace_values(*guild));
    (UPDATE_GUILD, values)
}

/// One record of the table of guilds, column by column.
#[derive(Clone, Copy, Debug, PartialEq, Eq, Hash, Structural)]
pub struct GuildRow {
    pub guild_id: u64,
    pub ghost_warn_deadline: u32,
    pub ghost_kick_deadline: u32,
    pub ghost_time_to_check: TimeOfDay,
    pub ghost_enabled: bool,
    pub debug_channel: u64,
    pub bot_channel: u64,
    pub help_channel: u64,
    pub logger_pipe_channel: Option<u64>,
    pub study_group_category: u64,
    pub subject_group_category: u64,
    pub studenty_role: u64,
    pub tmp_studenty_role: Option<u64>,
    pub moderator_role: u64,
    pub newsletter_role: u64,
    pub nsfw_role: u64,
    pub study_role_separator_role: u64,
    pub subject_role_separator_role: u64,
    pub friend_role: u64,
    pub tmpc_keep_time: u32,
    pub alumni_role: u64,
    pub alumni_role_separator_role: u64,
}

impl DatabaseGuild {
    /// The record as the table holds it.
    pub open spec fn row(self) -> GuildRow {
        GuildRow {
            guild_id: self.guild_id.0,
            ghost_warn_deadline: self.ghost_warning_deadline,
            ghost_kick_deadline: self.ghost_kick_deadline,
            ghost_time_to_check: self.ghost_time_to_check,
            ghost_enabled: self.ghost_enabled,
            debug_channel: self.debug_channel.0,
            bot_channel: self.bot_channel.0,
            help_channel: self.help_channel.0,
            logger_pipe_channel: optional_channel(self.logger_pipe_channel),
            study_group_category: self.study_group_category.0,
            subject_group_category: self.subject_group_category.0,
            studenty_role: self.studenty_role.0,
            tmp_studenty_role: optional_role(self.tmp_studenty_role),
            moderator_role: self.moderator_role.0,
            newsletter_role: self.newsletter_role.0,
            nsfw_role: self.nsfw_role.0,
            study_role_separator_role: self.study_role_separator_role.0,
            subject_role_separator_role: self.subject_role_separator_role.0,
            friend_role: self.friend_role.0,
            tmpc_keep_time: self.tmpc_keep_time,
            alumni_role: self.alumni_role.0,
            alumni_role_separator_role: self.alumni_role_separator_role.0,
        }
    }

    /// The configuration that a record of the table holds.
    pub open spec fn of_row(row: GuildRow) -> DatabaseGuild {
        DatabaseGuild {
            guild_id: GuildId(row.guild_id),
            ghost_warning_deadline: row.ghost_warn_deadline,
            ghost_kick_deadline: row.ghost_kick_deadline,
            ghost_time_to_check: row.ghost_time_to_check,
            ghost_enabled: row.ghost_enabled,
            debug_channel: ChannelId(row.debug_channel),
            bot_channel: ChannelId(row.bot_channel),
            help_channel: ChannelId(row.help_channel),
            logger_pipe_channel: match row.logger_pipe_channel {
                Some(id) => Some(ChannelId(id)),
                None => None,
            },
            study_group_category: ChannelId(row.study_group_category),
            subject_group_category: ChannelId(row.subject_group_category),
            studenty_role: RoleId(row.studenty_role),
            tmp_studenty_role: match row.tmp_studenty_role {
                Some(id) => Some(RoleId(id)),
                None => None,
            },
            moderator_role: RoleId(row.moderator_role),
            newsletter_role: RoleId(row.newsletter_role),
            nsfw_role: RoleId(row.nsfw_role),
            study_role_separator_role: RoleId(row.study_role_separator_role),
            subject_role_separator_role: RoleId(row.subject_role_separator_role),
            friend_role: RoleId(row.friend_role),
            tmpc_keep_time: row.tmpc_keep_time,
            alumni_role: RoleId(row.alumni_role),
            alumni_role_separator_role: RoleId(row.alumni_role_separator_role),
        }
    }

    /// The record as the table holds it once `insert_guild` has stored the
    /// configuration: with no log channel.
    pub open spec fn inserted_row(self) -> GuildRow {
        GuildRow { logger_pipe_channel: None, ..self.row() }
    }

    /// The record as the table holds it.
    pub fn to_row(&self) -> (row: GuildRow)
        ensures
            row == self.row(),
    {
        GuildRow {
            guild_id: self.guild_id.get(),
            ghost_warn_deadline: self.ghost_warning_deadline,
            ghost_kick_deadline: self.ghost_kick_deadline,
            ghost_time_to_check: self.ghost_time_to_check,
            ghost_enabled: self.ghost_enabled,
            debug_channel: self.debug_channel.get(),
            bot_channel: self.bot_channel.get(),
            help_channel: self.help_channel.get(),
            logger_pipe_channel: channel_number(self.logger_pipe_channel),
            study_group_category: self.study_group_category.get(),
            subject_group_category: self.subject_group_category.get(),
            studenty_role: self.studenty_role.get(),
            tmp_studenty_role: role_number(self.tmp_studenty_role),
            moderator_role: self.moderator_role.get(),
            newsletter_role: self.newsletter_role.get(),
            nsfw_role: self.nsfw_role.get(),
            study_role_separator_role: self.study_role_separator_role.get(),
            subject_role_separator_role: self.subject_role_separator_role.get(),
            friend_role: self.friend_role.get(),
            tmpc_keep_time: self.tmpc_keep_time,
            alumni_role: self.alumni_role.get(),
            alumni_role_separator_role: self.alumni_role_separator_role.get(),
        }
    }

    /// The configuration that a record of the table holds.
    pub fn from_row(row: &GuildRow) -> (guild: DatabaseGuild)
        ensures
            guild == DatabaseGuild::of_row(*row),
    {
        DatabaseGuild {
            guild_id: GuildId::new(row.guild_id),
            ghost_warning_deadline: row.ghost_warn_deadline,
            ghost_kick_deadline: row.ghost_kick_deadline,
            ghost_time_to_check: row.ghost_time_to_check,
            ghost_enabled: row.ghost_enabled,
            debug_channel: ChannelId::new(row.debug_channel),
            bot_channel: ChannelId::new(row.bot_channel),
            help_channel: ChannelId::new(row.help_channel),
            logger_pipe_channel: match row.logger_pipe_channel {
                Some(id) => Some(ChannelId::new(id)),
                None => None,
            },
            study_group_category: ChannelId::new(row.study_group_category),
            subject_group_category: ChannelId::new(row.subject_group_category),
            studenty_role: RoleId::new(row.studenty_role),
            tmp_studenty_role: match row.tmp_studenty_role {
                Some(id) => Some(RoleId::new(id)),
                None => None,
            },
            moderator_role: RoleId::new(row.moderator_role),
            newsletter_role: RoleId::new(row.newsletter_role),
            nsfw_role: RoleId::new(row.nsfw_role),
            study_role_separator_role: RoleId::new(row.study_role_separator_role),
            subject_role_separator_role: RoleId::new(row.subject_role_separator_role),
            friend_role: RoleId::new(row.friend_role),
            tmpc_keep_time: row.tmpc_keep_time,
            alumni_role: RoleId::new(row.alumni_role),
            alumni_role_separator_role: RoleId::new(row.alumni_role_separator_role),
        }
    }
}

impl GuildRow {
    /// The values of the record in the order in which `INSERT_GUILD` names
    /// its columns. The log channel is not among them.
    pub open spec fn inserted(self) -> Seq<ColumnValue> {
        seq![
            ColumnValue::Id(self.guild_id),
            ColumnValue::Unsigned(self.ghost_warn_deadline),
            ColumnValue::Unsigned(self.ghost_kick_deadline),
            ColumnValue::Time(self.ghost_time_to_check),
            ColumnValue::Flag(self.ghost_enabled),
            ColumnValue::Id(self.debug_channel),
            ColumnValue::Id(self.bot_channel),
            ColumnValue::Id(self.help_channel),
            ColumnValue::Id(self.study_group_category),
            ColumnValue::Id(self.subject_group_category),
            ColumnValue::Id(self.studenty_role),
            ColumnValue::OptionalId(self.tmp_studenty_role),
            ColumnValue::Id(self.moderator_role),
            ColumnValue::Id(self.newsletter_role),
            ColumnValue::Id(self.nsfw_role),
            ColumnValue::Id(self.study_role_separator_role),
            ColumnValue::Id(self.subject_role_separator_role),
            ColumnValue::Id(self.friend_role),
            ColumnValue::Unsigned(self.tmpc_keep_time),
            ColumnValue::Id(self.alumni_role),
            ColumnValue::Id(self.alumni_role_separator_role),
        ]
    }
}

/// What `insert_guild` hands to the storage is the record of the guild,
/// column by column, and these values leave nothing of the record open
/// but the log channel.
pub proof fn lemma_insert_writes_the_row(guild: DatabaseGuild, a: GuildRow, b: GuildRow)
    ensures
        insert_values(guild) == guild.inserted_row().inserted(),
        a.inserted() == b.inserted() && a.logger_pipe_channel == b.logger_pipe_channel ==> a == b,
{
    assert(insert_values(guild) =~= guild.inserted_row().inserted());
    if a.inserted() == b.inserted() {
        let x = a.inserted();
        let y = b.inserted();
        assert(x[0] == y[0] && x[1] == y[1] && x[2] == y[2] && x[3] == y[3] && x[4] == y[4]
            && x[5] == y[5] && x[6] == y[6] && x[7] == y[7] && x[8] == y[8] && x[9] == y[9]
            && x[10] == y[10]);
        assert(x[11] == y[11] && x[12] == y[12] && x[13] == y[13] && x[14] == y[14] && x[15]
            == y[15] && x[16] == y[16] && x[17] == y[17] && x[18] == y[18] && x[19] == y[19]
            && x[20] == y[20]);
    }
}

/// A configuration that is written to a record and read back is the
/// configuration that was written, and a record that is read and written
/// back is the record that was read.
pub proof fn lemma_row_round_trip(guild: DatabaseGuild, row: GuildRow)
    ensures
        DatabaseGuild::of_row(guild.row()) == guild,
        DatabaseGuild::of_row(row).row() == row,
{
}

/// A configuration that `insert_guild` stores and that is read back agrees
/// with the one that was written on the guild and on every field of the
/// wizard. It is the very same record if that had no log channel.
pub proof fn lemma_inserted_row_reads_back(guild: DatabaseGuild)
    ensures
        DatabaseGuild::of_row(guild.inserted_row()).same_configuration(guild),
        guild.logger_pipe_channel is None ==> DatabaseGuild::of_row(guild.inserted_row()) == guild,
{
}

} // verus!
