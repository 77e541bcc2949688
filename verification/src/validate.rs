//! Checks of stored records against what the chat platform knows.
//!
//! The bot looks the guilds, roles, channels and messages up. What it found
//! comes in here, and what is to be said and done about a record goes out.

use crate::ids::{ChannelId, GuildId, RoleId};
use crate::records::{
    DatabaseAlumniRole, DatabaseGuild, DatabaseSemesterStudyGroup, DatabaseStudyGroup,
    DatabaseStudySubjectLink, DatabaseSubject, DatabaseTmpc, DatabaseTmpcJoinChannel,
    DatabaseTokenMessage,
};
use crate::text::{decimal, push_decimal};
use vstd::prelude::*;

verus! {

/// A part of a guild's configuration that the platform has to know.
#[derive(Clone, Copy, Debug, PartialEq, Eq, Hash, Structural)]
pub enum GuildPart {
    Guild,
    StudentyRole,
    ModeratorRole,
    NewsletterRole,
    NsfwRole,
    StudyRoleSeparatorRole,
    SubjectRoleSeparatorRole,
    FriendRole,
    AlumniRole,
    AlumniRoleSeparatorRole,
    DebugChannel,
    BotChannel,
    HelpChannel,
    LoggerPipeChannel,
    StudyGroupCategory,
    SubjectGroupCategory,
}

impl GuildPart {
    /// How messages call the part.
    pub open spec fn label_text(self) -> Seq<char> {
        match self {
            GuildPart::Guild => "guild"@,
            GuildPart::StudentyRole => "studenty role"@,
            GuildPart::ModeratorRole => "moderator role"@,
            GuildPart::NewsletterRole => "newsletter role"@,
            GuildPart::NsfwRole => "nsfw role"@,
            GuildPart::StudyRoleSeparatorRole => "study role separator role"@,
            GuildPart::SubjectRoleSeparatorRole => "subject role separator role"@,
            GuildPart::FriendRole => "friend role"@,
            GuildPart::AlumniRole => "alumni role"@,
            GuildPart::AlumniRoleSeparatorRole => "alumni role separator role"@,
            GuildPart::DebugChannel => "debug channel"@,
            GuildPart::BotChannel => "bot channel"@,
            GuildPart::HelpChannel => "help channel"@,
            GuildPart::LoggerPipeChannel => "logger pipe channel"@,
            GuildPart::StudyGroupCategory => "study group category"@,
            GuildPart::SubjectGroupCategory => "subject group category"@,
        }
    }

    /// How messages call the part.
    pub fn label(self) -> (label: &'static str)
        ensures
            label@ == self.label_text(),
    {
        match self {
            GuildPart::Guild => "guild",
            GuildPart::StudentyRole => "studenty role",
            GuildPart::ModeratorRole => "moderator role",
            GuildPart::NewsletterRole => "newsletter role",
            GuildPart::NsfwRole => "nsfw role",
            GuildPart::StudyRoleSeparatorRole => "study role separator role",
            GuildPart::SubjectRoleSeparatorRole => "subject role separator role",
            GuildPart::FriendRole => "friend role",
            GuildPart::AlumniRole => "alumni role",
            GuildPart::AlumniRoleSeparatorRole => "alumni role separator role",
            GuildPart::DebugChannel => "debug channel",
            GuildPart::BotChannel => "bot channel",
            GuildPart::HelpChannel => "help channel",
            GuildPart::LoggerPipeChannel => "logger pipe channel",
            GuildPart::StudyGroupCategory => "study group category",
            GuildPart::SubjectGroupCategory => "subject group category",
        }
    }
}

/// The message on something called `label` with identifier `id` that the
/// platform does not know.
pub open spec fn unknown_text(label: Seq<char>, id: u64) -> Seq<char> {
    "Bot doesn't know "@ + label + ": "@ + decimal(id as nat)
}

/// The message on something called `label` with identifier `id` that the
/// platform does not know.
pub fn unknown_message(label: &str, id: u64) -> (message: String)
    ensures
        message@ == unknown_text(label@, id),
{
    let mut message = String::from_str("Bot doesn't know ");
    message.append(label);
    message.append(": ");
    push_decimal(&mut message, id);
    message
}

/// The message on two things that are called `label` together, of which
/// the platform does not know one.
pub open spec fn unknown_pair_text(label: Seq<char>, first: u64, second: u64) -> Seq<char> {
    "Bot doesn't know "@ + label + ": "@ + decimal(first as nat) + " "@ + decimal(second as nat)
}

/// The message on two things that are called `label` together, of which
/// the platform does not know one.
pub fn unknown_pair_message(label: &str, first: u64, second: u64) -> (message: String)
    ensures
        message@ == unknown_pair_text(label@, first, second),
{
    let mut message = String::from_str("Bot doesn't know ");
    message.append(label);
    message.append(": ");
    push_decimal(&mut message, first);
    message.append(" ");
    push_decimal(&mut message, second);
    message
}

/// Whether `role` is among `roles`.
pub fn contains_role(roles: &Vec<RoleId>, role: RoleId) -> (found: bool)
    ensures
        found == roles@.contains(role),
{
    let mut index: usize = 0;
    while index < roles.len()
        invariant
            index <= roles.len(),
            forall|i: int| 0 <= i < index ==> roles@[i] != role,
        decreases roles.len() - index,
    {
        if roles[index] == role {
            return true;
        }
        index = index + 1;
    }
    false
}

/// The roles of a guild in the order in which they are checked. The
/// temporary studenty role is not among them: a guild can do without it.
pub open spec fn required_roles(guild: DatabaseGuild) -> Seq<(GuildPart, RoleId)> {
    seq![
        (GuildPart::StudentyRole, guild.studenty_role),
        (GuildPart::ModeratorRole, guild.moderator_role),
        (GuildPart::NewsletterRole, guild.newsletter_role),
        (GuildPart::NsfwRole, guild.nsfw_role),
        (GuildPart::StudyRoleSeparatorRole, guild.study_role_separator_role),
        (GuildPart::SubjectRoleSeparatorRole, guild.subject_role_separator_role),
        (GuildPart::FriendRole, guild.friend_role),
        (GuildPart::AlumniRole, guild.alumni_role),
        (GuildPart::AlumniRoleSeparatorRole, guild.alumni_role_separator_role),
    ]
}

/// The place of the first of `wanted` that is not among `known`, from
/// place `from` on; the length of `wanted` if all are known.
pub open spec fn first_unknown(
    wanted: Seq<(GuildPart, RoleId)>,
    known: Seq<RoleId>,
    from: int,
) -> int
    decreases wanted.len() - from,
{
    if from < 0 || from >= wanted.len() {
        wanted.len() as int
    } else if !known.contains(wanted[from].1) {
        from
    } else {
        first_unknown(wanted, known, from + 1)
    }
}

/// What the check of a guild's roles found.
#[derive(Clone, Debug)]
pub struct GuildRoles {
    /// The guild has a temporary studenty role that the platform does not
    /// know: it is to be removed from the stored configuration.
    pub remove_tmp_studenty_role: bool,
    /// What is wrong with the guild; `None` if all its roles are known.
    pub error: Option<String>,
}

/// `GuildRoles` with its message as a sequence of characters.
pub struct GuildRolesView {
    pub remove_tmp_studenty_role: bool,
    pub error: Option<Seq<char>>,
}

impl View for GuildRoles {
    type V = GuildRolesView;

    open spec fn view(&self) -> GuildRolesView {
        GuildRolesView {
            remove_tmp_studenty_role: self.remove_tmp_studenty_role,
            error: match self.error {
                Some(message) => Some(message@),
                None => None,
            },
        }
    }
}

/// What the check of a guild's roles finds. `roles` are the roles that the
/// platform knows of the guild, or `None` if it does not know the guild.
///
/// An unknown guild or an unknown studenty role ends the check. Else an
/// unknown temporary studenty role is marked for removal, and the first
/// unknown role among the others, if any, is the error.
pub open spec fn guild_roles(guild: DatabaseGuild, roles: Option<Seq<RoleId>>) -> GuildRolesView {
    match roles {
        None => GuildRolesView {
            remove_tmp_studenty_role: false,
            error: Some(unknown_text(GuildPart::Guild.label_text(), guild.guild_id.0)),
        },
        Some(known) => {
            let wanted = required_roles(guild);
            let unknown = first_unknown(wanted, known, 0);
            GuildRolesView {
                remove_tmp_studenty_role: unknown != 0 && guild.tmp_studenty_role is Some
                    && !known.contains(guild.tmp_studenty_role->0),
                error: if unknown < wanted.len() {
                    Some(unknown_text(wanted[unknown].0.label_text(), wanted[unknown].1.0))
                } else {
                    None
                },
            }
        },
    }
}

fn required_role_list(guild: &DatabaseGuild) -> (wanted: Vec<(GuildPart, RoleId)>)
    ensures
        wanted@ == required_roles(*guild),
{
    let mut wanted: Vec<(GuildPart, RoleId)> = Vec::new();
    wanted.push((GuildPart::StudentyRole, guild.studenty_role));
    wanted.push((GuildPart::ModeratorRole, guild.moderator_role));
    wanted.push((GuildPart::NewsletterRole, guild.newsletter_role));
    wanted.push((GuildPart::NsfwRole, guild.nsfw_role));
    wanted.push((GuildPart::StudyRoleSeparatorRole, guild.study_role_separator_role));
    wanted.push((GuildPart::SubjectRoleSeparatorRole, guild.subject_role_separator_role));
    wanted.push((GuildPart::FriendRole, guild.friend_role));
    wanted.push((GuildPart::AlumniRole, guild.alumni_role));
    wanted.push((GuildPart::AlumniRoleSeparatorRole, guild.alumni_role_separator_role));
    assert(wanted@ =~= required_roles(*guild));
    wanted
}

/// Checks the roles of a stored guild against the roles that the platform
/// knows of it; `roles` is `None` if the platform does not know the guild.
pub fn validate_guild_roles(guild: &DatabaseGuild, roles: Option<&Vec<RoleId>>) -> (found:
    GuildRoles)
    ensures
        found@ == guild_roles(
            *guild,
            match roles {
                Some(known) => Some(known@),
                None => None,
            },
        ),
{
    match roles {
        None => GuildRoles {
            remove_tmp_studenty_role: false,
            error: Some(unknown_message(GuildPart::Guild.label(), guild.guild_id.get())),
        },
        Some(known) => {
            let wanted = required_role_list(guild);
            let mut index: usize = 0;
            while index < wanted.len() && contains_role(known, wanted[index].1)
                invariant
                    index <= wanted.len(),
                    wanted@ == required_roles(*guild),
                    first_unknown(wanted@, known@, 0) == first_unknown(
                        wanted@,
                        known@,
                        index as int,
                    ),
                decreases wanted.len() - index,
            {
                index = index + 1;
            }
            assert(first_unknown(wanted@, known@, 0) == index);
            let remove = index != 0 && match guild.tmp_studenty_role {
                Some(role) => !contains_role(known, role),
                None => false,
            };
            let error = if index < wanted.len() {
                Some(unknown_message(wanted[index].0.label(), wanted[index].1.get()))
            } else {
                None
            };
            GuildRoles { remove_tmp_studenty_role: remove, error }
        },
    }
}

pub const TMP_STUDENTY_ROLE_NOT_REMOVED: &'static str =
    "Couldn't remove tmp studenty role, query problem.";

/// Takes the answer of the storage to the removal of the temporary
/// studenty role: `None` if the storage failed, else whether the record
/// changed. After a failure the guild is left as it is and the error is
/// returned; else the guild loses the role.
pub fn tmp_studenty_role_removed(guild: &mut DatabaseGuild, stored: Option<bool>) -> (result: Result<
    (),
    String,
>)
    ensures
        stored is None ==> *final(guild) == *old(guild) && (result matches Err(message)
            && message@ == TMP_STUDENTY_ROLE_NOT_REMOVED@),
        stored is Some ==> result is Ok && *final(guild) == (DatabaseGuild {
            tmp_studenty_role: None,
            ..*old(guild)
        }),
{
    match stored {
        None => Err(String::from_str(TMP_STUDENTY_ROLE_NOT_REMOVED)),
        Some(_) => {
            guild.tmp_studenty_role = None;
            Ok(())
        },
    }
}

/// The channels of a guild in the order in which they are checked. The
/// channel of the logs is among them only if the guild has one.
pub open spec fn required_channels(guild: DatabaseGuild) -> Seq<(GuildPart, ChannelId)> {
    seq![
        (GuildPart::DebugChannel, guild.debug_channel),
        (GuildPart::BotChannel, guild.bot_channel),
        (GuildPart::HelpChannel, guild.help_channel),
    ] + (match guild.logger_pipe_channel {
        Some(channel) => seq![(GuildPart::LoggerPipeChannel, channel)],
        None => Seq::<(GuildPart, ChannelId)>::empty(),
    }) + seq![
        (GuildPart::StudyGroupCategory, guild.study_group_category),
        (GuildPart::SubjectGroupCategory, guild.subject_group_category),
    ]
}

/// The channels of a guild that the platform has to know, in the order in
/// which they are to be looked up.
pub fn guild_channels(guild: &DatabaseGuild) -> (wanted: Vec<(GuildPart, ChannelId)>)
    ensures
        wanted@ == required_channels(*guild),
{
    let mut wanted: Vec<(GuildPart, ChannelId)> = Vec::new();
    wanted.push((GuildPart::DebugChannel, guild.debug_channel));
    wanted.push((GuildPart::BotChannel, guild.bot_channel));
    wanted.push((GuildPart::HelpChannel, guild.help_channel));
    match guild.logger_pipe_channel {
        Some(channel) => {
            wanted.push((GuildPart::LoggerPipeChannel, channel));
        },
        None => {},
    }
    wanted.push((GuildPart::StudyGroupCategory, guild.study_group_category));
    wanted.push((GuildPart::SubjectGroupCategory, guild.subject_group_category));
    assert(wanted@ =~= required_channels(*guild));
    wanted
}

/// The error on the first channel of the guild that the platform does not
/// know. `known[i]` says whether it knows the channel at place `i` of
/// `guild_channels`; a channel without an answer counts as known.
pub open spec fn first_unknown_channel(
    wanted: Seq<(GuildPart, ChannelId)>,
    known: Seq<bool>,
    from: int,
) -> Option<Seq<char>>
    decreases wanted.len() - from,
{
    if from < 0 || from >= wanted.len() {
        None
    } else if from < known.len() && !known[from] {
        Some(unknown_text(wanted[from].0.label_text(), wanted[from].1.0))
    } else {
        first_unknown_channel(wanted, known, from + 1)
    }
}

/// Checks the channels of a stored guild. `known[i]` says whether the
/// platform knows the channel at place `i` of `guild_channels`. Returns
/// the error on the first channel that it does not know, if any.
pub fn validate_guild_channels(guild: &DatabaseGuild, known: &Vec<bool>) -> (error: Option<String>)
    ensures
        (match error {
            Some(message) => Some(message@),
            None => None,
        }) == first_unknown_channel(required_channels(*guild), known@, 0),
{
    let wanted = guild_channels(guild);
    let mut index: usize = 0;
    while index < wanted.len()
        invariant
            index <= wanted.len(),
            wanted@ == required_channels(*guild),
            first_unknown_channel(wanted@, known@, 0) == first_unknown_channel(
                wanted@,
                known@,
                index as int,
            ),
        decreases wanted.len() - index,
    {
        if index < known.len() && !known[index] {
            return Some(unknown_message(wanted[index].0.label(), wanted[index].1.get()));
        }
        index = index + 1;
    }
    None
}

/// What the check of a guild asks for next, or how it ended.
#[derive(Clone, Debug)]
pub enum GuildCheck {
    /// The temporary studenty role is gone: remove it from the stored
    /// configuration and come back with the answer of the storage.
    RemoveTmpStudentyRole,
    /// Look `channel` up and come back with the answer.
    LookUp { channel: ChannelId },
    /// The check is over: the platform knows all that the guild names.
    Valid,
    /// The check is over: `message` says what is wrong with the guild.
    Invalid { message: String },
}

/// `GuildCheck` with its message as a sequence of characters.
pub enum GuildCheckView {
    RemoveTmpStudentyRole,
    LookUp { channel: ChannelId },
    Valid,
    Invalid { message: Seq<char> },
}

impl View for GuildCheck {
    type V = GuildCheckView;

    open spec fn view(&self) -> GuildCheckView {
        match self {
            GuildCheck::RemoveTmpStudentyRole => GuildCheckView::RemoveTmpStudentyRole,
            GuildCheck::LookUp { channel } => GuildCheckView::LookUp { channel: *channel },
            GuildCheck::Valid => GuildCheckView::Valid,
            GuildCheck::Invalid { message } => GuildCheckView::Invalid { message: message@ },
        }
    }
}

/// How the check of the channels goes on. `known` holds the answers so
/// far, in the order of `wanted`. An unknown channel ends the check, else
/// the next channel without an answer is looked up, and with all channels
/// known the guild is valid.
pub open spec fn channel_check(wanted: Seq<(GuildPart, ChannelId)>, known: Seq<bool>) -> GuildCheckView {
    match first_unknown_channel(wanted, known, 0) {
        Some(message) => GuildCheckView::Invalid { message },
        None => if known.len() < wanted.len() {
            GuildCheckView::LookUp { channel: wanted[known.len() as int].1 }
        } else {
            GuildCheckView::Valid
        },
    }
}

/// How the check of a guild goes on, given the answers so far.
///
/// `roles` are the roles that the platform knows of the guild, `removed`
/// is the answer of the storage to the removal of the temporary studenty
/// role, if it was asked, and `known` says of the channels looked up so
/// far whether the platform knows them.
///
/// An unknown guild or studenty role ends the check. Then an unknown
/// temporary studenty role is removed; if the storage fails at that, the
/// check ends. Then the first unknown role among the others ends it, and
/// then the channels are looked up one by one, up to the first unknown one.
pub open spec fn guild_check(
    guild: DatabaseGuild,
    roles: Option<Seq<RoleId>>,
    removed: Option<Option<bool>>,
    known: Seq<bool>,
) -> GuildCheckView {
    let found = guild_roles(guild, roles);
    if found.remove_tmp_studenty_role && removed is None {
        GuildCheckView::RemoveTmpStudentyRole
    } else if found.remove_tmp_studenty_role && removed == Some(None::<bool>) {
        GuildCheckView::Invalid { message: TMP_STUDENTY_ROLE_NOT_REMOVED@ }
    } else {
        match found.error {
            Some(message) => GuildCheckView::Invalid { message },
            None => channel_check(required_channels(guild), known),
        }
    }
}

/// The guild once the check has gone one step on: without its temporary
/// studenty role where that was to be removed and the storage answered,
/// unchanged else.
pub open spec fn guild_checked(
    guild: DatabaseGuild,
    roles: Option<Seq<RoleId>>,
    removed: Option<Option<bool>>,
) -> DatabaseGuild {
    match removed {
        Some(Some(_)) => if guild_roles(guild, roles).remove_tmp_studenty_role {
            DatabaseGuild { tmp_studenty_role: None, ..guild }
        } else {
            guild
        },
        _ => guild,
    }
}

/// Takes the check of a stored guild one step on. The caller does what
/// the result asks for, adds the answer to `removed` or `known`, and calls
/// again until the result is `Valid` or `Invalid`.
pub fn validate_guild(
    guild: &mut DatabaseGuild,
    roles: Option<&Vec<RoleId>>,
    removed: Option<Option<bool>>,
    known: &Vec<bool>,
) -> (next: GuildCheck)
    ensures
        next@ == guild_check(
            *old(guild),
            match roles {
                Some(all) => Some(all@),
                None => None,
            },
            removed,
            known@,
        ),
        *final(guild) == guild_checked(
            *old(guild),
            match roles {
                Some(all) => Some(all@),
                None => None,
            },
            removed,
        ),
{
    let found = validate_guild_roles(guild, roles);
    if found.remove_tmp_studenty_role {
        match removed {
            None => {
                return GuildCheck::RemoveTmpStudentyRole;
            },
            Some(stored) => {
                match tmp_studenty_role_removed(guild, stored) {
                    Err(message) => {
                        return GuildCheck::Invalid { message };
                    },
                    Ok(_) => {},
                }
            },
        }
    }
    match found.error {
        Some(message) => GuildCheck::Invalid { message },
        None => {
            let wanted = guild_channels(guild);
            match validate_guild_channels(guild, known) {
                Some(message) => GuildCheck::Invalid { message },
                None => if known.len() < wanted.len() {
                    GuildCheck::LookUp { channel: wanted[known.len()].1 }
                } else {
                    GuildCheck::Valid
                },
            }
        },
    }
}

/// A sort of record that is removed from the storage once the platform
/// does not know what it stands for.
#[derive(Clone, Copy, Debug, PartialEq, Eq, Hash, Structural)]
pub enum RecordKind {
    AlumniRole,
    SemesterStudyGroup,
    Subject,
    StudySubjectLink,
    TmpcJoinChannel,
    Tmpc,
    TokenMessage,
}

impl RecordKind {
    /// How messages call a record of this sort.
    pub open spec fn noun_text(self) -> Seq<char> {
        match self {
            RecordKind::AlumniRole => "alumni role"@,
            RecordKind::SemesterStudyGroup => "semester study group"@,
            RecordKind::Subject => "subject"@,
            RecordKind::StudySubjectLink => "study-subject link"@,
            RecordKind::TmpcJoinChannel => "tmpc join channel"@,
            RecordKind::Tmpc => "tmpc"@,
            RecordKind::TokenMessage => "token message"@,
        }
    }

    /// How messages call a record of this sort.
    pub fn noun(self) -> (noun: &'static str)
        ensures
            noun@ == self.noun_text(),
    {
        match self {
            RecordKind::AlumniRole => "alumni role",
            RecordKind::SemesterStudyGroup => "semester study group",
            RecordKind::Subject => "subject",
            RecordKind::StudySubjectLink => "study-subject link",
            RecordKind::TmpcJoinChannel => "tmpc join channel",
            RecordKind::Tmpc => "tmpc",
            RecordKind::TokenMessage => "token message",
        }
    }
}

/// What the check of a record found.
#[derive(Clone, Debug)]
pub enum Validation {
    /// The platform knows everything that the record names.
    Valid,
    /// The record cannot be used, for the reason in `message`. It stays in
    /// the storage.
    Invalid { message: String },
    /// The record names something that is gone. It is to be removed from
    /// the storage; `removal_finished` then gives the error to report.
    Remove { kind: RecordKind, message: String },
}

/// `Validation` with its messages as sequences of characters.
pub enum ValidationView {
    Valid,
    Invalid { message: Seq<char> },
    Remove { kind: RecordKind, message: Seq<char> },
}

impl View for Validation {
    type V = ValidationView;

    open spec fn view(&self) -> ValidationView {
        match self {
            Validation::Valid => ValidationView::Valid,
            Validation::Invalid { message } => ValidationView::Invalid { message: message@ },
            Validation::Remove { kind, message } => ValidationView::Remove {
                kind: *kind,
                message: message@,
            },
        }
    }
}

/// The verdict on a record of a guild that the platform does not know.
pub open spec fn unknown_guild(guild_id: GuildId) -> ValidationView {
    ValidationView::Invalid { message: unknown_text(GuildPart::Guild.label_text(), guild_id.0) }
}

fn guild_unknown(guild_id: GuildId) -> (verdict: Validation)
    ensures
        verdict@ == unknown_guild(guild_id),
{
    Validation::Invalid { message: unknown_message(GuildPart::Guild.label(), guild_id.get()) }
}

/// The error to report once the removal of a record was tried: that the
/// record could not be removed, if the storage failed; else why the record
/// was removed.
pub open spec fn removal_text(kind: RecordKind, message: Seq<char>, stored: Option<bool>) -> Seq<
    char,
> {
    match stored {
        None => "Couldn't remove "@ + kind.noun_text() + ", query problem."@,
        Some(_) => message,
    }
}

/// Takes the answer of the storage to the removal that a check asked for:
/// `None` if the storage failed, else whether a record was removed.
/// Returns the error to report.
pub fn removal_finished(kind: RecordKind, message: String, stored: Option<bool>) -> (error: String)
    ensures
        error@ == removal_text(kind, message@, stored),
{
    match stored {
        None => {
            let mut error = String::from_str("Couldn't remove ");
            error.append(kind.noun());
            error.append(", query problem.");
            error
        },
        Some(_) => message,
    }
}

/// The verdict on an alumni role: invalid for an unknown guild, to be
/// removed if the guild has no such role.
pub open spec fn alumni_verdict(alumni: DatabaseAlumniRole, roles: Option<Seq<RoleId>>) -> ValidationView {
    match roles {
        None => unknown_guild(alumni.guild_id),
        Some(known) => if known.contains(alumni.role) {
            ValidationView::Valid
        } else {
            ValidationView::Remove {
                kind: RecordKind::AlumniRole,
                message: unknown_text("alumni role"@, alumni.role.0),
            }
        },
    }
}

/// Checks an alumni role against the roles that the platform knows of its
/// guild; `roles` is `None` if the platform does not know the guild.
pub fn validate_alumni(alumni: &DatabaseAlumniRole, roles: Option<&Vec<RoleId>>) -> (verdict:
    Validation)
    ensures
        verdict@ == alumni_verdict(
            *alumni,
            match roles {
                Some(known) => Some(known@),
                None => None,
            },
        ),
{
    match roles {
        None => guild_unknown(alumni.guild_id),
        Some(known) => if contains_role(known, alumni.role) {
            Validation::Valid
        } else {
            Validation::Remove {
                kind: RecordKind::AlumniRole,
                message: unknown_message("alumni role", alumni.role.get()),
            }
        },
    }
}

/// Checks a study group: it is valid if the platform knows its guild.
/// Nothing is removed for an unknown guild.
pub fn validate_study_group(study_group: &DatabaseStudyGroup, guild_known: bool) -> (verdict:
    Validation)
    ensures
        verdict@ == (if guild_known {
            ValidationView::Valid
        } else {
            unknown_guild(study_group.guild_id)
        }),
{
    if guild_known {
        Validation::Valid
    } else {
        guild_unknown(study_group.guild_id)
    }
}

/// The verdict on a semester study group: invalid for an unknown guild, to
/// be removed if its role or, with a known role, its text channel is gone.
pub open spec fn semester_study_group_verdict(
    group: DatabaseSemesterStudyGroup,
    guild_id: GuildId,
    roles: Option<Seq<RoleId>>,
    text_channel_known: bool,
) -> ValidationView {
    match roles {
        None => unknown_guild(guild_id),
        Some(known) => if !known.contains(group.role) {
            ValidationView::Remove {
                kind: RecordKind::SemesterStudyGroup,
                message: unknown_text("semester study group"@, group.role.0),
            }
        } else if !text_channel_known {
            ValidationView::Remove {
                kind: RecordKind::SemesterStudyGroup,
                message: unknown_text(
                    "text channel of semester study group"@,
                    group.text_channel.0,
                ),
            }
        } else {
            ValidationView::Valid
        },
    }
}

/// Checks a semester study group of the guild `guild_id`. `roles` are the
/// roles that the platform knows of the guild, or `None` if it does not
/// know the guild.
pub fn validate_semester_study_group(
    group: &DatabaseSemesterStudyGroup,
    guild_id: GuildId,
    roles: Option<&Vec<RoleId>>,
    text_channel_known: bool,
) -> (verdict: Validation)
    ensures
        verdict@ == semester_study_group_verdict(
            *group,
            guild_id,
            match roles {
                Some(known) => Some(known@),
                None => None,
            },
            text_channel_known,
        ),
{
    match roles {
        None => guild_unknown(guild_id),
        Some(known) => if !contains_role(known, group.role) {
            Validation::Remove {
                kind: RecordKind::SemesterStudyGroup,
                message: unknown_message("semester study group", group.role.get()),
            }
        } else if !text_channel_known {
            Validation::Remove {
                kind: RecordKind::SemesterStudyGroup,
                message: unknown_message(
                    "text channel of semester study group",
                    group.text_channel.get(),
                ),
            }
        } else {
            Validation::Valid
        },
    }
}

/// The verdict on a subject: invalid for an unknown guild, to be removed
/// if its role or, with a known role, its text channel is gone.
pub open spec fn subject_verdict(
    guild_id: GuildId,
    role: RoleId,
    text_channel: ChannelId,
    roles: Option<Seq<RoleId>>,
    text_channel_known: bool,
) -> ValidationView {
    match roles {
        None => unknown_guild(guild_id),
        Some(known) => if !known.contains(role) {
            ValidationView::Remove {
                kind: RecordKind::Subject,
                message: unknown_text("role of subject"@, role.0),
            }
        } else if !text_channel_known {
            ValidationView::Remove {
                kind: RecordKind::Subject,
                message: unknown_text("text channel of subject"@, text_channel.0),
            }
        } else {
            ValidationView::Valid
        },
    }
}

/// Checks a subject against the roles that the platform knows of its
/// guild; `roles` is `None` if the platform does not know the guild.
pub fn validate_subject(
    subject: &DatabaseSubject,
    roles: Option<&Vec<RoleId>>,
    text_channel_known: bool,
) -> (verdict: Validation)
    ensures
        verdict@ == subject_verdict(
            subject.guild_id,
            subject.role,
            subject.text_channel,
            match roles {
                Some(known) => Some(known@),
                None => None,
            },
            text_channel_known,
        ),
{
    match roles {
        None => guild_unknown(subject.guild_id),
        Some(known) => if !contains_role(known, subject.role) {
            Validation::Remove {
                kind: RecordKind::Subject,
                message: unknown_message("role of subject", subject.role.get()),
            }
        } else if !text_channel_known {
            Validation::Remove {
                kind: RecordKind::Subject,
                message: unknown_message("text channel of subject", subject.text_channel.get()),
            }
        } else {
            Validation::Valid
        },
    }
}

/// The verdict on a link between a study group and a subject: invalid for
/// an unknown guild, to be removed if either role is gone.
pub open spec fn study_subject_link_verdict(
    link: DatabaseStudySubjectLink,
    roles: Option<Seq<RoleId>>,
) -> ValidationView {
    match roles {
        None => unknown_guild(link.guild_id),
        Some(known) => if !known.contains(link.study_group_role) || !known.contains(
            link.subject_role,
        ) {
            ValidationView::Remove {
                kind: RecordKind::StudySubjectLink,
                message: unknown_text(
                    "study_group_role or subject role of study-subject link"@,
                    link.study_group_role.0,
                ),
            }
        } else {
            ValidationView::Valid
        },
    }
}

/// Checks a link between a study group and a subject against the roles
/// that the platform knows of its guild; `roles` is `None` if the platform
/// does not know the guild.
pub fn validate_study_subject_link(link: &DatabaseStudySubjectLink, roles: Option<&Vec<RoleId>>) -> (verdict:
    Validation)
    ensures
        verdict@ == study_subject_link_verdict(
            *link,
            match roles {
                Some(known) => Some(known@),
                None => None,
            },
        ),
{
    match roles {
        None => guild_unknown(link.guild_id),
        Some(known) => if !contains_role(known, link.study_group_role) || !contains_role(
            known,
            link.subject_role,
        ) {
            Validation::Remove {
                kind: RecordKind::StudySubjectLink,
                message: unknown_message(
                    "study_group_role or subject role of study-subject link",
                    link.study_group_role.get(),
                ),
            }
        } else {
            Validation::Valid
        },
    }
}

/// The verdict on a join channel: invalid for an unknown guild, to be
/// removed if its voice channel is gone.
pub open spec fn tmpc_join_channel_verdict(
    channel: DatabaseTmpcJoinChannel,
    guild_known: bool,
    voice_channel_known: bool,
) -> ValidationView {
    if !guild_known {
        unknown_guild(channel.guild_id)
    } else if !voice_channel_known {
        ValidationView::Remove {
            kind: RecordKind::TmpcJoinChannel,
            message: unknown_text("voice channel of tmpc join channel"@, channel.voice_channel.0),
        }
    } else {
        ValidationView::Valid
    }
}

/// Checks a join channel for temporary channels.
pub fn validate_tmpc_join_channel(
    channel: &DatabaseTmpcJoinChannel,
    guild_known: bool,
    voice_channel_known: bool,
) -> (verdict: Validation)
    ensures
        verdict@ == tmpc_join_channel_verdict(*channel, guild_known, voice_channel_known),
{
    if !guild_known {
        guild_unknown(channel.guild_id)
    } else if !voice_channel_known {
        Validation::Remove {
            kind: RecordKind::TmpcJoinChannel,
            message: unknown_message(
                "voice channel of tmpc join channel",
                channel.voice_channel.get(),
            ),
        }
    } else {
        Validation::Valid
    }
}

/// The verdict on a temporary channel: invalid for an unknown guild, to be
/// removed if its voice channel or its text channel is gone. The owner is
/// not checked.
pub open spec fn tmpc_verdict(
    tmpc: DatabaseTmpc,
    guild_known: bool,
    voice_channel_known: bool,
    text_channel_known: bool,
) -> ValidationView {
    if !guild_known {
        unknown_guild(tmpc.guild_id)
    } else if !voice_channel_known || !text_channel_known {
        ValidationView::Remove {
            kind: RecordKind::Tmpc,
            message: unknown_pair_text("tmpc"@, tmpc.voice_channel.0, tmpc.text_channel.0),
        }
    } else {
        ValidationView::Valid
    }
}

/// Checks a temporary channel.
pub fn validate_tmpc(
    tmpc: &DatabaseTmpc,
    guild_known: bool,
    voice_channel_known: bool,
    text_channel_known: bool,
) -> (verdict: Validation)
    ensures
        verdict@ == tmpc_verdict(*tmpc, guild_known, voice_channel_known, text_channel_known),
{
    if !guild_known {
        guild_unknown(tmpc.guild_id)
    } else if !voice_channel_known || !text_channel_known {
        Validation::Remove {
            kind: RecordKind::Tmpc,
            message: unknown_pair_message(
                "tmpc",
                tmpc.voice_channel.get(),
                tmpc.text_channel.get(),
            ),
        }
    } else {
        Validation::Valid
    }
}

/// The verdict on a token message: to be removed if its channel or the
/// message itself is gone. The temporary channel is not checked.
pub open spec fn token_message_verdict(
    token_message: DatabaseTokenMessage,
    channel_known: bool,
    message_known: bool,
) -> ValidationView {
    if !channel_known || !message_known {
        ValidationView::Remove {
            kind: RecordKind::TokenMessage,
            message: unknown_pair_text(
                "token message"@,
                token_message.message_channel.0,
                token_message.message.0,
            ),
        }
    } else {
        ValidationView::Valid
    }
}

/// Checks a token message.
pub fn validate_token_message(
    token_message: &DatabaseTokenMessage,
    channel_known: bool,
    message_known: bool,
) -> (verdict: Validation)
    ensures
        verdict@ == token_message_verdict(*token_message, channel_known, message_known),
{
    if !channel_known || !message_known {
        Validation::Remove {
            kind: RecordKind::TokenMessage,
            message: unknown_pair_message(
                "token message",
                token_message.message_channel.get(),
                token_message.message.get(),
            ),
        }
    } else {
        Validation::Valid
    }
}

} // verus!
