//! Reading and writing the records of a guild field by field, and the order
//! in which a partial configuration is filled.

use crate::ids::{ChannelId, RoleId};
use crate::records::{DatabaseGuild, NewGuild};
use crate::schema::{field_at, Field, FieldValue, TOTAL_FIELDS};
use crate::time_of_day::TimeOfDay;
use vstd::prelude::*;

verus! {

impl FieldValue {
    /// Whether the value is of the sort that `field` stores.
    pub open spec fn fits(self, field: Field) -> bool {
        match field {
            Field::GhostWarningDeadline | Field::GhostKickDeadline | Field::TmpcKeepTime => self is Number,
            Field::GhostTimeToCheck => self is Time,
            Field::GhostEnabled => self is Flag,
            Field::DebugChannel
            | Field::BotChannel
            | Field::HelpChannel
            | Field::StudyGroupCategory
            | Field::SubjectGroupCategory => self is Channel,
            Field::TmpStudentyRole => self is OptionalRole,
            _ => self is Role,
        }
    }

    /// Whether the value is of the sort that `field` stores.
    pub fn fits_field(&self, field: Field) -> (fitting: bool)
        ensures
            fitting == self.fits(field),
    {
        match field {
            Field::GhostWarningDeadline | Field::GhostKickDeadline | Field::TmpcKeepTime => {
                match self {
                    FieldValue::Number(_) => true,
                    _ => false,
                }
            },
            Field::GhostTimeToCheck => match self {
                FieldValue::Time(_) => true,
                _ => false,
            },
            Field::GhostEnabled => match self {
                FieldValue::Flag(_) => true,
                _ => false,
            },
            Field::DebugChannel
            | Field::BotChannel
            | Field::HelpChannel
            | Field::StudyGroupCategory
            | Field::SubjectGroupCategory => match self {
                FieldValue::Channel(_) => true,
                _ => false,
            },
            Field::TmpStudentyRole => match self {
                FieldValue::OptionalRole(_) => true,
                _ => false,
            },
            _ => match self {
                FieldValue::Role(_) => true,
                _ => false,
            },
        }
    }
}

/// The value of a number field, if it is set.
pub open spec fn number(value: Option<u32>) -> Option<FieldValue> {
    match value {
        Some(n) => Some(FieldValue::Number(n)),
        None => None,
    }
}

/// The value of a time field, if it is set.
pub open spec fn time(value: Option<TimeOfDay>) -> Option<FieldValue> {
    match value {
        Some(t) => Some(FieldValue::Time(t)),
        None => None,
    }
}

/// The value of a flag field, if it is set.
pub open spec fn flag(value: Option<bool>) -> Option<FieldValue> {
    match value {
        Some(b) => Some(FieldValue::Flag(b)),
        None => None,
    }
}

/// The value of a channel field, if it is set.
pub open spec fn channel(value: Option<ChannelId>) -> Option<FieldValue> {
    match value {
        Some(c) => Some(FieldValue::Channel(c)),
        None => None,
    }
}

/// The value of a role field, if it is set.
pub open spec fn role(value: Option<RoleId>) -> Option<FieldValue> {
    match value {
        Some(r) => Some(FieldValue::Role(r)),
        None => None,
    }
}

/// The value of an optional role field, if it is set.
pub open spec fn optional_role(value: Option<Option<RoleId>>) -> Option<FieldValue> {
    match value {
        Some(r) => Some(FieldValue::OptionalRole(r)),
        None => None,
    }
}

fn number_of(value: Option<u32>) -> (r: Option<FieldValue>)
    ensures
        r == number(value),
{
    match value {
        Some(n) => Some(FieldValue::Number(n)),
        None => None,
    }
}

fn time_of(value: Option<TimeOfDay>) -> (r: Option<FieldValue>)
    ensures
        r == time(value),
{
    match value {
        Some(t) => Some(FieldValue::Time(t)),
        None => None,
    }
}

fn flag_of(value: Option<bool>) -> (r: Option<FieldValue>)
    ensures
        r == flag(value),
{
    match value {
        Some(b) => Some(FieldValue::Flag(b)),
        None => None,
    }
}

fn channel_of(value: Option<ChannelId>) -> (r: Option<FieldValue>)
    ensures
        r == channel(value),
{
    match value {
        Some(c) => Some(FieldValue::Channel(c)),
        None => None,
    }
}

fn role_of(value: Option<RoleId>) -> (r: Option<FieldValue>)
    ensures
        r == role(value),
{
    match value {
        Some(r) => Some(FieldValue::Role(r)),
        None => None,
    }
}

fn optional_role_of(value: Option<Option<RoleId>>) -> (r: Option<FieldValue>)
    ensures
        r == optional_role(value),
{
    match value {
        Some(r) => Some(FieldValue::OptionalRole(r)),
        None => None,
    }
}

impl DatabaseGuild {
    /// The value that the record holds for `field`.
    pub open spec fn value(self, field: Field) -> FieldValue {
        match field {
            Field::GhostWarningDeadline => FieldValue::Number(self.ghost_warning_deadline),
            Field::GhostKickDeadline => FieldValue::Number(self.ghost_kick_deadline),
            Field::GhostTimeToCheck => FieldValue::Time(self.ghost_time_to_check),
            Field::GhostEnabled => FieldValue::Flag(self.ghost_enabled),
            Field::DebugChannel => FieldValue::Channel(self.debug_channel),
            Field::BotChannel => FieldValue::Channel(self.bot_channel),
            Field::HelpChannel => FieldValue::Channel(self.help_channel),
            Field::StudyGroupCategory => FieldValue::Channel(self.study_group_category),
            Field::SubjectGroupCategory => FieldValue::Channel(self.subject_group_category),
            Field::StudentyRole => FieldValue::Role(self.studenty_role),
            Field::TmpStudentyRole => FieldValue::OptionalRole(self.tmp_studenty_role),
            Field::ModeratorRole => FieldValue::Role(self.moderator_role),
            Field::NewsletterRole => FieldValue::Role(self.newsletter_role),
            Field::NsfwRole => FieldValue::Role(self.nsfw_role),
            Field::StudyRoleSeparatorRole => FieldValue::Role(self.study_role_separator_role),
            Field::SubjectRoleSeparatorRole => FieldValue::Role(self.subject_role_separator_role),
            Field::FriendRole => FieldValue::Role(self.friend_role),
            Field::AlumniRole => FieldValue::Role(self.alumni_role),
            Field::AlumniRoleSeparatorRole => FieldValue::Role(self.alumni_role_separator_role),
            Field::TmpcKeepTime => FieldValue::Number(self.tmpc_keep_time),
        }
    }

    /// The value that the record holds for `field`.
    pub fn get(&self, field: Field) -> (value: FieldValue)
        ensures
            value == self.value(field),
            value.fits(field),
    {
        match field {
            Field::GhostWarningDeadline => FieldValue::Number(self.ghost_warning_deadline),
            Field::GhostKickDeadline => FieldValue::Number(self.ghost_kick_deadline),
            Field::GhostTimeToCheck => FieldValue::Time(self.ghost_time_to_check),
            Field::GhostEnabled => FieldValue::Flag(self.ghost_enabled),
            Field::DebugChannel => FieldValue::Channel(self.debug_channel),
            Field::BotChannel => FieldValue::Channel(self.bot_channel),
            Field::HelpChannel => FieldValue::Channel(self.help_channel),
            Field::StudyGroupCategory => FieldValue::Channel(self.study_group_category),
            Field::SubjectGroupCategory => FieldValue::Channel(self.subject_group_category),
            Field::StudentyRole => FieldValue::Role(self.studenty_role),
            Field::TmpStudentyRole => FieldValue::OptionalRole(self.tmp_studenty_role),
            Field::ModeratorRole => FieldValue::Role(self.moderator_role),
            Field::NewsletterRole => FieldValue::Role(self.newsletter_role),
            Field::NsfwRole => FieldValue::Role(self.nsfw_role),
            Field::StudyRoleSeparatorRole => FieldValue::Role(self.study_role_separator_role),
            Field::SubjectRoleSeparatorRole => FieldValue::Role(self.subject_role_separator_role),
            Field::FriendRole => FieldValue::Role(self.friend_role),
            Field::AlumniRole => FieldValue::Role(self.alumni_role),
            Field::AlumniRoleSeparatorRole => FieldValue::Role(self.alumni_role_separator_role),
            Field::TmpcKeepTime => FieldValue::Number(self.tmpc_keep_time),
        }
    }
}

impl NewGuild {
    /// The value of `field`, or `None` while the wizard has not reached it.
    pub open spec fn value(self, field: Field) -> Option<FieldValue> {
        match field {
            Field::GhostWarningDeadline => number(self.ghost_warning_deadline),
            Field::GhostKickDeadline => number(self.ghost_kick_deadline),
            Field::GhostTimeToCheck => time(self.ghost_time_to_check),
            Field::GhostEnabled => flag(self.ghost_enabled),
            Field::DebugChannel => channel(self.debug_channel),
            Field::BotChannel => channel(self.bot_channel),
            Field::HelpChannel => channel(self.help_channel),
            Field::StudyGroupCategory => channel(self.study_group_category),
            Field::SubjectGroupCategory => channel(self.subject_group_category),
            Field::StudentyRole => role(self.studenty_role),
            Field::TmpStudentyRole => optional_role(self.tmp_studenty_role),
            Field::ModeratorRole => role(self.moderator_role),
            Field::NewsletterRole => role(self.newsletter_role),
            Field::NsfwRole => role(self.nsfw_role),
            Field::StudyRoleSeparatorRole => role(self.study_role_separator_role),
            Field::SubjectRoleSeparatorRole => role(self.subject_role_separator_role),
            Field::FriendRole => role(self.friend_role),
            Field::AlumniRole => role(self.alumni_role),
            Field::AlumniRoleSeparatorRole => role(self.alumni_role_separator_role),
            Field::TmpcKeepTime => number(self.tmpc_keep_time),
        }
    }

    /// Whether `field` has a value.
    pub open spec fn is_set(self, field: Field) -> bool {
        self.value(field) is Some
    }

    /// Whether the field at place `index` has a value.
    pub open spec fn is_set_at(self, index: int) -> bool {
        self.is_set(Field::at(index))
    }

    /// The configuration with `field` set to `value`. A value of another
    /// sort than the field stores changes nothing.
    pub open spec fn with_value(self, field: Field, value: FieldValue) -> NewGuild {
        match (field, value) {
            (Field::GhostWarningDeadline, FieldValue::Number(v)) => NewGuild { ghost_warning_deadline: Some(v), ..self },
            (Field::GhostKickDeadline, FieldValue::Number(v)) => NewGuild { ghost_kick_deadline: Some(v), ..self },
            (Field::GhostTimeToCheck, FieldValue::Time(v)) => NewGuild { ghost_time_to_check: Some(v), ..self },
            (Field::GhostEnabled, FieldValue::Flag(v)) => NewGuild { ghost_enabled: Some(v), ..self },
            (Field::DebugChannel, FieldValue::Channel(v)) => NewGuild { debug_channel: Some(v), ..self },
            (Field::BotChannel, FieldValue::Channel(v)) => NewGuild { bot_channel: Some(v), ..self },
            (Field::HelpChannel, FieldValue::Channel(v)) => NewGuild { help_channel: Some(v), ..self },
            (Field::StudyGroupCategory, FieldValue::Channel(v)) => NewGuild { study_group_category: Some(v), ..self },
            (Field::SubjectGroupCategory, FieldValue::Channel(v)) => NewGuild { subject_group_category: Some(v), ..self },
            (Field::StudentyRole, FieldValue::Role(v)) => NewGuild { studenty_role: Some(v), ..self },
            (Field::TmpStudentyRole, FieldValue::OptionalRole(v)) => NewGuild { tmp_studenty_role: Some(v), ..self },
            (Field::ModeratorRole, FieldValue::Role(v)) => NewGuild { moderator_role: Some(v), ..self },
            (Field::NewsletterRole, FieldValue::Role(v)) => NewGuild { newsletter_role: Some(v), ..self },
            (Field::NsfwRole, FieldValue::Role(v)) => NewGuild { nsfw_role: Some(v), ..self },
            (Field::StudyRoleSeparatorRole, FieldValue::Role(v)) => NewGuild { study_role_separator_role: Some(v), ..self },
            (Field::SubjectRoleSeparatorRole, FieldValue::Role(v)) => NewGuild { subject_role_separator_role: Some(v), ..self },
            (Field::FriendRole, FieldValue::Role(v)) => NewGuild { friend_role: Some(v), ..self },
            (Field::AlumniRole, FieldValue::Role(v)) => NewGuild { alumni_role: Some(v), ..self },
            (Field::AlumniRoleSeparatorRole, FieldValue::Role(v)) => NewGuild { alumni_role_separator_role: Some(v), ..self },
            (Field::TmpcKeepTime, FieldValue::Number(v)) => NewGuild { tmpc_keep_time: Some(v), ..self },
            _ => self,
        }
    }

    /// Whether the fields were filled in wizard order: no field is set
    /// behind one that is not.
    pub open spec fn in_order(self) -> bool {
        forall|i: int, j: int|
            #![trigger self.is_set_at(i), self.is_set_at(j)]
            0 <= i < j < TOTAL_FIELDS && !self.is_set_at(i) ==> !self.is_set_at(j)
    }

    /// The first field from place `from` on that has no value.
    pub open spec fn first_unset_from(self, from: int) -> Option<Field>
        decreases TOTAL_FIELDS - from,
    {
        if from < 0 || from >= TOTAL_FIELDS {
            None
        } else if !self.is_set_at(from) {
            Some(Field::at(from))
        } else {
            self.first_unset_from(from + 1)
        }
    }

    /// The first field in wizard order that has no value; `None` once all have one.
    pub open spec fn first_unset(self) -> Option<Field> {
        self.first_unset_from(0)
    }

    /// The value of `field`, or `None` while the wizard has not reached it.
    pub fn get(&self, field: Field) -> (value: Option<FieldValue>)
        ensures
            value == self.value(field),
            value matches Some(v) ==> v.fits(field),
    {
        match field {
            Field::GhostWarningDeadline => number_of(self.ghost_warning_deadline),
            Field::GhostKickDeadline => number_of(self.ghost_kick_deadline),
            Field::GhostTimeToCheck => time_of(self.ghost_time_to_check),
            Field::GhostEnabled => flag_of(self.ghost_enabled),
            Field::DebugChannel => channel_of(self.debug_channel),
            Field::BotChannel => channel_of(self.bot_channel),
            Field::HelpChannel => channel_of(self.help_channel),
            Field::StudyGroupCategory => channel_of(self.study_group_category),
            Field::SubjectGroupCategory => channel_of(self.subject_group_category),
            Field::StudentyRole => role_of(self.studenty_role),
            Field::TmpStudentyRole => optional_role_of(self.tmp_studenty_role),
            Field::ModeratorRole => role_of(self.moderator_role),
            Field::NewsletterRole => role_of(self.newsletter_role),
            Field::NsfwRole => role_of(self.nsfw_role),
            Field::StudyRoleSeparatorRole => role_of(self.study_role_separator_role),
            Field::SubjectRoleSeparatorRole => role_of(self.subject_role_separator_role),
            Field::FriendRole => role_of(self.friend_role),
            Field::AlumniRole => role_of(self.alumni_role),
            Field::AlumniRoleSeparatorRole => role_of(self.alumni_role_separator_role),
            Field::TmpcKeepTime => number_of(self.tmpc_keep_time),
        }
    }

    /// Sets `field` to `value`. A value of another sort than the field
    /// stores changes nothing.
    pub fn set(&mut self, field: Field, value: FieldValue)
        ensures
            *final(self) == old(self).with_value(field, value),
    {
        match (field, value) {
            (Field::GhostWarningDeadline, FieldValue::Number(v)) => {
                self.ghost_warning_deadline = Some(v);
            },
            (Field::GhostKickDeadline, FieldValue::Number(v)) => {
                self.ghost_kick_deadline = Some(v);
            },
            (Field::GhostTimeToCheck, FieldValue::Time(v)) => {
                self.ghost_time_to_check = Some(v);
            },
            (Field::GhostEnabled, FieldValue::Flag(v)) => {
                self.ghost_enabled = Some(v);
            },
            (Field::DebugChannel, FieldValue::Channel(v)) => {
                self.debug_channel = Some(v);
            },
            (Field::BotChannel, FieldValue::Channel(v)) => {
                self.bot_channel = Some(v);
            },
            (Field::HelpChannel, FieldValue::Channel(v)) => {
                self.help_channel = Some(v);
            },
            (Field::StudyGroupCategory, FieldValue::Channel(v)) => {
                self.study_group_category = Some(v);
            },
            (Field::SubjectGroupCategory, FieldValue::Channel(v)) => {
                self.subject_group_category = Some(v);
            },
            (Field::StudentyRole, FieldValue::Role(v)) => {
                self.studenty_role = Some(v);
            },
            (Field::TmpStudentyRole, FieldValue::OptionalRole(v)) => {
                self.tmp_studenty_role = Some(v);
            },
            (Field::ModeratorRole, FieldValue::Role(v)) => {
                self.moderator_role = Some(v);
            },
            (Field::NewsletterRole, FieldValue::Role(v)) => {
                self.newsletter_role = Some(v);
            },
            (Field::NsfwRole, FieldValue::Role(v)) => {
                self.nsfw_role = Some(v);
            },
            (Field::StudyRoleSeparatorRole, FieldValue::Role(v)) => {
                self.study_role_separator_role = Some(v);
            },
            (Field::SubjectRoleSeparatorRole, FieldValue::Role(v)) => {
                self.subject_role_separator_role = Some(v);
            },
            (Field::FriendRole, FieldValue::Role(v)) => {
                self.friend_role = Some(v);
            },
            (Field::AlumniRole, FieldValue::Role(v)) => {
                self.alumni_role = Some(v);
            },
            (Field::AlumniRoleSeparatorRole, FieldValue::Role(v)) => {
                self.alumni_role_separator_role = Some(v);
            },
            (Field::TmpcKeepTime, FieldValue::Number(v)) => {
                self.tmpc_keep_time = Some(v);
            },
            _ => {},
        }
    }
}

/// What `with_value` changes: the one field, and only if the value fits it.
pub proof fn lemma_with_value(guild: NewGuild, field: Field, value: FieldValue)
    ensures
        guild.with_value(field, value).guild_id == guild.guild_id,
        value.fits(field) ==> guild.with_value(field, value).value(field) == Some(value),
        !value.fits(field) ==> guild.with_value(field, value) == guild,
        forall|other: Field|
            other != field ==> #[trigger] guild.with_value(field, value).value(other)
                == guild.value(other),
{
}

/// Every field has one of the places 0 to 19, and every such place has
/// one field.
pub proof fn lemma_field_places()
    ensures
        forall|field: Field| 0 <= #[trigger] field.index() < TOTAL_FIELDS,
        forall|field: Field| Field::at(#[trigger] field.index()) == field,
        forall|index: int| 0 <= index < TOTAL_FIELDS ==> (#[trigger] Field::at(index)).index() == index,
{
}

/// What `first_unset_from` finds: the first place from `from` on without
/// a value, with every place between set.
pub proof fn lemma_first_unset_from(guild: NewGuild, from: int)
    requires
        0 <= from <= TOTAL_FIELDS,
    ensures
        match guild.first_unset_from(from) {
            Some(field) => {
                &&& from <= field.index() < TOTAL_FIELDS
                &&& !guild.is_set(field)
                &&& forall|i: int| from <= i < field.index() ==> guild.is_set_at(i)
            },
            None => forall|i: int| from <= i < TOTAL_FIELDS ==> guild.is_set_at(i),
        },
    decreases TOTAL_FIELDS - from,
{
    lemma_field_places();
    if from < TOTAL_FIELDS && guild.is_set_at(from) {
        lemma_first_unset_from(guild, from + 1);
    }
}

/// What `first_unset` finds: the earliest field without a value. It is
/// `None` exactly for a complete configuration.
pub proof fn lemma_first_unset(guild: NewGuild)
    ensures
        match guild.first_unset() {
            Some(field) => {
                &&& !guild.is_set(field)
                &&& forall|i: int| 0 <= i < field.index() ==> guild.is_set_at(i)
            },
            None => forall|i: int| 0 <= i < TOTAL_FIELDS ==> guild.is_set_at(i),
        },
        guild.first_unset() is None <==> guild.complete(),
{
    lemma_first_unset_from(guild, 0);
    lemma_field_places();
    if guild.first_unset() is None {
        assert(guild.is_set_at(0) && guild.is_set_at(1) && guild.is_set_at(2) && guild.is_set_at(3)
            && guild.is_set_at(4) && guild.is_set_at(5) && guild.is_set_at(6) && guild.is_set_at(7)
            && guild.is_set_at(8) && guild.is_set_at(9));
        assert(guild.is_set_at(10) && guild.is_set_at(11) && guild.is_set_at(12)
            && guild.is_set_at(13) && guild.is_set_at(14) && guild.is_set_at(15)
            && guild.is_set_at(16) && guild.is_set_at(17) && guild.is_set_at(18)
            && guild.is_set_at(19));
    }
}

/// The first field in wizard order that has no value; `None` once all
/// have one.
pub fn first_unset_field(partial: &NewGuild) -> (found: Option<Field>)
    ensures
        found == partial.first_unset(),
        match found {
            Some(field) => {
                &&& !partial.is_set(field)
                &&& forall|i: int| 0 <= i < field.index() ==> partial.is_set_at(i)
            },
            None => partial.complete(),
        },
{
    let mut index: usize = 0;
    while index < TOTAL_FIELDS
        invariant
            index <= TOTAL_FIELDS,
            partial.first_unset() == partial.first_unset_from(index as int),
        decreases TOTAL_FIELDS - index,
    {
        match field_at(index) {
            Some(field) => {
                if partial.get(field).is_none() {
                    proof {
                        lemma_first_unset(*partial);
                    }
                    return Some(field);
                }
            },
            None => {},
        }
        index = index + 1;
    }
    proof {
        lemma_first_unset(*partial);
    }
    None
}

} // verus!
