//! The fields of a guild's configuration, in the order in which the wizard
//! asks for them, and what is known of each: its name, the kind of value it
//! takes, and the texts that ask for it.

use crate::ids::{ChannelId, RoleId};
use crate::time_of_day::TimeOfDay;
use vstd::prelude::*;

verus! {

/// The number of fields that the wizard collects.
pub const TOTAL_FIELDS: usize = 20;

/// One field of the configuration. The variants stand in wizard order.
#[derive(Clone, Copy, Debug, PartialEq, Eq, Hash, Structural)]
pub enum Field {
    GhostWarningDeadline,
    GhostKickDeadline,
    GhostTimeToCheck,
    GhostEnabled,
    DebugChannel,
    BotChannel,
    HelpChannel,
    StudyGroupCategory,
    SubjectGroupCategory,
    StudentyRole,
    TmpStudentyRole,
    ModeratorRole,
    NewsletterRole,
    NsfwRole,
    StudyRoleSeparatorRole,
    SubjectRoleSeparatorRole,
    FriendRole,
    AlumniRole,
    AlumniRoleSeparatorRole,
    TmpcKeepTime,
}

/// The kind of input that a field takes.
#[derive(Clone, Copy, Debug, PartialEq, Eq, Hash, Structural)]
pub enum FieldKind {
    /// A whole number from `min` to `max`.
    BoundedInteger { min: u32, max: u32 },
    /// `true` or `false`.
    Boolean,
    /// A mention of a channel.
    Channel,
    /// A mention of a role.
    Role,
    /// A mention of a role, or the word `none`.
    OptionalRole,
}

/// The value of one field.
#[derive(Clone, Copy, Debug, PartialEq, Eq, Hash, Structural)]
pub enum FieldValue {
    Number(u32),
    Time(TimeOfDay),
    Flag(bool),
    Channel(ChannelId),
    Role(RoleId),
    OptionalRole(Option<RoleId>),
}

/// What the schema holds of one field.
#[derive(Clone, Copy, Debug)]
pub struct ConfigurationField {
    pub field: Field,
    /// The key of the field; no two fields share it.
    pub name: &'static str,
    pub kind: FieldKind,
    /// How replies call the field.
    pub label: &'static str,
    /// The sentence that asks for the field.
    pub prompt: &'static str,
    /// The command to send, without the prefix.
    pub command: &'static str,
    /// What a number counts; empty for the other kinds.
    pub unit: &'static str,
    /// The number that is recommended, for a bounded integer.
    pub recommended: Option<u32>,
    /// A remark behind the range of a bounded integer; mostly empty.
    pub range_note: &'static str,
}

pub const WARNING_BASE_STRING: &'static str =
    "Edit the command to include the Days a User can be on the server unverified before he is warned about his impending kick.";

pub const WANING_COMMAND: &'static str = "setup <days_before_warning>";

pub const KICK_BASE_STRING: &'static str =
    "Edit the command to include the Days a User can be on the server unverified before he is kicked.";

pub const KICK_COMMAND: &'static str = "setup <days_before_kick>";

pub const GHOST_TIME_BASE_STRING: &'static str =
    "Edit the command to include the Hour of the day where the ghosts are checked.";

pub const GHOST_TIME_COMMAND: &'static str = "setup <hour_of_day_to_check>";

pub const GHOST_ENABLED_BASE_STRING: &'static str =
    "Edit the command to include if the ghosts check should be turned on. `true|false`";

pub const GHOST_ENABLED_COMMAND: &'static str = "setup <check_ghosts>";

pub const DEBUG_CHANNEL_BASE_STRING: &'static str =
    "Edit the command to include a mention to the debug channel";

pub const DEBUG_CHANNEL_COMMAND: &'static str = "setup #<debug-channel>";

pub const BOT_CHANNEL_BASE_STRING: &'static str =
    "Edit the command to include a mention to the bot channel";

pub const BOT_CHANNEL_COMMAND: &'static str = "setup #<bot-channel>";

pub const HELP_CHANNEL_BASE_STRING: &'static str =
    "Edit the command to include a mention to the help channel";

pub const HELP_CHANNEL_COMMAND: &'static str = "setup #<help-channel>";

pub const STUDY_GROUP_CATEGORY_BASE_STRING: &'static str =
    "Edit the command to include a mention to the study group category";

pub const STUDY_GROUP_CATEGORY_COMMAND: &'static str = "setup #<study-group-category>";

pub const SUBJECT_GROUP_CATEGORY_BASE_STRING: &'static str =
    "Edit the command to include a mention to the subject group category";

pub const SUBJECT_GROUP_CATEGORY_COMMAND: &'static str = "setup #<subject-group-category>";

pub const STUDENTY_ROLE_BASE_STRING: &'static str =
    "Edit the command to include a mention to the studenty role";

pub const STUDENTY_ROLE_COMMAND: &'static str = "setup @<studenty_role>";

pub const TMP_STUDENTY_ROLE_BASE_STRING: &'static str =
    "Edit the command to include a mention to the temporary studenty role or None to leave empty";

pub const TMP_STUDENTY_ROLE_COMMAND: &'static str = "setup @<tmp-studenty_role>";

pub const TMP_STUDENTY_ROLE_COMMAND_2: &'static str = "setup None";

pub const MODERATOR_ROLE_BASE_STRING: &'static str =
    "Edit the command to include a mention to the moderator role";

pub const MODERATOR_ROLE_COMMAND: &'static str = "setup @<moderator_role>";

pub const NEWSLETTER_ROLE_BASE_STRING: &'static str =
    "Edit the command to include a mention to the newsletter role";

pub const NEWSLETTER_ROLE_COMMAND: &'static str = "setup @<newsletter_role>";

pub const NSFW_ROLE_BASE_STRING: &'static str =
    "Edit the command to include a mention to the nsfw role";

pub const NSFW_ROLE_COMMAND: &'static str = "setup @<nsfw_role>";

pub const STUDY_ROLE_SEPARATOR_ROLE_BASE_STRING: &'static str =
    "Edit the command to include a mention to the Separator role, below which the study roles should be created";

pub const STUDY_ROLE_SEPARATOR_ROLE_COMMAND: &'static str = "setup @<study_role_separator_role>";

pub const SUBJECT_ROLE_SEPARATOR_ROLE_BASE_STRING: &'static str =
    "Edit the command to include a mention to the Separator role, below which the subject roles should be created";

pub const SUBJECT_ROLE_SEPARATOR_ROLE_COMMAND: &'static str =
    "setup @<subject_role_separator_role>";

pub const FRIEND_ROLE_BASE_STRING: &'static str =
    "Edit the command to include a mention to the friend role";

pub const FRIEND_ROLE_COMMAND: &'static str = "setup @<friend_role>";

pub const ALUMNI_ROLE_BASE_STRING: &'static str =
    "Edit the command to include a mention to the alumni role";

pub const ALUMNI_ROLE_COMMAND: &'static str = "setup @<alumni_role>";

pub const ALUMNI_ROLE_SEPARATOR_ROLE_BASE_STRING: &'static str =
    "Edit the command to include a mention to the Separator role, below which the alumni roles should be created";

pub const ALUMNI_ROLE_SEPARATOR_ROLE_COMMAND: &'static str = "setup @<alumni_role_separator_role>";

pub const TMPC_TIME_BASE_STRING: &'static str =
    "Edit the command to include the Hours to keep a TMPC (if turned on) after everyone left.";

pub const TMPC_TIME_COMMAND: &'static str = "setup <hours_to_keep>";

impl Field {
    /// The place of the field in wizard order, from 0.
    pub open spec fn index(self) -> int {
        match self {
            Field::GhostWarningDeadline => 0,
            Field::GhostKickDeadline => 1,
            Field::GhostTimeToCheck => 2,
            Field::GhostEnabled => 3,
            Field::DebugChannel => 4,
            Field::BotChannel => 5,
            Field::HelpChannel => 6,
            Field::StudyGroupCategory => 7,
            Field::SubjectGroupCategory => 8,
            Field::StudentyRole => 9,
            Field::TmpStudentyRole => 10,
            Field::ModeratorRole => 11,
            Field::NewsletterRole => 12,
            Field::NsfwRole => 13,
            Field::StudyRoleSeparatorRole => 14,
            Field::SubjectRoleSeparatorRole => 15,
            Field::FriendRole => 16,
            Field::AlumniRole => 17,
            Field::AlumniRoleSeparatorRole => 18,
            Field::TmpcKeepTime => 19,
        }
    }

    /// The field at place `index`; the last field for any place beyond it.
    pub open spec fn at(index: int) -> Field {
        if index <= 0 {
            Field::GhostWarningDeadline
        } else if index == 1 {
            Field::GhostKickDeadline
        } else if index == 2 {
            Field::GhostTimeToCheck
        } else if index == 3 {
            Field::GhostEnabled
        } else if index == 4 {
            Field::DebugChannel
        } else if index == 5 {
            Field::BotChannel
        } else if index == 6 {
            Field::HelpChannel
        } else if index == 7 {
            Field::StudyGroupCategory
        } else if index == 8 {
            Field::SubjectGroupCategory
        } else if index == 9 {
            Field::StudentyRole
        } else if index == 10 {
            Field::TmpStudentyRole
        } else if index == 11 {
            Field::ModeratorRole
        } else if index == 12 {
            Field::NewsletterRole
        } else if index == 13 {
            Field::NsfwRole
        } else if index == 14 {
            Field::StudyRoleSeparatorRole
        } else if index == 15 {
            Field::SubjectRoleSeparatorRole
        } else if index == 16 {
            Field::FriendRole
        } else if index == 17 {
            Field::AlumniRole
        } else if index == 18 {
            Field::AlumniRoleSeparatorRole
        } else {
            Field::TmpcKeepTime
        }
    }

    /// What the schema holds of the field.
    pub open spec fn descriptor(self) -> ConfigurationField {
        match self {
            Field::GhostWarningDeadline => ConfigurationField {
                field: self,
                name: "ghost_warning_deadline",
                kind: FieldKind::BoundedInteger { min: 2, max: 14 },
                label: "Ghost warning Deadline",
                prompt: WARNING_BASE_STRING,
                command: WANING_COMMAND,
                unit: "days",
                recommended: Some(7u32),
                range_note: "",
            },
            Field::GhostKickDeadline => ConfigurationField {
                field: self,
                name: "ghost_kick_deadline",
                kind: FieldKind::BoundedInteger { min: 3, max: 28 },
                label: "Ghost kick Deadline",
                prompt: KICK_BASE_STRING,
                command: KICK_COMMAND,
                unit: "days",
                recommended: Some(14u32),
                range_note: "",
            },
            Field::GhostTimeToCheck => ConfigurationField {
                field: self,
                name: "ghost_time_to_check",
                kind: FieldKind::BoundedInteger { min: 0, max: 23 },
                label: "Ghost Time to check",
                prompt: GHOST_TIME_BASE_STRING,
                command: GHOST_TIME_COMMAND,
                unit: "o'clock",
                recommended: Some(8u32),
                range_note: "",
            },
            Field::GhostEnabled => ConfigurationField {
                field: self,
                name: "ghost_enabled",
                kind: FieldKind::Boolean,
                label: "Ghost check",
                prompt: GHOST_ENABLED_BASE_STRING,
                command: GHOST_ENABLED_COMMAND,
                unit: "",
                recommended: None,
                range_note: "",
            },
            Field::DebugChannel => ConfigurationField {
                field: self,
                name: "debug_channel",
                kind: FieldKind::Channel,
                label: "Debug Channel",
                prompt: DEBUG_CHANNEL_BASE_STRING,
                command: DEBUG_CHANNEL_COMMAND,
                unit: "",
                recommended: None,
                range_note: "",
            },
            Field::BotChannel => ConfigurationField {
                field: self,
                name: "bot_channel",
                kind: FieldKind::Channel,
                label: "Bot Channel",
                prompt: BOT_CHANNEL_BASE_STRING,
                command: BOT_CHANNEL_COMMAND,
                unit: "",
                recommended: None,
                range_note: "",
            },
            Field::HelpChannel => ConfigurationField {
                field: self,
                name: "help_channel",
                kind: FieldKind::Channel,
                label: "Help Channel",
                prompt: HELP_CHANNEL_BASE_STRING,
                command: HELP_CHANNEL_COMMAND,
                unit: "",
                recommended: None,
                range_note: "",
            },
            Field::StudyGroupCategory => ConfigurationField {
                field: self,
                name: "study_group_category",
                kind: FieldKind::Channel,
                label: "Study Group Category",
                prompt: STUDY_GROUP_CATEGORY_BASE_STRING,
                command: STUDY_GROUP_CATEGORY_COMMAND,
                unit: "",
                recommended: None,
                range_note: "",
            },
            Field::SubjectGroupCategory => ConfigurationField {
                field: self,
                name: "subject_group_category",
                kind: FieldKind::Channel,
                label: "Subject Group Category",
                prompt: SUBJECT_GROUP_CATEGORY_BASE_STRING,
                command: SUBJECT_GROUP_CATEGORY_COMMAND,
                unit: "",
                recommended: None,
                range_note: "",
            },
            Field::StudentyRole => ConfigurationField {
                field: self,
                name: "studenty_role",
                kind: FieldKind::Role,
                label: "Studenty Role",
                prompt: STUDENTY_ROLE_BASE_STRING,
                command: STUDENTY_ROLE_COMMAND,
                unit: "",
                recommended: None,
                range_note: "",
            },
            Field::TmpStudentyRole => ConfigurationField {
                field: self,
                name: "tmp_studenty_role",
                kind: FieldKind::OptionalRole,
                label: "temporary Studenty Role",
                prompt: TMP_STUDENTY_ROLE_BASE_STRING,
                command: TMP_STUDENTY_ROLE_COMMAND,
                unit: "",
                recommended: None,
                range_note: "",
            },
            Field::ModeratorRole => ConfigurationField {
                field: self,
                name: "moderator_role",
                kind: FieldKind::Role,
                label: "Moderator Role",
                prompt: MODERATOR_ROLE_BASE_STRING,
                command: MODERATOR_ROLE_COMMAND,
                unit: "",
                recommended: None,
                range_note: "",
            },
            Field::NewsletterRole => ConfigurationField {
                field: self,
                name: "newsletter_role",
                kind: FieldKind::Role,
                label: "Newsletter Role",
                prompt: NEWSLETTER_ROLE_BASE_STRING,
                command: NEWSLETTER_ROLE_COMMAND,
                unit: "",
                recommended: None,
                range_note: "",
            },
            Field::NsfwRole => ConfigurationField {
                field: self,
                name: "nsfw_role",
                kind: FieldKind::Role,
                label: "NSFW Role",
                prompt: NSFW_ROLE_BASE_STRING,
                command: NSFW_ROLE_COMMAND,
                unit: "",
                recommended: None,
                range_note: "",
            },
            Field::StudyRoleSeparatorRole => ConfigurationField {
                field: self,
                name: "study_role_separator_role",
                kind: FieldKind::Role,
                label: "Study Role Separator Role",
                prompt: STUDY_ROLE_SEPARATOR_ROLE_BASE_STRING,
                command: STUDY_ROLE_SEPARATOR_ROLE_COMMAND,
                unit: "",
                recommended: None,
                range_note: "",
            },
            Field::SubjectRoleSeparatorRole => ConfigurationField {
                field: self,
                name: "subject_role_separator_role",
                kind: FieldKind::Role,
                label: "Subject Role Separator Role",
                prompt: SUBJECT_ROLE_SEPARATOR_ROLE_BASE_STRING,
                command: SUBJECT_ROLE_SEPARATOR_ROLE_COMMAND,
                unit: "",
                recommended: None,
                range_note: "",
            },
            Field::FriendRole => ConfigurationField {
                field: self,
                name: "friend_role",
                kind: FieldKind::Role,
                label: "Friend Role",
                prompt: FRIEND_ROLE_BASE_STRING,
                command: FRIEND_ROLE_COMMAND,
                unit: "",
                recommended: None,
                range_note: "",
            },
            Field::AlumniRole => ConfigurationField {
                field: self,
                name: "alumni_role",
                kind: FieldKind::Role,
                label: "Alumni Role",
                prompt: ALUMNI_ROLE_BASE_STRING,
                command: ALUMNI_ROLE_COMMAND,
                unit: "",
                recommended: None,
                range_note: "",
            },
            Field::AlumniRoleSeparatorRole => ConfigurationField {
                field: self,
                name: "alumni_role_separator_role",
                kind: FieldKind::Role,
                label: "Alumni Role Separator Role",
                prompt: ALUMNI_ROLE_SEPARATOR_ROLE_BASE_STRING,
                command: ALUMNI_ROLE_SEPARATOR_ROLE_COMMAND,
                unit: "",
                recommended: None,
                range_note: "",
            },
            Field::TmpcKeepTime => ConfigurationField {
                field: self,
                name: "tmpc_keep_time",
                kind: FieldKind::BoundedInteger { min: 0, max: 168 },
                label: "TMPC Keep time",
                prompt: TMPC_TIME_BASE_STRING,
                command: TMPC_TIME_COMMAND,
                unit: "hours",
                recommended: Some(24u32),
                range_note: " (7 days)",
            },
        }
    }

    /// The kind of input that the field takes.
    pub open spec fn kind(self) -> FieldKind {
        self.descriptor().kind
    }

    /// The place of the field in wizard order, from 0.
    pub fn position(self) -> (index: usize)
        ensures
            index == self.index(),
            index < TOTAL_FIELDS,
    {
        match self {
            Field::GhostWarningDeadline => 0,
            Field::GhostKickDeadline => 1,
            Field::GhostTimeToCheck => 2,
            Field::GhostEnabled => 3,
            Field::DebugChannel => 4,
            Field::BotChannel => 5,
            Field::HelpChannel => 6,
            Field::StudyGroupCategory => 7,
            Field::SubjectGroupCategory => 8,
            Field::StudentyRole => 9,
            Field::TmpStudentyRole => 10,
            Field::ModeratorRole => 11,
            Field::NewsletterRole => 12,
            Field::NsfwRole => 13,
            Field::StudyRoleSeparatorRole => 14,
            Field::SubjectRoleSeparatorRole => 15,
            Field::FriendRole => 16,
            Field::AlumniRole => 17,
            Field::AlumniRoleSeparatorRole => 18,
            Field::TmpcKeepTime => 19,
        }
    }

    /// The field that the wizard asks for after this one, if any.
    pub fn next(self) -> (next: Option<Field>)
        ensures
            self.index() + 1 < TOTAL_FIELDS ==> next == Some(Field::at(self.index() + 1)),
            self.index() + 1 >= TOTAL_FIELDS ==> next is None,
    {
        field_at(self.position() + 1)
    }
}

/// The number of fields in the schema.
pub fn total_fields() -> (total: usize)
    ensures
        total == TOTAL_FIELDS,
{
    TOTAL_FIELDS
}

/// The field at place `index` of the wizard order, if there is one.
pub fn field_at(index: usize) -> (field: Option<Field>)
    ensures
        index < TOTAL_FIELDS ==> field == Some(Field::at(index as int)),
        index >= TOTAL_FIELDS ==> field is None,
{
    if index == 0 {
        Some(Field::GhostWarningDeadline)
    } else if index == 1 {
        Some(Field::GhostKickDeadline)
    } else if index == 2 {
        Some(Field::GhostTimeToCheck)
    } else if index == 3 {
        Some(Field::GhostEnabled)
    } else if index == 4 {
        Some(Field::DebugChannel)
    } else if index == 5 {
        Some(Field::BotChannel)
    } else if index == 6 {
        Some(Field::HelpChannel)
    } else if index == 7 {
        Some(Field::StudyGroupCategory)
    } else if index == 8 {
        Some(Field::SubjectGroupCategory)
    } else if index == 9 {
        Some(Field::StudentyRole)
    } else if index == 10 {
        Some(Field::TmpStudentyRole)
    } else if index == 11 {
        Some(Field::ModeratorRole)
    } else if index == 12 {
        Some(Field::NewsletterRole)
    } else if index == 13 {
        Some(Field::NsfwRole)
    } else if index == 14 {
        Some(Field::StudyRoleSeparatorRole)
    } else if index == 15 {
        Some(Field::SubjectRoleSeparatorRole)
    } else if index == 16 {
        Some(Field::FriendRole)
    } else if index == 17 {
        Some(Field::AlumniRole)
    } else if index == 18 {
        Some(Field::AlumniRoleSeparatorRole)
    } else if index == 19 {
        Some(Field::TmpcKeepTime)
    } else {
        None
    }
}

/// What the schema holds of `field`.
pub fn describe(field: Field) -> (descriptor: ConfigurationField)
    ensures
        descriptor == field.descriptor(),
{
    match field {
        Field::GhostWarningDeadline => ConfigurationField {
            field,
            name: "ghost_warning_deadline",
            kind: FieldKind::BoundedInteger { min: 2, max: 14 },
            label: "Ghost warning Deadline",
            prompt: WARNING_BASE_STRING,
            command: WANING_COMMAND,
            unit: "days",
            recommended: Some(7u32),
            range_note: "",
        },
        Field::GhostKickDeadline => ConfigurationField {
            field,
            name: "ghost_kick_deadline",
            kind: FieldKind::BoundedInteger { min: 3, max: 28 },
            label: "Ghost kick Deadline",
            prompt: KICK_BASE_STRING,
            command: KICK_COMMAND,
            unit: "days",
            recommended: Some(14u32),
            range_note: "",
        },
        Field::GhostTimeToCheck => ConfigurationField {
            field,
            name: "ghost_time_to_check",
            kind: FieldKind::BoundedInteger { min: 0, max: 23 },
            label: "Ghost Time to check",
            prompt: GHOST_TIME_BASE_STRING,
            command: GHOST_TIME_COMMAND,
            unit: "o'clock",
            recommended: Some(8u32),
            range_note: "",
        },
        Field::GhostEnabled => ConfigurationField {
            field,
            name: "ghost_enabled",
            kind: FieldKind::Boolean,
            label: "Ghost check",
            prompt: GHOST_ENABLED_BASE_STRING,
            command: GHOST_ENABLED_COMMAND,
            unit: "",
            recommended: None,
            range_note: "",
        },
        Field::DebugChannel => ConfigurationField {
            field,
            name: "debug_channel",
            kind: FieldKind::Channel,
            label: "Debug Channel",
            prompt: DEBUG_CHANNEL_BASE_STRING,
            command: DEBUG_CHANNEL_COMMAND,
            unit: "",
            recommended: None,
            range_note: "",
        },
        Field::BotChannel => ConfigurationField {
            field,
            name: "bot_channel",
            kind: FieldKind::Channel,
            label: "Bot Channel",
            prompt: BOT_CHANNEL_BASE_STRING,
            command: BOT_CHANNEL_COMMAND,
            unit: "",
            recommended: None,
            range_note: "",
        },
        Field::HelpChannel => ConfigurationField {
            field,
            name: "help_channel",
            kind: FieldKind::Channel,
            label: "Help Channel",
            prompt: HELP_CHANNEL_BASE_STRING,
            command: HELP_CHANNEL_COMMAND,
            unit: "",
            recommended: None,
            range_note: "",
        },
        Field::StudyGroupCategory => ConfigurationField {
            field,
            name: "study_group_category",
            kind: FieldKind::Channel,
            label: "Study Group Category",
            prompt: STUDY_GROUP_CATEGORY_BASE_STRING,
            command: STUDY_GROUP_CATEGORY_COMMAND,
            unit: "",
            recommended: None,
            range_note: "",
        },
        Field::SubjectGroupCategory => ConfigurationField {
            field,
            name: "subject_group_category",
            kind: FieldKind::Channel,
            label: "Subject Group Category",
            prompt: SUBJECT_GROUP_CATEGORY_BASE_STRING,
            command: SUBJECT_GROUP_CATEGORY_COMMAND,
            unit: "",
            recommended: None,
            range_note: "",
        },
        Field::StudentyRole => ConfigurationField {
            field,
            name: "studenty_role",
            kind: FieldKind::Role,
            label: "Studenty Role",
            prompt: STUDENTY_ROLE_BASE_STRING,
            command: STUDENTY_ROLE_COMMAND,
            unit: "",
            recommended: None,
            range_note: "",
        },
        Field::TmpStudentyRole => ConfigurationField {
            field,
            name: "tmp_studenty_role",
            kind: FieldKind::OptionalRole,
            label: "temporary Studenty Role",
            prompt: TMP_STUDENTY_ROLE_BASE_STRING,
            command: TMP_STUDENTY_ROLE_COMMAND,
            unit: "",
            recommended: None,
            range_note: "",
        },
        Field::ModeratorRole => ConfigurationField {
            field,
            name: "moderator_role",
            kind: FieldKind::Role,
            label: "Moderator Role",
            prompt: MODERATOR_ROLE_BASE_STRING,
            command: MODERATOR_ROLE_COMMAND,
            unit: "",
            recommended: None,
            range_note: "",
        },
        Field::NewsletterRole => ConfigurationField {
            field,
            name: "newsletter_role",
            kind: FieldKind::Role,
            label: "Newsletter Role",
            prompt: NEWSLETTER_ROLE_BASE_STRING,
            command: NEWSLETTER_ROLE_COMMAND,
            unit: "",
            recommended: None,
            range_note: "",
        },
        Field::NsfwRole => ConfigurationField {
            field,
            name: "nsfw_role",
            kind: FieldKind::Role,
            label: "NSFW Role",
            prompt: NSFW_ROLE_BASE_STRING,
            command: NSFW_ROLE_COMMAND,
            unit: "",
            recommended: None,
            range_note: "",
        },
        Field::StudyRoleSeparatorRole => ConfigurationField {
            field,
            name: "study_role_separator_role",
            kind: FieldKind::Role,
            label: "Study Role Separator Role",
            prompt: STUDY_ROLE_SEPARATOR_ROLE_BASE_STRING,
            command: STUDY_ROLE_SEPARATOR_ROLE_COMMAND,
            unit: "",
            recommended: None,
            range_note: "",
        },
        Field::SubjectRoleSeparatorRole => ConfigurationField {
            field,
            name: "subject_role_separator_role",
            kind: FieldKind::Role,
            label: "Subject Role Separator Role",
            prompt: SUBJECT_ROLE_SEPARATOR_ROLE_BASE_STRING,
            command: SUBJECT_ROLE_SEPARATOR_ROLE_COMMAND,
            unit: "",
            recommended: None,
            range_note: "",
        },
        Field::FriendRole => ConfigurationField {
            field,
            name: "friend_role",
            kind: FieldKind::Role,
            label: "Friend Role",
            prompt: FRIEND_ROLE_BASE_STRING,
            command: FRIEND_ROLE_COMMAND,
            unit: "",
            recommended: None,
            range_note: "",
        },
        Field::AlumniRole => ConfigurationField {
            field,
            name: "alumni_role",
            kind: FieldKind::Role,
            label: "Alumni Role",
            prompt: ALUMNI_ROLE_BASE_STRING,
            command: ALUMNI_ROLE_COMMAND,
            unit: "",
            recommended: None,
            range_note: "",
        },
        Field::AlumniRoleSeparatorRole => ConfigurationField {
            field,
            name: "alumni_role_separator_role",
            kind: FieldKind::Role,
            label: "Alumni Role Separator Role",
            prompt: ALUMNI_ROLE_SEPARATOR_ROLE_BASE_STRING,
            command: ALUMNI_ROLE_SEPARATOR_ROLE_COMMAND,
            unit: "",
            recommended: None,
            range_note: "",
        },
        Field::TmpcKeepTime => ConfigurationField {
            field,
            name: "tmpc_keep_time",
            kind: FieldKind::BoundedInteger { min: 0, max: 168 },
            label: "TMPC Keep time",
            prompt: TMPC_TIME_BASE_STRING,
            command: TMPC_TIME_COMMAND,
            unit: "hours",
            recommended: Some(24u32),
            range_note: " (7 days)",
        },
    }
}

} // verus!
