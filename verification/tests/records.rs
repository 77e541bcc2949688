use hm_discord_bot::fields::first_unset_field;
use hm_discord_bot::ids::{ChannelId, GuildId, MessageId, RoleId, UserId};
use hm_discord_bot::prompts::{
    accepted_message, number_range, prompt_message, retry_message, InputError,
};
use hm_discord_bot::records::{DatabaseGuild, DatabaseStudyGroup, NewGuild};
use hm_discord_bot::schema::{describe, field_at, total_fields, Field, FieldKind, FieldValue};
use hm_discord_bot::session::SessionStore;
use hm_discord_bot::step::{decide_input, Decision, SetupArguments};
use hm_discord_bot::time_of_day::TimeOfDay;

fn guild() -> DatabaseGuild {
    DatabaseGuild {
        guild_id: GuildId::new(1),
        ghost_warning_deadline: 2,
        ghost_kick_deadline: 3,
        ghost_time_to_check: TimeOfDay::from_hms(8, 0, 0).unwrap(),
        ghost_enabled: true,
        debug_channel: ChannelId::new(4),
        bot_channel: ChannelId::new(5),
        help_channel: ChannelId::new(6),
        logger_pipe_channel: None,
        study_group_category: ChannelId::new(7),
        subject_group_category: ChannelId::new(8),
        studenty_role: RoleId::new(9),
        tmp_studenty_role: Some(RoleId::new(18)),
        moderator_role: RoleId::new(10),
        newsletter_role: RoleId::new(11),
        nsfw_role: RoleId::new(12),
        study_role_separator_role: RoleId::new(13),
        subject_role_separator_role: RoleId::new(14),
        friend_role: RoleId::new(15),
        tmpc_keep_time: 12,
        alumni_role: RoleId::new(16),
        alumni_role_separator_role: RoleId::new(17),
    }
}

/// The session that holds the first `count` fields of `guild`.
fn partial(guild: &DatabaseGuild, count: usize) -> NewGuild {
    let mut session = NewGuild::new(guild.guild_id);
    for index in 0..count {
        let field = field_at(index).unwrap();
        session.set(field, guild.get(field));
    }
    session
}

fn no_arguments() -> SetupArguments {
    SetupArguments { role_mention: None, channel_mention: None, flag: None, number: None, rest: None }
}

#[test]
fn identifiers_hold_their_number() {
    assert_eq!(GuildId::new(5).get(), 5);
    assert_eq!(ChannelId::new(6).get(), 6);
    assert_eq!(RoleId::new(7).get(), 7);
    assert_eq!(UserId::new(8).get(), 8);
    assert_eq!(MessageId::new(u64::MAX).get(), u64::MAX);
    assert_eq!(RoleId::new(7), RoleId(7));
    assert_ne!(RoleId::new(7), RoleId::new(8));
}

#[test]
fn new_guild_starts_empty() {
    let session = NewGuild::new(GuildId::new(3));
    assert_eq!(session.guild_id, GuildId::new(3));
    assert!(!session.is_setup());
    assert_eq!(first_unset_field(&session), Some(Field::GhostWarningDeadline));
    for index in 0..total_fields() {
        assert_eq!(session.get(field_at(index).unwrap()), None);
    }
    assert_eq!(NewGuild::default(), NewGuild::new(GuildId::new(0)));
}

#[test]
fn is_setup_needs_every_field() {
    let stored = guild();
    for count in 0..20 {
        assert!(!partial(&stored, count).is_setup());
    }
    let complete = partial(&stored, 20);
    assert!(complete.is_setup());
    for index in 0..20 {
        let mut session = complete;
        match field_at(index).unwrap() {
            Field::GhostWarningDeadline => session.ghost_warning_deadline = None,
            Field::GhostKickDeadline => session.ghost_kick_deadline = None,
            Field::GhostTimeToCheck => session.ghost_time_to_check = None,
            Field::GhostEnabled => session.ghost_enabled = None,
            Field::DebugChannel => session.debug_channel = None,
            Field::BotChannel => session.bot_channel = None,
            Field::HelpChannel => session.help_channel = None,
            Field::StudyGroupCategory => session.study_group_category = None,
            Field::SubjectGroupCategory => session.subject_group_category = None,
            Field::StudentyRole => session.studenty_role = None,
            Field::TmpStudentyRole => session.tmp_studenty_role = None,
            Field::ModeratorRole => session.moderator_role = None,
            Field::NewsletterRole => session.newsletter_role = None,
            Field::NsfwRole => session.nsfw_role = None,
            Field::StudyRoleSeparatorRole => session.study_role_separator_role = None,
            Field::SubjectRoleSeparatorRole => session.subject_role_separator_role = None,
            Field::FriendRole => session.friend_role = None,
            Field::AlumniRole => session.alumni_role = None,
            Field::AlumniRoleSeparatorRole => session.alumni_role_separator_role = None,
            Field::TmpcKeepTime => session.tmpc_keep_time = None,
        }
        assert!(!session.is_setup());
        assert_eq!(DatabaseGuild::try_from(session), Err(()));
        assert_eq!(first_unset_field(&session), field_at(index));
        assert!(session != guild());
    }
}

#[test]
fn try_from_converts_a_complete_session() {
    let stored = guild();
    let session = partial(&stored, 20);
    assert_eq!(DatabaseGuild::try_from(session), Ok(stored));
    let converted: Result<DatabaseGuild, ()> = session.try_into();
    assert_eq!(converted, Ok(stored));
    assert_eq!(DatabaseGuild::try_from(partial(&stored, 19)), Err(()));
    assert_eq!(DatabaseGuild::try_from(NewGuild::new(GuildId::new(1))), Err(()));
}

#[test]
fn try_from_leaves_the_log_channel_empty() {
    let stored = DatabaseGuild { logger_pipe_channel: Some(ChannelId::new(7)), ..guild() };
    let converted = DatabaseGuild::try_from(partial(&stored, 20)).unwrap();
    assert_eq!(converted.logger_pipe_channel, None);
    assert_eq!(converted, guild());
}

#[test]
fn session_equals_the_stored_guild_it_was_taken_from() {
    let stored = guild();
    assert!(partial(&stored, 20) == stored);
    let logged = DatabaseGuild { logger_pipe_channel: Some(ChannelId::new(7)), ..stored };
    assert!(partial(&stored, 20) == logged);
    assert!(partial(&stored, 19) != stored);
    let elsewhere = DatabaseGuild { guild_id: GuildId::new(2), ..stored };
    assert!(partial(&stored, 20) != elsewhere);
    let changed = DatabaseGuild { tmp_studenty_role: None, ..stored };
    assert!(partial(&stored, 20) != changed);
    assert!(partial(&changed, 20) == changed);
}

#[test]
fn schema_has_twenty_fields_in_wizard_order() {
    assert_eq!(total_fields(), 20);
    let names = [
        "ghost_warning_deadline",
        "ghost_kick_deadline",
        "ghost_time_to_check",
        "ghost_enabled",
        "debug_channel",
        "bot_channel",
        "help_channel",
        "study_group_category",
        "subject_group_category",
        "studenty_role",
        "tmp_studenty_role",
        "moderator_role",
        "newsletter_role",
        "nsfw_role",
        "study_role_separator_role",
        "subject_role_separator_role",
        "friend_role",
        "alumni_role",
        "alumni_role_separator_role",
        "tmpc_keep_time",
    ];
    for (index, name) in names.iter().enumerate() {
        let field = field_at(index).unwrap();
        assert_eq!(field.position(), index);
        let descriptor = describe(field);
        assert_eq!(descriptor.field, field);
        assert_eq!(&descriptor.name, name);
        if index + 1 < 20 {
            assert_eq!(field.next(), field_at(index + 1));
        } else {
            assert_eq!(field.next(), None);
        }
    }
    assert_eq!(field_at(20), None);
    assert_eq!(field_at(usize::MAX), None);
}

#[test]
fn schema_gives_each_field_its_kind() {
    assert_eq!(
        describe(Field::GhostWarningDeadline).kind,
        FieldKind::BoundedInteger { min: 2, max: 14 }
    );
    assert_eq!(
        describe(Field::GhostKickDeadline).kind,
        FieldKind::BoundedInteger { min: 3, max: 28 }
    );
    assert_eq!(
        describe(Field::GhostTimeToCheck).kind,
        FieldKind::BoundedInteger { min: 0, max: 23 }
    );
    assert_eq!(describe(Field::TmpcKeepTime).kind, FieldKind::BoundedInteger { min: 0, max: 168 });
    assert_eq!(describe(Field::GhostEnabled).kind, FieldKind::Boolean);
    assert_eq!(describe(Field::TmpStudentyRole).kind, FieldKind::OptionalRole);
    for index in 4..9 {
        assert_eq!(describe(field_at(index).unwrap()).kind, FieldKind::Channel);
    }
    for index in [9usize, 11, 12, 13, 14, 15, 16, 17, 18] {
        assert_eq!(describe(field_at(index).unwrap()).kind, FieldKind::Role);
    }
    assert_eq!(describe(Field::GhostWarningDeadline).recommended, Some(7));
    assert_eq!(describe(Field::GhostKickDeadline).recommended, Some(14));
    assert_eq!(describe(Field::GhostTimeToCheck).recommended, Some(8));
    assert_eq!(describe(Field::TmpcKeepTime).recommended, Some(24));
    assert_eq!(describe(Field::FriendRole).recommended, None);
}

#[test]
fn first_unset_field_is_the_earliest_gap() {
    let stored = guild();
    for count in 0..20 {
        assert_eq!(first_unset_field(&partial(&stored, count)), field_at(count));
    }
    assert_eq!(first_unset_field(&partial(&stored, 20)), None);
    let mut gapped = partial(&stored, 20);
    gapped.help_channel = None;
    gapped.friend_role = None;
    assert_eq!(first_unset_field(&gapped), Some(Field::HelpChannel));
}

#[test]
fn records_are_read_and_written_by_field() {
    let stored = guild();
    assert_eq!(stored.get(Field::GhostWarningDeadline), FieldValue::Number(2));
    assert_eq!(
        stored.get(Field::GhostTimeToCheck),
        FieldValue::Time(TimeOfDay::from_hms(8, 0, 0).unwrap())
    );
    assert_eq!(stored.get(Field::GhostEnabled), FieldValue::Flag(true));
    assert_eq!(stored.get(Field::HelpChannel), FieldValue::Channel(ChannelId::new(6)));
    assert_eq!(stored.get(Field::AlumniRole), FieldValue::Role(RoleId::new(16)));
    assert_eq!(
        stored.get(Field::TmpStudentyRole),
        FieldValue::OptionalRole(Some(RoleId::new(18)))
    );
    assert_eq!(stored.get(Field::TmpcKeepTime), FieldValue::Number(12));

    let mut session = NewGuild::new(GuildId::new(1));
    session.set(Field::FriendRole, FieldValue::Role(RoleId::new(3)));
    assert_eq!(session.friend_role, Some(RoleId::new(3)));
    assert_eq!(session.get(Field::FriendRole), Some(FieldValue::Role(RoleId::new(3))));
    let before = session;
    session.set(Field::FriendRole, FieldValue::Number(3));
    session.set(Field::GhostEnabled, FieldValue::Role(RoleId::new(3)));
    session.set(Field::TmpStudentyRole, FieldValue::Role(RoleId::new(3)));
    assert_eq!(session, before);
    assert!(FieldValue::Number(1).fits_field(Field::TmpcKeepTime));
    assert!(!FieldValue::Number(1).fits_field(Field::GhostTimeToCheck));
    assert!(FieldValue::OptionalRole(None).fits_field(Field::TmpStudentyRole));
    assert!(!FieldValue::OptionalRole(None).fits_field(Field::StudentyRole));
}

#[test]
fn store_creates_reads_updates_and_removes() {
    let mut store = SessionStore::new();
    let id = GuildId::new(4);
    assert_eq!(store.len(), 0);
    assert_eq!(store.peek(id), None);
    assert!(!store.contains(id));
    assert!(!store.update(id, Field::GhostWarningDeadline, FieldValue::Number(5)));
    assert_eq!(store.len(), 0);

    let session = store.get_or_create(id);
    assert_eq!(session, NewGuild::new(id));
    assert_eq!(store.peek(id), Some(session));
    assert!(store.contains(id));
    assert_eq!(store.len(), 1);

    assert!(!store.update(id, Field::GhostKickDeadline, FieldValue::Number(5)));
    assert!(!store.update(id, Field::GhostWarningDeadline, FieldValue::Flag(true)));
    assert_eq!(store.peek(id), Some(session));
    assert!(store.update(id, Field::GhostWarningDeadline, FieldValue::Number(5)));
    assert!(!store.update(id, Field::GhostWarningDeadline, FieldValue::Number(6)));
    let updated = store.get_or_create(id);
    assert_eq!(updated.ghost_warning_deadline, Some(5));
    assert_eq!(store.len(), 1);

    assert!(store.remove(id));
    assert!(!store.remove(id));
    assert_eq!(store.peek(id), None);
    assert_eq!(store.get_or_create(id), NewGuild::new(id));
}

#[test]
fn number_range_of_each_number_field() {
    let empty = NewGuild::new(GuildId::new(1));
    assert_eq!(number_range(Field::GhostWarningDeadline, &empty), (2, 14));
    assert_eq!(number_range(Field::GhostKickDeadline, &empty), (3, 28));
    assert_eq!(number_range(Field::GhostTimeToCheck, &empty), (0, 23));
    assert_eq!(number_range(Field::TmpcKeepTime, &empty), (0, 168));
    assert_eq!(number_range(Field::FriendRole, &empty), (0, 0));
    for warning in 2..=14u32 {
        let session = NewGuild { ghost_warning_deadline: Some(warning), ..empty };
        assert_eq!(number_range(Field::GhostKickDeadline, &session), (warning as u64 + 1, 28));
        assert_eq!(number_range(Field::GhostWarningDeadline, &session), (2, 14));
    }
    let far = NewGuild { ghost_warning_deadline: Some(u32::MAX), ..empty };
    assert_eq!(number_range(Field::GhostKickDeadline, &far), (4294967296, 28));
}

#[test]
fn decide_input_takes_keeps_or_rejects() {
    let stored = guild();
    let session = partial(&stored, 1);
    let seven = SetupArguments { number: Some(7), ..no_arguments() };
    assert_eq!(
        decide_input(Field::GhostKickDeadline, &session, &seven, None),
        Decision::Taken(FieldValue::Number(7))
    );
    let two = SetupArguments { number: Some(2), ..no_arguments() };
    assert_eq!(
        decide_input(Field::GhostKickDeadline, &session, &two, None),
        Decision::Rejected(InputError::OutsideRange)
    );
    assert_eq!(
        decide_input(Field::GhostKickDeadline, &session, &no_arguments(), Some(stored)),
        Decision::Rejected(InputError::NoNumber)
    );
    let skip = SetupArguments { rest: Some("skip".to_string()), ..no_arguments() };
    assert_eq!(
        decide_input(Field::GhostKickDeadline, &session, &skip, Some(stored)),
        Decision::Kept(FieldValue::Number(3))
    );
    assert_eq!(
        decide_input(Field::GhostKickDeadline, &session, &skip, None),
        Decision::Rejected(InputError::NoNumber)
    );
    assert_eq!(
        decide_input(Field::GhostTimeToCheck, &session, &seven, None),
        Decision::Taken(FieldValue::Time(TimeOfDay::from_hms(7, 0, 0).unwrap()))
    );
    assert_eq!(
        decide_input(Field::GhostEnabled, &session, &seven, None),
        Decision::Rejected(InputError::NoBool)
    );
    assert_eq!(
        decide_input(Field::BotChannel, &session, &seven, None),
        Decision::Rejected(InputError::NoChannelMention)
    );
    assert_eq!(
        decide_input(Field::NsfwRole, &session, &seven, None),
        Decision::Rejected(InputError::NoRoleMention)
    );
    let none = SetupArguments {
        role_mention: Some(RoleId::new(3)),
        rest: Some("NoNe".to_string()),
        ..no_arguments()
    };
    assert_eq!(
        decide_input(Field::TmpStudentyRole, &session, &none, None),
        Decision::Taken(FieldValue::OptionalRole(None))
    );
    assert_eq!(
        decide_input(Field::StudentyRole, &session, &none, None),
        Decision::Taken(FieldValue::Role(RoleId::new(3)))
    );
}

#[test]
fn texts_of_the_wizard() {
    let empty = NewGuild::new(GuildId::new(1));
    assert_eq!(InputError::NoNumber.message(), "**Did not get a number!**");
    assert_eq!(
        InputError::OutsideRange.message(),
        "**Value of number was outside of valid numbers!**"
    );
    assert_eq!(InputError::NoBool.message(), "**Did not get a bool value!**");
    assert_eq!(InputError::NoChannelMention.message(), "**Did not get a Channel Mention**");
    assert_eq!(InputError::NoRoleMention.message(), "**Did not get a Role Mention**");
    assert_eq!(
        prompt_message(Field::TmpStudentyRole, &empty, "&", true),
        "Edit the command to include a mention to the temporary studenty role or None to leave empty\n\
         `&setup @<tmp-studenty_role>` or `&setup None`\n\
         **You can also skip setting this value by writing `&setup skip` or `&setup skip.`**"
    );
    assert_eq!(
        retry_message(Field::TmpcKeepTime, InputError::NoNumber, &empty, "", false),
        "**Did not get a number!**\n\
         Edit the command to include the Hours to keep a TMPC (if turned on) after everyone left.\n\
         `setup <hours_to_keep>`\n\
         24 hours is recommended. The value must be between 0 and 168 (7 days)"
    );
    assert_eq!(
        accepted_message(
            Field::GhostEnabled,
            FieldValue::Flag(false),
            true,
            Field::DebugChannel,
            &empty,
            "!",
            false
        ),
        "Kept Ghost check disabled.\n\
         Edit the command to include a mention to the debug channel\n\
         `!setup #<debug-channel>`"
    );
}

#[test]
fn study_group_has_a_key_once_it_is_stored() {
    let mut group = DatabaseStudyGroup {
        id: None,
        guild_id: GuildId::new(3),
        name: "IF".to_string(),
        color: 0xFF00AB,
        active: true,
    };
    assert_eq!(group.study_group_key(), None);
    group.id = Some(-4);
    assert_eq!(group.study_group_key(), Some((-4, 3)));
    group.id = Some(17);
    assert_eq!(group.study_group_key(), Some((17, 3)));
}
