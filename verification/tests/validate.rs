use hm_discord_bot::ids::{ChannelId, GuildId, MessageId, RoleId, UserId};
use hm_discord_bot::records::{
    DatabaseAlumniRole, DatabaseGuild, DatabaseSemesterStudyGroup, DatabaseStudyGroup,
    DatabaseStudySubjectLink, DatabaseSubject, DatabaseTmpc, DatabaseTmpcJoinChannel,
    DatabaseTokenMessage,
};
use hm_discord_bot::time_of_day::TimeOfDay;
use hm_discord_bot::validate::{
    contains_role, guild_channels, removal_finished, tmp_studenty_role_removed, unknown_message,
    unknown_pair_message, validate_alumni, validate_guild, validate_guild_channels,
    validate_guild_roles, validate_semester_study_group, validate_study_group,
    validate_study_subject_link, validate_subject, validate_tmpc, validate_tmpc_join_channel,
    validate_token_message, GuildCheck, GuildPart, RecordKind, Validation,
};

fn guild() -> DatabaseGuild {
    DatabaseGuild {
        guild_id: GuildId::new(1),
        ghost_warning_deadline: 2,
        ghost_kick_deadline: 3,
        ghost_time_to_check: TimeOfDay::from_hms(8, 0, 0).unwrap(),
        ghost_enabled: true,
        debug_channel: ChannelId::new(4),
        bot_channel: ChannelId::new(5),
        help_channel: ChannelId::new(6),
        logger_pipe_channel: None,
        study_group_category: ChannelId::new(7),
        subject_group_category: ChannelId::new(8),
        studenty_role: RoleId::new(9),
        tmp_studenty_role: Some(RoleId::new(18)),
        moderator_role: RoleId::new(10),
        newsletter_role: RoleId::new(11),
        nsfw_role: RoleId::new(12),
        study_role_separator_role: RoleId::new(13),
        subject_role_separator_role: RoleId::new(14),
        friend_role: RoleId::new(15),
        tmpc_keep_time: 12,
        alumni_role: RoleId::new(16),
        alumni_role_separator_role: RoleId::new(17),
    }
}

fn roles(ids: &[u64]) -> Vec<RoleId> {
    ids.iter().map(|id| RoleId::new(*id)).collect()
}

fn all_roles() -> Vec<RoleId> {
    roles(&[9, 10, 11, 12, 13, 14, 15, 16, 17, 18])
}

fn without(id: u64) -> Vec<RoleId> {
    all_roles().into_iter().filter(|role| role.get() != id).collect()
}

fn invalid(verdict: Validation) -> String {
    match verdict {
        Validation::Invalid { message } => message,
        other => panic!("expected an invalid record, got {:?}", other),
    }
}

fn removal(verdict: Validation) -> (RecordKind, String) {
    match verdict {
        Validation::Remove { kind, message } => (kind, message),
        other => panic!("expected a removal, got {:?}", other),
    }
}

#[test]
fn guild_with_known_roles_is_fine() {
    let known = all_roles();
    let found = validate_guild_roles(&guild(), Some(&known));
    assert!(!found.remove_tmp_studenty_role);
    assert_eq!(found.error, None);
}

#[test]
fn unknown_guild_ends_the_check() {
    let found = validate_guild_roles(&guild(), None);
    assert!(!found.remove_tmp_studenty_role);
    assert_eq!(found.error, Some("Bot doesn't know guild: 1".to_string()));
}

#[test]
fn first_unknown_role_is_reported() {
    let cases = [
        (9u64, "Bot doesn't know studenty role: 9"),
        (10, "Bot doesn't know moderator role: 10"),
        (11, "Bot doesn't know newsletter role: 11"),
        (12, "Bot doesn't know nsfw role: 12"),
        (13, "Bot doesn't know study role separator role: 13"),
        (14, "Bot doesn't know subject role separator role: 14"),
        (15, "Bot doesn't know friend role: 15"),
        (16, "Bot doesn't know alumni role: 16"),
        (17, "Bot doesn't know alumni role separator role: 17"),
    ];
    for (missing, message) in cases.iter() {
        let known = without(*missing);
        let found = validate_guild_roles(&guild(), Some(&known));
        assert_eq!(found.error, Some(message.to_string()));
        assert!(!found.remove_tmp_studenty_role);
    }
    let known = roles(&[9, 10, 12, 14, 18]);
    let found = validate_guild_roles(&guild(), Some(&known));
    assert_eq!(found.error, Some("Bot doesn't know newsletter role: 11".to_string()));
    let found = validate_guild_roles(&guild(), Some(&Vec::new()));
    assert_eq!(found.error, Some("Bot doesn't know studenty role: 9".to_string()));
    assert!(!found.remove_tmp_studenty_role);
}

#[test]
fn unknown_temporary_role_is_removed() {
    let known = without(18);
    let found = validate_guild_roles(&guild(), Some(&known));
    assert!(found.remove_tmp_studenty_role);
    assert_eq!(found.error, None);

    let known = roles(&[9, 10]);
    let found = validate_guild_roles(&guild(), Some(&known));
    assert!(found.remove_tmp_studenty_role);
    assert_eq!(found.error, Some("Bot doesn't know newsletter role: 11".to_string()));

    let known = roles(&[10, 11]);
    let found = validate_guild_roles(&guild(), Some(&known));
    assert!(!found.remove_tmp_studenty_role);
    assert_eq!(found.error, Some("Bot doesn't know studenty role: 9".to_string()));

    let bare = DatabaseGuild { tmp_studenty_role: None, ..guild() };
    let found = validate_guild_roles(&bare, Some(&without(18)));
    assert!(!found.remove_tmp_studenty_role);
    assert_eq!(found.error, None);
}

#[test]
fn removal_of_the_temporary_role_changes_the_guild() {
    let mut stored = guild();
    assert_eq!(
        tmp_studenty_role_removed(&mut stored, None),
        Err("Couldn't remove tmp studenty role, query problem.".to_string())
    );
    assert_eq!(stored, guild());
    assert_eq!(tmp_studenty_role_removed(&mut stored, Some(false)), Ok(()));
    assert_eq!(stored, DatabaseGuild { tmp_studenty_role: None, ..guild() });
    let mut stored = guild();
    assert_eq!(tmp_studenty_role_removed(&mut stored, Some(true)), Ok(()));
    assert_eq!(stored.tmp_studenty_role, None);
}

#[test]
fn channels_are_checked_in_order() {
    assert_eq!(
        guild_channels(&guild()),
        vec![
            (GuildPart::DebugChannel, ChannelId::new(4)),
            (GuildPart::BotChannel, ChannelId::new(5)),
            (GuildPart::HelpChannel, ChannelId::new(6)),
            (GuildPart::StudyGroupCategory, ChannelId::new(7)),
            (GuildPart::SubjectGroupCategory, ChannelId::new(8)),
        ]
    );
    let logged = DatabaseGuild { logger_pipe_channel: Some(ChannelId::new(30)), ..guild() };
    assert_eq!(
        guild_channels(&logged),
        vec![
            (GuildPart::DebugChannel, ChannelId::new(4)),
            (GuildPart::BotChannel, ChannelId::new(5)),
            (GuildPart::HelpChannel, ChannelId::new(6)),
            (GuildPart::LoggerPipeChannel, ChannelId::new(30)),
            (GuildPart::StudyGroupCategory, ChannelId::new(7)),
            (GuildPart::SubjectGroupCategory, ChannelId::new(8)),
        ]
    );
}

#[test]
fn first_unknown_channel_is_reported() {
    let logged = DatabaseGuild { logger_pipe_channel: Some(ChannelId::new(30)), ..guild() };
    assert_eq!(validate_guild_channels(&logged, &vec![true; 6]), None);
    let messages = [
        "Bot doesn't know debug channel: 4",
        "Bot doesn't know bot channel: 5",
        "Bot doesn't know help channel: 6",
        "Bot doesn't know logger pipe channel: 30",
        "Bot doesn't know study group category: 7",
        "Bot doesn't know subject group category: 8",
    ];
    for (place, message) in messages.iter().enumerate() {
        let mut known = vec![true; 6];
        known[place] = false;
        assert_eq!(validate_guild_channels(&logged, &known), Some(message.to_string()));
        for later in place..6 {
            known[later] = false;
        }
        assert_eq!(validate_guild_channels(&logged, &known), Some(message.to_string()));
    }
    assert_eq!(
        validate_guild_channels(&guild(), &vec![true, true, true, false, true]),
        Some("Bot doesn't know study group category: 7".to_string())
    );
    assert_eq!(validate_guild_channels(&guild(), &vec![true, true]), None);
    assert_eq!(
        validate_guild_channels(&guild(), &vec![true, false]),
        Some("Bot doesn't know bot channel: 5".to_string())
    );
}

#[test]
fn unknown_messages_name_what_is_missing() {
    assert_eq!(unknown_message("thing", 0), "Bot doesn't know thing: 0");
    assert_eq!(
        unknown_message(GuildPart::Guild.label(), u64::MAX),
        "Bot doesn't know guild: 18446744073709551615"
    );
    assert_eq!(unknown_pair_message("tmpc", 2, 30), "Bot doesn't know tmpc: 2 30");
    assert!(contains_role(&roles(&[1, 2, 3]), RoleId::new(3)));
    assert!(!contains_role(&roles(&[1, 2, 3]), RoleId::new(4)));
    assert!(!contains_role(&Vec::new(), RoleId::new(4)));
}

#[test]
fn removal_reports_the_failure_of_the_storage() {
    let kinds = [
        (RecordKind::AlumniRole, "Couldn't remove alumni role, query problem."),
        (RecordKind::SemesterStudyGroup, "Couldn't remove semester study group, query problem."),
        (RecordKind::Subject, "Couldn't remove subject, query problem."),
        (RecordKind::StudySubjectLink, "Couldn't remove study-subject link, query problem."),
        (RecordKind::TmpcJoinChannel, "Couldn't remove tmpc join channel, query problem."),
        (RecordKind::Tmpc, "Couldn't remove tmpc, query problem."),
        (RecordKind::TokenMessage, "Couldn't remove token message, query problem."),
    ];
    for (kind, problem) in kinds.iter() {
        assert_eq!(&removal_finished(*kind, "gone".to_string(), None), problem);
        assert_eq!(removal_finished(*kind, "gone".to_string(), Some(true)), "gone");
        assert_eq!(removal_finished(*kind, "gone".to_string(), Some(false)), "gone");
    }
}

#[test]
fn alumni_role_is_removed_when_the_role_is_gone() {
    let alumni = DatabaseAlumniRole { role: RoleId::new(5), guild_id: GuildId::new(1) };
    assert!(matches!(validate_alumni(&alumni, Some(&roles(&[4, 5]))), Validation::Valid));
    assert_eq!(invalid(validate_alumni(&alumni, None)), "Bot doesn't know guild: 1");
    assert_eq!(
        removal(validate_alumni(&alumni, Some(&roles(&[4, 6])))),
        (RecordKind::AlumniRole, "Bot doesn't know alumni role: 5".to_string())
    );
}

#[test]
fn study_group_needs_its_guild() {
    let group = DatabaseStudyGroup {
        id: None,
        guild_id: GuildId::new(3),
        name: "IF".to_string(),
        color: 0xFF00AB,
        active: true,
    };
    assert!(matches!(validate_study_group(&group, true), Validation::Valid));
    assert_eq!(invalid(validate_study_group(&group, false)), "Bot doesn't know guild: 3");
}

#[test]
fn semester_study_group_needs_role_and_channel() {
    let group = DatabaseSemesterStudyGroup {
        role: RoleId::new(1),
        study_group_id: 4,
        semester: 1,
        text_channel: ChannelId::new(2),
    };
    let id = GuildId::new(8);
    assert!(matches!(
        validate_semester_study_group(&group, id, Some(&roles(&[1])), true),
        Validation::Valid
    ));
    assert_eq!(
        invalid(validate_semester_study_group(&group, id, None, true)),
        "Bot doesn't know guild: 8"
    );
    assert_eq!(
        removal(validate_semester_study_group(&group, id, Some(&roles(&[3])), false)),
        (RecordKind::SemesterStudyGroup, "Bot doesn't know semester study group: 1".to_string())
    );
    assert_eq!(
        removal(validate_semester_study_group(&group, id, Some(&roles(&[1])), false)),
        (
            RecordKind::SemesterStudyGroup,
            "Bot doesn't know text channel of semester study group: 2".to_string()
        )
    );
}

#[test]
fn subject_needs_role_and_channel() {
    let subject = DatabaseSubject {
        role: RoleId::new(5),
        guild_id: GuildId::new(1),
        name: "SE1".to_string(),
        text_channel: ChannelId::new(4),
    };
    assert!(matches!(validate_subject(&subject, Some(&roles(&[5])), true), Validation::Valid));
    assert_eq!(invalid(validate_subject(&subject, None, false)), "Bot doesn't know guild: 1");
    assert_eq!(
        removal(validate_subject(&subject, Some(&roles(&[])), true)),
        (RecordKind::Subject, "Bot doesn't know role of subject: 5".to_string())
    );
    assert_eq!(
        removal(validate_subject(&subject, Some(&roles(&[5])), false)),
        (RecordKind::Subject, "Bot doesn't know text channel of subject: 4".to_string())
    );
}

#[test]
fn study_subject_link_needs_both_roles() {
    let link = DatabaseStudySubjectLink {
        study_group_role: RoleId::new(1),
        subject_role: RoleId::new(5),
        guild_id: GuildId::new(2),
    };
    assert!(matches!(
        validate_study_subject_link(&link, Some(&roles(&[5, 1]))),
        Validation::Valid
    ));
    assert_eq!(invalid(validate_study_subject_link(&link, None)), "Bot doesn't know guild: 2");
    for known in [roles(&[1]), roles(&[5]), roles(&[])] {
        assert_eq!(
            removal(validate_study_subject_link(&link, Some(&known))),
            (
                RecordKind::StudySubjectLink,
                "Bot doesn't know study_group_role or subject role of study-subject link: 1"
                    .to_string()
            )
        );
    }
}

#[test]
fn join_channel_needs_guild_and_voice_channel() {
    let channel = DatabaseTmpcJoinChannel {
        voice_channel: ChannelId::new(2),
        guild_id: GuildId::new(1),
        persist: false,
    };
    assert!(matches!(validate_tmpc_join_channel(&channel, true, true), Validation::Valid));
    assert_eq!(
        invalid(validate_tmpc_join_channel(&channel, false, false)),
        "Bot doesn't know guild: 1"
    );
    assert_eq!(
        removal(validate_tmpc_join_channel(&channel, true, false)),
        (
            RecordKind::TmpcJoinChannel,
            "Bot doesn't know voice channel of tmpc join channel: 2".to_string()
        )
    );
}

#[test]
fn temporary_channel_needs_both_channels() {
    let tmpc = DatabaseTmpc {
        voice_channel: ChannelId::new(2),
        text_channel: ChannelId::new(3),
        guild_id: GuildId::new(1),
        owner: UserId::new(4),
        persist: false,
        token: 0,
        keep: false,
        delete_at: None,
    };
    assert!(matches!(validate_tmpc(&tmpc, true, true, true), Validation::Valid));
    assert_eq!(invalid(validate_tmpc(&tmpc, false, true, true)), "Bot doesn't know guild: 1");
    for (voice, text) in [(false, true), (true, false), (false, false)] {
        assert_eq!(
            removal(validate_tmpc(&tmpc, true, voice, text)),
            (RecordKind::Tmpc, "Bot doesn't know tmpc: 2 3".to_string())
        );
    }
}

#[test]
fn token_message_needs_channel_and_message() {
    let message = DatabaseTokenMessage {
        tmpc_voice_channel: ChannelId::new(2),
        message: MessageId::new(4),
        message_channel: ChannelId::new(1),
    };
    assert!(matches!(validate_token_message(&message, true, true), Validation::Valid));
    for (channel, found) in [(false, true), (true, false), (false, false)] {
        assert_eq!(
            removal(validate_token_message(&message, channel, found)),
            (RecordKind::TokenMessage, "Bot doesn't know token message: 1 4".to_string())
        );
    }
}

/// Runs the check of a guild to its end against a platform that knows
/// `roles` and all channels but `unknown_channels`, and a storage that
/// answers the removal with `stored`. Returns the result, whether the
/// removal was asked for, and the channels that were looked up.
fn run_check(
    guild: &mut DatabaseGuild,
    roles: Option<Vec<RoleId>>,
    stored: Option<bool>,
    unknown_channels: &[u64],
) -> (Result<(), String>, bool, Vec<u64>) {
    let mut removed = None;
    let mut known = Vec::new();
    let mut looked_up = Vec::new();
    for _ in 0..10 {
        match validate_guild(guild, roles.as_ref(), removed, &known) {
            GuildCheck::RemoveTmpStudentyRole => {
                assert_eq!(removed, None);
                removed = Some(stored);
            },
            GuildCheck::LookUp { channel } => {
                looked_up.push(channel.get());
                known.push(!unknown_channels.contains(&channel.get()));
            },
            GuildCheck::Valid => return (Ok(()), removed.is_some(), looked_up),
            GuildCheck::Invalid { message } => return (Err(message), removed.is_some(), looked_up),
        }
    }
    panic!("the check did not end");
}

#[test]
fn check_of_a_valid_guild_looks_every_channel_up() {
    let mut stored = guild();
    assert_eq!(
        run_check(&mut stored, Some(all_roles()), None, &[]),
        (Ok(()), false, vec![4, 5, 6, 7, 8])
    );
    assert_eq!(stored, guild());
    let mut logged = DatabaseGuild { logger_pipe_channel: Some(ChannelId::new(30)), ..guild() };
    assert_eq!(
        run_check(&mut logged, Some(all_roles()), None, &[]),
        (Ok(()), false, vec![4, 5, 6, 30, 7, 8])
    );
}

#[test]
fn check_ends_at_the_first_thing_unknown() {
    let mut stored = guild();
    assert_eq!(
        run_check(&mut stored, None, Some(true), &[4]),
        (Err("Bot doesn't know guild: 1".to_string()), false, vec![])
    );
    assert_eq!(
        run_check(&mut stored, Some(without(9)), Some(true), &[4]),
        (Err("Bot doesn't know studenty role: 9".to_string()), false, vec![])
    );
    assert_eq!(
        run_check(&mut stored, Some(without(12)), Some(true), &[4]),
        (Err("Bot doesn't know nsfw role: 12".to_string()), false, vec![])
    );
    assert_eq!(
        run_check(&mut stored, Some(all_roles()), Some(true), &[6, 8]),
        (Err("Bot doesn't know help channel: 6".to_string()), false, vec![4, 5, 6])
    );
    assert_eq!(
        run_check(&mut stored, Some(all_roles()), Some(true), &[8]),
        (Err("Bot doesn't know subject group category: 8".to_string()), false, vec![4, 5, 6, 7, 8])
    );
    assert_eq!(stored, guild());
}

#[test]
fn check_removes_an_unknown_temporary_role_first() {
    let mut stored = guild();
    assert_eq!(
        run_check(&mut stored, Some(without(18)), None, &[]),
        (Err("Couldn't remove tmp studenty role, query problem.".to_string()), true, vec![])
    );
    assert_eq!(stored, guild());

    for answer in [true, false] {
        let mut stored = guild();
        assert_eq!(
            run_check(&mut stored, Some(without(18)), Some(answer), &[]),
            (Ok(()), true, vec![4, 5, 6, 7, 8])
        );
        assert_eq!(stored, DatabaseGuild { tmp_studenty_role: None, ..guild() });
    }

    let mut stored = guild();
    assert_eq!(
        run_check(&mut stored, Some(roles(&[9, 10])), Some(true), &[]),
        (Err("Bot doesn't know newsletter role: 11".to_string()), true, vec![])
    );
    assert_eq!(stored.tmp_studenty_role, None);

    let mut stored = guild();
    assert_eq!(
        run_check(&mut stored, Some(roles(&[9, 10])), None, &[]),
        (Err("Couldn't remove tmp studenty role, query problem.".to_string()), true, vec![])
    );
    assert_eq!(stored, guild());
}
