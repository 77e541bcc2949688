use hm_discord_bot::checks::{
    has_none_of_roles, has_one_of_roles, has_role, is_admin, is_bot_admin, is_owner,
    is_user_verified, may_configure, sent_in_channel, sent_in_channels, sent_in_main_guild,
    sent_in_setup_guild, GuildRole,
};
use hm_discord_bot::ids::{ChannelId, GuildId, RoleId, UserId};
use hm_discord_bot::log_routing::{
    log_line, logger_pipe, DiscordTracingLayer, GuildIdVisitor, LoggerPipe, MessageVisitor,
};
use hm_discord_bot::records::{DatabaseGuild, DatabaseSemesterStudyGroup, DatabaseSubject};
use hm_discord_bot::subjects::{
    create_refusal, created, deleted, find_by_name, partition_roles, request_refusal, role_lines,
    up_to_semester, user_semester_study_group,
};
use hm_discord_bot::time_of_day::TimeOfDay;

fn roles(ids: &[u64]) -> Vec<RoleId> {
    ids.iter().map(|id| RoleId::new(*id)).collect()
}

fn guild(logger_pipe_channel: Option<ChannelId>) -> DatabaseGuild {
    DatabaseGuild {
        guild_id: GuildId::new(1),
        ghost_warning_deadline: 2,
        ghost_kick_deadline: 3,
        ghost_time_to_check: TimeOfDay::from_hms(8, 0, 0).unwrap(),
        ghost_enabled: true,
        debug_channel: ChannelId::new(4),
        bot_channel: ChannelId::new(5),
        help_channel: ChannelId::new(6),
        logger_pipe_channel,
        study_group_category: ChannelId::new(7),
        subject_group_category: ChannelId::new(8),
        studenty_role: RoleId::new(9),
        tmp_studenty_role: Some(RoleId::new(18)),
        moderator_role: RoleId::new(10),
        newsletter_role: RoleId::new(11),
        nsfw_role: RoleId::new(12),
        study_role_separator_role: RoleId::new(13),
        subject_role_separator_role: RoleId::new(14),
        friend_role: RoleId::new(15),
        tmpc_keep_time: 12,
        alumni_role: RoleId::new(16),
        alumni_role_separator_role: RoleId::new(17),
    }
}

fn group(role: u64, study_group_id: i32, semester: u32) -> DatabaseSemesterStudyGroup {
    DatabaseSemesterStudyGroup {
        role: RoleId::new(role),
        study_group_id,
        semester,
        text_channel: ChannelId::new(role + 100),
    }
}

fn subject(name: &str, role: u64) -> DatabaseSubject {
    DatabaseSubject {
        role: RoleId::new(role),
        guild_id: GuildId::new(1),
        name: name.to_string(),
        text_channel: ChannelId::new(role + 1),
    }
}

#[test]
fn member_holds_one_of_the_roles() {
    let own = roles(&[1, 2, 3]);
    assert!(has_one_of_roles(Some(&own), &roles(&[9, 3])));
    assert!(!has_one_of_roles(Some(&own), &roles(&[9, 8])));
    assert!(!has_one_of_roles(Some(&own), &roles(&[])));
    assert!(!has_one_of_roles(None, &roles(&[1])));
    assert!(has_role(Some(&own), RoleId::new(2)));
    assert!(!has_role(Some(&own), RoleId::new(4)));
    assert!(!has_role(None, RoleId::new(2)));
    assert!(has_none_of_roles(Some(&own), &roles(&[9, 8])));
    assert!(!has_none_of_roles(Some(&own), &roles(&[9, 1])));
    assert!(has_none_of_roles(None, &roles(&[1])));
}

#[test]
fn administrator_holds_a_role_with_the_right() {
    let all = vec![
        GuildRole { id: RoleId::new(1), administrator: false },
        GuildRole { id: RoleId::new(2), administrator: true },
        GuildRole { id: RoleId::new(3), administrator: false },
    ];
    assert!(is_admin(Some(&roles(&[1, 2])), Some(&all)));
    assert!(!is_admin(Some(&roles(&[1, 3])), Some(&all)));
    assert!(!is_admin(Some(&roles(&[4])), Some(&all)));
    assert!(!is_admin(Some(&roles(&[])), Some(&all)));
    assert!(!is_admin(None, Some(&all)));
    assert!(!is_admin(Some(&roles(&[2])), None));
    assert!(is_bot_admin(Some(&roles(&[2])), Some(&all)));
    assert!(!is_bot_admin(Some(&roles(&[1])), Some(&all)));
    assert!(!is_bot_admin(None, None));
}

#[test]
fn owner_and_administrators_may_configure() {
    let all = vec![GuildRole { id: RoleId::new(2), administrator: true }];
    let author = UserId::new(7);
    assert!(is_owner(Some(author), author));
    assert!(!is_owner(Some(UserId::new(8)), author));
    assert!(!is_owner(None, author));
    assert!(may_configure(Some(author), author, None, None));
    assert!(may_configure(Some(UserId::new(8)), author, Some(&roles(&[2])), Some(&all)));
    assert!(!may_configure(Some(UserId::new(8)), author, Some(&roles(&[3])), Some(&all)));
    assert!(!may_configure(None, author, None, None));
}

#[test]
fn places_of_a_message() {
    assert!(sent_in_main_guild(Some(GuildId::new(5)), Some(5)));
    assert!(!sent_in_main_guild(Some(GuildId::new(5)), Some(6)));
    assert!(!sent_in_main_guild(Some(GuildId::new(5)), None));
    assert!(!sent_in_main_guild(None, Some(5)));
    let channels = vec![ChannelId::new(1), ChannelId::new(2)];
    assert!(sent_in_channels(ChannelId::new(2), &channels));
    assert!(!sent_in_channels(ChannelId::new(3), &channels));
    assert!(sent_in_channel(ChannelId::new(3), ChannelId::new(3)));
    assert!(!sent_in_channel(ChannelId::new(3), ChannelId::new(4)));
    assert!(sent_in_setup_guild(Some(GuildId::new(1)), Some(true)));
    assert!(!sent_in_setup_guild(Some(GuildId::new(1)), Some(false)));
    assert!(!sent_in_setup_guild(Some(GuildId::new(1)), None));
    assert!(!sent_in_setup_guild(None, Some(true)));
}

#[test]
fn verified_member_holds_the_studenty_role() {
    let stored = guild(None);
    let id = Some(GuildId::new(1));
    assert!(is_user_verified(id, Some(&stored), Some(&roles(&[3, 9]))));
    assert!(!is_user_verified(id, Some(&stored), Some(&roles(&[3, 18]))));
    assert!(!is_user_verified(id, Some(&stored), None));
    assert!(!is_user_verified(id, None, Some(&roles(&[9]))));
    assert!(!is_user_verified(None, Some(&stored), Some(&roles(&[9]))));
}

#[test]
fn logger_pipe_toggles_the_log_channel() {
    let here = ChannelId::new(30);
    assert_eq!(
        logger_pipe(false, Some(guild(None)), here),
        LoggerPipe::Refused { message: "Missing permissions, requires admin permissions" }
    );
    assert_eq!(
        logger_pipe(true, None, here),
        LoggerPipe::Refused { message: "Needs to be executed in an already setup guild" }
    );
    assert_eq!(
        logger_pipe(true, Some(guild(None)), here),
        LoggerPipe::Activate { message: "Setting logger pipe to the current channel", channel: here }
    );
    assert_eq!(
        logger_pipe(true, Some(guild(Some(ChannelId::new(31)))), here),
        LoggerPipe::Activate { message: "Setting logger pipe to the current channel", channel: here }
    );
    assert_eq!(
        logger_pipe(true, Some(guild(Some(here))), here),
        LoggerPipe::Deactivate { message: "Deactivating logger pipe in current channel" }
    );
}

#[test]
fn log_lines_go_to_the_main_and_the_guild_channel() {
    let mut layer = DiscordTracingLayer::new();
    assert_eq!(layer.on_event(Some(1)), (None, None));
    layer.set_main_log_channel(50);
    assert_eq!(layer.on_event(None), (Some(ChannelId::new(50)), None));
    assert_eq!(layer.on_event(Some(1)), (Some(ChannelId::new(50)), None));
    layer.add_per_server_logging(GuildId::new(1), ChannelId::new(60));
    assert_eq!(layer.on_event(Some(1)), (Some(ChannelId::new(50)), Some(ChannelId::new(60))));
    assert_eq!(layer.on_event(Some(2)), (Some(ChannelId::new(50)), None));
    layer.add_per_server_logging(GuildId::new(1), ChannelId::new(61));
    assert_eq!(layer.on_event(Some(1)).1, Some(ChannelId::new(61)));
    layer.remove_per_server_logging(GuildId::new(1));
    assert_eq!(layer.on_event(Some(1)), (Some(ChannelId::new(50)), None));
    layer.set_main_log_channel(0);
    assert_eq!(layer.on_event(Some(1)), (None, None));
    layer.add_per_server_logging(GuildId::new(0), ChannelId::new(9));
    assert_eq!(layer.on_event(Some(0)), (None, None));
}

#[test]
fn stored_guilds_give_the_log_channels() {
    let mut layer = DiscordTracingLayer::new();
    layer.add_per_server_logging(GuildId::new(9), ChannelId::new(90));
    let mut second = guild(Some(ChannelId::new(20)));
    second.guild_id = GuildId::new(2);
    let mut third = guild(Some(ChannelId::new(30)));
    third.guild_id = GuildId::new(3);
    let mut again = guild(Some(ChannelId::new(31)));
    again.guild_id = GuildId::new(3);
    layer.setup_discord_logging(&vec![guild(None), second, third, again]);
    assert_eq!(layer.on_event(Some(1)).1, None);
    assert_eq!(layer.on_event(Some(2)).1, Some(ChannelId::new(20)));
    assert_eq!(layer.on_event(Some(3)).1, Some(ChannelId::new(31)));
    assert_eq!(layer.on_event(Some(9)).1, None);
}

#[test]
fn visitors_read_their_fields() {
    let mut message = MessageVisitor::new();
    assert_eq!(message.message, "");
    message.record_debug("guild_id", "5");
    assert_eq!(message.message, "");
    message.record_debug("message", "Starting");
    message.record_debug("message", " the bot");
    assert_eq!(message.message, "Starting the bot");

    let mut visitor = GuildIdVisitor::new();
    assert_eq!(visitor.guild_id, None);
    visitor.record_u64("member_id", 5);
    assert_eq!(visitor.guild_id, None);
    visitor.record_u64("guild_id", 5);
    assert_eq!(visitor.guild_id, Some(5));
    visitor.record_u64("member_id", 6);
    assert_eq!(visitor.guild_id, Some(5));
    visitor.record_u64("guild_id", 0);
    assert_eq!(visitor.guild_id, None);
    assert_eq!(log_line("INFO", "Setup logging"), "INFO Setup logging");
}

#[test]
fn roles_are_listed_one_on_each_line() {
    assert_eq!(role_lines(&roles(&[])), "");
    assert_eq!(role_lines(&roles(&[5])), "<@&5>");
    assert_eq!(role_lines(&roles(&[5, 60, 7])), "<@&5>\n<@&60>\n<@&7>");
}

#[test]
fn requests_are_refused_before_any_lookup() {
    assert_eq!(request_refusal(false, 3), Some("You need to be verified for this command"));
    assert_eq!(request_refusal(false, 0), Some("You need to be verified for this command"));
    assert_eq!(
        request_refusal(true, 0),
        Some("You need to supply at least one subject id / name (from \"subject show\")")
    );
    assert_eq!(request_refusal(true, 1), None);
}

#[test]
fn roles_are_split_by_what_the_member_holds() {
    let own = roles(&[1, 2, 3]);
    assert_eq!(partition_roles(&roles(&[3, 9, 1, 8]), &own), (roles(&[3, 1]), roles(&[9, 8])));
    assert_eq!(partition_roles(&roles(&[]), &own), (roles(&[]), roles(&[])));
    assert_eq!(partition_roles(&roles(&[4, 4]), &roles(&[])), (roles(&[]), roles(&[4, 4])));
}

#[test]
fn adding_gives_the_missing_subjects() {
    let own = roles(&[1, 2, 3]);
    assert_eq!(
        hm_discord_bot::subjects::add(&roles(&[3, 9, 1, 8]), &own),
        (
            roles(&[9, 8]),
            "Ignoring subjects that you already have:\n<@&3>\n<@&1>\nAdded following subjects to you:\n<@&9>\n<@&8>"
                .to_string()
        )
    );
    assert_eq!(
        hm_discord_bot::subjects::add(&roles(&[9]), &own),
        (roles(&[9]), "Added following subjects to you:\n<@&9>".to_string())
    );
    assert_eq!(
        hm_discord_bot::subjects::add(&roles(&[2]), &own),
        (roles(&[]), "Ignoring subjects that you already have:\n<@&2>\n".to_string())
    );
    assert_eq!(hm_discord_bot::subjects::add(&roles(&[]), &own), (roles(&[]), String::new()));
}

#[test]
fn removing_takes_the_held_subjects() {
    let own = roles(&[1, 2, 3]);
    assert_eq!(
        hm_discord_bot::subjects::remove(&roles(&[3, 9, 1, 8]), &own),
        (
            roles(&[3, 1]),
            "Ignoring subjects that you don't have:\n<@&9>\n<@&8>Removing subjects:\n<@&3>\n<@&1>\n"
                .to_string()
        )
    );
    assert_eq!(
        hm_discord_bot::subjects::remove(&roles(&[9]), &own),
        (roles(&[]), "Ignoring subjects that you don't have:\n<@&9>".to_string())
    );
    assert_eq!(
        hm_discord_bot::subjects::remove(&roles(&[2]), &own),
        (roles(&[2]), "Removing subjects:\n<@&2>\n".to_string())
    );
}

#[test]
fn member_is_in_the_first_group_whose_role_it_holds() {
    let groups = vec![group(1, 10, 1), group(2, 10, 2), group(3, 11, 1)];
    assert_eq!(user_semester_study_group(&groups, &roles(&[9, 3, 2])), Some(group(2, 10, 2)));
    assert_eq!(user_semester_study_group(&groups, &roles(&[3])), Some(group(3, 11, 1)));
    assert_eq!(user_semester_study_group(&groups, &roles(&[9])), None);
    assert_eq!(user_semester_study_group(&Vec::new(), &roles(&[1])), None);
}

#[test]
fn earlier_semesters_are_open() {
    let groups = vec![group(1, 10, 3), group(2, 10, 1), group(3, 10, 4), group(4, 10, 2)];
    assert_eq!(up_to_semester(&groups, 2), vec![group(2, 10, 1), group(4, 10, 2)]);
    assert_eq!(up_to_semester(&groups, 0), Vec::new());
    assert_eq!(up_to_semester(&groups, 9), groups);
}

#[test]
fn subjects_are_found_by_name() {
    let subjects = vec![subject("SE1", 5), subject("SE2", 6), subject("SE1", 7)];
    assert_eq!(find_by_name(&subjects, "SE1"), Some(0));
    assert_eq!(find_by_name(&subjects, "SE2"), Some(1));
    assert_eq!(find_by_name(&subjects, "se2"), None);
    assert_eq!(find_by_name(&Vec::new(), "SE2"), None);
    assert_eq!(
        create_refusal(&subjects, "SE2"),
        Some("Found subject with same name/role/text channel: SE2".to_string())
    );
    assert_eq!(create_refusal(&subjects, "SE3"), None);
}

#[test]
fn storage_answers_are_reported() {
    assert_eq!(created(Some(true)), "Created subject");
    assert_eq!(created(Some(false)), "Didn't create subject, was it already in the database?");
    assert_eq!(created(None), "Error while trying to execute query");
    assert_eq!(deleted("SE1", Some(true)), "Deleted subject SE1");
    assert_eq!(deleted("SE1", Some(false)), "Didn't delete subject, was it already deleted?");
    assert_eq!(deleted("SE1", None), "Error while trying to execute query");
}
