//! What holds of the wizard whatever the input: the order of the fields,
//! what a refused input leaves behind, when `skip` counts, the range of the
//! kick deadline, and when the storage is written.

use crate::fields::{lemma_field_places, lemma_first_unset, lemma_with_value};
use crate::ids::GuildId;
use crate::prompts::{in_range, lower_bound, upper_bound, InputError};
use crate::reconcile::{
    change_lines, change_of, changes, changes_upto, confirmed, differs, listed, reconciled,
    sessions_after_reconcile, ReconcileOutcome, NO_DIFFERENCES,
};
use crate::records::{DatabaseGuild, NewGuild};
use crate::schema::{Field, FieldValue, TOTAL_FIELDS};
use crate::session::{
    lemma_empty_in_order, lemma_fill_keeps_order, session_in, sessions_in_order,
};
use crate::setup::{sessions_after_setup, setup_action, SetupActionView};
use crate::step::{
    decide, is_confirm, is_none_token, is_skip, lemma_decision_fits, normalized, session_after,
    step_outcome, ArgumentsView, Decision, StepOutcome,
};
use vstd::prelude::*;

verus! {

/// The fields are filled in order. If a session has no field set behind an
/// unset one, then after a step, whatever the input, it still has none:
/// where field `i` is unset, every later field `j` is unset too.
pub proof fn lemma_step_keeps_order(
    session: NewGuild,
    args: ArgumentsView,
    existing: Option<DatabaseGuild>,
)
    requires
        session.in_order(),
    ensures
        session_after(session, args, existing).in_order(),
        session_after(session, args, existing).guild_id == session.guild_id,
        forall|i: int, j: int|
            0 <= i < j < TOTAL_FIELDS && !session_after(session, args, existing).is_set_at(i)
                ==> !session_after(session, args, existing).is_set_at(j),
{
    let after = session_after(session, args, existing);
    match session.first_unset() {
        None => {},
        Some(field) => {
            match decide(field, session, args, existing) {
                Decision::Kept(value) => {
                    lemma_fill_keeps_order(session, field, value);
                    lemma_with_value(session, field, value);
                },
                Decision::Taken(value) => {
                    lemma_fill_keeps_order(session, field, value);
                    lemma_with_value(session, field, value);
                },
                Decision::Rejected(_) => {},
            }
        },
    }
    assert forall|i: int, j: int| 0 <= i < j < TOTAL_FIELDS && !after.is_set_at(i) implies !after.is_set_at(
        j,
    ) by {
        assert(!after.is_set_at(i) ==> !after.is_set_at(j));
    }
}

/// The fields are filled in order for every guild at any time: if every
/// session is filed under its guild and in wizard order, the same holds of
/// the sessions that `setup` leaves behind.
pub proof fn lemma_setup_keeps_order(
    sessions: Map<u64, NewGuild>,
    authorized: bool,
    guild_id: GuildId,
    db_guild: Option<DatabaseGuild>,
    args: ArgumentsView,
)
    requires
        sessions_in_order(sessions),
    ensures
        sessions_in_order(sessions_after_setup(sessions, authorized, guild_id, db_guild, args)),
{
    let after = sessions_after_setup(sessions, authorized, guild_id, db_guild, args);
    lemma_empty_in_order(guild_id);
    lemma_step_keeps_order(session_in(sessions, guild_id), args, db_guild);
    assert forall|key: u64| #[trigger] after.contains_key(key) implies after[key].guild_id.0 == key
        && after[key].in_order() by {
        if key != guild_id.0 {
            assert(sessions.contains_key(key));
            assert(after[key] == sessions[key]);
        }
    }
}

/// The fields stay in order where a step starts a session: the sessions
/// that `advance` leaves behind are in wizard order if the sessions before
/// it were.
pub proof fn lemma_advance_keeps_order(
    sessions: Map<u64, NewGuild>,
    guild_id: GuildId,
    args: ArgumentsView,
    existing: Option<DatabaseGuild>,
)
    requires
        sessions_in_order(sessions),
    ensures
        sessions_in_order(
            sessions.insert(
                guild_id.0,
                session_after(session_in(sessions, guild_id), args, existing),
            ),
        ),
{
    let before = session_in(sessions, guild_id);
    lemma_empty_in_order(guild_id);
    lemma_step_keeps_order(before, args, existing);
    let after = sessions.insert(guild_id.0, session_after(before, args, existing));
    assert forall|key: u64| #[trigger] after.contains_key(key) implies after[key].guild_id.0 == key
        && after[key].in_order() by {
        if key != guild_id.0 {
            assert(sessions.contains_key(key));
        }
    }
}

/// The fields stay in order where a session ends: the sessions without
/// the one of `guild_id` are in wizard order if all were.
pub proof fn lemma_remove_keeps_order(sessions: Map<u64, NewGuild>, guild_id: GuildId)
    requires
        sessions_in_order(sessions),
    ensures
        sessions_in_order(sessions.remove(guild_id.0)),
{
    let after = sessions.remove(guild_id.0);
    assert forall|key: u64| #[trigger] after.contains_key(key) implies after[key].guild_id.0 == key
        && after[key].in_order() by {
        assert(sessions.contains_key(key));
    }
}

/// A refused input changes nothing. If a step ends in `Retry`, the session
/// after it is the session before it, and the same input meets the same
/// reply again.
pub proof fn lemma_retry_changes_nothing(
    session: NewGuild,
    args: ArgumentsView,
    existing: Option<DatabaseGuild>,
    prefix: Seq<char>,
)
    requires
        step_outcome(session, args, existing, prefix) is Retry,
    ensures
        session_after(session, args, existing) == session,
        step_outcome(session_after(session, args, existing), args, existing, prefix)
            == step_outcome(session, args, existing, prefix),
        session_after(session_after(session, args, existing), args, existing) == session,
{
}

/// The same holds of the command as a whole, for a guild with a session
/// and for one without. Where `setup` answers with a refusal, the session
/// of the guild is the one that the step started from: the stored one, or
/// an empty one for a guild that had none. The same command then meets the
/// same answer again and changes nothing more.
pub proof fn lemma_setup_retry_changes_nothing(
    sessions: Map<u64, NewGuild>,
    guild_id: GuildId,
    db_guild: Option<DatabaseGuild>,
    args: ArgumentsView,
    prefix: Seq<char>,
)
    requires
        step_outcome(session_in(sessions, guild_id), args, db_guild, prefix) is Retry,
    ensures
        sessions_after_setup(sessions, true, guild_id, db_guild, args) == sessions.insert(
            guild_id.0,
            session_in(sessions, guild_id),
        ),
        sessions.contains_key(guild_id.0) ==> sessions_after_setup(
            sessions,
            true,
            guild_id,
            db_guild,
            args,
        ) == sessions,
        setup_action(
            sessions_after_setup(sessions, true, guild_id, db_guild, args),
            true,
            guild_id,
            db_guild,
            args,
            prefix,
        ) == setup_action(sessions, true, guild_id, db_guild, args, prefix),
        sessions_after_setup(
            sessions_after_setup(sessions, true, guild_id, db_guild, args),
            true,
            guild_id,
            db_guild,
            args,
        ) == sessions_after_setup(sessions, true, guild_id, db_guild, args),
{
    let start = session_in(sessions, guild_id);
    lemma_first_unset(start);
    let after = sessions_after_setup(sessions, true, guild_id, db_guild, args);
    assert(after =~= sessions.insert(guild_id.0, start));
    if sessions.contains_key(guild_id.0) {
        assert(after =~= sessions);
    }
    assert(session_in(after, guild_id) == start);
    assert(sessions_after_setup(after, true, guild_id, db_guild, args) =~= after);
}

/// `skip` needs a stored configuration. Without one, `skip` is answered as
/// any other text that names no value: the step ends as it does for the
/// same arguments with any text `other` that is not the word `none`, or
/// with no text at all. Where the arguments hold no value either, the
/// answer is a refusal.
pub proof fn lemma_skip_needs_history(
    session: NewGuild,
    args: ArgumentsView,
    other: Option<Seq<char>>,
    prefix: Seq<char>,
)
    requires
        is_skip(args.rest),
        !is_none_token(other),
    ensures
        step_outcome(session, args, None, prefix) == step_outcome(
            session,
            ArgumentsView { rest: other, ..args },
            None,
            prefix,
        ),
        session_after(session, args, None) == session_after(
            session,
            ArgumentsView { rest: other, ..args },
            None,
        ),
        session.first_unset() is Some && args.number is None && args.flag is None
            && args.channel_mention is None && args.role_mention is None ==> step_outcome(
            session,
            args,
            None,
            prefix,
        ) is Retry,
{
    reveal_strlit("skip");
    reveal_strlit("skip.");
    assert(!is_none_token(args.rest));
    lemma_field_places();
}

/// The wizard reads `skip.` as `skip`: with the text normalized, a step
/// ends as it does with the text as it was sent, and so does the answer
/// for a complete session.
pub proof fn lemma_normalized_reads_the_same(
    session: NewGuild,
    args: ArgumentsView,
    existing: Option<DatabaseGuild>,
    prefix: Seq<char>,
)
    ensures
        step_outcome(
            session,
            ArgumentsView { rest: normalized(args.rest), ..args },
            existing,
            prefix,
        ) == step_outcome(session, args, existing, prefix),
        session_after(session, ArgumentsView { rest: normalized(args.rest), ..args }, existing)
            == session_after(session, args, existing),
        confirmed(session, existing, ArgumentsView { rest: normalized(args.rest), ..args })
            == confirmed(session, existing, args),
{
    reveal_strlit("skip");
    reveal_strlit("skip.");
    reveal_strlit("confirm");
    let read = normalized(args.rest);
    assert(is_skip(read) == is_skip(args.rest));
    assert(is_none_token(read) == is_none_token(args.rest));
    assert(is_confirm(read) == is_confirm(args.rest)) by {
        if args.rest == Some("skip."@) {
            assert("skip"@.len() != "confirm"@.len());
            assert("skip."@.len() != "confirm"@.len());
        }
    }
}

/// The range of the kick deadline follows the warning deadline. For every
/// warning deadline that the wizard takes, 2 to 14 days, the kick deadline
/// is taken from one day more up to 28 days, and nothing else is.
pub proof fn lemma_kick_bound(
    session: NewGuild,
    warning: u32,
    args: ArgumentsView,
    existing: Option<DatabaseGuild>,
)
    requires
        2 <= warning <= 14,
        session.ghost_warning_deadline == Some(warning),
    ensures
        lower_bound(Field::GhostKickDeadline, session) == warning + 1,
        upper_bound(Field::GhostKickDeadline) == 28,
        forall|number: u32|
            in_range(Field::GhostKickDeadline, session, number) <==> warning + 1 <= number <= 28,
        !(is_skip(args.rest) && existing is Some) ==> decide(
            Field::GhostKickDeadline,
            session,
            args,
            existing,
        ) == (match args.number {
            None => Decision::Rejected(InputError::NoNumber),
            Some(number) => if warning + 1 <= number <= 28 {
                Decision::Taken(FieldValue::Number(number))
            } else {
                Decision::Rejected(InputError::OutsideRange)
            },
        }),
{
}

/// The warning deadline is taken from 2 to 14 days, and nothing else is.
pub proof fn lemma_warning_bound(
    session: NewGuild,
    args: ArgumentsView,
    existing: Option<DatabaseGuild>,
)
    ensures
        lower_bound(Field::GhostWarningDeadline, session) == 2,
        upper_bound(Field::GhostWarningDeadline) == 14,
        !(is_skip(args.rest) && existing is Some) ==> decide(
            Field::GhostWarningDeadline,
            session,
            args,
            existing,
        ) == (match args.number {
            None => Decision::Rejected(InputError::NoNumber),
            Some(number) => if 2 <= number <= 14 {
                Decision::Taken(FieldValue::Number(number))
            } else {
                Decision::Rejected(InputError::OutsideRange)
            },
        }),
{
}

/// A step that takes the value of the last field leaves a complete
/// session, and so does a step that finds nothing left to ask for. A step
/// from a session in wizard order that ends with a prompt leaves a field
/// without a value.
pub proof fn lemma_ready_means_complete(
    session: NewGuild,
    args: ArgumentsView,
    existing: Option<DatabaseGuild>,
    prefix: Seq<char>,
)
    ensures
        step_outcome(session, args, existing, prefix) matches StepOutcome::ReadyToReconcile {
            session: done,
        } ==> done.complete() && done == session_after(session, args, existing),
        step_outcome(session, args, existing, prefix) matches StepOutcome::AwaitingConfirmation {
            session: done,
        } ==> done.complete() && done == session && done == session_after(
            session,
            args,
            existing,
        ),
        step_outcome(session, args, existing, prefix) is Retry ==> !session_after(
            session,
            args,
            existing,
        ).complete(),
        session.in_order() && step_outcome(session, args, existing, prefix) is NextPrompt
            ==> !session_after(session, args, existing).complete(),
{
    lemma_first_unset(session);
    lemma_field_places();
    match session.first_unset() {
        None => {},
        Some(field) => {
            lemma_decision_fits(field, session, args, existing);
            let after = session_after(session, args, existing);
            match decide(field, session, args, existing) {
                Decision::Rejected(_) => {},
                Decision::Kept(value) => {
                    lemma_with_value(session, field, value);
                    if field.index() + 1 == TOTAL_FIELDS {
                        lemma_all_set(session, after, field);
                    } else if session.in_order() {
                        assert(!session.is_set_at(field.index()));
                        assert(!session.is_set_at(19));
                        assert(after.value(Field::TmpcKeepTime) == session.value(
                            Field::TmpcKeepTime,
                        ));
                    }
                },
                Decision::Taken(value) => {
                    lemma_with_value(session, field, value);
                    if field.index() + 1 == TOTAL_FIELDS {
                        lemma_all_set(session, after, field);
                    } else if session.in_order() {
                        assert(!session.is_set_at(field.index()));
                        assert(!session.is_set_at(19));
                        assert(after.value(Field::TmpcKeepTime) == session.value(
                            Field::TmpcKeepTime,
                        ));
                    }
                },
            }
        },
    }
}

proof fn lemma_all_set(session: NewGuild, after: NewGuild, field: Field)
    requires
        field == Field::TmpcKeepTime,
        forall|i: int| 0 <= i < field.index() ==> session.is_set_at(i),
        after.is_set(field),
        forall|other: Field| other != field ==> #[trigger] after.value(other) == session.value(other),
    ensures
        after.complete(),
{
    lemma_field_places();
    assert forall|i: int| 0 <= i < TOTAL_FIELDS implies after.is_set_at(i) by {
        if i < 19 {
            assert(session.is_set_at(i));
            assert(Field::at(i) != field);
            assert(after.value(Field::at(i)) == session.value(Field::at(i)));
        }
    }
    assert(after.is_set_at(0) && after.is_set_at(1) && after.is_set_at(2) && after.is_set_at(3)
        && after.is_set_at(4) && after.is_set_at(5) && after.is_set_at(6) && after.is_set_at(7)
        && after.is_set_at(8) && after.is_set_at(9));
    assert(after.is_set_at(10) && after.is_set_at(11) && after.is_set_at(12) && after.is_set_at(13)
        && after.is_set_at(14) && after.is_set_at(15) && after.is_set_at(16) && after.is_set_at(17)
        && after.is_set_at(18) && after.is_set_at(19));
}

/// The conversion of a session never fails where `setup` converts one:
/// no answer of `setup` reports an incomplete session.
pub proof fn lemma_setup_converts(
    sessions: Map<u64, NewGuild>,
    guild_id: GuildId,
    db_guild: Option<DatabaseGuild>,
    args: ArgumentsView,
    prefix: Seq<char>,
)
    ensures
        step_outcome(
            session_in(sessions, guild_id),
            args,
            db_guild,
            prefix,
        ) matches StepOutcome::ReadyToReconcile { session } ==> !(reconciled(
            session,
            db_guild,
            prefix,
        ) is Incomplete),
        step_outcome(
            session_in(sessions, guild_id),
            args,
            db_guild,
            prefix,
        ) matches StepOutcome::AwaitingConfirmation { session } ==> !(confirmed(
            session,
            db_guild,
            args,
        ) is Incomplete),
{
    lemma_ready_means_complete(session_in(sessions, guild_id), args, db_guild, prefix);
}

/// Nothing is written where nothing changed. If the session of the guild
/// is complete after the step of `setup`, whether that step completed it
/// or found it complete, and the stored configuration agrees with it on
/// every field of the wizard, then `setup` answers that there are no
/// differences, asks for no write, and the session of the guild is over.
pub proof fn lemma_no_changes(
    sessions: Map<u64, NewGuild>,
    guild_id: GuildId,
    stored: DatabaseGuild,
    args: ArgumentsView,
    prefix: Seq<char>,
)
    requires
        sessions_in_order(sessions),
        session_after(session_in(sessions, guild_id), args, Some(stored)).completed() matches Some(
            guild,
        ) && guild.same_configuration(stored),
    ensures
        setup_action(sessions, true, guild_id, Some(stored), args, prefix)
            == (SetupActionView::Reply { message: NO_DIFFERENCES@ }),
        !setup_action(sessions, true, guild_id, Some(stored), args, prefix).writes(),
        !sessions_after_setup(sessions, true, guild_id, Some(stored), args).contains_key(
            guild_id.0,
        ),
{
    let session = session_in(sessions, guild_id);
    lemma_empty_in_order(guild_id);
    lemma_ready_means_complete(session, args, Some(stored), prefix);
    lemma_step_guild(session, args, Some(stored));
}

/// A step does not change the guild of a session.
pub proof fn lemma_step_guild(
    session: NewGuild,
    args: ArgumentsView,
    existing: Option<DatabaseGuild>,
)
    ensures
        session_after(session, args, existing).guild_id == session.guild_id,
{
    match session.first_unset() {
        None => {},
        Some(field) => {
            match decide(field, session, args, existing) {
                Decision::Kept(value) => {
                    lemma_with_value(session, field, value);
                },
                Decision::Taken(value) => {
                    lemma_with_value(session, field, value);
                },
                Decision::Rejected(_) => {},
            }
        },
    }
}

/// The changes of the first `count` fields when the records differ on
/// `field` alone.
proof fn lemma_one_change_upto(
    stored: DatabaseGuild,
    collected: DatabaseGuild,
    field: Field,
    count: int,
)
    requires
        0 <= count <= TOTAL_FIELDS,
        differs(field, stored, collected),
        forall|other: Field| other != field ==> !#[trigger] differs(other, stored, collected),
    ensures
        changes_upto(stored, collected, count) == (if count <= field.index() {
            Seq::<char>::empty()
        } else {
            change_of(field, stored, collected)
        }),
    decreases count,
{
    lemma_field_places();
    if count > 0 {
        lemma_one_change_upto(stored, collected, field, count - 1);
        let at = Field::at(count - 1);
        if at != field {
            assert(!differs(at, stored, collected));
            assert(change_of(at, stored, collected) =~= Seq::<char>::empty());
            assert(changes_upto(stored, collected, count) =~= changes_upto(
                stored,
                collected,
                count - 1,
            ));
        } else {
            assert(count - 1 == field.index());
            assert(changes_upto(stored, collected, count) =~= change_of(field, stored, collected));
        }
    }
}

/// One changed field gives one entry. If the collected configuration
/// differs from the stored one on `field` and on no other field, the list
/// of changes is the entry of that field alone: its stored value, then its
/// new value.
pub proof fn lemma_one_change(stored: DatabaseGuild, collected: DatabaseGuild, field: Field)
    requires
        differs(field, stored, collected),
        forall|other: Field| other != field ==> !#[trigger] differs(other, stored, collected),
    ensures
        changes(stored, collected) == change_lines(
            field.descriptor().name@,
            listed(stored.value(field)),
            listed(collected.value(field)),
        ),
{
    lemma_field_places();
    lemma_one_change_upto(stored, collected, field, TOTAL_FIELDS as int);
}

/// Records that agree on every field of the wizard have no changes to list.
pub proof fn lemma_no_differences(stored: DatabaseGuild, collected: DatabaseGuild, count: int)
    requires
        0 <= count <= TOTAL_FIELDS,
        forall|field: Field| !#[trigger] differs(field, stored, collected),
    ensures
        changes_upto(stored, collected, count) == Seq::<char>::empty(),
    decreases count,
{
    if count > 0 {
        lemma_no_differences(stored, collected, count - 1);
        assert(!differs(Field::at(count - 1), stored, collected));
        assert(changes_upto(stored, collected, count) =~= Seq::<char>::empty());
    }
}

/// A change is written only once it is confirmed. A complete session that
/// differs from the stored configuration is answered with the list of
/// changes, which writes nothing and keeps the session. After that only
/// the word `confirm` asks for the update; any other input is not
/// understood and writes nothing.
pub proof fn lemma_changes_need_confirmation(
    session: NewGuild,
    stored: DatabaseGuild,
    args: ArgumentsView,
    prefix: Seq<char>,
)
    requires
        session.completed() matches Some(guild) && !guild.same_configuration(stored),
    ensures
        reconciled(session, Some(stored), prefix) is ConfirmChanges,
        !reconciled(session, Some(stored), prefix).writes(),
        forall|sessions: Map<u64, NewGuild>| #[trigger]
            sessions_after_reconcile(sessions, session, Some(stored)) == sessions,
        is_confirm(args.rest) ==> confirmed(session, Some(stored), args)
            == (ReconcileOutcome::Update { guild: session.completed()->0 }),
        !is_confirm(args.rest) ==> confirmed(session, Some(stored), args)
            == ReconcileOutcome::NotUnderstood,
{
}

/// The collected configuration and the stored one are told apart by the
/// fields of the wizard alone: two records of one guild agree on every
/// field exactly if they are the same configuration.
pub proof fn lemma_same_configuration(stored: DatabaseGuild, collected: DatabaseGuild)
    requires
        stored.guild_id == collected.guild_id,
    ensures
        collected.same_configuration(stored) <==> forall|field: Field| !#[trigger] differs(
            field,
            stored,
            collected,
        ),
{
    if forall|field: Field| !#[trigger] differs(field, stored, collected) {
        assert(!differs(Field::GhostWarningDeadline, stored, collected));
        assert(!differs(Field::GhostKickDeadline, stored, collected));
        assert(!differs(Field::GhostTimeToCheck, stored, collected));
        assert(!differs(Field::GhostEnabled, stored, collected));
        assert(!differs(Field::DebugChannel, stored, collected));
        assert(!differs(Field::BotChannel, stored, collected));
        assert(!differs(Field::HelpChannel, stored, collected));
        assert(!differs(Field::StudyGroupCategory, stored, collected));
        assert(!differs(Field::SubjectGroupCategory, stored, collected));
        assert(!differs(Field::StudentyRole, stored, collected));
        assert(!differs(Field::TmpStudentyRole, stored, collected));
        assert(!differs(Field::ModeratorRole, stored, collected));
        assert(!differs(Field::NewsletterRole, stored, collected));
        assert(!differs(Field::NsfwRole, stored, collected));
        assert(!differs(Field::StudyRoleSeparatorRole, stored, collected));
        assert(!differs(Field::SubjectRoleSeparatorRole, stored, collected));
        assert(!differs(Field::FriendRole, stored, collected));
        assert(!differs(Field::AlumniRole, stored, collected));
        assert(!differs(Field::AlumniRoleSeparatorRole, stored, collected));
        assert(!differs(Field::TmpcKeepTime, stored, collected));
    }
}

} // verus!
