//! The `setup` command: what the bot is to do for one invocation, and how
//! it reports on a write once the storage has answered.
//!
//! The bot itself talks to the chat platform and to the storage. It asks
//! here what to do, does it, and comes back with the answer of the storage.

use crate::fields::{lemma_field_places, lemma_first_unset, lemma_with_value};
use crate::ids::GuildId;
use crate::prompts::{acknowledgement, push_acknowledgement};
use crate::reconcile::{
    confirm, confirmed, reconcile, reconciled, sessions_after_reconcile, ReconcileOutcome,
    ReconcileResult,
};
use crate::records::{DatabaseGuild, NewGuild};
use crate::schema::{Field, FieldValue};
use crate::session::{session_in, SessionStore};
use crate::step::{
    advance, decide, session_after, step_outcome, ArgumentsView, Decision, SetupArguments,
    StepOutcome, StepResult,
};
use vstd::prelude::*;

verus! {

pub const MISSING_PERMISSIONS: &'static str = "Missing permissions, requires admin permissions";

pub const INSERT_FAILED: &'static str = "Error: Problem inserting Guild info into the Database";

pub const ALREADY_STORED: &'static str = "Error: Guild was already in the Database";

pub const SAVED: &'static str = "\nDone with setup, the Guild is now saved in the Database.";

pub const UPDATE_FAILED: &'static str = "Error: Problem updating Guild info in the Database";

pub const NOT_UPDATED: &'static str = "Error: Guild wasn't updated in the Database";

pub const UPDATED: &'static str = "Done with setup, the Guild is now updated in the Database.";

/// What the bot is to do for one invocation of `setup`.
#[derive(Clone, Debug)]
pub enum SetupAction {
    /// Send `message`.
    Reply { message: String },
    /// Store `guild` as a new record, then report with `insert_finished`.
    Insert { guild: DatabaseGuild },
    /// Replace the stored record by `guild`, then report with
    /// `update_finished`.
    Update { guild: DatabaseGuild },
    /// The input was not understood: send the arguments back as they were
    /// read.
    Echo,
}

/// `SetupAction` with its text as a sequence of characters.
pub enum SetupActionView {
    Reply { message: Seq<char> },
    Insert { guild: DatabaseGuild },
    Update { guild: DatabaseGuild },
    Echo,
}

impl View for SetupAction {
    type V = SetupActionView;

    open spec fn view(&self) -> SetupActionView {
        match self {
            SetupAction::Reply { message } => SetupActionView::Reply { message: message@ },
            SetupAction::Insert { guild } => SetupActionView::Insert { guild: *guild },
            SetupAction::Update { guild } => SetupActionView::Update { guild: *guild },
            SetupAction::Echo => SetupActionView::Echo,
        }
    }
}

impl SetupActionView {
    /// Whether the action writes to the storage.
    pub open spec fn writes(self) -> bool {
        self is Insert || self is Update
    }
}

/// The action that carries out what the reconciliation asks for.
pub open spec fn action_for(outcome: ReconcileOutcome) -> SetupActionView {
    match outcome {
        ReconcileOutcome::Insert { guild } => SetupActionView::Insert { guild },
        ReconcileOutcome::Update { guild } => SetupActionView::Update { guild },
        ReconcileOutcome::NotUnderstood => SetupActionView::Echo,
        ReconcileOutcome::NoChanges { message } => SetupActionView::Reply { message },
        ReconcileOutcome::ConfirmChanges { message } => SetupActionView::Reply { message },
        ReconcileOutcome::Incomplete { message } => SetupActionView::Reply { message },
    }
}

fn into_action(result: ReconcileResult) -> (action: SetupAction)
    ensures
        action@ == action_for(result@),
{
    match result {
        ReconcileResult::Insert { guild } => SetupAction::Insert { guild },
        ReconcileResult::Update { guild } => SetupAction::Update { guild },
        ReconcileResult::NotUnderstood => SetupAction::Echo,
        ReconcileResult::NoChanges { message } => SetupAction::Reply { message },
        ReconcileResult::ConfirmChanges { message } => SetupAction::Reply { message },
        ReconcileResult::Incomplete { message } => SetupAction::Reply { message },
    }
}

/// What `setup` answers.
///
/// Without the permission of an administrator: a fixed refusal. Else the
/// input is taken as one step of the wizard, from the session of the guild
/// or from an empty one if the guild has none. Behind the last field the
/// session is reconciled with the stored configuration, and for a session
/// that was complete before, the input is read as the answer to the listed
/// changes.
pub open spec fn setup_action(
    sessions: Map<u64, NewGuild>,
    authorized: bool,
    guild_id: GuildId,
    db_guild: Option<DatabaseGuild>,
    args: ArgumentsView,
    prefix: Seq<char>,
) -> SetupActionView {
    if !authorized {
        SetupActionView::Reply { message: MISSING_PERMISSIONS@ }
    } else {
        match step_outcome(session_in(sessions, guild_id), args, db_guild, prefix) {
            StepOutcome::NextPrompt { message } => SetupActionView::Reply { message },
            StepOutcome::Retry { message } => SetupActionView::Reply { message },
            StepOutcome::ReadyToReconcile { session } => action_for(
                reconciled(session, db_guild, prefix),
            ),
            StepOutcome::AwaitingConfirmation { session } => action_for(
                confirmed(session, db_guild, args),
            ),
        }
    }
}

/// The sessions that `setup` leaves behind.
///
/// Without permission nothing changes. Else the session of the guild, or
/// an empty one if it has none, takes the step and is stored. If it is
/// complete then and the stored configuration is the collected one, the
/// session is over.
pub open spec fn sessions_after_setup(
    sessions: Map<u64, NewGuild>,
    authorized: bool,
    guild_id: GuildId,
    db_guild: Option<DatabaseGuild>,
    args: ArgumentsView,
) -> Map<u64, NewGuild> {
    if !authorized {
        sessions
    } else {
        let after = session_after(session_in(sessions, guild_id), args, db_guild);
        sessions_after_reconcile(sessions.insert(guild_id.0, after), after, db_guild)
    }
}

/// Decides what the bot does for one invocation of `setup`.
///
/// `authorized` says whether the sender may configure the guild,
/// `db_guild` is the stored configuration of the guild, if there is one,
/// and `prefix` is what commands start with. A guild without a session
/// gets one, and the input counts for its first field.
pub fn setup(
    store: &mut SessionStore,
    authorized: bool,
    guild_id: GuildId,
    db_guild: Option<DatabaseGuild>,
    args: &SetupArguments,
    prefix: &str,
) -> (action: SetupAction)
    ensures
        action@ == setup_action(old(store)@, authorized, guild_id, db_guild, args@, prefix@),
        final(store)@ == sessions_after_setup(old(store)@, authorized, guild_id, db_guild, args@),
        !authorized ==> final(store)@ == old(store)@,
{
    if !authorized {
        return SetupAction::Reply { message: String::from_str(MISSING_PERMISSIONS) };
    }
    let ghost before = store.session_of(guild_id);
    match advance(store, guild_id, args, db_guild, prefix) {
        StepResult::NextPrompt { message } => {
            proof {
                lemma_unfinished(before, args@, db_guild, prefix@);
            }
            SetupAction::Reply { message }
        },
        StepResult::Retry { message } => {
            proof {
                lemma_unfinished(before, args@, db_guild, prefix@);
            }
            SetupAction::Reply { message }
        },
        StepResult::ReadyToReconcile { session } => {
            assert(session == session_after(before, args@, db_guild));
            into_action(reconcile(store, &session, db_guild, prefix))
        },
        StepResult::AwaitingConfirmation { session } => {
            assert(session == session_after(before, args@, db_guild));
            into_action(confirm(store, &session, db_guild, args))
        },
    }
}

/// A step that ends with a prompt leaves a field without a value.
proof fn lemma_unfinished(
    session: NewGuild,
    args: ArgumentsView,
    existing: Option<DatabaseGuild>,
    prefix: Seq<char>,
)
    requires
        session.in_order(),
        step_outcome(session, args, existing, prefix) is NextPrompt || step_outcome(
            session,
            args,
            existing,
            prefix,
        ) is Retry,
    ensures
        session_after(session, args, existing).completed() is None,
{
    lemma_first_unset(session);
    lemma_field_places();
    let field = session.first_unset()->0;
    let after = session_after(session, args, existing);
    match decide(field, session, args, existing) {
        Decision::Rejected(_) => {},
        Decision::Kept(value) => {
            lemma_with_value(session, field, value);
            assert(!session.is_set_at(field.index()));
            assert(!session.is_set_at(19));
            assert(after.value(Field::TmpcKeepTime) == session.value(Field::TmpcKeepTime));
        },
        Decision::Taken(value) => {
            lemma_with_value(session, field, value);
            assert(!session.is_set_at(field.index()));
            assert(!session.is_set_at(19));
            assert(after.value(Field::TmpcKeepTime) == session.value(Field::TmpcKeepTime));
        },
    }
}

/// The report on an insert. `stored` is the answer of the storage:
/// `Some(true)` if the record was written, `Some(false)` if the guild had
/// a record already, `None` if the storage failed.
pub open spec fn insert_reply(guild: DatabaseGuild, stored: Option<bool>) -> Seq<char> {
    match stored {
        Some(true) => acknowledgement(
            Field::TmpcKeepTime,
            FieldValue::Number(guild.tmpc_keep_time),
            false,
        ) + SAVED@,
        Some(false) => ALREADY_STORED@,
        None => INSERT_FAILED@,
    }
}

/// Reports on the insert of `guild` and ends the session of its guild if
/// the record was written. After a failure the session stays, so that the
/// command can be sent again.
pub fn insert_finished(store: &mut SessionStore, guild: &DatabaseGuild, stored: Option<bool>) -> (message:
    String)
    ensures
        message@ == insert_reply(*guild, stored),
        stored == Some(true) ==> final(store)@ == old(store)@.remove(guild.guild_id.0),
        stored != Some(true) ==> final(store)@ == old(store)@,
{
    match stored {
        Some(true) => {
            store.remove(guild.guild_id);
            let mut message = String::new();
            push_acknowledgement(
                &mut message,
                Field::TmpcKeepTime,
                FieldValue::Number(guild.tmpc_keep_time),
                false,
            );
            message.append(SAVED);
            assert(message@ =~= insert_reply(*guild, stored));
            message
        },
        Some(false) => String::from_str(ALREADY_STORED),
        None => String::from_str(INSERT_FAILED),
    }
}

/// The report on an update. `stored` is the answer of the storage:
/// `Some(true)` if the record was changed, `Some(false)` if it was not,
/// `None` if the storage failed.
pub open spec fn update_reply(stored: Option<bool>) -> Seq<char> {
    match stored {
        Some(true) => UPDATED@,
        Some(false) => NOT_UPDATED@,
        None => UPDATE_FAILED@,
    }
}

/// Reports on the update of `guild` and ends the session of its guild if
/// the record was changed. After a failure the session stays, so that the
/// changes can be confirmed again.
pub fn update_finished(store: &mut SessionStore, guild: &DatabaseGuild, stored: Option<bool>) -> (message:
    String)
    ensures
        message@ == update_reply(stored),
        stored == Some(true) ==> final(store)@ == old(store)@.remove(guild.guild_id.0),
        stored != Some(true) ==> final(store)@ == old(store)@,
{
    match stored {
        Some(true) => {
            store.remove(guild.guild_id);
            String::from_str(UPDATED)
        },
        Some(false) => String::from_str(NOT_UPDATED),
        None => String::from_str(UPDATE_FAILED),
    }
}

} // verus!
