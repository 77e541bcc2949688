//! What happens to a complete configuration: it is stored as a new record,
//! dropped because nothing changed, or held back until the changes to the
//! stored record are confirmed.

use crate::records::{DatabaseGuild, NewGuild};
use crate::schema::{describe, field_at, Field, FieldValue, TOTAL_FIELDS};
use crate::session::SessionStore;
use crate::step::{is_confirm, ArgumentsView, SetupArguments};
use crate::text::{decimal, push_decimal};
use crate::time_of_day::time_text;
use vstd::prelude::*;

verus! {

pub const NO_DIFFERENCES: &'static str =
    "There are no differences to the current config. Done with setup.";

pub const CONVERSION_ERROR: &'static str =
    "Error: Unexpected error converting the New Guild into a DatabaseGuild";

/// How the list of changes shows a value.
pub open spec fn listed(value: FieldValue) -> Seq<char> {
    match value {
        FieldValue::Number(n) => decimal(n as nat),
        FieldValue::Time(t) => time_text(t@.0, t@.1, t@.2, t@.3),
        FieldValue::Flag(b) => if b {
            "true"@
        } else {
            "false"@
        },
        FieldValue::Channel(c) => decimal(c.0 as nat),
        FieldValue::Role(r) => decimal(r.0 as nat),
        FieldValue::OptionalRole(Some(r)) => "Some(RoleId("@ + decimal(r.0 as nat) + "))"@,
        FieldValue::OptionalRole(None) => "None"@,
    }
}

/// How the list of changes shows `value`.
pub fn listed_text(value: FieldValue) -> (text: String)
    ensures
        text@ == listed(value),
{
    match value {
        FieldValue::Number(n) => crate::text::decimal_string(n as u64),
        FieldValue::Time(t) => t.to_text(),
        FieldValue::Flag(b) => if b {
            String::from_str("true")
        } else {
            String::from_str("false")
        },
        FieldValue::Channel(c) => crate::text::decimal_string(c.get()),
        FieldValue::Role(r) => crate::text::decimal_string(r.get()),
        FieldValue::OptionalRole(Some(r)) => {
            let mut text = String::from_str("Some(RoleId(");
            push_decimal(&mut text, r.get());
            text.append("))");
            text
        },
        FieldValue::OptionalRole(None) => String::from_str("None"),
    }
}

/// One change: the line of the stored value, the line of the new value,
/// and an empty line.
pub open spec fn change_lines(name: Seq<char>, stored: Seq<char>, collected: Seq<char>) -> Seq<
    char,
> {
    "- "@ + name + " = "@ + stored + "\n+ "@ + name + " = "@ + collected + "\n\n"@
}

/// Appends one change to `out`: the stored value of the field called
/// `name` behind `-`, the new one behind `+`.
pub fn push_change(out: &mut String, name: &str, stored: &str, collected: &str)
    ensures
        final(out)@ == old(out)@ + change_lines(name@, stored@, collected@),
{
    out.append("- ");
    out.append(name);
    out.append(" = ");
    out.append(stored);
    out.append("\n+ ");
    out.append(name);
    out.append(" = ");
    out.append(collected);
    out.append("\n\n");
    assert(out@ =~= old(out)@ + change_lines(name@, stored@, collected@));
}

/// Whether the two records hold different values for `field`.
pub open spec fn differs(field: Field, stored: DatabaseGuild, collected: DatabaseGuild) -> bool {
    stored.value(field) != collected.value(field)
}

/// The change of `field` between the two records; empty where they agree.
pub open spec fn change_of(field: Field, stored: DatabaseGuild, collected: DatabaseGuild) -> Seq<
    char,
> {
    if differs(field, stored, collected) {
        change_lines(
            field.descriptor().name@,
            listed(stored.value(field)),
            listed(collected.value(field)),
        )
    } else {
        Seq::<char>::empty()
    }
}

/// The changes of the first `count` fields, in wizard order.
pub open spec fn changes_upto(stored: DatabaseGuild, collected: DatabaseGuild, count: int) -> Seq<
    char,
>
    decreases count,
{
    if count <= 0 {
        Seq::<char>::empty()
    } else {
        changes_upto(stored, collected, count - 1) + change_of(
            Field::at(count - 1),
            stored,
            collected,
        )
    }
}

/// The changes from the stored record to the collected one: one entry for
/// each field on which they differ, in wizard order.
pub open spec fn changes(stored: DatabaseGuild, collected: DatabaseGuild) -> Seq<char> {
    changes_upto(stored, collected, TOTAL_FIELDS as int)
}

/// The changes from the stored record to the collected one.
pub fn changes_text(stored: &DatabaseGuild, collected: &DatabaseGuild) -> (text: String)
    ensures
        text@ == changes(*stored, *collected),
{
    let mut text = String::new();
    let mut index: usize = 0;
    assert(text@ =~= changes_upto(*stored, *collected, 0));
    while index < TOTAL_FIELDS
        invariant
            index <= TOTAL_FIELDS,
            text@ == changes_upto(*stored, *collected, index as int),
        decreases TOTAL_FIELDS - index,
    {
        match field_at(index) {
            Some(field) => {
                let before = stored.get(field);
                let after = collected.get(field);
                if before != after {
                    let before_text = listed_text(before);
                    let after_text = listed_text(after);
                    push_change(
                        &mut text,
                        describe(field).name,
                        before_text.as_str(),
                        after_text.as_str(),
                    );
                }
                assert(text@ =~= changes_upto(*stored, *collected, index as int) + change_of(
                    field,
                    *stored,
                    *collected,
                ));
            },
            None => {},
        }
        index = index + 1;
    }
    text
}

/// The reply that lists the changes and asks to confirm them.
pub open spec fn changes_reply(
    stored: DatabaseGuild,
    collected: DatabaseGuild,
    prefix: Seq<char>,
) -> Seq<char> {
    "Here are the changes made:\n```diff\n"@ + changes(stored, collected)
        + "```\nCheck these and then change to command to\n`"@ + prefix + "setup confirm`"@
}

/// The reply that lists the changes and asks to confirm them.
pub fn changes_message(stored: &DatabaseGuild, collected: &DatabaseGuild, prefix: &str) -> (message:
    String)
    ensures
        message@ == changes_reply(*stored, *collected, prefix@),
{
    let mut message = String::from_str("Here are the changes made:\n```diff\n");
    let list = changes_text(stored, collected);
    message.append(list.as_str());
    message.append("```\nCheck these and then change to command to\n`");
    message.append(prefix);
    message.append("setup confirm`");
    assert(message@ =~= changes_reply(*stored, *collected, prefix@));
    message
}

/// What the reconciliation of a session asks for.
#[derive(Clone, Debug)]
pub enum ReconcileResult {
    /// No configuration is stored: `guild` is to be stored as a new record.
    Insert { guild: DatabaseGuild },
    /// The stored configuration is the collected one: nothing is written
    /// and the session is over.
    NoChanges { message: String },
    /// The stored configuration differs: `message` lists the changes.
    /// Nothing is written until they are confirmed.
    ConfirmChanges { message: String },
    /// The changes were confirmed: `guild` is to replace the stored record.
    Update { guild: DatabaseGuild },
    /// A confirmation was awaited and the input is something else.
    NotUnderstood,
    /// The session has a field without a value.
    Incomplete { message: String },
}

/// `ReconcileResult` with its texts as sequences of characters.
pub enum ReconcileOutcome {
    Insert { guild: DatabaseGuild },
    NoChanges { message: Seq<char> },
    ConfirmChanges { message: Seq<char> },
    Update { guild: DatabaseGuild },
    NotUnderstood,
    Incomplete { message: Seq<char> },
}

impl View for ReconcileResult {
    type V = ReconcileOutcome;

    open spec fn view(&self) -> ReconcileOutcome {
        match self {
            ReconcileResult::Insert { guild } => ReconcileOutcome::Insert { guild: *guild },
            ReconcileResult::NoChanges { message } => ReconcileOutcome::NoChanges {
                message: message@,
            },
            ReconcileResult::ConfirmChanges { message } => ReconcileOutcome::ConfirmChanges {
                message: message@,
            },
            ReconcileResult::Update { guild } => ReconcileOutcome::Update { guild: *guild },
            ReconcileResult::NotUnderstood => ReconcileOutcome::NotUnderstood,
            ReconcileResult::Incomplete { message } => ReconcileOutcome::Incomplete {
                message: message@,
            },
        }
    }
}

impl ReconcileOutcome {
    /// Whether the outcome asks for a write to the storage.
    pub open spec fn writes(self) -> bool {
        self is Insert || self is Update
    }
}

/// What becomes of a session that has just been completed.
///
/// Without a stored configuration the collected one is to be inserted.
/// With a stored configuration that agrees on every field of the wizard
/// there is nothing to do. With one that differs the changes are listed
/// and await confirmation.
pub open spec fn reconciled(
    session: NewGuild,
    existing: Option<DatabaseGuild>,
    prefix: Seq<char>,
) -> ReconcileOutcome {
    match session.completed() {
        None => ReconcileOutcome::Incomplete { message: CONVERSION_ERROR@ },
        Some(guild) => match existing {
            None => ReconcileOutcome::Insert { guild },
            Some(stored) => if guild.same_configuration(stored) {
                ReconcileOutcome::NoChanges { message: NO_DIFFERENCES@ }
            } else {
                ReconcileOutcome::ConfirmChanges { message: changes_reply(stored, guild, prefix) }
            },
        },
    }
}

/// The sessions after `reconcile` or `confirm`: the session of the guild is
/// over where the stored configuration is the collected one, and stays in
/// every other case.
pub open spec fn sessions_after_reconcile(
    sessions: Map<u64, NewGuild>,
    session: NewGuild,
    existing: Option<DatabaseGuild>,
) -> Map<u64, NewGuild> {
    match (session.completed(), existing) {
        (Some(guild), Some(stored)) => if guild.same_configuration(stored) {
            sessions.remove(session.guild_id.0)
        } else {
            sessions
        },
        _ => sessions,
    }
}

/// Reconciles a session that has just been completed with the stored
/// configuration of its guild.
///
/// Nothing is written here. The session is removed from the store only
/// where the stored configuration already is the collected one.
pub fn reconcile(
    store: &mut SessionStore,
    session: &NewGuild,
    existing: Option<DatabaseGuild>,
    prefix: &str,
) -> (result: ReconcileResult)
    ensures
        result@ == reconciled(*session, existing, prefix@),
        final(store)@ == sessions_after_reconcile(old(store)@, *session, existing),
        result@ is NoChanges ==> !final(store)@.contains_key(session.guild_id.0),
{
    match DatabaseGuild::try_from(*session) {
        Err(_) => ReconcileResult::Incomplete { message: String::from_str(CONVERSION_ERROR) },
        Ok(guild) => match existing {
            None => ReconcileResult::Insert { guild },
            Some(stored) => {
                if *session == stored {
                    store.remove(session.guild_id);
                    ReconcileResult::NoChanges { message: String::from_str(NO_DIFFERENCES) }
                } else {
                    ReconcileResult::ConfirmChanges {
                        message: changes_message(&stored, &guild, prefix),
                    }
                }
            },
        },
    }
}

/// What becomes of a complete session when input arrives for it.
///
/// Without a stored configuration the collected one is still to be
/// inserted. With a stored configuration that by now agrees with the
/// collected one there is nothing left to do. With one that differs only
/// the word `confirm` leads to a write: the collected configuration is to
/// replace the stored one.
pub open spec fn confirmed(
    session: NewGuild,
    existing: Option<DatabaseGuild>,
    args: ArgumentsView,
) -> ReconcileOutcome {
    match session.completed() {
        None => ReconcileOutcome::Incomplete { message: CONVERSION_ERROR@ },
        Some(guild) => match existing {
            None => ReconcileOutcome::Insert { guild },
            Some(stored) => if guild.same_configuration(stored) {
                ReconcileOutcome::NoChanges { message: NO_DIFFERENCES@ }
            } else if is_confirm(args.rest) {
                ReconcileOutcome::Update { guild }
            } else {
                ReconcileOutcome::NotUnderstood
            },
        },
    }
}

/// Answers the input for a session that was complete before it arrived.
///
/// Nothing is written here. The session is removed from the store only
/// where the stored configuration already is the collected one.
pub fn confirm(
    store: &mut SessionStore,
    session: &NewGuild,
    existing: Option<DatabaseGuild>,
    args: &SetupArguments,
) -> (result: ReconcileResult)
    ensures
        result@ == confirmed(*session, existing, args@),
        final(store)@ == sessions_after_reconcile(old(store)@, *session, existing),
        result@ is NoChanges ==> !final(store)@.contains_key(session.guild_id.0),
{
    match DatabaseGuild::try_from(*session) {
        Err(_) => ReconcileResult::Incomplete { message: String::from_str(CONVERSION_ERROR) },
        Ok(guild) => match existing {
            None => ReconcileResult::Insert { guild },
            Some(stored) => if *session == stored {
                store.remove(session.guild_id);
                ReconcileResult::NoChanges { message: String::from_str(NO_DIFFERENCES) }
            } else if args.wants_confirm() {
                ReconcileResult::Update { guild }
            } else {
                ReconcileResult::NotUnderstood
            },
        },
    }
}

} // verus!
