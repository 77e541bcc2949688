//! One step of the wizard: the next field without a value takes its value
//! from the input, or the input is turned down and the field is asked for
//! again.

use crate::fields::first_unset_field;
use crate::ids::{ChannelId, GuildId, RoleId};
use crate::prompts::{
    accepted_message, accepted_reply, in_range, number_range, retry_message, retry_reply,
    InputError,
};
use crate::records::{DatabaseGuild, NewGuild};
use crate::schema::{describe, Field, FieldKind, FieldValue, TOTAL_FIELDS};
use crate::session::SessionStore;
use crate::text::{is_none, is_none_word, str_eq};
use crate::time_of_day::TimeOfDay;
use vstd::prelude::*;

verus! {

/// What the `setup` command was sent with. The chat platform reads the
/// words of the command; a mention is here only if the platform knows the
/// role or channel that it names.
#[derive(Clone, Debug)]
pub struct SetupArguments {
    pub role_mention: Option<RoleId>,
    pub channel_mention: Option<ChannelId>,
    pub flag: Option<bool>,
    pub number: Option<u32>,
    /// The text behind the other arguments.
    pub rest: Option<String>,
}

/// `SetupArguments` with its text as a sequence of characters.
pub struct ArgumentsView {
    pub role_mention: Option<RoleId>,
    pub channel_mention: Option<ChannelId>,
    pub flag: Option<bool>,
    pub number: Option<u32>,
    pub rest: Option<Seq<char>>,
}

/// The characters of a text that may be missing.
pub open spec fn text_view(text: Option<String>) -> Option<Seq<char>> {
    match text {
        Some(t) => Some(t@),
        None => None,
    }
}

impl View for SetupArguments {
    type V = ArgumentsView;

    open spec fn view(&self) -> ArgumentsView {
        ArgumentsView {
            role_mention: self.role_mention,
            channel_mention: self.channel_mention,
            flag: self.flag,
            number: self.number,
            rest: text_view(self.rest),
        }
    }
}

/// Whether the text asks to keep the stored value: `skip`, with or without
/// a full stop behind it.
pub open spec fn is_skip(rest: Option<Seq<char>>) -> bool {
    rest == Some("skip"@) || rest == Some("skip."@)
}

/// Whether the text is the word `none`, in any case.
pub open spec fn is_none_token(rest: Option<Seq<char>>) -> bool {
    match rest {
        Some(text) => is_none_word(text),
        None => false,
    }
}

/// Whether the text is the word that confirms a change.
pub open spec fn is_confirm(rest: Option<Seq<char>>) -> bool {
    rest == Some("confirm"@)
}

/// The text as the wizard reads it: `skip.` stands for `skip`, any other
/// text for itself.
pub open spec fn normalized(rest: Option<Seq<char>>) -> Option<Seq<char>> {
    if rest == Some("skip."@) {
        Some("skip"@)
    } else {
        rest
    }
}

/// Turns `skip.` into `skip` and leaves any other text as it is.
pub fn normalize_rest(rest: Option<String>) -> (read: Option<String>)
    ensures
        text_view(read) == normalized(text_view(rest)),
{
    match rest {
        Some(text) => if str_eq(text.as_str(), "skip.") {
            Some(String::from_str("skip"))
        } else {
            Some(text)
        },
        None => None,
    }
}

impl SetupArguments {
    /// Whether the text asks to keep the stored value.
    pub fn wants_skip(&self) -> (skip: bool)
        ensures
            skip == is_skip(self@.rest),
    {
        match &self.rest {
            Some(text) => str_eq(text.as_str(), "skip") || str_eq(text.as_str(), "skip."),
            None => false,
        }
    }

    /// Whether the text is the word `none`, in any case.
    pub fn wants_none(&self) -> (none: bool)
        ensures
            none == is_none_token(self@.rest),
    {
        match &self.rest {
            Some(text) => is_none(text.as_str()),
            None => false,
        }
    }

    /// Whether the text is the word that confirms a change.
    pub fn wants_confirm(&self) -> (confirm: bool)
        ensures
            confirm == is_confirm(self@.rest),
    {
        match &self.rest {
            Some(text) => str_eq(text.as_str(), "confirm"),
            None => false,
        }
    }
}

/// What becomes of the input for one field.
#[derive(Clone, Copy, Debug, PartialEq, Eq, Structural)]
pub enum Decision {
    /// The field takes the value of the stored configuration.
    Kept(FieldValue),
    /// The field takes the value that the input gives.
    Taken(FieldValue),
    /// The input gives no value for the field.
    Rejected(InputError),
}

/// The value that a number field stores for `number`: the hour of the day
/// for the time of the ghost check, the number itself elsewhere.
pub open spec fn number_value(field: Field, number: u32) -> FieldValue {
    if field == Field::GhostTimeToCheck {
        FieldValue::Time(TimeOfDay::of(number as u8, 0, 0, 0))
    } else {
        FieldValue::Number(number)
    }
}

/// What becomes of the input `args` for `field`.
///
/// `skip` keeps the value of `existing`, where there is one. Without a
/// stored configuration `skip` is a text like any other. Else the field
/// takes the argument of its kind: a number within its range, a flag, a
/// channel or a role; a role that may be left empty also takes `none`.
pub open spec fn decide(
    field: Field,
    session: NewGuild,
    args: ArgumentsView,
    existing: Option<DatabaseGuild>,
) -> Decision {
    if is_skip(args.rest) && existing is Some {
        Decision::Kept(existing->0.value(field))
    } else {
        match field.kind() {
            FieldKind::BoundedInteger { min, max } => match args.number {
                None => Decision::Rejected(InputError::NoNumber),
                Some(number) => if in_range(field, session, number) {
                    Decision::Taken(number_value(field, number))
                } else {
                    Decision::Rejected(InputError::OutsideRange)
                },
            },
            FieldKind::Boolean => match args.flag {
                None => Decision::Rejected(InputError::NoBool),
                Some(flag) => Decision::Taken(FieldValue::Flag(flag)),
            },
            FieldKind::Channel => match args.channel_mention {
                None => Decision::Rejected(InputError::NoChannelMention),
                Some(channel) => Decision::Taken(FieldValue::Channel(channel)),
            },
            FieldKind::Role => match args.role_mention {
                None => Decision::Rejected(InputError::NoRoleMention),
                Some(role) => Decision::Taken(FieldValue::Role(role)),
            },
            FieldKind::OptionalRole => if is_none_token(args.rest) {
                Decision::Taken(FieldValue::OptionalRole(None))
            } else {
                match args.role_mention {
                    None => Decision::Rejected(InputError::NoRoleMention),
                    Some(role) => Decision::Taken(FieldValue::OptionalRole(Some(role))),
                }
            },
        }
    }
}

/// A value that `decide` hands out fits the field.
pub proof fn lemma_decision_fits(
    field: Field,
    session: NewGuild,
    args: ArgumentsView,
    existing: Option<DatabaseGuild>,
)
    ensures
        decide(field, session, args, existing) matches Decision::Kept(value) ==> value.fits(field),
        decide(field, session, args, existing) matches Decision::Taken(value) ==> value.fits(field),
{
}

/// Decides what becomes of the input `args` for `field`.
pub fn decide_input(
    field: Field,
    session: &NewGuild,
    args: &SetupArguments,
    existing: Option<DatabaseGuild>,
) -> (decision: Decision)
    ensures
        decision == decide(field, *session, args@, existing),
{
    if args.wants_skip() {
        match existing {
            Some(stored) => {
                return Decision::Kept(stored.get(field));
            },
            None => {},
        }
    }
    match describe(field).kind {
        FieldKind::BoundedInteger { min, max } => match args.number {
            None => Decision::Rejected(InputError::NoNumber),
            Some(number) => {
                let range = number_range(field, session);
                if range.0 <= number as u64 && number as u64 <= range.1 {
                    if field == Field::GhostTimeToCheck {
                        match TimeOfDay::from_hms(number as u8, 0, 0) {
                            Some(time) => Decision::Taken(FieldValue::Time(time)),
                            None => Decision::Rejected(InputError::OutsideRange),
                        }
                    } else {
                        Decision::Taken(FieldValue::Number(number))
                    }
                } else {
                    Decision::Rejected(InputError::OutsideRange)
                }
            },
        },
        FieldKind::Boolean => match args.flag {
            None => Decision::Rejected(InputError::NoBool),
            Some(flag) => Decision::Taken(FieldValue::Flag(flag)),
        },
        FieldKind::Channel => match args.channel_mention {
            None => Decision::Rejected(InputError::NoChannelMention),
            Some(channel) => Decision::Taken(FieldValue::Channel(channel)),
        },
        FieldKind::Role => match args.role_mention {
            None => Decision::Rejected(InputError::NoRoleMention),
            Some(role) => Decision::Taken(FieldValue::Role(role)),
        },
        FieldKind::OptionalRole => if args.wants_none() {
            Decision::Taken(FieldValue::OptionalRole(None))
        } else {
            match args.role_mention {
                None => Decision::Rejected(InputError::NoRoleMention),
                Some(role) => Decision::Taken(FieldValue::OptionalRole(Some(role))),
            }
        },
    }
}

/// How a step ended.
#[derive(Clone, Debug)]
pub enum StepResult {
    /// The value was taken; `message` acknowledges it and asks for the
    /// next field.
    NextPrompt { message: String },
    /// The input was turned down; `message` says why and asks for the same
    /// field again. The session is as it was.
    Retry { message: String },
    /// The value was taken for the last field; `session` is complete.
    ReadyToReconcile { session: NewGuild },
    /// The session was complete before the step; the input is not the
    /// value of a field.
    AwaitingConfirmation { session: NewGuild },
}

/// `StepResult` with its texts as sequences of characters.
pub enum StepOutcome {
    NextPrompt { message: Seq<char> },
    Retry { message: Seq<char> },
    ReadyToReconcile { session: NewGuild },
    AwaitingConfirmation { session: NewGuild },
}

impl View for StepResult {
    type V = StepOutcome;

    open spec fn view(&self) -> StepOutcome {
        match self {
            StepResult::NextPrompt { message } => StepOutcome::NextPrompt { message: message@ },
            StepResult::Retry { message } => StepOutcome::Retry { message: message@ },
            StepResult::ReadyToReconcile { session } => StepOutcome::ReadyToReconcile {
                session: *session,
            },
            StepResult::AwaitingConfirmation { session } => StepOutcome::AwaitingConfirmation {
                session: *session,
            },
        }
    }
}

/// The session after a step from `session`: with the value that the input
/// gives for the first field without one, or unchanged where the input is
/// turned down or no field is left.
pub open spec fn session_after(
    session: NewGuild,
    args: ArgumentsView,
    existing: Option<DatabaseGuild>,
) -> NewGuild {
    match session.first_unset() {
        None => session,
        Some(field) => match decide(field, session, args, existing) {
            Decision::Kept(value) => session.with_value(field, value),
            Decision::Taken(value) => session.with_value(field, value),
            Decision::Rejected(_) => session,
        },
    }
}

/// How the step ends once `value` is taken for `field`: with the prompt of
/// the next field, or ready to reconcile behind the last field. `after` is
/// the session with the value in it.
pub open spec fn accepted_outcome(
    field: Field,
    value: FieldValue,
    kept: bool,
    after: NewGuild,
    prefix: Seq<char>,
    offered: bool,
) -> StepOutcome {
    if field.index() + 1 < TOTAL_FIELDS {
        StepOutcome::NextPrompt {
            message: accepted_reply(
                field,
                value,
                kept,
                Field::at(field.index() + 1),
                after,
                prefix,
                offered,
            ),
        }
    } else {
        StepOutcome::ReadyToReconcile { session: after }
    }
}

/// How a step from `session` ends. The hint on `skip` is offered where
/// there is a stored configuration.
pub open spec fn step_outcome(
    session: NewGuild,
    args: ArgumentsView,
    existing: Option<DatabaseGuild>,
    prefix: Seq<char>,
) -> StepOutcome {
    match session.first_unset() {
        None => StepOutcome::AwaitingConfirmation { session },
        Some(field) => match decide(field, session, args, existing) {
            Decision::Kept(value) => accepted_outcome(
                field,
                value,
                true,
                session.with_value(field, value),
                prefix,
                existing is Some,
            ),
            Decision::Taken(value) => accepted_outcome(
                field,
                value,
                false,
                session.with_value(field, value),
                prefix,
                existing is Some,
            ),
            Decision::Rejected(error) => StepOutcome::Retry {
                message: retry_reply(field, error, session, prefix, existing is Some),
            },
        },
    }
}

/// Ends the step for a value that was taken: writes it to the session of
/// the store and says what comes next.
fn accept(
    store: &mut SessionStore,
    session: NewGuild,
    field: Field,
    value: FieldValue,
    kept: bool,
    prefix: &str,
    offered: bool,
) -> (result: StepResult)
    requires
        old(store)@.contains_key(session.guild_id.0),
        old(store)@[session.guild_id.0] == session,
        session.first_unset() == Some(field),
        value.fits(field),
    ensures
        result@ == accepted_outcome(
            field,
            value,
            kept,
            session.with_value(field, value),
            prefix@,
            offered,
        ),
        final(store)@ == old(store)@.insert(session.guild_id.0, session.with_value(field, value)),
{
    let written = store.update(session.guild_id, field, value);
    assert(written);
    let mut after = session;
    after.set(field, value);
    match field.next() {
        Some(next) => StepResult::NextPrompt {
            message: accepted_message(field, value, kept, next, &after, prefix, offered),
        },
        None => StepResult::ReadyToReconcile { session: after },
    }
}

/// Takes one step of the wizard for `guild_id`.
///
/// The session of the guild is read, or started empty. Its first field
/// without a value takes the value that `args` gives, or the stored value
/// of `existing` on `skip`. Where `args` gives no value for the field, the
/// session stays as it is and the reply asks for the field again.
pub fn advance(
    store: &mut SessionStore,
    guild_id: GuildId,
    args: &SetupArguments,
    existing: Option<DatabaseGuild>,
    prefix: &str,
) -> (result: StepResult)
    ensures
        result@ == step_outcome(old(store).session_of(guild_id), args@, existing, prefix@),
        final(store)@ == old(store)@.insert(
            guild_id.0,
            session_after(old(store).session_of(guild_id), args@, existing),
        ),
        result@ matches StepOutcome::Retry { .. } ==> session_after(
            old(store).session_of(guild_id),
            args@,
            existing,
        ) == old(store).session_of(guild_id),
        old(store).session_of(guild_id).in_order(),
        old(store).session_of(guild_id).guild_id == guild_id,
{
    let session = store.get_or_create(guild_id);
    match first_unset_field(&session) {
        None => StepResult::AwaitingConfirmation { session },
        Some(field) => {
            proof {
                lemma_decision_fits(field, session, args@, existing);
            }
            match decide_input(field, &session, args, existing) {
                Decision::Kept(value) => {
                    let result = accept(store, session, field, value, true, prefix, existing.is_some());
                    assert(store@ =~= old(store)@.insert(
                        guild_id.0,
                        session.with_value(field, value),
                    ));
                    result
                },
                Decision::Taken(value) => {
                    let result = accept(store, session, field, value, false, prefix, existing.is_some());
                    assert(store@ =~= old(store)@.insert(
                        guild_id.0,
                        session.with_value(field, value),
                    ));
                    result
                },
                Decision::Rejected(error) => StepResult::Retry {
                    message: retry_message(field, error, &session, prefix, existing.is_some()),
                },
            }
        },
    }
}

} // verus!
