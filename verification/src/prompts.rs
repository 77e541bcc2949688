//! The texts of the wizard: what asks for a field, what answers a value
//! that was taken, and what answers one that was not.

use crate::ids::{ChannelId, RoleId};
use crate::records::NewGuild;
use crate::schema::{describe, Field, FieldKind, FieldValue, TMP_STUDENTY_ROLE_COMMAND_2};
use crate::text::{decimal, push_decimal};
use vstd::prelude::*;

verus! {

pub const OUTSIDE_RANGE: &'static str = "**Value of number was outside of valid numbers!**";

pub const NO_NUMBER: &'static str = "**Did not get a number!**";

pub const NO_BOOL: &'static str = "**Did not get a bool value!**";

pub const NO_CHANNEL_MENTION: &'static str = "**Did not get a Channel Mention**";

pub const NO_ROLE_MENTION: &'static str = "**Did not get a Role Mention**";

/// Why an input was not taken as the value of a field.
#[derive(Clone, Copy, Debug, PartialEq, Eq, Hash, Structural)]
pub enum InputError {
    /// The field takes a number and none was given.
    NoNumber,
    /// The number is outside the range of the field.
    OutsideRange,
    /// The field takes `true` or `false` and neither was given.
    NoBool,
    /// The field takes a channel and no known channel was mentioned.
    NoChannelMention,
    /// The field takes a role and no known role was mentioned.
    NoRoleMention,
}

impl InputError {
    /// The line that tells the user of the error.
    pub open spec fn text(self) -> Seq<char> {
        match self {
            InputError::NoNumber => NO_NUMBER@,
            InputError::OutsideRange => OUTSIDE_RANGE@,
            InputError::NoBool => NO_BOOL@,
            InputError::NoChannelMention => NO_CHANNEL_MENTION@,
            InputError::NoRoleMention => NO_ROLE_MENTION@,
        }
    }

    /// The line that tells the user of the error.
    pub fn message(self) -> (line: &'static str)
        ensures
            line@ == self.text(),
    {
        match self {
            InputError::NoNumber => NO_NUMBER,
            InputError::OutsideRange => OUTSIDE_RANGE,
            InputError::NoBool => NO_BOOL,
            InputError::NoChannelMention => NO_CHANNEL_MENTION,
            InputError::NoRoleMention => NO_ROLE_MENTION,
        }
    }
}

/// The least number that `field` takes. For the kick deadline it is one
/// day more than the warning deadline of `session`.
pub open spec fn lower_bound(field: Field, session: NewGuild) -> int {
    match field.kind() {
        FieldKind::BoundedInteger { min, max } => match (field, session.ghost_warning_deadline) {
            (Field::GhostKickDeadline, Some(warning)) => warning + 1,
            _ => min as int,
        },
        _ => 0,
    }
}

/// The greatest number that `field` takes.
pub open spec fn upper_bound(field: Field) -> int {
    match field.kind() {
        FieldKind::BoundedInteger { min, max } => max as int,
        _ => 0,
    }
}

/// Whether `number` is a value that `field` takes in `session`.
pub open spec fn in_range(field: Field, session: NewGuild, number: u32) -> bool {
    lower_bound(field, session) <= number <= upper_bound(field)
}

/// The least and the greatest number that `field` takes in `session`.
pub fn number_range(field: Field, session: &NewGuild) -> (range: (u64, u64))
    ensures
        range.0 == lower_bound(field, *session),
        range.1 == upper_bound(field),
{
    match describe(field).kind {
        FieldKind::BoundedInteger { min, max } => {
            let low: u64 = match (field, session.ghost_warning_deadline) {
                (Field::GhostKickDeadline, Some(warning)) => warning as u64 + 1,
                _ => min as u64,
            };
            (low, max as u64)
        },
        _ => (0, 0),
    }
}

/// How a reply names a channel: its mention.
pub open spec fn channel_mention(channel: ChannelId) -> Seq<char> {
    "<#"@ + decimal(channel.0 as nat) + ">"@
}

/// How a reply names a role: its mention.
pub open spec fn role_mention(role: RoleId) -> Seq<char> {
    "<@&"@ + decimal(role.0 as nat) + ">"@
}

/// How a reply shows a value that was taken.
pub open spec fn shown(value: FieldValue) -> Seq<char> {
    match value {
        FieldValue::Number(n) => decimal(n as nat),
        FieldValue::Time(t) => decimal(t@.0 as nat),
        FieldValue::Flag(b) => if b {
            "enabled"@
        } else {
            "disabled"@
        },
        FieldValue::Channel(c) => channel_mention(c),
        FieldValue::Role(r) => role_mention(r),
        FieldValue::OptionalRole(Some(r)) => role_mention(r),
        FieldValue::OptionalRole(None) => "None"@,
    }
}

/// Appends how a reply shows `value`.
pub fn push_shown(out: &mut String, value: FieldValue)
    ensures
        final(out)@ == old(out)@ + shown(value),
{
    match value {
        FieldValue::Number(n) => {
            push_decimal(out, n as u64);
        },
        FieldValue::Time(t) => {
            push_decimal(out, t.hour() as u64);
        },
        FieldValue::Flag(b) => {
            if b {
                out.append("enabled");
            } else {
                out.append("disabled");
            }
        },
        FieldValue::Channel(c) => {
            out.append("<#");
            push_decimal(out, c.get());
            out.append(">");
            assert(out@ =~= old(out)@ + shown(value));
        },
        FieldValue::Role(r) => {
            out.append("<@&");
            push_decimal(out, r.get());
            out.append(">");
            assert(out@ =~= old(out)@ + shown(value));
        },
        FieldValue::OptionalRole(Some(r)) => {
            out.append("<@&");
            push_decimal(out, r.get());
            out.append(">");
            assert(out@ =~= old(out)@ + shown(value));
        },
        FieldValue::OptionalRole(None) => {
            out.append("None");
        },
    }
}

/// The sentence that tells the user how to keep the stored value. It is
/// empty unless `offered`: there is nothing to keep for a guild without a
/// stored configuration.
pub open spec fn skip_hint(prefix: Seq<char>, offered: bool) -> Seq<char> {
    if offered {
        "\n**You can also skip setting this value by writing `"@ + prefix + "setup skip` or `"@
            + prefix + "setup skip.`**"@
    } else {
        Seq::<char>::empty()
    }
}

/// Appends `skip_hint`.
pub fn push_skip_hint(out: &mut String, prefix: &str, offered: bool)
    ensures
        final(out)@ == old(out)@ + skip_hint(prefix@, offered),
{
    if offered {
        out.append("\n**You can also skip setting this value by writing `");
        out.append(prefix);
        out.append("setup skip` or `");
        out.append(prefix);
        out.append("setup skip.`**");
    }
    assert(out@ =~= old(out)@ + skip_hint(prefix@, offered));
}

/// For a field that takes a number: a line break, the recommended number
/// and the range. Empty for the other kinds.
pub open spec fn range_hint(field: Field, session: NewGuild) -> Seq<char> {
    let d = field.descriptor();
    match (d.kind, d.recommended) {
        (FieldKind::BoundedInteger { min, max }, Some(recommended)) => "\n"@ + decimal(
            recommended as nat,
        ) + " "@ + d.unit@ + " is recommended. The value must be between "@ + decimal(
            lower_bound(field, session) as nat,
        ) + " and "@ + decimal(upper_bound(field) as nat) + d.range_note@,
        _ => Seq::<char>::empty(),
    }
}

/// Appends `range_hint`.
pub fn push_range_hint(out: &mut String, field: Field, session: &NewGuild)
    ensures
        final(out)@ == old(out)@ + range_hint(field, *session),
{
    let d = describe(field);
    match (d.kind, d.recommended) {
        (FieldKind::BoundedInteger { min, max }, Some(recommended)) => {
            let range = number_range(field, session);
            out.append("\n");
            push_decimal(out, recommended as u64);
            out.append(" ");
            out.append(d.unit);
            out.append(" is recommended. The value must be between ");
            push_decimal(out, range.0);
            out.append(" and ");
            push_decimal(out, range.1);
            out.append(d.range_note);
        },
        _ => {},
    }
    assert(out@ =~= old(out)@ + range_hint(field, *session));
}

/// For a field that may be left empty: the second command. Empty for the
/// other kinds.
pub open spec fn second_command(field: Field, prefix: Seq<char>) -> Seq<char> {
    match field.kind() {
        FieldKind::OptionalRole => " or `"@ + prefix + TMP_STUDENTY_ROLE_COMMAND_2@ + "`"@,
        _ => Seq::<char>::empty(),
    }
}

/// The text that asks for `field`: the request, the command to send, for a
/// number the recommended value and the range, and the hint on `skip`.
pub open spec fn prompt(field: Field, session: NewGuild, prefix: Seq<char>, offered: bool) -> Seq<
    char,
> {
    let d = field.descriptor();
    d.prompt@ + "\n`"@ + prefix + d.command@ + "`"@ + second_command(field, prefix) + range_hint(
        field,
        session,
    ) + skip_hint(prefix, offered)
}

/// Appends `prompt`.
pub fn push_prompt(out: &mut String, field: Field, session: &NewGuild, prefix: &str, offered: bool)
    ensures
        final(out)@ == old(out)@ + prompt(field, *session, prefix@, offered),
{
    let d = describe(field);
    out.append(d.prompt);
    out.append("\n`");
    out.append(prefix);
    out.append(d.command);
    out.append("`");
    match d.kind {
        FieldKind::OptionalRole => {
            out.append(" or `");
            out.append(prefix);
            out.append(TMP_STUDENTY_ROLE_COMMAND_2);
            out.append("`");
        },
        _ => {},
    }
    assert(out@ =~= old(out)@ + d.prompt@ + "\n`"@ + prefix@ + d.command@ + "`"@ + second_command(
        field,
        prefix@,
    ));
    push_range_hint(out, field, session);
    push_skip_hint(out, prefix, offered);
    assert(out@ =~= old(out)@ + prompt(field, *session, prefix@, offered));
}

/// The text that asks for `field`.
pub fn prompt_message(field: Field, session: &NewGuild, prefix: &str, offered: bool) -> (message:
    String)
    ensures
        message@ == prompt(field, *session, prefix@, offered),
{
    let mut message = String::new();
    push_prompt(&mut message, field, session, prefix, offered);
    assert(message@ =~= prompt(field, *session, prefix@, offered));
    message
}

/// The unit behind a number that was taken; empty for the other kinds.
pub open spec fn unit_suffix(field: Field) -> Seq<char> {
    match field.kind() {
        FieldKind::BoundedInteger { min, max } => " "@ + field.descriptor().unit@,
        _ => Seq::<char>::empty(),
    }
}

/// What joins the name of a field and its value in an acknowledgement.
pub open spec fn joiner(field: Field, kept: bool) -> Seq<char> {
    if kept && field == Field::GhostEnabled {
        " "@
    } else {
        " to "@
    }
}

/// The sentence that tells the user which value `field` now has: `Kept` for
/// a value taken from the stored configuration, `Set` for one from the input.
pub open spec fn acknowledgement(field: Field, value: FieldValue, kept: bool) -> Seq<char> {
    (if kept {
        "Kept "@
    } else {
        "Set "@
    }) + field.descriptor().label@ + joiner(field, kept) + shown(value) + unit_suffix(field) + "."@
}

/// Appends `acknowledgement`.
pub fn push_acknowledgement(out: &mut String, field: Field, value: FieldValue, kept: bool)
    ensures
        final(out)@ == old(out)@ + acknowledgement(field, value, kept),
{
    let d = describe(field);
    if kept {
        out.append("Kept ");
    } else {
        out.append("Set ");
    }
    out.append(d.label);
    if kept && field == Field::GhostEnabled {
        out.append(" ");
    } else {
        out.append(" to ");
    }
    push_shown(out, value);
    match d.kind {
        FieldKind::BoundedInteger { min, max } => {
            out.append(" ");
            out.append(d.unit);
        },
        _ => {},
    }
    out.append(".");
    assert(out@ =~= old(out)@ + acknowledgement(field, value, kept));
}

/// The reply to a value that was taken for `field`, when `next` is asked
/// for after it: the acknowledgement, then the prompt of `next`.
pub open spec fn accepted_reply(
    field: Field,
    value: FieldValue,
    kept: bool,
    next: Field,
    session: NewGuild,
    prefix: Seq<char>,
    offered: bool,
) -> Seq<char> {
    acknowledgement(field, value, kept) + "\n"@ + prompt(next, session, prefix, offered)
}

/// The reply to a value that was taken for `field`; `session` is the
/// configuration with the value in it.
pub fn accepted_message(
    field: Field,
    value: FieldValue,
    kept: bool,
    next: Field,
    session: &NewGuild,
    prefix: &str,
    offered: bool,
) -> (message: String)
    ensures
        message@ == accepted_reply(field, value, kept, next, *session, prefix@, offered),
{
    let mut message = String::new();
    push_acknowledgement(&mut message, field, value, kept);
    message.append("\n");
    push_prompt(&mut message, next, session, prefix, offered);
    assert(message@ =~= accepted_reply(field, value, kept, next, *session, prefix@, offered));
    message
}

/// The reply to an input that was not taken for `field`: the error, then
/// the prompt of the same field.
pub open spec fn retry_reply(
    field: Field,
    error: InputError,
    session: NewGuild,
    prefix: Seq<char>,
    offered: bool,
) -> Seq<char> {
    error.text() + "\n"@ + prompt(field, session, prefix, offered)
}

/// The reply to an input that was not taken for `field`.
pub fn retry_message(
    field: Field,
    error: InputError,
    session: &NewGuild,
    prefix: &str,
    offered: bool,
) -> (message: String)
    ensures
        message@ == retry_reply(field, error, *session, prefix@, offered),
{
    let mut message = String::from_str(error.message());
    message.append("\n");
    push_prompt(&mut message, field, session, prefix, offered);
    assert(message@ =~= retry_reply(field, error, *session, prefix@, offered));
    message
}

} // verus!
