//! The rules of a chat bot that serves many guilds, kept apart from the
//! chat platform, the database and the cache that the bot talks to.
//!
//! The heart of the crate is the setup wizard. It collects the
//! configuration of a guild one field at a time, over as many commands as
//! it takes, and writes nothing before the whole configuration is there
//! and, where it replaces a stored one, before the changes are confirmed.
//!
//! - `schema` lists the fields in the order of the wizard, `fields` reads
//!   and writes the records by field, `records` holds the records.
//! - `session` keeps the unfinished configurations, one per guild.
//! - `step` takes one input for the next field, `reconcile` compares a
//!   finished configuration with the stored one, `setup` is the command
//!   as a whole, and `prompts` holds the texts.
//! - `laws` states what holds of the wizard for every input.
//!
//! Around it stand the smaller rules of the bot: `checks` on who may use a
//! command, `validate` on stored records that the platform no longer
//! knows, `columns` on the layout of the table of guilds, `email_stats` on
//! the counts kept per address, `log_routing` on where log lines go, and
//! `subjects` on the subject commands.

pub mod checks;
pub mod columns;
pub mod email_stats;
pub mod fields;
pub mod ids;
pub mod laws;
pub mod log_routing;
pub mod prompts;
pub mod reconcile;
pub mod records;
pub mod schema;
pub mod session;
pub mod setup;
pub mod step;
pub mod subjects;
pub mod text;
pub mod time_of_day;
pub mod validate;
