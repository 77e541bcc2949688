//! Where log lines go: to the channel of the main log, and to the channel
//! that a guild has chosen for its own lines.

use crate::ids::{ChannelId, GuildId};
use crate::records::DatabaseGuild;
use crate::text::str_eq;
use std::collections::HashMap;
use vstd::prelude::*;

verus! {

pub const LOGGER_PIPE_MISSING_PERMISSIONS: &'static str =
    "Missing permissions, requires admin permissions";

pub const LOGGER_PIPE_NOT_SET_UP: &'static str = "Needs to be executed in an already setup guild";

pub const LOGGER_PIPE_DEACTIVATING: &'static str = "Deactivating logger pipe in current channel";

pub const LOGGER_PIPE_SETTING: &'static str = "Setting logger pipe to the current channel";

/// What the `logger_pipe` command does.
#[derive(Clone, Copy, Debug, PartialEq, Eq)]
pub enum LoggerPipe {
    /// Nothing but to send `message`.
    Refused { message: &'static str },
    /// Send `message`, store that the guild has no log channel, and stop
    /// sending its lines.
    Deactivate { message: &'static str },
    /// Send `message`, store `channel` as the log channel of the guild,
    /// and send its lines there.
    Activate { message: &'static str, channel: ChannelId },
}

/// What the `logger_pipe` command does when it is sent in `channel`.
///
/// It is refused without the rights of an administrator and in a guild
/// that is not set up. In the log channel of the guild it turns the log
/// off; in any other channel it makes that channel the log channel.
pub open spec fn logger_pipe_action(
    authorized: bool,
    db_guild: Option<DatabaseGuild>,
    channel: ChannelId,
) -> LoggerPipe {
    if !authorized {
        LoggerPipe::Refused { message: LOGGER_PIPE_MISSING_PERMISSIONS }
    } else {
        match db_guild {
            None => LoggerPipe::Refused { message: LOGGER_PIPE_NOT_SET_UP },
            Some(stored) => if stored.logger_pipe_channel == Some(channel) {
                LoggerPipe::Deactivate { message: LOGGER_PIPE_DEACTIVATING }
            } else {
                LoggerPipe::Activate { message: LOGGER_PIPE_SETTING, channel }
            },
        }
    }
}

/// Decides what the `logger_pipe` command does when it is sent in
/// `channel` of a guild with the stored configuration `db_guild`.
pub fn logger_pipe(authorized: bool, db_guild: Option<DatabaseGuild>, channel: ChannelId) -> (action:
    LoggerPipe)
    ensures
        action == logger_pipe_action(authorized, db_guild, channel),
{
    if !authorized {
        return LoggerPipe::Refused { message: LOGGER_PIPE_MISSING_PERMISSIONS };
    }
    match db_guild {
        None => LoggerPipe::Refused { message: LOGGER_PIPE_NOT_SET_UP },
        Some(stored) => {
            let current = match stored.logger_pipe_channel {
                Some(pipe) => pipe == channel,
                None => false,
            };
            if current {
                LoggerPipe::Deactivate { message: LOGGER_PIPE_DEACTIVATING }
            } else {
                LoggerPipe::Activate { message: LOGGER_PIPE_SETTING, channel }
            }
        },
    }
}

/// The log channels of the first `count` of `guilds`, by the number of
/// the guild's identifier. A guild without a log channel has no entry.
pub open spec fn routes_of(guilds: Seq<DatabaseGuild>, count: int) -> Map<u64, ChannelId>
    decreases count,
{
    if count <= 0 {
        Map::<u64, ChannelId>::empty()
    } else {
        let before = routes_of(guilds, count - 1);
        match guilds[count - 1].logger_pipe_channel {
            Some(channel) => before.insert(guilds[count - 1].guild_id.0, channel),
            None => before,
        }
    }
}

/// The channels that log lines are sent to.
pub struct DiscordTracingLayer {
    main_log_channel: Option<u64>,
    guild_to_log_channel: HashMap<u64, ChannelId>,
}

impl DiscordTracingLayer {
    /// The channel of the main log, if one is set. It is never 0.
    pub closed spec fn main_channel(&self) -> Option<u64> {
        self.main_log_channel
    }

    /// The log channel of each guild that has one, by the number of the
    /// guild's identifier.
    pub closed spec fn routes(&self) -> Map<u64, ChannelId> {
        self.guild_to_log_channel@
    }

    #[verifier::type_invariant]
    spec fn well_formed(self) -> bool {
        self.main_log_channel != Some(0u64)
    }

    /// No main log and no guild with a log channel.
    pub fn new() -> (layer: DiscordTracingLayer)
        ensures
            layer.main_channel() is None,
            layer.routes() == Map::<u64, ChannelId>::empty(),
    {
        DiscordTracingLayer { main_log_channel: None, guild_to_log_channel: HashMap::new() }
    }

    /// Makes `channel` the channel of the main log; 0 is no channel and
    /// turns the main log off.
    pub fn set_main_log_channel(&mut self, channel: u64)
        ensures
            final(self).main_channel() == (if channel == 0 {
                None
            } else {
                Some(channel)
            }),
            final(self).routes() == old(self).routes(),
    {
        if channel == 0 {
            self.main_log_channel = None;
        } else {
            self.main_log_channel = Some(channel);
        }
    }

    /// Takes the log channels of the stored guilds in place of the ones
    /// held so far.
    pub fn setup_discord_logging(&mut self, guilds: &Vec<DatabaseGuild>)
        ensures
            final(self).routes() == routes_of(guilds@, guilds@.len() as int),
            final(self).main_channel() == old(self).main_channel(),
    {
        proof {
            use_type_invariant(&*self);
        }
        let mut routes: HashMap<u64, ChannelId> = HashMap::new();
        let mut index: usize = 0;
        while index < guilds.len()
            invariant
                index <= guilds.len(),
                routes@ == routes_of(guilds@, index as int),
            decreases guilds.len() - index,
        {
            match guilds[index].logger_pipe_channel {
                Some(channel) => {
                    routes.insert(guilds[index].guild_id.get(), channel);
                },
                None => {},
            }
            index = index + 1;
        }
        std::mem::swap(&mut self.guild_to_log_channel, &mut routes);
    }

    /// Sends the lines of `guild_id` to `log_channel_id` from now on.
    pub fn add_per_server_logging(&mut self, guild_id: GuildId, log_channel_id: ChannelId)
        ensures
            final(self).routes() == old(self).routes().insert(guild_id.0, log_channel_id),
            final(self).main_channel() == old(self).main_channel(),
    {
        proof {
            use_type_invariant(&*self);
        }
        let mut routes: HashMap<u64, ChannelId> = HashMap::new();
        std::mem::swap(&mut self.guild_to_log_channel, &mut routes);
        routes.insert(guild_id.get(), log_channel_id);
        std::mem::swap(&mut self.guild_to_log_channel, &mut routes);
    }

    /// Stops sending the lines of `guild_id` to a channel of its own.
    pub fn remove_per_server_logging(&mut self, guild_id: GuildId)
        ensures
            final(self).routes() == old(self).routes().remove(guild_id.0),
            final(self).main_channel() == old(self).main_channel(),
    {
        proof {
            use_type_invariant(&*self);
        }
        let mut routes: HashMap<u64, ChannelId> = HashMap::new();
        std::mem::swap(&mut self.guild_to_log_channel, &mut routes);
        routes.remove(&guild_id.get());
        std::mem::swap(&mut self.guild_to_log_channel, &mut routes);
    }

    /// The channels that a line goes to: the channel of the main log, if
    /// one is set, and the log channel of the guild that the line names,
    /// if the line names one and that guild has one. A line that names the
    /// guild 0 names none.
    pub fn on_event(&self, guild_id: Option<u64>) -> (targets: (Option<ChannelId>, Option<ChannelId>))
        ensures
            targets.0 == (match self.main_channel() {
                Some(channel) => Some(ChannelId(channel)),
                None => None,
            }),
            targets.1 == (match guild_id {
                Some(guild) => if guild != 0 && self.routes().contains_key(guild) {
                    Some(self.routes()[guild])
                } else {
                    None
                },
                None => None,
            }),
            targets.0 matches Some(channel) ==> channel.0 != 0,
    {
        proof {
            use_type_invariant(self);
        }
        let main = match self.main_log_channel {
            Some(channel) => Some(ChannelId::new(channel)),
            None => None,
        };
        let own = match guild_id {
            Some(guild) => if guild != 0 {
                match self.guild_to_log_channel.get(&guild) {
                    Some(channel) => Some(*channel),
                    None => None,
                }
            } else {
                None
            },
            None => None,
        };
        (main, own)
    }
}

/// The line that is sent for an event: its level, a blank, its message.
pub fn log_line(level: &str, message: &str) -> (line: String)
    ensures
        line@ == level@ + " "@ + message@,
{
    let mut line = String::from_str(level);
    line.append(" ");
    line.append(message);
    line
}

/// Collects the message of an event from its fields.
pub struct MessageVisitor {
    pub message: String,
}

impl MessageVisitor {
    /// A visitor that has seen no field.
    pub fn new() -> (visitor: MessageVisitor)
        ensures
            visitor.message@ == Seq::<char>::empty(),
    {
        MessageVisitor { message: String::new() }
    }

    /// Takes the field called `field` with the printed value `value`: the
    /// value of the field `message` is added to the message, any other
    /// field is passed over.
    pub fn record_debug(&mut self, field: &str, value: &str)
        ensures
            final(self).message@ == (if field@ == "message"@ {
                old(self).message@ + value@
            } else {
                old(self).message@
            }),
    {
        if str_eq(field, "message") {
            self.message.append(value);
        }
    }
}

/// Finds the guild that an event names.
#[derive(Clone, Copy, Debug)]
pub struct GuildIdVisitor {
    pub guild_id: Option<u64>,
}

impl GuildIdVisitor {
    /// A visitor that has seen no field.
    pub fn new() -> (visitor: GuildIdVisitor)
        ensures
            visitor.guild_id is None,
    {
        GuildIdVisitor { guild_id: None }
    }

    /// Takes the field called `field` with the number `value`: the field
    /// `guild_id` names the guild, where 0 names none; any other field is
    /// passed over.
    pub fn record_u64(&mut self, field: &str, value: u64)
        ensures
            final(self).guild_id == (if field@ == "guild_id"@ {
                if value == 0 {
                    None
                } else {
                    Some(value)
                }
            } else {
                old(self).guild_id
            }),
    {
        if str_eq(field, "guild_id") {
            if value == 0 {
                self.guild_id = None;
            } else {
                self.guild_id = Some(value);
            }
        }
    }
}

} // verus!
