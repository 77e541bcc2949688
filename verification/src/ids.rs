//! Identifiers handed out by the chat platform.
//!
//! Every identifier is a plain 64-bit number. The wrappers keep guilds,
//! channels, roles, users and messages apart in signatures.

use vstd::prelude::*;

verus! {

/// Identifier of a guild: one independently configured community.
#[derive(Clone, Copy, Debug, PartialEq, Eq, Hash, Structural)]
pub struct GuildId(pub u64);

/// Identifier of a channel or of a channel category.
#[derive(Clone, Copy, Debug, PartialEq, Eq, Hash, Structural)]
pub struct ChannelId(pub u64);

/// Identifier of a role.
#[derive(Clone, Copy, Debug, PartialEq, Eq, Hash, Structural)]
pub struct RoleId(pub u64);

/// Identifier of a user.
#[derive(Clone, Copy, Debug, PartialEq, Eq, Hash, Structural)]
pub struct UserId(pub u64);

/// Identifier of a message.
#[derive(Clone, Copy, Debug, PartialEq, Eq, Hash, Structural)]
pub struct MessageId(pub u64);

impl GuildId {
    pub fn new(id: u64) -> (r: Self)
        ensures
            r.0 == id,
    {
        GuildId(id)
    }

    pub fn get(self) -> (id: u64)
        ensures
            id == self.0,
    {
        self.0
    }
}

impl ChannelId {
    pub fn new(id: u64) -> (r: Self)
        ensures
            r.0 == id,
    {
        ChannelId(id)
    }

    pub fn get(self) -> (id: u64)
        ensures
            id == self.0,
    {
        self.0
    }
}

impl RoleId {
    pub fn new(id: u64) -> (r: Self)
        ensures
            r.0 == id,
    {
        RoleId(id)
    }

    pub fn get(self) -> (id: u64)
        ensures
            id == self.0,
    {
        self.0
    }
}

impl UserId {
    pub fn new(id: u64) -> (r: Self)
        ensures
            r.0 == id,
    {
        UserId(id)
    }

    pub fn get(self) -> (id: u64)
        ensures
            id == self.0,
    {
        self.0
    }
}

impl MessageId {
    pub fn new(id: u64) -> (r: Self)
        ensures
            r.0 == id,
    {
        MessageId(id)
    }

    pub fn get(self) -> (id: u64)
        ensures
            id == self.0,
    {
        self.0
    }
}

} // verus!
