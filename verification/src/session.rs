//! The configurations that are being collected, one per guild.

use crate::fields::{first_unset_field, lemma_first_unset, lemma_with_value};
use crate::ids::GuildId;
use crate::records::NewGuild;
use crate::schema::{Field, FieldValue, TOTAL_FIELDS};
use std::collections::HashMap;
use vstd::prelude::*;

verus! {

/// Setting the first field without a value keeps the wizard order.
pub proof fn lemma_fill_keeps_order(session: NewGuild, field: Field, value: FieldValue)
    requires
        session.in_order(),
        session.first_unset() == Some(field),
    ensures
        session.with_value(field, value).in_order(),
{
    let after = session.with_value(field, value);
    lemma_first_unset(session);
    lemma_with_value(session, field, value);
    crate::fields::lemma_field_places();
    assert forall|i: int, j: int|
        #![trigger after.is_set_at(i), after.is_set_at(j)]
        0 <= i < j < TOTAL_FIELDS && !after.is_set_at(i) implies !after.is_set_at(j) by {
        if Field::at(i) == field {
            if value.fits(field) {
                assert(after.is_set_at(i));
            } else {
                assert(after == session);
                assert(!session.is_set_at(i));
            }
        } else {
            assert(after.is_set_at(i) == session.is_set_at(i));
            assert(!session.is_set_at(i));
            assert(i > field.index()) by {
                if i < field.index() {
                    assert(session.is_set_at(i));
                }
            }
            assert(Field::at(j) != field);
            assert(after.is_set_at(j) == session.is_set_at(j));
        }
    }
}

/// A configuration without any value is in wizard order.
pub proof fn lemma_empty_in_order(guild_id: GuildId)
    ensures
        NewGuild::empty(guild_id).in_order(),
        NewGuild::empty(guild_id).first_unset() == Some(Field::GhostWarningDeadline),
{
    let empty = NewGuild::empty(guild_id);
    assert forall|i: int, j: int|
        #![trigger empty.is_set_at(i), empty.is_set_at(j)]
        0 <= i < j < TOTAL_FIELDS && !empty.is_set_at(i) implies !empty.is_set_at(j) by {
        assert(empty.value(Field::at(j)) is None);
    }
    assert(!empty.is_set_at(0));
}

/// Whether every configuration in `sessions` is filed under its own guild
/// and was filled in wizard order.
pub open spec fn sessions_in_order(sessions: Map<u64, NewGuild>) -> bool {
    forall|key: u64| #[trigger]
        sessions.contains_key(key) ==> sessions[key].guild_id.0 == key && sessions[key].in_order()
}

/// The session that a step of `guild_id` starts from: the one among
/// `sessions`, or an empty one if the guild has none.
pub open spec fn session_in(sessions: Map<u64, NewGuild>, guild_id: GuildId) -> NewGuild {
    if sessions.contains_key(guild_id.0) {
        sessions[guild_id.0]
    } else {
        NewGuild::empty(guild_id)
    }
}

/// The wizard's sessions: for each guild at most one partial configuration.
///
/// The store owns its sessions. Whoever shares it between tasks holds one
/// lock for a whole step, so that reading a session and writing it back is
/// one action.
pub struct SessionStore {
    sessions: HashMap<u64, NewGuild>,
}

impl View for SessionStore {
    type V = Map<u64, NewGuild>;

    /// The session of each guild, by the number of the guild's identifier.
    closed spec fn view(&self) -> Map<u64, NewGuild> {
        self.sessions@
    }
}

impl SessionStore {
    #[verifier::type_invariant]
    spec fn well_formed(self) -> bool {
        sessions_in_order(self.sessions@)
    }

    /// The session that a step starts from: the stored one, or an empty one.
    pub open spec fn session_of(self, guild_id: GuildId) -> NewGuild {
        session_in(self@, guild_id)
    }

    /// A store without sessions.
    pub fn new() -> (store: SessionStore)
        ensures
            store@ == Map::<u64, NewGuild>::empty(),
    {
        SessionStore { sessions: HashMap::new() }
    }

    fn put(&mut self, session: NewGuild)
        requires
            session.in_order(),
        ensures
            final(self)@ == old(self)@.insert(session.guild_id.0, session),
    {
        proof {
            use_type_invariant(&*self);
        }
        let mut sessions: HashMap<u64, NewGuild> = HashMap::new();
        std::mem::swap(&mut self.sessions, &mut sessions);
        sessions.insert(session.guild_id.get(), session);
        std::mem::swap(&mut self.sessions, &mut sessions);
    }

    /// The number of guilds with a session.
    pub fn len(&self) -> (count: usize)
        ensures
            count == self@.len(),
    {
        self.sessions.len()
    }

    /// Whether `guild_id` has a session.
    pub fn contains(&self, guild_id: GuildId) -> (found: bool)
        ensures
            found == self@.contains_key(guild_id.0),
    {
        self.sessions.contains_key(&guild_id.get())
    }

    /// The session of `guild_id`, if it has one. The store is not changed.
    pub fn peek(&self, guild_id: GuildId) -> (found: Option<NewGuild>)
        ensures
            found == (if self@.contains_key(guild_id.0) {
                Some(self@[guild_id.0])
            } else {
                None::<NewGuild>
            }),
            found matches Some(session) ==> session.guild_id == guild_id && session.in_order(),
    {
        proof {
            use_type_invariant(self);
        }
        match self.sessions.get(&guild_id.get()) {
            Some(session) => {
                assert(self.sessions@.contains_key(guild_id.0));
                Some(*session)
            },
            None => None,
        }
    }

    /// The session of `guild_id`. If the guild has none, an empty one is
    /// stored and returned.
    pub fn get_or_create(&mut self, guild_id: GuildId) -> (session: NewGuild)
        ensures
            session == old(self).session_of(guild_id),
            final(self)@ == old(self)@.insert(guild_id.0, session),
            session.guild_id == guild_id,
            session.in_order(),
    {
        match self.peek(guild_id) {
            Some(session) => {
                assert(self@ =~= self@.insert(guild_id.0, session));
                session
            },
            None => {
                let session = NewGuild::new(guild_id);
                proof {
                    lemma_empty_in_order(guild_id);
                }
                self.put(session);
                session
            },
        }
    }

    /// Whether `update` would write: the guild has a session, `field` is the
    /// first one without a value in it, and `value` fits the field.
    pub open spec fn accepts(self, guild_id: GuildId, field: Field, value: FieldValue) -> bool {
        &&& self@.contains_key(guild_id.0)
        &&& self@[guild_id.0].first_unset() == Some(field)
        &&& value.fits(field)
    }

    /// Writes `value` into the session of `guild_id` as the next field of
    /// the wizard. Nothing is written, and `false` is returned, if the guild
    /// has no session, if `field` is not the first field without a value,
    /// or if `value` does not fit the field.
    pub fn update(&mut self, guild_id: GuildId, field: Field, value: FieldValue) -> (written: bool)
        ensures
            written == old(self).accepts(guild_id, field, value),
            written ==> final(self)@ == old(self)@.insert(
                guild_id.0,
                old(self)@[guild_id.0].with_value(field, value),
            ),
            !written ==> final(self)@ == old(self)@,
    {
        match self.peek(guild_id) {
            None => false,
            Some(session) => {
                if first_unset_field(&session) == Some(field) && value.fits_field(field) {
                    let mut after = session;
                    after.set(field, value);
                    proof {
                        lemma_fill_keeps_order(session, field, value);
                        lemma_with_value(session, field, value);
                    }
                    self.put(after);
                    true
                } else {
                    false
                }
            },
        }
    }

    /// Ends the session of `guild_id`. Returns whether there was one.
    pub fn remove(&mut self, guild_id: GuildId) -> (removed: bool)
        ensures
            removed == old(self)@.contains_key(guild_id.0),
            final(self)@ == old(self)@.remove(guild_id.0),
            !final(self)@.contains_key(guild_id.0),
    {
        proof {
            use_type_invariant(&*self);
        }
        let mut sessions: HashMap<u64, NewGuild> = HashMap::new();
        std::mem::swap(&mut self.sessions, &mut sessions);
        let removed = sessions.remove(&guild_id.get());
        std::mem::swap(&mut self.sessions, &mut sessions);
        removed.is_some()
    }
}

} // verus!
