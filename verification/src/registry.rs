use vstd::prelude::*;

use crate::error::Error;

verus! {

/// Identifier of a declared entity. It embeds the identifier of the session
/// the entity was declared through.
#[derive(Debug, Clone, Copy, PartialEq, Eq, Structural)]
pub struct EntityId {
    /// Identifier of the owning session.
    pub zid: u128,
    /// Identifier of the entity within that session.
    pub eid: u32,
}

/// The three kinds of declared endpoints a session can own.
#[derive(Debug, Clone, Copy, PartialEq, Eq, Structural)]
pub enum EntityKind {
    Publisher,
    Subscriber,
    Queryable,
}

/// A declared endpoint as the registry records it: its identifier, its
/// kind, and the handle under which the host layer keeps the native object.
#[derive(Debug, Clone, Copy, PartialEq, Eq, Structural)]
pub struct Entity {
    pub id: EntityId,
    pub kind: EntityKind,
    pub native: u64,
}

/// A registered session: its identifier, the handle under which the host
/// layer keeps the native session, and the entities declared through it.
#[derive(Debug)]
pub struct Session {
    pub id: u128,
    pub native: u64,
    pub entities: Vec<(EntityId, Entity)>,
}

/// The process-wide table of sessions.
#[derive(Debug)]
pub struct SessionMap {
    pub sessions: Vec<(u128, Session)>,
}

/// No two pairs share a key.
pub open spec fn unique_keys<K, V>(s: Seq<(K, V)>) -> bool {
    forall|i: int, j: int| 0 <= i < j < s.len() ==> s[i].0 != s[j].0
}

/// The map an association list denotes. Later pairs win, though with
/// `unique_keys` there is nothing to win over.
pub open spec fn pairs_to_map<K, V>(s: Seq<(K, V)>) -> Map<K, V>
    decreases s.len(),
{
    if s.len() == 0 {
        Map::empty()
    } else {
        pairs_to_map(s.drop_last()).insert(s.last().0, s.last().1)
    }
}

/// A key is in the denoted map exactly when some pair carries it.
pub proof fn lemma_ptm_contains<K, V>(s: Seq<(K, V)>, k: K)
    ensures
        pairs_to_map(s).contains_key(k) <==> (exists|i: int| 0 <= i < s.len() && s[i].0 == k),
    decreases s.len(),
{
    if s.len() == 0 {
    } else {
        lemma_ptm_contains(s.drop_last(), k);
        if s.last().0 == k {
            assert(s[s.len() - 1].0 == k);
        } else {
            if exists|i: int| 0 <= i < s.len() && s[i].0 == k {
                let i = choose|i: int| 0 <= i < s.len() && s[i].0 == k;
                assert(s.drop_last()[i] == s[i]);
            }
        }
    }
}

/// With unique keys, the denoted map sends each pair's key to its value.
pub proof fn lemma_ptm_index<K, V>(s: Seq<(K, V)>, i: int)
    requires
        unique_keys(s),
        0 <= i < s.len(),
    ensures
        pairs_to_map(s).contains_key(s[i].0),
        pairs_to_map(s)[s[i].0] == s[i].1,
    decreases s.len(),
{
    if i == s.len() - 1 {
    } else {
        assert(unique_keys(s.drop_last()));
        assert(s.drop_last()[i] == s[i]);
        lemma_ptm_index(s.drop_last(), i);
        assert(s.last().0 != s[i].0);
    }
}

/// Pushing a pair is inserting into the denoted map.
pub proof fn lemma_ptm_push<K, V>(s: Seq<(K, V)>, k: K, v: V)
    ensures
        pairs_to_map(s.push((k, v))) == pairs_to_map(s).insert(k, v),
{
    assert(s.push((k, v)).drop_last() =~= s);
    assert(s.push((k, v)).last() == (k, v));
}

/// Removing a pair is removing its key from the denoted map. The index
/// shift of the remaining pairs is spelled out for callers that track
/// properties of every pair.
pub proof fn lemma_ptm_remove<K, V>(s: Seq<(K, V)>, i: int)
    requires
        unique_keys(s),
        0 <= i < s.len(),
    ensures
        unique_keys(s.remove(i)),
        pairs_to_map(s.remove(i)) =~= pairs_to_map(s).remove(s[i].0),
        forall|j: int|
            0 <= j < s.len() - 1 ==> s.remove(i)[j] == (if j < i {
                s[j]
            } else {
                s[j + 1]
            }),
    decreases s.len(),
{
    assert forall|j: int| 0 <= j < s.len() - 1 implies s.remove(i)[j] == (if j < i {
        s[j]
    } else {
        s[j + 1]
    }) by {
        assert(s.remove(i) =~= s.subrange(0, i) + s.subrange(i + 1, s.len() as int));
    }
    assert(unique_keys(s.remove(i)));
    if i == s.len() - 1 {
        assert(s.remove(i) =~= s.drop_last());
        lemma_ptm_contains(s.drop_last(), s[i].0);
        assert(!pairs_to_map(s.drop_last()).contains_key(s[i].0));
        assert(pairs_to_map(s.drop_last()) =~= pairs_to_map(s).remove(s[i].0));
    } else {
        assert(unique_keys(s.drop_last()));
        lemma_ptm_remove(s.drop_last(), i);
        let t = s.remove(i);
        assert(t.drop_last() =~= s.drop_last().remove(i));
        assert(t.last() == s.last());
        assert(s.drop_last()[i] == s[i]);
        assert(s.last().0 != s[i].0);
        assert(pairs_to_map(t) == pairs_to_map(s.drop_last().remove(i)).insert(
            s.last().0,
            s.last().1,
        ));
        assert(pairs_to_map(s.drop_last().remove(i)).insert(s.last().0, s.last().1)
            =~= pairs_to_map(s).remove(s[i].0));
    }
}

impl Session {
    /// Well-formedness: entity keys are unique, each pair's key is the
    /// stored entity's own identifier, and every entity names this session.
    pub open spec fn wf(self) -> bool {
        &&& unique_keys(self.entities@)
        &&& forall|i: int|
            0 <= i < self.entities@.len() ==> (#[trigger] self.entities@[i]).1.id
                == self.entities@[i].0 && self.entities@[i].0.zid == self.id
    }

    /// The entities of this session, as a map.
    pub open spec fn entity_map(self) -> Map<EntityId, Entity> {
        pairs_to_map(self.entities@)
    }

    /// Index of the pair carrying `id`, if any.
    fn find_entity(&self, id: EntityId) -> (r: Option<usize>)
        ensures
            r matches Some(i) ==> i < self.entities@.len() && self.entities@[i as int].0 == id,
            r is None ==> forall|j: int| 0 <= j < self.entities@.len() ==> self.entities@[j].0 != id,
    {
        let mut idx: usize = 0;
        while idx < self.entities.len()
            invariant
                0 <= idx <= self.entities@.len(),
                forall|j: int| 0 <= j < idx ==> self.entities@[j].0 != id,
            decreases self.entities@.len() - idx,
        {
            if self.entities[idx].0 == id {
                return Some(idx);
            }
            idx = idx + 1;
        }
        None
    }

    /// Record a newly declared entity. Fails with `AlreadyExists` when its
    /// identifier is already present; the session is then left unchanged.
    pub fn insert_entity(&mut self, id: EntityId, entity: Entity) -> (r: Result<(), Error>)
        requires
            old(self).wf(),
            entity.id == id,
            id.zid == old(self).id,
        ensures
            final(self).wf(),
            final(self).id == old(self).id,
            final(self).native == old(self).native,
            r matches Ok(_) ==> !old(self).entity_map().contains_key(id) && final(self).entity_map() =~= old(self).entity_map().insert(id, entity),
            r matches Err(e) ==> e == Error::AlreadyExists && old(self).entity_map().contains_key(
                id,
            ) && *final(self) == *old(self),
    {
        match self.find_entity(id) {
            Some(i) => {
                proof {
                    lemma_ptm_index(self.entities@, i as int);
                }
                Err(Error::AlreadyExists)
            },
            None => {
                proof {
                    lemma_ptm_contains(self.entities@, id);
                    lemma_ptm_push(self.entities@, id, entity);
                }
                self.entities.push((id, entity));
                proof {
                    assert(self.entities@.drop_last() =~= old(self).entities@);
                }
                Ok(())
            },
        }
    }

    /// Look an entity up. Fails with `NotFound` when it is absent.
    pub fn get_entity(&self, id: EntityId) -> (r: Result<Entity, Error>)
        requires
            self.wf(),
        ensures
            r matches Ok(e) ==> self.entity_map().contains_key(id) && e == self.entity_map()[id],
            r matches Err(e) ==> e == Error::NotFound && !self.entity_map().contains_key(id),
    {
        match self.find_entity(id) {
            Some(i) => {
                proof {
                    lemma_ptm_index(self.entities@, i as int);
                }
                Ok(self.entities[i].1)
            },
            None => {
                proof {
                    lemma_ptm_contains(self.entities@, id);
                }
                Err(Error::NotFound)
            },
        }
    }

    /// Remove an entity and hand it back. Fails with `NotFound` when it is
    /// absent; the session is then left unchanged.
    pub fn remove_entity(&mut self, id: EntityId) -> (r: Result<Entity, Error>)
        requires
            old(self).wf(),
        ensures
            final(self).wf(),
            final(self).id == old(self).id,
            final(self).native == old(self).native,
            r matches Ok(e) ==> old(self).entity_map().contains_key(id) && e == old(self).entity_map()[id] && final(self).entity_map() =~= old(self).entity_map().remove(id),
            r matches Err(e) ==> e == Error::NotFound && !old(self).entity_map().contains_key(id)
                && *final(self) == *old(self),
    {
        match self.find_entity(id) {
            Some(i) => {
                proof {
                    lemma_ptm_index(self.entities@, i as int);
                    lemma_ptm_remove(self.entities@, i as int);
                }
                let pair = self.entities.remove(i);
                Ok(pair.1)
            },
            None => {
                proof {
                    lemma_ptm_contains(self.entities@, id);
                }
                Err(Error::NotFound)
            },
        }
    }
}

impl View for SessionMap {
    type V = Map<u128, Session>;

    open spec fn view(&self) -> Map<u128, Session> {
        pairs_to_map(self.sessions@)
    }
}

impl SessionMap {
    /// Well-formedness: session keys are unique, each pair's key is the
    /// stored session's own identifier, and each session is well-formed.
    pub open spec fn wf(self) -> bool {
        &&& unique_keys(self.sessions@)
        &&& forall|i: int|
            0 <= i < self.sessions@.len() ==> (#[trigger] self.sessions@[i]).1.id
                == self.sessions@[i].0 && self.sessions@[i].1.wf()
    }

    /// The empty registry.
    pub fn new() -> (r: SessionMap)
        ensures
            r.wf(),
            r@ =~= Map::<u128, Session>::empty(),
    {
        SessionMap { sessions: Vec::new() }
    }

    /// Index of the pair carrying `id`, if any.
    fn find_session(&self, id: u128) -> (r: Option<usize>)
        ensures
            r matches Some(i) ==> i < self.sessions@.len() && self.sessions@[i as int].0 == id,
            r is None ==> forall|j: int| 0 <= j < self.sessions@.len() ==> self.sessions@[j].0 != id,
    {
        let mut idx: usize = 0;
        while idx < self.sessions.len()
            invariant
                0 <= idx <= self.sessions@.len(),
                forall|j: int| 0 <= j < idx ==> self.sessions@[j].0 != id,
            decreases self.sessions@.len() - idx,
        {
            if self.sessions[idx].0 == id {
                return Some(idx);
            }
            idx = idx + 1;
        }
        None
    }

    /// Record a newly opened session under `id`. Fails with `AlreadyExists`
    /// when the identifier is taken; the registry is then left unchanged.
    pub fn insert_session(&mut self, id: u128, native: u64) -> (r: Result<(), Error>)
        requires
            old(self).wf(),
        ensures
            final(self).wf(),
            r matches Ok(_) ==> !old(self)@.contains_key(id) && final(self)@ =~= old(self)@.insert(id, final(self)@[id]) && final(self)@[id].id == id && final(self)@[id].native
                == native && final(self)@[id].entities@ =~= Seq::<(EntityId, Entity)>::empty(),
            r matches Err(e) ==> e == Error::AlreadyExists && old(self)@.contains_key(id) && *final(self) == *old(self),
    {
        match self.find_session(id) {
            Some(i) => {
                proof {
                    lemma_ptm_index(self.sessions@, i as int);
                }
                Err(Error::AlreadyExists)
            },
            None => {
                let rec = Session { id, native, entities: Vec::new() };
                proof {
                    lemma_ptm_contains(self.sessions@, id);
                    lemma_ptm_push(self.sessions@, id, rec);
                }
                self.sessions.push((id, rec));
                proof {
                    assert(self.sessions@.drop_last() =~= old(self).sessions@);
                }
                Ok(())
            },
        }
    }

    /// Borrow a session. Fails with `NotFound` when it is absent.
    pub fn get_session(&self, id: u128) -> (r: Result<&Session, Error>)
        requires
            self.wf(),
        ensures
            r matches Ok(s) ==> self@.contains_key(id) && *s == self@[id],
            r matches Err(e) ==> e == Error::NotFound && !self@.contains_key(id),
    {
        match self.find_session(id) {
            Some(i) => {
                proof {
                    lemma_ptm_index(self.sessions@, i as int);
                }
                Ok(&self.sessions[i].1)
            },
            None => {
                proof {
                    lemma_ptm_contains(self.sessions@, id);
                }
                Err(Error::NotFound)
            },
        }
    }

    /// Remove a session and hand it back, entities included. Fails with
    /// `NotFound` when it is absent; the registry is then left unchanged.
    pub fn remove_session(&mut self, id: u128) -> (r: Result<Session, Error>)
        requires
            old(self).wf(),
        ensures
            final(self).wf(),
            r matches Ok(s) ==> old(self)@.contains_key(id) && s == old(self)@[id] && s.id == id
                && final(self)@ =~= old(self)@.remove(id),
            r matches Err(e) ==> e == Error::NotFound && !old(self)@.contains_key(id) && *final(self) == *old(self),
    {
        match self.find_session(id) {
            Some(i) => {
                proof {
                    lemma_ptm_index(self.sessions@, i as int);
                    lemma_ptm_remove(self.sessions@, i as int);
                }
                let pair = self.sessions.remove(i);
                Ok(pair.1)
            },
            None => {
                proof {
                    lemma_ptm_contains(self.sessions@, id);
                }
                Err(Error::NotFound)
            },
        }
    }

    /// Record a newly declared entity under the session its identifier
    /// names. Fails with `NotFound` when that session is absent and with
    /// `AlreadyExists` when the entity identifier is taken; the registry is
    /// then left unchanged.
    pub fn insert_entity(&mut self, entity: Entity) -> (r: Result<(), Error>)
        requires
            old(self).wf(),
        ensures
            final(self).wf(),
            r matches Ok(_) ==> old(self)@.contains_key(entity.id.zid) && !old(self)@[entity.id.zid].entity_map().contains_key(entity.id) && final(self)@.dom() =~= old(self)@.dom() && final(self)@[entity.id.zid].entity_map() =~= old(self)@[entity.id.zid].entity_map().insert(entity.id, entity) && final(self)@[entity.id.zid].id == old(self)@[entity.id.zid].id && final(self)@[entity.id.zid].native == old(self)@[entity.id.zid].native && (forall|o: u128|
                old(self)@.contains_key(o) && o != entity.id.zid ==> final(self)@[o] == old(self)@[o]),
            r matches Err(e) ==> *final(self) == *old(self) && ((e == Error::NotFound && !old(self)@.contains_key(entity.id.zid)) || (e == Error::AlreadyExists && old(self)@.contains_key(entity.id.zid) && old(self)@[entity.id.zid].entity_map().contains_key(
                entity.id,
            ))),
    {
        let id = entity.id;
        match self.find_session(id.zid) {
            Some(i) => {
                proof {
                    lemma_ptm_index(self.sessions@, i as int);
                }
                match self.sessions[i].1.find_entity(id) {
                    Some(j) => {
                        proof {
                            lemma_ptm_index(self.sessions@[i as int].1.entities@, j as int);
                        }
                        Err(Error::AlreadyExists)
                    },
                    None => {
                        proof {
                            lemma_ptm_remove(self.sessions@, i as int);
                        }
                        let pair = self.sessions.remove(i);
                        let key = pair.0;
                        let mut rec = pair.1;
                        proof {
                            lemma_ptm_contains(rec.entities@, id);
                        }
                        let inserted = rec.insert_entity(id, entity);
                        proof {
                            assert(inserted matches Ok(_));
                            lemma_ptm_push(self.sessions@, key, rec);
                            lemma_ptm_contains(self.sessions@, key);
                        }
                        self.sessions.push((key, rec));
                        proof {
                            assert(self.sessions@.drop_last() =~= old(self).sessions@.remove(
                                i as int,
                            ));
                            assert(final(self)@ =~= old(self)@.insert(key, rec));
                            assert(final(self)@.dom() =~= old(self)@.dom());
                        }
                        Ok(())
                    },
                }
            },
            None => {
                proof {
                    lemma_ptm_contains(self.sessions@, id.zid);
                }
                Err(Error::NotFound)
            },
        }
    }

    /// Look an entity up through the session its identifier names. Fails
    /// with `NotFound` when either the session or the entity is absent.
    pub fn get_entity(&self, id: EntityId) -> (r: Result<Entity, Error>)
        requires
            self.wf(),
        ensures
            r matches Ok(e) ==> self@.contains_key(id.zid)
                && self@[id.zid].entity_map().contains_key(id) && e
                == self@[id.zid].entity_map()[id],
            r matches Err(e) ==> e == Error::NotFound && (!self@.contains_key(id.zid)
                || !self@[id.zid].entity_map().contains_key(id)),
    {
        match self.get_session(id.zid) {
            Ok(rec) => {
                proof {
                    lemma_session_rec_wf(*self, id.zid);
                }
                rec.get_entity(id)
            },
            Err(e) => Err(e),
        }
    }

    /// Remove an entity through the session its identifier names and hand
    /// it back. Fails with `NotFound` when either is absent; the registry
    /// is then left unchanged.
    pub fn remove_entity(&mut self, id: EntityId) -> (r: Result<Entity, Error>)
        requires
            old(self).wf(),
        ensures
            final(self).wf(),
            r matches Ok(e) ==> old(self)@.contains_key(id.zid) && old(self)@[id.zid].entity_map().contains_key(id) && e == old(self)@[id.zid].entity_map()[id]
                && final(self)@.dom() =~= old(self)@.dom() && final(self)@[id.zid].entity_map()
                =~= old(self)@[id.zid].entity_map().remove(id) && final(self)@[id.zid].id == old(self)@[id.zid].id && final(self)@[id.zid].native == old(self)@[id.zid].native && (forall|
                o: u128,
            |
                old(self)@.contains_key(o) && o != id.zid ==> final(self)@[o] == old(self)@[o]),
            r matches Err(e) ==> e == Error::NotFound && *final(self) == *old(self) && (!old(self)@.contains_key(id.zid) || !old(self)@[id.zid].entity_map().contains_key(id)),
    {
        match self.find_session(id.zid) {
            Some(i) => {
                proof {
                    lemma_ptm_index(self.sessions@, i as int);
                }
                match self.sessions[i].1.find_entity(id) {
                    Some(j) => {
                        proof {
                            lemma_ptm_index(self.sessions@[i as int].1.entities@, j as int);
                            lemma_ptm_remove(self.sessions@, i as int);
                        }
                        let pair = self.sessions.remove(i);
                        let key = pair.0;
                        let mut rec = pair.1;
                        let removed = rec.remove_entity(id);
                        let e = match removed {
                            Ok(e) => e,
                            Err(_) => {
                                proof {
                                    assert(false);
                                }
                                Entity { id, kind: EntityKind::Publisher, native: 0 }
                            },
                        };
                        proof {
                            lemma_ptm_push(self.sessions@, key, rec);
                        }
                        self.sessions.push((key, rec));
                        proof {
                            assert(self.sessions@.drop_last() =~= old(self).sessions@.remove(
                                i as int,
                            ));
                            assert(final(self)@ =~= old(self)@.insert(key, rec));
                            assert(final(self)@.dom() =~= old(self)@.dom());
                        }
                        Ok(e)
                    },
                    None => {
                        proof {
                            lemma_ptm_contains(self.sessions@[i as int].1.entities@, id);
                        }
                        Err(Error::NotFound)
                    },
                }
            },
            None => {
                proof {
                    lemma_ptm_contains(self.sessions@, id.zid);
                }
                Err(Error::NotFound)
            },
        }
    }
}

/// A session looked up in a well-formed registry is itself well-formed and
/// carries the identifier it is filed under.
pub proof fn lemma_session_rec_wf(reg: SessionMap, sid: u128)
    requires
        reg.wf(),
        reg@.contains_key(sid),
    ensures
        reg@[sid].wf(),
        reg@[sid].id == sid,
{
    lemma_ptm_contains(reg.sessions@, sid);
    let i = choose|i: int| 0 <= i < reg.sessions@.len() && reg.sessions@[i].0 == sid;
    lemma_ptm_index(reg.sessions@, i);
}

/// While an entity entry is live, the session entry its identifier names is
/// live too: entities are only ever stored under their own session, so a
/// host token that keeps an entity entry reachable keeps its session entry
/// reachable as well.
pub proof fn lemma_entity_session_live(reg: SessionMap, sid: u128, id: EntityId)
    requires
        reg.wf(),
        reg@.contains_key(sid),
        reg@[sid].entity_map().contains_key(id),
    ensures
        id.zid == sid,
        reg@.contains_key(id.zid),
{
    lemma_ptm_contains(reg.sessions@, sid);
    let i = choose|i: int| 0 <= i < reg.sessions@.len() && reg.sessions@[i].0 == sid;
    lemma_ptm_index(reg.sessions@, i);
    let rec = reg.sessions@[i].1;
    lemma_ptm_contains(rec.entities@, id);
    let j = choose|j: int| 0 <= j < rec.entities@.len() && rec.entities@[j].0 == id;
    assert(rec.entities@[j].0.zid == rec.id);
}

/// Once a session is removed, its identifier is gone from the registry, so
/// every later operation that looks the session up reports `NotFound` (see
/// the contracts of `get_session`, `get_entity` and the facade operations).
pub proof fn lemma_removed_session_not_found(before: Map<u128, Session>, sid: u128)
    ensures
        !before.remove(sid).contains_key(sid),
{
}

} // verus!
