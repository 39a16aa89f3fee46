use vstd::prelude::*;

use crate::error::Error;
use crate::opts::{decode_opts, fold_opts, vpairs, BuilderCfg, OptContext, OptTag, OptValue};
use crate::registry::{Entity, EntityId, EntityKind, SessionMap, Session};

verus! {

/// Everything the host layer needs to run one native call on behalf of a
/// session: the handle of the native session, the data of the call, and
/// the decoded option bag.
#[derive(Debug)]
pub struct SessionCommand {
    /// Handle under which the host layer keeps the native session.
    pub native: u64,
    /// Key expression, or selector for a `get`.
    pub key_expr: String,
    /// Payload bytes; empty for calls that carry none.
    pub payload: Vec<u8>,
    /// The decoded options.
    pub cfg: BuilderCfg,
}

/// Look the session up and decode the option bag for one builder: the
/// verified half of every session operation. `NotFound` when the session
/// is absent — the lookup comes first, as it does in the native layer —
/// then `InvalidArgument` when the bag does not decode.
fn session_command(
    reg: &SessionMap,
    ctx: OptContext,
    sid: u128,
    key_expr: String,
    payload: Vec<u8>,
    opts: Vec<(OptTag, OptValue)>,
) -> (r: Result<SessionCommand, Error>)
    requires
        reg.wf(),
    ensures
        r matches Ok(cmd) ==> reg@.contains_key(sid) && cmd.native == reg@[sid].native
            && cmd.key_expr@ == key_expr@ && cmd.payload@ == payload@ && fold_opts(
            ctx,
            vpairs(opts@),
        ) == Some(cmd.cfg@),
        r matches Err(e) ==> (e == Error::NotFound && !reg@.contains_key(sid)) || (e
            == Error::InvalidArgument && reg@.contains_key(sid) && fold_opts(
            ctx,
            vpairs(opts@),
        ) is None),
{
    let rec = match reg.get_session(sid) {
        Ok(rec) => rec,
        Err(e) => {
            return Err(e);
        },
    };
    let cfg = match decode_opts(ctx, opts) {
        Ok(cfg) => cfg,
        Err(e) => {
            return Err(e);
        },
    };
    Ok(SessionCommand { native: rec.native, key_expr, payload, cfg })
}

/// Prepare a `put` publication: session lookup plus option decode.
pub fn session_put_prepare(
    reg: &SessionMap,
    sid: u128,
    key_expr: String,
    payload: Vec<u8>,
    opts: Vec<(OptTag, OptValue)>,
) -> (r: Result<SessionCommand, Error>)
    requires
        reg.wf(),
    ensures
        r matches Ok(cmd) ==> reg@.contains_key(sid) && cmd.native == reg@[sid].native
            && cmd.key_expr@ == key_expr@ && cmd.payload@ == payload@ && fold_opts(
            OptContext::Put,
            vpairs(opts@),
        ) == Some(cmd.cfg@),
        r matches Err(e) ==> (e == Error::NotFound && !reg@.contains_key(sid)) || (e
            == Error::InvalidArgument && reg@.contains_key(sid) && fold_opts(
            OptContext::Put,
            vpairs(opts@),
        ) is None),
{
    session_command(reg, OptContext::Put, sid, key_expr, payload, opts)
}

/// Prepare a `delete` publication: session lookup plus option decode.
pub fn session_delete_prepare(
    reg: &SessionMap,
    sid: u128,
    key_expr: String,
    opts: Vec<(OptTag, OptValue)>,
) -> (r: Result<SessionCommand, Error>)
    requires
        reg.wf(),
    ensures
        r matches Ok(cmd) ==> reg@.contains_key(sid) && cmd.native == reg@[sid].native
            && cmd.key_expr@ == key_expr@ && cmd.payload@ == Seq::<u8>::empty() && fold_opts(
            OptContext::Delete,
            vpairs(opts@),
        ) == Some(cmd.cfg@),
        r matches Err(e) ==> (e == Error::NotFound && !reg@.contains_key(sid)) || (e
            == Error::InvalidArgument && reg@.contains_key(sid) && fold_opts(
            OptContext::Delete,
            vpairs(opts@),
        ) is None),
{
    session_command(reg, OptContext::Delete, sid, key_expr, Vec::new(), opts)
}

/// Prepare a `get`: session lookup plus option decode for the query
/// builder. The selector travels in `key_expr`.
pub fn session_get_prepare(
    reg: &SessionMap,
    sid: u128,
    selector: String,
    opts: Vec<(OptTag, OptValue)>,
) -> (r: Result<SessionCommand, Error>)
    requires
        reg.wf(),
    ensures
        r matches Ok(cmd) ==> reg@.contains_key(sid) && cmd.native == reg@[sid].native
            && cmd.key_expr@ == selector@ && fold_opts(OptContext::Get, vpairs(opts@)) == Some(
            cmd.cfg@,
        ),
        r matches Err(e) ==> (e == Error::NotFound && !reg@.contains_key(sid)) || (e
            == Error::InvalidArgument && reg@.contains_key(sid) && fold_opts(
            OptContext::Get,
            vpairs(opts@),
        ) is None),
{
    session_command(reg, OptContext::Get, sid, selector, Vec::new(), opts)
}

/// Prepare a declaration (publisher, subscriber or queryable): session
/// lookup plus option decode for the matching builder. Once the native
/// declaration has yielded the entity identifier, `SessionMap::insert_entity`
/// records it.
pub fn session_declare_prepare(
    reg: &SessionMap,
    kind: EntityKind,
    sid: u128,
    key_expr: String,
    opts: Vec<(OptTag, OptValue)>,
) -> (r: Result<SessionCommand, Error>)
    requires
        reg.wf(),
    ensures
        r matches Ok(cmd) ==> reg@.contains_key(sid) && cmd.native == reg@[sid].native
            && cmd.key_expr@ == key_expr@ && fold_opts(declare_ctx(kind), vpairs(opts@)) == Some(
            cmd.cfg@,
        ),
        r matches Err(e) ==> (e == Error::NotFound && !reg@.contains_key(sid)) || (e
            == Error::InvalidArgument && reg@.contains_key(sid) && fold_opts(
            declare_ctx(kind),
            vpairs(opts@),
        ) is None),
{
    let ctx = match kind {
        EntityKind::Publisher => OptContext::Publisher,
        EntityKind::Subscriber => OptContext::Subscriber,
        EntityKind::Queryable => OptContext::Queryable,
    };
    session_command(reg, ctx, sid, key_expr, Vec::new(), opts)
}

/// The option context each entity kind's builder decodes with.
pub open spec fn declare_ctx(kind: EntityKind) -> OptContext {
    match kind {
        EntityKind::Publisher => OptContext::Publisher,
        EntityKind::Subscriber => OptContext::Subscriber,
        EntityKind::Queryable => OptContext::Queryable,
    }
}

/// Look a session up for an operation that takes no options, such as
/// drawing a fresh timestamp from the native session.
pub fn session_native_handle(reg: &SessionMap, sid: u128) -> (r: Result<u64, Error>)
    requires
        reg.wf(),
    ensures
        r matches Ok(h) ==> reg@.contains_key(sid) && h == reg@[sid].native,
        r matches Err(e) ==> e == Error::NotFound && !reg@.contains_key(sid),
{
    match reg.get_session(sid) {
        Ok(rec) => Ok(rec.native),
        Err(e) => Err(e),
    }
}

/// Look an entity of the given kind up and return its native handle, for
/// `publisher_put` and the like. The host layer never addresses an entity
/// of one kind through an operation of another.
pub fn entity_native_handle(reg: &SessionMap, id: EntityId, kind: EntityKind) -> (r: Result<
    u64,
    Error,
>)
    requires
        reg.wf(),
        reg@.contains_key(id.zid) && reg@[id.zid].entity_map().contains_key(id) ==> reg@[
            id.zid
        ].entity_map()[id].kind == kind,
    ensures
        r matches Ok(h) ==> reg@.contains_key(id.zid) && reg@[id.zid].entity_map().contains_key(id)
            && h == reg@[id.zid].entity_map()[id].native,
        r matches Err(e) ==> e == Error::NotFound && (!reg@.contains_key(id.zid) || !reg@[
            id.zid
        ].entity_map().contains_key(id)),
{
    match reg.get_entity(id) {
        Ok(ent) => Ok(ent.native),
        Err(e) => Err(e),
    }
}

/// Remove an entity of the given kind from the registry and hand back the
/// native handle to undeclare: the verified half of `publisher_undeclare`,
/// `subscriber_undeclare` and `queryable_undeclare`.
pub fn entity_undeclare(reg: &mut SessionMap, id: EntityId, kind: EntityKind) -> (r: Result<
    u64,
    Error,
>)
    requires
        old(reg).wf(),
        old(reg)@.contains_key(id.zid) && old(reg)@[id.zid].entity_map().contains_key(id) ==> old(
            reg,
        )@[id.zid].entity_map()[id].kind == kind,
    ensures
        final(reg).wf(),
        r matches Ok(h) ==> old(reg)@.contains_key(id.zid) && old(
            reg,
        )@[id.zid].entity_map().contains_key(id) && h == old(reg)@[id.zid].entity_map()[id].native
            && final(reg)@.dom() =~= old(reg)@.dom() && final(reg)@[id.zid].entity_map() =~= old(
            reg,
        )@[id.zid].entity_map().remove(id),
        r matches Err(e) ==> e == Error::NotFound && *final(reg) == *old(reg) && (!old(
            reg,
        )@.contains_key(id.zid) || !old(reg)@[id.zid].entity_map().contains_key(id)),
{
    match reg.remove_entity(id) {
        Ok(ent) => Ok(ent.native),
        Err(e) => Err(e),
    }
}

/// The cleanup a session handle runs when the host drops it: remove the
/// entry if it is still there, and report what was removed so the native
/// session can be closed. Running it again finds nothing and changes
/// nothing — the drop is idempotent and never errors.
pub fn session_drop_cleanup(reg: &mut SessionMap, sid: u128) -> (r: Option<Session>)
    requires
        old(reg).wf(),
    ensures
        final(reg).wf(),
        final(reg)@ =~= old(reg)@.remove(sid),
        r matches Some(s) ==> old(reg)@.contains_key(sid) && s == old(reg)@[sid],
        r is None ==> !old(reg)@.contains_key(sid),
{
    match reg.remove_session(sid) {
        Ok(rec) => Some(rec),
        Err(_) => {
            proof {
                assert(old(reg)@.remove(sid) =~= old(reg)@);
            }
            None
        },
    }
}

/// The cleanup an entity handle runs when the host drops it: remove the
/// entity if its session still exists and it is still recorded, and report
/// what was removed. Idempotent; never errors.
pub fn entity_drop_cleanup(reg: &mut SessionMap, id: EntityId) -> (r: Option<Entity>)
    requires
        old(reg).wf(),
    ensures
        final(reg).wf(),
        r matches Some(e) ==> old(reg)@.contains_key(id.zid) && old(
            reg,
        )@[id.zid].entity_map().contains_key(id) && e == old(reg)@[id.zid].entity_map()[id]
            && final(reg)@.dom() =~= old(reg)@.dom() && final(reg)@[id.zid].entity_map() =~= old(
            reg,
        )@[id.zid].entity_map().remove(id),
        r is None ==> *final(reg) == *old(reg) && (!old(reg)@.contains_key(id.zid) || !old(
            reg,
        )@[id.zid].entity_map().contains_key(id)),
{
    match reg.remove_entity(id) {
        Ok(ent) => Some(ent),
        Err(_) => None,
    }
}

/// A removed session stays removed: the drop cleanup removes the entry
/// exactly once, and a second run of it finds nothing to remove.
pub proof fn lemma_drop_cleanup_once(m: Map<u128, Session>, sid: u128)
    ensures
        !m.remove(sid).contains_key(sid),
        m.remove(sid).remove(sid) =~= m.remove(sid),
{
}

/// A removed entity stays removed within its session's entity map: the
/// entity drop cleanup undeclares exactly once.
pub proof fn lemma_entity_cleanup_once(m: Map<EntityId, Entity>, id: EntityId)
    ensures
        !m.remove(id).contains_key(id),
        m.remove(id).remove(id) =~= m.remove(id),
{
}

} // verus!
