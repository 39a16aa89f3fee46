use vstd::prelude::*;

use crate::error::Error;
use crate::qos::{CongestionControl, Priority, QueryConsolidation, QueryTarget};
use vstd::utf8::encode_utf8;

verus! {

/// The option tags a host may put in an option bag.
///
/// The host hands each option as a `(tag, value)` pair; tags the host sends
/// that this crate does not know become `Unknown` and are always ignored.
#[derive(Debug, Clone, Copy, PartialEq, Eq, Structural)]
pub enum OptTag {
    Attachment,
    Complete,
    CongestionControl,
    Consolidation,
    Encoding,
    Express,
    IsFinal,
    Payload,
    Priority,
    QueryTimeout,
    Target,
    Timestamp,
    Unknown,
}

/// A host-supplied option value, already lifted out of the host term format.
#[derive(Debug)]
pub enum OptValue {
    Bool(bool),
    Int(i64),
    Binary(Vec<u8>),
    Text(String),
    CongestionControl(CongestionControl),
    Priority(Priority),
    Target(QueryTarget),
    Consolidation(QueryConsolidation),
    /// The host passed an explicit empty value (applicable to attachments
    /// and payloads, which the host may set to nothing).
    Absent,
    /// Any other host term.
    Other,
}

/// Mathematical image of an `OptValue`.
pub enum OptValueV {
    Bool(bool),
    Int(i64),
    Binary(Seq<u8>),
    Text(Seq<char>),
    CongestionControl(CongestionControl),
    Priority(Priority),
    Target(QueryTarget),
    Consolidation(QueryConsolidation),
    Absent,
    Other,
}

impl View for OptValue {
    type V = OptValueV;

    open spec fn view(&self) -> OptValueV {
        match self {
            OptValue::Bool(b) => OptValueV::Bool(*b),
            OptValue::Int(i) => OptValueV::Int(*i),
            OptValue::Binary(b) => OptValueV::Binary(b@),
            OptValue::Text(s) => OptValueV::Text(s@),
            OptValue::CongestionControl(c) => OptValueV::CongestionControl(*c),
            OptValue::Priority(p) => OptValueV::Priority(*p),
            OptValue::Target(t) => OptValueV::Target(*t),
            OptValue::Consolidation(c) => OptValueV::Consolidation(*c),
            OptValue::Absent => OptValueV::Absent,
            OptValue::Other => OptValueV::Other,
        }
    }
}

/// Which builder an option bag is decoded for.
#[derive(Debug, Clone, Copy, PartialEq, Eq, Structural)]
pub enum OptContext {
    Put,
    Delete,
    Get,
    Publisher,
    Subscriber,
    Queryable,
    Reply,
}

/// Everything an option bag can configure, each field `None` until an
/// option sets it. One structure serves all builders; `recognizes` says
/// which fields a given builder accepts.
#[derive(Debug)]
pub struct BuilderCfg {
    pub attachment: Option<Vec<u8>>,
    pub complete: Option<bool>,
    pub congestion_control: Option<CongestionControl>,
    pub consolidation: Option<QueryConsolidation>,
    pub encoding: Option<String>,
    pub express: Option<bool>,
    pub is_final: Option<bool>,
    pub payload: Option<Vec<u8>>,
    pub priority: Option<Priority>,
    pub target: Option<QueryTarget>,
    pub timestamp: Option<String>,
}

/// Mathematical image of a `BuilderCfg`.
pub struct BuilderCfgV {
    pub attachment: Option<Seq<u8>>,
    pub complete: Option<bool>,
    pub congestion_control: Option<CongestionControl>,
    pub consolidation: Option<QueryConsolidation>,
    pub encoding: Option<Seq<char>>,
    pub express: Option<bool>,
    pub is_final: Option<bool>,
    pub payload: Option<Seq<u8>>,
    pub priority: Option<Priority>,
    pub target: Option<QueryTarget>,
    pub timestamp: Option<Seq<char>>,
}

impl View for BuilderCfg {
    type V = BuilderCfgV;

    open spec fn view(&self) -> BuilderCfgV {
        BuilderCfgV {
            attachment: match self.attachment {
                Some(ref b) => Some(b@),
                None => None,
            },
            complete: self.complete,
            congestion_control: self.congestion_control,
            consolidation: self.consolidation,
            encoding: match self.encoding {
                Some(ref s) => Some(s@),
                None => None,
            },
            express: self.express,
            is_final: self.is_final,
            payload: match self.payload {
                Some(ref b) => Some(b@),
                None => None,
            },
            priority: self.priority,
            target: self.target,
            timestamp: match self.timestamp {
                Some(ref s) => Some(s@),
                None => None,
            },
        }
    }
}

/// The configuration before any option was applied.
pub open spec fn cfg_empty() -> BuilderCfgV {
    BuilderCfgV {
        attachment: None,
        complete: None,
        congestion_control: None,
        consolidation: None,
        encoding: None,
        express: None,
        is_final: None,
        payload: None,
        priority: None,
        target: None,
        timestamp: None,
    }
}

/// The table of which tags each builder accepts. A tag outside the table is
/// ignored for that builder, whatever its value.
pub open spec fn recognizes(ctx: OptContext, tag: OptTag) -> bool {
    match ctx {
        OptContext::Put => tag is Attachment || tag is CongestionControl || tag is Encoding
            || tag is Express || tag is Priority || tag is Timestamp,
        OptContext::Delete => tag is Attachment || tag is CongestionControl || tag is Encoding
            || tag is Express || tag is Priority || tag is Timestamp,
        OptContext::Get => tag is Attachment || tag is CongestionControl || tag is Consolidation
            || tag is Encoding || tag is Express || tag is Payload || tag is Priority
            || tag is Target,
        OptContext::Publisher => tag is CongestionControl || tag is Encoding || tag is Express
            || tag is Priority,
        OptContext::Subscriber => false,
        OptContext::Queryable => tag is Complete,
        OptContext::Reply => tag is Attachment || tag is CongestionControl || tag is Encoding
            || tag is Express || tag is IsFinal || tag is Priority || tag is Timestamp,
    }
}

/// Whether a value has the type a recognised tag demands.
pub open spec fn opt_value_fits(tag: OptTag, v: OptValueV) -> bool {
    match tag {
        OptTag::Attachment | OptTag::Payload => v is Binary || v is Text || v is Absent,
        OptTag::Encoding | OptTag::Timestamp => v is Text,
        OptTag::Complete | OptTag::Express | OptTag::IsFinal => v is Bool,
        OptTag::CongestionControl => v is CongestionControl,
        OptTag::Priority => v is Priority,
        OptTag::Target => v is Target,
        OptTag::Consolidation => v is Consolidation,
        OptTag::QueryTimeout | OptTag::Unknown => true,
    }
}

/// The field update a well-typed recognised pair performs.
pub open spec fn set_opt(acc: BuilderCfgV, tag: OptTag, v: OptValueV) -> BuilderCfgV {
    match tag {
        OptTag::Attachment => match v {
            OptValueV::Binary(b) => BuilderCfgV { attachment: Some(b), ..acc },
            OptValueV::Text(s) => BuilderCfgV { attachment: Some(encode_utf8(s)), ..acc },
            _ => acc,
        },
        OptTag::Payload => match v {
            OptValueV::Binary(b) => BuilderCfgV { payload: Some(b), ..acc },
            OptValueV::Text(s) => BuilderCfgV { payload: Some(encode_utf8(s)), ..acc },
            _ => acc,
        },
        OptTag::Encoding => match v {
            OptValueV::Text(s) => BuilderCfgV { encoding: Some(s), ..acc },
            _ => acc,
        },
        OptTag::Timestamp => match v {
            OptValueV::Text(s) => BuilderCfgV { timestamp: Some(s), ..acc },
            _ => acc,
        },
        OptTag::Complete => match v {
            OptValueV::Bool(b) => BuilderCfgV { complete: Some(b), ..acc },
            _ => acc,
        },
        OptTag::Express => match v {
            OptValueV::Bool(b) => BuilderCfgV { express: Some(b), ..acc },
            _ => acc,
        },
        OptTag::IsFinal => match v {
            OptValueV::Bool(b) => BuilderCfgV { is_final: Some(b), ..acc },
            _ => acc,
        },
        OptTag::CongestionControl => match v {
            OptValueV::CongestionControl(c) => BuilderCfgV { congestion_control: Some(c), ..acc },
            _ => acc,
        },
        OptTag::Priority => match v {
            OptValueV::Priority(p) => BuilderCfgV { priority: Some(p), ..acc },
            _ => acc,
        },
        OptTag::Target => match v {
            OptValueV::Target(t) => BuilderCfgV { target: Some(t), ..acc },
            _ => acc,
        },
        OptTag::Consolidation => match v {
            OptValueV::Consolidation(c) => BuilderCfgV { consolidation: Some(c), ..acc },
            _ => acc,
        },
        OptTag::QueryTimeout | OptTag::Unknown => acc,
    }
}

/// One step of the decode: ignore unrecognised tags, fail on a type
/// mismatch, otherwise update the field.
pub open spec fn apply_opt(ctx: OptContext, acc: BuilderCfgV, tag: OptTag, v: OptValueV) -> Option<
    BuilderCfgV,
> {
    if !recognizes(ctx, tag) {
        Some(acc)
    } else if !opt_value_fits(tag, v) {
        None
    } else {
        Some(set_opt(acc, tag, v))
    }
}

/// The whole decode, folding the pairs in order over the empty
/// configuration. `None` means the decode aborted with a type mismatch.
pub open spec fn fold_opts(ctx: OptContext, s: Seq<(OptTag, OptValueV)>) -> Option<BuilderCfgV>
    decreases s.len(),
{
    if s.len() == 0 {
        Some(cfg_empty())
    } else {
        match fold_opts(ctx, s.drop_last()) {
            Some(acc) => apply_opt(ctx, acc, s.last().0, s.last().1),
            None => None,
        }
    }
}

/// The view of a whole option bag.
pub open spec fn vpairs(s: Seq<(OptTag, OptValue)>) -> Seq<(OptTag, OptValueV)> {
    s.map_values(|p: (OptTag, OptValue)| (p.0, p.1@))
}

/// Once a prefix of the bag fails to decode, the whole bag fails.
pub proof fn lemma_fold_prefix_none(ctx: OptContext, s: Seq<(OptTag, OptValueV)>, i: int)
    requires
        0 <= i <= s.len(),
        fold_opts(ctx, s.subrange(0, i)) is None,
    ensures
        fold_opts(ctx, s) is None,
    decreases s.len() - i,
{
    if i == s.len() {
        assert(s.subrange(0, i) =~= s);
    } else {
        assert(s.subrange(0, i + 1).drop_last() =~= s.subrange(0, i));
        lemma_fold_prefix_none(ctx, s, i + 1);
    }
}

/// A tag a builder does not recognise never changes what the bag decodes
/// to: the pair is passed over, whatever its value.
pub proof fn lemma_unrecognized_tag_ignored(
    ctx: OptContext,
    s: Seq<(OptTag, OptValueV)>,
    tag: OptTag,
    v: OptValueV,
)
    requires
        !recognizes(ctx, tag),
    ensures
        fold_opts(ctx, s.push((tag, v))) == fold_opts(ctx, s),
{
    assert(s.push((tag, v)).drop_last() =~= s);
}

/// A recognised tag whose value has the wrong type makes the whole bag
/// fail to decode, wherever it stands.
pub proof fn lemma_type_mismatch_fails(
    ctx: OptContext,
    s: Seq<(OptTag, OptValueV)>,
    tag: OptTag,
    v: OptValueV,
)
    requires
        recognizes(ctx, tag),
        !opt_value_fits(tag, v),
    ensures
        fold_opts(ctx, s.push((tag, v))) is None,
{
    assert(s.push((tag, v)).drop_last() =~= s);
}

impl BuilderCfg {
    /// The configuration with no field set.
    pub fn empty() -> (r: BuilderCfg)
        ensures
            r@ == cfg_empty(),
    {
        BuilderCfg {
            attachment: None,
            complete: None,
            congestion_control: None,
            consolidation: None,
            encoding: None,
            express: None,
            is_final: None,
            payload: None,
            priority: None,
            target: None,
            timestamp: None,
        }
    }
}

/// Whether the builder of `ctx` recognises `tag`.
pub fn recognizes_opt(ctx: OptContext, tag: OptTag) -> (r: bool)
    ensures
        r == recognizes(ctx, tag),
{
    match ctx {
        OptContext::Put => matches!(
            tag,
            OptTag::Attachment | OptTag::CongestionControl | OptTag::Encoding | OptTag::Express
                | OptTag::Priority | OptTag::Timestamp
        ),
        OptContext::Delete => matches!(
            tag,
            OptTag::Attachment | OptTag::CongestionControl | OptTag::Encoding | OptTag::Express
                | OptTag::Priority | OptTag::Timestamp
        ),
        OptContext::Get => matches!(
            tag,
            OptTag::Attachment | OptTag::CongestionControl | OptTag::Consolidation
                | OptTag::Encoding | OptTag::Express | OptTag::Payload | OptTag::Priority
                | OptTag::Target
        ),
        OptContext::Publisher => matches!(
            tag,
            OptTag::CongestionControl | OptTag::Encoding | OptTag::Express | OptTag::Priority
        ),
        OptContext::Subscriber => false,
        OptContext::Queryable => matches!(tag, OptTag::Complete),
        OptContext::Reply => matches!(
            tag,
            OptTag::Attachment | OptTag::CongestionControl | OptTag::Encoding | OptTag::Express
                | OptTag::IsFinal | OptTag::Priority | OptTag::Timestamp
        ),
    }
}

/// Decode an option bag for one builder.
///
/// The pairs are applied in order; a later recognised pair overrides an
/// earlier one. Unrecognised tags are ignored. A recognised tag whose value
/// has the wrong type aborts the decode with `InvalidArgument`.
#[verifier::loop_isolation(false)]
pub fn decode_opts(ctx: OptContext, opts: Vec<(OptTag, OptValue)>) -> (r: Result<
    BuilderCfg,
    Error,
>)
    ensures
        r matches Ok(cfg) ==> fold_opts(ctx, vpairs(opts@)) == Some(cfg@),
        r matches Err(e) ==> fold_opts(ctx, vpairs(opts@)) is None && e == Error::InvalidArgument,
{
    let ghost orig: Seq<(OptTag, OptValue)> = opts@;
    let mut opts = opts;
    let mut cfg = BuilderCfg::empty();
    let ghost mut i: int = 0;

    proof {
        assert(vpairs(orig).subrange(0, 0) =~= Seq::<(OptTag, OptValueV)>::empty());
    }

    while opts.len() > 0
        invariant
            0 <= i <= orig.len(),
            opts@ =~= orig.subrange(i, orig.len() as int),
            fold_opts(ctx, vpairs(orig).subrange(0, i)) == Some(cfg@),
        decreases opts.len(),
    {
        let pair = opts.remove(0);
        let ghost prev = cfg@;
        proof {
            assert(pair == orig[i]);
            assert(opts@ =~= orig.subrange(i + 1, orig.len() as int));
        }
        let (tag, v) = pair;
        let ghost vv = v@;

        if recognizes_opt(ctx, tag) {
            let ok: bool = match tag {
                OptTag::Attachment => match v {
                    OptValue::Binary(b) => {
                        cfg.attachment = Some(b);
                        true
                    },
                    OptValue::Text(s) => {
                        cfg.attachment = Some(s.as_str().as_bytes_vec());
                        true
                    },
                    OptValue::Absent => true,
                    _ => false,
                },
                OptTag::Payload => match v {
                    OptValue::Binary(b) => {
                        cfg.payload = Some(b);
                        true
                    },
                    OptValue::Text(s) => {
                        cfg.payload = Some(s.as_str().as_bytes_vec());
                        true
                    },
                    OptValue::Absent => true,
                    _ => false,
                },
                OptTag::Encoding => match v {
                    OptValue::Text(s) => {
                        cfg.encoding = Some(s);
                        true
                    },
                    _ => false,
                },
                OptTag::Timestamp => match v {
                    OptValue::Text(s) => {
                        cfg.timestamp = Some(s);
                        true
                    },
                    _ => false,
                },
                OptTag::Complete => match v {
                    OptValue::Bool(b) => {
                        cfg.complete = Some(b);
                        true
                    },
                    _ => false,
                },
                OptTag::Express => match v {
                    OptValue::Bool(b) => {
                        cfg.express = Some(b);
                        true
                    },
                    _ => false,
                },
                OptTag::IsFinal => match v {
                    OptValue::Bool(b) => {
                        cfg.is_final = Some(b);
                        true
                    },
                    _ => false,
                },
                OptTag::CongestionControl => match v {
                    OptValue::CongestionControl(c) => {
                        cfg.congestion_control = Some(c);
                        true
                    },
                    _ => false,
                },
                OptTag::Priority => match v {
                    OptValue::Priority(p) => {
                        cfg.priority = Some(p);
                        true
                    },
                    _ => false,
                },
                OptTag::Target => match v {
                    OptValue::Target(t) => {
                        cfg.target = Some(t);
                        true
                    },
                    _ => false,
                },
                OptTag::Consolidation => match v {
                    OptValue::Consolidation(c) => {
                        cfg.consolidation = Some(c);
                        true
                    },
                    _ => false,
                },
                OptTag::QueryTimeout | OptTag::Unknown => true,
            };
            proof {
                assert(vpairs(orig)[i] == (tag, vv));
                assert(vpairs(orig).subrange(0, i + 1).drop_last() =~= vpairs(orig).subrange(
                    0,
                    i,
                ));
                assert(vpairs(orig).subrange(0, i + 1).last() == (tag, vv));
            }
            if !ok {
                proof {
                    assert(!opt_value_fits(tag, vv));
                    assert(fold_opts(ctx, vpairs(orig).subrange(0, i + 1)) is None);
                    lemma_fold_prefix_none(ctx, vpairs(orig), i + 1);
                }
                return Err(Error::InvalidArgument);
            }
            proof {
                assert(opt_value_fits(tag, vv));
                assert(cfg@ == set_opt(prev, tag, vv));
                i = i + 1;
            }
        } else {
            proof {
                assert(vpairs(orig)[i] == (tag, vv));
                assert(vpairs(orig).subrange(0, i + 1).drop_last() =~= vpairs(orig).subrange(
                    0,
                    i,
                ));
                assert(vpairs(orig).subrange(0, i + 1).last() == (tag, vv));
                i = i + 1;
            }
        }
    }

    proof {
        assert(vpairs(orig).subrange(0, i) =~= vpairs(orig));
    }
    Ok(cfg)
}

/// The first value bound to `key` in an option bag, if any: the same lookup
/// the host's keyword lists use.
pub fn get_value<'a>(opts: &'a Vec<(OptTag, OptValue)>, key: OptTag) -> (r: Option<&'a OptValue>)
    ensures
        r matches Some(v) ==> exists|k: int|
            0 <= k < opts@.len() && opts@[k].0 == key && *v == opts@[k].1 && (forall|j: int|
                0 <= j < k ==> opts@[j].0 != key),
        r is None ==> forall|j: int| 0 <= j < opts@.len() ==> opts@[j].0 != key,
{
    let mut idx: usize = 0;
    while idx < opts.len()
        invariant
            0 <= idx <= opts@.len(),
            forall|j: int| 0 <= j < idx ==> opts@[j].0 != key,
        decreases opts@.len() - idx,
    {
        let p = &opts[idx];
        if p.0 == key {
            return Some(&p.1);
        }
        idx = idx + 1;
    }
    None
}

} // verus!
