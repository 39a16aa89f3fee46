use vstd::prelude::*;

use vstd::string::{StrSliceExecFns, StringExecFns, StringSliceAdditionalSpecFns};
use vstd::utf8::encode_utf8;

verus! {

/// The severities the host-facing logger distinguishes.
#[derive(Debug, Clone, Copy, PartialEq, Eq, Structural)]
pub enum NifLoggerLevel {
    Error,
    Warning,
    Info,
    Debug,
}

/// Whether `p` is a prefix of `s`, on UTF-8 bytes.
pub open spec fn is_byte_prefix(p: Seq<u8>, s: Seq<u8>) -> bool {
    p.len() <= s.len() && s.subrange(0, p.len() as int) == p
}

/// Whether the bytes of `s` start with the bytes of `prefix`.
fn starts_with_bytes(s: &str, prefix: &str) -> (r: bool)
    ensures
        r == is_byte_prefix(prefix.spec_bytes(), s.spec_bytes()),
{
    let sv = s.as_bytes_vec();
    let pv = prefix.as_bytes_vec();
    if pv.len() > sv.len() {
        return false;
    }
    let mut i: usize = 0;
    while i < pv.len()
        invariant
            0 <= i <= pv.len(),
            pv.len() <= sv.len(),
            sv@ == s.spec_bytes(),
            pv@ == prefix.spec_bytes(),
            forall|j: int| 0 <= j < i ==> sv@[j] == pv@[j],
        decreases pv.len() - i,
    {
        if sv[i] != pv[i] {
            proof {
                assert(s.spec_bytes().subrange(0, pv@.len() as int)[i as int] != pv@[i as int]);
            }
            return false;
        }
        i = i + 1;
    }
    proof {
        assert(sv@.subrange(0, pv@.len() as int) =~= pv@);
    }
    true
}

/// The state of the logger that forwards native log records to a host
/// process: whether forwarding is on, the target prefix it forwards, and
/// the severity it is set to.
#[derive(Debug)]
pub struct NifLogger {
    pub enabled: bool,
    pub target: String,
    pub level: NifLoggerLevel,
}

impl NifLogger {
    /// A fresh logger: disabled, forwarding the native layer's own records
    /// only, at debug severity.
    pub fn new() -> (r: NifLogger)
        ensures
            !r.enabled,
            r.target@ == "zenohex_nif"@,
            r.level == NifLoggerLevel::Debug,
    {
        NifLogger {
            enabled: false,
            target: String::from_str("zenohex_nif"),
            level: NifLoggerLevel::Debug,
        }
    }

    /// Turn forwarding on.
    pub fn enable(&mut self)
        ensures
            final(self).enabled,
            final(self).target == old(self).target,
            final(self).level == old(self).level,
    {
        self.enabled = true;
    }

    /// Turn forwarding off.
    pub fn disable(&mut self)
        ensures
            !final(self).enabled,
            final(self).target == old(self).target,
            final(self).level == old(self).level,
    {
        self.enabled = false;
    }

    /// The target prefix records must carry to be forwarded.
    pub fn get_target(&self) -> (r: String)
        ensures
            r@ == self.target@,
    {
        self.target.clone()
    }

    /// Set the target prefix.
    pub fn set_target(&mut self, target: String)
        ensures
            final(self).target == target,
            final(self).enabled == old(self).enabled,
            final(self).level == old(self).level,
    {
        self.target = target;
    }

    /// The severity the logger is set to.
    pub fn get_level(&self) -> (r: NifLoggerLevel)
        ensures
            r == self.level,
    {
        self.level
    }

    /// Set the severity.
    pub fn set_level(&mut self, level: NifLoggerLevel)
        ensures
            final(self).level == level,
            final(self).enabled == old(self).enabled,
            final(self).target == old(self).target,
    {
        self.level = level;
    }

    /// Whether a record with the given target is forwarded: the logger is
    /// on and the record's target starts with the configured prefix.
    pub fn enabled_for(&self, target: &str) -> (r: bool)
        ensures
            r == (self.enabled && is_byte_prefix(encode_utf8(self.target@), target.spec_bytes())),
    {
        self.enabled && starts_with_bytes(target, self.target.as_str())
    }

    /// The line a record produces, or nothing when the logger does not
    /// forward it: the message prefixed with its bracketed target.
    pub fn log(&self, target: &str, level: NifLoggerLevel, message: &str) -> (r: Option<
        (NifLoggerLevel, String),
    >)
        ensures
            self.enabled && is_byte_prefix(encode_utf8(self.target@), target.spec_bytes()) ==> (
            r matches Some(p) && p.0 == level && p.1@ == "["@ + target@ + "] "@ + message@),
            !(self.enabled && is_byte_prefix(encode_utf8(self.target@), target.spec_bytes()))
                ==> r is None,
    {
        if self.enabled_for(target) {
            let line = String::from_str("[").concat(target).concat("] ").concat(message);
            Some((level, line))
        } else {
            None
        }
    }
}

/// Append one line to the queue the host logging process drains. Nothing
/// else changes, whatever the severity: filtering happened before this.
pub fn nif_logger_send(
    queue: &mut Vec<(NifLoggerLevel, String)>,
    level: NifLoggerLevel,
    message: &str,
)
    ensures
        final(queue)@.len() == old(queue)@.len() + 1,
        final(queue)@.drop_last() =~= old(queue)@,
        final(queue)@.last().0 == level,
        final(queue)@.last().1@ == message@,
{
    queue.push((level, message.to_owned()));
}

} // verus!
