use vstd::prelude::*;

use crate::error::Error;
use vstd::string::{StrSliceExecFns, StringSliceAdditionalSpecFns};
use vstd::utf8::encode_utf8;

verus! {

/// Whether a string is a valid (canon) key expression, as the native
/// library's grammar defines it.
pub uninterp spec fn ke_valid(s: Seq<char>) -> bool;

/// The canonical form of a string as a key expression, or nothing when it
/// cannot be canonised.
pub uninterp spec fn ke_canon(s: Seq<char>) -> Option<Seq<char>>;

/// Whether the sets of keys two valid key expressions denote share at
/// least one key.
pub uninterp spec fn ke_intersects(a: Seq<char>, b: Seq<char>) -> bool;

/// Whether the set of keys the first valid key expression denotes contains
/// every key the second denotes.
pub uninterp spec fn ke_includes(a: Seq<char>, b: Seq<char>) -> bool;

/// Whether the canonizer may be run on a string with these bytes: every
/// occurrence of the byte sequence `$*$*` has at least two bytes after
/// it. On an occurrence closer to the end, the native canonizer reads two
/// bytes past the occurrence and panics, so such strings never reach it
/// and are rejected as invalid instead.
pub open spec fn canon_scan_safe(s: Seq<u8>) -> bool {
    forall|i: int|
        0 <= i && i + 4 <= s.len() && (#[trigger] s[i]) == 36 && s[i + 1] == 42 && s[i + 2] == 36
            && s[i + 3] == 42 ==> i + 6 <= s.len()
}

/// Whether the canonizer accepts the bytes: `$*$*` occurs nowhere in the
/// last five bytes. Only the last two possible positions of an occurrence
/// can violate `canon_scan_safe`, so two window checks decide it.
fn canon_prescan(bytes: &Vec<u8>) -> (r: bool)
    ensures
        r == canon_scan_safe(bytes@),
{
    let n = bytes.len();
    let mut ok = true;
    if n >= 4 {
        let i = n - 4;
        if bytes[i] == 36 && bytes[i + 1] == 42 && bytes[i + 2] == 36 && bytes[i + 3] == 42 {
            ok = false;
        }
    }
    if ok && n >= 5 {
        let i = n - 5;
        if bytes[i] == 36 && bytes[i + 1] == 42 && bytes[i + 2] == 36 && bytes[i + 3] == 42 {
            ok = false;
        }
    }
    proof {
        if ok {
            assert forall|i: int|
                0 <= i && i + 4 <= bytes@.len() && (#[trigger] bytes@[i]) == 36 && bytes@[i + 1]
                    == 42 && bytes@[i + 2] == 36 && bytes@[i + 3] == 42 implies i + 6
                <= bytes@.len() by {
                if i + 6 > bytes@.len() {
                    assert(i == bytes@.len() - 4 || i == bytes@.len() - 5);
                }
            }
        }
    }
    ok
}

/// Relies on zenoh's `keyexpr::new`: whether a string parses as a key
/// expression is decided by its characters alone.
#[verifier::external_body]
fn ke_new_ok(s: &str) -> (r: bool)
    ensures
        r == ke_valid(s@),
{
    zenoh::key_expr::keyexpr::new(s).is_ok()
}

/// Relies on zenoh's `keyexpr::autocanonize`: canonisation rewrites the
/// string in place and succeeds exactly when the result is a valid key
/// expression, all by the characters alone. The canonizer reads up to two
/// bytes past a `$*$*` occurrence, so the caller keeps such occurrences
/// away from the end of the string. A returned form is a valid key
/// expression; validity forbids `$` after `$*`, so the result holds no
/// `$*$*` at all, and canonising it again returns it unchanged — a string
/// already in canon form passes untouched through every rewrite rule.
#[verifier::external_body]
fn ke_autocanonize_raw(s: &str) -> (r: Option<String>)
    requires
        canon_scan_safe(s.spec_bytes()),
    ensures
        r matches Some(c) ==> ke_canon(s@) == Some(c@) && ke_valid(c@) && ke_canon(c@) == Some(c@)
            && canon_scan_safe(encode_utf8(c@)),
        r is None ==> ke_canon(s@) is None,
{
    let mut owned = s.to_string();
    match zenoh::key_expr::keyexpr::autocanonize(&mut owned) {
        Ok(k) => Some(k.to_string()),
        Err(_) => None,
    }
}

/// Relies on zenoh's `keyexpr::new` to parse both operands and on
/// `keyexpr::intersects`, which holds exactly when some key lies in both
/// denoted sets — a relation symmetric in the two strings.
#[verifier::external_body]
fn ke_intersects_raw(a: &str, b: &str) -> (r: Option<bool>)
    ensures
        r is Some <==> (ke_valid(a@) && ke_valid(b@)),
        r matches Some(x) ==> x == ke_intersects(a@, b@) && x == ke_intersects(b@, a@),
{
    match (zenoh::key_expr::keyexpr::new(a), zenoh::key_expr::keyexpr::new(b)) {
        (Ok(ka), Ok(kb)) => Some(ka.intersects(kb)),
        _ => None,
    }
}

/// Relies on zenoh's `keyexpr::new` to parse both operands and on
/// `keyexpr::includes`, which holds exactly when the first denoted set
/// contains every key of the second — so every set includes itself.
#[verifier::external_body]
fn ke_includes_raw(a: &str, b: &str) -> (r: Option<bool>)
    ensures
        r is Some <==> (ke_valid(a@) && ke_valid(b@)),
        r matches Some(x) ==> x == ke_includes(a@, b@),
        a@ == b@ && r is Some ==> r == Some(true),
{
    match (zenoh::key_expr::keyexpr::new(a), zenoh::key_expr::keyexpr::new(b)) {
        (Ok(ka), Ok(kb)) => Some(ka.includes(kb)),
        _ => None,
    }
}

/// Whether `key_expr` is a valid key expression.
pub fn keyexpr_valid(key_expr: &str) -> (r: bool)
    ensures
        r == ke_valid(key_expr@),
{
    ke_new_ok(key_expr)
}

/// The canonical form of `key_expr`, or `KeyExprInvalid` when it cannot
/// be canonised — including the strings whose trailing bytes the native
/// canonizer cannot scan, which never reach it.
///
/// A successful result is idempotent: the returned form is valid, is its
/// own canonical form, and is itself scannable, so canonising it again
/// returns it unchanged.
pub fn keyexpr_autocanonize(key_expr: &str) -> (r: Result<String, Error>)
    ensures
        r matches Ok(c) ==> canon_scan_safe(key_expr.spec_bytes()) && ke_canon(key_expr@) == Some(
            c@,
        ) && ke_valid(c@) && ke_canon(c@) == Some(c@) && canon_scan_safe(encode_utf8(c@)),
        r matches Err(e) ==> e == Error::KeyExprInvalid && (!canon_scan_safe(key_expr.spec_bytes())
            || ke_canon(key_expr@) is None),
{
    let bytes = key_expr.as_bytes_vec();
    if !canon_prescan(&bytes) {
        return Err(Error::KeyExprInvalid);
    }
    match ke_autocanonize_raw(key_expr) {
        Some(c) => Ok(c),
        None => Err(Error::KeyExprInvalid),
    }
}

/// Whether the two key expressions intersect. False — never an error —
/// when either operand is invalid.
///
/// The two postconditions state the relation both ways round: for all
/// valid `a` and `b`, `keyexpr_intersects(a, b)` equals
/// `keyexpr_intersects(b, a)`; on invalid operands both are false.
pub fn keyexpr_intersects(a: &str, b: &str) -> (r: bool)
    ensures
        r == (ke_valid(a@) && ke_valid(b@) && ke_intersects(a@, b@)),
        r == (ke_valid(b@) && ke_valid(a@) && ke_intersects(b@, a@)),
{
    match ke_intersects_raw(a, b) {
        Some(x) => x,
        None => false,
    }
}

/// Whether `a` includes `b`. False — never an error — when either operand
/// is invalid.
///
/// The second postcondition is the reflexive law: for every valid `a`,
/// `keyexpr_includes(a, a)` is true.
pub fn keyexpr_includes(a: &str, b: &str) -> (r: bool)
    ensures
        r == (ke_valid(a@) && ke_valid(b@) && ke_includes(a@, b@)),
        a@ == b@ && ke_valid(a@) ==> r == true,
{
    match ke_includes_raw(a, b) {
        Some(x) => x,
        None => false,
    }
}

} // verus!
