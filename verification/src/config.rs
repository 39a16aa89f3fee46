use vstd::prelude::*;

use crate::error::Error;

verus! {

/// What a node announces itself as on the fabric.
#[derive(Debug, Clone, Copy, PartialEq, Eq, Structural)]
pub enum WhatAmI {
    Router,
    Peer,
    Client,
}

/// A transport locator, carried as its textual form.
#[derive(Debug)]
pub struct Locator(pub String);

impl View for Locator {
    type V = Seq<char>;

    open spec fn view(&self) -> Seq<char> {
        self.0@
    }
}

impl Locator {
    /// Wrap a locator string.
    pub fn new(s: String) -> (r: Locator)
        ensures
            r@ == s@,
    {
        Locator(s)
    }

    /// The textual form.
    pub fn as_str(&self) -> (r: &str)
        ensures
            r@ == self@,
    {
        self.0.as_str()
    }
}

/// The configuration a JSON5 document denotes, rendered back to text, or
/// nothing when the parser or the schema rejects the document — a
/// function of the text alone.
pub uninterp spec fn json5_config(s: Seq<char>) -> Option<Seq<char>>;

/// Relies on zenoh's `Config::from_json5`, which deserialises the document
/// and validates it against the configuration schema, and on the
/// configuration's rendering back to text; both are deterministic in the
/// document.
#[verifier::external_body]
fn config_parse_raw(json5: &str) -> (r: Result<String, String>)
    ensures
        r matches Ok(t) ==> json5_config(json5@) == Some(t@),
        r is Err <==> json5_config(json5@) is None,
{
    match zenoh::Config::from_json5(json5) {
        Ok(c) => Ok(c.to_string()),
        Err(e) => Err(e.to_string()),
    }
}

/// Parse a JSON5 configuration document. `Ok` carries the configuration
/// the native runtime derived, rendered back to text; a rejected document
/// fails with `ConfigInvalid`.
pub fn config_from_json5(json5: &str) -> (r: Result<String, Error>)
    ensures
        r matches Ok(t) ==> json5_config(json5@) == Some(t@),
        r matches Err(e) ==> e == Error::ConfigInvalid && json5_config(json5@) is None,
{
    match config_parse_raw(json5) {
        Ok(s) => Ok(s),
        Err(_) => Err(Error::ConfigInvalid),
    }
}

} // verus!
