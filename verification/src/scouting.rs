use vstd::prelude::*;

use crate::config::WhatAmI;

verus! {

/// One discovery announcement: where a node can be reached, what it is,
/// and its identifier.
#[derive(Debug)]
pub struct ZenohexScoutingHello {
    pub locators: Vec<String>,
    pub whatami: WhatAmI,
    pub zid: String,
}

impl ZenohexScoutingHello {
    /// Assemble a hello from its parts.
    pub fn new(locators: Vec<String>, whatami: WhatAmI, zid: String) -> (r: ZenohexScoutingHello)
        ensures
            r.locators@ == locators@,
            r.whatami == whatami,
            r.zid@ == zid@,
    {
        ZenohexScoutingHello { locators, whatami, zid }
    }
}

} // verus!
