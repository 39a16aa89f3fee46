use vstd::prelude::*;

verus! {

/// Congestion-control policy carried by publications.
#[derive(Debug, Clone, Copy, PartialEq, Eq, Structural)]
pub enum CongestionControl {
    Drop,
    Block,
}

/// Priority lane of a publication.
#[derive(Debug, Clone, Copy, PartialEq, Eq, Structural)]
pub enum Priority {
    RealTime,
    InteractiveHigh,
    InteractiveLow,
    DataHigh,
    Data,
    DataLow,
    Background,
}

/// Which queryables a `get` is routed to.
#[derive(Debug, Clone, Copy, PartialEq, Eq, Structural)]
pub enum QueryTarget {
    BestMatching,
    All,
    AllComplete,
}

/// How replies to a `get` are consolidated.
#[derive(Debug, Clone, Copy, PartialEq, Eq, Structural)]
pub enum QueryConsolidation {
    Auto,
    Disabled,
    Monotonic,
    Latest,
}

/// Whether a sample carries a value or withdraws one.
#[derive(Debug, Clone, Copy, PartialEq, Eq, Structural)]
pub enum SampleKind {
    Put,
    Delete,
}

} // verus!
