//! The shape classifier: from the three flags of a variant to one of six
//! shapes, and from a shape to what its formatting and traversal do.

use crate::parse::ErrorVariant;
use vstd::prelude::*;

verus! {

/// The shape of a variant. A nested cause takes precedence over an external
/// one: a variant with both has the shape of one with a nested cause alone.
#[derive(Debug, Clone, Copy, PartialEq, Eq, Structural, Hash)]
pub enum Shape {
    LocatedWithChainCause,
    LocatedWithExternalCause,
    LocatedLeaf,
    UnlocatedWithChainCause,
    UnlocatedWithExternalCause,
    UnlocatedLeaf,
}

/// What follows the main line when a variant is formatted.
#[derive(Debug, Clone, Copy, PartialEq, Eq, Structural, Hash)]
pub enum Tail {
    /// Nothing: the variant has no cause.
    Nothing,
    /// The trace of the nested cause, one layer deeper.
    NestedTrace,
    /// One more line, with the external cause, numbered one layer deeper.
    ExternalLine,
}

/// The shape that the three flags of a variant give.
pub open spec fn shape_of(has_location: bool, has_source: bool, has_external_cause: bool) -> Shape {
    if has_location {
        if has_source {
            Shape::LocatedWithChainCause
        } else if has_external_cause {
            Shape::LocatedWithExternalCause
        } else {
            Shape::LocatedLeaf
        }
    } else {
        if has_source {
            Shape::UnlocatedWithChainCause
        } else if has_external_cause {
            Shape::UnlocatedWithExternalCause
        } else {
            Shape::UnlocatedLeaf
        }
    }
}

/// Classifies a variant by its three flags.
pub fn classify(has_location: bool, has_source: bool, has_external_cause: bool) -> (shape: Shape)
    ensures
        shape == shape_of(has_location, has_source, has_external_cause),
{
    match (has_location, has_source, has_external_cause) {
        (true, true, _) => Shape::LocatedWithChainCause,
        (true, false, true) => Shape::LocatedWithExternalCause,
        (true, false, false) => Shape::LocatedLeaf,
        (false, true, _) => Shape::UnlocatedWithChainCause,
        (false, false, true) => Shape::UnlocatedWithExternalCause,
        (false, false, false) => Shape::UnlocatedLeaf,
    }
}

impl Shape {
    /// Whether the main line ends with the call site.
    pub open spec fn located(self) -> bool {
        self == Shape::LocatedWithChainCause || self == Shape::LocatedWithExternalCause || self
            == Shape::LocatedLeaf
    }

    /// Whether traversal goes on to a nested cause.
    pub open spec fn links_source(self) -> bool {
        self == Shape::LocatedWithChainCause || self == Shape::UnlocatedWithChainCause
    }

    /// Whether the external cause is shown on a line of its own.
    pub open spec fn shows_external(self) -> bool {
        self == Shape::LocatedWithExternalCause || self == Shape::UnlocatedWithExternalCause
    }

    /// What follows the main line.
    pub open spec fn tail(self) -> Tail {
        if self.links_source() {
            Tail::NestedTrace
        } else if self.shows_external() {
            Tail::ExternalLine
        } else {
            Tail::Nothing
        }
    }

    /// Whether the main line ends with the call site.
    pub fn is_located(self) -> (b: bool)
        ensures
            b == self.located(),
    {
        match self {
            Shape::LocatedWithChainCause | Shape::LocatedWithExternalCause | Shape::LocatedLeaf => true,
            _ => false,
        }
    }

    /// Whether traversal goes on to a nested cause.
    pub fn has_chain_cause(self) -> (b: bool)
        ensures
            b == self.links_source(),
    {
        match self {
            Shape::LocatedWithChainCause | Shape::UnlocatedWithChainCause => true,
            _ => false,
        }
    }

    /// What follows the main line.
    pub fn format_tail(self) -> (t: Tail)
        ensures
            t == self.tail(),
    {
        match self {
            Shape::LocatedWithChainCause | Shape::UnlocatedWithChainCause => Tail::NestedTrace,
            Shape::LocatedWithExternalCause | Shape::UnlocatedWithExternalCause => Tail::ExternalLine,
            Shape::LocatedLeaf | Shape::UnlocatedLeaf => Tail::Nothing,
        }
    }
}

impl ErrorVariant {
    /// The shape of this variant.
    pub fn shape(&self) -> (shape: Shape)
        ensures
            shape == shape_of(self.has_location, self.has_source, self.has_external_cause),
    {
        classify(self.has_location, self.has_source, self.has_external_cause)
    }
}

/// With a nested cause, the flag of the external cause does not matter: the
/// nested cause wins.
pub proof fn lemma_source_wins(has_location: bool, has_external_cause: bool)
    ensures
        shape_of(has_location, true, has_external_cause) == shape_of(has_location, true, false),
        shape_of(has_location, true, has_external_cause).links_source(),
        !shape_of(has_location, true, has_external_cause).shows_external(),
{
}

/// What a shape does is what the flags say: the call site is shown where
/// there is one, traversal follows the nested cause where there is one, and
/// the external cause is shown where there is one and no nested cause.
pub proof fn lemma_shape_of_flags(has_location: bool, has_source: bool, has_external_cause: bool)
    ensures
        shape_of(has_location, has_source, has_external_cause).located() == has_location,
        shape_of(has_location, has_source, has_external_cause).links_source() == has_source,
        shape_of(has_location, has_source, has_external_cause).shows_external() == (!has_source
            && has_external_cause),
{
}

} // verus!
