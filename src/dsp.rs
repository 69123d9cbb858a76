//! Identifiers of effects and their parameters, and the biquad filter
//! topologies.
use vstd::prelude::*;

verus! {

/// Identifies one effect in a chain.
#[derive(Debug, Clone, Copy, PartialEq, Eq, Hash, Structural)]
pub struct EffectId {
    id: u32,
}

impl EffectId {
    /// The number.
    pub closed spec fn spec_value(&self) -> u32 {
        self.id
    }

    /// Creates an effect identifier.
    pub fn new(id: u32) -> (r: EffectId)
        ensures
            r.spec_value() == id,
    {
        EffectId { id }
    }

    /// Returns the number.
    pub fn value(self) -> (r: u32)
        ensures
            r == self.spec_value(),
    {
        self.id
    }
}

impl From<u32> for EffectId {
    fn from(value: u32) -> (r: EffectId) {
        EffectId { id: value }
    }
}

impl vstd::std_specs::convert::FromSpecImpl<u32> for EffectId {
    open spec fn obeys_from_spec() -> bool {
        true
    }

    closed spec fn from_spec(v: u32) -> EffectId {
        EffectId { id: v }
    }
}

/// Identifies one parameter of an effect.
#[derive(Debug, Clone, Copy, PartialEq, Eq, Hash, Structural)]
pub struct ParamId {
    id: u32,
}

impl ParamId {
    /// The number.
    pub closed spec fn spec_value(&self) -> u32 {
        self.id
    }

    /// Creates a parameter identifier.
    pub fn new(id: u32) -> (r: ParamId)
        ensures
            r.spec_value() == id,
    {
        ParamId { id }
    }

    /// Returns the number.
    pub fn value(self) -> (r: u32)
        ensures
            r == self.spec_value(),
    {
        self.id
    }
}

impl From<u32> for ParamId {
    fn from(value: u32) -> (r: ParamId) {
        ParamId { id: value }
    }
}

impl vstd::std_specs::convert::FromSpecImpl<u32> for ParamId {
    open spec fn obeys_from_spec() -> bool {
        true
    }

    closed spec fn from_spec(v: u32) -> ParamId {
        ParamId { id: v }
    }
}

/// Biquad filter topology.
#[derive(Debug, Clone, Copy, PartialEq, Eq, Structural)]
pub enum FilterType {
    /// Passes below the cutoff.
    LowPass,
    /// Passes above the cutoff.
    HighPass,
    /// Passes a band around the centre frequency.
    BandPass,
    /// Rejects a band around the centre frequency.
    Notch,
    /// Boosts or cuts a band around the centre frequency.
    Peak,
    /// Boosts or cuts below the corner frequency.
    LowShelf,
    /// Boosts or cuts above the corner frequency.
    HighShelf,
}

impl FilterType {
    /// Display name of a filter of this topology.
    pub fn name(self) -> (r: &'static str)
        ensures
            self is LowPass ==> r@ == "Low Pass"@,
            self is HighPass ==> r@ == "High Pass"@,
            self is BandPass ==> r@ == "Band Pass"@,
            self is Notch ==> r@ == "Notch"@,
            self is Peak ==> r@ == "Peak"@,
            self is LowShelf ==> r@ == "Low Shelf"@,
            self is HighShelf ==> r@ == "High Shelf"@,
    {
        match self {
            FilterType::LowPass => "Low Pass",
            FilterType::HighPass => "High Pass",
            FilterType::BandPass => "Band Pass",
            FilterType::Notch => "Notch",
            FilterType::Peak => "Peak",
            FilterType::LowShelf => "Low Shelf",
            FilterType::HighShelf => "High Shelf",
        }
    }
}

} // verus!
