use vstd::prelude::*;

use crate::guid::Guid;

verus! {

pub const TRACE_LEVEL_NONE: u8 = 0;
pub const TRACE_LEVEL_CRITICAL: u8 = 1;
pub const TRACE_LEVEL_ERROR: u8 = 2;
pub const TRACE_LEVEL_WARNING: u8 = 3;
pub const TRACE_LEVEL_INFORMATION: u8 = 4;
pub const TRACE_LEVEL_VERBOSE: u8 = 5;

/// The most verbose level of events a provider is asked for.
#[derive(Debug, Clone, Copy, PartialEq, Eq, Structural, Hash)]
pub struct TraceLevel {
    pub level: u8,
}

impl TraceLevel {
    pub fn from_u8(level: u8) -> (r: TraceLevel)
        ensures
            r.level == level,
    {
        TraceLevel { level }
    }

    pub fn value(&self) -> (r: u8)
        ensures
            r == self.level,
    {
        self.level
    }
}

/// Builds the settings for enabling one provider: which keywords must match (`any`,
/// `all`) and up to which level.
#[derive(Debug)]
pub struct ProviderBuilder {
    pub id: Guid,
    pub any: u64,
    pub all: u64,
    pub level: TraceLevel,
}

impl ProviderBuilder {
    /// Starts with no keyword filter and the most verbose level.
    pub fn from_guid(id: &Guid) -> (r: Self)
        ensures
            r.id == *id,
            r.any == 0,
            r.all == 0,
            r.level.level == TRACE_LEVEL_VERBOSE,
    {
        ProviderBuilder { id: *id, any: 0, all: 0, level: TraceLevel { level: TRACE_LEVEL_VERBOSE } }
    }

    pub fn any(self, any: u64) -> (r: Self)
        ensures
            r.id == self.id,
            r.any == any,
            r.all == self.all,
            r.level == self.level,
    {
        ProviderBuilder { any, ..self }
    }

    pub fn all(self, all: u64) -> (r: Self)
        ensures
            r.id == self.id,
            r.any == self.any,
            r.all == all,
            r.level == self.level,
    {
        ProviderBuilder { all, ..self }
    }

    pub fn level(self, level: TraceLevel) -> (r: Self)
        ensures
            r.id == self.id,
            r.any == self.any,
            r.all == self.all,
            r.level == level,
    {
        ProviderBuilder { level, ..self }
    }

    pub fn build(&self) -> (r: Provider)
        ensures
            r.id == self.id,
            r.any == self.any,
            r.all == self.all,
            r.level == self.level,
    {
        Provider { id: self.id, any: self.any, all: self.all, level: self.level }
    }
}

/// The settings for enabling one provider.
#[derive(Debug, Clone, Copy, PartialEq, Eq, Structural, Hash)]
pub struct Provider {
    pub id: Guid,
    pub any: u64,
    pub all: u64,
    pub level: TraceLevel,
}

impl Provider {
    pub fn id(&self) -> (r: &Guid)
        ensures
            *r == self.id,
    {
        &self.id
    }

    pub fn level(&self) -> (r: TraceLevel)
        ensures
            r == self.level,
    {
        self.level
    }

    pub fn any(&self) -> (r: u64)
        ensures
            r == self.any,
    {
        self.any
    }

    pub fn all(&self) -> (r: u64)
        ensures
            r == self.all,
    {
        self.all
    }
}

} // verus!
