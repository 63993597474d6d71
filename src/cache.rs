use std::sync::Arc;
use vstd::prelude::*;

use crate::error::ParseError;
use crate::event::EventRecord;
use crate::guid::Guid;
use crate::schema::{build_err, EventInfo};
use crate::tdh::{EventMapInfo, TraceEventInfo};

verus! {

/// Relies on `Arc::clone`: a new handle to the same shared value.
#[verifier::external_body]
fn share(a: &Arc<EventInfo>) -> (r: Arc<EventInfo>)
    ensures
        r == *a,
{
    Arc::clone(a)
}

/// Schemas built so far, one per (provider, event id). An entry, once stored, is never
/// replaced or removed. Callers that share a cache between threads hold it behind a
/// reader-writer lock: lookups under the shared lock, `get_from_event_record` under the
/// exclusive one.
#[derive(Debug)]
pub struct SchemaCache {
    schemas: Vec<(Guid, u16, Arc<EventInfo>)>,
}

impl SchemaCache {
    /// No two entries share a key.
    pub closed spec fn wf(&self) -> bool {
        forall|i: int, j: int|
            0 <= i < j < self.schemas@.len() ==> !(#[trigger] self.schemas@[i].0
                == #[trigger] self.schemas@[j].0 && self.schemas@[i].1 == self.schemas@[j].1)
    }

    /// Whether an entry for the key is stored.
    pub closed spec fn contains(&self, provider_id: Guid, event_id: u16) -> bool {
        exists|i: int|
            0 <= i < self.schemas@.len() && #[trigger] self.schemas@[i].0 == provider_id
                && self.schemas@[i].1 == event_id
    }

    /// The schema stored for the key (meaningful where `contains` holds).
    pub closed spec fn lookup(&self, provider_id: Guid, event_id: u16) -> EventInfo {
        let i = choose|i: int|
            0 <= i < self.schemas@.len() && #[trigger] self.schemas@[i].0 == provider_id
                && self.schemas@[i].1 == event_id;
        *self.schemas@[i].2
    }

    /// How many schemas are stored.
    pub closed spec fn len_spec(&self) -> nat {
        self.schemas@.len()
    }

    pub fn new() -> (r: SchemaCache)
        ensures
            r.wf(),
            r.len_spec() == 0,
            forall|p: Guid, e: u16| !#[trigger] r.contains(p, e),
    {
        SchemaCache { schemas: Vec::new() }
    }

    pub fn len(&self) -> (r: usize)
        ensures
            r == self.len_spec(),
    {
        self.schemas.len()
    }

    fn find(&self, provider_id: Guid, event_id: u16) -> (r: Option<usize>)
        requires
            self.wf(),
        ensures
            r is Some <==> self.contains(provider_id, event_id),
            r matches Some(i) ==> i < self.schemas@.len() && self.schemas@[i as int].0
                == provider_id && self.schemas@[i as int].1 == event_id && *self.schemas@[i as int].2
                == self.lookup(provider_id, event_id),
    {
        let mut i: usize = 0;
        while i < self.schemas.len()
            invariant
                self.wf(),
                i <= self.schemas@.len(),
                forall|j: int|
                    0 <= j < i ==> !(#[trigger] self.schemas@[j].0 == provider_id
                        && self.schemas@[j].1 == event_id),
            decreases self.schemas@.len() - i,
        {
            if self.schemas[i].0 == provider_id && self.schemas[i].1 == event_id {
                proof {
                    let ii = i as int;
                    assert(0 <= ii < self.schemas@.len() && self.schemas@[ii].0 == provider_id
                        && self.schemas@[ii].1 == event_id);
                    assert(self.contains(provider_id, event_id));
                    let k = choose|k: int|
                        0 <= k < self.schemas@.len() && #[trigger] self.schemas@[k].0
                            == provider_id && self.schemas@[k].1 == event_id;
                    assert(0 <= k < self.schemas@.len() && self.schemas@[k].0 == provider_id
                        && self.schemas@[k].1 == event_id);
                    if k < ii {
                        assert(!(self.schemas@[k].0 == provider_id && self.schemas@[k].1 == event_id));
                    } else if k > ii {
                        assert(self.schemas@[ii].0 == self.schemas@[k].0);
                    }
                    assert(k == ii);
                }
                return Some(i);
            }
            i = i + 1;
        }
        None
    }

    /// The schema stored for the key, if any.
    pub fn get(&self, provider_id: Guid, event_id: u16) -> (r: Option<Arc<EventInfo>>)
        requires
            self.wf(),
        ensures
            r is Some <==> self.contains(provider_id, event_id),
            r matches Some(a) ==> *a == self.lookup(provider_id, event_id),
    {
        match self.find(provider_id, event_id) {
            Some(i) => Some(share(&self.schemas[i].2)),
            None => None,
        }
    }

    /// The schema for the event's (provider, event id): the stored one where there is one,
    /// left as it is; else the one built from `trace_event_info` (and `map_infos`, as
    /// `EventInfo::parse` takes them), stored and returned. A failed build stores nothing.
    pub fn get_from_event_record(
        &mut self,
        event_record: &EventRecord,
        trace_event_info: &TraceEventInfo,
        map_infos: Option<&Vec<Option<EventMapInfo>>>,
    ) -> (r: Result<Arc<EventInfo>, ParseError>)
        requires
            old(self).wf(),
        ensures
            final(self).wf(),
            old(self).contains(event_record.header.provider_id, event_record.header.event_descriptor.id)
                ==> {
                &&& *final(self) == *old(self)
                &&& r matches Ok(a) && *a == old(self).lookup(
                    event_record.header.provider_id,
                    event_record.header.event_descriptor.id,
                )
            },
            !old(self).contains(event_record.header.provider_id, event_record.header.event_descriptor.id)
                ==> {
                &&& match build_err(
                    trace_event_info.properties@,
                    0,
                    trace_event_info.top_level_property_count as int,
                ) {
                    Some(e) => r == Err::<Arc<EventInfo>, ParseError>(e),
                    None => r is Ok,
                }
                &&& r is Err ==> *final(self) == *old(self)
                &&& r matches Ok(a) ==> final(self).contains(
                    event_record.header.provider_id,
                    event_record.header.event_descriptor.id,
                ) && final(self).lookup(
                    event_record.header.provider_id,
                    event_record.header.event_descriptor.id,
                ) == *a && final(self).len_spec() == old(self).len_spec() + 1
                    && forall|p: Guid, e: u16|
                    #[trigger] old(self).contains(p, e) ==> final(self).contains(p, e)
                        && final(self).lookup(p, e) == old(self).lookup(p, e)
            },
    {
        let provider_id = event_record.header.provider_id;
        let event_id = event_record.header.event_descriptor.id;
        if let Some(i) = self.find(provider_id, event_id) {
            return Ok(share(&self.schemas[i].2));
        }
        let info = EventInfo::parse(trace_event_info, map_infos)?;
        let shared = Arc::new(info);
        let handle = share(&shared);
        let ghost before = self.schemas@;
        self.schemas.push((provider_id, event_id, shared));
        proof {
            let n = before.len() as int;
            assert(self.schemas@[n].0 == provider_id && self.schemas@[n].1 == event_id);
            assert forall|i: int, j: int|
                0 <= i < j < self.schemas@.len() implies !(#[trigger] self.schemas@[i].0
                == #[trigger] self.schemas@[j].0 && self.schemas@[i].1 == self.schemas@[j].1) by {
                if j == n {
                    if self.schemas@[i].0 == provider_id && self.schemas@[i].1 == event_id {
                        assert(before[i].0 == provider_id);
                    }
                } else {
                    assert(before[i] == self.schemas@[i] && before[j] == self.schemas@[j]);
                }
            }
            let k = choose|k: int|
                0 <= k < self.schemas@.len() && #[trigger] self.schemas@[k].0 == provider_id
                    && self.schemas@[k].1 == event_id;
            if k != n {
                assert(before[k].0 == provider_id);
            }
            assert forall|p: Guid, e: u16| #[trigger] old(self).contains(p, e) implies self.contains(p, e)
                && self.lookup(p, e) == old(self).lookup(p, e) by {
                let a = choose|a: int|
                    0 <= a < before.len() && #[trigger] before[a].0 == p && before[a].1 == e;
                assert(self.schemas@[a] == before[a]);
                let b = choose|b: int|
                    0 <= b < self.schemas@.len() && #[trigger] self.schemas@[b].0 == p
                        && self.schemas@[b].1 == e;
                if b != a {
                    if b == n {
                        assert(before[a].0 == provider_id && before[a].1 == event_id);
                    } else if b < a {
                        assert(self.schemas@[b].0 == self.schemas@[a].0);
                    } else {
                        assert(self.schemas@[a].0 == self.schemas@[b].0);
                    }
                }
            }
        }
        Ok(handle)
    }
}

} // verus!
