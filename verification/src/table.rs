//! The monitors that a client knows of, at most one for each job.
use vstd::prelude::*;
use crate::status::Guid;

verus! {

/// What a client keeps of the active monitor of one job.
#[derive(Clone, Copy, Debug, PartialEq, Eq, Structural)]
pub struct MonitorRecord {
    /// Tells this monitor from every other that the client has created.
    pub serial: u64,
    /// How often the monitor is to report, in milliseconds.
    pub interval_millis: u32,
}

#[derive(Clone, Copy, Debug)]
struct MonitorEntry {
    guid: Guid,
    record: MonitorRecord,
}

/// A finite map from job to monitor record.
#[derive(Debug)]
pub struct MonitorTable {
    entries: Vec<MonitorEntry>,
}

spec fn holds(entries: Seq<MonitorEntry>, guid: Guid, i: int) -> bool {
    0 <= i < entries.len() && entries[i].guid == guid
}

spec fn distinct(entries: Seq<MonitorEntry>) -> bool {
    forall|i: int, j: int| 0 <= i < j < entries.len() ==> entries[i].guid != entries[j].guid
}

spec fn map_of(entries: Seq<MonitorEntry>) -> Map<Guid, MonitorRecord> {
    Map::new(
        |guid: Guid| exists|i: int| holds(entries, guid, i),
        |guid: Guid| entries[choose|i: int| holds(entries, guid, i)].record,
    )
}

proof fn lemma_map_of_entry(entries: Seq<MonitorEntry>, i: int)
    requires
        distinct(entries),
        0 <= i < entries.len(),
    ensures
        map_of(entries).contains_key(entries[i].guid),
        map_of(entries)[entries[i].guid] == entries[i].record,
{
    assert(holds(entries, entries[i].guid, i));
}

impl View for MonitorTable {
    type V = Map<Guid, MonitorRecord>;

    closed spec fn view(&self) -> Map<Guid, MonitorRecord> {
        map_of(self.entries@)
    }
}

impl MonitorTable {
    /// No job occurs twice.
    pub closed spec fn wf(&self) -> bool {
        distinct(self.entries@)
    }

    /// A table without monitors.
    pub fn new() -> (result: MonitorTable)
        ensures
            result.wf(),
            result@ == Map::<Guid, MonitorRecord>::empty(),
    {
        let result = MonitorTable { entries: Vec::new() };
        result
    }

    fn position(&self, guid: Guid) -> (result: Option<usize>)
        ensures
            match result {
                Some(i) => holds(self.entries@, guid, i as int),
                None => forall|i: int| !holds(self.entries@, guid, i),
            },
    {
        let mut i: usize = 0;
        while i < self.entries.len()
            invariant
                i <= self.entries.len(),
                forall|k: int| 0 <= k < i ==> self.entries@[k].guid != guid,
            decreases self.entries.len() - i,
        {
            if self.entries[i].guid == guid {
                return Some(i);
            }
            i += 1;
        }
        None
    }

    /// The record of the monitor of `guid`, if the job has one.
    pub fn get(&self, guid: Guid) -> (result: Option<MonitorRecord>)
        requires
            self.wf(),
        ensures
            result == if self@.contains_key(guid) {
                Some(self@[guid])
            } else {
                None
            },
    {
        match self.position(guid) {
            Some(i) => {
                proof {
                    lemma_map_of_entry(self.entries@, i as int);
                }
                Some(self.entries[i].record)
            },
            None => None,
        }
    }

    /// Makes `record` the monitor of `guid`, in place of the one that the job
    /// may have had.
    pub fn insert(&mut self, guid: Guid, record: MonitorRecord)
        requires
            old(self).wf(),
        ensures
            final(self).wf(),
            final(self)@ == old(self)@.insert(guid, record),
    {
        let ghost before = self.entries@;
        let ghost at: int;
        let entry = MonitorEntry { guid, record };
        match self.position(guid) {
            Some(i) => {
                self.entries.set(i, entry);
                proof {
                    at = i as int;
                }
            },
            None => {
                self.entries.push(entry);
                proof {
                    at = before.len() as int;
                }
            },
        }
        proof {
            let after = self.entries@;
            assert(holds(after, guid, at) && after[at] == entry);
            assert forall|k: int| 0 <= k < after.len() && k != at implies k < before.len()
                && after[k] == before[k] && before[k].guid != guid by {
                assert(!holds(before, guid, k) || holds(before, guid, at));
            }
            assert forall|g: Guid| #[trigger]
                map_of(after).contains_key(g) == map_of(before).insert(guid, record).contains_key(
                    g,
                ) by {
                if map_of(after).contains_key(g) && g != guid {
                    let k = choose|k: int| holds(after, g, k);
                    assert(holds(before, g, k));
                }
                if map_of(before).contains_key(g) && g != guid {
                    let k = choose|k: int| holds(before, g, k);
                    assert(holds(after, g, k));
                }
            }
            assert forall|g: Guid| #[trigger]
                map_of(after).contains_key(g) implies map_of(after)[g] == map_of(before).insert(
                guid,
                record,
            )[g] by {
                let k = choose|k: int| holds(after, g, k);
                lemma_map_of_entry(after, k);
                if g != guid {
                    lemma_map_of_entry(before, k);
                }
            }
        }
    }

    /// Takes the monitor of `guid` out, and returns its record if the job had
    /// one.
    pub fn remove(&mut self, guid: Guid) -> (result: Option<MonitorRecord>)
        requires
            old(self).wf(),
        ensures
            final(self).wf(),
            final(self)@ == old(self)@.remove(guid),
            result == if old(self)@.contains_key(guid) {
                Some(old(self)@[guid])
            } else {
                None
            },
    {
        let ghost before = self.entries@;
        match self.position(guid) {
            Some(i) => {
                proof {
                    lemma_map_of_entry(before, i as int);
                }
                let entry = self.entries.remove(i);
                proof {
                    let after = self.entries@;
                    assert(distinct(after));
                    assert forall|g: Guid| #[trigger]
                        map_of(after).contains_key(g) == map_of(before).remove(guid).contains_key(
                            g,
                        ) by {
                        if map_of(after).contains_key(g) {
                            let k = choose|k: int| holds(after, g, k);
                            let k0 = if k < i { k } else { k + 1 };
                            assert(holds(before, g, k0));
                        }
                        if map_of(before).contains_key(g) && g != guid {
                            let k = choose|k: int| holds(before, g, k);
                            let k1 = if k < i { k } else { k - 1 };
                            assert(holds(after, g, k1));
                        }
                    }
                    assert forall|g: Guid| #[trigger]
                        map_of(after).contains_key(g) implies map_of(after)[g] == map_of(
                        before,
                    ).remove(guid)[g] by {
                        let k = choose|k: int| holds(after, g, k);
                        let k0 = if k < i { k } else { k + 1 };
                        lemma_map_of_entry(after, k);
                        lemma_map_of_entry(before, k0);
                    }
                }
                Some(entry.record)
            },
            None => None,
        }
    }
}

} // verus!
