use vstd::prelude::*;

verus! {

/// One resolution: the game `id`, known as `name` at the time, and the id
/// the artwork database gave it (`None`: it found no match).
#[derive(Clone, Debug)]
pub struct GridIdEntry {
    pub id: u32,
    pub name: String,
    pub grid_id: Option<usize>,
}

/// An entry as mathematical values: id, name, resolved id.
pub type GridRecord = (u32, Seq<char>, Option<usize>);

pub open spec fn record_of(e: GridIdEntry) -> GridRecord {
    (e.id, e.name@, e.grid_id)
}

pub open spec fn records_view(s: Seq<GridIdEntry>) -> Seq<GridRecord> {
    s.map_values(|e: GridIdEntry| record_of(e))
}

/// Each id maps to the name and resolution of the last record that carries it.
pub open spec fn record_map(s: Seq<GridRecord>) -> Map<u32, (Seq<char>, Option<usize>)>
    decreases s.len(),
{
    if s.len() == 0 {
        Map::empty()
    } else {
        record_map(s.drop_last()).insert(s.last().0, (s.last().1, s.last().2))
    }
}

pub open spec fn unique_records(s: Seq<GridRecord>) -> bool {
    forall|i: int, j: int| 0 <= i < s.len() && 0 <= j < s.len() && i != j ==> s[i].0 != s[j].0
}

proof fn lemma_record_map_unique(s: Seq<GridRecord>, i: int)
    requires
        unique_records(s),
        0 <= i < s.len(),
    ensures
        record_map(s).contains_key(s[i].0),
        record_map(s)[s[i].0] == (s[i].1, s[i].2),
    decreases s.len(),
{
    if i < s.len() - 1 {
        lemma_record_map_unique(s.drop_last(), i);
    }
}

proof fn lemma_record_map_domain(s: Seq<GridRecord>, id: u32)
    ensures
        record_map(s).contains_key(id) <==> exists|i: int| 0 <= i < s.len() && s[i].0 == id,
    decreases s.len(),
{
    if s.len() > 0 {
        lemma_record_map_domain(s.drop_last(), id);
        if record_map(s.drop_last()).contains_key(id) {
            let i = choose|i: int| 0 <= i < s.drop_last().len() && s.drop_last()[i].0 == id;
            assert(s[i].0 == id);
        }
        if exists|i: int| 0 <= i < s.len() && s[i].0 == id {
            let i = choose|i: int| 0 <= i < s.len() && s[i].0 == id;
            if i < s.len() - 1 {
                assert(s.drop_last()[i].0 == id);
            }
        }
    }
}

proof fn lemma_record_map_update(s: Seq<GridRecord>, j: int, r: GridRecord)
    requires
        unique_records(s),
        0 <= j < s.len(),
        r.0 == s[j].0,
    ensures
        record_map(s.update(j, r)) == record_map(s).insert(r.0, (r.1, r.2)),
    decreases s.len(),
{
    let t = s.update(j, r);
    if j == s.len() - 1 {
        assert(t.drop_last() =~= s.drop_last());
        assert(record_map(t) =~= record_map(s).insert(r.0, (r.1, r.2)));
    } else {
        assert(t.drop_last() =~= s.drop_last().update(j, r));
        lemma_record_map_update(s.drop_last(), j, r);
        assert(record_map(t) =~= record_map(s).insert(r.0, (r.1, r.2)));
    }
}

/// What a lookup of game `id` finds in the resolutions `m`: `None` when it
/// was never resolved, else its resolution.
pub open spec fn cached(m: Map<u32, (Seq<char>, Option<usize>)>, id: u32) -> Option<Option<usize>> {
    if m.contains_key(id) {
        Some(m[id].1)
    } else {
        None
    }
}

/// Memoised resolutions of games to artwork-database ids, one per game.
pub struct GridIdCache {
    entries: Vec<GridIdEntry>,
}

impl View for GridIdCache {
    type V = Map<u32, (Seq<char>, Option<usize>)>;

    closed spec fn view(&self) -> Self::V {
        record_map(records_view(self.entries@))
    }
}

impl GridIdCache {
    pub closed spec fn wf(&self) -> bool {
        unique_records(records_view(self.entries@))
    }

    /// A cache with no resolution.
    pub fn new() -> (r: GridIdCache)
        ensures
            r.wf(),
            r@ == Map::<u32, (Seq<char>, Option<usize>)>::empty(),
    {
        let r = GridIdCache { entries: Vec::new() };
        assert(records_view(r.entries@) =~= Seq::<GridRecord>::empty());
        r
    }

    fn position(&self, id: u32) -> (r: Option<usize>)
        ensures
            r.is_none() ==> forall|i: int| 0 <= i < self.entries@.len() ==> self.entries@[i].id != id,
            r.is_some() ==> r.unwrap() < self.entries@.len() && self.entries@[r.unwrap() as int].id == id,
    {
        let mut i: usize = 0;
        while i < self.entries.len()
            invariant
                i <= self.entries.len(),
                forall|k: int| 0 <= k < i ==> self.entries@[k].id != id,
            decreases self.entries.len() - i,
        {
            if self.entries[i].id == id {
                return Some(i);
            }
            i += 1;
        }
        None
    }

    /// The cached resolution of game `id`: `None` when it was never resolved,
    /// `Some(None)` when the database had no match.
    pub fn lookup(&self, id: u32) -> (r: Option<Option<usize>>)
        requires
            self.wf(),
        ensures
            r == cached(self@, id),
    {
        let ghost s = records_view(self.entries@);
        proof {
            lemma_record_map_domain(s, id);
        }
        match self.position(id) {
            Some(j) => {
                proof {
                    lemma_record_map_unique(s, j as int);
                }
                Some(self.entries[j].grid_id)
            },
            None => {
                assert forall|i: int| 0 <= i < s.len() implies s[i].0 != id by {
                    assert(s[i].0 == self.entries@[i].id);
                }
                None
            },
        }
    }

    /// Stores the resolution of game `id`, known as `name`, replacing any
    /// earlier one: a search result, or a correction by hand.
    pub fn store(&mut self, id: u32, name: &str, grid_id: Option<usize>)
        requires
            old(self).wf(),
        ensures
            final(self).wf(),
            final(self)@ == old(self)@.insert(id, (name@, grid_id)),
    {
        let ghost s = records_view(self.entries@);
        let ghost rec: GridRecord = (id, name@, grid_id);
        let entry = GridIdEntry { id, name: String::from_str(name), grid_id };
        match self.position(id) {
            Some(j) => {
                self.entries.set(j, entry);
                proof {
                    assert(records_view(self.entries@) =~= s.update(j as int, rec));
                    lemma_record_map_update(s, j as int, rec);
                }
            },
            None => {
                self.entries.push(entry);
                proof {
                    assert(records_view(self.entries@) =~= s.push(rec));
                    assert(records_view(self.entries@).drop_last() =~= s);
                    assert forall|i: int| 0 <= i < s.len() implies s[i].0 != id by {
                        assert(s[i].0 == old(self).entries@[i].id);
                    }
                }
            },
        }
    }

    /// Overwrites the resolution of game `id` with `grid_id`, as when a user
    /// corrects a bad match.
    pub fn set(&mut self, id: u32, name: &str, grid_id: usize)
        requires
            old(self).wf(),
        ensures
            final(self).wf(),
            final(self)@ == old(self)@.insert(id, (name@, Some(grid_id))),
    {
        self.store(id, name, Some(grid_id));
    }

    /// Records the outcome of a database search for game `id`, known as
    /// `name`: the first candidate, or no match when `candidates` is empty.
    /// Returns what was recorded.
    pub fn record_search(&mut self, id: u32, name: &str, candidates: &Vec<usize>) -> (r: Option<usize>)
        requires
            old(self).wf(),
        ensures
            final(self).wf(),
            r == (if candidates@.len() > 0 {
                Some(candidates@[0])
            } else {
                None
            }),
            final(self)@ == old(self)@.insert(id, (name@, r)),
    {
        let top = if candidates.len() > 0 {
            Some(candidates[0])
        } else {
            None
        };
        self.store(id, name, top);
        top
    }

    /// The entries to persist, one per game.
    pub fn records(&self) -> (r: Vec<GridIdEntry>)
        requires
            self.wf(),
        ensures
            record_map(records_view(r@)) == self@,
            unique_records(records_view(r@)),
    {
        let mut r: Vec<GridIdEntry> = Vec::new();
        let mut i: usize = 0;
        while i < self.entries.len()
            invariant
                i <= self.entries.len(),
                records_view(r@) == records_view(self.entries@).take(i as int),
            decreases self.entries.len() - i,
        {
            let ghost prev = r@;
            let e = &self.entries[i];
            r.push(GridIdEntry { id: e.id, name: e.name.clone(), grid_id: e.grid_id });
            assert(records_view(r@) =~= records_view(prev).push(record_of(self.entries@[i as int])));
            i += 1;
            assert(records_view(r@) =~= records_view(self.entries@).take(i as int));
        }
        assert(records_view(self.entries@).take(i as int) =~= records_view(self.entries@));
        r
    }

    /// A cache restored from persisted entries; of several entries for one
    /// game the last one counts.
    pub fn from_records(records: &Vec<GridIdEntry>) -> (r: GridIdCache)
        ensures
            r.wf(),
            r@ == record_map(records_view(records@)),
    {
        let mut c = GridIdCache::new();
        let ghost input = records_view(records@);
        let mut i: usize = 0;
        while i < records.len()
            invariant
                i <= records.len(),
                input == records_view(records@),
                c.wf(),
                c@ == record_map(input.take(i as int)),
            decreases records.len() - i,
        {
            assert(input.take(i as int + 1).drop_last() =~= input.take(i as int));
            let e = &records[i];
            c.store(e.id, e.name.as_str(), e.grid_id);
            i += 1;
        }
        assert(input.take(i as int) =~= input);
        c
    }
}

/// A correction by hand survives a restart: `set(id, name, grid_id)` on
/// `before` gives `after`; `after.records()` gives the persisted entries; a
/// cache restored from them by `from_records` answers `lookup(id)` with
/// `grid_id`, with no search.
pub proof fn lemma_set_survives_restart(
    before: GridIdCache,
    id: u32,
    name: Seq<char>,
    grid_id: usize,
    after: GridIdCache,
    persisted: Seq<GridIdEntry>,
    restored: GridIdCache,
)
    requires
        after@ == before@.insert(id, (name, Some(grid_id))),
        record_map(records_view(persisted)) == after@,
        restored@ == record_map(records_view(persisted)),
    ensures
        cached(restored@, id) == Some(Some(grid_id)),
        restored@[id].0 == name,
{
}

} // verus!
