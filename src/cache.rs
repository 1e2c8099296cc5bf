use vstd::prelude::*;

use dashmap::DashMap;
use std::collections::hash_map::RandomState;

verus! {

#[verifier::external_type_specification]
#[verifier::external_body]
#[verifier::reject_recursive_types(K)]
#[verifier::reject_recursive_types(V)]
#[verifier::reject_recursive_types(S)]
pub struct ExDashMap<K, V, S>(DashMap<K, V, S>);

/// Where the artwork of one slot stands.
#[derive(Clone, Copy, Debug, PartialEq, Eq, Structural)]
pub enum TextureState {
    /// A fetch is in flight.
    Downloading,
    /// The bytes are on disk and not yet decoded.
    Downloaded,
    /// The bytes were decoded and can be shown.
    Loaded,
    /// The fetch or the decoding failed; only a `clear` leaves this state.
    Failed,
}

/// What a `request` asks of its caller.
#[derive(Clone, Copy, Debug, PartialEq, Eq, Structural)]
pub enum RequestOutcome {
    /// The slot was already known: nothing to do.
    Known,
    /// The caller must fetch the artwork and then call `finish_download`.
    Fetch,
    /// The file on disk is used as it is.
    OnDisk,
}

/// A cache that knows no slot.
pub open spec fn no_slots() -> Map<Seq<char>, TextureState> {
    Map::empty()
}

/// What the map of the cache holds: slot key to state.
pub uninterp spec fn dash_contents(m: DashMap<String, TextureState, RandomState>) -> Map<Seq<char>, TextureState>;

/// Relies on `DashMap::new`: a map with no entries.
#[verifier::external_body]
fn dash_new() -> (r: DashMap<String, TextureState, RandomState>)
    ensures
        dash_contents(r) == no_slots(),
{
    DashMap::new()
}

/// Relies on `DashMap::get`: the value stored under the key, if any.
#[verifier::external_body]
fn dash_get(m: &DashMap<String, TextureState, RandomState>, k: &String) -> (r: Option<TextureState>)
    ensures
        r == (if dash_contents(*m).contains_key(k@) {
            Some(dash_contents(*m)[k@])
        } else {
            None
        }),
{
    m.get(k).map(|v| *v.value())
}

/// Relies on `DashMap::insert`: the key now maps to the value, the other
/// entries stay.
#[verifier::external_body]
fn dash_insert(m: &mut DashMap<String, TextureState, RandomState>, k: String, v: TextureState)
    ensures
        dash_contents(*final(m)) == dash_contents(*old(m)).insert(k@, v),
{
    m.insert(k, v);
}

/// Relies on `DashMap::remove`: the key no longer has an entry, the other
/// entries stay.
#[verifier::external_body]
fn dash_remove(m: &mut DashMap<String, TextureState, RandomState>, k: &String)
    ensures
        dash_contents(*final(m)) == dash_contents(*old(m)).remove(k@),
{
    m.remove(k);
}

/// Relies on `DashMap::clear`: no entries are left.
#[verifier::external_body]
fn dash_clear(m: &mut DashMap<String, TextureState, RandomState>)
    ensures
        dash_contents(*final(m)) == no_slots(),
{
    m.clear();
}

/// A file of `size` bytes, or no file, must be fetched again: a file smaller
/// than `min_valid_size` counts as corrupt.
pub open spec fn needs_fetch_spec(size: Option<u64>, min_valid_size: u64) -> bool {
    match size {
        None => true,
        Some(n) => n < min_valid_size,
    }
}

/// Whether an artifact with `size` bytes on disk (`None`: no file) must be
/// fetched again.
pub fn needs_fetch(size: Option<u64>, min_valid_size: u64) -> (r: bool)
    ensures
        r == needs_fetch_spec(size, min_valid_size),
{
    match size {
        None => true,
        Some(n) => n < min_valid_size,
    }
}

/// One `request` of the slot `k`, where the file on disk has `size` bytes.
pub open spec fn request_step(
    m: Map<Seq<char>, TextureState>,
    k: Seq<char>,
    size: Option<u64>,
    min_valid_size: u64,
) -> (Map<Seq<char>, TextureState>, RequestOutcome) {
    if m.contains_key(k) {
        (m, RequestOutcome::Known)
    } else if needs_fetch_spec(size, min_valid_size) {
        (m.insert(k, TextureState::Downloading), RequestOutcome::Fetch)
    } else {
        (m.insert(k, TextureState::Downloaded), RequestOutcome::OnDisk)
    }
}

/// The state after a fetch of slot `k` ended, successfully or not.
pub open spec fn download_step(m: Map<Seq<char>, TextureState>, k: Seq<char>, ok: bool) -> Map<
    Seq<char>,
    TextureState,
> {
    if m.contains_key(k) && m[k] == TextureState::Downloading {
        m.insert(k, if ok { TextureState::Downloaded } else { TextureState::Failed })
    } else {
        m
    }
}

/// The state after the bytes of slot `k` were decoded, successfully or not.
pub open spec fn load_step(m: Map<Seq<char>, TextureState>, k: Seq<char>, ok: bool) -> Map<
    Seq<char>,
    TextureState,
> {
    if m.contains_key(k) && m[k] == TextureState::Downloaded {
        m.insert(k, if ok { TextureState::Loaded } else { TextureState::Failed })
    } else {
        m
    }
}

/// A keyed artwork cache with at most one fetch in flight per slot.
pub struct ImageCache {
    entries: DashMap<String, TextureState, RandomState>,
}

impl ImageCache {
    /// The state of each known slot.
    pub closed spec fn contents(&self) -> Map<Seq<char>, TextureState> {
        dash_contents(self.entries)
    }

    /// An empty cache.
    pub fn new() -> (r: ImageCache)
        ensures
            r.contents() == no_slots(),
    {
        ImageCache { entries: dash_new() }
    }

    /// The state of slot `key`, if it is known.
    pub fn observe(&self, key: &String) -> (r: Option<TextureState>)
        ensures
            r == (if self.contents().contains_key(key@) {
                Some(self.contents()[key@])
            } else {
                None
            }),
    {
        dash_get(&self.entries, key)
    }

    /// Asks for the artwork of slot `key`. A known slot is left alone. For an
    /// unknown one, a file on disk of `on_disk_size` bytes (`None`: no file) of
    /// at least `min_valid_size` bytes is taken as it is; otherwise the slot
    /// becomes `Downloading` and the caller is told to fetch.
    pub fn request(&mut self, key: &String, on_disk_size: Option<u64>, min_valid_size: u64) -> (r:
        RequestOutcome)
        ensures
            (final(self).contents(), r) == request_step(
                old(self).contents(),
                key@,
                on_disk_size,
                min_valid_size,
            ),
    {
        match dash_get(&self.entries, key) {
            Some(_) => RequestOutcome::Known,
            None => {
                if needs_fetch(on_disk_size, min_valid_size) {
                    dash_insert(&mut self.entries, key.clone(), TextureState::Downloading);
                    RequestOutcome::Fetch
                } else {
                    dash_insert(&mut self.entries, key.clone(), TextureState::Downloaded);
                    RequestOutcome::OnDisk
                }
            },
        }
    }

    /// Records the end of the fetch of slot `key`: `Downloading` becomes
    /// `Downloaded` when `ok`, `Failed` otherwise. A slot in another state, or
    /// cleared meanwhile, is left alone. A fetch that timed out is reported
    /// as failed.
    pub fn finish_download(&mut self, key: &String, ok: bool)
        ensures
            final(self).contents() == download_step(old(self).contents(), key@, ok),
    {
        if let Some(TextureState::Downloading) = dash_get(&self.entries, key) {
            let next = if ok {
                TextureState::Downloaded
            } else {
                TextureState::Failed
            };
            dash_insert(&mut self.entries, key.clone(), next);
        }
    }

    /// Records the decoding of slot `key`: `Downloaded` becomes `Loaded` when
    /// `ok`, `Failed` otherwise. A slot in another state is left alone.
    pub fn finish_load(&mut self, key: &String, ok: bool)
        ensures
            final(self).contents() == load_step(old(self).contents(), key@, ok),
    {
        if let Some(TextureState::Downloaded) = dash_get(&self.entries, key) {
            let next = if ok {
                TextureState::Loaded
            } else {
                TextureState::Failed
            };
            dash_insert(&mut self.entries, key.clone(), next);
        }
    }

    /// Forgets slot `key`, so that a later `request` fetches it again.
    pub fn clear(&mut self, key: &String)
        ensures
            final(self).contents() == old(self).contents().remove(key@),
    {
        dash_remove(&mut self.entries, key);
    }

    /// Forgets every slot.
    pub fn clear_all(&mut self)
        ensures
            final(self).contents() == no_slots(),
    {
        dash_clear(&mut self.entries);
    }

    /// Hands the state of slot `from` over to slot `to`, as when a chosen
    /// thumbnail stands in for the full image: `to` loses its old state, and
    /// takes that of `from` if it had one; `from` is forgotten (and so is a slot
    /// handed to itself).
    pub fn transfer(&mut self, from: &String, to: &String)
        ensures
            final(self).contents() == (if from@ != to@ && old(self).contents().contains_key(from@) {
                old(self).contents().remove(to@).remove(from@).insert(to@, old(self).contents()[from@])
            } else {
                old(self).contents().remove(to@).remove(from@)
            }),
    {
        dash_remove(&mut self.entries, to);
        let moved = dash_get(&self.entries, from);
        dash_remove(&mut self.entries, from);
        if let Some(state) = moved {
            dash_insert(&mut self.entries, to.clone(), state);
        }
    }
}

/// The state after `sizes.len()` requests of slot `k`, the `i`-th of which
/// found a file of `sizes[i]` bytes, and how many of them asked for a fetch.
pub open spec fn run_requests(
    m: Map<Seq<char>, TextureState>,
    k: Seq<char>,
    sizes: Seq<Option<u64>>,
    min_valid_size: u64,
) -> (Map<Seq<char>, TextureState>, nat)
    decreases sizes.len(),
{
    if sizes.len() == 0 {
        (m, 0)
    } else {
        let (m1, n1) = run_requests(m, k, sizes.drop_last(), min_valid_size);
        let (m2, o) = request_step(m1, k, sizes.last(), min_valid_size);
        (m2, n1 + if o == RequestOutcome::Fetch {
            1nat
        } else {
            0nat
        })
    }
}

/// However many times one slot is requested, at most one request asks for a
/// fetch: exactly one when the slot was unknown and the first request found
/// no usable file, none otherwise. Only the first request changes the cache.
pub proof fn lemma_single_flight(
    m: Map<Seq<char>, TextureState>,
    k: Seq<char>,
    sizes: Seq<Option<u64>>,
    min_valid_size: u64,
)
    requires
        sizes.len() > 0,
    ensures
        run_requests(m, k, sizes, min_valid_size).1 <= 1,
        run_requests(m, k, sizes, min_valid_size).1 == (if !m.contains_key(k) && needs_fetch_spec(
            sizes[0],
            min_valid_size,
        ) {
            1nat
        } else {
            0nat
        }),
        run_requests(m, k, sizes, min_valid_size).0 == request_step(
            m,
            k,
            sizes[0],
            min_valid_size,
        ).0,
        run_requests(m, k, sizes, min_valid_size).0.contains_key(k),
    decreases sizes.len(),
{
    let (m1, n1) = run_requests(m, k, sizes.drop_last(), min_valid_size);
    if sizes.len() > 1 {
        lemma_single_flight(m, k, sizes.drop_last(), min_valid_size);
        assert(sizes.drop_last()[0] == sizes[0]);
        assert(m1.contains_key(k));
        assert(request_step(m1, k, sizes.last(), min_valid_size) == (m1, RequestOutcome::Known));
    } else {
        assert(sizes.drop_last().len() == 0);
        assert(m1 == m && n1 == 0);
        assert(sizes.last() == sizes[0]);
    }
}

/// The end of a fetch is recorded once: a second report for the same slot
/// changes nothing, whatever it says.
pub proof fn lemma_download_recorded_once(
    m: Map<Seq<char>, TextureState>,
    k: Seq<char>,
    first: bool,
    second: bool,
)
    requires
        m.contains_key(k),
        m[k] == TextureState::Downloading,
    ensures
        download_step(download_step(m, k, first), k, second) == download_step(m, k, first),
{
}

/// Once a fetch has ended, a new request of the slot fetches nothing and
/// changes nothing; only after the slot is cleared does a request fetch
/// again, when no usable file is on disk.
pub proof fn lemma_no_refetch_until_cleared(
    m: Map<Seq<char>, TextureState>,
    k: Seq<char>,
    ok: bool,
    size: Option<u64>,
    min_valid_size: u64,
)
    requires
        m.contains_key(k),
    ensures
        request_step(download_step(m, k, ok), k, size, min_valid_size) == (
            download_step(m, k, ok),
            RequestOutcome::Known,
        ),
        needs_fetch_spec(size, min_valid_size) ==> request_step(
            download_step(m, k, ok).remove(k),
            k,
            size,
            min_valid_size,
        ).1 == RequestOutcome::Fetch,
{
}

} // verus!
