use vstd::prelude::*;

use crate::artwork::{artwork_complete, has_all_artwork};
use crate::platform::PlatformType;
use crate::shortcut::{ShortcutInfo, ShortcutView};

verus! {

/// A discovered game or a shortcut, tagged with the launcher it belongs to.
pub type Entry = (PlatformType, ShortcutView);

pub open spec fn entries_view(s: Seq<(PlatformType, ShortcutInfo)>) -> Seq<Entry> {
    s.map_values(|x: (PlatformType, ShortcutInfo)| (x.0, x.1@))
}

pub open spec fn shortcuts_view(s: Seq<ShortcutInfo>) -> Seq<ShortcutView> {
    s.map_values(|x: ShortcutInfo| x@)
}

pub open spec fn ids_of(s: Seq<Entry>) -> Seq<u32> {
    s.map_values(|e: Entry| e.1.app_id)
}

pub open spec fn view_ids(s: Seq<ShortcutView>) -> Seq<u32> {
    s.map_values(|e: ShortcutView| e.app_id)
}

/// Each id maps to the last entry that carries it.
pub open spec fn last_write(s: Seq<Entry>) -> Map<u32, Entry>
    decreases s.len(),
{
    if s.len() == 0 {
        Map::empty()
    } else {
        last_write(s.drop_last()).insert(s.last().1.app_id, s.last())
    }
}

/// The distinct ids of `s`, in the order of their first appearance.
pub open spec fn first_order(s: Seq<Entry>) -> Seq<u32>
    decreases s.len(),
{
    if s.len() == 0 {
        seq![]
    } else {
        let p = first_order(s.drop_last());
        if p.contains(s.last().1.app_id) {
            p
        } else {
            p.push(s.last().1.app_id)
        }
    }
}

pub open spec fn unique_ids(s: Seq<Entry>) -> bool {
    forall|i: int, j: int|
        0 <= i < s.len() && 0 <= j < s.len() && i != j ==> s[i].1.app_id != s[j].1.app_id
}

proof fn lemma_last_write_domain(s: Seq<Entry>, id: u32)
    ensures
        last_write(s).contains_key(id) <==> ids_of(s).contains(id),
        last_write(s).contains_key(id) ==> last_write(s)[id].1.app_id == id,
    decreases s.len(),
{
    if s.len() > 0 {
        lemma_last_write_domain(s.drop_last(), id);
        assert(ids_of(s.drop_last()) =~= ids_of(s).drop_last());
        if ids_of(s).contains(id) && id != s.last().1.app_id {
            let k = choose|k: int| 0 <= k < ids_of(s).len() && ids_of(s)[k] == id;
            assert(k != s.len() - 1);
            assert(ids_of(s.drop_last())[k] == id);
        }
        if ids_of(s.drop_last()).contains(id) {
            let k = choose|k: int| 0 <= k < ids_of(s.drop_last()).len() && ids_of(s.drop_last())[k] == id;
            assert(ids_of(s)[k] == id);
        }
        if id == s.last().1.app_id {
            assert(ids_of(s)[s.len() - 1] == id);
        }
    }
}

proof fn lemma_last_write_unique(s: Seq<Entry>, i: int)
    requires
        unique_ids(s),
        0 <= i < s.len(),
    ensures
        last_write(s).contains_key(s[i].1.app_id),
        last_write(s)[s[i].1.app_id] == s[i],
    decreases s.len(),
{
    if i < s.len() - 1 {
        lemma_last_write_unique(s.drop_last(), i);
    }
}

proof fn lemma_last_write_update(s: Seq<Entry>, j: int, e: Entry)
    requires
        unique_ids(s),
        0 <= j < s.len(),
        e.1.app_id == s[j].1.app_id,
    ensures
        last_write(s.update(j, e)) == last_write(s).insert(e.1.app_id, e),
    decreases s.len(),
{
    let t = s.update(j, e);
    if j == s.len() - 1 {
        assert(t.drop_last() =~= s.drop_last());
        assert(last_write(t) =~= last_write(s).insert(e.1.app_id, e));
    } else {
        assert(t.drop_last() =~= s.drop_last().update(j, e));
        lemma_last_write_update(s.drop_last(), j, e);
        assert(s.last().1.app_id != e.1.app_id);
        assert(last_write(t) =~= last_write(s).insert(e.1.app_id, e));
    }
}

/// The games of `s`, one per id: ids in the order of their first
/// appearance, each with the last entry that carries it.
pub open spec fn indexed(s: Seq<Entry>) -> Seq<Entry> {
    first_order(s).map_values(|id: u32| last_write(s)[id])
}

/// The discovered games, one entry per id.
pub struct IdentityIndex {
    discovered: Vec<(PlatformType, ShortcutInfo)>,
}

impl IdentityIndex {
    pub closed spec fn entries(&self) -> Seq<Entry> {
        entries_view(self.discovered@)
    }

    pub closed spec fn wf(&self) -> bool {
        unique_ids(self.entries())
    }

    /// The games by id.
    pub open spec fn by_id(&self) -> Map<u32, Entry> {
        last_write(self.entries())
    }

    /// Indexes the games that the launchers reported, in order. Where two
    /// report the same id, the later one wins; ids keep the position of their
    /// first report.
    pub fn build(discovered: &Vec<(PlatformType, ShortcutInfo)>) -> (r: IdentityIndex)
        ensures
            r.wf(),
            r.by_id() == last_write(entries_view(discovered@)),
            ids_of(r.entries()) == first_order(entries_view(discovered@)),
            r.entries() == indexed(entries_view(discovered@)),
    {
        let ghost input = entries_view(discovered@);
        let mut out: Vec<(PlatformType, ShortcutInfo)> = Vec::new();
        let mut i: usize = 0;
        while i < discovered.len()
            invariant
                i <= discovered.len(),
                input == entries_view(discovered@),
                unique_ids(entries_view(out@)),
                last_write(entries_view(out@)) == last_write(input.take(i as int)),
                ids_of(entries_view(out@)) == first_order(input.take(i as int)),
            decreases discovered.len() - i,
        {
            let ghost d = entries_view(out@);
            let ghost e = input[i as int];
            assert(input.take(i as int + 1).drop_last() =~= input.take(i as int));
            assert(input.take(i as int + 1).last() == e);
            let (p, g) = &discovered[i];
            let item = (*p, g.cloned());
            let pos = position_of(&out, g.app_id);
            match pos {
                Some(j) => {
                    out.set(j, item);
                    assert(entries_view(out@) =~= d.update(j as int, e));
                    proof {
                        lemma_last_write_update(d, j as int, e);
                        assert(ids_of(entries_view(out@)) =~= ids_of(d));
                        assert(ids_of(d)[j as int] == e.1.app_id);
                    }
                },
                None => {
                    out.push(item);
                    assert(entries_view(out@) =~= d.push(e));
                    assert(entries_view(out@).drop_last() =~= d);
                    assert(ids_of(entries_view(out@)) =~= ids_of(d).push(e.1.app_id));
                    assert forall|a: int| 0 <= a < d.len() implies d[a].1.app_id != e.1.app_id by {
                        assert(ids_of(d)[a] == d[a].1.app_id);
                    }
                },
            }
            i += 1;
        }
        assert(input.take(i as int) =~= input);
        proof {
            let d = entries_view(out@);
            assert forall|k: int| 0 <= k < d.len() implies d[k] == indexed(input)[k] by {
                lemma_last_write_unique(d, k);
                assert(ids_of(d)[k] == d[k].1.app_id);
            }
            assert(d =~= indexed(input));
        }
        IdentityIndex { discovered: out }
    }

    /// The position of the game with id `id`, if any.
    pub fn find(&self, id: u32) -> (r: Option<usize>)
        ensures
            r.is_none() <==> !ids_of(self.entries()).contains(id),
            r.is_some() ==> r.unwrap() < self.entries().len() && self.entries()[r.unwrap() as int].1.app_id
                == id,
    {
        position_of(&self.discovered, id)
    }
}

fn position_of(v: &Vec<(PlatformType, ShortcutInfo)>, id: u32) -> (r: Option<usize>)
    ensures
        r.is_none() <==> !ids_of(entries_view(v@)).contains(id),
        r.is_some() ==> r.unwrap() < v@.len() && v@[r.unwrap() as int].1.app_id == id,
{
    let ghost ids = ids_of(entries_view(v@));
    let mut i: usize = 0;
    while i < v.len()
        invariant
            i <= v.len(),
            ids == ids_of(entries_view(v@)),
            forall|k: int| 0 <= k < i ==> ids[k] != id,
        decreases v.len() - i,
    {
        if v[i].1.app_id == id {
            assert(ids[i as int] == id);
            return Some(i);
        }
        i += 1;
    }
    proof {
        if ids.contains(id) {
            let k = choose|k: int| 0 <= k < ids.len() && ids[k] == id;
            assert(ids[k] != id);
        }
    }
    None
}

/// Whether `v` holds `x`.
pub fn contains_u32(v: &Vec<u32>, x: u32) -> (r: bool)
    ensures
        r == v@.contains(x),
{
    let mut i: usize = 0;
    while i < v.len()
        invariant
            i <= v.len(),
            forall|k: int| 0 <= k < i ==> v@[k] != x,
        decreases v.len() - i,
    {
        if v[i] == x {
            return true;
        }
        i += 1;
    }
    false
}

/// The five action lists of one reconciliation pass.
pub struct SyncActions<T> {
    pub add: Vec<T>,
    pub image_download: Vec<T>,
    pub update: Vec<T>,
    pub delete: Vec<T>,
    pub none: Vec<T>,
}

impl<T> SyncActions<T> {
    /// Empty action lists.
    pub fn new() -> (r: SyncActions<T>)
        ensures
            r.add@.len() == 0,
            r.image_download@.len() == 0,
            r.update@.len() == 0,
            r.delete@.len() == 0,
            r.none@.len() == 0,
    {
        SyncActions {
            add: Vec::new(),
            update: Vec::new(),
            image_download: Vec::new(),
            delete: Vec::new(),
            none: Vec::new(),
        }
    }
}

/// The list of a reconciliation result that an entry goes to.
#[derive(Clone, Copy, Debug, PartialEq, Eq, Structural)]
pub enum Bucket {
    Add,
    Update,
    Delete,
    ImageDownload,
    Unchanged,
}

/// The target or the launch options of a shortcut differ from the game's.
pub open spec fn launch_changed(game: ShortcutView, existing: ShortcutView) -> bool {
    game.exe != existing.exe || game.launch_options != existing.launch_options
}

/// Some shortcut among `all` with id `id` has a target or launch options
/// that differ from those of `game`.
pub open spec fn some_changed(game: ShortcutView, all: Seq<ShortcutView>, id: u32) -> bool {
    exists|k: int| 0 <= k < all.len() && all[k].app_id == id && launch_changed(game, all[k])
}

/// Where the existing shortcuts with id `id` go, given the discovered games,
/// all existing shortcuts and the artwork files that are present. All
/// shortcuts of one id go to the same list: to `Update` as soon as one of
/// them differs from the discovered game.
pub open spec fn classify(
    disc: Map<u32, Entry>,
    keys: Seq<Seq<char>>,
    all: Seq<ShortcutView>,
    id: u32,
) -> Bucket {
    if !disc.contains_key(id) {
        Bucket::Delete
    } else if some_changed(disc[id].1, all, id) {
        Bucket::Update
    } else if !has_all_artwork(id, keys) {
        Bucket::ImageDownload
    } else {
        Bucket::Unchanged
    }
}

/// What an existing shortcut contributes to its list: an update carries the
/// discovered game, a deletion the shortcut under an unknown launcher, and the
/// others the shortcut under the launcher that reported it.
pub open spec fn bucket_entry(disc: Map<u32, Entry>, e: ShortcutView, b: Bucket) -> Entry {
    match b {
        Bucket::Delete => (PlatformType::Unknown, e),
        Bucket::Update => disc[e.app_id],
        _ => (disc[e.app_id].0, e),
    }
}

/// The discovered games that have no shortcut yet, in index order.
pub open spec fn add_bucket(d: Seq<Entry>, existing_ids: Seq<u32>) -> Seq<Entry>
    decreases d.len(),
{
    if d.len() == 0 {
        seq![]
    } else {
        let prev = add_bucket(d.drop_last(), existing_ids);
        if existing_ids.contains(d.last().1.app_id) {
            prev
        } else {
            prev.push(d.last())
        }
    }
}

/// The shortcuts of `s` that go to `b`, each on its own, in their order;
/// `all` is the whole list of existing shortcuts.
pub open spec fn existing_bucket(
    disc: Map<u32, Entry>,
    keys: Seq<Seq<char>>,
    all: Seq<ShortcutView>,
    s: Seq<ShortcutView>,
    b: Bucket,
) -> Seq<Entry>
    decreases s.len(),
{
    if s.len() == 0 {
        seq![]
    } else {
        let prev = existing_bucket(disc, keys, all, s.drop_last(), b);
        let e = s.last();
        if classify(disc, keys, all, e.app_id) == b {
            prev.push(bucket_entry(disc, e, b))
        } else {
            prev
        }
    }
}

/// The list `b` of the reconciliation of the indexed games `d` with the
/// existing shortcuts `existing`, where `keys` names the artwork present.
pub open spec fn reconciled(
    d: Seq<Entry>,
    existing: Seq<ShortcutView>,
    keys: Seq<Seq<char>>,
    b: Bucket,
) -> Seq<Entry> {
    if b == Bucket::Add {
        add_bucket(d, view_ids(existing))
    } else {
        existing_bucket(last_write(d), keys, existing, existing, b)
    }
}

pub open spec fn keys_view(keys: Seq<String>) -> Seq<Seq<char>> {
    keys.map_values(|s: String| s@)
}

/// The view of each list of `r`.
pub open spec fn actions_view(r: SyncActions<(PlatformType, ShortcutInfo)>) -> Map<Bucket, Seq<Entry>> {
    Map::new(
        |b: Bucket| true,
        |b: Bucket|
            match b {
                Bucket::Add => entries_view(r.add@),
                Bucket::Update => entries_view(r.update@),
                Bucket::Delete => entries_view(r.delete@),
                Bucket::ImageDownload => entries_view(r.image_download@),
                Bucket::Unchanged => entries_view(r.none@),
            },
    )
}

/// `r` holds, list by list, the reconciliation of `d` with `existing`.
pub open spec fn is_reconciliation(
    r: SyncActions<(PlatformType, ShortcutInfo)>,
    d: Seq<Entry>,
    existing: Seq<ShortcutView>,
    keys: Seq<Seq<char>>,
) -> bool {
    forall|b: Bucket| #[trigger] actions_view(r)[b] == reconciled(d, existing, keys, b)
}

/// Whether a shortcut of `existing` with id `id` differs from `game` in
/// target or launch options.
fn any_changed(existing: &Vec<ShortcutInfo>, game: &ShortcutInfo, id: u32) -> (r: bool)
    ensures
        r == some_changed(game@, shortcuts_view(existing@), id),
{
    let ghost all = shortcuts_view(existing@);
    let mut i: usize = 0;
    while i < existing.len()
        invariant
            i <= existing.len(),
            all == shortcuts_view(existing@),
            forall|k: int| 0 <= k < i ==> !(all[k].app_id == id && launch_changed(game@, all[k])),
        decreases existing.len() - i,
    {
        let s = &existing[i];
        if s.app_id == id && (game.exe != s.exe || game.launch_options != s.launch_options) {
            assert(all[i as int].app_id == id && launch_changed(game@, all[i as int]));
            return true;
        }
        i += 1;
    }
    false
}

/// Sorts the discovered games and the existing shortcuts into the actions
/// that bring the shortcuts in line with the games. `known_artwork` holds the
/// names, without extension, of the artwork files present. Every existing
/// shortcut is listed, duplicates of one id included, all in the same list.
pub fn reconcile(
    index: &IdentityIndex,
    existing: &Vec<ShortcutInfo>,
    known_artwork: &Vec<String>,
) -> (r: SyncActions<(PlatformType, ShortcutInfo)>)
    requires
        index.wf(),
    ensures
        is_reconciliation(r, index.entries(), shortcuts_view(existing@), keys_view(known_artwork@)),
{
    let ghost d = index.entries();
    let ghost disc = last_write(d);
    let ghost ex = shortcuts_view(existing@);
    let ghost keys = keys_view(known_artwork@);
    let mut actions: SyncActions<(PlatformType, ShortcutInfo)> = SyncActions::new();

    let mut existing_ids: Vec<u32> = Vec::new();
    let mut i: usize = 0;
    while i < existing.len()
        invariant
            i <= existing.len(),
            ex == shortcuts_view(existing@),
            existing_ids@ == view_ids(ex.take(i as int)),
        decreases existing.len() - i,
    {
        existing_ids.push(existing[i].app_id);
        i += 1;
        assert(existing_ids@ =~= view_ids(ex.take(i as int)));
    }
    assert(ex.take(i as int) =~= ex);

    let mut i: usize = 0;
    while i < index.discovered.len()
        invariant
            i <= index.discovered.len(),
            d == index.entries(),
            existing_ids@ == view_ids(ex),
            entries_view(actions.add@) == add_bucket(d.take(i as int), view_ids(ex)),
            actions.update@.len() == 0,
            actions.delete@.len() == 0,
            actions.image_download@.len() == 0,
            actions.none@.len() == 0,
        decreases index.discovered.len() - i,
    {
        let ghost before = actions.add@;
        assert(d.take(i as int + 1).drop_last() =~= d.take(i as int));
        let (p, g) = &index.discovered[i];
        if !contains_u32(&existing_ids, g.app_id) {
            actions.add.push((*p, g.cloned()));
            assert(entries_view(actions.add@) =~= entries_view(before).push(d[i as int]));
        }
        i += 1;
    }
    assert(d.take(i as int) =~= d);

    let mut i: usize = 0;
    while i < existing.len()
        invariant
            i <= existing.len(),
            index.wf(),
            d == index.entries(),
            disc == last_write(d),
            ex == shortcuts_view(existing@),
            keys == keys_view(known_artwork@),
            entries_view(actions.add@) == add_bucket(d, view_ids(ex)),
            entries_view(actions.update@) == existing_bucket(disc, keys, ex, ex.take(i as int), Bucket::Update),
            entries_view(actions.delete@) == existing_bucket(disc, keys, ex, ex.take(i as int), Bucket::Delete),
            entries_view(actions.image_download@) == existing_bucket(
                disc,
                keys,
                ex,
                ex.take(i as int),
                Bucket::ImageDownload,
            ),
            entries_view(actions.none@) == existing_bucket(disc, keys, ex, ex.take(i as int), Bucket::Unchanged),
        decreases existing.len() - i,
    {
        let ghost t = ex.take(i as int + 1);
        let ghost e = ex[i as int];
        assert(t.drop_last() =~= ex.take(i as int));
        assert(t.last() == e);
        let ghost up = actions.update@;
        let ghost de = actions.delete@;
        let ghost im = actions.image_download@;
        let ghost no = actions.none@;
        let s = &existing[i];
        match index.find(s.app_id) {
            None => {
                proof {
                    lemma_last_write_domain(d, s.app_id);
                }
                actions.delete.push((PlatformType::Unknown, s.cloned()));
                assert(entries_view(actions.delete@) =~= entries_view(de).push(
                    bucket_entry(disc, e, Bucket::Delete),
                ));
            },
            Some(j) => {
                proof {
                    lemma_last_write_unique(d, j as int);
                }
                let (p, g) = &index.discovered[j];
                if any_changed(existing, g, s.app_id) {
                    actions.update.push((*p, g.cloned()));
                    assert(entries_view(actions.update@) =~= entries_view(up).push(
                        bucket_entry(disc, e, Bucket::Update),
                    ));
                } else if !artwork_complete(s.app_id, known_artwork) {
                    actions.image_download.push((*p, s.cloned()));
                    assert(entries_view(actions.image_download@) =~= entries_view(im).push(
                        bucket_entry(disc, e, Bucket::ImageDownload),
                    ));
                } else {
                    actions.none.push((*p, s.cloned()));
                    assert(entries_view(actions.none@) =~= entries_view(no).push(
                        bucket_entry(disc, e, Bucket::Unchanged),
                    ));
                }
            },
        }
        i += 1;
    }
    assert(ex.take(i as int) =~= ex);
    assert forall|b: Bucket| #[trigger] actions_view(actions)[b] == reconciled(d, ex, keys, b) by {
        match b {
            Bucket::Add => {},
            Bucket::Update => {},
            Bucket::Delete => {},
            Bucket::ImageDownload => {},
            Bucket::Unchanged => {},
        }
    }
    actions
}

proof fn lemma_view_ids_drop_last(s: Seq<ShortcutView>, id: u32)
    requires
        s.len() > 0,
    ensures
        view_ids(s).contains(id) <==> (view_ids(s.drop_last()).contains(id) || s.last().app_id == id),
{
    assert(view_ids(s.drop_last()) =~= view_ids(s).drop_last());
    if view_ids(s).contains(id) && s.last().app_id != id {
        let k = choose|k: int| 0 <= k < view_ids(s).len() && view_ids(s)[k] == id;
        assert(view_ids(s.drop_last())[k] == id);
    }
    if view_ids(s.drop_last()).contains(id) {
        let k = choose|k: int| 0 <= k < view_ids(s.drop_last()).len() && view_ids(s.drop_last())[k] == id;
        assert(view_ids(s)[k] == id);
    }
    if s.last().app_id == id {
        assert(view_ids(s)[s.len() - 1] == id);
    }
}

proof fn lemma_ids_push(s: Seq<Entry>, e: Entry, id: u32)
    ensures
        ids_of(s.push(e)).contains(id) <==> (ids_of(s).contains(id) || e.1.app_id == id),
{
    assert(ids_of(s.push(e)) =~= ids_of(s).push(e.1.app_id));
    if ids_of(s).contains(id) {
        let k = choose|k: int| 0 <= k < ids_of(s).len() && ids_of(s)[k] == id;
        assert(ids_of(s.push(e))[k] == id);
    }
    if ids_of(s.push(e)).contains(id) && e.1.app_id != id {
        let k = choose|k: int| 0 <= k < ids_of(s.push(e)).len() && ids_of(s.push(e))[k] == id;
        assert(ids_of(s)[k] == id);
    }
    if e.1.app_id == id {
        assert(ids_of(s.push(e))[s.len() as int] == id);
    }
}

proof fn lemma_add_bucket_ids(d: Seq<Entry>, existing_ids: Seq<u32>, id: u32)
    ensures
        ids_of(add_bucket(d, existing_ids)).contains(id) <==> (ids_of(d).contains(id)
            && !existing_ids.contains(id)),
    decreases d.len(),
{
    if d.len() > 0 {
        lemma_add_bucket_ids(d.drop_last(), existing_ids, id);
        lemma_ids_push(d.drop_last(), d.last(), id);
        assert(d.drop_last().push(d.last()) =~= d);
        lemma_ids_push(add_bucket(d.drop_last(), existing_ids), d.last(), id);
    }
}

proof fn lemma_existing_bucket_ids(
    disc: Map<u32, Entry>,
    keys: Seq<Seq<char>>,
    all: Seq<ShortcutView>,
    s: Seq<ShortcutView>,
    b: Bucket,
    id: u32,
)
    requires
        forall|k: u32| #[trigger] disc.contains_key(k) ==> disc[k].1.app_id == k,
    ensures
        ids_of(existing_bucket(disc, keys, all, s, b)).contains(id) <==> (view_ids(s).contains(id)
            && classify(disc, keys, all, id) == b),
    decreases s.len(),
{
    if s.len() > 0 {
        let prev = existing_bucket(disc, keys, all, s.drop_last(), b);
        let e = s.last();
        lemma_existing_bucket_ids(disc, keys, all, s.drop_last(), b, id);
        lemma_view_ids_drop_last(s, id);
        lemma_ids_push(prev, bucket_entry(disc, e, b), id);
        if classify(disc, keys, all, e.app_id) == b && b == Bucket::Update {
            assert(disc.contains_key(e.app_id));
        }
    }
}

/// The list `b` of a reconciliation holds an entry with id `id`.
pub open spec fn in_bucket(
    d: Seq<Entry>,
    existing: Seq<ShortcutView>,
    keys: Seq<Seq<char>>,
    b: Bucket,
    id: u32,
) -> bool {
    ids_of(reconciled(d, existing, keys, b)).contains(id)
}

/// The five lists of a reconciliation never share an id, and together they
/// hold exactly the ids of the discovered games and of the existing
/// shortcuts.
pub proof fn lemma_partition(d: Seq<Entry>, existing: Seq<ShortcutView>, keys: Seq<Seq<char>>)
    ensures
        forall|id: u32, b1: Bucket, b2: Bucket|
            #[trigger] in_bucket(d, existing, keys, b1, id) && #[trigger] in_bucket(d, existing, keys, b2, id) ==> b1 == b2,
        forall|id: u32|
            (ids_of(d).contains(id) || view_ids(existing).contains(id)) <==> exists|b: Bucket|
                #[trigger] in_bucket(d, existing, keys, b, id),
{
    let disc = last_write(d);
    assert forall|k: u32| #[trigger] disc.contains_key(k) implies disc[k].1.app_id == k by {
        lemma_last_write_domain(d, k);
    }
    assert forall|id: u32, b1: Bucket, b2: Bucket|
        #[trigger] in_bucket(d, existing, keys, b1, id) && #[trigger] in_bucket(d, existing, keys, b2, id) implies b1 == b2 by {
        lemma_add_bucket_ids(d, view_ids(existing), id);
        lemma_existing_bucket_ids(disc, keys, existing, existing, b1, id);
        lemma_existing_bucket_ids(disc, keys, existing, existing, b2, id);
    }
    assert forall|id: u32|
        (ids_of(d).contains(id) || view_ids(existing).contains(id)) <==> exists|b: Bucket|
            #[trigger] in_bucket(d, existing, keys, b, id) by {
        lemma_add_bucket_ids(d, view_ids(existing), id);
        lemma_existing_bucket_ids(disc, keys, existing, existing, Bucket::Update, id);
        lemma_existing_bucket_ids(disc, keys, existing, existing, Bucket::Delete, id);
        lemma_existing_bucket_ids(disc, keys, existing, existing, Bucket::ImageDownload, id);
        lemma_existing_bucket_ids(disc, keys, existing, existing, Bucket::Unchanged, id);
        if view_ids(existing).contains(id) {
            let b = classify(disc, keys, existing, id);
            assert(in_bucket(d, existing, keys, b, id));
        } else if ids_of(d).contains(id) {
            assert(in_bucket(d, existing, keys, Bucket::Add, id));
        }
        if exists|b: Bucket| #[trigger] in_bucket(d, existing, keys, b, id) {
            let b = choose|b: Bucket| #[trigger] in_bucket(d, existing, keys, b, id);
            if b != Bucket::Add {
                lemma_existing_bucket_ids(disc, keys, existing, existing, b, id);
            }
        }
    }
}

/// Indexes the games that the launchers reported and reconciles them with
/// the existing shortcuts.
pub fn get_sync_actions(
    discovered: &Vec<(PlatformType, ShortcutInfo)>,
    existing: &Vec<ShortcutInfo>,
    known_artwork: &Vec<String>,
) -> (r: SyncActions<(PlatformType, ShortcutInfo)>)
    ensures
        is_reconciliation(
            r,
            indexed(entries_view(discovered@)),
            shortcuts_view(existing@),
            keys_view(known_artwork@),
        ),
{
    let index = IdentityIndex::build(discovered);
    reconcile(&index, existing, known_artwork)
}

/// Reconciling the same games, shortcuts and artwork twice gives the same
/// lists, entry for entry.
pub proof fn lemma_reconcile_deterministic(
    d: Seq<Entry>,
    existing: Seq<ShortcutView>,
    keys: Seq<Seq<char>>,
    r1: SyncActions<(PlatformType, ShortcutInfo)>,
    r2: SyncActions<(PlatformType, ShortcutInfo)>,
)
    requires
        is_reconciliation(r1, d, existing, keys),
        is_reconciliation(r2, d, existing, keys),
    ensures
        actions_view(r1) == actions_view(r2),
        entries_view(r1.add@) == entries_view(r2.add@),
        entries_view(r1.update@) == entries_view(r2.update@),
        entries_view(r1.delete@) == entries_view(r2.delete@),
        entries_view(r1.image_download@) == entries_view(r2.image_download@),
        entries_view(r1.none@) == entries_view(r2.none@),
{
    assert(actions_view(r1) =~= actions_view(r2));
    assert(actions_view(r1)[Bucket::Add] == actions_view(r2)[Bucket::Add]);
    assert(actions_view(r1)[Bucket::Update] == actions_view(r2)[Bucket::Update]);
    assert(actions_view(r1)[Bucket::Delete] == actions_view(r2)[Bucket::Delete]);
    assert(actions_view(r1)[Bucket::ImageDownload] == actions_view(r2)[Bucket::ImageDownload]);
    assert(actions_view(r1)[Bucket::Unchanged] == actions_view(r2)[Bucket::Unchanged]);
}

} // verus!
