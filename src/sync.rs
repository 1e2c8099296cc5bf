use vstd::prelude::*;

use crate::platform::PlatformType;
use crate::reconcile::{entries_view, shortcuts_view, Entry, SyncActions};
use crate::shortcut::{ShortcutInfo, ShortcutView};

verus! {

/// The first entry of `s` with id `id`.
pub open spec fn find_entry(s: Seq<Entry>, id: u32) -> Option<Entry>
    decreases s.len(),
{
    if s.len() == 0 {
        None
    } else if s[0].1.app_id == id {
        Some(s[0])
    } else {
        find_entry(s.drop_first(), id)
    }
}

/// What becomes of one existing shortcut: dropped when deleted, replaced by
/// the first update for its id, else kept.
pub open spec fn applied_one(e: ShortcutView, delete: Seq<Entry>, update: Seq<Entry>) -> Seq<ShortcutView> {
    if find_entry(delete, e.app_id).is_some() {
        seq![]
    } else if find_entry(update, e.app_id).is_some() {
        seq![find_entry(update, e.app_id).unwrap().1]
    } else {
        seq![e]
    }
}

/// The existing shortcuts after the deletions and updates, in their order.
pub open spec fn applied_existing(ex: Seq<ShortcutView>, delete: Seq<Entry>, update: Seq<Entry>) -> Seq<
    ShortcutView,
>
    decreases ex.len(),
{
    if ex.len() == 0 {
        seq![]
    } else {
        applied_existing(ex.drop_last(), delete, update) + applied_one(ex.last(), delete, update)
    }
}

/// The shortcuts to write: the existing ones after deletions and updates,
/// then the added games.
pub open spec fn applied(ex: Seq<ShortcutView>, add: Seq<Entry>, delete: Seq<Entry>, update: Seq<Entry>) -> Seq<
    ShortcutView,
> {
    applied_existing(ex, delete, update) + add.map_values(|e: Entry| e.1)
}

proof fn lemma_find_entry_first(s: Seq<Entry>, id: u32, j: int)
    requires
        0 <= j < s.len(),
        s[j].1.app_id == id,
        forall|k: int| 0 <= k < j ==> s[k].1.app_id != id,
    ensures
        find_entry(s, id) == Some(s[j]),
    decreases s.len(),
{
    if j > 0 {
        lemma_find_entry_first(s.drop_first(), id, j - 1);
    }
}

proof fn lemma_find_entry_none(s: Seq<Entry>, id: u32)
    requires
        forall|k: int| 0 <= k < s.len() ==> s[k].1.app_id != id,
    ensures
        find_entry(s, id).is_none(),
    decreases s.len(),
{
    if s.len() > 0 {
        lemma_find_entry_none(s.drop_first(), id);
    }
}

fn find_first(v: &Vec<(PlatformType, ShortcutInfo)>, id: u32) -> (r: Option<usize>)
    ensures
        r.is_none() ==> find_entry(entries_view(v@), id).is_none(),
        r.is_some() ==> r.unwrap() < v@.len() && find_entry(entries_view(v@), id) == Some(
            entries_view(v@)[r.unwrap() as int],
        ),
{
    let ghost s = entries_view(v@);
    let mut i: usize = 0;
    while i < v.len()
        invariant
            i <= v.len(),
            s == entries_view(v@),
            forall|k: int| 0 <= k < i ==> s[k].1.app_id != id,
        decreases v.len() - i,
    {
        if v[i].1.app_id == id {
            proof {
                lemma_find_entry_first(s, id, i as int);
            }
            return Some(i);
        }
        i += 1;
    }
    proof {
        lemma_find_entry_none(s, id);
    }
    None
}

/// The shortcuts to write back after a reconciliation: each existing
/// shortcut is dropped when it is to be deleted, replaced by its update,
/// or kept; then the games to add follow, in order.
pub fn apply_actions(existing: &Vec<ShortcutInfo>, actions: &SyncActions<(PlatformType, ShortcutInfo)>) -> (r: Vec<
    ShortcutInfo,
>)
    ensures
        shortcuts_view(r@) == applied(
            shortcuts_view(existing@),
            entries_view(actions.add@),
            entries_view(actions.delete@),
            entries_view(actions.update@),
        ),
{
    let ghost ex = shortcuts_view(existing@);
    let ghost add = entries_view(actions.add@);
    let ghost del = entries_view(actions.delete@);
    let ghost upd = entries_view(actions.update@);
    let mut r: Vec<ShortcutInfo> = Vec::new();
    let mut i: usize = 0;
    while i < existing.len()
        invariant
            i <= existing.len(),
            ex == shortcuts_view(existing@),
            del == entries_view(actions.delete@),
            upd == entries_view(actions.update@),
            shortcuts_view(r@) == applied_existing(ex.take(i as int), del, upd),
        decreases existing.len() - i,
    {
        let ghost prev = r@;
        assert(ex.take(i as int + 1).drop_last() =~= ex.take(i as int));
        let e = &existing[i];
        if find_first(&actions.delete, e.app_id).is_some() {
            assert(shortcuts_view(r@) =~= shortcuts_view(prev) + applied_one(ex[i as int], del, upd));
        } else {
            match find_first(&actions.update, e.app_id) {
                Some(j) => {
                    r.push(actions.update[j].1.cloned());
                    assert(shortcuts_view(r@) =~= shortcuts_view(prev) + applied_one(ex[i as int], del, upd));
                },
                None => {
                    r.push(e.cloned());
                    assert(shortcuts_view(r@) =~= shortcuts_view(prev) + applied_one(ex[i as int], del, upd));
                },
            }
        }
        i += 1;
    }
    assert(ex.take(i as int) =~= ex);
    let ghost kept = r@;
    let mut k: usize = 0;
    while k < actions.add.len()
        invariant
            k <= actions.add.len(),
            add == entries_view(actions.add@),
            r@.len() == kept.len() + k,
            shortcuts_view(r@) == shortcuts_view(kept) + add.take(k as int).map_values(|e: Entry| e.1),
        decreases actions.add.len() - k,
    {
        let ghost prev = r@;
        r.push(actions.add[k].1.cloned());
        assert(shortcuts_view(r@) =~= shortcuts_view(prev).push(add[k as int].1));
        assert(add.take(k as int + 1).map_values(|e: Entry| e.1) =~= add.take(k as int).map_values(
            |e: Entry| e.1,
        ).push(add[k as int].1));
        k += 1;
    }
    assert(add.take(k as int) =~= add);
    r
}

} // verus!
