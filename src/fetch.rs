use vstd::prelude::*;

use crate::platform::PlatformType;
use crate::shortcut::ShortcutInfo;
use crate::reconcile::{entries_view, Entry};

verus! {

/// Where a background lookup stands.
pub enum FetchStatus<T> {
    NeedsFetched,
    Fetching,
    Fetched(T),
}

impl<T> FetchStatus<T> {
    /// The lookup is done.
    pub fn is_fetched(&self) -> (r: bool)
        ensures
            r == (self is Fetched),
    {
        match self {
            FetchStatus::NeedsFetched => false,
            FetchStatus::Fetching => false,
            FetchStatus::Fetched(_) => true,
        }
    }

    /// The lookup has not started yet.
    pub fn needs_fetching(&self) -> (r: bool)
        ensures
            r == (self is NeedsFetched),
    {
        match self {
            FetchStatus::NeedsFetched => true,
            FetchStatus::Fetching => false,
            FetchStatus::Fetched(_) => false,
        }
    }
}

/// Where the discovery of one launcher's games stands.
pub enum FetcStatus<T> {
    NeedsFetched,
    Fetching,
    Fetched(T),
}

impl<T> FetcStatus<T> {
    /// The discovery is done.
    pub fn is_some(&self) -> (r: bool)
        ensures
            r == (self is Fetched),
    {
        match self {
            FetcStatus::NeedsFetched => false,
            FetcStatus::Fetching => false,
            FetcStatus::Fetched(_) => true,
        }
    }
}

/// Every launcher's discovery is done.
pub fn all_ready<E>(games: &Vec<(PlatformType, FetcStatus<Result<Vec<ShortcutInfo>, E>>)>) -> (r: bool)
    ensures
        r == forall|i: int| 0 <= i < games@.len() ==> (#[trigger] games@[i]).1 is Fetched,
{
    let mut i: usize = 0;
    while i < games.len()
        invariant
            i <= games.len(),
            forall|k: int| 0 <= k < i ==> (#[trigger] games@[k]).1 is Fetched,
        decreases games.len() - i,
    {
        if !games[i].1.is_some() {
            return false;
        }
        i += 1;
    }
    true
}

/// The games that one discovery contributes: those it found, or none when it
/// is not done or failed.
pub open spec fn contributed<E>(p: PlatformType, s: FetcStatus<Result<Vec<ShortcutInfo>, E>>) -> Seq<Entry> {
    match s {
        FetcStatus::Fetched(Ok(games)) => games@.map_values(|g: ShortcutInfo| (p, g@)),
        _ => seq![],
    }
}

/// The games of all discoveries, launcher by launcher.
pub open spec fn all_contributed<E>(s: Seq<(PlatformType, FetcStatus<Result<Vec<ShortcutInfo>, E>>)>) -> Seq<Entry>
    decreases s.len(),
{
    if s.len() == 0 {
        seq![]
    } else {
        all_contributed(s.drop_last()) + contributed(s.last().0, s.last().1)
    }
}

/// The games found by the discoveries that are done, each tagged with its
/// launcher; a failed discovery contributes nothing and stops no other.
pub fn get_all_games<E>(games: &Vec<(PlatformType, FetcStatus<Result<Vec<ShortcutInfo>, E>>)>) -> (r: Vec<(PlatformType, ShortcutInfo)>)
    ensures
        entries_view(r@) == all_contributed(games@),
{
    let mut r: Vec<(PlatformType, ShortcutInfo)> = Vec::new();
    let mut i: usize = 0;
    while i < games.len()
        invariant
            i <= games.len(),
            entries_view(r@) == all_contributed(games@.take(i as int)),
        decreases games.len() - i,
    {
        assert(games@.take(i as int + 1).drop_last() =~= games@.take(i as int));
        let ghost before = entries_view(r@);
        let (p, status) = &games[i];
        if let FetcStatus::Fetched(Ok(found)) = status {
            let mut j: usize = 0;
            while j < found.len()
                invariant
                    j <= found.len(),
                    entries_view(r@) == before + found@.take(j as int).map_values(|g: ShortcutInfo| (*p, g@)),
                decreases found.len() - j,
            {
                let ghost prev = r@;
                r.push((*p, found[j].cloned()));
                assert(entries_view(r@) =~= entries_view(prev).push((*p, found@[j as int]@)));
                assert(found@.take(j as int + 1).map_values(|g: ShortcutInfo| (*p, g@)) =~= found@.take(
                    j as int,
                ).map_values(|g: ShortcutInfo| (*p, g@)).push((*p, found@[j as int]@)));
                j += 1;
                assert(entries_view(r@) =~= before + found@.take(j as int).map_values(|g: ShortcutInfo| (*p, g@)));
            }
            assert(found@.take(j as int) =~= found@);
        } else {
            assert(entries_view(r@) =~= before + seq![]);
        }
        i += 1;
    }
    assert(games@.take(i as int) =~= games@);
    r
}

} // verus!
