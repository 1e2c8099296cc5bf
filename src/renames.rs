use vstd::prelude::*;

use std::collections::HashMap;

verus! {

broadcast use vstd::std_specs::hash::group_hash_axioms;

/// The name shown for game `id`: the user's override when there is one,
/// else `name`.
pub fn display_name(renames: &HashMap<u32, String>, id: u32, name: &str) -> (r: String)
    ensures
        r@ == (if renames@.contains_key(id) {
            renames@[id]@
        } else {
            name@
        }),
{
    match renames.get(&id) {
        Some(n) => n.clone(),
        None => String::from_str(name),
    }
}

/// Records the user's name for game `id`; an empty name puts back the
/// discovered one, `discovered_name`.
pub fn set_rename(renames: &mut HashMap<u32, String>, id: u32, new_name: &str, discovered_name: &str)
    ensures
        final(renames)@.dom() == old(renames)@.dom().insert(id),
        final(renames)@[id]@ == (if new_name@.len() == 0 {
            discovered_name@
        } else {
            new_name@
        }),
        forall|k: u32| k != id && old(renames)@.contains_key(k) ==> final(renames)@[k] == old(
            renames,
        )@[k],
{
    let name = if new_name.unicode_len() == 0 {
        discovered_name
    } else {
        new_name
    };
    renames.insert(id, String::from_str(name));
}

/// Moves game `id` in or out of the list of games not to import.
pub fn toggle_blacklisted(blacklisted: &mut Vec<u32>, id: u32)
    ensures
        old(blacklisted)@.contains(id) ==> !final(blacklisted)@.contains(id) && final(blacklisted)@
            == old(blacklisted)@.filter(|x: u32| x != id),
        !old(blacklisted)@.contains(id) ==> final(blacklisted)@ == old(blacklisted)@.push(id),
{
    let mut kept: Vec<u32> = Vec::new();
    let mut found = false;
    let mut i: usize = 0;
    while i < blacklisted.len()
        invariant
            i <= blacklisted.len(),
            kept@ == blacklisted@.take(i as int).filter(|x: u32| x != id),
            found == blacklisted@.take(i as int).contains(id),
        decreases blacklisted.len() - i,
    {
        let x = blacklisted[i];
        proof {
            let t = blacklisted@.take(i as int + 1);
            assert(t.drop_last() =~= blacklisted@.take(i as int));
            assert(t =~= blacklisted@.take(i as int).push(blacklisted@[i as int]));
            blacklisted@.take(i as int).lemma_filter_push(blacklisted@[i as int], |x: u32| x != id);
            let p = blacklisted@.take(i as int);
            if t.contains(id) {
                let k = choose|k: int| 0 <= k < t.len() && t[k] == id;
                if k < i {
                    assert(p[k] == id);
                }
            }
            if p.contains(id) {
                let k = choose|k: int| 0 <= k < p.len() && p[k] == id;
                assert(t[k] == id);
            }
            if x == id {
                assert(t[i as int] == id);
            }
        }
        if x == id {
            found = true;
        } else {
            kept.push(x);
        }
        i += 1;
    }
    assert(blacklisted@.take(i as int) =~= blacklisted@);
    if found {
        proof {
            broadcast use vstd::seq_lib::group_filter_ensures;

            assert(!blacklisted@.filter(|x: u32| x != id).contains(id));
        }
        *blacklisted = kept;
    } else {
        blacklisted.push(id);
    }
}

} // verus!
