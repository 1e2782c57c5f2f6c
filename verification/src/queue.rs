//! The wallpaper queue: an ordered list, unique by wallpaper id, whose
//! order the user controls. Every mutation is one load of the persisted
//! list, a transformation written here, and one save; the host does the
//! loading and saving, these functions do the transformation.

use vstd::prelude::*;

use crate::catalog::{Wallpaper, WallpaperV};

verus! {

/// Whether some wallpaper of `s` carries the id `id`.
pub open spec fn has_wallpaper_id(s: Seq<WallpaperV>, id: Seq<char>) -> bool {
    exists|i: int| 0 <= i < s.len() && s[i].id == id
}

/// The queue listing: the persisted sequence as it stands.
pub fn get_queue(entries: Vec<Wallpaper>) -> (r: Vec<Wallpaper>)
    ensures
        r == entries,
{
    entries
}

/// Enqueuing: a wallpaper whose id is already queued changes nothing, any
/// other is appended at the end.
pub open spec fn spec_enqueue(s: Seq<WallpaperV>, w: WallpaperV) -> Seq<WallpaperV> {
    if has_wallpaper_id(s, w.id) {
        s
    } else {
        s.push(w)
    }
}

/// The law of the duplicate enqueue: a wallpaper whose id is already in
/// the queue leaves the queue exactly as it was — same length, same order.
pub proof fn lemma_enqueue_duplicate(s: Seq<WallpaperV>, w: WallpaperV)
    requires
        has_wallpaper_id(s, w.id),
    ensures
        spec_enqueue(s, w) == s,
{
}

/// Whether some wallpaper of `v` carries the id `id`.
fn contains_wallpaper_id(v: &Vec<Wallpaper>, id: &str) -> (r: bool)
    ensures
        r == has_wallpaper_id(v.deep_view(), id@),
{
    let mut i: usize = 0;
    while i < v.len()
        invariant
            i <= v.len(),
            forall|j: int| 0 <= j < i ==> v.deep_view()[j].id != id@,
        decreases v.len() - i,
    {
        if crate::strutil::str_eq(v[i].id.as_str(), id) {
            assert(v.deep_view()[i as int].id == id@);
            return true;
        }
        i = i + 1;
    }
    false
}

/// Adds `wallpaper` to the loaded queue: a no-op when its id is already
/// present, an append at the end otherwise.
pub fn add_to_queue(entries: Vec<Wallpaper>, wallpaper: Wallpaper) -> (r: Vec<Wallpaper>)
    ensures
        r.deep_view() == spec_enqueue(entries.deep_view(), wallpaper@),
{
    if contains_wallpaper_id(&entries, wallpaper.id.as_str()) {
        entries
    } else {
        let ghost prev = entries.deep_view();
        let mut r = entries;
        r.push(wallpaper);
        assert(r.deep_view() =~= prev.push(wallpaper@));
        r
    }
}

/// Removes every queued wallpaper carrying `wallpaper_id`.
pub fn remove_from_queue(entries: Vec<Wallpaper>, wallpaper_id: &str) -> (r: Vec<Wallpaper>)
    ensures
        r.deep_view() == entries.deep_view().filter(|w: WallpaperV| w.id != wallpaper_id@),
{
    let ghost all = entries.deep_view();
    let ghost pred = |w: WallpaperV| w.id != wallpaper_id@;
    let mut r: Vec<Wallpaper> = Vec::new();
    assert(all.take(0) =~= Seq::<WallpaperV>::empty());
    assert(Seq::<WallpaperV>::empty().filter(pred) =~= Seq::<WallpaperV>::empty());
    let mut i: usize = 0;
    while i < entries.len()
        invariant
            i <= entries.len(),
            all == entries.deep_view(),
            pred == (|w: WallpaperV| w.id != wallpaper_id@),
            r.deep_view() =~= all.take(i as int).filter(pred),
        decreases entries.len() - i,
    {
        let keep = !crate::strutil::str_eq(entries[i].id.as_str(), wallpaper_id);
        proof {
            let prefix = all.take(i as int);
            assert(all.take(i + 1 as int) =~= prefix.push(all[i as int]));
            Seq::filter_distributes_over_add(prefix, seq![all[i as int]], pred);
            assert(prefix.push(all[i as int]) =~= prefix + seq![all[i as int]]);
            reveal_with_fuel(Seq::filter, 2);
            assert(seq![all[i as int]].filter(pred) =~= (if pred(all[i as int]) {
                seq![all[i as int]]
            } else {
                Seq::<WallpaperV>::empty()
            }));
        }
        let ghost prevr = r.deep_view();
        if keep {
            let e = entries[i].clone();
            assert(e.deep_view() == all[i as int]);
            r.push(e);
            assert(r.deep_view() =~= prevr.push(all[i as int]));
        } else {
            assert(!pred(all[i as int]));
        }
        i = i + 1;
        assert(r.deep_view() =~= all.take(i as int).filter(pred));
    }
    proof {
        assert(all.take(entries.len() as int) =~= all);
    }
    r
}

/// Replaces the whole queue with the submitted ordering, verbatim: the
/// caller is trusted, nothing checks that it is a permutation of what was
/// queued, and a subsequent listing returns exactly this sequence.
pub fn reorder_queue(wallpapers: Vec<Wallpaper>) -> (r: Vec<Wallpaper>)
    ensures
        r == wallpapers,
{
    wallpapers
}

/// The read-side policy of the queue store: a list that could be loaded is
/// returned as it stands, and an absent or unreadable one yields the empty
/// queue rather than an error.
pub fn queue_or_empty(loaded: Option<Vec<Wallpaper>>) -> (r: Vec<Wallpaper>)
    ensures
        match loaded {
            Some(v) => r == v,
            None => r.deep_view() =~= Seq::<WallpaperV>::empty(),
        },
{
    match loaded {
        Some(v) => v,
        None => Vec::new(),
    }
}

/// The cleared queue: what the clear operation saves.
pub fn clear_queue() -> (r: Vec<Wallpaper>)
    ensures
        r.deep_view() =~= Seq::<WallpaperV>::empty(),
{
    Vec::new()
}

} // verus!
