//! The wallpaper history: an ordered list, most recent first, with at most
//! one entry per wallpaper id. Every mutation is one load of the persisted
//! list, a transformation written here, and one save; the host does the
//! loading and saving, these functions do the transformation.

use vstd::prelude::*;

use crate::catalog::{Thumbs, ThumbsV, Wallpaper, WallpaperV};

verus! {

/// One applied wallpaper: the wallpaper's fields flattened, plus the time
/// it was applied, as an RFC 3339 timestamp string.
pub struct HistoryEntry {
    pub id: String,
    pub url: String,
    pub path: String,
    pub thumbs: Thumbs,
    pub resolution: String,
    pub applied_at: String,
}

/// The mathematical value of a `HistoryEntry`.
#[verifier::ext_equal]
pub struct HistoryEntryV {
    pub id: Seq<char>,
    pub url: Seq<char>,
    pub path: Seq<char>,
    pub thumbs: ThumbsV,
    pub resolution: Seq<char>,
    pub applied_at: Seq<char>,
}

impl View for HistoryEntry {
    type V = HistoryEntryV;

    open spec fn view(&self) -> HistoryEntryV {
        HistoryEntryV {
            id: self.id@,
            url: self.url@,
            path: self.path@,
            thumbs: self.thumbs@,
            resolution: self.resolution@,
            applied_at: self.applied_at@,
        }
    }
}

impl DeepView for HistoryEntry {
    type V = HistoryEntryV;

    open spec fn deep_view(&self) -> HistoryEntryV {
        self.view()
    }
}

impl Clone for HistoryEntry {
    /// Copies the entry; the copy carries the same value.
    fn clone(&self) -> (res: Self)
        ensures
            res@ == self@,
    {
        HistoryEntry {
            id: self.id.clone(),
            url: self.url.clone(),
            path: self.path.clone(),
            thumbs: self.thumbs.clone(),
            resolution: self.resolution.clone(),
            applied_at: self.applied_at.clone(),
        }
    }
}

/// The entry that records wallpaper `w` as applied at time `t`.
pub open spec fn entry_of(w: WallpaperV, t: Seq<char>) -> HistoryEntryV {
    HistoryEntryV {
        id: w.id,
        url: w.url,
        path: w.path,
        thumbs: w.thumbs,
        resolution: w.resolution,
        applied_at: t,
    }
}

/// Whether some entry of `s` carries the id `id`.
pub open spec fn has_entry_id(s: Seq<HistoryEntryV>, id: Seq<char>) -> bool {
    exists|i: int| 0 <= i < s.len() && s[i].id == id
}

/// Recording `w` at time `t`: every entry sharing its id goes, and the new
/// entry stands at the front, so the most recent application comes first
/// and each id appears at most once among what `record` wrote.
pub open spec fn spec_record(s: Seq<HistoryEntryV>, w: WallpaperV, t: Seq<char>) -> Seq<
    HistoryEntryV,
> {
    seq![entry_of(w, t)] + s.filter(|e: HistoryEntryV| e.id != w.id)
}

/// Builds the entry recording `w` at time `applied_at`.
fn make_entry(wallpaper: &Wallpaper, applied_at: String) -> (r: HistoryEntry)
    ensures
        r@ == entry_of(wallpaper.deep_view(), applied_at@),
{
    HistoryEntry {
        id: wallpaper.id.clone(),
        url: wallpaper.url.clone(),
        path: wallpaper.path.clone(),
        thumbs: wallpaper.thumbs.clone(),
        resolution: wallpaper.resolution.clone(),
        applied_at,
    }
}

/// Records `wallpaper` at time `applied_at` into the loaded history:
/// removes any entry sharing its id and puts the new entry first.
pub fn record_entry(entries: Vec<HistoryEntry>, wallpaper: &Wallpaper, applied_at: String) -> (r:
    Vec<HistoryEntry>)
    ensures
        r.deep_view() == spec_record(entries.deep_view(), wallpaper.deep_view(), applied_at@),
{
    broadcast use vstd::seq_lib::group_seq_properties;

    let ghost pred = |e: HistoryEntryV| e.id != wallpaper.deep_view().id;
    let mut r: Vec<HistoryEntry> = Vec::new();
    r.push(make_entry(wallpaper, applied_at));
    let ghost head = r.deep_view();
    assert(entries.deep_view().take(0) =~= Seq::<HistoryEntryV>::empty());
    assert(Seq::<HistoryEntryV>::empty().filter(pred) =~= Seq::<HistoryEntryV>::empty());
    let mut i: usize = 0;
    while i < entries.len()
        invariant
            i <= entries.len(),
            head == seq![entry_of(wallpaper.deep_view(), applied_at@)],
            pred == (|e: HistoryEntryV| e.id != wallpaper.deep_view().id),
            r.deep_view() =~= head + entries.deep_view().take(i as int).filter(pred),
        decreases entries.len() - i,
    {
        let keep = !crate::strutil::str_eq(entries[i].id.as_str(), wallpaper.id.as_str());
        proof {
            let prefix = entries.deep_view().take(i as int);
            let longer = entries.deep_view().take(i + 1 as int);
            assert(longer =~= prefix.push(entries.deep_view()[i as int]));
            Seq::filter_distributes_over_add(
                prefix,
                seq![entries.deep_view()[i as int]],
                pred,
            );
            assert(prefix.push(entries.deep_view()[i as int]) =~= prefix + seq![
                entries.deep_view()[i as int],
            ]);
            reveal_with_fuel(Seq::filter, 2);
            assert(seq![entries.deep_view()[i as int]].filter(pred) =~= (if pred(
                entries.deep_view()[i as int],
            ) {
                seq![entries.deep_view()[i as int]]
            } else {
                Seq::<HistoryEntryV>::empty()
            }));
        }
        let ghost prevr = r.deep_view();
        if keep {
            let e = entries[i].clone();
            assert(e.deep_view() == entries.deep_view()[i as int]);
            r.push(e);
            assert(r.deep_view() =~= prevr.push(entries.deep_view()[i as int]));
        } else {
            assert(!pred(entries.deep_view()[i as int]));
        }
        i = i + 1;
        assert(r.deep_view() =~= head + entries.deep_view().take(i as int).filter(pred));
    }
    proof {
        assert(entries.deep_view().take(entries.len() as int) =~= entries.deep_view());
        assert(r.deep_view() =~= spec_record(
            entries.deep_view(),
            wallpaper.deep_view(),
            applied_at@,
        ));
    }
    r
}

/// Relies on chrono's `Utc::now` and `DateTime::to_rfc3339`: the moment
/// the system clock reports, rendered as an RFC 3339 timestamp string.
/// Nothing is assumed of the value: callers state what holds of the
/// history whatever the clock returned.
#[verifier::external_body]
fn now_rfc3339() -> String {
    chrono::Utc::now().to_rfc3339()
}

/// Records `wallpaper` into the loaded history, stamped with the current
/// UTC time: every entry sharing its id goes, and the new entry, whose
/// timestamp stands at the front of the result, comes first.
pub fn add_to_history(entries: Vec<HistoryEntry>, wallpaper: &Wallpaper) -> (r: Vec<HistoryEntry>)
    ensures
        r.deep_view().len() >= 1,
        r.deep_view() == spec_record(
            entries.deep_view(),
            wallpaper.deep_view(),
            r.deep_view()[0].applied_at,
        ),
{
    let stamp = now_rfc3339();
    record_entry(entries, wallpaper, stamp)
}

/// The law of recording: the new entry stands first, and no other entry of
/// the result carries its id.
pub proof fn lemma_record_dedups(s: Seq<HistoryEntryV>, w: WallpaperV, t: Seq<char>)
    ensures
        spec_record(s, w, t).len() >= 1,
        spec_record(s, w, t)[0] == entry_of(w, t),
        forall|i: int| 1 <= i < spec_record(s, w, t).len() ==> spec_record(s, w, t)[i].id != w.id,
{
    broadcast use vstd::seq_lib::group_filter_ensures;

    let pred = |e: HistoryEntryV| e.id != w.id;
    assert forall|i: int|
        1 <= i < spec_record(s, w, t).len() implies spec_record(s, w, t)[i].id != w.id by {
        assert(spec_record(s, w, t)[i] == s.filter(pred)[i - 1]);
        assert(pred(s.filter(pred)[i - 1]));
    }
}

/// The law of recording twice: recording the same wallpaper a second time,
/// whatever the two timestamps, leaves exactly one entry with its id — the
/// front entry, stamped with the second recording's time.
pub proof fn lemma_record_twice(s: Seq<HistoryEntryV>, w: WallpaperV, t1: Seq<char>, t2: Seq<char>)
    ensures
        ({
            let h = spec_record(spec_record(s, w, t1), w, t2);
            &&& h.len() >= 1
            &&& h[0] == entry_of(w, t2)
            &&& forall|i: int| 1 <= i < h.len() ==> h[i].id != w.id
        }),
{
    lemma_record_dedups(spec_record(s, w, t1), w, t2);
}

/// The read-side policy of the history store: a list that could be loaded
/// is returned as it stands, and an absent or unreadable one yields the
/// empty history rather than an error.
pub fn entries_or_empty(loaded: Option<Vec<HistoryEntry>>) -> (r: Vec<HistoryEntry>)
    ensures
        match loaded {
            Some(v) => r == v,
            None => r.deep_view() =~= Seq::<HistoryEntryV>::empty(),
        },
{
    match loaded {
        Some(v) => v,
        None => Vec::new(),
    }
}

/// The persisted list with later duplicates dropped: an entry stays
/// exactly when no earlier entry carries its id, so the first occurrence
/// of each id survives in its place.
pub open spec fn dedup_first(s: Seq<HistoryEntryV>) -> Seq<HistoryEntryV>
    decreases s.len(),
{
    if s.len() == 0 {
        Seq::<HistoryEntryV>::empty()
    } else {
        let rest = dedup_first(s.drop_last());
        if has_entry_id(s.drop_last(), s.last().id) {
            rest
        } else {
            rest.push(s.last())
        }
    }
}

/// De-duplication drops no id and invents none: an id occurs in the
/// de-duplicated list exactly when it occurs in the list it came from.
pub proof fn lemma_dedup_first_ids(s: Seq<HistoryEntryV>, id: Seq<char>)
    ensures
        has_entry_id(dedup_first(s), id) <==> has_entry_id(s, id),
    decreases s.len(),
{
    if s.len() > 0 {
        lemma_dedup_first_ids(s.drop_last(), id);
        let rest = dedup_first(s.drop_last());
        assert(forall|i: int| 0 <= i < s.len() - 1 ==> s.drop_last()[i] == s[i]);
        if has_entry_id(s, id) {
            let i = choose|i: int| 0 <= i < s.len() && s[i].id == id;
            if i < s.len() - 1 {
                assert(s.drop_last()[i].id == id);
                assert(has_entry_id(s.drop_last(), id));
            } else {
                assert(s.last().id == id);
                if !has_entry_id(s.drop_last(), s.last().id) {
                    assert(dedup_first(s)[rest.len() as int].id == id);
                    assert(has_entry_id(dedup_first(s), id));
                }
            }
            if has_entry_id(s.drop_last(), id) {
                let k = choose|k: int| 0 <= k < rest.len() && rest[k].id == id;
                assert(dedup_first(s)[k].id == id);
                assert(has_entry_id(dedup_first(s), id));
            }
        }
        if has_entry_id(dedup_first(s), id) {
            let i = choose|i: int| 0 <= i < dedup_first(s).len() && dedup_first(s)[i].id == id;
            if i < rest.len() {
                assert(rest[i].id == id);
                let j = choose|j: int| 0 <= j < s.drop_last().len() && s.drop_last()[j].id == id;
                assert(s[j].id == id);
            } else {
                assert(dedup_first(s)[i] == s.last());
                assert(s[s.len() - 1].id == id);
            }
            assert(has_entry_id(s, id));
        }
    }
}

/// The law of the history listing: however the persisted file came to be,
/// the de-duplicated list never holds two entries with the same id.
pub proof fn lemma_dedup_first_unique(s: Seq<HistoryEntryV>)
    ensures
        forall|i: int, j: int|
            0 <= i < j < dedup_first(s).len() ==> dedup_first(s)[i].id != dedup_first(s)[j].id,
    decreases s.len(),
{
    if s.len() > 0 {
        lemma_dedup_first_unique(s.drop_last());
        if !has_entry_id(s.drop_last(), s.last().id) {
            lemma_dedup_first_ids(s.drop_last(), s.last().id);
            assert forall|i: int, j: int|
                0 <= i < j < dedup_first(s).len() implies dedup_first(s)[i].id != dedup_first(
                s,
            )[j].id by {
                if j < dedup_first(s.drop_last()).len() {
                } else {
                    assert(dedup_first(s)[i] == dedup_first(s.drop_last())[i]);
                    if dedup_first(s)[i].id == s.last().id {
                        assert(has_entry_id(dedup_first(s.drop_last()), s.last().id));
                    }
                }
            }
        }
    }
}

/// Whether some entry of `v` carries the id `id`.
fn contains_entry_id(v: &Vec<HistoryEntry>, id: &str) -> (r: bool)
    ensures
        r == has_entry_id(v.deep_view(), id@),
{
    let mut i: usize = 0;
    while i < v.len()
        invariant
            i <= v.len(),
            forall|j: int| 0 <= j < i ==> v.deep_view()[j].id != id@,
        decreases v.len() - i,
    {
        if crate::strutil::str_eq(v[i].id.as_str(), id) {
            assert(v.deep_view()[i as int].id == id@);
            return true;
        }
        i = i + 1;
    }
    false
}

/// The history listing: the persisted entries with a final
/// de-duplication pass that keeps the first occurrence of each id,
/// defensive against duplicate data written before de-duplication on
/// write existed.
pub fn get_history(entries: Vec<HistoryEntry>) -> (r: Vec<HistoryEntry>)
    ensures
        r.deep_view() == dedup_first(entries.deep_view()),
{
    let ghost all = entries.deep_view();
    let mut r: Vec<HistoryEntry> = Vec::new();
    assert(all.take(0) =~= Seq::<HistoryEntryV>::empty());
    let mut i: usize = 0;
    while i < entries.len()
        invariant
            i <= entries.len(),
            all == entries.deep_view(),
            r.deep_view() =~= dedup_first(all.take(i as int)),
        decreases entries.len() - i,
    {
        let seen = contains_entry_id(&r, entries[i].id.as_str());
        proof {
            lemma_dedup_first_ids(all.take(i as int), all[i as int].id);
            assert(all.take(i + 1 as int).drop_last() =~= all.take(i as int));
            assert(all.take(i + 1 as int).last() == all[i as int]);
        }
        let ghost prevr = r.deep_view();
        if !seen {
            let e = entries[i].clone();
            assert(e.deep_view() == all[i as int]);
            r.push(e);
            assert(r.deep_view() =~= prevr.push(all[i as int]));
        }
        i = i + 1;
        assert(r.deep_view() =~= dedup_first(all.take(i as int)));
    }
    proof {
        assert(all.take(entries.len() as int) =~= all);
    }
    r
}

/// Chooses the undo target: with fewer than two entries there is no
/// previous wallpaper and the operation fails before anything is touched;
/// otherwise the result names the cached file of the second most recent
/// entry, the file name being the last slash-separated segment of its
/// download source URL. Nothing is written: the host applies that file
/// and only then commits the promotion with `undo_wallpaper`.
pub fn undo_plan(entries: &Vec<HistoryEntry>) -> (r: Result<String, String>)
    ensures
        match r {
            Ok(f) => entries.deep_view().len() >= 2 && f@ == crate::strutil::filename_of(
                entries.deep_view()[1].path,
            ),
            Err(e) => entries.deep_view().len() < 2 && e@ == "No previous wallpaper to revert to"@,
        },
{
    if entries.len() < 2 {
        return Err("No previous wallpaper to revert to".to_owned());
    }
    Ok(crate::strutil::filename_part(entries[1].path.as_str()))
}

/// The history after an undo at time `t`: the second most recent entry,
/// re-stamped with `t`, promoted to the front; what was most recent slips
/// to second place and everything later keeps its order.
pub open spec fn spec_undo(s: Seq<HistoryEntryV>, t: Seq<char>) -> Seq<HistoryEntryV>
    recommends
        s.len() >= 2,
{
    seq![HistoryEntryV { applied_at: t, ..s[1] }, s[0]] + s.skip(2)
}

/// Commits an undo: promotes the second most recent entry to the front,
/// re-stamped with `applied_at`; no entry is lost.
pub fn undo_wallpaper(entries: Vec<HistoryEntry>, applied_at: String) -> (r: Vec<HistoryEntry>)
    requires
        entries.deep_view().len() >= 2,
    ensures
        r.deep_view() == spec_undo(entries.deep_view(), applied_at@),
{
    let ghost all = entries.deep_view();
    let mut r = entries;
    let prev = r.remove(1);
    assert(prev.deep_view() == all[1]);
    let promoted = HistoryEntry { applied_at, ..prev };
    r.insert(0, promoted);
    assert(r.deep_view() =~= spec_undo(all, applied_at@));
    r
}

/// Deletes every history entry carrying `wallpaper_id`.
pub fn delete_history_entry(entries: Vec<HistoryEntry>, wallpaper_id: &str) -> (r: Vec<
    HistoryEntry,
>)
    ensures
        r.deep_view() == entries.deep_view().filter(
            |e: HistoryEntryV| e.id != wallpaper_id@,
        ),
{
    let ghost all = entries.deep_view();
    let ghost pred = |e: HistoryEntryV| e.id != wallpaper_id@;
    let mut r: Vec<HistoryEntry> = Vec::new();
    assert(all.take(0) =~= Seq::<HistoryEntryV>::empty());
    assert(Seq::<HistoryEntryV>::empty().filter(pred) =~= Seq::<HistoryEntryV>::empty());
    let mut i: usize = 0;
    while i < entries.len()
        invariant
            i <= entries.len(),
            all == entries.deep_view(),
            pred == (|e: HistoryEntryV| e.id != wallpaper_id@),
            r.deep_view() =~= all.take(i as int).filter(pred),
        decreases entries.len() - i,
    {
        let keep = !crate::strutil::str_eq(entries[i].id.as_str(), wallpaper_id);
        proof {
            let prefix = all.take(i as int);
            assert(all.take(i + 1 as int) =~= prefix.push(all[i as int]));
            Seq::filter_distributes_over_add(prefix, seq![all[i as int]], pred);
            assert(prefix.push(all[i as int]) =~= prefix + seq![all[i as int]]);
            reveal_with_fuel(Seq::filter, 2);
            assert(seq![all[i as int]].filter(pred) =~= (if pred(all[i as int]) {
                seq![all[i as int]]
            } else {
                Seq::<HistoryEntryV>::empty()
            }));
        }
        let ghost prevr = r.deep_view();
        if keep {
            let e = entries[i].clone();
            assert(e.deep_view() == all[i as int]);
            r.push(e);
            assert(r.deep_view() =~= prevr.push(all[i as int]));
        } else {
            assert(!pred(all[i as int]));
        }
        i = i + 1;
        assert(r.deep_view() =~= all.take(i as int).filter(pred));
    }
    proof {
        assert(all.take(entries.len() as int) =~= all);
    }
    r
}

/// The cleared history: what the clear operation saves.
pub fn clear_history() -> (r: Vec<HistoryEntry>)
    ensures
        r.deep_view() =~= Seq::<HistoryEntryV>::empty(),
{
    Vec::new()
}

} // verus!
