//! Reconciling scheduled and live-predicted departures into one authoritative
//! ordered set. Both sources arrive as maps from trip id to timestamp; the
//! predicted timestamp always overrides the scheduled one for the same trip,
//! events not strictly in the future are discarded, and the survivors are
//! returned in strictly ascending order — or `None` when nothing survives,
//! which callers treat as "no upcoming service".

use vstd::prelude::*;
use crate::daytime::DayTime;

verus! {

/// A sequence of timestamps is strictly ascending by total seconds.
pub open spec fn strictly_ascending(s: Seq<DayTime>) -> bool {
    forall|i: int, j: int|
        0 <= i < j < s.len() ==> s[i].total_seconds() < s[j].total_seconds()
}

/// The ordered set of upcoming departures. Always non-empty: "no upcoming
/// service" is represented by the absence of a `DepartureSet`, not by an
/// empty one.
pub struct DepartureSet {
    pub times: Vec<DayTime>,
}

impl View for DepartureSet {
    type V = Seq<DayTime>;

    open spec fn view(&self) -> Seq<DayTime> {
        self.times@
    }
}

impl DepartureSet {
    /// Non-empty and strictly ascending.
    pub open spec fn wf(self) -> bool {
        self@.len() > 0 && strictly_ascending(self@)
    }

    /// Number of upcoming departures.
    pub fn len(&self) -> (r: usize)
        ensures
            r == self@.len(),
    {
        self.times.len()
    }

    /// The departure at position `i` (position 0 is the earliest).
    pub fn get(&self, i: usize) -> (r: &DayTime)
        requires
            i < self@.len(),
        ensures
            *r == self@[i as int],
    {
        &self.times[i]
    }
}

/// No two entries of a keyed departure list share a trip id.
pub open spec fn unique_keys(s: Seq<(String, DayTime)>) -> bool {
    forall|i: int, j: int| 0 <= i < j < s.len() ==> s[i].0@ != s[j].0@
}

/// Every timestamp in a keyed departure list is a valid wall-clock reading.
pub open spec fn all_times_wf(s: Seq<(String, DayTime)>) -> bool {
    forall|i: int| 0 <= i < s.len() ==> (#[trigger] s[i].1).wf()
}

/// A keyed departure list as the map it represents: on a repeated trip id
/// the later entry wins.
pub open spec fn as_map(s: Seq<(String, DayTime)>) -> Map<Seq<char>, DayTime>
    decreases s.len(),
{
    if s.len() == 0 {
        Map::empty()
    } else {
        as_map(s.drop_last()).insert(s.last().0@, s.last().1)
    }
}

/// The reconciled map: the scheduled entries with every predicted entry
/// overriding (or inserted beside) them — predicted data is authoritative
/// when present.
pub open spec fn spec_merged(
    sched: Seq<(String, DayTime)>,
    pred: Seq<(String, DayTime)>,
) -> Map<Seq<char>, DayTime> {
    as_map(sched).union_prefer_right(as_map(pred))
}

/// The trip ids of `as_map` are exactly the trip ids of the list.
pub proof fn lemma_as_map_dom(s: Seq<(String, DayTime)>, k: Seq<char>)
    ensures
        as_map(s).dom().contains(k) <==> exists|i: int| 0 <= i < s.len() && s[i].0@ == k,
    decreases s.len(),
{
    if s.len() > 0 {
        lemma_as_map_dom(s.drop_last(), k);
        if s.last().0@ == k {
            assert(s[s.len() - 1].0@ == k);
        } else if as_map(s).dom().contains(k) {
            let i = choose|i: int| 0 <= i < s.len() - 1 && s.drop_last()[i].0@ == k;
            assert(s[i].0@ == k);
        } else if exists|i: int| 0 <= i < s.len() && s[i].0@ == k {
            let i = choose|i: int| 0 <= i < s.len() && s[i].0@ == k;
            assert(s.drop_last()[i].0@ == k);
        }
    }
}

/// With unique trip ids, `as_map` sends each entry's id to that entry's
/// timestamp.
pub proof fn lemma_as_map_index(s: Seq<(String, DayTime)>, i: int)
    requires
        unique_keys(s),
        0 <= i < s.len(),
    ensures
        as_map(s).dom().contains(s[i].0@),
        as_map(s)[s[i].0@] == s[i].1,
    decreases s.len(),
{
    if i == s.len() - 1 {
    } else {
        assert(unique_keys(s.drop_last())) by {
            assert(forall|x: int, y: int|
                0 <= x < y < s.len() - 1 ==> s.drop_last()[x].0@ != s.drop_last()[y].0@);
        }
        lemma_as_map_index(s.drop_last(), i);
        assert(s.drop_last()[i] == s[i]);
        assert(s.last().0@ != s[i].0@);
    }
}

/// A valid wall-clock reading is determined by its total seconds: two valid
/// readings with the same total are the same reading.
pub proof fn lemma_total_seconds_injective(a: DayTime, b: DayTime)
    requires
        a.wf(),
        b.wf(),
        a.total_seconds() == b.total_seconds(),
    ensures
        a == b,
{
    let ra = a.hour as int * 3600 + a.minute as int * 60 + a.second as int;
    let rb = b.hour as int * 3600 + b.minute as int * 60 + b.second as int;
    assert(0 <= ra < 86400);
    assert(0 <= rb < 86400);
    assert((a.day as int - b.day as int) * 86400 == rb - ra);
    assert(a.day == b.day);
    assert((a.hour as int - b.hour as int) * 3600 == (b.minute as int * 60 + b.second as int) - (
    a.minute as int * 60 + a.second as int));
    assert(a.hour == b.hour);
    assert((a.minute as int - b.minute as int) * 60 == b.second as int - a.second as int);
    assert(a.minute == b.minute);
}

/// The position of the entry carrying trip id `key`, if one exists.
pub(crate) fn find_key(v: &Vec<(String, DayTime)>, key: &String) -> (r: Option<usize>)
    ensures
        match r {
            Some(i) => i < v@.len() && v@[i as int].0@ == key@,
            None => forall|i: int| 0 <= i < v@.len() ==> v@[i].0@ != key@,
        },
{
    let mut i: usize = 0;
    while i < v.len()
        invariant
            0 <= i <= v@.len(),
            forall|j: int| 0 <= j < i ==> v@[j].0@ != key@,
        decreases v@.len() - i,
    {
        if v[i].0 == *key {
            return Some(i);
        }
        i = i + 1;
    }
    None
}

/// Inserting an entry into the map of a list equals the map of the list with
/// that entry appended.
proof fn lemma_as_map_push(s: Seq<(String, DayTime)>, p: (String, DayTime))
    ensures
        as_map(s.push(p)) == as_map(s).insert(p.0@, p.1),
{
    assert(s.push(p).drop_last() =~= s);
    assert(s.push(p).last() == p);
}

/// With unique trip ids, replacing the entry at the position of id `k` by a
/// new entry with the same id inserts into the map.
proof fn lemma_as_map_update(s: Seq<(String, DayTime)>, j: int, p: (String, DayTime))
    requires
        unique_keys(s),
        0 <= j < s.len(),
        s[j].0@ == p.0@,
    ensures
        as_map(s.update(j, p)) == as_map(s).insert(p.0@, p.1),
    decreases s.len(),
{
    let t = s.update(j, p);
    if j == s.len() - 1 {
        assert(t.drop_last() =~= s.drop_last());
        assert(t.last() == p);
    } else {
        assert(unique_keys(s.drop_last())) by {
            assert(forall|x: int, y: int|
                0 <= x < y < s.len() - 1 ==> s.drop_last()[x].0@ != s.drop_last()[y].0@);
        }
        lemma_as_map_update(s.drop_last(), j, p);
        assert(t.drop_last() =~= s.drop_last().update(j, p));
        assert(t.last() == s.last());
        assert(s.last().0@ != p.0@);
        assert(as_map(t) == as_map(s.drop_last()).insert(p.0@, p.1).insert(
            s.last().0@,
            s.last().1,
        ));
        assert(as_map(s.drop_last()).insert(p.0@, p.1).insert(s.last().0@, s.last().1) =~= as_map(
            s.drop_last(),
        ).insert(s.last().0@, s.last().1).insert(p.0@, p.1));
    }
}

/// Merging one more predicted entry into the right of a union inserts it.
proof fn lemma_union_insert_right(
    a: Map<Seq<char>, DayTime>,
    b: Map<Seq<char>, DayTime>,
    k: Seq<char>,
    v: DayTime,
)
    ensures
        a.union_prefer_right(b.insert(k, v)) == a.union_prefer_right(b).insert(k, v),
{
    assert(a.union_prefer_right(b.insert(k, v)) =~= a.union_prefer_right(b).insert(k, v));
}

/// Apply every predicted entry to the scheduled list: an entry with a known
/// trip id overwrites that trip's timestamp, a new trip id is appended. The
/// result represents exactly the union of the two maps with the predicted
/// side preferred.
fn merge_predicted(scheduled: Vec<(String, DayTime)>, predicted: &Vec<(String, DayTime)>) -> (r:
    Vec<(String, DayTime)>)
    requires
        unique_keys(scheduled@),
        all_times_wf(scheduled@),
        all_times_wf(predicted@),
    ensures
        unique_keys(r@),
        all_times_wf(r@),
        as_map(r@) == spec_merged(scheduled@, predicted@),
{
    let mut out = scheduled;
    let mut i: usize = 0;
    proof {
        assert(predicted@.take(0) =~= Seq::<(String, DayTime)>::empty());
        assert(as_map(out@).union_prefer_right(Map::empty()) =~= as_map(out@));
    }
    while i < predicted.len()
        invariant
            0 <= i <= predicted@.len(),
            unique_keys(out@),
            all_times_wf(out@),
            all_times_wf(predicted@),
            as_map(out@) == spec_merged(scheduled@, predicted@.take(i as int)),
        decreases predicted@.len() - i,
    {
        let key = predicted[i].0.clone();
        let time = predicted[i].1;
        let ghost prev = out@;
        match find_key(&out, &key) {
            Some(j) => {
                let ghost p = (key, time);
                out.remove(j);
                out.insert(j, (key, time));
                proof {
                    assert(out@ =~= prev.update(j as int, p));
                    lemma_as_map_update(prev, j as int, p);
                    assert(unique_keys(out@)) by {
                        assert(forall|x: int|
                            0 <= x < out@.len() ==> out@[x].0@ == prev[x].0@);
                    }
                }
            },
            None => {
                out.push((key, time));
                proof {
                    let ghost p = (predicted@[i as int].0, time);
                    assert(out@ == prev.push((key, time)));
                    lemma_as_map_push(prev, (key, time));
                    assert(unique_keys(out@)) by {
                        assert(forall|x: int| 0 <= x < prev.len() ==> out@[x] == prev[x]);
                        assert(forall|x: int|
                            0 <= x < prev.len() ==> (#[trigger] out@[x]).0@ != out@[prev.len() as int].0@);
                    }
                }
            },
        }
        proof {
            assert(predicted@.take(i + 1).drop_last() =~= predicted@.take(i as int));
            assert(predicted@.take(i + 1).last() == predicted@[i as int]);
            assert(as_map(predicted@.take(i + 1)) == as_map(predicted@.take(i as int)).insert(
                predicted@[i as int].0@,
                predicted@[i as int].1,
            ));
            lemma_union_insert_right(
                as_map(scheduled@),
                as_map(predicted@.take(i as int)),
                predicted@[i as int].0@,
                predicted@[i as int].1,
            );
        }
        i = i + 1;
    }
    proof {
        assert(predicted@.take(predicted@.len() as int) =~= predicted@);
    }
    out
}

/// The timestamps of `entries` that lie strictly in the future of `now`.
fn collect_future(entries: &Vec<(String, DayTime)>, now: &DayTime) -> (r: Vec<DayTime>)
    ensures
        forall|j: int|
            0 <= j < entries@.len() && (#[trigger] entries@[j].1).total_seconds()
                > now.total_seconds() ==> r@.contains(entries@[j].1),
        forall|x: DayTime|
            #[trigger] r@.contains(x) ==> x.total_seconds() > now.total_seconds() && exists|j: int|
                0 <= j < entries@.len() && entries@[j].1 == x,
{
    let mut r: Vec<DayTime> = Vec::new();
    let mut i: usize = 0;
    while i < entries.len()
        invariant
            0 <= i <= entries@.len(),
            forall|j: int|
                0 <= j < i && (#[trigger] entries@[j].1).total_seconds() > now.total_seconds()
                    ==> r@.contains(entries@[j].1),
            forall|x: DayTime|
                #[trigger] r@.contains(x) ==> x.total_seconds() > now.total_seconds() && exists|
                    j: int,
                |
                    0 <= j < entries@.len() && entries@[j].1 == x,
        decreases entries@.len() - i,
    {
        let ghost prev = r@;
        if entries[i].1.is_after(now) {
            r.push(entries[i].1);
            proof {
                assert(forall|j: int| 0 <= j < prev.len() ==> r@[j] == prev[j]);
                assert forall|x: DayTime| prev.contains(x) implies r@.contains(x) by {
                    let j = choose|j: int| 0 <= j < prev.len() && prev[j] == x;
                    assert(r@[j] == x);
                }
                assert(r@.contains(entries@[i as int].1)) by {
                    assert(r@[r@.len() - 1] == entries@[i as int].1);
                }
                assert forall|x: DayTime| #[trigger] r@.contains(x) implies (prev.contains(x) || x
                    == entries@[i as int].1) by {
                    let j = choose|j: int| 0 <= j < r@.len() && r@[j] == x;
                    if j < prev.len() {
                        assert(prev[j] == x);
                    }
                }
            }
        }
        i = i + 1;
    }
    r
}

/// Insert `v` into a strictly ascending list of valid readings, keeping it
/// strictly ascending: `v` lands at its ordered position, or nowhere when it
/// is already present.
fn insert_sorted(out: &mut Vec<DayTime>, v: DayTime)
    requires
        strictly_ascending(old(out)@),
        forall|i: int| 0 <= i < old(out)@.len() ==> (#[trigger] old(out)@[i]).wf(),
        v.wf(),
    ensures
        strictly_ascending(final(out)@),
        forall|i: int| 0 <= i < final(out)@.len() ==> (#[trigger] final(out)@[i]).wf(),
        forall|x: DayTime|
            #[trigger] final(out)@.contains(x) <==> (old(out)@.contains(x) || x == v),
{
    let mut idx: usize = 0;
    while idx < out.len() && out[idx].total_seconds_u64() < v.total_seconds_u64()
        invariant
            0 <= idx <= out@.len(),
            forall|j: int| 0 <= j < idx ==> (#[trigger] out@[j]).total_seconds() < v.total_seconds(),
            out == old(out),
        decreases out@.len() - idx,
    {
        idx = idx + 1;
    }
    if idx < out.len() {
        let existing = out[idx].total_seconds_u64();
        if existing == v.total_seconds_u64() {
            proof {
                lemma_total_seconds_injective(out@[idx as int], v);
                assert(out@.contains(v)) by {
                    assert(out@[idx as int] == v);
                }
            }
            return ;
        }
    }
    let ghost prev = out@;
    out.insert(idx, v);
    proof {
        assert(out@ == prev.insert(idx as int, v));
        assert(forall|j: int| 0 <= j < idx ==> out@[j] == prev[j]);
        assert(forall|j: int| idx < j < out@.len() ==> out@[j] == prev[j - 1]);
        assert(out@[idx as int] == v);
        assert(strictly_ascending(out@)) by {
            assert(forall|j: int|
                idx <= j < prev.len() ==> (#[trigger] prev[j]).total_seconds()
                    > v.total_seconds()) by {
                assert(forall|j: int|
                    idx <= j < prev.len() ==> (#[trigger] prev[j]).total_seconds()
                        >= prev[idx as int].total_seconds());
            }
        }
        assert(forall|x: DayTime| prev.contains(x) ==> out@.contains(x)) by {
            assert(forall|j: int|
                0 <= j < prev.len() ==> prev[j] == out@[if j < idx as int {
                    j
                } else {
                    j + 1
                }]);
        }
        assert(forall|x: DayTime| out@.contains(x) ==> prev.contains(x) || x == v) by {
            assert(forall|j: int|
                0 <= j < out@.len() && j != idx as int ==> out@[j] == prev[if j < idx as int {
                    j
                } else {
                    j - 1
                }]);
        }
        assert(out@.contains(v)) by {
            assert(out@[idx as int] == v);
        }
    }
}

/// Sort the collected timestamps into a strictly ascending list with the
/// same members.
fn sort_unique(vals: &Vec<DayTime>) -> (r: Vec<DayTime>)
    requires
        forall|i: int| 0 <= i < vals@.len() ==> (#[trigger] vals@[i]).wf(),
    ensures
        strictly_ascending(r@),
        forall|x: DayTime| #[trigger] r@.contains(x) <==> vals@.contains(x),
{
    let mut r: Vec<DayTime> = Vec::new();
    let mut i: usize = 0;
    while i < vals.len()
        invariant
            0 <= i <= vals@.len(),
            forall|j: int| 0 <= j < vals@.len() ==> (#[trigger] vals@[j]).wf(),
            strictly_ascending(r@),
            forall|j: int| 0 <= j < r@.len() ==> (#[trigger] r@[j]).wf(),
            forall|x: DayTime| #[trigger] r@.contains(x) <==> vals@.take(i as int).contains(x),
        decreases vals@.len() - i,
    {
        let ghost prev = r@;
        insert_sorted(&mut r, vals[i]);
        proof {
            assert forall|x: DayTime| #[trigger] r@.contains(x) implies vals@.take(
                i + 1,
            ).contains(x) by {
                assert(r@.contains(x) == (prev.contains(x) || x == vals@[i as int]));
                if prev.contains(x) {
                    assert(vals@.take(i as int).contains(x));
                    let j = choose|j: int| 0 <= j < i && vals@.take(i as int)[j] == x;
                    assert(vals@.take(i + 1)[j] == x);
                } else {
                    assert(vals@.take(i + 1)[i as int] == x);
                }
            }
            assert forall|x: DayTime| vals@.take(i + 1).contains(x) implies #[trigger] r@.contains(
                x,
            ) by {
                assert(r@.contains(x) == (prev.contains(x) || x == vals@[i as int]));
                let j = choose|j: int| 0 <= j < i + 1 && #[trigger] vals@.take(i + 1)[j] == x;
                if j < i {
                    assert(vals@.take(i as int)[j] == x);
                    assert(vals@.take(i as int).contains(x));
                    assert(prev.contains(x));
                } else {
                    assert(x == vals@[i as int]);
                }
            }
        }
        i = i + 1;
    }
    proof {
        assert(vals@.take(vals@.len() as int) =~= vals@);
    }
    r
}

/// What `reconcile` promises of its result, over the reconciled map `merged`:
/// a set comes back exactly when some reconciled timestamp is still in the
/// future; the set is non-empty and strictly ascending; everything in it is
/// a future timestamp of the reconciled map; and every future timestamp of
/// the reconciled map is in it.
pub open spec fn spec_reconciled(
    merged: Map<Seq<char>, DayTime>,
    now: DayTime,
    r: Option<DepartureSet>,
) -> bool {
    &&& (r is Some <==> exists|k: Seq<char>|
        #[trigger] merged.dom().contains(k) && merged[k].total_seconds() > now.total_seconds())
    &&& match r {
        Some(ds) => {
            &&& ds.wf()
            &&& forall|i: int|
                0 <= i < ds@.len() ==> (#[trigger] ds@[i]).total_seconds() > now.total_seconds()
                    && ds@[i].wf()
            &&& forall|i: int|
                0 <= i < ds@.len() ==> exists|k: Seq<char>|
                    #[trigger] merged.dom().contains(k) && merged[k] == #[trigger] ds@[i]
            &&& forall|k: Seq<char>|
                #[trigger] merged.dom().contains(k) && merged[k].total_seconds()
                    > now.total_seconds() ==> ds@.contains(merged[k])
        },
        None => true,
    }
}

/// Reconcile the scheduled and predicted departure maps into the ordered set
/// of upcoming departures.
///
/// The predicted timestamp overrides the scheduled one for every trip id
/// present in both; a trip id present in only one source keeps its
/// timestamp. Events not strictly later than `now` are discarded, and the
/// survivors are returned strictly ascending. `None` — not an empty set —
/// signals that no upcoming departure exists.
pub fn reconcile(
    scheduled: Vec<(String, DayTime)>,
    predicted: Option<Vec<(String, DayTime)>>,
    now: &DayTime,
) -> (r: Option<DepartureSet>)
    requires
        unique_keys(scheduled@),
        all_times_wf(scheduled@),
        match predicted {
            Some(p) => all_times_wf(p@),
            None => true,
        },
    ensures
        spec_reconciled(
            spec_merged(
                scheduled@,
                match predicted {
                    Some(p) => p@,
                    None => Seq::empty(),
                },
            ),
            *now,
            r,
        ),
{
    let ghost pred_seq: Seq<(String, DayTime)> = if predicted is Some {
        predicted->0@
    } else {
        Seq::empty()
    };
    let merged_list = match predicted {
        Some(p) => merge_predicted(scheduled, &p),
        None => {
            proof {
                assert(as_map(scheduled@).union_prefer_right(as_map(pred_seq)) =~= as_map(
                    scheduled@,
                ));
            }
            scheduled
        },
    };
    proof {
        assert(as_map(merged_list@).union_prefer_right(as_map(Seq::empty())) =~= as_map(
            merged_list@,
        ));
    }
    let vals = collect_future(&merged_list, now);
    proof {
        assert(forall|x: DayTime| vals@.contains(x) ==> x.wf()) by {
            assert(forall|j: int|
                0 <= j < merged_list@.len() ==> (#[trigger] merged_list@[j].1).wf());
        }
        assert(forall|i: int| 0 <= i < vals@.len() ==> (#[trigger] vals@[i]).wf()) by {
            assert(forall|i: int| 0 <= i < vals@.len() ==> vals@.contains(vals@[i]));
        }
    }
    let sorted = sort_unique(&vals);
    proof {
        let m = as_map(merged_list@);
        assert forall|k: Seq<char>|
            #[trigger] m.dom().contains(k) && m[k].total_seconds() > now.total_seconds() implies sorted@.contains(
            m[k],
        ) by {
            lemma_as_map_dom(merged_list@, k);
            let i = choose|i: int| 0 <= i < merged_list@.len() && merged_list@[i].0@ == k;
            lemma_as_map_index(merged_list@, i);
            assert(vals@.contains(merged_list@[i].1));
        }
        assert forall|x: DayTime| #[trigger] sorted@.contains(x) implies exists|k: Seq<char>|
            #[trigger] m.dom().contains(k) && m[k] == x by {
            assert(vals@.contains(x));
            let j = choose|j: int| 0 <= j < merged_list@.len() && merged_list@[j].1 == x;
            lemma_as_map_index(merged_list@, j);
            assert(m.dom().contains(merged_list@[j].0@) && m[merged_list@[j].0@] == x);
        }
    }
    if sorted.len() == 0 {
        proof {
            let m = as_map(merged_list@);
            if exists|k: Seq<char>|
                #[trigger] m.dom().contains(k) && m[k].total_seconds() > now.total_seconds() {
                let k = choose|k: Seq<char>|
                    #[trigger] m.dom().contains(k) && m[k].total_seconds() > now.total_seconds();
                assert(sorted@.contains(m[k]));
                assert(false);
            }
        }
        None
    } else {
        proof {
            let m = as_map(merged_list@);
            assert(forall|i: int|
                0 <= i < sorted@.len() ==> sorted@.contains(#[trigger] sorted@[i]));
            assert(sorted@.contains(sorted@[0]));
            assert(vals@.contains(sorted@[0]));
            let j = choose|j: int| 0 <= j < merged_list@.len() && merged_list@[j].1 == sorted@[0];
            lemma_as_map_index(merged_list@, j);
            assert(m.dom().contains(merged_list@[j].0@) && m[merged_list@[j].0@].total_seconds()
                > now.total_seconds());
            assert(forall|i: int|
                0 <= i < sorted@.len() ==> vals@.contains(#[trigger] sorted@[i]));
        }
        Some(DepartureSet { times: sorted })
    }
}

/// The day's service window: the latest and the earliest timestamp of the
/// full timetable, or `None` when the timetable is empty.
pub fn service_window(entries: &Vec<(String, DayTime)>) -> (r: Option<(DayTime, DayTime)>)
    ensures
        (r is Some) <==> entries@.len() > 0,
        match r {
            Some(w) => {
                &&& (exists|i: int| 0 <= i < entries@.len() && (#[trigger] entries@[i]).1 == w.0)
                &&& (exists|i: int| 0 <= i < entries@.len() && (#[trigger] entries@[i]).1 == w.1)
                &&& forall|i: int|
                    0 <= i < entries@.len() ==> (#[trigger] entries@[i]).1.total_seconds()
                        <= w.0.total_seconds()
                &&& forall|i: int|
                    0 <= i < entries@.len() ==> (#[trigger] entries@[i]).1.total_seconds()
                        >= w.1.total_seconds()
            },
            None => true,
        },
{
    if entries.len() == 0 {
        return None;
    }
    let mut latest = entries[0].1;
    let mut earliest = entries[0].1;
    let mut i: usize = 1;
    while i < entries.len()
        invariant
            1 <= i <= entries@.len(),
            entries@.len() > 0,
            exists|j: int| 0 <= j < i && (#[trigger] entries@[j]).1 == latest,
            exists|j: int| 0 <= j < i && (#[trigger] entries@[j]).1 == earliest,
            forall|j: int|
                0 <= j < i ==> (#[trigger] entries@[j]).1.total_seconds()
                    <= latest.total_seconds(),
            forall|j: int|
                0 <= j < i ==> (#[trigger] entries@[j]).1.total_seconds()
                    >= earliest.total_seconds(),
        decreases entries@.len() - i,
    {
        if entries[i].1.is_after(&latest) {
            latest = entries[i].1;
        }
        if earliest.is_after(&entries[i].1) {
            earliest = entries[i].1;
        }
        i = i + 1;
    }
    Some((latest, earliest))
}

/// For a trip id present in the predicted map, the reconciled map carries
/// the predicted timestamp — whether or not the id is also scheduled.
pub proof fn lemma_predicted_overrides(
    sched: Seq<(String, DayTime)>,
    pred: Seq<(String, DayTime)>,
    k: Seq<char>,
)
    requires
        as_map(pred).dom().contains(k),
    ensures
        spec_merged(sched, pred).dom().contains(k),
        spec_merged(sched, pred)[k] == as_map(pred)[k],
{
}

/// For a trip id present only in the scheduled map, the reconciled map
/// carries the scheduled timestamp unchanged.
pub proof fn lemma_scheduled_kept(
    sched: Seq<(String, DayTime)>,
    pred: Seq<(String, DayTime)>,
    k: Seq<char>,
)
    requires
        as_map(sched).dom().contains(k),
        !as_map(pred).dom().contains(k),
    ensures
        spec_merged(sched, pred).dom().contains(k),
        spec_merged(sched, pred)[k] == as_map(sched)[k],
{
}

/// A reconciled departure set is strictly ascending and holds no timestamp
/// at or before the clock reading it was built against.
pub proof fn lemma_reconciled_sorted_and_future(
    merged: Map<Seq<char>, DayTime>,
    now: DayTime,
    r: Option<DepartureSet>,
)
    requires
        spec_reconciled(merged, now, r),
        r is Some,
    ensures
        strictly_ascending(r->0@),
        forall|i: int|
            0 <= i < r->0@.len() ==> (#[trigger] r->0@[i]).total_seconds() > now.total_seconds(),
{
}

/// For every trip id in the predicted map whose predicted timestamp is
/// still in the future, the reconciled departure set holds that predicted
/// timestamp — whether or not the trip is also scheduled.
pub proof fn lemma_reconciled_uses_predicted(
    sched: Seq<(String, DayTime)>,
    pred: Seq<(String, DayTime)>,
    now: DayTime,
    r: Option<DepartureSet>,
    k: Seq<char>,
)
    requires
        spec_reconciled(spec_merged(sched, pred), now, r),
        as_map(pred).dom().contains(k),
        as_map(pred)[k].total_seconds() > now.total_seconds(),
    ensures
        r is Some,
        r->0@.contains(as_map(pred)[k]),
{
    lemma_predicted_overrides(sched, pred, k);
}

/// For every trip id only the scheduled map knows, with its timestamp still
/// in the future, the reconciled departure set holds that scheduled
/// timestamp unchanged.
pub proof fn lemma_reconciled_keeps_scheduled(
    sched: Seq<(String, DayTime)>,
    pred: Seq<(String, DayTime)>,
    now: DayTime,
    r: Option<DepartureSet>,
    k: Seq<char>,
)
    requires
        spec_reconciled(spec_merged(sched, pred), now, r),
        as_map(sched).dom().contains(k),
        !as_map(pred).dom().contains(k),
        as_map(sched)[k].total_seconds() > now.total_seconds(),
    ensures
        r is Some,
        r->0@.contains(as_map(sched)[k]),
{
    lemma_scheduled_kept(sched, pred, k);
}

} // verus!
