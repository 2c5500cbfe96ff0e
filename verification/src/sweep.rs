//! The broad phase of collision detection: a sweep along the x axis over the
//! ends of every object's extent yields the pairs of objects whose extents
//! overlap, and only those are tested for contact.
use vstd::prelude::*;

verus! {

/// One end of an object's extent along the x axis.
#[derive(Clone, Copy, Debug, PartialEq, Eq, Structural)]
pub struct SweepEvent {
    /// The object.
    pub id: u128,
    /// The left end (`true`) or the right end (`false`).
    pub is_start: bool,
}

/// `s` without any occurrence of `id`, in order.
pub open spec fn without(s: Seq<u128>, id: u128) -> Seq<u128>
    decreases s.len(),
{
    if s.len() == 0 {
        s
    } else {
        let w = without(s.drop_last(), id);
        if s.last() == id {
            w
        } else {
            w.push(s.last())
        }
    }
}

/// The objects whose extent the sweep is inside after the events `e`, in the
/// order in which the sweep entered them.
pub open spec fn active_after(e: Seq<SweepEvent>) -> Seq<u128>
    decreases e.len(),
{
    if e.len() == 0 {
        Seq::empty()
    } else {
        let prev = active_after(e.drop_last());
        if e.last().is_start {
            if prev.contains(e.last().id) {
                prev
            } else {
                prev.push(e.last().id)
            }
        } else {
            without(prev, e.last().id)
        }
    }
}

/// The pairs that the sweep over `e` reports: at each left end, the entering
/// object paired with each object that the sweep is inside, in that order.
pub open spec fn sweep_pairs(e: Seq<SweepEvent>) -> Seq<(u128, u128)>
    decreases e.len(),
{
    if e.len() == 0 {
        Seq::empty()
    } else {
        let prev = e.drop_last();
        sweep_pairs(prev) + if e.last().is_start {
            active_after(prev).map_values(|a: u128| (e.last().id, a))
        } else {
            Seq::empty()
        }
    }
}

fn contains_id(v: &Vec<u128>, id: u128) -> (r: bool)
    ensures
        r == v@.contains(id),
{
    let mut i: usize = 0;
    while i < v.len()
        invariant
            i <= v@.len(),
            forall|j: int| 0 <= j < i ==> v@[j] != id,
        decreases v@.len() - i,
    {
        if v[i] == id {
            return true;
        }
        i = i + 1;
    }
    false
}

fn remove_id(v: &Vec<u128>, id: u128) -> (r: Vec<u128>)
    ensures
        r@ == without(v@, id),
{
    let mut r: Vec<u128> = Vec::new();
    let mut i: usize = 0;
    while i < v.len()
        invariant
            i <= v@.len(),
            r@ == without(v@.take(i as int), id),
        decreases v@.len() - i,
    {
        assert(v@.take(i + 1).drop_last() =~= v@.take(i as int));
        if v[i] != id {
            r.push(v[i]);
        }
        i = i + 1;
    }
    assert(v@.take(v@.len() as int) =~= v@);
    r
}

/// The candidate pairs of the sweep over `events`, which lists the ends of
/// the objects' extents from left to right: when the sweep reaches the left
/// end of an object, that object is paired with every object whose extent
/// the sweep is inside, and then the sweep enters it; at a right end it
/// leaves the object.
pub fn broad_phase_pairs(events: &Vec<SweepEvent>) -> (pairs: Vec<(u128, u128)>)
    ensures
        pairs@ == sweep_pairs(events@),
{
    let mut active: Vec<u128> = Vec::new();
    let mut pairs: Vec<(u128, u128)> = Vec::new();
    let mut i: usize = 0;
    while i < events.len()
        invariant
            i <= events@.len(),
            active@ == active_after(events@.take(i as int)),
            pairs@ == sweep_pairs(events@.take(i as int)),
        decreases events@.len() - i,
    {
        let ev = events[i];
        let ghost before = events@.take(i as int);
        assert(events@.take(i + 1).drop_last() =~= before);
        assert(events@.take(i + 1).last() == ev);
        if ev.is_start {
            let mut j: usize = 0;
            while j < active.len()
                invariant
                    j <= active@.len(),
                    active@ == active_after(before),
                    pairs@ == sweep_pairs(before) + active@.take(j as int).map_values(
                        |a: u128| (ev.id, a),
                    ),
                decreases active@.len() - j,
            {
                pairs.push((ev.id, active[j]));
                assert(active@.take(j + 1).map_values(|a: u128| (ev.id, a)) =~= active@.take(
                    j as int,
                ).map_values(|a: u128| (ev.id, a)).push((ev.id, active@[j as int])));
                j = j + 1;
            }
            assert(active@.take(active@.len() as int) =~= active@);
            if !contains_id(&active, ev.id) {
                active.push(ev.id);
            }
        } else {
            active = remove_id(&active, ev.id);
            assert(pairs@ =~= sweep_pairs(before) + Seq::empty());
        }
        i = i + 1;
    }
    assert(events@.take(events@.len() as int) =~= events@);
    pairs
}

/// The left end of the extent of `id`.
pub open spec fn start_of(id: u128) -> SweepEvent {
    SweepEvent { id, is_start: true }
}

/// The right end of the extent of `id`.
pub open spec fn end_of(id: u128) -> SweepEvent {
    SweepEvent { id, is_start: false }
}

/// After the events `e` the sweep is inside the extent of `x`: its left end
/// was passed and its right end was not passed since.
pub open spec fn open_after(e: Seq<SweepEvent>, x: u128) -> bool {
    exists|j: int|
        0 <= j < e.len() && #[trigger] e[j] == start_of(x) && forall|l: int|
            j < l < e.len() ==> e[l] != end_of(x)
}

/// Every object has at most one left end and at most one right end among
/// `e`, and its left end comes first.
pub open spec fn well_formed_events(e: Seq<SweepEvent>) -> bool {
    forall|i: int, j: int|
        0 <= i < j < e.len() && (#[trigger] e[i]).id == (#[trigger] e[j]).id ==> e[i].is_start
            && !e[j].is_start
}

proof fn lemma_without_contains(s: Seq<u128>, id: u128, x: u128)
    ensures
        without(s, id).contains(x) <==> s.contains(x) && x != id,
    decreases s.len(),
{
    if s.len() > 0 {
        let p = s.drop_last();
        lemma_without_contains(p, id, x);
        if s.contains(x) && x != id && x != s.last() {
            let j = choose|j: int| 0 <= j < s.len() && s[j] == x;
            assert(p[j] == x);
        }
        if p.contains(x) {
            let j = choose|j: int| 0 <= j < p.len() && p[j] == x;
            assert(s[j] == x);
        }
        if x == s.last() && x != id {
            assert(without(s, id).last() == x);
        }
        if x == s.last() {
            assert(s[s.len() - 1] == x);
        }
        let w = without(p, id);
        if s.last() != id && w.contains(x) {
            let j = choose|j: int| 0 <= j < w.len() && w[j] == x;
            assert(w.push(s.last())[j] == x);
        }
        if s.last() != id && w.push(s.last()).contains(x) && x != s.last() {
            let j = choose|j: int| 0 <= j < w.len() + 1 && w.push(s.last())[j] == x;
            assert(w[j] == x);
        }
    }
}

proof fn lemma_without_no_duplicates(s: Seq<u128>, id: u128)
    requires
        s.no_duplicates(),
    ensures
        without(s, id).no_duplicates(),
    decreases s.len(),
{
    if s.len() > 0 {
        let p = s.drop_last();
        assert(p.no_duplicates());
        lemma_without_no_duplicates(p, id);
        if s.last() != id {
            lemma_without_contains(p, id, s.last());
            let w = without(p, id);
            if p.contains(s.last()) {
                let j = choose|j: int| 0 <= j < p.len() && p[j] == s.last();
                assert(s[j] == s[s.len() - 1]);
            }
            assert forall|a: int, b: int|
                0 <= a < w.push(s.last()).len() && 0 <= b < w.push(s.last()).len() && a != b
                    implies w.push(s.last())[a] != w.push(s.last())[b] by {
                if a == w.len() {
                    assert(w[b] == w.push(s.last())[b]);
                } else if b == w.len() {
                    assert(w[a] == w.push(s.last())[a]);
                }
            }
        }
    }
}

/// The sweep is inside each object at most once.
proof fn lemma_active_no_duplicates(e: Seq<SweepEvent>)
    ensures
        active_after(e).no_duplicates(),
    decreases e.len(),
{
    if e.len() > 0 {
        let prev = active_after(e.drop_last());
        lemma_active_no_duplicates(e.drop_last());
        if e.last().is_start {
            if !prev.contains(e.last().id) {
                let q = prev.push(e.last().id);
                assert forall|a: int, b: int|
                    0 <= a < q.len() && 0 <= b < q.len() && a != b implies q[a] != q[b] by {
                    if a == prev.len() {
                        assert(prev[b] == q[b]);
                    } else if b == prev.len() {
                        assert(prev[a] == q[a]);
                    }
                }
            }
        } else {
            lemma_without_no_duplicates(prev, e.last().id);
        }
    }
}

/// The objects that the sweep is inside are those whose left end was passed
/// and whose right end was not passed since.
pub proof fn lemma_active_after(e: Seq<SweepEvent>, x: u128)
    ensures
        active_after(e).contains(x) <==> open_after(e, x),
    decreases e.len(),
{
    if e.len() > 0 {
        let p = e.drop_last();
        let n = e.len() - 1;
        let ev = e.last();
        lemma_active_after(p, x);
        let prev = active_after(p);
        // open_after(e, x) for x other than ev.id agrees with open_after(p, x)
        if open_after(p, x) && ev != end_of(x) {
            let j = choose|j: int|
                0 <= j < p.len() && #[trigger] p[j] == start_of(x) && forall|l: int|
                    j < l < p.len() ==> p[l] != end_of(x);
            assert(e[j] == start_of(x));
            assert forall|l: int| j < l < e.len() implies e[l] != end_of(x) by {
                if l < n {
                    assert(p[l] == e[l]);
                }
            }
        }
        if open_after(e, x) {
            let j = choose|j: int|
                0 <= j < e.len() && #[trigger] e[j] == start_of(x) && forall|l: int|
                    j < l < e.len() ==> e[l] != end_of(x);
            if j < n {
                assert(p[j] == start_of(x));
                assert forall|l: int| j < l < p.len() implies p[l] != end_of(x) by {
                    assert(p[l] == e[l]);
                }
                assert(open_after(p, x));
            } else {
                assert(ev == start_of(x));
            }
            if ev == end_of(x) {
                assert(e[n] == end_of(x));
                assert(false);
            }
        }
        if ev == start_of(x) {
            assert(e[n] == start_of(x));
            assert(open_after(e, x));
            if !prev.contains(x) {
                assert(prev.push(x)[prev.len() as int] == x);
            }
        }
        if ev.is_start {
            if !prev.contains(ev.id) {
                let q = prev.push(ev.id);
                if prev.contains(x) {
                    let j = choose|j: int| 0 <= j < prev.len() && prev[j] == x;
                    assert(q[j] == x);
                }
                if q.contains(x) && x != ev.id {
                    let j = choose|j: int| 0 <= j < q.len() && q[j] == x;
                    assert(prev[j] == x);
                }
            }
        } else {
            lemma_without_contains(prev, ev.id, x);
            if ev == end_of(x) {
                assert(e[n] == end_of(x));
            }
        }
    }
}

/// The sweep reports `(k, a)` exactly when it reaches the left end of `k`
/// while it is inside `a`.
pub proof fn lemma_sweep_pairs(e: Seq<SweepEvent>, k: u128, a: u128)
    ensures
        sweep_pairs(e).contains((k, a)) <==> exists|i: int|
            0 <= i < e.len() && #[trigger] e[i] == start_of(k) && open_after(e.take(i), a),
    decreases e.len(),
{
    if e.len() > 0 {
        let p = e.drop_last();
        let n = e.len() - 1;
        let ev = e.last();
        lemma_sweep_pairs(p, k, a);
        let sp = sweep_pairs(p);
        let block = if ev.is_start {
            active_after(p).map_values(|x: u128| (ev.id, x))
        } else {
            Seq::<(u128, u128)>::empty()
        };
        assert(sweep_pairs(e) == sp + block);
        assert(e.take(n) =~= p);
        lemma_active_after(p, a);
        if sweep_pairs(e).contains((k, a)) {
            let m = choose|m: int|
                0 <= m < (sp + block).len() && (sp + block)[m] == (k, a);
            if m < sp.len() {
                assert(sp[m] == (k, a));
                assert(sp.contains((k, a)));
                let i = choose|i: int|
                    0 <= i < p.len() && #[trigger] p[i] == start_of(k) && open_after(p.take(i), a);
                assert(e[i] == start_of(k));
                assert(e.take(i) =~= p.take(i));
            } else {
                assert(block[m - sp.len()] == (k, a));
                assert(active_after(p)[m - sp.len()] == a);
                assert(active_after(p).contains(a));
                assert(e[n] == start_of(k));
            }
        }
        if exists|i: int| 0 <= i < e.len() && #[trigger] e[i] == start_of(k) && open_after(e.take(i), a) {
            let i = choose|i: int|
                0 <= i < e.len() && #[trigger] e[i] == start_of(k) && open_after(e.take(i), a);
            if i < n {
                assert(p[i] == start_of(k));
                assert(e.take(i) =~= p.take(i));
                let m = choose|m: int| 0 <= m < sp.len() && sp[m] == (k, a);
                assert((sp + block)[m] == (k, a));
            } else {
                assert(active_after(p).contains(a));
                let m = choose|m: int| 0 <= m < active_after(p).len() && active_after(p)[m] == a;
                assert(block[m] == (k, a));
                assert((sp + block)[sp.len() + m] == (k, a));
            }
        }
    }
}

proof fn lemma_start_unique(e: Seq<SweepEvent>, id: u128, x: int, y: int)
    requires
        well_formed_events(e),
        0 <= x < e.len(),
        0 <= y < e.len(),
        e[x] == start_of(id),
        e[y] == start_of(id),
    ensures
        x == y,
{
    if x < y {
        assert(e[x].id == e[y].id);
    } else if y < x {
        assert(e[y].id == e[x].id);
    }
}

/// When every object has at most one left and one right end, left before
/// right, the sweep reports each overlapping pair of objects exactly once:
/// no pair twice, no object with itself, and no pair in both orders.
pub proof fn lemma_sweep_reports_each_pair_once(e: Seq<SweepEvent>)
    requires
        well_formed_events(e),
    ensures
        sweep_pairs(e).no_duplicates(),
        forall|k: u128, a: u128|
            #[trigger] sweep_pairs(e).contains((k, a)) ==> k != a && !sweep_pairs(e).contains(
                (a, k),
            ),
    decreases e.len(),
{
    if e.len() > 0 {
        let p = e.drop_last();
        let n = e.len() - 1;
        let ev = e.last();
        assert forall|i: int, j: int|
            0 <= i < j < p.len() && (#[trigger] p[i]).id == (#[trigger] p[j]).id implies p[i].is_start
            && !p[j].is_start by {
            assert(e[i] == p[i] && e[j] == p[j]);
        }
        lemma_sweep_reports_each_pair_once(p);
        let sp = sweep_pairs(p);
        let act = active_after(p);
        lemma_active_no_duplicates(p);
        let block = if ev.is_start {
            act.map_values(|x: u128| (ev.id, x))
        } else {
            Seq::<(u128, u128)>::empty()
        };
        assert(sweep_pairs(e) == sp + block);
        let all = sp + block;
        assert forall|x: int, y: int| 0 <= x < all.len() && 0 <= y < all.len() && x != y implies all[x]
            != all[y] by {
            if x < sp.len() && y < sp.len() {
                assert(all[x] == sp[x] && all[y] == sp[y]);
            } else if x >= sp.len() && y >= sp.len() {
                assert(all[x] == block[x - sp.len()] && all[y] == block[y - sp.len()]);
                assert(act[x - sp.len()] != act[y - sp.len()]);
            } else {
                let (u, v) = if x < sp.len() {
                    (x, y)
                } else {
                    (y, x)
                };
                // u indexes the pairs of earlier events, v this event's pairs
                assert(all[v] == block[v - sp.len()]);
                assert(all[v].0 == ev.id);
                if all[u] == all[v] {
                    assert(sp[u] == all[u]);
                    assert(sp.contains((ev.id, all[v].1)));
                    lemma_sweep_pairs(p, ev.id, all[v].1);
                    let i = choose|i: int|
                        0 <= i < p.len() && #[trigger] p[i] == start_of(ev.id) && open_after(
                            p.take(i),
                            all[v].1,
                        );
                    assert(e[i] == p[i]);
                    assert(e[i].id == e[n].id);
                }
            }
        }
        assert forall|k: u128, a: u128| #[trigger] sweep_pairs(e).contains((k, a)) implies k != a
            && !sweep_pairs(e).contains((a, k)) by {
            lemma_sweep_pairs(e, k, a);
            let i = choose|i: int|
                0 <= i < e.len() && #[trigger] e[i] == start_of(k) && open_after(e.take(i), a);
            let j = choose|j: int|
                0 <= j < e.take(i).len() && #[trigger] e.take(i)[j] == start_of(a) && forall|l: int|
                    j < l < e.take(i).len() ==> e.take(i)[l] != end_of(a);
            assert(e[j] == start_of(a));
            if k == a {
                lemma_start_unique(e, k, i, j);
            }
            if sweep_pairs(e).contains((a, k)) {
                lemma_sweep_pairs(e, a, k);
                let i2 = choose|i2: int|
                    0 <= i2 < e.len() && #[trigger] e[i2] == start_of(a) && open_after(
                        e.take(i2),
                        k,
                    );
                let j2 = choose|j2: int|
                    0 <= j2 < e.take(i2).len() && #[trigger] e.take(i2)[j2] == start_of(k)
                        && forall|l: int| j2 < l < e.take(i2).len() ==> e.take(i2)[l] != end_of(k);
                assert(e[j2] == start_of(k));
                lemma_start_unique(e, a, i2, j);
                lemma_start_unique(e, k, i, j2);
            }
        }
    }
}

} // verus!
