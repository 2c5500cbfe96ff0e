//! Which tank owns which projectile: a tank does not collide with its own
//! projectiles, steers its own drones, and an infector owns at most so many.
use vstd::prelude::*;

verus! {

/// The owners that the entries `s` record: a later entry for a projectile
/// overrides an earlier one.
pub open spec fn owner_map(s: Seq<(u128, u128)>) -> Map<u128, u128>
    decreases s.len(),
{
    if s.len() == 0 {
        Map::empty()
    } else {
        owner_map(s.drop_last()).insert(s.last().0, s.last().1)
    }
}

/// No projectile has two entries.
pub open spec fn keys_distinct(s: Seq<(u128, u128)>) -> bool {
    forall|i: int, j: int| 0 <= i < j < s.len() ==> (#[trigger] s[i]).0 != (#[trigger] s[j]).0
}

/// The entries of `s` for projectiles other than `b`, in order.
pub open spec fn without_key(s: Seq<(u128, u128)>, b: u128) -> Seq<(u128, u128)>
    decreases s.len(),
{
    if s.len() == 0 {
        s
    } else {
        let w = without_key(s.drop_last(), b);
        if s.last().0 == b {
            w
        } else {
            w.push(s.last())
        }
    }
}

/// Some entry of `s` is for projectile `b`.
pub open spec fn has_key(s: Seq<(u128, u128)>, b: u128) -> bool {
    exists|i: int| 0 <= i < s.len() && (#[trigger] s[i]).0 == b
}

proof fn lemma_owner_map_dom(s: Seq<(u128, u128)>, b: u128)
    ensures
        owner_map(s).dom().contains(b) <==> has_key(s, b),
    decreases s.len(),
{
    if s.len() > 0 {
        let p = s.drop_last();
        lemma_owner_map_dom(p, b);
        if has_key(p, b) {
            let i = choose|i: int| 0 <= i < p.len() && (#[trigger] p[i]).0 == b;
            assert(s[i] == p[i]);
        }
        if has_key(s, b) && s.last().0 != b {
            let i = choose|i: int| 0 <= i < s.len() && (#[trigger] s[i]).0 == b;
            assert(i < s.len() - 1);
            assert(p[i] == s[i]);
        }
        if s.last().0 == b {
            assert(s[s.len() - 1].0 == b);
        }
    }
}

proof fn lemma_owner_map_value(s: Seq<(u128, u128)>, i: int)
    requires
        keys_distinct(s),
        0 <= i < s.len(),
    ensures
        owner_map(s).dom().contains(s[i].0),
        owner_map(s)[s[i].0] == s[i].1,
    decreases s.len(),
{
    let p = s.drop_last();
    if i < s.len() - 1 {
        assert(p[i] == s[i]);
        assert forall|a: int, c: int| 0 <= a < c < p.len() implies (#[trigger] p[a]).0
            != (#[trigger] p[c]).0 by {
            assert(s[a] == p[a] && s[c] == p[c]);
        }
        lemma_owner_map_value(p, i);
        assert(s[i].0 != s[s.len() - 1].0);
    }
}

proof fn lemma_without_key(s: Seq<(u128, u128)>, b: u128)
    ensures
        owner_map(without_key(s, b)) == owner_map(s).remove(b),
        forall|k: u128| #[trigger] has_key(without_key(s, b), k) ==> has_key(s, k) && k != b,
        keys_distinct(s) ==> keys_distinct(without_key(s, b)),
    decreases s.len(),
{
    if s.len() > 0 {
        let p = s.drop_last();
        let w = without_key(p, b);
        lemma_without_key(p, b);
        assert forall|a: int, c: int| 0 <= a < c < p.len() && keys_distinct(s) implies (
        #[trigger] p[a]).0 != (#[trigger] p[c]).0 by {
            assert(s[a] == p[a] && s[c] == p[c]);
        }
        assert forall|k: u128| has_key(without_key(s, b), k) implies has_key(s, k) && k != b by {
            let ws = without_key(s, b);
            let i = choose|i: int| 0 <= i < ws.len() && (#[trigger] ws[i]).0 == k;
            if s.last().0 != b && i == w.len() {
                assert(s[s.len() - 1].0 == k);
            } else {
                assert(w[i] == ws[i]);
                assert(has_key(without_key(p, b), k));
                assert(has_key(p, k));
                let j = choose|j: int| 0 <= j < p.len() && (#[trigger] p[j]).0 == k;
                assert(s[j] == p[j]);
            }
        }
        if s.last().0 == b {
            assert(owner_map(w) =~= owner_map(s).remove(b));
        } else {
            assert(w.push(s.last()).drop_last() =~= w);
            assert(owner_map(w.push(s.last())) =~= owner_map(s).remove(b));
            if keys_distinct(s) {
                let x = s.last();
                if has_key(w, x.0) {
                    let j = choose|j: int| 0 <= j < p.len() && (#[trigger] p[j]).0 == x.0;
                    assert(s[j] == p[j]);
                    assert(s[j].0 == s[s.len() - 1].0);
                }
                let q = w.push(x);
                assert forall|a: int, c: int| 0 <= a < c < q.len() implies (#[trigger] q[a]).0
                    != (#[trigger] q[c]).0 by {
                    if c == w.len() {
                        assert(q[a] == w[a]);
                        assert(has_key(w, q[a].0));
                    } else {
                        assert(q[a] == w[a] && q[c] == w[c]);
                    }
                }
            }
        }
    }
}

/// The entries without those for projectile `b`.
fn entries_without(entries: &Vec<(u128, u128)>, b: u128) -> (r: Vec<(u128, u128)>)
    ensures
        r@ == without_key(entries@, b),
{
    let mut r: Vec<(u128, u128)> = Vec::new();
    let mut i: usize = 0;
    while i < entries.len()
        invariant
            i <= entries@.len(),
            r@ == without_key(entries@.take(i as int), b),
        decreases entries@.len() - i,
    {
        assert(entries@.take(i + 1).drop_last() =~= entries@.take(i as int));
        let e = entries[i];
        if e.0 != b {
            r.push(e);
        }
        i = i + 1;
    }
    assert(entries@.take(entries@.len() as int) =~= entries@);
    r
}

/// The owner of each live projectile that a tank owns.
pub struct BulletRegistry {
    entries: Vec<(u128, u128)>,
}

impl View for BulletRegistry {
    type V = Map<u128, u128>;

    /// Each registered projectile, mapped to the tank that owns it.
    closed spec fn view(&self) -> Map<u128, u128> {
        owner_map(self.entries@)
    }
}

impl BulletRegistry {
    #[verifier::type_invariant]
    spec fn inv(self) -> bool {
        keys_distinct(self.entries@)
    }

    /// An empty registry.
    pub fn new() -> (r: BulletRegistry)
        ensures
            r@ == Map::<u128, u128>::empty(),
    {
        BulletRegistry { entries: Vec::new() }
    }

    /// Records that tank `owner` owns projectile `bullet`.
    pub fn register(&mut self, bullet: u128, owner: u128)
        ensures
            final(self)@ == old(self)@.insert(bullet, owner),
    {
        proof {
            use_type_invariant(&*self);
        }
        let mut r = entries_without(&self.entries, bullet);
        proof {
            lemma_without_key(self.entries@, bullet);
            assert(!has_key(r@, bullet));
            assert(keys_distinct(r@));
        }
        let ghost before = r@;
        r.push((bullet, owner));
        proof {
            assert forall|a: int, c: int| 0 <= a < c < r@.len() implies (#[trigger] r@[a]).0
                != (#[trigger] r@[c]).0 by {
                if c == before.len() {
                    assert(r@[a] == before[a]);
                    assert(has_key(before, r@[a].0));
                    assert(r@[c].0 == bullet);
                } else {
                    assert(r@[a] == before[a] && r@[c] == before[c]);
                }
            }
            assert(r@.drop_last() == before);
            assert(owner_map(r@) =~= owner_map(self.entries@).insert(bullet, owner));
        }
        self.entries = r;
    }

    /// Forgets projectile `bullet`.
    pub fn retire(&mut self, bullet: u128)
        ensures
            final(self)@ == old(self)@.remove(bullet),
    {
        proof {
            use_type_invariant(&*self);
            lemma_without_key(self.entries@, bullet);
        }
        let r = entries_without(&self.entries, bullet);
        self.entries = r;
    }

    /// Tank `owner` owns projectile `bullet`.
    pub fn owns(&self, owner: u128, bullet: u128) -> (r: bool)
        ensures
            r == (self@.contains_key(bullet) && self@[bullet] == owner),
    {
        proof {
            use_type_invariant(self);
            lemma_owner_map_dom(self.entries@, bullet);
        }
        let mut i: usize = 0;
        while i < self.entries.len()
            invariant
                i <= self.entries@.len(),
                keys_distinct(self.entries@),
                forall|j: int| 0 <= j < i ==> (#[trigger] self.entries@[j]).0 != bullet,
            decreases self.entries@.len() - i,
        {
            if self.entries[i].0 == bullet {
                proof {
                    lemma_owner_map_value(self.entries@, i as int);
                }
                return self.entries[i].1 == owner;
            }
            i = i + 1;
        }
        false
    }

    /// The projectiles that tank `owner` owns, each once.
    pub fn owned_by(&self, owner: u128) -> (r: Vec<u128>)
        ensures
            forall|b: u128| r@.contains(b) <==> (self@.contains_key(b) && self@[b] == owner),
            r@.no_duplicates(),
    {
        proof {
            use_type_invariant(self);
        }
        let mut r: Vec<u128> = Vec::new();
        let mut i: usize = 0;
        while i < self.entries.len()
            invariant
                i <= self.entries@.len(),
                keys_distinct(self.entries@),
                r@.no_duplicates(),
                forall|b: u128|
                    #[trigger] r@.contains(b) <==> exists|j: int|
                        0 <= j < i && #[trigger] self.entries@[j] == (b, owner),
            decreases self.entries@.len() - i,
        {
            let e = self.entries[i];
            if e.1 == owner {
                let ghost before = r@;
                proof {
                    if before.contains(e.0) {
                        let j = choose|j: int| 0 <= j < i && #[trigger] self.entries@[j] == (e.0, owner);
                        assert(self.entries@[j].0 == self.entries@[i as int].0);
                    }
                }
                r.push(e.0);
                proof {
                    assert forall|b: u128| r@.contains(b) <==> exists|j: int|
                        0 <= j < i + 1 && #[trigger] self.entries@[j] == (b, owner) by {
                        if r@.contains(b) && b != e.0 {
                            let k = choose|k: int| 0 <= k < r@.len() && r@[k] == b;
                            assert(k < before.len());
                            assert(before[k] == b);
                            assert(before.contains(b));
                            let j = choose|j: int| 0 <= j < i && #[trigger] self.entries@[j] == (b, owner);
                            assert(0 <= j < i + 1 && self.entries@[j] == (b, owner));
                        }
                        if b == e.0 {
                            assert(r@[before.len() as int] == b);
                            assert(self.entries@[i as int] == (b, owner));
                        }
                        if exists|j: int| 0 <= j < i + 1 && #[trigger] self.entries@[j] == (b, owner) {
                            let j = choose|j: int| 0 <= j < i + 1 && #[trigger] self.entries@[j] == (b, owner);
                            if j < i {
                                assert(before.contains(b));
                                let k = choose|k: int| 0 <= k < before.len() && before[k] == b;
                                assert(r@[k] == b);
                            } else {
                                assert(r@[before.len() as int] == b);
                            }
                        }
                    }
                    assert forall|a: int, c: int| 0 <= a < r@.len() && 0 <= c < r@.len() && a != c
                        implies r@[a] != r@[c] by {
                        if a == before.len() {
                            assert(r@[c] == before[c]);
                            if r@[a] == r@[c] {
                                assert(before.contains(e.0));
                            }
                        } else if c == before.len() {
                            assert(before[a] == r@[a]);
                            if r@[a] == r@[c] {
                                assert(before.contains(e.0));
                            }
                        } else {
                            assert(before[a] == r@[a] && before[c] == r@[c]);
                        }
                    }
                }
            }
            i = i + 1;
        }
        proof {
            assert forall|b: u128| r@.contains(b) <==> (owner_map(self.entries@).contains_key(b)
                && owner_map(self.entries@)[b] == owner) by {
                lemma_owner_map_dom(self.entries@, b);
                if r@.contains(b) {
                    let j = choose|j: int|
                        0 <= j < self.entries@.len() && #[trigger] self.entries@[j] == (b, owner);
                    lemma_owner_map_value(self.entries@, j);
                }
                if owner_map(self.entries@).contains_key(b) && owner_map(self.entries@)[b] == owner {
                    let j = choose|j: int|
                        0 <= j < self.entries@.len() && (#[trigger] self.entries@[j]).0 == b;
                    lemma_owner_map_value(self.entries@, j);
                    assert(self.entries@[j] == (b, owner));
                }
            }
        }
        r
    }

    /// Forgets every projectile that tank `owner` owns.
    pub fn release_all(&mut self, owner: u128)
        ensures
            forall|b: u128|
                #![trigger final(self)@.contains_key(b)]
                final(self)@.contains_key(b) <==> (old(self)@.contains_key(b) && old(self)@[b]
                    != owner),
            forall|b: u128| #[trigger] final(self)@.contains_key(b) ==> final(self)@[b] == old(self)@[b],
    {
        let owned = self.owned_by(owner);
        let mut i: usize = 0;
        while i < owned.len()
            invariant
                i <= owned@.len(),
                forall|b: u128| owned@.contains(b) <==> (old(self)@.contains_key(b) && old(self)@[b] == owner),
                forall|b: u128|
                    #![trigger self@.contains_key(b)]
                    self@.contains_key(b) <==> (old(self)@.contains_key(b) && !owned@.take(i as int).contains(b)),
                forall|b: u128| #[trigger] self@.contains_key(b) ==> self@[b] == old(self)@[b],
            decreases owned@.len() - i,
        {
            let b = owned[i];
            self.retire(b);
            proof {
                let t0 = owned@.take(i as int);
                let t1 = owned@.take(i + 1);
                assert(t1 =~= t0.push(b));
                assert forall|x: u128| t1.contains(x) <==> (t0.contains(x) || x == b) by {
                    if t1.contains(x) {
                        let k = choose|k: int| 0 <= k < t1.len() && t1[k] == x;
                        if k < i {
                            assert(t0[k] == x);
                        }
                    }
                    if t0.contains(x) {
                        let k = choose|k: int| 0 <= k < t0.len() && t0[k] == x;
                        assert(t1[k] == x);
                    }
                    if x == b {
                        assert(t1[i as int] == x);
                    }
                }
            }
            i = i + 1;
        }
        proof {
            assert(owned@.take(owned@.len() as int) =~= owned@);
        }
    }
}

/// A projectile has at most one owner: registering it for a tank takes it
/// from any tank that owned it before, and retiring it leaves it with none.
pub proof fn lemma_one_owner(m: Map<u128, u128>, bullet: u128, owner: u128, other: u128)
    requires
        other != owner,
    ensures
        m.insert(bullet, owner)[bullet] == owner,
        !(m.insert(bullet, owner).contains_key(bullet) && m.insert(bullet, owner)[bullet] == other),
        !m.remove(bullet).contains_key(bullet),
{
}

} // verus!
