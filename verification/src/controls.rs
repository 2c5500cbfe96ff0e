//! What the player's keys and the computer players' dice ask a tank to do
//! with its experience: promote to other classes or upgrade levels.
use vstd::prelude::*;
use crate::evolution::{evolves_to_spec, Stat, TankClass};
use crate::input::Input;

verus! {

/// The targets among `targets` whose key is set: the target at position `x`
/// is selected by `keys[x]`. The order of `targets` is kept.
pub open spec fn selected_targets(targets: Seq<TankClass>, keys: Seq<bool>) -> Seq<TankClass>
    decreases targets.len(),
{
    if targets.len() == 0 {
        Seq::empty()
    } else {
        let n = targets.len() - 1;
        selected_targets(targets.take(n), keys) + if keys[n] {
            seq![targets[n]]
        } else {
            Seq::empty()
        }
    }
}

/// The promotions that `keys` select for a tank of class `class`, in the
/// order in which they are carried out: the `x`-th class that `class`
/// evolves to is selected by `keys[x]`.
pub fn promotion_choices(class: TankClass, keys: [bool; 9]) -> (r: Vec<TankClass>)
    ensures
        r@ == selected_targets(evolves_to_spec(class), keys@),
{
    let targets = class.evolves_to();
    proof {
        crate::evolution::lemma_at_most_nine_promotions(class);
    }
    let mut r: Vec<TankClass> = Vec::new();
    let mut x: usize = 0;
    while x < targets.len()
        invariant
            x <= targets@.len() <= 9,
            targets@ == evolves_to_spec(class),
            r@ == selected_targets(targets@.take(x as int), keys@),
        decreases targets@.len() - x,
    {
        let ghost before = targets@.take(x as int);
        assert(targets@.take(x + 1).take(x as int) =~= before);
        if keys[x] {
            r.push(targets[x]);
        }
        x = x + 1;
    }
    assert(targets@.take(targets@.len() as int) =~= targets@);
    r
}

/// The stat that a computer player upgrades when `rolls` are the outcomes of
/// its dice for maximum hit points, regeneration, reload, damage, speed and
/// bullet speed: the first stat whose roll came up, if any.
pub open spec fn first_rolled_stat(rolls: Seq<bool>) -> Option<Stat> {
    if rolls[0] {
        Some(Stat::Hp)
    } else if rolls[1] {
        Some(Stat::Regen)
    } else if rolls[2] {
        Some(Stat::Reload)
    } else if rolls[3] {
        Some(Stat::Damage)
    } else if rolls[4] {
        Some(Stat::Speed)
    } else if rolls[5] {
        Some(Stat::BulletSpeed)
    } else {
        None
    }
}

/// The stat that a computer player upgrades, given its dice.
pub fn ai_upgrade_choice(rolls: [bool; 6]) -> (r: Option<Stat>)
    ensures
        r == first_rolled_stat(rolls@),
{
    if rolls[0] {
        Some(Stat::Hp)
    } else if rolls[1] {
        Some(Stat::Regen)
    } else if rolls[2] {
        Some(Stat::Reload)
    } else if rolls[3] {
        Some(Stat::Damage)
    } else if rolls[4] {
        Some(Stat::Speed)
    } else if rolls[5] {
        Some(Stat::BulletSpeed)
    } else {
        None
    }
}

/// The stats that the number keys `1` to `6` select, in the order of the
/// keys, when `keys[i]` says whether key `i + 1` went down: maximum hit
/// points, regeneration, reload, damage, speed, bullet speed.
pub open spec fn seq_stats(keys: Seq<bool>) -> Seq<Stat> {
    (if keys[0] { seq![Stat::Hp] } else { Seq::empty() })
    + (if keys[1] { seq![Stat::Regen] } else { Seq::empty() })
    + (if keys[2] { seq![Stat::Reload] } else { Seq::empty() })
    + (if keys[3] { seq![Stat::Damage] } else { Seq::empty() })
    + (if keys[4] { seq![Stat::Speed] } else { Seq::empty() })
    + (if keys[5] { seq![Stat::BulletSpeed] } else { Seq::empty() })
}

/// What the player asks for in one frame.
#[derive(Debug)]
pub enum EvolutionRequest {
    /// Shift is held: promote to these classes, in this order.
    Promote(Vec<TankClass>),
    /// Shift is not held: upgrade these stats, in this order.
    Upgrade(Vec<Stat>),
}

impl Input {
    /// Which of the number keys `1` to `9` went down during this frame.
    pub open spec fn number_keys_pressed(self) -> Seq<bool> {
        seq![
            self.u1.is_down && self.u1.just,
            self.u2.is_down && self.u2.just,
            self.u3.is_down && self.u3.just,
            self.u4.is_down && self.u4.just,
            self.u5.is_down && self.u5.just,
            self.u6.is_down && self.u6.just,
            self.u7.is_down && self.u7.just,
            self.u8.is_down && self.u8.just,
            self.u9.is_down && self.u9.just,
        ]
    }

    /// Which of the number keys `1` to `9` went down during this frame.
    pub fn promotion_keys(&self) -> (r: [bool; 9])
        ensures
            r@ == self.number_keys_pressed(),
    {
        let r = [
            self.u1.pressed(),
            self.u2.pressed(),
            self.u3.pressed(),
            self.u4.pressed(),
            self.u5.pressed(),
            self.u6.pressed(),
            self.u7.pressed(),
            self.u8.pressed(),
            self.u9.pressed(),
        ];
        assert(r@ =~= self.number_keys_pressed());
        r
    }

    /// What the player asks a tank of class `class` to do in this frame:
    /// with shift held, the number keys that went down select promotions;
    /// otherwise the keys `1` to `6` that went down select upgrades.
    pub fn evolution_request(&self, class: TankClass) -> (r: EvolutionRequest)
        ensures
            self.shift.is_down ==> (r matches EvolutionRequest::Promote(v) && v@ == selected_targets(
                evolves_to_spec(class),
                self.number_keys_pressed(),
            )),
            !self.shift.is_down ==> (r matches EvolutionRequest::Upgrade(v) && v@ == seq_stats(
                self.number_keys_pressed(),
            )),
    {
        let keys = self.promotion_keys();
        if self.shift.is_down {
            EvolutionRequest::Promote(promotion_choices(class, keys))
        } else {
            let mut stats: Vec<Stat> = Vec::new();
            if keys[0] {
                stats.push(Stat::Hp);
            }
            if keys[1] {
                stats.push(Stat::Regen);
            }
            if keys[2] {
                stats.push(Stat::Reload);
            }
            if keys[3] {
                stats.push(Stat::Damage);
            }
            if keys[4] {
                stats.push(Stat::Speed);
            }
            if keys[5] {
                stats.push(Stat::BulletSpeed);
            }
            assert(stats@ =~= seq_stats(keys@));
            EvolutionRequest::Upgrade(stats)
        }
    }
}

/// The keys select only targets that are offered, and never more of them
/// than there are targets.
pub proof fn lemma_selected_targets_offered(targets: Seq<TankClass>, keys: Seq<bool>, c: TankClass)
    ensures
        selected_targets(targets, keys).contains(c) ==> targets.contains(c),
        selected_targets(targets, keys).len() <= targets.len(),
    decreases targets.len(),
{
    if targets.len() > 0 {
        let n = targets.len() - 1;
        let front = targets.take(n);
        lemma_selected_targets_offered(front, keys, c);
        let rest = selected_targets(front, keys);
        let last: Seq<TankClass> = if keys[n] {
            seq![targets[n]]
        } else {
            Seq::empty()
        };
        if (rest + last).contains(c) {
            let m = choose|m: int| 0 <= m < (rest + last).len() && (rest + last)[m] == c;
            if m < rest.len() {
                assert(rest[m] == c);
                assert(rest.contains(c));
                let j = choose|j: int| 0 <= j < front.len() && front[j] == c;
                assert(targets[j] == c);
            } else {
                assert(last[m - rest.len()] == c);
                assert(targets[n] == c);
            }
        }
    }
}

/// Whatever the keys, a tank is only ever promoted to a class that its class
/// offers.
pub proof fn lemma_choices_are_offered(class: TankClass, keys: Seq<bool>, c: TankClass)
    ensures
        selected_targets(evolves_to_spec(class), keys).contains(c) ==> evolves_to_spec(
            class,
        ).contains(c),
        selected_targets(evolves_to_spec(class), keys).len() <= 9,
{
    lemma_selected_targets_offered(evolves_to_spec(class), keys, c);
    crate::evolution::lemma_at_most_nine_promotions(class);
}

/// The promotion keys are the number keys `1` to `9`, in that order, each
/// counted when it went down during this frame.
pub proof fn lemma_number_keys(input: Input)
    ensures
        input.number_keys_pressed().len() == 9,
        input.number_keys_pressed()[0] == (input.u1.is_down && input.u1.just),
        input.number_keys_pressed()[1] == (input.u2.is_down && input.u2.just),
        input.number_keys_pressed()[2] == (input.u3.is_down && input.u3.just),
        input.number_keys_pressed()[3] == (input.u4.is_down && input.u4.just),
        input.number_keys_pressed()[4] == (input.u5.is_down && input.u5.just),
        input.number_keys_pressed()[5] == (input.u6.is_down && input.u6.just),
        input.number_keys_pressed()[6] == (input.u7.is_down && input.u7.just),
        input.number_keys_pressed()[7] == (input.u8.is_down && input.u8.just),
        input.number_keys_pressed()[8] == (input.u9.is_down && input.u9.just),
{
}

proof fn lemma_concat_contains(a: Seq<Stat>, b: Seq<Stat>, s: Stat)
    ensures
        (a + b).contains(s) <==> a.contains(s) || b.contains(s),
{
    if (a + b).contains(s) {
        let i = choose|i: int| 0 <= i < (a + b).len() && (a + b)[i] == s;
        if i < a.len() {
            assert(a[i] == s);
        } else {
            assert(b[i - a.len()] == s);
        }
    }
    if a.contains(s) {
        let i = choose|i: int| 0 <= i < a.len() && a[i] == s;
        assert((a + b)[i] == s);
    }
    if b.contains(s) {
        let i = choose|i: int| 0 <= i < b.len() && b[i] == s;
        assert((a + b)[a.len() + i] == s);
    }
}

proof fn lemma_concat_no_duplicates(a: Seq<Stat>, b: Seq<Stat>)
    requires
        a.no_duplicates(),
        b.no_duplicates(),
        forall|s: Stat| a.contains(s) ==> !b.contains(s),
    ensures
        (a + b).no_duplicates(),
{
    let c = a + b;
    assert forall|i: int, j: int| 0 <= i < c.len() && 0 <= j < c.len() && i != j implies c[i]
        != c[j] by {
        if i < a.len() && j >= a.len() {
            assert(c[i] == a[i] && c[j] == b[j - a.len()]);
            assert(a.contains(c[i]));
            assert(b.contains(c[j]));
        } else if j < a.len() && i >= a.len() {
            assert(c[j] == a[j] && c[i] == b[i - a.len()]);
            assert(a.contains(c[j]));
            assert(b.contains(c[i]));
        } else if i < a.len() {
            assert(c[i] == a[i] && c[j] == a[j]);
        } else {
            assert(c[i] == b[i - a.len()] && c[j] == b[j - a.len()]);
        }
    }
}

/// The part of the upgrade list that key `on` asks for: `stat`, or nothing.
spec fn part(on: bool, stat: Stat) -> Seq<Stat> {
    if on {
        seq![stat]
    } else {
        Seq::empty()
    }
}

proof fn lemma_part(on: bool, stat: Stat, s: Stat)
    ensures
        part(on, stat).contains(s) <==> on && s == stat,
        part(on, stat).no_duplicates(),
{
    if on {
        assert(part(on, stat)[0] == stat);
    }
}

/// Without shift, key `1` asks to upgrade maximum hit points, `2`
/// regeneration, `3` reload, `4` damage, `5` speed and `6` bullet speed:
/// each stat is asked for, once, exactly when its key went down this frame.
pub proof fn lemma_upgrade_keys(input: Input)
    ensures
        ({
            let v = seq_stats(input.number_keys_pressed());
            &&& v.contains(Stat::Hp) <==> (input.u1.is_down && input.u1.just)
            &&& v.contains(Stat::Regen) <==> (input.u2.is_down && input.u2.just)
            &&& v.contains(Stat::Reload) <==> (input.u3.is_down && input.u3.just)
            &&& v.contains(Stat::Damage) <==> (input.u4.is_down && input.u4.just)
            &&& v.contains(Stat::Speed) <==> (input.u5.is_down && input.u5.just)
            &&& v.contains(Stat::BulletSpeed) <==> (input.u6.is_down && input.u6.just)
            &&& v.no_duplicates()
        }),
{
    let k = input.number_keys_pressed();
    lemma_number_keys(input);
    let p0 = part(k[0], Stat::Hp);
    let p1 = part(k[1], Stat::Regen);
    let p2 = part(k[2], Stat::Reload);
    let p3 = part(k[3], Stat::Damage);
    let p4 = part(k[4], Stat::Speed);
    let p5 = part(k[5], Stat::BulletSpeed);
    let q1 = p0 + p1;
    let q2 = q1 + p2;
    let q3 = q2 + p3;
    let q4 = q3 + p4;
    let v = q4 + p5;
    assert(seq_stats(k) == v);
    assert forall|s: Stat| v.contains(s) <==> ((s == Stat::Hp && k[0]) || (s == Stat::Regen && k[1])
        || (s == Stat::Reload && k[2]) || (s == Stat::Damage && k[3]) || (s == Stat::Speed && k[4])
        || (s == Stat::BulletSpeed && k[5])) by {
        lemma_part(k[0], Stat::Hp, s);
        lemma_part(k[1], Stat::Regen, s);
        lemma_part(k[2], Stat::Reload, s);
        lemma_part(k[3], Stat::Damage, s);
        lemma_part(k[4], Stat::Speed, s);
        lemma_part(k[5], Stat::BulletSpeed, s);
        lemma_concat_contains(p0, p1, s);
        lemma_concat_contains(q1, p2, s);
        lemma_concat_contains(q2, p3, s);
        lemma_concat_contains(q3, p4, s);
        lemma_concat_contains(q4, p5, s);
    }
    assert forall|s: Stat| #![auto] q1.contains(s) <==> ((s == Stat::Hp && k[0]) || (s == Stat::Regen && k[1])) by {
        lemma_part(k[0], Stat::Hp, s);
        lemma_part(k[1], Stat::Regen, s);
        lemma_concat_contains(p0, p1, s);
    }
    assert forall|s: Stat| #![auto] q2.contains(s) ==> s == Stat::Hp || s == Stat::Regen || s == Stat::Reload by {
        lemma_part(k[2], Stat::Reload, s);
        lemma_concat_contains(q1, p2, s);
    }
    assert forall|s: Stat| #![auto] q3.contains(s) ==> s == Stat::Hp || s == Stat::Regen || s == Stat::Reload || s == Stat::Damage by {
        lemma_part(k[3], Stat::Damage, s);
        lemma_concat_contains(q2, p3, s);
    }
    assert forall|s: Stat| #![auto] q4.contains(s) ==> s != Stat::BulletSpeed by {
        lemma_part(k[4], Stat::Speed, s);
        lemma_concat_contains(q3, p4, s);
    }
    lemma_part(k[0], Stat::Hp, Stat::Hp);
    lemma_part(k[1], Stat::Regen, Stat::Regen);
    lemma_part(k[2], Stat::Reload, Stat::Reload);
    lemma_part(k[3], Stat::Damage, Stat::Damage);
    lemma_part(k[4], Stat::Speed, Stat::Speed);
    lemma_part(k[5], Stat::BulletSpeed, Stat::BulletSpeed);
    assert forall|s: Stat| #![auto] p0.contains(s) ==> !p1.contains(s) by {
        lemma_part(k[0], Stat::Hp, s);
        lemma_part(k[1], Stat::Regen, s);
    }
    lemma_concat_no_duplicates(p0, p1);
    assert forall|s: Stat| #![auto] q1.contains(s) ==> !p2.contains(s) by {
        lemma_part(k[2], Stat::Reload, s);
    }
    lemma_concat_no_duplicates(q1, p2);
    assert forall|s: Stat| #![auto] q2.contains(s) ==> !p3.contains(s) by {
        lemma_part(k[3], Stat::Damage, s);
    }
    lemma_concat_no_duplicates(q2, p3);
    assert forall|s: Stat| #![auto] q3.contains(s) ==> !p4.contains(s) by {
        lemma_part(k[4], Stat::Speed, s);
    }
    lemma_concat_no_duplicates(q3, p4);
    assert forall|s: Stat| #![auto] q4.contains(s) ==> !p5.contains(s) by {
        lemma_part(k[5], Stat::BulletSpeed, s);
    }
    lemma_concat_no_duplicates(q4, p5);
}

/// When a class offers each class once, the `x`-th class offered is
/// selected exactly when key `x` is set.
pub proof fn lemma_selected_targets_exact(targets: Seq<TankClass>, keys: Seq<bool>, x: int)
    requires
        targets.no_duplicates(),
        0 <= x < targets.len(),
    ensures
        selected_targets(targets, keys).contains(targets[x]) <==> keys[x],
    decreases targets.len(),
{
    let n = targets.len() - 1;
    let front = targets.take(n);
    let rest = selected_targets(front, keys);
    let last: Seq<TankClass> = if keys[n] {
        seq![targets[n]]
    } else {
        Seq::empty()
    };
    assert(selected_targets(targets, keys) == rest + last);
    assert forall|a: int, b: int| 0 <= a < front.len() && 0 <= b < front.len() && a != b implies
        front[a] != front[b] by {
        assert(front[a] == targets[a] && front[b] == targets[b]);
    }
    if x < n {
        assert(front[x] == targets[x]);
        lemma_selected_targets_exact(front, keys, x);
        if (rest + last).contains(targets[x]) && !rest.contains(targets[x]) {
            let m = choose|m: int| 0 <= m < (rest + last).len() && (rest + last)[m] == targets[x];
            assert(last[m - rest.len()] == targets[n]);
            assert(targets[x] == targets[n]);
        }
        if rest.contains(targets[x]) {
            let m = choose|m: int| 0 <= m < rest.len() && rest[m] == targets[x];
            assert((rest + last)[m] == targets[x]);
        }
    } else {
        lemma_selected_targets_offered(front, keys, targets[n]);
        if rest.contains(targets[n]) {
            let j = choose|j: int| 0 <= j < front.len() && front[j] == targets[n];
            assert(targets[j] == targets[n]);
        }
        if keys[n] {
            assert((rest + last)[rest.len() as int] == targets[n]);
        } else {
            assert(rest + last == rest);
        }
    }
}

/// With shift held, the `x`-th class that the tank's class offers is asked
/// for exactly when number key `x + 1` went down this frame.
pub proof fn lemma_promotion_keys(input: Input, class: TankClass, x: int)
    requires
        0 <= x < evolves_to_spec(class).len(),
    ensures
        selected_targets(evolves_to_spec(class), input.number_keys_pressed()).contains(
            evolves_to_spec(class)[x],
        ) <==> input.number_keys_pressed()[x],
{
    crate::evolution::lemma_offers_distinct(class);
    lemma_selected_targets_exact(evolves_to_spec(class), input.number_keys_pressed(), x);
}

/// A computer player's dice stand for the stats in the order of the number
/// keys: the stat it upgrades is the first that the player would ask for with
/// the same keys, and it upgrades none when the player would ask for none.
pub proof fn lemma_ai_choice_matches_keys(r: Seq<bool>)
    requires
        r.len() >= 6,
    ensures
        seq_stats(r).len() == 0 <==> first_rolled_stat(r) is None,
        seq_stats(r).len() > 0 ==> first_rolled_stat(r) == Some(seq_stats(r)[0]),
{
    let p0 = part(r[0], Stat::Hp);
    let p1 = part(r[1], Stat::Regen);
    let p2 = part(r[2], Stat::Reload);
    let p3 = part(r[3], Stat::Damage);
    let p4 = part(r[4], Stat::Speed);
    let p5 = part(r[5], Stat::BulletSpeed);
    let v = p0 + p1 + p2 + p3 + p4 + p5;
    assert(seq_stats(r) == v);
    if r[0] {
        assert(v[0] == Stat::Hp);
    } else if r[1] {
        assert(v[0] == Stat::Regen);
    } else if r[2] {
        assert(v[0] == Stat::Reload);
    } else if r[3] {
        assert(v[0] == Stat::Damage);
    } else if r[4] {
        assert(v[0] == Stat::Speed);
    } else if r[5] {
        assert(v[0] == Stat::BulletSpeed);
    }
}

} // verus!
