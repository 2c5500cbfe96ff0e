//! The class tree of tanks and the upgrade levels that a tank buys with
//! experience.
use vstd::prelude::*;

verus! {

/// A class of tank. A tank starts as `Basic` and promotes along the class tree.
#[derive(Clone, Copy, Debug, PartialEq, Eq, Structural, Hash)]
pub enum TankClass {
    Basic,
    Double,
    Triple,
    Cross,
    Hailstorm,
    Spawner,
    Anthill,
    Infector,
    Bomber,
    MagnetBomber,
    Tribomber,
    Trapper,
    Trapspawner,
    Barricade,
    Trapbomber,
    Sniper,
    Wide,
    Shotgun,
}

/// The classes that a tank of class `c` may promote to, in the order of the
/// number keys that select them.
pub open spec fn evolves_to_spec(c: TankClass) -> Seq<TankClass> {
    match c {
        TankClass::Basic => seq![
            TankClass::Double,
            TankClass::Sniper,
            TankClass::Bomber,
            TankClass::Trapper,
            TankClass::Spawner,
        ],
        TankClass::Double => seq![TankClass::Hailstorm, TankClass::Triple, TankClass::Cross],
        TankClass::Spawner => seq![TankClass::Infector, TankClass::Anthill, TankClass::Trapspawner],
        TankClass::Anthill => seq![TankClass::Infector, TankClass::Anthill],
        TankClass::Bomber => seq![
            TankClass::Trapbomber,
            TankClass::Tribomber,
            TankClass::MagnetBomber,
        ],
        TankClass::MagnetBomber => seq![TankClass::Tribomber, TankClass::Trapbomber],
        TankClass::Trapper => seq![
            TankClass::Trapbomber,
            TankClass::Trapspawner,
            TankClass::Barricade,
        ],
        TankClass::Sniper => seq![TankClass::Hailstorm, TankClass::Wide, TankClass::Shotgun],
        _ => seq![],
    }
}

/// The name of the class: its key in the class tree, as the evolution
/// information shows it.
pub open spec fn class_name_spec(c: TankClass) -> Seq<char> {
    match c {
        TankClass::Basic => "basic"@,
        TankClass::Double => "double"@,
        TankClass::Triple => "triple"@,
        TankClass::Cross => "cross"@,
        TankClass::Hailstorm => "hailstorm"@,
        TankClass::Spawner => "spawner"@,
        TankClass::Anthill => "anthill"@,
        TankClass::Infector => "infector"@,
        TankClass::Bomber => "bomber"@,
        TankClass::MagnetBomber => "magnet bomber"@,
        TankClass::Tribomber => "tribomber"@,
        TankClass::Trapper => "trapper"@,
        TankClass::Trapspawner => "trapspawner"@,
        TankClass::Barricade => "barricade"@,
        TankClass::Trapbomber => "trapbomber"@,
        TankClass::Sniper => "sniper"@,
        TankClass::Wide => "wide"@,
        TankClass::Shotgun => "shotgun"@,
    }
}

/// The texture that tanks of class `c` are drawn with: the class name, but
/// without the space in `magnet bomber`.
pub open spec fn texture_name_spec(c: TankClass) -> Seq<char> {
    match c {
        TankClass::MagnetBomber => "magnetbomber"@,
        _ => class_name_spec(c),
    }
}

/// The classes whose tanks steer drones towards the point they aim at.
pub open spec fn spawns_drones_spec(c: TankClass) -> bool {
    c == TankClass::Spawner || c == TankClass::Infector || c == TankClass::Anthill || c
        == TankClass::Trapspawner
}

/// The experience that promoting to a class costs.
pub const PROMOTION_COST: u32 = 1000;

/// The highest level of an upgradable stat.
pub const MAX_LEVEL: u8 = 10;

/// The experience that one upgrade of a level costs.
pub const UPGRADE_COST: u32 = 100;

impl TankClass {
    /// The classes that a tank of this class may promote to.
    pub fn evolves_to(&self) -> (r: Vec<TankClass>)
        ensures
            r@ == evolves_to_spec(*self),
    {
        let r = match self {
            TankClass::Basic => vec![
                TankClass::Double,
                TankClass::Sniper,
                TankClass::Bomber,
                TankClass::Trapper,
                TankClass::Spawner,
            ],
            TankClass::Double => vec![TankClass::Hailstorm, TankClass::Triple, TankClass::Cross],
            TankClass::Spawner => vec![
                TankClass::Infector,
                TankClass::Anthill,
                TankClass::Trapspawner,
            ],
            TankClass::Anthill => vec![TankClass::Infector, TankClass::Anthill],
            TankClass::Bomber => vec![
                TankClass::Trapbomber,
                TankClass::Tribomber,
                TankClass::MagnetBomber,
            ],
            TankClass::MagnetBomber => vec![TankClass::Tribomber, TankClass::Trapbomber],
            TankClass::Trapper => vec![
                TankClass::Trapbomber,
                TankClass::Trapspawner,
                TankClass::Barricade,
            ],
            TankClass::Sniper => vec![TankClass::Hailstorm, TankClass::Wide, TankClass::Shotgun],
            _ => Vec::new(),
        };
        assert(r@ =~= evolves_to_spec(*self));
        r
    }

    /// The experience it costs to promote to this class.
    pub fn promotion_cost(&self) -> (r: u32)
        ensures
            r == PROMOTION_COST,
    {
        PROMOTION_COST
    }

    /// Tanks of this class steer drones.
    pub fn spawns_drones(&self) -> (r: bool)
        ensures
            r == spawns_drones_spec(*self),
    {
        match self {
            TankClass::Spawner | TankClass::Infector | TankClass::Anthill
            | TankClass::Trapspawner => true,
            _ => false,
        }
    }

    /// The name of the class.
    pub fn name(&self) -> (r: &'static str)
        ensures
            r@ == class_name_spec(*self),
    {
        match self {
            TankClass::Basic => "basic",
            TankClass::Double => "double",
            TankClass::Triple => "triple",
            TankClass::Cross => "cross",
            TankClass::Hailstorm => "hailstorm",
            TankClass::Spawner => "spawner",
            TankClass::Anthill => "anthill",
            TankClass::Infector => "infector",
            TankClass::Bomber => "bomber",
            TankClass::MagnetBomber => "magnet bomber",
            TankClass::Tribomber => "tribomber",
            TankClass::Trapper => "trapper",
            TankClass::Trapspawner => "trapspawner",
            TankClass::Barricade => "barricade",
            TankClass::Trapbomber => "trapbomber",
            TankClass::Sniper => "sniper",
            TankClass::Wide => "wide",
            TankClass::Shotgun => "shotgun",
        }
    }

    /// The texture that tanks of this class are drawn with.
    pub fn texture_name(&self) -> (r: &'static str)
        ensures
            r@ == texture_name_spec(*self),
    {
        match self {
            TankClass::MagnetBomber => "magnetbomber",
            _ => self.name(),
        }
    }
}

/// Stats that a tank upgrades with experience.
#[derive(Clone, Copy, Debug, PartialEq, Eq, Structural)]
pub enum Stat {
    /// Maximum hit points.
    Hp,
    /// Hit point regeneration.
    Regen,
    /// Reload time of the turrets.
    Reload,
    /// Hit points, weight and impulse of projectiles.
    Damage,
    /// Movement and rotation power.
    Speed,
    /// Impulse of projectiles.
    BulletSpeed,
}

/// The class of a tank and its upgrade levels.
///
/// Levels go from 0 to `MAX_LEVEL`; promoting to another class deletes all
/// upgrades.
#[derive(Clone, Copy, Debug, PartialEq, Eq, Structural)]
pub struct Evolution {
    pub class: TankClass,
    pub hp_level: u8,
    pub regen_level: u8,
    pub reload_level: u8,
    pub damage_level: u8,
    pub speed_level: u8,
    pub bulletspeed_level: u8,
}

impl Evolution {
    /// No level is above `MAX_LEVEL`.
    pub open spec fn wf(self) -> bool {
        &&& self.hp_level <= MAX_LEVEL
        &&& self.regen_level <= MAX_LEVEL
        &&& self.reload_level <= MAX_LEVEL
        &&& self.damage_level <= MAX_LEVEL
        &&& self.speed_level <= MAX_LEVEL
        &&& self.bulletspeed_level <= MAX_LEVEL
    }

    /// The level of `stat`.
    pub open spec fn level_spec(self, stat: Stat) -> u8 {
        match stat {
            Stat::Hp => self.hp_level,
            Stat::Regen => self.regen_level,
            Stat::Reload => self.reload_level,
            Stat::Damage => self.damage_level,
            Stat::Speed => self.speed_level,
            Stat::BulletSpeed => self.bulletspeed_level,
        }
    }

    /// The same evolution with the level of `stat` set to `level`.
    pub open spec fn with_level(self, stat: Stat, level: u8) -> Evolution {
        match stat {
            Stat::Hp => Evolution { hp_level: level, ..self },
            Stat::Regen => Evolution { regen_level: level, ..self },
            Stat::Reload => Evolution { reload_level: level, ..self },
            Stat::Damage => Evolution { damage_level: level, ..self },
            Stat::Speed => Evolution { speed_level: level, ..self },
            Stat::BulletSpeed => Evolution { bulletspeed_level: level, ..self },
        }
    }

    /// A `Basic` tank with every level at 0.
    pub open spec fn new_spec() -> Evolution {
        Evolution {
            class: TankClass::Basic,
            hp_level: 0,
            regen_level: 0,
            reload_level: 0,
            damage_level: 0,
            speed_level: 0,
            bulletspeed_level: 0,
        }
    }

    /// A `Basic` tank with every level at 0.
    pub fn new() -> (r: Evolution)
        ensures
            r == Evolution::new_spec(),
            r.class == TankClass::Basic,
            forall|s: Stat| #[trigger] r.level_spec(s) == 0,
            r.wf(),
    {
        Evolution {
            class: TankClass::Basic,
            hp_level: 0,
            regen_level: 0,
            reload_level: 0,
            damage_level: 0,
            speed_level: 0,
            bulletspeed_level: 0,
        }
    }

    /// The level of `stat`.
    pub fn level(&self, stat: Stat) -> (r: u8)
        ensures
            r == self.level_spec(stat),
    {
        match stat {
            Stat::Hp => self.hp_level,
            Stat::Regen => self.regen_level,
            Stat::Reload => self.reload_level,
            Stat::Damage => self.damage_level,
            Stat::Speed => self.speed_level,
            Stat::BulletSpeed => self.bulletspeed_level,
        }
    }

    /// Raises the level of `stat` by one unless it is at `MAX_LEVEL`, and says
    /// whether it did. The caller pays `UPGRADE_COST` when it did.
    pub fn try_upgrade(&mut self, stat: Stat) -> (upgraded: bool)
        ensures
            upgraded == (old(self).level_spec(stat) < MAX_LEVEL),
            upgraded ==> *final(self) == old(self).with_level(
                stat,
                (old(self).level_spec(stat) + 1) as u8,
            ),
            !upgraded ==> *final(self) == *old(self),
            old(self).wf() ==> final(self).wf(),
    {
        let level = self.level(stat);
        if level < MAX_LEVEL {
            match stat {
                Stat::Hp => self.hp_level = level + 1,
                Stat::Regen => self.regen_level = level + 1,
                Stat::Reload => self.reload_level = level + 1,
                Stat::Damage => self.damage_level = level + 1,
                Stat::Speed => self.speed_level = level + 1,
                Stat::BulletSpeed => self.bulletspeed_level = level + 1,
            }
            true
        } else {
            false
        }
    }

    /// Changes the class to `class` and deletes all upgrades. Whether the
    /// tank may promote to `class`, and what it pays, the caller decides.
    pub fn promote(&mut self, class: TankClass)
        ensures
            *final(self) == (Evolution { class, ..Evolution::new_spec() }),
            forall|s: Stat| #[trigger] final(self).level_spec(s) == 0,
            final(self).wf(),
    {
        self.class = class;
        self.hp_level = 0;
        self.regen_level = 0;
        self.reload_level = 0;
        self.damage_level = 0;
        self.speed_level = 0;
        self.bulletspeed_level = 0;
    }
}

/// A class offers at most nine promotions, one for each number key from `1`
/// to `9`.
pub proof fn lemma_at_most_nine_promotions(c: TankClass)
    ensures
        evolves_to_spec(c).len() <= 9,
{
}

/// A chain of promotions from `Basic` to `c`.
pub open spec fn promotion_path(c: TankClass) -> Seq<TankClass> {
    match c {
        TankClass::Basic => seq![TankClass::Basic],
        TankClass::Double | TankClass::Sniper | TankClass::Bomber | TankClass::Trapper
        | TankClass::Spawner => seq![TankClass::Basic, c],
        TankClass::Triple | TankClass::Cross | TankClass::Hailstorm => seq![
            TankClass::Basic,
            TankClass::Double,
            c,
        ],
        TankClass::Infector | TankClass::Anthill | TankClass::Trapspawner => seq![
            TankClass::Basic,
            TankClass::Spawner,
            c,
        ],
        TankClass::Tribomber | TankClass::MagnetBomber | TankClass::Trapbomber => seq![
            TankClass::Basic,
            TankClass::Bomber,
            c,
        ],
        TankClass::Barricade => seq![TankClass::Basic, TankClass::Trapper, c],
        TankClass::Wide | TankClass::Shotgun => seq![TankClass::Basic, TankClass::Sniper, c],
    }
}

/// Every step of `path` is a promotion that the class tree offers.
pub open spec fn is_promotion_chain(path: Seq<TankClass>) -> bool {
    forall|i: int|
        0 <= i < path.len() - 1 ==> evolves_to_spec(#[trigger] path[i]).contains(path[i + 1])
}

/// Every class can be reached from `Basic` by promotions.
pub proof fn lemma_every_class_reachable(c: TankClass)
    ensures
        promotion_path(c).len() >= 1,
        promotion_path(c)[0] == TankClass::Basic,
        promotion_path(c).last() == c,
        is_promotion_chain(promotion_path(c)),
{
    let p = promotion_path(c);
    assert forall|i: int| 0 <= i < p.len() - 1 implies evolves_to_spec(
        #[trigger] p[i],
    ).contains(p[i + 1]) by {
        assert(evolves_to_spec(p[i]).contains(p[i + 1]) <==> exists|j: int|
            0 <= j < evolves_to_spec(p[i]).len() && evolves_to_spec(p[i])[j] == p[i + 1]);
        let s = evolves_to_spec(p[i]);
        if s.len() > 0 && s[0] == p[i + 1] {
        } else if s.len() > 1 && s[1] == p[i + 1] {
        } else if s.len() > 2 && s[2] == p[i + 1] {
        } else if s.len() > 3 && s[3] == p[i + 1] {
        } else {
            assert(s[4] == p[i + 1]);
        }
    }
}


/// The class tree, class by class: what each class offers, in the order of
/// the number keys `1`, `2`, ... that select them. Classes not listed offer
/// nothing.
pub proof fn lemma_class_tree()
    ensures
        evolves_to_spec(TankClass::Basic) == seq![
            TankClass::Double,
            TankClass::Sniper,
            TankClass::Bomber,
            TankClass::Trapper,
            TankClass::Spawner,
        ],
        evolves_to_spec(TankClass::Double) == seq![
            TankClass::Hailstorm,
            TankClass::Triple,
            TankClass::Cross,
        ],
        evolves_to_spec(TankClass::Spawner) == seq![
            TankClass::Infector,
            TankClass::Anthill,
            TankClass::Trapspawner,
        ],
        evolves_to_spec(TankClass::Anthill) == seq![TankClass::Infector, TankClass::Anthill],
        evolves_to_spec(TankClass::Bomber) == seq![
            TankClass::Trapbomber,
            TankClass::Tribomber,
            TankClass::MagnetBomber,
        ],
        evolves_to_spec(TankClass::MagnetBomber) == seq![
            TankClass::Tribomber,
            TankClass::Trapbomber,
        ],
        evolves_to_spec(TankClass::Trapper) == seq![
            TankClass::Trapbomber,
            TankClass::Trapspawner,
            TankClass::Barricade,
        ],
        evolves_to_spec(TankClass::Sniper) == seq![
            TankClass::Hailstorm,
            TankClass::Wide,
            TankClass::Shotgun,
        ],
        evolves_to_spec(TankClass::Triple).len() == 0,
        evolves_to_spec(TankClass::Cross).len() == 0,
        evolves_to_spec(TankClass::Hailstorm).len() == 0,
        evolves_to_spec(TankClass::Infector).len() == 0,
        evolves_to_spec(TankClass::Tribomber).len() == 0,
        evolves_to_spec(TankClass::Trapspawner).len() == 0,
        evolves_to_spec(TankClass::Barricade).len() == 0,
        evolves_to_spec(TankClass::Trapbomber).len() == 0,
        evolves_to_spec(TankClass::Wide).len() == 0,
        evolves_to_spec(TankClass::Shotgun).len() == 0,
{
}

/// No class offers the same class twice, so a number key selects one class.
pub proof fn lemma_offers_distinct(c: TankClass)
    ensures
        evolves_to_spec(c).no_duplicates(),
{
    lemma_class_tree();
}

/// Each stat has its own level: reading a stat reads its own field.
pub proof fn lemma_level_fields(e: Evolution)
    ensures
        e.level_spec(Stat::Hp) == e.hp_level,
        e.level_spec(Stat::Regen) == e.regen_level,
        e.level_spec(Stat::Reload) == e.reload_level,
        e.level_spec(Stat::Damage) == e.damage_level,
        e.level_spec(Stat::Speed) == e.speed_level,
        e.level_spec(Stat::BulletSpeed) == e.bulletspeed_level,
{
}

/// Upgrading a stat raises its own level by one when it is below the maximum,
/// and leaves the class and every other level as they were; at the maximum
/// nothing changes.
pub proof fn lemma_upgrade_fields(e: Evolution, stat: Stat)
    ensures
        ({
            let lvl = if stat == Stat::Hp {
                e.hp_level
            } else if stat == Stat::Regen {
                e.regen_level
            } else if stat == Stat::Reload {
                e.reload_level
            } else if stat == Stat::Damage {
                e.damage_level
            } else if stat == Stat::Speed {
                e.speed_level
            } else {
                e.bulletspeed_level
            };
            let u = e.with_level(stat, (lvl + 1) as u8);
            &&& e.level_spec(stat) == lvl
            &&& u.class == e.class
            &&& u.hp_level == if stat == Stat::Hp { (lvl + 1) as u8 } else { e.hp_level }
            &&& u.regen_level == if stat == Stat::Regen { (lvl + 1) as u8 } else { e.regen_level }
            &&& u.reload_level == if stat == Stat::Reload { (lvl + 1) as u8 } else { e.reload_level }
            &&& u.damage_level == if stat == Stat::Damage { (lvl + 1) as u8 } else { e.damage_level }
            &&& u.speed_level == if stat == Stat::Speed { (lvl + 1) as u8 } else { e.speed_level }
            &&& u.bulletspeed_level == if stat == Stat::BulletSpeed {
                (lvl + 1) as u8
            } else {
                e.bulletspeed_level
            }
        }),
{
}

/// The classes that steer drones are the spawner and the classes that it
/// evolves to.
pub proof fn lemma_drone_classes(c: TankClass)
    ensures
        spawns_drones_spec(c) <==> c == TankClass::Spawner || evolves_to_spec(
            TankClass::Spawner,
        ).contains(c),
{
    lemma_class_tree();
    let s = evolves_to_spec(TankClass::Spawner);
    if s.contains(c) {
        let i = choose|i: int| 0 <= i < s.len() && s[i] == c;
        assert(i == 0 || i == 1 || i == 2);
    }
    if c == TankClass::Infector {
        assert(s[0] == c);
    }
    if c == TankClass::Anthill {
        assert(s[1] == c);
    }
    if c == TankClass::Trapspawner {
        assert(s[2] == c);
    }
}

/// Levels go from 0 to 10, an upgrade costs 100 experience and a promotion
/// 1000.
pub proof fn lemma_limits()
    ensures
        MAX_LEVEL == 10,
        UPGRADE_COST == 100,
        PROMOTION_COST == 1000,
{
}

} // verus!
