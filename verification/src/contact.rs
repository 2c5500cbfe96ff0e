//! What happens when two objects touch: how they push each other, and who is
//! credited with the hit.
use vstd::prelude::*;

verus! {

/// The kind of a projectile, by its texture.
#[derive(Clone, Copy, Debug, PartialEq, Eq, Structural)]
pub enum ProjectileKind {
    /// `bullet`
    Bullet,
    /// `trap`: slows down faster and pushes other projectiles aside.
    Trap,
    /// `bomb`: bursts into bullets.
    Bomb,
    /// `mbomb`: sticks to what it touches.
    MagnetBomb,
    /// `trapbomb`: bursts into traps.
    TrapBomb,
    /// `drone`: steered by the tank that owns it.
    Drone,
}

/// The kind of an object on the map.
#[derive(Clone, Copy, Debug, PartialEq, Eq, Structural)]
pub enum ObjectKind {
    Tank,
    Shape,
    Projectile(ProjectileKind),
}

/// How two touching objects push each other.
#[derive(Clone, Copy, Debug, PartialEq, Eq, Structural)]
pub enum ContactResponse {
    /// The object that the sweep was already inside is a magnet bomb and
    /// sticks to the other one.
    ActiveSticks,
    /// The object that the sweep just entered is a magnet bomb and sticks to
    /// the other one.
    EnteringSticks,
    /// Two projectiles, one of them a trap, trap bomb or bomb: they push each
    /// other apart without damage.
    PositionOnly,
    /// Nothing happens: two other projectiles, or a tank and its own projectile.
    Ignore,
    /// Both push each other apart and take damage.
    Collide,
}

/// Who is credited for a contact.
#[derive(Clone, Copy, Debug, PartialEq, Eq, Structural)]
pub enum ContactCredit {
    /// A projectile hit a tank: the tank's last hit goes to the projectile's
    /// owner, who earns the tank's kill value if the tank died. `entering`
    /// tells whether the tank is the object that the sweep just entered.
    TankHit { entering: bool },
    /// Two tanks hit each other: each one's last hit goes to the other.
    TanksCollide,
    /// A tank touched a shape: it earns experience if the shape died and
    /// `shape_kill_credits` allows it.
    TankTouchesShape { entering: bool },
    /// A projectile touched a shape: its owner earns experience if the shape
    /// died and `shape_kill_credits` allows it, and an infector may turn a
    /// dead triangle into a drone.
    ProjectileTouchesShape { entering: bool },
    /// No one is credited.
    Nothing,
}

pub open spec fn projectile_texture_spec(k: ProjectileKind) -> Seq<char> {
    match k {
        ProjectileKind::Bullet => "bullet"@,
        ProjectileKind::Trap => "trap"@,
        ProjectileKind::Bomb => "bomb"@,
        ProjectileKind::MagnetBomb => "mbomb"@,
        ProjectileKind::TrapBomb => "trapbomb"@,
        ProjectileKind::Drone => "drone"@,
    }
}

impl ProjectileKind {
    /// The name of the projectile's texture.
    pub fn texture_name(&self) -> (r: &'static str)
        ensures
            r@ == projectile_texture_spec(*self),
    {
        match self {
            ProjectileKind::Bullet => "bullet",
            ProjectileKind::Trap => "trap",
            ProjectileKind::Bomb => "bomb",
            ProjectileKind::MagnetBomb => "mbomb",
            ProjectileKind::TrapBomb => "trapbomb",
            ProjectileKind::Drone => "drone",
        }
    }

    /// Traps and trap bombs slow down faster than other projectiles.
    pub fn is_trap(&self) -> (r: bool)
        ensures
            r == (*self == ProjectileKind::Trap || *self == ProjectileKind::TrapBomb),
    {
        match self {
            ProjectileKind::Trap | ProjectileKind::TrapBomb => true,
            _ => false,
        }
    }

    /// Bombs, magnet bombs and trap bombs burst when they die.
    pub fn bursts(&self) -> (r: bool)
        ensures
            r == (*self == ProjectileKind::Bomb || *self == ProjectileKind::MagnetBomb || *self
                == ProjectileKind::TrapBomb),
    {
        match self {
            ProjectileKind::Bomb | ProjectileKind::MagnetBomb | ProjectileKind::TrapBomb => true,
            _ => false,
        }
    }

    /// What a bursting projectile bursts into: a trap bomb into traps, the
    /// others into bullets.
    pub fn fragment_kind(&self) -> (r: ProjectileKind)
        ensures
            r == (if *self == ProjectileKind::TrapBomb {
                ProjectileKind::Trap
            } else {
                ProjectileKind::Bullet
            }),
    {
        match self {
            ProjectileKind::TrapBomb => ProjectileKind::Trap,
            _ => ProjectileKind::Bullet,
        }
    }

    /// Bombs and magnet bombs, which computer players dodge from afar.
    pub fn is_bomb(&self) -> (r: bool)
        ensures
            r == (*self == ProjectileKind::Bomb || *self == ProjectileKind::MagnetBomb),
    {
        match self {
            ProjectileKind::Bomb | ProjectileKind::MagnetBomb => true,
            _ => false,
        }
    }
}

pub open spec fn is_projectile(k: ObjectKind) -> bool {
    k is Projectile
}

/// A trap, trap bomb or bomb.
pub open spec fn pushes_projectiles(k: ObjectKind) -> bool {
    k == ObjectKind::Projectile(ProjectileKind::Trap) || k == ObjectKind::Projectile(
        ProjectileKind::TrapBomb,
    ) || k == ObjectKind::Projectile(ProjectileKind::Bomb)
}

pub open spec fn contact_response_spec(
    entering: ObjectKind,
    active: ObjectKind,
    owned: bool,
) -> ContactResponse {
    if active == ObjectKind::Projectile(ProjectileKind::MagnetBomb) {
        ContactResponse::ActiveSticks
    } else if entering == ObjectKind::Projectile(ProjectileKind::MagnetBomb) {
        ContactResponse::EnteringSticks
    } else if is_projectile(active) && is_projectile(entering) {
        if pushes_projectiles(active) || pushes_projectiles(entering) {
            ContactResponse::PositionOnly
        } else {
            ContactResponse::Ignore
        }
    } else if owned {
        ContactResponse::Ignore
    } else {
        ContactResponse::Collide
    }
}

pub open spec fn contact_credit_spec(entering: ObjectKind, active: ObjectKind) -> ContactCredit {
    if entering == ObjectKind::Tank && is_projectile(active) {
        ContactCredit::TankHit { entering: true }
    } else if active == ObjectKind::Tank && is_projectile(entering) {
        ContactCredit::TankHit { entering: false }
    } else if entering == ObjectKind::Tank && active == ObjectKind::Tank {
        ContactCredit::TanksCollide
    } else if entering == ObjectKind::Tank && active == ObjectKind::Shape {
        ContactCredit::TankTouchesShape { entering: true }
    } else if active == ObjectKind::Tank && entering == ObjectKind::Shape {
        ContactCredit::TankTouchesShape { entering: false }
    } else if is_projectile(entering) && active == ObjectKind::Shape {
        ContactCredit::ProjectileTouchesShape { entering: true }
    } else if is_projectile(active) && entering == ObjectKind::Shape {
        ContactCredit::ProjectileTouchesShape { entering: false }
    } else {
        ContactCredit::Nothing
    }
}

fn is_projectile_exec(k: ObjectKind) -> (r: bool)
    ensures
        r == is_projectile(k),
{
    match k {
        ObjectKind::Projectile(_) => true,
        _ => false,
    }
}

fn pushes_projectiles_exec(k: ObjectKind) -> (r: bool)
    ensures
        r == pushes_projectiles(k),
{
    match k {
        ObjectKind::Projectile(ProjectileKind::Trap) => true,
        ObjectKind::Projectile(ProjectileKind::TrapBomb) => true,
        ObjectKind::Projectile(ProjectileKind::Bomb) => true,
        _ => false,
    }
}

/// How two touching objects push each other: `entering` is the object that
/// the sweep just entered, `active` one that it was already inside, and
/// `owned` tells whether one of them is a tank and the other a projectile of
/// that tank. A magnet bomb sticks (the active one first); two projectiles
/// only push each other apart when one is a trap, trap bomb or bomb; a tank
/// does not collide with its own projectiles; anything else collides.
pub fn contact_response(entering: ObjectKind, active: ObjectKind, owned: bool) -> (r:
    ContactResponse)
    ensures
        r == contact_response_spec(entering, active, owned),
{
    if active == ObjectKind::Projectile(ProjectileKind::MagnetBomb) {
        ContactResponse::ActiveSticks
    } else if entering == ObjectKind::Projectile(ProjectileKind::MagnetBomb) {
        ContactResponse::EnteringSticks
    } else if is_projectile_exec(active) && is_projectile_exec(entering) {
        if pushes_projectiles_exec(active) || pushes_projectiles_exec(entering) {
            ContactResponse::PositionOnly
        } else {
            ContactResponse::Ignore
        }
    } else if owned {
        ContactResponse::Ignore
    } else {
        ContactResponse::Collide
    }
}

/// Who is credited for a contact between `entering` (the object that the
/// sweep just entered) and `active`: the first that applies of a tank hit by
/// a projectile, two tanks, a tank and a shape, a projectile and a shape.
pub fn contact_credit(entering: ObjectKind, active: ObjectKind) -> (r: ContactCredit)
    ensures
        r == contact_credit_spec(entering, active),
{
    let ep = is_projectile_exec(entering);
    let ap = is_projectile_exec(active);
    let et = entering == ObjectKind::Tank;
    let at = active == ObjectKind::Tank;
    let es = entering == ObjectKind::Shape;
    let ashape = active == ObjectKind::Shape;
    if et && ap {
        ContactCredit::TankHit { entering: true }
    } else if at && ep {
        ContactCredit::TankHit { entering: false }
    } else if et && at {
        ContactCredit::TanksCollide
    } else if et && ashape {
        ContactCredit::TankTouchesShape { entering: true }
    } else if at && es {
        ContactCredit::TankTouchesShape { entering: false }
    } else if ep && ashape {
        ContactCredit::ProjectileTouchesShape { entering: true }
    } else if ap && es {
        ContactCredit::ProjectileTouchesShape { entering: false }
    } else {
        ContactCredit::Nothing
    }
}

/// Whether killing a shape earns experience: a shape that has not reached its
/// maximum hit points since it spawned (it is in its just-spawned mode) gives
/// none, whether a tank or a projectile killed it.
pub fn shape_kill_credits(just_spawned: bool) -> (r: bool)
    ensures
        r == !just_spawned,
{
    !just_spawned
}

/// Swapping the two objects of a contact swaps the side of the credit: who is
/// credited does not depend on which of them the sweep entered first.
pub proof fn lemma_credit_symmetric(x: ObjectKind, y: ObjectKind)
    ensures
        contact_credit_spec(x, y) == match contact_credit_spec(y, x) {
            ContactCredit::TankHit { entering } => ContactCredit::TankHit { entering: !entering },
            ContactCredit::TankTouchesShape { entering } => ContactCredit::TankTouchesShape {
                entering: !entering,
            },
            ContactCredit::ProjectileTouchesShape { entering } =>
                ContactCredit::ProjectileTouchesShape { entering: !entering },
            other => other,
        },
{
}

/// A tank never collides with its own projectiles, and two projectiles never
/// collide with damage.
pub proof fn lemma_no_damage_between_projectiles_or_from_own(
    entering: ObjectKind,
    active: ObjectKind,
    owned: bool,
)
    ensures
        is_projectile(entering) && is_projectile(active) ==> contact_response_spec(
            entering,
            active,
            owned,
        ) != ContactResponse::Collide,
        owned ==> contact_response_spec(entering, active, owned) != ContactResponse::Collide,
{
}

/// How two touching objects push each other, case by case: a magnet bomb
/// (the one the sweep was already inside first) sticks to whatever it
/// touches; two other projectiles push each other apart without damage when
/// one of them is a trap, a trap bomb or a bomb, and pass through each other
/// otherwise; anything else collides, unless one is a tank and the other a
/// projectile of that tank.
pub proof fn lemma_contact_response_cases(entering: ObjectKind, active: ObjectKind, owned: bool)
    ensures
        active == ObjectKind::Projectile(ProjectileKind::MagnetBomb) ==> contact_response_spec(
            entering,
            active,
            owned,
        ) == ContactResponse::ActiveSticks,
        entering == ObjectKind::Projectile(ProjectileKind::MagnetBomb) && active
            != ObjectKind::Projectile(ProjectileKind::MagnetBomb) ==> contact_response_spec(
            entering,
            active,
            owned,
        ) == ContactResponse::EnteringSticks,
        forall|p: ProjectileKind, q: ProjectileKind|
            p != ProjectileKind::MagnetBomb && q != ProjectileKind::MagnetBomb ==> (
            #[trigger] contact_response_spec(
                ObjectKind::Projectile(p),
                ObjectKind::Projectile(q),
                owned,
            ) == if p == ProjectileKind::Trap || p == ProjectileKind::TrapBomb || p
                == ProjectileKind::Bomb || q == ProjectileKind::Trap || q == ProjectileKind::TrapBomb
                || q == ProjectileKind::Bomb {
                ContactResponse::PositionOnly
            } else {
                ContactResponse::Ignore
            }),
        (entering == ObjectKind::Tank || entering == ObjectKind::Shape || active == ObjectKind::Tank
            || active == ObjectKind::Shape) && entering != ObjectKind::Projectile(
            ProjectileKind::MagnetBomb,
        ) && active != ObjectKind::Projectile(ProjectileKind::MagnetBomb) ==> contact_response_spec(
            entering,
            active,
            owned,
        ) == if owned {
            ContactResponse::Ignore
        } else {
            ContactResponse::Collide
        },
{
}

/// Who is credited, case by case: any projectile, drones included, that hits
/// a tank credits its owner; two tanks credit each other; a tank that touches
/// a shape is credited; a projectile that touches a shape credits its owner;
/// nothing else credits anyone.
pub proof fn lemma_contact_credit_cases(p: ProjectileKind, q: ProjectileKind)
    ensures
        contact_credit_spec(ObjectKind::Tank, ObjectKind::Projectile(p)) == (ContactCredit::TankHit {
            entering: true,
        }),
        contact_credit_spec(ObjectKind::Projectile(p), ObjectKind::Tank) == (ContactCredit::TankHit {
            entering: false,
        }),
        contact_credit_spec(ObjectKind::Tank, ObjectKind::Tank) == ContactCredit::TanksCollide,
        contact_credit_spec(ObjectKind::Tank, ObjectKind::Shape) == (
        ContactCredit::TankTouchesShape { entering: true }),
        contact_credit_spec(ObjectKind::Shape, ObjectKind::Tank) == (
        ContactCredit::TankTouchesShape { entering: false }),
        contact_credit_spec(ObjectKind::Projectile(p), ObjectKind::Shape) == (
        ContactCredit::ProjectileTouchesShape { entering: true }),
        contact_credit_spec(ObjectKind::Shape, ObjectKind::Projectile(p)) == (
        ContactCredit::ProjectileTouchesShape { entering: false }),
        contact_credit_spec(ObjectKind::Shape, ObjectKind::Shape) == ContactCredit::Nothing,
        contact_credit_spec(ObjectKind::Projectile(p), ObjectKind::Projectile(q))
            == ContactCredit::Nothing,
{
}

} // verus!
