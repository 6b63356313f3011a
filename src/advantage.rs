use vstd::prelude::*;

verus! {

/// A modifier that favours the player.
#[derive(Clone, Copy, Debug, PartialEq, Eq, Structural)]
pub enum PlayerAdvantage {
    DoubleJump,
    DoubleInitialHp,
}

/// A modifier that favours the enemies.
#[derive(Clone, Copy, Debug, PartialEq, Eq, Structural)]
pub enum EnemyAdvantage {
    DoubleBite,
    DoubleSpeed,
}

/// The one asymmetric modifier chosen for a whole playthrough.
#[derive(Clone, Copy, Debug, PartialEq, Eq, Structural)]
pub enum Advantage {
    PlayerAdvantage(PlayerAdvantage),
    EnemyAdvantage(EnemyAdvantage),
}

/// Damage of one enemy bite.
pub open spec fn bite_strength_of(a: Advantage) -> u8 {
    if a == Advantage::EnemyAdvantage(EnemyAdvantage::DoubleBite) { 3 } else { 1 }
}

/// Health gained from one pickup.
pub open spec fn pickup_value_of(a: Advantage) -> u8 {
    if a == Advantage::PlayerAdvantage(PlayerAdvantage::DoubleInitialHp) { 2 } else { 1 }
}

/// Horizontal patrol speed of every enemy, in world units per second.
pub open spec fn enemy_speed_of(a: Advantage) -> i64 {
    if a == Advantage::EnemyAdvantage(EnemyAdvantage::DoubleSpeed) { 170 } else { 100 }
}

/// How many jumps the player may chain before touching the ground again.
pub open spec fn max_jumps_of(a: Advantage) -> u8 {
    if a == Advantage::PlayerAdvantage(PlayerAdvantage::DoubleJump) { 2 } else { 1 }
}

/// The four advantages, each once.
pub open spec fn all_advantages() -> Seq<Advantage> {
    seq![
        Advantage::PlayerAdvantage(PlayerAdvantage::DoubleJump),
        Advantage::PlayerAdvantage(PlayerAdvantage::DoubleInitialHp),
        Advantage::EnemyAdvantage(EnemyAdvantage::DoubleBite),
        Advantage::EnemyAdvantage(EnemyAdvantage::DoubleSpeed),
    ]
}

/// Relies on rand's `SliceRandom::choose` with the thread-local generator:
/// `None` exactly for an empty slice, otherwise one of its elements.
#[verifier::external_body]
fn choose_one(options: &Vec<Advantage>) -> (r: Option<Advantage>)
    ensures
        r is None <==> options@.len() == 0,
        r is Some ==> options@.contains(r->0),
{
    rand::seq::SliceRandom::choose(options.as_slice(), &mut rand::thread_rng()).copied()
}

impl Advantage {
    /// The four advantages in a fixed order.
    pub fn all() -> (r: Vec<Advantage>)
        ensures
            r@ == all_advantages(),
    {
        let r = vec![
            Advantage::PlayerAdvantage(PlayerAdvantage::DoubleJump),
            Advantage::PlayerAdvantage(PlayerAdvantage::DoubleInitialHp),
            Advantage::EnemyAdvantage(EnemyAdvantage::DoubleBite),
            Advantage::EnemyAdvantage(EnemyAdvantage::DoubleSpeed),
        ];
        assert(r@ =~= all_advantages());
        r
    }

    /// One of the four advantages, drawn uniformly at random.
    pub fn random() -> (r: Advantage)
        ensures
            all_advantages().contains(r),
    {
        let options = Advantage::all();
        match choose_one(&options) {
            Some(a) => a,
            None => options[0],
        }
    }

    /// Damage dealt by one enemy bite: 3 with painful bites, else 1.
    pub fn bite_strength(&self) -> (r: u8)
        ensures
            r == bite_strength_of(*self),
    {
        match self {
            Advantage::EnemyAdvantage(EnemyAdvantage::DoubleBite) => 3,
            _ => 1,
        }
    }

    /// Health gained from one pickup: 2 with double health, else 1.
    pub fn pickup_value(&self) -> (r: u8)
        ensures
            r == pickup_value_of(*self),
    {
        match self {
            Advantage::PlayerAdvantage(PlayerAdvantage::DoubleInitialHp) => 2,
            _ => 1,
        }
    }

    /// Enemy patrol speed: 170 with fast enemies, else 100.
    pub fn enemy_speed(&self) -> (r: i64)
        ensures
            r == enemy_speed_of(*self),
    {
        match self {
            Advantage::EnemyAdvantage(EnemyAdvantage::DoubleSpeed) => 170,
            _ => 100,
        }
    }

    /// Jumps allowed in the air: 2 with double jump, else 1.
    pub fn max_jumps(&self) -> (r: u8)
        ensures
            r == max_jumps_of(*self),
    {
        match self {
            Advantage::PlayerAdvantage(PlayerAdvantage::DoubleJump) => 2,
            _ => 1,
        }
    }

    /// Whether the advantage favours the player rather than the enemies.
    pub fn favours_player(&self) -> (r: bool)
        ensures
            r == (*self is PlayerAdvantage),
    {
        match self {
            Advantage::PlayerAdvantage(_) => true,
            Advantage::EnemyAdvantage(_) => false,
        }
    }
}

} // verus!
