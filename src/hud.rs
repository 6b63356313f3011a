use vstd::prelude::*;
use crate::advantage::{Advantage, EnemyAdvantage, PlayerAdvantage};
use crate::game::Hp;

verus! {

/// Health at or below which the health meter turns red.
pub const LOW_HP: u8 = 9;

/// The text the advantage label shows.
pub open spec fn advantage_label_of(a: Advantage) -> Seq<char> {
    match a {
        Advantage::PlayerAdvantage(PlayerAdvantage::DoubleJump) => "Double Jump"@,
        Advantage::PlayerAdvantage(PlayerAdvantage::DoubleInitialHp) => "Double HP"@,
        Advantage::EnemyAdvantage(EnemyAdvantage::DoubleBite) => "Painful bites"@,
        Advantage::EnemyAdvantage(EnemyAdvantage::DoubleSpeed) => "Fast enemies"@,
    }
}

/// The advantage label's text.
pub fn advantage_label(adv: &Advantage) -> (r: &'static str)
    ensures
        r@ == advantage_label_of(*adv),
{
    match adv {
        Advantage::PlayerAdvantage(PlayerAdvantage::DoubleJump) => "Double Jump",
        Advantage::PlayerAdvantage(PlayerAdvantage::DoubleInitialHp) => "Double HP",
        Advantage::EnemyAdvantage(EnemyAdvantage::DoubleBite) => "Painful bites",
        Advantage::EnemyAdvantage(EnemyAdvantage::DoubleSpeed) => "Fast enemies",
    }
}

/// Whether the health meter shows health as low (red).
pub fn hp_is_low(hp: &Hp) -> (r: bool)
    ensures
        r == (hp.0 <= LOW_HP),
{
    hp.0 <= LOW_HP
}

} // verus!
