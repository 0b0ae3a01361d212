//! The fixed policy tables: what each enemy type is built like and how each
//! personality tunes the way it flies and shoots.

use vstd::prelude::*;
use crate::entities::{EnemyType, PilotPersonality};

verus! {

/// A colour, each channel in thousandths of full intensity.
#[derive(Debug, Clone, Copy, PartialEq, Eq, Structural)]
pub struct Color {
    pub red: u32,
    pub green: u32,
    pub blue: u32,
}

/// What every enemy of one type is built like.
#[derive(Debug, Clone, Copy, PartialEq, Eq, Structural)]
pub struct Archetype {
    pub color: Color,
    /// Size of the airframe, thousandths of the base model.
    pub scale: u32,
    pub speed: u32,
    pub health: u32,
    pub damage: u32,
    pub preferred_distance: u32,
}

/// The range within which every enemy opens fire.
pub const ATTACK_RANGE: u32 = 50_000;

/// The range within which every enemy takes up pursuit.
pub const PURSUIT_RANGE: u32 = 200_000;

pub open spec fn archetype_of(enemy_type: EnemyType) -> Archetype {
    match enemy_type {
        EnemyType::Fighter => Archetype {
            color: Color { red: 800, green: 200, blue: 200 },
            scale: 2000,
            speed: 60_000,
            health: 50_000,
            damage: 10_000,
            preferred_distance: 40_000,
        },
        EnemyType::Bomber => Archetype {
            color: Color { red: 400, green: 400, blue: 400 },
            scale: 3000,
            speed: 40_000,
            health: 100_000,
            damage: 20_000,
            preferred_distance: 60_000,
        },
        EnemyType::Ace => Archetype {
            color: Color { red: 200, green: 200, blue: 800 },
            scale: 1800,
            speed: 80_000,
            health: 75_000,
            damage: 15_000,
            preferred_distance: 30_000,
        },
    }
}

/// The factor, in thousandths, by which a personality stretches or shrinks
/// its preferred combat distance.
pub open spec fn aggression_of(personality: PilotPersonality) -> int {
    match personality {
        PilotPersonality::Aggressive => 1500,
        PilotPersonality::Defensive => 700,
        PilotPersonality::ShowOff => 1200,
        PilotPersonality::Veteran => 1000,
        PilotPersonality::Tactical => 900,
    }
}

/// How many milliseconds of the player's movement a pilot aims ahead.
pub open spec fn aim_lead_of(enemy_type: EnemyType, personality: PilotPersonality, skill: int) -> int {
    if enemy_type == EnemyType::Ace {
        300 * skill / 1000
    } else if personality == PilotPersonality::Veteran {
        250 * skill / 1000
    } else if personality == PilotPersonality::Aggressive {
        150
    } else if enemy_type == EnemyType::Fighter {
        100
    } else {
        0
    }
}

/// The pause between two shots, in milliseconds.
pub open spec fn fire_rate_of(enemy_type: EnemyType, personality: PilotPersonality) -> int {
    if enemy_type == EnemyType::Ace {
        800
    } else if personality == PilotPersonality::Aggressive {
        900
    } else if enemy_type == EnemyType::Fighter {
        1200
    } else if personality == PilotPersonality::Defensive {
        1800
    } else {
        2000
    }
}

/// The spread of an average pilot of the type, in thousandths.
pub open spec fn base_accuracy_of(enemy_type: EnemyType) -> int {
    match enemy_type {
        EnemyType::Ace => 50,
        EnemyType::Fighter => 150,
        EnemyType::Bomber => 250,
    }
}

/// The factor, in thousandths, by which a personality widens the spread.
pub open spec fn marksmanship_of(personality: PilotPersonality) -> int {
    match personality {
        PilotPersonality::Veteran => 700,
        PilotPersonality::Tactical => 800,
        PilotPersonality::Aggressive => 1200,
        PilotPersonality::ShowOff => 1500,
        PilotPersonality::Defensive => 1000,
    }
}

/// The width of the cone into which a pilot's shots scatter, in
/// thousandths: base accuracy times the personality's factor times two
/// minus the skill. Skill beyond two buys nothing more.
pub open spec fn accuracy_spread_of(enemy_type: EnemyType, personality: PilotPersonality, skill: int) -> int {
    if skill >= 2000 {
        0
    } else {
        base_accuracy_of(enemy_type) * marksmanship_of(personality) * (2000 - skill) / 1_000_000
    }
}

/// Points for shooting an enemy down.
pub open spec fn kill_points_of(enemy_type: EnemyType) -> int {
    match enemy_type {
        EnemyType::Fighter => 50,
        EnemyType::Bomber => 100,
        EnemyType::Ace => 200,
    }
}

/// Points for destroying an enemy by ramming it.
pub open spec fn ram_points_of(enemy_type: EnemyType) -> int {
    match enemy_type {
        EnemyType::Fighter => 25,
        EnemyType::Bomber => 50,
        EnemyType::Ace => 100,
    }
}

/// The distance below which the player collides with an enemy.
pub open spec fn collision_radius_of(enemy_type: EnemyType) -> int {
    match enemy_type {
        EnemyType::Bomber => 8000,
        EnemyType::Fighter => 6000,
        EnemyType::Ace => 5000,
    }
}

/// The damage the player takes from colliding with an enemy.
pub open spec fn collision_damage_of(enemy_type: EnemyType) -> int {
    match enemy_type {
        EnemyType::Bomber => 40_000,
        EnemyType::Fighter => 30_000,
        EnemyType::Ace => 25_000,
    }
}

/// The bounds between which the flying skill of a new pilot is drawn.
pub open spec fn skill_range_of(enemy_type: EnemyType, personality: PilotPersonality) -> (int, int) {
    if enemy_type == EnemyType::Ace {
        (800, 1000)
    } else if personality == PilotPersonality::Veteran {
        (700, 900)
    } else if personality == PilotPersonality::ShowOff {
        (600, 900)
    } else if enemy_type == EnemyType::Fighter {
        (400, 700)
    } else {
        (200, 400)
    }
}

/// The bounds between which the reaction time of a new pilot is drawn.
pub open spec fn reaction_range_of(personality: PilotPersonality) -> (int, int) {
    match personality {
        PilotPersonality::Veteran => (200, 300),
        PilotPersonality::Aggressive => (300, 500),
        PilotPersonality::Defensive => (400, 600),
        _ => (500, 800),
    }
}

/// The archetype of an enemy type.
pub fn archetype(enemy_type: EnemyType) -> (a: Archetype)
    ensures
        a == archetype_of(enemy_type),
{
    match enemy_type {
        EnemyType::Fighter => Archetype {
            color: Color { red: 800, green: 200, blue: 200 },
            scale: 2000,
            speed: 60_000,
            health: 50_000,
            damage: 10_000,
            preferred_distance: 40_000,
        },
        EnemyType::Bomber => Archetype {
            color: Color { red: 400, green: 400, blue: 400 },
            scale: 3000,
            speed: 40_000,
            health: 100_000,
            damage: 20_000,
            preferred_distance: 60_000,
        },
        EnemyType::Ace => Archetype {
            color: Color { red: 200, green: 200, blue: 800 },
            scale: 1800,
            speed: 80_000,
            health: 75_000,
            damage: 15_000,
            preferred_distance: 30_000,
        },
    }
}

/// The factor applied to the preferred combat distance, in thousandths.
pub fn aggression_modifier(personality: PilotPersonality) -> (r: u32)
    ensures
        r == aggression_of(personality),
{
    match personality {
        PilotPersonality::Aggressive => 1500,
        PilotPersonality::Defensive => 700,
        PilotPersonality::ShowOff => 1200,
        PilotPersonality::Veteran => 1000,
        PilotPersonality::Tactical => 900,
    }
}

/// The lead, in milliseconds of the player's movement, a pilot aims with.
pub fn aim_lead(enemy_type: EnemyType, personality: PilotPersonality, skill: u32) -> (r: u64)
    ensures
        r == aim_lead_of(enemy_type, personality, skill as int),
{
    match (enemy_type, personality) {
        (EnemyType::Ace, _) => 300 * (skill as u64) / 1000,
        (_, PilotPersonality::Veteran) => 250 * (skill as u64) / 1000,
        (_, PilotPersonality::Aggressive) => 150,
        (EnemyType::Fighter, _) => 100,
        (EnemyType::Bomber, _) => 0,
    }
}

/// The pause between two shots, in milliseconds.
pub fn fire_rate(enemy_type: EnemyType, personality: PilotPersonality) -> (r: u32)
    ensures
        r == fire_rate_of(enemy_type, personality),
{
    match (enemy_type, personality) {
        (EnemyType::Ace, _) => 800,
        (_, PilotPersonality::Aggressive) => 900,
        (EnemyType::Fighter, _) => 1200,
        (_, PilotPersonality::Defensive) => 1800,
        (EnemyType::Bomber, _) => 2000,
    }
}

/// The spread of an average pilot of the type.
pub fn base_accuracy(enemy_type: EnemyType) -> (r: u32)
    ensures
        r == base_accuracy_of(enemy_type),
{
    match enemy_type {
        EnemyType::Ace => 50,
        EnemyType::Fighter => 150,
        EnemyType::Bomber => 250,
    }
}

/// The factor by which a personality widens the spread.
pub fn personality_modifier(personality: PilotPersonality) -> (r: u32)
    ensures
        r == marksmanship_of(personality),
{
    match personality {
        PilotPersonality::Veteran => 700,
        PilotPersonality::Tactical => 800,
        PilotPersonality::Aggressive => 1200,
        PilotPersonality::ShowOff => 1500,
        PilotPersonality::Defensive => 1000,
    }
}

/// The width of the cone into which a pilot's shots scatter.
pub fn accuracy_spread(enemy_type: EnemyType, personality: PilotPersonality, skill: u32) -> (r: u32)
    ensures
        r == accuracy_spread_of(enemy_type, personality, skill as int),
        r <= 750,
{
    if skill >= 2000 {
        0
    } else {
        let base: u64 = base_accuracy(enemy_type) as u64;
        let factor: u64 = personality_modifier(personality) as u64;
        let slack: u64 = (2000 - skill) as u64;
        assert(base * factor <= 250 * 1500) by (nonlinear_arith)
            requires
                0 <= base <= 250,
                0 <= factor <= 1500,
        ;
        assert(base * factor * slack <= 250 * 1500 * 2000) by (nonlinear_arith)
            requires
                0 <= base * factor <= 250 * 1500,
                0 <= slack <= 2000,
        ;
        (base * factor * slack / 1_000_000) as u32
    }
}

/// Points for shooting an enemy down.
pub fn kill_points(enemy_type: EnemyType) -> (r: u32)
    ensures
        r == kill_points_of(enemy_type),
{
    match enemy_type {
        EnemyType::Fighter => 50,
        EnemyType::Bomber => 100,
        EnemyType::Ace => 200,
    }
}

/// Points for destroying an enemy by ramming it.
pub fn ram_points(enemy_type: EnemyType) -> (r: u32)
    ensures
        r == ram_points_of(enemy_type),
{
    match enemy_type {
        EnemyType::Fighter => 25,
        EnemyType::Bomber => 50,
        EnemyType::Ace => 100,
    }
}

/// The distance below which the player collides with an enemy.
pub fn collision_radius(enemy_type: EnemyType) -> (r: u32)
    ensures
        r == collision_radius_of(enemy_type),
{
    match enemy_type {
        EnemyType::Bomber => 8000,
        EnemyType::Fighter => 6000,
        EnemyType::Ace => 5000,
    }
}

/// The damage the player takes from colliding with an enemy.
pub fn collision_damage(enemy_type: EnemyType) -> (r: u32)
    ensures
        r == collision_damage_of(enemy_type),
{
    match enemy_type {
        EnemyType::Bomber => 40_000,
        EnemyType::Fighter => 30_000,
        EnemyType::Ace => 25_000,
    }
}

/// The bounds between which the flying skill of a new pilot is drawn.
pub fn skill_range(enemy_type: EnemyType, personality: PilotPersonality) -> (r: (u32, u32))
    ensures
        (r.0 as int, r.1 as int) == skill_range_of(enemy_type, personality),
        r.0 < r.1 <= 1000,
        r.1 - r.0 <= 300,
{
    match (enemy_type, personality) {
        (EnemyType::Ace, _) => (800, 1000),
        (_, PilotPersonality::Veteran) => (700, 900),
        (_, PilotPersonality::ShowOff) => (600, 900),
        (EnemyType::Fighter, _) => (400, 700),
        (EnemyType::Bomber, _) => (200, 400),
    }
}

/// The bounds between which the reaction time of a new pilot is drawn.
pub fn reaction_range(personality: PilotPersonality) -> (r: (u32, u32))
    ensures
        (r.0 as int, r.1 as int) == reaction_range_of(personality),
        r.0 < r.1 <= 800,
        r.1 - r.0 <= 300,
{
    match personality {
        PilotPersonality::Veteran => (200, 300),
        PilotPersonality::Aggressive => (300, 500),
        PilotPersonality::Defensive => (400, 600),
        _ => (500, 800),
    }
}

} // verus!
