//! Power-ups: what the player can pick up and what each one does.

use vstd::prelude::*;
use crate::entities::{Health, after_healing};
use crate::game_state::GameStats;
use crate::geometry::{confine, confined};
use crate::random::{choice, is_roll, roll};
use crate::spawner::{RingPlacement, timer_advanced};
use crate::units::{sample_span, span};

verus! {

#[derive(Debug, Clone, Copy, PartialEq, Eq, Structural, Hash)]
pub enum PowerUpType {
    RapidFire,
    Shield,
    SpeedBoost,
    HealthPack,
    EnergyRecharge,
    TripleShot,
    HomingMissiles,
}

/// A power-up afloat in the world.
#[derive(Debug, Clone, Copy, PartialEq, Eq, Structural)]
pub struct PowerUp {
    pub power_type: PowerUpType,
    /// Milliseconds before it disappears.
    pub lifetime: u32,
    /// Where in its bobbing it started, thousandths of a radian.
    pub bob_phase: u64,
}

/// A power-up at work on the player.
#[derive(Debug, Clone, Copy, PartialEq, Eq, Structural)]
pub struct PowerUpEffect {
    pub effect_type: PowerUpType,
    /// Milliseconds the effect lasts in all.
    pub duration: u32,
    /// Milliseconds it still lasts.
    pub remaining: u32,
}

/// Which power-ups are at work.
#[derive(Debug, Clone, Copy, PartialEq, Eq, Structural)]
pub struct ActivePowerUps {
    pub rapid_fire: bool,
    pub shield: bool,
    pub triple_shot: bool,
    pub homing_missiles: bool,
    /// The factor on the player's speed, in thousandths.
    pub speed_multiplier: u32,
}

/// How much a health pack heals.
pub const HEALTH_PACK: u32 = 50_000;

/// How long a power-up stays afloat before it disappears.
pub const POWERUP_LIFETIME: u32 = 30_000;

/// How long the effect of a power-up lasts; nothing for those that act at
/// once.
pub open spec fn duration_of(power_type: PowerUpType) -> int {
    match power_type {
        PowerUpType::RapidFire => 10_000,
        PowerUpType::Shield => 15_000,
        PowerUpType::SpeedBoost => 8_000,
        PowerUpType::TripleShot => 12_000,
        PowerUpType::HomingMissiles => 20_000,
        _ => 0,
    }
}

/// Points for picking a power-up up.
pub open spec fn pickup_points(power_type: PowerUpType) -> int {
    match power_type {
        PowerUpType::HealthPack | PowerUpType::EnergyRecharge => 50,
        _ => 100,
    }
}

/// The power-ups at work once the effect of `power_type` is switched on or
/// off.
pub open spec fn switched(active: ActivePowerUps, power_type: PowerUpType, on: bool) -> ActivePowerUps {
    match power_type {
        PowerUpType::RapidFire => ActivePowerUps { rapid_fire: on, ..active },
        PowerUpType::Shield => ActivePowerUps { shield: on, ..active },
        PowerUpType::SpeedBoost => ActivePowerUps { speed_multiplier: if on { 2000u32 } else { 1000u32 }, ..active },
        PowerUpType::TripleShot => ActivePowerUps { triple_shot: on, ..active },
        PowerUpType::HomingMissiles => ActivePowerUps { homing_missiles: on, ..active },
        _ => active,
    }
}

impl Default for ActivePowerUps {
    fn default() -> (active: ActivePowerUps)
        ensures
            active == (ActivePowerUps {
                rapid_fire: false,
                shield: false,
                triple_shot: false,
                homing_missiles: false,
                speed_multiplier: 0,
            }),
    {
        ActivePowerUps {
            rapid_fire: false,
            shield: false,
            triple_shot: false,
            homing_missiles: false,
            speed_multiplier: 0,
        }
    }
}

impl ActivePowerUps {
    /// Switches every power-up off and sets the speed back to normal.
    pub fn reset(&mut self)
        ensures
            *final(self) == (ActivePowerUps {
                rapid_fire: false,
                shield: false,
                triple_shot: false,
                homing_missiles: false,
                speed_multiplier: 1000,
            }),
    {
        self.rapid_fire = false;
        self.shield = false;
        self.triple_shot = false;
        self.homing_missiles = false;
        self.speed_multiplier = 1000;
    }

    fn switch(&mut self, power_type: PowerUpType, on: bool)
        ensures
            *final(self) == switched(*old(self), power_type, on),
    {
        match power_type {
            PowerUpType::RapidFire => {
                self.rapid_fire = on;
            },
            PowerUpType::Shield => {
                self.shield = on;
            },
            PowerUpType::SpeedBoost => {
                self.speed_multiplier = if on { 2000 } else { 1000 };
            },
            PowerUpType::TripleShot => {
                self.triple_shot = on;
            },
            PowerUpType::HomingMissiles => {
                self.homing_missiles = on;
            },
            _ => {},
        }
    }
}

/// How long the effect of a power-up lasts.
pub fn effect_duration(power_type: PowerUpType) -> (duration: u32)
    ensures
        duration == duration_of(power_type),
{
    match power_type {
        PowerUpType::RapidFire => 10_000,
        PowerUpType::Shield => 15_000,
        PowerUpType::SpeedBoost => 8_000,
        PowerUpType::TripleShot => 12_000,
        PowerUpType::HomingMissiles => 20_000,
        _ => 0,
    }
}

/// Applies a power-up that the player has picked up. A health pack heals,
/// up to full health; an energy recharge only scores; every other power-up
/// is switched on and comes back as the effect that will switch it off.
pub fn collect_powerup(
    power_type: PowerUpType,
    health: &mut Health,
    active: &mut ActivePowerUps,
    stats: &mut GameStats,
) -> (effect: Option<PowerUpEffect>)
    requires
        old(stats).score + 100 <= u32::MAX,
    ensures
        *final(stats) == (GameStats { score: (old(stats).score + pickup_points(power_type)) as u32, ..*old(stats) }),
        *final(health) == if power_type == PowerUpType::HealthPack {
            after_healing(*old(health), HEALTH_PACK as int)
        } else {
            *old(health)
        },
        *final(active) == switched(*old(active), power_type, true),
        effect == if duration_of(power_type) > 0 {
            Some(
                PowerUpEffect {
                    effect_type: power_type,
                    duration: duration_of(power_type) as u32,
                    remaining: duration_of(power_type) as u32,
                },
            )
        } else {
            None
        },
{
    match power_type {
        PowerUpType::HealthPack => {
            health.heal(HEALTH_PACK);
            stats.score = stats.score + 50;
            None
        },
        PowerUpType::EnergyRecharge => {
            stats.score = stats.score + 50;
            None
        },
        _ => {
            let duration = effect_duration(power_type);
            active.switch(power_type, true);
            stats.score = stats.score + 100;
            Some(PowerUpEffect { effect_type: power_type, duration, remaining: duration })
        },
    }
}

/// Lets `dt` milliseconds of an effect pass and says whether it has run
/// out, in which case its power-up is switched off.
pub fn update_powerup_effect(effect: &mut PowerUpEffect, active: &mut ActivePowerUps, dt: u32) -> (expired: bool)
    ensures
        expired == (old(effect).remaining <= dt),
        *final(effect) == (PowerUpEffect {
            remaining: if old(effect).remaining <= dt { 0u32 } else { (old(effect).remaining - dt) as u32 },
            ..*old(effect)
        }),
        *final(active) == if expired {
            switched(*old(active), old(effect).effect_type, false)
        } else {
            *old(active)
        },
{
    effect.remaining = effect.remaining.saturating_sub(dt);
    if effect.remaining == 0 {
        active.switch(effect.effect_type, false);
        true
    } else {
        false
    }
}

/// Lets `dt` milliseconds of a floating power-up pass and says whether it
/// has disappeared.
pub fn age_powerup(powerup: &mut PowerUp, dt: u32) -> (expired: bool)
    ensures
        expired == (old(powerup).lifetime <= dt),
        *final(powerup) == (PowerUp {
            lifetime: if old(powerup).lifetime <= dt { 0u32 } else { (old(powerup).lifetime - dt) as u32 },
            ..*old(powerup)
        }),
{
    powerup.lifetime = powerup.lifetime.saturating_sub(dt);
    powerup.lifetime == 0
}

/// No more power-ups than this float in the world at once.
pub const POWERUP_LIMIT: usize = 3;

/// The time between two power-ups, in milliseconds.
pub const POWERUP_INTERVAL: u32 = 10_000;

/// The player picks a power-up up from closer than this.
pub const PICKUP_RADIUS: u32 = 8_000;

/// The rolls that make a power-up.
#[derive(Debug, Clone, Copy, PartialEq, Eq, Structural)]
pub struct PowerUpRolls {
    pub distance: u32,
    pub bearing: u32,
    pub height: u32,
    /// Which of the seven kinds it is.
    pub kind: u32,
    pub bob_phase: u32,
}

/// A new power-up, ready to enter the world.
#[derive(Debug, Clone, Copy, PartialEq, Eq, Structural)]
pub struct PowerUpSpawn {
    pub placement: RingPlacement,
    pub powerup: PowerUp,
}

/// The kind of power-up a choice among seven names.
pub open spec fn kind_of(choice: u32) -> PowerUpType {
    if choice == 0 {
        PowerUpType::RapidFire
    } else if choice == 1 {
        PowerUpType::Shield
    } else if choice == 2 {
        PowerUpType::SpeedBoost
    } else if choice == 3 {
        PowerUpType::HealthPack
    } else if choice == 4 {
        PowerUpType::EnergyRecharge
    } else if choice == 5 {
        PowerUpType::TripleShot
    } else {
        PowerUpType::HomingMissiles
    }
}

/// The power-up the rolls make: 100 to 250 units from the player, 30 to
/// 110 units up, of a kind chosen evenly, with the full lifetime.
pub open spec fn powerup_of(rolls: PowerUpRolls) -> PowerUpSpawn {
    PowerUpSpawn {
        placement: RingPlacement {
            radius: span(100_000, 250_000, rolls.distance as int) as u64,
            bearing: rolls.bearing,
            altitude: confined(span(30_000, 110_000, rolls.height as int)) as i32,
        },
        powerup: PowerUp {
            power_type: kind_of(rolls.kind),
            lifetime: POWERUP_LIFETIME,
            bob_phase: (rolls.bob_phase as int * 6283 / 1000) as u64,
        },
    }
}

/// What one tick makes of the power-up spawner: its timer afterwards and
/// the power-up it adds. While fewer than [`POWERUP_LIMIT`] float and the
/// timer exceeds [`POWERUP_INTERVAL`], the timer starts over and, if there
/// is a player, a power-up is added.
pub open spec fn powerup_tick(
    timer: u32,
    dt: u32,
    powerup_count: int,
    player_present: bool,
    rolls: PowerUpRolls,
) -> (u32, Option<PowerUpSpawn>) {
    let run = timer_advanced(timer as int, dt as int) as u32;
    if powerup_count < POWERUP_LIMIT && run > POWERUP_INTERVAL {
        (0, if player_present { Some(powerup_of(rolls)) } else { None })
    } else {
        (run, None)
    }
}

impl PowerUpRolls {
    pub open spec fn valid(&self) -> bool {
        is_roll(self.distance) && is_roll(self.bearing) && is_roll(self.height) && self.kind < 7 && is_roll(
            self.bob_phase,
        )
    }

    pub fn draw() -> (rolls: PowerUpRolls)
        ensures
            rolls.valid(),
    {
        PowerUpRolls { distance: roll(), bearing: roll(), height: roll(), kind: choice(7), bob_phase: roll() }
    }
}

/// The kind of power-up a choice among seven names.
pub fn power_type_of(choice: u32) -> (power_type: PowerUpType)
    ensures
        power_type == kind_of(choice),
{
    match choice {
        0 => PowerUpType::RapidFire,
        1 => PowerUpType::Shield,
        2 => PowerUpType::SpeedBoost,
        3 => PowerUpType::HealthPack,
        4 => PowerUpType::EnergyRecharge,
        5 => PowerUpType::TripleShot,
        _ => PowerUpType::HomingMissiles,
    }
}

/// Makes the power-up that the rolls call for.
pub fn make_powerup(rolls: &PowerUpRolls) -> (spawn: PowerUpSpawn)
    ensures
        spawn == powerup_of(*rolls),
{
    assert(rolls.bob_phase * 6283 <= 0xffff_ffff * 6283) by (nonlinear_arith)
        requires
            0 <= rolls.bob_phase <= 0xffff_ffff,
    ;
    PowerUpSpawn {
        placement: RingPlacement {
            radius: sample_span(100_000, 250_000, rolls.distance),
            bearing: rolls.bearing,
            altitude: confine(sample_span(30_000, 110_000, rolls.height) as i128),
        },
        powerup: PowerUp {
            power_type: power_type_of(rolls.kind),
            lifetime: POWERUP_LIFETIME,
            bob_phase: (rolls.bob_phase as u64) * 6283 / 1000,
        },
    }
}

/// Runs one tick of the power-up spawner with the given rolls.
pub fn spawn_powerups_with(
    spawn_timer: &mut u32,
    dt: u32,
    powerup_count: usize,
    player_present: bool,
    rolls: &PowerUpRolls,
) -> (spawn: Option<PowerUpSpawn>)
    ensures
        (*final(spawn_timer), spawn) == powerup_tick(*old(spawn_timer), dt, powerup_count as int, player_present, *rolls),
        spawn is Some ==> powerup_count < POWERUP_LIMIT,
{
    let run = spawn_timer.saturating_add(dt);
    if powerup_count < POWERUP_LIMIT && run > POWERUP_INTERVAL {
        *spawn_timer = 0;
        if player_present {
            Some(make_powerup(rolls))
        } else {
            None
        }
    } else {
        *spawn_timer = run;
        None
    }
}

/// Runs one tick of the power-up spawner: rolls, and then decides as
/// [`spawn_powerups_with`] does.
pub fn spawn_powerups_system(
    spawn_timer: &mut u32,
    dt: u32,
    powerup_count: usize,
    player_present: bool,
) -> (spawn: Option<PowerUpSpawn>)
    ensures
        exists|rolls: PowerUpRolls|
            rolls.valid() && (*final(spawn_timer), spawn) == #[trigger] powerup_tick(
                *old(spawn_timer),
                dt,
                powerup_count as int,
                player_present,
                rolls,
            ),
        spawn is Some ==> powerup_count < POWERUP_LIMIT,
{
    let rolls = PowerUpRolls::draw();
    spawn_powerups_with(spawn_timer, dt, powerup_count, player_present, &rolls)
}

/// Clears what belongs to one game before the next begins: score, combo,
/// targets hit, time played and every power-up. High score, coins and the
/// rest stay.
pub fn cleanup_game_stats(stats: &mut GameStats, active: &mut ActivePowerUps)
    ensures
        *final(stats) == (GameStats { score: 0, combo: 0, targets_hit: 0, time_played: 0, ..*old(stats) }),
        *final(active) == (ActivePowerUps {
            rapid_fire: false,
            shield: false,
            triple_shot: false,
            homing_missiles: false,
            speed_multiplier: 1000,
        }),
{
    stats.score = 0;
    stats.combo = 0;
    stats.targets_hit = 0;
    stats.time_played = 0;
    active.reset();
}

} // verus!
