//! Score targets: the balloons the player collects, what they are worth
//! and what collecting them does.

use vstd::prelude::*;
use crate::archetypes::Color;
use crate::entities::{EntityId, Health, after_healing};
use crate::game_state::{ChallengeTimer, GameMode, GameStats, UpgradeData};
use crate::geometry::{Vector3, closer_than, confine, confined, displaced};
use crate::random::{is_roll, roll};
use crate::spawner::RingPlacement;
use crate::units::{floor_thousandth, sample_span, span};

verus! {

#[derive(Debug, Clone, Copy, PartialEq, Eq, Structural, Hash)]
pub enum TargetType {
    Normal,
    Golden,
    Speed,
    Time,
    Combo,
}

/// A target afloat in the world.
#[derive(Debug, Clone, Copy, PartialEq, Eq, Structural)]
pub struct Target {
    pub points: u32,
    pub target_type: TargetType,
}

/// How a balloon floats: the height it hovers about and where in its
/// floating and swaying it started, in thousandths of a radian.
#[derive(Debug, Clone, Copy, PartialEq, Eq, Structural)]
pub struct Balloon {
    pub base_height: i32,
    pub float_phase: u64,
    pub sway_phase: u64,
}

/// A particle of an effect.
#[derive(Debug, Clone, Copy, PartialEq, Eq, Structural)]
pub struct ParticleEffect {
    /// Milliseconds it still lasts.
    pub lifetime: u32,
    pub velocity: Vector3,
}

/// Emitted for every target collected.
#[derive(Debug, Clone, Copy, PartialEq, Eq, Structural)]
pub struct TargetHitEvent {
    pub position: Vector3,
    pub points: u32,
    pub target_type: TargetType,
}

/// The rolls that make a target.
#[derive(Debug, Clone, Copy, PartialEq, Eq, Structural)]
pub struct TargetRolls {
    pub distance: u32,
    pub bearing: u32,
    pub height: u32,
    pub kind: u32,
    pub float_phase: u32,
    pub sway_phase: u32,
}

/// A new target, ready to enter the world.
#[derive(Debug, Clone, Copy, PartialEq, Eq, Structural)]
pub struct TargetSpawn {
    pub placement: RingPlacement,
    pub target: Target,
    pub balloon: Balloon,
    /// Size, thousandths of the plain balloon.
    pub scale: u32,
    pub color: Color,
}

/// A target is collected from closer than this, plus the reach of the
/// magnet.
pub const COLLECTION_RADIUS: u64 = 5_000;

/// The magnet pulls from this much farther than it collects.
pub const MAGNET_MARGIN: u64 = 20_000;

/// The pull of the magnet right at the player, for each level.
pub const MAGNET_STRENGTH: u64 = 15_000;

/// A combo lapses after this many milliseconds.
pub const COMBO_TIMEOUT: u32 = 3_000;

/// What a time balloon adds to the challenge timer.
pub const TIME_BONUS: u32 = 5_000;

/// What a combo balloon adds to the combo beyond the one of any target.
pub const COMBO_BONUS: u32 = 4;

/// A full turn, in thousandths of a radian.
pub const FULL_TURN: u32 = 6_283;

/// How fast a particle's fall gathers speed, thousandths of a unit per
/// second and second.
pub const GRAVITY: u32 = 9_800;

/// The most targets afloat in a mode.
pub open spec fn target_cap(mode: GameMode) -> int {
    match mode {
        GameMode::TargetHunt => 30,
        GameMode::TimeAttack => 50,
        _ => 40,
    }
}

/// The kind of target a chance roll makes in a mode.
pub open spec fn rolled_kind(mode: GameMode, roll: u32) -> TargetType {
    match mode {
        GameMode::TargetHunt => if roll < 100 {
            TargetType::Golden
        } else {
            TargetType::Normal
        },
        GameMode::Survival => if roll < 200 {
            TargetType::Time
        } else {
            TargetType::Normal
        },
        _ => if roll < 50 {
            TargetType::Golden
        } else if roll < 150 {
            TargetType::Speed
        } else if roll < 250 {
            TargetType::Combo
        } else {
            TargetType::Normal
        },
    }
}

/// The points a kind of target is worth.
pub open spec fn points_of(target_type: TargetType) -> int {
    match target_type {
        TargetType::Normal => 100,
        TargetType::Golden => 500,
        TargetType::Speed => 200,
        TargetType::Time => 50,
        TargetType::Combo => 150,
    }
}

/// The size of a kind of target, in thousandths.
pub open spec fn scale_of(target_type: TargetType) -> int {
    match target_type {
        TargetType::Normal => 1000,
        TargetType::Golden => 2000,
        TargetType::Speed => 1300,
        TargetType::Time => 1500,
        TargetType::Combo => 1200,
    }
}

/// The colour of a kind of target.
pub open spec fn color_of(target_type: TargetType) -> Color {
    match target_type {
        TargetType::Normal => Color { red: 200, green: 800, blue: 200 },
        TargetType::Golden => Color { red: 1000, green: 850, blue: 0 },
        TargetType::Speed => Color { red: 800, green: 200, blue: 800 },
        TargetType::Time => Color { red: 200, green: 800, blue: 800 },
        TargetType::Combo => Color { red: 800, green: 800, blue: 200 },
    }
}

/// What collecting a kind of target heals.
pub open spec fn healing_of(target_type: TargetType) -> int {
    match target_type {
        TargetType::Golden => 20_000,
        TargetType::Time => 15_000,
        _ => 10_000,
    }
}

/// The target the rolls make in a mode: 100 to 300 units from the player,
/// 20 to 120 units up.
pub open spec fn target_of(mode: GameMode, rolls: TargetRolls) -> TargetSpawn {
    let kind = rolled_kind(mode, rolls.kind);
    let altitude = span(20_000, 120_000, rolls.height as int);
    TargetSpawn {
        placement: RingPlacement {
            radius: span(100_000, 300_000, rolls.distance as int) as u64,
            bearing: rolls.bearing,
            altitude: confined(altitude) as i32,
        },
        target: Target { points: points_of(kind) as u32, target_type: kind },
        balloon: Balloon {
            base_height: confined(altitude) as i32,
            float_phase: (rolls.float_phase as int * FULL_TURN as int / 1000) as u64,
            sway_phase: (rolls.sway_phase as int * FULL_TURN as int / 1000) as u64,
        },
        scale: scale_of(kind) as u32,
        color: color_of(kind),
    }
}

/// The target, if any, that a tick adds: one while the world is below the
/// cap of the mode and there is a player.
pub open spec fn target_tick(
    target_count: int,
    mode: GameMode,
    player_present: bool,
    rolls: TargetRolls,
) -> Option<TargetSpawn> {
    if target_count < target_cap(mode) && player_present {
        Some(target_of(mode, rolls))
    } else {
        None
    }
}

/// The points a target scores: its own, times the score multiplier of the
/// upgrades, times one more than a fifth of the combo.
pub open spec fn score_of(target: Target, stats: GameStats, upgrades: UpgradeData) -> int {
    target.points * upgrades.multiplier_level * (1 + stats.combo / 5)
}

/// The combo after a target: one more, and four more again for a combo
/// balloon.
pub open spec fn combo_after(target: Target, combo: int) -> int {
    if target.target_type == TargetType::Combo {
        combo + 1 + COMBO_BONUS
    } else {
        combo + 1
    }
}

/// Whether collecting the target keeps every counter within its range.
pub open spec fn collection_fits(target: Target, stats: GameStats, upgrades: UpgradeData) -> bool {
    &&& stats.score + score_of(target, stats, upgrades) <= u32::MAX
    &&& stats.targets_hit < u32::MAX
    &&& stats.combo + 1 + COMBO_BONUS <= u32::MAX
}

/// The statistics after the target is collected.
pub open spec fn stats_after(target: Target, stats: GameStats, upgrades: UpgradeData) -> GameStats {
    let combo = combo_after(target, stats.combo as int);
    GameStats {
        score: (stats.score + score_of(target, stats, upgrades)) as u32,
        targets_hit: (stats.targets_hit + 1) as u32,
        combo: combo as u32,
        max_combo: if stats.combo + 1 > stats.max_combo {
            (stats.combo + 1) as u32
        } else {
            stats.max_combo
        },
        ..stats
    }
}

/// The challenge timer after the target is collected: a time balloon adds
/// to it, up to the total time.
pub open spec fn timer_after_target(target: Target, timer: ChallengeTimer) -> ChallengeTimer {
    if target.target_type == TargetType::Time {
        ChallengeTimer {
            time_remaining: if timer.time_remaining + TIME_BONUS > timer.total_time {
                timer.total_time
            } else {
                (timer.time_remaining + TIME_BONUS) as u32
            },
            ..timer
        }
    } else {
        timer
    }
}

/// The reach within which targets are collected at a magnet level.
pub open spec fn collection_reach(magnet_level: int) -> int {
    COLLECTION_RADIUS + magnet_level * 5000
}

/// The speed at which the magnet draws a target `distance` away: none
/// without a magnet or from beyond its reach, and growing linearly towards
/// the player up to [`MAGNET_STRENGTH`] for each level.
pub open spec fn magnet_pull_of(magnet_level: int, distance: int) -> int {
    let reach = magnet_level * 5000 + MAGNET_MARGIN;
    if magnet_level > 0 && distance < reach {
        MAGNET_STRENGTH * magnet_level * (reach - distance) / reach
    } else {
        0
    }
}

/// The combo and its timer after `dt` more milliseconds: a combo lapses
/// once its timer exceeds [`COMBO_TIMEOUT`], and without a combo the timer
/// rests.
pub open spec fn combo_tick(combo: u32, combo_timer: u32, dt: u32) -> (u32, u32) {
    if combo > 0 {
        let run = if combo_timer + dt > u32::MAX {
            u32::MAX
        } else {
            (combo_timer + dt) as u32
        };
        if run > COMBO_TIMEOUT {
            (0, 0)
        } else {
            (combo, run)
        }
    } else {
        (0, 0)
    }
}

/// A particle and its position after `dt` more milliseconds, or nothing
/// once its time is up. It moves with its velocity and then falls faster.
pub open spec fn particle_tick(
    particle: ParticleEffect,
    position: Vector3,
    dt: u32,
) -> Option<(ParticleEffect, Vector3)> {
    if particle.lifetime <= dt {
        None
    } else {
        Some(
            (
                ParticleEffect {
                    lifetime: (particle.lifetime - dt) as u32,
                    velocity: Vector3 {
                        y: confined(particle.velocity.y - GRAVITY * dt / 1000) as i32,
                        ..particle.velocity
                    },
                },
                displaced(position, particle.velocity, dt as int),
            ),
        )
    }
}

impl TargetRolls {
    pub open spec fn valid(&self) -> bool {
        is_roll(self.distance) && is_roll(self.bearing) && is_roll(self.height) && is_roll(self.kind)
            && is_roll(self.float_phase) && is_roll(self.sway_phase)
    }

    pub fn draw() -> (rolls: TargetRolls)
        ensures
            rolls.valid(),
    {
        TargetRolls {
            distance: roll(),
            bearing: roll(),
            height: roll(),
            kind: roll(),
            float_phase: roll(),
            sway_phase: roll(),
        }
    }
}

/// The most targets afloat in a mode.
pub fn max_targets(mode: GameMode) -> (cap: usize)
    ensures
        cap == target_cap(mode),
{
    match mode {
        GameMode::TargetHunt => 30,
        GameMode::TimeAttack => 50,
        _ => 40,
    }
}

/// The kind of target a chance roll makes in a mode.
pub fn roll_target_type(mode: GameMode, roll: u32) -> (kind: TargetType)
    ensures
        kind == rolled_kind(mode, roll),
{
    match mode {
        GameMode::TargetHunt => {
            if roll < 100 {
                TargetType::Golden
            } else {
                TargetType::Normal
            }
        },
        GameMode::Survival => {
            if roll < 200 {
                TargetType::Time
            } else {
                TargetType::Normal
            }
        },
        _ => {
            if roll < 50 {
                TargetType::Golden
            } else if roll < 150 {
                TargetType::Speed
            } else if roll < 250 {
                TargetType::Combo
            } else {
                TargetType::Normal
            }
        },
    }
}

/// The points a kind of target is worth.
pub fn target_points(target_type: TargetType) -> (points: u32)
    ensures
        points == points_of(target_type),
{
    match target_type {
        TargetType::Normal => 100,
        TargetType::Golden => 500,
        TargetType::Speed => 200,
        TargetType::Time => 50,
        TargetType::Combo => 150,
    }
}

/// The size of a kind of target.
pub fn target_scale(target_type: TargetType) -> (scale: u32)
    ensures
        scale == scale_of(target_type),
{
    match target_type {
        TargetType::Normal => 1000,
        TargetType::Golden => 2000,
        TargetType::Speed => 1300,
        TargetType::Time => 1500,
        TargetType::Combo => 1200,
    }
}

/// The colour of a kind of target.
pub fn target_color(target_type: TargetType) -> (color: Color)
    ensures
        color == color_of(target_type),
{
    match target_type {
        TargetType::Normal => Color { red: 200, green: 800, blue: 200 },
        TargetType::Golden => Color { red: 1000, green: 850, blue: 0 },
        TargetType::Speed => Color { red: 800, green: 200, blue: 800 },
        TargetType::Time => Color { red: 200, green: 800, blue: 800 },
        TargetType::Combo => Color { red: 800, green: 800, blue: 200 },
    }
}

/// What collecting a kind of target heals.
pub fn heal_amount(target_type: TargetType) -> (amount: u32)
    ensures
        amount == healing_of(target_type),
{
    match target_type {
        TargetType::Golden => 20_000,
        TargetType::Time => 15_000,
        _ => 10_000,
    }
}

fn phase_of(roll: u32) -> (phase: u64)
    ensures
        phase == roll as int * FULL_TURN as int / 1000,
{
    assert(roll * 6_283 <= 0xffff_ffff * 6_283) by (nonlinear_arith)
        requires
            0 <= roll <= 0xffff_ffff,
    ;
    (roll as u64) * (FULL_TURN as u64) / 1000
}

/// Makes the target that the rolls call for in a mode.
pub fn make_target(mode: GameMode, rolls: &TargetRolls) -> (spawn: TargetSpawn)
    ensures
        spawn == target_of(mode, *rolls),
{
    let kind = roll_target_type(mode, rolls.kind);
    let altitude = confine(sample_span(20_000, 120_000, rolls.height) as i128);
    TargetSpawn {
        placement: RingPlacement {
            radius: sample_span(100_000, 300_000, rolls.distance),
            bearing: rolls.bearing,
            altitude,
        },
        target: Target { points: target_points(kind), target_type: kind },
        balloon: Balloon {
            base_height: altitude,
            float_phase: phase_of(rolls.float_phase),
            sway_phase: phase_of(rolls.sway_phase),
        },
        scale: target_scale(kind),
        color: target_color(kind),
    }
}

/// Runs one tick of the target spawner with the given rolls.
pub fn spawn_targets_with(
    target_count: usize,
    mode: GameMode,
    player_present: bool,
    rolls: &TargetRolls,
) -> (spawn: Option<TargetSpawn>)
    ensures
        spawn == target_tick(target_count as int, mode, player_present, *rolls),
        spawn is Some ==> target_count < target_cap(mode),
{
    if target_count < max_targets(mode) && player_present {
        Some(make_target(mode, rolls))
    } else {
        None
    }
}

/// Runs one tick of the target spawner: while the world is below the cap
/// of the mode and there is a player, one target is added.
pub fn spawn_targets_system(target_count: usize, mode: GameMode, player_present: bool) -> (spawn: Option<TargetSpawn>)
    ensures
        exists|rolls: TargetRolls|
            rolls.valid() && spawn == #[trigger] target_tick(target_count as int, mode, player_present, rolls),
        spawn is Some <==> target_count < target_cap(mode) && player_present,
{
    let rolls = TargetRolls::draw();
    spawn_targets_with(target_count, mode, player_present, &rolls)
}

/// Whether a target at `target` is within reach of the player at `player`.
pub fn within_collection_reach(player: &Vector3, target: &Vector3, magnet_level: u32) -> (r: bool)
    ensures
        r == closer_than(*player, *target, collection_reach(magnet_level as int)),
{
    let reach: u128 = COLLECTION_RADIUS as u128 + (magnet_level as u128) * 5000;
    assert(reach * reach <= 0x1_0000_0000_0000 * 0x1_0000_0000_0000) by (nonlinear_arith)
        requires
            0 <= reach <= 0x1_0000_0000_0000,
    ;
    player.distance_squared(target) < reach * reach
}

/// Whether collecting the target keeps every counter within its range.
pub fn can_collect(target: &Target, stats: &GameStats, upgrades: &UpgradeData) -> (r: bool)
    ensures
        r == collection_fits(*target, *stats, *upgrades),
{
    assert(target.points * upgrades.multiplier_level <= 0xffff_ffff * 0xffff_ffff) by (nonlinear_arith)
        requires
            0 <= target.points <= 0xffff_ffff,
            0 <= upgrades.multiplier_level <= 0xffff_ffff,
    ;
    let combo_multiplier: u128 = 1 + (stats.combo / 5) as u128;
    let product: u128 = (target.points as u128) * (upgrades.multiplier_level as u128);
    assert(product * combo_multiplier <= 0xffff_ffff * 0xffff_ffff * 0xffff_ffff) by (nonlinear_arith)
        requires
            0 <= product <= 0xffff_ffff * 0xffff_ffff,
            0 <= combo_multiplier <= 0xffff_ffff,
    ;
    assert(target.points * upgrades.multiplier_level * (1 + stats.combo / 5) == product * combo_multiplier);
    stats.score as u128 + product * combo_multiplier <= u32::MAX as u128 && stats.targets_hit < u32::MAX
        && stats.combo <= u32::MAX - 5
}

/// Collects a target: it scores, feeds the combo, heals the player up to
/// full health, and a time balloon adds to the challenge timer. Returns the
/// event of the hit at `position`.
pub fn collect_target(
    target: &Target,
    position: Vector3,
    stats: &mut GameStats,
    timer: &mut ChallengeTimer,
    upgrades: &UpgradeData,
    health: &mut Health,
) -> (event: TargetHitEvent)
    requires
        collection_fits(*target, *old(stats), *upgrades),
    ensures
        *final(stats) == stats_after(*target, *old(stats), *upgrades),
        *final(timer) == timer_after_target(*target, *old(timer)),
        *final(health) == after_healing(*old(health), healing_of(target.target_type)),
        event == (TargetHitEvent {
            position,
            points: score_of(*target, *old(stats), *upgrades) as u32,
            target_type: target.target_type,
        }),
{
    let combo_multiplier: u32 = 1 + stats.combo / 5;
    assert(target.points * upgrades.multiplier_level <= target.points * upgrades.multiplier_level * combo_multiplier)
        by (nonlinear_arith)
        requires
            0 <= target.points * upgrades.multiplier_level,
            1 <= combo_multiplier,
    ;
    let total: u32 = target.points * upgrades.multiplier_level * combo_multiplier;
    stats.score = stats.score + total;
    stats.targets_hit = stats.targets_hit + 1;
    stats.combo = stats.combo + 1;
    if stats.combo > stats.max_combo {
        stats.max_combo = stats.combo;
    }
    match target.target_type {
        TargetType::Time => {
            timer.time_remaining = if timer.time_remaining as u64 + TIME_BONUS as u64 > timer.total_time as u64 {
                timer.total_time
            } else {
                timer.time_remaining + TIME_BONUS
            };
        },
        TargetType::Combo => {
            stats.combo = stats.combo + COMBO_BONUS;
        },
        _ => {},
    }
    health.heal(heal_amount(target.target_type));
    TargetHitEvent { position, points: total, target_type: target.target_type }
}

/// The speed at which the magnet draws a target `distance` away.
pub fn magnet_pull(magnet_level: u32, distance: u64) -> (speed: u64)
    ensures
        speed == magnet_pull_of(magnet_level as int, distance as int),
{
    let reach: u64 = (magnet_level as u64) * 5000 + MAGNET_MARGIN;
    if magnet_level > 0 && distance < reach {
        assert(15_000 * magnet_level <= 15_000 * 0xffff_ffff) by (nonlinear_arith)
            requires
                0 <= magnet_level <= 0xffff_ffff,
        ;
        let strength: u128 = (MAGNET_STRENGTH as u128) * (magnet_level as u128);
        let gap: u128 = (reach - distance) as u128;
        assert(strength * gap <= strength * reach) by (nonlinear_arith)
            requires
                0 <= strength,
                0 <= gap <= reach,
        ;
        assert(strength * reach <= 15_000 * 0xffff_ffff * 0xffff_ffff_ffff) by (nonlinear_arith)
            requires
                0 <= strength <= 15_000 * 0xffff_ffff,
                0 <= reach <= 0xffff_ffff_ffff,
        ;
        assert(strength * gap / (reach as int) <= strength) by (nonlinear_arith)
            requires
                0 <= strength * gap <= strength * reach,
                reach > 0,
        ;
        assert(MAGNET_STRENGTH * magnet_level * (reach - distance) == strength * gap) by (nonlinear_arith)
            requires
                strength == MAGNET_STRENGTH * magnet_level,
                gap == reach - distance,
        ;
        (strength * gap / (reach as u128)) as u64
    } else {
        0
    }
}

/// Lets `dt` milliseconds of a combo pass.
pub fn combo_timeout_system(stats: &mut GameStats, combo_timer: &mut u32, dt: u32)
    ensures
        (final(stats).combo, *final(combo_timer)) == combo_tick(old(stats).combo, *old(combo_timer), dt),
        *final(stats) == (GameStats { combo: final(stats).combo, ..*old(stats) }),
{
    if stats.combo > 0 {
        *combo_timer = combo_timer.saturating_add(dt);
        if *combo_timer > COMBO_TIMEOUT {
            stats.combo = 0;
            *combo_timer = 0;
        }
    } else {
        *combo_timer = 0;
    }
}

/// Lets `dt` milliseconds of a particle at `position` pass. Returns its new
/// position, or nothing once its time is up.
pub fn particle_system(particle: &mut ParticleEffect, position: Vector3, dt: u32) -> (moved: Option<Vector3>)
    ensures
        match particle_tick(*old(particle), position, dt) {
            Some((after, place)) => *final(particle) == after && moved == Some(place),
            None => moved is None && *final(particle) == (ParticleEffect { lifetime: 0, ..*old(particle) }),
        },
{
    if particle.lifetime <= dt {
        particle.lifetime = 0;
        None
    } else {
        particle.lifetime = particle.lifetime - dt;
        let place = position.advanced(&particle.velocity, dt);
        let fall = floor_thousandth((GRAVITY as i128) * (dt as i128));
        particle.velocity.y = confine(particle.velocity.y as i128 - fall);
        Some(place)
    }
}

/// A target afloat, with what the world knows of it.
#[derive(Debug, Clone, Copy, PartialEq, Eq, Structural)]
pub struct TargetUnit {
    pub entity: EntityId,
    pub position: Vector3,
    pub target: Target,
}

/// The player among the targets while they are gone through one by one:
/// the counters, the clock and the health as they stand, the targets left
/// afloat, and what was collected.
pub struct Harvest {
    pub stats: GameStats,
    pub timer: ChallengeTimer,
    pub health: Health,
    pub targets: Seq<TargetUnit>,
    pub collected: Seq<EntityId>,
    pub events: Seq<TargetHitEvent>,
}

/// What collecting targets reports to the hosting world.
#[derive(Debug, Clone, PartialEq, Eq)]
pub struct HarvestReport {
    /// One event for every target collected, in their order.
    pub events: Vec<TargetHitEvent>,
    /// The targets that left the world.
    pub collected: Vec<EntityId>,
}

/// Whether the target is within reach of the player.
pub open spec fn in_reach(player: Vector3, unit: TargetUnit, upgrades: UpgradeData) -> bool {
    closer_than(player, unit.position, collection_reach(upgrades.magnet_level as int))
}

/// The harvest after one more target: one within reach is collected, any
/// other stays afloat.
pub open spec fn target_met(harvest: Harvest, unit: TargetUnit, player: Vector3, upgrades: UpgradeData) -> Harvest {
    if in_reach(player, unit, upgrades) {
        Harvest {
            stats: stats_after(unit.target, harvest.stats, upgrades),
            timer: timer_after_target(unit.target, harvest.timer),
            health: after_healing(harvest.health, healing_of(unit.target.target_type)),
            collected: harvest.collected.push(unit.entity),
            events: harvest.events.push(
                TargetHitEvent {
                    position: unit.position,
                    points: score_of(unit.target, harvest.stats, upgrades) as u32,
                    target_type: unit.target.target_type,
                },
            ),
            ..harvest
        }
    } else {
        Harvest { targets: harvest.targets.push(unit), ..harvest }
    }
}

/// The harvest after all of `units`, met in their order.
pub open spec fn harvested(units: Seq<TargetUnit>, start: Harvest, player: Vector3, upgrades: UpgradeData) -> Harvest
    decreases units.len(),
{
    if units.len() == 0 {
        start
    } else {
        target_met(harvested(units.drop_last(), start, player, upgrades), units.last(), player, upgrades)
    }
}

/// Whether every target within reach can be collected at its turn without
/// a counter leaving its range.
pub open spec fn harvest_fits(units: Seq<TargetUnit>, start: Harvest, player: Vector3, upgrades: UpgradeData) -> bool
    decreases units.len(),
{
    units.len() == 0 || (harvest_fits(units.drop_last(), start, player, upgrades) && (in_reach(
        player,
        units.last(),
        upgrades,
    ) ==> collection_fits(units.last().target, harvested(units.drop_last(), start, player, upgrades).stats, upgrades)))
}

/// The harvest before any target is met.
pub open spec fn harvest_start(stats: GameStats, timer: ChallengeTimer, health: Health) -> Harvest {
    Harvest { stats, timer, health, targets: Seq::empty(), collected: Seq::empty(), events: Seq::empty() }
}

/// Says whether [`collision_detection_system`] may be called on these
/// targets: whether every collection it would make fits the counters.
pub fn collections_fit(
    player: Option<Vector3>,
    health: &Health,
    targets: &Vec<TargetUnit>,
    stats: &GameStats,
    timer: &ChallengeTimer,
    upgrades: &UpgradeData,
) -> (fits: bool)
    ensures
        fits == (player matches Some(position) ==> harvest_fits(
            targets@,
            harvest_start(*stats, *timer, *health),
            position,
            *upgrades,
        )),
{
    let position = match player {
        Some(position) => position,
        None => {
            return true;
        },
    };
    let ghost start = harvest_start(*stats, *timer, *health);
    let mut trial_stats = *stats;
    let mut trial_timer = *timer;
    let mut trial_health = *health;
    let mut i: usize = 0;
    while i < targets.len()
        invariant
            i <= targets.len(),
            player == Some(position),
            start == harvest_start(*stats, *timer, *health),
            harvest_fits(targets@.take(i as int), start, position, *upgrades),
            harvested(targets@.take(i as int), start, position, *upgrades).stats == trial_stats,
            harvested(targets@.take(i as int), start, position, *upgrades).timer == trial_timer,
            harvested(targets@.take(i as int), start, position, *upgrades).health == trial_health,
        decreases targets.len() - i,
    {
        let unit = targets[i];
        proof {
            let next = targets@.take(i + 1);
            assert(next.drop_last() == targets@.take(i as int));
            assert(next.last() == targets@[i as int]);
        }
        if within_collection_reach(&position, &unit.position, upgrades.magnet_level) {
            if !can_collect(&unit.target, &trial_stats, upgrades) {
                proof {
                    if harvest_fits(targets@, start, position, *upgrades) {
                        lemma_harvest_fits_begins(targets@, start, position, *upgrades, i + 1);
                        let next = targets@.take(i + 1);
                        assert(in_reach(position, next.last(), *upgrades));
                        assert(collection_fits(
                            next.last().target,
                            harvested(next.drop_last(), start, position, *upgrades).stats,
                            *upgrades,
                        ));
                    }
                }
                return false;
            }
            collect_target(&unit.target, unit.position, &mut trial_stats, &mut trial_timer, upgrades, &mut trial_health);
        }
        i += 1;
    }
    proof {
        assert(targets@.take(targets.len() as int) == targets@);
    }
    true
}

/// A harvest that fits, fits for every beginning of it.
pub proof fn lemma_harvest_fits_begins(
    units: Seq<TargetUnit>,
    start: Harvest,
    player: Vector3,
    upgrades: UpgradeData,
    n: int,
)
    requires
        0 <= n <= units.len(),
        harvest_fits(units, start, player, upgrades),
    ensures
        harvest_fits(units.take(n), start, player, upgrades),
    decreases units.len(),
{
    if n == units.len() {
        assert(units.take(n) == units);
    } else {
        assert(units.drop_last().take(n) == units.take(n));
        lemma_harvest_fits_begins(units.drop_last(), start, player, upgrades, n);
    }
}

/// Collects every target within reach of the player, in their order. Each
/// scores its points times the score multiplier times the combo bonus,
/// feeds the combo, heals the player up to full health, and leaves the
/// world with an event; a time balloon adds to the challenge timer. Targets
/// out of reach stay afloat. Without a player nothing happens.
pub fn collision_detection_system(
    player: Option<Vector3>,
    health: &mut Health,
    targets: &mut Vec<TargetUnit>,
    stats: &mut GameStats,
    timer: &mut ChallengeTimer,
    upgrades: &UpgradeData,
) -> (report: HarvestReport)
    requires
        player matches Some(position) ==> harvest_fits(
            old(targets)@,
            harvest_start(*old(stats), *old(timer), *old(health)),
            position,
            *upgrades,
        ),
    ensures
        player is None ==> final(targets)@ == old(targets)@ && *final(health) == *old(health) && *final(stats)
            == *old(stats) && *final(timer) == *old(timer) && report.events@.len() == 0 && report.collected@.len()
            == 0,
        player matches Some(position) ==> (Harvest {
            stats: *final(stats),
            timer: *final(timer),
            health: *final(health),
            targets: final(targets)@,
            collected: report.collected@,
            events: report.events@,
        }) == harvested(
            old(targets)@,
            harvest_start(*old(stats), *old(timer), *old(health)),
            position,
            *upgrades,
        ),
        old(health).current <= old(health).max ==> final(health).current <= final(health).max,
        final(health).max == old(health).max,
{
    let mut events: Vec<TargetHitEvent> = Vec::new();
    let mut collected: Vec<EntityId> = Vec::new();
    let position = match player {
        Some(position) => position,
        None => {
            return HarvestReport { events, collected };
        },
    };
    let ghost before = targets@;
    let ghost start = harvest_start(*stats, *timer, *health);
    let mut afloat: Vec<TargetUnit> = Vec::new();
    let mut i: usize = 0;
    while i < targets.len()
        invariant
            i <= targets.len(),
            targets@ == before,
            harvest_fits(before, start, position, *upgrades),
            (Harvest {
                stats: *stats,
                timer: *timer,
                health: *health,
                targets: afloat@,
                collected: collected@,
                events: events@,
            }) == harvested(before.take(i as int), start, position, *upgrades),
            start.health.current <= start.health.max ==> health.current <= health.max,
            health.max == start.health.max,
        decreases targets.len() - i,
    {
        let unit = targets[i];
        proof {
            let next = before.take(i + 1);
            assert(next.drop_last() == before.take(i as int));
            assert(next.last() == before[i as int]);
            lemma_harvest_fits_begins(before, start, position, *upgrades, i + 1);
        }
        if within_collection_reach(&position, &unit.position, upgrades.magnet_level) {
            let event = collect_target(&unit.target, unit.position, stats, timer, upgrades, health);
            events.push(event);
            collected.push(unit.entity);
        } else {
            afloat.push(unit);
        }
        i += 1;
    }
    proof {
        assert(before.take(targets.len() as int) == before);
    }
    *targets = afloat;
    HarvestReport { events, collected }
}

/// Collecting never takes the player's health above its maximum, however
/// many targets are collected in a tick, and never touches the maximum.
pub proof fn law_harvest_keeps_health_in_bounds(
    units: Seq<TargetUnit>,
    start: Harvest,
    player: Vector3,
    upgrades: UpgradeData,
)
    requires
        start.health.current <= start.health.max,
    ensures
        harvested(units, start, player, upgrades).health.current <= start.health.max,
        harvested(units, start, player, upgrades).health.max == start.health.max,
    decreases units.len(),
{
    if units.len() > 0 {
        law_harvest_keeps_health_in_bounds(units.drop_last(), start, player, upgrades);
    }
}

} // verus!
