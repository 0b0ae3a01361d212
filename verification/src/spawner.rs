//! The spawner: when new enemies appear, where, and who they are.

use vstd::prelude::*;
use crate::archetypes::{
    ATTACK_RANGE, PURSUIT_RANGE, archetype, archetype_of, reaction_range, reaction_range_of, skill_range,
    skill_range_of,
};
use crate::entities::{
    Enemy, EnemyBehaviorState, EnemyType, EntityId, FormationRole, Health, PilotPersonality,
};
use crate::formation::{STATION_ABREAST, STATION_AHEAD};
use crate::geometry::{Vector3, confined};
use crate::random::{choice, is_roll, roll};
use crate::units::{sample_span, span};

verus! {

/// However hard the game gets, no more enemies than this are alive at once.
pub const ENEMY_LIMIT: usize = 10;

/// The number of aircraft in a formation: a leader and two wingmen.
pub const FORMATION_SIZE: usize = 3;

/// The morale of an enemy that flies alone.
pub const BASE_MORALE: u32 = 1000;

/// The morale of an enemy that flies in formation.
pub const FORMATION_MORALE: u32 = 1200;

/// A point on a ring around the player.
#[derive(Debug, Clone, Copy, PartialEq, Eq, Structural)]
pub struct RingPlacement {
    /// The radius of the ring.
    pub radius: u64,
    /// Where on the ring, in thousandths of a full turn.
    pub bearing: u32,
    pub altitude: i32,
}

/// The rolls that place something on a ring.
#[derive(Debug, Clone, Copy, PartialEq, Eq, Structural)]
pub struct PlacementRolls {
    pub distance: u32,
    pub bearing: u32,
    pub height: u32,
}

/// The rolls that make a pilot.
#[derive(Debug, Clone, Copy, PartialEq, Eq, Structural)]
pub struct PilotRolls {
    /// A chance roll that decides between the two personalities open to an
    /// ace, a bomber or a wingman.
    pub personality: u32,
    /// Which of the four personalities open to a fighter it gets.
    pub fighter: u32,
    pub skill: u32,
    pub reaction: u32,
}

/// The rolls that make a formation.
#[derive(Debug, Clone, Copy, PartialEq, Eq, Structural)]
pub struct FormationRolls {
    pub placement: PlacementRolls,
    /// A chance roll: fighters below seven tenths, bombers otherwise.
    pub fighters: u32,
    pub leader: PilotRolls,
    pub left: PilotRolls,
    pub right: PilotRolls,
}

/// All the rolls that one tick of the spawner may consume.
#[derive(Debug, Clone, Copy, PartialEq, Eq, Structural)]
pub struct SpawnRolls {
    /// A chance roll for spawning a formation rather than a single enemy.
    pub formation: u32,
    pub placement: PlacementRolls,
    pub ace: u32,
    pub bomber: u32,
    pub pilot: PilotRolls,
    pub squadron: FormationRolls,
}

/// A new enemy, ready to enter the world.
#[derive(Debug, Clone, Copy, PartialEq, Eq)]
pub struct EnemySpawn {
    pub enemy: Enemy,
    pub health: Health,
}

/// A member of a new formation: the enemy and its place relative to the
/// formation's centre, in the leader's own frame (right, up, back).
#[derive(Debug, Clone, Copy, PartialEq, Eq)]
pub struct FormationMember {
    pub offset: Vector3,
    pub spawn: EnemySpawn,
}

/// A new formation of three.
#[derive(Debug, Clone, Copy, PartialEq, Eq)]
pub struct FormationSpawn {
    pub center: RingPlacement,
    pub leader: FormationMember,
    pub left: FormationMember,
    pub right: FormationMember,
}

/// What the spawner decides in a tick.
#[derive(Debug, Clone, Copy, PartialEq, Eq)]
pub enum SpawnOrder {
    Nothing,
    Single { placement: RingPlacement, spawn: EnemySpawn },
    Formation(FormationSpawn),
}

/// The most enemies that may be alive at the given difficulty: five for
/// each whole point of difficulty, and never more than [`ENEMY_LIMIT`].
pub open spec fn enemy_cap(difficulty: int) -> int {
    if 5 * difficulty / 1000 < ENEMY_LIMIT {
        5 * difficulty / 1000
    } else {
        ENEMY_LIMIT as int
    }
}

/// Whether the spawn timer exceeds the spawn interval, which is three
/// seconds divided by the square root of the difficulty. Squared, so that
/// no root is taken: a time `t` exceeds `3 / sqrt(d)` exactly if `t * t * d`
/// exceeds nine, which in milliseconds and thousandths is nine billion.
pub open spec fn interval_elapsed(timer: int, difficulty: int) -> bool {
    difficulty > 0 && timer * timer * difficulty > 9_000_000_000
}

/// Whether a chance roll falls below a chance that starts at `base`
/// thousandths and grows by a tenth of what the difficulty exceeds one by.
pub open spec fn falls_below(roll: int, base: int, difficulty: int) -> bool {
    10 * roll < 10 * base + (difficulty - 1000)
}

/// The spawn timer after `dt` more milliseconds; it stops at the greatest
/// value it can hold.
pub open spec fn timer_advanced(timer: int, dt: int) -> int {
    if timer + dt > u32::MAX {
        u32::MAX as int
    } else {
        timer + dt
    }
}

/// The altitude of a spawn: the player's altitude less `drop` plus a rolled
/// share of `spread`, and no lower than `floor`.
pub open spec fn spawn_altitude(player_altitude: int, roll: int, drop: int, spread: int, floor: int) -> int {
    let rolled = player_altitude - drop + spread * roll / 1000;
    if rolled < floor {
        floor
    } else {
        confined(rolled)
    }
}

/// Where a single enemy appears: 150 to 250 units out, within 20 units of
/// the player's altitude, and no lower than 30.
pub open spec fn single_placement(player_altitude: int, rolls: PlacementRolls) -> RingPlacement {
    RingPlacement {
        radius: span(150_000, 250_000, rolls.distance as int) as u64,
        bearing: rolls.bearing,
        altitude: spawn_altitude(player_altitude, rolls.height as int, 20_000, 40_000, 30_000) as i32,
    }
}

/// Where a formation appears: 200 to 300 units out, within 10 units of the
/// player's altitude, and no lower than 40.
pub open spec fn formation_placement(player_altitude: int, rolls: PlacementRolls) -> RingPlacement {
    RingPlacement {
        radius: span(200_000, 300_000, rolls.distance as int) as u64,
        bearing: rolls.bearing,
        altitude: spawn_altitude(player_altitude, rolls.height as int, 10_000, 20_000, 40_000) as i32,
    }
}

/// The type of a single enemy: an ace with a chance of 0.05, else a bomber
/// with a chance of 0.2, else a fighter; both chances grow with difficulty.
pub open spec fn rolled_type(difficulty: int, ace: int, bomber: int) -> EnemyType {
    if falls_below(ace, 50, difficulty) {
        EnemyType::Ace
    } else if falls_below(bomber, 200, difficulty) {
        EnemyType::Bomber
    } else {
        EnemyType::Fighter
    }
}

/// The personality of a single enemy of the given type.
pub open spec fn rolled_personality(enemy_type: EnemyType, rolls: PilotRolls) -> PilotPersonality {
    match enemy_type {
        EnemyType::Ace => if rolls.personality < 500 {
            PilotPersonality::Veteran
        } else {
            PilotPersonality::ShowOff
        },
        EnemyType::Bomber => if rolls.personality < 700 {
            PilotPersonality::Defensive
        } else {
            PilotPersonality::Tactical
        },
        EnemyType::Fighter => if rolls.fighter == 0 {
            PilotPersonality::Aggressive
        } else if rolls.fighter == 1 {
            PilotPersonality::Defensive
        } else if rolls.fighter == 2 {
            PilotPersonality::Tactical
        } else {
            PilotPersonality::ShowOff
        },
    }
}

/// The personality of a member of a formation: the leader is tactical, a
/// wingman tactical or defensive with even chances.
pub open spec fn member_personality(role: Option<FormationRole>, rolls: PilotRolls) -> PilotPersonality {
    match role {
        Some(FormationRole::Wingman(_)) => if rolls.personality < 500 {
            PilotPersonality::Tactical
        } else {
            PilotPersonality::Defensive
        },
        _ => PilotPersonality::Tactical,
    }
}

/// A fresh enemy of the given type and character, at full health.
pub open spec fn recruit(
    enemy_type: EnemyType,
    personality: PilotPersonality,
    role: Option<FormationRole>,
    state: EnemyBehaviorState,
    morale: u32,
    skill: int,
    reaction: int,
) -> EnemySpawn {
    EnemySpawn {
        enemy: Enemy {
            speed: archetype_of(enemy_type).speed,
            damage: archetype_of(enemy_type).damage,
            attack_range: ATTACK_RANGE,
            pursuit_range: PURSUIT_RANGE,
            enemy_type,
            behavior_state: state,
            state_timer: 0,
            evasion_angle: 0,
            preferred_distance: archetype_of(enemy_type).preferred_distance,
            personality,
            formation_role: role,
            maneuver_skill: skill as u32,
            reaction_time: reaction as u32,
            morale,
            last_taunt_time: 0,
            shoot_cooldown: 0,
        },
        health: Health { current: archetype_of(enemy_type).health, max: archetype_of(enemy_type).health },
    }
}

/// The single enemy that the rolls make at the given difficulty.
pub open spec fn single_enemy(difficulty: int, rolls: SpawnRolls) -> EnemySpawn {
    let enemy_type = rolled_type(difficulty, rolls.ace as int, rolls.bomber as int);
    let personality = rolled_personality(enemy_type, rolls.pilot);
    recruit(
        enemy_type,
        personality,
        None,
        EnemyBehaviorState::Patrol,
        BASE_MORALE,
        span(skill_range_of(enemy_type, personality).0, skill_range_of(enemy_type, personality).1, rolls.pilot.skill as int),
        span(reaction_range_of(personality).0, reaction_range_of(personality).1, rolls.pilot.reaction as int),
    )
}

/// The member of a formation that the rolls make for the given role.
pub open spec fn formation_enemy(enemy_type: EnemyType, role: Option<FormationRole>, rolls: PilotRolls) -> EnemySpawn {
    recruit(
        enemy_type,
        member_personality(role, rolls),
        role,
        EnemyBehaviorState::Formation,
        FORMATION_MORALE,
        span(500, 800, rolls.skill as int),
        span(300, 500, rolls.reaction as int),
    )
}

/// The formation that the rolls make around the leader identity `leader`.
pub open spec fn formation_of(leader: EntityId, player_altitude: int, rolls: FormationRolls) -> FormationSpawn {
    let enemy_type = if rolls.fighters < 700 {
        EnemyType::Fighter
    } else {
        EnemyType::Bomber
    };
    FormationSpawn {
        center: formation_placement(player_altitude, rolls.placement),
        leader: FormationMember {
            offset: Vector3 { x: 0, y: 0, z: 0 },
            spawn: formation_enemy(enemy_type, Some(FormationRole::Leader), rolls.leader),
        },
        left: FormationMember {
            offset: Vector3 { x: (-STATION_ABREAST) as i32, y: 0, z: (-STATION_AHEAD) as i32 },
            spawn: formation_enemy(enemy_type, Some(FormationRole::Wingman(leader)), rolls.left),
        },
        right: FormationMember {
            offset: Vector3 { x: STATION_ABREAST, y: 0, z: (-STATION_AHEAD) as i32 },
            spawn: formation_enemy(enemy_type, Some(FormationRole::Wingman(leader)), rolls.right),
        },
    }
}

/// What one tick makes of the spawner: its timer afterwards and its order.
///
/// The timer runs on. While the world is below its cap and the interval has
/// passed, the timer starts over and, if there is a player, something is
/// spawned: a formation where the roll asks for one and three more enemies
/// fit under the cap, a single enemy otherwise.
pub open spec fn spawn_tick(
    timer: int,
    dt: int,
    enemy_count: int,
    difficulty: int,
    player_altitude: Option<i32>,
    leader: EntityId,
    rolls: SpawnRolls,
) -> (u32, SpawnOrder) {
    let run = timer_advanced(timer, dt);
    if enemy_count < enemy_cap(difficulty) && interval_elapsed(run, difficulty) {
        match player_altitude {
            None => (0u32, SpawnOrder::Nothing),
            Some(altitude) => if falls_below(rolls.formation as int, 300, difficulty) && enemy_count + FORMATION_SIZE
                <= enemy_cap(difficulty) {
                (0u32, SpawnOrder::Formation(formation_of(leader, altitude as int, rolls.squadron)))
            } else {
                (
                    0u32,
                    SpawnOrder::Single {
                        placement: single_placement(altitude as int, rolls.placement),
                        spawn: single_enemy(difficulty, rolls),
                    },
                )
            },
        }
    } else {
        (run as u32, SpawnOrder::Nothing)
    }
}

impl PlacementRolls {
    pub open spec fn valid(&self) -> bool {
        is_roll(self.distance) && is_roll(self.bearing) && is_roll(self.height)
    }

    pub fn draw() -> (rolls: PlacementRolls)
        ensures
            rolls.valid(),
    {
        PlacementRolls { distance: roll(), bearing: roll(), height: roll() }
    }
}

impl PilotRolls {
    pub open spec fn valid(&self) -> bool {
        is_roll(self.personality) && self.fighter < 4 && is_roll(self.skill) && is_roll(self.reaction)
    }

    pub fn draw() -> (rolls: PilotRolls)
        ensures
            rolls.valid(),
    {
        PilotRolls { personality: roll(), fighter: choice(4), skill: roll(), reaction: roll() }
    }
}

impl FormationRolls {
    pub open spec fn valid(&self) -> bool {
        self.placement.valid() && is_roll(self.fighters) && self.leader.valid() && self.left.valid()
            && self.right.valid()
    }

    pub fn draw() -> (rolls: FormationRolls)
        ensures
            rolls.valid(),
    {
        FormationRolls {
            placement: PlacementRolls::draw(),
            fighters: roll(),
            leader: PilotRolls::draw(),
            left: PilotRolls::draw(),
            right: PilotRolls::draw(),
        }
    }
}

impl SpawnRolls {
    pub open spec fn valid(&self) -> bool {
        is_roll(self.formation) && self.placement.valid() && is_roll(self.ace) && is_roll(self.bomber)
            && self.pilot.valid() && self.squadron.valid()
    }

    pub fn draw() -> (rolls: SpawnRolls)
        ensures
            rolls.valid(),
    {
        SpawnRolls {
            formation: roll(),
            placement: PlacementRolls::draw(),
            ace: roll(),
            bomber: roll(),
            pilot: PilotRolls::draw(),
            squadron: FormationRolls::draw(),
        }
    }
}

impl SpawnOrder {
    /// The number of enemies the order brings into the world.
    pub open spec fn size(&self) -> int {
        match self {
            SpawnOrder::Nothing => 0,
            SpawnOrder::Single { .. } => 1,
            SpawnOrder::Formation(_) => FORMATION_SIZE as int,
        }
    }

    /// The number of enemies the order brings into the world.
    pub fn count(&self) -> (r: usize)
        ensures
            r == self.size(),
    {
        match self {
            SpawnOrder::Nothing => 0,
            SpawnOrder::Single { .. } => 1,
            SpawnOrder::Formation(_) => FORMATION_SIZE,
        }
    }
}

/// The most enemies that may be alive at the given difficulty.
pub fn max_enemies(difficulty: u32) -> (cap: usize)
    ensures
        cap == enemy_cap(difficulty as int),
        cap <= ENEMY_LIMIT,
{
    let scaled: u64 = 5 * (difficulty as u64) / 1000;
    if scaled < ENEMY_LIMIT as u64 {
        scaled as usize
    } else {
        ENEMY_LIMIT
    }
}

/// Whether the spawn timer exceeds the spawn interval of the difficulty.
pub fn spawn_interval_elapsed(timer: u32, difficulty: u32) -> (r: bool)
    ensures
        r == interval_elapsed(timer as int, difficulty as int),
{
    assert(timer * timer <= 0xffff_ffff * 0xffff_ffff) by (nonlinear_arith)
        requires
            0 <= timer <= 0xffff_ffff,
    ;
    assert(timer * timer * difficulty <= 0xffff_ffff * 0xffff_ffff * 0xffff_ffff) by (nonlinear_arith)
        requires
            0 <= timer * timer <= 0xffff_ffff * 0xffff_ffff,
            0 <= difficulty <= 0xffff_ffff,
    ;
    difficulty > 0 && (timer as u128) * (timer as u128) * (difficulty as u128) > 9_000_000_000
}

/// Whether a chance roll falls below a chance of `base` that grows with the
/// difficulty.
pub fn roll_falls_below(roll: u32, base: u32, difficulty: u32) -> (r: bool)
    ensures
        r == falls_below(roll as int, base as int, difficulty as int),
{
    10 * (roll as i64) < 10 * (base as i64) + (difficulty as i64 - 1000)
}

fn altitude_for(player_altitude: i32, roll: u32, drop: i32, spread: u32, floor: i32) -> (r: i32)
    requires
        0 <= drop <= 20_000,
        spread <= 40_000,
    ensures
        r == spawn_altitude(player_altitude as int, roll as int, drop as int, spread as int, floor as int),
{
    assert(spread * roll <= 40_000 * 0xffff_ffff) by (nonlinear_arith)
        requires
            0 <= spread <= 40_000,
            0 <= roll <= 0xffff_ffff,
    ;
    let rolled: i64 = player_altitude as i64 - drop as i64 + ((spread as u64) * (roll as u64) / 1000) as i64;
    if rolled < floor as i64 {
        floor
    } else if rolled > i32::MAX as i64 {
        i32::MAX
    } else {
        rolled as i32
    }
}

/// Places a single enemy.
pub fn place_single(player_altitude: i32, rolls: &PlacementRolls) -> (placement: RingPlacement)
    ensures
        placement == single_placement(player_altitude as int, *rolls),
{
    RingPlacement {
        radius: sample_span(150_000, 250_000, rolls.distance),
        bearing: rolls.bearing,
        altitude: altitude_for(player_altitude, rolls.height, 20_000, 40_000, 30_000),
    }
}

/// Places a formation.
pub fn place_formation(player_altitude: i32, rolls: &PlacementRolls) -> (placement: RingPlacement)
    ensures
        placement == formation_placement(player_altitude as int, *rolls),
{
    RingPlacement {
        radius: sample_span(200_000, 300_000, rolls.distance),
        bearing: rolls.bearing,
        altitude: altitude_for(player_altitude, rolls.height, 10_000, 20_000, 40_000),
    }
}

/// Rolls the type of a single enemy.
pub fn roll_enemy_type(difficulty: u32, ace: u32, bomber: u32) -> (enemy_type: EnemyType)
    ensures
        enemy_type == rolled_type(difficulty as int, ace as int, bomber as int),
{
    if roll_falls_below(ace, 50, difficulty) {
        EnemyType::Ace
    } else if roll_falls_below(bomber, 200, difficulty) {
        EnemyType::Bomber
    } else {
        EnemyType::Fighter
    }
}

/// Rolls the personality of a single enemy.
pub fn roll_personality(enemy_type: EnemyType, rolls: &PilotRolls) -> (personality: PilotPersonality)
    ensures
        personality == rolled_personality(enemy_type, *rolls),
{
    match enemy_type {
        EnemyType::Ace => {
            if rolls.personality < 500 {
                PilotPersonality::Veteran
            } else {
                PilotPersonality::ShowOff
            }
        },
        EnemyType::Bomber => {
            if rolls.personality < 700 {
                PilotPersonality::Defensive
            } else {
                PilotPersonality::Tactical
            }
        },
        EnemyType::Fighter => match rolls.fighter {
            0 => PilotPersonality::Aggressive,
            1 => PilotPersonality::Defensive,
            2 => PilotPersonality::Tactical,
            _ => PilotPersonality::ShowOff,
        },
    }
}

/// A value rolled between two bounds that lie close together.
fn rolled_between(low: u32, high: u32, roll: u32) -> (r: u32)
    requires
        low <= high <= 1000,
        high - low <= 500,
    ensures
        r == span(low as int, high as int, roll as int),
        is_roll(roll) ==> low <= r <= high,
{
    assert((high - low) * roll / 1000 <= 0x8000_0000) by (nonlinear_arith)
        requires
            0 <= high - low <= 500,
            0 <= roll <= 0xffff_ffff,
    ;
    sample_span(low, high, roll) as u32
}

fn enlist(
    enemy_type: EnemyType,
    personality: PilotPersonality,
    role: Option<FormationRole>,
    state: EnemyBehaviorState,
    morale: u32,
    skill: u32,
    reaction: u32,
) -> (spawn: EnemySpawn)
    ensures
        spawn == recruit(enemy_type, personality, role, state, morale, skill as int, reaction as int),
{
    let build = archetype(enemy_type);
    EnemySpawn {
        enemy: Enemy {
            speed: build.speed,
            damage: build.damage,
            attack_range: ATTACK_RANGE,
            pursuit_range: PURSUIT_RANGE,
            enemy_type,
            behavior_state: state,
            state_timer: 0,
            evasion_angle: 0,
            preferred_distance: build.preferred_distance,
            personality,
            formation_role: role,
            maneuver_skill: skill,
            reaction_time: reaction,
            morale,
            last_taunt_time: 0,
            shoot_cooldown: 0,
        },
        health: Health::full(build.health),
    }
}

/// Makes the single enemy that the rolls call for at the given difficulty.
pub fn spawn_single_enemy(difficulty: u32, rolls: &SpawnRolls) -> (spawn: EnemySpawn)
    ensures
        spawn == single_enemy(difficulty as int, *rolls),
{
    let enemy_type = roll_enemy_type(difficulty, rolls.ace, rolls.bomber);
    let personality = roll_personality(enemy_type, &rolls.pilot);
    let (skill_low, skill_high) = skill_range(enemy_type, personality);
    let (reaction_low, reaction_high) = reaction_range(personality);
    enlist(
        enemy_type,
        personality,
        None,
        EnemyBehaviorState::Patrol,
        BASE_MORALE,
        rolled_between(skill_low, skill_high, rolls.pilot.skill),
        rolled_between(reaction_low, reaction_high, rolls.pilot.reaction),
    )
}

/// Makes one member of a formation: an enemy of the formation's type in
/// the given role, a tactical mind with the morale of company.
pub fn spawn_formation_enemy(
    enemy_type: EnemyType,
    formation_role: Option<FormationRole>,
    rolls: &PilotRolls,
) -> (spawn: EnemySpawn)
    ensures
        spawn == formation_enemy(enemy_type, formation_role, *rolls),
{
    let personality = match formation_role {
        Some(FormationRole::Wingman(_)) => {
            if rolls.personality < 500 {
                PilotPersonality::Tactical
            } else {
                PilotPersonality::Defensive
            }
        },
        _ => PilotPersonality::Tactical,
    };
    enlist(
        enemy_type,
        personality,
        formation_role,
        EnemyBehaviorState::Formation,
        FORMATION_MORALE,
        rolled_between(500, 800, rolls.skill),
        rolled_between(300, 500, rolls.reaction),
    )
}

/// Makes a formation of three around the player: a leader, who will carry
/// the identity `leader`, and two wingmen who refer to it.
pub fn spawn_enemy_formation(
    leader: EntityId,
    player_altitude: i32,
    rolls: &FormationRolls,
) -> (formation: FormationSpawn)
    ensures
        formation == formation_of(leader, player_altitude as int, *rolls),
{
    let enemy_type = if rolls.fighters < 700 { EnemyType::Fighter } else { EnemyType::Bomber };
    FormationSpawn {
        center: place_formation(player_altitude, &rolls.placement),
        leader: FormationMember {
            offset: Vector3 { x: 0, y: 0, z: 0 },
            spawn: spawn_formation_enemy(enemy_type, Some(FormationRole::Leader), &rolls.leader),
        },
        left: FormationMember {
            offset: Vector3 { x: -STATION_ABREAST, y: 0, z: -STATION_AHEAD },
            spawn: spawn_formation_enemy(enemy_type, Some(FormationRole::Wingman(leader)), &rolls.left),
        },
        right: FormationMember {
            offset: Vector3 { x: STATION_ABREAST, y: 0, z: -STATION_AHEAD },
            spawn: spawn_formation_enemy(enemy_type, Some(FormationRole::Wingman(leader)), &rolls.right),
        },
    }
}

/// Runs one tick of the spawner with the given rolls. `leader` is the
/// identity that the leader will carry should a formation be spawned, and
/// `player_altitude` is none where there is no player.
pub fn spawn_enemies_with(
    spawn_timer: &mut u32,
    dt: u32,
    enemy_count: usize,
    difficulty: u32,
    player_altitude: Option<i32>,
    leader: EntityId,
    rolls: &SpawnRolls,
) -> (order: SpawnOrder)
    ensures
        (*final(spawn_timer), order) == spawn_tick(
            *old(spawn_timer) as int,
            dt as int,
            enemy_count as int,
            difficulty as int,
            player_altitude,
            leader,
            *rolls,
        ),
        order.size() > 0 ==> enemy_count + order.size() <= enemy_cap(difficulty as int),
{
    let run = spawn_timer.saturating_add(dt);
    let cap = max_enemies(difficulty);
    if enemy_count < cap && spawn_interval_elapsed(run, difficulty) {
        *spawn_timer = 0;
        match player_altitude {
            None => SpawnOrder::Nothing,
            Some(altitude) => {
                if roll_falls_below(rolls.formation, 300, difficulty) && enemy_count + FORMATION_SIZE <= cap {
                    SpawnOrder::Formation(spawn_enemy_formation(leader, altitude, &rolls.squadron))
                } else {
                    SpawnOrder::Single {
                        placement: place_single(altitude, &rolls.placement),
                        spawn: spawn_single_enemy(difficulty, rolls),
                    }
                }
            },
        }
    } else {
        *spawn_timer = run;
        SpawnOrder::Nothing
    }
}

/// Runs one tick of the spawner: rolls, and then decides as
/// [`spawn_enemies_with`] does. What is spawned never takes the world
/// above its cap.
pub fn spawn_enemies_system(
    spawn_timer: &mut u32,
    dt: u32,
    enemy_count: usize,
    difficulty: u32,
    player_altitude: Option<i32>,
    leader: EntityId,
) -> (order: SpawnOrder)
    ensures
        exists|rolls: SpawnRolls|
            rolls.valid() && (*final(spawn_timer), order) == #[trigger] spawn_tick(
                *old(spawn_timer) as int,
                dt as int,
                enemy_count as int,
                difficulty as int,
                player_altitude,
                leader,
                rolls,
            ),
        order.size() > 0 ==> enemy_count + order.size() <= enemy_cap(difficulty as int),
        enemy_count <= enemy_cap(difficulty as int) ==> enemy_count + order.size() <= enemy_cap(difficulty as int),
{
    let rolls = SpawnRolls::draw();
    spawn_enemies_with(spawn_timer, dt, enemy_count, difficulty, player_altitude, leader, &rolls)
}

/// Whatever the rolls, a tick of the spawner never takes the number of live
/// enemies above the cap of the difficulty: it spawns nothing, one enemy or
/// a formation of three, and only what still fits.
pub proof fn law_spawn_cap(
    timer: int,
    dt: int,
    enemy_count: int,
    difficulty: int,
    player_altitude: Option<i32>,
    leader: EntityId,
    rolls: SpawnRolls,
)
    requires
        0 <= enemy_count <= enemy_cap(difficulty),
    ensures
        ({
            let order = spawn_tick(timer, dt, enemy_count, difficulty, player_altitude, leader, rolls).1;
            &&& order.size() == 0 || order.size() == 1 || order.size() == 3
            &&& enemy_count + order.size() <= enemy_cap(difficulty)
            &&& enemy_cap(difficulty) <= 10
        }),
{
}

} // verus!
