//! The behaviour state machine of one enemy: given what the enemy perceives
//! in a tick and the rolls of that tick, its next state and the motion it
//! asks of its airframe.

use vstd::prelude::*;
use crate::archetypes::{aggression_modifier, aggression_of, aim_lead, aim_lead_of};
use crate::chatter::{CHATTER_INTERVAL, ChatterLine, ChatterRolls, chatter_with, chosen_line, may_speak};
use crate::entities::{
    Enemy, EnemyBehaviorState, EntityId, FormationRole, Health, ManeuverType, PilotPersonality,
    effective_health, health_ratio, law_health_clamp, morale_of,
};
use crate::geometry::Vector3;
use crate::maneuvers::{ManeuverOrder, maneuver_order, perform_maneuver};
use crate::random::{choice, is_roll, pick, roll};
use crate::units::{time_to_cover, travel_time};

verus! {

/// No enemy flies lower than this.
pub const ALTITUDE_FLOOR: i32 = 10_000;

/// No enemy flies higher than this.
pub const ALTITUDE_CEILING: i32 = 300_000;

/// The lowest altitude at which an enemy strafes.
pub const STRAFE_FLOOR: i32 = 20_000;

/// The highest altitude at which an enemy strafes.
pub const STRAFE_CEILING: i32 = 200_000;

/// Morale below this sends an enemy into retreat.
pub const LOW_MORALE: u32 = 300;

/// The size of the roll wobble every enemy shows, thousandths of a radian.
pub const WOBBLE_AMPLITUDE: u32 = 20;

/// A slot farther away than this is given up.
pub const STATION_LIMIT: u64 = 50_000;

/// A wingman closer to its slot than this holds still.
pub const STATION_TOLERANCE: u64 = 2_000;

/// How far an attacker may be from its chosen distance before it corrects.
pub const STANDOFF_TOLERANCE: u32 = 5_000;

/// How high above the player an ambusher waits.
pub const AMBUSH_HEIGHT: i32 = 100_000;

/// The time of a tick, in milliseconds: how long it lasts and how long the
/// game has run.
#[derive(Debug, Clone, Copy, PartialEq, Eq, Structural)]
pub struct Clock {
    pub dt: u32,
    pub elapsed: u32,
}

/// The rolls that choosing an attack pattern consumes.
#[derive(Debug, Clone, Copy, PartialEq, Eq, Structural)]
pub struct AttackRolls {
    /// A chance roll for the personalities that toss between two patterns.
    pub chance: u32,
    /// Which of the show-off's three maneuvers is flown.
    pub maneuver: usize,
    /// Which of the veteran's four moves is made.
    pub veteran: u32,
    /// A chance roll for the side taken when strafing or evading.
    pub side: u32,
}

/// All the rolls that one enemy consumes in one tick.
#[derive(Debug, Clone, Copy, PartialEq, Eq, Structural)]
pub struct TickRolls {
    pub chatter: ChatterRolls,
    pub attack: AttackRolls,
}

/// The station a wingman is to keep, as seen in the snapshot of this tick.
#[derive(Debug, Clone, Copy, PartialEq, Eq, Structural)]
pub struct FormationSlot {
    pub leader: EntityId,
    pub position: Vector3,
    /// How far the wingman is from the slot.
    pub distance: u64,
}

/// What one enemy perceives in a tick.
#[derive(Debug, Clone, Copy, PartialEq, Eq, Structural)]
pub struct Sighting {
    /// The distance to the player.
    pub distance: u64,
    /// The altitude of the player.
    pub player_altitude: i32,
    /// For a wingman, the slot beside its leader; none where the snapshot of
    /// this tick does not hold the leader.
    pub slot: Option<FormationSlot>,
}

/// The motion an enemy asks of its airframe for one tick. Turn rates are the
/// share of the remaining turn made per second, in thousandths; speeds are in
/// thousandths of a unit per second; times in milliseconds; angles in
/// thousandths of a radian.
#[derive(Debug, Clone, Copy, PartialEq, Eq, Structural)]
pub enum Motion {
    /// Keep position and heading: the tick went into a decision.
    Hold,
    /// Turn towards a waypoint that drifts around the enemy and fly on.
    Patrol { waypoint_angle: u32, turn_rate: u32, speed: u64 },
    /// Turn towards where the player will be after `lead_time`, fly on.
    Intercept { lead_time: u64, turn_rate: u32, speed: u64 },
    /// Close in or back off along the present heading at `thrust`, then turn
    /// towards where the player will be after `lead_time`.
    Engage { thrust: i64, lead_time: u64, turn_rate: u32 },
    /// Slide sideways around the player at the player's altitude, confined
    /// to the strafing band, facing the player.
    Strafe { side: i32, speed: u64, turn_rate: u32, altitude: i32 },
    /// Jink: pitch by the cosine of one phase and roll by the sine of the
    /// other, each times its amplitude, and fly on.
    Evade { roll_phase: i64, pitch_phase: u64, roll_amplitude: u32, pitch_amplitude: u32, speed: u64 },
    /// Turn away from the player and fly on.
    Retreat { turn_rate: u32, speed: u64 },
    /// Turn to the leader's heading and close on the slot.
    KeepStation { leader: EntityId, slot: Vector3, turn_rate: u32, speed: u64 },
    /// Fly a maneuver.
    Maneuver(ManeuverOrder),
    /// Climb towards `target_altitude`, closing `climb_rate` thousandths of
    /// the gap per second, and drift towards the player's path.
    Ambush { target_altitude: i64, climb_rate: u32, lead_time: u64, turn_rate: u32, speed: u64 },
    /// Circle the player at `orbit_radius`, facing the player.
    Support { orbit_radius: u64, orbit_angle: u64, turn_rate: u32, speed: u64 },
}

/// What one tick of one enemy comes to, besides its new state.
#[derive(Debug, Clone, Copy, PartialEq, Eq, Structural)]
pub struct StepOutcome {
    pub motion: Motion,
    /// The phase of the roll wobble that follows every motion; the wobble
    /// is the sine of the phase times [`WOBBLE_AMPLITUDE`].
    pub wobble_phase: i64,
    /// The line the pilot sends this tick, if any.
    pub chatter: Option<ChatterLine>,
}

/// `value` confined to the interval from `low` to `high`.
pub open spec fn clamped(value: int, low: int, high: int) -> int {
    if value < low {
        low
    } else if value > high {
        high
    } else {
        value
    }
}

/// The state timer after `dt` more milliseconds: it counts down and stops
/// at the least value it can hold.
pub open spec fn timer_after(state_timer: int, dt: int) -> int {
    if state_timer - dt < i32::MIN {
        i32::MIN as int
    } else {
        state_timer - dt
    }
}

/// The enemy at the start of its tick: the timer has run on, morale follows
/// health, and low morale forces a retreat.
pub open spec fn prepared(enemy: Enemy, health: Health, clock: Clock) -> Enemy {
    Enemy {
        state_timer: timer_after(enemy.state_timer as int, clock.dt as int) as i32,
        morale: morale_of(health) as u32,
        behavior_state: if morale_of(health) < LOW_MORALE {
            EnemyBehaviorState::Retreating
        } else {
            enemy.behavior_state
        },
        ..enemy
    }
}

/// The line sent this tick: none within the chatter interval of the last.
pub open spec fn spoken(
    enemy: Enemy,
    health: Health,
    sighting: Sighting,
    clock: Clock,
    rolls: ChatterRolls,
) -> Option<ChatterLine> {
    if may_speak(clock.elapsed as int, enemy.last_taunt_time as int) {
        chosen_line(enemy.behavior_state, enemy.personality, sighting.distance as int, health_ratio(health), rolls)
    } else {
        None
    }
}

/// The state an attacker moves on to when its attack has run its time.
pub open spec fn attack_pattern(personality: PilotPersonality, skill: int, rolls: AttackRolls) -> EnemyBehaviorState {
    match personality {
        PilotPersonality::Aggressive => if rolls.chance < 300 && skill > 600 {
            EnemyBehaviorState::Maneuvering(ManeuverType::BarrelRoll)
        } else {
            EnemyBehaviorState::Strafing
        },
        PilotPersonality::Defensive => if rolls.chance < 700 {
            EnemyBehaviorState::Evading
        } else {
            EnemyBehaviorState::Strafing
        },
        PilotPersonality::ShowOff => if skill > 500 {
            if rolls.maneuver == 0 {
                EnemyBehaviorState::Maneuvering(ManeuverType::BarrelRoll)
            } else if rolls.maneuver == 1 {
                EnemyBehaviorState::Maneuvering(ManeuverType::Immelmann)
            } else {
                EnemyBehaviorState::Maneuvering(ManeuverType::ChandelleTurn)
            }
        } else {
            EnemyBehaviorState::Strafing
        },
        PilotPersonality::Veteran => if rolls.veteran == 0 && skill > 700 {
            EnemyBehaviorState::Maneuvering(ManeuverType::HighYoYo)
        } else if rolls.veteran == 1 {
            EnemyBehaviorState::Ambushing
        } else if rolls.veteran == 2 {
            EnemyBehaviorState::Evading
        } else {
            EnemyBehaviorState::Strafing
        },
        PilotPersonality::Tactical => EnemyBehaviorState::Strafing,
    }
}

/// The side a roll picks.
pub open spec fn side_of(roll: u32) -> int {
    if roll > 500 {
        1000
    } else {
        -1000
    }
}

/// How long the state that follows an attack lasts.
pub open spec fn dwell_of(state: EnemyBehaviorState) -> int {
    if state is Maneuvering {
        1500
    } else {
        2000
    }
}

/// The enemy moved to `state`, with everything else as it was.
pub open spec fn moved_to(enemy: Enemy, state: EnemyBehaviorState) -> Enemy {
    Enemy { behavior_state: state, ..enemy }
}

/// The enemy moved to `state` with its timer set anew.
pub open spec fn entered(enemy: Enemy, state: EnemyBehaviorState, timer: int) -> Enemy {
    Enemy { behavior_state: state, state_timer: timer as i32, ..enemy }
}

/// The enemy on its own in pursuit, its formation role laid down.
pub open spec fn released(enemy: Enemy) -> Enemy {
    Enemy { behavior_state: EnemyBehaviorState::Pursuing, formation_role: None, ..enemy }
}

/// The enemy with its formation role laid down and nothing else changed.
pub open spec fn disbanded(enemy: Enemy) -> Enemy {
    Enemy { formation_role: None, ..enemy }
}

/// A wingman whose leader the snapshot does not hold.
pub open spec fn is_orphan(enemy: Enemy, sighting: Sighting) -> bool {
    enemy.formation_role matches Some(FormationRole::Wingman(_)) && sighting.slot is None
}

pub open spec fn patrol_step(enemy: Enemy, sighting: Sighting, clock: Clock) -> (Enemy, Motion) {
    if sighting.distance < enemy.pursuit_range {
        (entered(enemy, EnemyBehaviorState::Pursuing, 2000), Motion::Hold)
    } else {
        (enemy, Motion::Patrol { waypoint_angle: clock.elapsed / 2, turn_rate: 1000, speed: (enemy.speed / 2) as u64 })
    }
}

pub open spec fn pursuit_step(enemy: Enemy, sighting: Sighting) -> (Enemy, Motion) {
    if sighting.distance < enemy.attack_range {
        (entered(enemy, EnemyBehaviorState::Attacking, 1500), Motion::Hold)
    } else if 2 * sighting.distance > 3 * enemy.pursuit_range {
        (moved_to(enemy, EnemyBehaviorState::Patrol), Motion::Hold)
    } else {
        (
            enemy,
            Motion::Intercept {
                lead_time: (travel_time(sighting.distance as int, enemy.speed as int) / 2) as u64,
                turn_rate: 3000,
                speed: enemy.speed as u64,
            },
        )
    }
}

/// The signed speed with which an attacker corrects its distance: forward
/// at full speed when too far out, backward at half speed when too close,
/// and none within the tolerance.
pub open spec fn standoff_thrust(enemy: Enemy, distance: int) -> int {
    let excess = distance * 1000 - enemy.preferred_distance * aggression_of(enemy.personality);
    if excess > STANDOFF_TOLERANCE * 1000 {
        enemy.speed as int
    } else if excess < -(STANDOFF_TOLERANCE * 1000) {
        -(enemy.speed / 2)
    } else {
        0
    }
}

pub open spec fn attack_step(enemy: Enemy, sighting: Sighting, rolls: AttackRolls) -> (Enemy, Motion) {
    if 5 * sighting.distance > 6 * enemy.attack_range {
        (moved_to(enemy, EnemyBehaviorState::Pursuing), Motion::Hold)
    } else if enemy.state_timer <= 0 {
        let next = attack_pattern(enemy.personality, enemy.maneuver_skill as int, rolls);
        (
            Enemy {
                behavior_state: next,
                evasion_angle: side_of(rolls.side) as i32,
                state_timer: dwell_of(next) as i32,
                ..enemy
            },
            Motion::Hold,
        )
    } else {
        (
            enemy,
            Motion::Engage {
                thrust: standoff_thrust(enemy, sighting.distance as int) as i64,
                lead_time: aim_lead_of(enemy.enemy_type, enemy.personality, enemy.maneuver_skill as int) as u64,
                turn_rate: 2500,
            },
        )
    }
}

pub open spec fn strafe_step(enemy: Enemy, sighting: Sighting) -> (Enemy, Motion) {
    if enemy.state_timer <= 0 {
        (entered(enemy, EnemyBehaviorState::Attacking, 1000), Motion::Hold)
    } else {
        (
            enemy,
            Motion::Strafe {
                side: enemy.evasion_angle,
                speed: (enemy.speed * 4 / 5) as u64,
                turn_rate: 4000,
                altitude: clamped(sighting.player_altitude as int, STRAFE_FLOOR as int, STRAFE_CEILING as int) as i32,
            },
        )
    }
}

pub open spec fn evasion_step(enemy: Enemy, clock: Clock) -> (Enemy, Motion) {
    if enemy.state_timer <= 0 {
        (moved_to(enemy, EnemyBehaviorState::Pursuing), Motion::Hold)
    } else {
        (
            enemy,
            Motion::Evade {
                roll_phase: (3 * clock.elapsed + enemy.evasion_angle) as i64,
                pitch_phase: (2 * clock.elapsed) as u64,
                roll_amplitude: 500,
                pitch_amplitude: 300,
                speed: (enemy.speed * 6 / 5) as u64,
            },
        )
    }
}

pub open spec fn retreat_step(enemy: Enemy, sighting: Sighting) -> (Enemy, Motion) {
    if sighting.distance > 2 * enemy.pursuit_range {
        (moved_to(enemy, EnemyBehaviorState::Patrol), Motion::Hold)
    } else {
        (enemy, Motion::Retreat { turn_rate: 2000, speed: (enemy.speed * 4 / 5) as u64 })
    }
}

/// The speed at which a wingman closes on a slot `distance` away: it grows
/// with the distance up to one and a half times the cruise speed, and is
/// nothing within the tolerance.
pub open spec fn station_speed(speed: int, distance: int) -> int {
    if distance > STATION_TOLERANCE {
        speed * clamped(distance / 20, 0, 1500) / 1000
    } else {
        0
    }
}

pub open spec fn formation_step(enemy: Enemy, sighting: Sighting) -> (Enemy, Motion) {
    match enemy.formation_role {
        None => (enemy, Motion::Hold),
        Some(FormationRole::Leader) => if sighting.distance < enemy.attack_range {
            (entered(enemy, EnemyBehaviorState::Attacking, 2000), Motion::Hold)
        } else if sighting.distance < enemy.pursuit_range {
            (
                enemy,
                Motion::Intercept {
                    lead_time: (travel_time(sighting.distance as int, enemy.speed as int) * 3 / 10) as u64,
                    turn_rate: 2500,
                    speed: enemy.speed as u64,
                },
            )
        } else {
            (enemy, Motion::Hold)
        },
        Some(FormationRole::Wingman(_)) => match sighting.slot {
            None => (released(enemy), Motion::Hold),
            Some(slot) => if slot.distance > STATION_LIMIT || sighting.distance < enemy.attack_range {
                (released(enemy), Motion::Hold)
            } else {
                (
                    enemy,
                    Motion::KeepStation {
                        leader: slot.leader,
                        slot: slot.position,
                        turn_rate: 3000,
                        speed: station_speed(enemy.speed as int, slot.distance as int) as u64,
                    },
                )
            },
        },
        Some(FormationRole::Support) => (moved_to(enemy, EnemyBehaviorState::Supporting), Motion::Hold),
    }
}

pub open spec fn maneuver_step(enemy: Enemy, kind: ManeuverType, sighting: Sighting, clock: Clock) -> (Enemy, Motion) {
    let motion = Motion::Maneuver(
        maneuver_order(kind, enemy.maneuver_skill as int, enemy.speed as int, enemy.state_timer as int, clock.elapsed as int),
    );
    if enemy.state_timer <= 0 {
        if sighting.distance < enemy.attack_range {
            (moved_to(enemy, EnemyBehaviorState::Attacking), motion)
        } else {
            (moved_to(enemy, EnemyBehaviorState::Pursuing), motion)
        }
    } else {
        (enemy, motion)
    }
}

pub open spec fn ambush_step(enemy: Enemy, sighting: Sighting) -> (Enemy, Motion) {
    if 2 * sighting.distance < 3 * enemy.attack_range {
        (entered(enemy, EnemyBehaviorState::Attacking, 2000), Motion::Hold)
    } else {
        (
            enemy,
            Motion::Ambush {
                target_altitude: (sighting.player_altitude + AMBUSH_HEIGHT) as i64,
                climb_rate: 500,
                lead_time: 2000,
                turn_rate: 1000,
                speed: (enemy.speed / 2) as u64,
            },
        )
    }
}

pub open spec fn support_step(enemy: Enemy, sighting: Sighting, clock: Clock) -> (Enemy, Motion) {
    if sighting.distance < enemy.pursuit_range {
        (
            enemy,
            Motion::Support {
                orbit_radius: (enemy.preferred_distance * 3 / 2) as u64,
                orbit_angle: (clock.elapsed * 3 / 10) as u64,
                turn_rate: 2000,
                speed: (enemy.speed * 4 / 5) as u64,
            },
        )
    } else {
        (moved_to(enemy, EnemyBehaviorState::Patrol), Motion::Hold)
    }
}

/// What becomes of a wingman whose leader is missing. It lays its role
/// down at once. With sound morale it flies on alone in pursuit; with low
/// morale it retreats as every enemy of low morale does.
pub open spec fn orphan_step(enemy: Enemy, sighting: Sighting) -> (Enemy, Motion) {
    if enemy.morale < LOW_MORALE {
        retreat_step(moved_to(disbanded(enemy), EnemyBehaviorState::Retreating), sighting)
    } else {
        (released(enemy), Motion::Hold)
    }
}

/// The transition of a prepared enemy: a wingman without its leader goes
/// its own way at once; every other enemy follows the rule of its state.
pub open spec fn transition(enemy: Enemy, sighting: Sighting, clock: Clock, rolls: AttackRolls) -> (Enemy, Motion) {
    if is_orphan(enemy, sighting) {
        orphan_step(enemy, sighting)
    } else {
        match enemy.behavior_state {
            EnemyBehaviorState::Patrol => patrol_step(enemy, sighting, clock),
            EnemyBehaviorState::Pursuing => pursuit_step(enemy, sighting),
            EnemyBehaviorState::Attacking => attack_step(enemy, sighting, rolls),
            EnemyBehaviorState::Evading => evasion_step(enemy, clock),
            EnemyBehaviorState::Strafing => strafe_step(enemy, sighting),
            EnemyBehaviorState::Retreating => retreat_step(enemy, sighting),
            EnemyBehaviorState::Formation => formation_step(enemy, sighting),
            EnemyBehaviorState::Maneuvering(kind) => maneuver_step(enemy, kind, sighting, clock),
            EnemyBehaviorState::Ambushing => ambush_step(enemy, sighting),
            EnemyBehaviorState::Supporting => support_step(enemy, sighting, clock),
        }
    }
}

/// One tick of one enemy: the enemy afterwards and what the tick came to.
pub open spec fn stepped(
    enemy: Enemy,
    health: Health,
    sighting: Sighting,
    clock: Clock,
    rolls: TickRolls,
) -> (Enemy, StepOutcome) {
    let ready = prepared(enemy, health, clock);
    let line = spoken(ready, health, sighting, clock, rolls.chatter);
    let heard = if line is Some {
        Enemy { last_taunt_time: clock.elapsed, ..ready }
    } else {
        ready
    };
    let (next, motion) = transition(heard, sighting, clock, rolls.attack);
    (next, StepOutcome { motion, wobble_phase: (2 * clock.elapsed + next.evasion_angle) as i64, chatter: line })
}

impl AttackRolls {
    /// The rolls are within their ranges.
    pub open spec fn valid(&self) -> bool {
        is_roll(self.chance) && self.maneuver < 3 && self.veteran < 4 && is_roll(self.side)
    }

    /// Draws the rolls for one choice of attack pattern.
    pub fn draw() -> (rolls: AttackRolls)
        ensures
            rolls.valid(),
    {
        AttackRolls { chance: roll(), maneuver: pick(3), veteran: choice(4), side: roll() }
    }
}

impl TickRolls {
    /// The rolls are within their ranges.
    pub open spec fn valid(&self) -> bool {
        self.chatter.valid() && self.attack.valid()
    }

    /// Draws the rolls for one tick of one enemy.
    pub fn draw() -> (rolls: TickRolls)
        ensures
            rolls.valid(),
    {
        TickRolls { chatter: ChatterRolls::draw(), attack: AttackRolls::draw() }
    }
}

/// Confines an altitude to the band in which enemies fly.
pub fn clamp_altitude(altitude: i32) -> (r: i32)
    ensures
        r == clamped(altitude as int, ALTITUDE_FLOOR as int, ALTITUDE_CEILING as int),
{
    if altitude < ALTITUDE_FLOOR {
        ALTITUDE_FLOOR
    } else if altitude > ALTITUDE_CEILING {
        ALTITUDE_CEILING
    } else {
        altitude
    }
}

/// Chooses the state that follows an attack.
pub fn select_attack_pattern(
    personality: PilotPersonality,
    skill: u32,
    rolls: &AttackRolls,
) -> (next: EnemyBehaviorState)
    ensures
        next == attack_pattern(personality, skill as int, *rolls),
{
    match personality {
        PilotPersonality::Aggressive => {
            if rolls.chance < 300 && skill > 600 {
                EnemyBehaviorState::Maneuvering(ManeuverType::BarrelRoll)
            } else {
                EnemyBehaviorState::Strafing
            }
        },
        PilotPersonality::Defensive => {
            if rolls.chance < 700 {
                EnemyBehaviorState::Evading
            } else {
                EnemyBehaviorState::Strafing
            }
        },
        PilotPersonality::ShowOff => {
            if skill > 500 {
                match rolls.maneuver {
                    0 => EnemyBehaviorState::Maneuvering(ManeuverType::BarrelRoll),
                    1 => EnemyBehaviorState::Maneuvering(ManeuverType::Immelmann),
                    _ => EnemyBehaviorState::Maneuvering(ManeuverType::ChandelleTurn),
                }
            } else {
                EnemyBehaviorState::Strafing
            }
        },
        PilotPersonality::Veteran => {
            if rolls.veteran == 0 && skill > 700 {
                EnemyBehaviorState::Maneuvering(ManeuverType::HighYoYo)
            } else if rolls.veteran == 1 {
                EnemyBehaviorState::Ambushing
            } else if rolls.veteran == 2 {
                EnemyBehaviorState::Evading
            } else {
                EnemyBehaviorState::Strafing
            }
        },
        PilotPersonality::Tactical => EnemyBehaviorState::Strafing,
    }
}

fn prepare(enemy: Enemy, health: &Health, clock: Clock) -> (ready: Enemy)
    ensures
        ready == prepared(enemy, *health, clock),
{
    let mut ready = enemy;
    let run_down: i64 = enemy.state_timer as i64 - clock.dt as i64;
    ready.state_timer = if run_down < i32::MIN as i64 { i32::MIN } else { run_down as i32 };
    ready.morale = health.morale();
    if ready.morale < LOW_MORALE {
        ready.behavior_state = EnemyBehaviorState::Retreating;
    }
    ready
}

fn patrol(enemy: Enemy, sighting: &Sighting, clock: Clock) -> (r: (Enemy, Motion))
    ensures
        r == patrol_step(enemy, *sighting, clock),
{
    if sighting.distance < enemy.pursuit_range as u64 {
        let mut next = enemy;
        next.behavior_state = EnemyBehaviorState::Pursuing;
        next.state_timer = 2000;
        (next, Motion::Hold)
    } else {
        (enemy, Motion::Patrol { waypoint_angle: clock.elapsed / 2, turn_rate: 1000, speed: (enemy.speed / 2) as u64 })
    }
}

fn pursue(enemy: Enemy, sighting: &Sighting) -> (r: (Enemy, Motion))
    ensures
        r == pursuit_step(enemy, *sighting),
{
    let mut next = enemy;
    if sighting.distance < enemy.attack_range as u64 {
        next.behavior_state = EnemyBehaviorState::Attacking;
        next.state_timer = 1500;
        (next, Motion::Hold)
    } else if 2 * (sighting.distance as u128) > 3 * (enemy.pursuit_range as u128) {
        next.behavior_state = EnemyBehaviorState::Patrol;
        (next, Motion::Hold)
    } else {
        let lead_time = time_to_cover(sighting.distance, enemy.speed) / 2;
        (enemy, Motion::Intercept { lead_time, turn_rate: 3000, speed: enemy.speed as u64 })
    }
}

fn thrust_for_standoff(enemy: &Enemy, distance: u64) -> (thrust: i64)
    ensures
        thrust == standoff_thrust(*enemy, distance as int),
{
    let factor = aggression_modifier(enemy.personality);
    assert(enemy.preferred_distance * factor <= 0xffff_ffff * 1500) by (nonlinear_arith)
        requires
            0 <= enemy.preferred_distance <= 0xffff_ffff,
            0 <= factor <= 1500,
    ;
    let chosen: i128 = (enemy.preferred_distance as i128) * (factor as i128);
    let excess: i128 = (distance as i128) * 1000 - chosen;
    let tolerance: i128 = (STANDOFF_TOLERANCE as i128) * 1000;
    if excess > tolerance {
        enemy.speed as i64
    } else if excess < -tolerance {
        -((enemy.speed / 2) as i64)
    } else {
        0
    }
}

fn attack(enemy: Enemy, sighting: &Sighting, rolls: &AttackRolls) -> (r: (Enemy, Motion))
    ensures
        r == attack_step(enemy, *sighting, *rolls),
{
    let mut next = enemy;
    if 5 * (sighting.distance as u128) > 6 * (enemy.attack_range as u128) {
        next.behavior_state = EnemyBehaviorState::Pursuing;
        (next, Motion::Hold)
    } else if enemy.state_timer <= 0 {
        let pattern = select_attack_pattern(enemy.personality, enemy.maneuver_skill, rolls);
        next.behavior_state = pattern;
        next.evasion_angle = if rolls.side > 500 { 1000 } else { -1000 };
        next.state_timer = match pattern {
            EnemyBehaviorState::Maneuvering(_) => 1500,
            _ => 2000,
        };
        (next, Motion::Hold)
    } else {
        let thrust = thrust_for_standoff(&enemy, sighting.distance);
        let lead_time = aim_lead(enemy.enemy_type, enemy.personality, enemy.maneuver_skill);
        (enemy, Motion::Engage { thrust, lead_time, turn_rate: 2500 })
    }
}

fn four_fifths(speed: u32) -> (r: u64)
    ensures
        r == speed * 4 / 5,
{
    (speed as u64) * 4 / 5
}

fn strafe(enemy: Enemy, sighting: &Sighting) -> (r: (Enemy, Motion))
    ensures
        r == strafe_step(enemy, *sighting),
{
    if enemy.state_timer <= 0 {
        let mut next = enemy;
        next.behavior_state = EnemyBehaviorState::Attacking;
        next.state_timer = 1000;
        (next, Motion::Hold)
    } else {
        let altitude = if sighting.player_altitude < STRAFE_FLOOR {
            STRAFE_FLOOR
        } else if sighting.player_altitude > STRAFE_CEILING {
            STRAFE_CEILING
        } else {
            sighting.player_altitude
        };
        (
            enemy,
            Motion::Strafe { side: enemy.evasion_angle, speed: four_fifths(enemy.speed), turn_rate: 4000, altitude },
        )
    }
}

fn evade(enemy: Enemy, clock: Clock) -> (r: (Enemy, Motion))
    ensures
        r == evasion_step(enemy, clock),
{
    if enemy.state_timer <= 0 {
        let mut next = enemy;
        next.behavior_state = EnemyBehaviorState::Pursuing;
        (next, Motion::Hold)
    } else {
        (
            enemy,
            Motion::Evade {
                roll_phase: 3 * (clock.elapsed as i64) + enemy.evasion_angle as i64,
                pitch_phase: 2 * (clock.elapsed as u64),
                roll_amplitude: 500,
                pitch_amplitude: 300,
                speed: (enemy.speed as u64) * 6 / 5,
            },
        )
    }
}

fn retreat(enemy: Enemy, sighting: &Sighting) -> (r: (Enemy, Motion))
    ensures
        r == retreat_step(enemy, *sighting),
{
    if sighting.distance > 2 * (enemy.pursuit_range as u64) {
        let mut next = enemy;
        next.behavior_state = EnemyBehaviorState::Patrol;
        (next, Motion::Hold)
    } else {
        (enemy, Motion::Retreat { turn_rate: 2000, speed: four_fifths(enemy.speed) })
    }
}

fn speed_to_station(speed: u32, distance: u64) -> (r: u64)
    ensures
        r == station_speed(speed as int, distance as int),
{
    if distance > STATION_TOLERANCE {
        let share: u64 = if distance / 20 > 1500 { 1500 } else { distance / 20 };
        assert(speed * share <= 0xffff_ffff * 1500) by (nonlinear_arith)
            requires
                0 <= speed <= 0xffff_ffff,
                0 <= share <= 1500,
        ;
        (speed as u64) * share / 1000
    } else {
        0
    }
}

fn release(enemy: Enemy) -> (next: Enemy)
    ensures
        next == released(enemy),
{
    let mut next = enemy;
    next.behavior_state = EnemyBehaviorState::Pursuing;
    next.formation_role = None;
    next
}

fn fly_formation(enemy: Enemy, sighting: &Sighting) -> (r: (Enemy, Motion))
    ensures
        r == formation_step(enemy, *sighting),
{
    match enemy.formation_role {
        None => (enemy, Motion::Hold),
        Some(FormationRole::Leader) => {
            if sighting.distance < enemy.attack_range as u64 {
                let mut next = enemy;
                next.behavior_state = EnemyBehaviorState::Attacking;
                next.state_timer = 2000;
                (next, Motion::Hold)
            } else if sighting.distance < enemy.pursuit_range as u64 {
                let time = time_to_cover(sighting.distance, enemy.speed);
                let lead_time = ((time as u128) * 3 / 10) as u64;
                (enemy, Motion::Intercept { lead_time, turn_rate: 2500, speed: enemy.speed as u64 })
            } else {
                (enemy, Motion::Hold)
            }
        },
        Some(FormationRole::Wingman(_)) => match sighting.slot {
            None => (release(enemy), Motion::Hold),
            Some(slot) => {
                if slot.distance > STATION_LIMIT || sighting.distance < enemy.attack_range as u64 {
                    (release(enemy), Motion::Hold)
                } else {
                    (
                        enemy,
                        Motion::KeepStation {
                            leader: slot.leader,
                            slot: slot.position,
                            turn_rate: 3000,
                            speed: speed_to_station(enemy.speed, slot.distance),
                        },
                    )
                }
            },
        },
        Some(FormationRole::Support) => {
            let mut next = enemy;
            next.behavior_state = EnemyBehaviorState::Supporting;
            (next, Motion::Hold)
        },
    }
}

fn maneuver(enemy: Enemy, kind: ManeuverType, sighting: &Sighting, clock: Clock) -> (r: (Enemy, Motion))
    ensures
        r == maneuver_step(enemy, kind, *sighting, clock),
{
    let motion = Motion::Maneuver(perform_maneuver(&enemy, kind, clock.elapsed));
    let mut next = enemy;
    if enemy.state_timer <= 0 {
        next.behavior_state = if sighting.distance < enemy.attack_range as u64 {
            EnemyBehaviorState::Attacking
        } else {
            EnemyBehaviorState::Pursuing
        };
    }
    (next, motion)
}

fn ambush(enemy: Enemy, sighting: &Sighting) -> (r: (Enemy, Motion))
    ensures
        r == ambush_step(enemy, *sighting),
{
    if 2 * (sighting.distance as u128) < 3 * (enemy.attack_range as u128) {
        let mut next = enemy;
        next.behavior_state = EnemyBehaviorState::Attacking;
        next.state_timer = 2000;
        (next, Motion::Hold)
    } else {
        (
            enemy,
            Motion::Ambush {
                target_altitude: sighting.player_altitude as i64 + AMBUSH_HEIGHT as i64,
                climb_rate: 500,
                lead_time: 2000,
                turn_rate: 1000,
                speed: (enemy.speed / 2) as u64,
            },
        )
    }
}

fn support(enemy: Enemy, sighting: &Sighting, clock: Clock) -> (r: (Enemy, Motion))
    ensures
        r == support_step(enemy, *sighting, clock),
{
    if sighting.distance < enemy.pursuit_range as u64 {
        (
            enemy,
            Motion::Support {
                orbit_radius: (enemy.preferred_distance as u64) * 3 / 2,
                orbit_angle: (clock.elapsed as u64) * 3 / 10,
                turn_rate: 2000,
                speed: four_fifths(enemy.speed),
            },
        )
    } else {
        let mut next = enemy;
        next.behavior_state = EnemyBehaviorState::Patrol;
        (next, Motion::Hold)
    }
}

fn fly_alone(enemy: Enemy, sighting: &Sighting) -> (r: (Enemy, Motion))
    ensures
        r == orphan_step(enemy, *sighting),
{
    if enemy.morale < LOW_MORALE {
        let mut alone = enemy;
        alone.formation_role = None;
        alone.behavior_state = EnemyBehaviorState::Retreating;
        retreat(alone, sighting)
    } else {
        (release(enemy), Motion::Hold)
    }
}

fn transit(enemy: Enemy, sighting: &Sighting, clock: Clock, rolls: &AttackRolls) -> (r: (Enemy, Motion))
    ensures
        r == transition(enemy, *sighting, clock, *rolls),
{
    let orphan = match enemy.formation_role {
        Some(FormationRole::Wingman(_)) => sighting.slot.is_none(),
        _ => false,
    };
    if orphan {
        return fly_alone(enemy, sighting);
    }
    match enemy.behavior_state {
        EnemyBehaviorState::Patrol => patrol(enemy, sighting, clock),
        EnemyBehaviorState::Pursuing => pursue(enemy, sighting),
        EnemyBehaviorState::Attacking => attack(enemy, sighting, rolls),
        EnemyBehaviorState::Evading => evade(enemy, clock),
        EnemyBehaviorState::Strafing => strafe(enemy, sighting),
        EnemyBehaviorState::Retreating => retreat(enemy, sighting),
        EnemyBehaviorState::Formation => fly_formation(enemy, sighting),
        EnemyBehaviorState::Maneuvering(kind) => maneuver(enemy, kind, sighting, clock),
        EnemyBehaviorState::Ambushing => ambush(enemy, sighting),
        EnemyBehaviorState::Supporting => support(enemy, sighting, clock),
    }
}

/// Runs one tick of one enemy with the given rolls: the timer runs on,
/// morale follows health, the pilot may speak, and the state machine makes
/// its move.
pub fn step(
    enemy: &mut Enemy,
    health: &Health,
    sighting: &Sighting,
    clock: Clock,
    rolls: &TickRolls,
) -> (outcome: StepOutcome)
    ensures
        (*final(enemy), outcome) == stepped(*old(enemy), *health, *sighting, clock, *rolls),
{
    let mut ready = prepare(*enemy, health, clock);
    let line = if clock.elapsed as i64 - ready.last_taunt_time as i64 > CHATTER_INTERVAL as i64 {
        chatter_with(&ready, sighting.distance, health, rolls.chatter)
    } else {
        None
    };
    if line.is_some() {
        ready.last_taunt_time = clock.elapsed;
    }
    let (next, motion) = transit(ready, sighting, clock, &rolls.attack);
    *enemy = next;
    StepOutcome { motion, wobble_phase: 2 * (clock.elapsed as i64) + next.evasion_angle as i64, chatter: line }
}

/// While an enemy stays in its state its timer never runs upward; the timer
/// is set anew only where the state changes, and then to a time that is not
/// negative. Apart from that it simply runs down.
pub proof fn law_state_timer(enemy: Enemy, health: Health, sighting: Sighting, clock: Clock, rolls: TickRolls)
    ensures
        ({
            let next = stepped(enemy, health, sighting, clock, rolls).0;
            &&& next.behavior_state == enemy.behavior_state ==> next.state_timer <= enemy.state_timer
            &&& next.state_timer > enemy.state_timer ==> next.behavior_state != enemy.behavior_state
                && next.state_timer >= 0
            &&& next.state_timer == timer_after(enemy.state_timer as int, clock.dt as int)
                || next.state_timer == 1000 || next.state_timer == 1500 || next.state_timer == 2000
        }),
{
}

/// A wingman keeps its role through a tick only where the snapshot of that
/// tick holds its leader. A wingman whose leader is missing lays its role
/// down whatever state it was in, and with sound morale flies on alone in
/// pursuit.
pub proof fn law_wingman_needs_leader(enemy: Enemy, health: Health, sighting: Sighting, clock: Clock, rolls: TickRolls)
    ensures
        ({
            let next = stepped(enemy, health, sighting, clock, rolls).0;
            &&& next.formation_role matches Some(FormationRole::Wingman(leader)) ==> sighting.slot is Some
                && enemy.formation_role == Some(FormationRole::Wingman(leader))
            &&& is_orphan(enemy, sighting) ==> next.formation_role is None
            &&& is_orphan(enemy, sighting) && morale_of(health) >= LOW_MORALE ==> next.behavior_state
                == EnemyBehaviorState::Pursuing
        }),
{
    law_health_clamp(health, 0);
}

/// Morale follows health, and low morale forces a retreat from every state
/// and in every role: after the tick an enemy of low morale is retreating,
/// or, once the player is more than two pursuit ranges away, back on
/// patrol. Sound morale alone changes no state.
pub proof fn law_low_morale_retreats(enemy: Enemy, health: Health, sighting: Sighting, clock: Clock, rolls: TickRolls)
    ensures
        ({
            let next = stepped(enemy, health, sighting, clock, rolls).0;
            &&& next.morale == morale_of(health)
            &&& morale_of(health) < LOW_MORALE <==> 4 * effective_health(health) < health.max
            &&& morale_of(health) < LOW_MORALE && sighting.distance <= 2 * enemy.pursuit_range
                ==> next.behavior_state == EnemyBehaviorState::Retreating
            &&& morale_of(health) < LOW_MORALE && sighting.distance > 2 * enemy.pursuit_range
                ==> next.behavior_state == EnemyBehaviorState::Patrol
            &&& morale_of(health) >= LOW_MORALE ==> prepared(enemy, health, clock).behavior_state
                == enemy.behavior_state
        }),
{
    law_health_clamp(health, 0);
    if health.max > 0 {
        let effective = effective_health(health);
        let max = health.max as int;
        assert(effective * 1200 / max < 300 <==> 4 * effective < max) by (nonlinear_arith)
            requires
                0 <= effective,
                max > 0,
        ;
    }
}

/// Every personality picks its next move from its own repertoire: the
/// defensive pilot evades or strafes, the tactical one always strafes, and
/// nobody ever picks a state outside maneuvering, strafing, evading and
/// ambushing.
pub proof fn law_attack_repertoire(personality: PilotPersonality, skill: int, rolls: AttackRolls)
    ensures
        ({
            let next = attack_pattern(personality, skill, rolls);
            &&& next is Maneuvering || next == EnemyBehaviorState::Strafing || next == EnemyBehaviorState::Evading
                || next == EnemyBehaviorState::Ambushing
            &&& personality == PilotPersonality::Defensive ==> next == EnemyBehaviorState::Evading || next
                == EnemyBehaviorState::Strafing
            &&& personality == PilotPersonality::Defensive ==> (next == EnemyBehaviorState::Evading <==> rolls.chance
                < 700)
            &&& personality == PilotPersonality::Tactical ==> next == EnemyBehaviorState::Strafing
            &&& next == EnemyBehaviorState::Ambushing ==> personality == PilotPersonality::Veteran
        }),
{
}

} // verus!
