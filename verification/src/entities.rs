//! The records that make up the combat world: enemies, their health, the
//! bullets in flight and the events that combat emits.

use vstd::prelude::*;
use crate::geometry::Vector3;

verus! {

/// The identity of an entity of the hosting world. It is a handle, never an
/// owner: whoever holds one must look the entity up before relying on it.
#[derive(Debug, Clone, Copy, PartialEq, Eq, Structural, Hash)]
pub struct EntityId {
    pub index: u32,
    pub generation: u32,
}

#[derive(Debug, Clone, Copy, PartialEq, Eq, Structural, Hash)]
pub enum EnemyType {
    Fighter,
    Bomber,
    Ace,
}

#[derive(Debug, Clone, Copy, PartialEq, Eq, Structural, Hash)]
pub enum PilotPersonality {
    /// Rushes in, takes risks.
    Aggressive,
    /// Cautious.
    Defensive,
    /// Smart positioning, team player.
    Tactical,
    /// Does unnecessary maneuvers.
    ShowOff,
    /// Experienced, unpredictable.
    Veteran,
}

#[derive(Debug, Clone, Copy, PartialEq, Eq, Structural, Hash)]
pub enum FormationRole {
    Leader,
    /// Follows the leader with the given identity.
    Wingman(EntityId),
    Support,
}

#[derive(Debug, Clone, Copy, PartialEq, Eq, Structural, Hash)]
pub enum ManeuverType {
    BarrelRoll,
    Immelmann,
    SplitS,
    HighYoYo,
    LowYoYo,
    Scissors,
    ChandelleTurn,
}

#[derive(Debug, Clone, Copy, PartialEq, Eq, Structural, Hash)]
pub enum EnemyBehaviorState {
    Patrol,
    Pursuing,
    Attacking,
    Evading,
    Strafing,
    Retreating,
    Formation,
    Maneuvering(ManeuverType),
    Ambushing,
    Supporting,
}

/// One hostile aircraft.
#[derive(Debug, Clone, Copy, PartialEq, Eq)]
pub struct Enemy {
    /// Cruise speed, thousandths of a unit per second.
    pub speed: u32,
    /// Damage of each bullet it fires, thousandths of a health point.
    pub damage: u32,
    pub attack_range: u32,
    pub pursuit_range: u32,
    pub enemy_type: EnemyType,
    pub behavior_state: EnemyBehaviorState,
    /// Milliseconds left in the current state; counts down and may pass zero.
    pub state_timer: i32,
    /// The side taken when strafing or evading: one thousand on one side,
    /// minus one thousand on the other.
    pub evasion_angle: i32,
    /// The standoff distance preferred in combat.
    pub preferred_distance: u32,
    pub personality: PilotPersonality,
    pub formation_role: Option<FormationRole>,
    /// Flying skill, thousandths of one.
    pub maneuver_skill: u32,
    /// Milliseconds that pass in a new attack before the first shot.
    pub reaction_time: u32,
    /// Thousandths; 1.2 times the health ratio once the enemy has lived a tick.
    pub morale: u32,
    /// The clock reading at the last radio message, in milliseconds.
    pub last_taunt_time: u32,
    /// Milliseconds until the guns may fire again.
    pub shoot_cooldown: u32,
}

/// Health points of a combatant, in thousandths.
#[derive(Debug, Clone, Copy, PartialEq, Eq, Structural)]
pub struct Health {
    pub current: u32,
    pub max: u32,
}

/// A bullet fired by an enemy.
#[derive(Debug, Clone, Copy, PartialEq, Eq, Structural)]
pub struct EnemyBullet {
    pub velocity: Vector3,
    pub damage: u32,
    /// Milliseconds of flight left.
    pub lifetime: u32,
}

/// A bullet fired by the player.
#[derive(Debug, Clone, Copy, PartialEq, Eq, Structural)]
pub struct PlayerBullet {
    pub velocity: Vector3,
    pub damage: u32,
    /// Milliseconds of flight left.
    pub lifetime: u32,
}

/// Emitted once for every enemy that is destroyed.
#[derive(Debug, Clone, Copy, PartialEq, Eq, Structural)]
pub struct EnemyDestroyedEvent {
    pub position: Vector3,
    pub enemy_type: EnemyType,
}

/// A line of radio chatter sent by an enemy pilot.
#[derive(Debug, Clone, PartialEq, Eq)]
pub struct RadioChatterEvent {
    pub message: String,
    pub sender_type: EnemyType,
    pub personality: PilotPersonality,
}

/// Where an aircraft is and how it is oriented. The two axes are vectors of
/// length one thousand.
#[derive(Debug, Clone, Copy, PartialEq, Eq, Structural)]
pub struct Pose {
    pub position: Vector3,
    pub right: Vector3,
    pub forward: Vector3,
}

/// An enemy together with what the world knows of it.
#[derive(Debug, Clone, Copy, PartialEq, Eq)]
pub struct EnemyUnit {
    pub entity: EntityId,
    pub pose: Pose,
    pub enemy: Enemy,
    pub health: Health,
}

/// A bullet of the player in flight.
#[derive(Debug, Clone, Copy, PartialEq, Eq, Structural)]
pub struct PlayerBulletUnit {
    pub entity: EntityId,
    pub position: Vector3,
    pub bullet: PlayerBullet,
}

/// A bullet of an enemy in flight.
#[derive(Debug, Clone, Copy, PartialEq, Eq, Structural)]
pub struct EnemyBulletUnit {
    pub entity: EntityId,
    pub position: Vector3,
    pub bullet: EnemyBullet,
}

/// The health that counts for ratios: never more than the maximum.
pub open spec fn effective_health(health: Health) -> int {
    if health.current <= health.max {
        health.current as int
    } else {
        health.max as int
    }
}

/// Health as thousandths of the maximum. A combatant without any capacity
/// for health counts as unhurt.
pub open spec fn health_ratio(health: Health) -> int {
    if health.max == 0 {
        1000
    } else {
        effective_health(health) * 1000 / (health.max as int)
    }
}

/// Morale is 1.2 times the health ratio.
pub open spec fn morale_of(health: Health) -> int {
    if health.max == 0 {
        1200
    } else {
        effective_health(health) * 1200 / (health.max as int)
    }
}

/// What is left of `health` after `damage`: health never drops below zero.
pub open spec fn after_damage(health: Health, damage: int) -> Health {
    Health {
        current: if damage >= health.current { 0u32 } else { (health.current - damage) as u32 },
        max: health.max,
    }
}

/// What `health` becomes after healing by `amount`: the sum, and never more
/// than the maximum.
pub open spec fn after_healing(health: Health, amount: int) -> Health {
    Health {
        current: if health.current + amount >= health.max {
            health.max
        } else {
            (health.current + amount) as u32
        },
        max: health.max,
    }
}

impl Health {
    /// Full health of the given capacity.
    pub fn full(max: u32) -> (health: Health)
        ensures
            health == (Health { current: max, max }),
    {
        Health { current: max, max }
    }

    /// Whether nothing is left.
    pub fn is_spent(&self) -> (r: bool)
        ensures
            r == (self.current == 0),
    {
        self.current == 0
    }

    /// Health as thousandths of the maximum.
    pub fn ratio(&self) -> (r: u32)
        ensures
            r == health_ratio(*self),
            r <= 1000,
    {
        if self.max == 0 {
            1000
        } else {
            let effective: u64 = if self.current <= self.max { self.current as u64 } else { self.max as u64 };
            assert(effective * 1000 / (self.max as int) <= 1000) by (nonlinear_arith)
                requires
                    0 <= effective <= self.max,
                    self.max > 0,
            ;
            (effective * 1000 / (self.max as u64)) as u32
        }
    }

    /// The morale that this health gives.
    pub fn morale(&self) -> (r: u32)
        ensures
            r == morale_of(*self),
            r <= 1200,
    {
        if self.max == 0 {
            1200
        } else {
            let effective: u64 = if self.current <= self.max { self.current as u64 } else { self.max as u64 };
            assert(effective * 1200 / (self.max as int) <= 1200) by (nonlinear_arith)
                requires
                    0 <= effective <= self.max,
                    self.max > 0,
            ;
            (effective * 1200 / (self.max as u64)) as u32
        }
    }

    /// Takes `damage` away.
    pub fn damage(&mut self, damage: u32)
        ensures
            *final(self) == after_damage(*old(self), damage as int),
    {
        self.current = self.current.saturating_sub(damage);
    }

    /// Heals by `amount`, up to the maximum.
    pub fn heal(&mut self, amount: u32)
        ensures
            *final(self) == after_healing(*old(self), amount as int),
            final(self).current <= final(self).max,
    {
        if self.current >= self.max || amount >= self.max - self.current {
            self.current = self.max;
        } else {
            self.current = self.current + amount;
        }
    }
}

/// Health is never counted above its maximum: ratio and morale stay within
/// their scales whatever the record holds, healing gives the sum or the
/// maximum, whichever is less, and damage never adds and stops at zero.
pub proof fn law_health_clamp(health: Health, amount: u32)
    ensures
        0 <= health_ratio(health) <= 1000,
        0 <= morale_of(health) <= 1200,
        after_healing(health, amount as int).current <= health.max,
        after_healing(health, amount as int).current == if health.current + amount <= health.max {
            health.current + amount
        } else {
            health.max as int
        },
        health.current <= health.max ==> after_healing(health, amount as int).current >= health.current,
        after_healing(health, amount as int).max == health.max,
        after_damage(health, amount as int).current <= health.current,
        after_damage(health, amount as int).max == health.max,
{
    if health.max > 0 {
        let effective = effective_health(health);
        let max = health.max as int;
        assert(0 <= effective * 1000 / max <= 1000) by (nonlinear_arith)
            requires
                0 <= effective <= max,
                max > 0,
        ;
        assert(0 <= effective * 1200 / max <= 1200) by (nonlinear_arith)
            requires
                0 <= effective <= max,
                max > 0,
        ;
    }
}

} // verus!
