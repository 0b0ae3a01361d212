//! Combat resolution: who may shoot, how bullets fly, and what happens
//! where bullets and aircraft meet.

use vstd::prelude::*;
use crate::archetypes::{
    accuracy_spread, accuracy_spread_of, collision_damage, collision_damage_of, collision_radius,
    collision_radius_of, fire_rate, fire_rate_of, kill_points, kill_points_of, ram_points, ram_points_of,
};
use crate::entities::{
    Enemy, EnemyBehaviorState, EnemyBullet, EnemyBulletUnit, EnemyDestroyedEvent, EnemyUnit, EntityId,
    Health, PlayerBullet, PlayerBulletUnit, after_damage,
};
use crate::game_state::GameStats;
use crate::geometry::{Vector3, closer_than, confine, confined, displaced, distance_between};
use crate::powerups::ActivePowerUps;
use crate::random::{is_roll, roll};
use crate::units::{floor_thousandth, time_to_cover, travel_time};

verus! {

/// A bullet hits what it comes closer to than this.
pub const HIT_RADIUS: u32 = 5_000;

/// The speed of an enemy's bullet.
pub const ENEMY_BULLET_SPEED: u32 = 120_000;

/// The speed of a bullet of the player.
pub const PLAYER_BULLET_SPEED: u32 = 250_000;

/// How long a bullet flies, in milliseconds.
pub const BULLET_LIFETIME: u32 = 3_000;

/// How far ahead of an enemy its bullets appear.
pub const ENEMY_MUZZLE: u32 = 4_000;

/// How far ahead of the player its bullets appear.
pub const PLAYER_MUZZLE: u32 = 5_000;

/// The pause between two salvos of the player, in milliseconds.
pub const PLAYER_FIRE_RATE: u32 = 250;

/// The pause between two salvos under rapid fire.
pub const RAPID_FIRE_RATE: u32 = 100;

/// The damage of a bullet of the player.
pub const PLAYER_DAMAGE: u32 = 25_000;

/// The damage of a homing missile.
pub const MISSILE_DAMAGE: u32 = 50_000;

/// How long an enemy that was shot to low health retreats.
pub const RETREAT_TIME: i32 = 5_000;

/// Out of a thousand parts of the damage, how many a shield lets through.
pub const SHIELD_LEAK: u32 = 200;

/// The items of `items` that `keep` holds of, in their order.
pub open spec fn retained<T>(items: Seq<T>, keep: spec_fn(T) -> bool) -> Seq<T>
    decreases items.len(),
{
    if items.len() == 0 {
        Seq::empty()
    } else {
        let rest = retained(items.drop_last(), keep);
        if keep(items.last()) {
            rest.push(items.last())
        } else {
            rest
        }
    }
}

/// What is left of a countdown after `dt` more milliseconds.
pub open spec fn run_down(remaining: u32, dt: u32) -> u32 {
    if remaining <= dt {
        0
    } else {
        (remaining - dt) as u32
    }
}

/// A bullet of the player after `dt` milliseconds of flight.
pub open spec fn player_bullet_flown(unit: PlayerBulletUnit, dt: u32) -> PlayerBulletUnit {
    PlayerBulletUnit {
        entity: unit.entity,
        position: displaced(unit.position, unit.bullet.velocity, dt as int),
        bullet: PlayerBullet { lifetime: run_down(unit.bullet.lifetime, dt), ..unit.bullet },
    }
}

/// A bullet of an enemy after `dt` milliseconds of flight.
pub open spec fn enemy_bullet_flown(unit: EnemyBulletUnit, dt: u32) -> EnemyBulletUnit {
    EnemyBulletUnit {
        entity: unit.entity,
        position: displaced(unit.position, unit.bullet.velocity, dt as int),
        bullet: EnemyBullet { lifetime: run_down(unit.bullet.lifetime, dt), ..unit.bullet },
    }
}

/// The player's bullets that are still in flight after `dt` milliseconds.
pub open spec fn player_bullets_in_flight(units: Seq<PlayerBulletUnit>, dt: u32) -> Seq<PlayerBulletUnit> {
    retained(
        units.map_values(|unit: PlayerBulletUnit| player_bullet_flown(unit, dt)),
        |unit: PlayerBulletUnit| unit.bullet.lifetime > 0,
    )
}

/// The player's bullets whose time runs out within `dt` milliseconds.
pub open spec fn player_bullets_spent(units: Seq<PlayerBulletUnit>, dt: u32) -> Seq<EntityId> {
    retained(units, |unit: PlayerBulletUnit| unit.bullet.lifetime <= dt).map_values(
        |unit: PlayerBulletUnit| unit.entity,
    )
}

/// The enemies' bullets that are still in flight after `dt` milliseconds.
pub open spec fn enemy_bullets_in_flight(units: Seq<EnemyBulletUnit>, dt: u32) -> Seq<EnemyBulletUnit> {
    retained(
        units.map_values(|unit: EnemyBulletUnit| enemy_bullet_flown(unit, dt)),
        |unit: EnemyBulletUnit| unit.bullet.lifetime > 0,
    )
}

/// The enemies' bullets whose time runs out within `dt` milliseconds.
pub open spec fn enemy_bullets_spent(units: Seq<EnemyBulletUnit>, dt: u32) -> Seq<EntityId> {
    retained(units, |unit: EnemyBulletUnit| unit.bullet.lifetime <= dt).map_values(
        |unit: EnemyBulletUnit| unit.entity,
    )
}

/// Taking one more item into account extends what is retained by that item
/// or by nothing.
pub proof fn lemma_retained_step<T>(items: Seq<T>, keep: spec_fn(T) -> bool, i: int)
    requires
        0 <= i < items.len(),
    ensures
        retained(items.take(i + 1), keep) == if keep(items[i]) {
            retained(items.take(i), keep).push(items[i])
        } else {
            retained(items.take(i), keep)
        },
{
    let next = items.take(i + 1);
    assert(next.drop_last() == items.take(i));
    assert(next.last() == items[i]);
}

fn fly_player_bullets(bullets: &mut Vec<PlayerBulletUnit>, dt: u32, expired: &mut Vec<EntityId>)
    ensures
        final(bullets)@ == player_bullets_in_flight(old(bullets)@, dt),
        final(expired)@ == old(expired)@ + player_bullets_spent(old(bullets)@, dt),
{
    let ghost before = bullets@;
    let ghost gone = expired@;
    let ghost flown = before.map_values(|unit: PlayerBulletUnit| player_bullet_flown(unit, dt));
    let ghost alive = |unit: PlayerBulletUnit| unit.bullet.lifetime > 0;
    let ghost dead = |unit: PlayerBulletUnit| unit.bullet.lifetime <= dt;
    let mut kept: Vec<PlayerBulletUnit> = Vec::new();
    let mut i: usize = 0;
    while i < bullets.len()
        invariant
            i <= bullets.len(),
            bullets@ == before,
            flown == before.map_values(|unit: PlayerBulletUnit| player_bullet_flown(unit, dt)),
            alive == |unit: PlayerBulletUnit| unit.bullet.lifetime > 0,
            dead == |unit: PlayerBulletUnit| unit.bullet.lifetime <= dt,
            kept@ == retained(flown.take(i as int), alive),
            expired@ == gone + retained(before.take(i as int), dead).map_values(
                |unit: PlayerBulletUnit| unit.entity,
            ),
        decreases bullets.len() - i,
    {
        let mut unit = bullets[i];
        proof {
            lemma_retained_step(flown, alive, i as int);
            lemma_retained_step(before, dead, i as int);
        }
        unit.position = unit.position.advanced(&unit.bullet.velocity, dt);
        unit.bullet.lifetime = unit.bullet.lifetime.saturating_sub(dt);
        if unit.bullet.lifetime > 0 {
            kept.push(unit);
        } else {
            expired.push(unit.entity);
        }
        i += 1;
    }
    proof {
        assert(flown.take(bullets.len() as int) == flown);
        assert(before.take(bullets.len() as int) == before);
    }
    *bullets = kept;
}

fn fly_enemy_bullets(bullets: &mut Vec<EnemyBulletUnit>, dt: u32, expired: &mut Vec<EntityId>)
    ensures
        final(bullets)@ == enemy_bullets_in_flight(old(bullets)@, dt),
        final(expired)@ == old(expired)@ + enemy_bullets_spent(old(bullets)@, dt),
{
    let ghost before = bullets@;
    let ghost gone = expired@;
    let ghost flown = before.map_values(|unit: EnemyBulletUnit| enemy_bullet_flown(unit, dt));
    let ghost alive = |unit: EnemyBulletUnit| unit.bullet.lifetime > 0;
    let ghost dead = |unit: EnemyBulletUnit| unit.bullet.lifetime <= dt;
    let mut kept: Vec<EnemyBulletUnit> = Vec::new();
    let mut i: usize = 0;
    while i < bullets.len()
        invariant
            i <= bullets.len(),
            bullets@ == before,
            flown == before.map_values(|unit: EnemyBulletUnit| enemy_bullet_flown(unit, dt)),
            alive == |unit: EnemyBulletUnit| unit.bullet.lifetime > 0,
            dead == |unit: EnemyBulletUnit| unit.bullet.lifetime <= dt,
            kept@ == retained(flown.take(i as int), alive),
            expired@ == gone + retained(before.take(i as int), dead).map_values(
                |unit: EnemyBulletUnit| unit.entity,
            ),
        decreases bullets.len() - i,
    {
        let mut unit = bullets[i];
        proof {
            lemma_retained_step(flown, alive, i as int);
            lemma_retained_step(before, dead, i as int);
        }
        unit.position = unit.position.advanced(&unit.bullet.velocity, dt);
        unit.bullet.lifetime = unit.bullet.lifetime.saturating_sub(dt);
        if unit.bullet.lifetime > 0 {
            kept.push(unit);
        } else {
            expired.push(unit.entity);
        }
        i += 1;
    }
    proof {
        assert(flown.take(bullets.len() as int) == flown);
        assert(before.take(bullets.len() as int) == before);
    }
    *bullets = kept;
}

/// Lets every bullet fly for `dt` milliseconds. Bullets whose time has run
/// out leave the world; their identities are returned, the player's first.
pub fn update_bullets_system(
    player_bullets: &mut Vec<PlayerBulletUnit>,
    enemy_bullets: &mut Vec<EnemyBulletUnit>,
    dt: u32,
) -> (expired: Vec<EntityId>)
    ensures
        final(player_bullets)@ == player_bullets_in_flight(old(player_bullets)@, dt),
        final(enemy_bullets)@ == enemy_bullets_in_flight(old(enemy_bullets)@, dt),
        expired@ == player_bullets_spent(old(player_bullets)@, dt) + enemy_bullets_spent(old(enemy_bullets)@, dt),
{
    let mut expired: Vec<EntityId> = Vec::new();
    fly_player_bullets(player_bullets, dt, &mut expired);
    fly_enemy_bullets(enemy_bullets, dt, &mut expired);
    expired
}

/// The rolls that scatter one shot.
#[derive(Debug, Clone, Copy, PartialEq, Eq, Structural)]
pub struct SpreadRolls {
    pub x: u32,
    pub y: u32,
    pub z: u32,
}

/// A shot an enemy fires. The bullet leaves [`ENEMY_MUZZLE`] ahead of the
/// shooter towards where the player will be after `lead_time`, its
/// direction, a vector of length one, thrown off by `spread` thousandths.
#[derive(Debug, Clone, Copy, PartialEq, Eq, Structural)]
pub struct EnemyShot {
    pub shooter: EntityId,
    /// Milliseconds of the player's movement that the aim runs ahead.
    pub lead_time: u64,
    pub spread: Vector3,
    pub speed: u32,
    pub damage: u32,
    pub lifetime: u32,
}

/// A bullet the player fires: it leaves [`PLAYER_MUZZLE`] ahead and
/// `lateral_offset` to the right of the aircraft, straight ahead.
#[derive(Debug, Clone, Copy, PartialEq, Eq, Structural)]
pub struct PlayerShot {
    pub lateral_offset: i32,
    pub speed: u32,
    pub damage: u32,
    pub lifetime: u32,
}

/// Whether a state lets an enemy use its guns.
pub open spec fn is_firing_state(state: EnemyBehaviorState) -> bool {
    state == EnemyBehaviorState::Attacking || state == EnemyBehaviorState::Strafing || state
        == EnemyBehaviorState::Supporting || state == EnemyBehaviorState::Formation
}

/// Whether an enemy whose guns have cooled for this tick fires: it is in a
/// firing state, within attack range, off cooldown, and has been in its
/// state long enough to react.
pub open spec fn may_fire(enemy: Enemy, distance: int) -> bool {
    is_firing_state(enemy.behavior_state) && distance < enemy.attack_range && enemy.shoot_cooldown == 0
        && enemy.state_timer < 2000 - enemy.reaction_time
}

/// One component of the scatter of a shot: the roll, taken from the middle,
/// times the spread.
pub open spec fn scatter(roll: u32, spread: int) -> int {
    confined((roll - 500) * spread / 1000)
}

/// The shot that `unit` fires from `distance` away with the given rolls.
pub open spec fn shot_of(unit: EnemyUnit, distance: int, rolls: SpreadRolls) -> EnemyShot {
    let spread = accuracy_spread_of(unit.enemy.enemy_type, unit.enemy.personality, unit.enemy.maneuver_skill as int);
    EnemyShot {
        shooter: unit.entity,
        lead_time: (travel_time(distance, ENEMY_BULLET_SPEED as int) / 2) as u64,
        spread: Vector3 {
            x: scatter(rolls.x, spread) as i32,
            y: scatter(rolls.y, spread) as i32,
            z: scatter(rolls.z, spread) as i32,
        },
        speed: ENEMY_BULLET_SPEED,
        damage: unit.enemy.damage,
        lifetime: BULLET_LIFETIME,
    }
}

/// What a tick of gunnery makes of `unit`: its guns cool by `dt`, and if it
/// may fire it does, which starts the cooldown of its fire rate.
pub open spec fn gunnery(
    unit: EnemyUnit,
    player: Vector3,
    dt: u32,
    rolls: SpreadRolls,
) -> (EnemyUnit, Option<EnemyShot>) {
    let distance = distance_between(player, unit.pose.position);
    let cooled = Enemy { shoot_cooldown: run_down(unit.enemy.shoot_cooldown, dt), ..unit.enemy };
    if may_fire(cooled, distance) {
        (
            EnemyUnit {
                enemy: Enemy {
                    shoot_cooldown: fire_rate_of(cooled.enemy_type, cooled.personality) as u32,
                    ..cooled
                },
                ..unit
            },
            Some(shot_of(unit, distance, rolls)),
        )
    } else {
        (EnemyUnit { enemy: cooled, ..unit }, None)
    }
}

/// `after` and `shot` are what a tick of gunnery makes of `before` for some
/// scatter of the shot.
pub open spec fn gunned(
    before: EnemyUnit,
    after: EnemyUnit,
    shot: Option<EnemyShot>,
    player: Vector3,
    dt: u32,
) -> bool {
    exists|rolls: SpreadRolls| rolls.valid() && (after, shot) == #[trigger] gunnery(before, player, dt, rolls)
}

/// A bullet of the player that leaves `lateral_offset` to the right.
pub open spec fn player_shot(lateral_offset: int, damage: u32) -> PlayerShot {
    PlayerShot {
        lateral_offset: lateral_offset as i32,
        speed: PLAYER_BULLET_SPEED,
        damage,
        lifetime: BULLET_LIFETIME,
    }
}

/// The salvo the player fires: two bullets from the wingtips, or three
/// under triple shot; missiles hit twice as hard.
pub open spec fn salvo_of(powerups: ActivePowerUps) -> Seq<PlayerShot> {
    let damage = if powerups.homing_missiles {
        MISSILE_DAMAGE
    } else {
        PLAYER_DAMAGE
    };
    if powerups.triple_shot {
        seq![player_shot(-3000, damage), player_shot(0, damage), player_shot(3000, damage)]
    } else {
        seq![player_shot(-2000, damage), player_shot(2000, damage)]
    }
}

/// What a tick makes of the player's guns: the cooldown afterwards and the
/// salvo fired. The guns fire when they are cool, the trigger is pulled and
/// there is a player; firing starts the cooldown anew.
pub open spec fn trigger_pull(
    cooldown: u32,
    dt: u32,
    trigger: bool,
    player_present: bool,
    powerups: ActivePowerUps,
) -> (u32, Seq<PlayerShot>) {
    let cooled = run_down(cooldown, dt);
    if cooled == 0 && trigger && player_present {
        (if powerups.rapid_fire { RAPID_FIRE_RATE } else { PLAYER_FIRE_RATE }, salvo_of(powerups))
    } else {
        (cooled, Seq::empty())
    }
}

impl SpreadRolls {
    pub open spec fn valid(&self) -> bool {
        is_roll(self.x) && is_roll(self.y) && is_roll(self.z)
    }

    pub fn draw() -> (rolls: SpreadRolls)
        ensures
            rolls.valid(),
    {
        SpreadRolls { x: roll(), y: roll(), z: roll() }
    }
}

fn scatter_by(roll: u32, spread: u32) -> (r: i32)
    requires
        spread <= 750,
    ensures
        r == scatter(roll, spread as int),
{
    assert(-500 * 750 <= (roll - 500) * spread <= 0xffff_ffff * 750) by (nonlinear_arith)
        requires
            -500 <= roll - 500 <= 0xffff_ffff,
            0 <= spread <= 750,
    ;
    let product: i128 = (roll as i128 - 500) * (spread as i128);
    confine(floor_thousandth(product))
}

/// Whether `enemy`, at `distance` from the player, fires this tick.
pub fn can_fire(enemy: &Enemy, distance: u64) -> (r: bool)
    ensures
        r == may_fire(*enemy, distance as int),
{
    let armed = match enemy.behavior_state {
        EnemyBehaviorState::Attacking | EnemyBehaviorState::Strafing | EnemyBehaviorState::Supporting
        | EnemyBehaviorState::Formation => true,
        _ => false,
    };
    armed && distance < enemy.attack_range as u64 && enemy.shoot_cooldown == 0 && (enemy.state_timer as i64)
        < 2000 - enemy.reaction_time as i64
}

/// Runs the guns of one enemy for a tick with the given rolls.
pub fn shoot_with(unit: &mut EnemyUnit, player: Vector3, dt: u32, rolls: &SpreadRolls) -> (shot: Option<EnemyShot>)
    ensures
        (*final(unit), shot) == gunnery(*old(unit), player, dt, *rolls),
{
    let distance = player.distance(&unit.pose.position);
    unit.enemy.shoot_cooldown = unit.enemy.shoot_cooldown.saturating_sub(dt);
    if can_fire(&unit.enemy, distance) {
        unit.enemy.shoot_cooldown = fire_rate(unit.enemy.enemy_type, unit.enemy.personality);
        let spread = accuracy_spread(unit.enemy.enemy_type, unit.enemy.personality, unit.enemy.maneuver_skill);
        Some(
            EnemyShot {
                shooter: unit.entity,
                lead_time: time_to_cover(distance, ENEMY_BULLET_SPEED) / 2,
                spread: Vector3 {
                    x: scatter_by(rolls.x, spread),
                    y: scatter_by(rolls.y, spread),
                    z: scatter_by(rolls.z, spread),
                },
                speed: ENEMY_BULLET_SPEED,
                damage: unit.enemy.damage,
                lifetime: BULLET_LIFETIME,
            },
        )
    } else {
        None
    }
}

/// Runs the guns of every enemy for one tick: for each enemy, in their
/// order, the shot it fires, if any. Without a player no gun even cools.
pub fn enemy_shooting_system(
    units: &mut Vec<EnemyUnit>,
    player: Option<Vector3>,
    dt: u32,
) -> (shots: Vec<Option<EnemyShot>>)
    ensures
        player is None ==> final(units)@ == old(units)@ && shots@.len() == 0,
        player is Some ==> final(units)@.len() == old(units)@.len() && shots@.len() == old(units)@.len(),
        player matches Some(position) ==> forall|i: int|
            0 <= i < old(units)@.len() ==> #[trigger] gunned(
                old(units)@[i],
                final(units)@[i],
                shots@[i],
                position,
                dt,
            ),
{
    let mut shots: Vec<Option<EnemyShot>> = Vec::new();
    let position = match player {
        Some(position) => position,
        None => {
            return shots;
        },
    };
    let ghost before = units@;
    let count = units.len();
    let mut i: usize = 0;
    while i < count
        invariant
            i <= count,
            count == before.len(),
            units@.len() == count,
            shots@.len() == i,
            forall|j: int| i <= j < count ==> units@[j] == before[j],
            forall|j: int| 0 <= j < i ==> #[trigger] gunned(before[j], units@[j], shots@[j], position, dt),
        decreases count - i,
    {
        let mut unit = units[i];
        let rolls = SpreadRolls::draw();
        let shot = shoot_with(&mut unit, position, dt, &rolls);
        proof {
            assert((unit, shot) == gunnery(before[i as int], position, dt, rolls));
        }
        units.set(i, unit);
        shots.push(shot);
        i += 1;
    }
    shots
}

/// Runs the player's guns for one tick.
pub fn player_shooting_system(
    shoot_cooldown: &mut u32,
    dt: u32,
    trigger: bool,
    player_present: bool,
    powerups: &ActivePowerUps,
) -> (salvo: Vec<PlayerShot>)
    ensures
        (*final(shoot_cooldown), salvo@) == trigger_pull(*old(shoot_cooldown), dt, trigger, player_present, *powerups),
{
    *shoot_cooldown = shoot_cooldown.saturating_sub(dt);
    let mut salvo: Vec<PlayerShot> = Vec::new();
    if *shoot_cooldown == 0 && trigger && player_present {
        *shoot_cooldown = if powerups.rapid_fire { RAPID_FIRE_RATE } else { PLAYER_FIRE_RATE };
        let damage = if powerups.homing_missiles { MISSILE_DAMAGE } else { PLAYER_DAMAGE };
        if powerups.triple_shot {
            salvo.push(PlayerShot { lateral_offset: -3000, speed: PLAYER_BULLET_SPEED, damage, lifetime: BULLET_LIFETIME });
            salvo.push(PlayerShot { lateral_offset: 0, speed: PLAYER_BULLET_SPEED, damage, lifetime: BULLET_LIFETIME });
            salvo.push(PlayerShot { lateral_offset: 3000, speed: PLAYER_BULLET_SPEED, damage, lifetime: BULLET_LIFETIME });
        } else {
            salvo.push(PlayerShot { lateral_offset: -2000, speed: PLAYER_BULLET_SPEED, damage, lifetime: BULLET_LIFETIME });
            salvo.push(PlayerShot { lateral_offset: 2000, speed: PLAYER_BULLET_SPEED, damage, lifetime: BULLET_LIFETIME });
        }
    }
    salvo
}

/// The battle while the player's bullets are resolved one by one: the
/// enemies still alive, the bullets that have hit nothing, the bullets that
/// were consumed, what was destroyed, and the counters.
pub struct Battle {
    pub enemies: Seq<EnemyUnit>,
    pub bullets: Seq<PlayerBulletUnit>,
    pub spent: Seq<EntityId>,
    pub destroyed: Seq<EntityId>,
    pub events: Seq<EnemyDestroyedEvent>,
    pub score: int,
    pub kills: int,
}

/// What resolving the player's bullets reports to the hosting world.
#[derive(Debug, Clone, PartialEq, Eq)]
pub struct CollisionReport {
    /// One event for every enemy destroyed, in the order of their deaths.
    pub events: Vec<EnemyDestroyedEvent>,
    /// The enemies that left the world.
    pub destroyed: Vec<EntityId>,
    /// The bullets that hit something and left the world.
    pub spent: Vec<EntityId>,
}

/// The first of `enemies` that `position` is within `radius` of.
pub open spec fn first_within(position: Vector3, enemies: Seq<EnemyUnit>, radius: int) -> Option<int>
    decreases enemies.len(),
{
    if enemies.len() == 0 {
        None
    } else {
        match first_within(position, enemies.drop_last(), radius) {
            Some(i) => Some(i),
            None => if closer_than(position, enemies.last().pose.position, radius) {
                Some(enemies.len() - 1)
            } else {
                None
            },
        }
    }
}

/// Health below three tenths of the maximum.
pub open spec fn is_badly_hurt(health: Health) -> bool {
    10 * health.current < 3 * health.max
}

/// An enemy after a bullet of the given damage has struck it. One that
/// survives badly hurt turns to retreat, unless it is retreating already.
pub open spec fn struck(unit: EnemyUnit, damage: u32) -> EnemyUnit {
    let health = after_damage(unit.health, damage as int);
    EnemyUnit {
        health,
        enemy: if health.current > 0 && is_badly_hurt(health) && unit.enemy.behavior_state
            != EnemyBehaviorState::Retreating {
            Enemy { behavior_state: EnemyBehaviorState::Retreating, state_timer: RETREAT_TIME, ..unit.enemy }
        } else {
            unit.enemy
        },
        ..unit
    }
}

/// The battle after one more bullet. The first enemy within the hit radius
/// absorbs it; the bullet is spent, and an enemy left without health is
/// destroyed on the spot, so that no later bullet can find it. A bullet
/// that hits nothing flies on.
pub open spec fn bullet_resolved(battle: Battle, bullet: PlayerBulletUnit) -> Battle {
    match first_within(bullet.position, battle.enemies, HIT_RADIUS as int) {
        None => Battle { bullets: battle.bullets.push(bullet), ..battle },
        Some(i) => {
            let hit = struck(battle.enemies[i], bullet.bullet.damage);
            if hit.health.current == 0 {
                Battle {
                    enemies: battle.enemies.remove(i),
                    spent: battle.spent.push(bullet.entity),
                    destroyed: battle.destroyed.push(hit.entity),
                    events: battle.events.push(
                        EnemyDestroyedEvent { position: hit.pose.position, enemy_type: hit.enemy.enemy_type },
                    ),
                    score: battle.score + kill_points_of(hit.enemy.enemy_type),
                    kills: battle.kills + 1,
                    ..battle
                }
            } else {
                Battle {
                    enemies: battle.enemies.update(i, hit),
                    spent: battle.spent.push(bullet.entity),
                    ..battle
                }
            }
        },
    }
}

/// The battle after all of `bullets`, resolved in their order.
pub open spec fn bullets_resolved(bullets: Seq<PlayerBulletUnit>, start: Battle) -> Battle
    decreases bullets.len(),
{
    if bullets.len() == 0 {
        start
    } else {
        bullet_resolved(bullets_resolved(bullets.drop_last(), start), bullets.last())
    }
}

/// The battle before any bullet is resolved.
pub open spec fn battle_start(enemies: Seq<EnemyUnit>, score: int, kills: int) -> Battle {
    Battle {
        enemies,
        bullets: Seq::empty(),
        spent: Seq::empty(),
        destroyed: Seq::empty(),
        events: Seq::empty(),
        score,
        kills,
    }
}

/// The first enemy within reach is within reach, and none before it is.
pub proof fn lemma_first_within(position: Vector3, enemies: Seq<EnemyUnit>, radius: int)
    ensures
        match first_within(position, enemies, radius) {
            Some(i) => 0 <= i < enemies.len() && closer_than(position, enemies[i].pose.position, radius)
                && forall|j: int| 0 <= j < i ==> !closer_than(position, (#[trigger] enemies[j]).pose.position, radius),
            None => forall|j: int|
                0 <= j < enemies.len() ==> !closer_than(position, (#[trigger] enemies[j]).pose.position, radius),
        },
    decreases enemies.len(),
{
    if enemies.len() > 0 {
        let rest = enemies.drop_last();
        lemma_first_within(position, rest, radius);
        assert(forall|j: int| 0 <= j < rest.len() ==> rest[j] == enemies[j]);
    }
}

/// Finds the first enemy that `position` is within `radius` of.
pub fn find_first_within(position: &Vector3, enemies: &Vec<EnemyUnit>, radius: u32) -> (found: Option<usize>)
    ensures
        match found {
            Some(i) => first_within(*position, enemies@, radius as int) == Some(i as int) && i < enemies@.len(),
            None => first_within(*position, enemies@, radius as int) is None,
        },
{
    let mut i: usize = 0;
    while i < enemies.len()
        invariant
            i <= enemies.len(),
            first_within(*position, enemies@.take(i as int), radius as int) is None,
        decreases enemies.len() - i,
    {
        proof {
            let next = enemies@.take(i + 1);
            assert(next.drop_last() == enemies@.take(i as int));
            assert(next.last() == enemies@[i as int]);
        }
        if position.within(&enemies[i].pose.position, radius) {
            proof {
                lemma_first_within_extends(*position, enemies@, radius as int, i as int);
            }
            return Some(i);
        }
        i += 1;
    }
    proof {
        assert(enemies@.take(enemies.len() as int) == enemies@);
    }
    None
}

/// An enemy found first among the leading part of a list is the first of
/// the whole list.
proof fn lemma_first_within_extends(position: Vector3, enemies: Seq<EnemyUnit>, radius: int, i: int)
    requires
        0 <= i < enemies.len(),
        first_within(position, enemies.take(i + 1), radius) == Some(i),
    ensures
        first_within(position, enemies, radius) == Some(i),
    decreases enemies.len(),
{
    if enemies.len() == i + 1 {
        assert(enemies.take(i + 1) == enemies);
    } else {
        let rest = enemies.drop_last();
        assert(rest.take(i + 1) == enemies.take(i + 1));
        lemma_first_within_extends(position, rest, radius, i);
    }
}

/// Strikes `unit` with a bullet of the given damage.
pub fn strike(unit: &mut EnemyUnit, damage: u32)
    ensures
        *final(unit) == struck(*old(unit), damage),
{
    unit.health.damage(damage);
    let health = unit.health;
    let badly_hurt = 10 * (health.current as u64) < 3 * (health.max as u64);
    let retreating = match unit.enemy.behavior_state {
        EnemyBehaviorState::Retreating => true,
        _ => false,
    };
    if health.current > 0 && badly_hurt && !retreating {
        unit.enemy.behavior_state = EnemyBehaviorState::Retreating;
        unit.enemy.state_timer = RETREAT_TIME;
    }
}

/// Resolves the player's bullets against the enemies, bullet by bullet in
/// their order. Each bullet is absorbed by the first enemy within the hit
/// radius and hits nothing else; it then leaves the world. An enemy left
/// without health is destroyed: it leaves the world at once, an event is
/// emitted, and its points and the kill are counted. Bullets that hit
/// nothing stay in flight.
pub fn bullet_collision_system(
    bullets: &mut Vec<PlayerBulletUnit>,
    enemies: &mut Vec<EnemyUnit>,
    stats: &mut GameStats,
) -> (report: CollisionReport)
    requires
        old(stats).score + 200 * old(bullets)@.len() <= u32::MAX,
        old(stats).enemies_destroyed + old(bullets)@.len() <= u32::MAX,
    ensures
        (Battle {
            enemies: final(enemies)@,
            bullets: final(bullets)@,
            spent: report.spent@,
            destroyed: report.destroyed@,
            events: report.events@,
            score: final(stats).score as int,
            kills: final(stats).enemies_destroyed as int,
        }) == bullets_resolved(
            old(bullets)@,
            battle_start(old(enemies)@, old(stats).score as int, old(stats).enemies_destroyed as int),
        ),
        *final(stats) == (GameStats {
            score: final(stats).score,
            enemies_destroyed: final(stats).enemies_destroyed,
            ..*old(stats)
        }),
{
    let ghost before = bullets@;
    let ghost start = battle_start(enemies@, stats.score as int, stats.enemies_destroyed as int);
    let ghost stats_before = *stats;
    let mut in_flight: Vec<PlayerBulletUnit> = Vec::new();
    let mut events: Vec<EnemyDestroyedEvent> = Vec::new();
    let mut destroyed: Vec<EntityId> = Vec::new();
    let mut spent: Vec<EntityId> = Vec::new();
    let mut b: usize = 0;
    while b < bullets.len()
        invariant
            b <= bullets.len(),
            bullets@ == before,
            stats_before.score + 200 * before.len() <= u32::MAX,
            stats_before.enemies_destroyed + before.len() <= u32::MAX,
            stats.score <= stats_before.score + 200 * b,
            stats.enemies_destroyed <= stats_before.enemies_destroyed + b,
            *stats == (GameStats { score: stats.score, enemies_destroyed: stats.enemies_destroyed, ..stats_before }),
            (Battle {
                enemies: enemies@,
                bullets: in_flight@,
                spent: spent@,
                destroyed: destroyed@,
                events: events@,
                score: stats.score as int,
                kills: stats.enemies_destroyed as int,
            }) == bullets_resolved(before.take(b as int), start),
        decreases bullets.len() - b,
    {
        let bullet = bullets[b];
        proof {
            let next = before.take(b + 1);
            assert(next.drop_last() == before.take(b as int));
            assert(next.last() == before[b as int]);
        }
        match find_first_within(&bullet.position, enemies, HIT_RADIUS) {
            None => {
                in_flight.push(bullet);
            },
            Some(i) => {
                let mut unit = enemies[i];
                strike(&mut unit, bullet.bullet.damage);
                spent.push(bullet.entity);
                if unit.health.is_spent() {
                    events.push(
                        EnemyDestroyedEvent { position: unit.pose.position, enemy_type: unit.enemy.enemy_type },
                    );
                    destroyed.push(unit.entity);
                    stats.score = stats.score + kill_points(unit.enemy.enemy_type);
                    stats.enemies_destroyed = stats.enemies_destroyed + 1;
                    enemies.remove(i);
                } else {
                    enemies.set(i, unit);
                }
            },
        }
        b += 1;
    }
    proof {
        assert(before.take(bullets.len() as int) == before);
    }
    *bullets = in_flight;
    CollisionReport { events, destroyed, spent }
}

/// The player under fire while the enemies' bullets are resolved one by
/// one: the player's health, the bullets that have missed, the bullets
/// that have hit, and whether the player has been shot down.
pub struct Barrage {
    pub health: Health,
    pub bullets: Seq<EnemyBulletUnit>,
    pub spent: Seq<EntityId>,
    pub game_over: bool,
}

/// What resolving the enemies' bullets reports to the hosting world.
#[derive(Debug, Clone, PartialEq, Eq)]
pub struct DamageReport {
    /// The bullets that hit the player and left the world.
    pub spent: Vec<EntityId>,
    /// Whether a hit left the player without health.
    pub game_over: bool,
}

/// The damage that reaches the player: a shield lets a fifth through.
pub open spec fn damage_taken(damage: u32, shield: bool) -> int {
    if shield {
        damage * SHIELD_LEAK / 1000
    } else {
        damage as int
    }
}

/// The barrage after one more bullet: within the hit radius of the player
/// it does its damage and is spent, otherwise it flies on.
pub open spec fn bullet_landed(barrage: Barrage, bullet: EnemyBulletUnit, player: Vector3, shield: bool) -> Barrage {
    if closer_than(bullet.position, player, HIT_RADIUS as int) {
        let health = after_damage(barrage.health, damage_taken(bullet.bullet.damage, shield));
        Barrage {
            health,
            spent: barrage.spent.push(bullet.entity),
            game_over: barrage.game_over || health.current == 0,
            ..barrage
        }
    } else {
        Barrage { bullets: barrage.bullets.push(bullet), ..barrage }
    }
}

/// The barrage after all of `bullets`, resolved in their order.
pub open spec fn barrage_resolved(
    bullets: Seq<EnemyBulletUnit>,
    start: Barrage,
    player: Vector3,
    shield: bool,
) -> Barrage
    decreases bullets.len(),
{
    if bullets.len() == 0 {
        start
    } else {
        bullet_landed(barrage_resolved(bullets.drop_last(), start, player, shield), bullets.last(), player, shield)
    }
}

/// Resolves the enemies' bullets against the player. Every bullet within
/// the hit radius does its damage, a fifth of it behind a shield, and leaves
/// the world; the game is over once a hit leaves the player without health.
/// Without a player nothing happens.
pub fn player_damage_system(
    bullets: &mut Vec<EnemyBulletUnit>,
    player: Option<Vector3>,
    health: &mut Health,
    shield: bool,
) -> (report: DamageReport)
    ensures
        player is None ==> final(bullets)@ == old(bullets)@ && *final(health) == *old(health) && report.spent@.len()
            == 0 && !report.game_over,
        player matches Some(position) ==> (Barrage {
            health: *final(health),
            bullets: final(bullets)@,
            spent: report.spent@,
            game_over: report.game_over,
        }) == barrage_resolved(
            old(bullets)@,
            Barrage { health: *old(health), bullets: Seq::empty(), spent: Seq::empty(), game_over: false },
            position,
            shield,
        ),
{
    let mut spent: Vec<EntityId> = Vec::new();
    let position = match player {
        Some(position) => position,
        None => {
            return DamageReport { spent, game_over: false };
        },
    };
    let ghost before = bullets@;
    let ghost start = Barrage { health: *health, bullets: Seq::empty(), spent: Seq::empty(), game_over: false };
    let mut in_flight: Vec<EnemyBulletUnit> = Vec::new();
    let mut game_over = false;
    let mut b: usize = 0;
    while b < bullets.len()
        invariant
            b <= bullets.len(),
            bullets@ == before,
            (Barrage { health: *health, bullets: in_flight@, spent: spent@, game_over }) == barrage_resolved(
                before.take(b as int),
                start,
                position,
                shield,
            ),
        decreases bullets.len() - b,
    {
        let bullet = bullets[b];
        proof {
            let next = before.take(b + 1);
            assert(next.drop_last() == before.take(b as int));
            assert(next.last() == before[b as int]);
        }
        if bullet.position.within(&position, HIT_RADIUS) {
            let damage = if shield {
                ((bullet.bullet.damage as u64) * (SHIELD_LEAK as u64) / 1000) as u32
            } else {
                bullet.bullet.damage
            };
            health.damage(damage);
            spent.push(bullet.entity);
            if health.is_spent() {
                game_over = true;
            }
        } else {
            in_flight.push(bullet);
        }
        b += 1;
    }
    proof {
        assert(before.take(bullets.len() as int) == before);
    }
    *bullets = in_flight;
    DamageReport { spent, game_over }
}

/// How the camera shakes when the player rams an enemy.
#[derive(Debug, Clone, Copy, PartialEq, Eq, Structural)]
pub struct CameraShake {
    /// Thousandths of a unit.
    pub amount: u32,
    /// Milliseconds.
    pub duration: u32,
}

/// The player among the enemies while collisions are resolved one by one.
pub struct Melee {
    pub health: Health,
    pub enemies: Seq<EnemyUnit>,
    pub destroyed: Seq<EntityId>,
    pub events: Seq<EnemyDestroyedEvent>,
    pub score: int,
}

/// What resolving collisions reports to the hosting world.
#[derive(Debug, Clone, PartialEq, Eq)]
pub struct RamReport {
    /// One event for every enemy rammed.
    pub events: Vec<EnemyDestroyedEvent>,
    /// The enemies that left the world.
    pub destroyed: Vec<EntityId>,
    /// The shake of the camera, where anything was rammed.
    pub shake: Option<CameraShake>,
}

/// The shake of a collision.
pub open spec fn ram_shake() -> CameraShake {
    CameraShake { amount: 5000, duration: 300 }
}

/// The melee after one more enemy: one within its collision radius of the
/// player is destroyed, hurts the player and scores its ramming points.
pub open spec fn enemy_met(melee: Melee, unit: EnemyUnit, player: Vector3) -> Melee {
    if closer_than(player, unit.pose.position, collision_radius_of(unit.enemy.enemy_type)) {
        Melee {
            health: after_damage(melee.health, collision_damage_of(unit.enemy.enemy_type)),
            destroyed: melee.destroyed.push(unit.entity),
            events: melee.events.push(
                EnemyDestroyedEvent { position: unit.pose.position, enemy_type: unit.enemy.enemy_type },
            ),
            score: melee.score + ram_points_of(unit.enemy.enemy_type),
            ..melee
        }
    } else {
        Melee { enemies: melee.enemies.push(unit), ..melee }
    }
}

/// The melee after all of `units`, met in their order.
pub open spec fn melee_resolved(units: Seq<EnemyUnit>, start: Melee, player: Vector3) -> Melee
    decreases units.len(),
{
    if units.len() == 0 {
        start
    } else {
        enemy_met(melee_resolved(units.drop_last(), start, player), units.last(), player)
    }
}

/// Resolves collisions of the player with enemies. Every enemy within its
/// collision radius of the player is destroyed, does its collision damage
/// and scores its ramming points. Without a player nothing happens.
pub fn player_enemy_collision_system(
    player: Option<Vector3>,
    health: &mut Health,
    enemies: &mut Vec<EnemyUnit>,
    stats: &mut GameStats,
) -> (report: RamReport)
    requires
        old(stats).score + 100 * old(enemies)@.len() <= u32::MAX,
    ensures
        player is None ==> final(enemies)@ == old(enemies)@ && *final(health) == *old(health) && *final(stats)
            == *old(stats) && report.events@.len() == 0 && report.destroyed@.len() == 0 && report.shake is None,
        player matches Some(position) ==> (Melee {
            health: *final(health),
            enemies: final(enemies)@,
            destroyed: report.destroyed@,
            events: report.events@,
            score: final(stats).score as int,
        }) == melee_resolved(
            old(enemies)@,
            Melee {
                health: *old(health),
                enemies: Seq::empty(),
                destroyed: Seq::empty(),
                events: Seq::empty(),
                score: old(stats).score as int,
            },
            position,
        ),
        *final(stats) == (GameStats { score: final(stats).score, ..*old(stats) }),
        player is Some ==> report.shake == if report.destroyed@.len() > 0 {
            Some(ram_shake())
        } else {
            None
        },
{
    let mut events: Vec<EnemyDestroyedEvent> = Vec::new();
    let mut destroyed: Vec<EntityId> = Vec::new();
    let position = match player {
        Some(position) => position,
        None => {
            return RamReport { events, destroyed, shake: None };
        },
    };
    let ghost before = enemies@;
    let ghost stats_before = *stats;
    let ghost start = Melee {
        health: *health,
        enemies: Seq::empty(),
        destroyed: Seq::empty(),
        events: Seq::empty(),
        score: stats.score as int,
    };
    let mut survivors: Vec<EnemyUnit> = Vec::new();
    let mut i: usize = 0;
    while i < enemies.len()
        invariant
            i <= enemies.len(),
            enemies@ == before,
            stats_before.score + 100 * before.len() <= u32::MAX,
            stats.score <= stats_before.score + 100 * i,
            *stats == (GameStats { score: stats.score, ..stats_before }),
            (Melee {
                health: *health,
                enemies: survivors@,
                destroyed: destroyed@,
                events: events@,
                score: stats.score as int,
            }) == melee_resolved(before.take(i as int), start, position),
        decreases enemies.len() - i,
    {
        let unit = enemies[i];
        proof {
            let next = before.take(i + 1);
            assert(next.drop_last() == before.take(i as int));
            assert(next.last() == before[i as int]);
        }
        if position.within(&unit.pose.position, collision_radius(unit.enemy.enemy_type)) {
            health.damage(collision_damage(unit.enemy.enemy_type));
            stats.score = stats.score + ram_points(unit.enemy.enemy_type);
            events.push(EnemyDestroyedEvent { position: unit.pose.position, enemy_type: unit.enemy.enemy_type });
            destroyed.push(unit.entity);
        } else {
            survivors.push(unit);
        }
        i += 1;
    }
    proof {
        assert(before.take(enemies.len() as int) == before);
    }
    *enemies = survivors;
    let shake = if destroyed.len() > 0 {
        Some(CameraShake { amount: 5000, duration: 300 })
    } else {
        None
    };
    RamReport { events, destroyed, shake }
}

/// No two of the enemies share an identity.
pub open spec fn distinct_enemies(enemies: Seq<EnemyUnit>) -> bool {
    forall|i: int, j: int| 0 <= i < j < enemies.len() ==> enemies[i].entity != enemies[j].entity
}

/// No two of the bullets share an identity.
pub open spec fn distinct_bullets(bullets: Seq<PlayerBulletUnit>) -> bool {
    forall|i: int, j: int| 0 <= i < j < bullets.len() ==> bullets[i].entity != bullets[j].entity
}

/// A hit that leaves an enemy alive with less than three tenths of its
/// health sends it into retreat for five seconds, unless it is retreating
/// already; no chance is involved. Any other hit leaves the enemy's mind as
/// it was.
pub proof fn law_retreat_trigger(unit: EnemyUnit, damage: u32)
    ensures
        ({
            let hit = struck(unit, damage);
            let forced = hit.health.current > 0 && 10 * hit.health.current < 3 * hit.health.max
                && unit.enemy.behavior_state != EnemyBehaviorState::Retreating;
            &&& hit.health == after_damage(unit.health, damage as int)
            &&& forced ==> hit.enemy.behavior_state == EnemyBehaviorState::Retreating && hit.enemy.state_timer
                == 5000
            &&& forced ==> hit.enemy == (Enemy {
                behavior_state: EnemyBehaviorState::Retreating,
                state_timer: 5000,
                ..unit.enemy
            })
            &&& !forced ==> hit.enemy == unit.enemy
        }),
{
}

/// What holds of a battle throughout, given enemies of distinct
/// identities: the living are distinct, the destroyed are distinct, nobody
/// is both, and every death has its event and its count.
pub open spec fn battle_is_sound(battle: Battle, kills_before: int) -> bool {
    &&& distinct_enemies(battle.enemies)
    &&& forall|i: int, j: int| 0 <= i < j < battle.destroyed.len() ==> battle.destroyed[i] != battle.destroyed[j]
    &&& forall|i: int, k: int|
        0 <= i < battle.enemies.len() && 0 <= k < battle.destroyed.len() ==> (#[trigger] battle.enemies[i]).entity
            != #[trigger] battle.destroyed[k]
    &&& battle.events.len() == battle.destroyed.len()
    &&& battle.kills == kills_before + battle.destroyed.len()
}

proof fn lemma_bullet_keeps_battle_sound(battle: Battle, bullet: PlayerBulletUnit, kills_before: int)
    requires
        battle_is_sound(battle, kills_before),
    ensures
        battle_is_sound(bullet_resolved(battle, bullet), kills_before),
{
    let after = bullet_resolved(battle, bullet);
    lemma_first_within(bullet.position, battle.enemies, HIT_RADIUS as int);
    match first_within(bullet.position, battle.enemies, HIT_RADIUS as int) {
        None => {},
        Some(i) => {
            let hit = struck(battle.enemies[i], bullet.bullet.damage);
            if hit.health.current == 0 {
                assert forall|a: int, b: int| 0 <= a < b < after.enemies.len() implies after.enemies[a].entity
                    != after.enemies[b].entity by {
                    let from_a = if a < i { a } else { a + 1 };
                    let from_b = if b < i { b } else { b + 1 };
                    assert(after.enemies[a] == battle.enemies[from_a]);
                    assert(after.enemies[b] == battle.enemies[from_b]);
                }
                assert forall|a: int, b: int| 0 <= a < b < after.destroyed.len() implies after.destroyed[a]
                    != after.destroyed[b] by {
                    if b == battle.destroyed.len() {
                        assert(after.destroyed[b] == battle.enemies[i].entity);
                        assert(after.destroyed[a] == battle.destroyed[a]);
                    }
                }
                assert forall|a: int, k: int|
                    0 <= a < after.enemies.len() && 0 <= k < after.destroyed.len() implies (
                #[trigger] after.enemies[a]).entity != #[trigger] after.destroyed[k] by {
                    let from_a = if a < i { a } else { a + 1 };
                    assert(after.enemies[a] == battle.enemies[from_a]);
                    if k == battle.destroyed.len() {
                        assert(after.destroyed[k] == battle.enemies[i].entity);
                    } else {
                        assert(after.destroyed[k] == battle.destroyed[k]);
                    }
                }
            } else {
                assert forall|a: int, b: int| 0 <= a < b < after.enemies.len() implies after.enemies[a].entity
                    != after.enemies[b].entity by {
                    assert(after.enemies[a].entity == battle.enemies[a].entity);
                    assert(after.enemies[b].entity == battle.enemies[b].entity);
                }
                assert forall|a: int, k: int|
                    0 <= a < after.enemies.len() && 0 <= k < after.destroyed.len() implies (
                #[trigger] after.enemies[a]).entity != #[trigger] after.destroyed[k] by {
                    assert(after.enemies[a].entity == battle.enemies[a].entity);
                }
            }
        },
    }
}

/// An enemy dies once. Given enemies of distinct identities, resolving any
/// bullets destroys no identity twice, lets nobody destroyed stay among the
/// living, and emits one event and counts one kill for every death.
pub proof fn law_destroyed_once(bullets: Seq<PlayerBulletUnit>, enemies: Seq<EnemyUnit>, score: int, kills: int)
    requires
        distinct_enemies(enemies),
    ensures
        battle_is_sound(bullets_resolved(bullets, battle_start(enemies, score, kills)), kills),
    decreases bullets.len(),
{
    if bullets.len() > 0 {
        law_destroyed_once(bullets.drop_last(), enemies, score, kills);
        lemma_bullet_keeps_battle_sound(
            bullets_resolved(bullets.drop_last(), battle_start(enemies, score, kills)),
            bullets.last(),
            kills,
        );
    }
}

/// What holds of the bullets of a battle throughout, given `fired` bullets
/// of distinct identities of which the first `count` are resolved: every
/// one of these is either still in flight or spent, never both.
pub open spec fn bullets_are_accounted(battle: Battle, fired: Seq<PlayerBulletUnit>, count: int) -> bool {
    &&& battle.bullets.len() + battle.spent.len() == count
    &&& forall|i: int|
        0 <= i < battle.bullets.len() ==> exists|j: int|
            0 <= j < count && fired[j] == #[trigger] battle.bullets[i]
    &&& forall|k: int|
        0 <= k < battle.spent.len() ==> exists|j: int|
            0 <= j < count && fired[j].entity == #[trigger] battle.spent[k]
    &&& forall|i: int, k: int|
        0 <= i < battle.bullets.len() && 0 <= k < battle.spent.len() ==> (#[trigger] battle.bullets[i]).entity
            != #[trigger] battle.spent[k]
}

/// A bullet hits once. Given bullets of distinct identities, every bullet
/// either flies on or is spent; a bullet that has hit is spent in that same
/// pass and is no longer among those in flight, so it can never hit again.
pub proof fn law_bullet_hits_once(bullets: Seq<PlayerBulletUnit>, enemies: Seq<EnemyUnit>, score: int, kills: int)
    requires
        distinct_bullets(bullets),
    ensures
        bullets_are_accounted(
            bullets_resolved(bullets, battle_start(enemies, score, kills)),
            bullets,
            bullets.len() as int,
        ),
    decreases bullets.len(),
{
    let after = bullets_resolved(bullets, battle_start(enemies, score, kills));
    if bullets.len() > 0 {
        let rest = bullets.drop_last();
        let last = bullets.last();
        let battle = bullets_resolved(rest, battle_start(enemies, score, kills));
        law_bullet_hits_once(rest, enemies, score, kills);
        let count = rest.len() as int;
        assert forall|i: int| 0 <= i < after.bullets.len() implies exists|j: int|
            0 <= j < bullets.len() && bullets[j] == #[trigger] after.bullets[i] by {
            if i < battle.bullets.len() {
                assert(after.bullets[i] == battle.bullets[i]);
                let j = choose|j: int| 0 <= j < count && rest[j] == battle.bullets[i];
                assert(bullets[j] == after.bullets[i]);
            } else {
                assert(bullets[count] == after.bullets[i]);
            }
        }
        assert forall|k: int| 0 <= k < after.spent.len() implies exists|j: int|
            0 <= j < bullets.len() && bullets[j].entity == #[trigger] after.spent[k] by {
            if k < battle.spent.len() {
                assert(after.spent[k] == battle.spent[k]);
                let j = choose|j: int| 0 <= j < count && rest[j].entity == battle.spent[k];
                assert(bullets[j].entity == after.spent[k]);
            } else {
                assert(bullets[count].entity == after.spent[k]);
            }
        }
        assert forall|i: int, k: int|
            0 <= i < after.bullets.len() && 0 <= k < after.spent.len() implies (#[trigger] after.bullets[i]).entity
            != #[trigger] after.spent[k] by {
            if i < battle.bullets.len() && k < battle.spent.len() {
                assert(after.bullets[i] == battle.bullets[i]);
                assert(after.spent[k] == battle.spent[k]);
            } else if i < battle.bullets.len() {
                assert(after.bullets[i] == battle.bullets[i]);
                let j = choose|j: int| 0 <= j < count && rest[j] == battle.bullets[i];
                assert(bullets[j].entity != bullets[count].entity);
            } else {
                assert(after.spent[k] == battle.spent[k]);
                let j = choose|j: int| 0 <= j < count && rest[j].entity == battle.spent[k];
                assert(bullets[j].entity != bullets[count].entity);
            }
        }
    }
}

/// What one bullet does to a battle, whatever came before it. A bullet
/// with no enemy in reach flies on and changes nothing. Any other bullet is
/// spent on the spot and strikes the first enemy in reach, once: that enemy
/// loses the bullet's damage and every other enemy stays as it was. If the
/// struck enemy lives, nobody is destroyed and no event is emitted, and if
/// it is left badly hurt and was not retreating, it now retreats for five
/// seconds. If it dies, it alone leaves the battle, with one event, its
/// points and one kill.
pub proof fn law_bullet_resolution(battle: Battle, bullet: PlayerBulletUnit)
    ensures
        ({
            let after = bullet_resolved(battle, bullet);
            match first_within(bullet.position, battle.enemies, HIT_RADIUS as int) {
                None => after == (Battle { bullets: battle.bullets.push(bullet), ..battle }),
                Some(i) => {
                    let target = battle.enemies[i];
                    let hit = struck(target, bullet.bullet.damage);
                    &&& 0 <= i < battle.enemies.len()
                    &&& closer_than(bullet.position, target.pose.position, HIT_RADIUS as int)
                    &&& after.bullets == battle.bullets
                    &&& after.spent == battle.spent.push(bullet.entity)
                    &&& hit.entity == target.entity && hit.pose == target.pose
                    &&& hit.health == after_damage(target.health, bullet.bullet.damage as int)
                    &&& hit.health.current > 0 ==> {
                        &&& after.enemies.len() == battle.enemies.len()
                        &&& after.enemies[i] == hit
                        &&& forall|j: int|
                            0 <= j < battle.enemies.len() && j != i ==> after.enemies[j] == battle.enemies[j]
                        &&& after.destroyed == battle.destroyed
                        &&& after.events == battle.events
                        &&& after.score == battle.score
                        &&& after.kills == battle.kills
                        &&& is_badly_hurt(hit.health) && target.enemy.behavior_state
                            != EnemyBehaviorState::Retreating ==> hit.enemy == (Enemy {
                            behavior_state: EnemyBehaviorState::Retreating,
                            state_timer: RETREAT_TIME,
                            ..target.enemy
                        })
                        &&& !is_badly_hurt(hit.health) || target.enemy.behavior_state
                            == EnemyBehaviorState::Retreating ==> hit.enemy == target.enemy
                    }
                    &&& hit.health.current == 0 ==> {
                        &&& after.enemies == battle.enemies.remove(i)
                        &&& after.destroyed == battle.destroyed.push(target.entity)
                        &&& after.events == battle.events.push(
                            EnemyDestroyedEvent { position: target.pose.position, enemy_type: target.enemy.enemy_type },
                        )
                        &&& after.score == battle.score + kill_points_of(target.enemy.enemy_type)
                        &&& after.kills == battle.kills + 1
                    }
                },
            }
        }),
{
    lemma_first_within(bullet.position, battle.enemies, HIT_RADIUS as int);
}

/// `shorter` is the beginning of `longer`.
pub open spec fn begins<T>(longer: Seq<T>, shorter: Seq<T>) -> bool {
    shorter.len() <= longer.len() && forall|j: int| 0 <= j < shorter.len() ==> longer[j] == shorter[j]
}

/// Nothing that a battle has recorded is ever taken back: what is spent,
/// destroyed or announced after the first `n` bullets is still so, and in
/// the same place, after the first `m`.
pub proof fn lemma_records_grow(bullets: Seq<PlayerBulletUnit>, start: Battle, n: int, m: int)
    requires
        0 <= n <= m <= bullets.len(),
    ensures
        begins(bullets_resolved(bullets.take(m), start).spent, bullets_resolved(bullets.take(n), start).spent),
        begins(
            bullets_resolved(bullets.take(m), start).destroyed,
            bullets_resolved(bullets.take(n), start).destroyed,
        ),
        begins(bullets_resolved(bullets.take(m), start).events, bullets_resolved(bullets.take(n), start).events),
    decreases m - n,
{
    if n < m {
        lemma_records_grow(bullets, start, n, m - 1);
        let longer = bullets.take(m);
        assert(longer.drop_last() == bullets.take(m - 1));
        assert(longer.last() == bullets[m - 1]);
        lemma_first_within(bullets[m - 1].position, bullets_resolved(bullets.take(m - 1), start).enemies, HIT_RADIUS as int);
    }
}

/// Every bullet of a pass is resolved in its turn, against the battle as
/// the bullets before it have left it, and so obeys
/// [`law_bullet_resolution`] there. A bullet that finds an enemy in reach at
/// its turn is spent then and stays spent to the end of the pass; given
/// bullets of distinct identities it is not among those still in flight.
pub proof fn law_hit_bullet_leaves(
    bullets: Seq<PlayerBulletUnit>,
    enemies: Seq<EnemyUnit>,
    score: int,
    kills: int,
    k: int,
)
    requires
        0 <= k < bullets.len(),
    ensures
        ({
            let start = battle_start(enemies, score, kills);
            let before = bullets_resolved(bullets.take(k), start);
            let after = bullets_resolved(bullets.take(k + 1), start);
            let end = bullets_resolved(bullets, start);
            &&& after == bullet_resolved(before, bullets[k])
            &&& first_within(bullets[k].position, before.enemies, HIT_RADIUS as int) is Some ==> {
                &&& before.spent.len() < end.spent.len()
                &&& end.spent[before.spent.len() as int] == bullets[k].entity
                &&& distinct_bullets(bullets) ==> forall|i: int|
                    0 <= i < end.bullets.len() ==> (#[trigger] end.bullets[i]).entity != bullets[k].entity
            }
        }),
{
    let start = battle_start(enemies, score, kills);
    let before = bullets_resolved(bullets.take(k), start);
    let after = bullets_resolved(bullets.take(k + 1), start);
    let end = bullets_resolved(bullets, start);
    let turn = bullets.take(k + 1);
    assert(turn.drop_last() == bullets.take(k));
    assert(turn.last() == bullets[k]);
    assert(bullets.take(bullets.len() as int) == bullets);
    lemma_records_grow(bullets, start, k + 1, bullets.len() as int);
    if first_within(bullets[k].position, before.enemies, HIT_RADIUS as int) is Some {
        law_bullet_resolution(before, bullets[k]);
        let place = before.spent.len() as int;
        assert(after.spent[place] == bullets[k].entity);
        assert(end.spent[place] == after.spent[place]);
        if distinct_bullets(bullets) {
            law_bullet_hits_once(bullets, enemies, score, kills);
            assert forall|i: int| 0 <= i < end.bullets.len() implies (#[trigger] end.bullets[i]).entity
                != bullets[k].entity by {
                assert(end.bullets[i].entity != end.spent[place]);
            }
        }
    }
}

} // verus!
