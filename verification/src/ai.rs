//! The behaviour pass over all enemies of a tick.
//!
//! Wingmen read the pose of their leader while leaders are themselves being
//! moved, so the pass first takes a snapshot of every leader and lets each
//! wingman see that snapshot and nothing newer.

use vstd::prelude::*;
use crate::behavior::{
    Clock, FormationSlot, LOW_MORALE, Motion, Sighting, TickRolls, law_low_morale_retreats,
    law_wingman_needs_leader, step, stepped,
};
use crate::chatter::{ChatterLine, line_text};
use crate::entities::{
    Enemy, EnemyBehaviorState, EnemyUnit, EntityId, FormationRole, RadioChatterEvent, morale_of,
};
use crate::formation::{
    LeaderPose, collect_leaders, find_leader, leaders_of, law_snapshot_holds_only_leaders, lookup_leader, station,
    station_of,
};
use crate::geometry::{Vector3, distance_between, lemma_distance_fits};

verus! {

/// What the behaviour pass asks the hosting world to do with one enemy.
#[derive(Debug, Clone, PartialEq, Eq)]
pub struct AiOrder {
    pub entity: EntityId,
    pub motion: Motion,
    /// The phase of the roll wobble that follows the motion.
    pub wobble_phase: i64,
    /// The message the pilot sends, if any.
    pub chatter: Option<RadioChatterEvent>,
}

/// What `unit` perceives, with the player at `player` and the leaders of
/// the snapshot `leaders`.
pub open spec fn sighting_of(unit: EnemyUnit, player: Vector3, leaders: Seq<LeaderPose>) -> Sighting {
    Sighting {
        distance: distance_between(player, unit.pose.position) as u64,
        player_altitude: player.y,
        slot: match unit.enemy.formation_role {
            Some(FormationRole::Wingman(leader)) => match find_leader(leaders, leader) {
                Some(pose) => Some(
                    FormationSlot {
                        leader,
                        position: station_of(pose, unit.entity),
                        distance: distance_between(station_of(pose, unit.entity), unit.pose.position) as u64,
                    },
                ),
                None => None,
            },
            _ => None,
        },
    }
}

/// The event carries the line `line`, if there is one, sent by `enemy`.
pub open spec fn carries(event: Option<RadioChatterEvent>, line: Option<ChatterLine>, enemy: Enemy) -> bool {
    match line {
        Some(line) => event matches Some(sent) && sent.message@ == line_text(line.bucket, line.line as int)
            && sent.sender_type == enemy.enemy_type && sent.personality == enemy.personality,
        None => event is None,
    }
}

/// `after` and `order` are what the tick with the rolls `rolls` makes of
/// `before`.
pub open spec fn tick_matches(
    before: EnemyUnit,
    after: EnemyUnit,
    order: AiOrder,
    sighting: Sighting,
    clock: Clock,
    rolls: TickRolls,
) -> bool {
    let (next, outcome) = stepped(before.enemy, before.health, sighting, clock, rolls);
    &&& after.enemy == next
    &&& order.entity == before.entity
    &&& order.motion == outcome.motion
    &&& order.wobble_phase == outcome.wobble_phase
    &&& carries(order.chatter, outcome.chatter, next)
}

/// `after` and `order` are what a tick makes of `before` for some rolls:
/// identity, pose and health stay, and the enemy makes one step of its
/// state machine on what it sees of the player and of the snapshot.
pub open spec fn ticked(
    before: EnemyUnit,
    after: EnemyUnit,
    order: AiOrder,
    player: Vector3,
    leaders: Seq<LeaderPose>,
    clock: Clock,
) -> bool {
    &&& after.entity == before.entity
    &&& after.pose == before.pose
    &&& after.health == before.health
    &&& exists|rolls: TickRolls|
        rolls.valid() && #[trigger] tick_matches(
            before,
            after,
            order,
            sighting_of(before, player, leaders),
            clock,
            rolls,
        )
}

/// Works out what `unit` perceives.
pub fn observe(unit: &EnemyUnit, player: Vector3, leaders: &Vec<LeaderPose>) -> (sighting: Sighting)
    ensures
        sighting == sighting_of(*unit, player, leaders@),
{
    let slot = match unit.enemy.formation_role {
        Some(FormationRole::Wingman(leader)) => match lookup_leader(leaders, leader) {
            Some(pose) => {
                let position = station(&pose, unit.entity);
                Some(FormationSlot { leader, position, distance: position.distance(&unit.pose.position) })
            },
            None => None,
        },
        _ => None,
    };
    Sighting { distance: player.distance(&unit.pose.position), player_altitude: player.y, slot }
}

/// Runs the behaviour of every enemy for one tick and returns one order for
/// each, in their order. Without a player nothing happens at all.
pub fn enemy_ai_system(units: &mut Vec<EnemyUnit>, player: Option<Vector3>, clock: Clock) -> (orders: Vec<AiOrder>)
    ensures
        player is None ==> final(units)@ == old(units)@ && orders@.len() == 0,
        player is Some ==> final(units)@.len() == old(units)@.len() && orders@.len() == old(units)@.len(),
        player matches Some(position) ==> forall|i: int|
            0 <= i < old(units)@.len() ==> #[trigger] ticked(
                old(units)@[i],
                final(units)@[i],
                orders@[i],
                position,
                leaders_of(old(units)@),
                clock,
            ),
        forall|i: int, leader: EntityId|
            0 <= i < final(units)@.len() && (#[trigger] final(units)@[i]).enemy.formation_role == Some(
                FormationRole::Wingman(leader),
            ) && player is Some ==> #[trigger] find_leader(leaders_of(old(units)@), leader) is Some,
{
    let mut orders: Vec<AiOrder> = Vec::new();
    let position = match player {
        Some(position) => position,
        None => {
            return orders;
        },
    };
    let leaders = collect_leaders(units);
    let ghost before = units@;
    let count = units.len();
    let mut i: usize = 0;
    while i < count
        invariant
            count == before.len(),
            units@.len() == count,
            orders@.len() == i,
            i <= count,
            leaders@ == leaders_of(before),
            forall|j: int|
                0 <= j < i ==> #[trigger] ticked(before[j], units@[j], orders@[j], position, leaders@, clock),
            forall|j: int| i <= j < count ==> units@[j] == before[j],
            forall|j: int, leader: EntityId|
                0 <= j < i && (#[trigger] units@[j]).enemy.formation_role == Some(FormationRole::Wingman(leader))
                    ==> #[trigger] find_leader(leaders@, leader) is Some,
        decreases count - i,
    {
        let mut unit = units[i];
        let sighting = observe(&unit, position, &leaders);
        let rolls = TickRolls::draw();
        let mut enemy = unit.enemy;
        let outcome = step(&mut enemy, &unit.health, &sighting, clock, &rolls);
        unit.enemy = enemy;
        let chatter = match outcome.chatter {
            Some(line) => Some(
                RadioChatterEvent {
                    message: line.message(),
                    sender_type: enemy.enemy_type,
                    personality: enemy.personality,
                },
            ),
            None => None,
        };
        let order = AiOrder { entity: unit.entity, motion: outcome.motion, wobble_phase: outcome.wobble_phase, chatter };
        proof {
            assert(tick_matches(before[i as int], unit, order, sighting, clock, rolls));
        }
        units.set(i, unit);
        orders.push(order);
        i += 1;
    }
    orders
}

/// No wingman carries a stale reference out of a tick: whoever is still a
/// wingman after the pass follows an enemy that held the leader's role when
/// the pass began.
pub proof fn law_formation_consistency(
    before: Seq<EnemyUnit>,
    after: EnemyUnit,
    order: AiOrder,
    player: Vector3,
    clock: Clock,
    i: int,
    leader: EntityId,
)
    requires
        0 <= i < before.len(),
        ticked(before[i], after, order, player, leaders_of(before), clock),
        after.enemy.formation_role == Some(FormationRole::Wingman(leader)),
    ensures
        exists|j: int|
            0 <= j < before.len() && (#[trigger] before[j]).entity == leader && before[j].enemy.formation_role
                == Some(FormationRole::Leader),
{
    let sighting = sighting_of(before[i], player, leaders_of(before));
    let rolls = choose|rolls: TickRolls|
        rolls.valid() && #[trigger] tick_matches(before[i], after, order, sighting, clock, rolls);
    law_wingman_needs_leader(before[i].enemy, before[i].health, sighting, clock, rolls);
    law_snapshot_holds_only_leaders(before, leader);
}

/// Low morale forces a retreat in the pass as it does in a single step:
/// whatever an enemy was doing and whatever its role, after the pass its
/// morale is 1.2 times its health ratio, and if that is below 0.3 it is
/// retreating while the player is within two pursuit ranges, and back on
/// patrol beyond.
pub proof fn law_pass_retreats_on_low_morale(
    before: EnemyUnit,
    after: EnemyUnit,
    order: AiOrder,
    player: Vector3,
    leaders: Seq<LeaderPose>,
    clock: Clock,
)
    requires
        ticked(before, after, order, player, leaders, clock),
    ensures
        after.enemy.morale == morale_of(before.health),
        morale_of(before.health) < LOW_MORALE && distance_between(player, before.pose.position) <= 2
            * before.enemy.pursuit_range ==> after.enemy.behavior_state == EnemyBehaviorState::Retreating,
        morale_of(before.health) < LOW_MORALE && distance_between(player, before.pose.position) > 2
            * before.enemy.pursuit_range ==> after.enemy.behavior_state == EnemyBehaviorState::Patrol,
{
    let sighting = sighting_of(before, player, leaders);
    let rolls = choose|rolls: TickRolls|
        rolls.valid() && #[trigger] tick_matches(before, after, order, sighting, clock, rolls);
    law_low_morale_retreats(before.enemy, before.health, sighting, clock, rolls);
    lemma_distance_fits(player, before.pose.position);
}

} // verus!
