//! Formation flying: the snapshot of leaders that is taken before any enemy
//! moves, and the stations that wingmen keep beside their leader.

use vstd::prelude::*;
use crate::entities::{EnemyUnit, EntityId, FormationRole, Pose};
use crate::geometry::{Vector3, offset_along};

verus! {

/// How far to the side of its leader a wingman flies.
pub const STATION_ABREAST: i32 = 15_000;

/// How far ahead of its leader, along the leader's heading, a wingman flies.
pub const STATION_AHEAD: i32 = 10_000;

/// A leader as the snapshot of a tick records it.
#[derive(Debug, Clone, Copy, PartialEq, Eq, Structural)]
pub struct LeaderPose {
    pub entity: EntityId,
    pub pose: Pose,
}

/// The leaders among `units`, in their order, each with its pose.
pub open spec fn leaders_of(units: Seq<EnemyUnit>) -> Seq<LeaderPose>
    decreases units.len(),
{
    if units.len() == 0 {
        Seq::empty()
    } else {
        let rest = leaders_of(units.drop_last());
        if units.last().enemy.formation_role == Some(FormationRole::Leader) {
            rest.push(LeaderPose { entity: units.last().entity, pose: units.last().pose })
        } else {
            rest
        }
    }
}

/// The pose recorded for the leader `entity`, if the snapshot holds it. Of
/// two records under one identity the later counts.
pub open spec fn find_leader(leaders: Seq<LeaderPose>, entity: EntityId) -> Option<Pose>
    decreases leaders.len(),
{
    if leaders.len() == 0 {
        None
    } else if leaders.last().entity == entity {
        Some(leaders.last().pose)
    } else {
        find_leader(leaders.drop_last(), entity)
    }
}

/// The station of the wingman `wingman` beside a leader at `leader`:
/// wingmen of even index fly on the left, those of odd index on the right.
pub open spec fn station_of(leader: Pose, wingman: EntityId) -> Vector3 {
    offset_along(
        leader.position,
        leader.right,
        leader.forward,
        if wingman.index % 2 == 0 { -STATION_ABREAST as int } else { STATION_ABREAST as int },
        STATION_AHEAD as int,
    )
}

/// The snapshot invents no leader: whoever is found in it is a unit that
/// holds the leader's role.
pub proof fn law_snapshot_holds_only_leaders(units: Seq<EnemyUnit>, entity: EntityId)
    requires
        find_leader(leaders_of(units), entity) is Some,
    ensures
        exists|j: int|
            0 <= j < units.len() && (#[trigger] units[j]).entity == entity
                && units[j].enemy.formation_role == Some(FormationRole::Leader),
    decreases units.len(),
{
    if units.len() > 0 {
        let rest = units.drop_last();
        if units.last().enemy.formation_role == Some(FormationRole::Leader) {
            let all = leaders_of(units);
            assert(all.drop_last() == leaders_of(rest));
            if units.last().entity == entity {
                assert(units[units.len() - 1].entity == entity);
            } else {
                law_snapshot_holds_only_leaders(rest, entity);
                let j = choose|j: int|
                    0 <= j < rest.len() && (#[trigger] rest[j]).entity == entity
                        && rest[j].enemy.formation_role == Some(FormationRole::Leader);
                assert(units[j] == rest[j]);
            }
        } else {
            law_snapshot_holds_only_leaders(rest, entity);
            let j = choose|j: int|
                0 <= j < rest.len() && (#[trigger] rest[j]).entity == entity
                    && rest[j].enemy.formation_role == Some(FormationRole::Leader);
            assert(units[j] == rest[j]);
        }
    }
}

/// The snapshot misses no leader: every unit that holds the leader's role
/// is found in it under its identity.
pub proof fn law_snapshot_holds_every_leader(units: Seq<EnemyUnit>, j: int)
    requires
        0 <= j < units.len(),
        units[j].enemy.formation_role == Some(FormationRole::Leader),
    ensures
        find_leader(leaders_of(units), units[j].entity) is Some,
    decreases units.len(),
{
    let rest = units.drop_last();
    if units.last().enemy.formation_role == Some(FormationRole::Leader) {
        assert(leaders_of(units).drop_last() == leaders_of(rest));
        if units.last().entity != units[j].entity {
            assert(j < rest.len());
            assert(rest[j] == units[j]);
            law_snapshot_holds_every_leader(rest, j);
        }
    } else {
        assert(j < rest.len());
        assert(rest[j] == units[j]);
        law_snapshot_holds_every_leader(rest, j);
    }
}

/// Takes the snapshot of the leaders among `units`.
pub fn collect_leaders(units: &Vec<EnemyUnit>) -> (leaders: Vec<LeaderPose>)
    ensures
        leaders@ == leaders_of(units@),
{
    let mut leaders: Vec<LeaderPose> = Vec::new();
    let mut i: usize = 0;
    while i < units.len()
        invariant
            i <= units.len(),
            leaders@ == leaders_of(units@.take(i as int)),
        decreases units.len() - i,
    {
        let unit = units[i];
        proof {
            let next = units@.take(i + 1);
            assert(next.drop_last() == units@.take(i as int));
            assert(next.last() == units@[i as int]);
        }
        match unit.enemy.formation_role {
            Some(FormationRole::Leader) => {
                leaders.push(LeaderPose { entity: unit.entity, pose: unit.pose });
            },
            _ => {},
        }
        i += 1;
    }
    proof {
        assert(units@.take(units.len() as int) == units@);
    }
    leaders
}

/// Looks a leader up in the snapshot.
pub fn lookup_leader(leaders: &Vec<LeaderPose>, entity: EntityId) -> (pose: Option<Pose>)
    ensures
        pose == find_leader(leaders@, entity),
{
    let mut i: usize = leaders.len();
    proof {
        assert(leaders@.take(i as int) == leaders@);
    }
    while i > 0
        invariant
            i <= leaders.len(),
            find_leader(leaders@, entity) == find_leader(leaders@.take(i as int), entity),
        decreases i,
    {
        let candidate = leaders[i - 1];
        proof {
            let seen = leaders@.take(i as int);
            assert(seen.last() == leaders@[i - 1]);
            assert(seen.drop_last() == leaders@.take(i - 1));
        }
        if candidate.entity == entity {
            return Some(candidate.pose);
        }
        i -= 1;
    }
    None
}

/// The station of `wingman` beside the leader at `leader`.
pub fn station(leader: &Pose, wingman: EntityId) -> (slot: Vector3)
    ensures
        slot == station_of(*leader, wingman),
{
    let abreast: i32 = if wingman.index % 2 == 0 { -STATION_ABREAST } else { STATION_ABREAST };
    leader.position.offset(&leader.right, &leader.forward, abreast, STATION_AHEAD)
}

} // verus!
