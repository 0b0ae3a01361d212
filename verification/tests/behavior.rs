use sky_hunter::behavior::{
    clamp_altitude, select_attack_pattern, step, AttackRolls, Clock, FormationSlot, Motion, Sighting, TickRolls,
};
use sky_hunter::chatter::{ChatterBucket, ChatterLine, ChatterRolls};
use sky_hunter::entities::{
    Enemy, EnemyBehaviorState, EnemyType, EntityId, FormationRole, Health, ManeuverType, PilotPersonality,
};
use sky_hunter::geometry::Vector3;
use sky_hunter::maneuvers::{perform_maneuver, ManeuverOrder};

fn pilot(enemy_type: EnemyType, personality: PilotPersonality, state: EnemyBehaviorState) -> Enemy {
    let (speed, damage, preferred_distance) = match enemy_type {
        EnemyType::Fighter => (60_000, 10_000, 40_000),
        EnemyType::Bomber => (40_000, 20_000, 60_000),
        EnemyType::Ace => (80_000, 15_000, 30_000),
    };
    Enemy {
        speed,
        damage,
        attack_range: 50_000,
        pursuit_range: 200_000,
        enemy_type,
        behavior_state: state,
        state_timer: 1000,
        evasion_angle: 0,
        preferred_distance,
        personality,
        formation_role: None,
        maneuver_skill: 500,
        reaction_time: 500,
        morale: 1000,
        last_taunt_time: 0,
        shoot_cooldown: 0,
    }
}

fn fighter(state: EnemyBehaviorState) -> Enemy {
    pilot(EnemyType::Fighter, PilotPersonality::Tactical, state)
}

fn healthy() -> Health {
    Health { current: 50_000, max: 50_000 }
}

fn sight(distance: u64) -> Sighting {
    Sighting { distance, player_altitude: 50_000, slot: None }
}

/// Rolls that keep the radio silent and choose the first of everything.
fn quiet() -> TickRolls {
    TickRolls {
        chatter: ChatterRolls { suppress: 0, line: 0 },
        attack: AttackRolls { chance: 0, maneuver: 0, veteran: 0, side: 0 },
    }
}

fn attack_rolls(chance: u32, maneuver: usize, veteran: u32, side: u32) -> TickRolls {
    TickRolls {
        chatter: ChatterRolls { suppress: 0, line: 0 },
        attack: AttackRolls { chance, maneuver, veteran, side },
    }
}

fn tick() -> Clock {
    Clock { dt: 16, elapsed: 1000 }
}

#[test]
fn patrol_takes_up_pursuit_within_pursuit_range() {
    let mut enemy = fighter(EnemyBehaviorState::Patrol);
    let outcome = step(&mut enemy, &healthy(), &sight(199_999), tick(), &quiet());
    assert_eq!(enemy.behavior_state, EnemyBehaviorState::Pursuing);
    assert_eq!(enemy.state_timer, 2000);
    assert_eq!(outcome.motion, Motion::Hold);
}

#[test]
fn patrol_circles_at_half_speed_outside_pursuit_range() {
    let mut enemy = fighter(EnemyBehaviorState::Patrol);
    let outcome = step(&mut enemy, &healthy(), &sight(200_000), tick(), &quiet());
    assert_eq!(enemy.behavior_state, EnemyBehaviorState::Patrol);
    assert_eq!(enemy.state_timer, 984);
    assert_eq!(outcome.motion, Motion::Patrol { waypoint_angle: 500, turn_rate: 1000, speed: 30_000 });
}

#[test]
fn pursuit_attacks_within_attack_range() {
    let mut enemy = fighter(EnemyBehaviorState::Pursuing);
    let outcome = step(&mut enemy, &healthy(), &sight(49_999), tick(), &quiet());
    assert_eq!(enemy.behavior_state, EnemyBehaviorState::Attacking);
    assert_eq!(enemy.state_timer, 1500);
    assert_eq!(outcome.motion, Motion::Hold);
}

#[test]
fn pursuit_is_given_up_beyond_one_and_a_half_pursuit_ranges() {
    let mut enemy = fighter(EnemyBehaviorState::Pursuing);
    let outcome = step(&mut enemy, &healthy(), &sight(300_001), tick(), &quiet());
    assert_eq!(enemy.behavior_state, EnemyBehaviorState::Patrol);
    assert_eq!(enemy.state_timer, 984);
    assert_eq!(outcome.motion, Motion::Hold);

    let mut enemy = fighter(EnemyBehaviorState::Pursuing);
    let outcome = step(&mut enemy, &healthy(), &sight(300_000), tick(), &quiet());
    assert_eq!(enemy.behavior_state, EnemyBehaviorState::Pursuing);
    assert_eq!(outcome.motion, Motion::Intercept { lead_time: 2500, turn_rate: 3000, speed: 60_000 });
}

#[test]
fn pursuit_leads_by_half_the_time_to_intercept() {
    let mut enemy = fighter(EnemyBehaviorState::Pursuing);
    let outcome = step(&mut enemy, &healthy(), &sight(120_000), tick(), &quiet());
    assert_eq!(outcome.motion, Motion::Intercept { lead_time: 1000, turn_rate: 3000, speed: 60_000 });
}

#[test]
fn pursuit_of_a_standing_enemy_never_arrives() {
    let mut enemy = fighter(EnemyBehaviorState::Pursuing);
    enemy.speed = 0;
    let outcome = step(&mut enemy, &healthy(), &sight(120_000), tick(), &quiet());
    assert_eq!(outcome.motion, Motion::Intercept { lead_time: u64::MAX / 2, turn_rate: 3000, speed: 0 });
}

#[test]
fn attack_is_broken_off_beyond_one_and_a_fifth_attack_ranges() {
    let mut enemy = fighter(EnemyBehaviorState::Attacking);
    let outcome = step(&mut enemy, &healthy(), &sight(60_001), tick(), &quiet());
    assert_eq!(enemy.behavior_state, EnemyBehaviorState::Pursuing);
    assert_eq!(enemy.state_timer, 984);
    assert_eq!(outcome.motion, Motion::Hold);

    let mut enemy = fighter(EnemyBehaviorState::Attacking);
    step(&mut enemy, &healthy(), &sight(60_000), tick(), &quiet());
    assert_eq!(enemy.behavior_state, EnemyBehaviorState::Attacking);
}

#[test]
fn attacker_corrects_its_distance_outside_the_tolerance() {
    // A defensive fighter keeps 0.7 of 40 units: 28 units.
    let mut enemy = pilot(EnemyType::Fighter, PilotPersonality::Defensive, EnemyBehaviorState::Attacking);
    let outcome = step(&mut enemy, &healthy(), &sight(40_000), tick(), &quiet());
    assert_eq!(outcome.motion, Motion::Engage { thrust: 60_000, lead_time: 100, turn_rate: 2500 });

    let mut enemy = pilot(EnemyType::Fighter, PilotPersonality::Defensive, EnemyBehaviorState::Attacking);
    let outcome = step(&mut enemy, &healthy(), &sight(20_000), tick(), &quiet());
    assert_eq!(outcome.motion, Motion::Engage { thrust: -30_000, lead_time: 100, turn_rate: 2500 });

    let mut enemy = pilot(EnemyType::Fighter, PilotPersonality::Defensive, EnemyBehaviorState::Attacking);
    let outcome = step(&mut enemy, &healthy(), &sight(33_000), tick(), &quiet());
    assert_eq!(outcome.motion, Motion::Engage { thrust: 0, lead_time: 100, turn_rate: 2500 });
    let mut enemy = pilot(EnemyType::Fighter, PilotPersonality::Defensive, EnemyBehaviorState::Attacking);
    let outcome = step(&mut enemy, &healthy(), &sight(33_001), tick(), &quiet());
    assert_eq!(outcome.motion, Motion::Engage { thrust: 60_000, lead_time: 100, turn_rate: 2500 });
    let mut enemy = pilot(EnemyType::Fighter, PilotPersonality::Defensive, EnemyBehaviorState::Attacking);
    let outcome = step(&mut enemy, &healthy(), &sight(23_000), tick(), &quiet());
    assert_eq!(outcome.motion, Motion::Engage { thrust: 0, lead_time: 100, turn_rate: 2500 });
    let mut enemy = pilot(EnemyType::Fighter, PilotPersonality::Defensive, EnemyBehaviorState::Attacking);
    let outcome = step(&mut enemy, &healthy(), &sight(22_999), tick(), &quiet());
    assert_eq!(outcome.motion, Motion::Engage { thrust: -30_000, lead_time: 100, turn_rate: 2500 });
}

#[test]
fn aim_lead_by_type_and_personality() {
    let cases = [
        (EnemyType::Ace, PilotPersonality::ShowOff, 900, 270),
        (EnemyType::Fighter, PilotPersonality::Veteran, 800, 200),
        (EnemyType::Bomber, PilotPersonality::Aggressive, 800, 150),
        (EnemyType::Fighter, PilotPersonality::Tactical, 800, 100),
        (EnemyType::Bomber, PilotPersonality::Defensive, 800, 0),
    ];
    for (enemy_type, personality, skill, lead_time) in cases {
        let mut enemy = pilot(enemy_type, personality, EnemyBehaviorState::Attacking);
        enemy.maneuver_skill = skill;
        enemy.preferred_distance = 30_000;
        let outcome = step(&mut enemy, &healthy(), &sight(30_000), tick(), &quiet());
        match outcome.motion {
            Motion::Engage { lead_time: found, turn_rate, .. } => {
                assert_eq!(found, lead_time);
                assert_eq!(turn_rate, 2500);
            }
            other => panic!("unexpected motion {:?}", other),
        }
    }
}

#[test]
fn defensive_attacker_evades_or_strafes_on_timeout() {
    let mut enemy = pilot(EnemyType::Fighter, PilotPersonality::Defensive, EnemyBehaviorState::Attacking);
    enemy.state_timer = 0;
    let outcome = step(&mut enemy, &healthy(), &sight(30_000), tick(), &attack_rolls(699, 0, 0, 501));
    assert_eq!(enemy.behavior_state, EnemyBehaviorState::Evading);
    assert_eq!(enemy.state_timer, 2000);
    assert_eq!(enemy.evasion_angle, 1000);
    assert_eq!(outcome.motion, Motion::Hold);

    let mut enemy = pilot(EnemyType::Fighter, PilotPersonality::Defensive, EnemyBehaviorState::Attacking);
    enemy.state_timer = 0;
    step(&mut enemy, &healthy(), &sight(30_000), tick(), &attack_rolls(700, 0, 0, 500));
    assert_eq!(enemy.behavior_state, EnemyBehaviorState::Strafing);
    assert_eq!(enemy.state_timer, 2000);
    assert_eq!(enemy.evasion_angle, -1000);
}

#[test]
fn defensive_attacker_never_picks_a_third_state_whatever_is_rolled() {
    let mut evaded = 0;
    let mut strafed = 0;
    for _ in 0..400 {
        let mut enemy = pilot(EnemyType::Fighter, PilotPersonality::Defensive, EnemyBehaviorState::Attacking);
        enemy.state_timer = 0;
        let rolls = TickRolls::draw();
        step(&mut enemy, &healthy(), &sight(30_000), tick(), &rolls);
        match enemy.behavior_state {
            EnemyBehaviorState::Evading => evaded += 1,
            EnemyBehaviorState::Strafing => strafed += 1,
            other => panic!("unexpected state {:?}", other),
        }
        assert_eq!(enemy.state_timer, 2000);
        assert!(enemy.evasion_angle == 1000 || enemy.evasion_angle == -1000);
    }
    assert!(evaded > 0);
    assert!(strafed > 0);
}

#[test]
fn attack_pattern_of_each_personality() {
    let rolls = |chance, maneuver, veteran| AttackRolls { chance, maneuver, veteran, side: 0 };
    let roll = EnemyBehaviorState::Maneuvering(ManeuverType::BarrelRoll);
    assert_eq!(select_attack_pattern(PilotPersonality::Aggressive, 601, &rolls(299, 0, 0)), roll);
    assert_eq!(
        select_attack_pattern(PilotPersonality::Aggressive, 600, &rolls(299, 0, 0)),
        EnemyBehaviorState::Strafing
    );
    assert_eq!(
        select_attack_pattern(PilotPersonality::Aggressive, 601, &rolls(300, 0, 0)),
        EnemyBehaviorState::Strafing
    );
    assert_eq!(select_attack_pattern(PilotPersonality::ShowOff, 501, &rolls(0, 0, 0)), roll);
    assert_eq!(
        select_attack_pattern(PilotPersonality::ShowOff, 501, &rolls(0, 1, 0)),
        EnemyBehaviorState::Maneuvering(ManeuverType::Immelmann)
    );
    assert_eq!(
        select_attack_pattern(PilotPersonality::ShowOff, 501, &rolls(0, 2, 0)),
        EnemyBehaviorState::Maneuvering(ManeuverType::ChandelleTurn)
    );
    assert_eq!(select_attack_pattern(PilotPersonality::ShowOff, 500, &rolls(0, 0, 0)), EnemyBehaviorState::Strafing);
    assert_eq!(
        select_attack_pattern(PilotPersonality::Veteran, 701, &rolls(0, 0, 0)),
        EnemyBehaviorState::Maneuvering(ManeuverType::HighYoYo)
    );
    assert_eq!(select_attack_pattern(PilotPersonality::Veteran, 700, &rolls(0, 0, 0)), EnemyBehaviorState::Strafing);
    assert_eq!(select_attack_pattern(PilotPersonality::Veteran, 0, &rolls(0, 0, 1)), EnemyBehaviorState::Ambushing);
    assert_eq!(select_attack_pattern(PilotPersonality::Veteran, 0, &rolls(0, 0, 2)), EnemyBehaviorState::Evading);
    assert_eq!(select_attack_pattern(PilotPersonality::Veteran, 999, &rolls(0, 0, 3)), EnemyBehaviorState::Strafing);
    for chance in [0, 299, 700, 999] {
        assert_eq!(
            select_attack_pattern(PilotPersonality::Tactical, 1000, &rolls(chance, 1, 1)),
            EnemyBehaviorState::Strafing
        );
    }
}

#[test]
fn a_maneuver_after_an_attack_lasts_one_and_a_half_seconds() {
    let mut enemy = pilot(EnemyType::Fighter, PilotPersonality::ShowOff, EnemyBehaviorState::Attacking);
    enemy.state_timer = 10;
    enemy.maneuver_skill = 800;
    step(&mut enemy, &healthy(), &sight(30_000), tick(), &attack_rolls(0, 1, 0, 0));
    assert_eq!(enemy.behavior_state, EnemyBehaviorState::Maneuvering(ManeuverType::Immelmann));
    assert_eq!(enemy.state_timer, 1500);
}

#[test]
fn strafing_returns_to_the_attack_on_timeout() {
    let mut enemy = fighter(EnemyBehaviorState::Strafing);
    enemy.state_timer = 16;
    let outcome = step(&mut enemy, &healthy(), &sight(30_000), tick(), &quiet());
    assert_eq!(enemy.behavior_state, EnemyBehaviorState::Attacking);
    assert_eq!(enemy.state_timer, 1000);
    assert_eq!(outcome.motion, Motion::Hold);
}

#[test]
fn strafing_slides_at_four_fifths_speed_in_the_strafing_band() {
    for (player_altitude, altitude) in [(50_000, 50_000), (5_000, 20_000), (250_000, 200_000)] {
        let mut enemy = fighter(EnemyBehaviorState::Strafing);
        enemy.evasion_angle = -1000;
        let sighting = Sighting { distance: 30_000, player_altitude, slot: None };
        let outcome = step(&mut enemy, &healthy(), &sighting, tick(), &quiet());
        assert_eq!(enemy.behavior_state, EnemyBehaviorState::Strafing);
        assert_eq!(outcome.motion, Motion::Strafe { side: -1000, speed: 48_000, turn_rate: 4000, altitude });
    }
}

#[test]
fn evasion_ends_in_pursuit_without_a_new_timer() {
    let mut enemy = fighter(EnemyBehaviorState::Evading);
    enemy.state_timer = 10;
    let outcome = step(&mut enemy, &healthy(), &sight(30_000), tick(), &quiet());
    assert_eq!(enemy.behavior_state, EnemyBehaviorState::Pursuing);
    assert_eq!(enemy.state_timer, -6);
    assert_eq!(outcome.motion, Motion::Hold);
}

#[test]
fn evasion_jinks_at_one_and_a_fifth_speed() {
    let mut enemy = fighter(EnemyBehaviorState::Evading);
    enemy.evasion_angle = 1000;
    let outcome = step(&mut enemy, &healthy(), &sight(30_000), Clock { dt: 16, elapsed: 2000 }, &quiet());
    assert_eq!(
        outcome.motion,
        Motion::Evade { roll_phase: 7000, pitch_phase: 4000, roll_amplitude: 500, pitch_amplitude: 300, speed: 72_000 }
    );
    assert_eq!(outcome.wobble_phase, 5000);
}

#[test]
fn retreat_ends_in_patrol_beyond_two_pursuit_ranges() {
    let mut enemy = fighter(EnemyBehaviorState::Retreating);
    let outcome = step(&mut enemy, &healthy(), &sight(400_001), tick(), &quiet());
    assert_eq!(enemy.behavior_state, EnemyBehaviorState::Patrol);
    assert_eq!(outcome.motion, Motion::Hold);

    let mut enemy = fighter(EnemyBehaviorState::Retreating);
    let outcome = step(&mut enemy, &healthy(), &sight(400_000), tick(), &quiet());
    assert_eq!(enemy.behavior_state, EnemyBehaviorState::Retreating);
    assert_eq!(outcome.motion, Motion::Retreat { turn_rate: 2000, speed: 48_000 });
}

#[test]
fn low_morale_forces_a_retreat_from_any_state() {
    let hurt = Health { current: 12_499, max: 50_000 };
    for state in [
        EnemyBehaviorState::Patrol,
        EnemyBehaviorState::Pursuing,
        EnemyBehaviorState::Attacking,
        EnemyBehaviorState::Evading,
        EnemyBehaviorState::Strafing,
        EnemyBehaviorState::Formation,
        EnemyBehaviorState::Maneuvering(ManeuverType::Scissors),
        EnemyBehaviorState::Ambushing,
        EnemyBehaviorState::Supporting,
    ] {
        let mut enemy = fighter(state);
        let outcome = step(&mut enemy, &hurt, &sight(100_000), tick(), &quiet());
        assert_eq!(enemy.behavior_state, EnemyBehaviorState::Retreating);
        assert_eq!(enemy.morale, 299);
        assert_eq!(enemy.state_timer, 984);
        assert_eq!(outcome.motion, Motion::Retreat { turn_rate: 2000, speed: 48_000 });
    }
}

#[test]
fn morale_of_exactly_three_tenths_does_not_force_a_retreat() {
    let mut enemy = fighter(EnemyBehaviorState::Patrol);
    step(&mut enemy, &Health { current: 12_500, max: 50_000 }, &sight(300_000), tick(), &quiet());
    assert_eq!(enemy.morale, 300);
    assert_eq!(enemy.behavior_state, EnemyBehaviorState::Patrol);
}

#[test]
fn morale_counts_health_no_higher_than_its_maximum() {
    let mut enemy = fighter(EnemyBehaviorState::Patrol);
    step(&mut enemy, &Health { current: 90_000, max: 50_000 }, &sight(300_000), tick(), &quiet());
    assert_eq!(enemy.morale, 1200);
    let mut enemy = fighter(EnemyBehaviorState::Patrol);
    step(&mut enemy, &Health { current: 0, max: 0 }, &sight(300_000), tick(), &quiet());
    assert_eq!(enemy.morale, 1200);
    assert_eq!(enemy.behavior_state, EnemyBehaviorState::Patrol);
}

#[test]
fn state_timer_runs_down_and_stops_at_its_floor() {
    let mut enemy = fighter(EnemyBehaviorState::Patrol);
    enemy.state_timer = i32::MIN + 5;
    step(&mut enemy, &healthy(), &sight(300_000), tick(), &quiet());
    assert_eq!(enemy.state_timer, i32::MIN);
    step(&mut enemy, &healthy(), &sight(300_000), Clock { dt: u32::MAX, elapsed: 0 }, &quiet());
    assert_eq!(enemy.state_timer, i32::MIN);
}

#[test]
fn state_timer_never_rises_while_the_state_stays() {
    let mut enemy = fighter(EnemyBehaviorState::Patrol);
    enemy.state_timer = 0;
    let mut last = enemy.state_timer;
    for i in 0..50 {
        step(&mut enemy, &healthy(), &sight(300_000), Clock { dt: 16, elapsed: 16 * i }, &quiet());
        assert_eq!(enemy.behavior_state, EnemyBehaviorState::Patrol);
        assert!(enemy.state_timer <= last);
        last = enemy.state_timer;
    }
    assert_eq!(last, -800);
}

#[test]
fn formation_leader_attacks_in_range_and_leads_within_pursuit_range() {
    let mut leader = fighter(EnemyBehaviorState::Formation);
    leader.formation_role = Some(FormationRole::Leader);
    let outcome = step(&mut leader, &healthy(), &sight(49_999), tick(), &quiet());
    assert_eq!(leader.behavior_state, EnemyBehaviorState::Attacking);
    assert_eq!(leader.state_timer, 2000);
    assert_eq!(leader.formation_role, Some(FormationRole::Leader));
    assert_eq!(outcome.motion, Motion::Hold);

    let mut leader = fighter(EnemyBehaviorState::Formation);
    leader.formation_role = Some(FormationRole::Leader);
    let outcome = step(&mut leader, &healthy(), &sight(120_000), tick(), &quiet());
    assert_eq!(leader.behavior_state, EnemyBehaviorState::Formation);
    assert_eq!(outcome.motion, Motion::Intercept { lead_time: 600, turn_rate: 2500, speed: 60_000 });

    let mut leader = fighter(EnemyBehaviorState::Formation);
    leader.formation_role = Some(FormationRole::Leader);
    let outcome = step(&mut leader, &healthy(), &sight(200_000), tick(), &quiet());
    assert_eq!(leader.behavior_state, EnemyBehaviorState::Formation);
    assert_eq!(outcome.motion, Motion::Hold);
}

fn leader_id() -> EntityId {
    EntityId { index: 7, generation: 1 }
}

fn slot(distance: u64) -> Option<FormationSlot> {
    Some(FormationSlot { leader: leader_id(), position: Vector3 { x: 1000, y: 2000, z: 3000 }, distance })
}

#[test]
fn orphaned_wingman_flies_on_alone_in_pursuit() {
    let mut wingman = fighter(EnemyBehaviorState::Formation);
    wingman.formation_role = Some(FormationRole::Wingman(leader_id()));
    let outcome = step(&mut wingman, &healthy(), &sight(150_000), tick(), &quiet());
    assert_eq!(wingman.formation_role, None);
    assert_eq!(wingman.behavior_state, EnemyBehaviorState::Pursuing);
    assert_eq!(outcome.motion, Motion::Hold);
}

#[test]
fn orphaned_wingman_lays_its_role_down_in_every_state() {
    for state in [
        EnemyBehaviorState::Patrol,
        EnemyBehaviorState::Pursuing,
        EnemyBehaviorState::Attacking,
        EnemyBehaviorState::Evading,
        EnemyBehaviorState::Strafing,
        EnemyBehaviorState::Retreating,
        EnemyBehaviorState::Formation,
        EnemyBehaviorState::Maneuvering(ManeuverType::SplitS),
        EnemyBehaviorState::Ambushing,
        EnemyBehaviorState::Supporting,
    ] {
        let mut wingman = fighter(state);
        wingman.formation_role = Some(FormationRole::Wingman(leader_id()));
        step(&mut wingman, &healthy(), &sight(150_000), tick(), &quiet());
        assert_eq!(wingman.formation_role, None);
        assert_eq!(wingman.behavior_state, EnemyBehaviorState::Pursuing);
    }
}

#[test]
fn wingman_keeps_station_at_a_speed_that_grows_with_the_gap() {
    for (gap, speed) in [(2_000, 0), (2_001, 6_000), (10_000, 30_000), (30_000, 90_000), (50_000, 90_000)] {
        let mut wingman = fighter(EnemyBehaviorState::Formation);
        wingman.formation_role = Some(FormationRole::Wingman(leader_id()));
        let sighting = Sighting { distance: 150_000, player_altitude: 50_000, slot: slot(gap) };
        let outcome = step(&mut wingman, &healthy(), &sighting, tick(), &quiet());
        assert_eq!(wingman.behavior_state, EnemyBehaviorState::Formation);
        assert_eq!(wingman.formation_role, Some(FormationRole::Wingman(leader_id())));
        assert_eq!(
            outcome.motion,
            Motion::KeepStation {
                leader: leader_id(),
                slot: Vector3 { x: 1000, y: 2000, z: 3000 },
                turn_rate: 3000,
                speed,
            }
        );
    }
}

#[test]
fn wingman_breaks_formation_when_too_far_from_its_slot_or_in_combat() {
    let mut wingman = fighter(EnemyBehaviorState::Formation);
    wingman.formation_role = Some(FormationRole::Wingman(leader_id()));
    let sighting = Sighting { distance: 150_000, player_altitude: 50_000, slot: slot(50_001) };
    let outcome = step(&mut wingman, &healthy(), &sighting, tick(), &quiet());
    assert_eq!(wingman.behavior_state, EnemyBehaviorState::Pursuing);
    assert_eq!(wingman.formation_role, None);
    assert_eq!(outcome.motion, Motion::Hold);

    let mut wingman = fighter(EnemyBehaviorState::Formation);
    wingman.formation_role = Some(FormationRole::Wingman(leader_id()));
    let sighting = Sighting { distance: 49_999, player_altitude: 50_000, slot: slot(1_000) };
    step(&mut wingman, &healthy(), &sighting, tick(), &quiet());
    assert_eq!(wingman.behavior_state, EnemyBehaviorState::Pursuing);
    assert_eq!(wingman.formation_role, None);
}

#[test]
fn support_role_moves_to_supporting_at_once() {
    let mut enemy = fighter(EnemyBehaviorState::Formation);
    enemy.formation_role = Some(FormationRole::Support);
    let outcome = step(&mut enemy, &healthy(), &sight(150_000), tick(), &quiet());
    assert_eq!(enemy.behavior_state, EnemyBehaviorState::Supporting);
    assert_eq!(enemy.formation_role, Some(FormationRole::Support));
    assert_eq!(outcome.motion, Motion::Hold);
}

#[test]
fn formation_state_without_a_role_holds() {
    let mut enemy = fighter(EnemyBehaviorState::Formation);
    let outcome = step(&mut enemy, &healthy(), &sight(10_000), tick(), &quiet());
    assert_eq!(enemy.behavior_state, EnemyBehaviorState::Formation);
    assert_eq!(outcome.motion, Motion::Hold);
}

#[test]
fn supporting_orbits_within_pursuit_range_and_patrols_beyond() {
    let mut enemy = fighter(EnemyBehaviorState::Supporting);
    let outcome = step(&mut enemy, &healthy(), &sight(199_999), Clock { dt: 16, elapsed: 10_000 }, &quiet());
    assert_eq!(enemy.behavior_state, EnemyBehaviorState::Supporting);
    assert_eq!(
        outcome.motion,
        Motion::Support { orbit_radius: 60_000, orbit_angle: 3000, turn_rate: 2000, speed: 48_000 }
    );

    let mut enemy = fighter(EnemyBehaviorState::Supporting);
    let outcome = step(&mut enemy, &healthy(), &sight(200_000), tick(), &quiet());
    assert_eq!(enemy.behavior_state, EnemyBehaviorState::Patrol);
    assert_eq!(outcome.motion, Motion::Hold);
}

#[test]
fn ambush_is_sprung_within_one_and_a_half_attack_ranges() {
    let mut enemy = fighter(EnemyBehaviorState::Ambushing);
    let outcome = step(&mut enemy, &healthy(), &sight(74_999), tick(), &quiet());
    assert_eq!(enemy.behavior_state, EnemyBehaviorState::Attacking);
    assert_eq!(enemy.state_timer, 2000);
    assert_eq!(outcome.motion, Motion::Hold);

    let mut enemy = fighter(EnemyBehaviorState::Ambushing);
    let outcome = step(&mut enemy, &healthy(), &sight(75_000), tick(), &quiet());
    assert_eq!(enemy.behavior_state, EnemyBehaviorState::Ambushing);
    assert_eq!(
        outcome.motion,
        Motion::Ambush { target_altitude: 150_000, climb_rate: 500, lead_time: 2000, turn_rate: 1000, speed: 30_000 }
    );
}

#[test]
fn a_maneuver_runs_to_its_end_and_then_attacks_or_pursues() {
    let mut enemy = fighter(EnemyBehaviorState::Maneuvering(ManeuverType::BarrelRoll));
    enemy.state_timer = 500;
    let outcome = step(&mut enemy, &healthy(), &sight(30_000), tick(), &quiet());
    assert_eq!(enemy.behavior_state, EnemyBehaviorState::Maneuvering(ManeuverType::BarrelRoll));
    let flown = ManeuverOrder {
        pitch_rate: 0,
        roll_rate: 1500,
        yaw_rate: 0,
        roll_first: false,
        oscillation: None,
        speed: 42_000,
    };
    assert_eq!(outcome.motion, Motion::Maneuver(flown));

    let mut enemy = fighter(EnemyBehaviorState::Maneuvering(ManeuverType::BarrelRoll));
    enemy.state_timer = 16;
    let outcome = step(&mut enemy, &healthy(), &sight(49_999), tick(), &quiet());
    assert_eq!(enemy.behavior_state, EnemyBehaviorState::Attacking);
    assert_eq!(enemy.state_timer, 0);
    assert_eq!(outcome.motion, Motion::Maneuver(flown));

    let mut enemy = fighter(EnemyBehaviorState::Maneuvering(ManeuverType::BarrelRoll));
    enemy.state_timer = 16;
    step(&mut enemy, &healthy(), &sight(50_000), tick(), &quiet());
    assert_eq!(enemy.behavior_state, EnemyBehaviorState::Pursuing);
}

fn order(pitch_rate: i64, roll_rate: i64, speed: u64) -> ManeuverOrder {
    ManeuverOrder { pitch_rate, roll_rate, yaw_rate: 0, roll_first: false, oscillation: None, speed }
}

#[test]
fn every_maneuver_by_phase() {
    let mut enemy = fighter(EnemyBehaviorState::Patrol);
    enemy.maneuver_skill = 800;
    let early = |enemy: &mut Enemy, timer: i32, kind: ManeuverType| {
        enemy.state_timer = timer;
        perform_maneuver(enemy, kind, 250)
    };
    assert_eq!(early(&mut enemy, 1500, ManeuverType::BarrelRoll), order(0, 2400, 42_000));
    // Half of the run is over when 750 ms are left.
    assert_eq!(early(&mut enemy, 751, ManeuverType::Immelmann), order(-1600, 0, 30_000));
    assert_eq!(early(&mut enemy, 750, ManeuverType::Immelmann), order(0, 2400, 60_000));
    // Three tenths are over when 1050 ms are left.
    assert_eq!(early(&mut enemy, 1051, ManeuverType::SplitS), order(0, 2400, 0));
    assert_eq!(early(&mut enemy, 1050, ManeuverType::SplitS), order(1600, 0, 90_000));
    // Four tenths are over when 900 ms are left.
    assert_eq!(early(&mut enemy, 901, ManeuverType::HighYoYo), order(-1200, 400, 48_000));
    assert_eq!(early(&mut enemy, 900, ManeuverType::HighYoYo), order(800, 1600, 48_000));
    assert_eq!(early(&mut enemy, 901, ManeuverType::LowYoYo), order(1200, 400, 78_000));
    assert_eq!(early(&mut enemy, 900, ManeuverType::LowYoYo), order(-800, 0, 54_000));
    assert_eq!(
        early(&mut enemy, 1000, ManeuverType::Scissors),
        ManeuverOrder {
            pitch_rate: 400,
            roll_rate: 1600,
            yaw_rate: 0,
            roll_first: true,
            oscillation: Some(1000),
            speed: 36_000,
        }
    );
    assert_eq!(
        early(&mut enemy, 1000, ManeuverType::ChandelleTurn),
        ManeuverOrder {
            pitch_rate: -400,
            roll_rate: 0,
            yaw_rate: 1200,
            roll_first: false,
            oscillation: None,
            speed: 42_000,
        }
    );
}

#[test]
fn a_maneuver_past_its_time_is_in_its_last_phase() {
    let mut enemy = fighter(EnemyBehaviorState::Patrol);
    enemy.maneuver_skill = 1000;
    enemy.state_timer = -400;
    assert_eq!(perform_maneuver(&enemy, ManeuverType::Immelmann, 0), order(0, 3000, 60_000));
    enemy.state_timer = i32::MIN;
    assert_eq!(perform_maneuver(&enemy, ManeuverType::SplitS, 0), order(2000, 0, 90_000));
    enemy.state_timer = i32::MAX;
    assert_eq!(perform_maneuver(&enemy, ManeuverType::SplitS, 0), order(0, 3000, 0));
}

#[test]
fn pilots_speak_at_most_once_in_five_seconds() {
    let speak = TickRolls {
        chatter: ChatterRolls { suppress: 300, line: 1 },
        attack: AttackRolls { chance: 0, maneuver: 0, veteran: 0, side: 0 },
    };
    let mut enemy = fighter(EnemyBehaviorState::Retreating);
    enemy.last_taunt_time = 1000;
    let outcome = step(&mut enemy, &healthy(), &sight(100_000), Clock { dt: 16, elapsed: 6000 }, &speak);
    assert_eq!(outcome.chatter, None);
    assert_eq!(enemy.last_taunt_time, 1000);

    let outcome = step(&mut enemy, &healthy(), &sight(100_000), Clock { dt: 16, elapsed: 6001 }, &speak);
    assert_eq!(outcome.chatter, Some(ChatterLine { bucket: ChatterBucket::Retreat, line: 1 }));
    assert_eq!(enemy.last_taunt_time, 6001);

    let outcome = step(&mut enemy, &healthy(), &sight(100_000), Clock { dt: 16, elapsed: 11_001 }, &speak);
    assert_eq!(outcome.chatter, None);
    let outcome = step(&mut enemy, &healthy(), &sight(100_000), Clock { dt: 16, elapsed: 11_002 }, &speak);
    assert!(outcome.chatter.is_some());
}

#[test]
fn a_suppressed_message_leaves_the_throttle_alone() {
    let mut enemy = fighter(EnemyBehaviorState::Retreating);
    let outcome = step(&mut enemy, &healthy(), &sight(100_000), Clock { dt: 16, elapsed: 9000 }, &quiet());
    assert_eq!(outcome.chatter, None);
    assert_eq!(enemy.last_taunt_time, 0);
}

#[test]
fn chatter_speaks_of_the_state_before_the_transition() {
    let speak = TickRolls {
        chatter: ChatterRolls { suppress: 999, line: 2 },
        attack: AttackRolls { chance: 0, maneuver: 0, veteran: 0, side: 0 },
    };
    let mut enemy = pilot(EnemyType::Fighter, PilotPersonality::Veteran, EnemyBehaviorState::Pursuing);
    let outcome = step(&mut enemy, &healthy(), &sight(40_000), Clock { dt: 16, elapsed: 9000 }, &speak);
    assert_eq!(enemy.behavior_state, EnemyBehaviorState::Attacking);
    assert_eq!(outcome.chatter, Some(ChatterLine { bucket: ChatterBucket::VeteranPursuit, line: 2 }));
}

#[test]
fn altitude_is_confined_to_the_flying_band() {
    assert_eq!(clamp_altitude(9_999), 10_000);
    assert_eq!(clamp_altitude(10_000), 10_000);
    assert_eq!(clamp_altitude(150_000), 150_000);
    assert_eq!(clamp_altitude(300_000), 300_000);
    assert_eq!(clamp_altitude(300_001), 300_000);
    assert_eq!(clamp_altitude(i32::MIN), 10_000);
    assert_eq!(clamp_altitude(i32::MAX), 300_000);
}

#[test]
fn wobble_follows_the_clock_and_the_side_taken() {
    let mut enemy = fighter(EnemyBehaviorState::Patrol);
    enemy.evasion_angle = -1000;
    let outcome = step(&mut enemy, &healthy(), &sight(300_000), Clock { dt: 16, elapsed: 3000 }, &quiet());
    assert_eq!(outcome.wobble_phase, 5000);
}

#[test]
fn drawn_rolls_are_within_their_ranges() {
    for _ in 0..500 {
        let rolls = TickRolls::draw();
        assert!(rolls.chatter.suppress < 1000);
        assert!(rolls.chatter.line < 3);
        assert!(rolls.attack.chance < 1000);
        assert!(rolls.attack.maneuver < 3);
        assert!(rolls.attack.veteran < 4);
        assert!(rolls.attack.side < 1000);
    }
}

#[test]
fn an_orphaned_wingman_of_low_morale_retreats() {
    let hurt = Health { current: 10_000, max: 50_000 };
    for state in [
        EnemyBehaviorState::Patrol,
        EnemyBehaviorState::Pursuing,
        EnemyBehaviorState::Attacking,
        EnemyBehaviorState::Evading,
        EnemyBehaviorState::Strafing,
        EnemyBehaviorState::Retreating,
        EnemyBehaviorState::Formation,
        EnemyBehaviorState::Maneuvering(ManeuverType::SplitS),
        EnemyBehaviorState::Ambushing,
        EnemyBehaviorState::Supporting,
    ] {
        let mut wingman = fighter(state);
        wingman.formation_role = Some(FormationRole::Wingman(leader_id()));
        let outcome = step(&mut wingman, &hurt, &sight(100_000), tick(), &quiet());
        assert_eq!(wingman.morale, 240);
        assert_eq!(wingman.behavior_state, EnemyBehaviorState::Retreating);
        assert_eq!(wingman.formation_role, None);
        assert_eq!(wingman.state_timer, 984);
        assert_eq!(outcome.motion, Motion::Retreat { turn_rate: 2000, speed: 48_000 });
    }
}

#[test]
fn an_orphaned_wingman_of_low_morale_far_away_goes_back_on_patrol() {
    let hurt = Health { current: 10_000, max: 50_000 };
    let mut wingman = fighter(EnemyBehaviorState::Formation);
    wingman.formation_role = Some(FormationRole::Wingman(leader_id()));
    let outcome = step(&mut wingman, &hurt, &sight(400_001), tick(), &quiet());
    assert_eq!(wingman.behavior_state, EnemyBehaviorState::Patrol);
    assert_eq!(wingman.formation_role, None);
    assert_eq!(outcome.motion, Motion::Hold);
}

#[test]
fn an_orphaned_wingman_at_the_edge_of_low_morale_flies_on_in_pursuit() {
    // Exactly a quarter of the health is a morale of exactly 0.3: not low.
    let hurt = Health { current: 12_500, max: 50_000 };
    let mut wingman = fighter(EnemyBehaviorState::Retreating);
    wingman.formation_role = Some(FormationRole::Wingman(leader_id()));
    let outcome = step(&mut wingman, &hurt, &sight(100_000), tick(), &quiet());
    assert_eq!(wingman.morale, 300);
    assert_eq!(wingman.behavior_state, EnemyBehaviorState::Pursuing);
    assert_eq!(wingman.formation_role, None);
    assert_eq!(outcome.motion, Motion::Hold);
}

#[test]
fn a_wingman_of_low_morale_with_its_leader_retreats_and_keeps_its_role() {
    let hurt = Health { current: 10_000, max: 50_000 };
    let mut wingman = fighter(EnemyBehaviorState::Formation);
    wingman.formation_role = Some(FormationRole::Wingman(leader_id()));
    let sighting = Sighting { distance: 100_000, player_altitude: 50_000, slot: slot(1_000) };
    step(&mut wingman, &hurt, &sighting, tick(), &quiet());
    assert_eq!(wingman.behavior_state, EnemyBehaviorState::Retreating);
    assert_eq!(wingman.formation_role, Some(FormationRole::Wingman(leader_id())));
}
