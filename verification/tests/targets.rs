use sky_hunter::archetypes::Color;
use sky_hunter::entities::{EntityId, Health};
use sky_hunter::game_state::{ChallengeTimer, GameMode, GameStats, UpgradeData};
use sky_hunter::geometry::Vector3;
use sky_hunter::powerups::{
    cleanup_game_stats, make_powerup, power_type_of, spawn_powerups_system, spawn_powerups_with, ActivePowerUps,
    PowerUp, PowerUpRolls, PowerUpSpawn, PowerUpType,
};
use sky_hunter::spawner::RingPlacement;
use sky_hunter::targets::{
    can_collect, collect_target, collections_fit, collision_detection_system, combo_timeout_system, heal_amount, magnet_pull, make_target, max_targets,
    particle_system, roll_target_type, spawn_targets_system, spawn_targets_with, target_color, target_points,
    target_scale, within_collection_reach, Balloon, ParticleEffect, Target, TargetHitEvent, TargetRolls,
    TargetSpawn, TargetType, TargetUnit,
};

fn at(x: i32, y: i32, z: i32) -> Vector3 {
    Vector3 { x, y, z }
}

fn target_rolls(distance: u32, height: u32, kind: u32) -> TargetRolls {
    TargetRolls { distance, bearing: 250, height, kind, float_phase: 500, sway_phase: 1 }
}

#[test]
fn target_cap_by_mode() {
    assert_eq!(max_targets(GameMode::TargetHunt), 30);
    assert_eq!(max_targets(GameMode::TimeAttack), 50);
    assert_eq!(max_targets(GameMode::FreePlay), 40);
    assert_eq!(max_targets(GameMode::Survival), 40);
    assert_eq!(max_targets(GameMode::RaceTheClock), 40);
}

#[test]
fn target_kinds_by_mode() {
    assert_eq!(roll_target_type(GameMode::TargetHunt, 99), TargetType::Golden);
    assert_eq!(roll_target_type(GameMode::TargetHunt, 100), TargetType::Normal);
    assert_eq!(roll_target_type(GameMode::Survival, 199), TargetType::Time);
    assert_eq!(roll_target_type(GameMode::Survival, 200), TargetType::Normal);
    for mode in [GameMode::FreePlay, GameMode::TimeAttack, GameMode::RaceTheClock] {
        assert_eq!(roll_target_type(mode, 49), TargetType::Golden);
        assert_eq!(roll_target_type(mode, 50), TargetType::Speed);
        assert_eq!(roll_target_type(mode, 149), TargetType::Speed);
        assert_eq!(roll_target_type(mode, 150), TargetType::Combo);
        assert_eq!(roll_target_type(mode, 249), TargetType::Combo);
        assert_eq!(roll_target_type(mode, 250), TargetType::Normal);
        assert_eq!(roll_target_type(mode, 999), TargetType::Normal);
    }
}

#[test]
fn worth_size_colour_and_healing_of_each_kind() {
    let table = [
        (TargetType::Normal, 100, 1000, (200, 800, 200), 10_000),
        (TargetType::Golden, 500, 2000, (1000, 850, 0), 20_000),
        (TargetType::Speed, 200, 1300, (800, 200, 800), 10_000),
        (TargetType::Time, 50, 1500, (200, 800, 800), 15_000),
        (TargetType::Combo, 150, 1200, (800, 800, 200), 10_000),
    ];
    for (kind, points, scale, (red, green, blue), healing) in table {
        assert_eq!(target_points(kind), points);
        assert_eq!(target_scale(kind), scale);
        assert_eq!(target_color(kind), Color { red, green, blue });
        assert_eq!(heal_amount(kind), healing);
    }
}

#[test]
fn a_target_appears_on_a_ring_around_the_player() {
    assert_eq!(
        make_target(GameMode::FreePlay, &target_rolls(0, 0, 0)),
        TargetSpawn {
            placement: RingPlacement { radius: 100_000, bearing: 250, altitude: 20_000 },
            target: Target { points: 500, target_type: TargetType::Golden },
            balloon: Balloon { base_height: 20_000, float_phase: 3141, sway_phase: 6 },
            scale: 2000,
            color: Color { red: 1000, green: 850, blue: 0 },
        }
    );
    let spawn = make_target(GameMode::Survival, &target_rolls(999, 999, 999));
    assert_eq!(spawn.placement, RingPlacement { radius: 299_800, bearing: 250, altitude: 119_900 });
    assert_eq!(spawn.target, Target { points: 100, target_type: TargetType::Normal });
    assert_eq!(spawn.balloon.base_height, 119_900);
}

#[test]
fn targets_are_added_below_the_cap_while_there_is_a_player() {
    let rolls = target_rolls(500, 500, 500);
    assert!(spawn_targets_with(29, GameMode::TargetHunt, true, &rolls).is_some());
    assert_eq!(spawn_targets_with(30, GameMode::TargetHunt, true, &rolls), None);
    assert_eq!(spawn_targets_with(0, GameMode::TargetHunt, false, &rolls), None);
    assert!(spawn_targets_with(49, GameMode::TimeAttack, true, &rolls).is_some());
    assert_eq!(spawn_targets_with(50, GameMode::TimeAttack, true, &rolls), None);
    for _ in 0..200 {
        let spawn = spawn_targets_system(39, GameMode::FreePlay, true).unwrap();
        assert!((100_000..300_000).contains(&spawn.placement.radius));
        assert!((20_000..120_000).contains(&spawn.placement.altitude));
        assert!(spawn.placement.bearing < 1000);
        assert_eq!(spawn.target.points, target_points(spawn.target.target_type));
        assert!(spawn.balloon.float_phase < 6283 && spawn.balloon.sway_phase < 6283);
        assert_eq!(spawn_targets_system(40, GameMode::FreePlay, true), None);
    }
}

fn upgrades(multiplier_level: u32, magnet_level: u32) -> UpgradeData {
    UpgradeData { speed_level: 1, maneuverability_level: 1, magnet_level, multiplier_level }
}

#[test]
fn collecting_scores_with_multiplier_and_combo() {
    let target = Target { points: 100, target_type: TargetType::Normal };
    let mut stats = GameStats { combo: 12, max_combo: 12, score: 1000, ..GameStats::default() };
    let mut timer = ChallengeTimer { time_remaining: 30_000, total_time: 60_000 };
    let mut health = Health { current: 95_000, max: 100_000 };
    let event = collect_target(&target, at(1, 2, 3), &mut stats, &mut timer, &upgrades(2, 0), &mut health);
    // 100 points, doubled, times one plus twelve fifths rounded down.
    assert_eq!(event, TargetHitEvent { position: at(1, 2, 3), points: 600, target_type: TargetType::Normal });
    assert_eq!(stats.score, 1600);
    assert_eq!(stats.targets_hit, 1);
    assert_eq!(stats.combo, 13);
    assert_eq!(stats.max_combo, 13);
    assert_eq!(timer.time_remaining, 30_000);
    assert_eq!(health.current, 100_000);
}

#[test]
fn special_balloons_have_their_effects() {
    let mut stats = GameStats { max_combo: 9, ..GameStats::default() };
    let mut timer = ChallengeTimer { time_remaining: 30_000, total_time: 60_000 };
    let mut health = Health { current: 10_000, max: 100_000 };
    let combo = Target { points: 150, target_type: TargetType::Combo };
    let event = collect_target(&combo, at(0, 0, 0), &mut stats, &mut timer, &upgrades(1, 0), &mut health);
    assert_eq!(event.points, 150);
    assert_eq!(stats.combo, 5);
    assert_eq!(stats.max_combo, 9);
    assert_eq!(health.current, 20_000);

    let time = Target { points: 50, target_type: TargetType::Time };
    let event = collect_target(&time, at(0, 0, 0), &mut stats, &mut timer, &upgrades(1, 0), &mut health);
    assert_eq!(event.points, 100);
    assert_eq!(timer.time_remaining, 35_000);
    assert_eq!(health.current, 35_000);
    timer.time_remaining = 58_000;
    collect_target(&time, at(0, 0, 0), &mut stats, &mut timer, &upgrades(1, 0), &mut health);
    assert_eq!(timer.time_remaining, 60_000);
    assert_eq!(timer.total_time, 60_000);

    let golden = Target { points: 500, target_type: TargetType::Golden };
    collect_target(&golden, at(0, 0, 0), &mut stats, &mut timer, &upgrades(0, 0), &mut health);
    assert_eq!(health.current, 70_000);
    assert_eq!(stats.score, 350);
    assert_eq!(stats.targets_hit, 4);
}

#[test]
fn collection_that_would_overflow_is_told_apart() {
    let target = Target { points: 100, target_type: TargetType::Normal };
    let stats = GameStats { score: u32::MAX - 100, ..GameStats::default() };
    assert!(can_collect(&target, &stats, &upgrades(1, 0)));
    assert!(!can_collect(&target, &stats, &upgrades(2, 0)));
    let stats = GameStats { score: u32::MAX - 99, ..GameStats::default() };
    assert!(!can_collect(&target, &stats, &upgrades(1, 0)));
    let stats = GameStats { combo: u32::MAX - 4, ..GameStats::default() };
    assert!(!can_collect(&target, &stats, &upgrades(0, 0)));
    let stats = GameStats { combo: u32::MAX - 5, ..GameStats::default() };
    assert!(can_collect(&target, &stats, &upgrades(0, 0)));
    let stats = GameStats { targets_hit: u32::MAX, ..GameStats::default() };
    assert!(!can_collect(&target, &stats, &upgrades(1, 0)));
    let huge = Target { points: u32::MAX, target_type: TargetType::Normal };
    assert!(!can_collect(&huge, &GameStats::default(), &upgrades(u32::MAX, 0)));
}

#[test]
fn the_magnet_widens_the_reach() {
    let player = at(0, 0, 0);
    assert!(within_collection_reach(&player, &at(4_999, 0, 0), 0));
    assert!(!within_collection_reach(&player, &at(5_000, 0, 0), 0));
    assert!(within_collection_reach(&player, &at(14_999, 0, 0), 2));
    assert!(!within_collection_reach(&player, &at(15_000, 0, 0), 2));
    assert!(within_collection_reach(&at(i32::MIN, i32::MIN, i32::MIN), &at(i32::MAX, i32::MAX, i32::MAX), u32::MAX));
}

#[test]
fn the_magnet_pulls_harder_the_closer_the_target() {
    assert_eq!(magnet_pull(0, 0), 0);
    assert_eq!(magnet_pull(0, 10_000), 0);
    // Level two reaches 30 units and pulls at up to 30 units per second.
    assert_eq!(magnet_pull(2, 0), 30_000);
    assert_eq!(magnet_pull(2, 15_000), 15_000);
    assert_eq!(magnet_pull(2, 29_999), 1);
    assert_eq!(magnet_pull(2, 30_000), 0);
    assert_eq!(magnet_pull(1, 5_000), 12_000);
    assert_eq!(magnet_pull(u32::MAX, 0), 15_000 * u32::MAX as u64);
}

#[test]
fn a_combo_lapses_after_three_seconds() {
    let mut stats = GameStats { combo: 7, max_combo: 7, score: 5, ..GameStats::default() };
    let mut timer = 0;
    combo_timeout_system(&mut stats, &mut timer, 3000);
    assert_eq!((stats.combo, timer), (7, 3000));
    combo_timeout_system(&mut stats, &mut timer, 1);
    assert_eq!((stats.combo, timer), (0, 0));
    assert_eq!(stats.max_combo, 7);
    assert_eq!(stats.score, 5);
    timer = 500;
    combo_timeout_system(&mut stats, &mut timer, 16);
    assert_eq!((stats.combo, timer), (0, 0));
    stats.combo = 1;
    timer = u32::MAX - 1;
    combo_timeout_system(&mut stats, &mut timer, 16);
    assert_eq!((stats.combo, timer), (0, 0));
}

#[test]
fn particles_fly_fall_and_fade() {
    let mut particle = ParticleEffect { lifetime: 1000, velocity: at(10_000, 20_000, -5_000) };
    let moved = particle_system(&mut particle, at(0, 0, 0), 100);
    assert_eq!(moved, Some(at(1_000, 2_000, -500)));
    assert_eq!(particle, ParticleEffect { lifetime: 900, velocity: at(10_000, 19_020, -5_000) });
    let moved = particle_system(&mut particle, at(1_000, 2_000, -500), 899);
    assert!(moved.is_some());
    assert_eq!(particle.lifetime, 1);
    assert_eq!(particle_system(&mut particle, at(0, 0, 0), 1), None);
    assert_eq!(particle.lifetime, 0);
    let mut stone = ParticleEffect { lifetime: u32::MAX, velocity: at(0, i32::MIN + 5, 0) };
    particle_system(&mut stone, at(0, 0, 0), 1000);
    assert_eq!(stone.velocity.y, i32::MIN);
}

fn powerup_rolls(distance: u32, height: u32, kind: u32) -> PowerUpRolls {
    PowerUpRolls { distance, bearing: 10, height, kind, bob_phase: 500 }
}

#[test]
fn power_up_kinds() {
    let kinds = [
        PowerUpType::RapidFire,
        PowerUpType::Shield,
        PowerUpType::SpeedBoost,
        PowerUpType::HealthPack,
        PowerUpType::EnergyRecharge,
        PowerUpType::TripleShot,
        PowerUpType::HomingMissiles,
    ];
    for (choice, kind) in kinds.iter().enumerate() {
        assert_eq!(power_type_of(choice as u32), *kind);
    }
    assert_eq!(power_type_of(7), PowerUpType::HomingMissiles);
}

#[test]
fn a_power_up_appears_every_ten_seconds_up_to_three() {
    assert_eq!(
        make_powerup(&powerup_rolls(0, 999, 1)),
        PowerUpSpawn {
            placement: RingPlacement { radius: 100_000, bearing: 10, altitude: 109_920 },
            powerup: PowerUp { power_type: PowerUpType::Shield, lifetime: 30_000, bob_phase: 3141 },
        }
    );
    assert_eq!(make_powerup(&powerup_rolls(999, 0, 0)).placement.radius, 249_850);
    assert_eq!(make_powerup(&powerup_rolls(999, 0, 0)).placement.altitude, 30_000);

    let mut timer = 9_990;
    assert_eq!(spawn_powerups_with(&mut timer, 10, 0, true, &powerup_rolls(0, 0, 0)), None);
    assert_eq!(timer, 10_000);
    assert!(spawn_powerups_with(&mut timer, 1, 2, true, &powerup_rolls(0, 0, 0)).is_some());
    assert_eq!(timer, 0);
    timer = 20_000;
    assert_eq!(spawn_powerups_with(&mut timer, 16, 3, true, &powerup_rolls(0, 0, 0)), None);
    assert_eq!(timer, 20_016);
    assert_eq!(spawn_powerups_with(&mut timer, 16, 0, false, &powerup_rolls(0, 0, 0)), None);
    assert_eq!(timer, 0);
    timer = u32::MAX;
    assert_eq!(spawn_powerups_with(&mut timer, 16, 3, true, &powerup_rolls(0, 0, 0)), None);
    assert_eq!(timer, u32::MAX);

    for _ in 0..200 {
        let mut timer = 10_000;
        let spawn = spawn_powerups_system(&mut timer, 16, 0, true).unwrap();
        assert_eq!(timer, 0);
        assert!((100_000..250_000).contains(&spawn.placement.radius));
        assert!((30_000..110_000).contains(&spawn.placement.altitude));
        assert_eq!(spawn.powerup.lifetime, 30_000);
        assert!(spawn.powerup.bob_phase < 6283);
    }
}

#[test]
fn a_new_game_starts_with_a_clean_slate() {
    let mut stats = GameStats {
        score: 900,
        high_score: 1200,
        combo: 4,
        max_combo: 9,
        targets_hit: 17,
        time_played: 65_000,
        coins: 12,
        difficulty_level: 1108,
        enemies_destroyed: 3,
    };
    let mut active =
        ActivePowerUps { rapid_fire: true, shield: true, triple_shot: false, homing_missiles: true, speed_multiplier: 2000 };
    cleanup_game_stats(&mut stats, &mut active);
    assert_eq!(
        stats,
        GameStats {
            score: 0,
            high_score: 1200,
            combo: 0,
            max_combo: 9,
            targets_hit: 0,
            time_played: 0,
            coins: 12,
            difficulty_level: 1108,
            enemies_destroyed: 3,
        }
    );
    assert_eq!(
        active,
        ActivePowerUps { rapid_fire: false, shield: false, triple_shot: false, homing_missiles: false, speed_multiplier: 1000 }
    );
}

fn balloon(index: u32, position: Vector3, points: u32, target_type: TargetType) -> TargetUnit {
    TargetUnit { entity: EntityId { index, generation: 0 }, position, target: Target { points, target_type } }
}

#[test]
fn every_target_within_reach_is_collected_in_order() {
    let mut targets = vec![
        balloon(1, at(4_000, 0, 0), 100, TargetType::Normal),
        balloon(2, at(5_000, 0, 0), 500, TargetType::Golden),
        balloon(3, at(0, 3_000, 0), 500, TargetType::Golden),
        balloon(4, at(0, 0, -1_000), 50, TargetType::Time),
        balloon(5, at(900_000, 0, 0), 150, TargetType::Combo),
    ];
    let mut stats = GameStats { combo: 4, max_combo: 4, ..GameStats::default() };
    let mut timer = ChallengeTimer { time_remaining: 58_000, total_time: 60_000 };
    let mut health = Health { current: 60_000, max: 100_000 };
    let player = Some(at(0, 0, 0));
    assert!(collections_fit(player, &health, &targets, &stats, &timer, &upgrades(2, 0)));
    let report = collision_detection_system(player, &mut health, &mut targets, &mut stats, &mut timer, &upgrades(2, 0));
    assert_eq!(
        report.collected,
        vec![EntityId { index: 1, generation: 0 }, EntityId { index: 3, generation: 0 }, EntityId { index: 4, generation: 0 }]
    );
    // The combo stands at four, then five, then six: factors one, two, two.
    assert_eq!(
        report.events,
        vec![
            TargetHitEvent { position: at(4_000, 0, 0), points: 200, target_type: TargetType::Normal },
            TargetHitEvent { position: at(0, 3_000, 0), points: 2000, target_type: TargetType::Golden },
            TargetHitEvent { position: at(0, 0, -1_000), points: 200, target_type: TargetType::Time },
        ]
    );
    assert_eq!(stats.score, 2400);
    assert_eq!(stats.targets_hit, 3);
    assert_eq!(stats.combo, 7);
    assert_eq!(stats.max_combo, 7);
    assert_eq!(timer.time_remaining, 60_000);
    assert_eq!(health, Health { current: 100_000, max: 100_000 });
    assert_eq!(targets.len(), 2);
    assert_eq!(targets[0].entity.index, 2);
    assert_eq!(targets[1].entity.index, 5);
}

#[test]
fn healing_by_targets_stops_at_full_health() {
    for (target_type, healed) in
        [(TargetType::Golden, 80_000), (TargetType::Time, 75_000), (TargetType::Normal, 70_000), (TargetType::Speed, 70_000)]
    {
        let mut targets = vec![balloon(1, at(0, 0, 0), 100, target_type)];
        let mut stats = GameStats::default();
        let mut timer = ChallengeTimer::default();
        let mut health = Health { current: 60_000, max: 100_000 };
        collision_detection_system(Some(at(0, 0, 0)), &mut health, &mut targets, &mut stats, &mut timer, &upgrades(1, 0));
        assert_eq!(health.current, healed);
    }
    let mut targets: Vec<TargetUnit> = (0..30).map(|i| balloon(i, at(0, 0, 0), 100, TargetType::Golden)).collect();
    let mut stats = GameStats::default();
    let mut timer = ChallengeTimer::default();
    let mut health = Health { current: 1, max: 100_000 };
    collision_detection_system(Some(at(0, 0, 0)), &mut health, &mut targets, &mut stats, &mut timer, &upgrades(1, 0));
    assert_eq!(health, Health { current: 100_000, max: 100_000 });
    assert!(targets.is_empty());
    assert_eq!(stats.targets_hit, 30);
}

#[test]
fn the_magnet_collects_from_farther_away() {
    let mut targets = vec![balloon(1, at(14_999, 0, 0), 100, TargetType::Normal)];
    let mut stats = GameStats::default();
    let mut timer = ChallengeTimer::default();
    let mut health = Health::full(100_000);
    let player = Some(at(0, 0, 0));
    let report = collision_detection_system(player, &mut health, &mut targets, &mut stats, &mut timer, &upgrades(1, 1));
    assert!(report.collected.is_empty());
    let report = collision_detection_system(player, &mut health, &mut targets, &mut stats, &mut timer, &upgrades(1, 2));
    assert_eq!(report.collected.len(), 1);
    assert_eq!(stats.score, 100);
}

#[test]
fn without_a_player_no_target_is_collected() {
    let mut targets = vec![balloon(1, at(0, 0, 0), 100, TargetType::Normal)];
    let mut stats = GameStats::default();
    let mut timer = ChallengeTimer::default();
    let mut health = Health { current: 5, max: 100_000 };
    assert!(collections_fit(None, &health, &targets, &stats, &timer, &upgrades(1, 0)));
    let report = collision_detection_system(None, &mut health, &mut targets, &mut stats, &mut timer, &upgrades(1, 0));
    assert!(report.collected.is_empty() && report.events.is_empty());
    assert_eq!(targets.len(), 1);
    assert_eq!(health.current, 5);
    assert_eq!(stats, GameStats::default());
}

#[test]
fn a_harvest_that_would_overflow_is_told_apart() {
    let targets = vec![
        balloon(1, at(0, 0, 0), 100, TargetType::Normal),
        balloon(2, at(0, 0, 0), 100, TargetType::Normal),
        balloon(3, at(900_000, 0, 0), u32::MAX, TargetType::Normal),
    ];
    let timer = ChallengeTimer::default();
    let health = Health::full(100_000);
    let player = Some(at(0, 0, 0));
    let roomy = GameStats { score: u32::MAX - 200, ..GameStats::default() };
    assert!(collections_fit(player, &health, &targets, &roomy, &timer, &upgrades(1, 0)));
    let tight = GameStats { score: u32::MAX - 199, ..GameStats::default() };
    assert!(!collections_fit(player, &health, &targets, &tight, &timer, &upgrades(1, 0)));
    // The second target scores double once the first has raised the combo to five.
    let combo = GameStats { score: u32::MAX - 299, combo: 4, ..GameStats::default() };
    assert!(!collections_fit(player, &health, &targets, &combo, &timer, &upgrades(1, 0)));
    let combo = GameStats { score: u32::MAX - 300, combo: 4, ..GameStats::default() };
    assert!(collections_fit(player, &health, &targets, &combo, &timer, &upgrades(1, 0)));
}
