use sky_hunter::chatter::{
    chatter_bucket, chatter_with, generate_radio_chatter, ChatterBucket, ChatterLine, ChatterRolls,
};
use sky_hunter::entities::{
    Enemy, EnemyBehaviorState, EnemyType, Health, ManeuverType, PilotPersonality,
};

fn pilot(personality: PilotPersonality, state: EnemyBehaviorState) -> Enemy {
    Enemy {
        speed: 60_000,
        damage: 10_000,
        attack_range: 50_000,
        pursuit_range: 200_000,
        enemy_type: EnemyType::Fighter,
        behavior_state: state,
        state_timer: 0,
        evasion_angle: 0,
        preferred_distance: 40_000,
        personality,
        formation_role: None,
        maneuver_skill: 500,
        reaction_time: 500,
        morale: 1000,
        last_taunt_time: 0,
        shoot_cooldown: 0,
    }
}

fn healthy() -> Health {
    Health { current: 50_000, max: 50_000 }
}

const LINES: [(ChatterBucket, [&str; 3]); 8] = [
    (ChatterBucket::AggressiveAttack, ["I've got you now!", "Nowhere to run!", "This is too easy!"]),
    (ChatterBucket::ShowOffAttack, ["Watch this move!", "Time for some aerobatics!", "Hope you're taking notes!"]),
    (ChatterBucket::VeteranPursuit, ["Target acquired.", "Beginning attack run.", "Stay focused, maintain pursuit."]),
    (ChatterBucket::DamagedEvasion, ["Taking heavy damage!", "I need backup!", "Systems failing!"]),
    (ChatterBucket::Formation, ["Formation holding.", "Following lead.", "Maintaining position."]),
    (ChatterBucket::Retreat, ["Breaking off!", "I'm hit, pulling out!", "Can't take much more!"]),
    (ChatterBucket::ShowOffManeuver, ["Check out this maneuver!", "Bet you can't do this!", "Textbook execution!"]),
    (ChatterBucket::CloseQuarters, ["You're mine!", "Got a lock!", "In position!"]),
];

#[test]
fn every_line_of_every_bucket() {
    for (bucket, lines) in LINES {
        for (line, text) in lines.iter().enumerate() {
            let chosen = ChatterLine { bucket, line };
            assert_eq!(chosen.text(), *text);
            assert_eq!(chosen.message(), text.to_string());
        }
        assert_eq!(ChatterLine { bucket, line: 3 }.text(), lines[2]);
        assert_eq!(ChatterLine { bucket, line: usize::MAX }.text(), lines[2]);
    }
}

#[test]
fn buckets_by_state_and_personality() {
    let far = 100_000;
    let cases = [
        (EnemyBehaviorState::Attacking, PilotPersonality::Aggressive, Some(ChatterBucket::AggressiveAttack)),
        (EnemyBehaviorState::Attacking, PilotPersonality::ShowOff, Some(ChatterBucket::ShowOffAttack)),
        (EnemyBehaviorState::Attacking, PilotPersonality::Tactical, None),
        (EnemyBehaviorState::Pursuing, PilotPersonality::Veteran, Some(ChatterBucket::VeteranPursuit)),
        (EnemyBehaviorState::Pursuing, PilotPersonality::Aggressive, None),
        (EnemyBehaviorState::Formation, PilotPersonality::Tactical, Some(ChatterBucket::Formation)),
        (EnemyBehaviorState::Formation, PilotPersonality::Defensive, Some(ChatterBucket::Formation)),
        (EnemyBehaviorState::Retreating, PilotPersonality::Veteran, Some(ChatterBucket::Retreat)),
        (
            EnemyBehaviorState::Maneuvering(ManeuverType::Immelmann),
            PilotPersonality::ShowOff,
            Some(ChatterBucket::ShowOffManeuver),
        ),
        (EnemyBehaviorState::Maneuvering(ManeuverType::Immelmann), PilotPersonality::Veteran, None),
        (EnemyBehaviorState::Patrol, PilotPersonality::ShowOff, None),
        (EnemyBehaviorState::Strafing, PilotPersonality::Aggressive, None),
        (EnemyBehaviorState::Ambushing, PilotPersonality::Veteran, None),
        (EnemyBehaviorState::Supporting, PilotPersonality::Tactical, None),
        (EnemyBehaviorState::Evading, PilotPersonality::Defensive, None),
    ];
    for (state, personality, bucket) in cases {
        assert_eq!(chatter_bucket(state, personality, far, 1000), bucket);
    }
}

#[test]
fn a_damaged_evader_calls_for_help() {
    let state = EnemyBehaviorState::Evading;
    assert_eq!(
        chatter_bucket(state, PilotPersonality::Tactical, 100_000, 499),
        Some(ChatterBucket::DamagedEvasion)
    );
    assert_eq!(chatter_bucket(state, PilotPersonality::Tactical, 100_000, 500), None);
    assert_eq!(
        chatter_bucket(state, PilotPersonality::Tactical, 10_000, 500),
        Some(ChatterBucket::CloseQuarters)
    );
}

#[test]
fn anyone_calls_a_lock_within_thirty_units() {
    for state in [EnemyBehaviorState::Patrol, EnemyBehaviorState::Strafing, EnemyBehaviorState::Supporting] {
        assert_eq!(
            chatter_bucket(state, PilotPersonality::Tactical, 29_999, 1000),
            Some(ChatterBucket::CloseQuarters)
        );
        assert_eq!(chatter_bucket(state, PilotPersonality::Tactical, 30_000, 1000), None);
    }
    // An occasion of one's own comes first.
    assert_eq!(
        chatter_bucket(EnemyBehaviorState::Retreating, PilotPersonality::Tactical, 0, 1000),
        Some(ChatterBucket::Retreat)
    );
}

#[test]
fn three_messages_in_ten_are_suppressed() {
    let enemy = pilot(PilotPersonality::Tactical, EnemyBehaviorState::Formation);
    let rolls = |suppress| ChatterRolls { suppress, line: 1 };
    assert_eq!(chatter_with(&enemy, 100_000, &healthy(), rolls(0)), None);
    assert_eq!(chatter_with(&enemy, 100_000, &healthy(), rolls(299)), None);
    let spoken = Some(ChatterLine { bucket: ChatterBucket::Formation, line: 1 });
    assert_eq!(chatter_with(&enemy, 100_000, &healthy(), rolls(300)), spoken);
    assert_eq!(chatter_with(&enemy, 100_000, &healthy(), rolls(999)), spoken);
}

#[test]
fn health_counts_as_a_ratio_of_the_maximum() {
    let enemy = pilot(PilotPersonality::Tactical, EnemyBehaviorState::Evading);
    let rolls = ChatterRolls { suppress: 999, line: 0 };
    let hurt = Health { current: 24_999, max: 50_000 };
    assert_eq!(
        chatter_with(&enemy, 100_000, &hurt, rolls),
        Some(ChatterLine { bucket: ChatterBucket::DamagedEvasion, line: 0 })
    );
    let half = Health { current: 25_000, max: 50_000 };
    assert_eq!(chatter_with(&enemy, 100_000, &half, rolls), None);
}

#[test]
fn generated_chatter_is_a_line_of_the_bucket_or_nothing() {
    let enemy = pilot(PilotPersonality::Aggressive, EnemyBehaviorState::Attacking);
    let lines = LINES[0].1;
    let mut spoken = 0;
    let mut silent = 0;
    for _ in 0..500 {
        match generate_radio_chatter(&enemy, 100_000, &healthy()) {
            Some(message) => {
                assert!(lines.contains(&message.as_str()));
                spoken += 1;
            }
            None => silent += 1,
        }
    }
    assert!(spoken > 0);
    assert!(silent > 0);
}

#[test]
fn nothing_is_generated_without_an_occasion() {
    let enemy = pilot(PilotPersonality::Tactical, EnemyBehaviorState::Patrol);
    for _ in 0..200 {
        assert_eq!(generate_radio_chatter(&enemy, 100_000, &healthy()), None);
    }
}

#[test]
fn drawn_chatter_rolls_are_within_their_ranges() {
    for _ in 0..300 {
        let rolls = ChatterRolls::draw();
        assert!(rolls.suppress < 1000);
        assert!(rolls.line < 3);
    }
}
