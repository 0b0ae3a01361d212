//! The state of a game as a whole: its phase, its mode, the running
//! statistics and the upgrades the player has bought.

use vstd::prelude::*;

verus! {

/// The phase the game is in.
#[derive(Debug, Clone, Copy, PartialEq, Eq, Structural, Hash)]
pub enum GameState {
    MainMenu,
    Playing,
    Paused,
    GameOver,
    UpgradeShop,
}

#[derive(Debug, Clone, Copy, PartialEq, Eq, Structural, Hash)]
pub enum GameMode {
    FreePlay,
    TimeAttack,
    TargetHunt,
    Survival,
    RaceTheClock,
}

#[derive(Debug, Clone, Copy, PartialEq, Eq)]
pub struct CurrentGameMode {
    pub mode: GameMode,
}

/// The running statistics of a game.
#[derive(Debug, Clone, Copy, PartialEq, Eq)]
pub struct GameStats {
    pub score: u32,
    pub high_score: u32,
    pub combo: u32,
    pub max_combo: u32,
    pub targets_hit: u32,
    /// Milliseconds played.
    pub time_played: u32,
    pub coins: u32,
    /// The difficulty, in thousandths; it starts at one and grows with the
    /// time played.
    pub difficulty_level: u32,
    pub enemies_destroyed: u32,
}

/// The countdown of the timed modes, in milliseconds.
#[derive(Debug, Clone, Copy, PartialEq, Eq)]
pub struct ChallengeTimer {
    pub time_remaining: u32,
    pub total_time: u32,
}

/// The level of each upgrade.
#[derive(Debug, Clone, Copy, PartialEq, Eq)]
pub struct UpgradeData {
    pub speed_level: u32,
    pub maneuverability_level: u32,
    pub magnet_level: u32,
    pub multiplier_level: u32,
}

/// A race against the clock ends when this many targets are hit.
pub const RACE_TARGETS: u32 = 50;

/// The difficulty after `time_played` milliseconds: one, and a tenth more
/// for every minute played.
pub open spec fn difficulty_at(time_played: int) -> int {
    1000 + time_played / 600
}

/// Whether the mode runs against the challenge timer.
pub open spec fn is_timed(mode: GameMode) -> bool {
    mode == GameMode::TimeAttack || mode == GameMode::Survival || mode == GameMode::RaceTheClock
}

/// Whether a game in the given mode is over.
pub open spec fn is_over(mode: GameMode, time_remaining: int, targets_hit: int) -> bool {
    match mode {
        GameMode::TimeAttack | GameMode::Survival => time_remaining <= 0,
        GameMode::RaceTheClock => time_remaining <= 0 || targets_hit >= RACE_TARGETS,
        _ => false,
    }
}

impl Default for GameState {
    fn default() -> (state: GameState)
        ensures
            state == GameState::MainMenu,
    {
        GameState::MainMenu
    }
}

impl Default for GameMode {
    fn default() -> (mode: GameMode)
        ensures
            mode == GameMode::FreePlay,
    {
        GameMode::FreePlay
    }
}

impl Default for CurrentGameMode {
    fn default() -> (current: CurrentGameMode)
        ensures
            current.mode == GameMode::FreePlay,
    {
        CurrentGameMode { mode: GameMode::FreePlay }
    }
}

impl Default for GameStats {
    fn default() -> (stats: GameStats)
        ensures
            stats == (GameStats {
                score: 0,
                high_score: 0,
                combo: 0,
                max_combo: 0,
                targets_hit: 0,
                time_played: 0,
                coins: 0,
                difficulty_level: 1000,
                enemies_destroyed: 0,
            }),
    {
        GameStats {
            score: 0,
            high_score: 0,
            combo: 0,
            max_combo: 0,
            targets_hit: 0,
            time_played: 0,
            coins: 0,
            difficulty_level: 1000,
            enemies_destroyed: 0,
        }
    }
}

impl Default for ChallengeTimer {
    fn default() -> (timer: ChallengeTimer)
        ensures
            timer == (ChallengeTimer { time_remaining: 60_000, total_time: 60_000 }),
    {
        ChallengeTimer { time_remaining: 60_000, total_time: 60_000 }
    }
}

impl Default for UpgradeData {
    fn default() -> (upgrades: UpgradeData)
        ensures
            upgrades == (UpgradeData {
                speed_level: 1,
                maneuverability_level: 1,
                magnet_level: 0,
                multiplier_level: 1,
            }),
    {
        UpgradeData { speed_level: 1, maneuverability_level: 1, magnet_level: 0, multiplier_level: 1 }
    }
}

/// The price in coins of the upgrade to `level`.
pub fn get_upgrade_cost(level: u32) -> (cost: u32)
    requires
        100 * level * level <= u32::MAX,
    ensures
        cost == 100 * level * level,
{
    assert(100 * level <= 100 * level * level || level == 0) by (nonlinear_arith)
        requires
            0 <= level,
    ;
    100 * level * level
}

/// The speed factor of an upgrade level, in thousandths: one at the first
/// level and a fifth more with every further one.
pub fn get_speed_bonus(level: u32) -> (bonus: i64)
    ensures
        bonus == 1000 + (level - 1) * 200,
{
    1000 + (level as i64 - 1) * 200
}

/// The agility factor of an upgrade level, in thousandths: one at the
/// first level and 0.15 more with every further one.
pub fn get_maneuverability_bonus(level: u32) -> (bonus: i64)
    ensures
        bonus == 1000 + (level - 1) * 150,
{
    1000 + (level as i64 - 1) * 150
}

/// The reach of the magnet at an upgrade level, in thousandths of a unit:
/// five units for every level.
pub fn get_magnet_range(level: u32) -> (range: u64)
    ensures
        range == level * 5000,
{
    (level as u64) * 5000
}

/// The factor applied to every score at an upgrade level.
pub fn get_score_multiplier(level: u32) -> (factor: u32)
    ensures
        factor == level,
{
    level
}

/// Whether the mode runs against the challenge timer.
pub fn is_timed_mode(mode: GameMode) -> (timed: bool)
    ensures
        timed == is_timed(mode),
{
    match mode {
        GameMode::TimeAttack | GameMode::Survival | GameMode::RaceTheClock => true,
        _ => false,
    }
}

/// Lets `dt` milliseconds of play pass: the time played grows, the
/// difficulty follows it, and in the timed modes the challenge timer runs
/// down to zero.
pub fn update_challenge_timer(timer: &mut ChallengeTimer, mode: GameMode, stats: &mut GameStats, dt: u32)
    ensures
        final(stats).time_played == if old(stats).time_played + dt > u32::MAX {
            u32::MAX as int
        } else {
            old(stats).time_played + dt
        },
        final(stats).difficulty_level == difficulty_at(final(stats).time_played as int),
        *final(stats) == (GameStats {
            time_played: final(stats).time_played,
            difficulty_level: final(stats).difficulty_level,
            ..*old(stats)
        }),
        final(timer).total_time == old(timer).total_time,
        final(timer).time_remaining == if !is_timed(mode) {
            old(timer).time_remaining as int
        } else if old(timer).time_remaining >= dt {
            old(timer).time_remaining - dt
        } else {
            0
        },
{
    stats.time_played = stats.time_played.saturating_add(dt);
    stats.difficulty_level = 1000 + stats.time_played / 600;
    if is_timed_mode(mode) {
        timer.time_remaining = timer.time_remaining.saturating_sub(dt);
    }
}

/// Whether the game has run its course.
pub fn check_game_over(timer: &ChallengeTimer, mode: GameMode, stats: &GameStats) -> (over: bool)
    ensures
        over == is_over(mode, timer.time_remaining as int, stats.targets_hit as int),
{
    match mode {
        GameMode::TimeAttack | GameMode::Survival => timer.time_remaining == 0,
        GameMode::RaceTheClock => timer.time_remaining == 0 || stats.targets_hit >= RACE_TARGETS,
        _ => false,
    }
}

/// Raises the high score to the score where the score is higher.
pub fn update_high_score(stats: &mut GameStats)
    ensures
        final(stats).high_score == if old(stats).score > old(stats).high_score {
            old(stats).score
        } else {
            old(stats).high_score
        },
        *final(stats) == (GameStats { high_score: final(stats).high_score, ..*old(stats) }),
{
    if stats.score > stats.high_score {
        stats.high_score = stats.score;
    }
}

/// Pays out the coins of a finished game, one for every hundred points,
/// unless that was done already.
pub fn save_coins(stats: &mut GameStats, saved: &mut bool)
    requires
        !*old(saved) ==> old(stats).coins + old(stats).score / 100 <= u32::MAX,
    ensures
        *final(saved),
        final(stats).coins == if *old(saved) {
            old(stats).coins as int
        } else {
            old(stats).coins + old(stats).score / 100
        },
        *final(stats) == (GameStats { coins: final(stats).coins, ..*old(stats) }),
{
    if !*saved {
        stats.coins = stats.coins + stats.score / 100;
        *saved = true;
    }
}

/// The upgrades on sale.
#[derive(Debug, Clone, Copy, PartialEq, Eq, Structural, Hash)]
pub enum UpgradeKind {
    Speed,
    Maneuverability,
    Magnet,
    Multiplier,
}

/// The time a mode gives on its challenge timer, in milliseconds; nothing
/// for the modes without one.
pub open spec fn challenge_time_of(mode: GameMode) -> Option<u32> {
    match mode {
        GameMode::TimeAttack => Some(60_000u32),
        GameMode::Survival => Some(10_000u32),
        GameMode::RaceTheClock => Some(120_000u32),
        _ => None,
    }
}

/// The challenge timer as a game in the given mode starts with it.
pub open spec fn timer_for(mode: GameMode, timer: ChallengeTimer) -> ChallengeTimer {
    match challenge_time_of(mode) {
        Some(time) => ChallengeTimer { time_remaining: time, total_time: time },
        None => timer,
    }
}

/// The level that an upgrade of the given kind is bought to reach a price
/// for: the present level, and for the magnet, which starts at nothing, the
/// next one.
pub open spec fn priced_level(upgrades: UpgradeData, kind: UpgradeKind) -> int {
    match kind {
        UpgradeKind::Speed => upgrades.speed_level as int,
        UpgradeKind::Maneuverability => upgrades.maneuverability_level as int,
        UpgradeKind::Magnet => upgrades.magnet_level + 1,
        UpgradeKind::Multiplier => upgrades.multiplier_level as int,
    }
}

/// The present level of an upgrade.
pub open spec fn level_of(upgrades: UpgradeData, kind: UpgradeKind) -> int {
    match kind {
        UpgradeKind::Speed => upgrades.speed_level as int,
        UpgradeKind::Maneuverability => upgrades.maneuverability_level as int,
        UpgradeKind::Magnet => upgrades.magnet_level as int,
        UpgradeKind::Multiplier => upgrades.multiplier_level as int,
    }
}

/// The price of the next upgrade of the given kind.
pub open spec fn price_of(upgrades: UpgradeData, kind: UpgradeKind) -> int {
    100 * priced_level(upgrades, kind) * priced_level(upgrades, kind)
}

/// Whether the player can buy the next upgrade of the given kind: the
/// coins suffice, and the level can still rise.
pub open spec fn can_buy(stats: GameStats, upgrades: UpgradeData, kind: UpgradeKind) -> bool {
    price_of(upgrades, kind) <= stats.coins && level_of(upgrades, kind) < u32::MAX
}

/// The upgrades with the given kind raised by a level.
pub open spec fn upgraded(upgrades: UpgradeData, kind: UpgradeKind) -> UpgradeData {
    match kind {
        UpgradeKind::Speed => UpgradeData { speed_level: (upgrades.speed_level + 1) as u32, ..upgrades },
        UpgradeKind::Maneuverability => UpgradeData {
            maneuverability_level: (upgrades.maneuverability_level + 1) as u32,
            ..upgrades
        },
        UpgradeKind::Magnet => UpgradeData { magnet_level: (upgrades.magnet_level + 1) as u32, ..upgrades },
        UpgradeKind::Multiplier => UpgradeData {
            multiplier_level: (upgrades.multiplier_level + 1) as u32,
            ..upgrades
        },
    }
}

/// The time a mode gives on its challenge timer.
pub fn challenge_time(mode: GameMode) -> (time: Option<u32>)
    ensures
        time == challenge_time_of(mode),
{
    match mode {
        GameMode::TimeAttack => Some(60_000),
        GameMode::Survival => Some(10_000),
        GameMode::RaceTheClock => Some(120_000),
        _ => None,
    }
}

/// Starts a game in the given mode from the menu: the mode is set, score
/// and combo start at nothing, and the timed modes get their time.
pub fn start_mode(mode: GameMode, current: &mut CurrentGameMode, stats: &mut GameStats, timer: &mut ChallengeTimer)
    ensures
        final(current).mode == mode,
        *final(stats) == (GameStats { score: 0, combo: 0, ..*old(stats) }),
        *final(timer) == timer_for(mode, *old(timer)),
{
    current.mode = mode;
    stats.score = 0;
    stats.combo = 0;
    match challenge_time(mode) {
        Some(time) => {
            timer.time_remaining = time;
            timer.total_time = time;
        },
        None => {},
    }
}

/// Starts the game over in its mode: score, combo, targets hit and time
/// played start at nothing, and the timed modes get their time again.
pub fn restart_game(mode: GameMode, stats: &mut GameStats, timer: &mut ChallengeTimer)
    ensures
        *final(stats) == (GameStats { score: 0, combo: 0, targets_hit: 0, time_played: 0, ..*old(stats) }),
        *final(timer) == timer_for(mode, *old(timer)),
{
    stats.score = 0;
    stats.combo = 0;
    stats.targets_hit = 0;
    stats.time_played = 0;
    match challenge_time(mode) {
        Some(time) => {
            timer.time_remaining = time;
            timer.total_time = time;
        },
        None => {},
    }
}

/// The price of the next upgrade of the given kind, or nothing where no
/// amount of coins could pay it.
pub fn upgrade_price(upgrades: &UpgradeData, kind: UpgradeKind) -> (price: Option<u32>)
    ensures
        match price {
            Some(price) => price == price_of(*upgrades, kind),
            None => price_of(*upgrades, kind) > u32::MAX,
        },
{
    let level: u64 = match kind {
        UpgradeKind::Speed => upgrades.speed_level as u64,
        UpgradeKind::Maneuverability => upgrades.maneuverability_level as u64,
        UpgradeKind::Magnet => upgrades.magnet_level as u64 + 1,
        UpgradeKind::Multiplier => upgrades.multiplier_level as u64,
    };
    if level > 6553 {
        assert(100 * level * level > u32::MAX) by (nonlinear_arith)
            requires
                level >= 6554,
        ;
        None
    } else {
        assert(100 * level * level <= 100 * 6553 * 6553) by (nonlinear_arith)
            requires
                0 <= level <= 6553,
        ;
        assert(100 * level <= 100 * 6553) by (nonlinear_arith)
            requires
                0 <= level <= 6553,
        ;
        Some(get_upgrade_cost(level as u32))
    }
}

/// Buys the next upgrade of the given kind if the player can: the price is
/// taken from the coins and the level rises by one. Says whether it did.
pub fn purchase_upgrade(stats: &mut GameStats, upgrades: &mut UpgradeData, kind: UpgradeKind) -> (bought: bool)
    ensures
        bought == can_buy(*old(stats), *old(upgrades), kind),
        bought ==> *final(stats) == (GameStats {
            coins: (old(stats).coins - price_of(*old(upgrades), kind)) as u32,
            ..*old(stats)
        }) && *final(upgrades) == upgraded(*old(upgrades), kind),
        !bought ==> *final(stats) == *old(stats) && *final(upgrades) == *old(upgrades),
{
    let price = match upgrade_price(upgrades, kind) {
        Some(price) => price,
        None => {
            return false;
        },
    };
    let level = match kind {
        UpgradeKind::Speed => upgrades.speed_level,
        UpgradeKind::Maneuverability => upgrades.maneuverability_level,
        UpgradeKind::Magnet => upgrades.magnet_level,
        UpgradeKind::Multiplier => upgrades.multiplier_level,
    };
    if stats.coins < price || level == u32::MAX {
        return false;
    }
    stats.coins = stats.coins - price;
    match kind {
        UpgradeKind::Speed => {
            upgrades.speed_level = level + 1;
        },
        UpgradeKind::Maneuverability => {
            upgrades.maneuverability_level = level + 1;
        },
        UpgradeKind::Magnet => {
            upgrades.magnet_level = level + 1;
        },
        UpgradeKind::Multiplier => {
            upgrades.multiplier_level = level + 1;
        },
    }
    true
}

} // verus!
