//! The aerobatic maneuvers: what each one asks of the airframe at a given
//! moment of its run.

use vstd::prelude::*;
use crate::entities::{Enemy, ManeuverType};

verus! {

/// The length of a maneuver in milliseconds.
pub const MANEUVER_DURATION: i32 = 1500;

/// What a maneuver asks of the airframe for the coming instant. Rates are in
/// thousandths of a radian per second, about the aircraft's own pitch and
/// roll axes and about the world's vertical for yaw.
#[derive(Debug, Clone, Copy, PartialEq, Eq, Structural)]
pub struct ManeuverOrder {
    pub pitch_rate: i64,
    pub roll_rate: i64,
    pub yaw_rate: i64,
    /// Whether the roll is applied before the pitch.
    pub roll_first: bool,
    /// Where set, pitch and roll rates are both multiplied by the sine of
    /// this phase, given in thousandths of a radian.
    pub oscillation: Option<u64>,
    /// Forward speed, thousandths of a unit per second.
    pub speed: u64,
}

/// `skill` times a factor in thousandths, rounded down.
pub open spec fn rate(factor: int, skill: int) -> int {
    factor * skill / 1000
}

/// Whether the maneuver has run for less than `fraction` thousandths of
/// its duration, going by the time left on the state timer.
pub open spec fn progress_below(state_timer: int, fraction: int) -> bool {
    MANEUVER_DURATION * 1000 - state_timer * 1000 < fraction * MANEUVER_DURATION
}

pub open spec fn steady(pitch_rate: int, roll_rate: int, speed: int) -> ManeuverOrder {
    ManeuverOrder {
        pitch_rate: pitch_rate as i64,
        roll_rate: roll_rate as i64,
        yaw_rate: 0,
        roll_first: false,
        oscillation: None,
        speed: speed as u64,
    }
}

/// What the maneuver asks for, by kind, skill, cruise speed, time left on
/// the state timer and the clock.
pub open spec fn maneuver_order(
    kind: ManeuverType,
    skill: int,
    speed: int,
    state_timer: int,
    elapsed: int,
) -> ManeuverOrder {
    match kind {
        ManeuverType::BarrelRoll => steady(0, rate(3000, skill), speed * 7 / 10),
        ManeuverType::Immelmann => if progress_below(state_timer, 500) {
            steady(-rate(2000, skill), 0, speed / 2)
        } else {
            steady(0, rate(3000, skill), speed)
        },
        ManeuverType::SplitS => if progress_below(state_timer, 300) {
            steady(0, rate(3000, skill), 0)
        } else {
            steady(rate(2000, skill), 0, speed * 3 / 2)
        },
        ManeuverType::HighYoYo => if progress_below(state_timer, 400) {
            steady(-rate(1500, skill), rate(500, skill), speed * 4 / 5)
        } else {
            steady(rate(1000, skill), rate(2000, skill), speed * 4 / 5)
        },
        ManeuverType::LowYoYo => if progress_below(state_timer, 400) {
            steady(rate(1500, skill), rate(500, skill), speed * 13 / 10)
        } else {
            steady(-rate(1000, skill), 0, speed * 9 / 10)
        },
        ManeuverType::Scissors => ManeuverOrder {
            pitch_rate: rate(500, skill) as i64,
            roll_rate: rate(2000, skill) as i64,
            yaw_rate: 0,
            roll_first: true,
            oscillation: Some((4 * elapsed) as u64),
            speed: (speed * 3 / 5) as u64,
        },
        ManeuverType::ChandelleTurn => ManeuverOrder {
            pitch_rate: -rate(500, skill) as i64,
            roll_rate: 0,
            yaw_rate: rate(1500, skill) as i64,
            roll_first: false,
            oscillation: None,
            speed: (speed * 7 / 10) as u64,
        },
    }
}

fn scaled_rate(factor: u32, skill: u32) -> (r: i64)
    requires
        factor <= 3000,
    ensures
        r == rate(factor as int, skill as int),
        0 <= r <= 3 * 0xffff_ffff,
{
    assert(factor * skill <= 3000 * 0xffff_ffff) by (nonlinear_arith)
        requires
            0 <= factor <= 3000,
            0 <= skill <= 0xffff_ffff,
    ;
    ((factor as u64) * (skill as u64) / 1000) as i64
}

fn progress_is_below(state_timer: i32, fraction: u32) -> (r: bool)
    requires
        fraction <= 1000,
    ensures
        r == progress_below(state_timer as int, fraction as int),
{
    (MANEUVER_DURATION as i64) * 1000 - (state_timer as i64) * 1000 < (fraction as i64) * (MANEUVER_DURATION as i64)
}

fn steady_order(pitch_rate: i64, roll_rate: i64, speed: u64) -> (order: ManeuverOrder)
    ensures
        order == steady(pitch_rate as int, roll_rate as int, speed as int),
{
    ManeuverOrder { pitch_rate, roll_rate, yaw_rate: 0, roll_first: false, oscillation: None, speed }
}

/// Works out what the maneuver `maneuver_type` asks of `enemy` now, `elapsed`
/// milliseconds into the game.
pub fn perform_maneuver(enemy: &Enemy, maneuver_type: ManeuverType, elapsed: u32) -> (order: ManeuverOrder)
    ensures
        order == maneuver_order(
            maneuver_type,
            enemy.maneuver_skill as int,
            enemy.speed as int,
            enemy.state_timer as int,
            elapsed as int,
        ),
{
    let skill = enemy.maneuver_skill;
    let speed: u64 = enemy.speed as u64;
    let timer = enemy.state_timer;
    match maneuver_type {
        ManeuverType::BarrelRoll => steady_order(0, scaled_rate(3000, skill), speed * 7 / 10),
        ManeuverType::Immelmann => {
            if progress_is_below(timer, 500) {
                steady_order(-scaled_rate(2000, skill), 0, speed / 2)
            } else {
                steady_order(0, scaled_rate(3000, skill), speed)
            }
        },
        ManeuverType::SplitS => {
            if progress_is_below(timer, 300) {
                steady_order(0, scaled_rate(3000, skill), 0)
            } else {
                steady_order(scaled_rate(2000, skill), 0, speed * 3 / 2)
            }
        },
        ManeuverType::HighYoYo => {
            if progress_is_below(timer, 400) {
                steady_order(-scaled_rate(1500, skill), scaled_rate(500, skill), speed * 4 / 5)
            } else {
                steady_order(scaled_rate(1000, skill), scaled_rate(2000, skill), speed * 4 / 5)
            }
        },
        ManeuverType::LowYoYo => {
            if progress_is_below(timer, 400) {
                steady_order(scaled_rate(1500, skill), scaled_rate(500, skill), speed * 13 / 10)
            } else {
                steady_order(-scaled_rate(1000, skill), 0, speed * 9 / 10)
            }
        },
        ManeuverType::Scissors => ManeuverOrder {
            pitch_rate: scaled_rate(500, skill),
            roll_rate: scaled_rate(2000, skill),
            yaw_rate: 0,
            roll_first: true,
            oscillation: Some(4 * (elapsed as u64)),
            speed: speed * 3 / 5,
        },
        ManeuverType::ChandelleTurn => ManeuverOrder {
            pitch_rate: -scaled_rate(500, skill),
            roll_rate: 0,
            yaw_rate: scaled_rate(1500, skill),
            roll_first: false,
            oscillation: None,
            speed: speed * 7 / 10,
        },
    }
}

} // verus!
