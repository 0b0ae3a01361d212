//! Radio chatter: the lines enemy pilots send, chosen by what they are doing
//! and who they are. Chatter is cosmetic; no line is a valid outcome.

use vstd::prelude::*;
use crate::entities::{Enemy, EnemyBehaviorState, Health, PilotPersonality, health_ratio};
use crate::random::{pick, roll, is_roll};

verus! {

/// The least time between two messages of one pilot, in milliseconds.
pub const CHATTER_INTERVAL: u32 = 5000;

/// Out of a thousand messages, how many are held back to keep the channel
/// quiet.
pub const SUPPRESSED_SHARE: u32 = 300;

/// The distance below which a pilot with nothing else to say calls a lock.
pub const LOCK_DISTANCE: u64 = 30_000;

/// The occasions on which a pilot has something to say.
#[derive(Debug, Clone, Copy, PartialEq, Eq, Structural)]
pub enum ChatterBucket {
    AggressiveAttack,
    ShowOffAttack,
    VeteranPursuit,
    DamagedEvasion,
    Formation,
    Retreat,
    ShowOffManeuver,
    CloseQuarters,
}

/// The rolls that one attempt at chatter consumes.
#[derive(Debug, Clone, Copy, PartialEq, Eq, Structural)]
pub struct ChatterRolls {
    /// A chance roll: the message is held back if it is below
    /// [`SUPPRESSED_SHARE`].
    pub suppress: u32,
    /// Which of the bucket's lines is sent.
    pub line: usize,
}

/// A line of chatter that was chosen.
#[derive(Debug, Clone, Copy, PartialEq, Eq, Structural)]
pub struct ChatterLine {
    pub bucket: ChatterBucket,
    pub line: usize,
}

/// The occasion, if any, that a pilot in the given situation speaks on.
/// The first that applies counts.
pub open spec fn bucket_of(
    state: EnemyBehaviorState,
    personality: PilotPersonality,
    distance: int,
    ratio: int,
) -> Option<ChatterBucket> {
    if state == EnemyBehaviorState::Attacking && personality == PilotPersonality::Aggressive {
        Some(ChatterBucket::AggressiveAttack)
    } else if state == EnemyBehaviorState::Attacking && personality == PilotPersonality::ShowOff {
        Some(ChatterBucket::ShowOffAttack)
    } else if state == EnemyBehaviorState::Pursuing && personality == PilotPersonality::Veteran {
        Some(ChatterBucket::VeteranPursuit)
    } else if state == EnemyBehaviorState::Evading && ratio < 500 {
        Some(ChatterBucket::DamagedEvasion)
    } else if state == EnemyBehaviorState::Formation {
        Some(ChatterBucket::Formation)
    } else if state == EnemyBehaviorState::Retreating {
        Some(ChatterBucket::Retreat)
    } else if state is Maneuvering && personality == PilotPersonality::ShowOff {
        Some(ChatterBucket::ShowOffManeuver)
    } else if distance < LOCK_DISTANCE {
        Some(ChatterBucket::CloseQuarters)
    } else {
        None
    }
}

/// The text of a line: each bucket has three, and any choice past the
/// second names the third.
pub open spec fn line_text(bucket: ChatterBucket, line: int) -> Seq<char> {
    match bucket {
        ChatterBucket::AggressiveAttack => if line == 0 {
            "I've got you now!"@
        } else if line == 1 {
            "Nowhere to run!"@
        } else {
            "This is too easy!"@
        },
        ChatterBucket::ShowOffAttack => if line == 0 {
            "Watch this move!"@
        } else if line == 1 {
            "Time for some aerobatics!"@
        } else {
            "Hope you're taking notes!"@
        },
        ChatterBucket::VeteranPursuit => if line == 0 {
            "Target acquired."@
        } else if line == 1 {
            "Beginning attack run."@
        } else {
            "Stay focused, maintain pursuit."@
        },
        ChatterBucket::DamagedEvasion => if line == 0 {
            "Taking heavy damage!"@
        } else if line == 1 {
            "I need backup!"@
        } else {
            "Systems failing!"@
        },
        ChatterBucket::Formation => if line == 0 {
            "Formation holding."@
        } else if line == 1 {
            "Following lead."@
        } else {
            "Maintaining position."@
        },
        ChatterBucket::Retreat => if line == 0 {
            "Breaking off!"@
        } else if line == 1 {
            "I'm hit, pulling out!"@
        } else {
            "Can't take much more!"@
        },
        ChatterBucket::ShowOffManeuver => if line == 0 {
            "Check out this maneuver!"@
        } else if line == 1 {
            "Bet you can't do this!"@
        } else {
            "Textbook execution!"@
        },
        ChatterBucket::CloseQuarters => if line == 0 {
            "You're mine!"@
        } else if line == 1 {
            "Got a lock!"@
        } else {
            "In position!"@
        },
    }
}

/// The line, if any, that the pilot sends: none while the message is
/// suppressed or no occasion applies.
pub open spec fn chosen_line(
    state: EnemyBehaviorState,
    personality: PilotPersonality,
    distance: int,
    ratio: int,
    rolls: ChatterRolls,
) -> Option<ChatterLine> {
    if rolls.suppress < SUPPRESSED_SHARE {
        None
    } else {
        match bucket_of(state, personality, distance, ratio) {
            Some(bucket) => Some(ChatterLine { bucket, line: rolls.line }),
            None => None,
        }
    }
}

/// Whether a pilot who last spoke at `last_taunt_time` may speak again at
/// `elapsed`.
pub open spec fn may_speak(elapsed: int, last_taunt_time: int) -> bool {
    elapsed - last_taunt_time > CHATTER_INTERVAL
}

impl ChatterRolls {
    /// The rolls are within their ranges.
    pub open spec fn valid(&self) -> bool {
        is_roll(self.suppress) && self.line < 3
    }

    /// Draws the rolls for one attempt at chatter.
    pub fn draw() -> (rolls: ChatterRolls)
        ensures
            rolls.valid(),
    {
        ChatterRolls { suppress: roll(), line: pick(3) }
    }
}

impl ChatterLine {
    /// The text of the line.
    pub fn text(&self) -> (text: &'static str)
        ensures
            text@ == line_text(self.bucket, self.line as int),
    {
        match self.bucket {
            ChatterBucket::AggressiveAttack => match self.line {
                0 => "I've got you now!",
                1 => "Nowhere to run!",
                _ => "This is too easy!",
            },
            ChatterBucket::ShowOffAttack => match self.line {
                0 => "Watch this move!",
                1 => "Time for some aerobatics!",
                _ => "Hope you're taking notes!",
            },
            ChatterBucket::VeteranPursuit => match self.line {
                0 => "Target acquired.",
                1 => "Beginning attack run.",
                _ => "Stay focused, maintain pursuit.",
            },
            ChatterBucket::DamagedEvasion => match self.line {
                0 => "Taking heavy damage!",
                1 => "I need backup!",
                _ => "Systems failing!",
            },
            ChatterBucket::Formation => match self.line {
                0 => "Formation holding.",
                1 => "Following lead.",
                _ => "Maintaining position.",
            },
            ChatterBucket::Retreat => match self.line {
                0 => "Breaking off!",
                1 => "I'm hit, pulling out!",
                _ => "Can't take much more!",
            },
            ChatterBucket::ShowOffManeuver => match self.line {
                0 => "Check out this maneuver!",
                1 => "Bet you can't do this!",
                _ => "Textbook execution!",
            },
            ChatterBucket::CloseQuarters => match self.line {
                0 => "You're mine!",
                1 => "Got a lock!",
                _ => "In position!",
            },
        }
    }

    /// The line as an owned message.
    pub fn message(&self) -> (message: String)
        ensures
            message@ == line_text(self.bucket, self.line as int),
    {
        self.text().to_owned()
    }
}

/// The occasion, if any, on which a pilot in the given situation speaks.
pub fn chatter_bucket(
    state: EnemyBehaviorState,
    personality: PilotPersonality,
    distance: u64,
    ratio: u32,
) -> (bucket: Option<ChatterBucket>)
    ensures
        bucket == bucket_of(state, personality, distance as int, ratio as int),
{
    match (state, personality) {
        (EnemyBehaviorState::Attacking, PilotPersonality::Aggressive) => Some(ChatterBucket::AggressiveAttack),
        (EnemyBehaviorState::Attacking, PilotPersonality::ShowOff) => Some(ChatterBucket::ShowOffAttack),
        (EnemyBehaviorState::Pursuing, PilotPersonality::Veteran) => Some(ChatterBucket::VeteranPursuit),
        (EnemyBehaviorState::Evading, _) if ratio < 500 => Some(ChatterBucket::DamagedEvasion),
        (EnemyBehaviorState::Formation, _) => Some(ChatterBucket::Formation),
        (EnemyBehaviorState::Retreating, _) => Some(ChatterBucket::Retreat),
        (EnemyBehaviorState::Maneuvering(_), PilotPersonality::ShowOff) => Some(ChatterBucket::ShowOffManeuver),
        _ => if distance < LOCK_DISTANCE {
            Some(ChatterBucket::CloseQuarters)
        } else {
            None
        },
    }
}

/// Chooses the line that `enemy` sends with the given rolls, `distance`
/// away from the player and at the given health.
pub fn chatter_with(enemy: &Enemy, distance: u64, health: &Health, rolls: ChatterRolls) -> (line: Option<ChatterLine>)
    ensures
        line == chosen_line(
            enemy.behavior_state,
            enemy.personality,
            distance as int,
            health_ratio(*health),
            rolls,
        ),
{
    if rolls.suppress < SUPPRESSED_SHARE {
        return None;
    }
    match chatter_bucket(enemy.behavior_state, enemy.personality, distance, health.ratio()) {
        Some(bucket) => Some(ChatterLine { bucket, line: rolls.line }),
        None => None,
    }
}

/// The message is the text of the line, where there is one, and nothing
/// otherwise.
pub open spec fn voices(message: Option<String>, line: Option<ChatterLine>) -> bool {
    match line {
        Some(line) => message matches Some(text) && text@ == line_text(line.bucket, line.line as int),
        None => message is None,
    }
}

/// Generates the message, if any, that `enemy` sends: rolls for it, and
/// returns the text of the line that [`chatter_with`] chooses with those
/// rolls.
pub fn generate_radio_chatter(enemy: &Enemy, distance: u64, health: &Health) -> (message: Option<String>)
    ensures
        exists|rolls: ChatterRolls|
            rolls.valid() && voices(
                message,
                #[trigger] chosen_line(
                    enemy.behavior_state,
                    enemy.personality,
                    distance as int,
                    health_ratio(*health),
                    rolls,
                ),
            ),
        bucket_of(enemy.behavior_state, enemy.personality, distance as int, health_ratio(*health)) is None
            ==> message is None,
{
    let rolls = ChatterRolls::draw();
    match chatter_with(enemy, distance, health, rolls) {
        Some(line) => Some(line.message()),
        None => None,
    }
}

} // verus!
