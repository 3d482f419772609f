//! Moods of the companion and the rules by which they change.
//!
//! The machine is driven by ticks, each carrying a raw focus score and
//! whether a face was seen, and by gestures.  Times are microseconds on a
//! clock that never runs backwards by more than the machine tolerates: a
//! reading earlier than a recorded time counts as no time having passed.

use vstd::prelude::*;
use std::time::Instant;
use crate::fixed::{in_unit, UNIT};
use crate::state::clock::{instant_now, micros_since};

verus! {

/// The mood that the companion shows.
#[derive(Debug, Clone, Copy, PartialEq, Eq, Structural)]
pub enum PetMood {
    /// Waiting; the mood of a new machine.
    Idle,
    /// The user is focused.
    Happy,
    /// The user has been focused for a long time.
    Excited,
    /// The user is distracted.
    Sad,
    /// The user is away.
    Sleepy,
    /// Answering a gesture.
    Interact,
}

impl Default for PetMood {
    fn default() -> (mood: Self)
        ensures
            mood == PetMood::Idle,
    {
        PetMood::Idle
    }
}

/// How attentive the user is judged to be.
#[derive(Debug, Clone, Copy, PartialEq, Eq, Structural)]
pub enum FocusLevel {
    /// Nobody is there.
    Away,
    /// Somebody is there and not focused.
    Distracted,
    /// Somebody is there and focused.
    Focused,
}

impl Default for FocusLevel {
    fn default() -> (level: Self)
        ensures
            level == FocusLevel::Away,
    {
        FocusLevel::Away
    }
}

/// A gesture that the user made.
#[derive(Debug, Clone, Copy, PartialEq, Eq, Structural)]
pub enum GestureType {
    /// A waving hand.
    Wave,
    /// A heart shaped with the hands.
    Heart,
    /// The OK sign.
    Okay,
    /// A raised thumb.
    ThumbsUp,
}

/// Thresholds and durations of the mood machine.
///
/// Every field counts millionths: a threshold of 0.75 is `750_000`, five
/// seconds are `5_000_000` (that is, the durations in seconds are counts of
/// microseconds), and 25 minutes are `25_000_000`.
#[derive(Debug, Clone, Copy)]
pub struct PetStateConfig {
    /// Smoothed score above which the user becomes focused, in millionths.
    pub focus_enter_threshold: i64,
    /// Smoothed score below which the user stops being focused, in
    /// millionths.
    pub focus_exit_threshold: i64,
    /// Time for which a level is meant to hold before it is confirmed, in
    /// millionths of a second.
    pub focus_confirm_duration: u64,
    /// Unbroken focus after which the mood becomes excited, in millionths of
    /// a minute.
    pub excited_focus_minutes: u64,
    /// Time without a face after which the user counts as away, in
    /// millionths of a second.
    pub away_timeout: u64,
    /// Time for which a gesture holds the mood, in millionths of a second.
    pub interact_duration: u64,
}

/// The configuration that `default` returns.
pub open spec fn default_config() -> PetStateConfig {
    PetStateConfig {
        focus_enter_threshold: 750_000,
        focus_exit_threshold: 350_000,
        focus_confirm_duration: 3_000_000,
        excited_focus_minutes: 25_000_000,
        away_timeout: 5_000_000,
        interact_duration: 3_000_000,
    }
}

impl Default for PetStateConfig {
    fn default() -> (config: Self)
        ensures
            config == default_config(),
    {
        PetStateConfig {
            focus_enter_threshold: 750_000,
            focus_exit_threshold: 350_000,
            focus_confirm_duration: 3_000_000,
            excited_focus_minutes: 25_000_000,
            away_timeout: 5_000_000,
            interact_duration: 3_000_000,
        }
    }
}

/// Weight of the newest raw score in the smoothed score.
pub const EMA_ALPHA: i64 = 150_000;

/// Milliseconds of focus that one focused tick adds to the total.
pub const TICK_MS: u64 = 66;

/// Everything that a mood machine remembers.
pub struct MachineState {
    /// The current mood.
    pub mood: PetMood,
    /// The current focus level.
    pub focus_level: FocusLevel,
    /// Thresholds and durations.
    pub config: PetStateConfig,
    /// When the current mood was entered, in microseconds on the machine's
    /// clock.
    pub mood_entered_at: u64,
    /// When the current stretch of focus began, if the user is focused, in
    /// microseconds on the machine's clock.
    pub focus_started_at: Option<u64>,
    /// When a face was last seen, if ever, in microseconds on the machine's
    /// clock.
    pub last_face_detected_at: Option<u64>,
    /// The smoothed focus score, in millionths.
    pub smoothed_focus_score: i64,
    /// Weight of the newest raw score in the smoothed score, in millionths.
    pub ema_alpha: i64,
    /// The mood to return to when the gesture's time is over.
    pub mood_before_interact: Option<PetMood>,
    /// Total focus in milliseconds since the last daily reset.
    pub total_focus_ms: u64,
}

/// Time that has passed at `now` since `since`; none if `now` is earlier.
pub open spec fn elapsed(now: u64, since: u64) -> int {
    if now >= since {
        now - since
    } else {
        0
    }
}

/// The state of a new machine: idle and away, nothing seen, nothing counted.
pub open spec fn initial(config: PetStateConfig) -> MachineState {
    MachineState {
        mood: PetMood::Idle,
        focus_level: FocusLevel::Away,
        config,
        mood_entered_at: 0,
        focus_started_at: None,
        last_face_detected_at: None,
        smoothed_focus_score: 0,
        ema_alpha: EMA_ALPHA,
        mood_before_interact: None,
        total_focus_ms: 0,
    }
}

/// The smoothed score after a tick: `alpha` parts of the raw score and the
/// rest of the previous smoothed score, rounded down.
pub open spec fn ema(alpha: int, raw: int, smoothed: int) -> int {
    (alpha * raw + (UNIT - alpha) * smoothed) / (UNIT as int)
}

/// Microseconds of unbroken focus after which the mood becomes excited.
pub open spec fn excited_after(config: PetStateConfig) -> int {
    config.excited_focus_minutes * 60
}

/// The focus level that follows `level` at a smoothed score.  Focus is left
/// only below the exit threshold and entered only above the enter threshold.
pub open spec fn next_level(level: FocusLevel, smoothed: int, config: PetStateConfig) -> FocusLevel {
    match level {
        FocusLevel::Focused => if smoothed < config.focus_exit_threshold {
            FocusLevel::Distracted
        } else {
            FocusLevel::Focused
        },
        _ => if smoothed > config.focus_enter_threshold {
            FocusLevel::Focused
        } else {
            FocusLevel::Distracted
        },
    }
}

/// The total after one more focused tick, held at `u64::MAX`.
pub open spec fn add_tick(total: u64) -> u64 {
    if total + TICK_MS > u64::MAX {
        u64::MAX
    } else {
        (total + TICK_MS) as u64
    }
}

impl MachineState {
    /// The smoothed score and its weight lie in the unit interval.
    pub open spec fn wf(self) -> bool {
        in_unit(self.smoothed_focus_score as int) && in_unit(self.ema_alpha as int)
    }

    /// A machine remembers a mood to return to exactly while it is in the
    /// interact mood, that mood is not the interact mood itself, and a
    /// stretch of focus has a beginning exactly while the user is focused.
    pub open spec fn coherent(self) -> bool {
        &&& self.mood == PetMood::Interact <==> self.mood_before_interact is Some
        &&& self.mood_before_interact != Some(PetMood::Interact)
        &&& self.focus_level == FocusLevel::Focused <==> self.focus_started_at is Some
    }

    /// The state with `mood` as its mood, entered at `now` unless it is the
    /// mood already.
    pub open spec fn enter(self, mood: PetMood, now: u64) -> MachineState {
        if self.mood == mood {
            self
        } else {
            MachineState { mood, mood_entered_at: now, ..self }
        }
    }

    /// When a face was last seen, counting this tick.
    pub open spec fn last_seen(self, face_detected: bool, now: u64) -> Option<u64> {
        if face_detected {
            Some(now)
        } else {
            self.last_face_detected_at
        }
    }

    /// Whether the user counts as away at this tick: no face was ever seen,
    /// or the last one longer ago than the away timeout.
    pub open spec fn absent(self, face_detected: bool, now: u64) -> bool {
        match self.last_seen(face_detected, now) {
            None => true,
            Some(seen) => elapsed(now, seen) > self.config.away_timeout,
        }
    }

    /// The state after a tick on which the user counts as away: asleep and
    /// away, with no stretch of focus and no mood to return to.
    pub open spec fn fall_asleep(self, now: u64) -> MachineState {
        MachineState {
            focus_level: FocusLevel::Away,
            focus_started_at: None,
            mood_before_interact: None,
            ..self.enter(PetMood::Sleepy, now)
        }
    }

    /// The state after a tick in the interact mood: once the gesture's time
    /// is over the remembered mood returns, until then nothing changes.
    pub open spec fn finish_interact(self, now: u64) -> MachineState {
        if elapsed(now, self.mood_entered_at) > self.config.interact_duration {
            match self.mood_before_interact {
                Some(previous) => MachineState {
                    mood: previous,
                    mood_entered_at: now,
                    mood_before_interact: None,
                    ..self
                },
                None => self,
            }
        } else {
            self
        }
    }

    /// The state after a tick that is scored: the score is smoothed, the
    /// focus level follows it, and the mood follows the focus level.
    pub open spec fn score(self, raw_focus_score: i64, now: u64) -> MachineState {
        let smoothed = ema(
            self.ema_alpha as int,
            raw_focus_score as int,
            self.smoothed_focus_score as int,
        );
        let scored = MachineState { smoothed_focus_score: smoothed as i64, ..self };
        match next_level(self.focus_level, smoothed, self.config) {
            FocusLevel::Focused => {
                let focused = if self.focus_level != FocusLevel::Focused {
                    MachineState {
                        focus_started_at: Some(now),
                        focus_level: FocusLevel::Focused,
                        ..scored
                    }
                } else {
                    scored
                };
                match focused.focus_started_at {
                    Some(start) => {
                        let mood = if elapsed(now, start) >= excited_after(self.config) {
                            PetMood::Excited
                        } else {
                            PetMood::Happy
                        };
                        MachineState {
                            total_focus_ms: add_tick(self.total_focus_ms),
                            ..focused.enter(mood, now)
                        }
                    },
                    None => focused,
                }
            },
            FocusLevel::Distracted => MachineState {
                focus_level: FocusLevel::Distracted,
                focus_started_at: None,
                ..scored.enter(PetMood::Sad, now)
            },
            FocusLevel::Away => MachineState {
                focus_level: FocusLevel::Away,
                focus_started_at: None,
                ..scored.enter(PetMood::Sleepy, now)
            },
        }
    }

    /// The state after one tick at `now`.  The rules apply in this order:
    /// a face seen is recorded; an absent user puts the machine to sleep,
    /// whatever its mood; a machine in the interact mood waits for the
    /// gesture's time to be over; otherwise the tick is scored.
    pub open spec fn step(self, raw_focus_score: i64, face_detected: bool, now: u64) -> MachineState {
        let seen = MachineState {
            last_face_detected_at: self.last_seen(face_detected, now),
            ..self
        };
        if self.absent(face_detected, now) {
            seen.fall_asleep(now)
        } else if self.mood == PetMood::Interact {
            seen.finish_interact(now)
        } else {
            seen.score(raw_focus_score, now)
        }
    }

    /// The state after a gesture at `now`: the interact mood, entered at
    /// `now`, remembering the mood before unless that was the interact mood.
    pub open spec fn gesture(self, now: u64) -> MachineState {
        MachineState {
            mood: PetMood::Interact,
            mood_entered_at: now,
            mood_before_interact: if self.mood != PetMood::Interact {
                Some(self.mood)
            } else {
                self.mood_before_interact
            },
            ..self
        }
    }
}

/// What a tick reports: the new mood if it differs from the old one.
pub open spec fn mood_change(before: PetMood, after: PetMood) -> Option<PetMood> {
    if before != after {
        Some(after)
    } else {
        None
    }
}

/// The smoothed score stays in the unit interval.
pub proof fn lemma_ema_in_unit(alpha: int, raw: int, smoothed: int)
    requires
        in_unit(alpha),
        in_unit(raw),
        in_unit(smoothed),
    ensures
        in_unit(ema(alpha, raw, smoothed)),
        0 <= alpha * raw + (UNIT - alpha) * smoothed <= UNIT * UNIT,
{
    let beta = UNIT - alpha;
    assert(0 <= alpha * raw <= alpha * 1_000_000 && 0 <= beta * smoothed <= beta * 1_000_000)
        by (nonlinear_arith)
        requires
            0 <= alpha,
            0 <= beta,
            0 <= raw <= 1_000_000,
            0 <= smoothed <= 1_000_000,
    ;
}

/// Snapshot of a machine's counters for display.
#[derive(Debug, Clone, Copy)]
pub struct FocusStats {
    /// Total focus in milliseconds since the last daily reset.
    pub total_focus_ms: u64,
    /// The current mood.
    pub current_mood: PetMood,
    /// The current focus level.
    pub focus_level: FocusLevel,
    /// The smoothed focus score, in millionths.
    pub focus_score: i64,
}

/// The mood machine.
pub struct PetStateMachine {
    /// The current mood.
    pub mood: PetMood,
    /// The current focus level.
    pub focus_level: FocusLevel,
    config: PetStateConfig,
    mood_entered_at: u64,
    focus_started_at: Option<u64>,
    last_face_detected_at: Option<u64>,
    smoothed_focus_score: i64,
    ema_alpha: i64,
    mood_before_interact: Option<PetMood>,
    /// Total focus in milliseconds since the last daily reset.
    pub total_focus_ms: u64,
    epoch: Instant,
}

impl View for PetStateMachine {
    type V = MachineState;

    closed spec fn view(&self) -> MachineState {
        MachineState {
            mood: self.mood,
            focus_level: self.focus_level,
            config: self.config,
            mood_entered_at: self.mood_entered_at,
            focus_started_at: self.focus_started_at,
            last_face_detected_at: self.last_face_detected_at,
            smoothed_focus_score: self.smoothed_focus_score,
            ema_alpha: self.ema_alpha,
            mood_before_interact: self.mood_before_interact,
            total_focus_ms: self.total_focus_ms,
        }
    }
}

impl PetStateMachine {
    /// A new machine, whose clock starts now.
    pub fn new(config: PetStateConfig) -> (machine: Self)
        ensures
            machine@ == initial(config),
            machine@.wf(),
            machine@.coherent(),
    {
        PetStateMachine {
            mood: PetMood::Idle,
            focus_level: FocusLevel::Away,
            config,
            mood_entered_at: 0,
            focus_started_at: None,
            last_face_detected_at: None,
            smoothed_focus_score: 0,
            ema_alpha: EMA_ALPHA,
            mood_before_interact: None,
            total_focus_ms: 0,
            epoch: instant_now(),
        }
    }

    /// Takes one tick at the present reading of the machine's clock.
    pub fn update(&mut self, raw_focus_score: i64, face_detected: bool) -> (changed: Option<
        PetMood,
    >)
        requires
            old(self)@.wf(),
            in_unit(raw_focus_score as int),
        ensures
            exists|now: u64|
                final(self)@ == old(self)@.step(raw_focus_score, face_detected, now),
            changed == mood_change(old(self)@.mood, final(self)@.mood),
            final(self)@.wf(),
            old(self)@.coherent() ==> final(self)@.coherent(),
    {
        let now = micros_since(&self.epoch);
        self.update_at(raw_focus_score, face_detected, now)
    }

    /// Takes one tick at `now`.  Returns the new mood if it changed.
    pub fn update_at(&mut self, raw_focus_score: i64, face_detected: bool, now: u64) -> (changed:
        Option<PetMood>)
        requires
            old(self)@.wf(),
            in_unit(raw_focus_score as int),
        ensures
            final(self)@ == old(self)@.step(raw_focus_score, face_detected, now),
            changed == mood_change(old(self)@.mood, final(self)@.mood),
            final(self)@.wf(),
            old(self)@.coherent() ==> final(self)@.coherent(),
    {
        let old_mood = self.mood;
        if face_detected {
            self.last_face_detected_at = Some(now);
        }
        let away = match self.last_face_detected_at {
            Some(seen) => now >= seen && now - seen > self.config.away_timeout,
            None => true,
        };
        if away {
            self.transition_to(PetMood::Sleepy, now);
            self.focus_level = FocusLevel::Away;
            self.focus_started_at = None;
            self.mood_before_interact = None;
            return if old_mood != self.mood {
                Some(self.mood)
            } else {
                None
            };
        }
        if self.mood == PetMood::Interact {
            if now >= self.mood_entered_at && now - self.mood_entered_at
                > self.config.interact_duration {
                match self.mood_before_interact {
                    Some(previous) => {
                        self.mood = previous;
                        self.mood_entered_at = now;
                        self.mood_before_interact = None;
                    },
                    None => {},
                }
            }
            return if old_mood != self.mood {
                Some(self.mood)
            } else {
                None
            };
        }
        proof {
            lemma_ema_in_unit(
                self.ema_alpha as int,
                raw_focus_score as int,
                self.smoothed_focus_score as int,
            );
        }
        self.smoothed_focus_score = (self.ema_alpha * raw_focus_score + (UNIT - self.ema_alpha)
            * self.smoothed_focus_score) / UNIT;
        match self.determine_focus_level() {
            FocusLevel::Focused => {
                if self.focus_level != FocusLevel::Focused {
                    self.focus_started_at = Some(now);
                    self.focus_level = FocusLevel::Focused;
                }
                match self.focus_started_at {
                    Some(start) => {
                        let focused_for: u64 = if now >= start {
                            now - start
                        } else {
                            0
                        };
                        let needed: u128 = (self.config.excited_focus_minutes as u128) * 60;
                        if focused_for as u128 >= needed {
                            self.transition_to(PetMood::Excited, now);
                        } else {
                            self.transition_to(PetMood::Happy, now);
                        }
                        self.total_focus_ms = if self.total_focus_ms > u64::MAX - TICK_MS {
                            u64::MAX
                        } else {
                            self.total_focus_ms + TICK_MS
                        };
                    },
                    None => {},
                }
            },
            FocusLevel::Distracted => {
                self.focus_level = FocusLevel::Distracted;
                self.focus_started_at = None;
                self.transition_to(PetMood::Sad, now);
            },
            FocusLevel::Away => {
                self.focus_level = FocusLevel::Away;
                self.focus_started_at = None;
                self.transition_to(PetMood::Sleepy, now);
            },
        }
        if old_mood != self.mood {
            Some(self.mood)
        } else {
            None
        }
    }

    /// Answers a gesture at the present reading of the machine's clock.
    pub fn on_gesture(&mut self, gesture: GestureType) -> (mood: PetMood)
        ensures
            exists|now: u64| final(self)@ == old(self)@.gesture(now),
            mood == PetMood::Interact,
            old(self)@.wf() ==> final(self)@.wf(),
            old(self)@.coherent() ==> final(self)@.coherent(),
    {
        let now = micros_since(&self.epoch);
        self.on_gesture_at(gesture, now)
    }

    /// Answers a gesture at `now`: the machine enters the interact mood and
    /// remembers the mood it had.
    pub fn on_gesture_at(&mut self, gesture: GestureType, now: u64) -> (mood: PetMood)
        ensures
            final(self)@ == old(self)@.gesture(now),
            mood == PetMood::Interact,
            old(self)@.wf() ==> final(self)@.wf(),
            old(self)@.coherent() ==> final(self)@.coherent(),
    {
        if self.mood != PetMood::Interact {
            self.mood_before_interact = Some(self.mood);
        }
        self.mood = PetMood::Interact;
        self.mood_entered_at = now;
        self.mood
    }

    /// The focus level that follows from the smoothed score.
    fn determine_focus_level(&self) -> (level: FocusLevel)
        ensures
            level == next_level(self.focus_level, self.smoothed_focus_score as int, self.config),
    {
        let score = self.smoothed_focus_score;
        match self.focus_level {
            FocusLevel::Focused => {
                if score < self.config.focus_exit_threshold {
                    FocusLevel::Distracted
                } else {
                    FocusLevel::Focused
                }
            },
            FocusLevel::Distracted | FocusLevel::Away => {
                if score > self.config.focus_enter_threshold {
                    FocusLevel::Focused
                } else {
                    FocusLevel::Distracted
                }
            },
        }
    }

    /// Enters `new_mood` at `now` unless it is the mood already.
    fn transition_to(&mut self, new_mood: PetMood, now: u64)
        ensures
            final(self)@ == old(self)@.enter(new_mood, now),
    {
        if self.mood != new_mood {
            self.mood = new_mood;
            self.mood_entered_at = now;
        }
    }

    /// The machine's counters.
    pub fn get_focus_stats(&self) -> (stats: FocusStats)
        ensures
            stats.total_focus_ms == self@.total_focus_ms,
            stats.current_mood == self@.mood,
            stats.focus_level == self@.focus_level,
            stats.focus_score == self@.smoothed_focus_score,
    {
        FocusStats {
            total_focus_ms: self.total_focus_ms,
            current_mood: self.mood,
            focus_level: self.focus_level,
            focus_score: self.smoothed_focus_score,
        }
    }

    /// Sets the total focus back to zero and leaves everything else as it is.
    pub fn reset_daily_stats(&mut self)
        ensures
            final(self)@ == (MachineState { total_focus_ms: 0, ..old(self)@ }),
    {
        self.total_focus_ms = 0;
    }
}

} // verus!
