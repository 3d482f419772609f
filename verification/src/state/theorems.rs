//! What holds of every run of the mood machine.

use vstd::prelude::*;
use crate::fixed::{in_unit, UNIT};
use crate::state::pet_state::{
    default_config, elapsed, ema, excited_after, initial, lemma_ema_in_unit, next_level,
    FocusLevel, MachineState, PetMood, EMA_ALPHA,
};

verus! {

/// One tick: a raw score, whether a face was seen, and the time.
pub struct Tick {
    /// The raw focus score.
    pub raw_focus_score: i64,
    /// Whether a face was seen.
    pub face_detected: bool,
    /// The time of the tick.
    pub now: u64,
}

/// The state after the ticks of `ticks`, taken in order.
pub open spec fn run(s: MachineState, ticks: Seq<Tick>) -> MachineState
    decreases ticks.len(),
{
    if ticks.len() == 0 {
        s
    } else {
        let t = ticks.last();
        run(s, ticks.drop_last()).step(t.raw_focus_score, t.face_detected, t.now)
    }
}

/// Whether time does not run backwards from one tick to the next.
pub open spec fn in_time_order(ticks: Seq<Tick>) -> bool {
    forall|i: int, j: int| 0 <= i <= j < ticks.len() ==> ticks[i].now <= ticks[j].now
}

/// A tick keeps the smoothed score in the unit interval.
pub proof fn lemma_step_keeps_wf(s: MachineState, raw: i64, face: bool, now: u64)
    requires
        s.wf(),
        in_unit(raw as int),
    ensures
        s.step(raw, face, now).wf(),
{
    lemma_ema_in_unit(s.ema_alpha as int, raw as int, s.smoothed_focus_score as int);
}

/// Ticks and gestures keep a machine coherent: it remembers a mood to return
/// to exactly while it is in the interact mood, and a stretch of focus has a
/// beginning exactly while the user is focused.
pub proof fn lemma_coherence_kept(s: MachineState, raw: i64, face: bool, now: u64)
    requires
        s.coherent(),
    ensures
        s.step(raw, face, now).coherent(),
        s.gesture(now).coherent(),
{
}

/// On a tick at which the user counts as away the machine falls asleep,
/// whatever its mood was, the interact mood included, and it forgets the mood
/// that it would have returned to.
pub proof fn lemma_absence_sleeps(s: MachineState, raw: i64, face: bool, now: u64)
    requires
        s.absent(face, now),
    ensures
        s.step(raw, face, now).mood == PetMood::Sleepy,
        s.step(raw, face, now).focus_level == FocusLevel::Away,
        s.step(raw, face, now).focus_started_at is None,
        s.step(raw, face, now).mood_before_interact is None,
{
}

/// Once the user counts as away, ticks without a face keep the machine
/// asleep for as long as time does not run backwards.
pub proof fn lemma_absence_lasts(s: MachineState, ticks: Seq<Tick>)
    requires
        ticks.len() > 0,
        in_time_order(ticks),
        forall|i: int| 0 <= i < ticks.len() ==> !(#[trigger] ticks[i]).face_detected,
        s.absent(false, ticks[0].now),
    ensures
        run(s, ticks).mood == PetMood::Sleepy,
        run(s, ticks).focus_level == FocusLevel::Away,
        run(s, ticks).last_face_detected_at == s.last_face_detected_at,
        run(s, ticks).config == s.config,
    decreases ticks.len(),
{
    let t = ticks.last();
    let before = run(s, ticks.drop_last());
    if ticks.len() == 1 {
        assert(ticks.drop_last().len() == 0);
        assert(before == s);
    } else {
        let front = ticks.drop_last();
        assert(front[0] == ticks[0]);
        assert forall|i: int, j: int| 0 <= i <= j < front.len() implies front[i].now
            <= front[j].now by {
            assert(front[i] == ticks[i] && front[j] == ticks[j]);
        }
        assert forall|i: int| 0 <= i < front.len() implies !(#[trigger] front[i]).face_detected by {
            assert(front[i] == ticks[i]);
        }
        lemma_absence_lasts(s, front);
    }
    assert(ticks[0].now <= ticks[ticks.len() - 1].now);
    assert(!t.face_detected);
    assert(before.absent(false, t.now));
}

/// A tick that finds the user still focused, after the stretch of focus has
/// lasted as long as the configuration asks, makes the machine excited.
pub proof fn lemma_long_focus_excites(s: MachineState, raw: i64, face: bool, now: u64, start: u64)
    requires
        !s.absent(face, now),
        s.mood != PetMood::Interact,
        s.focus_level == FocusLevel::Focused,
        s.focus_started_at == Some(start),
        ema(s.ema_alpha as int, raw as int, s.smoothed_focus_score as int)
            >= s.config.focus_exit_threshold,
        elapsed(now, start) >= excited_after(s.config),
    ensures
        s.step(raw, face, now).mood == PetMood::Excited,
        s.step(raw, face, now).focus_level == FocusLevel::Focused,
{
}

/// Whether the user is focused after every one of the ticks.
pub open spec fn stays_focused(s: MachineState, ticks: Seq<Tick>) -> bool
    decreases ticks.len(),
{
    ticks.len() == 0 || (stays_focused(s, ticks.drop_last()) && run(s, ticks).focus_level
        == FocusLevel::Focused)
}

/// Whether every tick sees a face.
pub open spec fn face_in_view(ticks: Seq<Tick>) -> bool {
    forall|i: int| 0 <= i < ticks.len() ==> (#[trigger] ticks[i]).face_detected
}

/// While the user stays focused with the face in view, the stretch of focus
/// keeps its beginning.
pub proof fn lemma_focus_keeps_its_beginning(s: MachineState, ticks: Seq<Tick>, start: u64)
    requires
        s.mood != PetMood::Interact,
        s.focus_level == FocusLevel::Focused,
        s.focus_started_at == Some(start),
        face_in_view(ticks),
        stays_focused(s, ticks),
    ensures
        run(s, ticks).mood != PetMood::Interact,
        run(s, ticks).focus_level == FocusLevel::Focused,
        run(s, ticks).focus_started_at == Some(start),
        run(s, ticks).config == s.config,
        ticks.len() > 0 ==> (run(s, ticks).mood == PetMood::Excited <==> elapsed(
            ticks.last().now,
            start,
        ) >= excited_after(s.config)),
    decreases ticks.len(),
{
    if ticks.len() > 0 {
        let front = ticks.drop_last();
        let t = ticks.last();
        assert forall|i: int| 0 <= i < front.len() implies (#[trigger] front[i]).face_detected by {
            assert(front[i] == ticks[i]);
        }
        lemma_focus_keeps_its_beginning(s, front, start);
        let before = run(s, front);
        assert(!before.absent(t.face_detected, t.now));
    }
}

/// Unbroken focus that has lasted as long as the configuration asks makes
/// the machine excited: if the user is focused after every tick of a run
/// with the face in view, and the last tick comes that long after the
/// stretch of focus began, the run ends in the excited mood.
pub proof fn lemma_unbroken_focus_excites(s: MachineState, ticks: Seq<Tick>, start: u64)
    requires
        s.mood != PetMood::Interact,
        s.focus_level == FocusLevel::Focused,
        s.focus_started_at == Some(start),
        ticks.len() > 0,
        face_in_view(ticks),
        stays_focused(s, ticks),
        elapsed(ticks.last().now, start) >= excited_after(s.config),
    ensures
        run(s, ticks).mood == PetMood::Excited,
        run(s, ticks).focus_level == FocusLevel::Focused,
{
    lemma_focus_keeps_its_beginning(s, ticks, start);
}

/// A gesture puts the machine into the interact mood at once.  A later tick
/// at which the user is not away leaves that mood alone until the gesture's
/// time is over, and then brings back the mood from before the gesture.
pub proof fn lemma_gesture_holds_then_reverts(
    s: MachineState,
    at: u64,
    raw: i64,
    face: bool,
    now: u64,
)
    requires
        s.mood != PetMood::Interact,
        !s.gesture(at).absent(face, now),
    ensures
        s.gesture(at).mood == PetMood::Interact,
        elapsed(now, at) > s.config.interact_duration ==> s.gesture(at).step(raw, face, now).mood
            == s.mood,
        elapsed(now, at) <= s.config.interact_duration ==> s.gesture(at).step(raw, face, now).mood
            == PetMood::Interact,
{
}

/// A second gesture during the interact mood restarts its time and keeps the
/// mood to return to.
pub proof fn lemma_gesture_again(s: MachineState, first: u64, second: u64)
    requires
        s.mood != PetMood::Interact,
    ensures
        s.gesture(first).gesture(second).mood_before_interact == Some(s.mood),
        s.gesture(first).gesture(second).mood_entered_at == second,
{
}

/// The least that the smoothed score of a new machine can be after `n`
/// ticks with a raw score of 0.9 or more.
pub open spec fn smoothed_floor(n: nat) -> int
    decreases n,
{
    if n == 0 {
        0
    } else {
        ema(EMA_ALPHA as int, 900_000, smoothed_floor((n - 1) as nat))
    }
}

/// Whether every tick sees a face and carries a raw score of 0.9 or more.
pub open spec fn attentive(ticks: Seq<Tick>) -> bool {
    forall|i: int|
        0 <= i < ticks.len() ==> (#[trigger] ticks[i]).face_detected && 900_000
            <= ticks[i].raw_focus_score <= UNIT
}

/// The smoothed score does not fall when the raw score or the score before
/// rises.
pub proof fn lemma_ema_monotone(alpha: int, raw: int, smoothed: int, more: int, higher: int)
    requires
        in_unit(alpha),
        raw <= more,
        smoothed <= higher,
    ensures
        ema(alpha, raw, smoothed) <= ema(alpha, more, higher),
{
    let beta = UNIT - alpha;
    assert(alpha * raw <= alpha * more && beta * smoothed <= beta * higher) by (nonlinear_arith)
        requires
            0 <= alpha,
            0 <= beta,
            raw <= more,
            smoothed <= higher,
    ;
    vstd::arithmetic::div_mod::lemma_div_is_ordered(
        alpha * raw + beta * smoothed,
        alpha * more + beta * higher,
        UNIT as int,
    );
}

/// From the twelfth tick on, the floor of the smoothed score lies above the
/// default threshold for entering focus.
pub proof fn lemma_smoothed_floor(n: nat)
    ensures
        0 <= smoothed_floor(n) <= UNIT,
        n >= 12 ==> smoothed_floor(n) >= 771_980,
    decreases n,
{
    reveal_with_fuel(smoothed_floor, 13);
    if n <= 12 {
        assert(smoothed_floor(1) == 135_000);
        assert(smoothed_floor(2) == 249_750);
        assert(smoothed_floor(3) == 347_287);
        assert(smoothed_floor(4) == 430_193);
        assert(smoothed_floor(5) == 500_664);
        assert(smoothed_floor(6) == 560_564);
        assert(smoothed_floor(7) == 611_479);
        assert(smoothed_floor(8) == 654_757);
        assert(smoothed_floor(9) == 691_543);
        assert(smoothed_floor(10) == 722_811);
        assert(smoothed_floor(11) == 749_389);
        assert(smoothed_floor(12) == 771_980);
    } else {
        lemma_smoothed_floor((n - 1) as nat);
        lemma_ema_in_unit(EMA_ALPHA as int, 900_000, smoothed_floor((n - 1) as nat));
        lemma_ema_monotone(EMA_ALPHA as int, 900_000, 771_980, 900_000, smoothed_floor((n - 1) as nat));
    }
}

/// While every tick sees a face and no gesture is made, a machine that
/// started new is never away and never in the interact mood, and its smoothed
/// score is at least the floor.
pub proof fn lemma_attentive_run(ticks: Seq<Tick>)
    requires
        attentive(ticks),
    ensures
        run(initial(default_config()), ticks).wf(),
        run(initial(default_config()), ticks).coherent(),
        run(initial(default_config()), ticks).config == default_config(),
        run(initial(default_config()), ticks).ema_alpha == EMA_ALPHA,
        run(initial(default_config()), ticks).mood != PetMood::Interact,
        run(initial(default_config()), ticks).smoothed_focus_score >= smoothed_floor(ticks.len()),
        ticks.len() >= 12 ==> run(initial(default_config()), ticks).focus_level
            == FocusLevel::Focused && (run(initial(default_config()), ticks).mood == PetMood::Happy
            || run(initial(default_config()), ticks).mood == PetMood::Excited),
    decreases ticks.len(),
{
    let start = initial(default_config());
    if ticks.len() > 0 {
        let front = ticks.drop_last();
        let t = ticks.last();
        assert forall|i: int| 0 <= i < front.len() implies (#[trigger] front[i]).face_detected
            && 900_000 <= front[i].raw_focus_score <= UNIT by {
            assert(front[i] == ticks[i]);
        }
        lemma_attentive_run(front);
        let before = run(start, front);
        let after = before.step(t.raw_focus_score, t.face_detected, t.now);
        assert(after == run(start, ticks));
        assert(!before.absent(true, t.now));
        let smoothed = ema(
            EMA_ALPHA as int,
            t.raw_focus_score as int,
            before.smoothed_focus_score as int,
        );
        lemma_ema_in_unit(
            EMA_ALPHA as int,
            t.raw_focus_score as int,
            before.smoothed_focus_score as int,
        );
        lemma_smoothed_floor(front.len());
        lemma_smoothed_floor(ticks.len());
        lemma_ema_monotone(
            EMA_ALPHA as int,
            900_000,
            smoothed_floor(front.len()),
            t.raw_focus_score as int,
            before.smoothed_focus_score as int,
        );
        assert(smoothed >= smoothed_floor(ticks.len()));
        assert(after.smoothed_focus_score == smoothed);
        lemma_coherence_kept(before, t.raw_focus_score, t.face_detected, t.now);
        if ticks.len() >= 12 {
            assert(smoothed > 750_000);
            assert(next_level(before.focus_level, smoothed, before.config) == FocusLevel::Focused);
        }
    }
}

/// Twelve or more ticks in a row that see a face and carry a raw score of
/// 0.9 or more take a new machine with the default configuration to focus:
/// its level is focused and its mood happy or excited.
pub proof fn lemma_steady_attention_focuses(ticks: Seq<Tick>)
    requires
        ticks.len() >= 12,
        attentive(ticks),
    ensures
        run(initial(default_config()), ticks).focus_level == FocusLevel::Focused,
        run(initial(default_config()), ticks).mood == PetMood::Happy || run(
            initial(default_config()),
            ticks,
        ).mood == PetMood::Excited,
{
    lemma_attentive_run(ticks);
}

} // verus!
