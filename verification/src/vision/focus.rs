//! Focus scoring: how attentive a detected face looks.
//!
//! Five sub-scores in the unit interval are combined by a weighted sum:
//! the detection's confidence, one score each for yaw, pitch and roll that
//! falls from one to zero as the angle approaches its tolerance, and one for
//! how close the face's area is to the ideal.

use vstd::prelude::*;
use crate::fixed::{clamp_unit, in_unit, lemma_quot_monotone, magnitude, quot, UNIT};
use crate::vision::face::FaceDetection;

verus! {

/// Weights, tolerances and thresholds of the focus score.
///
/// Every field counts millionths: a weight of 0.3 is `300_000`, and a
/// tolerance of 30 degrees is `30_000_000`.
#[derive(Clone, Copy, Debug)]
pub struct FocusCalculatorConfig {
    /// Weight of the detection's confidence.
    pub face_confidence_weight: i64,
    /// Weight of the yaw score.
    pub yaw_weight: i64,
    /// Weight of the pitch score.
    pub pitch_weight: i64,
    /// Weight of the roll score.
    pub roll_weight: i64,
    /// Yaw at which the yaw score reaches zero, in millionths of a degree.
    pub max_yaw: i64,
    /// Pitch at which the pitch score reaches zero, in millionths of a
    /// degree.
    pub max_pitch: i64,
    /// Roll at which the roll score reaches zero, in millionths of a degree.
    pub max_roll: i64,
    /// Confidence below which a detection does not count as a face, in
    /// millionths.
    pub min_face_confidence: i64,
    /// Weight of the size score.
    pub face_size_weight: i64,
    /// Area of the face that scores best, in millionths of the frame.
    pub ideal_face_size: i64,
}

/// The configuration that `default` returns.
pub open spec fn default_config() -> FocusCalculatorConfig {
    FocusCalculatorConfig {
        face_confidence_weight: 300_000,
        yaw_weight: 250_000,
        pitch_weight: 200_000,
        roll_weight: 100_000,
        max_yaw: 30_000_000,
        max_pitch: 25_000_000,
        max_roll: 20_000_000,
        min_face_confidence: 500_000,
        face_size_weight: 150_000,
        ideal_face_size: 150_000,
    }
}

impl Default for FocusCalculatorConfig {
    fn default() -> (config: Self)
        ensures
            config == default_config(),
    {
        FocusCalculatorConfig {
            face_confidence_weight: 300_000,
            yaw_weight: 250_000,
            pitch_weight: 200_000,
            roll_weight: 100_000,
            max_yaw: 30_000_000,
            max_pitch: 25_000_000,
            max_roll: 20_000_000,
            min_face_confidence: 500_000,
            face_size_weight: 150_000,
            ideal_face_size: 150_000,
        }
    }
}

/// Score of an angle against its tolerance: one at zero degrees, falling
/// linearly to zero at the tolerance and beyond.  A tolerance that is not
/// positive tolerates nothing.
pub open spec fn deviation_score(angle: int, tolerance: int) -> int {
    if tolerance <= 0 || magnitude(angle) >= tolerance {
        0
    } else {
        UNIT - magnitude(angle) * UNIT / tolerance
    }
}

/// Score of an area against the ideal: one at the ideal, falling linearly to
/// zero at twice the ideal, at no area, and beyond.  An ideal that is not
/// positive is never met.
pub open spec fn size_score(area: int, ideal: int) -> int {
    if ideal <= 0 || magnitude(area - ideal) >= ideal {
        0
    } else {
        UNIT - magnitude(area - ideal) * UNIT / ideal
    }
}

/// The weighted sum of the five sub-scores, before it is limited to the unit
/// interval.
pub open spec fn weighted_sum(config: FocusCalculatorConfig, face: FaceDetection, roll: int) -> int {
    config.face_confidence_weight * face.confidence + config.yaw_weight * deviation_score(
        face.spec_yaw(),
        config.max_yaw as int,
    ) + config.pitch_weight * deviation_score(face.spec_pitch(), config.max_pitch as int)
        + config.roll_weight * deviation_score(roll, config.max_roll as int)
        + config.face_size_weight * size_score(face.spec_size(), config.ideal_face_size as int)
}

/// The focus score of a face whose confidence reaches the minimum.
pub open spec fn focus_score(config: FocusCalculatorConfig, face: FaceDetection, roll: int) -> int {
    clamp_unit(quot(weighted_sum(config, face, roll), UNIT as int))
}

/// Score and presence for one detection cycle.  Without a detection, or with
/// one whose confidence is below the minimum, the score is zero and no face
/// is present.
pub open spec fn spec_calculate(
    config: FocusCalculatorConfig,
    detection: Option<FaceDetection>,
    roll: int,
) -> (int, bool) {
    match detection {
        None => (0, false),
        Some(face) => if face.confidence < config.min_face_confidence {
            (0, false)
        } else {
            (focus_score(config, face, roll), true)
        },
    }
}

/// The sub-scores lie in the unit interval.
pub proof fn lemma_sub_scores_in_unit(value: int, reference: int)
    ensures
        in_unit(deviation_score(value, reference)),
        in_unit(size_score(value, reference)),
{
    lemma_ratio_below_unit(magnitude(value), reference);
    lemma_ratio_below_unit(magnitude(value - reference), reference);
}

/// A part of a whole is less than one.
pub proof fn lemma_ratio_below_unit(part: int, whole: int)
    requires
        0 <= part,
    ensures
        part < whole ==> 0 <= part * UNIT / whole < UNIT,
{
    if part < whole {
        let n = part * UNIT;
        assert(n == part * 1_000_000);
        vstd::arithmetic::div_mod::lemma_fundamental_div_mod(n, whole);
        let q = n / whole;
        assert(0 <= n % whole < whole);
        assert(0 <= q < 1_000_000) by (nonlinear_arith)
            requires
                n == whole * q + n % whole,
                0 <= n % whole < whole,
                n == part * 1_000_000,
                0 <= part < whole,
        ;
    }
}

/// The score of an angle does not rise as the angle grows.
pub proof fn lemma_deviation_monotone(angle: int, wider: int, tolerance: int)
    requires
        magnitude(angle) <= magnitude(wider),
    ensures
        deviation_score(angle, tolerance) >= deviation_score(wider, tolerance),
{
    lemma_sub_scores_in_unit(angle, tolerance);
    if tolerance > 0 && magnitude(wider) < tolerance {
        let a = magnitude(angle) * UNIT;
        let b = magnitude(wider) * UNIT;
        assert(a <= b) by (nonlinear_arith)
            requires
                a == magnitude(angle) * UNIT,
                b == magnitude(wider) * UNIT,
                magnitude(angle) <= magnitude(wider),
        ;
        vstd::arithmetic::div_mod::lemma_div_is_ordered(a, b, tolerance);
    }
}

/// A face that is turned further scores no higher.  Of two faces with the
/// same confidence and the same area, the one whose yaw, pitch and roll are
/// each no smaller in magnitude has no higher focus score, as long as the
/// weights of the three angles are not negative.
pub proof fn lemma_turning_away_lowers_score(
    config: FocusCalculatorConfig,
    straight: FaceDetection,
    straight_roll: int,
    turned: FaceDetection,
    turned_roll: int,
)
    requires
        config.yaw_weight >= 0,
        config.pitch_weight >= 0,
        config.roll_weight >= 0,
        straight.confidence == turned.confidence,
        straight.spec_size() == turned.spec_size(),
        magnitude(straight.spec_yaw()) <= magnitude(turned.spec_yaw()),
        magnitude(straight.spec_pitch()) <= magnitude(turned.spec_pitch()),
        magnitude(straight_roll) <= magnitude(turned_roll),
    ensures
        focus_score(config, straight, straight_roll) >= focus_score(config, turned, turned_roll),
        spec_calculate(config, Some(straight), straight_roll).0 >= spec_calculate(
            config,
            Some(turned),
            turned_roll,
        ).0,
        spec_calculate(config, Some(straight), straight_roll).1 == spec_calculate(
            config,
            Some(turned),
            turned_roll,
        ).1,
{
    let yaw_high = deviation_score(straight.spec_yaw(), config.max_yaw as int);
    let yaw_low = deviation_score(turned.spec_yaw(), config.max_yaw as int);
    let pitch_high = deviation_score(straight.spec_pitch(), config.max_pitch as int);
    let pitch_low = deviation_score(turned.spec_pitch(), config.max_pitch as int);
    let roll_high = deviation_score(straight_roll, config.max_roll as int);
    let roll_low = deviation_score(turned_roll, config.max_roll as int);
    lemma_deviation_monotone(straight.spec_yaw(), turned.spec_yaw(), config.max_yaw as int);
    lemma_deviation_monotone(straight.spec_pitch(), turned.spec_pitch(), config.max_pitch as int);
    lemma_deviation_monotone(straight_roll, turned_roll, config.max_roll as int);
    let wy = config.yaw_weight as int;
    let wp = config.pitch_weight as int;
    let wr = config.roll_weight as int;
    assert(wy * yaw_high >= wy * yaw_low && wp * pitch_high >= wp * pitch_low && wr * roll_high
        >= wr * roll_low) by (nonlinear_arith)
        requires
            wy >= 0,
            wp >= 0,
            wr >= 0,
            yaw_high >= yaw_low,
            pitch_high >= pitch_low,
            roll_high >= roll_low,
    ;
    assert(weighted_sum(config, straight, straight_roll) >= weighted_sum(
        config,
        turned,
        turned_roll,
    ));
    lemma_quot_monotone(
        weighted_sum(config, turned, turned_roll),
        weighted_sum(config, straight, straight_roll),
        UNIT as int,
    );
}

/// With the default configuration, a face that is detected with a confidence
/// of at least 0.9 and is turned by no more than a tenth of each tolerance
/// scores above 0.6, whatever its size.
pub proof fn lemma_attentive_face_scores_high(face: FaceDetection, roll: int)
    requires
        face.wf(),
        face.confidence >= 900_000,
        magnitude(face.spec_yaw()) <= 3_000_000,
        magnitude(face.spec_pitch()) <= 2_500_000,
        magnitude(roll) <= 2_000_000,
    ensures
        spec_calculate(default_config(), Some(face), roll).1,
        spec_calculate(default_config(), Some(face), roll).0 > 600_000,
{
    let config = default_config();
    let yaw = deviation_score(face.spec_yaw(), config.max_yaw as int);
    let pitch = deviation_score(face.spec_pitch(), config.max_pitch as int);
    let turn = deviation_score(roll, config.max_roll as int);
    let size = size_score(face.spec_size(), config.ideal_face_size as int);
    lemma_sub_scores_in_unit(face.spec_size(), config.ideal_face_size as int);
    assert(yaw >= 900_000);
    assert(pitch >= 900_000);
    assert(turn >= 900_000);
    assert(weighted_sum(config, face, roll) == 300_000 * face.confidence + 250_000 * yaw + 200_000
        * pitch + 100_000 * turn + 150_000 * size);
    assert(weighted_sum(config, face, roll) >= 765_000 * 1_000_000);
}

/// Computes the focus score.
pub struct FocusCalculator {
    config: FocusCalculatorConfig,
}

impl FocusCalculator {
    /// The configuration that this calculator scores with.
    pub closed spec fn config(&self) -> FocusCalculatorConfig {
        self.config
    }

    /// A calculator with the given configuration.
    pub fn new(config: FocusCalculatorConfig) -> (calculator: Self)
        ensures
            calculator.config() == config,
    {
        FocusCalculator { config }
    }

    /// A calculator with the default configuration.
    pub fn with_defaults() -> (calculator: Self)
        ensures
            calculator.config() == default_config(),
    {
        Self::new(FocusCalculatorConfig::default())
    }

    /// Score of `value` against `reference`, where `value` is an angle and
    /// `reference` its tolerance.
    fn deviation(value: i64, reference: i64) -> (score: i64)
        ensures
            score == deviation_score(value as int, reference as int),
            in_unit(score as int),
    {
        proof {
            lemma_sub_scores_in_unit(value as int, reference as int);
        }
        if reference <= 0 {
            return 0;
        }
        let wide: i128 = value as i128;
        let size: i128 = if wide < 0 { -wide } else { wide };
        if size >= reference as i128 {
            return 0;
        }
        assert(size * 1_000_000 <= 0x7fff_ffff_ffff_ffff * 1_000_000) by (nonlinear_arith)
            requires
                0 <= size <= 0x7fff_ffff_ffff_ffff,
        ;
        let ratio: i128 = size * (UNIT as i128) / (reference as i128);
        (UNIT as i128 - ratio) as i64
    }

    /// Score of an area against the ideal area.
    fn closeness(area: i64, ideal: i64) -> (score: i64)
        requires
            -UNIT <= area <= UNIT,
        ensures
            score == size_score(area as int, ideal as int),
            in_unit(score as int),
    {
        proof {
            lemma_sub_scores_in_unit(area as int, ideal as int);
        }
        if ideal <= 0 {
            return 0;
        }
        let gap: i128 = area as i128 - ideal as i128;
        let size: i128 = if gap < 0 { -gap } else { gap };
        if size >= ideal as i128 {
            return 0;
        }
        assert(size * 1_000_000 <= 0x7fff_ffff_ffff_ffff * 1_000_000) by (nonlinear_arith)
            requires
                0 <= size <= 0x7fff_ffff_ffff_ffff,
        ;
        let ratio: i128 = size * (UNIT as i128) / (ideal as i128);
        (UNIT as i128 - ratio) as i64
    }

    /// One term of the weighted sum.
    fn weighted(weight: i64, score: i64) -> (term: i128)
        requires
            in_unit(score as int),
        ensures
            term == weight * score,
            -0x8000_0000_0000_0000 * 1_000_000 <= term <= 0x8000_0000_0000_0000 * 1_000_000,
    {
        let w: i128 = weight as i128;
        let s: i128 = score as i128;
        assert(-0x8000_0000_0000_0000 * 1_000_000 <= w * s <= 0x8000_0000_0000_0000 * 1_000_000)
            by (nonlinear_arith)
            requires
                -0x8000_0000_0000_0000 <= w <= 0x7fff_ffff_ffff_ffff,
                0 <= s <= 1_000_000,
        ;
        w * s
    }

    /// Scores one detection cycle.
    ///
    /// `roll` is the roll of the detected head in millionths of a degree; it
    /// is not looked at when there is no detection or its confidence is below
    /// the minimum.
    pub fn calculate(&self, detection: Option<&FaceDetection>, roll: i64) -> (result: (i64, bool))
        requires
            detection is Some ==> detection.unwrap().wf(),
        ensures
            result.0 == spec_calculate(
                self.config(),
                match detection {
                    Some(face) => Some(*face),
                    None => None,
                },
                roll as int,
            ).0,
            result.1 == spec_calculate(
                self.config(),
                match detection {
                    Some(face) => Some(*face),
                    None => None,
                },
                roll as int,
            ).1,
            in_unit(result.0 as int),
            detection is None ==> result == (0i64, false),
            detection is Some && detection.unwrap().confidence < self.config().min_face_confidence
                ==> result == (0i64, false),
            result.1 <==> detection is Some && detection.unwrap().confidence
                >= self.config().min_face_confidence,
    {
        let face = match detection {
            Some(face) => face,
            None => {
                return (0, false);
            },
        };
        if face.confidence < self.config.min_face_confidence {
            return (0, false);
        }
        let yaw_score = Self::deviation(face.estimate_yaw(), self.config.max_yaw);
        let pitch_score = Self::deviation(face.estimate_pitch(), self.config.max_pitch);
        let roll_score = Self::deviation(roll, self.config.max_roll);
        let area_score = Self::closeness(face.size(), self.config.ideal_face_size);
        let sum: i128 = Self::weighted(self.config.face_confidence_weight, face.confidence)
            + Self::weighted(self.config.yaw_weight, yaw_score) + Self::weighted(
            self.config.pitch_weight,
            pitch_score,
        ) + Self::weighted(self.config.roll_weight, roll_score) + Self::weighted(
            self.config.face_size_weight,
            area_score,
        );
        let scaled: i128 = sum / (UNIT as i128);
        let score: i64 = if scaled < 0 {
            0
        } else if scaled > UNIT as i128 {
            UNIT
        } else {
            scaled as i64
        };
        (score, true)
    }
}

/// What was found out about the user in one detection cycle.
#[derive(Debug, Clone, Copy)]
pub struct FocusState {
    /// Whether a face was detected.
    pub face_present: bool,
    /// Confidence of the detection, in millionths.
    pub face_confidence: i64,
    /// The focus score, in millionths.
    pub focus_score: i64,
    /// Yaw of the head in millionths of a degree.
    pub yaw: i64,
    /// Pitch of the head in millionths of a degree.
    pub pitch: i64,
    /// Roll of the head in millionths of a degree.
    pub roll: i64,
    /// When the state was published, in milliseconds since the Unix epoch.
    pub timestamp_ms: u64,
}

/// The state of a cycle in which nothing was detected.
pub open spec fn no_face(timestamp_ms: u64) -> FocusState {
    FocusState {
        face_present: false,
        face_confidence: 0,
        focus_score: 0,
        yaw: 0,
        pitch: 0,
        roll: 0,
        timestamp_ms,
    }
}

/// The state of a cycle: the detection's confidence and pose with the given
/// roll and score, or all zero where nothing was detected.
pub open spec fn spec_from_detection(
    detection: Option<FaceDetection>,
    roll: i64,
    focus_score: i64,
    timestamp_ms: u64,
) -> FocusState {
    match detection {
        Some(face) => FocusState {
            face_present: true,
            face_confidence: face.confidence,
            focus_score,
            yaw: face.spec_yaw() as i64,
            pitch: face.spec_pitch() as i64,
            roll,
            timestamp_ms,
        },
        None => no_face(timestamp_ms),
    }
}

impl Default for FocusState {
    fn default() -> (state: Self)
        ensures
            state == no_face(0),
    {
        FocusState {
            face_present: false,
            face_confidence: 0,
            focus_score: 0,
            yaw: 0,
            pitch: 0,
            roll: 0,
            timestamp_ms: 0,
        }
    }
}

impl FocusState {
    /// The state of one detection cycle, stamped with the given time.
    ///
    /// `roll` is the roll of the detected head in millionths of a degree;
    /// without a detection neither it nor `focus_score` is looked at.
    pub fn from_detection(
        detection: Option<&FaceDetection>,
        roll: i64,
        focus_score: i64,
        timestamp_ms: u64,
    ) -> (state: Self)
        requires
            detection is Some ==> detection.unwrap().wf(),
        ensures
            state == spec_from_detection(
                match detection {
                    Some(face) => Some(*face),
                    None => None,
                },
                roll,
                focus_score,
                timestamp_ms,
            ),
    {
        match detection {
            Some(face) => FocusState {
                face_present: true,
                face_confidence: face.confidence,
                focus_score,
                yaw: face.estimate_yaw(),
                pitch: face.estimate_pitch(),
                roll,
                timestamp_ms,
            },
            None => FocusState {
                face_present: false,
                face_confidence: 0,
                focus_score: 0,
                yaw: 0,
                pitch: 0,
                roll: 0,
                timestamp_ms,
            },
        }
    }

    /// The same state, stamped with a new time.
    pub fn restamped(&self, timestamp_ms: u64) -> (state: Self)
        ensures
            state == (FocusState { timestamp_ms, ..*self }),
    {
        FocusState {
            face_present: self.face_present,
            face_confidence: self.face_confidence,
            focus_score: self.focus_score,
            yaw: self.yaw,
            pitch: self.pitch,
            roll: self.roll,
            timestamp_ms,
        }
    }
}

} // verus!
