//! Decoding the raw output of the detector model into face detections.
//!
//! The model answers with sixteen regression values and one confidence for
//! each anchor.  Anchors whose confidence is below the detector's threshold
//! are discarded, the others become candidate detections; the candidates are
//! ordered by confidence and thinned by non-max suppression.

use vstd::prelude::*;
use vstd::string::StringExecFns;
use crate::fixed::{clamp_to_unit, clamp_unit, div_toward_zero, in_unit, quot, UNIT};
use crate::vision::anchors::{
    anchors_wf, generate_anchors, grid_anchors, load_anchors, spec_load_anchors, Anchor,
    ANCHOR_COUNT, ANCHOR_LIMIT,
};
use crate::vision::face::{box_in_frame, FaceDetection, FaceDetectorError};
use crate::vision::overlap::{
    larger, lemma_intersection_bounds, lemma_iou_range, overlap_height, overlap_width, smaller,
    spec_iou, BBox, AREA_EPSILON,
};
use crate::vision::ranking::{lemma_rank, lemma_rank_members, rank, ranked, sort_by_confidence};
use crate::vision::suppress::{
    lemma_suppress_keeps_first, lemma_suppress_ranked, lemma_suppress_selects,
    lemma_suppress_separated, overlaps_any, separated, suppress,
};

verus! {

/// Regression values per anchor: box center and size, then six landmarks.
pub const VALUES_PER_ANCHOR: usize = 16;

/// Confidence below which an anchor is discarded, unless set otherwise.
pub const DEFAULT_CONFIDENCE_THRESHOLD: i64 = 500_000;

/// Overlap above which a candidate is suppressed.
pub const DEFAULT_NMS_THRESHOLD: i64 = 300_000;

/// Side length of the model's input in pixels: regression values are offsets
/// in pixels of that input.
pub const INPUT_SIZE: i64 = 128;

/// Decodes detector output against a fixed set of anchors.
pub struct BlazeFaceDetector {
    confidence_threshold: i64,
    nms_threshold: i64,
    anchors: Vec<Anchor>,
}

/// The box that sixteen regression values describe relative to an anchor:
/// center and size are offsets in pixels of the model input.  The corners
/// half the size before and behind the center are limited to the frame; the
/// box reaches from the smaller to the larger of them on each axis, so that
/// its minimum never lies behind its maximum, whatever the sign of the size.
pub open spec fn decode_box(anchor: Anchor, reg: Seq<i64>) -> BBox {
    let cx = anchor.0 + quot(reg[0] as int, INPUT_SIZE as int);
    let cy = anchor.1 + quot(reg[1] as int, INPUT_SIZE as int);
    let half_w = quot(quot(reg[2] as int, INPUT_SIZE as int), 2);
    let half_h = quot(quot(reg[3] as int, INPUT_SIZE as int), 2);
    let x_before = clamp_unit(cx - half_w);
    let x_behind = clamp_unit(cx + half_w);
    let y_before = clamp_unit(cy - half_h);
    let y_behind = clamp_unit(cy + half_h);
    (
        smaller(x_before, x_behind) as i64,
        smaller(y_before, y_behind) as i64,
        larger(x_before, x_behind) as i64,
        larger(y_before, y_behind) as i64,
    )
}

/// Landmark `j` that sixteen regression values describe relative to an
/// anchor, limited to the frame.
pub open spec fn decode_landmark(anchor: Anchor, reg: Seq<i64>, j: int) -> (i64, i64) {
    (
        clamp_unit(anchor.0 + quot(reg[4 + 2 * j] as int, INPUT_SIZE as int)) as i64,
        clamp_unit(anchor.1 + quot(reg[5 + 2 * j] as int, INPUT_SIZE as int)) as i64,
    )
}

/// Whether `d` is the detection that `reg` and `score` describe at `anchor`.
pub open spec fn decodes_to(d: FaceDetection, anchor: Anchor, reg: Seq<i64>, score: i64) -> bool {
    &&& d.confidence == score
    &&& d.bbox == decode_box(anchor, reg)
    &&& forall|j: int| 0 <= j < 6 ==> #[trigger] d.landmarks[j] == decode_landmark(anchor, reg, j)
}

/// The detection that `reg` and `score` describe at `anchor`.
pub open spec fn decode_one(anchor: Anchor, reg: Seq<i64>, score: i64) -> FaceDetection {
    FaceDetection {
        confidence: score,
        bbox: decode_box(anchor, reg),
        landmarks: [
            decode_landmark(anchor, reg, 0),
            decode_landmark(anchor, reg, 1),
            decode_landmark(anchor, reg, 2),
            decode_landmark(anchor, reg, 3),
            decode_landmark(anchor, reg, 4),
            decode_landmark(anchor, reg, 5),
        ],
    }
}

/// The candidates among the first `n` anchors, in anchor order: one for each
/// anchor whose confidence is not below `threshold`.
pub open spec fn candidates(
    anchors: Seq<Anchor>,
    regressors: Seq<i64>,
    scores: Seq<i64>,
    threshold: int,
    n: int,
) -> Seq<FaceDetection>
    decreases n,
{
    if n <= 0 {
        Seq::empty()
    } else {
        let earlier = candidates(anchors, regressors, scores, threshold, n - 1);
        if scores[n - 1] >= threshold {
            earlier.push(
                decode_one(
                    anchors[n - 1],
                    regressors.subrange(16 * (n - 1), 16 * n),
                    scores[n - 1],
                ),
            )
        } else {
            earlier
        }
    }
}

/// The face that stands in for the model's findings where the pipeline runs
/// without a model: a confident, centered, level face.
pub open spec fn simulated_face() -> FaceDetection {
    FaceDetection {
        confidence: 950_000,
        bbox: (250_000, 150_000, 750_000, 850_000),
        landmarks: [
            (350_000, 350_000),
            (650_000, 350_000),
            (500_000, 550_000),
            (500_000, 750_000),
            (200_000, 400_000),
            (800_000, 400_000),
        ],
    }
}

/// Whether every detection of `s` is well formed.
pub open spec fn all_wf(s: Seq<FaceDetection>) -> bool {
    forall|i: int| 0 <= i < s.len() ==> (#[trigger] s[i]).wf()
}

/// A candidate is well formed when its confidence lies in the unit interval.
pub proof fn lemma_decode_one_wf(anchor: Anchor, reg: Seq<i64>, score: i64)
    requires
        in_unit(score as int),
    ensures
        decode_one(anchor, reg, score).wf(),
        decodes_to(decode_one(anchor, reg, score), anchor, reg, score),
{
    let d = decode_one(anchor, reg, score);
    assert forall|j: int| 0 <= j < 6 implies #[trigger] d.landmarks[j] == decode_landmark(
        anchor,
        reg,
        j,
    ) by {
        if j == 0 {
        } else if j == 1 {
        } else if j == 2 {
        } else if j == 3 {
        } else if j == 4 {
        } else {
        }
    }
}

/// Candidates are well formed, none has a confidence below the threshold,
/// and there is at most one for each anchor.
pub proof fn lemma_candidates(
    anchors: Seq<Anchor>,
    regressors: Seq<i64>,
    scores: Seq<i64>,
    threshold: int,
    n: int,
)
    requires
        0 <= n <= scores.len(),
        forall|i: int| 0 <= i < scores.len() ==> in_unit(#[trigger] scores[i] as int),
    ensures
        all_wf(candidates(anchors, regressors, scores, threshold, n)),
        candidates(anchors, regressors, scores, threshold, n).len() <= n,
        forall|i: int|
            0 <= i < candidates(anchors, regressors, scores, threshold, n).len() ==> (
            #[trigger] candidates(anchors, regressors, scores, threshold, n)[i]).confidence
                >= threshold,
    decreases n,
{
    if n > 0 {
        lemma_candidates(anchors, regressors, scores, threshold, n - 1);
        lemma_decode_one_wf(
            anchors[n - 1],
            regressors.subrange(16 * (n - 1), 16 * n),
            scores[n - 1],
        );
    }
}

/// There is no candidate exactly when every confidence is below the
/// threshold.
pub proof fn lemma_no_candidates(
    anchors: Seq<Anchor>,
    regressors: Seq<i64>,
    scores: Seq<i64>,
    threshold: int,
    n: int,
)
    requires
        0 <= n <= scores.len(),
    ensures
        candidates(anchors, regressors, scores, threshold, n).len() == 0 <==> forall|i: int|
            0 <= i < n ==> #[trigger] scores[i] < threshold,
    decreases n,
{
    if n > 0 {
        lemma_no_candidates(anchors, regressors, scores, threshold, n - 1);
        if candidates(anchors, regressors, scores, threshold, n).len() == 0 {
            assert(scores[n - 1] < threshold);
        }
    }
}

impl BlazeFaceDetector {
    /// Confidence that an anchor must reach to become a candidate.
    pub closed spec fn confidence_threshold(&self) -> i64 {
        self.confidence_threshold
    }

    /// Overlap that a candidate must not exceed with a detection kept before.
    pub closed spec fn nms_threshold(&self) -> i64 {
        self.nms_threshold
    }

    /// The anchors that regression values are relative to.
    pub closed spec fn anchors(&self) -> Seq<Anchor> {
        self.anchors@
    }

    /// The thresholds lie in the unit interval and the anchors fit the model.
    pub open spec fn wf(&self) -> bool {
        &&& in_unit(self.confidence_threshold() as int)
        &&& in_unit(self.nms_threshold() as int)
        &&& anchors_wf(self.anchors())
    }

    /// What `decode` returns for well-shaped output: the candidates, ordered
    /// by confidence, after suppression.
    pub open spec fn spec_decode(&self, regressors: Seq<i64>, scores: Seq<i64>) -> Seq<
        FaceDetection,
    > {
        suppress(
            rank(
                candidates(
                    self.anchors(),
                    regressors,
                    scores,
                    self.confidence_threshold() as int,
                    ANCHOR_COUNT as int,
                ),
            ),
            self.nms_threshold() as int,
        )
    }

    /// Whether the model's output has one confidence and sixteen regression
    /// values for each anchor.
    pub open spec fn shape_ok(regressors: Seq<i64>, scores: Seq<i64>) -> bool {
        regressors.len() == VALUES_PER_ANCHOR * ANCHOR_COUNT && scores.len() == ANCHOR_COUNT
    }

    /// A detector with the default thresholds.  Its anchors are those of the
    /// anchor file whose bytes are given, or the generated grid where none
    /// is given or the file cannot be used.
    pub fn new(anchor_file: Option<&Vec<u8>>) -> (detector: Self)
        ensures
            detector.wf(),
            detector.anchors() == match anchor_file {
                Some(bytes) => spec_load_anchors(bytes@),
                None => grid_anchors(),
            },
            detector.confidence_threshold() == DEFAULT_CONFIDENCE_THRESHOLD,
            detector.nms_threshold() == DEFAULT_NMS_THRESHOLD,
    {
        let anchors = match anchor_file {
            Some(bytes) => load_anchors(bytes),
            None => generate_anchors(),
        };
        Self::with_anchors(anchors)
    }

    /// A detector over the given anchors with the default thresholds.
    fn with_anchors(anchors: Vec<Anchor>) -> (detector: Self)
        requires
            anchors_wf(anchors@),
        ensures
            detector.wf(),
            detector.anchors() == anchors@,
            detector.confidence_threshold() == DEFAULT_CONFIDENCE_THRESHOLD,
            detector.nms_threshold() == DEFAULT_NMS_THRESHOLD,
    {
        BlazeFaceDetector {
            confidence_threshold: DEFAULT_CONFIDENCE_THRESHOLD,
            nms_threshold: DEFAULT_NMS_THRESHOLD,
            anchors,
        }
    }

    /// Sets the confidence threshold, limited to the unit interval.
    pub fn set_confidence_threshold(&mut self, threshold: i64)
        ensures
            final(self).confidence_threshold() == clamp_unit(threshold as int),
            final(self).nms_threshold() == old(self).nms_threshold(),
            final(self).anchors() == old(self).anchors(),
    {
        self.confidence_threshold = clamp_to_unit(threshold);
    }

    /// Decodes the sixteen regression values that start at `base`.
    fn decode_anchor(anchor: Anchor, regressors: &Vec<i64>, base: usize, score: i64) -> (d:
        FaceDetection)
        requires
            base + 16 <= regressors.len(),
            -ANCHOR_LIMIT <= anchor.0 <= ANCHOR_LIMIT,
            -ANCHOR_LIMIT <= anchor.1 <= ANCHOR_LIMIT,
        ensures
            d == decode_one(anchor, regressors@.subrange(base as int, base + 16), score),
    {
        let ghost reg = regressors@.subrange(base as int, base + 16);
        proof {
            assert forall|j: int| 0 <= j < 16 implies reg[j] == regressors@[base + j] by {}
        }
        let cx: i64 = anchor.0 + div_toward_zero(regressors[base], INPUT_SIZE);
        let cy: i64 = anchor.1 + div_toward_zero(regressors[base + 1], INPUT_SIZE);
        let half_w: i64 = div_toward_zero(div_toward_zero(regressors[base + 2], INPUT_SIZE), 2);
        let half_h: i64 = div_toward_zero(div_toward_zero(regressors[base + 3], INPUT_SIZE), 2);
        let x_before: i64 = clamp_to_unit(cx - half_w);
        let x_behind: i64 = clamp_to_unit(cx + half_w);
        let y_before: i64 = clamp_to_unit(cy - half_h);
        let y_behind: i64 = clamp_to_unit(cy + half_h);
        let bbox: BBox = (
            if x_before <= x_behind { x_before } else { x_behind },
            if y_before <= y_behind { y_before } else { y_behind },
            if x_before >= x_behind { x_before } else { x_behind },
            if y_before >= y_behind { y_before } else { y_behind },
        );
        let l0 = Self::decode_point(anchor, regressors, base, 0);
        let l1 = Self::decode_point(anchor, regressors, base, 1);
        let l2 = Self::decode_point(anchor, regressors, base, 2);
        let l3 = Self::decode_point(anchor, regressors, base, 3);
        let l4 = Self::decode_point(anchor, regressors, base, 4);
        let l5 = Self::decode_point(anchor, regressors, base, 5);
        let d = FaceDetection { confidence: score, bbox, landmarks: [l0, l1, l2, l3, l4, l5] };
        proof {
            let e = decode_one(anchor, reg, score);
            assert(d.bbox == e.bbox);
            assert(d.landmarks@ =~= e.landmarks@);
            assert(d.landmarks == e.landmarks);
        }
        d
    }

    /// Decodes landmark `j` of the sixteen regression values that start at
    /// `base`.
    fn decode_point(anchor: Anchor, regressors: &Vec<i64>, base: usize, j: usize) -> (p: (
        i64,
        i64,
    ))
        requires
            base + 16 <= regressors.len(),
            j < 6,
            -ANCHOR_LIMIT <= anchor.0 <= ANCHOR_LIMIT,
            -ANCHOR_LIMIT <= anchor.1 <= ANCHOR_LIMIT,
        ensures
            p == decode_landmark(anchor, regressors@.subrange(base as int, base + 16), j as int),
    {
        let x: i64 = anchor.0 + div_toward_zero(regressors[base + 4 + 2 * j], INPUT_SIZE);
        let y: i64 = anchor.1 + div_toward_zero(regressors[base + 5 + 2 * j], INPUT_SIZE);
        (clamp_to_unit(x), clamp_to_unit(y))
    }

    /// Turns the model's output into detections: one for each anchor whose
    /// confidence is not below the confidence threshold, the most confident
    /// first, no two overlapping by more than the suppression threshold.
    ///
    /// `regressors` holds sixteen values for each anchor, `scores` one
    /// confidence for each anchor.  Output of any other shape is refused.  An
    /// empty list means that no face was found.
    pub fn decode(&self, regressors: &Vec<i64>, scores: &Vec<i64>) -> (result: Result<
        Vec<FaceDetection>,
        FaceDetectorError,
    >)
        requires
            self.wf(),
            forall|i: int| 0 <= i < scores.len() ==> in_unit(#[trigger] scores[i] as int),
        ensures
            result is Ok <==> Self::shape_ok(regressors@, scores@),
            result is Ok ==> result->Ok_0@ == self.spec_decode(regressors@, scores@),
            result is Ok ==> separated(result->Ok_0@, self.nms_threshold() as int),
            result is Ok ==> ranked(result->Ok_0@),
            result is Ok ==> all_wf(result->Ok_0@),
            result is Ok ==> forall|i: int|
                0 <= i < result->Ok_0@.len() ==> (#[trigger] result->Ok_0@[i]).confidence
                    >= self.confidence_threshold(),
            result is Ok ==> (result->Ok_0@.len() == 0 <==> forall|i: int|
                0 <= i < scores@.len() ==> #[trigger] scores@[i] < self.confidence_threshold()),
            result is Err ==> result->Err_0 is InferenceError && result->Err_0.detail()
                == "Unexpected output shape"@,
    {
        if regressors.len() != VALUES_PER_ANCHOR * ANCHOR_COUNT || scores.len() != ANCHOR_COUNT {
            return Err(
                FaceDetectorError::InferenceError(String::from_str("Unexpected output shape")),
            );
        }
        let ghost threshold = self.confidence_threshold as int;
        let mut found: Vec<FaceDetection> = Vec::new();
        let mut i: usize = 0;
        while i < ANCHOR_COUNT
            invariant
                0 <= i <= ANCHOR_COUNT,
                self.wf(),
                threshold == self.confidence_threshold,
                regressors.len() == VALUES_PER_ANCHOR * ANCHOR_COUNT,
                scores.len() == ANCHOR_COUNT,
                found@ == candidates(self.anchors@, regressors@, scores@, threshold, i as int),
            decreases ANCHOR_COUNT - i,
        {
            let score = scores[i];
            if score >= self.confidence_threshold {
                let anchor = self.anchors[i];
                let d = Self::decode_anchor(anchor, regressors, i * 16, score);
                found.push(d);
            }
            i += 1;
        }
        proof {
            lemma_candidates(self.anchors@, regressors@, scores@, threshold, ANCHOR_COUNT as int);
            assert forall|i: int| 0 <= i < rank(found@).len() implies (#[trigger] rank(
                found@,
            )[i]).wf() by {
                let k = lemma_rank_members(found@, i);
            }
        }
        let sorted = sort_by_confidence(found);
        let kept = self.nms(sorted);
        proof {
            lemma_rank(found@);
            lemma_suppress_ranked(sorted@, self.nms_threshold as int);
            let at = lemma_suppress_selects(sorted@, self.nms_threshold as int);
            assert forall|i: int| 0 <= i < kept@.len() implies (#[trigger] kept@[i]).confidence
                >= self.confidence_threshold by {
                assert(kept@[i] == sorted@[at[i]]);
                let k = lemma_rank_members(found@, at[i]);
            }
            lemma_no_candidates(
                self.anchors@,
                regressors@,
                scores@,
                threshold,
                ANCHOR_COUNT as int,
            );
            if sorted@.len() > 0 {
                lemma_suppress_keeps_first(sorted@, self.nms_threshold as int);
            }
        }
        Ok(kept)
    }

    /// What a detector without a model reports for every frame: one
    /// confident, centered, level face.
    pub fn detect_simulated() -> (detections: Vec<FaceDetection>)
        ensures
            detections@ == seq![simulated_face()],
            all_wf(detections@),
    {
        let face = FaceDetection {
            confidence: 950_000,
            bbox: (250_000, 150_000, 750_000, 850_000),
            landmarks: [
                (350_000, 350_000),
                (650_000, 350_000),
                (500_000, 550_000),
                (500_000, 750_000),
                (200_000, 400_000),
                (800_000, 400_000),
            ],
        };
        let mut detections: Vec<FaceDetection> = Vec::new();
        detections.push(face);
        proof {
            assert(face.landmarks@ =~= simulated_face().landmarks@);
            assert(face == simulated_face());
            assert(detections@ =~= seq![simulated_face()]);
            assert forall|i: int| 0 <= i < 6 implies in_unit(
                (#[trigger] face.landmarks[i]).0 as int,
            ) && in_unit(face.landmarks[i].1 as int) by {
                if i == 0 {
                } else if i == 1 {
                } else if i == 2 {
                } else if i == 3 {
                } else if i == 4 {
                } else {
                }
            }
        }
        detections
    }

    /// Intersection over union of two boxes inside the frame.
    pub fn calculate_iou(box1: &BBox, box2: &BBox) -> (iou: i64)
        requires
            box_in_frame(*box1),
            box_in_frame(*box2),
        ensures
            iou == spec_iou(*box1, *box2),
            in_unit(iou as int),
    {
        let left: i64 = if box1.0 >= box2.0 { box1.0 } else { box2.0 };
        let top: i64 = if box1.1 >= box2.1 { box1.1 } else { box2.1 };
        let right: i64 = if box1.2 <= box2.2 { box1.2 } else { box2.2 };
        let bottom: i64 = if box1.3 <= box2.3 { box1.3 } else { box2.3 };
        let width: i64 = if right - left > 0 { right - left } else { 0 };
        let height: i64 = if bottom - top > 0 { bottom - top } else { 0 };
        assert(width == overlap_width(*box1, *box2));
        assert(height == overlap_height(*box1, *box2));
        assert(0 <= width * height <= 1_000_000_000_000) by (nonlinear_arith)
            requires
                0 <= width <= 1_000_000,
                0 <= height <= 1_000_000,
        ;
        let inter: i64 = width * height;
        if inter == 0 {
            return 0;
        }
        let w1: i64 = box1.2 - box1.0;
        let h1: i64 = box1.3 - box1.1;
        let w2: i64 = box2.2 - box2.0;
        let h2: i64 = box2.3 - box2.1;
        assert(-1_000_000_000_000 <= w1 * h1 <= 1_000_000_000_000 && -1_000_000_000_000 <= w2
            * h2 <= 1_000_000_000_000) by (nonlinear_arith)
            requires
                -1_000_000 <= w1 <= 1_000_000,
                -1_000_000 <= h1 <= 1_000_000,
                -1_000_000 <= w2 <= 1_000_000,
                -1_000_000 <= h2 <= 1_000_000,
        ;
        let area1: i64 = w1 * h1;
        let area2: i64 = w2 * h2;
        proof {
            lemma_intersection_bounds(*box1, *box2);
            lemma_iou_range(*box1, *box2);
        }
        let union: i64 = area1 + area2 - inter + AREA_EPSILON;
        (inter * UNIT) / union
    }

    /// Greedy non-max suppression of detections that are ordered by
    /// confidence.
    pub fn nms(&self, detections: Vec<FaceDetection>) -> (kept: Vec<FaceDetection>)
        requires
            all_wf(detections@),
        ensures
            kept@ == suppress(detections@, self.nms_threshold() as int),
            separated(kept@, self.nms_threshold() as int),
            all_wf(kept@),
    {
        let mut keep: Vec<FaceDetection> = Vec::new();
        let mut i: usize = 0;
        while i < detections.len()
            invariant
                0 <= i <= detections.len(),
                all_wf(detections@),
                all_wf(keep@),
                keep@ == suppress(detections@.take(i as int), self.nms_threshold() as int),
            decreases detections.len() - i,
        {
            let candidate = detections[i];
            let mut overlapping = false;
            let mut k: usize = 0;
            while k < keep.len() && !overlapping
                invariant
                    0 <= k <= keep.len(),
                    all_wf(keep@),
                    candidate.wf(),
                    overlapping ==> overlaps_any(keep@, candidate, self.nms_threshold() as int),
                    !overlapping ==> forall|m: int|
                        0 <= m < k ==> spec_iou(#[trigger] keep@[m].bbox, candidate.bbox)
                            <= self.nms_threshold(),
                decreases keep.len() - k + if overlapping { 0int } else { 1int },
            {
                let held = keep[k];
                assert(held.wf());
                let iou = Self::calculate_iou(&held.bbox, &candidate.bbox);
                if iou > self.nms_threshold {
                    overlapping = true;
                } else {
                    k += 1;
                }
            }
            proof {
                let next = detections@.take(i + 1);
                assert(next.drop_last() =~= detections@.take(i as int));
                assert(next.last() == candidate);
            }
            if !overlapping {
                keep.push(candidate);
            }
            i += 1;
        }
        proof {
            assert(detections@.take(detections.len() as int) =~= detections@);
            lemma_suppress_separated(detections@, self.nms_threshold() as int);
        }
        keep
    }
}

} // verus!
