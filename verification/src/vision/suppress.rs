//! Greedy non-max suppression.
//!
//! Detections are visited in order.  One is kept unless its box overlaps the
//! box of a detection kept before it by more than the threshold.

use vstd::prelude::*;
use crate::vision::face::FaceDetection;
use crate::vision::overlap::{lemma_iou_symmetric, spec_iou};
use crate::vision::ranking::ranked;

verus! {

/// Whether `d` overlaps one of `kept` by more than `threshold`.
pub open spec fn overlaps_any(kept: Seq<FaceDetection>, d: FaceDetection, threshold: int) -> bool {
    exists|k: int| 0 <= k < kept.len() && spec_iou(#[trigger] kept[k].bbox, d.bbox) > threshold
}

/// The detections of `dets` that greedy suppression keeps, in order.
pub open spec fn suppress(dets: Seq<FaceDetection>, threshold: int) -> Seq<FaceDetection>
    decreases dets.len(),
{
    if dets.len() == 0 {
        dets
    } else {
        let kept = suppress(dets.drop_last(), threshold);
        if overlaps_any(kept, dets.last(), threshold) {
            kept
        } else {
            kept.push(dets.last())
        }
    }
}

/// Whether no two detections of `s` overlap by more than `threshold`.
pub open spec fn separated(s: Seq<FaceDetection>, threshold: int) -> bool {
    forall|i: int, j: int|
        0 <= i < s.len() && 0 <= j < s.len() && i != j ==> spec_iou(
            #[trigger] s[i].bbox,
            #[trigger] s[j].bbox,
        ) <= threshold
}

/// Whether `sub` is `s` with some detections left out: `at` gives, for each
/// position of `sub`, the position in `s` that it came from.
pub open spec fn selection_of(sub: Seq<FaceDetection>, s: Seq<FaceDetection>, at: Seq<int>) -> bool {
    &&& at.len() == sub.len()
    &&& forall|i: int| 0 <= i < at.len() ==> 0 <= #[trigger] at[i] < s.len() && sub[i] == s[at[i]]
    &&& forall|i: int, j: int| 0 <= i < j < at.len() ==> at[i] < at[j]
}

/// No two detections that suppression keeps overlap by more than the
/// threshold, in either order.
pub proof fn lemma_suppress_separated(dets: Seq<FaceDetection>, threshold: int)
    ensures
        separated(suppress(dets, threshold), threshold),
    decreases dets.len(),
{
    if dets.len() > 0 {
        let kept = suppress(dets.drop_last(), threshold);
        let last = dets.last();
        lemma_suppress_separated(dets.drop_last(), threshold);
        if !overlaps_any(kept, last, threshold) {
            let r = kept.push(last);
            assert forall|i: int, j: int|
                0 <= i < r.len() && 0 <= j < r.len() && i != j implies spec_iou(
                #[trigger] r[i].bbox,
                #[trigger] r[j].bbox,
            ) <= threshold by {
                if j == kept.len() {
                    assert(!(spec_iou(kept[i].bbox, last.bbox) > threshold));
                } else if i == kept.len() {
                    assert(!(spec_iou(kept[j].bbox, last.bbox) > threshold));
                    lemma_iou_symmetric(kept[j].bbox, last.bbox);
                } else {
                    assert(r[i] == kept[i] && r[j] == kept[j]);
                }
            }
        }
    }
}

/// Suppression leaves detections out and changes none: what it keeps is a
/// selection of its input, in the same order.
pub proof fn lemma_suppress_selects(dets: Seq<FaceDetection>, threshold: int) -> (at: Seq<int>)
    ensures
        selection_of(suppress(dets, threshold), dets, at),
        suppress(dets, threshold).len() <= dets.len(),
    decreases dets.len(),
{
    if dets.len() == 0 {
        Seq::empty()
    } else {
        let front = dets.drop_last();
        let at_front = lemma_suppress_selects(front, threshold);
        let kept = suppress(front, threshold);
        if overlaps_any(kept, dets.last(), threshold) {
            at_front
        } else {
            let at = at_front.push(dets.len() - 1);
            let r = kept.push(dets.last());
            assert forall|i: int| 0 <= i < at.len() implies 0 <= #[trigger] at[i] < dets.len()
                && r[i] == dets[at[i]] by {
                if i < at_front.len() {
                    assert(at[i] == at_front[i]);
                    assert(kept[i] == front[at_front[i]]);
                }
            }
            assert forall|i: int, j: int| 0 <= i < j < at.len() implies at[i] < at[j] by {
                if j == at_front.len() {
                    assert(at[i] == at_front[i]);
                }
            }
            at
        }
    }
}

/// The first detection is always kept, and it comes out first.
pub proof fn lemma_suppress_keeps_first(dets: Seq<FaceDetection>, threshold: int)
    requires
        dets.len() > 0,
    ensures
        suppress(dets, threshold).len() > 0,
        suppress(dets, threshold)[0] == dets[0],
    decreases dets.len(),
{
    if dets.len() == 1 {
        assert(dets.drop_last() =~= Seq::<FaceDetection>::empty());
        assert(suppress(dets.drop_last(), threshold).len() == 0);
        assert(!overlaps_any(suppress(dets.drop_last(), threshold), dets.last(), threshold));
    } else {
        lemma_suppress_keeps_first(dets.drop_last(), threshold);
    }
}

/// Every detection that suppression leaves out overlaps, by more than the
/// threshold, one that it keeps.
pub proof fn lemma_suppress_covers(dets: Seq<FaceDetection>, threshold: int, i: int)
    requires
        0 <= i < dets.len(),
    ensures
        suppress(dets, threshold).contains(dets[i]) || overlaps_any(
            suppress(dets, threshold),
            dets[i],
            threshold,
        ),
    decreases dets.len(),
{
    let front = dets.drop_last();
    let kept = suppress(front, threshold);
    let r = suppress(dets, threshold);
    if i == dets.len() - 1 {
        if !overlaps_any(kept, dets.last(), threshold) {
            assert(r[kept.len() as int] == dets[i]);
        }
    } else {
        lemma_suppress_covers(front, threshold, i);
        assert(front[i] == dets[i]);
        if kept.contains(dets[i]) {
            let k = choose|k: int| 0 <= k < kept.len() && kept[k] == dets[i];
            assert(r[k] == dets[i]);
        } else {
            let k = choose|k: int|
                0 <= k < kept.len() && spec_iou(#[trigger] kept[k].bbox, dets[i].bbox) > threshold;
            assert(r[k] == kept[k]);
        }
    }
}

/// Suppression keeps a descending order descending.
pub proof fn lemma_suppress_ranked(dets: Seq<FaceDetection>, threshold: int)
    requires
        ranked(dets),
    ensures
        ranked(suppress(dets, threshold)),
{
    let at = lemma_suppress_selects(dets, threshold);
    let r = suppress(dets, threshold);
    assert forall|i: int, j: int| 0 <= i < j < r.len() implies r[i].confidence
        >= r[j].confidence by {
        assert(r[i] == dets[at[i]] && r[j] == dets[at[j]]);
    }
}

} // verus!
