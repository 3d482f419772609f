//! Ordering detections by confidence.
//!
//! The order is descending and stable: of two detections with the same
//! confidence, the one that came first stays first.

use vstd::prelude::*;
use crate::vision::face::FaceDetection;

verus! {

/// Whether no detection is followed by a more confident one.
pub open spec fn ranked(s: Seq<FaceDetection>) -> bool {
    forall|i: int, j: int| 0 <= i < j < s.len() ==> s[i].confidence >= s[j].confidence
}

/// `s` with `d` placed behind the last detection that is at least as
/// confident as `d`.
pub open spec fn insert_ranked(s: Seq<FaceDetection>, d: FaceDetection) -> Seq<FaceDetection>
    decreases s.len(),
{
    if s.len() == 0 {
        seq![d]
    } else if s.last().confidence >= d.confidence {
        s.push(d)
    } else {
        insert_ranked(s.drop_last(), d).push(s.last())
    }
}

/// The detections of `s` in descending order of confidence, ties in their
/// original order.
pub open spec fn rank(s: Seq<FaceDetection>) -> Seq<FaceDetection>
    decreases s.len(),
{
    if s.len() == 0 {
        s
    } else {
        insert_ranked(rank(s.drop_last()), s.last())
    }
}

/// Inserting at the position behind the last detection that is at least as
/// confident is what `insert_ranked` does.
pub proof fn lemma_insert_at(s: Seq<FaceDetection>, d: FaceDetection, p: int)
    requires
        0 <= p <= s.len(),
        p > 0 ==> s[p - 1].confidence >= d.confidence,
        forall|k: int| p <= k < s.len() ==> s[k].confidence < d.confidence,
    ensures
        insert_ranked(s, d) == s.insert(p, d),
    decreases s.len(),
{
    if s.len() == 0 {
        assert(s.insert(p, d) =~= seq![d]);
    } else if p == s.len() {
        assert(s.insert(p, d) =~= s.push(d));
    } else {
        lemma_insert_at(s.drop_last(), d, p);
        assert(s.insert(p, d) =~= s.drop_last().insert(p, d).push(s.last()));
    }
}

/// Inserting keeps the length, the order and the contents.
pub proof fn lemma_insert_ranked(s: Seq<FaceDetection>, d: FaceDetection)
    ensures
        insert_ranked(s, d).len() == s.len() + 1,
        insert_ranked(s, d).to_multiset() == s.to_multiset().insert(d),
        ranked(s) ==> ranked(insert_ranked(s, d)),
    decreases s.len(),
{
    broadcast use vstd::seq_lib::group_to_multiset_ensures;

    let r = insert_ranked(s, d);
    if s.len() == 0 {
        assert(s =~= Seq::empty());
        assert(r =~= Seq::<FaceDetection>::empty().push(d));
    } else if s.last().confidence >= d.confidence {
        if ranked(s) {
            assert forall|i: int, j: int| 0 <= i < j < r.len() implies r[i].confidence
                >= r[j].confidence by {
                if j == s.len() {
                    assert(s[i].confidence >= s.last().confidence);
                }
            }
        }
    } else {
        let front = s.drop_last();
        lemma_insert_ranked(front, d);
        let inner = insert_ranked(front, d);
        assert(s =~= front.push(s.last()));
        assert(s.to_multiset() == front.to_multiset().insert(s.last()));
        assert(r.to_multiset() =~= s.to_multiset().insert(d));
        if ranked(s) {
            assert(ranked(front));
            assert forall|i: int| 0 <= i < inner.len() implies (#[trigger] inner[i]).confidence
                >= s.last().confidence by {
                assert(inner.to_multiset().count(inner[i]) > 0);
                if inner[i] != d {
                    assert(front.to_multiset().count(inner[i]) > 0);
                    let k = choose|k: int| 0 <= k < front.len() && front[k] == inner[i];
                    assert(s[k].confidence >= s[s.len() - 1].confidence);
                }
            }
            assert forall|i: int, j: int| 0 <= i < j < r.len() implies r[i].confidence
                >= r[j].confidence by {
                if j == inner.len() {
                    assert(inner[i].confidence >= s.last().confidence);
                }
            }
        }
    }
}

/// Ranking yields a descending rearrangement of its input.
pub proof fn lemma_rank(s: Seq<FaceDetection>)
    ensures
        rank(s).len() == s.len(),
        rank(s).to_multiset() == s.to_multiset(),
        ranked(rank(s)),
    decreases s.len(),
{
    broadcast use vstd::seq_lib::group_to_multiset_ensures;

    if s.len() > 0 {
        let front = s.drop_last();
        lemma_rank(front);
        lemma_insert_ranked(rank(front), s.last());
        assert(s =~= front.push(s.last()));
    }
}

/// Ranking keeps whatever holds of every detection of its input.
pub proof fn lemma_rank_members(s: Seq<FaceDetection>, i: int) -> (k: int)
    requires
        0 <= i < rank(s).len(),
    ensures
        0 <= k < s.len(),
        s[k] == rank(s)[i],
{
    broadcast use vstd::seq_lib::group_to_multiset_ensures;

    lemma_rank(s);
    let d = rank(s)[i];
    assert(rank(s).contains(d));
    assert(rank(s).to_multiset().count(d) > 0);
    assert(s.contains(d));
    choose|k: int| 0 <= k < s.len() && s[k] == d
}

/// Sorts detections by descending confidence, keeping ties in order.
pub fn sort_by_confidence(detections: Vec<FaceDetection>) -> (sorted: Vec<FaceDetection>)
    ensures
        sorted@ == rank(detections@),
{
    let mut sorted: Vec<FaceDetection> = Vec::new();
    let mut i: usize = 0;
    while i < detections.len()
        invariant
            0 <= i <= detections.len(),
            sorted@ == rank(detections@.take(i as int)),
            sorted.len() == i,
        decreases detections.len() - i,
    {
        let d = detections[i];
        let mut p: usize = sorted.len();
        while p > 0 && sorted[p - 1].confidence < d.confidence
            invariant
                0 <= p <= sorted.len(),
                forall|k: int| p <= k < sorted.len() ==> sorted@[k].confidence < d.confidence,
            decreases p,
        {
            p -= 1;
        }
        proof {
            lemma_insert_at(sorted@, d, p as int);
            let next = detections@.take(i + 1);
            assert(next.drop_last() =~= detections@.take(i as int));
            assert(next.last() == d);
        }
        sorted.insert(p, d);
        i += 1;
    }
    proof {
        assert(detections@.take(detections.len() as int) =~= detections@);
    }
    sorted
}

} // verus!
