//! Assembly of the hands that a hand tracker reports.
//!
//! The tracker reports, per frame, a list of hands, each a list of landmark
//! points, and a parallel list of handedness labels. Each hand is laid out in
//! exactly [`HAND_LANDMARK_COUNT`] slots: the points reported fill the first
//! slots in order, and the slots not reported hold the origin point. Each
//! hand gets the label reported at its index, or `"unknown"` where none (or
//! no text) was reported there. The points are of any copyable type; the
//! library never looks inside them.
use vstd::prelude::*;

verus! {

/// Number of landmarks that make up one tracked hand.
pub const HAND_LANDMARK_COUNT: usize = 21;

/// The slots of one hand: reported points first, the origin after them.
pub open spec fn hand_slots<T>(reported: Seq<T>, origin: T) -> Seq<T> {
    Seq::new(
        HAND_LANDMARK_COUNT as nat,
        |j: int|
            if j < reported.len() {
                reported[j]
            } else {
                origin
            },
    )
}

/// The label of hand `i`: the text reported at `i`, else `"unknown"`.
pub open spec fn label_at(handedness: Seq<Option<String>>, i: int) -> Seq<char> {
    if 0 <= i < handedness.len() && handedness[i] is Some {
        handedness[i].unwrap()@
    } else {
        "unknown"@
    }
}

/// Lays out the reported points of one hand in its fixed slots.
///
/// A hand with more points than slots is refused by `requires`: it has no
/// slot to go to.
pub fn hand_points<T: Copy>(reported: &Vec<T>, origin: T) -> (points: Vec<T>)
    requires
        reported.len() <= HAND_LANDMARK_COUNT,
    ensures
        points@ == hand_slots(reported@, origin),
        points.len() == HAND_LANDMARK_COUNT,
        forall|j: int| 0 <= j < reported.len() ==> #[trigger] points[j] == reported[j],
        forall|j: int| reported.len() <= j < HAND_LANDMARK_COUNT ==> #[trigger] points[j] == origin,
{
    let mut points: Vec<T> = Vec::new();
    let mut j: usize = 0;
    while j < HAND_LANDMARK_COUNT
        invariant
            j <= HAND_LANDMARK_COUNT,
            reported.len() <= HAND_LANDMARK_COUNT,
            points@.len() == j,
            forall|k: int| 0 <= k < j ==> points@[k] == hand_slots(reported@, origin)[k],
        decreases HAND_LANDMARK_COUNT - j,
    {
        if j < reported.len() {
            points.push(reported[j]);
        } else {
            points.push(origin);
        }
        j = j + 1;
    }
    assert(points@ =~= hand_slots(reported@, origin));
    points
}

/// The label of hand `i`, given the handedness labels reported.
pub fn hand_label(handedness: &Vec<Option<String>>, i: usize) -> (label: String)
    ensures
        label@ == label_at(handedness@, i as int),
        i < handedness.len() && handedness[i as int] is Some ==> label@
            == handedness[i as int].unwrap()@,
        !(i < handedness.len() && handedness[i as int] is Some) ==> label@ == "unknown"@,
{
    if i < handedness.len() {
        match &handedness[i] {
            Some(text) => text.clone(),
            None => String::from_str("unknown"),
        }
    } else {
        String::from_str("unknown")
    }
}

/// Hands laid out in their slots, with one label per hand.
pub struct TrackedHands<T> {
    pub points: Vec<Vec<T>>,
    pub labels: Vec<String>,
}

/// Assembles a frame of reported hands: hand `i` is laid out by
/// [`hand_points`] and labelled by [`hand_label`].
pub fn assemble_hands<T: Copy>(
    hands: &Vec<Vec<T>>,
    handedness: &Vec<Option<String>>,
    origin: T,
) -> (frame: TrackedHands<T>)
    requires
        forall|i: int| 0 <= i < hands.len() ==> #[trigger] hands[i].len() <= HAND_LANDMARK_COUNT,
    ensures
        frame.points.len() == hands.len(),
        frame.labels.len() == hands.len(),
        forall|i: int|
            0 <= i < hands.len() ==> #[trigger] frame.points[i]@ == hand_slots(hands[i]@, origin),
        forall|i: int| 0 <= i < hands.len() ==> #[trigger] frame.labels[i]@ == label_at(handedness@, i),
        forall|i: int|
            0 <= i < hands.len() && i < handedness.len() && handedness[i] is Some
                ==> #[trigger] frame.labels[i]@ == handedness[i].unwrap()@,
        forall|i: int|
            0 <= i < hands.len() && !(i < handedness.len() && handedness[i] is Some)
                ==> #[trigger] frame.labels[i]@ == "unknown"@,
        forall|i: int| 0 <= i < hands.len() ==> #[trigger] frame.points[i].len() == HAND_LANDMARK_COUNT,
        forall|i: int, j: int|
            0 <= i < hands.len() && 0 <= j < hands[i].len() ==> #[trigger] frame.points[i][j]
                == hands[i][j],
        forall|i: int, j: int|
            0 <= i < hands.len() && hands[i].len() <= j < HAND_LANDMARK_COUNT
                ==> #[trigger] frame.points[i][j] == origin,
{
    let mut points: Vec<Vec<T>> = Vec::new();
    let mut labels: Vec<String> = Vec::new();
    let mut i: usize = 0;
    while i < hands.len()
        invariant
            i <= hands.len(),
            forall|k: int| 0 <= k < hands.len() ==> #[trigger] hands[k].len() <= HAND_LANDMARK_COUNT,
            points.len() == i,
            labels.len() == i,
            forall|k: int| 0 <= k < i ==> #[trigger] points[k]@ == hand_slots(hands[k]@, origin),
            forall|k: int| 0 <= k < i ==> #[trigger] labels[k]@ == label_at(handedness@, k),
        decreases hands.len() - i,
    {
        labels.push(hand_label(handedness, i));
        points.push(hand_points(&hands[i], origin));
        i = i + 1;
    }
    TrackedHands { points, labels }
}

/// Every slot of an assembled hand holds a reported point or the origin,
/// and every reported point keeps its index.
pub proof fn lemma_slots_keep_reported_points<T>(reported: Seq<T>, origin: T)
    requires
        reported.len() <= HAND_LANDMARK_COUNT,
    ensures
        hand_slots(reported, origin).len() == HAND_LANDMARK_COUNT,
        forall|j: int| 0 <= j < reported.len() ==> #[trigger] hand_slots(reported, origin)[j] == reported[j],
        forall|j: int|
            reported.len() <= j < HAND_LANDMARK_COUNT ==> #[trigger] hand_slots(reported, origin)[j]
                == origin,
{
}

/// A reported label is kept as it is, whatever the other labels of the
/// frame; a hand with no label, or one that is not text, reads "unknown".
pub proof fn lemma_label_is_reported_text(handedness: Seq<Option<String>>, i: int)
    ensures
        0 <= i < handedness.len() && handedness[i] is Some ==> label_at(handedness, i)
            == handedness[i].unwrap()@,
        !(0 <= i < handedness.len() && handedness[i] is Some) ==> label_at(handedness, i)
            == "unknown"@,
        forall|more: Seq<Option<String>>|
            0 <= i < handedness.len() ==> #[trigger] label_at(handedness + more, i) == label_at(
                handedness,
                i,
            ),
{
    assert forall|more: Seq<Option<String>>|
        0 <= i < handedness.len() implies #[trigger] label_at(handedness + more, i) == label_at(
        handedness,
        i,
    ) by {
        assert((handedness + more)[i] == handedness[i]);
    }
}

/// A hand that reports all its slots is kept as it is.
pub proof fn lemma_full_hand_unchanged<T>(reported: Seq<T>, origin: T)
    requires
        reported.len() == HAND_LANDMARK_COUNT,
    ensures
        hand_slots(reported, origin) == reported,
{
    assert(hand_slots(reported, origin) =~= reported);
}

} // verus!
