//! The face page's probe landmark.
//!
//! When the face tracker has reported landmarks, the page logs the first
//! coordinate of landmark 477 (the last of the face mesh with irises) before
//! drawing them all; with no landmarks it logs and draws nothing. A frame
//! with some landmarks but none at that index has no probe to log, and is
//! refused.
use vstd::prelude::*;

verus! {

/// Index of the landmark that the face page logs.
pub const FACE_PROBE_INDEX: usize = 477;

/// Whether a frame of `count` face landmarks can be shown: it is empty, or
/// it holds the probe landmark.
pub open spec fn face_frame_showable(count: nat) -> bool {
    count == 0 || count > FACE_PROBE_INDEX
}

/// The landmark to log for a frame: `None` for an empty frame, else the
/// landmark at [`FACE_PROBE_INDEX`].
pub fn probe_landmark<T: Copy>(landmarks: &Vec<T>) -> (probe: Option<T>)
    requires
        face_frame_showable(landmarks.len() as nat),
    ensures
        landmarks.len() == 0 ==> probe is None,
        landmarks.len() > 0 ==> probe == Some(landmarks[FACE_PROBE_INDEX as int]),
{
    if landmarks.len() == 0 {
        None
    } else {
        Some(landmarks[FACE_PROBE_INDEX])
    }
}

} // verus!
