//! The logic of a canvas toy driven by hand and face landmarks: the box
//! that bounces around the canvas and the key switch that recolours it, the
//! assembly of the hand landmarks that a tracker reports into fixed-size
//! hands with labels, and the face page's probe landmark.
pub mod bouncing_box;
pub mod box_color;
pub mod face_landmarks;
pub mod hand_landmarks;
