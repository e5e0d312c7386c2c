use landmark_canvas::hand_landmarks::{
    assemble_hands, hand_label, hand_points, HAND_LANDMARK_COUNT,
};

#[test]
fn hand_has_twenty_one_slots() {
    assert_eq!(HAND_LANDMARK_COUNT, 21);
    let points = hand_points(&Vec::<[f64; 3]>::new(), [0.0, 0.0, 0.0]);
    assert_eq!(points.len(), 21);
    assert!(points.iter().all(|p| *p == [0.0, 0.0, 0.0]));
}

#[test]
fn reported_points_keep_their_slots() {
    let reported = vec![[0.5, 0.25, -0.1], [0.75, 0.5, 0.0], [0.1, 0.2, 0.3]];
    let points = hand_points(&reported, [0.0, 0.0, 0.0]);
    assert_eq!(points.len(), 21);
    assert_eq!(&points[..3], &reported[..]);
    assert!(points[3..].iter().all(|p| *p == [0.0, 0.0, 0.0]));
}

#[test]
fn full_hand_is_kept_as_is() {
    let reported: Vec<u32> = (0..21).collect();
    assert_eq!(hand_points(&reported, 99), reported);
}

#[test]
fn label_falls_back_to_unknown() {
    let handedness = vec![Some("Left".to_string()), None];
    assert_eq!(hand_label(&handedness, 0), "Left");
    assert_eq!(hand_label(&handedness, 1), "unknown");
    assert_eq!(hand_label(&handedness, 2), "unknown");
}

#[test]
fn assembles_each_hand_with_its_label() {
    let hands = vec![vec![1u8, 2, 3], vec![], vec![7u8; 21]];
    let handedness = vec![Some("Right".to_string()), Some("Left".to_string())];
    let frame = assemble_hands(&hands, &handedness, 0u8);
    assert_eq!(frame.points.len(), 3);
    assert_eq!(frame.labels, vec!["Right", "Left", "unknown"]);
    let mut first = vec![0u8; 21];
    first[..3].copy_from_slice(&[1, 2, 3]);
    assert_eq!(frame.points[0], first);
    assert_eq!(frame.points[1], vec![0u8; 21]);
    assert_eq!(frame.points[2], vec![7u8; 21]);
}

#[test]
fn empty_frame_gives_no_hands() {
    let frame = assemble_hands(&Vec::<Vec<u8>>::new(), &vec![Some("Left".to_string())], 0);
    assert!(frame.points.is_empty());
    assert!(frame.labels.is_empty());
}
