use landmark_canvas::box_color::{BoxColor, ShiftSwitch};

#[test]
fn box_starts_red() {
    let color = BoxColor::initial();
    assert_eq!(color, BoxColor::Red);
    assert_eq!(color.css(), "rgba(255, 0, 0, 0.5)");
}

#[test]
fn css_strings_are_exact() {
    assert_eq!(BoxColor::Green.css(), "rgba(0, 255, 0, 0.5)");
    assert_eq!(BoxColor::Yellow.css(), "rgba(255, 255, 0, 0.5");
}

#[test]
fn first_shift_turns_green() {
    let mut switch = ShiftSwitch::new();
    assert_eq!(switch.on_key("Shift"), Some(BoxColor::Green));
}

#[test]
fn shifts_alternate_green_and_yellow() {
    let mut switch = ShiftSwitch::new();
    let mut seen = Vec::new();
    for _ in 0..6 {
        seen.push(switch.on_key("Shift"));
    }
    assert_eq!(
        seen,
        vec![
            Some(BoxColor::Green),
            Some(BoxColor::Yellow),
            Some(BoxColor::Green),
            Some(BoxColor::Yellow),
            Some(BoxColor::Green),
            Some(BoxColor::Yellow),
        ]
    );
}

#[test]
fn other_keys_change_nothing() {
    let mut switch = ShiftSwitch::new();
    assert_eq!(switch.on_key("a"), None);
    assert_eq!(switch.on_key("shift"), None);
    assert_eq!(switch.on_key("ShiftLeft"), None);
    assert_eq!(switch.on_key(""), None);
    assert_eq!(switch.on_key("Shift"), Some(BoxColor::Green));
    assert_eq!(switch.on_key("Enter"), None);
    assert_eq!(switch.on_key("Shift"), Some(BoxColor::Yellow));
}

#[test]
fn two_shifts_restore_the_switch() {
    let mut switch = ShiftSwitch::new();
    switch.on_key("Shift");
    switch.on_key("Shift");
    assert_eq!(switch.on_key("Shift"), Some(BoxColor::Green));
}

#[test]
fn mixed_keys_follow_the_shift_count() {
    let keys = ["a", "Shift", "Control", "Shift", "b", "Shift", "Enter"];
    let mut switch = ShiftSwitch::new();
    let mut color = BoxColor::initial();
    let mut shifts = 0;
    for key in keys {
        if let Some(c) = switch.on_key(key) {
            color = c;
        }
        if key == "Shift" {
            shifts += 1;
        }
        let expected = if shifts == 0 {
            BoxColor::Red
        } else if shifts % 2 == 1 {
            BoxColor::Green
        } else {
            BoxColor::Yellow
        };
        assert_eq!(color, expected);
    }
    assert_eq!(color.css(), "rgba(0, 255, 0, 0.5)");
}
