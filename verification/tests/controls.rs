use car_suspension::plugins::controls::{turn_steering_wheel, ControlsState};
use car_suspension::services::assets::{load_fonts, own_font_name, FontFamilies};

#[test]
fn pointer_in_the_middle_holds_the_wheel_straight() {
    assert_eq!(
        turn_steering_wheel(320, 240, 640, 480),
        Some(ControlsState { steering_wheel_degrees: 0, accelerator: 500 })
    );
}

#[test]
fn pointer_at_the_edges_is_at_the_locks() {
    assert_eq!(
        turn_steering_wheel(0, 0, 640, 480),
        Some(ControlsState { steering_wheel_degrees: -450_000, accelerator: 1000 })
    );
    assert_eq!(
        turn_steering_wheel(640, 480, 640, 480),
        Some(ControlsState { steering_wheel_degrees: 450_000, accelerator: 0 })
    );
    assert_eq!(
        turn_steering_wheel(i32::MAX, 0, i32::MAX, 1),
        Some(ControlsState { steering_wheel_degrees: 450_000, accelerator: 1000 })
    );
}

#[test]
fn pointer_in_between_is_in_proportion() {
    assert_eq!(
        turn_steering_wheel(160, 120, 640, 480),
        Some(ControlsState { steering_wheel_degrees: -225_000, accelerator: 750 })
    );
    assert_eq!(
        turn_steering_wheel(1, 2, 3, 3),
        Some(ControlsState { steering_wheel_degrees: -150_000, accelerator: 334 })
    );
    assert_eq!(
        turn_steering_wheel(2, 1, 3, 3),
        Some(ControlsState { steering_wheel_degrees: 150_000, accelerator: 667 })
    );
    assert_eq!(
        turn_steering_wheel(1, 1, 7, 7),
        Some(ControlsState { steering_wheel_degrees: -321_429, accelerator: 858 })
    );
}

#[test]
fn pointer_outside_the_window_reads_nothing() {
    assert_eq!(turn_steering_wheel(-1, 240, 640, 480), None);
    assert_eq!(turn_steering_wheel(641, 240, 640, 480), None);
    assert_eq!(turn_steering_wheel(320, -1, 640, 480), None);
    assert_eq!(turn_steering_wheel(320, 481, 640, 480), None);
}

#[test]
fn window_without_area_reads_nothing() {
    assert_eq!(turn_steering_wheel(0, 0, 0, 480), None);
    assert_eq!(turn_steering_wheel(0, 0, 640, 0), None);
    assert_eq!(turn_steering_wheel(0, 0, 0, 0), None);
    assert_eq!(turn_steering_wheel(-5, 0, -10, 480), None);
    assert_eq!(turn_steering_wheel(0, -5, 640, -10), None);
}

#[test]
fn own_font_leads_proportional_and_trails_monospace() {
    let mut fonts = FontFamilies {
        proportional: vec!["Ubuntu-Light".to_owned(), "NotoEmoji-Regular".to_owned()],
        monospace: vec!["Hack".to_owned(), "Ubuntu-Light".to_owned()],
    };
    load_fonts(&mut fonts);
    assert_eq!(fonts.proportional, vec!["Hack-Bold", "Ubuntu-Light", "NotoEmoji-Regular"]);
    assert_eq!(fonts.monospace, vec!["Hack", "Ubuntu-Light", "Hack-Bold"]);
}

#[test]
fn own_font_goes_by_its_name() {
    assert_eq!(own_font_name(), "Hack-Bold");
    let mut fonts = FontFamilies { proportional: vec!["a".to_owned()], monospace: vec![] };
    load_fonts(&mut fonts);
    assert_eq!(fonts.proportional[0], own_font_name());
    assert_eq!(fonts.monospace[0], own_font_name());
}

#[test]
fn own_font_is_the_only_font_of_empty_families() {
    let mut fonts = FontFamilies { proportional: vec![], monospace: vec![] };
    load_fonts(&mut fonts);
    assert_eq!(fonts.proportional, vec!["Hack-Bold"]);
    assert_eq!(fonts.monospace, vec!["Hack-Bold"]);
    load_fonts(&mut fonts);
    assert_eq!(fonts.proportional, vec!["Hack-Bold", "Hack-Bold"]);
    assert_eq!(fonts.monospace, vec!["Hack-Bold", "Hack-Bold"]);
}
