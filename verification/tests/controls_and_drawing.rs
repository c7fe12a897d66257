use gravity_sim::canvas::{hud_text, line_shade, max_pixel_from_center, GridShade};
use gravity_sim::controls::{
    held_key_actions, key_action, HeldKeyAction, HeldKeys, KeyAction, Sign,
};

fn no_keys() -> HeldKeys {
    HeldKeys {
        space: false,
        backspace: false,
        right: false,
        left: false,
        up: false,
        down: false,
        u: false,
        j: false,
    }
}

#[test]
fn escape_quits_and_enter_toggles() {
    assert_eq!(key_action('\u{1b}', 3), KeyAction::Quit);
    assert_eq!(key_action('\r', 3), KeyAction::TogglePlanning);
}

#[test]
fn r_reloads_current_scene() {
    assert_eq!(key_action('r', 4), KeyAction::LoadScene(4));
    assert_eq!(key_action('r', 0), KeyAction::LoadScene(0));
}

#[test]
fn digits_load_scenes() {
    assert_eq!(key_action('0', 5), KeyAction::LoadScene(0));
    assert_eq!(key_action('1', 5), KeyAction::LoadScene(1));
    assert_eq!(key_action('2', 5), KeyAction::LoadScene(2));
    assert_eq!(key_action('3', 5), KeyAction::LoadScene(3));
    assert_eq!(key_action('4', 5), KeyAction::LoadScene(4));
    assert_eq!(key_action('5', 1), KeyAction::LoadScene(5));
}

#[test]
fn other_characters_do_nothing() {
    assert_eq!(key_action('6', 1), KeyAction::Nothing);
    assert_eq!(key_action('R', 1), KeyAction::Nothing);
    assert_eq!(key_action(' ', 1), KeyAction::Nothing);
}

#[test]
fn no_held_keys_no_actions() {
    assert!(held_key_actions(no_keys()).is_empty());
    let mut keys = no_keys();
    keys.space = true;
    keys.backspace = true;
    assert!(held_key_actions(keys).is_empty());
}

#[test]
fn held_keys_in_fixed_order() {
    let keys = HeldKeys {
        space: true,
        backspace: false,
        right: true,
        left: true,
        up: true,
        down: true,
        u: true,
        j: true,
    };
    assert_eq!(
        held_key_actions(keys),
        vec![
            HeldKeyAction::MoveBurnStart(Sign::Plus),
            HeldKeyAction::MoveBurnStart(Sign::Minus),
            HeldKeyAction::StretchBurnTime(Sign::Plus),
            HeldKeyAction::StretchBurnTime(Sign::Minus),
            HeldKeyAction::Zoom(Sign::Plus),
            HeldKeyAction::Zoom(Sign::Minus),
        ]
    );
}

#[test]
fn single_held_key() {
    let mut keys = no_keys();
    keys.j = true;
    assert_eq!(held_key_actions(keys), vec![HeldKeyAction::Zoom(Sign::Minus)]);
}

#[test]
fn visible_range_is_half_smaller_extent() {
    assert_eq!(max_pixel_from_center(1000, 680), 340);
    assert_eq!(max_pixel_from_center(600, 801), 300);
    assert_eq!(max_pixel_from_center(7, 9), 3);
    assert_eq!(max_pixel_from_center(-3, 5), -1);
}

#[test]
fn grid_shades() {
    assert_eq!(line_shade(0), GridShade::Light);
    assert_eq!(line_shade(10), GridShade::Light);
    assert_eq!(line_shade(5), GridShade::Medium);
    assert_eq!(line_shade(25), GridShade::Medium);
    assert_eq!(line_shade(1), GridShade::Dark);
    assert_eq!(line_shade(99), GridShade::Dark);
    assert_eq!(line_shade(-15), GridShade::Medium);
}

#[test]
fn hud_shows_text_and_index() {
    assert_eq!(hud_text("Sun, Earth", 0), "Sun, Earth 0");
    assert_eq!(hud_text("Test", 42), "Test 42");
    assert_eq!(hud_text("double star", 999), "double star 999");
    assert_eq!(hud_text("", 1000), " 1000");
    assert_eq!(hud_text("x", usize::MAX), format!("x {}", usize::MAX));
}
