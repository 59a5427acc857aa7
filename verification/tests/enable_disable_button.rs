use overlay_things::enable_disable_button::{MakeToggleButton, Press, Toggle, ToggleButton};

#[test]
fn new_button_is_off() {
    let button = ToggleButton::new(String::from("Kofi"));
    assert_eq!(button.name(), "Kofi");
    assert!(!button.enabled());
    assert_eq!(button.label(), "Enable Kofi");
}

#[test]
fn first_press_switches_on() {
    let mut button = ToggleButton::new(String::from("Kofi"));
    let press = button.press();
    assert_eq!(press, Press { label: String::from("Enable Kofi"), event: Toggle::Enable });
    assert!(button.enabled());
    assert_eq!(button.name(), "Kofi");
    assert_eq!(button.label(), "Disable Kofi");
}

#[test]
fn presses_take_turns() {
    let mut button = ToggleButton::new(String::from("Twitch"));
    assert_eq!(button.press().event, Toggle::Enable);
    let second = button.press();
    assert_eq!(second.label, "Disable Twitch");
    assert_eq!(second.event, Toggle::Disable);
    assert!(!button.enabled());
    let third = button.press();
    assert_eq!(third.label, "Enable Twitch");
    assert_eq!(third.event, Toggle::Enable);
    assert!(button.enabled());
}

#[test]
fn button_without_a_name() {
    let mut button = ToggleButton::new(String::new());
    assert_eq!(button.label(), "Enable ");
    button.press();
    assert_eq!(button.label(), "Disable ");
}

#[test]
fn button_keeps_any_name() {
    let button = ToggleButton::new(String::from("Ko-fi \u{2615} tunnel"));
    assert_eq!(button.label(), "Enable Ko-fi \u{2615} tunnel");
}

#[test]
fn request_makes_a_button_that_is_off() {
    let request = MakeToggleButton::new(String::from("Kofi"), 1u8, "off");
    let (button, enable, disable) = request.make_toggle_button();
    assert_eq!(button, ToggleButton::new(String::from("Kofi")));
    assert_eq!(button.label(), "Enable Kofi");
    assert_eq!(enable, 1u8);
    assert_eq!(disable, "off");
}
