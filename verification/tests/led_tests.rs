use mqtt_stepper_led::led::{color_of_token, led_drive_calls, led_task_step, rgb_of, Color, Rgb};
use mqtt_stepper_led::text::str_eq;

#[test]
fn text_equality_is_exact() {
    assert!(str_eq("start", "start"));
    assert!(!str_eq("start", "Start"));
    assert!(!str_eq("start", "start "));
    assert!(str_eq("", ""));
}

#[test]
fn recognizes_every_color_token() {
    assert_eq!(color_of_token("red"), Some(Color::Red));
    assert_eq!(color_of_token("green"), Some(Color::Green));
    assert_eq!(color_of_token("blue"), Some(Color::Blue));
    assert_eq!(color_of_token("yellow"), Some(Color::Yellow));
    assert_eq!(color_of_token("orange"), Some(Color::Orange));
    assert_eq!(color_of_token("purple"), Some(Color::Purple));
    assert_eq!(color_of_token("strongorange"), Some(Color::StrongOrange));
}

#[test]
fn rejects_unrecognized_tokens() {
    assert_eq!(color_of_token(""), None);
    assert_eq!(color_of_token("Red"), None);
    assert_eq!(color_of_token("RED"), None);
    assert_eq!(color_of_token("red "), None);
    assert_eq!(color_of_token("magenta"), None);
    assert_eq!(color_of_token("start"), None);
}

#[test]
fn drives_exact_rgb_values() {
    assert_eq!(rgb_of(Color::Red), Rgb { red: 255, green: 0, blue: 0 });
    assert_eq!(rgb_of(Color::Green), Rgb { red: 0, green: 255, blue: 0 });
    assert_eq!(rgb_of(Color::Blue), Rgb { red: 0, green: 0, blue: 255 });
    assert_eq!(rgb_of(Color::Yellow), Rgb { red: 255, green: 255, blue: 0 });
    assert_eq!(rgb_of(Color::Orange), Rgb { red: 255, green: 125, blue: 255 });
    assert_eq!(rgb_of(Color::Purple), Rgb { red: 128, green: 0, blue: 128 });
    assert_eq!(rgb_of(Color::StrongOrange), Rgb { red: 184, green: 134, blue: 11 });
}

#[test]
fn blue_payload_drives_blue_rgb() {
    assert_eq!(led_task_step("blue"), Some(Rgb { red: 0, green: 0, blue: 255 }));
}

#[test]
fn unrecognized_token_makes_no_driver_call() {
    assert_eq!(led_task_step("cyan"), None);
    assert_eq!(led_task_step(""), None);
}

#[test]
fn backlog_drives_recognized_tokens_in_order() {
    let commands = vec![
        String::from("blue"),
        String::from("nonsense"),
        String::from("red"),
        String::from(""),
        String::from("strongorange"),
    ];
    let calls = led_drive_calls(&commands);
    assert_eq!(
        calls,
        vec![
            Rgb { red: 0, green: 0, blue: 255 },
            Rgb { red: 255, green: 0, blue: 0 },
            Rgb { red: 184, green: 134, blue: 11 },
        ]
    );
}
