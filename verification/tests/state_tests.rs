//! Tests for the application state machine, the button debouncer, colors,
//! digit splitting and the picture sets.

use lcd_clock::buttons::{Button, ButtonEvent, Debounce};
use lcd_clock::ds3231::{Calendar, Time};
use lcd_clock::images::{make_image, Menupic, Numpic};
use lcd_clock::lcd_clock::{date_to_display_values, time_to_display_values};
use lcd_clock::led_strip::{adjust_brightness, LedMode};
use lcd_clock::misc::{ColorRGB565, ColorRGB8};
use lcd_clock::state::{AppMode, MenuOption, State, TimeDateScreen};

const RELEASE: Option<ButtonEvent> = Some(ButtonEvent::Release);
const PRESS: Option<ButtonEvent> = Some(ButtonEvent::Press);

#[test]
fn mode_button_opens_the_menu() {
    let mut s = State::new(5);
    assert_eq!(s.mode(), AppMode::Regular(TimeDateScreen::Time));
    assert!(s.eat_transition());
    s.handle_buttons(RELEASE, None, None);
    assert_eq!(s.mode(), AppMode::Menu(MenuOption::Return));
    assert!(s.eat_transition());
    assert_eq!(s.last_mode(), AppMode::Regular(TimeDateScreen::Time));
}

#[test]
fn left_and_right_toggle_the_regular_screen() {
    let mut s = State::new(5);
    s.handle_buttons(None, RELEASE, None);
    assert_eq!(s.mode(), AppMode::Regular(TimeDateScreen::Date));
    s.handle_buttons(None, None, RELEASE);
    assert_eq!(s.mode(), AppMode::Regular(TimeDateScreen::Time));
}

#[test]
fn menu_walks_cyclically() {
    let mut s = State::new(5);
    s.handle_buttons(RELEASE, None, None);
    s.handle_buttons(None, None, RELEASE);
    assert_eq!(s.mode(), AppMode::Menu(MenuOption::SetTime));
    s.handle_buttons(None, RELEASE, None);
    assert_eq!(s.mode(), AppMode::Menu(MenuOption::Return));
    for m in MenuOption::all() {
        assert_eq!(m.right().left(), m);
        assert_eq!(m.left().right(), m);
    }
}

#[test]
fn menu_choice_opens_its_screen() {
    let mut s = State::new(5);
    s.handle_buttons(RELEASE, None, None);
    s.handle_buttons(None, None, RELEASE);
    assert_eq!(s.mode(), AppMode::Menu(MenuOption::SetTime));
    s.handle_buttons(RELEASE, None, None);
    assert_eq!(s.mode(), AppMode::SetTime(0));
}

#[test]
fn setter_moves_and_wraps_the_selection() {
    let mut s = State::new(5);
    s.handle_buttons(RELEASE, None, None);
    s.handle_buttons(None, None, RELEASE);
    s.handle_buttons(RELEASE, None, None);
    assert_eq!(s.mode(), AppMode::SetTime(0));
    s.handle_buttons(None, RELEASE, None);
    assert_eq!(s.mode(), AppMode::SetTime(11));
    s.handle_buttons(None, None, RELEASE);
    assert_eq!(s.mode(), AppMode::SetTime(0));
}

#[test]
fn held_mode_button_queues_a_time_delta() {
    let mut s = State::new(5);
    s.handle_buttons(RELEASE, None, None);
    s.handle_buttons(None, None, RELEASE);
    s.handle_buttons(RELEASE, None, None);
    s.handle_buttons(None, None, RELEASE);
    assert_eq!(s.mode(), AppMode::SetTime(1));
    s.handle_buttons(PRESS, None, None);
    s.handle_buttons(None, None, RELEASE);
    assert_eq!(s.take_time_delta(), Some((1, 1)));
    assert_eq!(s.take_time_delta(), None);
    // Releasing mode after adjusting stays in the setter.
    s.handle_buttons(RELEASE, None, None);
    assert_eq!(s.mode(), AppMode::SetTime(1));
}

#[test]
fn brightness_screen_clamps_zero_to_nine() {
    let mut s = State::new(9);
    s.handle_buttons(RELEASE, None, None);
    s.handle_buttons(None, RELEASE, None);
    s.handle_buttons(None, RELEASE, None);
    assert_eq!(s.mode(), AppMode::Menu(MenuOption::SetBrightness));
    s.handle_buttons(RELEASE, None, None);
    assert_eq!(s.mode(), AppMode::SetBrightness);
    s.handle_buttons(None, None, RELEASE);
    assert_eq!(s.brightness(), 9);
    for _ in 0..12 {
        s.handle_buttons(None, RELEASE, None);
    }
    assert_eq!(s.brightness(), 0);
}

#[test]
fn rgb_screen_cycles_led_modes() {
    let mut s = State::new(5);
    s.handle_buttons(RELEASE, None, None);
    s.handle_buttons(None, None, RELEASE);
    s.handle_buttons(None, None, RELEASE);
    s.handle_buttons(None, None, RELEASE);
    assert_eq!(s.mode(), AppMode::Menu(MenuOption::SetRgb));
    s.handle_buttons(RELEASE, None, None);
    assert_eq!(s.mode(), AppMode::SetRgb);
    assert_eq!(s.led_mode(), LedMode::Sin);
    s.handle_buttons(None, None, RELEASE);
    assert_eq!(s.led_mode(), LedMode::Red);
    s.handle_buttons(None, RELEASE, None);
    assert_eq!(s.led_mode(), LedMode::Sin);
    s.handle_buttons(RELEASE, None, None);
    assert_eq!(s.mode(), AppMode::Regular(TimeDateScreen::Time));
}

#[test]
fn led_mode_cycle_round_trips() {
    for m in [
        LedMode::Off,
        LedMode::Sin,
        LedMode::Red,
        LedMode::Green,
        LedMode::Blue,
        LedMode::Yellow,
        LedMode::Cyan,
        LedMode::Pink,
    ] {
        assert_eq!(m.right().left(), m);
        assert_eq!(m.left().right(), m);
    }
}

#[test]
fn debounce_integrates_to_the_bound() {
    let mut d = Debounce::new(2);
    assert!(!d.is_pressed());
    d.update(false);
    assert!(!d.is_pressed());
    d.update(false);
    assert!(d.is_pressed());
    d.update(true);
    assert!(d.is_pressed());
    d.update(true);
    assert!(!d.is_pressed());
}

#[test]
fn button_reports_edges_once() {
    let mut b = Button::new(Debounce::new(2));
    assert_eq!(b.update(false), None);
    assert_eq!(b.update(false), Some(ButtonEvent::Press));
    assert_eq!(b.update(false), None);
    assert_eq!(b.update(true), None);
    assert_eq!(b.update(true), Some(ButtonEvent::Release));
    assert_eq!(b.update(true), None);
}

#[test]
fn rgb565_conversion_truncates_low_bits() {
    assert_eq!(u16::from(ColorRGB565::from(ColorRGB8::red())), 0xF800);
    assert_eq!(u16::from(ColorRGB565::from(ColorRGB8::green())), 0x07E0);
    assert_eq!(u16::from(ColorRGB565::from(ColorRGB8::blue())), 0x001F);
    assert_eq!(u16::from(ColorRGB565::from(ColorRGB8 { r: 0x12, g: 0x34, b: 0x56 })), 0x11AA);
    assert_eq!(ColorRGB565::from(0xF800u16).to_be(), [0xF8, 0x00]);
}

#[test]
fn brightness_scaling_is_per_channel() {
    let c = adjust_brightness(ColorRGB8 { r: 255, g: 128, b: 0 }, 0x40);
    assert_eq!((c.r, c.g, c.b), (64, 32, 0));
    let full = adjust_brightness(ColorRGB8::cyan(), 255);
    assert_eq!((full.r, full.g, full.b), (0, 255, 255));
}

#[test]
fn digit_splitting_of_time_and_date() {
    let t = Time { hours: 12, mins: 34, secs: 56 };
    assert_eq!(time_to_display_values(t), [1, 2, 3, 4, 5, 6]);
    let d = Calendar { year: 2024, month: 12, date: 31 };
    assert_eq!(date_to_display_values(d), [2, 4, 1, 2, 3, 1]);
}

#[test]
fn image_header_and_pixels() {
    let mut data = vec![3, 0, 0, 0, 2, 0, 0, 0];
    data.extend([1u8, 2, 3, 4]);
    let img = make_image(data);
    assert_eq!(img.width(), 3);
    assert_eq!(img.height(), 2);
    assert_eq!(img.pixels(), &[1, 2, 3, 4]);
}

#[test]
fn picture_sets_select_by_digit_and_menu_entry() {
    let digits: Vec<_> = (0..10u8)
        .map(|i| make_image(vec![i, 0, 0, 0, 1, 0, 0, 0]))
        .collect();
    let numpic = Numpic::new(digits);
    assert_eq!(numpic.get_digit(7).unwrap().width(), 7);
    assert!(numpic.get_digit(10).is_none());

    let entries: Vec<_> = (0..6u8)
        .map(|i| make_image(vec![i, 0, 0, 0, 1, 0, 0, 0]))
        .collect();
    let menupic = Menupic::new(entries);
    assert_eq!(menupic.get_pic(MenuOption::SetTime).width(), 0);
    assert_eq!(menupic.get_pic(MenuOption::Return).width(), 5);
    assert_eq!(menupic.get_pic(MenuOption::TempHumidity).width(), 4);
}
