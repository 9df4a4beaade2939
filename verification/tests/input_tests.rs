use omnitouch::button::ButtonVariant;
use omnitouch::button::VirtualButton;
use omnitouch::button::SENSITIVITY_ONE_BITS;
use omnitouch::gamepad::report_buttons;
use omnitouch::gamepad::report_source;
use omnitouch::gamepad::Slot;
use omnitouch::geometry::Point;
use omnitouch::geometry::SerializableRect;
use omnitouch::keys::gamepad_button_mask;
use omnitouch::keys::is_extended_key;
use omnitouch::keys::is_injected_signature;
use omnitouch::keys::is_touch_signature;
use omnitouch::keys::map_gamepad_to_vk;
use omnitouch::keys::normalized;
use omnitouch::keys::plan_key_input;
use omnitouch::keys::KeyInput;
use omnitouch::scroll::pan_started;
use omnitouch::scroll::panel_request;
use omnitouch::scroll::panel_resize;
use omnitouch::scroll::panel_wheel;
use omnitouch::scroll::settings_scroll;
use omnitouch::scroll::settings_wheel;
use omnitouch::state::AppState;
use omnitouch::state::ProgramMode;
use omnitouch::window::can_start_mapping;
use omnitouch::window::close_hides_to_tray;
use omnitouch::window::editor_close_decision;
use omnitouch::window::editor_should_close;
use omnitouch::window::finish_editing;
use omnitouch::window::point_of;
use omnitouch::window::start_mapping;
use omnitouch::window::stop_mapping;
use omnitouch::window::switch_mark;
use omnitouch::window::toggle_setting;
use omnitouch::window::wheel_delta;
use omnitouch::window::CloseAnswer;
use omnitouch::window::CloseDecision;
use omnitouch::window::Setting;

fn button(vk: u16, label: &str, variant: ButtonVariant, pressed: bool) -> VirtualButton {
    VirtualButton {
        rect: SerializableRect { left: 0, top: 0, right: 10, bottom: 10 },
        key_code: vk,
        label: label.to_string(),
        opacity: 180,
        is_pressed: pressed,
        group: 0,
        variant,
        group_id: 0,
        joystick_bits: (0, 0),
        combo_category: -1,
        group_name: None,
        corner_radius: 25,
        sensitivity_bits: SENSITIVITY_ONE_BITS,
    }
}

#[test]
fn keys_become_scan_code_or_mouse_events() {
    assert_eq!(plan_key_input(0x01, true), KeyInput::Mouse { flags: 0x0002 });
    assert_eq!(plan_key_input(0x01, false), KeyInput::Mouse { flags: 0x0004 });
    assert_eq!(plan_key_input(0x02, true), KeyInput::Mouse { flags: 0x0008 });
    assert_eq!(plan_key_input(0x02, false), KeyInput::Mouse { flags: 0x0010 });
    assert_eq!(plan_key_input(0x41, true), KeyInput::Keyboard { vk: 0x41, flags: 0x0008 });
    assert_eq!(plan_key_input(0x41, false), KeyInput::Keyboard { vk: 0x41, flags: 0x000A });
    assert_eq!(plan_key_input(0x25, false), KeyInput::Keyboard { vk: 0x25, flags: 0x000B });
    assert!(is_extended_key(0x2E));
    assert!(!is_extended_key(0x20));
}

#[test]
fn gamepad_keys_have_stand_ins_and_report_bits() {
    assert_eq!(map_gamepad_to_vk(0xC3), Some(0x20));
    assert_eq!(map_gamepad_to_vk(0xCF), Some(0x0D));
    assert_eq!(map_gamepad_to_vk(0x41), None);
    assert_eq!(gamepad_button_mask(0xC3), 0x1000);
    assert_eq!(gamepad_button_mask(0xCB), 0x0001);
    assert_eq!(gamepad_button_mask(0x41), 0);
}

#[test]
fn input_signatures_are_recognised() {
    assert!(is_injected_signature(0xFFC3C3));
    assert!(!is_injected_signature(0xFFC3C4));
    assert!(is_touch_signature(0xFF51_5701));
    assert!(!is_touch_signature(0xFF52_5701));
}

#[test]
fn absolute_mouse_coordinates_span_65536() {
    assert_eq!(normalized(960, 1920), 32768);
    assert_eq!(normalized(0, 1920), 0);
    assert_eq!(normalized(1919, 1920), 65501);
    assert_eq!(normalized(-10, 1920), -341);
}

#[test]
fn gamepad_report_takes_held_buttons() {
    let bs = vec![
        button(0xC3, "A", ButtonVariant::Normal, true),
        button(0xCB, "Up", ButtonVariant::Normal, true),
        button(0xC4, "B", ButtonVariant::Normal, false),
        button(0xC5, "L-Stick", ButtonVariant::Joystick, true),
        button(0x41, "LT", ButtonVariant::Trigger, true),
        button(0x41, "LT", ButtonVariant::Trigger, true),
        button(0x41, "RT", ButtonVariant::Trigger, false),
    ];
    assert_eq!(report_buttons(&bs), 0x1001);
    assert_eq!(report_source(&bs, Slot::LeftTrigger), Some(5));
    assert_eq!(report_source(&bs, Slot::RightTrigger), None);
    assert_eq!(report_source(&bs, Slot::LeftStick), Some(3));
    assert_eq!(report_source(&bs, Slot::RightStick), None);
    assert_eq!(report_buttons(&vec![]), 0);
}

#[test]
fn settings_page_scrolls_within_its_content() {
    assert_eq!(settings_scroll(0, -50, 300, false), 50);
    assert_eq!(settings_scroll(100, -50, 300, false), 110);
    assert_eq!(settings_scroll(10, 50, 300, false), 0);
    assert_eq!(settings_scroll(10, -50, 400, true), 0);
    assert_eq!(settings_scroll(0, -500, 300, true), 30);
    assert_eq!(settings_wheel(0, -120, 300, false), 40);
    assert_eq!(settings_wheel(40, 120, 300, false), 0);
    assert_eq!(settings_wheel(0, -100, 300, false), 0);
}

#[test]
fn property_panel_scrolls_within_its_range() {
    assert_eq!(panel_wheel(0, -240, 500, 200), 80);
    assert_eq!(panel_wheel(300, -240, 500, 200), 301);
    assert_eq!(panel_request(1, 0, 0, 500, 200, 0, 0), 30);
    assert_eq!(panel_request(0, 10, 0, 500, 200, 0, 0), 0);
    assert_eq!(panel_request(3, 0, 0, 500, 200, 0, 0), 200);
    assert_eq!(panel_request(2, 250, 0, 500, 200, 0, 0), 50);
    assert_eq!(panel_request(4, 0, 0, 500, 200, 0, 77), 77);
    assert_eq!(panel_request(5, 0, 0, 500, 200, 12, 77), 12);
    assert_eq!(panel_request(6, 90, 0, 500, 200, 0, 0), 0);
    assert_eq!(panel_request(7, 90, 0, 500, 200, 0, 0), 301);
    assert_eq!(panel_request(8, 90, 0, 500, 200, 0, 0), 90);
    assert_eq!(panel_resize(250, 400, 300), Some(101));
    assert_eq!(panel_resize(50, 400, 300), None);
    assert_eq!(panel_resize(5, 100, 300), Some(0));
}

#[test]
fn pan_starts_after_eight_pixels() {
    assert!(!pan_started(100, false, 107));
    assert!(pan_started(100, false, 108));
    assert!(pan_started(100, false, 92));
    assert!(pan_started(100, true, 100));
}

#[test]
fn message_parameters_unpack_signed_words() {
    assert_eq!(point_of(0x0020_0030), Point { x: 48, y: 32 });
    assert_eq!(point_of(0xFFFF_0010), Point { x: 16, y: -1 });
    assert_eq!(point_of(0x0005_FFF6), Point { x: -10, y: 5 });
    assert_eq!(wheel_delta(0xFF88_0000), -120);
    assert_eq!(wheel_delta(0x0078_0000), 120);
}

#[test]
fn editor_closes_by_the_answer() {
    assert_eq!(editor_close_decision(false, CloseAnswer::Cancel), CloseDecision::Close);
    assert_eq!(editor_close_decision(true, CloseAnswer::Yes), CloseDecision::SaveAndClose);
    assert_eq!(editor_close_decision(true, CloseAnswer::No), CloseDecision::RevertAndClose);
    assert_eq!(editor_close_decision(true, CloseAnswer::Cancel), CloseDecision::Stay);
    assert!(editor_should_close(ProgramMode::Menu));
    assert!(editor_should_close(ProgramMode::Paused));
    assert!(!editor_should_close(ProgramMode::Editing));
}

#[test]
fn settings_switches_flip_and_flip_back() {
    let mut s = AppState::new(vec![]);
    for which in [Setting::AutoStart, Setting::SystemOsk, Setting::VirtualGamepad, Setting::MinimizeToTray] {
        assert!(toggle_setting(&mut s, which));
        assert!(!toggle_setting(&mut s, which));
    }
    assert!(toggle_setting(&mut s, Setting::MinimizeToTray));
    assert!(close_hides_to_tray(&s));
    assert_eq!(switch_mark(true), "✅");
    assert_eq!(switch_mark(false), "❌");
}

#[test]
fn mapping_starts_only_with_a_configuration() {
    let mut s = AppState::new(vec![button(0x41, "A", ButtonVariant::Normal, false)]);
    assert!(!can_start_mapping(&s));
    s.config_selected = Some(0);
    assert!(can_start_mapping(&s));
    start_mapping(&mut s);
    assert_eq!(s.mode, ProgramMode::Running);
    s.buttons[0].is_pressed = true;
    s.buttons[0].joystick_bits = (3, 4);
    let acts = stop_mapping(&mut s);
    assert!(!acts.is_empty());
    assert!(!s.buttons[0].is_pressed);
    assert_eq!(s.buttons[0].joystick_bits, (0, 0));
    finish_editing(&mut s);
    assert_eq!(s.mode, ProgramMode::Menu);
}

#[test]
fn gamepad_failures_have_their_messages() {
    assert_eq!(omnitouch::gamepad::gamepad_failure_message(4), "ViGEm 客户端内存分配失败。");
    assert_eq!(omnitouch::gamepad::gamepad_failure_message(5), "ViGEm 客户端连接失败 (可能是总线驱动未启动)。");
    assert_eq!(omnitouch::gamepad::gamepad_failure_message(6), "ViGEm 手柄目标分配失败。");
    assert_eq!(omnitouch::gamepad::gamepad_failure_message(7), "ViGEm 接入系统失败。");
    assert_eq!(omnitouch::gamepad::gamepad_failure_message(0), "ViGEm 虚拟手柄初始化失败。");
    assert_eq!(omnitouch::gamepad::gamepad_failure_message(9), "ViGEm 虚拟手柄初始化失败。");
}

#[test]
fn screen_pixels_map_into_the_absolute_range() {
    for (v, size) in [(0, 1), (0, 1920), (1919, 1920), (32767, 32768), (2159, 2160)] {
        let n = normalized(v, size);
        assert!((0..65536).contains(&n), "{} {} {}", v, size, n);
    }
}

#[test]
fn gamepad_keys_are_injected_as_their_keyboard_stand_ins() {
    // A (0xC3) becomes Space, a plain key
    assert_eq!(plan_key_input(0xC3, true), KeyInput::Keyboard { vk: 0x20, flags: 0x0008 });
    assert_eq!(plan_key_input(0xC3, false), KeyInput::Keyboard { vk: 0x20, flags: 0x000A });
    // D-pad up (0xCB) becomes the Up arrow, an extended key
    assert_eq!(plan_key_input(0xCB, true), KeyInput::Keyboard { vk: 0x26, flags: 0x0009 });
    // the right thumbstick button (0xD2) becomes left Control
    assert_eq!(plan_key_input(0xD2, false), KeyInput::Keyboard { vk: 0xA2, flags: 0x000A });
    // a gamepad key without a stand-in (the right trigger, 0xCA) is sent as it is
    assert_eq!(plan_key_input(0xCA, true), KeyInput::Keyboard { vk: 0xCA, flags: 0x0008 });
}
