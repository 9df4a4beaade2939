use omnitouch::button::ButtonVariant;
use omnitouch::button::VirtualButton;
use omnitouch::button::SENSITIVITY_ONE_BITS;
use omnitouch::geometry::Point;
use omnitouch::geometry::SerializableRect;
use omnitouch::hit::find_first_hit;
use omnitouch::hit::find_group_hit;
use omnitouch::hit::find_last_hit;
use omnitouch::hit::get_group_bounding_rect;
use omnitouch::init::GlobalSettings;
use omnitouch::keys::VK_A;
use omnitouch::keys::VK_W;
use omnitouch::osk_layout::osk_row;
use omnitouch::snap::calculate_snap;
use omnitouch::state::AppState;
use omnitouch::state::ProgramMode;

fn button(l: i32, t: i32, r: i32, b: i32, vk: u16, label: &str) -> VirtualButton {
    VirtualButton {
        rect: SerializableRect { left: l, top: t, right: r, bottom: b },
        key_code: vk,
        label: label.to_string(),
        opacity: 180,
        is_pressed: false,
        group: 0,
        variant: ButtonVariant::Normal,
        group_id: 0,
        joystick_bits: (0, 0),
        combo_category: -1,
        group_name: None,
        corner_radius: 25,
        sensitivity_bits: SENSITIVITY_ONE_BITS,
    }
}

fn rect(l: i32, t: i32, r: i32, b: i32) -> SerializableRect {
    SerializableRect { left: l, top: t, right: r, bottom: b }
}

#[test]
fn fresh_state_has_the_starter_button() {
    let s = AppState::new(vec![]);
    assert_eq!(s.buttons.len(), 1);
    let b = &s.buttons[0];
    assert_eq!(b.rect, rect(100, 200, 200, 300));
    assert_eq!(b.key_code, VK_A);
    assert_eq!(b.label, "A");
    assert_eq!(b.opacity, 180);
    assert_eq!(b.combo_category, -1);
    assert_eq!(b.corner_radius, 25);
    assert_eq!(s.mode, ProgramMode::Paused);
    assert_eq!(s.configs_dir, "configs");
    assert_eq!(s.key_categories.len(), 5);
    assert!(s.active_touches.is_empty());
}

#[test]
fn fresh_state_keeps_saved_buttons() {
    let s = AppState::new(vec![button(1, 2, 3, 4, 0x42, "B"), button(5, 6, 7, 8, 0x43, "C")]);
    assert_eq!(s.buttons.len(), 2);
    assert_eq!(s.buttons[1].label, "C");
    assert_eq!(s.buttons[0].rect, rect(1, 2, 3, 4));
}

#[test]
fn keyboard_layout_has_five_rows_of_66_keys() {
    let s = AppState::new(vec![]);
    assert_eq!(s.osk_buttons.len(), 66);
    assert_eq!(s.osk_rect, rect(100, 400, 995, 745));
    let esc = &s.osk_buttons[0];
    assert_eq!(esc.label, "Esc");
    assert_eq!(esc.rect, rect(10, 60, 72, 110));
    assert_eq!(esc.opacity, 200);
    let back = &s.osk_buttons[14];
    assert_eq!(back.label, "⌫");
    assert_eq!(back.rect, rect(792, 60, 885, 110));
    let tab = &s.osk_buttons[15];
    assert_eq!(tab.label, "Tab");
    assert_eq!(tab.rect, rect(10, 115, 103, 165));
    let enter = &s.osk_buttons[42];
    assert_eq!(enter.label, "Enter");
    assert_eq!(enter.rect.right - enter.rect.left, 153);
    assert_eq!(enter.rect.right, 885);
    let lshift = &s.osk_buttons[43];
    let rshift = &s.osk_buttons[55];
    assert_eq!(lshift.label, "Shift");
    assert_eq!(rshift.label, "Shift");
    assert_eq!(lshift.rect.right - lshift.rect.left, 132);
    assert_eq!(rshift.rect.right - rshift.rect.left, 132);
    let space = &s.osk_buttons[59];
    assert_eq!(space.label, "Space");
    assert_eq!(space.rect, rect(211, 280, 519, 330));
    let menu = &s.osk_buttons[65];
    assert_eq!(menu.label, "Menu");
    assert_eq!(menu.rect.bottom, 330);
}

#[test]
fn laying_out_again_keeps_the_panel_corner() {
    let mut s = AppState::new(vec![]);
    s.osk_rect = rect(-20, 7, 0, 0);
    s.generate_osk_layout();
    assert_eq!(s.osk_rect, rect(-20, 7, 875, 352));
    assert_eq!(s.osk_buttons.len(), 66);
}

#[test]
fn keyboard_rows_have_their_key_counts() {
    let counts: Vec<usize> = (0..5).map(|r| osk_row(r).len()).collect();
    assert_eq!(counts, vec![15, 15, 13, 13, 10]);
    assert_eq!(osk_row(2)[0].label, "Caps");
}

#[test]
fn wasd_combo_adds_four_tagged_buttons() {
    let mut s = AppState::new(vec![]);
    s.add_combo(0, 77);
    assert_eq!(s.buttons.len(), 5);
    let w = &s.buttons[1];
    assert_eq!(w.label, "W");
    assert_eq!(w.key_code, VK_W);
    assert_eq!(w.rect, rect(600, 400, 700, 500));
    assert_eq!(w.group_id, 77);
    assert_eq!(w.combo_category, 0);
    assert_eq!(w.group, 2);
    assert_eq!(w.opacity, 180);
    let d = &s.buttons[4];
    assert_eq!(d.label, "D");
    assert_eq!(d.rect, rect(700, 500, 800, 600));
    assert_eq!(s.buttons[0].label, "A");
}

#[test]
fn unknown_combo_adds_nothing() {
    let mut s = AppState::new(vec![]);
    s.add_combo(99, 5);
    assert_eq!(s.buttons.len(), 1);
}

#[test]
fn created_button_has_default_style() {
    let s = AppState::new(vec![]);
    let b = s.create_btn(10, 20, 30, 40, "X".to_string(), 0x58, 3, ButtonVariant::Trigger, 2, 4);
    assert_eq!(b.rect, rect(10, 20, 40, 60));
    assert_eq!(b.variant, ButtonVariant::Trigger);
    assert_eq!(b.group_id, 3);
    assert_eq!(b.combo_category, 2);
    assert_eq!(b.group, 4);
    assert_eq!(b.opacity, 180);
    assert_eq!(b.sensitivity_bits, SENSITIVITY_ONE_BITS);
    assert!(b.group_name.is_none());
}

#[test]
fn hits_find_topmost_and_bottommost_buttons() {
    let bs = vec![button(0, 0, 100, 100, 1, "a"), button(50, 50, 150, 150, 2, "b")];
    assert_eq!(find_last_hit(&bs, Point { x: 60, y: 60 }), Some(1));
    assert_eq!(find_first_hit(&bs, Point { x: 60, y: 60 }), Some(0));
    assert_eq!(find_last_hit(&bs, Point { x: 10, y: 10 }), Some(0));
    assert_eq!(find_last_hit(&bs, Point { x: 150, y: 150 }), None);
    assert_eq!(find_first_hit(&bs, Point { x: 100, y: 100 }), Some(1));
}

#[test]
fn group_bounds_cover_their_members() {
    let mut a = button(0, 0, 100, 100, 1, "a");
    a.group_id = 4;
    let mut b = button(200, 50, 300, 250, 2, "b");
    b.group_id = 4;
    let c = button(500, 500, 600, 600, 3, "c");
    let bs = vec![a, b, c];
    assert_eq!(get_group_bounding_rect(&bs, 4), Some(rect(0, 0, 300, 250)));
    assert_eq!(get_group_bounding_rect(&bs, 9), None);
    assert_eq!(find_group_hit(&bs, Point { x: 150, y: 253 }), Some(4));
    assert_eq!(find_group_hit(&bs, Point { x: 150, y: 255 }), None);
    assert_eq!(find_group_hit(&bs, Point { x: 550, y: 550 }), None);
}

#[test]
fn dragged_button_snaps_to_a_near_edge() {
    let bs = vec![button(0, 0, 100, 100, 1, "a"), button(200, 0, 300, 100, 2, "b")];
    assert_eq!(calculate_snap(1, rect(105, 3, 205, 103), &bs, 10), (100, 0));
    assert_eq!(calculate_snap(1, rect(150, 50, 250, 150), &bs, 10), (150, 50));
    assert_eq!(calculate_snap(1, rect(-95, 0, 5, 100), &bs, 10), (-100, 0));
}

#[test]
fn snapping_moves_at_most_the_snap_distance() {
    let bs = vec![button(0, 0, 100, 100, 1, "a"), button(37, 411, 90, 470, 2, "b"), button(200, 0, 300, 100, 3, "c")];
    for x in (-50..350).step_by(7) {
        for y in (-50..500).step_by(11) {
            let r = rect(x, y, x + 100, y + 100);
            let (nx, ny) = calculate_snap(2, r, &bs, 10);
            assert!((nx - x).abs() <= 10 && (ny - y).abs() <= 10);
        }
    }
}

#[test]
fn global_settings_round_trip() {
    let mut s = AppState::new(vec![]);
    let g = GlobalSettings { use_system_osk: true, use_virtual_gamepad: false, minimize_to_tray: true };
    s.apply_global_settings(g);
    assert_eq!(s.global_settings(), g);
    assert!(s.use_system_osk && s.minimize_to_tray && !s.use_virtual_gamepad);
}

#[test]
fn unsaved_changes_only_with_a_selected_configuration() {
    let mut s = AppState::new(vec![button(0, 0, 10, 10, 1, "a")]);
    let saved = vec![button(0, 0, 10, 10, 1, "a")];
    assert!(!s.has_unsaved_changes(&saved));
    s.configs = vec!["a.json".to_string()];
    s.config_selected = Some(0);
    assert!(!s.has_unsaved_changes(&saved));
    s.buttons[0].is_pressed = true;
    assert!(!s.has_unsaved_changes(&saved));
    s.buttons[0].label = "b".to_string();
    assert!(s.has_unsaved_changes(&saved));
    assert!(s.has_unsaved_changes(&vec![]));
    s.config_selected = Some(3);
    assert!(!s.has_unsaved_changes(&saved));
}

#[test]
fn keyboard_keys_fit_the_panel_and_do_not_overlap() {
    let s = AppState::new(vec![]);
    let w = s.osk_rect.right - s.osk_rect.left;
    let h = s.osk_rect.bottom - s.osk_rect.top;
    for (i, a) in s.osk_buttons.iter().enumerate() {
        assert!(10 <= a.rect.left && a.rect.left <= a.rect.right && a.rect.right <= 885 && a.rect.right < w);
        assert!(60 <= a.rect.top && a.rect.top < a.rect.bottom && a.rect.bottom <= 330 && a.rect.bottom < h);
        for b in s.osk_buttons.iter().skip(i + 1) {
            let overlap = a.rect.left < b.rect.right && b.rect.left < a.rect.right && a.rect.top < b.rect.bottom && b.rect.top < a.rect.bottom;
            assert!(!overlap);
        }
    }
}

#[test]
fn buttons_saved_as_they_are_show_no_change() {
    let mut s = AppState::new(vec![button(0, 0, 10, 10, 1, "a"), button(5, 5, 50, 50, 2, "b")]);
    s.configs = vec!["a.json".to_string()];
    s.config_selected = Some(0);
    s.buttons[1].group_name = Some("组".to_string());
    let copy: Vec<VirtualButton> = s.buttons.iter().map(|b| b.clone()).collect();
    assert!(!s.has_unsaved_changes(&copy));
}
