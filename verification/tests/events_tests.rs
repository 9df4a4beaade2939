use omnitouch::button::ButtonVariant;
use omnitouch::button::VirtualButton;
use omnitouch::button::SENSITIVITY_ONE_BITS;
use omnitouch::events::on_lbutton_down;
use omnitouch::events::on_lbutton_up;
use omnitouch::events::on_tree_item_selected;
use omnitouch::geometry::Point;
use omnitouch::geometry::SerializableRect;
use omnitouch::keys::VK_RETURN;
use omnitouch::motion::on_mouse_move;
use omnitouch::state::Action;
use omnitouch::state::AppState;
use omnitouch::state::ProgramMode;
use omnitouch::touch::on_pointer_down;
use omnitouch::touch::on_pointer_up;
use omnitouch::touch::on_pointer_update;
use omnitouch::touch::TOUCH_OSK_DRAG_SENTINEL;
use omnitouch::touch::TOUCH_OSK_KEY_SENTINEL_BASE;

fn button(l: i32, t: i32, r: i32, b: i32, vk: u16, group: u8, variant: ButtonVariant) -> VirtualButton {
    VirtualButton {
        rect: SerializableRect { left: l, top: t, right: r, bottom: b },
        key_code: vk,
        label: String::from("K"),
        opacity: 180,
        is_pressed: false,
        group,
        variant,
        group_id: 0,
        joystick_bits: (0, 0),
        combo_category: -1,
        group_name: None,
        corner_radius: 25,
        sensitivity_bits: SENSITIVITY_ONE_BITS,
    }
}

fn running(buttons: Vec<VirtualButton>) -> AppState {
    let mut s = AppState::new(buttons);
    s.mode = ProgramMode::Running;
    s
}

fn pt(x: i32, y: i32) -> Point {
    Point { x, y }
}

#[test]
fn plain_button_press_and_release_sends_key_down_and_up() {
    let mut s = running(vec![button(0, 0, 100, 100, 0x41, 0, ButtonVariant::Normal)]);
    let acts = on_lbutton_down(&mut s, pt(10, 20));
    assert_eq!(acts, vec![Action::SetCapture, Action::Key { vk: 0x41, down: true }]);
    assert!(s.buttons[0].is_pressed);
    assert_eq!(s.dragging_button_index, Some(0));
    assert_eq!(s.drag_offset, pt(10, 20));
    assert_eq!(s.last_mouse_pos, pt(10, 20));
    let acts = on_lbutton_up(&mut s);
    assert_eq!(acts, vec![Action::ReleaseCapture, Action::Key { vk: 0x41, down: false }]);
    assert!(!s.buttons[0].is_pressed);
    assert_eq!(s.dragging_button_index, None);
}

#[test]
fn press_goes_to_the_topmost_button() {
    let mut s = running(vec![
        button(0, 0, 100, 100, 0x41, 0, ButtonVariant::Normal),
        button(50, 50, 150, 150, 0x42, 0, ButtonVariant::Normal),
    ]);
    let acts = on_lbutton_down(&mut s, pt(60, 60));
    assert_eq!(acts[1], Action::Key { vk: 0x42, down: true });
    assert!(!s.buttons[0].is_pressed);
    assert!(s.buttons[1].is_pressed);
}

#[test]
fn press_outside_buttons_only_captures() {
    let mut s = running(vec![button(0, 0, 100, 100, 0x41, 0, ButtonVariant::Normal)]);
    let acts = on_lbutton_down(&mut s, pt(100, 100));
    assert_eq!(acts, vec![Action::SetCapture]);
    assert_eq!(s.dragging_button_index, None);
}

#[test]
fn toggle_button_flips_on_each_press() {
    let mut s = running(vec![button(0, 0, 100, 100, 0x43, 1, ButtonVariant::Normal)]);
    let acts = on_lbutton_down(&mut s, pt(5, 5));
    assert_eq!(acts[1], Action::Key { vk: 0x43, down: true });
    let up = on_lbutton_up(&mut s);
    assert_eq!(up, vec![Action::ReleaseCapture]);
    assert!(s.buttons[0].is_pressed);
    let acts = on_lbutton_down(&mut s, pt(5, 5));
    assert_eq!(acts[1], Action::Key { vk: 0x43, down: false });
    assert!(!s.buttons[0].is_pressed);
}

#[test]
fn free_button_taps_on_release() {
    let mut s = running(vec![button(0, 0, 100, 100, 0x44, 5, ButtonVariant::Normal)]);
    let acts = on_lbutton_down(&mut s, pt(5, 5));
    assert_eq!(acts, vec![Action::SetCapture]);
    assert_eq!(s.group_drag_start_pt, pt(5, 5));
    let acts = on_lbutton_up(&mut s);
    assert_eq!(acts, vec![Action::ReleaseCapture, Action::TapKey { vk: 0x44 }]);
}

#[test]
fn free_button_dragged_far_is_no_tap() {
    let mut s = running(vec![button(0, 0, 100, 100, 0x44, 5, ButtonVariant::Normal)]);
    on_lbutton_down(&mut s, pt(5, 5));
    let (redraw, _) = on_mouse_move(&mut s, pt(30, 5), true);
    assert!(redraw);
    assert!(!s.buttons[0].is_pressed);
    assert_eq!(s.buttons[0].rect, SerializableRect { left: 25, top: 0, right: 125, bottom: 100 });
    let acts = on_lbutton_up(&mut s);
    assert_eq!(acts, vec![Action::ReleaseCapture]);
}

#[test]
fn keyboard_button_toggles_the_keyboard_on_release() {
    let mut s = running(vec![button(0, 0, 50, 50, 0, 5, ButtonVariant::OSKToggle)]);
    on_lbutton_down(&mut s, pt(5, 5));
    let acts = on_lbutton_up(&mut s);
    assert_eq!(acts, vec![Action::ReleaseCapture]);
    assert!(s.osk_visible);
    s.use_system_osk = true;
    on_lbutton_down(&mut s, pt(5, 5));
}

#[test]
fn touchpad_moves_the_mouse_relatively() {
    let mut s = running(vec![button(0, 0, 300, 300, 0, 3, ButtonVariant::Normal)]);
    let acts = on_lbutton_down(&mut s, pt(100, 100));
    assert_eq!(acts, vec![Action::SetCapture]);
    assert_eq!(s.touchpad_active_button, Some(0));
    let (redraw, acts) = on_mouse_move(&mut s, pt(110, 95), true);
    assert!(!redraw);
    assert_eq!(acts, vec![Action::MouseRelative { button: 0, dx: 10, dy: -5 }]);
    assert_eq!(s.touchpad_last_pos, pt(110, 95));
    let (_, acts) = on_mouse_move(&mut s, pt(400, 95), true);
    assert_eq!(acts, vec![]);
}

#[test]
fn absolute_pointer_moves_and_holds_its_key() {
    let mut s = running(vec![button(0, 0, 300, 300, 0x01, 4, ButtonVariant::Normal)]);
    let acts = on_lbutton_down(&mut s, pt(7, 8));
    assert_eq!(
        acts,
        vec![Action::SetCapture, Action::MouseAbsolute { pt: pt(7, 8) }, Action::Key { vk: 0x01, down: true }]
    );
    let acts = on_lbutton_up(&mut s);
    assert_eq!(acts, vec![Action::ReleaseCapture, Action::Key { vk: 0x01, down: false }]);
}

#[test]
fn joystick_reports_its_offset() {
    let mut s = running(vec![button(0, 0, 100, 100, 0, 0, ButtonVariant::Joystick)]);
    s.use_virtual_gamepad = true;
    let acts = on_lbutton_down(&mut s, pt(50, 50));
    assert_eq!(acts, vec![Action::SetCapture]);
    let (redraw, acts) = on_mouse_move(&mut s, pt(70, 40), true);
    assert!(redraw);
    assert_eq!(
        acts,
        vec![Action::SetJoystick { button: 0, dx: 20, dy: -10, divisor: 2 }, Action::SyncGamepad]
    );
    s.buttons[0].joystick_bits = (1, 2);
    on_lbutton_up(&mut s);
    assert_eq!(s.buttons[0].joystick_bits, (0, 0));
    assert!(!s.buttons[0].is_pressed);
}

#[test]
fn sliding_between_slide_buttons_switches_keys() {
    let mut s = running(vec![
        button(0, 0, 100, 100, 0x31, 2, ButtonVariant::Normal),
        button(100, 0, 200, 100, 0x32, 2, ButtonVariant::Normal),
    ]);
    on_lbutton_down(&mut s, pt(50, 50));
    let (redraw, acts) = on_mouse_move(&mut s, pt(150, 50), true);
    assert!(redraw);
    assert_eq!(acts, vec![Action::Key { vk: 0x31, down: false }, Action::Key { vk: 0x32, down: true }]);
    assert_eq!(s.dragging_button_index, Some(1));
    assert!(!s.buttons[0].is_pressed);
    assert!(s.buttons[1].is_pressed);
}

#[test]
fn moving_to_the_same_point_does_nothing() {
    let mut s = running(vec![button(0, 0, 100, 100, 0x31, 2, ButtonVariant::Normal)]);
    s.last_mouse_pos = pt(3, 4);
    let (redraw, acts) = on_mouse_move(&mut s, pt(3, 4), true);
    assert!(!redraw);
    assert!(acts.is_empty());
}

#[test]
fn editor_press_selects_and_drags_with_snapping() {
    let mut s = AppState::new(vec![
        button(0, 0, 100, 100, 0x41, 0, ButtonVariant::Normal),
        button(300, 0, 400, 100, 0x42, 0, ButtonVariant::Normal),
    ]);
    s.mode = ProgramMode::Editing;
    let acts = on_lbutton_down(&mut s, pt(310, 10));
    assert_eq!(acts, vec![Action::SetCapture, Action::ShowButtonProperties { button: 1 }]);
    assert_eq!(s.mode, ProgramMode::ButtonDetail(1));
    let again = on_lbutton_down(&mut s, pt(310, 10));
    assert_eq!(again, vec![Action::SetCapture]);
    let (redraw, _) = on_mouse_move(&mut s, pt(115, 13), true);
    assert!(redraw);
    assert_eq!(s.buttons[1].rect, SerializableRect { left: 100, top: 0, right: 200, bottom: 100 });
}

#[test]
fn editor_press_on_empty_space_clears_selection() {
    let mut s = AppState::new(vec![button(0, 0, 100, 100, 0x41, 0, ButtonVariant::Normal)]);
    s.mode = ProgramMode::ButtonDetail(0);
    s.edit_selected_group_id = Some(3);
    let acts = on_lbutton_down(&mut s, pt(500, 500));
    assert_eq!(acts, vec![Action::SetCapture, Action::DestroyPropertyWindow]);
    assert_eq!(s.mode, ProgramMode::Editing);
    assert_eq!(s.edit_selected_group_id, None);
}

#[test]
fn editor_press_near_a_group_selects_the_group() {
    let mut b1 = button(0, 0, 100, 100, 0x41, 0, ButtonVariant::Normal);
    b1.group_id = 9;
    b1.combo_category = 0;
    let mut b2 = button(200, 0, 300, 100, 0x42, 0, ButtonVariant::Normal);
    b2.group_id = 9;
    b2.combo_category = 0;
    let mut b3 = button(0, 500, 100, 600, 0x43, 0, ButtonVariant::Normal);
    b3.group_id = 4;
    b3.combo_category = 0;
    let mut s = AppState::new(vec![b1, b2, b3]);
    s.mode = ProgramMode::Editing;
    let acts = on_lbutton_down(&mut s, pt(150, 103));
    assert_eq!(
        acts,
        vec![Action::SetCapture, Action::ShowComboInstance { category: 0, instance: 0, group_id: 9 }]
    );
    assert_eq!(s.mode, ProgramMode::GroupDetail(9));
    assert_eq!(s.active_group_drag_id, Some(9));
    let (redraw, _) = on_mouse_move(&mut s, pt(160, 113), true);
    assert!(redraw);
    assert_eq!(s.buttons[0].rect, SerializableRect { left: 10, top: 10, right: 110, bottom: 110 });
    assert_eq!(s.buttons[2].rect, SerializableRect { left: 0, top: 500, right: 100, bottom: 600 });
}

#[test]
fn combo_picking_toggles_membership() {
    let mut s = AppState::new(vec![button(0, 0, 100, 100, 0x41, 0, ButtonVariant::Normal)]);
    s.mode = ProgramMode::GroupDetail(5);
    s.combo_select_mode = Some(5);
    let acts = on_lbutton_down(&mut s, pt(1, 1));
    assert_eq!(acts, vec![Action::SetCapture, Action::Invalidate]);
    assert_eq!(s.combo_select_temp, vec![0]);
    on_lbutton_down(&mut s, pt(1, 1));
    assert!(s.combo_select_temp.is_empty());
}

#[test]
fn keyboard_panel_key_press_and_enter_closes() {
    let mut s = running(vec![]);
    s.osk_visible = true;
    let esc = s.osk_buttons[0].rect;
    let p = pt(s.osk_rect.left + esc.left + 1, s.osk_rect.top + esc.top + 1);
    let acts = on_lbutton_down(&mut s, p);
    assert_eq!(acts, vec![Action::OskKey { vk: 0x1B, down: true }]);
    assert!(s.osk_buttons[0].is_pressed);
    let acts = on_lbutton_up(&mut s);
    assert_eq!(acts, vec![Action::ReleaseCapture, Action::OskKey { vk: 0x1B, down: false }]);
    let enter = s.osk_buttons.iter().position(|b| b.key_code == VK_RETURN).unwrap();
    let r = s.osk_buttons[enter].rect;
    let p = pt(s.osk_rect.left + r.left + 1, s.osk_rect.top + r.top + 1);
    let acts = on_lbutton_down(&mut s, p);
    assert_eq!(
        acts,
        vec![
            Action::OskKey { vk: VK_RETURN, down: true },
            Action::OskKey { vk: VK_RETURN, down: false },
            Action::Defocus,
        ]
    );
    assert!(!s.osk_visible);
}

#[test]
fn keyboard_panel_title_starts_a_drag() {
    let mut s = running(vec![]);
    s.osk_visible = true;
    let acts = on_lbutton_down(&mut s, pt(150, 410));
    assert_eq!(acts, vec![Action::SetCapture]);
    assert!(s.is_dragging_osk);
    assert_eq!(s.osk_drag_offset, pt(50, 10));
    let (redraw, _) = on_mouse_move(&mut s, pt(250, 510), true);
    assert!(redraw);
    assert_eq!(s.osk_rect, SerializableRect { left: 200, top: 500, right: 1095, bottom: 845 });
}

#[test]
fn keyboard_panel_close_box_and_outside_close_it() {
    let mut s = running(vec![]);
    s.osk_visible = true;
    let acts = on_lbutton_down(&mut s, pt(990, 405));
    assert_eq!(acts, vec![Action::Defocus]);
    assert!(!s.osk_visible);
    s.osk_visible = true;
    let acts = on_lbutton_down(&mut s, pt(5, 5));
    assert_eq!(acts, vec![Action::Defocus]);
    assert!(!s.osk_visible);
}

#[test]
fn touch_press_move_and_lift() {
    let mut s = running(vec![button(0, 0, 100, 100, 0x41, 0, ButtonVariant::Normal)]);
    let acts = on_pointer_down(&mut s, 7, pt(10, 10));
    assert_eq!(acts, vec![Action::Key { vk: 0x41, down: true }]);
    let rec = s.active_touches.get(&7).copied().unwrap();
    assert_eq!(rec.btn_idx, 0);
    assert_eq!(rec.drag_offset, pt(10, 10));
    let (redraw, acts) = on_pointer_update(&mut s, 7, pt(12, 12));
    assert!(!redraw);
    assert!(acts.is_empty());
    assert_eq!(s.active_touches.get(&7).unwrap().last_pos, pt(12, 12));
    let acts = on_pointer_up(&mut s, 7);
    assert_eq!(acts, vec![Action::Key { vk: 0x41, down: false }]);
    assert!(s.active_touches.is_empty());
    assert!(on_pointer_up(&mut s, 7).is_empty());
}

#[test]
fn two_fingers_hold_two_keys() {
    let mut s = running(vec![
        button(0, 0, 100, 100, 0x41, 0, ButtonVariant::Normal),
        button(200, 0, 300, 100, 0x42, 0, ButtonVariant::Normal),
    ]);
    on_pointer_down(&mut s, 1, pt(10, 10));
    on_pointer_down(&mut s, 2, pt(210, 10));
    assert!(s.buttons[0].is_pressed && s.buttons[1].is_pressed);
    let acts = on_pointer_up(&mut s, 1);
    assert_eq!(acts, vec![Action::Key { vk: 0x41, down: false }]);
    assert!(s.buttons[1].is_pressed);
}

#[test]
fn touch_on_keyboard_keys_uses_sentinels() {
    let mut s = running(vec![]);
    s.osk_visible = true;
    on_pointer_down(&mut s, 3, pt(150, 410));
    assert_eq!(s.active_touches.get(&3).unwrap().btn_idx, TOUCH_OSK_DRAG_SENTINEL);
    let (redraw, _) = on_pointer_update(&mut s, 3, pt(160, 420));
    assert!(redraw);
    assert_eq!(s.osk_rect.left, 110);
    on_pointer_up(&mut s, 3);
    assert!(!s.is_dragging_osk);
    let r = s.osk_buttons[1].rect;
    let p = pt(s.osk_rect.left + r.left + 1, s.osk_rect.top + r.top + 1);
    let acts = on_pointer_down(&mut s, 4, p);
    assert_eq!(acts, vec![Action::OskKey { vk: 0xC0, down: true }]);
    assert_eq!(s.active_touches.get(&4).unwrap().btn_idx, TOUCH_OSK_KEY_SENTINEL_BASE + 0xC0);
    let acts = on_pointer_up(&mut s, 4);
    assert_eq!(acts, vec![Action::OskKey { vk: 0xC0, down: false }]);
    assert!(!s.osk_buttons[1].is_pressed);
}

#[test]
fn touch_slide_moves_the_finger_to_the_next_slide_button() {
    let mut s = running(vec![
        button(0, 0, 100, 100, 0x31, 2, ButtonVariant::Normal),
        button(100, 0, 200, 100, 0x32, 2, ButtonVariant::Normal),
    ]);
    on_pointer_down(&mut s, 1, pt(50, 50));
    let (redraw, acts) = on_pointer_update(&mut s, 1, pt(150, 50));
    assert!(redraw);
    assert_eq!(acts, vec![Action::Key { vk: 0x31, down: false }, Action::Key { vk: 0x32, down: true }]);
    assert_eq!(s.active_touches.get(&1).unwrap().btn_idx, 1);
}

#[test]
fn tree_selection_of_a_button_opens_its_panel() {
    let mut s = AppState::new(vec![button(0, 0, 100, 100, 0x41, 0, ButtonVariant::Normal)]);
    s.combo_select_mode = Some(2);
    s.combo_select_temp = vec![0];
    let (handled, acts) = on_tree_item_selected(&mut s, -1);
    assert!(handled);
    assert_eq!(acts, vec![Action::ShowButtonProperties { button: 0 }]);
    assert_eq!(s.mode, ProgramMode::ButtonDetail(0));
    assert_eq!(s.combo_select_mode, None);
    assert!(s.combo_select_temp.is_empty());
    let (handled, acts) = on_tree_item_selected(&mut s, -1);
    assert!(handled);
    assert!(acts.is_empty());
    let (handled, _) = on_tree_item_selected(&mut s, 3);
    assert!(!handled);
    assert_eq!(s.group_selected, Some(2));
    let (handled, _) = on_tree_item_selected(&mut s, 0);
    assert!(!handled);
}

#[test]
fn emergency_release_releases_everything() {
    let mut s = running(vec![
        button(0, 0, 100, 100, 0x41, 0, ButtonVariant::Normal),
        button(200, 0, 300, 100, 0x42, 0, ButtonVariant::Joystick),
    ]);
    s.use_virtual_gamepad = true;
    on_pointer_down(&mut s, 1, pt(10, 10));
    on_pointer_down(&mut s, 2, pt(210, 10));
    s.buttons[1].joystick_bits = (5, 6);
    s.osk_visible = true;
    let acts = s.emergency_release_all_keys();
    assert_eq!(
        acts,
        vec![
            Action::Key { vk: 0x41, down: false },
            Action::Key { vk: 0x42, down: false },
            Action::SyncGamepad,
            Action::CloseSystemOsk,
        ]
    );
    assert!(!s.buttons[0].is_pressed && !s.buttons[1].is_pressed);
    assert_eq!(s.buttons[1].joystick_bits, (0, 0));
    assert!(s.active_touches.is_empty());
    assert!(!s.osk_visible);
}

#[test]
fn toggle_button_pressed_twice_sends_down_then_up() {
    let mut s = running(vec![button(0, 0, 100, 100, 0x41, 1, ButtonVariant::Normal)]);
    let acts = on_lbutton_down(&mut s, pt(10, 10));
    assert_eq!(acts, vec![Action::SetCapture, Action::Key { vk: 0x41, down: true }]);
    assert!(s.buttons[0].is_pressed);
    let acts = on_lbutton_up(&mut s);
    assert!(s.buttons[0].is_pressed);
    assert!(!acts.contains(&Action::Key { vk: 0x41, down: false }));
    let acts = on_lbutton_down(&mut s, pt(10, 10));
    assert_eq!(acts, vec![Action::SetCapture, Action::Key { vk: 0x41, down: false }]);
    assert!(!s.buttons[0].is_pressed);
}

#[test]
fn finger_records_are_checked_against_the_buttons() {
    let mut s = running(vec![button(0, 0, 100, 100, 0x41, 0, ButtonVariant::Normal)]);
    assert!(omnitouch::touch::check_touch(&s, 3));
    on_pointer_down(&mut s, 3, pt(10, 10));
    assert!(omnitouch::touch::check_touch(&s, 3));
    s.buttons.clear();
    assert!(!omnitouch::touch::check_touch(&s, 3));
}

#[test]
fn release_with_a_stale_drag_index_clears_it() {
    let mut s = running(vec![button(0, 0, 100, 100, 0x41, 0, ButtonVariant::Normal)]);
    s.dragging_button_index = Some(7);
    let acts = on_lbutton_up(&mut s);
    assert_eq!(acts, vec![Action::ReleaseCapture]);
    assert_eq!(s.dragging_button_index, None);
    assert_eq!(s.touchpad_active_button, None);
}
