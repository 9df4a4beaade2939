use omnitouch::button::ButtonVariant;
use omnitouch::button::VirtualButton;
use omnitouch::button::SENSITIVITY_ONE_BITS;
use omnitouch::geometry::SerializableRect;
use omnitouch::groups::cancel_member_pick;
use omnitouch::groups::confirm_member_pick;
use omnitouch::groups::delete_group;
use omnitouch::groups::rename_group;
use omnitouch::groups::start_member_pick;
use omnitouch::ids::IdFilter;
use omnitouch::props::apply_number_text;
use omnitouch::props::delete_button;
use omnitouch::props::duplicate_button;
use omnitouch::props::pick_key;
use omnitouch::props::set_height;
use omnitouch::props::set_interaction_group;
use omnitouch::props::set_opacity;
use omnitouch::props::set_opacity_from_slider;
use omnitouch::props::set_radius;
use omnitouch::props::set_width;
use omnitouch::props::text_focus_changed;
use omnitouch::props::NumberField;
use omnitouch::sidebar::count_group;
use omnitouch::sidebar::find_nth_id;
use omnitouch::sidebar::group_display_name;
use omnitouch::sidebar::instance_label;
use omnitouch::sidebar::item_of;
use omnitouch::sidebar::list_members;
use omnitouch::sidebar::on_sidebar_select;
use omnitouch::sidebar::pane_tag;
use omnitouch::sidebar::pane_untag;
use omnitouch::sidebar::preset_instance_ids;
use omnitouch::sidebar::tag_of;
use omnitouch::sidebar::Members;
use omnitouch::sidebar::TreeItem;
use omnitouch::state::Action;
use omnitouch::state::AppState;
use omnitouch::state::ProgramMode;

fn button(vk: u16, label: &str, gid: u32, cat: i32) -> VirtualButton {
    VirtualButton {
        rect: SerializableRect { left: 10, top: 20, right: 110, bottom: 120 },
        key_code: vk,
        label: label.to_string(),
        opacity: 180,
        is_pressed: false,
        group: 0,
        variant: ButtonVariant::Normal,
        group_id: gid,
        joystick_bits: (0, 0),
        combo_category: cat,
        group_name: None,
        corner_radius: 25,
        sensitivity_bits: SENSITIVITY_ONE_BITS,
    }
}

fn editor(bs: Vec<VirtualButton>) -> AppState {
    let mut s = AppState::new(bs);
    s.mode = ProgramMode::Editing;
    s
}

#[test]
fn picking_a_key_takes_its_catalogue_label() {
    let mut s = editor(vec![button(0x41, "A", 0, -1)]);
    assert_eq!(pick_key(&mut s, 0, 0x41), None);
    assert_eq!(pick_key(&mut s, 0, 0x1B), Some("Esc".to_string()));
    assert_eq!(s.buttons[0].key_code, 0x1B);
    assert_eq!(s.buttons[0].label, "Esc");
    assert_eq!(pick_key(&mut s, 0, 0x99), Some("VK (0x99)".to_string()));
    assert_eq!(s.buttons[0].key_code, 0x99);
    assert_eq!(s.buttons[0].label, "Esc");
    assert_eq!(pick_key(&mut s, 0, 0xC3), Some("A".to_string()));
    assert_eq!(pick_key(&mut s, 0, 0x70), Some("F1".to_string()));
    assert_eq!(s.buttons[0].label, "F1");
}

#[test]
fn sizes_have_a_floor_of_ten() {
    let mut s = editor(vec![button(0x41, "A", 0, -1)]);
    assert_eq!(set_width(&mut s, 0, 5), 10);
    assert_eq!(s.buttons[0].rect, SerializableRect { left: 10, top: 20, right: 20, bottom: 120 });
    assert_eq!(set_height(&mut s, 0, 150), 150);
    assert_eq!(s.buttons[0].rect.bottom, 170);
}

#[test]
fn opacity_and_radius_are_clamped() {
    let mut s = editor(vec![button(0x41, "A", 0, -1)]);
    assert!(set_opacity(&mut s, 0, 300));
    assert_eq!(s.buttons[0].opacity, 255);
    assert!(!set_opacity(&mut s, 0, 999));
    assert!(set_opacity(&mut s, 0, -5));
    assert_eq!(s.buttons[0].opacity, 0);
    assert!(set_radius(&mut s, 0, 600));
    assert_eq!(s.buttons[0].corner_radius, 500);
    assert!(!set_radius(&mut s, 0, 500));
    set_opacity_from_slider(&mut s, 0, 0x1FF);
    assert_eq!(s.buttons[0].opacity, 255);
    set_opacity_from_slider(&mut s, 0, 0x12C);
    assert_eq!(s.buttons[0].opacity, 0x2C);
}

#[test]
fn typed_numbers_apply_to_their_field() {
    let mut s = editor(vec![button(0x41, "A", 0, -1)]);
    assert!(!apply_number_text(&mut s, 0, NumberField::Width, ""));
    assert!(!apply_number_text(&mut s, 0, NumberField::Width, "abc"));
    assert_eq!(s.buttons[0].rect.right, 110);
    assert!(apply_number_text(&mut s, 0, NumberField::Width, "40"));
    assert_eq!(s.buttons[0].rect.right, 50);
    assert!(apply_number_text(&mut s, 0, NumberField::Height, "-3"));
    assert_eq!(s.buttons[0].rect.bottom, 30);
    assert!(!apply_number_text(&mut s, 0, NumberField::Opacity, "180"));
    assert!(apply_number_text(&mut s, 0, NumberField::Opacity, "90"));
    assert_eq!(s.buttons[0].opacity, 90);
    assert!(apply_number_text(&mut s, 0, NumberField::Radius, "7"));
    assert_eq!(s.buttons[0].corner_radius, 7);
}

#[test]
fn duplicate_and_delete_buttons() {
    let mut s = editor(vec![button(0x41, "A", 0, -1), button(0x42, "B", 0, -1)]);
    duplicate_button(&mut s, 0);
    assert_eq!(s.buttons.len(), 3);
    assert_eq!(s.buttons[2].label, "A_副本");
    assert_eq!(s.buttons[2].rect, SerializableRect { left: 40, top: 50, right: 140, bottom: 150 });
    assert_eq!(s.buttons[2].key_code, 0x41);
    s.mode = ProgramMode::ButtonDetail(1);
    delete_button(&mut s, 1);
    assert_eq!(s.buttons.len(), 2);
    assert_eq!(s.buttons[1].label, "A_副本");
    assert_eq!(s.mode, ProgramMode::Editing);
}

#[test]
fn interaction_group_changes_report_mouse_kinds() {
    let mut s = editor(vec![button(0x41, "A", 0, -1)]);
    assert_eq!(set_interaction_group(&mut s, 0, 3), Some(true));
    assert_eq!(s.buttons[0].group, 3);
    assert_eq!(set_interaction_group(&mut s, 0, 3), None);
    assert_eq!(set_interaction_group(&mut s, 0, -1), None);
    assert_eq!(set_interaction_group(&mut s, 0, 2), Some(false));
    assert_eq!(set_interaction_group(&mut s, 0, 6), Some(true));
}

#[test]
fn text_focus_shows_the_virtual_keyboard() {
    let mut s = editor(vec![]);
    assert_eq!(text_focus_changed(&mut s, true), (true, false));
    assert!(s.osk_visible);
    assert_eq!(text_focus_changed(&mut s, false), (true, false));
    assert!(!s.osk_visible);
    s.use_system_osk = true;
    assert_eq!(text_focus_changed(&mut s, true), (false, true));
    assert!(!s.osk_visible);
}

#[test]
fn renaming_a_group_names_all_its_buttons() {
    let mut s = editor(vec![button(1, "a", 7, 0), button(2, "b", 0, -1), button(3, "c", 7, 0)]);
    rename_group(&mut s, 7, &"左手".to_string());
    assert_eq!(s.buttons[0].group_name.as_deref(), Some("左手"));
    assert_eq!(s.buttons[1].group_name, None);
    assert_eq!(s.buttons[2].group_name.as_deref(), Some("左手"));
}

#[test]
fn member_pick_moves_buttons_in_and_out() {
    let mut s = editor(vec![button(1, "a", 7, 0), button(2, "b", 7, 0), button(3, "c", 0, -1), button(4, "d", 8, 1)]);
    start_member_pick(&mut s, 7);
    assert_eq!(s.combo_select_mode, Some(7));
    assert_eq!(s.combo_select_temp, vec![0, 1]);
    s.combo_select_temp = vec![1, 2];
    confirm_member_pick(&mut s, 7);
    assert_eq!((s.buttons[0].group_id, s.buttons[0].combo_category), (0, -1));
    assert_eq!((s.buttons[1].group_id, s.buttons[1].combo_category), (7, 0));
    assert_eq!((s.buttons[2].group_id, s.buttons[2].combo_category), (7, 0));
    assert_eq!((s.buttons[3].group_id, s.buttons[3].combo_category), (8, 1));
    assert_eq!(s.combo_select_mode, None);
    assert!(s.combo_select_temp.is_empty());
}

#[test]
fn member_pick_of_an_empty_group_makes_a_custom_combo() {
    let mut s = editor(vec![button(1, "a", 0, -1)]);
    start_member_pick(&mut s, 12);
    assert!(s.combo_select_temp.is_empty());
    s.combo_select_temp = vec![0];
    confirm_member_pick(&mut s, 12);
    assert_eq!((s.buttons[0].group_id, s.buttons[0].combo_category), (12, 5));
}

#[test]
fn cancelled_member_pick_changes_no_button() {
    let mut s = editor(vec![button(1, "a", 7, 0)]);
    start_member_pick(&mut s, 7);
    cancel_member_pick(&mut s);
    assert_eq!(s.combo_select_mode, None);
    assert!(s.combo_select_temp.is_empty());
    assert_eq!(s.buttons[0].group_id, 7);
}

#[test]
fn deleting_a_group_removes_its_buttons() {
    let mut s = editor(vec![button(1, "a", 7, 0), button(2, "b", 0, -1), button(3, "c", 7, 0)]);
    delete_group(&mut s, 0);
    assert_eq!(s.buttons.len(), 3);
    delete_group(&mut s, 7);
    assert_eq!(s.buttons.len(), 1);
    assert_eq!(s.buttons[0].label, "b");
}

#[test]
fn tags_read_back_as_their_items() {
    let items = [TreeItem::Folder, TreeItem::Group(0), TreeItem::Group(6), TreeItem::Button(0), TreeItem::Button(41), TreeItem::Preset(4), TreeItem::Instance(2, 5)];
    for it in items {
        assert_eq!(item_of(tag_of(it)), it);
    }
    assert_eq!(tag_of(TreeItem::Button(3)), -4);
    assert_eq!(tag_of(TreeItem::Instance(2, 5)), 22005);
    assert_eq!(tag_of(TreeItem::Preset(4)), 1004);
    assert_eq!(tag_of(TreeItem::Group(2)), 3);
    assert_eq!(item_of(8), TreeItem::Other);
    assert_eq!(item_of(500), TreeItem::Other);
}

#[test]
fn pane_tags_pack_kind_and_index() {
    assert_eq!(pane_tag(1, 5), 65541);
    assert_eq!(pane_untag(65541), (1, 5));
    assert_eq!(pane_untag(pane_tag(0, 3)), (0, 3));
}

#[test]
fn sidebar_lists_and_names_instances() {
    let mut b1 = button(2, "b", 3, 0);
    b1.group_name = Some("甲".to_string());
    let bs = vec![button(1, "a", 5, 0), b1, button(3, "c", 9, 1), button(4, "d", 0, -1)];
    assert_eq!(find_nth_id(&bs, IdFilter::Category(0), 0), Some(3));
    assert_eq!(find_nth_id(&bs, IdFilter::Category(0), 1), Some(5));
    assert_eq!(find_nth_id(&bs, IdFilter::Category(0), 2), None);
    assert_eq!(find_nth_id(&bs, IdFilter::Grouped, 2), Some(9));
    assert_eq!(instance_label(&bs, 0, 3, 0), "甲");
    assert_eq!(instance_label(&bs, 0, 5, 1), "组合 2");
    assert_eq!(group_display_name(&bs, 5, 0), "组合 1");
    assert_eq!(group_display_name(&bs, 3, 4), "甲");
    assert_eq!(count_group(&bs, 5), 1);
    assert_eq!(count_group(&bs, 42), 0);
    assert_eq!(list_members(&bs, Members::Plain(0)), vec![3]);
    assert_eq!(list_members(&bs, Members::Instance(0, 5)), vec![0]);
    assert_eq!(list_members(&bs, Members::Group(9)), vec![2]);
}

#[test]
fn sidebar_selection_opens_the_right_panel() {
    let mut b1 = button(2, "b", 3, 0);
    b1.group_name = Some("甲".to_string());
    let mut s = editor(vec![button(1, "a", 5, 0), b1]);
    assert_eq!(on_sidebar_select(&mut s, -1), vec![Action::ShowButtonProperties { button: 0 }, Action::Invalidate]);
    assert_eq!(s.mode, ProgramMode::ButtonDetail(0));
    assert_eq!(on_sidebar_select(&mut s, 20001), vec![Action::ShowComboInstance { category: 0, instance: 1, group_id: 5 }]);
    assert_eq!(on_sidebar_select(&mut s, 20007), vec![]);
    assert_eq!(on_sidebar_select(&mut s, 1003), vec![Action::ShowCategoryAdd { kind: 0, index: 3 }]);
    assert_eq!(on_sidebar_select(&mut s, 2), vec![Action::ShowCategoryAdd { kind: 1, index: 1 }]);
    assert_eq!(on_sidebar_select(&mut s, 0), vec![Action::DestroyPropertyWindow]);
    assert_eq!(on_sidebar_select(&mut s, 50), vec![]);
    assert_eq!(s.mode, ProgramMode::ButtonDetail(0));
}

#[test]
fn category_panel_adds_the_group_button() {
    let mut s = editor(vec![]);
    let before = s.buttons.len();
    s.add_category_button(6);
    let b = &s.buttons[before];
    assert_eq!(b.rect, SerializableRect { left: 400, top: 400, right: 550, bottom: 550 });
    assert_eq!(b.variant, ButtonVariant::Joystick);
    assert_eq!(b.label, "鼠标摇杆");
    assert_eq!(b.corner_radius, 75);
    assert_eq!(b.group, 6);
    s.add_category_button(4);
    let b = &s.buttons[before + 1];
    assert_eq!(b.key_code, 0x01);
    assert_eq!(b.label, "绝对鼠标");
    assert_eq!(b.rect, SerializableRect { left: 400, top: 400, right: 500, bottom: 500 });
    s.add_category_button(2);
    let b = &s.buttons[before + 2];
    assert_eq!(b.key_code, 0x41);
    assert_eq!(b.label, "触控板");
    assert_eq!(b.variant, ButtonVariant::Normal);
    assert_eq!(b.corner_radius, 25);
    assert_eq!(b.combo_category, -1);
}

#[test]
fn sidebar_lists_each_listed_button_once() {
    let mut grouped = button(0x42, "B", 0, -1);
    grouped.group = 9;
    let bs = vec![
        button(0x41, "A", 0, -1),
        button(0x57, "W", 500, 0),
        button(0x53, "S", 300, 0),
        button(0x31, "1", 300, 0),
        button(0x32, "2", 700, 2),
        grouped,
        button(0x33, "3", 800, 6),
    ];
    let ids = preset_instance_ids(&bs);
    assert_eq!(ids, vec![vec![300, 500], vec![], vec![700], vec![], vec![], vec![]]);
    let mut seen: Vec<usize> = Vec::new();
    for g in 0..7u8 {
        seen.extend(list_members(&bs, Members::Plain(g)));
    }
    for (p, list) in ids.iter().enumerate() {
        for gid in list {
            seen.extend(list_members(&bs, Members::Instance(p as i32, *gid)));
        }
    }
    assert_eq!(seen, vec![0, 2, 3, 1, 4]);
}
