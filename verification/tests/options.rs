use shambala::game::options_menu::{OptionsItemType, OptionsMenu, OptionsTab};
use shambala::resources::input_state::{InputAction, InputState, InputStateResource};

fn press(action: InputAction) -> InputStateResource {
    let mut input = InputStateResource::new();
    input.set_action(action, InputState::Pressed);
    input
}

#[test]
fn test_options_menu_creation() {
    let menu = OptionsMenu::new();
    assert!(!menu.visible);
    assert_eq!(menu.tabs.len(), 3);
    assert_eq!(menu.items.len(), 3);
}

#[test]
fn test_open_close() {
    let mut menu = OptionsMenu::new();
    menu.open();
    assert!(menu.visible);
    menu.close();
    assert!(!menu.visible);
}

#[test]
fn test_audio_items_count() {
    let items = OptionsMenu::create_audio_items();
    assert_eq!(items.len(), 4);
}

#[test]
fn test_controls_items_count() {
    let items = OptionsMenu::create_controls_items();
    assert_eq!(items.len(), 6);
}

#[test]
fn test_display_items_count() {
    let items = OptionsMenu::create_display_items();
    assert_eq!(items.len(), 4);
}

#[test]
fn test_tab_navigation() {
    let mut menu = OptionsMenu::new();
    menu.open();
    let input = press(InputAction::MoveRight);
    menu.update(&input);
    assert_eq!(menu.selected_tab, 1);
}

#[test]
fn test_slider_adjustment() {
    let mut menu = OptionsMenu::new();
    menu.open();
    let input = press(InputAction::Confirm);
    menu.update(&input);
    let adjust_input = press(InputAction::MoveLeft);
    menu.update(&adjust_input);
    let confirm_input = press(InputAction::Confirm);
    menu.update(&confirm_input);
}

#[test]
fn test_close_with_cancel() {
    let mut menu = OptionsMenu::new();
    menu.open();
    let input = press(InputAction::Cancel);
    menu.update(&input);
    assert!(!menu.visible);
}

#[test]
fn slider_steps_and_commits_its_value() {
    let mut menu = OptionsMenu::new();
    menu.open();
    assert_eq!(menu.update(&press(InputAction::Confirm)), None);
    assert!(menu.is_adjusting);
    assert_eq!(menu.update(&press(InputAction::MoveRight)), None);
    assert!(matches!(menu.items[0][0].item_type, OptionsItemType::Slider { current: 100, .. }));
    menu.update(&press(InputAction::MoveLeft));
    menu.update(&press(InputAction::MoveLeft));
    assert!(matches!(menu.items[0][0].item_type, OptionsItemType::Slider { current: 90, .. }));
    assert_eq!(menu.update(&press(InputAction::Confirm)), Some(90));
    assert!(!menu.is_adjusting);
    assert_eq!(menu.items[0][0].value, "90%");
    assert_eq!(menu.items[0][1].value, "70%");
}

#[test]
fn slider_stops_at_zero() {
    let mut menu = OptionsMenu::new();
    menu.open();
    menu.update(&press(InputAction::MoveDown));
    menu.update(&press(InputAction::Confirm));
    for _ in 0..20 {
        menu.update(&press(InputAction::MoveLeft));
    }
    assert!(matches!(menu.items[0][1].item_type, OptionsItemType::Slider { current: 0, .. }));
    assert_eq!(menu.update(&press(InputAction::Confirm)), Some(0));
    assert_eq!(menu.items[0][1].value, "0%");
}

#[test]
fn tabs_and_items_wrap_around() {
    let mut menu = OptionsMenu::new();
    menu.open();
    menu.update(&press(InputAction::MoveLeft));
    assert_eq!(menu.selected_tab, 2);
    assert_eq!(menu.get_current_tab_label(), "Display");
    menu.update(&press(InputAction::MoveRight));
    assert_eq!(menu.selected_tab, 0);
    menu.update(&press(InputAction::MoveUp));
    assert_eq!(menu.selected_item, 3);
    menu.update(&press(InputAction::MoveDown));
    assert_eq!(menu.selected_item, 0);
    menu.update(&press(InputAction::MoveDown));
    menu.update(&press(InputAction::MoveRight));
    assert_eq!(menu.selected_tab, 0);
    assert_eq!(menu.selected_item, 1);
}

#[test]
fn confirm_on_toggle_does_not_adjust() {
    let mut menu = OptionsMenu::new();
    menu.open();
    menu.update(&press(InputAction::MoveUp));
    menu.update(&press(InputAction::Confirm));
    assert!(!menu.is_adjusting);
    assert_eq!(menu.get_current_items()[3].id, "mute");
}

#[test]
fn hidden_menu_ignores_input() {
    let mut menu = OptionsMenu::new();
    menu.update(&press(InputAction::MoveRight));
    assert_eq!(menu.selected_tab, 0);
    assert!(!menu.is_open());
    assert_eq!(OptionsTab::all().len(), 3);
}
