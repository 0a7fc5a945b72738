use shambala::game::engine::bgm_for_state;
use shambala::game::save_slots::{check_slot, slot_file_name, slot_summary, SAVE_SLOT_COUNT};
use shambala::game::network::{ConnectionState, NetworkLink};
use shambala::game::character_select::{CharacterPreview, CharacterSelectScreen};
use shambala::game::event::{EventBus, GameEvent, QuestStatus};
use shambala::game::options_menu::OptionsTab;
use shambala::game::progression::StatIncreases;
use shambala::game::quest::QuestManager;
use shambala::game::scene::{Scene, SceneManager, SceneType};
use shambala::game::title_screen::MenuOption;
use shambala::gamecore::game_state::GameStateManager;
use shambala::gamecore::types::{Class, GameState};

#[test]
fn test_character_select_creation() {
    let screen = CharacterSelectScreen::new();
    assert_eq!(screen.characters.len(), 4);
    assert_eq!(screen.selected_index, 0);
    assert!(screen.name_input_active);
}

#[test]
fn test_character_preview_descriptions() {
    let previews = CharacterPreview::all();
    assert_eq!(previews.len(), 4);
    for preview in &previews {
        assert!(!preview.description.is_empty());
    }
}

#[test]
fn test_class_stats_accuracy() {
    let twin = CharacterPreview::new(Class::TwinBlade);
    assert_eq!(twin.stats.agility, 20);

    let heavy = CharacterPreview::new(Class::HeavyBlade);
    assert_eq!(heavy.stats.hp, 150);

    let wavemaster = CharacterPreview::new(Class::Wavemaster);
    assert_eq!(wavemaster.stats.magic_attack, 20);
}

#[test]
fn test_name_validation() {
    let mut screen = CharacterSelectScreen::new();
    screen.add_char_to_name('K');
    screen.add_char_to_name('i');
    screen.add_char_to_name('t');
    screen.add_char_to_name('e');
    assert_eq!(screen.player_name, "Kite");
}

#[test]
fn test_name_max_length() {
    let mut screen = CharacterSelectScreen::new();
    for c in "ABCDEFGHIJKLMNOP".chars() {
        screen.add_char_to_name(c);
    }
    assert!(screen.player_name.len() <= 12);
}

#[test]
fn test_remove_char() {
    let mut screen = CharacterSelectScreen::new();
    screen.player_name = "Kite".to_string();
    screen.remove_char_from_name();
    assert_eq!(screen.player_name, "Kit");
}

#[test]
fn character_select_test_reset() {
    let mut screen = CharacterSelectScreen::new();
    screen.selected_index = 2;
    screen.player_name = "Test".to_string();
    screen.confirmed = true;
    screen.reset();
    assert_eq!(screen.selected_index, 0);
    assert!(screen.player_name.is_empty());
    assert!(!screen.confirmed);
}

#[test]
fn test_get_selected_preview() {
    let screen = CharacterSelectScreen::new();
    let preview = screen.get_selected_preview();
    assert_eq!(preview.class, Class::TwinBlade);
}

#[test]
fn name_entry_rules() {
    let mut screen = CharacterSelectScreen::new();
    for c in ['a', ' ', '!', '_', '-', '7', '.'] {
        screen.add_char_to_name(c);
    }
    assert_eq!(screen.player_name, "a_-7");
    for c in "ABCDEFGHIJKLMNOP".chars() {
        screen.add_char_to_name(c);
    }
    assert_eq!(screen.player_name, "a_-7ABCDEFGH");
    screen.name_input_active = false;
    screen.remove_char_from_name();
    assert_eq!(screen.player_name, "a_-7ABCDEFGH");
    screen.name_input_active = true;
    let mut empty = CharacterSelectScreen::new();
    empty.remove_char_from_name();
    assert!(empty.player_name.is_empty());
}

#[test]
fn selection_moves_to_loading() {
    let mut sm = GameStateManager::new();
    sm.transition_to(GameState::CharacterSelect);
    CharacterSelectScreen::handle_selection(Class::LongArm, "Kite", &mut sm);
    assert_eq!(sm.current(), GameState::Loading);
    assert_eq!(sm.previous(), GameState::CharacterSelect);
    let screen = CharacterSelectScreen::new();
    assert_eq!(screen.get_selected_class(), Class::TwinBlade);
    let previews = CharacterPreview::all();
    assert_eq!(previews[3].class, Class::Wavemaster);
    assert_eq!(previews[1].description, "Powerful tank with high HP and defense. Slow but devastating.");
}

#[test]
fn test_emit_event() {
    let mut bus = EventBus::new(100);
    bus.emit(GameEvent::PlayerDamaged { amount: 10, source: "Goblin".to_string() });
    assert_eq!(bus.events.len(), 1);
}

#[test]
fn test_drain_events() {
    let mut bus = EventBus::new(100);
    bus.emit(GameEvent::LevelUp { new_level: 2 });
    let drained = bus.drain();
    assert_eq!(drained.len(), 1);
    assert!(bus.events.is_empty());
}

#[test]
fn test_max_events() {
    let mut bus = EventBus::new(2);
    bus.emit(GameEvent::LevelUp { new_level: 2 });
    bus.emit(GameEvent::LevelUp { new_level: 3 });
    bus.emit(GameEvent::LevelUp { new_level: 4 });
    assert_eq!(bus.events.len(), 2);
}

#[test]
fn test_has_event() {
    let mut bus = EventBus::new(100);
    bus.emit(GameEvent::EnemyDefeated { enemy_id: "goblin_1".to_string(), exp_reward: 15 });
    assert!(bus.has_event("EnemyDefeated"));
    assert!(!bus.has_event("LevelUp"));
}

#[test]
fn full_bus_drops_the_oldest() {
    let mut bus = EventBus::new(2);
    bus.emit(GameEvent::LevelUp { new_level: 2 });
    bus.emit(GameEvent::LevelUp { new_level: 3 });
    bus.emit(GameEvent::LevelUp { new_level: 4 });
    let drained = bus.drain();
    assert!(matches!(drained[0], GameEvent::LevelUp { new_level: 3 }));
    assert!(matches!(drained[1], GameEvent::LevelUp { new_level: 4 }));
}

#[test]
fn has_event_knows_five_kinds_only() {
    let mut bus = EventBus::new(10);
    bus.emit(GameEvent::GameSaved);
    bus.emit(GameEvent::QuestUpdated { quest_id: "q".to_string(), status: QuestStatus::Started });
    assert!(!bus.has_event("GameSaved"));
    assert!(!bus.has_event("QuestUpdated"));
    bus.emit(GameEvent::AreaTransition { from: "a".to_string(), to: "b".to_string() });
    assert!(bus.has_event("AreaTransition"));
    bus.clear();
    assert!(!bus.has_event("AreaTransition"));
    assert_eq!(bus.max_events, 10);
}

#[test]
fn test_tab_labels() {
    assert_eq!(OptionsTab::Audio.label(), "Audio");
    assert_eq!(OptionsTab::Controls.label(), "Controls");
    assert_eq!(OptionsTab::Display.label(), "Display");
}

#[test]
fn tabs_in_order() {
    assert_eq!(OptionsTab::all(), &[OptionsTab::Audio, OptionsTab::Controls, OptionsTab::Display]);
}

#[test]
fn test_stat_increases() {
    let increases = StatIncreases::new();
    assert_eq!(increases.max_hp, 10);
    assert!(increases.total_stats_gained() > 0);
}

#[test]
fn stat_increase_total_is_exact() {
    assert_eq!(StatIncreases::new().total_stats_gained(), 22);
    assert_eq!(StatIncreases::default().agility, 1);
}

#[test]
fn test_quest_manager_creation() {
    let manager = QuestManager::new();
    assert!(manager.quests.is_empty());
    assert!(manager.active_quests.is_empty());
}

#[test]
fn test_register_quest() {
    let mut manager = QuestManager::new();
    let quest = QuestManager::create_tutorial_quest();
    manager.register_quest(quest);
    assert_eq!(manager.quests.len(), 1);
}

#[test]
fn test_start_quest() {
    let mut manager = QuestManager::new();
    let quest = QuestManager::create_tutorial_quest();
    let quest_id = quest.id.clone();
    manager.register_quest(quest);
    assert!(manager.start_quest(&quest_id).is_ok());
    assert_eq!(manager.active_quests.len(), 1);
}

#[test]
fn test_start_quest_not_found() {
    let mut manager = QuestManager::new();
    assert!(manager.start_quest("nonexistent").is_err());
}

#[test]
fn test_update_objective() {
    let mut manager = QuestManager::new();
    let quest = QuestManager::create_tutorial_quest();
    let quest_id = quest.id.clone();
    manager.register_quest(quest);
    manager.start_quest(&quest_id).unwrap();

    manager.update_objective(&quest_id, "talk_to_helba", 1);
    let quest = manager.get_quest(&quest_id).unwrap();
    assert!(quest.objectives[0].is_complete);
}

#[test]
fn test_quest_completion() {
    let mut manager = QuestManager::new();
    let quest = QuestManager::create_tutorial_quest();
    let quest_id = quest.id.clone();
    manager.register_quest(quest);
    manager.start_quest(&quest_id).unwrap();

    manager.update_objective(&quest_id, "talk_to_helba", 1);
    manager.update_objective(&quest_id, "use_chaos_gate", 1);
    manager.update_objective(&quest_id, "defeat_goblins", 3);

    let quest = manager.get_quest(&quest_id).unwrap();
    assert_eq!(quest.status, QuestStatus::Completed);
    assert!(manager.active_quests.is_empty());
    assert_eq!(manager.completed_quests.len(), 1);
}

#[test]
fn test_get_active_quests() {
    let mut manager = QuestManager::new();
    let quest = QuestManager::create_tutorial_quest();
    let quest_id = quest.id.clone();
    manager.register_quest(quest);
    manager.start_quest(&quest_id).unwrap();

    let active = manager.get_active_quests();
    assert_eq!(active.len(), 1);
}

#[test]
fn test_dialogue_nodes() {
    let quest = QuestManager::create_tutorial_quest();
    assert_eq!(quest.dialogue_on_start.len(), 3);
    assert_eq!(quest.dialogue_on_complete.len(), 1);
    assert!(quest.dialogue_on_start[0].choices[0].text.contains("mean"));
}

#[test]
fn test_tutorial_quest_structure() {
    let quest = QuestManager::create_tutorial_quest();
    assert_eq!(quest.id, "tutorial_01");
    assert_eq!(quest.objectives.len(), 3);
    assert_eq!(quest.rewards.experience, 100);
    assert_eq!(quest.rewards.items.len(), 2);
}

#[test]
fn quest_start_twice_and_progress_caps() {
    let mut manager = QuestManager::new();
    manager.register_quest(QuestManager::create_tutorial_quest());
    assert!(manager.start_quest("tutorial_01").is_ok());
    assert_eq!(manager.start_quest("tutorial_01"), Err("Quest already active"));
    assert_eq!(manager.start_quest("missing"), Err("Quest not found"));
    assert_eq!(manager.active_quests.len(), 1);
    manager.update_objective("tutorial_01", "defeat_goblins", 2);
    {
        let quest = manager.get_quest("tutorial_01").unwrap();
        assert_eq!(quest.objectives[2].current_amount, 2);
        assert!(!quest.objectives[2].is_complete);
        assert_eq!(quest.status, QuestStatus::InProgress);
    }
    manager.update_objective("tutorial_01", "defeat_goblins", 10);
    let quest = manager.get_quest("tutorial_01").unwrap();
    assert_eq!(quest.objectives[2].current_amount, 3);
    assert!(quest.objectives[2].is_complete);
    manager.update_objective("missing", "defeat_goblins", 1);
    manager.update_objective("tutorial_01", "no_such_objective", 1);
    assert_eq!(manager.completed_quests.len(), 0);
}

#[test]
fn quest_dialogue_lookup() {
    let mut manager = QuestManager::new();
    manager.register_quest(QuestManager::create_tutorial_quest());
    let start = manager.get_dialogue_for_quest("tutorial_01", false).unwrap();
    assert_eq!(start.len(), 3);
    assert_eq!(start[2].event_to_trigger.as_deref(), Some("quest_started"));
    let end = manager.get_dialogue_for_quest("tutorial_01", true).unwrap();
    assert_eq!(end[0].id, "complete_1");
    assert!(manager.get_dialogue_for_quest("missing", true).is_none());
    assert!(manager.get_quest("missing").is_none());
    assert!(manager.get_active_quests().is_empty());
}

fn scene(id: &str, scene_type: SceneType) -> Scene {
    Scene { id: id.to_string(), scene_type, entities: vec![], is_loaded: false }
}

#[test]
fn test_register_scene() {
    let mut manager = SceneManager::new();
    let scene = Scene { id: "mac_anu".to_string(), scene_type: SceneType::RootTown, entities: vec![], is_loaded: false };
    manager.register_scene(scene);
    assert_eq!(manager.scenes.len(), 1);
}

#[test]
fn test_load_scene() {
    let mut manager = SceneManager::new();
    manager.register_scene(Scene { id: "field_1".to_string(), scene_type: SceneType::Field, entities: vec![], is_loaded: false });
    assert!(manager.load_scene("field_1").is_ok());
    assert!(manager.current_scene.unwrap().is_loaded);
}

#[test]
fn test_load_nonexistent_scene() {
    let mut manager = SceneManager::new();
    assert!(manager.load_scene("nonexistent").is_err());
}

#[test]
fn test_scene_for_state() {
    assert_eq!(SceneManager::scene_for_state(GameState::Exploring), Some(SceneType::Field));
    assert_eq!(SceneManager::scene_for_state(GameState::Boot), None);
}

#[test]
fn scene_load_and_unload() {
    let mut manager = SceneManager::new();
    manager.register_scene(scene("town", SceneType::RootTown));
    manager.register_scene(Scene { id: "dungeon".to_string(), scene_type: SceneType::Dungeon, entities: vec!["bat".to_string()], is_loaded: false });
    assert_eq!(manager.load_scene("nowhere"), Err("Scene not found"));
    assert!(manager.current_scene.is_none());
    manager.load_scene("dungeon").unwrap();
    assert!(manager.scenes[1].is_loaded);
    assert!(!manager.scenes[0].is_loaded);
    let current = manager.current_scene.clone().unwrap();
    assert_eq!(current.id, "dungeon");
    assert_eq!(current.entities, vec!["bat".to_string()]);
    manager.unload_current();
    assert!(manager.current_scene.is_none());
    assert_eq!(SceneManager::scene_for_state(GameState::Combat), Some(SceneType::Boss));
    assert_eq!(SceneManager::scene_for_state(GameState::Loading), None);
}

#[test]
fn test_menu_option_labels() {
    assert_eq!(MenuOption::NewGame.label(), "New Game");
    assert_eq!(MenuOption::Quit.label(), "Quit");
}

#[test]
fn test_all_options_have_descriptions() {
    for option in MenuOption::all() {
        assert!(!option.description().is_empty());
    }
}

#[test]
fn menu_options_in_order() {
    assert_eq!(MenuOption::all(), &[MenuOption::NewGame, MenuOption::Continue, MenuOption::Options, MenuOption::Quit]);
    assert_eq!(MenuOption::Options.description(), "Adjust game settings");
}

#[test]
fn state_machine_push_pop() {
    let mut sm = GameStateManager::new();
    assert_eq!(sm.current(), GameState::Boot);
    sm.transition_to(GameState::Title);
    assert_eq!(sm.current(), GameState::Title);
    assert_eq!(sm.previous(), GameState::Boot);
    sm.transition_to(GameState::Exploring);
    sm.push_state(GameState::Menu);
    assert_eq!(sm.current(), GameState::Menu);
    sm.pop_state();
    assert_eq!(sm.current(), GameState::Exploring);
    assert_eq!(sm.previous(), GameState::Title);
    sm.pop_state();
    assert_eq!(sm.current(), GameState::Exploring);
}

#[test]
fn network_link_connects_and_delivers() {
    let mut link = NetworkLink::new();
    assert_eq!(link.next_message_id(), None);
    assert!(link.connect());
    assert!(link.is_connecting());
    assert!(!link.connect());
    assert!(!link.tick(false));
    assert!(link.is_connecting());
    assert!(!link.tick(true));
    assert!(link.is_connected());
    let events = link.receive_server_events();
    assert_eq!(events.len(), 1);
    assert!(matches!(&events[0], GameEvent::AreaTransition { from, to } if from == "title" && to == "mac_anu"));
    assert!(link.receive_server_events().is_empty());
    assert_eq!(link.next_message_id(), Some(1));
    assert_eq!(link.next_message_id(), Some(2));
    link.deliver(GameEvent::GameSaved, true, false);
    link.deliver(GameEvent::GameSaved, true, true);
    link.deliver(GameEvent::ConnectionLost, false, false);
    assert_eq!(link.receive_server_events().len(), 1);
}

#[test]
fn network_link_disconnects() {
    let mut link = NetworkLink::new();
    link.connect();
    link.tick(true);
    link.disconnect("bye");
    assert_eq!(link.connection_state, ConnectionState::Disconnecting);
    assert_eq!(link.disconnect_reason.as_deref(), Some("bye"));
    assert!(link.tick(false));
    assert_eq!(link.connection_state, ConnectionState::Disconnected);
    link.connect();
    link.simulate_disconnect();
    assert_eq!(link.connection_state, ConnectionState::Disconnected);
    assert_eq!(link.disconnect_reason.as_deref(), Some("Connection lost"));
}

#[test]
fn save_slots_are_named_and_described() {
    assert_eq!(slot_file_name(0), "save_0.ron");
    assert_eq!(slot_file_name(12), "save_12.ron");
    let info = slot_summary("Kite", 1, Class::TwinBlade, 0);
    assert_eq!(info, "Kite - Lv.1 TwinBlade (0h)");
    assert!(info.contains("Kite"));
    assert_eq!(slot_summary("Misty", 37, Class::Wavemaster, 120), "Misty - Lv.37 Wavemaster (120h)");
}

#[test]
fn only_three_save_slots_exist() {
    assert_eq!(SAVE_SLOT_COUNT, 3);
    assert!(check_slot(0).is_ok());
    assert!(check_slot(2).is_ok());
    assert_eq!(check_slot(3), Err("Invalid save slot".to_string()));
    assert!(check_slot(99).is_err());
}

#[test]
fn music_follows_the_game_state() {
    assert_eq!(bgm_for_state(GameState::Title), "bgm_menu");
    assert_eq!(bgm_for_state(GameState::Menu), "bgm_menu");
    assert_eq!(bgm_for_state(GameState::Exploring), "bgm_field");
    assert_eq!(bgm_for_state(GameState::Combat), "bgm_boss");
    assert_eq!(bgm_for_state(GameState::Boot), "bgm_default");
}
