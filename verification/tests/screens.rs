use shambala::components::skill::SkillSet;
use shambala::game::chaos_gate::ChaosGate;
use shambala::game::character_select::CharacterSelectScreen;
use shambala::game::dialogue::NPCDialogue;
use shambala::game::event::QuestStatus;
use shambala::game::progression::{SkillTree, SkillTreeNode};
use shambala::game::quest::{DialogueChoice, DialogueNode, QuestManager};
use shambala::game::title_screen::{MenuOption, TitleScreen};
use shambala::gamecore::game_state::GameStateManager;
use shambala::gamecore::types::{Class, GameState};
use shambala::resources::asset_manager::AssetManager;
use shambala::resources::input_state::{InputAction, InputState, InputStateResource};

fn pressed(action: InputAction) -> InputStateResource {
    let mut input = InputStateResource::new();
    input.set_action(action, InputState::Pressed);
    input
}

#[test]
fn test_new_input_state() {
    let state = InputStateResource::new();
    assert!(!state.is_action_pressed(InputAction::Attack));
}

#[test]
fn test_set_and_check_action() {
    let mut state = InputStateResource::new();
    state.set_action(InputAction::Attack, InputState::Pressed);
    assert!(state.is_action_pressed(InputAction::Attack));
}

#[test]
fn test_clear_frame() {
    let mut state = InputStateResource::new();
    state.set_action(InputAction::Attack, InputState::Pressed);
    state.set_action(InputAction::MoveUp, InputState::Held);
    state.clear_frame();
    assert!(!state.is_action_pressed(InputAction::Attack));
    assert!(state.is_action_held(InputAction::MoveUp));
}

#[test]
fn input_held_is_not_pressed() {
    let mut state = InputStateResource::new();
    state.set_action(InputAction::Confirm, InputState::Held);
    assert!(!state.is_action_pressed(InputAction::Confirm));
    state.set_action(InputAction::Confirm, InputState::Pressed);
    assert!(!state.is_action_held(InputAction::Confirm));
    state.clear_frame();
    state.clear_frame();
    assert!(!state.is_action_pressed(InputAction::Confirm));
}

#[test]
fn test_navigation_left() {
    let mut screen = CharacterSelectScreen::new();
    let input = pressed(InputAction::MoveLeft);
    screen.name_input_active = false;
    screen.update(&input);
    assert_eq!(screen.selected_index, 3);
}

#[test]
fn test_navigation_right() {
    let mut screen = CharacterSelectScreen::new();
    let input = pressed(InputAction::MoveRight);
    screen.name_input_active = false;
    screen.update(&input);
    assert_eq!(screen.selected_index, 1);
}

#[test]
fn character_select_test_confirm_selection() {
    let mut screen = CharacterSelectScreen::new();
    screen.name_input_active = false;
    screen.player_name = "Kite".to_string();
    let input = pressed(InputAction::Confirm);
    let result = screen.update(&input);
    assert!(result.is_some());
    let (class, name) = result.unwrap();
    assert_eq!(class, Class::TwinBlade);
    assert_eq!(name, "Kite");
}

#[test]
fn unnamed_character_takes_class_name() {
    let mut screen = CharacterSelectScreen::new();
    screen.update(&pressed(InputAction::Confirm));
    assert!(screen.name_input_active, "an empty name cannot be confirmed");
    screen.name_input_active = false;
    screen.update(&pressed(InputAction::MoveLeft));
    let (class, name) = screen.update(&pressed(InputAction::Confirm)).unwrap();
    assert_eq!(class, Class::Wavemaster);
    assert_eq!(name, "Wavemaster");
    assert!(screen.confirmed);
    assert!(screen.update(&pressed(InputAction::MoveRight)).is_none());
    assert_eq!(screen.selected_index, 3);
}

#[test]
fn cancel_returns_to_name_entry() {
    let mut screen = CharacterSelectScreen::new();
    screen.add_char_to_name('K');
    screen.update(&pressed(InputAction::Confirm));
    assert!(!screen.name_input_active);
    screen.update(&pressed(InputAction::Cancel));
    assert!(screen.name_input_active);
}

#[test]
fn test_title_screen_creation() {
    let title = TitleScreen::new();
    assert_eq!(title.selected_index, 0);
    assert_eq!(title.options.len(), 4);
    assert!(title.visible);
}

#[test]
fn test_menu_navigation_up() {
    let mut title = TitleScreen::new();
    title.update(&pressed(InputAction::MoveUp));
    assert_eq!(title.selected_index, 3);
}

#[test]
fn test_menu_navigation_down() {
    let mut title = TitleScreen::new();
    title.update(&pressed(InputAction::MoveDown));
    assert_eq!(title.selected_index, 1);
}

#[test]
fn title_screen_test_confirm_selection() {
    let mut title = TitleScreen::new();
    let result = title.update(&pressed(InputAction::Confirm));
    assert_eq!(result, Some(MenuOption::NewGame));
    assert!(!title.visible);
}

#[test]
fn test_handle_new_game() {
    let mut state_manager = GameStateManager::new();
    TitleScreen::handle_selection(MenuOption::NewGame, &mut state_manager);
    assert_eq!(state_manager.current(), GameState::CharacterSelect);
}

#[test]
fn test_handle_continue() {
    let mut state_manager = GameStateManager::new();
    TitleScreen::handle_selection(MenuOption::Continue, &mut state_manager);
    assert_eq!(state_manager.current(), GameState::Loading);
}

#[test]
fn title_screen_test_reset() {
    let mut title = TitleScreen::new();
    title.selected_index = 2;
    title.visible = false;
    title.reset();
    assert_eq!(title.selected_index, 0);
    assert!(title.visible);
}

#[test]
fn options_open_over_title_and_quit_does_nothing() {
    let mut sm = GameStateManager::new();
    sm.transition_to(GameState::Title);
    TitleScreen::handle_selection(MenuOption::Options, &mut sm);
    assert_eq!(sm.current(), GameState::Menu);
    sm.pop_state();
    assert_eq!(sm.current(), GameState::Title);
    TitleScreen::handle_selection(MenuOption::Quit, &mut sm);
    assert_eq!(sm.current(), GameState::Title);
    let mut hidden = TitleScreen::new();
    hidden.visible = false;
    assert_eq!(hidden.update(&pressed(InputAction::Confirm)), None);
}

#[test]
fn test_chaos_gate_creation() {
    let gate = ChaosGate::new();
    assert!(!gate.is_active);
    assert_eq!(gate.available_keyword_sets.len(), 5);
}

#[test]
fn chaos_gate_test_activate() {
    let mut gate = ChaosGate::new();
    gate.activate();
    assert!(gate.is_active);
    assert!(gate.selected_keywords.is_empty());
}

#[test]
fn test_select_keywords() {
    let mut gate = ChaosGate::new();
    gate.activate();
    gate.select_keyword("forest");
    assert_eq!(gate.keyword_count(), 1);
    gate.select_keyword("lake");
    assert_eq!(gate.keyword_count(), 2);
    gate.select_keyword("temple");
    assert_eq!(gate.keyword_count(), 3);
}

#[test]
fn test_remove_keyword() {
    let mut gate = ChaosGate::new();
    gate.activate();
    gate.select_keyword("forest");
    gate.select_keyword("lake");
    gate.remove_last_keyword();
    assert_eq!(gate.keyword_count(), 1);
}

#[test]
fn test_is_ready() {
    let mut gate = ChaosGate::new();
    gate.activate();
    assert!(!gate.is_ready());
    gate.select_keyword("a");
    assert!(!gate.is_ready());
    gate.select_keyword("b");
    assert!(!gate.is_ready());
    gate.select_keyword("c");
    assert!(gate.is_ready());
}

#[test]
fn test_confirm_area() {
    let mut gate = ChaosGate::new();
    gate.activate();
    gate.select_keyword("forest");
    gate.select_keyword("lake");
    gate.select_keyword("temple");
    gate.confirm_area(42);
    assert!(gate.is_transitioning);
    assert!(gate.generated_area.is_some());
}

#[test]
fn confirmed_address_opens_its_field() {
    let mut gate = ChaosGate::new();
    gate.activate();
    gate.select_keyword("forest");
    gate.select_keyword("lake");
    gate.confirm_area(7);
    assert!(!gate.is_transitioning);
    assert!(gate.generated_area.is_none());
    gate.select_keyword("temple");
    gate.confirm_area(7);
    let area = gate.generated_area.clone().unwrap();
    assert_eq!(area.id, "field_7");
    assert_eq!(area.keywords, vec!["forest".to_string(), "lake".to_string(), "temple".to_string()]);
    gate.deactivate();
    assert!(gate.generated_area.is_none());
}

#[test]
fn test_deactivate() {
    let mut gate = ChaosGate::new();
    gate.activate();
    gate.select_keyword("forest");
    gate.deactivate();
    assert!(!gate.is_active);
    assert!(gate.generated_area.is_none());
}

#[test]
fn chaos_gate_walks_the_sets() {
    let mut gate = ChaosGate::new();
    gate.activate();
    assert_eq!(gate.get_current_keywords(), &["grunty".to_string(), "lake".to_string(), "forest".to_string()]);
    gate.select_keyword("lake");
    assert_eq!(gate.current_set_index, 1);
    assert_eq!(gate.get_current_keywords()[0], "temple");
    gate.select_keyword("ruins");
    gate.select_keyword("cave");
    assert_eq!(gate.current_set_index, 2);
    gate.select_keyword("ignored");
    assert_eq!(gate.selected_keywords, vec!["lake".to_string(), "ruins".to_string(), "cave".to_string()]);
    gate.remove_last_keyword();
    assert_eq!(gate.current_set_index, 1);
    gate.current_set_index = 9;
    assert!(gate.get_current_keywords().is_empty());
}

fn node(id: &str, requires: &[&str], unlocked: bool) -> SkillTreeNode<u32, i32> {
    SkillTreeNode {
        id: id.to_string(),
        name: id.to_string(),
        description: String::new(),
        skill: 0,
        required_level: 1,
        required_nodes: requires.iter().map(|r| r.to_string()).collect(),
        unlocked,
        position_x: 0,
        position_y: 0,
    }
}

fn chain_tree() -> SkillTree<u32, i32> {
    SkillTree {
        nodes: vec![
            node("twin_slash", &[], true),
            node("wind_slash", &["twin_slash"], false),
            node("swift_blade", &["wind_slash"], false),
            node("cyclone", &["swift_blade"], false),
        ],
        available_points: 0,
        class: Class::TwinBlade,
    }
}

#[test]
fn skill_tree_unlock_rules() {
    let mut tree = chain_tree();
    assert_eq!(tree.unlock_skill("wind_slash"), Err("No skill points available"));
    tree.add_skill_point();
    assert!(tree.can_unlock("wind_slash"));
    assert!(!tree.can_unlock("cyclone"));
    assert_eq!(tree.unlock_skill("cyclone"), Err("Required skills not unlocked"));
    assert_eq!(tree.unlock_skill("meteor"), Err("Skill not found"));
    assert_eq!(tree.unlock_skill("twin_slash"), Err("Skill already unlocked"));
    assert_eq!(tree.unlock_skill("wind_slash"), Ok(()));
    assert!(tree.nodes[1].unlocked);
    assert_eq!(tree.available_points, 0);
    assert!(!tree.can_unlock("swift_blade"));
    tree.add_skill_point();
    assert_eq!(tree.unlock_skill("wind_slash"), Err("Skill already unlocked"));
}

#[test]
fn skill_tree_listings() {
    let tree = chain_tree();
    let available: Vec<&str> = tree.get_available_skills().iter().map(|n| n.id.as_str()).collect();
    assert_eq!(available, vec!["wind_slash"]);
    let unlocked: Vec<&str> = tree.get_unlocked_skills().iter().map(|n| n.id.as_str()).collect();
    assert_eq!(unlocked, vec!["twin_slash"]);
}

#[test]
fn skill_set_capacity() {
    let mut set: SkillSet<&str> = SkillSet::new(2);
    assert!(set.add_skill("a").is_ok());
    assert!(set.add_skill("b").is_ok());
    assert_eq!(set.add_skill("c"), Err("Skill set is full"));
    assert_eq!(set.skills, vec!["a", "b"]);
}

fn choice(text: &str, next: &str, required: Option<(&str, QuestStatus)>) -> DialogueChoice {
    DialogueChoice {
        text: text.to_string(),
        next_node_id: next.to_string(),
        required_quest_status: required.map(|(q, s)| (q.to_string(), s)),
    }
}

fn line(id: &str, choices: Vec<DialogueChoice>, is_end: bool, event: Option<&str>) -> DialogueNode {
    DialogueNode {
        id: id.to_string(),
        speaker: "Test".to_string(),
        text: "Hello!".to_string(),
        choices,
        is_end,
        event_to_trigger: event.map(|e| e.to_string()),
    }
}

#[test]
fn dialogue_text_is_revealed_character_by_character() {
    let mut dialogue = NPCDialogue::new("npc_test", "Test");
    assert_eq!(dialogue.get_displayed_text(3), "");
    dialogue.start_dialogue(vec![line("start", vec![], true, None)]);
    assert_eq!(dialogue.get_displayed_text(0), "");
    assert_eq!(dialogue.get_displayed_text(3), "Hel");
    assert_eq!(dialogue.get_displayed_text(999), "Hello!");
}

#[test]
fn test_dialogue_creation() {
    let dialogue = NPCDialogue::new("npc_helba", "Helba");
    assert_eq!(dialogue.npc_name, "Helba");
    assert!(!dialogue.is_active);
}

#[test]
fn test_start_dialogue() {
    let mut dialogue = NPCDialogue::new("npc_test", "Test");
    dialogue.start_dialogue(vec![line("start", vec![], true, None)]);
    assert!(dialogue.is_active);
}

#[test]
fn test_choice_navigation() {
    let mut dialogue = NPCDialogue::new("npc_test", "Test");
    dialogue.start_dialogue(vec![
        line("start", vec![choice("Option A", "a", None), choice("Option B", "b", None)], false, None),
        line("a", vec![], true, None),
    ]);
    dialogue.text_fully_displayed = true;
    let quest_manager = QuestManager::new();
    dialogue.handle_input(&pressed(InputAction::MoveDown), &quest_manager);
    assert_eq!(dialogue.selected_choice, 1);
}

#[test]
fn test_end_dialogue() {
    let mut dialogue = NPCDialogue::new("npc_test", "Test");
    dialogue.start_dialogue(vec![line("start", vec![], true, None)]);
    dialogue.text_fully_displayed = true;
    let quest_manager = QuestManager::new();
    dialogue.handle_input(&pressed(InputAction::Confirm), &quest_manager);
    assert!(!dialogue.is_active);
}

#[test]
fn ending_a_dialogue_keeps_its_position() {
    let quest_manager = QuestManager::new();
    let mut dialogue = NPCDialogue::new("npc_test", "Test");
    dialogue.start_dialogue(vec![line("start", vec![], true, Some("done"))]);
    dialogue.text_fully_displayed = true;
    dialogue.selected_choice = 2;
    assert_eq!(dialogue.handle_input(&pressed(InputAction::Confirm), &quest_manager), Some("done".to_string()));
    assert_eq!(dialogue.current_node, "start");
    assert_eq!(dialogue.selected_choice, 2);
    assert!(dialogue.text_fully_displayed);

    let mut dialogue = NPCDialogue::new("npc_test", "Test");
    dialogue.start_dialogue(vec![line("start", vec![choice("Locked", "x", Some(("missing", QuestStatus::Started)))], false, None)]);
    dialogue.text_fully_displayed = true;
    dialogue.selected_choice = 1;
    assert_eq!(dialogue.handle_input(&pressed(InputAction::MoveDown), &quest_manager), None);
    assert!(!dialogue.is_active);
    assert_eq!(dialogue.selected_choice, 1);
    assert!(dialogue.text_fully_displayed);
}

#[test]
fn dialogue_follows_choices_and_quest_conditions() {
    let mut quests = QuestManager::new();
    quests.register_quest(QuestManager::create_tutorial_quest());
    let mut dialogue = NPCDialogue::new("npc_helba", "Helba");
    dialogue.start_dialogue(vec![
        line("start", vec![
            choice("Only once started", "x", Some(("tutorial_01", QuestStatus::InProgress))),
            choice("Always", "bye", None),
            choice("Unknown quest", "y", Some(("missing", QuestStatus::Started))),
        ], false, None),
        line("bye", vec![], true, Some("farewell")),
    ]);
    assert_eq!(dialogue.get_available_choices(&quests).len(), 1);
    assert!(dialogue.handle_input(&pressed(InputAction::Confirm), &quests).is_none());
    assert_eq!(dialogue.current_node, "start", "nothing happens before the line is shown");
    dialogue.text_fully_displayed = true;
    dialogue.handle_input(&pressed(InputAction::Confirm), &quests);
    assert_eq!(dialogue.current_node, "bye");
    assert!(!dialogue.text_fully_displayed);
    assert_eq!(dialogue.get_current_node().unwrap().id, "bye");
    dialogue.text_fully_displayed = true;
    let event = dialogue.handle_input(&InputStateResource::new(), &quests);
    assert_eq!(event, Some("farewell".to_string()));
    assert!(!dialogue.is_active);
    assert!(dialogue.nodes.is_empty());
    quests.start_quest("tutorial_01").unwrap();
    dialogue.start_dialogue(vec![line("start", vec![
        choice("Only once started", "x", Some(("tutorial_01", QuestStatus::InProgress))),
        choice("Always", "bye", None),
    ], false, None)]);
    assert_eq!(dialogue.get_available_choices(&quests).len(), 2);
    dialogue.text_fully_displayed = true;
    dialogue.handle_input(&pressed(InputAction::Cancel), &quests);
    assert!(!dialogue.is_active);
}

#[test]
fn default_assets_are_registered() {
    let mut assets = AssetManager::new();
    assets.register_default_assets();
    assert!(assets.textures.contains_key("player_TwinBlade"));
    assert_eq!(assets.textures.get("tile_treasure").unwrap().path, "assets/tiles/treasure.svg");
    assert_eq!(assets.textures.len(), 22);
    assert_eq!(assets.loading_progress(), (0, 22));
}
