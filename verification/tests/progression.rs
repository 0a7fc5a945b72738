use shambala::components::skill::{SkillBlueprint, SkillSet};
use shambala::components::stats::Stats;
use shambala::entities::player::PlayerEntity;
use shambala::game::event::{EventBus, GameEvent};
use shambala::game::progression::{create_skill_tree, LevelUpScreen, ProgressionSystem, SkillTree};
use shambala::gamecore::types::{Class, Element};

#[test]
fn test_level_up_screen_creation() {
    let stats = Stats::new(Class::TwinBlade);
    let screen: LevelUpScreen<SkillBlueprint> = LevelUpScreen::new(&stats);
    assert!(screen.is_active);
    assert!(!screen.confirmed);
}

#[test]
fn test_level_up_confirm() {
    let stats = Stats::new(Class::TwinBlade);
    let mut screen: LevelUpScreen<SkillBlueprint> = LevelUpScreen::new(&stats);
    screen.confirm();
    assert!(!screen.is_active);
    assert!(screen.confirmed);
}

#[test]
fn level_up_screen_rows() {
    let stats = Stats::new(Class::HeavyBlade);
    let screen: LevelUpScreen<SkillBlueprint> = LevelUpScreen::new(&stats);
    let rows = screen.get_display_stats();
    assert_eq!(rows.len(), 7);
    assert_eq!(rows[0], ("Max HP", 10, 10));
    assert_eq!(rows[6], ("Agility", 1, 1));
    assert_eq!(screen.previous_level, 0);
    assert_eq!(screen.new_level, 1);
}

#[test]
fn test_skill_tree_creation() {
    for class in &[Class::TwinBlade, Class::HeavyBlade, Class::LongArm, Class::Wavemaster] {
        let tree = SkillTree::new(*class);
        assert_eq!(tree.nodes.len(), 4, "{:?} should have 4 skills", class);
        assert!(tree.nodes[0].unlocked, "First skill should be unlocked");
    }
}

#[test]
fn test_unlock_skill() {
    let mut tree = SkillTree::new(Class::TwinBlade);
    tree.available_points = 1;
    assert!(tree.unlock_skill("wind_slash").is_ok());
    assert!(tree.nodes[1].unlocked);
}

#[test]
fn test_unlock_without_points() {
    let mut tree = SkillTree::new(Class::TwinBlade);
    assert!(tree.unlock_skill("wind_slash").is_err());
}

#[test]
fn test_can_unlock() {
    let mut tree = SkillTree::new(Class::TwinBlade);
    tree.available_points = 1;
    assert!(tree.can_unlock("wind_slash"));
    assert!(!tree.can_unlock("cyclone"));
}

#[test]
fn test_get_available_skills() {
    let tree = SkillTree::new(Class::Wavemaster);
    let available = tree.get_available_skills();
    assert_eq!(available.len(), 1);
    assert_eq!(available[0].id, "heal");
}

#[test]
fn fresh_tree_refusals_follow_the_chain() {
    let mut tree = SkillTree::new(Class::LongArm);
    tree.available_points = 2;
    assert_eq!(tree.unlock_skill("spiral_stab"), Err("Skill already unlocked"));
    assert_eq!(tree.unlock_skill("ice_spear"), Err("Required skills not unlocked"));
    assert_eq!(tree.unlock_skill("no_such_skill"), Err("Skill not found"));
    assert_eq!(tree.unlock_skill("flame_lance"), Ok(()));
    assert_eq!(tree.unlock_skill("ice_spear"), Ok(()));
    assert_eq!(tree.available_points, 0);
    assert_eq!(tree.unlock_skill("dragon_thrust"), Err("No skill points available"));
}

#[test]
fn skill_tree_contents() {
    let nodes = create_skill_tree(Class::Wavemaster);
    let ids: Vec<&str> = nodes.iter().map(|n| n.id.as_str()).collect();
    assert_eq!(ids, vec!["fireball", "heal", "thunder_bolt", "meteor"]);
    assert_eq!(nodes[2].skill.element, Element::Wind);
    assert_eq!(nodes[2].skill.cooldown_tenths, 45);
    assert_eq!(nodes[3].required_level, 10);
    assert_eq!(nodes[3].required_nodes, vec!["thunder_bolt".to_string()]);
    assert_eq!((nodes[1].position_x, nodes[1].position_y), (250, 150));
    assert_eq!(nodes[0].description, "A basic fire spell");
}

#[test]
fn test_apply_level_up() {
    let mut stats = Stats::new(Class::TwinBlade);
    let mut tree = SkillTree::new(Class::TwinBlade);
    let mut event_bus = EventBus::new(100);
    stats.add_experience(100);
    let screen = ProgressionSystem::apply_level_up(&mut stats, &mut tree, &mut event_bus);
    assert_eq!(screen.new_level, 2);
    assert_eq!(tree.available_points, 1);
}

#[test]
fn level_up_lists_reachable_skills_and_emits() {
    let mut stats = Stats::new(Class::TwinBlade);
    let mut tree = SkillTree::new(Class::TwinBlade);
    let mut event_bus = EventBus::new(10);
    stats.add_experience(100 + 200);
    assert_eq!(stats.level, 3);
    let screen = ProgressionSystem::apply_level_up(&mut stats, &mut tree, &mut event_bus);
    assert_eq!(screen.new_skills_unlocked.len(), 1);
    assert_eq!(screen.new_skills_unlocked[0].id, "wind_slash");
    assert!(event_bus.has_event("LevelUp"));
    let events = event_bus.drain();
    assert!(matches!(events[0], GameEvent::LevelUp { new_level: 3 }));
}

#[test]
fn test_check_level_up() {
    let stats = Stats::new(Class::TwinBlade);
    let mut tree = SkillTree::new(Class::TwinBlade);
    let mut event_bus = EventBus::new(100);
    let result = ProgressionSystem::check_level_up(&stats, 100, &mut tree, &mut event_bus);
    assert!(result.is_some());
}

#[test]
fn test_no_level_up() {
    let stats = Stats::new(Class::TwinBlade);
    let mut tree = SkillTree::new(Class::TwinBlade);
    let mut event_bus = EventBus::new(100);
    let result = ProgressionSystem::check_level_up(&stats, 5, &mut tree, &mut event_bus);
    assert!(result.is_none());
    assert_eq!(tree.available_points, 0);
    assert!(!event_bus.has_event("LevelUp"));
}

#[test]
fn test_skill_set_full() {
    let mut set = SkillSet::new(2);
    assert!(set.add_skill(SkillBlueprint::new("a", "A", Element::Fire, 10, 5, 10)).is_ok());
    assert!(set.add_skill(SkillBlueprint::new("b", "B", Element::Water, 10, 5, 10)).is_ok());
    assert!(set.add_skill(SkillBlueprint::new("c", "C", Element::Wind, 10, 5, 10)).is_err());
}

#[test]
fn starting_skills_are_the_first_three_tiers() {
    let set = PlayerEntity::create_skill_set(Class::HeavyBlade);
    assert_eq!(set.max_skills, 6);
    let ids: Vec<&str> = set.skills.iter().map(|s| s.id.as_str()).collect();
    assert_eq!(ids, vec!["heavy_strike", "earth_crush", "defense_up"]);
    assert_eq!(set.skills[2].power, 0);
    assert_eq!(set.skills[2].mp_cost, 8);
}

#[test]
fn zero_threshold_levels_up_on_check() {
    let mut stats = Stats::new(Class::TwinBlade);
    stats.next_level_exp = 0;
    let mut tree = SkillTree::new(Class::TwinBlade);
    let mut event_bus = EventBus::new(10);
    let screen = ProgressionSystem::check_level_up(&stats, 0, &mut tree, &mut event_bus).unwrap();
    assert_eq!(screen.new_level, 2);
    assert_eq!(tree.available_points, 1);
    assert_eq!(stats.level, 1);
}
