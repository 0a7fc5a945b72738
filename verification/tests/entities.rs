use shambala::entities::npc::{NPCEntity, NPCType};
use shambala::components::enemy::EnemyType;
use shambala::components::inventory::ItemType;
use shambala::entities::area::{AreaEntity, AreaType};
use shambala::entities::enemy::EnemyEntity;
use shambala::entities::item::ItemEntity;
use shambala::gamecore::types::Class;

#[test]
fn test_drop_tables() {
    let drops = EnemyEntity::get_drop_table(EnemyType::Boss);
    assert_eq!(drops.len(), 2);
    assert!(drops.iter().any(|i| i.id == "boss_core"));
}

#[test]
fn test_all_enemies_have_drops() {
    for e in &[EnemyType::Goblin, EnemyType::Wolf, EnemyType::Skeleton, EnemyType::Mage, EnemyType::Boss] {
        let drops = EnemyEntity::get_drop_table(*e);
        assert!(!drops.is_empty(), "{:?} has no drops", e);
    }
}

#[test]
fn drop_table_entries_are_exact() {
    let drops = EnemyEntity::get_drop_table(EnemyType::Wolf);
    assert_eq!(drops.len(), 1);
    assert_eq!(drops[0].id, "wolf_fang");
    assert_eq!(drops[0].name, "Wolf Fang");
    assert_eq!(drops[0].quantity, 1);
    assert_eq!(drops[0].max_stack, 99);
    assert_eq!(drops[0].item_type, ItemType::Material);
    let boss = EnemyEntity::get_drop_table(EnemyType::Boss);
    assert_eq!(boss[1].id, "rare_weapon");
    assert_eq!(boss[1].item_type, ItemType::Weapon);
    assert_eq!(boss[1].max_stack, 1);
}

#[test]
fn enemy_stats_tables() {
    let goblin = EnemyEntity::create_stats(EnemyType::Goblin);
    assert_eq!((goblin.hp, goblin.max_hp, goblin.attack, goblin.defense, goblin.experience), (30, 30, 8, 4, 15));
    assert_eq!(goblin.class, Class::HeavyBlade);
    let boss = EnemyEntity::create_stats(EnemyType::Boss);
    assert_eq!(boss.level, 10);
    assert_eq!(boss.hp, 500);
    assert_eq!((boss.magic_attack, boss.magic_defense), (25, 20));
    let wolf = EnemyEntity::create_stats(EnemyType::Wolf);
    assert_eq!(wolf.agility, 25);
    let mage = EnemyEntity::create_stats(EnemyType::Mage);
    assert_eq!((mage.hp, mage.attack, mage.magic_attack), (20, 20, 18));
}

#[test]
fn test_healing_values() {
    let potion = ItemEntity::create_consumable("potion", "Potion", 1);
    assert_eq!(ItemEntity::get_healing_value(&potion), 50);
}

#[test]
fn healing_values_of_every_consumable() {
    assert_eq!(ItemEntity::get_healing_value(&ItemEntity::create_consumable("hi_potion", "Hi-Potion", 1)), 150);
    assert_eq!(ItemEntity::get_healing_value(&ItemEntity::create_consumable("ether", "Ether", 1)), 30);
    assert_eq!(ItemEntity::get_healing_value(&ItemEntity::create_consumable("hi_ether", "Hi-Ether", 1)), 80);
    assert_eq!(ItemEntity::get_healing_value(&ItemEntity::create_consumable("antidote", "Antidote", 1)), 0);
}

#[test]
fn test_shop_prices() {
    let prices = ItemEntity::get_shop_prices();
    assert_eq!(prices.len(), 5);
    assert!(prices.iter().any(|(id, _)| id == "potion"));
}

#[test]
fn shop_prices_in_order() {
    let prices = ItemEntity::get_shop_prices();
    let expected = [("potion", 50), ("hi_potion", 150), ("ether", 100), ("hi_ether", 300), ("antidote", 30)];
    for (i, (id, price)) in expected.iter().enumerate() {
        assert_eq!(prices[i].0, *id);
        assert_eq!(prices[i].1, *price);
    }
}

#[test]
fn item_factories() {
    let potion = ItemEntity::create_consumable("potion", "Potion", 3);
    assert_eq!((potion.quantity, potion.max_stack, potion.item_type), (3, 99, ItemType::Consumable));
    let sword = ItemEntity::create_equipment("sword", "Sword", ItemType::Weapon);
    assert_eq!(sword.name, "Sword");
    assert_eq!((sword.quantity, sword.max_stack, sword.item_type), (1, 1, ItemType::Weapon));
}

#[test]
fn test_keywords_available() {
    let keyword_sets = AreaEntity::get_area_keywords();
    assert_eq!(keyword_sets.len(), 5);
    assert!(keyword_sets[0].contains(&"grunty"));
}

#[test]
fn keyword_sets_are_exact() {
    let sets = AreaEntity::get_area_keywords();
    assert_eq!(sets[2], vec!["mountain", "cave", "waterfall"]);
    assert_eq!(sets[4], vec!["sky", "cloud", "wind"]);
}

#[test]
fn test_create_root_town() {
    let area = AreaEntity::create_root_town();
    assert_eq!(area.name, "Mac Anu");
    assert_eq!(area.area_type, AreaType::RootTown);
    assert_eq!(area.spawn_points.len(), 3);
}

#[test]
fn test_create_field() {
    let keywords = vec!["forest".to_string(), "lake".to_string()];
    let area = AreaEntity::create_field(&keywords, 42);
    assert_eq!(area.area_type, AreaType::Field);
    assert!(area.generation_seed.is_some());
}

#[test]
fn test_create_boss_arena() {
    let area = AreaEntity::create_boss_arena(99);
    assert_eq!(area.area_type, AreaType::Boss);
    assert_eq!(area.recommended_level, 10);
}

#[test]
fn generated_areas_are_named_after_their_seed() {
    let keywords = vec!["cave".to_string()];
    let field = AreaEntity::create_field(&keywords, 42);
    assert_eq!(field.id, "field_42");
    assert_eq!(field.name, "Field 42");
    assert_eq!(field.keywords, keywords);
    let dungeon = AreaEntity::create_dungeon(&keywords, 1007, 12);
    assert_eq!(dungeon.id, "dungeon_1007");
    assert_eq!(dungeon.name, "Dungeon 1007");
    assert_eq!(dungeon.recommended_level, 12);
    assert_eq!((dungeon.width, dungeon.height), (40, 40));
    let arena = AreaEntity::create_boss_arena(0);
    assert_eq!(arena.id, "boss_0");
    assert_eq!(arena.keywords, vec!["boss".to_string(), "danger".to_string()]);
    assert_eq!(arena.generation_seed, Some(0));
    let big = AreaEntity::create_field(&[], u64::MAX);
    assert_eq!(big.id, "field_18446744073709551615");
}

#[test]
fn npcs_are_named_in_lower_case() {
    let npc = NPCEntity::create_npc(NPCType::Healer, "Healer");
    assert_eq!(npc.name, "Healer");
    assert_eq!(npc.id, "npc_healer");
    assert_eq!(npc.dialogue_id, "dialogue_healer");
    assert_eq!(npc.npc_type, NPCType::Healer);
    assert!(npc.shop_items.is_empty());
}

#[test]
fn shopkeepers_sell_the_standard_stock() {
    let npc = NPCEntity::create_shopkeeper_npc("Shop");
    assert_eq!(npc.shop_items.len(), 3);
    assert!(npc.shop_items.iter().any(|i| i.id == "potion"));
    assert_eq!(npc.id, "npc_shop");
    assert!(npc.shop_items.iter().all(|i| i.quantity == 99 && i.max_stack == 99));
}
