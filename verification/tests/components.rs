use shambala::components::data_drain::DataDrainState;
use shambala::components::inventory::{Inventory, Item, ItemType};
use shambala::components::party::Party;
use shambala::components::stats::Stats;
use shambala::gamecore::types::Class;

fn potion() -> Item {
    Item {
        id: "potion".to_string(),
        name: "Potion".to_string(),
        quantity: 1,
        max_stack: 99,
        item_type: ItemType::Consumable,
    }
}

#[test]
fn test_add_item() {
    let mut inv = Inventory::new(10);
    let item = potion();
    assert!(inv.add_item(item).is_ok());
    assert_eq!(inv.items.len(), 1);
}

#[test]
fn test_gold() {
    let mut inv = Inventory::new(10);
    inv.add_gold(100);
    assert_eq!(inv.gold, 100);
    assert!(inv.spend_gold(50));
    assert_eq!(inv.gold, 50);
    assert!(!inv.spend_gold(100));
}

#[test]
fn inventory_full_is_refused() {
    let mut inv = Inventory::new(1);
    assert!(inv.add_item(potion()).is_ok());
    assert_eq!(inv.add_item(potion()), Err("Inventory is full"));
    assert_eq!(inv.items.len(), 1);
}

#[test]
fn inventory_zero_capacity_refuses_everything() {
    let mut inv = Inventory::new(0);
    assert_eq!(inv.add_item(potion()), Err("Inventory is full"));
    assert!(inv.items.is_empty());
}

#[test]
fn inventory_remove_item_shifts_and_bounds() {
    let mut inv = Inventory::new(5);
    inv.add_item(potion()).unwrap();
    let mut ether = potion();
    ether.id = "ether".to_string();
    inv.add_item(ether).unwrap();
    assert!(inv.remove_item(5).is_none());
    let removed = inv.remove_item(0).unwrap();
    assert_eq!(removed.id, "potion");
    assert_eq!(inv.items.len(), 1);
    assert_eq!(inv.items[0].id, "ether");
}

#[test]
fn gold_saturates_and_round_trips() {
    let mut inv = Inventory::new(1);
    inv.add_gold(u64::MAX - 1);
    inv.add_gold(10);
    assert_eq!(inv.gold, u64::MAX);
    let mut inv2 = Inventory::new(1);
    inv2.add_gold(30);
    inv2.add_gold(70);
    assert!(inv2.spend_gold(70));
    assert_eq!(inv2.gold, 30);
    assert!(!inv2.spend_gold(31));
    assert_eq!(inv2.gold, 30);
}

#[test]
fn test_add_member() {
    let mut party = Party::new(3);
    assert!(party.add_member("Kite").is_ok());
    assert_eq!(party.members.len(), 1);
}

#[test]
fn test_party_full() {
    let mut party = Party::new(1);
    assert!(party.add_member("Kite").is_ok());
    assert!(party.add_member("BlackRose").is_err());
}

#[test]
fn test_remove_member() {
    let mut party = Party::new(3);
    party.add_member("Kite").unwrap();
    assert!(party.remove_member(0).is_some());
    assert!(party.members.is_empty());
}

#[test]
fn test_increase_bond() {
    let mut party = Party::new(3);
    party.add_member("Kite").unwrap();
    party.increase_bond(0, 5);
    assert_eq!(party.members[0].bond_level, 6);
}

#[test]
fn party_member_defaults_and_errors() {
    let mut party = Party::new(1);
    party.add_member("Kite").unwrap();
    assert_eq!(party.members[0].name, "Kite");
    assert_eq!(party.members[0].bond_level, 1);
    assert!(party.members[0].is_active);
    assert_eq!(party.add_member("BlackRose"), Err("Party is full"));
    party.increase_bond(7, 5);
    assert_eq!(party.members[0].bond_level, 1);
    party.increase_bond(0, u32::MAX);
    assert_eq!(party.members[0].bond_level, u32::MAX);
    assert!(party.remove_member(3).is_none());
}

#[test]
fn test_twin_blade_stats() {
    let stats = Stats::new(Class::TwinBlade);
    assert_eq!(stats.hp, 100);
    assert_eq!(stats.agility, 20);
}

#[test]
fn test_take_damage() {
    let mut stats = Stats::new(Class::HeavyBlade);
    stats.take_damage(50);
    assert_eq!(stats.hp, 100);
}

#[test]
fn test_take_damage_overflow() {
    let mut stats = Stats::new(Class::Wavemaster);
    stats.take_damage(999);
    assert_eq!(stats.hp, 0);
}

#[test]
fn test_heal() {
    let mut stats = Stats::new(Class::TwinBlade);
    stats.take_damage(50);
    stats.heal(30);
    assert_eq!(stats.hp, 80);
}

#[test]
fn test_heal_overflow() {
    let mut stats = Stats::new(Class::TwinBlade);
    stats.heal(999);
    assert_eq!(stats.hp, stats.max_hp);
}

#[test]
fn test_is_alive() {
    let mut stats = Stats::new(Class::TwinBlade);
    assert!(stats.is_alive());
    stats.take_damage(999);
    assert!(!stats.is_alive());
}

#[test]
fn test_level_up() {
    let mut stats = Stats::new(Class::TwinBlade);
    stats.add_experience(100);
    assert_eq!(stats.level, 2);
    assert_eq!(stats.max_hp, 110);
}

#[test]
fn zero_threshold_levels_up_without_spending() {
    let mut stats = Stats::new(Class::TwinBlade);
    stats.next_level_exp = 0;
    stats.add_experience(0);
    assert_eq!(stats.level, 2);
    assert_eq!(stats.experience, 0);
    assert_eq!(stats.next_level_exp, 200);
    assert_eq!((stats.max_hp, stats.hp), (110, 110));

    let mut stats = Stats::new(Class::Wavemaster);
    stats.next_level_exp = 0;
    stats.add_experience(250);
    assert_eq!(stats.level, 3);
    assert_eq!(stats.experience, 50);
    assert_eq!(stats.next_level_exp, 300);
}

#[test]
fn class_profiles_are_exact() {
    let heavy = Stats::new(Class::HeavyBlade);
    assert_eq!((heavy.hp, heavy.mp, heavy.attack, heavy.defense), (150, 20, 20, 15));
    assert_eq!((heavy.magic_attack, heavy.magic_defense, heavy.agility), (3, 10, 8));
    let long_arm = Stats::new(Class::LongArm);
    assert_eq!((long_arm.hp, long_arm.mp, long_arm.attack, long_arm.defense), (90, 40, 12, 6));
    assert_eq!((long_arm.magic_attack, long_arm.magic_defense, long_arm.agility), (12, 8, 15));
    let wave = Stats::new(Class::Wavemaster);
    assert_eq!((wave.hp, wave.max_mp, wave.magic_attack), (70, 80, 20));
    assert_eq!((wave.level, wave.experience, wave.next_level_exp), (1, 0, 100));
}

#[test]
fn several_level_ups_at_once() {
    let mut stats = Stats::new(Class::TwinBlade);
    stats.take_damage(40);
    // 100 for level 2, then 200 for level 3, leaving 50 of the 350.
    stats.add_experience(350);
    assert_eq!(stats.level, 3);
    assert_eq!(stats.experience, 50);
    assert_eq!(stats.next_level_exp, 300);
    assert_eq!(stats.max_hp, 120);
    assert_eq!(stats.hp, 120);
    assert_eq!(stats.max_mp, 40);
    assert_eq!(stats.mp, 40);
    assert_eq!(stats.attack, 19);
    assert_eq!(stats.defense, 10);
    assert_eq!(stats.agility, 20);
}

#[test]
fn experience_below_threshold_changes_only_experience() {
    let mut stats = Stats::new(Class::Wavemaster);
    stats.take_damage(10);
    stats.add_experience(99);
    assert_eq!(stats.level, 1);
    assert_eq!(stats.experience, 99);
    assert_eq!(stats.hp, 60);
    assert_eq!(stats.next_level_exp, 100);
}

#[test]
fn single_level_up_refills() {
    let mut stats = Stats::new(Class::LongArm);
    stats.experience = 130;
    stats.hp = 1;
    stats.level_up();
    assert_eq!(stats.experience, 30);
    assert_eq!(stats.level, 2);
    assert_eq!(stats.hp, 100);
    assert_eq!(stats.mp, 45);
    assert_eq!(stats.next_level_exp, 200);
}

#[test]
fn data_drain_states_follow_the_gauge() {
    assert!(DataDrainState::Inactive.accepts_charge());
    assert!(!DataDrainState::Ready.accepts_charge());
    assert_eq!(DataDrainState::Inactive.after_charge(false), DataDrainState::Charging);
    assert_eq!(DataDrainState::Charging.after_charge(true), DataDrainState::Ready);
    assert_eq!(DataDrainState::Cooldown.after_charge(true), DataDrainState::Cooldown);
    assert_eq!(DataDrainState::Ready.activated(), (DataDrainState::Active, true));
    assert_eq!(DataDrainState::Charging.activated(), (DataDrainState::Charging, false));
    assert_eq!(DataDrainState::Active.after_update(false), DataDrainState::Cooldown);
    assert_eq!(DataDrainState::Cooldown.after_update(false), DataDrainState::Cooldown);
    assert_eq!(DataDrainState::Cooldown.after_update(true), DataDrainState::Inactive);
    assert_eq!(DataDrainState::Ready.after_update(true), DataDrainState::Ready);
}
