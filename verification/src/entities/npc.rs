//! Non-player characters.
use vstd::prelude::*;
use crate::components::inventory::{Item, ItemType};
use crate::text::{concat, to_lowercase, unicode_lowercase};

verus! {

/// A non-player character and what it sells.
#[derive(Debug, Clone)]
pub struct NPC {
    pub id: String,
    pub name: String,
    pub dialogue_id: String,
    pub npc_type: NPCType,
    pub shop_items: Vec<Item>,
}

/// The roles an NPC can play.
#[derive(Debug, Clone, Copy, PartialEq, Eq, Structural)]
pub enum NPCType {
    Shopkeeper,
    QuestGiver,
    StoryCharacter,
    Informant,
    Healer,
}

/// Factory for NPCs; the position and sprite that go with an NPC are
/// attached by the application.
pub struct NPCEntity;

/// The stock of every shopkeeper: 99 each of potion, ether and antidote.
pub open spec fn shop_stock() -> Seq<(Seq<char>, Seq<char>, u32, u32, ItemType)> {
    seq![
        ("potion"@, "Potion"@, 99u32, 99u32, ItemType::Consumable),
        ("ether"@, "Ether"@, 99u32, 99u32, ItemType::Consumable),
        ("antidote"@, "Antidote"@, 99u32, 99u32, ItemType::Consumable),
    ]
}

fn stock_item(id: &str, name: &str) -> (r: Item)
    ensures
        r.record() == (id@, name@, 99u32, 99u32, ItemType::Consumable),
{
    Item { id: id.to_string(), name: name.to_string(), quantity: 99, max_stack: 99, item_type: ItemType::Consumable }
}

impl NPCEntity {
    /// The NPC called `name` playing `npc_type`: its id and dialogue id are
    /// "npc_" and "dialogue_" followed by the name in lower case; it sells
    /// nothing.
    pub fn create_npc(npc_type: NPCType, name: &str) -> (r: NPC)
        ensures
            r.id@ == "npc_"@ + unicode_lowercase(name@),
            r.name@ == name@,
            r.dialogue_id@ == "dialogue_"@ + unicode_lowercase(name@),
            r.npc_type == npc_type,
            r.shop_items@.len() == 0,
    {
        let lower = to_lowercase(name);
        NPC {
            id: concat("npc_", lower.as_str()),
            name: name.to_string(),
            dialogue_id: concat("dialogue_", lower.as_str()),
            npc_type,
            shop_items: Vec::new(),
        }
    }

    /// The shopkeeper called `name`, selling the [`shop_stock`].
    pub fn create_shopkeeper_npc(name: &str) -> (r: NPC)
        ensures
            r.id@ == "npc_"@ + unicode_lowercase(name@),
            r.name@ == name@,
            r.dialogue_id@ == "dialogue_"@ + unicode_lowercase(name@),
            r.npc_type == NPCType::Shopkeeper,
            r.shop_items@.map_values(|i: Item| i.record()) == shop_stock(),
    {
        let mut npc = Self::create_npc(NPCType::Shopkeeper, name);
        let mut items: Vec<Item> = Vec::new();
        items.push(stock_item("potion", "Potion"));
        items.push(stock_item("ether", "Ether"));
        items.push(stock_item("antidote", "Antidote"));
        assert(items@.map_values(|i: Item| i.record()) =~= shop_stock());
        npc.shop_items = items;
        npc
    }
}

} // verus!
