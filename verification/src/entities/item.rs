//! Item factories, healing values and shop prices.
use vstd::prelude::*;
use crate::components::inventory::{Item, ItemType};
use crate::text::str_eq;

verus! {

/// Factory for items.
pub struct ItemEntity;

/// HP/MP restored by the consumable with id `id`; 0 for anything else.
pub open spec fn healing_value(id: Seq<char>) -> u32 {
    if id == "potion"@ {
        50
    } else if id == "hi_potion"@ {
        150
    } else if id == "ether"@ {
        30
    } else if id == "hi_ether"@ {
        80
    } else {
        0
    }
}

/// The shop's price list as (item id, price), in display order.
pub open spec fn shop_prices() -> Seq<(Seq<char>, u64)> {
    seq![
        ("potion"@, 50u64),
        ("hi_potion"@, 150u64),
        ("ether"@, 100u64),
        ("hi_ether"@, 300u64),
        ("antidote"@, 30u64),
    ]
}

fn price(id: &str, amount: u64) -> (r: (String, u64))
    ensures
        r.0@ == id@,
        r.1 == amount,
{
    (id.to_string(), amount)
}

impl ItemEntity {
    /// A consumable stack of `quantity` items with a stack limit of 99.
    pub fn create_consumable(id: &str, name: &str, quantity: u32) -> (r: Item)
        ensures
            r.record() == (id@, name@, quantity, 99u32, ItemType::Consumable),
    {
        Item { id: id.to_string(), name: name.to_string(), quantity, max_stack: 99, item_type: ItemType::Consumable }
    }

    /// A single, unstackable piece of equipment of kind `item_type`.
    pub fn create_equipment(id: &str, name: &str, item_type: ItemType) -> (r: Item)
        ensures
            r.record() == (id@, name@, 1u32, 1u32, item_type),
    {
        Item { id: id.to_string(), name: name.to_string(), quantity: 1, max_stack: 1, item_type }
    }

    /// How much the item restores, looked up by its id.
    pub fn get_healing_value(item: &Item) -> (r: u32)
        ensures
            r == healing_value(item.id@),
    {
        let id = item.id.as_str();
        if str_eq(id, "potion") {
            50
        } else if str_eq(id, "hi_potion") {
            150
        } else if str_eq(id, "ether") {
            30
        } else if str_eq(id, "hi_ether") {
            80
        } else {
            0
        }
    }

    /// The shop's price list.
    pub fn get_shop_prices() -> (r: Vec<(String, u64)>)
        ensures
            r@.len() == shop_prices().len(),
            forall|i: int| 0 <= i < r@.len() ==> (#[trigger] r@[i].0@, r@[i].1) == shop_prices()[i],
    {
        vec![
            price("potion", 50),
            price("hi_potion", 150),
            price("ether", 100),
            price("hi_ether", 300),
            price("antidote", 30),
        ]
    }
}

} // verus!
