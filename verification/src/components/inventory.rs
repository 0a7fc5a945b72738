//! Item storage and gold.
use vstd::prelude::*;

verus! {

/// A stack of items held in an inventory.
#[derive(Debug, Clone)]
pub struct Item {
    pub id: String,
    pub name: String,
    pub quantity: u32,
    pub max_stack: u32,
    pub item_type: ItemType,
}

impl Item {
    /// The plain contents of the stack: id, name, quantity, stack limit, kind.
    pub open spec fn record(self) -> (Seq<char>, Seq<char>, u32, u32, ItemType) {
        (self.id@, self.name@, self.quantity, self.max_stack, self.item_type)
    }
}

/// What kind of item a stack holds.
#[derive(Debug, Clone, Copy, PartialEq, Eq, Structural)]
pub enum ItemType {
    Consumable,
    Weapon,
    Armor,
    Accessory,
    KeyItem,
    Material,
}

/// A bounded list of item stacks plus a gold purse.
#[derive(Debug, Clone)]
pub struct Inventory {
    pub items: Vec<Item>,
    pub max_items: usize,
    pub gold: u64,
}

/// Gold after receiving `amount`: the sum, saturating at `u64::MAX`.
pub open spec fn gold_after_gain(gold: u64, amount: u64) -> u64 {
    if gold + amount <= u64::MAX { (gold + amount) as u64 } else { u64::MAX }
}

/// Gold after trying to pay `amount`: paid only when the purse holds enough.
pub open spec fn gold_after_spend(gold: u64, amount: u64) -> u64 {
    if gold >= amount { (gold - amount) as u64 } else { gold }
}

impl Inventory {
    /// An empty inventory holding at most `max_items` stacks and no gold.
    pub fn new(max_items: usize) -> (r: Self)
        ensures
            r.items@.len() == 0,
            r.max_items == max_items,
            r.gold == 0,
    {
        Self { items: Vec::new(), max_items, gold: 0 }
    }

    /// Append `item`, unless the inventory already holds `max_items` stacks,
    /// in which case it is refused with "Inventory is full" and nothing changes.
    pub fn add_item(&mut self, item: Item) -> (r: Result<(), &str>)
        ensures
            old(self).items@.len() >= old(self).max_items ==> {
                &&& r == Err::<(), &str>("Inventory is full")
                &&& final(self).items@ == old(self).items@
            },
            old(self).items@.len() < old(self).max_items ==> {
                &&& r == Ok::<(), &str>(())
                &&& final(self).items@ == old(self).items@.push(item)
            },
            final(self).max_items == old(self).max_items,
            final(self).gold == old(self).gold,
    {
        if self.items.len() >= self.max_items {
            Err("Inventory is full")
        } else {
            self.items.push(item);
            Ok(())
        }
    }

    /// Take out the stack at `index`, shifting the later ones down; `None`
    /// (and no change) when `index` is out of range.
    pub fn remove_item(&mut self, index: usize) -> (r: Option<Item>)
        ensures
            index < old(self).items@.len() ==> {
                &&& r == Some(old(self).items@[index as int])
                &&& final(self).items@ == old(self).items@.remove(index as int)
            },
            index >= old(self).items@.len() ==> {
                &&& r.is_none()
                &&& final(self).items@ == old(self).items@
            },
            final(self).max_items == old(self).max_items,
            final(self).gold == old(self).gold,
    {
        if index < self.items.len() {
            Some(self.items.remove(index))
        } else {
            None
        }
    }

    /// Receive `amount` gold, saturating at `u64::MAX`.
    pub fn add_gold(&mut self, amount: u64)
        ensures
            final(self).gold == gold_after_gain(old(self).gold, amount),
            final(self).items@ == old(self).items@,
            final(self).max_items == old(self).max_items,
    {
        self.gold = self.gold.saturating_add(amount);
    }

    /// Pay `amount` gold if the purse holds at least that much; returns
    /// whether the payment happened.
    pub fn spend_gold(&mut self, amount: u64) -> (r: bool)
        ensures
            r == (old(self).gold >= amount),
            final(self).gold == gold_after_spend(old(self).gold, amount),
            final(self).items@ == old(self).items@,
            final(self).max_items == old(self).max_items,
    {
        if self.gold >= amount {
            self.gold = self.gold - amount;
            true
        } else {
            false
        }
    }
}

/// Paying back what was just received restores the purse, as long as the
/// receipt did not saturate.
pub proof fn law_spend_undoes_gain(gold: u64, amount: u64)
    requires
        gold + amount <= u64::MAX,
    ensures
        gold_after_spend(gold_after_gain(gold, amount), amount) == gold,
{
}

/// A refused payment leaves the purse untouched, and a payment never
/// takes more than the purse holds.
pub proof fn law_spend_never_overdraws(gold: u64, amount: u64)
    ensures
        gold_after_spend(gold, amount) <= gold,
        gold < amount ==> gold_after_spend(gold, amount) == gold,
        gold >= amount ==> gold_after_spend(gold, amount) + amount == gold,
{
}

} // verus!
