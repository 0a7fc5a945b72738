//! Party members and their bonds.
use vstd::prelude::*;

verus! {

/// A companion travelling with the player.
#[derive(Debug, Clone)]
pub struct PartyMember {
    pub name: String,
    pub bond_level: u32,
    pub is_active: bool,
}

/// A bounded list of party members.
#[derive(Debug, Clone)]
pub struct Party {
    pub members: Vec<PartyMember>,
    pub max_size: usize,
}

/// Bond after an increase of `amount`: the sum, saturating at `u32::MAX`.
pub open spec fn bond_after_increase(bond: u32, amount: u32) -> u32 {
    if bond + amount <= u32::MAX { (bond + amount) as u32 } else { u32::MAX }
}

impl Party {
    /// An empty party of at most `max_size` members.
    pub fn new(max_size: usize) -> (r: Self)
        ensures
            r.members@.len() == 0,
            r.max_size == max_size,
    {
        Self { members: Vec::new(), max_size }
    }

    /// Add an active member called `name` with bond level 1, unless the
    /// party already holds `max_size` members, in which case it is refused
    /// with "Party is full" and nothing changes.
    pub fn add_member(&mut self, name: &str) -> (r: Result<(), &str>)
        ensures
            old(self).members@.len() >= old(self).max_size ==> {
                &&& r == Err::<(), &str>("Party is full")
                &&& final(self).members@ == old(self).members@
            },
            old(self).members@.len() < old(self).max_size ==> {
                &&& r == Ok::<(), &str>(())
                &&& final(self).members@.len() == old(self).members@.len() + 1
                &&& final(self).members@.drop_last() == old(self).members@
                &&& final(self).members@.last().name@ == name@
                &&& final(self).members@.last().bond_level == 1
                &&& final(self).members@.last().is_active
            },
            final(self).max_size == old(self).max_size,
    {
        if self.members.len() >= self.max_size {
            Err("Party is full")
        } else {
            self.members.push(PartyMember { name: name.to_string(), bond_level: 1, is_active: true });
            Ok(())
        }
    }

    /// Take out the member at `index`, shifting the later ones down; `None`
    /// (and no change) when `index` is out of range.
    pub fn remove_member(&mut self, index: usize) -> (r: Option<PartyMember>)
        ensures
            index < old(self).members@.len() ==> {
                &&& r == Some(old(self).members@[index as int])
                &&& final(self).members@ == old(self).members@.remove(index as int)
            },
            index >= old(self).members@.len() ==> {
                &&& r.is_none()
                &&& final(self).members@ == old(self).members@
            },
            final(self).max_size == old(self).max_size,
    {
        if index < self.members.len() {
            Some(self.members.remove(index))
        } else {
            None
        }
    }

    /// Raise the bond of the member at `index` by `amount`, saturating at
    /// `u32::MAX`; does nothing when `index` is out of range.
    pub fn increase_bond(&mut self, index: usize, amount: u32)
        ensures
            index < old(self).members@.len() ==> final(self).members@ == old(self).members@.update(
                index as int,
                PartyMember {
                    bond_level: bond_after_increase(old(self).members@[index as int].bond_level, amount),
                    ..old(self).members@[index as int]
                },
            ),
            index >= old(self).members@.len() ==> final(self).members@ == old(self).members@,
            final(self).max_size == old(self).max_size,
    {
        if index < self.members.len() {
            let mut member = self.members.remove(index);
            member.bond_level = member.bond_level.saturating_add(amount);
            self.members.insert(index, member);
            assert(self.members@ =~= old(self).members@.update(
                index as int,
                PartyMember {
                    bond_level: bond_after_increase(old(self).members@[index as int].bond_level, amount),
                    ..old(self).members@[index as int]
                },
            ));
        }
    }
}

} // verus!
