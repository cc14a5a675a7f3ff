use vstd::prelude::*;

verus! {

/// The kinds of item a character can carry.
#[derive(Clone, Copy, PartialEq, Eq, Structural, Debug, Hash)]
pub enum ItemKind {
    Medpack,
    Ammo,
    Grenade,
    MasterKey,
}

pub const ITEM_KIND_COUNT: usize = 4;

pub open spec fn slot_of(kind: ItemKind) -> int {
    match kind {
        ItemKind::Medpack => 0,
        ItemKind::Ammo => 1,
        ItemKind::Grenade => 2,
        ItemKind::MasterKey => 3,
    }
}

fn slot_index(kind: ItemKind) -> (r: usize)
    ensures
        r == slot_of(kind),
        r < ITEM_KIND_COUNT,
{
    match kind {
        ItemKind::Medpack => 0,
        ItemKind::Ammo => 1,
        ItemKind::Grenade => 2,
        ItemKind::MasterKey => 3,
    }
}

/// How many items of each kind a character carries.
#[derive(Clone, Debug)]
pub struct Inventory {
    amounts: Vec<u32>,
}

impl Inventory {
    pub closed spec fn amounts(&self) -> Seq<u32> {
        self.amounts@
    }

    pub open spec fn wf(&self) -> bool {
        self.amounts().len() == ITEM_KIND_COUNT
    }

    /// The number of items of `kind` carried.
    pub open spec fn count(&self, kind: ItemKind) -> nat {
        self.amounts()[slot_of(kind)] as nat
    }

    /// An empty inventory.
    pub fn new() -> (r: Inventory)
        ensures
            r.wf(),
            forall|k: ItemKind| r.count(k) == 0,
    {
        let r = Inventory { amounts: vec![0u32, 0u32, 0u32, 0u32] };
        assert forall|k: ItemKind| r.count(k) == 0 by {
            assert(0 <= slot_of(k) < 4);
        }
        r
    }

    /// A copy holding the same items.
    pub fn duplicate(&self) -> (r: Inventory)
        requires
            self.wf(),
        ensures
            r.wf(),
            forall|k: ItemKind| r.count(k) == self.count(k),
    {
        Inventory { amounts: self.amounts.clone() }
    }

    pub fn item_count(&self, kind: ItemKind) -> (r: u32)
        requires
            self.wf(),
        ensures
            r == self.count(kind),
    {
        self.amounts[slot_index(kind)]
    }

    /// Adds `amount` items of `kind`.
    pub fn add_item(&mut self, kind: ItemKind, amount: u32)
        requires
            old(self).wf(),
            old(self).count(kind) + amount <= u32::MAX,
        ensures
            final(self).wf(),
            final(self).count(kind) == old(self).count(kind) + amount,
            forall|k: ItemKind| k != kind ==> final(self).count(k) == old(self).count(k),
    {
        let i = slot_index(kind);
        self.amounts[i] = self.amounts[i] + amount;
        assert forall|k: ItemKind| k != kind implies final(self).count(k) == old(self).count(k) by {
            assert(slot_of(k) != slot_of(kind));
        }
    }

    /// Takes exactly `amount` items of `kind` when that many are carried and
    /// returns `amount`; otherwise takes nothing and returns zero.
    pub fn try_extract_exact_items(&mut self, kind: ItemKind, amount: u32) -> (r: u32)
        requires
            old(self).wf(),
        ensures
            final(self).wf(),
            old(self).count(kind) >= amount ==> r == amount && final(self).count(kind) == old(
                self,
            ).count(kind) - amount,
            old(self).count(kind) < amount ==> r == 0 && final(self).count(kind) == old(self).count(
                kind,
            ),
            forall|k: ItemKind| k != kind ==> final(self).count(k) == old(self).count(k),
            (r == amount && final(self).count(kind) + amount == old(self).count(kind)) || (r < amount
                && forall|k: ItemKind| final(self).count(k) == old(self).count(k)),
    {
        let i = slot_index(kind);
        if self.amounts[i] >= amount {
            self.amounts[i] = self.amounts[i] - amount;
            assert forall|k: ItemKind| k != kind implies final(self).count(k) == old(self).count(k) by {
                assert(slot_of(k) != slot_of(kind));
            }
            amount
        } else {
            0
        }
    }
}

} // verus!
