//! Resource kinds, balances, prices and per-kind amount tables.

use vstd::prelude::*;

verus! {

/// The largest value a 64-bit counter holds, as a mathematical integer.
pub open spec fn u64_max() -> nat {
    0xffff_ffff_ffff_ffffnat
}

/// `x` scaled by `tenths / 10`, rounded down.
pub open spec fn scale_tenths(x: nat, tenths: nat) -> nat {
    x * tenths / 10
}

/// Scales `x` by `tenths / 10`, rounding down; `None` when the result does not
/// fit in 64 bits.
pub fn scale_amount(x: u64, tenths: u64) -> (r: Option<u64>)
    ensures
        r.is_some() <==> scale_tenths(x as nat, tenths as nat) <= u64_max(),
        r.is_some() ==> r.unwrap() == scale_tenths(x as nat, tenths as nat),
{
    assert((x as nat) * (tenths as nat) <= 0xffff_ffff_ffff_ffff_ffff_ffff_ffff_ffffnat) by (nonlinear_arith)
        requires
            x <= 0xffff_ffff_ffff_ffffnat,
            tenths <= 0xffff_ffff_ffff_ffffnat,
    ;
    let wide: u128 = (x as u128) * (tenths as u128) / 10;
    if wide <= 0xffff_ffff_ffff_ffff {
        Some(wide as u64)
    } else {
        None
    }
}

/// The five fungible resource kinds a city holds.
#[derive(Clone, Copy, Debug, PartialEq, Eq, Structural)]
pub enum ResourceType {
    Gold,
    Wood,
    Stone,
    Food,
    Energy,
}

/// A city's resource balances.
#[derive(Clone, Copy, Debug, PartialEq, Eq, Structural)]
pub struct CityResources {
    pub gold: u64,
    pub wood: u64,
    pub stone: u64,
    pub food: u64,
    pub energy: u64,
}

impl CityResources {
    /// The amount held for `kind`.
    pub open spec fn spec_get(self, kind: ResourceType) -> u64 {
        match kind {
            ResourceType::Gold => self.gold,
            ResourceType::Wood => self.wood,
            ResourceType::Stone => self.stone,
            ResourceType::Food => self.food,
            ResourceType::Energy => self.energy,
        }
    }
}

/// A price in the three construction materials.
#[derive(Clone, Copy, Debug, PartialEq, Eq, Structural)]
pub struct BuildingCost {
    pub gold: u64,
    pub wood: u64,
    pub stone: u64,
}

/// One amount per resource kind: production rates, maintenance costs and
/// bonuses. A kind that a building does not touch holds zero.
#[derive(Clone, Copy, Debug, PartialEq, Eq, Structural)]
pub struct ResourceTable {
    pub gold: u64,
    pub wood: u64,
    pub stone: u64,
    pub food: u64,
    pub energy: u64,
}

impl ResourceTable {
    /// The amount held for `kind`.
    pub open spec fn spec_get(self, kind: ResourceType) -> u64 {
        match kind {
            ResourceType::Gold => self.gold,
            ResourceType::Wood => self.wood,
            ResourceType::Stone => self.stone,
            ResourceType::Food => self.food,
            ResourceType::Energy => self.energy,
        }
    }

    /// The amount held for `kind`.
    pub fn get(&self, kind: ResourceType) -> (r: u64)
        ensures
            r == self.spec_get(kind),
    {
        match kind {
            ResourceType::Gold => self.gold,
            ResourceType::Wood => self.wood,
            ResourceType::Stone => self.stone,
            ResourceType::Food => self.food,
            ResourceType::Energy => self.energy,
        }
    }

    /// A table with every amount at zero.
    pub fn empty() -> (r: ResourceTable)
        ensures
            forall|k: ResourceType| #[trigger] r.spec_get(k) == 0,
    {
        ResourceTable { gold: 0, wood: 0, stone: 0, food: 0, energy: 0 }
    }

    /// Whether every amount, scaled by `tenths / 10`, still fits in 64 bits.
    pub open spec fn scale_fits(self, tenths: nat) -> bool {
        forall|k: ResourceType| scale_tenths(#[trigger] self.spec_get(k) as nat, tenths) <= u64_max()
    }

    /// The table with every amount scaled by `tenths / 10`, rounded down.
    pub open spec fn spec_scaled(self, tenths: nat) -> ResourceTable {
        ResourceTable {
            gold: scale_tenths(self.gold as nat, tenths) as u64,
            wood: scale_tenths(self.wood as nat, tenths) as u64,
            stone: scale_tenths(self.stone as nat, tenths) as u64,
            food: scale_tenths(self.food as nat, tenths) as u64,
            energy: scale_tenths(self.energy as nat, tenths) as u64,
        }
    }

    /// Every amount scaled by `tenths / 10`, rounded down; `None` when one of
    /// them does not fit in 64 bits.
    pub fn scaled(&self, tenths: u64) -> (r: Option<ResourceTable>)
        ensures
            r.is_some() <==> self.scale_fits(tenths as nat),
            r.is_some() ==> r.unwrap() == self.spec_scaled(tenths as nat),
            r.is_some() ==> forall|k: ResourceType|
                #[trigger] r.unwrap().spec_get(k) == scale_tenths(self.spec_get(k) as nat, tenths as nat),
    {
        let gold = scale_amount(self.gold, tenths);
        let wood = scale_amount(self.wood, tenths);
        let stone = scale_amount(self.stone, tenths);
        let food = scale_amount(self.food, tenths);
        let energy = scale_amount(self.energy, tenths);
        match (gold, wood, stone, food, energy) {
            (Some(gold), Some(wood), Some(stone), Some(food), Some(energy)) => {
                let r = ResourceTable { gold, wood, stone, food, energy };
                assert forall|k: ResourceType|
                    scale_tenths(#[trigger] self.spec_get(k) as nat, tenths as nat) <= u64_max() by {
                    assert(r.spec_get(k) == scale_tenths(self.spec_get(k) as nat, tenths as nat));
                }
                Some(r)
            },
            _ => {
                assert(!self.scale_fits(tenths as nat)) by {
                    if gold.is_none() {
                        assert(self.spec_get(ResourceType::Gold) == self.gold);
                    } else if wood.is_none() {
                        assert(self.spec_get(ResourceType::Wood) == self.wood);
                    } else if stone.is_none() {
                        assert(self.spec_get(ResourceType::Stone) == self.stone);
                    } else if food.is_none() {
                        assert(self.spec_get(ResourceType::Food) == self.food);
                    } else {
                        assert(self.spec_get(ResourceType::Energy) == self.energy);
                    }
                }
                None
            },
        }
    }

    /// Whether the per-kind sums with `other` all fit in 64 bits.
    pub open spec fn add_fits(self, other: ResourceTable) -> bool {
        forall|k: ResourceType|
            #[trigger] self.spec_get(k) + other.spec_get(k) <= u64_max()
    }

    /// The per-kind sum with `other`; `None` when one of the sums does not fit
    /// in 64 bits.
    pub fn checked_add(&self, other: &ResourceTable) -> (r: Option<ResourceTable>)
        ensures
            r.is_some() <==> self.add_fits(*other),
            r.is_some() ==> forall|k: ResourceType|
                #[trigger] r.unwrap().spec_get(k) == self.spec_get(k) + other.spec_get(k),
    {
        let gold = self.gold.checked_add(other.gold);
        let wood = self.wood.checked_add(other.wood);
        let stone = self.stone.checked_add(other.stone);
        let food = self.food.checked_add(other.food);
        let energy = self.energy.checked_add(other.energy);
        match (gold, wood, stone, food, energy) {
            (Some(gold), Some(wood), Some(stone), Some(food), Some(energy)) => {
                let r = ResourceTable { gold, wood, stone, food, energy };
                assert forall|k: ResourceType|
                    #[trigger] self.spec_get(k) + other.spec_get(k) <= u64_max() by {
                    assert(r.spec_get(k) == self.spec_get(k) + other.spec_get(k));
                }
                Some(r)
            },
            _ => {
                assert(!self.add_fits(*other)) by {
                    if gold.is_none() {
                        assert(self.spec_get(ResourceType::Gold) == self.gold);
                    } else if wood.is_none() {
                        assert(self.spec_get(ResourceType::Wood) == self.wood);
                    } else if stone.is_none() {
                        assert(self.spec_get(ResourceType::Stone) == self.stone);
                    } else if food.is_none() {
                        assert(self.spec_get(ResourceType::Food) == self.food);
                    } else {
                        assert(self.spec_get(ResourceType::Energy) == self.energy);
                    }
                }
                None
            },
        }
    }
}

} // verus!
