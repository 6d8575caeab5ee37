//! One equipment loadout assembled from a 20-slot window of the flat
//! sequence: three armor rows and six accessory rows, functional pieces at
//! relative indices 0..=8 and their cosmetic counterparts ten slots later.
//! Dyes are stored elsewhere in the source format and stay empty, and every
//! accessory is shown.

use vstd::prelude::*;

use crate::slots::{single_of, to_single_slot, ItemSlot, SingleItemSlot};

verus! {

/// One equip category: the functional piece, its cosmetic override, and a
/// dye, each independent.
#[derive(Clone, Copy, Debug, PartialEq, Eq, Structural)]
pub struct ArmorRow {
    pub armor: Option<SingleItemSlot>,
    pub vanity_armor: Option<SingleItemSlot>,
    pub dye: Option<SingleItemSlot>,
}

/// One accessory slot: like an armor row, plus a visibility toggle for the
/// cosmetic piece.
#[derive(Clone, Copy, Debug, PartialEq, Eq, Structural)]
pub struct AccessoryRow {
    pub accessory: Option<SingleItemSlot>,
    pub vanity_accessory: Option<SingleItemSlot>,
    pub dye: Option<SingleItemSlot>,
    pub is_accessory_shown: bool,
}

/// One complete equipment configuration: helmet, breastplate and pants rows,
/// and six accessory rows in slot order.
#[derive(Clone, Debug, PartialEq, Eq)]
pub struct Loadout {
    pub helmet: ArmorRow,
    pub breastplate: ArmorRow,
    pub pants: ArmorRow,
    pub accessories: Vec<AccessoryRow>,
}

/// The three alternate configurations plus the selected one.
#[derive(Clone, Debug, PartialEq, Eq)]
pub struct Loadouts {
    pub loadouts: Vec<Loadout>,
    pub selected_loadout_index: i32,
}

/// An armor row drawn from the window at `base`: functional piece at
/// relative index `off`, cosmetic counterpart ten slots later, dye empty.
pub open spec fn armor_row_matches(a: ArmorRow, d: Seq<Option<ItemSlot>>, base: int, off: int) -> bool {
    &&& a.armor == single_of(d[base + off])
    &&& a.vanity_armor == single_of(d[base + 10 + off])
    &&& a.dye is None
}

/// A loadout drawn from the 20-slot window at `base`: armor at relative
/// indices 0..=2 (cosmetic 10..=12), the six accessories at 3..=8 (cosmetic
/// 13..=18), dyes empty, every accessory shown.
pub open spec fn loadout_matches(l: Loadout, d: Seq<Option<ItemSlot>>, base: int) -> bool {
    &&& armor_row_matches(l.helmet, d, base, 0)
    &&& armor_row_matches(l.breastplate, d, base, 1)
    &&& armor_row_matches(l.pants, d, base, 2)
    &&& l.accessories@.len() == 6
    &&& forall|k: int|
        0 <= k < 6 ==> {
            let a = #[trigger] l.accessories@[k];
            &&& a.accessory == single_of(d[base + 3 + k])
            &&& a.vanity_accessory == single_of(d[base + 13 + k])
            &&& a.dye is None
            &&& a.is_accessory_shown
        }
}

/// Assembles the loadout of the 20-slot window starting at `start`, exactly
/// as `loadout_matches` says.
pub fn get_loadout(flat: &Vec<Option<ItemSlot>>, start: usize) -> (l: Loadout)
    requires
        start + 20 <= flat@.len(),
    ensures
        loadout_matches(l, flat@, start as int),
{
    let n = flat.len();
    let helmet = ArmorRow {
        armor: to_single_slot(flat[start]),
        vanity_armor: to_single_slot(flat[start + 10]),
        dye: None,
    };
    let breastplate = ArmorRow {
        armor: to_single_slot(flat[start + 1]),
        vanity_armor: to_single_slot(flat[start + 11]),
        dye: None,
    };
    let pants = ArmorRow {
        armor: to_single_slot(flat[start + 2]),
        vanity_armor: to_single_slot(flat[start + 12]),
        dye: None,
    };
    let mut accessories: Vec<AccessoryRow> = Vec::new();
    let mut k: usize = 0;
    while k < 6
        invariant
            k <= 6,
            n == flat@.len(),
            start + 20 <= flat@.len(),
            accessories@.len() == k,
            forall|j: int|
                0 <= j < k ==> {
                    let a = #[trigger] accessories@[j];
                    &&& a.accessory == single_of(flat@[start + 3 + j])
                    &&& a.vanity_accessory == single_of(flat@[start + 13 + j])
                    &&& a.dye is None
                    &&& a.is_accessory_shown
                },
        decreases 6 - k,
    {
        let row = AccessoryRow {
            accessory: to_single_slot(flat[start + 3 + k]),
            vanity_accessory: to_single_slot(flat[start + 13 + k]),
            dye: None,
            is_accessory_shown: true,
        };
        accessories.push(row);
        k = k + 1;
    }
    Loadout { helmet, breastplate, pants, accessories }
}

} // verus!
