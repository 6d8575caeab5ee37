//! The player assembler: overlays the decoded flat sequence and the scalar
//! columns of the account row onto a player record. Required scalars are
//! fatal when absent; optional flag columns default quietly; region errors
//! abort the whole assembly, since a truncated inventory would silently
//! corrupt unrelated regions downstream.

use vstd::prelude::*;

use crate::loadout::{loadout_matches, Loadout, Loadouts};
use crate::regions::{
    extract_inventory_row, extract_loadout, extract_main_bag, extract_single, extract_stash,
    inv_grid_matches, inv_row_matches, item_grid_matches, AssembleError, Region, RequiredField,
};
use crate::slots::{single_of, spec_decode, parse_inventory, InventorySlot, ItemSlot,
    SingleItemSlot};

verus! {

/// A scalar equip row: pet, light pet, minecart, mount or hook. The dye is
/// stored elsewhere in the source format and stays empty.
#[derive(Clone, Copy, Debug, PartialEq, Eq, Structural)]
pub struct MiscRow {
    pub item: Option<SingleItemSlot>,
    pub dye: Option<SingleItemSlot>,
}

/// A scalar equip row with a visibility toggle.
#[derive(Clone, Copy, Debug, PartialEq, Eq, Structural)]
pub struct MiscRowWithVisibility {
    pub item: Option<SingleItemSlot>,
    pub dye: Option<SingleItemSlot>,
    pub is_shown: bool,
}

/// The columns of one account row, as plain optional values: a column that is
/// absent or unreadable arrives as `None`. Name, life and mana values are
/// required; every flag column is optional and defaults.
pub struct AccountRow {
    pub name: Option<String>,
    pub life: Option<i32>,
    pub max_life: Option<i32>,
    pub mana: Option<i32>,
    pub max_mana: Option<i32>,
    pub quests_completed: Option<i32>,
    pub unlocked_biome_torches: Option<i64>,
    pub ate_artisan_bread: Option<i64>,
    pub used_aegis_crystal: Option<i64>,
    pub used_aegis_fruit: Option<i64>,
    pub used_arcane_crystal: Option<i64>,
    pub used_galaxy_pearl: Option<i64>,
    pub used_gummy_worm: Option<i64>,
    pub used_ambrosia: Option<i64>,
    pub enabled_super_cart: Option<i64>,
}

/// The populated player record: scalar rows, the carried bag and rows, the
/// three stash grids, the scalar equip rows, and the three loadouts.
#[derive(Clone, Debug, PartialEq)]
pub struct PlayerRecord {
    pub name: String,
    pub life: i32,
    pub max_life: i32,
    pub mana: i32,
    pub max_mana: i32,
    pub inventory: Vec<Vec<Option<InventorySlot>>>,
    pub coins: Vec<Option<InventorySlot>>,
    pub ammo: Vec<Option<InventorySlot>>,
    pub piggy_bank: Vec<Vec<Option<ItemSlot>>>,
    pub safe: Vec<Vec<Option<ItemSlot>>>,
    pub defenders_forge: Vec<Vec<Option<ItemSlot>>>,
    pub loadouts: Loadouts,
    pub pet: MiscRowWithVisibility,
    pub light_pet: MiscRowWithVisibility,
    pub minecart: MiscRow,
    pub mount: MiscRow,
    pub hook: MiscRow,
    pub finished_angler_quests_count: i32,
    pub is_using_biome_torches: Option<bool>,
    pub is_artisan_bread_eaten: bool,
    pub is_aegis_crystal_used: bool,
    pub is_aegis_fruit_used: bool,
    pub is_arcane_crystal_used: bool,
    pub is_galaxy_pearl_used: bool,
    pub is_gummy_worm_used: bool,
    pub is_ambrosia_used: bool,
    pub is_super_cart_enabled: Option<bool>,
}

/// The first required scalar the row lacks, in column order, if any.
pub open spec fn spec_missing_required(row: AccountRow) -> Option<RequiredField> {
    if row.name is None {
        Some(RequiredField::Name)
    } else if row.life is None {
        Some(RequiredField::Life)
    } else if row.max_life is None {
        Some(RequiredField::MaxLife)
    } else if row.mana is None {
        Some(RequiredField::Mana)
    } else if row.max_mana is None {
        Some(RequiredField::MaxMana)
    } else {
        None
    }
}

/// An optional flag column reads as set exactly when it holds 1.
pub open spec fn spec_flag(v: Option<i64>) -> bool {
    v == Some(1i64)
}

/// An optional counter column, defaulting to zero.
pub open spec fn spec_count_or_zero(v: Option<i32>) -> i32 {
    match v {
        Some(c) => c,
        None => 0,
    }
}

/// The first region, in the published table order, that a flat sequence of
/// `n` elements cannot supply, if any. A sequence of at least 340 elements
/// supplies every region.
pub open spec fn spec_first_short_region(n: int) -> Option<Region> {
    if n < 50 {
        Some(Region::MainBag)
    } else if n < 53 {
        Some(Region::Coins)
    } else if n < 58 {
        Some(Region::Ammo)
    } else if n < 79 {
        Some(Region::Loadout1)
    } else if n < 90 {
        Some(Region::Pet)
    } else if n < 91 {
        Some(Region::LightPet)
    } else if n < 92 {
        Some(Region::Minecart)
    } else if n < 93 {
        Some(Region::Mount)
    } else if n < 94 {
        Some(Region::Hook)
    } else if n < 149 {
        Some(Region::PiggyBank)
    } else if n < 189 {
        Some(Region::Safe)
    } else if n < 249 {
        Some(Region::DefendersForge)
    } else if n < 310 {
        Some(Region::Loadout2)
    } else if n < 340 {
        Some(Region::Loadout3)
    } else {
        None
    }
}

/// The record `p` is the row and the decoded sequence `d` correctly overlaid:
/// every scalar, grid, row and loadout drawn from its published window, the
/// three loadouts from their pairwise disjoint windows.
pub open spec fn player_matches(p: PlayerRecord, d: Seq<Option<ItemSlot>>, row: AccountRow) -> bool {
    &&& row.name == Some(p.name)
    &&& row.life == Some(p.life)
    &&& row.max_life == Some(p.max_life)
    &&& row.mana == Some(p.mana)
    &&& row.max_mana == Some(p.max_mana)
    &&& inv_grid_matches(p.inventory, d, 0, 5)
    &&& inv_row_matches(p.coins, d, 49, 4)
    &&& inv_row_matches(p.ammo, d, 54, 4)
    &&& item_grid_matches(p.piggy_bank, d, 99, 4)
    &&& item_grid_matches(p.safe, d, 139, 4)
    &&& item_grid_matches(p.defenders_forge, d, 199, 4)
    &&& p.loadouts.loadouts@.len() == 3
    &&& loadout_matches(p.loadouts.loadouts@[0], d, 59)
    &&& loadout_matches(p.loadouts.loadouts@[1], d, 290)
    &&& loadout_matches(p.loadouts.loadouts@[2], d, 320)
    &&& p.loadouts.selected_loadout_index == 0
    &&& p.pet == (MiscRowWithVisibility { item: single_of(d[89]), dye: None, is_shown: true })
    &&& p.light_pet == (MiscRowWithVisibility { item: single_of(d[90]), dye: None, is_shown: true })
    &&& p.minecart == (MiscRow { item: single_of(d[91]), dye: None })
    &&& p.mount == (MiscRow { item: single_of(d[92]), dye: None })
    &&& p.hook == (MiscRow { item: single_of(d[93]), dye: None })
    &&& p.finished_angler_quests_count == spec_count_or_zero(row.quests_completed)
    &&& p.is_using_biome_torches == Some(spec_flag(row.unlocked_biome_torches))
    &&& p.is_artisan_bread_eaten == spec_flag(row.ate_artisan_bread)
    &&& p.is_aegis_crystal_used == spec_flag(row.used_aegis_crystal)
    &&& p.is_aegis_fruit_used == spec_flag(row.used_aegis_fruit)
    &&& p.is_arcane_crystal_used == spec_flag(row.used_arcane_crystal)
    &&& p.is_galaxy_pearl_used == spec_flag(row.used_galaxy_pearl)
    &&& p.is_gummy_worm_used == spec_flag(row.used_gummy_worm)
    &&& p.is_ambrosia_used == spec_flag(row.used_ambrosia)
    &&& p.is_super_cart_enabled == Some(spec_flag(row.enabled_super_cart))
}

fn flag_of(v: &Option<i64>) -> (r: bool)
    ensures
        r == spec_flag(*v),
{
    match v {
        Some(x) => *x == 1,
        None => false,
    }
}

/// Assembles one player from the inventory blob and the account row.
///
/// A missing required scalar is reported first, in column order. Then the
/// blob is decoded and each region is extracted in the published table order:
/// a sequence too short for a region fails with that region named. On a
/// sequence of at least 340 slots the assembly always succeeds and the record
/// is exactly the overlay that `player_matches` describes.
pub fn get_player(blob: &[u8], row: AccountRow) -> (r: Result<PlayerRecord, AssembleError>)
    ensures
        ({
            let d = spec_decode(blob@);
            match spec_missing_required(row) {
                Some(f) => r == Err::<PlayerRecord, AssembleError>(
                    AssembleError::MissingRequiredField(f),
                ),
                None => match spec_first_short_region(d.len() as int) {
                    Some(reg) => r == Err::<PlayerRecord, AssembleError>(
                        AssembleError::RegionOutOfRange(reg),
                    ),
                    None => r matches Ok(p) && player_matches(p, d, row),
                },
            }
        }),
{
    let name = match row.name {
        Some(v) => v,
        None => {
            return Err(AssembleError::MissingRequiredField(RequiredField::Name));
        },
    };
    let life = match row.life {
        Some(v) => v,
        None => {
            return Err(AssembleError::MissingRequiredField(RequiredField::Life));
        },
    };
    let max_life = match row.max_life {
        Some(v) => v,
        None => {
            return Err(AssembleError::MissingRequiredField(RequiredField::MaxLife));
        },
    };
    let mana = match row.mana {
        Some(v) => v,
        None => {
            return Err(AssembleError::MissingRequiredField(RequiredField::Mana));
        },
    };
    let max_mana = match row.max_mana {
        Some(v) => v,
        None => {
            return Err(AssembleError::MissingRequiredField(RequiredField::MaxMana));
        },
    };
    let flat = parse_inventory(blob);
    let inventory = match extract_main_bag(&flat) {
        Ok(g) => g,
        Err(e) => {
            return Err(e);
        },
    };
    let coins = match extract_inventory_row(&flat, Region::Coins) {
        Ok(v) => v,
        Err(e) => {
            return Err(e);
        },
    };
    let ammo = match extract_inventory_row(&flat, Region::Ammo) {
        Ok(v) => v,
        Err(e) => {
            return Err(e);
        },
    };
    let loadout1 = match extract_loadout(&flat, Region::Loadout1) {
        Ok(l) => l,
        Err(e) => {
            return Err(e);
        },
    };
    let pet_item = match extract_single(&flat, Region::Pet) {
        Ok(s) => s,
        Err(e) => {
            return Err(e);
        },
    };
    let light_pet_item = match extract_single(&flat, Region::LightPet) {
        Ok(s) => s,
        Err(e) => {
            return Err(e);
        },
    };
    let minecart_item = match extract_single(&flat, Region::Minecart) {
        Ok(s) => s,
        Err(e) => {
            return Err(e);
        },
    };
    let mount_item = match extract_single(&flat, Region::Mount) {
        Ok(s) => s,
        Err(e) => {
            return Err(e);
        },
    };
    let hook_item = match extract_single(&flat, Region::Hook) {
        Ok(s) => s,
        Err(e) => {
            return Err(e);
        },
    };
    let piggy_bank = match extract_stash(&flat, Region::PiggyBank) {
        Ok(g) => g,
        Err(e) => {
            return Err(e);
        },
    };
    let safe = match extract_stash(&flat, Region::Safe) {
        Ok(g) => g,
        Err(e) => {
            return Err(e);
        },
    };
    let defenders_forge = match extract_stash(&flat, Region::DefendersForge) {
        Ok(g) => g,
        Err(e) => {
            return Err(e);
        },
    };
    let loadout2 = match extract_loadout(&flat, Region::Loadout2) {
        Ok(l) => l,
        Err(e) => {
            return Err(e);
        },
    };
    let loadout3 = match extract_loadout(&flat, Region::Loadout3) {
        Ok(l) => l,
        Err(e) => {
            return Err(e);
        },
    };
    let mut loadout_list: Vec<Loadout> = Vec::new();
    loadout_list.push(loadout1);
    loadout_list.push(loadout2);
    loadout_list.push(loadout3);
    let record = PlayerRecord {
        name,
        life,
        max_life,
        mana,
        max_mana,
        inventory,
        coins,
        ammo,
        piggy_bank,
        safe,
        defenders_forge,
        loadouts: Loadouts { loadouts: loadout_list, selected_loadout_index: 0 },
        pet: MiscRowWithVisibility { item: pet_item, dye: None, is_shown: true },
        light_pet: MiscRowWithVisibility { item: light_pet_item, dye: None, is_shown: true },
        minecart: MiscRow { item: minecart_item, dye: None },
        mount: MiscRow { item: mount_item, dye: None },
        hook: MiscRow { item: hook_item, dye: None },
        finished_angler_quests_count: match row.quests_completed {
            Some(q) => q,
            None => 0,
        },
        is_using_biome_torches: Some(flag_of(&row.unlocked_biome_torches)),
        is_artisan_bread_eaten: flag_of(&row.ate_artisan_bread),
        is_aegis_crystal_used: flag_of(&row.used_aegis_crystal),
        is_aegis_fruit_used: flag_of(&row.used_aegis_fruit),
        is_arcane_crystal_used: flag_of(&row.used_arcane_crystal),
        is_galaxy_pearl_used: flag_of(&row.used_galaxy_pearl),
        is_gummy_worm_used: flag_of(&row.used_gummy_worm),
        is_ambrosia_used: flag_of(&row.used_ambrosia),
        is_super_cart_enabled: Some(flag_of(&row.enabled_super_cart)),
    };
    Ok(record)
}

} // verus!
