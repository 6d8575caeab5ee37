use tshock_export::loadout::get_loadout;
use tshock_export::regions::{
    extract_inventory_row, extract_loadout, extract_main_bag, extract_single, extract_stash,
    AssembleError, Region,
};
use tshock_export::slots::{parse_inventory, InventorySlot, ItemSlot, SingleItemSlot};

fn slot(item_id: i32, count: i32, prefix: u8) -> ItemSlot {
    ItemSlot { item_id, prefix, count }
}

fn empty_flat(n: usize) -> Vec<Option<ItemSlot>> {
    vec![None; n]
}

#[test]
fn short_sequence_fails_main_bag() {
    let r = extract_main_bag(&empty_flat(49));
    assert_eq!(r, Err(AssembleError::RegionOutOfRange(Region::MainBag)));
}

#[test]
fn short_sequence_fails_stash() {
    let r = extract_stash(&empty_flat(148), Region::PiggyBank);
    assert_eq!(r, Err(AssembleError::RegionOutOfRange(Region::PiggyBank)));
    let r = extract_stash(&empty_flat(188), Region::Safe);
    assert_eq!(r, Err(AssembleError::RegionOutOfRange(Region::Safe)));
    let r = extract_stash(&empty_flat(248), Region::DefendersForge);
    assert_eq!(r, Err(AssembleError::RegionOutOfRange(Region::DefendersForge)));
}

#[test]
fn short_sequence_fails_loadouts_and_rows() {
    let r = extract_loadout(&empty_flat(78), Region::Loadout1);
    assert_eq!(r, Err(AssembleError::RegionOutOfRange(Region::Loadout1)));
    let r = extract_loadout(&empty_flat(339), Region::Loadout3);
    assert_eq!(r, Err(AssembleError::RegionOutOfRange(Region::Loadout3)));
    let r = extract_inventory_row(&empty_flat(52), Region::Coins);
    assert_eq!(r, Err(AssembleError::RegionOutOfRange(Region::Coins)));
    let r = extract_inventory_row(&empty_flat(57), Region::Ammo);
    assert_eq!(r, Err(AssembleError::RegionOutOfRange(Region::Ammo)));
    let r = extract_single(&empty_flat(89), Region::Pet);
    assert_eq!(r, Err(AssembleError::RegionOutOfRange(Region::Pet)));
}

#[test]
fn all_empty_piggy_bank_gives_empty_grid() {
    // 149 sentinel tokens cover the piggy-bank window [99, 149).
    let mut blob = String::new();
    for i in 0..149 {
        if i > 0 {
            blob.push('~');
        }
        blob.push_str("0,0,0");
    }
    let flat = parse_inventory(blob.as_bytes());
    assert_eq!(flat.len(), 149);
    let grid = extract_stash(&flat, Region::PiggyBank).expect("piggy bank extractable");
    assert_eq!(grid.len(), 4);
    for row in &grid {
        assert_eq!(row.len(), 10);
        for cell in row {
            assert_eq!(*cell, None);
        }
    }
}

#[test]
fn stash_keeps_first_four_rows_only() {
    let mut flat = empty_flat(249);
    flat[99] = Some(slot(22, 3, 0));  // piggy bank row 0, column 0
    flat[138] = Some(slot(23, 1, 0));  // piggy bank row 3, column 9
    flat[140] = Some(slot(24, 1, 0));  // piggy bank row 4: decoded, then discarded
    let grid = extract_stash(&flat, Region::PiggyBank).expect("piggy bank extractable");
    assert_eq!(grid.len(), 4);
    assert_eq!(grid[0][0], Some(slot(22, 3, 0)));
    assert_eq!(grid[3][9], Some(slot(23, 1, 0)));
    let populated: usize = grid
        .iter()
        .map(|row| row.iter().filter(|c| c.is_some()).count())
        .sum();
    assert_eq!(populated, 2);
}

#[test]
fn main_bag_is_five_rows_with_clear_favorite() {
    let mut flat = empty_flat(50);
    flat[0] = Some(slot(9, 99, 0));
    flat[49] = Some(slot(71, 100, 0));
    let bag = extract_main_bag(&flat).expect("main bag extractable");
    assert_eq!(bag.len(), 5);
    assert_eq!(
        bag[0][0],
        Some(InventorySlot { item_id: 9, prefix: 0, count: 99, is_favorite: false })
    );
    assert_eq!(
        bag[4][9],
        Some(InventorySlot { item_id: 71, prefix: 0, count: 100, is_favorite: false })
    );
    assert_eq!(bag[2][5], None);
}

#[test]
fn coin_row_overlaps_final_main_bag_cell() {
    let mut flat = empty_flat(53);
    flat[49] = Some(slot(71, 42, 0));
    let coins = extract_inventory_row(&flat, Region::Coins).expect("coins extractable");
    assert_eq!(
        coins[0],
        Some(InventorySlot { item_id: 71, prefix: 0, count: 42, is_favorite: false })
    );
    assert_eq!(coins.len(), 4);
}

#[test]
fn loadout_relative_index_zero_is_helmet_armor() {
    let mut flat = empty_flat(20);
    flat[0] = Some(slot(123, 1, 4));
    let l = get_loadout(&flat, 0);
    assert_eq!(l.helmet.armor, Some(SingleItemSlot { item_id: 123, prefix: 4 }));
    assert_eq!(l.helmet.vanity_armor, None);
    assert_eq!(l.helmet.dye, None);
}

#[test]
fn loadout_relative_index_ten_is_helmet_vanity() {
    let mut flat = empty_flat(20);
    flat[10] = Some(slot(456, 1, 0));
    let l = get_loadout(&flat, 0);
    assert_eq!(l.helmet.armor, None);
    assert_eq!(l.helmet.vanity_armor, Some(SingleItemSlot { item_id: 456, prefix: 0 }));
}

#[test]
fn loadout_accessories_map_in_slot_order() {
    let mut flat = empty_flat(40);
    for k in 0..6 {
        flat[20 + 3 + k] = Some(slot(100 + k as i32, 1, 0));
        flat[20 + 13 + k] = Some(slot(200 + k as i32, 1, 0));
    }
    flat[20 + 1] = Some(slot(77, 1, 0));
    flat[20 + 12] = Some(slot(78, 1, 0));
    let l = get_loadout(&flat, 20);
    assert_eq!(l.accessories.len(), 6);
    for k in 0..6 {
        let a = &l.accessories[k];
        assert_eq!(a.accessory, Some(SingleItemSlot { item_id: 100 + k as i32, prefix: 0 }));
        assert_eq!(
            a.vanity_accessory,
            Some(SingleItemSlot { item_id: 200 + k as i32, prefix: 0 })
        );
        assert_eq!(a.dye, None);
        assert!(a.is_accessory_shown);
    }
    assert_eq!(l.breastplate.armor, Some(SingleItemSlot { item_id: 77, prefix: 0 }));
    assert_eq!(l.pants.vanity_armor, Some(SingleItemSlot { item_id: 78, prefix: 0 }));
}
