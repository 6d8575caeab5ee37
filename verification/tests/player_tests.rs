use tshock_export::player::{get_player, AccountRow};
use tshock_export::regions::{AssembleError, Region, RequiredField};
use tshock_export::slots::SingleItemSlot;

fn full_row() -> AccountRow {
    AccountRow {
        name: Some(String::from("player one")),
        life: Some(320),
        max_life: Some(400),
        mana: Some(100),
        max_mana: Some(200),
        quests_completed: Some(7),
        unlocked_biome_torches: Some(1),
        ate_artisan_bread: Some(1),
        used_aegis_crystal: Some(0),
        used_aegis_fruit: None,
        used_arcane_crystal: Some(1),
        used_galaxy_pearl: Some(2),
        used_gummy_worm: None,
        used_ambrosia: Some(1),
        enabled_super_cart: Some(1),
    }
}

/// A blob of `n` tokens, all sentinels except the given `(index, token)`
/// overrides.
fn blob_with(n: usize, overrides: &[(usize, &str)]) -> String {
    let mut blob = String::new();
    for i in 0..n {
        if i > 0 {
            blob.push('~');
        }
        match overrides.iter().find(|(at, _)| *at == i) {
            Some((_, tok)) => blob.push_str(tok),
            None => blob.push_str("0,0,0"),
        }
    }
    blob
}

#[test]
fn missing_name_is_fatal_first() {
    let mut row = full_row();
    row.name = None;
    row.life = None;
    let r = get_player(b"", row);
    assert_eq!(r, Err(AssembleError::MissingRequiredField(RequiredField::Name)));
}

#[test]
fn missing_scalars_are_fatal_in_column_order() {
    let mut row = full_row();
    row.life = None;
    assert_eq!(
        get_player(b"", row),
        Err(AssembleError::MissingRequiredField(RequiredField::Life))
    );
    let mut row = full_row();
    row.max_life = None;
    assert_eq!(
        get_player(b"", row),
        Err(AssembleError::MissingRequiredField(RequiredField::MaxLife))
    );
    let mut row = full_row();
    row.mana = None;
    assert_eq!(
        get_player(b"", row),
        Err(AssembleError::MissingRequiredField(RequiredField::Mana))
    );
    let mut row = full_row();
    row.max_mana = None;
    assert_eq!(
        get_player(b"", row),
        Err(AssembleError::MissingRequiredField(RequiredField::MaxMana))
    );
}

#[test]
fn short_sequence_names_first_short_region() {
    let blob = blob_with(40, &[]);
    assert_eq!(
        get_player(blob.as_bytes(), full_row()),
        Err(AssembleError::RegionOutOfRange(Region::MainBag))
    );
    let blob = blob_with(93, &[]);
    assert_eq!(
        get_player(blob.as_bytes(), full_row()),
        Err(AssembleError::RegionOutOfRange(Region::Hook))
    );
    let blob = blob_with(200, &[]);
    assert_eq!(
        get_player(blob.as_bytes(), full_row()),
        Err(AssembleError::RegionOutOfRange(Region::DefendersForge))
    );
    let blob = blob_with(300, &[]);
    assert_eq!(
        get_player(blob.as_bytes(), full_row()),
        Err(AssembleError::RegionOutOfRange(Region::Loadout2))
    );
    let blob = blob_with(339, &[]);
    assert_eq!(
        get_player(blob.as_bytes(), full_row()),
        Err(AssembleError::RegionOutOfRange(Region::Loadout3))
    );
}

#[test]
fn three_loadouts_come_from_disjoint_windows() {
    let blob = blob_with(
        340,
        &[
            (59, "100,1,0"),
            (69, "101,1,0"),
            (290, "200,1,2"),
            (303, "201,1,0"),
            (320, "300,1,3"),
            (338, "301,1,0"),
        ],
    );
    let p = get_player(blob.as_bytes(), full_row()).expect("full-length sequence assembles");
    let ls = &p.loadouts.loadouts;
    assert_eq!(ls.len(), 3);
    assert_eq!(p.loadouts.selected_loadout_index, 0);
    assert_eq!(ls[0].helmet.armor, Some(SingleItemSlot { item_id: 100, prefix: 0 }));
    assert_eq!(ls[0].helmet.vanity_armor, Some(SingleItemSlot { item_id: 101, prefix: 0 }));
    assert_eq!(ls[1].helmet.armor, Some(SingleItemSlot { item_id: 200, prefix: 2 }));
    assert_eq!(
        ls[1].accessories[0].vanity_accessory,
        Some(SingleItemSlot { item_id: 201, prefix: 0 })
    );
    assert_eq!(ls[2].helmet.armor, Some(SingleItemSlot { item_id: 300, prefix: 3 }));
    assert_eq!(
        ls[2].accessories[5].vanity_accessory,
        Some(SingleItemSlot { item_id: 301, prefix: 0 })
    );
    // No window leaks into another loadout.
    assert_eq!(ls[0].accessories[5].vanity_accessory, None);
    assert_eq!(ls[1].helmet.vanity_armor, None);
    assert_eq!(ls[2].helmet.vanity_armor, None);
}

#[test]
fn scalars_flags_and_regions_overlay_the_record() {
    let blob = blob_with(
        340,
        &[
            (0, "9,99,0"),
            (49, "71,42,0"),
            (54, "40,70,0"),
            (89, "2,1,0"),
            (90, "3,1,0"),
            (91, "4,1,0"),
            (92, "5,1,0"),
            (93, "6,1,0"),
            (99, "22,3,0"),
            (139, "23,4,0"),
            (199, "24,5,0"),
        ],
    );
    let p = get_player(blob.as_bytes(), full_row()).expect("full-length sequence assembles");
    assert_eq!(p.name, "player one");
    assert_eq!(p.life, 320);
    assert_eq!(p.max_life, 400);
    assert_eq!(p.mana, 100);
    assert_eq!(p.max_mana, 200);
    assert_eq!(p.inventory[0][0].unwrap().item_id, 9);
    assert_eq!(p.inventory[0][0].unwrap().count, 99);
    assert!(!p.inventory[0][0].unwrap().is_favorite);
    // The coin window starts at index 49, the final main-bag cell.
    assert_eq!(p.inventory[4][9].unwrap().item_id, 71);
    assert_eq!(p.coins[0].unwrap().item_id, 71);
    assert_eq!(p.coins[0].unwrap().count, 42);
    assert_eq!(p.ammo[0].unwrap().item_id, 40);
    assert_eq!(p.ammo[1], None);
    assert_eq!(p.pet.item, Some(SingleItemSlot { item_id: 2, prefix: 0 }));
    assert!(p.pet.is_shown);
    assert_eq!(p.light_pet.item, Some(SingleItemSlot { item_id: 3, prefix: 0 }));
    assert_eq!(p.minecart.item, Some(SingleItemSlot { item_id: 4, prefix: 0 }));
    assert_eq!(p.mount.item, Some(SingleItemSlot { item_id: 5, prefix: 0 }));
    assert_eq!(p.hook.item, Some(SingleItemSlot { item_id: 6, prefix: 0 }));
    assert_eq!(p.hook.dye, None);
    assert_eq!(p.piggy_bank[0][0].unwrap().item_id, 22);
    assert_eq!(p.safe[0][0].unwrap().item_id, 23);
    assert_eq!(p.defenders_forge[0][0].unwrap().item_id, 24);
    assert_eq!(p.finished_angler_quests_count, 7);
    assert_eq!(p.is_using_biome_torches, Some(true));
    assert!(p.is_artisan_bread_eaten);
    assert!(!p.is_aegis_crystal_used);  // column holds 0
    assert!(!p.is_aegis_fruit_used);  // column absent
    assert!(p.is_arcane_crystal_used);
    assert!(!p.is_galaxy_pearl_used);  // a flag is set only by the value 1
    assert!(!p.is_gummy_worm_used);
    assert!(p.is_ambrosia_used);
    assert_eq!(p.is_super_cart_enabled, Some(true));
}

#[test]
fn optional_columns_default_quietly() {
    let mut row = full_row();
    row.quests_completed = None;
    row.unlocked_biome_torches = None;
    row.enabled_super_cart = None;
    let blob = blob_with(340, &[]);
    let p = get_player(blob.as_bytes(), row).expect("optional columns never abort assembly");
    assert_eq!(p.finished_angler_quests_count, 0);
    assert_eq!(p.is_using_biome_torches, Some(false));
    assert_eq!(p.is_super_cart_enabled, Some(false));
}
