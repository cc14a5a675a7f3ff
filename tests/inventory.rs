use station_iapetus::inventory::{Inventory, ItemKind};

#[test]
fn extraction_takes_exactly_what_is_asked_when_available() {
    let mut inv = Inventory::new();
    inv.add_item(ItemKind::Ammo, 10);
    inv.add_item(ItemKind::Grenade, 2);
    assert_eq!(inv.try_extract_exact_items(ItemKind::Ammo, 3), 3);
    assert_eq!(inv.item_count(ItemKind::Ammo), 7);
    assert_eq!(inv.item_count(ItemKind::Grenade), 2);
}

#[test]
fn extraction_of_too_many_takes_nothing() {
    let mut inv = Inventory::new();
    inv.add_item(ItemKind::Ammo, 4);
    assert_eq!(inv.try_extract_exact_items(ItemKind::Ammo, 5), 0);
    assert_eq!(inv.item_count(ItemKind::Ammo), 4);
    assert_eq!(inv.try_extract_exact_items(ItemKind::Grenade, 1), 0);
    assert_eq!(inv.item_count(ItemKind::Grenade), 0);
}

#[test]
fn extraction_of_the_whole_stack_empties_it() {
    let mut inv = Inventory::new();
    inv.add_item(ItemKind::Medpack, 2);
    assert_eq!(inv.try_extract_exact_items(ItemKind::Medpack, 2), 2);
    assert_eq!(inv.item_count(ItemKind::Medpack), 0);
    assert_eq!(inv.try_extract_exact_items(ItemKind::Medpack, 0), 0);
}

#[test]
fn duplicate_holds_the_same_items() {
    let mut inv = Inventory::new();
    inv.add_item(ItemKind::MasterKey, 1);
    let copy = inv.duplicate();
    assert_eq!(copy.item_count(ItemKind::MasterKey), 1);
    assert_eq!(copy.item_count(ItemKind::Ammo), 0);
}
