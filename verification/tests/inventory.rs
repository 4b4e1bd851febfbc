use std::collections::BTreeMap;
use supply_chain_management::{HasOrders, OwnsRawMaterials};

#[test]
fn new_inventory_is_empty() {
    let inventory = OwnsRawMaterials::new();
    assert!(inventory.get_raw_materials().is_empty());
    assert_eq!(inventory.get_units(&1), None);
    assert_eq!(inventory.get_unit_from_material(&1), None);
    assert!(inventory.has_material_in_inventory(&1, 0));
    assert!(!inventory.has_material_in_inventory(&1, 1));
}

#[test]
fn add_units_appends_in_order() {
    let mut inventory = OwnsRawMaterials::new();
    inventory.add_units_to_raw_material(5, vec![1, 2]);
    inventory.add_units_to_raw_material(5, vec![3]);
    inventory.add_units_to_raw_material(6, vec![9]);
    assert_eq!(inventory.get_units(&5), Some(&vec![1, 2, 3]));
    assert_eq!(inventory.get_units(&6), Some(&vec![9]));
    let mut expected = BTreeMap::new();
    expected.insert(5u64, vec![1u64, 2, 3]);
    expected.insert(6u64, vec![9u64]);
    assert_eq!(inventory.get_raw_materials(), expected);
}

#[test]
fn duplicates_are_not_removed_when_added() {
    let mut inventory = OwnsRawMaterials::new();
    inventory.add_units_to_raw_material(5, vec![1, 1]);
    assert_eq!(inventory.get_units(&5), Some(&vec![1, 1]));
}

#[test]
fn has_material_compares_the_length_with_the_quantity() {
    let mut inventory = OwnsRawMaterials::new();
    inventory.add_units_to_raw_material(5, vec![1, 2, 3]);
    assert!(inventory.has_material_in_inventory(&5, 0));
    assert!(inventory.has_material_in_inventory(&5, 3));
    assert!(!inventory.has_material_in_inventory(&5, 4));
    assert!(!inventory.has_material_in_inventory(&6, 1));
    assert!(inventory.has_material_in_inventory(&6, 0));
}

#[test]
fn the_unit_that_came_last_leaves_first() {
    let mut inventory = OwnsRawMaterials::new();
    inventory.add_units_to_raw_material(5, vec![1, 2, 3]);
    assert_eq!(inventory.get_unit_from_material(&5), Some(3));
    assert!(inventory.remove_unit_from_material(&5, &3));
    assert_eq!(inventory.get_unit_from_material(&5), Some(2));
    assert!(inventory.remove_unit_from_material(&5, &2));
    assert!(inventory.remove_unit_from_material(&5, &1));
    assert_eq!(inventory.get_unit_from_material(&5), None);
    assert_eq!(inventory.get_units(&5), Some(&Vec::new()));
    assert!(inventory.has_material_in_inventory(&5, 0));
}

#[test]
fn remove_takes_a_named_unit_out_and_reports_absence() {
    let mut inventory = OwnsRawMaterials::new();
    inventory.add_units_to_raw_material(5, vec![1, 2, 3]);
    assert!(inventory.remove_unit_from_material(&5, &2));
    assert_eq!(inventory.get_units(&5), Some(&vec![1, 3]));
    assert!(!inventory.remove_unit_from_material(&5, &2));
    assert!(!inventory.remove_unit_from_material(&6, &1));
    assert_eq!(inventory.get_units(&5), Some(&vec![1, 3]));
    assert_eq!(inventory.get_units(&6), None);
}

#[test]
fn orders_are_kept_in_the_order_in_which_they_came() {
    let mut orders = HasOrders::new();
    assert!(orders.get_orders().is_empty());
    orders.add_order(4);
    orders.add_order(2);
    assert_eq!(orders.get_orders(), vec![4, 2]);
    assert!(orders.has_order(&2));
    assert!(!orders.has_order(&3));
}

#[test]
fn taking_a_unit_removes_the_one_that_came_last() {
    let mut inventory = OwnsRawMaterials::new();
    assert_eq!(inventory.take_unit_from_material(&5), None);
    assert_eq!(inventory.get_units(&5), None);
    inventory.add_units_to_raw_material(5, vec![1, 2, 2]);
    assert_eq!(inventory.take_unit_from_material(&5), Some(2));
    assert_eq!(inventory.get_units(&5), Some(&vec![1, 2]));
    assert_eq!(inventory.take_unit_from_material(&5), Some(2));
    assert_eq!(inventory.take_unit_from_material(&5), Some(1));
    assert_eq!(inventory.take_unit_from_material(&5), None);
    assert_eq!(inventory.get_units(&5), Some(&Vec::new()));
}
