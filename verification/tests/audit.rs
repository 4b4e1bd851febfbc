use supply_chain_management::audit::{
    all_below, has_no_duplicates, is_well_formed, names_units, names_units_of,
};
use supply_chain_management::history::append_record;
use supply_chain_management::{Coordinates, Owner, Pallet};

const SUPPLIER: u64 = 10;
const MANUFACTURER: u64 = 20;
const AGENT: u64 = 30;

fn place(longitude: &str, latitude: &str) -> Coordinates {
    (longitude.as_bytes().to_vec(), latitude.as_bytes().to_vec())
}

/// Material 0 with units 1, 2 and 3; order 4 for units 3 and 2, shipped
/// under manifest 6 and on its way.
fn busy_ledger() -> Pallet {
    let mut ledger = Pallet::new();
    ledger.register_supplier(SUPPLIER, b"S".to_vec(), vec![], vec![]).unwrap();
    ledger.register_manufacturer(MANUFACTURER, b"M".to_vec(), vec![], vec![]).unwrap();
    ledger
        .register_shipping_agent(
            AGENT,
            b"X".to_vec(),
            vec![],
            vec![],
            vec![place("1", "1")],
            vec![place("9", "9")],
        )
        .unwrap();
    ledger
        .register_raw_material(SUPPLIER, b"Copper".to_vec(), 15, 3, place("1", "1"), vec![AGENT])
        .unwrap();
    ledger.order_raw_material(MANUFACTURER, 0, SUPPLIER, 2, AGENT, place("9", "9")).unwrap();
    ledger.create_shipment(AGENT, 4).unwrap();
    ledger.update_shipping_location(AGENT, 6, place("5", "5")).unwrap();
    ledger
}

#[test]
fn numbers_are_checked_against_a_bound() {
    assert!(all_below(&vec![1, 2, 3], 4));
    assert!(!all_below(&vec![1, 4, 3], 4));
    assert!(all_below(&Vec::new(), 0));
}

#[test]
fn duplicates_are_found() {
    assert!(has_no_duplicates(&vec![3, 1, 2]));
    assert!(!has_no_duplicates(&vec![3, 1, 3]));
    assert!(!has_no_duplicates(&vec![1, 1]));
    assert!(has_no_duplicates(&Vec::new()));
}

#[test]
fn unit_lists_are_checked_against_the_units() {
    let ledger = busy_ledger();
    assert!(names_units(&ledger.raw_material_units, &vec![1, 3]));
    assert!(!names_units(&ledger.raw_material_units, &vec![1, 4]));
    assert!(names_units_of(&ledger.raw_material_units, &vec![1, 2, 3], 0));
    assert!(!names_units_of(&ledger.raw_material_units, &vec![1, 2, 3], 1));
    assert!(!names_units_of(&ledger.raw_material_units, &vec![9], 0));
}

#[test]
fn a_history_is_well_formed_as_long_as_it_is_only_appended_to() {
    let mut history: Vec<Owner> = Vec::new();
    assert!(is_well_formed(&history));
    append_record(&mut history, Owner::new(1, 0), 0);
    append_record(&mut history, Owner::new(2, 1), 1);
    assert!(is_well_formed(&history));
    history[0].data.end_time = None;
    assert!(!is_well_formed(&history));
    history[0].data.end_time = Some(1);
    history[1].data.index = Some(2);
    assert!(!is_well_formed(&history));
    history[1].data.index = Some(1);
    history[1].data.end_time = Some(3);
    assert!(!is_well_formed(&history));
}

#[test]
fn ledgers_that_the_operations_leave_are_sound() {
    assert!(Pallet::new().is_sound());
    let mut ledger = busy_ledger();
    assert!(ledger.is_sound());
    ledger.complete_shipment(AGENT, 6, place("9", "9"), 5).unwrap();
    assert!(ledger.is_sound());
    ledger
        .set_raw_material_unit_access_level(
            MANUFACTURER,
            3,
            supply_chain_management::AccessLevel::Owner,
            b"Custodian".to_vec(),
            1,
        )
        .unwrap();
    ledger
        .register_raw_material(SUPPLIER, b"Tin".to_vec(), 2, 2, place("1", "1"), vec![AGENT])
        .unwrap();
    ledger.order_raw_material(MANUFACTURER, 0, SUPPLIER, 1, AGENT, place("9", "9")).unwrap();
    assert!(ledger.is_sound());
    assert!(ledger.ids_are_fresh());
    assert!(ledger.parties_are_sound());
    assert!(ledger.materials_are_sound());
    assert!(ledger.units_are_sound());
    assert!(ledger.units_are_held());
    assert!(ledger.inventories_are_sound());
    assert!(ledger.orders_are_sound());
    assert!(ledger.manifests_are_sound());
}

#[test]
fn a_used_identifier_that_is_not_below_the_next_is_found() {
    let mut ledger = busy_ledger();
    ledger.next_id = 6;
    assert!(!ledger.ids_are_fresh());
    assert!(!ledger.is_sound());
    ledger.next_id = 7;
    assert!(ledger.is_sound());
}

#[test]
fn a_party_under_another_account_is_found() {
    let mut ledger = busy_ledger();
    let agent = ledger.shipping_agents.remove(&AGENT).unwrap();
    ledger.shipping_agents.insert(31, agent);
    assert!(!ledger.parties_are_sound());
    assert!(!ledger.is_sound());
}

#[test]
fn a_material_that_lists_a_foreign_unit_is_found() {
    let mut ledger = busy_ledger();
    ledger.raw_materials.get_mut(&0).unwrap().0.units.push(8);
    assert!(!ledger.materials_are_sound());
    let mut ledger = busy_ledger();
    ledger.raw_materials.get_mut(&0).unwrap().0.units.push(1);
    assert!(!ledger.materials_are_sound());
    assert!(!ledger.is_sound());
}

#[test]
fn a_unit_with_a_broken_history_is_found() {
    let mut ledger = busy_ledger();
    ledger.raw_material_units.get_mut(&2).unwrap().custodians[0].data.end_time = None;
    assert!(!ledger.units_are_sound());
    let mut ledger = busy_ledger();
    ledger.raw_material_units.get_mut(&1).unwrap().locations.clear();
    assert!(!ledger.units_are_sound());
    let mut ledger = busy_ledger();
    ledger.raw_material_units.get_mut(&1).unwrap().unit_id = 2;
    assert!(!ledger.units_are_sound());
    assert!(!ledger.is_sound());
}

#[test]
fn a_unit_that_nobody_holds_is_found() {
    let mut ledger = busy_ledger();
    ledger.suppliers.get_mut(&SUPPLIER).unwrap().material_manager.remove_unit_from_material(&0, &1);
    assert!(!ledger.units_are_held());
    assert!(ledger.inventories_are_sound());
    assert!(!ledger.is_sound());
}

#[test]
fn a_unit_in_the_wrong_inventory_is_found() {
    let mut ledger = busy_ledger();
    ledger
        .suppliers
        .get_mut(&SUPPLIER)
        .unwrap()
        .material_manager
        .add_units_to_raw_material(0, vec![3]);
    assert!(!ledger.inventories_are_sound());
    assert!(ledger.units_are_held());
    assert!(!ledger.is_sound());
    let mut ledger = busy_ledger();
    ledger
        .manufacturers
        .get_mut(&MANUFACTURER)
        .unwrap()
        .material_manager
        .add_units_to_raw_material(0, vec![3]);
    assert!(!ledger.inventories_are_sound());
}

#[test]
fn an_order_or_a_manifest_with_a_foreign_unit_is_found() {
    let mut ledger = busy_ledger();
    ledger.orders.get_mut(&4).unwrap().raw_material_units.push(9);
    assert!(!ledger.orders_are_sound());
    assert!(!ledger.is_sound());
    let mut ledger = busy_ledger();
    ledger.orders.get_mut(&4).unwrap().status.clear();
    assert!(!ledger.orders_are_sound());
    let mut ledger = busy_ledger();
    ledger.shipping_manifests.get_mut(&6).unwrap().raw_material_units.push(3);
    assert!(!ledger.manifests_are_sound());
    assert!(!ledger.is_sound());
    let mut ledger = busy_ledger();
    ledger.shipping_manifests.get_mut(&6).unwrap().manifest_id = 7;
    assert!(!ledger.manifests_are_sound());
}

#[test]
fn room_is_what_is_left_of_identifiers_and_indices() {
    let mut ledger = busy_ledger();
    assert!(ledger.has_room(0));
    assert!(ledger.has_room(u64::MAX - 7));
    assert!(!ledger.has_room(u64::MAX - 6));
    ledger.next_id = u64::MAX;
    assert!(ledger.has_room(0));
    assert!(!ledger.has_room(1));
}

#[test]
fn an_order_and_a_manifest_that_do_not_go_together_are_found() {
    let mut ledger = busy_ledger();
    assert!(ledger.shipments_are_sound());
    ledger.orders.get_mut(&4).unwrap().shipping_manifest = None;
    assert!(!ledger.shipments_are_sound());
    assert!(!ledger.is_sound());
    let mut ledger = busy_ledger();
    ledger.orders.get_mut(&4).unwrap().shipping_manifest = Some(7);
    assert!(!ledger.shipments_are_sound());
    let mut ledger = busy_ledger();
    ledger.shipping_manifests.get_mut(&6).unwrap().order_id = 5;
    assert!(!ledger.shipments_are_sound());
    let mut ledger = busy_ledger();
    let mut second = ledger.shipping_manifests.get(&6).unwrap().clone();
    second.manifest_id = 5;
    ledger.shipping_manifests.insert(5, second);
    assert!(ledger.manifests_are_sound());
    assert!(!ledger.shipments_are_sound());
    assert!(!ledger.is_sound());
}

#[test]
fn an_order_off_the_path_is_found() {
    let mut ledger = busy_ledger();
    ledger.orders.get_mut(&4).unwrap().status.push(supply_chain_management::OrderStatus::InProgress);
    assert!(ledger.orders_are_sound());
    assert!(!ledger.shipments_are_sound());
    assert!(!ledger.is_sound());
    let mut ledger = busy_ledger();
    ledger.orders.get_mut(&4).unwrap().status.pop();
    assert!(!ledger.shipments_are_sound());
    let mut ledger = busy_ledger();
    ledger.orders.get_mut(&4).unwrap().status[0] = supply_chain_management::OrderStatus::Cancelled;
    assert!(!ledger.shipments_are_sound());
}
