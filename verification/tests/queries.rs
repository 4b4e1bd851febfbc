use supply_chain_management::queries::{account_rows, category_from_key, place_rows};
use supply_chain_management::{
    AccessLevel, Coordinates, Error, Event, Pallet, ProprietaryDataInput, ProprietaryDataResult,
};

const SUPPLIER: u64 = 10;
const MANUFACTURER: u64 = 20;
const AGENT: u64 = 30;
const STRANGER: u64 = 40;

fn place(longitude: &str, latitude: &str) -> Coordinates {
    (longitude.as_bytes().to_vec(), latitude.as_bytes().to_vec())
}

/// Material 0 with units 1 and 2; the manufacturer has bought unit 2 with
/// order 3 at time 1, and the agent has taken it over with manifest 5 at
/// time 2.
fn shipped_ledger() -> Pallet {
    let mut ledger = Pallet::new();
    ledger.register_supplier(SUPPLIER, b"S".to_vec(), vec![], vec![]).unwrap();
    ledger.register_manufacturer(MANUFACTURER, b"M".to_vec(), vec![], vec![]).unwrap();
    ledger
        .register_shipping_agent(
            AGENT,
            b"X".to_vec(),
            vec![],
            vec![],
            vec![place("1", "1")],
            vec![place("9", "9")],
        )
        .unwrap();
    ledger
        .register_raw_material(SUPPLIER, b"Copper".to_vec(), 15, 2, place("1", "1"), vec![AGENT])
        .unwrap();
    ledger.set_block_number(1);
    ledger.order_raw_material(MANUFACTURER, 0, SUPPLIER, 1, AGENT, place("9", "9")).unwrap();
    ledger.set_block_number(2);
    ledger.create_shipment(AGENT, 3).unwrap();
    ledger
}

#[test]
fn keys_name_the_three_histories() {
    assert_eq!(category_from_key(&b"Owner".to_vec()), ProprietaryDataInput::Owner(None));
    assert_eq!(category_from_key(&b"Custodian".to_vec()), ProprietaryDataInput::Custodian(None));
    assert_eq!(category_from_key(&b"Location".to_vec()), ProprietaryDataInput::Location(None));
    assert_eq!(category_from_key(&b"owner".to_vec()), ProprietaryDataInput::Invalid(None));
    assert_eq!(category_from_key(&b"Owners".to_vec()), ProprietaryDataInput::Invalid(None));
    assert_eq!(category_from_key(&Vec::new()), ProprietaryDataInput::Invalid(None));
}

#[test]
fn unwrap_gives_the_payload_of_its_kind() {
    assert_eq!(Pallet::unwrap_account_id(ProprietaryDataResult::Owner(3)), Some(3));
    assert_eq!(Pallet::unwrap_account_id(ProprietaryDataResult::Custodian(4)), Some(4));
    assert_eq!(Pallet::unwrap_account_id(ProprietaryDataResult::Location(place("1", "2"))), None);
    assert_eq!(Pallet::unwrap_account_id(ProprietaryDataResult::Restricted(vec![1])), None);
    assert_eq!(Pallet::unwrap_account_id(ProprietaryDataResult::NotFound(vec![1])), None);
    assert_eq!(
        Pallet::unwrap_location(ProprietaryDataResult::Location(place("1", "2"))),
        Some(place("1", "2"))
    );
    assert_eq!(Pallet::unwrap_location(ProprietaryDataResult::Owner(3)), None);
    assert_eq!(Pallet::unwrap_location(ProprietaryDataResult::Restricted(vec![])), None);
}

#[test]
fn rows_are_reported_with_the_payload_unwrapped() {
    let list = vec![
        (ProprietaryDataResult::Owner(3), Some(0), Some(1), Some(2)),
        (ProprietaryDataResult::Restricted(b"Data is restricted".to_vec()), Some(1), None, None),
        (ProprietaryDataResult::Location(place("1", "2")), Some(2), Some(2), None),
    ];
    assert_eq!(
        account_rows(&list),
        vec![
            (Some(3), Some(0), Some(1), Some(2)),
            (None, Some(1), None, None),
            (None, Some(2), Some(2), None)
        ]
    );
    assert_eq!(
        place_rows(&list),
        vec![
            (None, Some(0), Some(1), Some(2)),
            (None, Some(1), None, None),
            (Some(place("1", "2")), Some(2), Some(2), None)
        ]
    );
}

#[test]
fn unit_data_is_reported_in_full_while_everything_is_public() {
    let ledger = shipped_ledger();
    for requester in [SUPPLIER, MANUFACTURER, AGENT, STRANGER] {
        assert_eq!(
            ledger.get_raw_material_unit_data(requester, 2),
            Ok(Event::RawMaterialUnitDataRetrieved {
                material_id: 0,
                material_name: b"Copper".to_vec(),
                material_price: 15,
                unit_id: 2,
                owner_history: vec![
                    (Some(SUPPLIER), Some(0), Some(0), Some(1)),
                    (Some(MANUFACTURER), Some(1), Some(1), None)
                ],
                custodian_history: vec![
                    (Some(SUPPLIER), Some(0), Some(0), Some(2)),
                    (Some(AGENT), Some(1), Some(2), None)
                ],
                location_history: vec![(Some(place("1", "1")), Some(0), Some(0), None)],
            })
        );
    }
}

#[test]
fn unit_data_hides_what_the_requester_may_not_see() {
    let mut ledger = shipped_ledger();
    for (key, level, index) in [
        (b"Owner".to_vec(), AccessLevel::Owner, 0u32),
        (b"Custodian".to_vec(), AccessLevel::Custodian, 1),
        (b"Location".to_vec(), AccessLevel::Owner, 0),
    ] {
        assert_eq!(
            ledger.set_raw_material_unit_access_level(MANUFACTURER, 2, level, key, index),
            Ok(Event::RawMaterialUnitAccessLevelUpdate { material_unit_id: 2, status: true })
        );
    }
    let owner_view = ledger.get_raw_material_unit_data(MANUFACTURER, 2).unwrap();
    let custodian_view = ledger.get_raw_material_unit_data(AGENT, 2).unwrap();
    let public_view = ledger.get_raw_material_unit_data(STRANGER, 2).unwrap();
    let former_owner_view = ledger.get_raw_material_unit_data(SUPPLIER, 2).unwrap();
    assert_eq!(
        owner_view,
        Event::RawMaterialUnitDataRetrieved {
            material_id: 0,
            material_name: b"Copper".to_vec(),
            material_price: 15,
            unit_id: 2,
            owner_history: vec![
                (Some(SUPPLIER), Some(0), Some(0), Some(1)),
                (Some(MANUFACTURER), Some(1), Some(1), None)
            ],
            custodian_history: vec![
                (Some(SUPPLIER), Some(0), Some(0), Some(2)),
                (Some(AGENT), Some(1), Some(2), None)
            ],
            location_history: vec![(Some(place("1", "1")), Some(0), Some(0), None)],
        }
    );
    assert_eq!(
        custodian_view,
        Event::RawMaterialUnitDataRetrieved {
            material_id: 0,
            material_name: b"Copper".to_vec(),
            material_price: 15,
            unit_id: 2,
            owner_history: vec![
                (None, Some(0), None, None),
                (Some(MANUFACTURER), Some(1), Some(1), None)
            ],
            custodian_history: vec![
                (Some(SUPPLIER), Some(0), Some(0), Some(2)),
                (Some(AGENT), Some(1), Some(2), None)
            ],
            location_history: vec![(None, Some(0), None, None)],
        }
    );
    assert_eq!(
        public_view,
        Event::RawMaterialUnitDataRetrieved {
            material_id: 0,
            material_name: b"Copper".to_vec(),
            material_price: 15,
            unit_id: 2,
            owner_history: vec![
                (None, Some(0), None, None),
                (Some(MANUFACTURER), Some(1), Some(1), None)
            ],
            custodian_history: vec![
                (Some(SUPPLIER), Some(0), Some(0), Some(2)),
                (None, Some(1), None, None)
            ],
            location_history: vec![(None, Some(0), None, None)],
        }
    );
    assert_eq!(former_owner_view, public_view);
}

#[test]
fn unit_data_of_an_unknown_unit_does_not_exist() {
    let mut ledger = shipped_ledger();
    assert_eq!(ledger.get_raw_material_unit_data(SUPPLIER, 99), Err(Error::ResourceDoesNotExist));
    ledger.raw_materials.remove(&0);
    assert_eq!(ledger.get_raw_material_unit_data(SUPPLIER, 2), Err(Error::ResourceDoesNotExist));
}

#[test]
fn visibility_is_set_by_the_current_owner_only() {
    let mut ledger = shipped_ledger();
    let before = ledger.clone();
    for caller in [SUPPLIER, AGENT, STRANGER] {
        for (key, index) in [
            (b"Owner".to_vec(), 0u32),
            (b"Owner".to_vec(), 1),
            (b"Custodian".to_vec(), 0),
            (b"Location".to_vec(), 0),
            (b"Location".to_vec(), 5),
        ] {
            assert_eq!(
                ledger.set_raw_material_unit_access_level(
                    caller,
                    2,
                    AccessLevel::Owner,
                    key,
                    index
                ),
                Ok(Event::RawMaterialUnitAccessLevelUpdate {
                    material_unit_id: 2,
                    status: false
                })
            );
            assert_eq!(ledger, before);
        }
    }
    assert_eq!(
        ledger.set_raw_material_unit_access_level(
            SUPPLIER,
            1,
            AccessLevel::Custodian,
            b"Location".to_vec(),
            0
        ),
        Ok(Event::RawMaterialUnitAccessLevelUpdate { material_unit_id: 1, status: true })
    );
    let unit = ledger.raw_material_unit(&1).unwrap();
    assert_eq!(unit.locations[0].data.visibility, AccessLevel::Custodian);
    assert_eq!(unit.locations[0].data.index, Some(0));
    assert_eq!(unit.locations[0].data.start_time, 0);
    assert_eq!(unit.locations[0].data.end_time, None);
}

#[test]
fn visibility_of_a_missing_record_is_not_set() {
    let mut ledger = shipped_ledger();
    let before = ledger.clone();
    assert_eq!(
        ledger.set_raw_material_unit_access_level(
            MANUFACTURER,
            2,
            AccessLevel::Owner,
            b"Location".to_vec(),
            1
        ),
        Ok(Event::RawMaterialUnitAccessLevelUpdate { material_unit_id: 2, status: false })
    );
    assert_eq!(ledger, before);
}

#[test]
fn an_unknown_category_key_is_refused() {
    let mut ledger = shipped_ledger();
    let before = ledger.clone();
    assert_eq!(
        ledger.set_raw_material_unit_access_level(
            MANUFACTURER,
            2,
            AccessLevel::Owner,
            b"Price".to_vec(),
            0
        ),
        Err(Error::InvalidPropreitaryDataKey)
    );
    assert_eq!(
        ledger.set_raw_material_unit_access_level(
            MANUFACTURER,
            99,
            AccessLevel::Owner,
            b"Price".to_vec(),
            0
        ),
        Err(Error::InvalidPropreitaryDataKey)
    );
    assert_eq!(
        ledger.set_raw_material_unit_access_level(
            MANUFACTURER,
            99,
            AccessLevel::Owner,
            b"Owner".to_vec(),
            0
        ),
        Err(Error::ResourceDoesNotExist)
    );
    assert_eq!(ledger, before);
}
