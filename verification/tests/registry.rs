use std::collections::BTreeMap;
use supply_chain_management::{Coordinates, Error, Event, Pallet};

fn place(longitude: &str, latitude: &str) -> Coordinates {
    (longitude.as_bytes().to_vec(), latitude.as_bytes().to_vec())
}

#[test]
fn new_ledger_is_empty() {
    let ledger = Pallet::new();
    assert!(ledger.manufacturers.is_empty());
    assert!(ledger.suppliers.is_empty());
    assert!(ledger.shipping_agents.is_empty());
    assert!(ledger.raw_materials.is_empty());
    assert!(ledger.raw_material_units.is_empty());
    assert!(ledger.orders.is_empty());
    assert!(ledger.shipping_manifests.is_empty());
    assert_eq!(ledger.next_id, 0);
    assert_eq!(ledger.block_number, 0);
}

#[test]
fn each_party_is_registered_once() {
    let mut ledger = Pallet::new();
    assert_eq!(
        ledger.register_manufacturer(1, b"M".to_vec(), b"a".to_vec(), b"1".to_vec()),
        Ok(Event::ActorRegistered { account: 1, actor_type: b"Manufacturer".to_vec() })
    );
    assert_eq!(
        ledger.register_supplier(1, b"S".to_vec(), b"a".to_vec(), b"2".to_vec()),
        Ok(Event::ActorRegistered { account: 1, actor_type: b"Supplier".to_vec() })
    );
    assert_eq!(
        ledger.register_shipping_agent(
            1,
            b"X".to_vec(),
            b"a".to_vec(),
            b"3".to_vec(),
            vec![place("1", "1")],
            vec![place("2", "2")]
        ),
        Ok(Event::ActorRegistered { account: 1, actor_type: b"Shipping Agent".to_vec() })
    );
    let before = ledger.clone();
    assert_eq!(
        ledger.register_manufacturer(1, b"other".to_vec(), vec![], vec![]),
        Err(Error::ActorAlreadyExists)
    );
    assert_eq!(
        ledger.register_supplier(1, b"other".to_vec(), vec![], vec![]),
        Err(Error::ActorAlreadyExists)
    );
    assert_eq!(
        ledger.register_shipping_agent(1, b"other".to_vec(), vec![], vec![], vec![], vec![]),
        Err(Error::ActorAlreadyExists)
    );
    assert_eq!(ledger, before);
    let agent = ledger.shipping_agent(&1).unwrap();
    assert_eq!(agent.get_pickup_locations(), vec![place("1", "1")]);
    assert_eq!(agent.get_delivery_locations(), vec![place("2", "2")]);
}

#[test]
fn parties_are_listed_by_account() {
    let mut ledger = Pallet::new();
    for account in [5u64, 3, 9] {
        ledger.register_manufacturer(account, vec![], vec![], vec![]).unwrap();
    }
    ledger.register_supplier(4, vec![], vec![], vec![]).unwrap();
    ledger.register_shipping_agent(8, vec![], vec![], vec![], vec![], vec![]).unwrap();
    assert_eq!(ledger.get_manufacturers(1), Ok(Event::ActorsRetreived { actors: vec![3, 5, 9] }));
    assert_eq!(ledger.get_suppliers(1), Ok(Event::ActorsRetreived { actors: vec![4] }));
    assert_eq!(ledger.get_shipping_agents(1), Ok(Event::ActorsRetreived { actors: vec![8] }));
    assert_eq!(
        Pallet::new().get_manufacturers(1),
        Ok(Event::ActorsRetreived { actors: vec![] })
    );
}

#[test]
fn details_of_a_party_are_for_the_party_itself() {
    let mut ledger = Pallet::new();
    ledger.register_supplier(4, b"S".to_vec(), b"auth".to_vec(), b"no".to_vec()).unwrap();
    ledger.register_manufacturer(5, b"M".to_vec(), b"auth".to_vec(), b"no".to_vec()).unwrap();
    ledger
        .register_shipping_agent(
            6,
            b"X".to_vec(),
            b"auth".to_vec(),
            b"no".to_vec(),
            vec![place("1", "1")],
            vec![place("2", "2")],
        )
        .unwrap();
    ledger.register_raw_material(4, b"Tin".to_vec(), 1, 2, place("1", "1"), vec![6]).unwrap();
    let mut stock = BTreeMap::new();
    stock.insert(0u64, vec![1u64, 2]);
    assert_eq!(
        ledger.get_supplier(4, 4),
        Ok(Event::HasMaterialsActorDetailsRetreived {
            account_id: 4,
            company_name: b"S".to_vec(),
            ceritification_authority: b"auth".to_vec(),
            ceritification_number: b"no".to_vec(),
            raw_materials: Some(stock),
            orders: Some(vec![]),
        })
    );
    assert_eq!(
        ledger.get_supplier(5, 4),
        Ok(Event::HasMaterialsActorDetailsRetreived {
            account_id: 4,
            company_name: b"S".to_vec(),
            ceritification_authority: b"auth".to_vec(),
            ceritification_number: b"no".to_vec(),
            raw_materials: None,
            orders: None,
        })
    );
    assert_eq!(
        ledger.get_manufacturer(5, 5),
        Ok(Event::HasMaterialsActorDetailsRetreived {
            account_id: 5,
            company_name: b"M".to_vec(),
            ceritification_authority: b"auth".to_vec(),
            ceritification_number: b"no".to_vec(),
            raw_materials: Some(BTreeMap::new()),
            orders: Some(vec![]),
        })
    );
    assert_eq!(
        ledger.get_shipping_agent(6, 6),
        Ok(Event::ShippingAgentDetailsRetrieved {
            account_id: 6,
            company_name: b"X".to_vec(),
            ceritification_authority: b"auth".to_vec(),
            ceritification_number: b"no".to_vec(),
            pickup_locations: vec![place("1", "1")],
            delivery_locations: vec![place("2", "2")],
            manifests: Some(vec![]),
        })
    );
    assert_eq!(
        ledger.get_shipping_agent(4, 6),
        Ok(Event::ShippingAgentDetailsRetrieved {
            account_id: 6,
            company_name: b"X".to_vec(),
            ceritification_authority: b"auth".to_vec(),
            ceritification_number: b"no".to_vec(),
            pickup_locations: vec![place("1", "1")],
            delivery_locations: vec![place("2", "2")],
            manifests: None,
        })
    );
}

#[test]
fn details_of_an_unknown_party_do_not_exist() {
    let ledger = Pallet::new();
    assert_eq!(ledger.get_manufacturer(1, 2), Err(Error::ResourceDoesNotExist));
    assert_eq!(ledger.get_supplier(1, 2), Err(Error::ResourceDoesNotExist));
    assert_eq!(ledger.get_shipping_agent(1, 2), Err(Error::ResourceDoesNotExist));
}

#[test]
fn materials_and_orders_are_listed() {
    let mut ledger = Pallet::new();
    ledger.register_supplier(4, vec![], vec![], vec![]).unwrap();
    ledger.register_manufacturer(5, vec![], vec![], vec![]).unwrap();
    ledger
        .register_shipping_agent(6, vec![], vec![], vec![], vec![place("1", "1")], vec![place(
            "2", "2",
        )])
        .unwrap();
    assert_eq!(
        ledger.get_raw_materials(1),
        Ok(Event::ResourcesRetreived { name: b"Raw Materials".to_vec(), resources: vec![] })
    );
    ledger.register_raw_material(4, b"Tin".to_vec(), 1, 1, place("1", "1"), vec![6]).unwrap();
    ledger.register_raw_material(4, b"Zinc".to_vec(), 1, 1, place("1", "1"), vec![6]).unwrap();
    ledger.order_raw_material(5, 0, 4, 1, 6, place("2", "2")).unwrap();
    assert_eq!(
        ledger.get_raw_materials(1),
        Ok(Event::ResourcesRetreived { name: b"Raw Materials".to_vec(), resources: vec![0, 2] })
    );
    assert_eq!(
        ledger.get_orders(1),
        Ok(Event::ResourcesRetreived { name: b"Orders".to_vec(), resources: vec![4] })
    );
    assert_eq!(ledger.get_shipping_manifests(1), Ok(()));
}
