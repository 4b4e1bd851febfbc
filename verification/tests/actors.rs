use supply_chain_management::{
    Actor, Coordinates, HasActor, Manufacturer, ShippingAgent, Supplier,
};

fn place(longitude: &str, latitude: &str) -> Coordinates {
    (longitude.as_bytes().to_vec(), latitude.as_bytes().to_vec())
}

#[test]
fn actor_keeps_what_it_was_made_of() {
    let actor = Actor::new(3, b"Acme".to_vec(), b"ISO".to_vec(), b"9001".to_vec());
    assert_eq!(actor.get_account(), 3);
    assert!(actor.owns_account(3));
    assert!(!actor.owns_account(4));
    assert_eq!(actor.get_company_name(), b"Acme".to_vec());
    assert_eq!(actor.get_ceritification_authority(), b"ISO".to_vec());
    assert_eq!(actor.get_ceritification_number(), b"9001".to_vec());
}

#[test]
fn new_supplier_holds_nothing() {
    let supplier = Supplier::new(3, b"Acme".to_vec(), b"ISO".to_vec(), b"9001".to_vec());
    assert_eq!(supplier.get_account(), 3);
    assert!(supplier.owns_account(3));
    assert!(!supplier.owns_account(5));
    assert_eq!(supplier.get_company_name(), b"Acme".to_vec());
    assert_eq!(supplier.get_ceritification_authority(), b"ISO".to_vec());
    assert_eq!(supplier.get_ceritification_number(), b"9001".to_vec());
    assert_eq!(
        supplier.get_actor(),
        Actor::new(3, b"Acme".to_vec(), b"ISO".to_vec(), b"9001".to_vec())
    );
    assert!(supplier.material_manager.get_raw_materials().is_empty());
    assert!(supplier.order_manager.get_orders().is_empty());
}

#[test]
fn new_manufacturer_holds_nothing() {
    let manufacturer = Manufacturer::new(4, b"Forge".to_vec(), b"TUV".to_vec(), b"12".to_vec());
    assert_eq!(manufacturer.get_account(), 4);
    assert_eq!(manufacturer.get_company_name(), b"Forge".to_vec());
    assert!(manufacturer.material_manager.get_raw_materials().is_empty());
    assert!(manufacturer.order_manager.get_orders().is_empty());
}

#[test]
fn shipping_agent_serves_the_places_it_was_given() {
    let mut agent = ShippingAgent::new(5, b"Ship".to_vec(), b"IMO".to_vec(), b"7".to_vec());
    assert!(agent.get_pickup_locations().is_empty());
    assert!(agent.get_delivery_locations().is_empty());
    assert!(agent.get_manifests().is_empty());
    agent.add_pickup_locations(vec![place("1", "1"), place("2", "2")]);
    agent.add_delivery_locations(vec![place("9", "9")]);
    agent.add_pickup_locations(vec![place("3", "3")]);
    assert_eq!(
        agent.get_pickup_locations(),
        vec![place("1", "1"), place("2", "2"), place("3", "3")]
    );
    assert_eq!(agent.get_delivery_locations(), vec![place("9", "9")]);
    assert!(agent.can_pickup_from(&place("2", "2")));
    assert!(!agent.can_pickup_from(&place("9", "9")));
    assert!(agent.can_deliver_to(&place("9", "9")));
    assert!(!agent.can_deliver_to(&place("1", "1")));
    assert!(agent.can_ship(&place("1", "1"), &place("9", "9")));
    assert!(!agent.can_ship(&place("9", "9"), &place("1", "1")));
    assert!(!agent.can_ship(&place("1", "1"), &place("1", "1")));
}

#[test]
fn shipping_agent_gives_up_places() {
    let mut agent = ShippingAgent::new(5, b"Ship".to_vec(), b"IMO".to_vec(), b"7".to_vec());
    agent.add_pickup_locations(vec![place("1", "1"), place("2", "2"), place("1", "1")]);
    agent.add_delivery_locations(vec![place("8", "8"), place("9", "9")]);
    agent.remove_pickup_location(place("1", "1"));
    assert_eq!(agent.get_pickup_locations(), vec![place("2", "2")]);
    agent.remove_pickup_location(place("7", "7"));
    assert_eq!(agent.get_pickup_locations(), vec![place("2", "2")]);
    agent.remove_delivery_location(place("8", "8"));
    assert_eq!(agent.get_delivery_locations(), vec![place("9", "9")]);
}

#[test]
fn shipping_agent_collects_manifests() {
    let mut agent = ShippingAgent::new(5, b"Ship".to_vec(), b"IMO".to_vec(), b"7".to_vec());
    agent.add_manifest(11);
    agent.add_manifest(12);
    assert_eq!(agent.get_manifests(), vec![11, 12]);
    assert_eq!(agent.get_account(), 5);
}
