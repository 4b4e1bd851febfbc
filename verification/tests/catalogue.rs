use supply_chain_management::{
    Coordinates, Order, OrderStatus, RawMaterial, RawMaterialShipping, ShippingManifest,
};

fn place(longitude: &str, latitude: &str) -> Coordinates {
    (longitude.as_bytes().to_vec(), latitude.as_bytes().to_vec())
}

#[test]
fn raw_material_lists_its_units() {
    let mut material = RawMaterial::new(2, b"Copper".to_vec(), 15);
    assert_eq!(material.get_material_id(), 2);
    assert_eq!(material.get_name(), b"Copper".to_vec());
    assert_eq!(material.get_price(), 15);
    assert!(material.get_units().is_empty());
    assert_eq!(material.remove_unit(), None);
    material.add_units(vec![3, 4]);
    material.add_units(vec![5]);
    assert_eq!(material.get_units(), vec![3, 4, 5]);
    assert_eq!(material.remove_unit(), Some(5));
    assert_eq!(material.get_units(), vec![3, 4]);
}

#[test]
fn roster_names_its_agents() {
    let mut roster = RawMaterialShipping::new(place("1", "2"), vec![7]);
    assert_eq!(roster.get_pickup_location(), place("1", "2"));
    assert!(roster.has_shipping_agent(&7));
    assert!(!roster.has_shipping_agent(&8));
    roster.add_shipping_agent(8);
    assert_eq!(roster.get_shipping_agents(), vec![7, 8]);
    assert!(roster.has_shipping_agent(&8));
}

fn sample_order() -> Order {
    Order::new(40, 10, 20, 30, 2, vec![5, 4], place("9", "9"), 41, OrderStatus::Confirmed)
}

#[test]
fn new_order_is_confirmed_and_not_shipped() {
    let order = sample_order();
    assert_eq!(order.get_id(), 40);
    assert_eq!(order.get_supplier(), 10);
    assert_eq!(order.get_manufacturer(), 20);
    assert_eq!(order.get_shipping_agent(), 30);
    assert_eq!(order.get_material_id(), 2);
    assert_eq!(order.get_raw_material_units(), vec![5, 4]);
    assert_eq!(order.get_delivery_location(), place("9", "9"));
    assert_eq!(order.get_shipping_manifest(), None);
    assert_eq!(order.get_status(), OrderStatus::Confirmed);
    assert_eq!(order.status, vec![OrderStatus::Confirmed]);
    assert!(order.is_supplier(&10));
    assert!(!order.is_supplier(&20));
    assert!(order.is_manufacturer(&20));
    assert!(!order.is_manufacturer(&10));
    assert!(order.is_shipping_agent(&30));
    assert!(!order.is_shipping_agent(&20));
}

#[test]
fn order_status_history_only_grows() {
    let mut order = sample_order();
    order.add_status(OrderStatus::InProgress);
    assert_eq!(order.get_status(), OrderStatus::InProgress);
    order.add_status(OrderStatus::Completed);
    assert_eq!(order.get_status(), OrderStatus::Completed);
    assert_eq!(
        order.status,
        vec![OrderStatus::Confirmed, OrderStatus::InProgress, OrderStatus::Completed]
    );
    order.set_shipping_manifest(50);
    assert_eq!(order.get_shipping_manifest(), Some(50));
}

#[test]
fn delivery_token_is_for_the_manufacturer_only() {
    let order = sample_order();
    assert_eq!(order.get_delivery_token(20), Some(41));
    assert_eq!(order.get_delivery_token(10), None);
    assert_eq!(order.get_delivery_token(30), None);
    assert!(order.is_delivery_token(&41));
    assert!(!order.is_delivery_token(&40));
}

#[test]
fn manifest_route_grows_for_its_agent_only() {
    let mut manifest = ShippingManifest::new(
        50,
        40,
        30,
        place("1", "1"),
        place("9", "9"),
        vec![5, 4],
        OrderStatus::InProgress,
    );
    assert_eq!(manifest.get_manifest_id(), 50);
    assert_eq!(manifest.get_order_id(), 40);
    assert_eq!(manifest.get_shipping_agent(), 30);
    assert_eq!(manifest.get_pickup_location(), place("1", "1"));
    assert_eq!(manifest.get_delivery_location(), place("9", "9"));
    assert_eq!(manifest.get_raw_material_units(), vec![5, 4]);
    assert!(manifest.is_delivery_location(&place("9", "9")));
    assert!(!manifest.is_delivery_location(&place("1", "1")));
    assert!(manifest.is_shipping_agent(&30));
    assert!(!manifest.is_shipping_agent(&20));
    assert!(manifest.route_history.is_empty());
    manifest.add_route_history(place("4", "4"), &20);
    assert!(manifest.route_history.is_empty());
    manifest.add_route_history(place("4", "4"), &30);
    manifest.add_route_history(place("5", "5"), &30);
    assert_eq!(manifest.route_history, vec![place("4", "4"), place("5", "5")]);
    assert_eq!(manifest.status, OrderStatus::InProgress);
}

#[test]
fn an_order_knows_where_it_is_on_its_path() {
    let mut order = sample_order();
    assert!(order.is_on_path());
    assert!(order.awaits_shipment());
    assert!(!order.is_under_way());
    order.set_shipping_manifest(50);
    assert!(!order.awaits_shipment());
    order.add_status(OrderStatus::InProgress);
    assert!(order.is_on_path());
    assert!(!order.awaits_shipment());
    assert!(order.is_under_way());
    order.add_status(OrderStatus::Completed);
    assert!(order.is_on_path());
    assert!(!order.is_under_way());
    assert!(!order.awaits_shipment());
    order.add_status(OrderStatus::Completed);
    assert!(!order.is_on_path());
}

#[test]
fn an_order_off_its_path_is_recognised() {
    let mut order =
        Order::new(40, 10, 20, 30, 2, vec![5], place("9", "9"), 41, OrderStatus::Pending);
    assert!(!order.is_on_path());
    assert!(!order.awaits_shipment());
    assert!(!order.is_under_way());
    order.status.clear();
    assert!(!order.is_on_path());
    assert!(!order.awaits_shipment());
    assert!(!order.is_under_way());
    let mut skipped = sample_order();
    skipped.add_status(OrderStatus::Completed);
    assert!(!skipped.is_on_path());
}
