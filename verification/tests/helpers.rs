use std::collections::BTreeMap;
use supply_chain_management::actor::remove_place;
use supply_chain_management::history::{
    append_record, disclose_current, disclose_history, find_active, find_indexed,
    project_history, set_record_visibility,
};
use supply_chain_management::inventory::remove_id;
use supply_chain_management::ledger::append_to_unit;
use supply_chain_management::listing::keys_of;
use supply_chain_management::types::{
    clone_coordinates, clone_coordinates_list, contains_coordinates, contains_id, message,
    same_bytes, same_coordinates,
};
use supply_chain_management::workflow::{eligible_shipping_agents, update_units};
use supply_chain_management::{
    AccessLevel, Coordinates, Custodian, HasProprietaryData, Location, Owner,
    ProprietaryDataInput, ProprietaryDataResult, RawMaterialUnit, ShippingAgent,
};

fn place(longitude: &str, latitude: &str) -> Coordinates {
    (longitude.as_bytes().to_vec(), latitude.as_bytes().to_vec())
}

#[test]
fn message_gives_the_bytes_of_the_text() {
    assert_eq!(message("Owner"), vec![79, 119, 110, 101, 114]);
    assert_eq!(message(""), Vec::<u8>::new());
}

#[test]
fn byte_strings_and_places_are_compared_by_content() {
    assert!(same_bytes(&vec![1, 2], &vec![1, 2]));
    assert!(!same_bytes(&vec![1, 2], &vec![1, 3]));
    assert!(!same_bytes(&vec![1, 2], &vec![1]));
    assert!(same_bytes(&vec![], &vec![]));
    assert!(same_coordinates(&place("a", "b"), &place("a", "b")));
    assert!(!same_coordinates(&place("a", "b"), &place("a", "c")));
    assert!(!same_coordinates(&place("a", "b"), &place("b", "a")));
}

#[test]
fn places_are_copied_as_they_are() {
    assert_eq!(clone_coordinates(&place("a", "b")), place("a", "b"));
    let list = vec![place("a", "b"), place("c", "d")];
    assert_eq!(clone_coordinates_list(&list), list);
    assert_eq!(clone_coordinates_list(&Vec::new()), Vec::<Coordinates>::new());
}

#[test]
fn membership_is_found_by_content() {
    let list = vec![place("a", "b"), place("c", "d")];
    assert!(contains_coordinates(&list, &place("c", "d")));
    assert!(!contains_coordinates(&list, &place("c", "b")));
    assert!(!contains_coordinates(&Vec::new(), &place("a", "b")));
    assert!(contains_id(&vec![4, 5, 6], 6));
    assert!(!contains_id(&vec![4, 5, 6], 7));
    assert!(!contains_id(&Vec::new(), 0));
}

#[test]
fn removal_takes_every_occurrence_and_keeps_the_order() {
    assert_eq!(remove_id(&vec![1, 2, 1, 3], 1), vec![2, 3]);
    assert_eq!(remove_id(&vec![1, 2, 3], 9), vec![1, 2, 3]);
    assert_eq!(remove_id(&Vec::new(), 9), Vec::<u64>::new());
    let list = vec![place("a", "b"), place("c", "d"), place("a", "b")];
    assert_eq!(remove_place(&list, &place("a", "b")), vec![place("c", "d")]);
    assert_eq!(remove_place(&list, &place("x", "y")), list);
}

#[test]
fn keys_are_listed_in_ascending_order() {
    let mut store = BTreeMap::new();
    for key in [7u64, 1, u64::MAX, 4] {
        store.insert(key, ());
    }
    assert_eq!(keys_of(&store), vec![1, 4, 7, u64::MAX]);
    assert_eq!(keys_of(&BTreeMap::<u64, u8>::new()), Vec::<u64>::new());
}

#[test]
fn the_first_active_record_and_the_first_of_an_index_are_found() {
    let mut history: Vec<Owner> = Vec::new();
    assert_eq!(find_active(&history), None);
    assert_eq!(find_indexed(&history, 0), None);
    append_record(&mut history, Owner::new(1, 0), 0);
    append_record(&mut history, Owner::new(2, 5), 5);
    append_record(&mut history, Owner::new(3, 7), 7);
    assert_eq!(find_active(&history), Some(2));
    assert_eq!(find_indexed(&history, 1), Some(1));
    assert_eq!(find_indexed(&history, 3), None);
    history[0].data.end_time = None;
    assert_eq!(find_active(&history), Some(0));
    history[2].data.index = Some(0);
    assert_eq!(find_indexed(&history, 0), Some(0));
    assert_eq!(find_indexed(&history, 2), None);
}

#[test]
fn append_takes_the_index_after_the_first_active_record() {
    let mut history: Vec<Custodian> = Vec::new();
    let mut first = Custodian::new(1, 0);
    first.set_index(41);
    history.push(first);
    let mut hidden = Custodian::new(9, 3);
    hidden.set_visibility(AccessLevel::Owner);
    append_record(&mut history, hidden, 8);
    assert_eq!(history.len(), 2);
    assert_eq!(history[0].data.end_time, Some(8));
    assert_eq!(history[0].data.index, Some(41));
    assert_eq!(history[1].data.index, Some(42));
    assert_eq!(history[1].data.start_time, 3);
    assert_eq!(history[1].data.end_time, None);
    assert_eq!(history[1].data.visibility, AccessLevel::Owner);
    assert_eq!(history[1].custodian, 9);
}

#[test]
fn append_after_an_expired_history_starts_again_at_zero() {
    let mut history: Vec<Owner> = Vec::new();
    append_record(&mut history, Owner::new(1, 0), 0);
    history[0].expire(4);
    append_record(&mut history, Owner::new(2, 5), 5);
    assert_eq!(history[1].data.index, Some(0));
    assert_eq!(history[0].data.end_time, Some(4));
}

#[test]
fn visibility_is_set_on_the_first_record_of_the_index() {
    let mut history: Vec<Location> = Vec::new();
    append_record(&mut history, Location::new(vec![1], vec![1], 0), 0);
    append_record(&mut history, Location::new(vec![2], vec![2], 1), 1);
    assert!(set_record_visibility(&mut history, 1, AccessLevel::Custodian));
    assert_eq!(history[1].data.visibility, AccessLevel::Custodian);
    assert_eq!(history[0].data.visibility, AccessLevel::AllUsers);
    assert!(!set_record_visibility(&mut history, 2, AccessLevel::Owner));
    assert_eq!(history[0].data.visibility, AccessLevel::AllUsers);
    assert_eq!(history[1].data.visibility, AccessLevel::Custodian);
    assert_eq!(history[1].longitude, vec![2]);
}

#[test]
fn histories_are_projected_and_disclosed_record_by_record() {
    let mut history: Vec<Owner> = Vec::new();
    assert_eq!(disclose_current(&history), None);
    append_record(&mut history, Owner::new(1, 0), 0);
    append_record(&mut history, Owner::new(2, 5), 5);
    set_record_visibility(&mut history, 1, AccessLevel::Owner);
    assert_eq!(
        project_history(&history, AccessLevel::Custodian),
        vec![
            (ProprietaryDataResult::Owner(1), Some(0), Some(0), Some(5)),
            (
                ProprietaryDataResult::Restricted(b"Data is restricted".to_vec()),
                Some(1),
                None,
                None
            ),
        ]
    );
    assert_eq!(
        disclose_history(&history),
        vec![ProprietaryDataResult::Owner(1), ProprietaryDataResult::Owner(2)]
    );
    assert_eq!(disclose_current(&history), Some(ProprietaryDataResult::Owner(2)));
    assert!(project_history(&Vec::<Owner>::new(), AccessLevel::Owner).is_empty());
}

fn two_units() -> BTreeMap<u64, RawMaterialUnit> {
    let mut units = BTreeMap::new();
    for id in [1u64, 2] {
        let mut unit = RawMaterialUnit::new(id, 0);
        unit.update_proprietary_data(ProprietaryDataInput::Owner(Some(Owner::new(10, 0))), 0);
        unit.update_proprietary_data(
            ProprietaryDataInput::Custodian(Some(Custodian::new(10, 0))),
            0,
        );
        units.insert(id, unit);
    }
    units
}

#[test]
fn a_record_is_appended_to_the_named_unit_only() {
    let mut units = two_units();
    append_to_unit(&mut units, 2, ProprietaryDataInput::Custodian(Some(Custodian::new(30, 4))), 4);
    assert!(units[&2].is_custodian(30));
    assert_eq!(units[&2].custodians.len(), 2);
    assert!(units[&1].is_custodian(10));
    assert_eq!(units[&1].custodians.len(), 1);
}

#[test]
fn a_record_is_appended_to_every_unit_named() {
    let mut units = two_units();
    let mut third = RawMaterialUnit::new(3, 0);
    third.update_proprietary_data(ProprietaryDataInput::Owner(Some(Owner::new(10, 0))), 0);
    units.insert(3, third);
    let moved = ProprietaryDataInput::Location(Some(Location::new(vec![5], vec![6], 9)));
    update_units(&mut units, &vec![3, 1], &moved, 9);
    assert!(units[&1].is_location((vec![5], vec![6])));
    assert!(units[&3].is_location((vec![5], vec![6])));
    assert!(units[&2].locations.is_empty());
    assert_eq!(units[&1].locations[0].data.index, Some(0));
    update_units(&mut units, &Vec::new(), &moved, 9);
    assert_eq!(units[&1].locations.len(), 1);
}

#[test]
fn eligible_agents_are_registered_and_pick_up_at_the_place() {
    let mut agents = BTreeMap::new();
    let mut near = ShippingAgent::new(1, vec![], vec![], vec![]);
    near.add_pickup_locations(vec![place("a", "b")]);
    let mut far = ShippingAgent::new(2, vec![], vec![], vec![]);
    far.add_pickup_locations(vec![place("x", "y")]);
    far.add_delivery_locations(vec![place("a", "b")]);
    agents.insert(1u64, near);
    agents.insert(2u64, far);
    assert_eq!(eligible_shipping_agents(&agents, &place("a", "b"), &vec![2, 1, 3, 1]), vec![1, 1]);
    assert_eq!(eligible_shipping_agents(&agents, &place("x", "y"), &vec![2, 1, 3]), vec![2]);
    assert_eq!(eligible_shipping_agents(&agents, &place("a", "b"), &vec![]), Vec::<u64>::new());
}
