use supply_chain_management::{
    AccessLevel, Custodian, HasProprietaryData, Location, Owner, ProprietaryData,
    ProprietaryDataResult,
};

#[test]
fn new_data_is_active_public_and_unplaced() {
    let data = ProprietaryData::new(7);
    assert_eq!(data.get_start_time(), 7);
    assert_eq!(data.get_end_time(), None);
    assert_eq!(data.get_visibility(), AccessLevel::AllUsers);
    assert!(data.is_active());
    assert!(!data.has_index(0));
    assert_eq!(data.index, None);
}

#[test]
fn set_index_then_get_index() {
    let mut data = ProprietaryData::new(1);
    data.set_index(4);
    assert_eq!(data.get_index(), 4);
    assert!(data.has_index(4));
    assert!(!data.has_index(3));
    assert_eq!(data.get_start_time(), 1);
}

#[test]
fn expire_sets_end_time_and_nothing_else() {
    let mut data = ProprietaryData::new(1);
    data.set_index(2);
    data.expire(9);
    assert_eq!(data.get_end_time(), Some(9));
    assert!(!data.is_active());
    assert_eq!(data.get_index(), 2);
    assert_eq!(data.get_start_time(), 1);
    assert_eq!(data.get_visibility(), AccessLevel::AllUsers);
}

#[test]
fn can_view_follows_the_three_levels() {
    let mut data = ProprietaryData::new(0);
    data.set_visibility(AccessLevel::Owner);
    assert!(data.can_view(AccessLevel::Owner));
    assert!(!data.can_view(AccessLevel::Custodian));
    assert!(!data.can_view(AccessLevel::AllUsers));
    data.set_visibility(AccessLevel::Custodian);
    assert!(data.can_view(AccessLevel::Owner));
    assert!(data.can_view(AccessLevel::Custodian));
    assert!(!data.can_view(AccessLevel::AllUsers));
    data.set_visibility(AccessLevel::AllUsers);
    assert!(data.can_view(AccessLevel::Owner));
    assert!(data.can_view(AccessLevel::Custodian));
    assert!(data.can_view(AccessLevel::AllUsers));
}

#[test]
fn owner_record_is_shown_to_those_who_may_see_it() {
    let mut owner = Owner::new(11, 5);
    owner.set_index(0);
    let row = owner.get_data(AccessLevel::AllUsers);
    assert_eq!(row, (ProprietaryDataResult::Owner(11), Some(0), Some(5), None));
    owner.expire(8);
    let row = owner.get_data(AccessLevel::Custodian);
    assert_eq!(row, (ProprietaryDataResult::Owner(11), Some(0), Some(5), Some(8)));
}

#[test]
fn owner_only_record_is_restricted_for_custodian_and_anyone() {
    let mut owner = Owner::new(11, 5);
    owner.set_index(3);
    owner.set_visibility(AccessLevel::Owner);
    let restricted = ProprietaryDataResult::Restricted(b"Data is restricted".to_vec());
    assert_eq!(
        owner.get_data(AccessLevel::Custodian),
        (ProprietaryDataResult::Restricted(b"Data is restricted".to_vec()), Some(3), None, None)
    );
    assert_eq!(owner.get_data(AccessLevel::AllUsers).0, restricted);
    assert_eq!(
        owner.get_data(AccessLevel::Owner),
        (ProprietaryDataResult::Owner(11), Some(3), Some(5), None)
    );
}

#[test]
fn custodian_record_is_shown_as_custodian() {
    let mut custodian = Custodian::new(12, 2);
    custodian.set_index(1);
    custodian.set_visibility(AccessLevel::Custodian);
    assert_eq!(
        custodian.get_data(AccessLevel::Custodian),
        (ProprietaryDataResult::Custodian(12), Some(1), Some(2), None)
    );
    assert_eq!(
        custodian.get_data(AccessLevel::AllUsers),
        (ProprietaryDataResult::Restricted(b"Data is restricted".to_vec()), Some(1), None, None)
    );
}

#[test]
fn location_record_is_shown_as_location() {
    let mut location = Location::new(b"12.5".to_vec(), b"-3.25".to_vec(), 4);
    location.set_index(0);
    assert_eq!(
        location.get_data(AccessLevel::AllUsers),
        (
            ProprietaryDataResult::Location((b"12.5".to_vec(), b"-3.25".to_vec())),
            Some(0),
            Some(4),
            None
        )
    );
}

#[test]
fn not_found_row_carries_nothing() {
    let owner = Owner::new(1, 0);
    assert_eq!(
        owner.get_not_found_data(),
        (ProprietaryDataResult::NotFound(b"Data not found".to_vec()), None, None, None)
    );
}

#[test]
fn restricted_row_keeps_the_index() {
    let mut owner = Owner::new(1, 0);
    owner.set_index(6);
    assert_eq!(
        owner.get_restricted_data(),
        (ProprietaryDataResult::Restricted(b"Data is restricted".to_vec()), Some(6), None, None)
    );
}

#[test]
fn data_result_row_carries_index_and_time_span() {
    let mut custodian = Custodian::new(2, 10);
    custodian.set_index(1);
    custodian.expire(20);
    assert_eq!(
        custodian.get_data_result(ProprietaryDataResult::Custodian(2)),
        (ProprietaryDataResult::Custodian(2), Some(1), Some(10), Some(20))
    );
}

#[test]
fn trait_methods_reach_the_bookkeeping_part() {
    let mut location = Location::new(vec![1], vec![2], 3);
    assert!(HasProprietaryData::is_active(&location));
    HasProprietaryData::set_index(&mut location, 5);
    assert!(HasProprietaryData::has_index(&location, 5));
    assert_eq!(HasProprietaryData::get_index(&location), 5);
    HasProprietaryData::set_visibility(&mut location, AccessLevel::Custodian);
    assert_eq!(location.get_data_manager().get_visibility(), AccessLevel::Custodian);
    HasProprietaryData::expire(&mut location, 9);
    assert!(!HasProprietaryData::is_active(&location));
    location.get_data_manager_mut().expire(10);
    assert_eq!(location.data.get_end_time(), Some(10));
    assert_eq!(location.longitude, vec![1]);
    assert_eq!(location.latitude, vec![2]);
}
