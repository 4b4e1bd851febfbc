use supply_chain_management::{
    AccessLevel, Custodian, Location, Owner, ProprietaryDataInput, ProprietaryDataResult,
    RawMaterialUnit,
};

fn seeded_unit() -> RawMaterialUnit {
    let mut unit = RawMaterialUnit::new(1, 0);
    unit.update_proprietary_data(ProprietaryDataInput::Owner(Some(Owner::new(10, 0))), 0);
    unit.update_proprietary_data(ProprietaryDataInput::Custodian(Some(Custodian::new(10, 0))), 0);
    unit.update_proprietary_data(
        ProprietaryDataInput::Location(Some(Location::new(b"x0".to_vec(), b"y0".to_vec(), 0))),
        0,
    );
    unit
}

#[test]
fn new_unit_has_no_history() {
    let unit = RawMaterialUnit::new(7, 3);
    assert_eq!(unit.get_unit_id(), 7);
    assert_eq!(unit.get_material_id(), 3);
    assert!(unit.owners.is_empty());
    assert!(unit.custodians.is_empty());
    assert!(unit.locations.is_empty());
    assert_eq!(
        unit.get_current_proprietary_data(ProprietaryDataInput::Owner(None)),
        ProprietaryDataResult::NotFound(b"No active owner found".to_vec())
    );
    assert_eq!(
        unit.get_current_proprietary_data(ProprietaryDataInput::Custodian(None)),
        ProprietaryDataResult::NotFound(b"No active custodian found".to_vec())
    );
    assert_eq!(
        unit.get_current_proprietary_data(ProprietaryDataInput::Location(None)),
        ProprietaryDataResult::NotFound(b"No active location found".to_vec())
    );
    assert_eq!(
        unit.get_current_proprietary_data(ProprietaryDataInput::Invalid(None)),
        ProprietaryDataResult::NotFound(b"Invalid input".to_vec())
    );
    assert!(!unit.is_owner(10));
}

#[test]
fn first_record_of_a_history_gets_index_zero() {
    let unit = seeded_unit();
    assert_eq!(unit.owners.len(), 1);
    assert_eq!(unit.owners[0].data.index, Some(0));
    assert_eq!(unit.owners[0].data.end_time, None);
    assert_eq!(unit.custodians[0].data.index, Some(0));
    assert_eq!(unit.locations[0].data.index, Some(0));
    assert!(unit.is_owner(10));
    assert!(unit.is_custodian(10));
    assert!(unit.is_location((b"x0".to_vec(), b"y0".to_vec())));
    assert!(!unit.is_location((b"x0".to_vec(), b"y1".to_vec())));
}

#[test]
fn append_expires_the_active_record_and_takes_the_next_index() {
    let mut unit = seeded_unit();
    unit.update_proprietary_data(ProprietaryDataInput::Owner(Some(Owner::new(20, 5))), 5);
    unit.update_proprietary_data(ProprietaryDataInput::Owner(Some(Owner::new(30, 9))), 9);
    assert_eq!(unit.owners.len(), 3);
    assert_eq!(unit.owners[0].owner, 10);
    assert_eq!(unit.owners[0].data.end_time, Some(5));
    assert_eq!(unit.owners[1].owner, 20);
    assert_eq!(unit.owners[1].data.index, Some(1));
    assert_eq!(unit.owners[1].data.start_time, 5);
    assert_eq!(unit.owners[1].data.end_time, Some(9));
    assert_eq!(unit.owners[2].data.index, Some(2));
    assert_eq!(unit.owners[2].data.end_time, None);
    assert!(unit.is_owner(30));
    assert!(!unit.is_owner(20));
    assert_eq!(unit.custodians.len(), 1);
    assert_eq!(unit.locations.len(), 1);
}

#[test]
fn single_active_record_and_gapless_indices_after_many_appends() {
    let mut unit = seeded_unit();
    let mut now: u32 = 1;
    while now <= 20 {
        unit.update_proprietary_data(
            ProprietaryDataInput::Location(Some(Location::new(vec![now as u8], vec![0], now))),
            now,
        );
        if now % 3 == 0 {
            unit.update_proprietary_data(
                ProprietaryDataInput::Custodian(Some(Custodian::new(now as u64, now))),
                now,
            );
        }
        now += 1;
    }
    assert_eq!(unit.locations.len(), 21);
    assert_eq!(unit.custodians.len(), 7);
    assert_eq!(unit.locations.iter().filter(|r| r.data.end_time.is_none()).count(), 1);
    assert_eq!(unit.custodians.iter().filter(|r| r.data.end_time.is_none()).count(), 1);
    assert_eq!(unit.owners.iter().filter(|r| r.data.end_time.is_none()).count(), 1);
    for (i, record) in unit.locations.iter().enumerate() {
        assert_eq!(record.data.index, Some(i as u32));
    }
    for (i, record) in unit.custodians.iter().enumerate() {
        assert_eq!(record.data.index, Some(i as u32));
    }
    assert!(unit.locations[20].data.end_time.is_none());
    assert!(unit.is_custodian(18));
}

#[test]
fn update_without_a_record_changes_nothing() {
    let mut unit = seeded_unit();
    let before = unit.clone();
    unit.update_proprietary_data(ProprietaryDataInput::Owner(None), 3);
    unit.update_proprietary_data(ProprietaryDataInput::Custodian(None), 3);
    unit.update_proprietary_data(ProprietaryDataInput::Location(None), 3);
    unit.update_proprietary_data(ProprietaryDataInput::Invalid(Some(b"x".to_vec())), 3);
    assert_eq!(unit, before);
}

#[test]
fn history_lists_every_payload_oldest_first() {
    let mut unit = seeded_unit();
    unit.update_proprietary_data(ProprietaryDataInput::Owner(Some(Owner::new(20, 5))), 5);
    assert_eq!(
        unit.get_proprietary_data_history(ProprietaryDataInput::Owner(None)),
        vec![ProprietaryDataResult::Owner(10), ProprietaryDataResult::Owner(20)]
    );
    assert_eq!(
        unit.get_proprietary_data_history(ProprietaryDataInput::Custodian(None)),
        vec![ProprietaryDataResult::Custodian(10)]
    );
    assert_eq!(
        unit.get_proprietary_data_history(ProprietaryDataInput::Location(None)),
        vec![ProprietaryDataResult::Location((b"x0".to_vec(), b"y0".to_vec()))]
    );
    assert_eq!(
        unit.get_proprietary_data_history(ProprietaryDataInput::Invalid(None)),
        Vec::<ProprietaryDataResult>::new()
    );
}

#[test]
fn restricted_records_keep_their_place_in_the_history() {
    let mut unit = seeded_unit();
    unit.update_proprietary_data(ProprietaryDataInput::Owner(Some(Owner::new(20, 5))), 5);
    unit.update_proprietary_data(ProprietaryDataInput::Owner(Some(Owner::new(30, 9))), 9);
    assert!(unit.set_access_level(
        ProprietaryDataInput::Owner(None),
        AccessLevel::Owner,
        30,
        1
    ));
    let rows = unit.get_proprietary_data_history_for_actor(
        AccessLevel::AllUsers,
        ProprietaryDataInput::Owner(None),
    );
    assert_eq!(
        rows,
        vec![
            (ProprietaryDataResult::Owner(10), Some(0), Some(0), Some(5)),
            (
                ProprietaryDataResult::Restricted(b"Data is restricted".to_vec()),
                Some(1),
                None,
                None
            ),
            (ProprietaryDataResult::Owner(30), Some(2), Some(9), None),
        ]
    );
    let rows = unit.get_proprietary_data_history_for_actor(
        AccessLevel::Owner,
        ProprietaryDataInput::Owner(None),
    );
    assert_eq!(rows[1], (ProprietaryDataResult::Owner(20), Some(1), Some(5), Some(9)));
    assert!(unit
        .get_proprietary_data_history_for_actor(
            AccessLevel::Owner,
            ProprietaryDataInput::Invalid(None)
        )
        .is_empty());
}

#[test]
fn public_records_are_visible_to_every_level() {
    let unit = seeded_unit();
    for level in [AccessLevel::Owner, AccessLevel::Custodian, AccessLevel::AllUsers] {
        let rows =
            unit.get_proprietary_data_history_for_actor(level, ProprietaryDataInput::Location(None));
        assert_eq!(
            rows,
            vec![(
                ProprietaryDataResult::Location((b"x0".to_vec(), b"y0".to_vec())),
                Some(0),
                Some(0),
                None
            )]
        );
    }
}

#[test]
fn only_the_current_owner_sets_visibility() {
    let mut unit = seeded_unit();
    unit.update_proprietary_data(ProprietaryDataInput::Owner(Some(Owner::new(20, 5))), 5);
    let before = unit.clone();
    for (input, index) in [
        (ProprietaryDataInput::Owner(None), 0u32),
        (ProprietaryDataInput::Owner(None), 1),
        (ProprietaryDataInput::Custodian(None), 0),
        (ProprietaryDataInput::Location(None), 0),
        (ProprietaryDataInput::Location(None), 17),
        (ProprietaryDataInput::Invalid(None), 0),
    ] {
        assert!(!unit.set_access_level(input, AccessLevel::Owner, 10, index));
        assert_eq!(unit, before);
    }
    assert!(!unit.set_access_level(
        ProprietaryDataInput::Custodian(None),
        AccessLevel::Owner,
        99,
        0
    ));
    assert_eq!(unit, before);
}

#[test]
fn current_owner_sets_visibility_of_an_expired_record() {
    let mut unit = seeded_unit();
    unit.update_proprietary_data(ProprietaryDataInput::Owner(Some(Owner::new(20, 5))), 5);
    assert!(unit.set_access_level(
        ProprietaryDataInput::Owner(None),
        AccessLevel::Custodian,
        20,
        0
    ));
    assert_eq!(unit.owners[0].data.visibility, AccessLevel::Custodian);
    assert_eq!(unit.owners[0].data.index, Some(0));
    assert_eq!(unit.owners[0].data.start_time, 0);
    assert_eq!(unit.owners[0].data.end_time, Some(5));
    assert_eq!(unit.owners[1].data.visibility, AccessLevel::AllUsers);
    assert!(unit.set_access_level(
        ProprietaryDataInput::Location(None),
        AccessLevel::Owner,
        20,
        0
    ));
    assert_eq!(unit.locations[0].data.visibility, AccessLevel::Owner);
}

#[test]
fn visibility_of_a_missing_index_or_category_is_not_set() {
    let mut unit = seeded_unit();
    let before = unit.clone();
    assert!(!unit.set_access_level(
        ProprietaryDataInput::Owner(None),
        AccessLevel::Owner,
        10,
        1
    ));
    assert!(!unit.set_access_level(
        ProprietaryDataInput::Invalid(None),
        AccessLevel::Owner,
        10,
        0
    ));
    assert_eq!(unit, before);
}
