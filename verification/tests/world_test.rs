use gauntlet::world::EntityTable;

#[test]
fn level_entities_numbered_from_one() {
    let table = EntityTable::new(vec!["door", "lift", "light"]);
    assert_eq!(table.len(), 3);
    assert_eq!(table.entity_at(0).info.index, 1);
    assert_eq!(table.entity_at(2).info.index, 3);
    assert_eq!(table.entity_find(2), Some(&"lift"));
    assert_eq!(table.entity_find(0), None, "index 0 belongs to the level itself");
}

#[test]
fn attached_entity_joins_after_merge() {
    let mut table = EntityTable::new(vec!["player"]);
    let index = table.entity_attach("weapon");
    assert_eq!(index, 2);
    assert_eq!(table.entity_find(2), None, "an attached entity waits for the tick's end");
    table.merge_attached();
    assert_eq!(table.entity_find(2), Some(&"weapon"));
    assert_eq!(table.entity_position(2), Some(1));
    assert_eq!(table.entity_attach("enemy"), 3);
}

#[test]
fn closed_entities_leave_on_sweep() {
    let mut table = EntityTable::new(vec![10, 20, 30]);
    table.close_at(1);
    table.sweep();
    assert_eq!(table.len(), 2);
    assert_eq!(table.entity_find(1), Some(&10));
    assert_eq!(table.entity_find(2), None);
    assert_eq!(table.entity_find(3), Some(&30));
    assert_eq!(table.entity_attach(40), 4, "indices are never given twice");
}

#[test]
fn entity_changed_in_place() {
    let mut table = EntityTable::new(vec![1, 2]);
    *table.entity_at_mutable(0) += 10;
    if let Some(entity) = table.entity_find_mutable(2) {
        *entity = 7;
    }
    assert!(table.entity_find_mutable(9).is_none());
    assert_eq!(table.entity_find(1), Some(&11));
    assert_eq!(table.entity_find(2), Some(&7));
}
