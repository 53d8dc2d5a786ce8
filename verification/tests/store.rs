use reliquary::dbc::{DbcError, FieldValue};
use reliquary::mpq::{ArchiveName, BaseProbe};
use reliquary::schemas::{get_schema, init_schema_registry};
use reliquary::store::{
    complete_load, find_records, get_all_records, get_record, get_record_by_index, get_record_composite,
    get_record_count, init_mpq_list, Answer, DbcStore, LoadReport, LookupError,
};

fn words(ws: &[u32]) -> Vec<u8> {
    let mut out = Vec::new();
    for w in ws {
        out.extend_from_slice(&w.to_le_bytes());
    }
    out
}

/// A `SpellIcon` file (columns: id, texture) with three icons.
fn spell_icon_dbc() -> Vec<u8> {
    let mut data = b"WDBC".to_vec();
    data.extend_from_slice(&words(&[3, 2, 8, 15]));
    data.extend_from_slice(&words(&[10, 1, 20, 6, 30, 1]));
    data.extend_from_slice(b"\x00Icon\x00Sword\x00\x00\x00\x00");
    data
}

fn ready_store() -> DbcStore {
    let mut store = DbcStore::new();
    init_mpq_list(&mut store, &[BaseProbe { upper_exists: false, lower_exists: true }], &["patch.MPQ".to_string()]);
    store
}

fn done<T>(a: Answer<T>) -> T {
    match a {
        Answer::Done(v) => v,
        Answer::Load(i) => panic!("unexpected request to load table {}", i),
    }
}

#[test]
fn registry_knows_every_table() {
    let registry = init_schema_registry();
    assert_eq!(registry.len(), 43);
    assert_eq!(registry.name_at(14), "ItemSubClass");
    assert_eq!(registry.index_of("SpellIcon"), Some(30));
    assert_eq!(registry.index_of("spellicon"), None);
    let schema = get_schema(&registry, "SpellIcon").unwrap();
    assert_eq!(schema.len(), 2);
    assert_eq!(schema[1].0, "texture");
    assert!(get_schema(&registry, "Nope").is_none());
    assert_eq!(get_schema(&registry, "ItemSubClass").unwrap().len(), 28);
}

#[test]
fn every_layout_has_distinct_column_names() {
    let registry = init_schema_registry();
    for i in 0..registry.len() {
        let schema = registry.schema_at(i);
        for j in 0..schema.len() {
            for k in 0..j {
                assert_ne!(schema[j].0, schema[k].0, "{}", registry.name_at(i));
            }
        }
    }
}

#[test]
fn mpq_list_is_built_once() {
    let mut store = DbcStore::new();
    assert!(!store.mpq_list_ready());
    assert!(store.archives().is_none());
    init_mpq_list(&mut store, &[BaseProbe { upper_exists: true, lower_exists: false }], &[]);
    init_mpq_list(&mut store, &[], &["patch.mpq".to_string()]);
    assert!(store.mpq_list_ready());
    assert_eq!(store.archives().unwrap(), &vec![ArchiveName::Base { index: 0, upper: true }]);
}

#[test]
fn lookup_loads_then_answers_from_cache() {
    let registry = init_schema_registry();
    let mut store = ready_store();
    let index = match get_record(&store, &registry, "SpellIcon", 20) {
        Answer::Load(i) => i,
        Answer::Done(_) => panic!("the table was not read yet"),
    };
    assert_eq!(index, 30);
    assert!(store.needs_load(index));
    assert_eq!(complete_load(&mut store, &registry, index, Some(spell_icon_dbc())), LoadReport::Loaded);
    assert!(!store.needs_load(index));
    let row = done(get_record(&store, &registry, "SpellIcon", 20)).unwrap().unwrap();
    assert_eq!(row, vec![FieldValue::Int32(20), FieldValue::String("Sword".into())]);
    assert_eq!(done(get_record(&store, &registry, "SpellIcon", 99)), Ok(None));
    assert_eq!(
        done(get_record_composite(&store, &registry, "SpellIcon", 10)).unwrap().unwrap()[1],
        FieldValue::String("Icon".into())
    );
}

#[test]
fn count_index_and_all_rows_agree() {
    let registry = init_schema_registry();
    let mut store = ready_store();
    complete_load(&mut store, &registry, 30, Some(spell_icon_dbc()));
    let count = done(get_record_count(&store, &registry, "SpellIcon")).unwrap();
    assert_eq!(count, 3);
    let all = done(get_all_records(&store, &registry, "SpellIcon")).unwrap();
    assert_eq!(all.len(), 3);
    for k in 1..=count {
        let row = done(get_record_by_index(&store, &registry, "SpellIcon", k)).unwrap().unwrap();
        assert_eq!(row, all[k - 1]);
    }
    let hit = done(get_record(&store, &registry, "SpellIcon", 30)).unwrap().unwrap();
    assert!(all.contains(&hit));
    assert_eq!(done(get_record_by_index(&store, &registry, "SpellIcon", 0)), Ok(None));
    assert_eq!(done(get_record_by_index(&store, &registry, "SpellIcon", 4)), Ok(None));
    let mut ids: Vec<i32> = all
        .iter()
        .map(|r| match r[0] {
            FieldValue::Int32(n) => n,
            _ => panic!("id is an Int32 column"),
        })
        .collect();
    ids.sort();
    assert_eq!(ids, vec![10, 20, 30]);
}

#[test]
fn find_records_matches_a_column() {
    let registry = init_schema_registry();
    let mut store = ready_store();
    complete_load(&mut store, &registry, 30, Some(spell_icon_dbc()));
    let found = done(find_records(&store, &registry, "SpellIcon", 1, &FieldValue::String("Icon".into()))).unwrap();
    assert_eq!(found.len(), 2);
    assert!(found.iter().all(|r| r[1] == FieldValue::String("Icon".into())));
    let none = done(find_records(&store, &registry, "SpellIcon", 5, &FieldValue::Int32(10))).unwrap();
    assert!(none.is_empty());
    let by_id = done(find_records(&store, &registry, "SpellIcon", 0, &FieldValue::Int32(30))).unwrap();
    assert_eq!(by_id, vec![vec![FieldValue::Int32(30), FieldValue::String("Icon".into())]]);
}

#[test]
fn lookup_errors() {
    let registry = init_schema_registry();
    let mut store = DbcStore::new();
    assert_eq!(done(get_record(&store, &registry, "Nope", 1)), Err(LookupError::UnknownDbc));
    assert_eq!(done(get_record(&store, &registry, "SpellIcon", 1)), Err(LookupError::MpqListNotInitialized));
    // Whole-table queries report an unknown table while the archive list is missing.
    assert_eq!(done(get_record_count(&store, &registry, "SpellIcon")), Err(LookupError::UnknownDbc));
    assert_eq!(done(get_all_records(&store, &registry, "SpellIcon")).unwrap_err(), LookupError::UnknownDbc);
    init_mpq_list(&mut store, &[], &[]);
    assert!(matches!(get_record_count(&store, &registry, "SpellIcon"), Answer::Load(30)));
    assert_eq!(complete_load(&mut store, &registry, 30, None), LoadReport::NotInArchives);
    assert_eq!(done(get_record(&store, &registry, "SpellIcon", 1)), Err(LookupError::NotFound));
    assert_eq!(done(get_record_count(&store, &registry, "SpellIcon")), Err(LookupError::NotFound));
    assert_eq!(done(get_record_by_index(&store, &registry, "SpellIcon", 1)), Err(LookupError::NotFound));
}

#[test]
fn unparsable_table_is_reported_and_missing() {
    let registry = init_schema_registry();
    let mut store = ready_store();
    let mut bad = b"WDBC".to_vec();
    bad.extend_from_slice(&words(&[1, 3, 12, 0]));
    bad.extend_from_slice(&words(&[1, 2, 3]));
    assert_eq!(
        complete_load(&mut store, &registry, 30, Some(bad)),
        LoadReport::ParseFailed(DbcError::SchemaMismatch { schema_fields: 2, dbc_fields: 3 })
    );
    assert_eq!(done(get_record(&store, &registry, "SpellIcon", 1)), Err(LookupError::NotFound));
}

/// An `ItemSubClass` file: 28 columns, the first two class and subclass ids.
fn item_sub_class_dbc(rows: &[(i32, i32)]) -> Vec<u8> {
    let mut data = b"WDBC".to_vec();
    data.extend_from_slice(&words(&[rows.len() as u32, 28, 112, 1]));
    for (class_id, sub_id) in rows {
        let mut cells = vec![0u32; 28];
        cells[0] = *class_id as u32;
        cells[1] = *sub_id as u32;
        cells[2] = 77;
        data.extend_from_slice(&words(&cells));
    }
    data.push(0);
    data
}

#[test]
fn item_sub_class_rows_are_keyed_by_class_and_subclass() {
    let registry = init_schema_registry();
    let mut store = ready_store();
    let data = item_sub_class_dbc(&[(2, 0), (2, 7), (4, 1), (-1, 3)]);
    assert_eq!(complete_load(&mut store, &registry, 14, Some(data)), LoadReport::Loaded);
    let row = done(get_record_composite(&store, &registry, "ItemSubClass", 2007)).unwrap().unwrap();
    assert_eq!(row[0], FieldValue::Int32(2));
    assert_eq!(row[1], FieldValue::Int32(7));
    assert!(done(get_record_composite(&store, &registry, "ItemSubClass", 2000)).unwrap().is_some());
    assert!(done(get_record_composite(&store, &registry, "ItemSubClass", 4001)).unwrap().is_some());
    // The row with a negative class id has no composite key and is dropped.
    assert_eq!(done(get_record_count(&store, &registry, "ItemSubClass")), Ok(3));
}
