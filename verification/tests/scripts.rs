use reliquary::dbc::FieldType;
use reliquary::schemas::{get_schema, init_schema_registry};
use reliquary::scripts::{item_sub_class_key, localized_key, resolve_column, row_table_entries};

#[test]
fn localized_key_default_locale() {
    assert_eq!(localized_key("name_enUS", None), Some("name"));
    assert_eq!(localized_key("name_frFR", None), None);
    assert_eq!(localized_key("mapId", None), Some("mapId"));
    assert_eq!(localized_key("nameMask", None), Some("nameMask"));
}

#[test]
fn localized_key_requested_locale() {
    assert_eq!(localized_key("name_deDE", Some("deDE")), Some("name"));
    assert_eq!(localized_key("name_enUS", Some("deDE")), None);
    assert_eq!(localized_key("name_ptPT", Some("all")), Some("name_ptPT"));
    assert_eq!(localized_key("flags", Some("zhCN")), Some("flags"));
    assert_eq!(localized_key("_ruRU", Some("ruRU")), Some(""));
    assert_eq!(localized_key("name_xxXX", None), Some("name_xxXX"));
}

#[test]
fn row_table_entries_filter_locales() {
    let registry = init_schema_registry();
    let schema = get_schema(&registry, "ChrClasses").unwrap();
    let entries = row_table_entries(schema, None);
    let keys: Vec<&str> = entries.iter().map(|e| e.0).collect();
    assert_eq!(
        keys,
        vec!["id", "playerClass", "damageBonusStat", "displayPower", "petNameToken", "name", "nameMask", "filename", "spellFamily", "flags"]
    );
    assert_eq!(entries[5], ("name", 5));
    assert_eq!(entries[6], ("nameMask", 13));
    let fr = row_table_entries(schema, Some("frFR"));
    assert_eq!(fr[5], ("name", 7));
    let all = row_table_entries(schema, Some("all"));
    assert_eq!(all.len(), schema.len());
    for (i, (key, col)) in all.iter().enumerate() {
        assert_eq!(*col, i);
        assert_eq!(*key, schema[i].0);
    }
}

#[test]
fn resolve_column_exact_or_english() {
    let schema: Vec<(&'static str, FieldType)> = vec![
        ("id", FieldType::Int32),
        ("name_enUS", FieldType::String),
        ("name_frFR", FieldType::String),
        ("name", FieldType::Int32),
    ];
    assert_eq!(resolve_column(&schema, "id"), Some(0));
    assert_eq!(resolve_column(&schema, "name"), Some(1));
    assert_eq!(resolve_column(&schema, "name_frFR"), Some(2));
    assert_eq!(resolve_column(&schema, "nam"), None);
}

#[test]
fn item_sub_class_key_range() {
    assert_eq!(item_sub_class_key(2, 7), Some(2007));
    assert_eq!(item_sub_class_key(4294, 4294967), Some(8588967));
    assert_eq!(item_sub_class_key(4295, 0), None);
    assert_eq!(item_sub_class_key(0, 4294968), None);
}

#[test]
fn spell_name_resolves_to_english_string_column() {
    let registry = init_schema_registry();
    let schema = get_schema(&registry, "Spell").unwrap();
    let column = resolve_column(schema, "name").unwrap();
    assert_eq!(schema[column], ("name_enUS", FieldType::String));
    assert!(get_schema(&registry, "spell").is_none());
}

#[test]
fn item_sub_class_starts_with_class_and_subclass() {
    let registry = init_schema_registry();
    let schema = get_schema(&registry, "ItemSubClass").unwrap();
    assert_eq!(schema[0], ("classId", FieldType::Int32));
    assert_eq!(schema[1], ("subclassId", FieldType::Int32));
}

#[test]
fn one_key_per_localized_group() {
    let locales = ["enUS", "koKR", "frFR", "deDE", "zhCN", "ruRU", "esES", "ptPT"];
    let shown = |locale: Option<&str>| -> Vec<String> {
        locales
            .iter()
            .map(|loc| format!("title_{}", loc))
            .filter(|n| localized_key(n, locale).is_some())
            .collect()
    };
    for wanted in locales.iter() {
        assert_eq!(shown(Some(wanted)), vec![format!("title_{}", wanted)]);
        assert_eq!(localized_key(&format!("title_{}", wanted), Some(wanted)), Some("title"));
    }
    assert_eq!(shown(None), vec!["title_enUS".to_string()]);
    assert!(shown(Some("xxYY")).is_empty());
    assert_eq!(shown(Some("all")).len(), 8);
}
