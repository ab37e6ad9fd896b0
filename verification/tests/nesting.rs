use std::sync::Arc;

use name_mapping::schema::{IntervalUnit, TimeUnit, UnionMode};
use name_mapping::{
    apply_name_mapping, DataType, Error, Field, MappedField, Metadata, NameMapping, Schema,
};

const KEY: &str = "PARQUET:field_id";

fn entry(id: i32, name: &str, children: Vec<MappedField>) -> MappedField {
    MappedField::new(Some(id), vec![name.to_string()], children)
}

fn id_text(field: &Field) -> Option<String> {
    field.metadata().get(KEY).cloned()
}

fn list_of(element: Field) -> DataType {
    DataType::List(Arc::new(element))
}

fn element_of(field: &Field) -> &Field {
    match field.data_type() {
        DataType::List(element) => element,
        DataType::LargeList(element) => element,
        DataType::FixedSizeList(element, _) => element,
        _ => panic!("expected a list"),
    }
}

fn map_of(key: Field, value: Field, sorted: bool) -> DataType {
    let entries = Field::new("entries", DataType::Struct(Arc::new(vec![key, value])), true);
    let mut extra = Metadata::new();
    extra.insert("note".to_string(), "dropped".to_string());
    DataType::MapOf(Arc::new(entries.with_metadata(extra)), sorted)
}

fn refused(data_type: DataType) -> Error {
    let schema = Schema::new(vec![
        Field::new("fine", DataType::Int32, true),
        Field::new("bad", data_type, true),
    ]);
    apply_name_mapping(&schema, &NameMapping::new(vec![])).unwrap_err()
}

#[test]
fn other_metadata_and_nullability_stay() {
    let mut notes = Metadata::new();
    notes.insert("unit".to_string(), "m".to_string());
    notes.insert(KEY.to_string(), "99".to_string());
    let mut table_notes = Metadata::new();
    table_notes.insert("owner".to_string(), "me".to_string());
    let schema = Schema::new_with_metadata(
        vec![Field::new("depth", DataType::Float64, false).with_metadata(notes)],
        table_notes,
    );
    let mapping = NameMapping::new(vec![entry(-12, "depth", vec![])]);

    let mapped = apply_name_mapping(&schema, &mapping).unwrap();

    assert_eq!(mapped.fields().len(), 1);
    assert_eq!(mapped.field(0).name(), "depth");
    assert!(!mapped.field(0).is_nullable());
    assert_eq!(id_text(mapped.field(0)), Some("-12".to_string()));
    assert_eq!(mapped.field(0).metadata().get("unit"), Some(&"m".to_string()));
    assert_eq!(mapped.field(0).metadata().entries().len(), 2);
    assert_eq!(mapped.metadata().get("owner"), Some(&"me".to_string()));
}

#[test]
fn an_id_that_is_not_mapped_stays() {
    let mut notes = Metadata::new();
    notes.insert(KEY.to_string(), "5".to_string());
    let schema = Schema::new(vec![Field::new("a", DataType::Utf8, true).with_metadata(notes)]);

    let mapped = apply_name_mapping(&schema, &NameMapping::new(vec![])).unwrap();

    assert_eq!(id_text(mapped.field(0)), Some("5".to_string()));
}

#[test]
fn an_entry_without_id_still_maps_its_children() {
    let schema = Schema::new(vec![Field::new(
        "place",
        DataType::Struct(Arc::new(vec![Field::new("lat", DataType::Float32, true)])),
        true,
    )]);
    let mapping = NameMapping::new(vec![MappedField::new(
        None,
        vec!["place".to_string()],
        vec![entry(4, "lat", vec![])],
    )]);

    let mapped = apply_name_mapping(&schema, &mapping).unwrap();

    assert_eq!(id_text(mapped.field(0)), None);
    if let DataType::Struct(fields) = mapped.field(0).data_type() {
        assert_eq!(id_text(&fields[0]), Some("4".to_string()));
    } else {
        panic!("expected a struct");
    }
}

#[test]
fn the_first_entry_with_the_name_wins() {
    let schema = Schema::new(vec![Field::new("b", DataType::Int8, true)]);
    let mapping = NameMapping::new(vec![
        entry(1, "a", vec![]),
        MappedField::new(Some(2), vec!["x".to_string(), "b".to_string()], vec![]),
        entry(3, "b", vec![]),
    ]);

    let mapped = apply_name_mapping(&schema, &mapping).unwrap();

    assert_eq!(id_text(mapped.field(0)), Some("2".to_string()));
}

#[test]
fn children_of_an_unlisted_struct_get_no_id() {
    let schema = Schema::new(vec![Field::new(
        "outer",
        DataType::Struct(Arc::new(vec![Field::new("id", DataType::Int64, true)])),
        true,
    )]);
    let mapping = NameMapping::new(vec![entry(1, "id", vec![])]);

    let mapped = apply_name_mapping(&schema, &mapping).unwrap();

    assert_eq!(id_text(mapped.field(0)), None);
    if let DataType::Struct(fields) = mapped.field(0).data_type() {
        assert_eq!(id_text(&fields[0]), None);
    } else {
        panic!("expected a struct");
    }
}

#[test]
fn list_elements_are_looked_up_as_element_whatever_they_are_called() {
    let mapping = NameMapping::new(vec![entry(1, "items", vec![entry(2, "element", vec![])])]);
    let item = || Field::new("item", DataType::Int32, false);
    let layouts = vec![
        list_of(item()),
        DataType::LargeList(Arc::new(item())),
        DataType::FixedSizeList(Arc::new(item()), 3),
    ];
    for layout in layouts {
        let schema = Schema::new(vec![Field::new("items", layout, true)]);
        let mapped = apply_name_mapping(&schema, &mapping).unwrap();
        assert_eq!(id_text(mapped.field(0)), Some("1".to_string()));
        let element = element_of(mapped.field(0));
        assert_eq!(element.name(), "item");
        assert!(!element.is_nullable());
        assert_eq!(id_text(element), Some("2".to_string()));
    }
}

#[test]
fn list_layouts_are_kept() {
    let mapping = NameMapping::new(vec![]);
    let item = || Arc::new(Field::new("item", DataType::Int32, true));
    let schema = Schema::new(vec![
        Field::new("a", DataType::List(item()), true),
        Field::new("b", DataType::LargeList(item()), true),
        Field::new("c", DataType::FixedSizeList(item(), 7), true),
    ]);

    let mapped = apply_name_mapping(&schema, &mapping).unwrap();

    assert!(matches!(mapped.field(0).data_type(), DataType::List(_)));
    assert!(matches!(mapped.field(1).data_type(), DataType::LargeList(_)));
    assert!(matches!(mapped.field(2).data_type(), DataType::FixedSizeList(_, 7)));
}

#[test]
fn a_sibling_called_element_has_no_say_in_list_elements() {
    let schema = Schema::new(vec![
        Field::new("element", DataType::Int32, true),
        Field::new("items", list_of(Field::new("element", DataType::Int32, true)), true),
    ]);
    let mapping = NameMapping::new(vec![
        entry(1, "element", vec![]),
        entry(2, "items", vec![entry(3, "element", vec![])]),
    ]);

    let mapped = apply_name_mapping(&schema, &mapping).unwrap();

    assert_eq!(id_text(mapped.field(0)), Some("1".to_string()));
    assert_eq!(id_text(mapped.field(1)), Some("2".to_string()));
    assert_eq!(id_text(element_of(mapped.field(1))), Some("3".to_string()));
}

#[test]
fn siblings_called_key_and_value_have_no_say_in_map_parts() {
    let schema = Schema::new(vec![Field::new(
        "tags",
        map_of(
            Field::new("key", DataType::Utf8, false),
            Field::new("value", DataType::Int32, true),
            false,
        ),
        true,
    )]);
    let below = || vec![entry(2, "key", vec![]), entry(3, "value", vec![])];
    let ids = |mapping: NameMapping| {
        let mapped = apply_name_mapping(&schema, &mapping).unwrap();
        if let DataType::MapOf(entries, _) = mapped.field(0).data_type() {
            if let DataType::Struct(parts) = entries.data_type() {
                return (id_text(&parts[0]), id_text(&parts[1]));
            }
        }
        panic!("expected a map");
    };

    assert_eq!(
        ids(NameMapping::new(vec![entry(1, "tags", below())])),
        (Some("2".to_string()), Some("3".to_string()))
    );
    assert_eq!(
        ids(NameMapping::new(vec![entry(1, "tags", below()), entry(7, "value", vec![])])),
        (Some("2".to_string()), Some("3".to_string()))
    );
    assert_eq!(
        ids(NameMapping::new(vec![entry(6, "key", vec![]), entry(1, "tags", below())])),
        (Some("2".to_string()), Some("3".to_string()))
    );
}

#[test]
fn an_unlisted_list_beside_a_column_called_element_gets_no_id() {
    let schema = Schema::new(vec![
        Field::new("element", DataType::Int32, true),
        Field::new("items", list_of(Field::new("element", DataType::Int32, true)), true),
    ]);
    let mapping = NameMapping::new(vec![entry(1, "element", vec![])]);

    let mapped = apply_name_mapping(&schema, &mapping).unwrap();

    assert_eq!(id_text(mapped.field(0)), Some("1".to_string()));
    assert_eq!(id_text(mapped.field(1)), None);
    assert_eq!(id_text(element_of(mapped.field(1))), None);
}

#[test]
fn lists_of_lists_go_down_level_by_level() {
    let inner = Field::new("inner", DataType::Utf8, true);
    let row = Field::new("row", list_of(inner), true);
    let schema = Schema::new(vec![Field::new("rows", list_of(row), true)]);
    let mapping = NameMapping::new(vec![entry(
        1,
        "rows",
        vec![entry(2, "element", vec![entry(3, "element", vec![])])],
    )]);

    let mapped = apply_name_mapping(&schema, &mapping).unwrap();

    assert_eq!(id_text(mapped.field(0)), Some("1".to_string()));
    let row = element_of(mapped.field(0));
    assert_eq!(id_text(row), Some("2".to_string()));
    assert_eq!(id_text(element_of(row)), Some("3".to_string()));
}

#[test]
fn map_entries_keep_their_name_only() {
    let schema = Schema::new(vec![Field::new(
        "tags",
        map_of(
            Field::new("k", DataType::Utf8, false),
            Field::new("v", DataType::Int32, true),
            true,
        ),
        true,
    )]);
    let mapping = NameMapping::new(vec![entry(
        1,
        "tags",
        vec![entry(2, "key", vec![]), entry(3, "value", vec![])],
    )]);

    let mapped = apply_name_mapping(&schema, &mapping).unwrap();

    if let DataType::MapOf(entries, sorted) = mapped.field(0).data_type() {
        assert!(*sorted);
        assert_eq!(entries.name(), "entries");
        assert!(!entries.is_nullable());
        assert_eq!(entries.metadata().entries().len(), 0);
        if let DataType::Struct(parts) = entries.data_type() {
            assert_eq!(parts.len(), 2);
            assert_eq!(parts[0].name(), "k");
            assert_eq!(id_text(&parts[0]), Some("2".to_string()));
            assert_eq!(parts[1].name(), "v");
            assert_eq!(id_text(&parts[1]), Some("3".to_string()));
        } else {
            panic!("expected a struct");
        }
    } else {
        panic!("expected a map");
    }
}

#[test]
fn dictionaries_are_mapped_as_their_values() {
    let schema = Schema::new(vec![Field::new(
        "word",
        DataType::Dictionary(Arc::new(DataType::Int32), Arc::new(DataType::Utf8)),
        true,
    )]);
    let mapping = NameMapping::new(vec![entry(8, "word", vec![])]);

    let mapped = apply_name_mapping(&schema, &mapping).unwrap();

    assert!(matches!(mapped.field(0).data_type(), DataType::Utf8));
    assert_eq!(id_text(mapped.field(0)), Some("8".to_string()));
}

#[test]
fn types_with_parameters_are_kept() {
    let schema = Schema::new(vec![
        Field::new("t", DataType::Timestamp(TimeUnit::Microsecond, Some("UTC".to_string())), true),
        Field::new("d", DataType::Decimal128(10, 2), true),
        Field::new("f", DataType::FixedSizeBinary(16), true),
        Field::new("i", DataType::Interval(IntervalUnit::DayTime), true),
        Field::new("h", DataType::Time64(TimeUnit::Nanosecond), true),
    ]);

    let mapped = apply_name_mapping(&schema, &NameMapping::new(vec![])).unwrap();

    match mapped.field(0).data_type() {
        DataType::Timestamp(TimeUnit::Microsecond, Some(zone)) => assert_eq!(zone, "UTC"),
        _ => panic!("expected a timestamp"),
    }
    assert!(matches!(mapped.field(1).data_type(), DataType::Decimal128(10, 2)));
    assert!(matches!(mapped.field(2).data_type(), DataType::FixedSizeBinary(16)));
    assert!(matches!(mapped.field(3).data_type(), DataType::Interval(IntervalUnit::DayTime)));
    assert!(matches!(mapped.field(4).data_type(), DataType::Time64(TimeUnit::Nanosecond)));
}

#[test]
fn mapping_again_changes_nothing() {
    let schema = Schema::new(vec![
        Field::new("element", DataType::Int32, true),
        Field::new("items", list_of(Field::new("item", DataType::Int32, true)), true),
    ]);
    let mapping = NameMapping::new(vec![
        entry(1, "element", vec![]),
        entry(2, "items", vec![entry(3, "element", vec![])]),
    ]);

    let once = apply_name_mapping(&schema, &mapping).unwrap();
    let twice = apply_name_mapping(&once, &mapping).unwrap();

    assert_eq!(format!("{:?}", once), format!("{:?}", twice));
}

#[test]
fn an_empty_schema_is_mapped_to_an_empty_schema() {
    let mapping = NameMapping::new(vec![entry(1, "a", vec![])]);
    let mapped = apply_name_mapping(&Schema::new(vec![]), &mapping).unwrap();
    assert_eq!(mapped.fields().len(), 0);
}

#[test]
fn map_entries_that_are_no_struct_are_refused() {
    let entries = Field::new("entries", DataType::Int32, false);
    assert_eq!(refused(DataType::MapOf(Arc::new(entries), false)), Error::MapEntriesNotStruct);
}

#[test]
fn map_entries_without_key_and_value_are_refused() {
    let entries = Field::new(
        "entries",
        DataType::Struct(Arc::new(vec![Field::new("key", DataType::Utf8, false)])),
        false,
    );
    assert_eq!(refused(DataType::MapOf(Arc::new(entries), false)), Error::MapEntriesNotKeyValue);
}

#[test]
fn unsupported_types_are_refused() {
    let part = || Arc::new(Field::new("part", DataType::Int32, true));
    assert_eq!(refused(DataType::Null), Error::UnsupportedType);
    assert_eq!(refused(DataType::ListView(part())), Error::UnsupportedType);
    assert_eq!(refused(DataType::LargeListView(part())), Error::UnsupportedType);
    assert_eq!(refused(DataType::RunEndEncoded(part(), part())), Error::UnsupportedType);
    assert_eq!(
        refused(DataType::Union(Arc::new(vec![]), UnionMode::Dense)),
        Error::UnsupportedType
    );
    assert_eq!(
        refused(list_of(Field::new("element", DataType::Null, true))),
        Error::UnsupportedType
    );
}

#[test]
fn the_first_refused_part_gives_the_error() {
    let entries = Field::new("entries", DataType::Int32, false);
    let bad_map = DataType::MapOf(Arc::new(entries), false);
    assert_eq!(
        refused(map_of(
            Field::new("key", bad_map, false),
            Field::new("value", DataType::Null, true),
            false
        )),
        Error::MapEntriesNotStruct
    );
    assert_eq!(
        refused(DataType::Struct(Arc::new(vec![
            Field::new("a", DataType::Int8, true),
            Field::new("b", DataType::Null, true),
        ]))),
        Error::UnsupportedType
    );
}
