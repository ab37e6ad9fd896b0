use std::sync::Arc;

use arrow_schema::DataType as Arrow;
use name_mapping::decimal::decimal_text;
use name_mapping::schema::TimeUnit;
use name_mapping::{
    ApplyNameMappingVisitor, DataType, Field, FieldInfo, MappedField, Metadata, NameMapping,
    RootMappingAdapter, Schema,
};
use parquet::arrow::PARQUET_FIELD_ID_META_KEY;

fn adapter() -> RootMappingAdapter {
    RootMappingAdapter::new(&NameMapping::new(vec![
        MappedField::new(Some(1), vec!["id".to_string(), "key".to_string()], vec![]),
        MappedField::new(
            Some(2),
            vec!["place".to_string()],
            vec![MappedField::new(Some(3), vec!["lat".to_string()], vec![])],
        ),
    ]))
}

#[test]
fn decimal_texts_are_those_of_the_standard_library() {
    for n in [0, 7, 9, 10, 99, 100, 2147, 65536, i32::MAX, -1, -10, -4096, i32::MIN] {
        assert_eq!(decimal_text(n), n.to_string());
        assert_eq!(decimal_text(n).parse::<i32>().unwrap(), n);
    }
    assert_eq!(decimal_text(-2147483648), "-2147483648");
    assert_ne!(decimal_text(12), decimal_text(21));
}

#[test]
fn metadata_replaces_the_value_of_a_key() {
    let mut metadata = Metadata::new();
    assert_eq!(metadata.get("a"), None);
    metadata.insert("a".to_string(), "1".to_string());
    metadata.insert("b".to_string(), "2".to_string());
    metadata.insert("a".to_string(), "3".to_string());
    assert_eq!(metadata.get("a"), Some(&"3".to_string()));
    assert_eq!(metadata.get("b"), Some(&"2".to_string()));
    assert_eq!(metadata.get("c"), None);
    assert_eq!(metadata.entries().len(), 2);
    let copy = metadata.clone();
    metadata.insert("b".to_string(), "4".to_string());
    assert_eq!(copy.get("b"), Some(&"2".to_string()));
}

#[test]
fn the_adapter_holds_the_root_level() {
    let adapter = adapter();
    assert_eq!(adapter.fields().len(), 2);
    assert_eq!(adapter.fields()[0].field_id(), Some(1));
    assert_eq!(adapter.fields()[0].names(), ["id".to_string(), "key".to_string()]);
    assert_eq!(adapter.fields()[1].fields()[0].field_id(), Some(3));
}

#[test]
fn a_new_visitor_stands_at_the_root() {
    let adapter = adapter();
    let visitor = ApplyNameMappingVisitor::new(adapter.fields());
    assert_eq!(visitor.current_mapping().len(), 2);
    assert!(visitor.current_field_info().is_none());
    assert_eq!(visitor.find_in_current("key").unwrap().field_id(), Some(1));
    assert!(visitor.find_in_current("lat").is_none());
}

#[test]
fn leaving_a_field_undoes_entering_it() {
    let adapter = adapter();
    let mut visitor = ApplyNameMappingVisitor::new(adapter.fields());
    let place = Field::new("place", DataType::Int32, true);
    visitor.before_field(&place).unwrap();
    assert_eq!(visitor.current_mapping().len(), 1);
    assert_eq!(visitor.find_in_current("lat").unwrap().field_id(), Some(3));
    assert_eq!(visitor.current_field_info().unwrap().name, "place");
    visitor.before_list_element(&place).unwrap();
    assert_eq!(visitor.current_mapping().len(), 0);
    assert_eq!(visitor.current_field_info().unwrap().lookup_name, "element");
    visitor.after_list_element(&place).unwrap();
    assert_eq!(visitor.current_field_info().unwrap().lookup_name, "place");
    visitor.after_field(&place).unwrap();
    assert_eq!(visitor.current_mapping().len(), 2);
    assert!(visitor.current_field_info().is_none());
}

#[test]
fn map_parts_are_entered_under_fixed_names() {
    let adapter = adapter();
    let mut visitor = ApplyNameMappingVisitor::new(adapter.fields());
    let part = Field::new("part", DataType::Int32, false);
    visitor.before_map_key(&part).unwrap();
    assert_eq!(visitor.current_field_info().unwrap().lookup_name, "key");
    assert_eq!(visitor.current_field_info().unwrap().name, "part");
    let key = visitor.primitive(part.data_type()).unwrap();
    assert_eq!(key.metadata().get(PARQUET_FIELD_ID_META_KEY), Some(&"1".to_string()));
    visitor.after_map_key(&part).unwrap();
    visitor.before_map_value(&part).unwrap();
    assert_eq!(visitor.current_field_info().unwrap().lookup_name, "value");
    let value = visitor.primitive(part.data_type()).unwrap();
    assert_eq!(value.metadata().get(PARQUET_FIELD_ID_META_KEY), None);
    visitor.after_map_value(&part).unwrap();
    assert!(visitor.current_field_info().is_none());
}

#[test]
fn popping_an_empty_visitor_changes_nothing() {
    let adapter = adapter();
    let mut visitor = ApplyNameMappingVisitor::new(adapter.fields());
    visitor.pop_mapping_context();
    assert_eq!(visitor.current_mapping().len(), 0);
    visitor.pop_mapping_context();
    visitor.pop_field_context();
    assert_eq!(visitor.current_mapping().len(), 0);
    assert!(visitor.find_in_current("id").is_none());
    let field = visitor.apply_field_id(Field::new("id", DataType::Int32, true), "id");
    assert_eq!(field.metadata().get(PARQUET_FIELD_ID_META_KEY), None);
}

#[test]
fn a_lone_level_is_its_own_parent() {
    let adapter = adapter();
    let visitor = ApplyNameMappingVisitor::new(adapter.fields());
    let field = visitor.apply_field_id(Field::new("any", DataType::Int32, true), "place");
    assert_eq!(field.name(), "any");
    assert_eq!(field.metadata().get(PARQUET_FIELD_ID_META_KEY), Some(&"2".to_string()));
}

#[test]
fn pushed_entries_open_their_children() {
    let adapter = adapter();
    let mut visitor = ApplyNameMappingVisitor::new(adapter.fields());
    let place = visitor.find_in_current("place");
    visitor.push_mapping_context(place);
    assert_eq!(visitor.current_mapping()[0].names(), ["lat".to_string()]);
    visitor.push_mapping_context(None);
    assert_eq!(visitor.current_mapping().len(), 0);
    visitor.push_field_context(&Field::new("x", DataType::Int32, true), "y");
    assert_eq!(visitor.current_field_info().unwrap().lookup_name, "y");
}

#[test]
fn completed_fields_are_built_from_what_was_remembered() {
    let adapter = adapter();
    let mut visitor = ApplyNameMappingVisitor::new(adapter.fields());
    let mut notes = Metadata::new();
    notes.insert("unit".to_string(), "m".to_string());
    let place = Field::new("place", DataType::Null, false).with_metadata(notes);
    visitor.before_field(&place).unwrap();

    let parts = vec![Field::new("lat", DataType::Float64, true)];
    let as_struct = visitor.struct_(&vec![], parts).unwrap();
    assert_eq!(as_struct.name(), "place");
    assert!(!as_struct.is_nullable());
    assert_eq!(as_struct.metadata().get("unit"), Some(&"m".to_string()));
    assert_eq!(as_struct.metadata().get(PARQUET_FIELD_ID_META_KEY), Some(&"2".to_string()));
    assert!(matches!(as_struct.data_type(), DataType::Struct(fields) if fields.len() == 1));

    let layout = DataType::FixedSizeList(Arc::new(Field::new("old", DataType::Int8, true)), 4);
    let as_list = visitor.list(&layout, Field::new("new", DataType::Int16, true)).unwrap();
    match as_list.data_type() {
        DataType::FixedSizeList(element, 4) => assert_eq!(element.name(), "new"),
        _ => panic!("expected a list of fixed size"),
    }

    let entries = Arc::new(Field::new("pairs", DataType::Int8, true));
    let as_map = visitor
        .map(
            &DataType::MapOf(entries, true),
            Field::new("k", DataType::Utf8, false),
            Field::new("v", DataType::Utf8, true),
        )
        .unwrap();
    match as_map.data_type() {
        DataType::MapOf(entries, true) => {
            assert_eq!(entries.name(), "pairs");
            assert!(!entries.is_nullable());
            match entries.data_type() {
                DataType::Struct(fields) => {
                    let ids: Vec<Option<&String>> = fields
                        .iter()
                        .map(|part| part.metadata().get(PARQUET_FIELD_ID_META_KEY))
                        .collect();
                    assert_eq!(ids, vec![None, None]);
                }
                _ => panic!("expected a struct"),
            }
        }
        _ => panic!("expected a map"),
    }
}

#[test]
fn a_completed_map_looks_its_parts_up_among_its_own_children() {
    let entry = |id: i32, name: &str, children: Vec<MappedField>| {
        MappedField::new(Some(id), vec![name.to_string()], children)
    };
    let adapter = RootMappingAdapter::new(&NameMapping::new(vec![
        entry(1, "value", vec![]),
        entry(2, "props", vec![entry(3, "key", vec![]), entry(4, "value", vec![])]),
    ]));
    let part = |name: &str, data_type: DataType, nullable: bool, id: &str| {
        let mut metadata = Metadata::new();
        metadata.insert(PARQUET_FIELD_ID_META_KEY.to_string(), id.to_string());
        Field::new(name, data_type, nullable).with_metadata(metadata)
    };
    let key = || part("key", DataType::Utf8, false, "3");
    let value = || part("value", DataType::Int32, true, "4");
    let entries = Field::new("entries", DataType::Struct(Arc::new(vec![key(), value()])), false);
    let map_type = DataType::MapOf(Arc::new(entries), false);

    let mut visitor = ApplyNameMappingVisitor::new(adapter.fields());
    visitor.before_field(&Field::new("props", map_type.clone(), true)).unwrap();
    let props = visitor.map(&map_type, key(), value()).unwrap();

    let id = |field: &Field| field.metadata().get(PARQUET_FIELD_ID_META_KEY).cloned();
    assert_eq!(id(&props), Some("2".to_string()));
    if let DataType::MapOf(entries, false) = props.data_type() {
        if let DataType::Struct(parts) = entries.data_type() {
            assert_eq!(id(&parts[0]), Some("3".to_string()));
            assert_eq!(id(&parts[1]), Some("4".to_string()));
        } else {
            panic!("expected a struct");
        }
    } else {
        panic!("expected a map");
    }

    let mut visitor = ApplyNameMappingVisitor::new(adapter.fields());
    visitor.before_field(&Field::new("props", map_type.clone(), true)).unwrap();
    let bare = || Field::new("part", DataType::Int32, true);
    let props = visitor.map(&map_type, bare(), bare()).unwrap();
    if let DataType::MapOf(entries, false) = props.data_type() {
        if let DataType::Struct(parts) = entries.data_type() {
            assert_eq!(id(&parts[0]), Some("3".to_string()));
            assert_eq!(id(&parts[1]), Some("4".to_string()));
        } else {
            panic!("expected a struct");
        }
    } else {
        panic!("expected a map");
    }
}

#[test]
fn a_completed_list_of_lists_keeps_the_ids_apart() {
    let entry = |id: i32, children: Vec<MappedField>| {
        MappedField::new(Some(id), vec!["element".to_string()], children)
    };
    let adapter = RootMappingAdapter::new(&NameMapping::new(vec![MappedField::new(
        Some(1),
        vec!["items".to_string()],
        vec![entry(2, vec![entry(3, vec![])])],
    )]));
    let element = || Field::new("element", DataType::Int32, true);
    let inner = DataType::List(Arc::new(element()));
    let row = || Field::new("element", inner.clone(), true);
    let items = Field::new("items", DataType::List(Arc::new(row())), true);

    let mut visitor = ApplyNameMappingVisitor::new(adapter.fields());
    visitor.before_field(&items).unwrap();
    visitor.before_list_element(&row()).unwrap();
    visitor.before_list_element(&element()).unwrap();
    let visited = visitor.primitive(&DataType::Int32).unwrap();
    visitor.after_list_element(&element()).unwrap();
    let completed = visitor.list(&inner, visited).unwrap();

    let id = |field: &Field| field.metadata().get(PARQUET_FIELD_ID_META_KEY).cloned();
    assert_eq!(id(&completed), Some("2".to_string()));
    match completed.data_type() {
        DataType::List(inside) => assert_eq!(id(inside), Some("3".to_string())),
        _ => panic!("expected a list"),
    }
}

#[test]
fn a_completed_schema_has_the_metadata_of_the_visited_one() {
    let adapter = adapter();
    let mut visitor = ApplyNameMappingVisitor::new(adapter.fields());
    let mut notes = Metadata::new();
    notes.insert("owner".to_string(), "me".to_string());
    let visited = Schema::new_with_metadata(vec![], notes);
    let schema = visitor
        .schema(&visited, vec![Field::new("a", DataType::Int8, true)])
        .unwrap();
    assert_eq!(schema.field(0).name(), "a");
    assert_eq!(schema.metadata().get("owner"), Some(&"me".to_string()));
}

#[test]
fn a_remembered_field_has_both_names() {
    let info = FieldInfo::new(&Field::new("item", DataType::Int8, true), "element");
    assert_eq!(info.name, "item");
    assert_eq!(info.lookup_name, "element");
    assert!(info.nullable);
    assert_eq!(info.metadata.entries().len(), 0);
}

#[test]
fn leaves_are_the_primitive_types_of_arrow_and_text_and_binary() {
    let pairs = vec![
        (DataType::Null, Arrow::Null),
        (DataType::Int8, Arrow::Int8),
        (DataType::UInt64, Arrow::UInt64),
        (DataType::Float16, Arrow::Float16),
        (DataType::Float32, Arrow::Float32),
        (DataType::Date32, Arrow::Date32),
        (DataType::Date64, Arrow::Date64),
        (
            DataType::Timestamp(TimeUnit::Second, None),
            Arrow::Timestamp(arrow_schema::TimeUnit::Second, None),
        ),
        (
            DataType::Duration(TimeUnit::Millisecond),
            Arrow::Duration(arrow_schema::TimeUnit::Millisecond),
        ),
        (DataType::Decimal32(5, 1), Arrow::Decimal32(5, 1)),
        (DataType::Decimal256(40, 1), Arrow::Decimal256(40, 1)),
        (DataType::Struct(Arc::new(vec![])), Arrow::Struct(arrow_schema::Fields::empty())),
    ];
    for (ours, theirs) in pairs {
        assert_eq!(ours.is_leaf(), theirs.is_primitive());
    }
    let others = vec![
        DataType::Boolean,
        DataType::Utf8,
        DataType::LargeUtf8,
        DataType::Utf8View,
        DataType::Binary,
        DataType::LargeBinary,
        DataType::BinaryView,
        DataType::FixedSizeBinary(2),
    ];
    for leaf in others {
        assert!(leaf.is_leaf());
    }
}
