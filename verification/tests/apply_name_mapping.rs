use std::sync::Arc;

use name_mapping::{apply_name_mapping, DataType, Field, MappedField, NameMapping};
use name_mapping::Schema as ArrowSchema;
use parquet::arrow::PARQUET_FIELD_ID_META_KEY;

fn get_field_id(field: &Field) -> Option<i32> {
    field
        .metadata()
        .get(PARQUET_FIELD_ID_META_KEY)
        .and_then(|v| v.parse().ok())
}

#[test]
fn test_apply_name_mapping_simple() {
    let name_mapping = NameMapping::new(vec![
        MappedField::new(Some(1), vec!["id".to_string()], vec![]),
        MappedField::new(Some(2), vec!["name".to_string()], vec![]),
        MappedField::new(Some(3), vec!["value".to_string()], vec![]),
    ]);

    let arrow_schema = ArrowSchema::new(vec![
        Field::new("id", DataType::Int64, false),
        Field::new("name", DataType::Utf8, true),
        Field::new("value", DataType::Float64, true),
    ]);

    let result = apply_name_mapping(&arrow_schema, &name_mapping).unwrap();

    assert_eq!(get_field_id(result.field(0)), Some(1));
    assert_eq!(get_field_id(result.field(1)), Some(2));
    assert_eq!(get_field_id(result.field(2)), Some(3));
}

#[test]
fn test_apply_name_mapping_with_aliases() {
    let name_mapping = NameMapping::new(vec![MappedField::new(
        Some(1),
        vec!["id".to_string(), "record_id".to_string()],
        vec![],
    )]);

    let arrow_schema = ArrowSchema::new(vec![Field::new("record_id", DataType::Int64, false)]);

    let result = apply_name_mapping(&arrow_schema, &name_mapping).unwrap();

    assert_eq!(get_field_id(result.field(0)), Some(1));
}

#[test]
fn test_apply_name_mapping_nested_struct() {
    let name_mapping = NameMapping::new(vec![
        MappedField::new(Some(1), vec!["id".to_string()], vec![]),
        MappedField::new(Some(2), vec!["location".to_string()], vec![
            MappedField::new(
                Some(3),
                vec!["latitude".to_string(), "lat".to_string()],
                vec![],
            ),
            MappedField::new(
                Some(4),
                vec!["longitude".to_string(), "long".to_string()],
                vec![],
            ),
        ]),
    ]);

    let arrow_schema = ArrowSchema::new(vec![
        Field::new("id", DataType::Int64, false),
        Field::new(
            "location",
            DataType::Struct(
                vec![
                    Field::new("lat", DataType::Float64, true),
                    Field::new("long", DataType::Float64, true),
                ]
                .into(),
            ),
            true,
        ),
    ]);

    let result = apply_name_mapping(&arrow_schema, &name_mapping).unwrap();

    assert_eq!(get_field_id(result.field(0)), Some(1));
    assert_eq!(get_field_id(result.field(1)), Some(2));

    if let DataType::Struct(fields) = result.field(1).data_type() {
        assert_eq!(get_field_id(&fields[0]), Some(3));
        assert_eq!(get_field_id(&fields[1]), Some(4));
    } else {
        panic!("Expected struct type");
    }
}

#[test]
fn test_apply_name_mapping_list() {
    let name_mapping = NameMapping::new(vec![MappedField::new(
        Some(1),
        vec!["items".to_string()],
        vec![MappedField::new(
            Some(2),
            vec!["element".to_string()],
            vec![],
        )],
    )]);

    let arrow_schema = ArrowSchema::new(vec![Field::new(
        "items",
        DataType::List(Arc::new(Field::new("element", DataType::Int32, true))),
        true,
    )]);

    let result = apply_name_mapping(&arrow_schema, &name_mapping).unwrap();

    assert_eq!(get_field_id(result.field(0)), Some(1));

    if let DataType::List(element_field) = result.field(0).data_type() {
        assert_eq!(get_field_id(element_field.as_ref()), Some(2));
    } else {
        panic!("Expected list type");
    }
}

#[test]
fn test_apply_name_mapping_map() {
    let name_mapping = NameMapping::new(vec![MappedField::new(
        Some(1),
        vec!["properties".to_string()],
        vec![
            MappedField::new(Some(2), vec!["key".to_string()], vec![]),
            MappedField::new(Some(3), vec!["value".to_string()], vec![]),
        ],
    )]);

    let entries_field = Field::new(
        "entries",
        DataType::Struct(
            vec![
                Field::new("key", DataType::Utf8, false),
                Field::new("value", DataType::Int32, true),
            ]
            .into(),
        ),
        false,
    );

    let arrow_schema = ArrowSchema::new(vec![Field::new(
        "properties",
        DataType::MapOf(Arc::new(entries_field), false),
        true,
    )]);

    let result = apply_name_mapping(&arrow_schema, &name_mapping).unwrap();

    assert_eq!(get_field_id(result.field(0)), Some(1));

    if let DataType::MapOf(entries, _) = result.field(0).data_type() {
        if let DataType::Struct(kv_fields) = entries.data_type() {
            assert_eq!(get_field_id(&kv_fields[0]), Some(2));
            assert_eq!(get_field_id(&kv_fields[1]), Some(3));
        } else {
            panic!("Expected struct in map entries");
        }
    } else {
        panic!("Expected map type");
    }
}

#[test]
fn test_apply_name_mapping_missing_field() {
    let name_mapping = NameMapping::new(vec![
        MappedField::new(Some(1), vec!["id".to_string()], vec![]),
        // "name" is not in the mapping
    ]);

    let arrow_schema = ArrowSchema::new(vec![
        Field::new("id", DataType::Int64, false),
        Field::new("name", DataType::Utf8, true),
    ]);

    let result = apply_name_mapping(&arrow_schema, &name_mapping).unwrap();

    assert_eq!(get_field_id(result.field(0)), Some(1));
    assert_eq!(get_field_id(result.field(1)), None); // No mapping for "name"
}

#[test]
fn test_apply_name_mapping_deeply_nested() {
    // Test deeply nested struct: a -> b -> c -> d
    let name_mapping = NameMapping::new(vec![MappedField::new(
        Some(1),
        vec!["a".to_string()],
        vec![MappedField::new(Some(2), vec!["b".to_string()], vec![
            MappedField::new(Some(3), vec!["c".to_string()], vec![MappedField::new(
                Some(4),
                vec!["d".to_string()],
                vec![],
            )]),
        ])],
    )]);

    let arrow_schema = ArrowSchema::new(vec![Field::new(
        "a",
        DataType::Struct(
            vec![Field::new(
                "b",
                DataType::Struct(
                    vec![Field::new(
                        "c",
                        DataType::Struct(vec![Field::new("d", DataType::Int32, true)].into()),
                        true,
                    )]
                    .into(),
                ),
                true,
            )]
            .into(),
        ),
        true,
    )]);

    let result = apply_name_mapping(&arrow_schema, &name_mapping).unwrap();

    assert_eq!(get_field_id(result.field(0)), Some(1));

    // Navigate to nested fields
    if let DataType::Struct(b_fields) = result.field(0).data_type() {
        assert_eq!(get_field_id(&b_fields[0]), Some(2));
        if let DataType::Struct(c_fields) = b_fields[0].data_type() {
            assert_eq!(get_field_id(&c_fields[0]), Some(3));
            if let DataType::Struct(d_fields) = c_fields[0].data_type() {
                assert_eq!(get_field_id(&d_fields[0]), Some(4));
            } else {
                panic!("Expected struct at level d");
            }
        } else {
            panic!("Expected struct at level c");
        }
    } else {
        panic!("Expected struct at level b");
    }
}

#[test]
fn test_apply_name_mapping_list_of_structs() {
    let name_mapping = NameMapping::new(vec![MappedField::new(
        Some(1),
        vec!["locations".to_string()],
        vec![MappedField::new(
            Some(2),
            vec!["element".to_string()],
            vec![
                MappedField::new(Some(3), vec!["lat".to_string()], vec![]),
                MappedField::new(Some(4), vec!["long".to_string()], vec![]),
            ],
        )],
    )]);

    let element_struct = DataType::Struct(
        vec![
            Field::new("lat", DataType::Float64, true),
            Field::new("long", DataType::Float64, true),
        ]
        .into(),
    );

    let arrow_schema = ArrowSchema::new(vec![Field::new(
        "locations",
        DataType::List(Arc::new(Field::new("element", element_struct, true))),
        true,
    )]);

    let result = apply_name_mapping(&arrow_schema, &name_mapping).unwrap();

    assert_eq!(get_field_id(result.field(0)), Some(1));

    if let DataType::List(element_field) = result.field(0).data_type() {
        assert_eq!(get_field_id(element_field.as_ref()), Some(2));
        if let DataType::Struct(struct_fields) = element_field.data_type() {
            assert_eq!(get_field_id(&struct_fields[0]), Some(3));
            assert_eq!(get_field_id(&struct_fields[1]), Some(4));
        } else {
            panic!("Expected struct in list element");
        }
    } else {
        panic!("Expected list type");
    }
}

#[test]
fn test_apply_name_mapping_map_with_nested_value() {
    // Map<String, Struct{lat, long}>
    let name_mapping = NameMapping::new(vec![MappedField::new(
        Some(1),
        vec!["locations_map".to_string()],
        vec![
            MappedField::new(Some(2), vec!["key".to_string()], vec![]),
            MappedField::new(Some(3), vec!["value".to_string()], vec![
                MappedField::new(Some(4), vec!["lat".to_string()], vec![]),
                MappedField::new(Some(5), vec!["long".to_string()], vec![]),
            ]),
        ],
    )]);

    let value_struct = DataType::Struct(
        vec![
            Field::new("lat", DataType::Float64, true),
            Field::new("long", DataType::Float64, true),
        ]
        .into(),
    );

    let entries_field = Field::new(
        "entries",
        DataType::Struct(
            vec![
                Field::new("key", DataType::Utf8, false),
                Field::new("value", value_struct, true),
            ]
            .into(),
        ),
        false,
    );

    let arrow_schema = ArrowSchema::new(vec![Field::new(
        "locations_map",
        DataType::MapOf(Arc::new(entries_field), false),
        true,
    )]);

    let result = apply_name_mapping(&arrow_schema, &name_mapping).unwrap();

    assert_eq!(get_field_id(result.field(0)), Some(1));

    if let DataType::MapOf(entries, _) = result.field(0).data_type() {
        if let DataType::Struct(kv_fields) = entries.data_type() {
            assert_eq!(get_field_id(&kv_fields[0]), Some(2)); // key
            assert_eq!(get_field_id(&kv_fields[1]), Some(3)); // value

            // Check nested struct in value
            if let DataType::Struct(value_fields) = kv_fields[1].data_type() {
                assert_eq!(get_field_id(&value_fields[0]), Some(4)); // lat
                assert_eq!(get_field_id(&value_fields[1]), Some(5)); // long
            } else {
                panic!("Expected struct in map value");
            }
        } else {
            panic!("Expected struct in map entries");
        }
    } else {
        panic!("Expected map type");
    }
}
