//! What holds of each kind of type: when it is refused, and what becomes of it.

use vstd::prelude::*;

use crate::decimal;
use crate::keys;
use crate::mapping;
use crate::mapping::MappedFieldView;
use crate::resolve;
use crate::resolve::Error;
use crate::schema::{DataTypeView, FieldView, IntervalUnit, SchemaView, TimeUnit, UnionMode};

verus! {

/// No boolean, integer, floating-point, decimal, temporal, text or binary type is refused.
pub proof fn law_scalar_types_are_never_refused(
    unit: TimeUnit,
    zone: Option<Seq<char>>,
    interval: IntervalUnit,
    width: i32,
    precision: u8,
    scale: i8,
)
    ensures
        resolve::type_error(DataTypeView::Boolean) is None,
        resolve::type_error(DataTypeView::Int8) is None,
        resolve::type_error(DataTypeView::Int16) is None,
        resolve::type_error(DataTypeView::Int32) is None,
        resolve::type_error(DataTypeView::Int64) is None,
        resolve::type_error(DataTypeView::UInt8) is None,
        resolve::type_error(DataTypeView::UInt16) is None,
        resolve::type_error(DataTypeView::UInt32) is None,
        resolve::type_error(DataTypeView::UInt64) is None,
        resolve::type_error(DataTypeView::Float16) is None,
        resolve::type_error(DataTypeView::Float32) is None,
        resolve::type_error(DataTypeView::Float64) is None,
        resolve::type_error(DataTypeView::Timestamp(unit, zone)) is None,
        resolve::type_error(DataTypeView::Date32) is None,
        resolve::type_error(DataTypeView::Date64) is None,
        resolve::type_error(DataTypeView::Time32(unit)) is None,
        resolve::type_error(DataTypeView::Time64(unit)) is None,
        resolve::type_error(DataTypeView::Duration(unit)) is None,
        resolve::type_error(DataTypeView::Interval(interval)) is None,
        resolve::type_error(DataTypeView::Binary) is None,
        resolve::type_error(DataTypeView::FixedSizeBinary(width)) is None,
        resolve::type_error(DataTypeView::LargeBinary) is None,
        resolve::type_error(DataTypeView::BinaryView) is None,
        resolve::type_error(DataTypeView::Utf8) is None,
        resolve::type_error(DataTypeView::LargeUtf8) is None,
        resolve::type_error(DataTypeView::Utf8View) is None,
        resolve::type_error(DataTypeView::Decimal32(precision, scale)) is None,
        resolve::type_error(DataTypeView::Decimal64(precision, scale)) is None,
        resolve::type_error(DataTypeView::Decimal128(precision, scale)) is None,
        resolve::type_error(DataTypeView::Decimal256(precision, scale)) is None,
{
}

/// Boolean, integer, floating-point, decimal, temporal, text and binary types stay what they
/// are, with all their parameters.
pub proof fn law_scalar_types_stay(
    unit: TimeUnit,
    zone: Option<Seq<char>>,
    interval: IntervalUnit,
    width: i32,
    precision: u8,
    scale: i8,
    children: Seq<MappedFieldView>,
)
    ensures
        resolve::mapped_type(DataTypeView::Boolean, children) == DataTypeView::Boolean,
        resolve::mapped_type(DataTypeView::Int8, children) == DataTypeView::Int8,
        resolve::mapped_type(DataTypeView::Int16, children) == DataTypeView::Int16,
        resolve::mapped_type(DataTypeView::Int32, children) == DataTypeView::Int32,
        resolve::mapped_type(DataTypeView::Int64, children) == DataTypeView::Int64,
        resolve::mapped_type(DataTypeView::UInt8, children) == DataTypeView::UInt8,
        resolve::mapped_type(DataTypeView::UInt16, children) == DataTypeView::UInt16,
        resolve::mapped_type(DataTypeView::UInt32, children) == DataTypeView::UInt32,
        resolve::mapped_type(DataTypeView::UInt64, children) == DataTypeView::UInt64,
        resolve::mapped_type(DataTypeView::Float16, children) == DataTypeView::Float16,
        resolve::mapped_type(DataTypeView::Float32, children) == DataTypeView::Float32,
        resolve::mapped_type(DataTypeView::Float64, children) == DataTypeView::Float64,
        resolve::mapped_type(DataTypeView::Timestamp(unit, zone), children) == DataTypeView::Timestamp(unit, zone),
        resolve::mapped_type(DataTypeView::Date32, children) == DataTypeView::Date32,
        resolve::mapped_type(DataTypeView::Date64, children) == DataTypeView::Date64,
        resolve::mapped_type(DataTypeView::Time32(unit), children) == DataTypeView::Time32(unit),
        resolve::mapped_type(DataTypeView::Time64(unit), children) == DataTypeView::Time64(unit),
        resolve::mapped_type(DataTypeView::Duration(unit), children) == DataTypeView::Duration(unit),
        resolve::mapped_type(DataTypeView::Interval(interval), children) == DataTypeView::Interval(interval),
        resolve::mapped_type(DataTypeView::Binary, children) == DataTypeView::Binary,
        resolve::mapped_type(DataTypeView::FixedSizeBinary(width), children) == DataTypeView::FixedSizeBinary(width),
        resolve::mapped_type(DataTypeView::LargeBinary, children) == DataTypeView::LargeBinary,
        resolve::mapped_type(DataTypeView::BinaryView, children) == DataTypeView::BinaryView,
        resolve::mapped_type(DataTypeView::Utf8, children) == DataTypeView::Utf8,
        resolve::mapped_type(DataTypeView::LargeUtf8, children) == DataTypeView::LargeUtf8,
        resolve::mapped_type(DataTypeView::Utf8View, children) == DataTypeView::Utf8View,
        resolve::mapped_type(DataTypeView::Decimal32(precision, scale), children) == DataTypeView::Decimal32(precision, scale),
        resolve::mapped_type(DataTypeView::Decimal64(precision, scale), children) == DataTypeView::Decimal64(precision, scale),
        resolve::mapped_type(DataTypeView::Decimal128(precision, scale), children) == DataTypeView::Decimal128(precision, scale),
        resolve::mapped_type(DataTypeView::Decimal256(precision, scale), children) == DataTypeView::Decimal256(precision, scale),
{
}

/// Every boolean, integer, floating-point, decimal, temporal, text and binary type is a leaf,
/// and no other type is.
pub proof fn law_leaves_are_the_scalar_types(
    unit: TimeUnit,
    zone: Option<Seq<char>>,
    interval: IntervalUnit,
    width: i32,
    precision: u8,
    scale: i8,
    field: FieldView,
    other: FieldView,
    fields: Seq<FieldView>,
    members: Seq<(i8, FieldView)>,
    mode: UnionMode,
    sorted: bool,
)
    ensures
        DataTypeView::Boolean.is_leaf(),
        DataTypeView::Int8.is_leaf(),
        DataTypeView::Int16.is_leaf(),
        DataTypeView::Int32.is_leaf(),
        DataTypeView::Int64.is_leaf(),
        DataTypeView::UInt8.is_leaf(),
        DataTypeView::UInt16.is_leaf(),
        DataTypeView::UInt32.is_leaf(),
        DataTypeView::UInt64.is_leaf(),
        DataTypeView::Float16.is_leaf(),
        DataTypeView::Float32.is_leaf(),
        DataTypeView::Float64.is_leaf(),
        DataTypeView::Timestamp(unit, zone).is_leaf(),
        DataTypeView::Date32.is_leaf(),
        DataTypeView::Date64.is_leaf(),
        DataTypeView::Time32(unit).is_leaf(),
        DataTypeView::Time64(unit).is_leaf(),
        DataTypeView::Duration(unit).is_leaf(),
        DataTypeView::Interval(interval).is_leaf(),
        DataTypeView::Binary.is_leaf(),
        DataTypeView::FixedSizeBinary(width).is_leaf(),
        DataTypeView::LargeBinary.is_leaf(),
        DataTypeView::BinaryView.is_leaf(),
        DataTypeView::Utf8.is_leaf(),
        DataTypeView::LargeUtf8.is_leaf(),
        DataTypeView::Utf8View.is_leaf(),
        DataTypeView::Decimal32(precision, scale).is_leaf(),
        DataTypeView::Decimal64(precision, scale).is_leaf(),
        DataTypeView::Decimal128(precision, scale).is_leaf(),
        DataTypeView::Decimal256(precision, scale).is_leaf(),
        !DataTypeView::Null.is_leaf(),
        !DataTypeView::List(Box::new(field)).is_leaf(),
        !DataTypeView::ListView(Box::new(field)).is_leaf(),
        !DataTypeView::FixedSizeList(Box::new(field), width).is_leaf(),
        !DataTypeView::LargeList(Box::new(field)).is_leaf(),
        !DataTypeView::LargeListView(Box::new(field)).is_leaf(),
        !DataTypeView::Struct(fields).is_leaf(),
        !DataTypeView::Union(members, mode).is_leaf(),
        !DataTypeView::Dictionary(Box::new(field.data_type), Box::new(other.data_type)).is_leaf(),
        !DataTypeView::MapOf(Box::new(field), sorted).is_leaf(),
        !DataTypeView::RunEndEncoded(Box::new(field), Box::new(other)).is_leaf(),
{
}

/// Lists of the three layouts are lists, and no other type is.
pub proof fn law_lists_have_one_of_three_layouts(
    unit: TimeUnit,
    zone: Option<Seq<char>>,
    interval: IntervalUnit,
    width: i32,
    precision: u8,
    scale: i8,
    field: FieldView,
    other: FieldView,
    fields: Seq<FieldView>,
    members: Seq<(i8, FieldView)>,
    mode: UnionMode,
    sorted: bool,
)
    ensures
        DataTypeView::List(Box::new(field)).is_list(),
        DataTypeView::FixedSizeList(Box::new(field), width).is_list(),
        DataTypeView::LargeList(Box::new(field)).is_list(),
        !DataTypeView::Boolean.is_list(),
        !DataTypeView::Int8.is_list(),
        !DataTypeView::Int16.is_list(),
        !DataTypeView::Int32.is_list(),
        !DataTypeView::Int64.is_list(),
        !DataTypeView::UInt8.is_list(),
        !DataTypeView::UInt16.is_list(),
        !DataTypeView::UInt32.is_list(),
        !DataTypeView::UInt64.is_list(),
        !DataTypeView::Float16.is_list(),
        !DataTypeView::Float32.is_list(),
        !DataTypeView::Float64.is_list(),
        !DataTypeView::Timestamp(unit, zone).is_list(),
        !DataTypeView::Date32.is_list(),
        !DataTypeView::Date64.is_list(),
        !DataTypeView::Time32(unit).is_list(),
        !DataTypeView::Time64(unit).is_list(),
        !DataTypeView::Duration(unit).is_list(),
        !DataTypeView::Interval(interval).is_list(),
        !DataTypeView::Binary.is_list(),
        !DataTypeView::FixedSizeBinary(width).is_list(),
        !DataTypeView::LargeBinary.is_list(),
        !DataTypeView::BinaryView.is_list(),
        !DataTypeView::Utf8.is_list(),
        !DataTypeView::LargeUtf8.is_list(),
        !DataTypeView::Utf8View.is_list(),
        !DataTypeView::Decimal32(precision, scale).is_list(),
        !DataTypeView::Decimal64(precision, scale).is_list(),
        !DataTypeView::Decimal128(precision, scale).is_list(),
        !DataTypeView::Decimal256(precision, scale).is_list(),
        !DataTypeView::Null.is_list(),
        !DataTypeView::ListView(Box::new(field)).is_list(),
        !DataTypeView::LargeListView(Box::new(field)).is_list(),
        !DataTypeView::Struct(fields).is_list(),
        !DataTypeView::Union(members, mode).is_list(),
        !DataTypeView::Dictionary(Box::new(field.data_type), Box::new(other.data_type)).is_list(),
        !DataTypeView::MapOf(Box::new(field), sorted).is_list(),
        !DataTypeView::RunEndEncoded(Box::new(field), Box::new(other)).is_list(),
{
}

/// The null type, list views, unions and run-end-encoded types are refused as unsupported.
pub proof fn law_other_types_are_refused(
    field: FieldView,
    other: FieldView,
    members: Seq<(i8, FieldView)>,
    mode: UnionMode,
)
    ensures
        resolve::type_error(DataTypeView::Null) == Some(Error::UnsupportedType),
        resolve::type_error(DataTypeView::ListView(Box::new(field))) == Some(
            Error::UnsupportedType,
        ),
        resolve::type_error(DataTypeView::LargeListView(Box::new(field))) == Some(
            Error::UnsupportedType,
        ),
        resolve::type_error(DataTypeView::Union(members, mode)) == Some(Error::UnsupportedType),
        resolve::type_error(DataTypeView::RunEndEncoded(Box::new(field), Box::new(other)))
            == Some(Error::UnsupportedType),
{
}

/// A list of any layout is refused exactly when the type of its element is, and for the same
/// reason.
pub proof fn law_list_is_refused_as_its_element(element: FieldView, size: i32)
    ensures
        resolve::type_error(DataTypeView::List(Box::new(element))) == resolve::type_error(
            element.data_type,
        ),
        resolve::type_error(DataTypeView::LargeList(Box::new(element))) == resolve::type_error(
            element.data_type,
        ),
        resolve::type_error(DataTypeView::FixedSizeList(Box::new(element), size))
            == resolve::type_error(element.data_type),
{
}

/// A dictionary-encoded type is refused exactly when the type of its values is, and for the
/// same reason; its key type does not matter.
pub proof fn law_dictionary_is_refused_as_its_values(
    dictionary_keys: DataTypeView,
    values: DataTypeView,
)
    ensures
        resolve::type_error(
            DataTypeView::Dictionary(Box::new(dictionary_keys), Box::new(values)),
        ) == resolve::type_error(values),
{
}

/// A struct is refused exactly when the type of one of its fields is, however many there are.
pub proof fn law_struct_is_refused_iff_a_field_is(fields: Seq<FieldView>)
    ensures
        resolve::type_error(DataTypeView::Struct(fields)) is Some <==> exists|i: int|
            0 <= i < fields.len() && resolve::type_error(
                (#[trigger] fields[i]).data_type,
            ) is Some,
{
    crate::laws::law_refused_iff_a_field_is(fields);
}

/// The error of a struct is that of its first field that is refused.
pub proof fn law_first_refused_field_gives_the_error_of_a_struct(
    fields: Seq<FieldView>,
    at: int,
)
    requires
        0 <= at < fields.len(),
        resolve::type_error(fields[at].data_type) is Some,
        forall|i: int|
            0 <= i < at ==> resolve::type_error((#[trigger] fields[i]).data_type) is None,
    ensures
        resolve::type_error(DataTypeView::Struct(fields)) == resolve::type_error(
            fields[at].data_type,
        ),
{
    crate::laws::law_first_refused_field_gives_the_error(fields, at);
}

/// A map is refused if its entries are no struct, if they are a struct of other than two
/// fields, and otherwise exactly when the type of its key or that of its value is.
pub proof fn law_when_a_map_is_refused(entries: FieldView, parts: Seq<FieldView>, sorted: bool)
    ensures
        !(entries.data_type is Struct) ==> resolve::type_error(
            DataTypeView::MapOf(Box::new(entries), sorted),
        ) == Some(Error::MapEntriesNotStruct),
        entries.data_type == DataTypeView::Struct(parts) && parts.len() != 2
            ==> resolve::type_error(DataTypeView::MapOf(Box::new(entries), sorted)) == Some(
            Error::MapEntriesNotKeyValue,
        ),
        entries.data_type == DataTypeView::Struct(parts) && parts.len() == 2
            && resolve::type_error(parts[0].data_type) is Some ==> resolve::type_error(
            DataTypeView::MapOf(Box::new(entries), sorted),
        ) == resolve::type_error(parts[0].data_type),
        entries.data_type == DataTypeView::Struct(parts) && parts.len() == 2
            && resolve::type_error(parts[0].data_type) is None ==> resolve::type_error(
            DataTypeView::MapOf(Box::new(entries), sorted),
        ) == resolve::type_error(parts[1].data_type),
{
}

/// A schema is accepted exactly when the types of all its columns are.
pub proof fn law_schema_is_accepted_iff_all_columns_are(schema: SchemaView)
    ensures
        resolve::fields_error(schema.fields) is None <==> forall|i: int|
            0 <= i < schema.fields.len() ==> resolve::type_error(
                (#[trigger] schema.fields[i]).data_type,
            ) is None,
{
    crate::laws::law_refused_iff_a_field_is(schema.fields);
}

/// A type that a mapped schema has a place for, at every depth: any but the null type, list
/// views, unions and run-end-encoded types, where the entries of each map are a struct of a key
/// and a value.
pub open spec fn has_a_place(data_type: DataTypeView) -> bool
    decreases data_type,
{
    match data_type {
        DataTypeView::Null => false,
        DataTypeView::ListView(_) => false,
        DataTypeView::LargeListView(_) => false,
        DataTypeView::Union(_, _) => false,
        DataTypeView::RunEndEncoded(_, _) => false,
        DataTypeView::List(element) => has_a_place(element.data_type),
        DataTypeView::LargeList(element) => has_a_place(element.data_type),
        DataTypeView::FixedSizeList(element, _) => has_a_place(element.data_type),
        DataTypeView::Struct(fields) => forall|i: int|
            0 <= i < fields.len() ==> has_a_place((#[trigger] fields[i]).data_type),
        DataTypeView::MapOf(entries, _) => match entries.data_type {
            DataTypeView::Struct(parts) => {
                &&& parts.len() == 2
                &&& has_a_place(parts[0].data_type)
                &&& has_a_place(parts[1].data_type)
            },
            _ => false,
        },
        DataTypeView::Dictionary(_, values) => has_a_place(*values),
        _ => true,
    }
}

/// A type is accepted exactly when a mapped schema has a place for it, at every depth.
pub proof fn law_accepted_iff_it_has_a_place(data_type: DataTypeView)
    ensures
        resolve::type_error(data_type) is None <==> has_a_place(data_type),
    decreases data_type,
{
    match data_type {
        DataTypeView::List(element) => law_accepted_iff_it_has_a_place(element.data_type),
        DataTypeView::LargeList(element) => law_accepted_iff_it_has_a_place(element.data_type),
        DataTypeView::FixedSizeList(element, _) => law_accepted_iff_it_has_a_place(
            element.data_type,
        ),
        DataTypeView::Struct(fields) => {
            assert forall|i: int| 0 <= i < fields.len() implies (resolve::type_error(
                (#[trigger] fields[i]).data_type,
            ) is None <==> has_a_place(fields[i].data_type)) by {
                law_accepted_iff_it_has_a_place(fields[i].data_type);
            }
            law_struct_is_refused_iff_a_field_is(fields);
        },
        DataTypeView::MapOf(entries, _) => {
            if let DataTypeView::Struct(parts) = entries.data_type {
                if parts.len() == 2 {
                    law_accepted_iff_it_has_a_place(parts[0].data_type);
                    law_accepted_iff_it_has_a_place(parts[1].data_type);
                }
            }
        },
        DataTypeView::Dictionary(_, values) => law_accepted_iff_it_has_a_place(*values),
        _ => {},
    }
}

/// A mapped list has the layout and the size of the list that it came from, and its element is
/// the element of that list, looked up as `element`.
pub proof fn law_mapped_lists(
    element: FieldView,
    size: i32,
    children: Seq<MappedFieldView>,
)
    ensures
        ({
            let list = resolve::mapped_type(DataTypeView::List(Box::new(element)), children);
            let large = resolve::mapped_type(
                DataTypeView::LargeList(Box::new(element)),
                children,
            );
            let sized = resolve::mapped_type(
                DataTypeView::FixedSizeList(Box::new(element), size),
                children,
            );
            let mapped = resolve::mapped_field(element, "element"@, children);
            &&& list is List
            &&& *list->List_0 == mapped
            &&& large is LargeList
            &&& *large->LargeList_0 == mapped
            &&& sized is FixedSizeList
            &&& *sized->FixedSizeList_0 == mapped
            &&& sized->FixedSizeList_1 == size
        }),
{
}

/// A mapped map has the sorted flag of the map that it came from. Its entries field has the name
/// that it had, is not nullable and has no metadata; it holds the key, looked up as `key`, and
/// the value, looked up as `value`, and nothing else.
pub proof fn law_mapped_maps(
    entries: FieldView,
    parts: Seq<FieldView>,
    sorted: bool,
    children: Seq<MappedFieldView>,
)
    requires
        entries.data_type == DataTypeView::Struct(parts),
        parts.len() == 2,
    ensures
        ({
            let mapped = resolve::mapped_type(
                DataTypeView::MapOf(Box::new(entries), sorted),
                children,
            );
            &&& mapped is MapOf
            &&& mapped->MapOf_1 == sorted
            &&& mapped->MapOf_0.name == entries.name
            &&& !mapped->MapOf_0.nullable
            &&& forall|key: Seq<char>| !(#[trigger] mapped->MapOf_0.metadata.contains_key(key))
            &&& mapped->MapOf_0.data_type is Struct
            &&& mapped->MapOf_0.data_type->Struct_0.len() == 2
            &&& mapped->MapOf_0.data_type->Struct_0[0] == resolve::mapped_field(
                parts[0],
                "key"@,
                children,
            )
            &&& mapped->MapOf_0.data_type->Struct_0[1] == resolve::mapped_field(
                parts[1],
                "value"@,
                children,
            )
        }),
{
}

/// A map type is made of exactly what is given: the name and the flag, a key and a value; its
/// entries field is not nullable and has no metadata.
pub proof fn law_map_type_is_made_of_its_parts(
    entries_name: Seq<char>,
    key: FieldView,
    value: FieldView,
    sorted: bool,
)
    ensures
        ({
            let made = resolve::map_type(entries_name, key, value, sorted);
            &&& made is MapOf
            &&& made->MapOf_1 == sorted
            &&& made->MapOf_0.name == entries_name
            &&& !made->MapOf_0.nullable
            &&& forall|name: Seq<char>| !(#[trigger] made->MapOf_0.metadata.contains_key(name))
            &&& made->MapOf_0.data_type is Struct
            &&& made->MapOf_0.data_type->Struct_0.len() == 2
            &&& made->MapOf_0.data_type->Struct_0[0] == key
            &&& made->MapOf_0.data_type->Struct_0[1] == value
        }),
{
}

/// A mapped struct has as many fields as the struct that it came from, in the same order, each
/// looked up under its own name.
pub proof fn law_mapped_structs(fields: Seq<FieldView>, children: Seq<MappedFieldView>)
    ensures
        ({
            let mapped = resolve::mapped_type(DataTypeView::Struct(fields), children);
            &&& mapped is Struct
            &&& mapped->Struct_0.len() == fields.len()
            &&& forall|i: int|
                0 <= i < fields.len() ==> #[trigger] mapped->Struct_0[i] == resolve::mapped_field(
                    fields[i],
                    fields[i].name,
                    children,
                )
        }),
{
    assert(resolve::mapped_type(DataTypeView::Struct(fields), children) == DataTypeView::Struct(
        resolve::mapped_fields(fields, children),
    ));
}

/// A dictionary-encoded type is mapped as the type of its values.
pub proof fn law_mapped_dictionaries(
    dictionary_keys: DataTypeView,
    values: DataTypeView,
    children: Seq<MappedFieldView>,
)
    ensures
        resolve::mapped_type(
            DataTypeView::Dictionary(Box::new(dictionary_keys), Box::new(values)),
            children,
        ) == resolve::mapped_type(values, children),
{
}

/// A mapped schema has the metadata of the schema that it came from and as many columns, in the
/// same order, each looked up under its own name at the root of the mapping.
pub proof fn law_mapped_schemas(schema: SchemaView, root: Seq<MappedFieldView>)
    ensures
        ({
            let mapped = resolve::mapped_schema(schema, root);
            &&& mapped.metadata == schema.metadata
            &&& mapped.fields.len() == schema.fields.len()
            &&& forall|i: int|
                0 <= i < schema.fields.len() ==> #[trigger] mapped.fields[i]
                    == resolve::mapped_field(schema.fields[i], schema.fields[i].name, root)
        }),
{
}

/// A field with an id differs from the field without it in one entry of its metadata only: the
/// decimal text of the id, under `PARQUET:field_id`. Without an id to add it does not differ.
pub proof fn law_what_an_id_adds(field: FieldView, id: i32, key: Seq<char>)
    ensures
        resolve::with_field_id(field, None) == field,
        ({
            let with_id = resolve::with_field_id(field, Some(id));
            &&& with_id.name == field.name
            &&& with_id.nullable == field.nullable
            &&& with_id.data_type == field.data_type
            &&& with_id.metadata.contains_key("PARQUET:field_id"@)
            &&& with_id.metadata["PARQUET:field_id"@] == decimal::decimal(id as int)
            &&& key != "PARQUET:field_id"@ ==> {
                &&& with_id.metadata.contains_key(key) == field.metadata.contains_key(key)
                &&& field.metadata.contains_key(key) ==> with_id.metadata[key]
                    == field.metadata[key]
            }
        }),
{
}

/// A field that is found at position `at` of its level: it keeps its name and nullability, its
/// type is mapped by the children of that entry, and its metadata changes in the id of that
/// entry only, if the entry has one.
pub proof fn law_mapped_field_that_is_listed(
    field: FieldView,
    lookup: Seq<char>,
    level: Seq<MappedFieldView>,
    at: int,
    key: Seq<char>,
)
    requires
        0 <= at < level.len(),
        level[at].names.contains(lookup),
        forall|i: int| 0 <= i < at ==> !(#[trigger] level[i]).names.contains(lookup),
    ensures
        ({
            let mapped = resolve::mapped_field(field, lookup, level);
            &&& mapped.name == field.name
            &&& mapped.nullable == field.nullable
            &&& mapped.data_type == resolve::mapped_type(field.data_type, level[at].fields)
            &&& level[at].field_id is None ==> mapped.metadata == field.metadata
            &&& level[at].field_id matches Some(id) ==> {
                &&& mapped.metadata.contains_key("PARQUET:field_id"@)
                &&& mapped.metadata["PARQUET:field_id"@] == decimal::decimal(id as int)
            }
            &&& key != "PARQUET:field_id"@ ==> {
                &&& mapped.metadata.contains_key(key) == field.metadata.contains_key(key)
                &&& field.metadata.contains_key(key) ==> mapped.metadata[key]
                    == field.metadata[key]
            }
        }),
{
    mapping::law_first_entry_wins(level, lookup, at);
}

/// A field that no entry of its level lists: it keeps its name, nullability and metadata, and
/// its type is mapped by nothing.
pub proof fn law_mapped_field_that_is_not_listed(
    field: FieldView,
    lookup: Seq<char>,
    level: Seq<MappedFieldView>,
)
    requires
        forall|i: int| 0 <= i < level.len() ==> !(#[trigger] level[i]).names.contains(lookup),
    ensures
        ({
            let mapped = resolve::mapped_field(field, lookup, level);
            &&& mapped.name == field.name
            &&& mapped.nullable == field.nullable
            &&& mapped.metadata == field.metadata
            &&& mapped.data_type == resolve::mapped_type(
                field.data_type,
                Seq::<MappedFieldView>::empty(),
            )
        }),
{
    mapping::law_unlisted_name_is_not_found(level, lookup);
}

/// The texts of the fixed names and of the metadata key.
pub proof fn law_fixed_texts()
    ensures
        keys::LIST_ELEMENT_NAME@ == seq!['e', 'l', 'e', 'm', 'e', 'n', 't'],
        keys::MAP_KEY_NAME@ == seq!['k', 'e', 'y'],
        keys::MAP_VALUE_NAME@ == seq!['v', 'a', 'l', 'u', 'e'],
        keys::field_id_key() == seq![
            'P',
            'A',
            'R',
            'Q',
            'U',
            'E',
            'T',
            ':',
            'f',
            'i',
            'e',
            'l',
            'd',
            '_',
            'i',
            'd',
        ],
{
    reveal_strlit("element");
    reveal_strlit("key");
    reveal_strlit("value");
    reveal_strlit("PARQUET:field_id");
    assert(keys::LIST_ELEMENT_NAME@ =~= seq!['e', 'l', 'e', 'm', 'e', 'n', 't']);
    assert(keys::MAP_KEY_NAME@ =~= seq!['k', 'e', 'y']);
    assert(keys::MAP_VALUE_NAME@ =~= seq!['v', 'a', 'l', 'u', 'e']);
}

} // verus!
