//! What the values of this crate stand for: nothing of a schema or a mapping is lost in its view.

use std::sync::Arc;
use vstd::prelude::*;

use crate::mapping;
use crate::mapping::{MappedField, MappedFieldView, NameMapping};
use crate::schema;
use crate::schema::{DataType, DataTypeView, Field, FieldView, Schema};
use crate::visitor;
use crate::visitor::FieldInfo;

verus! {

/// A data type stands for the type of the same kind, with the same parameters and parts.
pub proof fn law_what_a_data_type_stands_for(data_type: DataType)
    ensures
        match data_type {
            DataType::Null => data_type@ == DataTypeView::Null,
            DataType::Boolean => data_type@ == DataTypeView::Boolean,
            DataType::Int8 => data_type@ == DataTypeView::Int8,
            DataType::Int16 => data_type@ == DataTypeView::Int16,
            DataType::Int32 => data_type@ == DataTypeView::Int32,
            DataType::Int64 => data_type@ == DataTypeView::Int64,
            DataType::UInt8 => data_type@ == DataTypeView::UInt8,
            DataType::UInt16 => data_type@ == DataTypeView::UInt16,
            DataType::UInt32 => data_type@ == DataTypeView::UInt32,
            DataType::UInt64 => data_type@ == DataTypeView::UInt64,
            DataType::Float16 => data_type@ == DataTypeView::Float16,
            DataType::Float32 => data_type@ == DataTypeView::Float32,
            DataType::Float64 => data_type@ == DataTypeView::Float64,
            DataType::Date32 => data_type@ == DataTypeView::Date32,
            DataType::Date64 => data_type@ == DataTypeView::Date64,
            DataType::Binary => data_type@ == DataTypeView::Binary,
            DataType::LargeBinary => data_type@ == DataTypeView::LargeBinary,
            DataType::BinaryView => data_type@ == DataTypeView::BinaryView,
            DataType::Utf8 => data_type@ == DataTypeView::Utf8,
            DataType::LargeUtf8 => data_type@ == DataTypeView::LargeUtf8,
            DataType::Utf8View => data_type@ == DataTypeView::Utf8View,
            DataType::Time32(unit) => data_type@ == DataTypeView::Time32(unit),
            DataType::Time64(unit) => data_type@ == DataTypeView::Time64(unit),
            DataType::Duration(unit) => data_type@ == DataTypeView::Duration(unit),
            DataType::Interval(unit) => data_type@ == DataTypeView::Interval(unit),
            DataType::FixedSizeBinary(width) => data_type@ == DataTypeView::FixedSizeBinary(width),
            DataType::Decimal32(precision, scale) => data_type@ == DataTypeView::Decimal32(
                precision,
                scale,
            ),
            DataType::Decimal64(precision, scale) => data_type@ == DataTypeView::Decimal64(
                precision,
                scale,
            ),
            DataType::Decimal128(precision, scale) => data_type@ == DataTypeView::Decimal128(
                precision,
                scale,
            ),
            DataType::Decimal256(precision, scale) => data_type@ == DataTypeView::Decimal256(
                precision,
                scale,
            ),
            DataType::Timestamp(unit, None) => data_type@ == DataTypeView::Timestamp(unit, None),
            DataType::Timestamp(unit, Some(zone)) => data_type@ == DataTypeView::Timestamp(
                unit,
                Some(zone@),
            ),
            DataType::List(element) => data_type@ is List && *data_type@->List_0 == (*element)@,
            DataType::ListView(element) => data_type@ is ListView && *data_type@->ListView_0 == (*element)@,
            DataType::LargeList(element) => data_type@ is LargeList && *data_type@->LargeList_0 == (*element)@,
            DataType::LargeListView(element) => data_type@ is LargeListView && *data_type@->LargeListView_0 == (*element)@,
            DataType::FixedSizeList(element, size) => {
                &&& data_type@ is FixedSizeList
                &&& *data_type@->FixedSizeList_0 == (*element)@
                &&& data_type@->FixedSizeList_1 == size
            },
            DataType::Struct(fields) => {
                &&& data_type@ is Struct
                &&& data_type@->Struct_0.len() == fields@.len()
                &&& forall|i: int|
                    0 <= i < fields@.len() ==> #[trigger] data_type@->Struct_0[i] == fields@[i]@
            },
            DataType::Union(members, mode) => {
                &&& data_type@ is Union
                &&& data_type@->Union_0.len() == members@.len()
                &&& forall|i: int|
                    0 <= i < members@.len() ==> {
                        &&& (#[trigger] data_type@->Union_0[i]).0 == members@[i].0
                        &&& data_type@->Union_0[i].1 == members@[i].1@
                    }
                &&& data_type@->Union_1 == mode
            },
            DataType::Dictionary(key_type, values) => {
                &&& data_type@ is Dictionary
                &&& *data_type@->Dictionary_0 == (*key_type)@
                &&& *data_type@->Dictionary_1 == (*values)@
            },
            DataType::MapOf(entries, sorted) => {
                &&& data_type@ is MapOf
                &&& *data_type@->MapOf_0 == (*entries)@
                &&& data_type@->MapOf_1 == sorted
            },
            DataType::RunEndEncoded(run_ends, values) => {
                &&& data_type@ is RunEndEncoded
                &&& *data_type@->RunEndEncoded_0 == (*run_ends)@
                &&& *data_type@->RunEndEncoded_1 == (*values)@
            },
        },
{
    reveal_with_fuel(DataType::model, 2);
    reveal_with_fuel(Field::model, 2);
    reveal_with_fuel(schema::fields_view, 2);
    reveal_with_fuel(schema::members_view, 2);
}

/// A field stands for its name, type, nullability and metadata.
pub proof fn law_what_a_field_stands_for(field: Field)
    ensures
        field@.name == field.name@,
        field@.data_type == field.data_type@,
        field@.nullable == field.nullable,
        field@.metadata == field.metadata@,
{
    reveal_with_fuel(DataType::model, 2);
    reveal_with_fuel(Field::model, 2);
}

/// A row of fields stands for as many fields, in the same order.
pub proof fn law_what_a_row_of_fields_stands_for(fields: Seq<Field>)
    ensures
        schema::fields_view(fields).len() == fields.len(),
        forall|i: int|
            0 <= i < fields.len() ==> #[trigger] schema::fields_view(fields)[i] == fields[i]@,
{
}

/// A schema stands for its fields, in their order, and its metadata.
pub proof fn law_what_a_schema_stands_for(arrow_schema: Schema)
    ensures
        arrow_schema@.metadata == arrow_schema.metadata@,
        arrow_schema@.fields.len() == arrow_schema.fields@.len(),
        forall|i: int|
            0 <= i < arrow_schema.fields@.len() ==> #[trigger] arrow_schema@.fields[i]
                == arrow_schema.fields@[i]@,
{
}

/// An entry of a mapping stands for its id, all its names and all its children, in their order.
pub proof fn law_what_an_entry_stands_for(entry: MappedField)
    ensures
        entry@.field_id == entry.field_id,
        entry@.names.len() == entry.names@.len(),
        forall|i: int|
            0 <= i < entry.names@.len() ==> #[trigger] entry@.names[i] == entry.names@[i]@,
        entry@.fields.len() == entry.fields@.len(),
        forall|i: int|
            0 <= i < entry.fields@.len() ==> #[trigger] entry@.fields[i] == (*entry.fields@[i])@,
{
    reveal_with_fuel(MappedField::model, 2);
    reveal_with_fuel(mapping::level_view, 2);
}

/// A row of names stands for as many texts, in the same order.
pub proof fn law_what_a_row_of_names_stands_for(names: Seq<String>)
    ensures
        mapping::texts(names).len() == names.len(),
        forall|i: int| 0 <= i < names.len() ==> #[trigger] mapping::texts(names)[i] == names[i]@,
{
}

/// A level of entries stands for as many entries, in the same order.
pub proof fn law_what_a_level_stands_for(level: Seq<Arc<MappedField>>)
    ensures
        mapping::level_view(level).len() == level.len(),
        forall|i: int|
            0 <= i < level.len() ==> #[trigger] mapping::level_view(level)[i] == (*level[i])@,
{
}

/// A row of entries stands for as many entries, in the same order.
pub proof fn law_what_a_row_of_entries_stands_for(entries: Seq<MappedField>)
    ensures
        mapping::root_view(entries).len() == entries.len(),
        forall|i: int|
            0 <= i < entries.len() ==> #[trigger] mapping::root_view(entries)[i] == entries[i]@,
{
}

/// A mapping stands for the entries of its root level, in their order.
pub proof fn law_what_a_mapping_stands_for(name_mapping: NameMapping)
    ensures
        name_mapping@.len() == name_mapping.root@.len(),
        forall|i: int|
            0 <= i < name_mapping.root@.len() ==> #[trigger] name_mapping@[i]
                == name_mapping.root@[i]@,
{
}

/// What is remembered of a field stands for its name, nullability and metadata, and the name
/// under which the field is looked up.
pub proof fn law_what_a_field_info_stands_for(info: FieldInfo)
    ensures
        info@.name == info.name@,
        info@.nullable == info.nullable,
        info@.metadata == info.metadata@,
        info@.lookup_name == info.lookup_name@,
{
}

} // verus!
