//! What applying a name mapping to a schema means.

use vstd::prelude::*;

use crate::decimal;
use crate::keys;
use crate::mapping;
use crate::mapping::MappedFieldView;
use crate::schema::{DataTypeView, FieldView, SchemaView};

verus! {

/// Why a schema cannot be visited.
#[derive(Debug, Clone, Copy, PartialEq, Eq, Structural)]
pub enum Error {
    /// The entries of a map are no struct.
    MapEntriesNotStruct,
    /// The entries of a map are a struct, but not of exactly a key and a value.
    MapEntriesNotKeyValue,
    /// The type has no place in a mapped schema.
    UnsupportedType,
}

/// The field with `id` in its metadata, or unchanged where there is no id.
pub open spec fn with_field_id(field: FieldView, id: Option<i32>) -> FieldView {
    match id {
        Some(id) => FieldView {
            metadata: field.metadata.insert(keys::field_id_key(), decimal::decimal(id as int)),
            ..field
        },
        None => field,
    }
}

/// The field after it was looked up as `lookup` in `level`: it carries the id found there, and
/// its type is mapped by the children found there.
pub open spec fn mapped_field(
    field: FieldView,
    lookup: Seq<char>,
    level: Seq<MappedFieldView>,
) -> FieldView
    decreases field,
{
    with_field_id(
        FieldView {
            data_type: mapped_type(field.data_type, mapping::children_at(level, lookup)),
            ..field
        },
        mapping::id_at(level, lookup),
    )
}

/// The fields of one level, each looked up under its own name.
pub open spec fn mapped_fields(fields: Seq<FieldView>, level: Seq<MappedFieldView>) -> Seq<
    FieldView,
>
    decreases fields,
{
    Seq::new(
        fields.len(),
        |i: int|
            if 0 <= i < fields.len() {
                mapped_field(fields[i], fields[i].name, level)
            } else {
                arbitrary()
            },
    )
}

/// The type of a field whose entry has the children `children`: the fields of a struct are looked
/// up there under their own names, the elements of a list as `element`, and the keys and values
/// of a map as `key` and `value`.
///
/// A dictionary-encoded type is mapped as the type of its values. The entries field of a map
/// keeps its name only: it is not nullable and has no metadata.
pub open spec fn mapped_type(
    data_type: DataTypeView,
    children: Seq<MappedFieldView>,
) -> DataTypeView
    decreases data_type,
{
    match data_type {
        DataTypeView::List(element) => DataTypeView::List(
            Box::new(mapped_field(*element, keys::LIST_ELEMENT_NAME@, children)),
        ),
        DataTypeView::LargeList(element) => DataTypeView::LargeList(
            Box::new(mapped_field(*element, keys::LIST_ELEMENT_NAME@, children)),
        ),
        DataTypeView::FixedSizeList(element, size) => DataTypeView::FixedSizeList(
            Box::new(mapped_field(*element, keys::LIST_ELEMENT_NAME@, children)),
            size,
        ),
        DataTypeView::MapOf(entries, sorted) => match entries.data_type {
            DataTypeView::Struct(parts) => if parts.len() == 2 {
                map_type(
                    entries.name,
                    mapped_field(parts[0], keys::MAP_KEY_NAME@, children),
                    mapped_field(parts[1], keys::MAP_VALUE_NAME@, children),
                    sorted,
                )
            } else {
                data_type
            },
            _ => data_type,
        },
        DataTypeView::Struct(fields) => DataTypeView::Struct(mapped_fields(fields, children)),
        DataTypeView::Dictionary(_, values) => mapped_type(*values, children),
        _ => data_type,
    }
}

/// A map type whose entries are called `entries_name` and hold `key` and `value`.
pub open spec fn map_type(
    entries_name: Seq<char>,
    key: FieldView,
    value: FieldView,
    sorted: bool,
) -> DataTypeView {
    DataTypeView::MapOf(
        Box::new(
            FieldView {
                name: entries_name,
                data_type: DataTypeView::Struct(seq![key, value]),
                nullable: false,
                metadata: Map::empty(),
            },
        ),
        sorted,
    )
}

/// The schema with every field mapped; its own metadata stays.
pub open spec fn mapped_schema(schema: SchemaView, root: Seq<MappedFieldView>) -> SchemaView {
    SchemaView { fields: mapped_fields(schema.fields, root), ..schema }
}

/// The first reason, in the order of a visit, why a type cannot be visited.
pub open spec fn type_error(data_type: DataTypeView) -> Option<Error>
    decreases data_type,
{
    match data_type {
        DataTypeView::List(element) => type_error(element.data_type),
        DataTypeView::LargeList(element) => type_error(element.data_type),
        DataTypeView::FixedSizeList(element, _) => type_error(element.data_type),
        DataTypeView::MapOf(entries, _) => match entries.data_type {
            DataTypeView::Struct(parts) => if parts.len() != 2 {
                Some(Error::MapEntriesNotKeyValue)
            } else {
                match type_error(parts[0].data_type) {
                    Some(error) => Some(error),
                    None => type_error(parts[1].data_type),
                }
            },
            _ => Some(Error::MapEntriesNotStruct),
        },
        DataTypeView::Struct(fields) => fields_error(fields),
        DataTypeView::Dictionary(_, values) => type_error(*values),
        _ => if data_type.is_leaf() {
            None
        } else {
            Some(Error::UnsupportedType)
        },
    }
}

/// The first reason, in the order of a visit, why a row of fields cannot be visited.
pub open spec fn fields_error(fields: Seq<FieldView>) -> Option<Error>
    decreases fields,
{
    if fields.len() == 0 {
        None
    } else {
        match type_error(fields[0].data_type) {
            Some(error) => Some(error),
            None => fields_error(fields.drop_first()),
        }
    }
}

} // verus!
