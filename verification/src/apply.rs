//! Applying a name mapping to a schema.

use vstd::prelude::*;

use crate::keys;
use crate::laws;
use crate::mapping::NameMapping;
use crate::resolve;
use crate::resolve::Error;
use crate::schema;
use crate::schema::{DataType, DataTypeView, Field, Schema};
use crate::visitor::{ApplyNameMappingVisitor, RootMappingAdapter};

verus! {

/// Visits the type of the field that was entered last, and completes that field.
fn visit_type<'a>(data_type: &DataType, visitor: &mut ApplyNameMappingVisitor<'a>) -> (result:
    Result<Field, Error>)
    requires
        old(visitor)@.infos.len() > 0,
        old(visitor)@.mappings.len() > 0,
    ensures
        match result {
            Ok(field) => {
                &&& resolve::type_error(data_type@) is None
                &&& field@ == old(visitor)@.completed(
                    resolve::mapped_type(data_type@, old(visitor)@.current()),
                )
                &&& final(visitor)@ == old(visitor)@
            },
            Err(error) => resolve::type_error(data_type@) == Some(error),
        },
    decreases data_type,
{
    match data_type {
        DataType::List(element) => visit_list(data_type, element, visitor),
        DataType::LargeList(element) => visit_list(data_type, element, visitor),
        DataType::FixedSizeList(element, _) => visit_list(data_type, element, visitor),
        DataType::MapOf(entries, _) => visit_map(data_type, entries, visitor),
        DataType::Struct(fields) => {
            let results = visit_fields(fields, visitor)?;
            visitor.struct_(fields, results)
        },
        DataType::Dictionary(_, values) => visit_type(values, visitor),
        _ => if data_type.is_leaf() {
            visitor.primitive(data_type)
        } else {
            Err(Error::UnsupportedType)
        },
    }
}

/// Visits the element field of the list that was entered last, and completes that list.
fn visit_list<'a>(
    list: &DataType,
    element: &Field,
    visitor: &mut ApplyNameMappingVisitor<'a>,
) -> (result: Result<Field, Error>)
    requires
        old(visitor)@.infos.len() > 0,
        old(visitor)@.mappings.len() > 0,
        list@.is_list(),
        list matches DataType::List(e) ==> *e == *element,
        list matches DataType::LargeList(e) ==> *e == *element,
        list matches DataType::FixedSizeList(e, _) ==> *e == *element,
    ensures
        match result {
            Ok(field) => {
                &&& resolve::type_error(list@) is None
                &&& field@ == old(visitor)@.completed(
                    resolve::mapped_type(list@, old(visitor)@.current()),
                )
                &&& final(visitor)@ == old(visitor)@
            },
            Err(error) => resolve::type_error(list@) == Some(error),
        },
    decreases element,
{
    proof {
        laws::law_leaving_undoes_entering(visitor@, element@, keys::LIST_ELEMENT_NAME@);
        laws::law_completing_gives_the_mapped_field(visitor@, element@, keys::LIST_ELEMENT_NAME@);
        assert(element@.data_type == element.data_type.model());
    }
    visitor.before_list_element(element)?;
    let value = visit_type(element.data_type(), visitor)?;
    visitor.after_list_element(element)?;
    proof {
        laws::law_visited_part_keeps_its_id(visitor@, element@, keys::LIST_ELEMENT_NAME@);
    }
    visitor.list(list, value)
}

/// Visits the key and value fields of the map that was entered last, and completes that map.
fn visit_map<'a>(
    map: &DataType,
    entries: &Field,
    visitor: &mut ApplyNameMappingVisitor<'a>,
) -> (result: Result<Field, Error>)
    requires
        old(visitor)@.infos.len() > 0,
        old(visitor)@.mappings.len() > 0,
        map matches DataType::MapOf(e, _) && *e == *entries,
    ensures
        match result {
            Ok(field) => {
                &&& resolve::type_error(map@) is None
                &&& field@ == old(visitor)@.completed(
                    resolve::mapped_type(map@, old(visitor)@.current()),
                )
                &&& final(visitor)@ == old(visitor)@
            },
            Err(error) => resolve::type_error(map@) == Some(error),
        },
    decreases entries,
{
    proof {
        assert(*map@->MapOf_0 == entries@);
        assert(entries@.data_type == entries.data_type.model());
    }
    match entries.data_type() {
        DataType::Struct(parts) => {
            let ghost views = schema::fields_view(parts@);
            proof {
                assert(entries.data_type.model() == DataTypeView::Struct(views));
            }
            if parts.len() != 2 {
                return Err(Error::MapEntriesNotKeyValue);
            }
            let key_field = &parts[0];
            let value_field = &parts[1];
            proof {
                laws::law_leaving_undoes_entering(visitor@, key_field@, keys::MAP_KEY_NAME@);
                laws::law_completing_gives_the_mapped_field(
                    visitor@,
                    key_field@,
                    keys::MAP_KEY_NAME@,
                );
                laws::law_leaving_undoes_entering(visitor@, value_field@, keys::MAP_VALUE_NAME@);
                laws::law_completing_gives_the_mapped_field(
                    visitor@,
                    value_field@,
                    keys::MAP_VALUE_NAME@,
                );
                assert(views[0] == key_field@ && views[1] == value_field@);
                assert(key_field@.data_type == key_field.data_type.model());
                assert(value_field@.data_type == value_field.data_type.model());
            }
            visitor.before_map_key(key_field)?;
            let key = visit_type(key_field.data_type(), visitor)?;
            visitor.after_map_key(key_field)?;
            visitor.before_map_value(value_field)?;
            let value = visit_type(value_field.data_type(), visitor)?;
            visitor.after_map_value(value_field)?;
            proof {
                laws::law_visited_part_keeps_its_id(visitor@, key_field@, keys::MAP_KEY_NAME@);
                laws::law_visited_part_keeps_its_id(visitor@, value_field@, keys::MAP_VALUE_NAME@);
            }
            visitor.map(map, key, value)
        },
        _ => Err(Error::MapEntriesNotStruct),
    }
}

/// Visits a row of fields, each under its own name.
fn visit_fields<'a>(fields: &Vec<Field>, visitor: &mut ApplyNameMappingVisitor<'a>) -> (result:
    Result<Vec<Field>, Error>)
    requires
        old(visitor)@.mappings.len() > 0,
    ensures
        match result {
            Ok(results) => {
                &&& resolve::fields_error(schema::fields_view(fields@)) is None
                &&& schema::fields_view(results@) == resolve::mapped_fields(
                    schema::fields_view(fields@),
                    old(visitor)@.current(),
                )
                &&& final(visitor)@ == old(visitor)@
            },
            Err(error) => resolve::fields_error(schema::fields_view(fields@)) == Some(error),
        },
    decreases fields,
{
    let ghost start = visitor@;
    let ghost views = schema::fields_view(fields@);
    let ghost wanted = resolve::mapped_fields(views, start.current());
    let mut results: Vec<Field> = Vec::new();
    let mut i: usize = 0;
    proof {
        assert(views.skip(0) =~= views);
    }
    while i < fields.len()
        invariant
            i <= fields@.len(),
            views == schema::fields_view(fields@),
            wanted == resolve::mapped_fields(views, start.current()),
            visitor@ == start,
            start.mappings.len() > 0,
            resolve::fields_error(views) == resolve::fields_error(views.skip(i as int)),
            results@.len() == i,
            forall|j: int| 0 <= j < i ==> (#[trigger] results@[j]).model() == wanted[j],
        decreases fields@.len() - i,
    {
        let field = &fields[i];
        proof {
            laws::law_leaving_undoes_entering(start, field@, field@.name);
            laws::law_completing_gives_the_mapped_field(start, field@, field@.name);
            assert(views.skip(i as int)[0] == field@);
            assert(views.skip(i as int).drop_first() =~= views.skip(i + 1));
        }
        visitor.before_field(field)?;
        let mapped = visit_type(field.data_type(), visitor)?;
        visitor.after_field(field)?;
        results.push(mapped);
        i = i + 1;
    }
    proof {
        assert(views.skip(i as int) =~= Seq::empty());
        assert(schema::fields_view(results@) =~= wanted);
    }
    Ok(results)
}

/// Visits all fields of a schema.
fn visit_schema<'a>(arrow_schema: &Schema, visitor: &mut ApplyNameMappingVisitor<'a>) -> (result:
    Result<Schema, Error>)
    requires
        old(visitor)@.mappings.len() > 0,
    ensures
        match result {
            Ok(mapped) => {
                &&& resolve::fields_error(arrow_schema@.fields) is None
                &&& mapped@ == resolve::mapped_schema(arrow_schema@, old(visitor)@.current())
                &&& final(visitor)@ == old(visitor)@
            },
            Err(error) => resolve::fields_error(arrow_schema@.fields) == Some(error),
        },
{
    let results = visit_fields(&arrow_schema.fields, visitor)?;
    visitor.schema(arrow_schema, results)
}

/// Applies a name mapping to a schema: every field whose name the mapping lists gets the id
/// that goes with the name, in its metadata.
///
/// The fields of a schema and of structs are looked up under their own names, the elements of
/// lists as `element`, the keys and values of maps as `key` and `value`; the parts of a nested
/// column are looked up among the children of the entry that was found for the column.
///
/// A schema that holds a type which cannot be visited gives the error that comes first in the
/// order of the fields.
pub fn apply_name_mapping(arrow_schema: &Schema, name_mapping: &NameMapping) -> (result: Result<
    Schema,
    Error,
>)
    ensures
        match result {
            Ok(mapped) => {
                &&& resolve::fields_error(arrow_schema@.fields) is None
                &&& mapped@ == resolve::mapped_schema(arrow_schema@, name_mapping@)
                &&& mapped@.metadata == arrow_schema@.metadata
                &&& mapped@.fields.len() == arrow_schema@.fields.len()
                &&& forall|i: int|
                    0 <= i < arrow_schema@.fields.len() ==> {
                        &&& (#[trigger] mapped@.fields[i]).name == arrow_schema@.fields[i].name
                        &&& mapped@.fields[i].nullable == arrow_schema@.fields[i].nullable
                    }
            },
            Err(error) => resolve::fields_error(arrow_schema@.fields) == Some(error),
        },
{
    let adapter = RootMappingAdapter::new(name_mapping);
    let mut visitor = ApplyNameMappingVisitor::new(adapter.fields());
    visit_schema(arrow_schema, &mut visitor)
}

} // verus!
