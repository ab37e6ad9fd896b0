//! What each step of the visitor does to its two stacks and to the fields that it completes.

use vstd::prelude::*;

use crate::decimal;
use crate::mapping;
use crate::mapping::MappedFieldView;
use crate::schema::{DataTypeView, FieldView};
use crate::visitor;
use crate::visitor::VisitorView;

verus! {

/// The innermost level is the one that was entered last, and the level around it the one that
/// was entered before; with one level, both are that level, and with none, both are empty.
pub proof fn law_innermost_levels(view: VisitorView)
    ensures
        view.mappings.len() == 0 ==> view.current().len() == 0 && view.parent().len() == 0,
        view.mappings.len() == 1 ==> view.current() == view.mappings[0] && view.parent()
            == view.mappings[0],
        view.mappings.len() >= 2 ==> {
            &&& view.current() == view.mappings[view.mappings.len() - 1]
            &&& view.parent() == view.mappings[view.mappings.len() - 2]
        },
{
}

/// Entering a level puts it on top of the others and changes nothing else.
pub proof fn law_entering_a_level(view: VisitorView, level: Seq<MappedFieldView>)
    ensures
        ({
            let after = view.with_level(level);
            &&& after.infos == view.infos
            &&& after.mappings.len() == view.mappings.len() + 1
            &&& after.mappings[view.mappings.len() as int] == level
            &&& forall|i: int|
                0 <= i < view.mappings.len() ==> #[trigger] after.mappings[i] == view.mappings[i]
        }),
{
}

/// Leaving a level takes the last one off, if there is one, and changes nothing else.
pub proof fn law_leaving_a_level(view: VisitorView)
    ensures
        ({
            let after = view.without_level();
            &&& after.infos == view.infos
            &&& view.mappings.len() == 0 ==> after.mappings.len() == 0
            &&& view.mappings.len() > 0 ==> after.mappings.len() == view.mappings.len() - 1
            &&& forall|i: int|
                0 <= i < after.mappings.len() ==> #[trigger] after.mappings[i] == view.mappings[i]
        }),
{
}

/// Entering a field remembers its name, nullability and metadata and the name under which it is
/// looked up. The fields and levels entered before stay as they are.
pub proof fn law_entering_a_field(view: VisitorView, field: FieldView, lookup_name: Seq<char>)
    ensures
        ({
            let after = view.entered(field, lookup_name);
            let info = after.infos[view.infos.len() as int];
            &&& after.infos.len() == view.infos.len() + 1
            &&& info.name == field.name
            &&& info.nullable == field.nullable
            &&& info.metadata == field.metadata
            &&& info.lookup_name == lookup_name
            &&& forall|i: int|
                0 <= i < view.infos.len() ==> #[trigger] after.infos[i] == view.infos[i]
            &&& after.mappings.len() == view.mappings.len() + 1
            &&& forall|i: int|
                0 <= i < view.mappings.len() ==> #[trigger] after.mappings[i] == view.mappings[i]
        }),
{
}

/// Entering a field that the innermost level lists, first at position `at`, enters the children
/// of that entry.
pub proof fn law_entering_a_listed_field(
    view: VisitorView,
    field: FieldView,
    lookup_name: Seq<char>,
    at: int,
)
    requires
        view.mappings.len() > 0,
        0 <= at < view.mappings[view.mappings.len() - 1].len(),
        view.mappings[view.mappings.len() - 1][at].names.contains(lookup_name),
        forall|i: int|
            0 <= i < at ==> !(
            #[trigger] view.mappings[view.mappings.len() - 1][i]).names.contains(lookup_name),
    ensures
        view.entered(field, lookup_name).mappings[view.mappings.len() as int]
            == view.mappings[view.mappings.len() - 1][at].fields,
{
    mapping::law_first_entry_wins(view.mappings[view.mappings.len() - 1], lookup_name, at);
}

/// Entering a field that the innermost level does not list, or that has no level around it,
/// enters an empty level.
pub proof fn law_entering_an_unlisted_field(
    view: VisitorView,
    field: FieldView,
    lookup_name: Seq<char>,
)
    requires
        view.mappings.len() > 0 ==> forall|i: int|
            0 <= i < view.mappings[view.mappings.len() - 1].len() ==> !(
            #[trigger] view.mappings[view.mappings.len() - 1][i]).names.contains(lookup_name),
    ensures
        view.entered(field, lookup_name).mappings[view.mappings.len() as int].len() == 0,
{
    mapping::law_unlisted_name_is_not_found(view.current(), lookup_name);
}

/// Leaving a field takes the last field and the last level off, each if there is one, and
/// changes nothing else.
pub proof fn law_leaving_a_field(view: VisitorView)
    ensures
        ({
            let after = view.left();
            &&& view.infos.len() == 0 ==> after.infos.len() == 0
            &&& view.infos.len() > 0 ==> after.infos.len() == view.infos.len() - 1
            &&& forall|i: int|
                0 <= i < after.infos.len() ==> #[trigger] after.infos[i] == view.infos[i]
            &&& view.mappings.len() == 0 ==> after.mappings.len() == 0
            &&& view.mappings.len() > 0 ==> after.mappings.len() == view.mappings.len() - 1
            &&& forall|i: int|
                0 <= i < after.mappings.len() ==> #[trigger] after.mappings[i] == view.mappings[i]
        }),
{
}

/// A completed field has the name, nullability and metadata that were remembered and the type
/// that is given. Only the id may be new: the one that the level around the innermost one gives
/// to the remembered lookup name.
pub proof fn law_completing_a_field(view: VisitorView, data_type: DataTypeView, key: Seq<char>)
    requires
        view.infos.len() > 0,
    ensures
        ({
            let info = view.infos[view.infos.len() - 1];
            let id = mapping::id_at(view.parent(), info.lookup_name);
            let field = view.completed(data_type);
            &&& field.name == info.name
            &&& field.nullable == info.nullable
            &&& field.data_type == data_type
            &&& id is None ==> field.metadata == info.metadata
            &&& id matches Some(number) ==> {
                &&& field.metadata.contains_key("PARQUET:field_id"@)
                &&& field.metadata["PARQUET:field_id"@] == decimal::decimal(number as int)
            }
            &&& key != "PARQUET:field_id"@ ==> {
                &&& field.metadata.contains_key(key) == info.metadata.contains_key(key)
                &&& info.metadata.contains_key(key) ==> field.metadata[key] == info.metadata[key]
            }
        }),
{
}

/// A field that is given its id changes in nothing else. The id is the one that the level around
/// the innermost one gives to the name.
pub proof fn law_identifying_a_field(
    view: VisitorView,
    field: FieldView,
    lookup_name: Seq<char>,
    key: Seq<char>,
)
    ensures
        ({
            let id = mapping::id_at(view.parent(), lookup_name);
            let found = view.identified(field, lookup_name);
            &&& found.name == field.name
            &&& found.nullable == field.nullable
            &&& found.data_type == field.data_type
            &&& id is None ==> found.metadata == field.metadata
            &&& id matches Some(number) ==> {
                &&& found.metadata.contains_key("PARQUET:field_id"@)
                &&& found.metadata["PARQUET:field_id"@] == decimal::decimal(number as int)
            }
            &&& key != "PARQUET:field_id"@ ==> {
                &&& found.metadata.contains_key(key) == field.metadata.contains_key(key)
                &&& field.metadata.contains_key(key) ==> found.metadata[key] == field.metadata[key]
            }
        }),
{
}

/// An element, key or value that is given its id changes in nothing else. The id is the one that
/// the innermost level gives to the name.
pub proof fn law_identifying_a_part(
    view: VisitorView,
    part: FieldView,
    lookup_name: Seq<char>,
    key: Seq<char>,
)
    ensures
        ({
            let id = mapping::id_at(view.current(), lookup_name);
            let found = view.part_identified(part, lookup_name);
            &&& found.name == part.name
            &&& found.nullable == part.nullable
            &&& found.data_type == part.data_type
            &&& id is None ==> found.metadata == part.metadata
            &&& id matches Some(number) ==> {
                &&& found.metadata.contains_key("PARQUET:field_id"@)
                &&& found.metadata["PARQUET:field_id"@] == decimal::decimal(number as int)
            }
            &&& key != "PARQUET:field_id"@ ==> {
                &&& found.metadata.contains_key(key) == part.metadata.contains_key(key)
                &&& part.metadata.contains_key(key) ==> found.metadata[key] == part.metadata[key]
            }
        }),
{
}

/// What is remembered of a field is what the field has, and the lookup name.
pub proof fn law_what_is_remembered(field: FieldView, lookup_name: Seq<char>)
    ensures
        visitor::info_of(field, lookup_name).name == field.name,
        visitor::info_of(field, lookup_name).nullable == field.nullable,
        visitor::info_of(field, lookup_name).metadata == field.metadata,
        visitor::info_of(field, lookup_name).lookup_name == lookup_name,
{
}

/// A list with another element keeps its layout and its size.
pub proof fn law_replacing_the_element(before: FieldView, element: FieldView, size: i32)
    ensures
        ({
            let list = visitor::list_with_element(DataTypeView::List(Box::new(before)), element);
            let large = visitor::list_with_element(
                DataTypeView::LargeList(Box::new(before)),
                element,
            );
            let sized = visitor::list_with_element(
                DataTypeView::FixedSizeList(Box::new(before), size),
                element,
            );
            &&& list is List
            &&& *list->List_0 == element
            &&& large is LargeList
            &&& *large->LargeList_0 == element
            &&& sized is FixedSizeList
            &&& *sized->FixedSizeList_0 == element
            &&& sized->FixedSizeList_1 == size
        }),
{
}

} // verus!
