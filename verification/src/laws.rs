//! What holds of every application of a name mapping.

use vstd::prelude::*;

use crate::decimal;
use crate::keys;
use crate::mapping;
use crate::mapping::MappedFieldView;
use crate::resolve;
use crate::schema::{DataTypeView, FieldView, SchemaView};
use crate::visitor::VisitorView;

verus! {

/// The metadata that a comparison looks at: all of it, or all but the field id.
pub open spec fn kept_metadata(
    metadata: Map<Seq<char>, Seq<char>>,
    with_ids: bool,
) -> Map<Seq<char>, Seq<char>> {
    if with_ids {
        metadata
    } else {
        metadata.remove(keys::field_id_key())
    }
}

/// The field in normal form: every dictionary-encoded type is the type of its values, and the
/// entries field of a map is not nullable and has no metadata. Without `with_ids`, the field
/// ids are taken out at every depth.
pub open spec fn normal_field(field: FieldView, with_ids: bool) -> FieldView
    decreases field,
{
    FieldView {
        data_type: normal_type(field.data_type, with_ids),
        metadata: kept_metadata(field.metadata, with_ids),
        ..field
    }
}

/// The fields in normal form.
pub open spec fn normal_fields(fields: Seq<FieldView>, with_ids: bool) -> Seq<FieldView>
    decreases fields,
{
    Seq::new(
        fields.len(),
        |i: int|
            if 0 <= i < fields.len() {
                normal_field(fields[i], with_ids)
            } else {
                arbitrary()
            },
    )
}

/// The type in normal form.
pub open spec fn normal_type(data_type: DataTypeView, with_ids: bool) -> DataTypeView
    decreases data_type,
{
    match data_type {
        DataTypeView::List(element) => DataTypeView::List(
            Box::new(normal_field(*element, with_ids)),
        ),
        DataTypeView::LargeList(element) => DataTypeView::LargeList(
            Box::new(normal_field(*element, with_ids)),
        ),
        DataTypeView::FixedSizeList(element, size) => DataTypeView::FixedSizeList(
            Box::new(normal_field(*element, with_ids)),
            size,
        ),
        DataTypeView::MapOf(entries, sorted) => match entries.data_type {
            DataTypeView::Struct(parts) => if parts.len() == 2 {
                DataTypeView::MapOf(
                    Box::new(
                        FieldView {
                            name: entries.name,
                            data_type: DataTypeView::Struct(
                                seq![
                                    normal_field(parts[0], with_ids),
                                    normal_field(parts[1], with_ids),
                                ],
                            ),
                            nullable: false,
                            metadata: Map::empty(),
                        },
                    ),
                    sorted,
                )
            } else {
                data_type
            },
            _ => data_type,
        },
        DataTypeView::Struct(fields) => DataTypeView::Struct(normal_fields(fields, with_ids)),
        DataTypeView::Dictionary(_, values) => normal_type(*values, with_ids),
        _ => data_type,
    }
}

/// The element field of a list.
pub open spec fn list_element(data_type: DataTypeView) -> FieldView {
    match data_type {
        DataTypeView::List(element) => *element,
        DataTypeView::LargeList(element) => *element,
        DataTypeView::FixedSizeList(element, _) => *element,
        _ => arbitrary(),
    }
}

/// The key and value fields of a map.
pub open spec fn map_parts(data_type: DataTypeView) -> Seq<FieldView> {
    data_type->MapOf_0.data_type->Struct_0
}

proof fn lemma_id_is_the_only_change(field: FieldView, id: Option<i32>)
    ensures
        normal_field(resolve::with_field_id(field, id), false) == normal_field(field, false),
{
    assert(kept_metadata(resolve::with_field_id(field, id).metadata, false) =~= kept_metadata(
        field.metadata,
        false,
    ));
}

proof fn lemma_only_ids_change_in_field(
    field: FieldView,
    lookup: Seq<char>,
    level: Seq<MappedFieldView>,
)
    ensures
        normal_field(resolve::mapped_field(field, lookup, level), false) == normal_field(
            field,
            false,
        ),
    decreases field,
{
    let children = mapping::children_at(level, lookup);
    let retyped = FieldView {
        data_type: resolve::mapped_type(field.data_type, children),
        ..field
    };
    lemma_only_ids_change_in_type(field.data_type, children);
    lemma_id_is_the_only_change(retyped, mapping::id_at(level, lookup));
    assert(normal_field(retyped, false) == normal_field(field, false));
}

proof fn lemma_only_ids_change_in_fields(fields: Seq<FieldView>, level: Seq<MappedFieldView>)
    ensures
        normal_fields(resolve::mapped_fields(fields, level), false) == normal_fields(
            fields,
            false,
        ),
    decreases fields,
{
    let mapped = resolve::mapped_fields(fields, level);
    assert forall|i: int| 0 <= i < fields.len() implies normal_field(
        #[trigger] mapped[i],
        false,
    ) == normal_field(fields[i], false) by {
        lemma_only_ids_change_in_field(fields[i], fields[i].name, level);
    }
    assert(normal_fields(mapped, false) =~= normal_fields(fields, false));
}

proof fn lemma_only_ids_change_in_type(data_type: DataTypeView, children: Seq<MappedFieldView>)
    ensures
        normal_type(resolve::mapped_type(data_type, children), false) == normal_type(
            data_type,
            false,
        ),
    decreases data_type,
{
    let mapped = resolve::mapped_type(data_type, children);
    match data_type {
        DataTypeView::List(element) => {
            lemma_only_ids_change_in_field(*element, keys::LIST_ELEMENT_NAME@, children);
        },
        DataTypeView::LargeList(element) => {
            lemma_only_ids_change_in_field(*element, keys::LIST_ELEMENT_NAME@, children);
        },
        DataTypeView::FixedSizeList(element, _) => {
            lemma_only_ids_change_in_field(*element, keys::LIST_ELEMENT_NAME@, children);
        },
        DataTypeView::MapOf(entries, sorted) => {
            if let DataTypeView::Struct(parts) = entries.data_type {
                if parts.len() == 2 {
                    let key = resolve::mapped_field(parts[0], keys::MAP_KEY_NAME@, children);
                    let value = resolve::mapped_field(parts[1], keys::MAP_VALUE_NAME@, children);
                    lemma_only_ids_change_in_field(parts[0], keys::MAP_KEY_NAME@, children);
                    lemma_only_ids_change_in_field(parts[1], keys::MAP_VALUE_NAME@, children);
                    assert(mapped == resolve::map_type(entries.name, key, value, sorted));
                    assert(map_parts(mapped) == seq![key, value]);
                }
            }
        },
        DataTypeView::Struct(fields) => {
            lemma_only_ids_change_in_fields(fields, children);
        },
        DataTypeView::Dictionary(_, values) => {
            lemma_only_ids_change_in_type(*values, children);
        },
        _ => {},
    }
}

/// Applying a mapping changes nothing but field ids: at every depth the fields keep their
/// order, names, nullability and types, and all other metadata, and the schema keeps its own
/// metadata. Dictionary-encoded types and the entries fields of maps are compared in their
/// normal form.
pub proof fn law_only_field_ids_change(schema: SchemaView, root: Seq<MappedFieldView>)
    ensures
        normal_fields(resolve::mapped_schema(schema, root).fields, false) == normal_fields(
            schema.fields,
            false,
        ),
        resolve::mapped_schema(schema, root).metadata == schema.metadata,
{
    lemma_only_ids_change_in_fields(schema.fields, root);
}

proof fn lemma_unmapped_fields(fields: Seq<FieldView>)
    ensures
        resolve::mapped_fields(fields, Seq::empty()) == normal_fields(fields, true),
    decreases fields,
{
    assert forall|i: int| 0 <= i < fields.len() implies resolve::mapped_field(
        #[trigger] fields[i],
        fields[i].name,
        Seq::empty(),
    ) == normal_field(fields[i], true) by {
        law_unlisted_field_stays(fields[i], fields[i].name, Seq::empty());
    }
    assert(resolve::mapped_fields(fields, Seq::empty()) =~= normal_fields(fields, true));
}

proof fn lemma_unmapped_type(data_type: DataTypeView)
    ensures
        resolve::mapped_type(data_type, Seq::empty()) == normal_type(data_type, true),
    decreases data_type,
{
    match data_type {
        DataTypeView::List(element) => {
            law_unlisted_field_stays(*element, keys::LIST_ELEMENT_NAME@, Seq::empty());
        },
        DataTypeView::LargeList(element) => {
            law_unlisted_field_stays(*element, keys::LIST_ELEMENT_NAME@, Seq::empty());
        },
        DataTypeView::FixedSizeList(element, _) => {
            law_unlisted_field_stays(*element, keys::LIST_ELEMENT_NAME@, Seq::empty());
        },
        DataTypeView::MapOf(entries, _) => {
            if let DataTypeView::Struct(parts) = entries.data_type {
                if parts.len() == 2 {
                    law_unlisted_field_stays(parts[0], keys::MAP_KEY_NAME@, Seq::empty());
                    law_unlisted_field_stays(parts[1], keys::MAP_VALUE_NAME@, Seq::empty());
                }
            }
        },
        DataTypeView::Struct(fields) => {
            lemma_unmapped_fields(fields);
        },
        DataTypeView::Dictionary(_, values) => {
            lemma_unmapped_type(*values);
        },
        _ => {},
    }
}

/// A field whose name its level does not list gets no id, and neither does anything inside it:
/// it comes out in normal form, its metadata untouched at every depth.
pub proof fn law_unlisted_field_stays(
    field: FieldView,
    lookup: Seq<char>,
    level: Seq<MappedFieldView>,
)
    requires
        mapping::find_mapped(level, lookup) is None,
    ensures
        resolve::mapped_field(field, lookup, level) == normal_field(field, true),
    decreases field,
{
    lemma_unmapped_type(field.data_type);
}

/// The field itself gets no id if its level does not list its name, or lists it without an id.
pub proof fn law_field_without_id_keeps_metadata(
    field: FieldView,
    lookup: Seq<char>,
    level: Seq<MappedFieldView>,
)
    requires
        mapping::id_at(level, lookup) is None,
    ensures
        resolve::mapped_field(field, lookup, level).metadata == field.metadata,
{
}

/// An empty mapping leaves all metadata of a schema as it is.
pub proof fn law_empty_mapping_adds_nothing(schema: SchemaView)
    ensures
        resolve::mapped_schema(schema, Seq::empty()) == (SchemaView {
            fields: normal_fields(schema.fields, true),
            ..schema
        }),
{
    lemma_unmapped_fields(schema.fields);
}

/// A field whose name is listed by an entry of its level, and by none before it, carries the id
/// of that entry: its metadata holds a text that reads back as the id. The field keeps its name.
pub proof fn law_listed_field_carries_id(
    field: FieldView,
    lookup: Seq<char>,
    level: Seq<MappedFieldView>,
    at: int,
    id: i32,
)
    requires
        0 <= at < level.len(),
        level[at].names.contains(lookup),
        forall|i: int| 0 <= i < at ==> !(#[trigger] level[i]).names.contains(lookup),
        level[at].field_id == Some(id),
    ensures
        ({
            let mapped = resolve::mapped_field(field, lookup, level);
            &&& mapped.name == field.name
            &&& mapped.metadata == field.metadata.insert(
                keys::field_id_key(),
                decimal::decimal(id as int),
            )
            &&& decimal::decimal_value(mapped.metadata[keys::field_id_key()]) == id
        }),
{
    mapping::law_first_entry_wins(level, lookup, at);
    decimal::law_decimal_reads_back(id as int);
}

/// A column of a schema is mapped as a field of the root level, under its own name, and stays
/// at its position.
pub proof fn law_columns_are_looked_up_at_the_root(
    schema: SchemaView,
    root: Seq<MappedFieldView>,
    column: int,
)
    requires
        0 <= column < schema.fields.len(),
    ensures
        resolve::mapped_schema(schema, root).fields.len() == schema.fields.len(),
        resolve::mapped_schema(schema, root).fields[column] == resolve::mapped_field(
            schema.fields[column],
            schema.fields[column].name,
            root,
        ),
{
}

/// All names of an entry are equal: a field is mapped in the same way under each of them that
/// no earlier entry of the level lists.
pub proof fn law_aliases_agree(
    field: FieldView,
    level: Seq<MappedFieldView>,
    at: int,
    one: Seq<char>,
    other: Seq<char>,
)
    requires
        0 <= at < level.len(),
        level[at].names.contains(one),
        level[at].names.contains(other),
        forall|i: int|
            0 <= i < at ==> !(#[trigger] level[i]).names.contains(one) && !level[i].names.contains(
                other,
            ),
    ensures
        mapping::id_at(level, one) == level[at].field_id,
        mapping::children_at(level, one) == level[at].fields,
        resolve::mapped_field(field, one, level) == resolve::mapped_field(field, other, level),
{
    mapping::law_first_entry_wins(level, one, at);
    mapping::law_first_entry_wins(level, other, at);
}

/// The fields of a struct are looked up, each under its own name, among the children of the
/// entry of the struct.
pub proof fn law_struct_fields_are_looked_up_below(
    field: FieldView,
    lookup: Seq<char>,
    level: Seq<MappedFieldView>,
    at: int,
)
    requires
        field.data_type is Struct,
        0 <= at < field.data_type->Struct_0.len(),
    ensures
        ({
            let inner = field.data_type->Struct_0[at];
            let mapped = resolve::mapped_field(field, lookup, level).data_type;
            &&& mapped is Struct
            &&& mapped->Struct_0.len() == field.data_type->Struct_0.len()
            &&& mapped->Struct_0[at] == resolve::mapped_field(
                inner,
                inner.name,
                mapping::children_at(level, lookup),
            )
        }),
{
    let children = mapping::children_at(level, lookup);
    let mapped = resolve::mapped_type(field.data_type, children);
    assert(resolve::mapped_field(field, lookup, level).data_type == mapped);
    assert(mapped == DataTypeView::Struct(
        resolve::mapped_fields(field.data_type->Struct_0, children),
    ));
}

/// The elements of a list are looked up as `element` among the children of the entry of the
/// list.
pub proof fn law_list_element_is_looked_up_below(
    field: FieldView,
    lookup: Seq<char>,
    level: Seq<MappedFieldView>,
)
    requires
        field.data_type.is_list(),
    ensures
        ({
            let mapped = resolve::mapped_field(field, lookup, level).data_type;
            &&& mapped.is_list()
            &&& list_element(mapped) == resolve::mapped_field(
                list_element(field.data_type),
                keys::LIST_ELEMENT_NAME@,
                mapping::children_at(level, lookup),
            )
        }),
{
    let children = mapping::children_at(level, lookup);
    let mapped = resolve::mapped_type(field.data_type, children);
    assert(resolve::mapped_field(field, lookup, level).data_type == mapped);
    assert(list_element(mapped) == resolve::mapped_field(
        list_element(field.data_type),
        keys::LIST_ELEMENT_NAME@,
        children,
    ));
}

/// The keys and values of a map are looked up as `key` and `value` among the children of the
/// entry of the map.
pub proof fn law_map_parts_are_looked_up_below(
    field: FieldView,
    lookup: Seq<char>,
    level: Seq<MappedFieldView>,
)
    requires
        field.data_type is MapOf,
        field.data_type->MapOf_0.data_type is Struct,
        map_parts(field.data_type).len() == 2,
    ensures
        ({
            let children = mapping::children_at(level, lookup);
            let parts = map_parts(field.data_type);
            let mapped = resolve::mapped_field(field, lookup, level).data_type;
            &&& mapped is MapOf
            &&& mapped->MapOf_0.data_type is Struct
            &&& map_parts(mapped) == seq![
                resolve::mapped_field(parts[0], keys::MAP_KEY_NAME@, children),
                resolve::mapped_field(parts[1], keys::MAP_VALUE_NAME@, children),
            ]
        }),
{
    let children = mapping::children_at(level, lookup);
    let parts = map_parts(field.data_type);
    let mapped = resolve::mapped_type(field.data_type, children);
    assert(resolve::mapped_field(field, lookup, level).data_type == mapped);
    assert(mapped == resolve::map_type(
        field.data_type->MapOf_0.name,
        resolve::mapped_field(parts[0], keys::MAP_KEY_NAME@, children),
        resolve::mapped_field(parts[1], keys::MAP_VALUE_NAME@, children),
        field.data_type->MapOf_1,
    ));
}

proof fn lemma_again_field(field: FieldView, lookup: Seq<char>, level: Seq<MappedFieldView>)
    ensures
        resolve::mapped_field(resolve::mapped_field(field, lookup, level), lookup, level)
            == resolve::mapped_field(field, lookup, level),
        resolve::mapped_field(field, lookup, level).name == field.name,
    decreases field,
{
    let children = mapping::children_at(level, lookup);
    let once = resolve::mapped_field(field, lookup, level);
    let twice = resolve::mapped_field(once, lookup, level);
    lemma_again_type(field.data_type, children);
    assert(once.data_type == resolve::mapped_type(field.data_type, children));
    assert(twice.data_type == resolve::mapped_type(once.data_type, children));
    assert(twice.metadata =~= once.metadata);
}

proof fn lemma_again_fields(fields: Seq<FieldView>, level: Seq<MappedFieldView>)
    ensures
        resolve::mapped_fields(resolve::mapped_fields(fields, level), level)
            == resolve::mapped_fields(fields, level),
    decreases fields,
{
    let once = resolve::mapped_fields(fields, level);
    assert forall|i: int| 0 <= i < fields.len() implies resolve::mapped_field(
        #[trigger] once[i],
        once[i].name,
        level,
    ) == once[i] by {
        lemma_again_field(fields[i], fields[i].name, level);
    }
    assert(resolve::mapped_fields(once, level) =~= once);
}

proof fn lemma_again_type(data_type: DataTypeView, children: Seq<MappedFieldView>)
    ensures
        resolve::mapped_type(resolve::mapped_type(data_type, children), children)
            == resolve::mapped_type(data_type, children),
    decreases data_type,
{
    let once = resolve::mapped_type(data_type, children);
    match data_type {
        DataTypeView::List(element) => {
            lemma_again_field(*element, keys::LIST_ELEMENT_NAME@, children);
        },
        DataTypeView::LargeList(element) => {
            lemma_again_field(*element, keys::LIST_ELEMENT_NAME@, children);
        },
        DataTypeView::FixedSizeList(element, _) => {
            lemma_again_field(*element, keys::LIST_ELEMENT_NAME@, children);
        },
        DataTypeView::MapOf(entries, sorted) => {
            if let DataTypeView::Struct(parts) = entries.data_type {
                if parts.len() == 2 {
                    let key = resolve::mapped_field(parts[0], keys::MAP_KEY_NAME@, children);
                    let value = resolve::mapped_field(parts[1], keys::MAP_VALUE_NAME@, children);
                    lemma_again_field(parts[0], keys::MAP_KEY_NAME@, children);
                    lemma_again_field(parts[1], keys::MAP_VALUE_NAME@, children);
                    assert(once == resolve::map_type(entries.name, key, value, sorted));
                    assert(map_parts(once) == seq![key, value]);
                }
            }
        },
        DataTypeView::Struct(fields) => {
            lemma_again_fields(fields, children);
        },
        DataTypeView::Dictionary(_, values) => {
            lemma_again_type(*values, children);
        },
        _ => {},
    }
}

proof fn lemma_mapped_type_is_visitable(data_type: DataTypeView, children: Seq<MappedFieldView>)
    requires
        resolve::type_error(data_type) is None,
    ensures
        resolve::type_error(resolve::mapped_type(data_type, children)) is None,
    decreases data_type,
{
    let mapped = resolve::mapped_type(data_type, children);
    match data_type {
        DataTypeView::List(element) => {
            lemma_mapped_field_is_visitable(*element, keys::LIST_ELEMENT_NAME@, children);
        },
        DataTypeView::LargeList(element) => {
            lemma_mapped_field_is_visitable(*element, keys::LIST_ELEMENT_NAME@, children);
        },
        DataTypeView::FixedSizeList(element, _) => {
            lemma_mapped_field_is_visitable(*element, keys::LIST_ELEMENT_NAME@, children);
        },
        DataTypeView::MapOf(entries, sorted) => {
            if let DataTypeView::Struct(parts) = entries.data_type {
                let key = resolve::mapped_field(parts[0], keys::MAP_KEY_NAME@, children);
                let value = resolve::mapped_field(parts[1], keys::MAP_VALUE_NAME@, children);
                lemma_mapped_field_is_visitable(parts[0], keys::MAP_KEY_NAME@, children);
                lemma_mapped_field_is_visitable(parts[1], keys::MAP_VALUE_NAME@, children);
                assert(mapped == resolve::map_type(entries.name, key, value, sorted));
                assert(map_parts(mapped) == seq![key, value]);
            }
        },
        DataTypeView::Struct(fields) => {
            lemma_mapped_fields_are_visitable(fields, children);
        },
        DataTypeView::Dictionary(_, values) => {
            lemma_mapped_type_is_visitable(*values, children);
        },
        _ => {},
    }
}

proof fn lemma_mapped_field_is_visitable(
    field: FieldView,
    lookup: Seq<char>,
    level: Seq<MappedFieldView>,
)
    requires
        resolve::type_error(field.data_type) is None,
    ensures
        resolve::type_error(resolve::mapped_field(field, lookup, level).data_type) is None,
    decreases field,
{
    let children = mapping::children_at(level, lookup);
    lemma_mapped_type_is_visitable(field.data_type, children);
    assert(resolve::mapped_field(field, lookup, level).data_type == resolve::mapped_type(
        field.data_type,
        children,
    ));
}

proof fn lemma_mapped_fields_are_visitable(fields: Seq<FieldView>, level: Seq<MappedFieldView>)
    requires
        resolve::fields_error(fields) is None,
    ensures
        resolve::fields_error(resolve::mapped_fields(fields, level)) is None,
    decreases fields,
{
    let mapped = resolve::mapped_fields(fields, level);
    if fields.len() > 0 {
        lemma_mapped_field_is_visitable(fields[0], fields[0].name, level);
        assert(mapped[0] == resolve::mapped_field(fields[0], fields[0].name, level));
        lemma_mapped_fields_are_visitable(fields.drop_first(), level);
        assert(mapped.drop_first() =~= resolve::mapped_fields(fields.drop_first(), level));
    }
}

/// A mapped schema can be mapped again, and the same mapping then changes nothing.
pub proof fn law_mapping_again_changes_nothing(schema: SchemaView, root: Seq<MappedFieldView>)
    requires
        resolve::fields_error(schema.fields) is None,
    ensures
        resolve::fields_error(resolve::mapped_schema(schema, root).fields) is None,
        resolve::mapped_schema(resolve::mapped_schema(schema, root), root)
            == resolve::mapped_schema(schema, root),
{
    lemma_mapped_fields_are_visitable(schema.fields, root);
    lemma_again_fields(schema.fields, root);
}

/// A row of fields is refused if and only if one of its fields is.
pub proof fn law_refused_iff_a_field_is(fields: Seq<FieldView>)
    ensures
        resolve::fields_error(fields) is Some <==> exists|i: int|
            0 <= i < fields.len() && resolve::type_error(
                (#[trigger] fields[i]).data_type,
            ) is Some,
    decreases fields.len(),
{
    if fields.len() > 0 {
        let rest = fields.drop_first();
        law_refused_iff_a_field_is(rest);
        if resolve::type_error(fields[0].data_type) is None {
            if resolve::fields_error(rest) is Some {
                let j = choose|j: int|
                    0 <= j < rest.len() && resolve::type_error(
                        (#[trigger] rest[j]).data_type,
                    ) is Some;
                assert(fields[j + 1] == rest[j]);
            } else {
                assert forall|i: int| 0 <= i < fields.len() implies resolve::type_error(
                    (#[trigger] fields[i]).data_type,
                ) is None by {
                    if i > 0 {
                        assert(rest[i - 1] == fields[i]);
                    }
                }
            }
        }
    }
}

/// The error of a row of fields is that of the first field that is refused.
pub proof fn law_first_refused_field_gives_the_error(fields: Seq<FieldView>, at: int)
    requires
        0 <= at < fields.len(),
        resolve::type_error(fields[at].data_type) is Some,
        forall|i: int|
            0 <= i < at ==> resolve::type_error((#[trigger] fields[i]).data_type) is None,
    ensures
        resolve::fields_error(fields) == resolve::type_error(fields[at].data_type),
    decreases fields.len(),
{
    if at > 0 {
        let rest = fields.drop_first();
        assert(resolve::type_error(fields[0].data_type) is None);
        assert forall|i: int| 0 <= i < at - 1 implies resolve::type_error(
            (#[trigger] rest[i]).data_type,
        ) is None by {
            assert(rest[i] == fields[i + 1]);
        }
        law_first_refused_field_gives_the_error(rest, at - 1);
    }
}

/// Leaving a field undoes entering it.
pub proof fn law_leaving_undoes_entering(
    view: VisitorView,
    field: FieldView,
    lookup_name: Seq<char>,
)
    ensures
        view.entered(field, lookup_name).left() == view,
{
    let inside = view.entered(field, lookup_name);
    assert(inside.infos.drop_last() =~= view.infos);
    assert(inside.mappings.drop_last() =~= view.mappings);
}

/// Completing a field with its mapped type, right after it was entered, gives the mapped field.
pub proof fn law_completing_gives_the_mapped_field(
    view: VisitorView,
    field: FieldView,
    lookup_name: Seq<char>,
)
    requires
        view.mappings.len() > 0,
    ensures
        ({
            let inside = view.entered(field, lookup_name);
            &&& inside.parent() == view.current()
            &&& inside.completed(resolve::mapped_type(field.data_type, inside.current()))
                == resolve::mapped_field(field, lookup_name, view.current())
        }),
{
}

/// An element, key or value that was visited keeps its id when the list or map around it is
/// completed: it is looked up in the same level both times.
pub proof fn law_visited_part_keeps_its_id(
    view: VisitorView,
    part: FieldView,
    lookup_name: Seq<char>,
)
    ensures
        ({
            let visited = resolve::mapped_field(part, lookup_name, view.current());
            view.part_identified(visited, lookup_name) == visited
        }),
{
    let visited = resolve::mapped_field(part, lookup_name, view.current());
    assert(view.part_identified(visited, lookup_name).metadata =~= visited.metadata);
}

/// A visitor that has entered one level more than fields, as a new one has, keeps to that: by
/// entering any field, and by leaving any field that was entered.
pub proof fn law_stacks_stay_in_step(view: VisitorView, field: FieldView, lookup_name: Seq<char>)
    requires
        view.mappings.len() == view.infos.len() + 1,
    ensures
        view.entered(field, lookup_name).mappings.len() == view.entered(
            field,
            lookup_name,
        ).infos.len() + 1,
        view.infos.len() > 0 ==> view.left().mappings.len() == view.left().infos.len() + 1,
{
}

} // verus!
