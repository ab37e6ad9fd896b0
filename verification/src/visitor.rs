//! The visitor that puts field ids into the fields of a schema.

use std::sync::Arc;
use vstd::prelude::*;

use crate::decimal;
use crate::keys;
use crate::mapping;
use crate::mapping::{MappedField, MappedFieldView, NameMapping};
use crate::metadata::Metadata;
use crate::resolve;
use crate::resolve::Error;
use crate::schema;
use crate::schema::{DataType, DataTypeView, Field, FieldView, Schema, SchemaView};

verus! {

/// What a [`FieldInfo`] stands for.
pub struct FieldInfoView {
    pub name: Seq<char>,
    pub nullable: bool,
    pub metadata: Map<Seq<char>, Seq<char>>,
    pub lookup_name: Seq<char>,
}

/// What is remembered of a field while its type is visited.
#[derive(Debug)]
pub struct FieldInfo {
    pub name: String,
    pub nullable: bool,
    pub metadata: Metadata,
    /// The name under which the field is looked up. It differs from `name` for the elements of
    /// lists and the keys and values of maps.
    pub lookup_name: String,
}

impl View for FieldInfo {
    type V = FieldInfoView;

    open spec fn view(&self) -> FieldInfoView {
        FieldInfoView {
            name: self.name@,
            nullable: self.nullable,
            metadata: self.metadata@,
            lookup_name: self.lookup_name@,
        }
    }
}

/// What is remembered of `field` when it is looked up as `lookup_name`.
pub open spec fn info_of(field: FieldView, lookup_name: Seq<char>) -> FieldInfoView {
    FieldInfoView {
        name: field.name,
        nullable: field.nullable,
        metadata: field.metadata,
        lookup_name,
    }
}

impl FieldInfo {
    /// Remembers `field`, to be looked up as `lookup_name`.
    pub fn new(field: &Field, lookup_name: &str) -> (result: Self)
        ensures
            result@ == info_of(field@, lookup_name@),
    {
        FieldInfo {
            name: field.name().clone(),
            nullable: field.is_nullable(),
            metadata: field.metadata().clone(),
            lookup_name: lookup_name.to_string(),
        }
    }
}

/// What an [`ApplyNameMappingVisitor`] stands for.
pub struct VisitorView {
    /// The levels of the mapping that were entered, the innermost one last.
    pub mappings: Seq<Seq<MappedFieldView>>,
    /// The fields that were entered, the innermost one last.
    pub infos: Seq<FieldInfoView>,
}

impl VisitorView {
    /// The innermost level.
    pub open spec fn current(self) -> Seq<MappedFieldView> {
        if self.mappings.len() > 0 {
            self.mappings.last()
        } else {
            Seq::empty()
        }
    }

    /// The level around the innermost one; the innermost one itself if it is the only one.
    pub open spec fn parent(self) -> Seq<MappedFieldView> {
        if self.mappings.len() >= 2 {
            self.mappings[self.mappings.len() - 2]
        } else {
            self.current()
        }
    }

    /// After a level was entered.
    pub open spec fn with_level(self, level: Seq<MappedFieldView>) -> VisitorView {
        VisitorView { mappings: self.mappings.push(level), ..self }
    }

    /// After the innermost level was left.
    pub open spec fn without_level(self) -> VisitorView {
        if self.mappings.len() > 0 {
            VisitorView { mappings: self.mappings.drop_last(), ..self }
        } else {
            self
        }
    }

    /// After `field` was entered under the name `lookup_name`: it is remembered, and the level
    /// of its children is the innermost one.
    pub open spec fn entered(self, field: FieldView, lookup_name: Seq<char>) -> VisitorView {
        VisitorView {
            infos: self.infos.push(info_of(field, lookup_name)),
            ..self
        }.with_level(mapping::children_at(self.current(), lookup_name))
    }

    /// After the innermost field was left.
    pub open spec fn left(self) -> VisitorView {
        if self.infos.len() > 0 {
            VisitorView { infos: self.infos.drop_last(), ..self }.without_level()
        } else {
            self.without_level()
        }
    }

    /// The innermost field, rebuilt with the given type and the id that it is mapped to.
    pub open spec fn completed(self, data_type: DataTypeView) -> FieldView {
        let info = self.infos.last();
        resolve::with_field_id(
            FieldView {
                name: info.name,
                data_type,
                nullable: info.nullable,
                metadata: info.metadata,
            },
            mapping::id_at(self.parent(), info.lookup_name),
        )
    }

    /// `field` with the id that the level around the innermost one gives to `lookup_name`.
    pub open spec fn identified(self, field: FieldView, lookup_name: Seq<char>) -> FieldView {
        resolve::with_field_id(field, mapping::id_at(self.parent(), lookup_name))
    }

    /// `part`, an element, key or value of the innermost field, with the id that the level of
    /// that field's children gives to `lookup_name`.
    pub open spec fn part_identified(self, part: FieldView, lookup_name: Seq<char>) -> FieldView {
        resolve::with_field_id(part, mapping::id_at(self.current(), lookup_name))
    }
}

/// The list type `list` with another element field.
pub open spec fn list_with_element(list: DataTypeView, element: FieldView) -> DataTypeView {
    match list {
        DataTypeView::List(_) => DataTypeView::List(Box::new(element)),
        DataTypeView::LargeList(_) => DataTypeView::LargeList(Box::new(element)),
        DataTypeView::FixedSizeList(_, size) => DataTypeView::FixedSizeList(
            Box::new(element),
            size,
        ),
        _ => list,
    }
}

/// The levels that a stack of slices stands for.
spec fn levels_view(levels: Seq<&[Arc<MappedField>]>) -> Seq<Seq<MappedFieldView>> {
    Seq::new(levels.len(), |i: int| mapping::level_view(levels[i]@))
}

/// The infos that a stack of remembered fields stands for.
spec fn infos_view(infos: Seq<FieldInfo>) -> Seq<FieldInfoView> {
    Seq::new(infos.len(), |i: int| infos[i]@)
}

/// The first entry of `level` that lists `name`.
fn find_in_level<'a>(level: &'a [Arc<MappedField>], name: &str) -> (result: Option<
    &'a Arc<MappedField>,
>)
    ensures
        match result {
            Some(entry) => mapping::find_mapped(mapping::level_view(level@), name@) == Some(
                entry@,
            ),
            None => mapping::find_mapped(mapping::level_view(level@), name@) is None,
        },
{
    let ghost entries = mapping::level_view(level@);
    let mut i: usize = 0;
    while i < level.len()
        invariant
            i <= level@.len(),
            entries == mapping::level_view(level@),
            forall|j: int| 0 <= j < i ==> !(#[trigger] entries[j]).names.contains(name@),
        decreases level@.len() - i,
    {
        if level[i].has_name(name) {
            proof {
                mapping::law_first_entry_wins(entries, name@, i as int);
            }
            return Some(&level[i]);
        }
        i = i + 1;
    }
    proof {
        mapping::law_unlisted_name_is_not_found(entries, name@);
    }
    None
}

/// Puts the id that `level` gives to `name` into the metadata of `field`.
fn identify(field: Field, level: &[Arc<MappedField>], name: &str) -> (result: Field)
    ensures
        result@ == resolve::with_field_id(
            field@,
            mapping::id_at(mapping::level_view(level@), name@),
        ),
{
    if let Some(entry) = find_in_level(level, name) {
        if let Some(field_id) = entry.field_id() {
            let mut metadata = field.metadata().clone();
            metadata.insert(keys::field_id_meta_key(), decimal::decimal_text(field_id));
            return Field::new(
                field.name().as_str(),
                field.data_type().clone(),
                field.is_nullable(),
            ).with_metadata(metadata);
        }
    }
    field
}

/// Visitor that applies a name mapping to the fields of a schema.
///
/// It keeps two stacks: the levels of the mapping that lead to where the visit stands, and the
/// fields whose types are being visited. The elements of lists and the keys and values of maps
/// are looked up under fixed names, all other fields under their own.
pub struct ApplyNameMappingVisitor<'a> {
    mapping_stack: Vec<&'a [Arc<MappedField>]>,
    field_info_stack: Vec<FieldInfo>,
}

impl<'a> View for ApplyNameMappingVisitor<'a> {
    type V = VisitorView;

    closed spec fn view(&self) -> VisitorView {
        VisitorView {
            mappings: levels_view(self.mapping_stack@),
            infos: infos_view(self.field_info_stack@),
        }
    }
}

impl<'a> ApplyNameMappingVisitor<'a> {
    /// A visitor at the root of a mapping.
    pub fn new(root_fields: &'a [Arc<MappedField>]) -> (result: Self)
        ensures
            result@ == (VisitorView {
                mappings: seq![mapping::level_view(root_fields@)],
                infos: Seq::empty(),
            }),
    {
        let mut mapping_stack: Vec<&'a [Arc<MappedField>]> = Vec::new();
        mapping_stack.push(root_fields);
        let result = ApplyNameMappingVisitor { mapping_stack, field_info_stack: Vec::new() };
        proof {
            assert(result@.mappings =~= seq![mapping::level_view(root_fields@)]);
            assert(result@.infos =~= Seq::empty());
        }
        result
    }

    /// The innermost level of the mapping.
    pub fn current_mapping(&self) -> (result: &'a [Arc<MappedField>])
        ensures
            mapping::level_view(result@) == self@.current(),
    {
        let depth: usize = self.mapping_stack.len();
        if depth > 0 {
            self.mapping_stack[depth - 1]
        } else {
            let none: &'a [Arc<MappedField>] = &[];
            proof {
                assert(mapping::level_view(none@) =~= Seq::empty());
            }
            none
        }
    }

    /// The first entry of the innermost level that lists `name`.
    pub fn find_in_current(&self, name: &str) -> (result: Option<&'a Arc<MappedField>>)
        ensures
            match result {
                Some(entry) => mapping::find_mapped(self@.current(), name@) == Some(entry@),
                None => mapping::find_mapped(self@.current(), name@) is None,
            },
    {
        find_in_level(self.current_mapping(), name)
    }

    /// Enters the level of the children of `mapped_field`, an empty one if there is no such
    /// entry.
    pub fn push_mapping_context(&mut self, mapped_field: Option<&'a Arc<MappedField>>)
        ensures
            final(self)@ == old(self)@.with_level(
                match mapped_field {
                    Some(entry) => entry@.fields,
                    None => Seq::empty(),
                },
            ),
    {
        let children: &'a [Arc<MappedField>] = match mapped_field {
            Some(entry) => entry.fields(),
            None => &[],
        };
        self.mapping_stack.push(children);
        proof {
            if mapped_field is None {
                assert(mapping::level_view(children@) =~= Seq::empty());
            }
            assert(self@.mappings =~= old(self)@.mappings.push(mapping::level_view(children@)));
        }
    }

    /// Leaves the innermost level.
    pub fn pop_mapping_context(&mut self)
        ensures
            final(self)@ == old(self)@.without_level(),
    {
        self.mapping_stack.pop();
        proof {
            assert(self@.mappings =~= old(self)@.without_level().mappings);
        }
    }

    /// Enters `field` under the name `lookup_name`.
    pub fn push_field_context(&mut self, field: &Field, lookup_name: &str)
        ensures
            final(self)@ == old(self)@.entered(field@, lookup_name@),
    {
        self.field_info_stack.push(FieldInfo::new(field, lookup_name));
        proof {
            assert(self@.infos =~= old(self)@.infos.push(info_of(field@, lookup_name@)));
        }
        let mapped = self.find_in_current(lookup_name);
        self.push_mapping_context(mapped);
    }

    /// Leaves the innermost field.
    pub fn pop_field_context(&mut self)
        ensures
            final(self)@ == old(self)@.left(),
    {
        self.field_info_stack.pop();
        proof {
            assert(self@.infos =~= old(self)@.left().infos);
        }
        self.pop_mapping_context();
    }

    /// The innermost field, if one was entered.
    pub fn current_field_info(&self) -> (result: Option<&FieldInfo>)
        ensures
            match result {
                Some(info) => self@.infos.len() > 0 && info@ == self@.infos.last(),
                None => self@.infos.len() == 0,
            },
    {
        let depth: usize = self.field_info_stack.len();
        if depth > 0 {
            Some(&self.field_info_stack[depth - 1])
        } else {
            None
        }
    }

    /// Puts the id that `lookup_name` is mapped to into the metadata of `field`.
    ///
    /// The name is looked up in the level around the innermost one, where the field that is
    /// being completed was found.
    pub fn apply_field_id(&self, field: Field, lookup_name: &str) -> (result: Field)
        ensures
            result@ == self@.identified(field@, lookup_name@),
    {
        let depth: usize = self.mapping_stack.len();
        let parent_mapping: &'a [Arc<MappedField>] = if depth >= 2 {
            self.mapping_stack[depth - 2]
        } else {
            self.current_mapping()
        };
        identify(field, parent_mapping, lookup_name)
    }

    /// Enters a field of a schema or of a struct.
    pub fn before_field(&mut self, field: &Field) -> (result: Result<(), Error>)
        ensures
            result is Ok,
            final(self)@ == old(self)@.entered(field@, field@.name),
    {
        self.push_field_context(field, field.name().as_str());
        Ok(())
    }

    /// Leaves a field of a schema or of a struct.
    pub fn after_field(&mut self, _field: &Field) -> (result: Result<(), Error>)
        ensures
            result is Ok,
            final(self)@ == old(self)@.left(),
    {
        self.pop_field_context();
        Ok(())
    }

    /// Enters the element field of a list.
    pub fn before_list_element(&mut self, field: &Field) -> (result: Result<(), Error>)
        ensures
            result is Ok,
            final(self)@ == old(self)@.entered(field@, keys::LIST_ELEMENT_NAME@),
    {
        self.push_field_context(field, keys::LIST_ELEMENT_NAME);
        Ok(())
    }

    /// Leaves the element field of a list.
    pub fn after_list_element(&mut self, _field: &Field) -> (result: Result<(), Error>)
        ensures
            result is Ok,
            final(self)@ == old(self)@.left(),
    {
        self.pop_field_context();
        Ok(())
    }

    /// Enters the key field of a map.
    pub fn before_map_key(&mut self, field: &Field) -> (result: Result<(), Error>)
        ensures
            result is Ok,
            final(self)@ == old(self)@.entered(field@, keys::MAP_KEY_NAME@),
    {
        self.push_field_context(field, keys::MAP_KEY_NAME);
        Ok(())
    }

    /// Leaves the key field of a map.
    pub fn after_map_key(&mut self, _field: &Field) -> (result: Result<(), Error>)
        ensures
            result is Ok,
            final(self)@ == old(self)@.left(),
    {
        self.pop_field_context();
        Ok(())
    }

    /// Enters the value field of a map.
    pub fn before_map_value(&mut self, field: &Field) -> (result: Result<(), Error>)
        ensures
            result is Ok,
            final(self)@ == old(self)@.entered(field@, keys::MAP_VALUE_NAME@),
    {
        self.push_field_context(field, keys::MAP_VALUE_NAME);
        Ok(())
    }

    /// Leaves the value field of a map.
    pub fn after_map_value(&mut self, _field: &Field) -> (result: Result<(), Error>)
        ensures
            result is Ok,
            final(self)@ == old(self)@.left(),
    {
        self.pop_field_context();
        Ok(())
    }

    /// The schema with the given fields and the metadata of `schema`.
    pub fn schema(&mut self, schema: &Schema, values: Vec<Field>) -> (result: Result<
        Schema,
        Error,
    >)
        ensures
            result matches Ok(mapped) && mapped@ == (SchemaView {
                fields: schema::fields_view(values@),
                metadata: schema@.metadata,
            }),
            final(self)@ == old(self)@,
    {
        Ok(Schema::new_with_metadata(values, schema.metadata().clone()))
    }

    /// Completes the innermost field as a struct of the fields in `results`.
    pub fn struct_(&mut self, _fields: &Vec<Field>, results: Vec<Field>) -> (result: Result<
        Field,
        Error,
    >)
        requires
            old(self)@.infos.len() > 0,
        ensures
            result matches Ok(field) && field@ == old(self)@.completed(
                DataTypeView::Struct(schema::fields_view(results@)),
            ),
            result matches Ok(field) && {
                &&& field@.name == old(self)@.infos.last().name
                &&& field@.nullable == old(self)@.infos.last().nullable
                &&& field@.data_type is Struct
                &&& field@.data_type->Struct_0.len() == results@.len()
                &&& forall|i: int|
                    0 <= i < results@.len() ==> #[trigger] field@.data_type->Struct_0[i]
                        == results@[i]@
            },
            final(self)@ == old(self)@,
    {
        let info = self.current_field_info().unwrap();
        let struct_type = DataType::Struct(Arc::new(results));
        let field = Field::new(info.name.as_str(), struct_type, info.nullable).with_metadata(
            info.metadata.clone(),
        );
        Ok(self.apply_field_id(field, info.lookup_name.as_str()))
    }

    /// Completes the innermost field as a list of the layout of `list`, with `value` as its
    /// element field. The element is looked up among the children of the list.
    pub fn list(&mut self, list: &DataType, value: Field) -> (result: Result<Field, Error>)
        requires
            old(self)@.infos.len() > 0,
            list@.is_list(),
        ensures
            result matches Ok(field) && field@ == old(self)@.completed(
                list_with_element(
                    list@,
                    old(self)@.part_identified(value@, keys::LIST_ELEMENT_NAME@),
                ),
            ),
            result matches Ok(field) && {
                &&& field@.name == old(self)@.infos.last().name
                &&& field@.nullable == old(self)@.infos.last().nullable
                &&& list@ is List ==> field@.data_type is List
                    && field@.data_type->List_0.name == value@.name
                &&& list@ is LargeList ==> field@.data_type is LargeList
                    && field@.data_type->LargeList_0.name == value@.name
                &&& list@ is FixedSizeList ==> field@.data_type is FixedSizeList
                    && field@.data_type->FixedSizeList_0.name == value@.name
                    && field@.data_type->FixedSizeList_1 == list@->FixedSizeList_1
            },
            final(self)@ == old(self)@,
    {
        let info = self.current_field_info().unwrap();
        let element_with_id = Arc::new(
            identify(value, self.current_mapping(), keys::LIST_ELEMENT_NAME),
        );
        let list_type = match list {
            DataType::List(_) => DataType::List(element_with_id),
            DataType::LargeList(_) => DataType::LargeList(element_with_id),
            DataType::FixedSizeList(_, size) => DataType::FixedSizeList(element_with_id, *size),
            _ => unreached(),
        };
        let field = Field::new(info.name.as_str(), list_type, info.nullable).with_metadata(
            info.metadata.clone(),
        );
        Ok(self.apply_field_id(field, info.lookup_name.as_str()))
    }

    /// Completes the innermost field as a map with the given key and value fields. The entries
    /// field has the name that it has in `map`. Key and value are looked up among the children
    /// of the map.
    pub fn map(&mut self, map: &DataType, key_value: Field, value: Field) -> (result: Result<
        Field,
        Error,
    >)
        requires
            old(self)@.infos.len() > 0,
            map@ is MapOf,
        ensures
            result matches Ok(field) && field@ == old(self)@.completed(
                resolve::map_type(
                    map@->MapOf_0.name,
                    old(self)@.part_identified(key_value@, keys::MAP_KEY_NAME@),
                    old(self)@.part_identified(value@, keys::MAP_VALUE_NAME@),
                    map@->MapOf_1,
                ),
            ),
            result matches Ok(field) && {
                &&& field@.name == old(self)@.infos.last().name
                &&& field@.nullable == old(self)@.infos.last().nullable
                &&& field@.data_type is MapOf
                &&& field@.data_type->MapOf_1 == map@->MapOf_1
                &&& field@.data_type->MapOf_0.name == map@->MapOf_0.name
                &&& !field@.data_type->MapOf_0.nullable
                &&& field@.data_type->MapOf_0.metadata == Map::<Seq<char>, Seq<char>>::empty()
                &&& field@.data_type->MapOf_0.data_type is Struct
                &&& field@.data_type->MapOf_0.data_type->Struct_0.len() == 2
                &&& field@.data_type->MapOf_0.data_type->Struct_0[0].name == key_value@.name
                &&& field@.data_type->MapOf_0.data_type->Struct_0[1].name == value@.name
            },
            final(self)@ == old(self)@,
    {
        let info = self.current_field_info().unwrap();
        let key_with_id = identify(key_value, self.current_mapping(), keys::MAP_KEY_NAME);
        let value_with_id = identify(value, self.current_mapping(), keys::MAP_VALUE_NAME);
        let ghost parts = seq![key_with_id@, value_with_id@];
        let (sorted, entries_name): (bool, String) = match map {
            DataType::MapOf(entries, sorted) => (*sorted, entries.name().clone()),
            _ => unreached(),
        };
        let mut key_and_value: Vec<Field> = Vec::new();
        key_and_value.push(key_with_id);
        key_and_value.push(value_with_id);
        proof {
            assert(schema::fields_view(key_and_value@) =~= parts);
        }
        let entries_field = Field::new(
            entries_name.as_str(),
            DataType::Struct(Arc::new(key_and_value)),
            false,
        );
        let map_type = DataType::MapOf(Arc::new(entries_field), sorted);
        let field = Field::new(info.name.as_str(), map_type, info.nullable).with_metadata(
            info.metadata.clone(),
        );
        Ok(self.apply_field_id(field, info.lookup_name.as_str()))
    }

    /// Completes the innermost field with the type `p`.
    pub fn primitive(&mut self, p: &DataType) -> (result: Result<Field, Error>)
        requires
            old(self)@.infos.len() > 0,
        ensures
            result matches Ok(field) && field@ == old(self)@.completed(p@),
            result matches Ok(field) && {
                &&& field@.name == old(self)@.infos.last().name
                &&& field@.nullable == old(self)@.infos.last().nullable
                &&& field@.data_type == p@
            },
            final(self)@ == old(self)@,
    {
        let info = self.current_field_info().unwrap();
        let field = Field::new(info.name.as_str(), p.clone(), info.nullable).with_metadata(
            info.metadata.clone(),
        );
        Ok(self.apply_field_id(field, info.lookup_name.as_str()))
    }
}

/// Holds the root level of a mapping in the form of all its other levels.
pub struct RootMappingAdapter {
    root_fields: Vec<Arc<MappedField>>,
}

impl View for RootMappingAdapter {
    type V = Seq<MappedFieldView>;

    closed spec fn view(&self) -> Seq<MappedFieldView> {
        mapping::level_view(self.root_fields@)
    }
}

impl RootMappingAdapter {
    /// Copies the root level of `name_mapping`.
    pub fn new(name_mapping: &NameMapping) -> (result: Self)
        ensures
            result@ == name_mapping@,
    {
        let fields = name_mapping.fields();
        let mut root_fields: Vec<Arc<MappedField>> = Vec::new();
        let mut i: usize = 0;
        while i < fields.len()
            invariant
                i <= fields@.len(),
                root_fields@.len() == i,
                forall|j: int|
                    0 <= j < i ==> (*(#[trigger] root_fields@[j])).model() == fields@[j].model(),
            decreases fields@.len() - i,
        {
            root_fields.push(Arc::new(fields[i].clone()));
            i = i + 1;
        }
        proof {
            assert(mapping::level_view(root_fields@) =~= mapping::root_view(fields@));
        }
        RootMappingAdapter { root_fields }
    }

    /// The root level.
    pub fn fields(&self) -> (result: &[Arc<MappedField>])
        ensures
            mapping::level_view(result@) == self@,
    {
        self.root_fields.as_slice()
    }
}

} // verus!
