//! Name mappings: which field id belongs to which column name.

use std::sync::Arc;
use vstd::prelude::*;

verus! {

/// What a [`MappedField`] stands for.
pub struct MappedFieldView {
    pub field_id: Option<i32>,
    pub names: Seq<Seq<char>>,
    pub fields: Seq<MappedFieldView>,
}

/// One entry of a name mapping: the names of a field, the id that goes with them, and the
/// entries of its children.
#[derive(Debug)]
pub struct MappedField {
    pub field_id: Option<i32>,
    pub names: Vec<String>,
    pub fields: Vec<Arc<MappedField>>,
}

/// The texts of a row of strings.
pub open spec fn texts(names: Seq<String>) -> Seq<Seq<char>> {
    Seq::new(names.len(), |i: int| names[i]@)
}

/// What a level of entries stands for.
pub open spec fn level_view(level: Seq<Arc<MappedField>>) -> Seq<MappedFieldView>
    decreases level,
{
    Seq::new(
        level.len(),
        |i: int|
            if 0 <= i < level.len() {
                (*level[i]).model()
            } else {
                arbitrary()
            },
    )
}

/// What the root level of a mapping stands for.
pub open spec fn root_view(root: Seq<MappedField>) -> Seq<MappedFieldView> {
    Seq::new(root.len(), |i: int| root[i].model())
}

impl MappedField {
    pub open spec fn model(self) -> MappedFieldView
        decreases self,
    {
        MappedFieldView {
            field_id: self.field_id,
            names: texts(self.names@),
            fields: level_view(self.fields@),
        }
    }
}

impl View for MappedField {
    type V = MappedFieldView;

    open spec fn view(&self) -> MappedFieldView {
        self.model()
    }
}

/// The first entry of a level that lists `name` among its names.
pub open spec fn find_mapped(level: Seq<MappedFieldView>, name: Seq<char>) -> Option<
    MappedFieldView,
>
    decreases level.len(),
{
    if level.len() == 0 {
        None
    } else if level[0].names.contains(name) {
        Some(level[0])
    } else {
        find_mapped(level.drop_first(), name)
    }
}

/// The id that a level gives to `name`.
pub open spec fn id_at(level: Seq<MappedFieldView>, name: Seq<char>) -> Option<i32> {
    match find_mapped(level, name) {
        Some(entry) => entry.field_id,
        None => None,
    }
}

/// The entries that a level holds for the children of `name`.
pub open spec fn children_at(level: Seq<MappedFieldView>, name: Seq<char>) -> Seq<
    MappedFieldView,
> {
    match find_mapped(level, name) {
        Some(entry) => entry.fields,
        None => Seq::empty(),
    }
}

/// Of the entries that list a name, the first one is found: if entry `at` lists `name` and no
/// earlier one does, `at` is what is found.
pub proof fn law_first_entry_wins(level: Seq<MappedFieldView>, name: Seq<char>, at: int)
    requires
        0 <= at < level.len(),
        level[at].names.contains(name),
        forall|i: int| 0 <= i < at ==> !(#[trigger] level[i]).names.contains(name),
    ensures
        find_mapped(level, name) == Some(level[at]),
    decreases level.len(),
{
    if at > 0 {
        assert(!level[0].names.contains(name));
        let rest = level.drop_first();
        assert forall|i: int| 0 <= i < at - 1 implies !(#[trigger] rest[i]).names.contains(
            name,
        ) by {
            assert(!level[i + 1].names.contains(name));
        }
        assert(rest[at - 1] == level[at]);
        law_first_entry_wins(rest, name, at - 1);
    }
}

/// What is found lists the name, and no entry before it does.
pub proof fn law_found_entry_is_the_first(level: Seq<MappedFieldView>, name: Seq<char>)
    requires
        find_mapped(level, name) is Some,
    ensures
        exists|at: int|
            {
                &&& 0 <= at < level.len()
                &&& find_mapped(level, name) == Some(#[trigger] level[at])
                &&& level[at].names.contains(name)
                &&& forall|i: int| 0 <= i < at ==> !(#[trigger] level[i]).names.contains(name)
            },
    decreases level.len(),
{
    if level[0].names.contains(name) {
        assert(find_mapped(level, name) == Some(level[0]));
    } else {
        let rest = level.drop_first();
        law_found_entry_is_the_first(rest, name);
        let j = choose|j: int|
            {
                &&& 0 <= j < rest.len()
                &&& find_mapped(rest, name) == Some(#[trigger] rest[j])
                &&& rest[j].names.contains(name)
                &&& forall|i: int| 0 <= i < j ==> !(#[trigger] rest[i]).names.contains(name)
            };
        assert(level[j + 1] == rest[j]);
        assert forall|i: int| 0 <= i < j + 1 implies !(#[trigger] level[i]).names.contains(
            name,
        ) by {
            if i > 0 {
                assert(rest[i - 1] == level[i]);
            }
        }
    }
}

/// A name that no entry of a level lists is not found there, and only such a name.
pub proof fn law_unlisted_name_is_not_found(level: Seq<MappedFieldView>, name: Seq<char>)
    ensures
        find_mapped(level, name) is None <==> forall|i: int|
            0 <= i < level.len() ==> !(#[trigger] level[i]).names.contains(name),
    decreases level.len(),
{
    if level.len() > 0 {
        let rest = level.drop_first();
        law_unlisted_name_is_not_found(rest, name);
        if find_mapped(level, name) is None {
            assert forall|i: int| 0 <= i < level.len() implies !(
            #[trigger] level[i]).names.contains(name) by {
                if i > 0 {
                    assert(level[i] == rest[i - 1]);
                }
            }
        } else if level[0].names.contains(name) {
        } else {
            let j = choose|j: int| 0 <= j < rest.len() && (#[trigger] rest[j]).names.contains(name);
            assert(level[j + 1] == rest[j]);
        }
    }
}

/// The first entry that lists a name gives the name its id and its children.
pub proof fn law_listed_name_has_the_id_and_children_of_its_entry(
    level: Seq<MappedFieldView>,
    name: Seq<char>,
    at: int,
)
    requires
        0 <= at < level.len(),
        level[at].names.contains(name),
        forall|i: int| 0 <= i < at ==> !(#[trigger] level[i]).names.contains(name),
    ensures
        id_at(level, name) == level[at].field_id,
        children_at(level, name) == level[at].fields,
{
    law_first_entry_wins(level, name, at);
}

/// A name that no entry lists has no id and no children.
pub proof fn law_unlisted_name_has_no_id_and_no_children(
    level: Seq<MappedFieldView>,
    name: Seq<char>,
)
    requires
        forall|i: int| 0 <= i < level.len() ==> !(#[trigger] level[i]).names.contains(name),
    ensures
        id_at(level, name) is None,
        children_at(level, name).len() == 0,
{
    law_unlisted_name_is_not_found(level, name);
}

impl MappedField {
    /// An entry with the given id, names and children.
    pub fn new(field_id: Option<i32>, names: Vec<String>, fields: Vec<MappedField>) -> (result:
        Self)
        ensures
            result@ == (MappedFieldView {
                field_id,
                names: texts(names@),
                fields: root_view(fields@),
            }),
    {
        let mut children: Vec<Arc<MappedField>> = Vec::new();
        for field in it: fields
            invariant
                it.seq() == fields@,
                children@.len() == it.index(),
                forall|i: int| 0 <= i < it.index() ==> *(#[trigger] children@[i]) == fields@[i],
        {
            children.push(Arc::new(field));
        }
        let result = MappedField { field_id, names, fields: children };
        proof {
            assert(level_view(children@) =~= root_view(fields@));
        }
        result
    }

    /// The id that goes with the names, if there is one.
    pub fn field_id(&self) -> (result: Option<i32>)
        ensures
            result == self@.field_id,
    {
        self.field_id
    }

    /// The names under which the field may occur.
    pub fn names(&self) -> (result: &[String])
        ensures
            texts(result@) == self@.names,
    {
        self.names.as_slice()
    }

    /// The entries of the field's children.
    pub fn fields(&self) -> (result: &[Arc<MappedField>])
        ensures
            level_view(result@) == self@.fields,
    {
        self.fields.as_slice()
    }

    /// Whether `name` is one of the field's names.
    pub(crate) fn has_name(&self, name: &str) -> (result: bool)
        ensures
            result == self@.names.contains(name@),
    {
        let wanted = name.to_string();
        let mut i: usize = 0;
        while i < self.names.len()
            invariant
                i <= self.names@.len(),
                wanted@ == name@,
                forall|j: int| 0 <= j < i ==> #[trigger] self@.names[j] != name@,
            decreases self.names@.len() - i,
        {
            if self.names[i] == wanted {
                proof {
                    assert(self@.names[i as int] == name@);
                }
                return true;
            }
            i = i + 1;
        }
        false
    }
}

impl Clone for MappedField {
    fn clone(&self) -> (result: Self)
        ensures
            result@ == self@,
    {
        let mut fields: Vec<Arc<MappedField>> = Vec::new();
        let mut i: usize = 0;
        while i < self.fields.len()
            invariant
                i <= self.fields@.len(),
                fields@ == self.fields@.take(i as int),
            decreases self.fields@.len() - i,
        {
            fields.push(self.fields[i].clone());
            i = i + 1;
            proof {
                assert(fields@ =~= self.fields@.take(i as int));
            }
        }
        proof {
            assert(fields@ =~= self.fields@);
        }
        MappedField { field_id: self.field_id, names: self.names.clone(), fields }
    }
}

/// A name mapping: the entries of the root level.
#[derive(Debug)]
pub struct NameMapping {
    pub root: Vec<MappedField>,
}

impl View for NameMapping {
    type V = Seq<MappedFieldView>;

    open spec fn view(&self) -> Seq<MappedFieldView> {
        root_view(self.root@)
    }
}

impl NameMapping {
    /// A mapping with the given root level.
    pub fn new(fields: Vec<MappedField>) -> (result: Self)
        ensures
            result@ == root_view(fields@),
    {
        NameMapping { root: fields }
    }

    /// The entries of the root level.
    pub fn fields(&self) -> (result: &[MappedField])
        ensures
            root_view(result@) == self@,
    {
        self.root.as_slice()
    }
}

} // verus!
