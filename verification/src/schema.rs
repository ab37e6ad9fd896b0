//! Schemas: data types, fields and their metadata.

use std::sync::Arc;
use vstd::prelude::*;

use crate::metadata::Metadata;

verus! {

/// The unit of a time, a timestamp or a duration.
#[derive(Debug, Clone, Copy, PartialEq, Eq, Structural)]
pub enum TimeUnit {
    Second,
    Millisecond,
    Microsecond,
    Nanosecond,
}

/// The unit of a calendar interval.
#[derive(Debug, Clone, Copy, PartialEq, Eq, Structural)]
pub enum IntervalUnit {
    YearMonth,
    DayTime,
    MonthDayNano,
}

/// How the members of a union are laid out.
#[derive(Debug, Clone, Copy, PartialEq, Eq, Structural)]
pub enum UnionMode {
    Sparse,
    Dense,
}

/// The type of the values of a field.
#[derive(Debug)]
pub enum DataType {
    Null,
    Boolean,
    Int8,
    Int16,
    Int32,
    Int64,
    UInt8,
    UInt16,
    UInt32,
    UInt64,
    Float16,
    Float32,
    Float64,
    Timestamp(TimeUnit, Option<String>),
    Date32,
    Date64,
    Time32(TimeUnit),
    Time64(TimeUnit),
    Duration(TimeUnit),
    Interval(IntervalUnit),
    Binary,
    FixedSizeBinary(i32),
    LargeBinary,
    BinaryView,
    Utf8,
    LargeUtf8,
    Utf8View,
    List(Arc<Field>),
    ListView(Arc<Field>),
    FixedSizeList(Arc<Field>, i32),
    LargeList(Arc<Field>),
    LargeListView(Arc<Field>),
    /// A struct with the given fields.
    Struct(Arc<Vec<Field>>),
    /// A union: its members with their type ids.
    Union(Arc<Vec<(i8, Field)>>, UnionMode),
    /// Dictionary-encoded values: the type of the keys and that of the values.
    Dictionary(Arc<DataType>, Arc<DataType>),
    Decimal32(u8, i8),
    Decimal64(u8, i8),
    Decimal128(u8, i8),
    Decimal256(u8, i8),
    /// A map: the field of its entries, which holds a struct of key and value, and whether the
    /// keys are sorted.
    MapOf(Arc<Field>, bool),
    RunEndEncoded(Arc<Field>, Arc<Field>),
}

/// A named column, or a part of a nested one.
#[derive(Debug)]
pub struct Field {
    pub name: String,
    pub data_type: DataType,
    pub nullable: bool,
    pub metadata: Metadata,
}

/// The fields of a table, with the table's own metadata.
#[derive(Debug)]
pub struct Schema {
    pub fields: Vec<Field>,
    pub metadata: Metadata,
}

/// What a [`DataType`] stands for.
pub enum DataTypeView {
    Null,
    Boolean,
    Int8,
    Int16,
    Int32,
    Int64,
    UInt8,
    UInt16,
    UInt32,
    UInt64,
    Float16,
    Float32,
    Float64,
    Timestamp(TimeUnit, Option<Seq<char>>),
    Date32,
    Date64,
    Time32(TimeUnit),
    Time64(TimeUnit),
    Duration(TimeUnit),
    Interval(IntervalUnit),
    Binary,
    FixedSizeBinary(i32),
    LargeBinary,
    BinaryView,
    Utf8,
    LargeUtf8,
    Utf8View,
    List(Box<FieldView>),
    ListView(Box<FieldView>),
    FixedSizeList(Box<FieldView>, i32),
    LargeList(Box<FieldView>),
    LargeListView(Box<FieldView>),
    Struct(Seq<FieldView>),
    Union(Seq<(i8, FieldView)>, UnionMode),
    Dictionary(Box<DataTypeView>, Box<DataTypeView>),
    Decimal32(u8, i8),
    Decimal64(u8, i8),
    Decimal128(u8, i8),
    Decimal256(u8, i8),
    MapOf(Box<FieldView>, bool),
    RunEndEncoded(Box<FieldView>, Box<FieldView>),
}

/// What a [`Field`] stands for.
pub struct FieldView {
    pub name: Seq<char>,
    pub data_type: DataTypeView,
    pub nullable: bool,
    pub metadata: Map<Seq<char>, Seq<char>>,
}

/// What a [`Schema`] stands for.
pub struct SchemaView {
    pub fields: Seq<FieldView>,
    pub metadata: Map<Seq<char>, Seq<char>>,
}

/// What a row of fields stands for.
pub open spec fn fields_view(fields: Seq<Field>) -> Seq<FieldView>
    decreases fields,
{
    Seq::new(
        fields.len(),
        |i: int|
            if 0 <= i < fields.len() {
                fields[i].model()
            } else {
                arbitrary()
            },
    )
}

/// What the members of a union stand for.
pub open spec fn members_view(members: Seq<(i8, Field)>) -> Seq<(i8, FieldView)>
    decreases members,
{
    Seq::new(
        members.len(),
        |i: int|
            if 0 <= i < members.len() {
                (members[i].0, members[i].1.model())
            } else {
                arbitrary()
            },
    )
}

impl DataType {
    pub open spec fn model(self) -> DataTypeView
        decreases self,
    {
        match self {
            DataType::Null => DataTypeView::Null,
            DataType::Boolean => DataTypeView::Boolean,
            DataType::Int8 => DataTypeView::Int8,
            DataType::Int16 => DataTypeView::Int16,
            DataType::Int32 => DataTypeView::Int32,
            DataType::Int64 => DataTypeView::Int64,
            DataType::UInt8 => DataTypeView::UInt8,
            DataType::UInt16 => DataTypeView::UInt16,
            DataType::UInt32 => DataTypeView::UInt32,
            DataType::UInt64 => DataTypeView::UInt64,
            DataType::Float16 => DataTypeView::Float16,
            DataType::Float32 => DataTypeView::Float32,
            DataType::Float64 => DataTypeView::Float64,
            DataType::Timestamp(unit, zone) => DataTypeView::Timestamp(
                unit,
                match zone {
                    Some(name) => Some(name@),
                    None => None,
                },
            ),
            DataType::Date32 => DataTypeView::Date32,
            DataType::Date64 => DataTypeView::Date64,
            DataType::Time32(unit) => DataTypeView::Time32(unit),
            DataType::Time64(unit) => DataTypeView::Time64(unit),
            DataType::Duration(unit) => DataTypeView::Duration(unit),
            DataType::Interval(unit) => DataTypeView::Interval(unit),
            DataType::Binary => DataTypeView::Binary,
            DataType::FixedSizeBinary(width) => DataTypeView::FixedSizeBinary(width),
            DataType::LargeBinary => DataTypeView::LargeBinary,
            DataType::BinaryView => DataTypeView::BinaryView,
            DataType::Utf8 => DataTypeView::Utf8,
            DataType::LargeUtf8 => DataTypeView::LargeUtf8,
            DataType::Utf8View => DataTypeView::Utf8View,
            DataType::List(element) => DataTypeView::List(Box::new((*element).model())),
            DataType::ListView(element) => DataTypeView::ListView(Box::new((*element).model())),
            DataType::FixedSizeList(element, size) => DataTypeView::FixedSizeList(
                Box::new((*element).model()),
                size,
            ),
            DataType::LargeList(element) => DataTypeView::LargeList(Box::new((*element).model())),
            DataType::LargeListView(element) => DataTypeView::LargeListView(
                Box::new((*element).model()),
            ),
            DataType::Struct(fields) => DataTypeView::Struct(fields_view(fields@)),
            DataType::Union(members, mode) => DataTypeView::Union(members_view(members@), mode),
            DataType::Dictionary(keys, values) => DataTypeView::Dictionary(
                Box::new((*keys).model()),
                Box::new((*values).model()),
            ),
            DataType::Decimal32(precision, scale) => DataTypeView::Decimal32(precision, scale),
            DataType::Decimal64(precision, scale) => DataTypeView::Decimal64(precision, scale),
            DataType::Decimal128(precision, scale) => DataTypeView::Decimal128(precision, scale),
            DataType::Decimal256(precision, scale) => DataTypeView::Decimal256(precision, scale),
            DataType::MapOf(entries, sorted) => DataTypeView::MapOf(
                Box::new((*entries).model()),
                sorted,
            ),
            DataType::RunEndEncoded(run_ends, values) => DataTypeView::RunEndEncoded(
                Box::new((*run_ends).model()),
                Box::new((*values).model()),
            ),
        }
    }
}

impl Field {
    pub open spec fn model(self) -> FieldView
        decreases self,
    {
        FieldView {
            name: self.name@,
            data_type: self.data_type.model(),
            nullable: self.nullable,
            metadata: self.metadata@,
        }
    }
}

impl View for DataType {
    type V = DataTypeView;

    open spec fn view(&self) -> DataTypeView {
        self.model()
    }
}

impl View for Field {
    type V = FieldView;

    open spec fn view(&self) -> FieldView {
        self.model()
    }
}

impl View for Schema {
    type V = SchemaView;

    open spec fn view(&self) -> SchemaView {
        SchemaView { fields: fields_view(self.fields@), metadata: self.metadata@ }
    }
}

impl DataTypeView {
    /// A numeric, temporal, boolean, text or binary type.
    pub open spec fn is_leaf(self) -> bool {
        match self {
            DataTypeView::Boolean
            | DataTypeView::Int8
            | DataTypeView::Int16
            | DataTypeView::Int32
            | DataTypeView::Int64
            | DataTypeView::UInt8
            | DataTypeView::UInt16
            | DataTypeView::UInt32
            | DataTypeView::UInt64
            | DataTypeView::Float16
            | DataTypeView::Float32
            | DataTypeView::Float64
            | DataTypeView::Timestamp(_, _)
            | DataTypeView::Date32
            | DataTypeView::Date64
            | DataTypeView::Time32(_)
            | DataTypeView::Time64(_)
            | DataTypeView::Duration(_)
            | DataTypeView::Interval(_)
            | DataTypeView::Binary
            | DataTypeView::FixedSizeBinary(_)
            | DataTypeView::LargeBinary
            | DataTypeView::BinaryView
            | DataTypeView::Utf8
            | DataTypeView::LargeUtf8
            | DataTypeView::Utf8View
            | DataTypeView::Decimal32(_, _)
            | DataTypeView::Decimal64(_, _)
            | DataTypeView::Decimal128(_, _)
            | DataTypeView::Decimal256(_, _) => true,
            _ => false,
        }
    }

    /// A list of any of the three layouts whose elements are visited.
    pub open spec fn is_list(self) -> bool {
        self is List || self is LargeList || self is FixedSizeList
    }
}

impl DataType {
    /// Whether this is a numeric, temporal, boolean, text or binary type.
    pub fn is_leaf(&self) -> (result: bool)
        ensures
            result == self@.is_leaf(),
    {
        match self {
            DataType::Boolean
            | DataType::Int8
            | DataType::Int16
            | DataType::Int32
            | DataType::Int64
            | DataType::UInt8
            | DataType::UInt16
            | DataType::UInt32
            | DataType::UInt64
            | DataType::Float16
            | DataType::Float32
            | DataType::Float64
            | DataType::Timestamp(_, _)
            | DataType::Date32
            | DataType::Date64
            | DataType::Time32(_)
            | DataType::Time64(_)
            | DataType::Duration(_)
            | DataType::Interval(_)
            | DataType::Binary
            | DataType::FixedSizeBinary(_)
            | DataType::LargeBinary
            | DataType::BinaryView
            | DataType::Utf8
            | DataType::LargeUtf8
            | DataType::Utf8View
            | DataType::Decimal32(_, _)
            | DataType::Decimal64(_, _)
            | DataType::Decimal128(_, _)
            | DataType::Decimal256(_, _) => true,
            _ => false,
        }
    }
}

impl Clone for DataType {
    fn clone(&self) -> (result: Self)
        ensures
            result == *self,
    {
        match self {
            DataType::Null => DataType::Null,
            DataType::Boolean => DataType::Boolean,
            DataType::Int8 => DataType::Int8,
            DataType::Int16 => DataType::Int16,
            DataType::Int32 => DataType::Int32,
            DataType::Int64 => DataType::Int64,
            DataType::UInt8 => DataType::UInt8,
            DataType::UInt16 => DataType::UInt16,
            DataType::UInt32 => DataType::UInt32,
            DataType::UInt64 => DataType::UInt64,
            DataType::Float16 => DataType::Float16,
            DataType::Float32 => DataType::Float32,
            DataType::Float64 => DataType::Float64,
            DataType::Timestamp(unit, zone) => DataType::Timestamp(
                *unit,
                match zone {
                    Some(name) => Some(name.clone()),
                    None => None,
                },
            ),
            DataType::Date32 => DataType::Date32,
            DataType::Date64 => DataType::Date64,
            DataType::Time32(unit) => DataType::Time32(*unit),
            DataType::Time64(unit) => DataType::Time64(*unit),
            DataType::Duration(unit) => DataType::Duration(*unit),
            DataType::Interval(unit) => DataType::Interval(*unit),
            DataType::Binary => DataType::Binary,
            DataType::FixedSizeBinary(width) => DataType::FixedSizeBinary(*width),
            DataType::LargeBinary => DataType::LargeBinary,
            DataType::BinaryView => DataType::BinaryView,
            DataType::Utf8 => DataType::Utf8,
            DataType::LargeUtf8 => DataType::LargeUtf8,
            DataType::Utf8View => DataType::Utf8View,
            DataType::List(element) => DataType::List(element.clone()),
            DataType::ListView(element) => DataType::ListView(element.clone()),
            DataType::FixedSizeList(element, size) => DataType::FixedSizeList(
                element.clone(),
                *size,
            ),
            DataType::LargeList(element) => DataType::LargeList(element.clone()),
            DataType::LargeListView(element) => DataType::LargeListView(element.clone()),
            DataType::Struct(fields) => DataType::Struct(fields.clone()),
            DataType::Union(members, mode) => DataType::Union(members.clone(), *mode),
            DataType::Dictionary(keys, values) => DataType::Dictionary(
                keys.clone(),
                values.clone(),
            ),
            DataType::Decimal32(precision, scale) => DataType::Decimal32(*precision, *scale),
            DataType::Decimal64(precision, scale) => DataType::Decimal64(*precision, *scale),
            DataType::Decimal128(precision, scale) => DataType::Decimal128(*precision, *scale),
            DataType::Decimal256(precision, scale) => DataType::Decimal256(*precision, *scale),
            DataType::MapOf(entries, sorted) => DataType::MapOf(entries.clone(), *sorted),
            DataType::RunEndEncoded(run_ends, values) => DataType::RunEndEncoded(
                run_ends.clone(),
                values.clone(),
            ),
        }
    }
}

impl Field {
    /// A field without metadata.
    pub fn new(name: &str, data_type: DataType, nullable: bool) -> (result: Self)
        ensures
            result@ == (FieldView {
                name: name@,
                data_type: data_type@,
                nullable,
                metadata: Map::empty(),
            }),
    {
        Field { name: name.to_string(), data_type, nullable, metadata: Metadata::new() }
    }

    /// This field with the given metadata in place of its own.
    pub fn with_metadata(self, metadata: Metadata) -> (result: Self)
        ensures
            result@ == (FieldView { metadata: metadata@, ..self@ }),
    {
        Field { name: self.name, data_type: self.data_type, nullable: self.nullable, metadata }
    }

    /// The name of the field.
    pub fn name(&self) -> (result: &String)
        ensures
            result@ == self@.name,
    {
        &self.name
    }

    /// The type of the field's values.
    pub fn data_type(&self) -> (result: &DataType)
        ensures
            *result == self.data_type,
            result@ == self@.data_type,
    {
        &self.data_type
    }

    /// Whether the field may hold nulls.
    pub fn is_nullable(&self) -> (result: bool)
        ensures
            result == self@.nullable,
    {
        self.nullable
    }

    /// The metadata of the field.
    pub fn metadata(&self) -> (result: &Metadata)
        ensures
            result@ == self@.metadata,
    {
        &self.metadata
    }
}

impl Schema {
    /// A schema without metadata.
    pub fn new(fields: Vec<Field>) -> (result: Self)
        ensures
            result@ == (SchemaView { fields: fields_view(fields@), metadata: Map::empty() }),
    {
        Schema { fields, metadata: Metadata::new() }
    }

    /// A schema with the given fields and metadata.
    pub fn new_with_metadata(fields: Vec<Field>, metadata: Metadata) -> (result: Self)
        ensures
            result@ == (SchemaView { fields: fields_view(fields@), metadata: metadata@ }),
    {
        Schema { fields, metadata }
    }

    /// The fields of the schema.
    pub fn fields(&self) -> (result: &Vec<Field>)
        ensures
            fields_view(result@) == self@.fields,
    {
        &self.fields
    }

    /// The field at position `i`.
    pub fn field(&self, i: usize) -> (result: &Field)
        requires
            i < self@.fields.len(),
        ensures
            result@ == self@.fields[i as int],
    {
        &self.fields[i]
    }

    /// The metadata of the schema.
    pub fn metadata(&self) -> (result: &Metadata)
        ensures
            result@ == self@.metadata,
    {
        &self.metadata
    }
}

} // verus!
