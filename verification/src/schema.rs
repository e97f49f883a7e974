//! Conversion of a foreign in-memory frame's schema into the common batch
//! schema.
//!
//! The frame side is described by [`FrameSchema`], [`FrameField`] and
//! [`FrameDataType`]; the batch side by [`BatchSchema`], [`BatchField`] and
//! [`BatchDataType`]. The conversion is total: what the batch side cannot
//! express is reported as a [`SchemaError`].

use vstd::prelude::*;

verus! {

/// Why a frame schema has no batch counterpart.
#[derive(Clone, Copy, Debug, PartialEq, Eq, Structural)]
pub enum SchemaError {
    /// A width, list length, precision or scale does not fit the batch side's
    /// narrower integer.
    OutOfRange,
    /// Union columns are not converted.
    UnionUnsupported,
    /// Extension columns have no batch counterpart.
    ExtensionUnsupported,
    /// A column of unknown type has no batch counterpart.
    UnknownUnsupported,
}

#[derive(Clone, Copy, Debug, PartialEq, Eq, Structural)]
pub enum FrameTimeUnit {
    Second,
    Millisecond,
    Microsecond,
    Nanosecond,
}

#[derive(Clone, Copy, Debug, PartialEq, Eq, Structural)]
pub enum BatchTimeUnit {
    Second,
    Millisecond,
    Microsecond,
    Nanosecond,
}

#[derive(Clone, Copy, Debug, PartialEq, Eq, Structural)]
pub enum FrameIntervalUnit {
    YearMonth,
    DayTime,
    MonthDayNano,
}

#[derive(Clone, Copy, Debug, PartialEq, Eq, Structural)]
pub enum BatchIntervalUnit {
    YearMonth,
    DayTime,
    MonthDayNano,
}

/// The integer types a dictionary column may be keyed by.
#[derive(Clone, Copy, Debug, PartialEq, Eq, Structural)]
pub enum FrameIntegerType {
    Int8,
    Int16,
    Int32,
    Int64,
    UInt8,
    UInt16,
    UInt32,
    UInt64,
}

#[derive(Clone, Copy, Debug, PartialEq, Eq, Structural)]
pub enum FrameUnionMode {
    Dense,
    Sparse,
}

/// The logical type of a frame column.
#[derive(Debug, PartialEq, Eq)]
pub enum FrameDataType {
    Null,
    Boolean,
    Int8,
    Int16,
    Int32,
    Int64,
    UInt8,
    UInt16,
    UInt32,
    UInt64,
    Float16,
    Float32,
    Float64,
    /// A timestamp in the given unit, with an optional time zone.
    Timestamp(FrameTimeUnit, Option<String>),
    Date32,
    Date64,
    Time32(FrameTimeUnit),
    Time64(FrameTimeUnit),
    Duration(FrameTimeUnit),
    Interval(FrameIntervalUnit),
    Binary,
    /// Opaque binary of a fixed byte width.
    FixedSizeBinary(usize),
    LargeBinary,
    Utf8,
    LargeUtf8,
    List(Box<FrameField>),
    /// A list of a fixed number of items.
    FixedSizeList(Box<FrameField>, usize),
    LargeList(Box<FrameField>),
    Struct(Vec<FrameField>),
    /// A union of the given fields, with optional type ids.
    Union(Vec<FrameField>, Option<Vec<i32>>, FrameUnionMode),
    /// A map of entries; the flag says whether its keys are sorted.
    MapOf(Box<FrameField>, bool),
    /// Dictionary-encoded values; the flag says whether the dictionary is
    /// sorted.
    Dictionary(FrameIntegerType, Box<FrameDataType>, bool),
    /// Precision and scale of a 128-bit decimal.
    Decimal(usize, usize),
    /// Precision and scale of a 256-bit decimal.
    Decimal256(usize, usize),
    /// A named extension of another type, with optional metadata.
    Extension(String, Box<FrameDataType>, Option<String>),
    BinaryView,
    Utf8View,
    Unknown,
}

/// One column of a frame: its name, type and nullability.
#[derive(Debug, PartialEq, Eq)]
pub struct FrameField {
    pub name: String,
    pub data_type: FrameDataType,
    pub is_nullable: bool,
}

/// One key and value of a schema's metadata.
#[derive(Debug, PartialEq, Eq)]
pub struct MetadataEntry {
    pub key: String,
    pub value: String,
}

/// The schema of a frame: its columns in order, and its metadata.
#[derive(Debug, PartialEq, Eq)]
pub struct FrameSchema {
    pub fields: Vec<FrameField>,
    pub metadata: Vec<MetadataEntry>,
}

/// The logical type of a batch column.
#[derive(Debug, PartialEq, Eq)]
pub enum BatchDataType {
    Null,
    Boolean,
    Int8,
    Int16,
    Int32,
    Int64,
    UInt8,
    UInt16,
    UInt32,
    UInt64,
    Float16,
    Float32,
    Float64,
    Timestamp(BatchTimeUnit, Option<String>),
    Date32,
    Date64,
    Time32(BatchTimeUnit),
    Time64(BatchTimeUnit),
    Duration(BatchTimeUnit),
    Interval(BatchIntervalUnit),
    Binary,
    FixedSizeBinary(i32),
    LargeBinary,
    Utf8,
    LargeUtf8,
    List(Box<BatchField>),
    FixedSizeList(Box<BatchField>, i32),
    LargeList(Box<BatchField>),
    Struct(Vec<BatchField>),
    MapOf(Box<BatchField>, bool),
    /// Key type and value type of a dictionary-encoded column.
    Dictionary(Box<BatchDataType>, Box<BatchDataType>),
    Decimal128(u8, i8),
    Decimal256(u8, i8),
    BinaryView,
    Utf8View,
}

/// One column of a batch: its name, type and nullability.
#[derive(Debug, PartialEq, Eq)]
pub struct BatchField {
    pub name: String,
    pub data_type: BatchDataType,
    pub nullable: bool,
}

/// The schema shared by every batch of one result stream.
#[derive(Debug, PartialEq, Eq)]
pub struct BatchSchema {
    pub fields: Vec<BatchField>,
    pub metadata: Vec<MetadataEntry>,
}

/// The mathematical value of a [`BatchDataType`].
pub enum BatchTypeModel {
    Null,
    Boolean,
    Int8,
    Int16,
    Int32,
    Int64,
    UInt8,
    UInt16,
    UInt32,
    UInt64,
    Float16,
    Float32,
    Float64,
    Timestamp(BatchTimeUnit, Option<Seq<char>>),
    Date32,
    Date64,
    Time32(BatchTimeUnit),
    Time64(BatchTimeUnit),
    Duration(BatchTimeUnit),
    Interval(BatchIntervalUnit),
    Binary,
    FixedSizeBinary(int),
    LargeBinary,
    Utf8,
    LargeUtf8,
    List(Box<BatchFieldModel>),
    FixedSizeList(Box<BatchFieldModel>, int),
    LargeList(Box<BatchFieldModel>),
    Struct(Seq<BatchFieldModel>),
    MapOf(Box<BatchFieldModel>, bool),
    Dictionary(Box<BatchTypeModel>, Box<BatchTypeModel>),
    Decimal128(int, int),
    Decimal256(int, int),
    BinaryView,
    Utf8View,
}

/// The mathematical value of a [`BatchField`].
pub struct BatchFieldModel {
    pub name: Seq<char>,
    pub data_type: BatchTypeModel,
    pub nullable: bool,
}

/// The mathematical value of a [`BatchSchema`]: its fields, and its metadata
/// as pairs of key and value.
pub struct BatchSchemaModel {
    pub fields: Seq<BatchFieldModel>,
    pub metadata: Seq<(Seq<char>, Seq<char>)>,
}

/// The models of a timestamp's optional time zone.
pub open spec fn zone_model(zone: Option<String>) -> Option<Seq<char>> {
    match zone {
        Some(name) => Some(name@),
        None => None,
    }
}

/// The metadata entries as pairs of key and value.
pub open spec fn metadata_model(entries: Seq<MetadataEntry>) -> Seq<(Seq<char>, Seq<char>)> {
    Seq::new(entries.len(), |i: int| (entries[i].key@, entries[i].value@))
}

/// The mathematical value of a batch column's type.
pub open spec fn type_model(data_type: BatchDataType) -> BatchTypeModel
    decreases data_type,
{
    match data_type {
            BatchDataType::Null => BatchTypeModel::Null,
            BatchDataType::Boolean => BatchTypeModel::Boolean,
            BatchDataType::Int8 => BatchTypeModel::Int8,
            BatchDataType::Int16 => BatchTypeModel::Int16,
            BatchDataType::Int32 => BatchTypeModel::Int32,
            BatchDataType::Int64 => BatchTypeModel::Int64,
            BatchDataType::UInt8 => BatchTypeModel::UInt8,
            BatchDataType::UInt16 => BatchTypeModel::UInt16,
            BatchDataType::UInt32 => BatchTypeModel::UInt32,
            BatchDataType::UInt64 => BatchTypeModel::UInt64,
            BatchDataType::Float16 => BatchTypeModel::Float16,
            BatchDataType::Float32 => BatchTypeModel::Float32,
            BatchDataType::Float64 => BatchTypeModel::Float64,
            BatchDataType::Timestamp(unit, zone) => BatchTypeModel::Timestamp(
                unit,
                zone_model(zone),
            ),
            BatchDataType::Date32 => BatchTypeModel::Date32,
            BatchDataType::Date64 => BatchTypeModel::Date64,
            BatchDataType::Time32(unit) => BatchTypeModel::Time32(unit),
            BatchDataType::Time64(unit) => BatchTypeModel::Time64(unit),
            BatchDataType::Duration(unit) => BatchTypeModel::Duration(unit),
            BatchDataType::Interval(unit) => BatchTypeModel::Interval(unit),
            BatchDataType::Binary => BatchTypeModel::Binary,
            BatchDataType::FixedSizeBinary(width) => BatchTypeModel::FixedSizeBinary(width as int),
            BatchDataType::LargeBinary => BatchTypeModel::LargeBinary,
            BatchDataType::Utf8 => BatchTypeModel::Utf8,
            BatchDataType::LargeUtf8 => BatchTypeModel::LargeUtf8,
            BatchDataType::List(item) => BatchTypeModel::List(Box::new(field_model(*item))),
            BatchDataType::FixedSizeList(item, length) => BatchTypeModel::FixedSizeList(
                Box::new(field_model(*item)),
                length as int,
            ),
            BatchDataType::LargeList(item) => BatchTypeModel::LargeList(Box::new(field_model(*item))),
            BatchDataType::Struct(fields) => BatchTypeModel::Struct(
                Seq::new(
                    fields@.len(),
                    |i: int|
                        if 0 <= i < fields@.len() {
                            field_model(fields@[i])
                        } else {
                            arbitrary()
                        },
                ),
            ),
            BatchDataType::MapOf(entries, sorted) => BatchTypeModel::MapOf(
                Box::new(field_model(*entries)),
                sorted,
            ),
            BatchDataType::Dictionary(keys, values) => BatchTypeModel::Dictionary(
                Box::new(type_model(*keys)),
                Box::new(type_model(*values)),
            ),
            BatchDataType::Decimal128(precision, scale) => BatchTypeModel::Decimal128(
                precision as int,
                scale as int,
            ),
            BatchDataType::Decimal256(precision, scale) => BatchTypeModel::Decimal256(
                precision as int,
                scale as int,
            ),
            BatchDataType::BinaryView => BatchTypeModel::BinaryView,
            BatchDataType::Utf8View => BatchTypeModel::Utf8View,
        }
}

/// The mathematical value of a batch column.
pub open spec fn field_model(field: BatchField) -> BatchFieldModel
    decreases field,
{
    BatchFieldModel {
        name: field.name@,
        data_type: type_model(field.data_type),
        nullable: field.nullable,
    }
}

impl View for BatchDataType {
    type V = BatchTypeModel;

    open spec fn view(&self) -> BatchTypeModel {
        type_model(*self)
    }
}

impl View for BatchField {
    type V = BatchFieldModel;

    open spec fn view(&self) -> BatchFieldModel {
        field_model(*self)
    }
}

/// The models of the fields of a batch, in order.
pub open spec fn fields_model(fields: Seq<BatchField>) -> Seq<BatchFieldModel> {
    Seq::new(fields.len(), |i: int| fields[i]@)
}

impl View for BatchSchema {
    type V = BatchSchemaModel;

    open spec fn view(&self) -> BatchSchemaModel {
        BatchSchemaModel {
            fields: fields_model(self.fields@),
            metadata: metadata_model(self.metadata@),
        }
    }
}

/// The batch unit of a frame time unit: the one of the same name.
pub open spec fn converted_time_unit(unit: FrameTimeUnit) -> BatchTimeUnit {
    match unit {
        FrameTimeUnit::Second => BatchTimeUnit::Second,
        FrameTimeUnit::Millisecond => BatchTimeUnit::Millisecond,
        FrameTimeUnit::Microsecond => BatchTimeUnit::Microsecond,
        FrameTimeUnit::Nanosecond => BatchTimeUnit::Nanosecond,
    }
}

/// The batch unit of a frame interval unit: the one of the same name.
pub open spec fn converted_interval_unit(unit: FrameIntervalUnit) -> BatchIntervalUnit {
    match unit {
        FrameIntervalUnit::YearMonth => BatchIntervalUnit::YearMonth,
        FrameIntervalUnit::DayTime => BatchIntervalUnit::DayTime,
        FrameIntervalUnit::MonthDayNano => BatchIntervalUnit::MonthDayNano,
    }
}

/// The batch type of a dictionary's key type: the integer type of the same
/// name.
pub open spec fn converted_int_type(int_type: FrameIntegerType) -> BatchTypeModel {
    match int_type {
        FrameIntegerType::Int8 => BatchTypeModel::Int8,
        FrameIntegerType::Int16 => BatchTypeModel::Int16,
        FrameIntegerType::Int32 => BatchTypeModel::Int32,
        FrameIntegerType::Int64 => BatchTypeModel::Int64,
        FrameIntegerType::UInt8 => BatchTypeModel::UInt8,
        FrameIntegerType::UInt16 => BatchTypeModel::UInt16,
        FrameIntegerType::UInt32 => BatchTypeModel::UInt32,
        FrameIntegerType::UInt64 => BatchTypeModel::UInt64,
    }
}

/// A width or list length as the batch side holds it: a signed 32-bit
/// integer.
pub open spec fn converted_size(size: usize) -> Result<int, SchemaError> {
    if size <= i32::MAX {
        Ok(size as int)
    } else {
        Err(SchemaError::OutOfRange)
    }
}

/// Precision and scale of a decimal as the batch side holds them: an unsigned
/// and a signed 8-bit integer.
pub open spec fn converted_decimal(precision: usize, scale: usize) -> Result<
    (int, int),
    SchemaError,
> {
    if precision <= u8::MAX && scale <= i8::MAX {
        Ok((precision as int, scale as int))
    } else {
        Err(SchemaError::OutOfRange)
    }
}

/// The batch type that stands for the frame type `data_type`, or why there
/// is none. A nested type is converted inside out and from left to right, and
/// the first failure is the result.
pub open spec fn converted_type(data_type: FrameDataType) -> Result<BatchTypeModel, SchemaError>
    decreases data_type, 0nat,
{
    match data_type {
        FrameDataType::Null => Ok(BatchTypeModel::Null),
        FrameDataType::Boolean => Ok(BatchTypeModel::Boolean),
        FrameDataType::Int8 => Ok(BatchTypeModel::Int8),
        FrameDataType::Int16 => Ok(BatchTypeModel::Int16),
        FrameDataType::Int32 => Ok(BatchTypeModel::Int32),
        FrameDataType::Int64 => Ok(BatchTypeModel::Int64),
        FrameDataType::UInt8 => Ok(BatchTypeModel::UInt8),
        FrameDataType::UInt16 => Ok(BatchTypeModel::UInt16),
        FrameDataType::UInt32 => Ok(BatchTypeModel::UInt32),
        FrameDataType::UInt64 => Ok(BatchTypeModel::UInt64),
        FrameDataType::Float16 => Ok(BatchTypeModel::Float16),
        FrameDataType::Float32 => Ok(BatchTypeModel::Float32),
        FrameDataType::Float64 => Ok(BatchTypeModel::Float64),
        FrameDataType::Timestamp(unit, zone) => Ok(
            BatchTypeModel::Timestamp(converted_time_unit(unit), zone_model(zone)),
        ),
        FrameDataType::Date32 => Ok(BatchTypeModel::Date32),
        FrameDataType::Date64 => Ok(BatchTypeModel::Date64),
        FrameDataType::Time32(unit) => Ok(BatchTypeModel::Time32(converted_time_unit(unit))),
        FrameDataType::Time64(unit) => Ok(BatchTypeModel::Time64(converted_time_unit(unit))),
        FrameDataType::Duration(unit) => Ok(BatchTypeModel::Duration(converted_time_unit(unit))),
        FrameDataType::Interval(unit) => Ok(
            BatchTypeModel::Interval(converted_interval_unit(unit)),
        ),
        FrameDataType::Binary => Ok(BatchTypeModel::Binary),
        FrameDataType::FixedSizeBinary(width) => match converted_size(width) {
            Ok(width) => Ok(BatchTypeModel::FixedSizeBinary(width)),
            Err(error) => Err(error),
        },
        FrameDataType::LargeBinary => Ok(BatchTypeModel::LargeBinary),
        FrameDataType::Utf8 => Ok(BatchTypeModel::Utf8),
        FrameDataType::LargeUtf8 => Ok(BatchTypeModel::LargeUtf8),
        FrameDataType::List(item) => match converted_field(*item) {
            Ok(item) => Ok(BatchTypeModel::List(Box::new(item))),
            Err(error) => Err(error),
        },
        FrameDataType::FixedSizeList(item, length) => match converted_field(*item) {
            Ok(item) => match converted_size(length) {
                Ok(length) => Ok(BatchTypeModel::FixedSizeList(Box::new(item), length)),
                Err(error) => Err(error),
            },
            Err(error) => Err(error),
        },
        FrameDataType::LargeList(item) => match converted_field(*item) {
            Ok(item) => Ok(BatchTypeModel::LargeList(Box::new(item))),
            Err(error) => Err(error),
        },
        FrameDataType::Struct(fields) => match converted_fields(fields@, fields@.len()) {
            Ok(fields) => Ok(BatchTypeModel::Struct(fields)),
            Err(error) => Err(error),
        },
        FrameDataType::Union(_, _, _) => Err(SchemaError::UnionUnsupported),
        FrameDataType::MapOf(entries, sorted) => match converted_field(*entries) {
            Ok(entries) => Ok(BatchTypeModel::MapOf(Box::new(entries), sorted)),
            Err(error) => Err(error),
        },
        FrameDataType::Dictionary(keys, values, _) => match converted_type(*values) {
            Ok(values) => Ok(
                BatchTypeModel::Dictionary(Box::new(converted_int_type(keys)), Box::new(values)),
            ),
            Err(error) => Err(error),
        },
        FrameDataType::Decimal(precision, scale) => match converted_decimal(precision, scale) {
            Ok((precision, scale)) => Ok(BatchTypeModel::Decimal128(precision, scale)),
            Err(error) => Err(error),
        },
        FrameDataType::Decimal256(precision, scale) => match converted_decimal(precision, scale) {
            Ok((precision, scale)) => Ok(BatchTypeModel::Decimal256(precision, scale)),
            Err(error) => Err(error),
        },
        FrameDataType::Extension(_, _, _) => Err(SchemaError::ExtensionUnsupported),
        FrameDataType::BinaryView => Ok(BatchTypeModel::BinaryView),
        FrameDataType::Utf8View => Ok(BatchTypeModel::Utf8View),
        FrameDataType::Unknown => Err(SchemaError::UnknownUnsupported),
    }
}

/// The batch field that stands for the frame field `field`: the same name
/// and nullability, with the type converted.
pub open spec fn converted_field(field: FrameField) -> Result<BatchFieldModel, SchemaError>
    decreases field, 0nat,
{
    match converted_type(field.data_type) {
        Ok(data_type) => Ok(
            BatchFieldModel { name: field.name@, data_type, nullable: field.is_nullable },
        ),
        Err(error) => Err(error),
    }
}

/// The batch fields that stand for the first `count` of `fields`, in order,
/// or the failure of the first among them that has none.
pub open spec fn converted_fields(fields: Seq<FrameField>, count: nat) -> Result<
    Seq<BatchFieldModel>,
    SchemaError,
>
    decreases fields, count,
{
    if count == 0 || count > fields.len() {
        Ok(Seq::empty())
    } else {
        match converted_fields(fields, (count - 1) as nat) {
            Ok(earlier) => match converted_field(fields[count - 1]) {
                Ok(field) => Ok(earlier.push(field)),
                Err(error) => Err(error),
            },
            Err(error) => Err(error),
        }
    }
}

/// The batch schema that stands for the frame schema `schema`: its fields
/// converted in order, its metadata unchanged.
pub open spec fn converted_schema(schema: FrameSchema) -> Result<BatchSchemaModel, SchemaError> {
    match converted_fields(schema.fields@, schema.fields@.len()) {
        Ok(fields) => Ok(BatchSchemaModel { fields, metadata: metadata_model(schema.metadata@) }),
        Err(error) => Err(error),
    }
}

/// Whether `result` is the executable form of `expected`.
pub open spec fn type_result_is(
    result: Result<BatchDataType, SchemaError>,
    expected: Result<BatchTypeModel, SchemaError>,
) -> bool {
    match result {
        Ok(data_type) => expected == Ok::<BatchTypeModel, SchemaError>(data_type@),
        Err(error) => expected == Err::<BatchTypeModel, SchemaError>(error),
    }
}

/// Whether `result` is the executable form of `expected`.
pub open spec fn field_result_is(
    result: Result<BatchField, SchemaError>,
    expected: Result<BatchFieldModel, SchemaError>,
) -> bool {
    match result {
        Ok(field) => expected == Ok::<BatchFieldModel, SchemaError>(field@),
        Err(error) => expected == Err::<BatchFieldModel, SchemaError>(error),
    }
}

/// Whether `result` is the executable form of `expected`.
pub open spec fn fields_result_is(
    result: Result<Vec<BatchField>, SchemaError>,
    expected: Result<Seq<BatchFieldModel>, SchemaError>,
) -> bool {
    match result {
        Ok(fields) => expected == Ok::<Seq<BatchFieldModel>, SchemaError>(fields_model(fields@)),
        Err(error) => expected == Err::<Seq<BatchFieldModel>, SchemaError>(error),
    }
}

/// Whether `result` is the executable form of `expected`.
pub open spec fn schema_result_is(
    result: Result<BatchSchema, SchemaError>,
    expected: Result<BatchSchemaModel, SchemaError>,
) -> bool {
    match result {
        Ok(schema) => expected == Ok::<BatchSchemaModel, SchemaError>(schema@),
        Err(error) => expected == Err::<BatchSchemaModel, SchemaError>(error),
    }
}

/// Converts a frame time unit to the batch unit of the same name.
pub fn convert_time_unit(time_unit: &FrameTimeUnit) -> (unit: BatchTimeUnit)
    ensures
        unit == converted_time_unit(*time_unit),
{
    match time_unit {
        FrameTimeUnit::Second => BatchTimeUnit::Second,
        FrameTimeUnit::Millisecond => BatchTimeUnit::Millisecond,
        FrameTimeUnit::Microsecond => BatchTimeUnit::Microsecond,
        FrameTimeUnit::Nanosecond => BatchTimeUnit::Nanosecond,
    }
}

/// Converts a frame interval unit to the batch unit of the same name.
pub fn convert_interval_unit(interval_unit: &FrameIntervalUnit) -> (unit: BatchIntervalUnit)
    ensures
        unit == converted_interval_unit(*interval_unit),
{
    match interval_unit {
        FrameIntervalUnit::YearMonth => BatchIntervalUnit::YearMonth,
        FrameIntervalUnit::DayTime => BatchIntervalUnit::DayTime,
        FrameIntervalUnit::MonthDayNano => BatchIntervalUnit::MonthDayNano,
    }
}

/// Converts the key type of a dictionary column to the batch integer type of
/// the same name.
pub fn convert_int_type(int_type: &FrameIntegerType) -> (data_type: BatchDataType)
    ensures
        data_type@ == converted_int_type(*int_type),
{
    match int_type {
        FrameIntegerType::Int8 => BatchDataType::Int8,
        FrameIntegerType::Int16 => BatchDataType::Int16,
        FrameIntegerType::Int32 => BatchDataType::Int32,
        FrameIntegerType::Int64 => BatchDataType::Int64,
        FrameIntegerType::UInt8 => BatchDataType::UInt8,
        FrameIntegerType::UInt16 => BatchDataType::UInt16,
        FrameIntegerType::UInt32 => BatchDataType::UInt32,
        FrameIntegerType::UInt64 => BatchDataType::UInt64,
    }
}

fn convert_size(size: usize) -> (result: Result<i32, SchemaError>)
    ensures
        match result {
            Ok(narrow) => converted_size(size) == Ok::<int, SchemaError>(narrow as int),
            Err(error) => converted_size(size) == Err::<int, SchemaError>(error),
        },
{
    if size <= 0x7fff_ffff {
        Ok(size as i32)
    } else {
        Err(SchemaError::OutOfRange)
    }
}

fn convert_decimal(precision: usize, scale: usize) -> (result: Result<(u8, i8), SchemaError>)
    ensures
        match result {
            Ok((p, s)) => converted_decimal(precision, scale) == Ok::<(int, int), SchemaError>(
                (p as int, s as int),
            ),
            Err(error) => converted_decimal(precision, scale) == Err::<(int, int), SchemaError>(
                error,
            ),
        },
{
    if precision <= 0xff && scale <= 0x7f {
        Ok((precision as u8, scale as i8))
    } else {
        Err(SchemaError::OutOfRange)
    }
}

fn copy_zone(zone: &Option<String>) -> (copy: Option<String>)
    ensures
        zone_model(copy) == zone_model(*zone),
{
    match zone {
        Some(name) => Some(name.clone()),
        None => None,
    }
}

/// Converts the type of a frame column to the batch type that stands for it.
///
/// Fails with `OutOfRange` where a width, list length, precision or scale
/// does not fit the batch side, and with the matching `..Unsupported` where
/// the type is or holds a union, an extension or an unknown type.
pub fn convert_datatype(datatype: &FrameDataType) -> (result: Result<BatchDataType, SchemaError>)
    ensures
        type_result_is(result, converted_type(*datatype)),
    decreases datatype,
{
    match datatype {
        FrameDataType::Null => Ok(BatchDataType::Null),
        FrameDataType::Boolean => Ok(BatchDataType::Boolean),
        FrameDataType::Int8 => Ok(BatchDataType::Int8),
        FrameDataType::Int16 => Ok(BatchDataType::Int16),
        FrameDataType::Int32 => Ok(BatchDataType::Int32),
        FrameDataType::Int64 => Ok(BatchDataType::Int64),
        FrameDataType::UInt8 => Ok(BatchDataType::UInt8),
        FrameDataType::UInt16 => Ok(BatchDataType::UInt16),
        FrameDataType::UInt32 => Ok(BatchDataType::UInt32),
        FrameDataType::UInt64 => Ok(BatchDataType::UInt64),
        FrameDataType::Float16 => Ok(BatchDataType::Float16),
        FrameDataType::Float32 => Ok(BatchDataType::Float32),
        FrameDataType::Float64 => Ok(BatchDataType::Float64),
        FrameDataType::Timestamp(time_unit, time_zone) => Ok(
            BatchDataType::Timestamp(convert_time_unit(time_unit), copy_zone(time_zone)),
        ),
        FrameDataType::Date32 => Ok(BatchDataType::Date32),
        FrameDataType::Date64 => Ok(BatchDataType::Date64),
        FrameDataType::Time32(time_unit) => Ok(BatchDataType::Time32(convert_time_unit(time_unit))),
        FrameDataType::Time64(time_unit) => Ok(BatchDataType::Time64(convert_time_unit(time_unit))),
        FrameDataType::Duration(time_unit) => Ok(
            BatchDataType::Duration(convert_time_unit(time_unit)),
        ),
        FrameDataType::Interval(interval_unit) => Ok(
            BatchDataType::Interval(convert_interval_unit(interval_unit)),
        ),
        FrameDataType::Binary => Ok(BatchDataType::Binary),
        FrameDataType::FixedSizeBinary(size) => match convert_size(*size) {
            Ok(width) => Ok(BatchDataType::FixedSizeBinary(width)),
            Err(error) => Err(error),
        },
        FrameDataType::LargeBinary => Ok(BatchDataType::LargeBinary),
        FrameDataType::Utf8 => Ok(BatchDataType::Utf8),
        FrameDataType::LargeUtf8 => Ok(BatchDataType::LargeUtf8),
        FrameDataType::List(field) => match convert_field(field) {
            Ok(item) => Ok(BatchDataType::List(Box::new(item))),
            Err(error) => Err(error),
        },
        FrameDataType::FixedSizeList(field, size) => match convert_field(field) {
            Ok(item) => match convert_size(*size) {
                Ok(length) => Ok(BatchDataType::FixedSizeList(Box::new(item), length)),
                Err(error) => Err(error),
            },
            Err(error) => Err(error),
        },
        FrameDataType::LargeList(field) => match convert_field(field) {
            Ok(item) => Ok(BatchDataType::LargeList(Box::new(item))),
            Err(error) => Err(error),
        },
        FrameDataType::Struct(field_list) => match convert_fields(field_list) {
            Ok(fields) => {
                assert(type_model(BatchDataType::Struct(fields))
                    == BatchTypeModel::Struct(fields_model(fields@))) by {
                    assert(type_model(BatchDataType::Struct(fields))->Struct_0 =~= fields_model(
                        fields@,
                    ));
                }
                Ok(BatchDataType::Struct(fields))
            },
            Err(error) => Err(error),
        },
        FrameDataType::Union(_, _, _) => Err(SchemaError::UnionUnsupported),
        FrameDataType::MapOf(field, is_sorted) => match convert_field(field) {
            Ok(entries) => Ok(BatchDataType::MapOf(Box::new(entries), *is_sorted)),
            Err(error) => Err(error),
        },
        FrameDataType::Dictionary(int_type, data_type, _) => match convert_datatype(data_type) {
            Ok(values) => Ok(
                BatchDataType::Dictionary(Box::new(convert_int_type(int_type)), Box::new(values)),
            ),
            Err(error) => Err(error),
        },
        FrameDataType::Decimal(precision, scale) => match convert_decimal(*precision, *scale) {
            Ok((precision, scale)) => Ok(BatchDataType::Decimal128(precision, scale)),
            Err(error) => Err(error),
        },
        FrameDataType::Decimal256(precision, scale) => match convert_decimal(*precision, *scale) {
            Ok((precision, scale)) => Ok(BatchDataType::Decimal256(precision, scale)),
            Err(error) => Err(error),
        },
        FrameDataType::Extension(_, _, _) => Err(SchemaError::ExtensionUnsupported),
        FrameDataType::BinaryView => Ok(BatchDataType::BinaryView),
        FrameDataType::Utf8View => Ok(BatchDataType::Utf8View),
        FrameDataType::Unknown => Err(SchemaError::UnknownUnsupported),
    }
}

/// Converts a frame column to the batch column that stands for it: the same
/// name and nullability, with the type converted. Fails as
/// [`convert_datatype`] does on the column's type.
pub fn convert_field(field: &FrameField) -> (result: Result<BatchField, SchemaError>)
    ensures
        field_result_is(result, converted_field(*field)),
    decreases field,
{
    match convert_datatype(&field.data_type) {
        Ok(data_type) => Ok(
            BatchField { name: field.name.clone(), data_type, nullable: field.is_nullable },
        ),
        Err(error) => Err(error),
    }
}

/// Converts the columns of `fields` in order, stopping at the first that has
/// no batch counterpart.
fn convert_fields(fields: &Vec<FrameField>) -> (result: Result<Vec<BatchField>, SchemaError>)
    ensures
        fields_result_is(result, converted_fields(fields@, fields@.len())),
    decreases fields,
{
    let mut converted: Vec<BatchField> = Vec::new();
    let mut done: usize = 0;
    assert(fields_model(converted@) =~= Seq::empty());
    while done < fields.len()
        invariant
            done <= fields.len(),
            converted_fields(fields@, done as nat) == Ok::<Seq<BatchFieldModel>, SchemaError>(
                fields_model(converted@),
            ),
        decreases fields.len() - done,
    {
        match convert_field(&fields[done]) {
            Ok(field) => {
                let ghost earlier = fields_model(converted@);
                converted.push(field);
                assert(fields_model(converted@) =~= earlier.push(field@));
                done = done + 1;
            },
            Err(error) => {
                proof {
                    lemma_failure_stays(fields@, (done + 1) as nat, fields@.len());
                }
                return Err(error);
            },
        }
    }
    Ok(converted)
}

/// Once the first `count` fields have no batch counterpart, no longer prefix
/// has one either, and the failure is the same.
proof fn lemma_failure_stays(fields: Seq<FrameField>, count: nat, longer: nat)
    requires
        count <= longer <= fields.len(),
        converted_fields(fields, count) is Err,
    ensures
        converted_fields(fields, longer) == converted_fields(fields, count),
    decreases longer,
{
    if count < longer {
        lemma_failure_stays(fields, count, (longer - 1) as nat);
    }
}

/// Converts the schema of a frame to the batch schema that stands for it:
/// the columns converted in order, the metadata unchanged. Fails as
/// [`convert_datatype`] does on the first column that has no counterpart.
pub fn convert_schema(schema: FrameSchema) -> (result: Result<BatchSchema, SchemaError>)
    ensures
        schema_result_is(result, converted_schema(schema)),
{
    match convert_fields(&schema.fields) {
        Ok(fields) => Ok(BatchSchema { fields, metadata: schema.metadata }),
        Err(error) => Err(error),
    }
}

} // verus!
