use vstd::prelude::*;

verus! {

/// Cursor mode sent with a statement execution.
#[derive(Clone, Copy, Debug, PartialEq, Eq, Structural)]
pub enum StmtExecFlag {
    NoCursor,
    ReadOnly,
    CursorForUpdate,
    ScrollableCursor,
}

impl StmtExecFlag {
    pub open spec fn spec_byte(self) -> u8 {
        match self {
            StmtExecFlag::NoCursor => 0,
            StmtExecFlag::ReadOnly => 1,
            StmtExecFlag::CursorForUpdate => 2,
            StmtExecFlag::ScrollableCursor => 4,
        }
    }

    /// The flag's value on the wire.
    pub fn as_byte(self) -> (r: u8)
        ensures
            r == self.spec_byte(),
    {
        match self {
            StmtExecFlag::NoCursor => 0,
            StmtExecFlag::ReadOnly => 1,
            StmtExecFlag::CursorForUpdate => 2,
            StmtExecFlag::ScrollableCursor => 4,
        }
    }
}

/// Column type tag of the wire protocol.
#[derive(Clone, Copy, Debug, PartialEq, Eq, Structural)]
pub enum FieldType {
    MysqlTypeDecimal,
    MysqlTypeTiny,
    MysqlTypeShort,
    MysqlTypeLong,
    MysqlTypeFloat,
    MysqlTypeDouble,
    MysqlTypeNull,
    MysqlTypeTimestamp,
    MysqlTypeLonglong,
    MysqlTypeInt24,
    MysqlTypeDate,
    MysqlTypeTime,
    MysqlTypeDatetime,
    MysqlTypeYear,
    MysqlTypeNewdate,
    MysqlTypeVarchar,
    MysqlTypeBit,
    MysqlTypeTimestamp2,
    MysqlTypeDatetime2,
    MysqlTypeTime2,
    MysqlTypeJson,
    MysqlTypeNewdecimal,
    MysqlTypeEnum,
    MysqlTypeSet,
    MysqlTypeTinyBlob,
    MysqlTypeMediumBlob,
    MysqlTypeLongBlob,
    MysqlTypeBlob,
    MysqlTypeVarString,
    MysqlTypeString,
    MysqlTypeGeometry,
}

/// How a parameter value of a given type is laid out in the value block.
#[derive(Clone, Copy, Debug, PartialEq, Eq, Structural)]
pub enum ValueEncoding {
    /// The value's bytes as given: fixed-width numbers, already little-endian.
    Raw,
    /// A length-encoded integer holding the byte count, then the bytes.
    LengthPrefixed,
    /// No binary encoding of values of this type is offered.
    Unsupported,
}

impl FieldType {
    pub open spec fn spec_tag(self) -> u8 {
        match self {
            FieldType::MysqlTypeDecimal => 0,
            FieldType::MysqlTypeTiny => 1,
            FieldType::MysqlTypeShort => 2,
            FieldType::MysqlTypeLong => 3,
            FieldType::MysqlTypeFloat => 4,
            FieldType::MysqlTypeDouble => 5,
            FieldType::MysqlTypeNull => 6,
            FieldType::MysqlTypeTimestamp => 7,
            FieldType::MysqlTypeLonglong => 8,
            FieldType::MysqlTypeInt24 => 9,
            FieldType::MysqlTypeDate => 10,
            FieldType::MysqlTypeTime => 11,
            FieldType::MysqlTypeDatetime => 12,
            FieldType::MysqlTypeYear => 13,
            FieldType::MysqlTypeNewdate => 14,
            FieldType::MysqlTypeVarchar => 15,
            FieldType::MysqlTypeBit => 16,
            FieldType::MysqlTypeTimestamp2 => 17,
            FieldType::MysqlTypeDatetime2 => 18,
            FieldType::MysqlTypeTime2 => 19,
            FieldType::MysqlTypeJson => 245,
            FieldType::MysqlTypeNewdecimal => 246,
            FieldType::MysqlTypeEnum => 247,
            FieldType::MysqlTypeSet => 248,
            FieldType::MysqlTypeTinyBlob => 249,
            FieldType::MysqlTypeMediumBlob => 250,
            FieldType::MysqlTypeLongBlob => 251,
            FieldType::MysqlTypeBlob => 252,
            FieldType::MysqlTypeVarString => 253,
            FieldType::MysqlTypeString => 254,
            FieldType::MysqlTypeGeometry => 255,
        }
    }

    pub open spec fn spec_encoding(self) -> ValueEncoding {
        match self {
            FieldType::MysqlTypeDecimal => ValueEncoding::LengthPrefixed,
            FieldType::MysqlTypeTiny => ValueEncoding::Raw,
            FieldType::MysqlTypeShort => ValueEncoding::Raw,
            FieldType::MysqlTypeLong => ValueEncoding::Raw,
            FieldType::MysqlTypeFloat => ValueEncoding::Raw,
            FieldType::MysqlTypeDouble => ValueEncoding::Raw,
            FieldType::MysqlTypeNull => ValueEncoding::Unsupported,
            FieldType::MysqlTypeTimestamp => ValueEncoding::Unsupported,
            FieldType::MysqlTypeLonglong => ValueEncoding::Raw,
            FieldType::MysqlTypeInt24 => ValueEncoding::Raw,
            FieldType::MysqlTypeDate => ValueEncoding::Unsupported,
            FieldType::MysqlTypeTime => ValueEncoding::Unsupported,
            FieldType::MysqlTypeDatetime => ValueEncoding::Unsupported,
            FieldType::MysqlTypeYear => ValueEncoding::Raw,
            FieldType::MysqlTypeNewdate => ValueEncoding::Unsupported,
            FieldType::MysqlTypeVarchar => ValueEncoding::LengthPrefixed,
            FieldType::MysqlTypeBit => ValueEncoding::LengthPrefixed,
            FieldType::MysqlTypeTimestamp2 => ValueEncoding::Unsupported,
            FieldType::MysqlTypeDatetime2 => ValueEncoding::Unsupported,
            FieldType::MysqlTypeTime2 => ValueEncoding::Unsupported,
            FieldType::MysqlTypeJson => ValueEncoding::LengthPrefixed,
            FieldType::MysqlTypeNewdecimal => ValueEncoding::LengthPrefixed,
            FieldType::MysqlTypeEnum => ValueEncoding::LengthPrefixed,
            FieldType::MysqlTypeSet => ValueEncoding::LengthPrefixed,
            FieldType::MysqlTypeTinyBlob => ValueEncoding::LengthPrefixed,
            FieldType::MysqlTypeMediumBlob => ValueEncoding::LengthPrefixed,
            FieldType::MysqlTypeLongBlob => ValueEncoding::LengthPrefixed,
            FieldType::MysqlTypeBlob => ValueEncoding::LengthPrefixed,
            FieldType::MysqlTypeVarString => ValueEncoding::LengthPrefixed,
            FieldType::MysqlTypeString => ValueEncoding::LengthPrefixed,
            FieldType::MysqlTypeGeometry => ValueEncoding::LengthPrefixed,
        }
    }

    /// The type's tag byte on the wire.
    pub fn tag(self) -> (r: u8)
        ensures
            r == self.spec_tag(),
    {
        match self {
            FieldType::MysqlTypeDecimal => 0,
            FieldType::MysqlTypeTiny => 1,
            FieldType::MysqlTypeShort => 2,
            FieldType::MysqlTypeLong => 3,
            FieldType::MysqlTypeFloat => 4,
            FieldType::MysqlTypeDouble => 5,
            FieldType::MysqlTypeNull => 6,
            FieldType::MysqlTypeTimestamp => 7,
            FieldType::MysqlTypeLonglong => 8,
            FieldType::MysqlTypeInt24 => 9,
            FieldType::MysqlTypeDate => 10,
            FieldType::MysqlTypeTime => 11,
            FieldType::MysqlTypeDatetime => 12,
            FieldType::MysqlTypeYear => 13,
            FieldType::MysqlTypeNewdate => 14,
            FieldType::MysqlTypeVarchar => 15,
            FieldType::MysqlTypeBit => 16,
            FieldType::MysqlTypeTimestamp2 => 17,
            FieldType::MysqlTypeDatetime2 => 18,
            FieldType::MysqlTypeTime2 => 19,
            FieldType::MysqlTypeJson => 245,
            FieldType::MysqlTypeNewdecimal => 246,
            FieldType::MysqlTypeEnum => 247,
            FieldType::MysqlTypeSet => 248,
            FieldType::MysqlTypeTinyBlob => 249,
            FieldType::MysqlTypeMediumBlob => 250,
            FieldType::MysqlTypeLongBlob => 251,
            FieldType::MysqlTypeBlob => 252,
            FieldType::MysqlTypeVarString => 253,
            FieldType::MysqlTypeString => 254,
            FieldType::MysqlTypeGeometry => 255,
        }
    }

    /// How values of this type are written.
    pub fn encoding(self) -> (r: ValueEncoding)
        ensures
            r == self.spec_encoding(),
    {
        match self {
            FieldType::MysqlTypeDecimal => ValueEncoding::LengthPrefixed,
            FieldType::MysqlTypeTiny => ValueEncoding::Raw,
            FieldType::MysqlTypeShort => ValueEncoding::Raw,
            FieldType::MysqlTypeLong => ValueEncoding::Raw,
            FieldType::MysqlTypeFloat => ValueEncoding::Raw,
            FieldType::MysqlTypeDouble => ValueEncoding::Raw,
            FieldType::MysqlTypeNull => ValueEncoding::Unsupported,
            FieldType::MysqlTypeTimestamp => ValueEncoding::Unsupported,
            FieldType::MysqlTypeLonglong => ValueEncoding::Raw,
            FieldType::MysqlTypeInt24 => ValueEncoding::Raw,
            FieldType::MysqlTypeDate => ValueEncoding::Unsupported,
            FieldType::MysqlTypeTime => ValueEncoding::Unsupported,
            FieldType::MysqlTypeDatetime => ValueEncoding::Unsupported,
            FieldType::MysqlTypeYear => ValueEncoding::Raw,
            FieldType::MysqlTypeNewdate => ValueEncoding::Unsupported,
            FieldType::MysqlTypeVarchar => ValueEncoding::LengthPrefixed,
            FieldType::MysqlTypeBit => ValueEncoding::LengthPrefixed,
            FieldType::MysqlTypeTimestamp2 => ValueEncoding::Unsupported,
            FieldType::MysqlTypeDatetime2 => ValueEncoding::Unsupported,
            FieldType::MysqlTypeTime2 => ValueEncoding::Unsupported,
            FieldType::MysqlTypeJson => ValueEncoding::LengthPrefixed,
            FieldType::MysqlTypeNewdecimal => ValueEncoding::LengthPrefixed,
            FieldType::MysqlTypeEnum => ValueEncoding::LengthPrefixed,
            FieldType::MysqlTypeSet => ValueEncoding::LengthPrefixed,
            FieldType::MysqlTypeTinyBlob => ValueEncoding::LengthPrefixed,
            FieldType::MysqlTypeMediumBlob => ValueEncoding::LengthPrefixed,
            FieldType::MysqlTypeLongBlob => ValueEncoding::LengthPrefixed,
            FieldType::MysqlTypeBlob => ValueEncoding::LengthPrefixed,
            FieldType::MysqlTypeVarString => ValueEncoding::LengthPrefixed,
            FieldType::MysqlTypeString => ValueEncoding::LengthPrefixed,
            FieldType::MysqlTypeGeometry => ValueEncoding::LengthPrefixed,
        }
    }
}

/// Set of column detail flags, as the server sends them in a column definition.
#[derive(Clone, Copy, Debug, PartialEq, Eq, Structural)]
pub struct FieldDetailFlag(pub u16);

impl FieldDetailFlag {
    /// The column may not hold NULL.
    pub fn not_null() -> (r: FieldDetailFlag)
        ensures
            r.0 == 1,
    {
        FieldDetailFlag(1)
    }

    /// The column holds an unsigned number.
    pub fn unsigned() -> (r: FieldDetailFlag)
        ensures
            r.0 == 32,
    {
        FieldDetailFlag(32)
    }

    /// The flags set in either operand.
    pub fn union(self, other: FieldDetailFlag) -> (r: FieldDetailFlag)
        ensures
            r.0 == self.0 | other.0,
    {
        FieldDetailFlag(self.0 | other.0)
    }

    pub open spec fn spec_is_unsigned(self) -> bool {
        self.0 & 32u16 != 0
    }

    /// Whether the unsigned bit is set.
    pub fn is_unsigned(self) -> (r: bool)
        ensures
            r == self.spec_is_unsigned(),
    {
        self.0 & 32u16 != 0
    }
}

/// Definition of one column or statement parameter, as a statement-preparation
/// response describes it. Only `field_type` and `field_details` are read when a
/// statement is executed.
#[derive(Debug)]
pub struct ColumnDefPacket {
    pub catalog: bytes::Bytes,
    pub schema: bytes::Bytes,
    pub table_alias: bytes::Bytes,
    pub table: bytes::Bytes,
    pub column_alias: bytes::Bytes,
    pub column: bytes::Bytes,
    pub length_of_fixed_fields: Option<u64>,
    pub char_set: u16,
    pub max_columns: u32,
    pub field_type: FieldType,
    pub field_details: FieldDetailFlag,
    pub decimals: u8,
}

impl ColumnDefPacket {
    /// The signedness byte of the parameter-type block: the protocol sends
    /// "not unsigned", so a parameter of unknown signedness counts as signed.
    pub open spec fn spec_is_signed_or_unknown(&self) -> bool {
        !self.field_details.spec_is_unsigned()
    }

    pub fn is_signed_or_unknown(&self) -> (r: bool)
        ensures
            r == self.spec_is_signed_or_unknown(),
    {
        !self.field_details.is_unsigned()
    }
}

/// Connection state handed through a command's encoding. Executing a
/// statement reads nothing from it.
#[derive(Debug)]
pub struct ConnContext {}

impl ConnContext {
    pub fn new() -> (r: ConnContext) {
        ConnContext {}
    }
}

} // verus!
