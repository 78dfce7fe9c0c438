//! The host's binary key-value format, read into a tree of values.
//!
//! A document is an object. An object is a run of members up to an end
//! marker. A member is one byte that gives the type of its value, the key as
//! a zero-terminated string, and the value.

use byteorder::ByteOrder;
use vstd::prelude::*;
use vstd::slice::slice_subrange;
use vstd::string::StringExecFns;

verus! {

/// The type of a member's value, or the end of an object.
#[derive(Clone, Copy, Debug, PartialEq, Eq, Structural)]
pub enum DataType {
    /// An object of its own.
    Nested,
    String,
    Integer32,
    Float,
    Pointer,
    WideString,
    Color,
    UnsignedInteger64,
    End,
    Integer64,
    EndAlt,
}

/// The type that a type byte stands for.
pub open spec fn data_type_of(value: u8) -> Option<DataType> {
    if value == 0 {
        Some(DataType::Nested)
    } else if value == 1 {
        Some(DataType::String)
    } else if value == 2 {
        Some(DataType::Integer32)
    } else if value == 3 {
        Some(DataType::Float)
    } else if value == 4 {
        Some(DataType::Pointer)
    } else if value == 5 {
        Some(DataType::WideString)
    } else if value == 6 {
        Some(DataType::Color)
    } else if value == 7 {
        Some(DataType::UnsignedInteger64)
    } else if value == 8 {
        Some(DataType::End)
    } else if value == 10 {
        Some(DataType::Integer64)
    } else if value == 11 {
        Some(DataType::EndAlt)
    } else {
        None
    }
}

impl DataType {
    /// The type that a type byte stands for.
    pub fn from_u8(value: u8) -> (out: Option<DataType>)
        ensures
            out == data_type_of(value),
    {
        match value {
            0 => Some(DataType::Nested),
            1 => Some(DataType::String),
            2 => Some(DataType::Integer32),
            3 => Some(DataType::Float),
            4 => Some(DataType::Pointer),
            5 => Some(DataType::WideString),
            6 => Some(DataType::Color),
            7 => Some(DataType::UnsignedInteger64),
            8 => Some(DataType::End),
            10 => Some(DataType::Integer64),
            11 => Some(DataType::EndAlt),
            _ => None,
        }
    }
}

/// A value read from a binary document.
#[derive(Debug)]
pub enum JsonValue {
    String(String),
    /// A number without a sign.
    Unsigned(u64),
    /// A number with a sign.
    Signed(i64),
    /// A floating point number of 64 bits, held as its bits.
    Float(u64),
    /// The members of an object, in the order of the document.
    Object(Vec<JsonMember>),
}

/// One member of an object.
#[derive(Debug)]
pub struct JsonMember {
    pub key: String,
    pub value: JsonValue,
}

/// A [`JsonValue`] as a mathematical value.
pub enum JsonNode {
    String(Seq<char>),
    Unsigned(u64),
    Signed(i64),
    Float(u64),
    Object(Seq<JsonField>),
}

/// A [`JsonMember`] as a mathematical value.
pub struct JsonField {
    pub key: Seq<char>,
    pub value: JsonNode,
}

impl View for JsonValue {
    type V = JsonNode;

    open spec fn view(&self) -> JsonNode
        decreases self,
    {
        match self {
            JsonValue::String(text) => JsonNode::String(text@),
            JsonValue::Unsigned(n) => JsonNode::Unsigned(*n),
            JsonValue::Signed(n) => JsonNode::Signed(*n),
            JsonValue::Float(bits) => JsonNode::Float(*bits),
            JsonValue::Object(members) => JsonNode::Object(
                Seq::new(
                    members.len() as nat,
                    |i: int|
                        if 0 <= i < members.len() {
                            members[i].view()
                        } else {
                            arbitrary()
                        },
                ),
            ),
        }
    }
}

impl View for JsonMember {
    type V = JsonField;

    open spec fn view(&self) -> JsonField
        decreases self,
    {
        JsonField { key: self.key@, value: self.value.view() }
    }
}

impl DeepView for JsonValue {
    type V = JsonNode;

    open spec fn deep_view(&self) -> JsonNode {
        self@
    }
}

impl DeepView for JsonMember {
    type V = JsonField;

    open spec fn deep_view(&self) -> JsonField {
        self@
    }
}

/// Why a binary document could not be read.
#[derive(Clone, Copy, Debug, PartialEq, Eq, Structural)]
pub enum BinaryVdfError {
    /// A type byte stands for no type.
    InvalidDataType,
    /// The document breaks off inside an object.
    UnexpectedEnd,
}

/// The line shown for an error.
pub open spec fn binary_error_message(error: BinaryVdfError) -> Seq<char> {
    match error {
        BinaryVdfError::InvalidDataType => "Invalid data type"@,
        BinaryVdfError::UnexpectedEnd => "Unexpected end of data"@,
    }
}

impl BinaryVdfError {
    /// The line shown for this error.
    pub fn message(&self) -> (out: String)
        ensures
            out@ == binary_error_message(*self),
    {
        match self {
            BinaryVdfError::InvalidDataType => String::from_str("Invalid data type"),
            BinaryVdfError::UnexpectedEnd => String::from_str("Unexpected end of data"),
        }
    }
}

/// The number that `bytes` write, least significant byte first.
pub open spec fn le_value(bytes: Seq<u8>) -> nat
    decreases bytes.len(),
{
    if bytes.len() == 0 {
        0
    } else {
        bytes[0] as nat + 256 * le_value(bytes.drop_first())
    }
}

/// The signed number that the 64 bits of `value` stand for.
pub open spec fn as_signed(value: nat) -> int {
    if value < 0x8000_0000_0000_0000 {
        value as int
    } else {
        value - 0x1_0000_0000_0000_0000
    }
}

/// The text that `String::from_utf8_lossy` makes of `bytes`.
pub uninterp spec fn utf8_lossy(bytes: Seq<u8>) -> Seq<char>;

/// Calls `String::from_utf8_lossy` on `bytes` and takes the text as a
/// `String`. The contract names the result.
#[verifier::external_body]
fn decode_lossy(bytes: &[u8]) -> (out: String)
    ensures
        out@ == utf8_lossy(bytes@),
{
    String::from_utf8_lossy(bytes).into_owned()
}

/// Calls `byteorder::LittleEndian::read_u32`, which reads the first four
/// bytes of `bytes` as a number, least significant byte first, and panics on
/// fewer than four.
#[verifier::external_body]
fn read_u32_le(bytes: &[u8]) -> (out: u32)
    requires
        bytes@.len() >= 4,
    ensures
        out == le_value(bytes@.take(4)),
{
    byteorder::LittleEndian::read_u32(bytes)
}

/// Calls `byteorder::LittleEndian::read_u64`, which reads the first eight
/// bytes of `bytes` as a number, least significant byte first, and panics on
/// fewer than eight.
#[verifier::external_body]
fn read_u64_le(bytes: &[u8]) -> (out: u64)
    requires
        bytes@.len() >= 8,
    ensures
        out == le_value(bytes@.take(8)),
{
    byteorder::LittleEndian::read_u64(bytes)
}

/// Calls `byteorder::LittleEndian::read_i64`, which reads the first eight
/// bytes of `bytes` as `read_u64` does and takes the 64 bits as a signed
/// number, and panics on fewer than eight.
#[verifier::external_body]
fn read_i64_le(bytes: &[u8]) -> (out: i64)
    requires
        bytes@.len() >= 8,
    ensures
        out == as_signed(le_value(bytes@.take(8))),
{
    byteorder::LittleEndian::read_i64(bytes)
}

/// Where the zero byte stands that ends the string starting at `pos`.
pub open spec fn string_end(bytes: Seq<u8>, pos: int) -> Option<int>
    decreases bytes.len() - pos,
{
    if pos < 0 || pos >= bytes.len() {
        None
    } else if bytes[pos] == 0 {
        Some(pos)
    } else {
        string_end(bytes, pos + 1)
    }
}

/// What reading one value gives: the value and where the next read starts.
pub struct ReadNode {
    pub value: JsonNode,
    pub next: int,
}

/// What reading an object's members gives: the members and where the next
/// read starts, which is behind the end marker.
pub struct ReadFields {
    pub fields: Seq<JsonField>,
    pub next: int,
}

/// The zero-terminated string at `pos`.
pub open spec fn string_at(bytes: Seq<u8>, pos: int) -> Result<ReadNode, BinaryVdfError> {
    match string_end(bytes, pos) {
        Some(end) => Ok(
            ReadNode { value: JsonNode::String(utf8_lossy(bytes.subrange(pos, end))), next: end + 1 },
        ),
        None => Err(BinaryVdfError::UnexpectedEnd),
    }
}

/// The value of type `kind` at `pos`, where it is no object.
pub open spec fn scalar_at(kind: DataType, bytes: Seq<u8>, pos: int) -> Result<
    ReadNode,
    BinaryVdfError,
> {
    match kind {
        DataType::String | DataType::WideString => string_at(bytes, pos),
        DataType::Integer32 | DataType::Pointer | DataType::Color => if 0 <= pos && pos + 4
            <= bytes.len() {
            Ok(
                ReadNode {
                    value: JsonNode::Unsigned(le_value(bytes.subrange(pos, pos + 4)) as u64),
                    next: pos + 4,
                },
            )
        } else {
            Err(BinaryVdfError::UnexpectedEnd)
        },
        DataType::Float => if 0 <= pos && pos + 8 <= bytes.len() {
            Ok(
                ReadNode {
                    value: JsonNode::Float(le_value(bytes.subrange(pos, pos + 8)) as u64),
                    next: pos + 8,
                },
            )
        } else {
            Err(BinaryVdfError::UnexpectedEnd)
        },
        DataType::UnsignedInteger64 => if 0 <= pos && pos + 8 <= bytes.len() {
            Ok(
                ReadNode {
                    value: JsonNode::Unsigned(le_value(bytes.subrange(pos, pos + 8)) as u64),
                    next: pos + 8,
                },
            )
        } else {
            Err(BinaryVdfError::UnexpectedEnd)
        },
        DataType::Integer64 => if 0 <= pos && pos + 8 <= bytes.len() {
            Ok(
                ReadNode {
                    value: JsonNode::Signed(
                        as_signed(le_value(bytes.subrange(pos, pos + 8))) as i64,
                    ),
                    next: pos + 8,
                },
            )
        } else {
            Err(BinaryVdfError::UnexpectedEnd)
        },
        _ => Err(BinaryVdfError::InvalidDataType),
    }
}

/// The members of the object that starts at `pos`, up to its end marker.
///
/// Each member is a type byte, a zero-terminated key and a value of that
/// type. A member of type `Nested` holds an object of its own. The markers
/// `End` and `EndAlt` end the object.
pub open spec fn fields_at(bytes: Seq<u8>, pos: int) -> Result<ReadFields, BinaryVdfError>
    decreases bytes.len() - pos,
{
    if pos < 0 || pos >= bytes.len() {
        Err(BinaryVdfError::UnexpectedEnd)
    } else {
        match data_type_of(bytes[pos]) {
            None => Err(BinaryVdfError::InvalidDataType),
            Some(DataType::End) | Some(DataType::EndAlt) => Ok(
                ReadFields { fields: Seq::empty(), next: pos + 1 },
            ),
            Some(kind) => match string_end(bytes, pos + 1) {
                None => Err(BinaryVdfError::UnexpectedEnd),
                Some(key_end) => {
                    let key = if pos < key_end <= bytes.len() {
                        utf8_lossy(bytes.subrange(pos + 1, key_end))
                    } else {
                        Seq::empty()
                    };
                    let read = if key_end < pos || key_end >= bytes.len() {
                        Err(BinaryVdfError::UnexpectedEnd)
                    } else if kind == DataType::Nested {
                        match fields_at(bytes, key_end + 1) {
                            Ok(inner) => Ok(
                                ReadNode { value: JsonNode::Object(inner.fields), next: inner.next },
                            ),
                            Err(error) => Err(error),
                        }
                    } else {
                        scalar_at(kind, bytes, key_end + 1)
                    };
                    match read {
                        Err(error) => Err(error),
                        Ok(node) => if node.next <= pos || node.next > bytes.len() {
                            Err(BinaryVdfError::UnexpectedEnd)
                        } else {
                            match fields_at(bytes, node.next) {
                                Err(error) => Err(error),
                                Ok(rest) => Ok(
                                    ReadFields {
                                        fields: seq![JsonField { key, value: node.value }]
                                            + rest.fields,
                                        next: rest.next,
                                    },
                                ),
                            }
                        },
                    }
                },
            },
        }
    }
}

/// The tree that a binary document holds: the members of its outermost
/// object. What follows that object's end marker is not read.
pub open spec fn binary_document(bytes: Seq<u8>) -> Result<JsonNode, BinaryVdfError> {
    match fields_at(bytes, 0) {
        Ok(read) => Ok(JsonNode::Object(read.fields)),
        Err(error) => Err(error),
    }
}

/// The view of an object is the sequence of the views of its members.
proof fn lemma_object_view(value: &JsonValue)
    ensures
        value matches JsonValue::Object(members) ==> value@ == JsonNode::Object(
            members.deep_view(),
        ),
{
    match value {
        JsonValue::Object(members) => {
            reveal_with_fuel(<JsonValue as View>::view, 2);
            assert(value@->Object_0 =~= members.deep_view());
        },
        _ => {},
    }
}

/// The end of a string lies at or behind its start, inside the bytes, and is
/// the same from every position up to it.
proof fn lemma_string_end(bytes: Seq<u8>, pos: int, from: int)
    requires
        0 <= pos <= from <= bytes.len(),
        forall|j: int| pos <= j < from ==> bytes[j] != 0,
    ensures
        string_end(bytes, pos) == string_end(bytes, from),
        string_end(bytes, from) is Some ==> from <= string_end(bytes, from)->0 < bytes.len(),
    decreases bytes.len() - pos,
{
    if pos < from {
        lemma_string_end(bytes, pos + 1, from);
    } else {
        lemma_string_end_bounds(bytes, from);
    }
}

/// The end of a string lies at or behind its start and inside the bytes.
proof fn lemma_string_end_bounds(bytes: Seq<u8>, pos: int)
    requires
        0 <= pos,
    ensures
        string_end(bytes, pos) is Some ==> pos <= string_end(bytes, pos)->0 < bytes.len(),
    decreases bytes.len() - pos,
{
    if pos < bytes.len() && bytes[pos] != 0 {
        lemma_string_end_bounds(bytes, pos + 1);
    }
}

/// Reads the zero-terminated string that starts at `pos`, and says where the
/// next read starts.
pub fn read_string(bytes: &[u8], pos: usize) -> (out: Result<(String, usize), BinaryVdfError>)
    ensures
        match out {
            Ok((text, next)) => {
                &&& pos < next <= bytes@.len()
                &&& string_end(bytes@, pos as int) == Some(next - 1)
                &&& text@ == utf8_lossy(bytes@.subrange(pos as int, next - 1))
            },
            Err(error) => string_end(bytes@, pos as int) is None && error
                == BinaryVdfError::UnexpectedEnd,
        },
{
    if pos > bytes.len() {
        return Err(BinaryVdfError::UnexpectedEnd);
    }
    let mut i: usize = pos;
    while i < bytes.len()
        invariant
            pos <= i <= bytes@.len(),
            forall|j: int| pos <= j < i ==> bytes@[j] != 0,
        decreases bytes@.len() - i,
    {
        if bytes[i] == 0 {
            proof {
                lemma_string_end(bytes@, pos as int, i as int);
            }
            let text = decode_lossy(slice_subrange(bytes, pos, i));
            return Ok((text, i + 1));
        }
        i += 1;
    }
    proof {
        lemma_string_end(bytes@, pos as int, i as int);
    }
    Err(BinaryVdfError::UnexpectedEnd)
}

/// Reads the value of type `kind` at `pos`, where it is no object, and says
/// where the next read starts.
pub fn read_scalar(kind: DataType, bytes: &[u8], pos: usize) -> (out: Result<
    (JsonValue, usize),
    BinaryVdfError,
>)
    ensures
        match out {
            Ok((value, next)) => scalar_at(kind, bytes@, pos as int) == Ok::<
                ReadNode,
                BinaryVdfError,
            >(ReadNode { value: value@, next: next as int }) && pos < next <= bytes@.len(),
            Err(error) => scalar_at(kind, bytes@, pos as int) == Err::<ReadNode, BinaryVdfError>(
                error,
            ),
        },
{
    let left = if pos <= bytes.len() {
        bytes.len() - pos
    } else {
        0
    };
    match kind {
        DataType::String | DataType::WideString => match read_string(bytes, pos) {
            Ok((text, next)) => Ok((JsonValue::String(text), next)),
            Err(error) => Err(error),
        },
        DataType::Integer32 | DataType::Pointer | DataType::Color => {
            if left < 4 {
                return Err(BinaryVdfError::UnexpectedEnd);
            }
            let field = slice_subrange(bytes, pos, pos + 4);
            assert(field@.take(4) =~= bytes@.subrange(pos as int, pos + 4));
            Ok((JsonValue::Unsigned(read_u32_le(field) as u64), pos + 4))
        },
        DataType::Float => {
            if left < 8 {
                return Err(BinaryVdfError::UnexpectedEnd);
            }
            let field = slice_subrange(bytes, pos, pos + 8);
            assert(field@.take(8) =~= bytes@.subrange(pos as int, pos + 8));
            Ok((JsonValue::Float(read_u64_le(field)), pos + 8))
        },
        DataType::UnsignedInteger64 => {
            if left < 8 {
                return Err(BinaryVdfError::UnexpectedEnd);
            }
            let field = slice_subrange(bytes, pos, pos + 8);
            assert(field@.take(8) =~= bytes@.subrange(pos as int, pos + 8));
            Ok((JsonValue::Unsigned(read_u64_le(field)), pos + 8))
        },
        DataType::Integer64 => {
            if left < 8 {
                return Err(BinaryVdfError::UnexpectedEnd);
            }
            let field = slice_subrange(bytes, pos, pos + 8);
            assert(field@.take(8) =~= bytes@.subrange(pos as int, pos + 8));
            Ok((JsonValue::Signed(read_i64_le(field)), pos + 8))
        },
        _ => Err(BinaryVdfError::InvalidDataType),
    }
}

/// Reads the members of the object that starts at `start`, and says where
/// the next read starts.
pub fn read_object(bytes: &[u8], start: usize) -> (out: Result<
    (Vec<JsonMember>, usize),
    BinaryVdfError,
>)
    ensures
        match out {
            Ok((members, next)) => fields_at(bytes@, start as int) == Ok::<
                ReadFields,
                BinaryVdfError,
            >(ReadFields { fields: members.deep_view(), next: next as int }) && start < next
                <= bytes@.len(),
            Err(error) => fields_at(bytes@, start as int) == Err::<ReadFields, BinaryVdfError>(
                error,
            ),
        },
    decreases bytes@.len() - start,
{
    if start >= bytes.len() {
        return Err(BinaryVdfError::UnexpectedEnd);
    }
    let mut members: Vec<JsonMember> = Vec::new();
    let mut pos: usize = start;
    loop
        invariant
            start <= pos <= bytes@.len(),
            match fields_at(bytes@, pos as int) {
                Ok(rest) => fields_at(bytes@, start as int) == Ok::<ReadFields, BinaryVdfError>(
                    ReadFields { fields: members.deep_view() + rest.fields, next: rest.next },
                ),
                Err(error) => fields_at(bytes@, start as int) == Err::<
                    ReadFields,
                    BinaryVdfError,
                >(error),
            },
        decreases bytes@.len() - pos,
    {
        if pos >= bytes.len() {
            return Err(BinaryVdfError::UnexpectedEnd);
        }
        let kind = match DataType::from_u8(bytes[pos]) {
            Some(kind) => kind,
            None => {
                return Err(BinaryVdfError::InvalidDataType);
            },
        };
        if kind == DataType::End || kind == DataType::EndAlt {
            return Ok((members, pos + 1));
        }
        let (key, after_key) = match read_string(bytes, pos + 1) {
            Ok(read) => read,
            Err(error) => {
                return Err(error);
            },
        };
        let (value, next) = if kind == DataType::Nested {
            match read_object(bytes, after_key) {
                Ok((inner, next)) => {
                    let nested = JsonValue::Object(inner);
                    proof {
                        lemma_object_view(&nested);
                    }
                    (nested, next)
                },
                Err(error) => {
                    return Err(error);
                },
            }
        } else {
            match read_scalar(kind, bytes, after_key) {
                Ok(read) => read,
                Err(error) => {
                    return Err(error);
                },
            }
        };
        let ghost before = members.deep_view();
        let member = JsonMember { key, value };
        proof {
            match fields_at(bytes@, next as int) {
                Ok(rest) => {
                    assert(before.push(member@) + rest.fields =~= before + (seq![member@]
                        + rest.fields));
                },
                Err(_) => {},
            }
        }
        members.push(member);
        assert(members.deep_view() =~= before.push(member@));
        pos = next;
    }
}

/// Reads a binary document into the tree of its values.
pub fn binary_to_json(bytes: &[u8]) -> (out: Result<JsonValue, BinaryVdfError>)
    ensures
        match out {
            Ok(value) => binary_document(bytes@) == Ok::<JsonNode, BinaryVdfError>(value@),
            Err(error) => binary_document(bytes@) == Err::<JsonNode, BinaryVdfError>(error),
        },
{
    match read_object(bytes, 0) {
        Ok((members, _)) => {
            let document = JsonValue::Object(members);
            proof {
                lemma_object_view(&document);
            }
            Ok(document)
        },
        Err(error) => Err(error),
    }
}

} // verus!
