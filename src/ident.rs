//! Document identifiers: twelve bytes, written as 24 hexadecimal digits.
use vstd::prelude::*;

verus! {

#[verifier::external_type_specification]
#[verifier::external_body]
pub struct ExObjectIdError(mongodb::bson::oid::Error);

/// The identifier of a document within its collection.
#[derive(Clone, Copy, Debug)]
pub struct DocId {
    pub bytes: [u8; 12],
}

/// Why a piece of text is not an identifier.
#[derive(Clone, Copy, Debug, PartialEq, Eq, Structural)]
pub enum IdError {
    /// Not exactly 24 hexadecimal digits.
    Malformed,
}

impl View for DocId {
    type V = Seq<u8>;

    open spec fn view(&self) -> Seq<u8> {
        self.bytes@
    }
}

pub open spec fn is_hex_digit(c: char) -> bool {
    ('0' <= c && c <= '9') || ('a' <= c && c <= 'f') || ('A' <= c && c <= 'F')
}

pub open spec fn hex_value(c: char) -> int {
    if '0' <= c && c <= '9' {
        c as int - '0' as int
    } else if 'a' <= c && c <= 'f' {
        c as int - 'a' as int + 10
    } else {
        c as int - 'A' as int + 10
    }
}

/// The text of an identifier: exactly 24 hexadecimal digits, in either case.
pub open spec fn is_id_text(s: Seq<char>) -> bool {
    s.len() == 24 && forall|i: int| 0 <= i < 24 ==> is_hex_digit(#[trigger] s[i])
}

/// The twelve bytes that the text of an identifier stands for, high digit first.
pub open spec fn id_bytes_of(s: Seq<char>) -> Seq<u8> {
    Seq::new(12, |i: int| (16 * hex_value(s[2 * i]) + hex_value(s[2 * i + 1])) as u8)
}

/// Relies on bson's `ObjectId::parse_str`: it accepts exactly the strings of
/// 24 hexadecimal digits (upper or lower case) and decodes each pair of digits
/// into one byte, high digit first.
#[verifier::external_body]
fn parse_object_id(s: &str) -> (r: Result<DocId, mongodb::bson::oid::Error>)
    ensures
        r is Ok <==> is_id_text(s@),
        r is Ok ==> r->Ok_0@ == id_bytes_of(s@),
{
    match mongodb::bson::oid::ObjectId::parse_str(s) {
        Ok(oid) => Ok(DocId { bytes: oid.bytes() }),
        Err(e) => Err(e),
    }
}

/// Relies on bson's `ObjectId::to_hex`: two lower-case hexadecimal digits for
/// each byte, high digit first.
#[verifier::external_body]
fn object_id_hex(id: &DocId) -> (r: String)
    ensures
        is_id_text(r@),
        id_bytes_of(r@) == id@,
{
    mongodb::bson::oid::ObjectId::from_bytes(id.bytes).to_hex()
}

/// Relies on bson's `ObjectId::new`: a timestamp, a per-process random value
/// and a counter. Nothing is promised of the bytes. bson panics only when the
/// system clock reads before 1970 or after 2106.
#[verifier::external_body]
fn new_object_id() -> (r: DocId) {
    DocId { bytes: mongodb::bson::oid::ObjectId::new().bytes() }
}

/// Reads the text of an identifier, as it comes in a request path.
pub fn parse_id(text: &str) -> (r: Result<DocId, IdError>)
    ensures
        r is Ok <==> is_id_text(text@),
        r is Ok ==> r->Ok_0@ == id_bytes_of(text@),
        r is Err ==> r->Err_0 == IdError::Malformed,
{
    match parse_object_id(text) {
        Ok(id) => Ok(id),
        Err(_) => Err(IdError::Malformed),
    }
}

impl DocId {
    /// A fresh identifier, as the store assigns on creation.
    pub fn generate() -> (r: DocId) {
        new_object_id()
    }

    /// The 24-digit text of this identifier, which `parse_id` reads back.
    pub fn to_hex(&self) -> (r: String)
        ensures
            is_id_text(r@),
            id_bytes_of(r@) == self@,
    {
        object_id_hex(self)
    }

    /// Whether two identifiers hold the same bytes.
    pub fn same(&self, other: &DocId) -> (r: bool)
        ensures
            r == (self@ == other@),
    {
        let mut i: usize = 0;
        while i < 12
            invariant
                0 <= i <= 12,
                forall|j: int| 0 <= j < i ==> self@[j] == other@[j],
            decreases 12 - i,
        {
            if self.bytes[i] != other.bytes[i] {
                return false;
            }
            i = i + 1;
        }
        assert(self@ =~= other@);
        true
    }
}

} // verus!
