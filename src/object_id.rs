use vstd::prelude::*;

verus! {

/// The storage layer's twelve-byte document identifier.
#[derive(Clone, Copy, Debug, PartialEq, Eq)]
pub struct ObjectId {
    pub bytes: [u8; 12],
}

pub open spec fn is_hex_digit(c: char) -> bool {
    ('0' <= c && c <= '9') || ('a' <= c && c <= 'f') || ('A' <= c && c <= 'F')
}

/// The value of a hexadecimal digit, in either case.
pub open spec fn hex_value(c: char) -> int {
    if '0' <= c && c <= '9' {
        c as int - '0' as int
    } else if 'a' <= c && c <= 'f' {
        c as int - 'a' as int + 10
    } else {
        c as int - 'A' as int + 10
    }
}

/// `s` is the text of an identifier: twenty-four hexadecimal digits.
pub open spec fn is_object_id_text(s: Seq<char>) -> bool {
    s.len() == 24 && forall|i: int| 0 <= i < 24 ==> #[trigger] is_hex_digit(s[i])
}

/// The bytes that the digit pairs of `s` spell, most significant digit first.
pub open spec fn object_id_bytes(s: Seq<char>) -> Seq<u8> {
    Seq::new(12, |i: int| (16 * hex_value(s[2 * i]) + hex_value(s[2 * i + 1])) as u8)
}

/// Relies on bson's `ObjectId::parse_str`, which hex-decodes the string and
/// accepts it exactly when that gives twelve bytes.
#[verifier::external_body]
fn parse_hex_id(s: &str) -> (r: Option<[u8; 12]>)
    ensures
        r is Some <==> is_object_id_text(s@),
        r is Some ==> r->0@ == object_id_bytes(s@),
{
    mongodb::bson::oid::ObjectId::parse_str(s).ok().map(|o| o.bytes())
}

/// The lower-case hexadecimal digit of `v`, for `0 <= v < 16`.
pub open spec fn lower_hex_digit(v: int) -> char {
    "0123456789abcdef"@[v]
}

/// Two lower-case hexadecimal digits for each byte of `b`, high digit first.
pub open spec fn hex_text(b: Seq<u8>) -> Seq<char> {
    Seq::new(
        2 * b.len(),
        |i: int|
            if i % 2 == 0 {
                lower_hex_digit(b[i / 2] as int / 16)
            } else {
                lower_hex_digit(b[i / 2] as int % 16)
            },
    )
}

/// Relies on bson's `ObjectId::to_hex`, which is `hex::encode` of the twelve
/// bytes: lower-case digits, two per byte, high digit first.
#[verifier::external_body]
fn encode_hex_id(bytes: [u8; 12]) -> (r: String)
    ensures
        r@ == hex_text(bytes@),
{
    mongodb::bson::oid::ObjectId::from_bytes(bytes).to_hex()
}

proof fn lemma_lower_hex_digit(v: int)
    requires
        0 <= v < 16,
    ensures
        is_hex_digit(lower_hex_digit(v)),
        hex_value(lower_hex_digit(v)) == v,
{
    reveal_strlit("0123456789abcdef");
}

/// The text of an identifier is accepted by the parser and spells the same
/// twelve bytes: an identifier survives being written out and read back.
pub proof fn lemma_hex_text_round_trip(id: ObjectId)
    ensures
        is_object_id_text(hex_text(id.bytes@)),
        object_id_bytes(hex_text(id.bytes@)) == id.bytes@,
{
    let b = id.bytes@;
    let t = hex_text(b);
    assert forall|i: int| 0 <= i < 24 implies #[trigger] is_hex_digit(t[i]) by {
        lemma_lower_hex_digit(b[i / 2] as int / 16);
        lemma_lower_hex_digit(b[i / 2] as int % 16);
    }
    assert forall|j: int| 0 <= j < 12 implies #[trigger] object_id_bytes(t)[j] == b[j] by {
        lemma_lower_hex_digit(b[j] as int / 16);
        lemma_lower_hex_digit(b[j] as int % 16);
        assert(t[2 * j] == lower_hex_digit(b[j] as int / 16));
        assert(t[2 * j + 1] == lower_hex_digit(b[j] as int % 16));
    }
    assert(object_id_bytes(t) =~= b);
}

impl ObjectId {
    /// The identifier's text form: twenty-four lower-case hexadecimal digits.
    pub fn to_hex(&self) -> (r: String)
        ensures
            r@ == hex_text(self.bytes@),
            is_object_id_text(r@),
    {
        proof {
            lemma_hex_text_round_trip(*self);
        }
        encode_hex_id(self.bytes)
    }

    /// Reads an identifier from its text form; `None` when the text is not
    /// twenty-four hexadecimal digits.
    pub fn parse_str(s: &str) -> (r: Option<ObjectId>)
        ensures
            r is Some <==> is_object_id_text(s@),
            r is Some ==> r->0.bytes@ == object_id_bytes(s@),
    {
        match parse_hex_id(s) {
            Some(bytes) => Some(ObjectId { bytes }),
            None => None,
        }
    }
}

} // verus!
