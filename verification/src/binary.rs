//! Binary content, written on the wire as base64 text.
//!
//! The text is that of the standard alphabet with padding. The encoder and
//! the decoder are those of the `base64` crate; this module states what they
//! compute and proves that the text determines the bytes.

use vstd::prelude::*;
use crate::error::{SchemaError, SchemaFault};
use crate::json::{JsonTree, JsonValue};
use crate::wire::Wire;

verus! {

/// The character of the standard alphabet that stands for six bits.
pub open spec fn sextet_char(v: int) -> char {
    if v < 26 {
        (65 + v) as char
    } else if v < 52 {
        (71 + v) as char
    } else if v < 62 {
        (v - 4) as char
    } else if v == 62 {
        '+'
    } else {
        '/'
    }
}

/// The base64 text of a byte sequence: four characters for every three bytes,
/// and `=` in place of the characters that a last group of one or two bytes
/// does not fill.
pub open spec fn base64_text(bytes: Seq<u8>) -> Seq<char>
    decreases bytes.len(),
{
    if bytes.len() == 0 {
        Seq::empty()
    } else if bytes.len() == 1 {
        let b0 = bytes[0] as int;
        seq![sextet_char(b0 / 4), sextet_char((b0 % 4) * 16), '=', '=']
    } else if bytes.len() == 2 {
        let b0 = bytes[0] as int;
        let b1 = bytes[1] as int;
        seq![
            sextet_char(b0 / 4),
            sextet_char((b0 % 4) * 16 + b1 / 16),
            sextet_char((b1 % 16) * 4),
            '=',
        ]
    } else {
        let b0 = bytes[0] as int;
        let b1 = bytes[1] as int;
        let b2 = bytes[2] as int;
        seq![
            sextet_char(b0 / 4),
            sextet_char((b0 % 4) * 16 + b1 / 16),
            sextet_char((b1 % 16) * 4 + b2 / 64),
            sextet_char(b2 % 64),
        ] + base64_text(bytes.skip(3))
    }
}

/// The bytes of which `text` is the base64 text, if there are any.
pub open spec fn base64_bytes(text: Seq<char>) -> Option<Seq<u8>> {
    if exists|bytes: Seq<u8>| base64_text(bytes) == text {
        Some(choose|bytes: Seq<u8>| base64_text(bytes) == text)
    } else {
        None
    }
}

/// Two groups of six bits with the same character are the same, and none has
/// the padding character.
pub proof fn lemma_sextet_char(a: int, b: int)
    requires
        0 <= a < 64,
        0 <= b < 64,
    ensures
        sextet_char(a) == sextet_char(b) ==> a == b,
        sextet_char(a) != '=',
{
}

/// The text has four characters for every group of up to three bytes.
pub proof fn lemma_base64_len(bytes: Seq<u8>)
    ensures
        base64_text(bytes).len() == 4 * ((bytes.len() + 2) / 3),
    decreases bytes.len(),
{
    if bytes.len() >= 3 {
        lemma_base64_len(bytes.skip(3));
    }
}

/// The text determines the bytes.
pub proof fn lemma_base64_injective(a: Seq<u8>, b: Seq<u8>)
    requires
        base64_text(a) == base64_text(b),
    ensures
        a == b,
    decreases a.len(),
{
    lemma_base64_len(a);
    lemma_base64_len(b);
    let ta = base64_text(a);
    let tb = base64_text(b);
    if a.len() == 0 || b.len() == 0 {
        assert(a =~= b);
    } else {
        let a0 = a[0] as int;
        let b0 = b[0] as int;
        lemma_sextet_char(a0 / 4, b0 / 4);
        assert(ta[0] == sextet_char(a0 / 4));
        assert(tb[0] == sextet_char(b0 / 4));
        if a.len() == 1 {
            assert(ta[2] == '=');
            if b.len() >= 2 {
                let b1 = b[1] as int;
                lemma_sextet_char((b1 % 16) * 4, 0);
                if b.len() >= 3 {
                    lemma_sextet_char((b1 % 16) * 4 + b[2] as int / 64, 0);
                    assert(tb[2] == sextet_char((b1 % 16) * 4 + b[2] as int / 64));
                } else {
                    assert(tb[2] == sextet_char((b1 % 16) * 4));
                }
            } else {
                lemma_sextet_char((a0 % 4) * 16, (b0 % 4) * 16);
                assert(ta[1] == sextet_char((a0 % 4) * 16));
                assert(tb[1] == sextet_char((b0 % 4) * 16));
                assert(a =~= b);
            }
        } else if a.len() == 2 {
            let a1 = a[1] as int;
            assert(ta[2] == sextet_char((a1 % 16) * 4));
            assert(ta[3] == '=');
            lemma_sextet_char((a1 % 16) * 4, 0);
            if b.len() == 1 {
                assert(tb[2] == '=');
            } else if b.len() == 2 {
                let b1 = b[1] as int;
                lemma_sextet_char((a0 % 4) * 16 + a1 / 16, (b0 % 4) * 16 + b1 / 16);
                lemma_sextet_char((a1 % 16) * 4, (b1 % 16) * 4);
                assert(ta[1] == sextet_char((a0 % 4) * 16 + a1 / 16));
                assert(tb[1] == sextet_char((b0 % 4) * 16 + b1 / 16));
                assert(tb[2] == sextet_char((b1 % 16) * 4));
                assert(a =~= b);
            } else {
                lemma_sextet_char(b[2] as int % 64, 0);
                assert(tb[3] == sextet_char(b[2] as int % 64));
            }
        } else {
            let a1 = a[1] as int;
            let a2 = a[2] as int;
            assert(ta[1] == sextet_char((a0 % 4) * 16 + a1 / 16));
            assert(ta[2] == sextet_char((a1 % 16) * 4 + a2 / 64));
            assert(ta[3] == sextet_char(a2 % 64));
            lemma_sextet_char((a1 % 16) * 4 + a2 / 64, 0);
            lemma_sextet_char(a2 % 64, 0);
            if b.len() == 1 {
                assert(tb[2] == '=');
            } else if b.len() == 2 {
                assert(tb[3] == '=');
            } else {
                let b1 = b[1] as int;
                let b2 = b[2] as int;
                assert(tb[1] == sextet_char((b0 % 4) * 16 + b1 / 16));
                assert(tb[2] == sextet_char((b1 % 16) * 4 + b2 / 64));
                assert(tb[3] == sextet_char(b2 % 64));
                lemma_sextet_char((a0 % 4) * 16 + a1 / 16, (b0 % 4) * 16 + b1 / 16);
                lemma_sextet_char((a1 % 16) * 4 + a2 / 64, (b1 % 16) * 4 + b2 / 64);
                lemma_sextet_char(a2 % 64, b2 % 64);
                assert(a0 == b0 && a1 == b1 && a2 == b2);
                assert(ta.skip(4) =~= base64_text(a.skip(3)));
                assert(tb.skip(4) =~= base64_text(b.skip(3)));
                lemma_base64_injective(a.skip(3), b.skip(3));
                assert(a =~= seq![a[0], a[1], a[2]] + a.skip(3));
                assert(b =~= seq![b[0], b[1], b[2]] + b.skip(3));
            }
        }
    }
}

/// Reading the text of a byte sequence gives the bytes back.
pub proof fn lemma_base64_round_trip(bytes: Seq<u8>)
    ensures
        base64_bytes(base64_text(bytes)) == Some(bytes),
{
    let found = choose|b: Seq<u8>| base64_text(b) == base64_text(bytes);
    lemma_base64_injective(found, bytes);
}

#[verifier::external_type_specification]
#[verifier::external_body]
pub struct ExDecodeError(::base64::DecodeError);

/// `base64::Engine::encode_string` on the engine `STANDARD`, with an empty
/// string to write to. The result is the text of the standard alphabet with
/// padding, as [`base64_text`] states it.
#[verifier::external_body]
fn standard_encode(bytes: &Vec<u8>) -> (out: String)
    ensures
        out@ == base64_text(bytes@),
{
    let mut out = String::new();
    ::base64::Engine::encode_string(&::base64::engine::general_purpose::STANDARD, bytes, &mut out);
    out
}

/// `base64::Engine::decode` on the engine `STANDARD`, which asks for the
/// standard alphabet, for canonical padding and for no set bits behind the
/// last byte. So it accepts a text if and only if it is the text of some
/// bytes, and returns those bytes.
#[verifier::external_body]
fn standard_decode(text: &str) -> (out: Result<Vec<u8>, ::base64::DecodeError>)
    ensures
        match out {
            Ok(bytes) => base64_text(bytes@) == text@,
            Err(_) => forall|bytes: Seq<u8>| base64_text(bytes) != text@,
        },
{
    ::base64::Engine::decode(&::base64::engine::general_purpose::STANDARD, text)
}

/// The base64 text of `bytes`.
pub fn encode_base64(bytes: &Vec<u8>) -> (out: String)
    ensures
        out@ == base64_text(bytes@),
        base64_bytes(out@) == Some(bytes@),
{
    proof {
        lemma_base64_round_trip(bytes@);
    }
    standard_encode(bytes)
}

/// The bytes of which `text` is the base64 text. A text that is the base64
/// text of no bytes is refused as an invalid encoding of `of_type`.
pub fn decode_base64(text: &str, of_type: &str) -> (out: Result<Vec<u8>, SchemaError>)
    ensures
        match out {
            Ok(bytes) => base64_bytes(text@) == Some(bytes@),
            Err(e) => base64_bytes(text@) is None && e@ == (SchemaFault::InvalidEncoding {
                of_type: of_type@,
            }),
        },
{
    match standard_decode(text) {
        Ok(bytes) => {
            proof {
                lemma_base64_round_trip(bytes@);
            }
            Ok(bytes)
        },
        Err(_) => Err(SchemaError::InvalidEncoding { of_type: String::from_str(of_type) }),
    }
}

/// A byte sequence that travels as base64 text.
#[derive(Debug, Clone, PartialEq, Eq, Default)]
pub struct Base64Bytes {
    pub bytes: Vec<u8>,
}

impl DeepView for Base64Bytes {
    type V = Seq<u8>;

    open spec fn deep_view(&self) -> Seq<u8> {
        self.bytes@
    }
}

impl Wire for Base64Bytes {
    open spec fn encode(m: Seq<u8>) -> JsonTree {
        JsonTree::String(base64_text(m))
    }

    open spec fn decode(t: JsonTree) -> Result<Seq<u8>, SchemaFault> {
        match t {
            JsonTree::String(text) => match base64_bytes(text) {
                Some(bytes) => Ok(bytes),
                None => Err(SchemaFault::InvalidEncoding { of_type: "base64"@ }),
            },
            _ => Err(SchemaFault::Malformed { of_type: "base64"@ }),
        }
    }

    open spec fn valid(m: Seq<u8>) -> bool {
        true
    }

    fn serialize(&self) -> (out: JsonValue) {
        JsonValue::String(encode_base64(&self.bytes))
    }

    fn deserialize(value: &JsonValue) -> (out: Result<Base64Bytes, SchemaError>) {
        match value {
            JsonValue::String(text) => {
                let bytes = decode_base64(text.as_str(), "base64")?;
                Ok(Base64Bytes { bytes })
            },
            _ => Err(SchemaError::Malformed { of_type: String::from_str("base64") }),
        }
    }

    proof fn round_trip(m: Seq<u8>) {
        lemma_base64_round_trip(m);
    }

    proof fn decoded_valid(t: JsonTree) {
    }
}

} // verus!
