use identity_broker::broker_proto::{ClientRequest, Operation};
use identity_broker::codec::{decode_request, encode_request};
use serde::de::{Deserialize, Deserializer, EnumAccess, Error, SeqAccess, VariantAccess, Visitor};
use serde::ser::{Serialize, SerializeTupleVariant, Serializer};
use std::fmt;

const VARIANTS: [&str; 8] = [
    "acquireTokenInteractively",
    "acquireTokenSilently",
    "getAccounts",
    "removeAccount",
    "acquirePrtSsoCookie",
    "generateSignedHttpRequest",
    "cancelInteractiveFlow",
    "getLinuxBrokerVersion",
];

/// A request as a serializer framework sees it: an enum of eight tuple
/// variants, each of three strings.
#[derive(Debug, PartialEq)]
struct Tagged(usize, String, String, String);

struct VariantName(usize);

struct VariantNameVisitor;

struct FieldsVisitor;

struct TaggedVisitor;

impl<'de> Visitor<'de> for VariantNameVisitor {
    type Value = VariantName;

    fn expecting(&self, f: &mut fmt::Formatter) -> fmt::Result {
        f.write_str("variant identifier")
    }

    fn visit_str<E: Error>(self, value: &str) -> Result<VariantName, E> {
        match VARIANTS.iter().position(|name| *name == value) {
            Some(index) => Ok(VariantName(index)),
            None => Err(E::unknown_variant(value, &VARIANTS)),
        }
    }
}

impl<'de> Deserialize<'de> for VariantName {
    fn deserialize<D: Deserializer<'de>>(deserializer: D) -> Result<VariantName, D::Error> {
        deserializer.deserialize_identifier(VariantNameVisitor)
    }
}

impl<'de> Visitor<'de> for FieldsVisitor {
    type Value = (String, String, String);

    fn expecting(&self, f: &mut fmt::Formatter) -> fmt::Result {
        f.write_str("tuple variant with 3 elements")
    }

    fn visit_seq<A: SeqAccess<'de>>(self, mut seq: A) -> Result<(String, String, String), A::Error> {
        let first = match seq.next_element::<String>()? {
            Some(value) => value,
            None => return Err(A::Error::invalid_length(0, &self)),
        };
        let second = match seq.next_element::<String>()? {
            Some(value) => value,
            None => return Err(A::Error::invalid_length(1, &self)),
        };
        let third = match seq.next_element::<String>()? {
            Some(value) => value,
            None => return Err(A::Error::invalid_length(2, &self)),
        };
        Ok((first, second, third))
    }
}

impl<'de> Visitor<'de> for TaggedVisitor {
    type Value = Tagged;

    fn expecting(&self, f: &mut fmt::Formatter) -> fmt::Result {
        f.write_str("enum ClientRequest")
    }

    fn visit_enum<A: EnumAccess<'de>>(self, data: A) -> Result<Tagged, A::Error> {
        let (name, variant) = data.variant::<VariantName>()?;
        let fields = variant.tuple_variant(3, FieldsVisitor)?;
        Ok(Tagged(name.0, fields.0, fields.1, fields.2))
    }
}

impl<'de> Deserialize<'de> for Tagged {
    fn deserialize<D: Deserializer<'de>>(deserializer: D) -> Result<Tagged, D::Error> {
        deserializer.deserialize_enum("ClientRequest", &VARIANTS, TaggedVisitor)
    }
}

impl Serialize for Tagged {
    fn serialize<S: Serializer>(&self, serializer: S) -> Result<S::Ok, S::Error> {
        let mut variant =
            serializer.serialize_tuple_variant("ClientRequest", self.0 as u32, VARIANTS[self.0], 3)?;
        variant.serialize_field(&self.1)?;
        variant.serialize_field(&self.2)?;
        variant.serialize_field(&self.3)?;
        variant.end()
    }
}

fn tagged_of(request: ClientRequest) -> Tagged {
    let (operation, a, b, c) = request.into_parts();
    let index = Operation::all().iter().position(|o| *o == operation).unwrap();
    Tagged(index, a, b, c)
}

/// A small generator of numbers that look random and are the same in every
/// run.
struct Dice(u64);

impl Dice {
    fn roll(&mut self, sides: usize) -> usize {
        self.0 = self.0.wrapping_mul(6364136223846793005).wrapping_add(1442695040888963407);
        ((self.0 >> 33) as usize) % sides
    }

    fn text(&mut self) -> String {
        const LETTERS: [&str; 24] = [
            "a", "b", "0", "{", "}", "[", "]", ":", ",", " ", "\"", "\\", "/", "\n", "\t", "\r",
            "\u{0}", "\u{1f}", "\u{7f}", "\u{e9}", "\u{20ac}", "\u{1f600}", "u", "\u{8}",
        ];
        let length = self.roll(6);
        let mut text = String::new();
        for _ in 0..length {
            text.push_str(LETTERS[self.roll(LETTERS.len())]);
        }
        text
    }

    fn payload(&mut self) -> Vec<u8> {
        const PIECES: [&[u8]; 40] = [
            b"{", b"}", b"[", b"]", b":", b",", b"\"", b"\"", b"\"", b"\\", b" ", b"\n", b"\t",
            b"\r", b"a", b"u", b"0", b"1", b"d", b"8", b"D", b"F", b"\\u", b"\\ud83d", b"\\ude00",
            b"\\u0041", b"\\n", b"\\\"", b"\\\\", b"\\/", b"\\x", b"\x00", b"\x1f", b"\xc3",
            b"\xa9", b"\xff", b"getAccounts", b"\"getAccounts\"", b"\"a\"", b"null",
        ];
        let length = self.roll(14);
        let mut bytes = Vec::new();
        for _ in 0..length {
            bytes.extend_from_slice(PIECES[self.roll(PIECES.len())]);
        }
        bytes
    }

    fn damage(&mut self, bytes: &mut Vec<u8>) {
        const MARKS: [u8; 16] = [
            b'{', b'}', b'[', b']', b':', b',', b'"', b'\\', b' ', b'\n', b'u', b'0', 0x00, 0x1f,
            0xc3, 0xff,
        ];
        let at = self.roll(bytes.len() + 1);
        match self.roll(4) {
            0 => bytes.truncate(at),
            1 => bytes.insert(at, MARKS[self.roll(MARKS.len())]),
            2 => {
                if at < bytes.len() {
                    bytes.remove(at);
                }
            }
            _ => {
                if at < bytes.len() {
                    bytes[at] = MARKS[self.roll(MARKS.len())];
                }
            }
        }
    }
}

fn agree(bytes: &[u8]) {
    let ours = decode_request(bytes).map(tagged_of);
    let theirs = serde_json::from_slice::<Tagged>(bytes).ok();
    assert_eq!(ours, theirs, "{:?}", String::from_utf8_lossy(bytes));
}

#[test]
fn requests_are_written_as_an_enum_is_serialized() {
    let mut dice = Dice(1);
    for round in 0..4000 {
        let operation = Operation::all()[round % 8];
        let request = ClientRequest::new(operation, dice.text(), dice.text(), dice.text());
        let written = encode_request(&request);
        let expected = serde_json::to_vec(&tagged_of(request)).unwrap();
        assert_eq!(written, expected);
    }
}

#[test]
fn written_requests_are_read_as_an_enum_is_deserialized() {
    let mut dice = Dice(2);
    for round in 0..4000 {
        let operation = Operation::all()[round % 8];
        let request = ClientRequest::new(operation, dice.text(), dice.text(), dice.text());
        agree(&encode_request(&request));
    }
}

#[test]
fn damaged_requests_are_read_as_an_enum_is_deserialized() {
    let mut dice = Dice(3);
    for round in 0..20000 {
        let operation = Operation::all()[round % 8];
        let request = ClientRequest::new(operation, dice.text(), dice.text(), dice.text());
        let mut bytes = encode_request(&request);
        for _ in 0..(1 + dice.roll(3)) {
            dice.damage(&mut bytes);
        }
        agree(&bytes);
    }
}

#[test]
fn arbitrary_bytes_are_read_as_an_enum_is_deserialized() {
    let mut dice = Dice(4);
    for _ in 0..20000 {
        agree(&dice.payload());
    }
}

#[test]
fn requests_with_white_space_and_escapes_are_read_as_an_enum_is_deserialized() {
    const GAPS: [&[u8]; 6] = [b"", b" ", b"\n", b"\t\r", b"  ", b"\x0b"];
    const STRINGS: [&[u8]; 12] = [
        b"\"\"",
        b"\"a\"",
        b"\"\\u0041\\u00e9\"",
        b"\"\\ud83d\\ude00\"",
        b"\"\\ud83d\"",
        b"\"\\udc00\"",
        b"\"\\uD834\\uDD1E\"",
        b"\"\\b\\f\\n\\r\\t\\/\\\\\\\"\"",
        b"\"\xc3\xa9\"",
        b"\"\xc3\"",
        b"\"\\u00\"",
        b"\"a\nb\"",
    ];
    let mut dice = Dice(5);
    for round in 0..20000 {
        let mut bytes: Vec<u8> = Vec::new();
        let tokens: [&[u8]; 11] = [
            b"{",
            if round % 7 == 0 { b"\"get\\u0041ccounts\"" } else { b"\"getAccounts\"" },
            b":",
            b"[",
            STRINGS[dice.roll(STRINGS.len())],
            b",",
            STRINGS[dice.roll(STRINGS.len())],
            b",",
            STRINGS[dice.roll(STRINGS.len())],
            b"]",
            b"}",
        ];
        for token in tokens {
            bytes.extend_from_slice(GAPS[dice.roll(GAPS.len())]);
            bytes.extend_from_slice(token);
        }
        bytes.extend_from_slice(GAPS[dice.roll(GAPS.len())]);
        agree(&bytes);
    }
}
