//! The wire protocol: a packet is a JSON object with a `type` field naming
//! the variant and a `data` field holding its contents.

use vstd::prelude::*;

verus! {

/// A packet exchanged with the server.
#[derive(Debug, PartialEq, Eq)]
pub enum PacketType {
    /// Free-form chat content.
    Message(String),
    /// A server-side error code and a human-readable description.
    Error(u64, String),
}

/// The mathematical value of a packet.
pub enum PacketModel {
    Message(Seq<char>),
    Error(u64, Seq<char>),
}

impl View for PacketType {
    type V = PacketModel;

    open spec fn view(&self) -> PacketModel {
        match self {
            PacketType::Message(s) => PacketModel::Message(s@),
            PacketType::Error(code, s) => PacketModel::Error(*code, s@),
        }
    }
}

/// Why a text could not be read as a packet.
#[derive(Debug, Clone, Copy, PartialEq, Eq, Structural)]
pub enum DecodeError {
    /// The text is not a JSON object.
    Syntax,
    /// The object lacks a `type` or a `data` field.
    MissingField,
    /// The `type` field is not the name of a packet variant.
    UnknownType,
    /// The `data` field does not hold what the variant carries.
    BadData,
}

#[verifier::external_type_specification]
#[verifier::external_body]
pub struct ExJsonError(serde_json::Error);

/// The JSON string literal that serde_json writes for a string.
pub uninterp spec fn json_of_str(s: Seq<char>) -> Seq<char>;

/// The JSON array that serde_json writes for an error code and a string.
pub uninterp spec fn json_of_code_and_str(code: u64, s: Seq<char>) -> Seq<char>;

/// The members of a JSON object text, each key with the raw JSON text of its
/// value, in key order, a repeated key keeping its last value; `None` where
/// the text is not a JSON object.
pub uninterp spec fn json_object_members(text: Seq<char>) -> Option<Seq<(Seq<char>, Seq<char>)>>;

/// The string that a JSON text denotes; `None` where it is not a JSON string.
pub uninterp spec fn json_str_value(text: Seq<char>) -> Option<Seq<char>>;

/// The pair that a JSON text denotes; `None` where it is not an array of an
/// unsigned 64-bit integer and a string.
pub uninterp spec fn json_code_and_str_value(text: Seq<char>) -> Option<(u64, Seq<char>)>;

/// Relies on serde_json::to_string on a `str`: it writes the escaped string
/// literal, and cannot fail, since it writes into a `Vec`.
#[verifier::external_body]
fn write_json_str(s: &str) -> (r: String)
    ensures
        r@ == json_of_str(s@),
{
    serde_json::to_string(s).unwrap()
}

/// Relies on serde_json::to_string on a `(u64, &str)`: it writes a two-element
/// array, and cannot fail, since it writes into a `Vec`.
#[verifier::external_body]
fn write_json_code_and_str(code: u64, s: &str) -> (r: String)
    ensures
        r@ == json_of_code_and_str(code, s@),
{
    serde_json::to_string(&(code, s)).unwrap()
}

pub open spec fn members_view(m: Seq<(String, String)>) -> Seq<(Seq<char>, Seq<char>)> {
    m.map_values(|p: (String, String)| (p.0@, p.1@))
}

/// Relies on serde_json::from_str into a `BTreeMap<String, Box<RawValue>>`:
/// the keys of a JSON object, each with the raw text of its value.
#[verifier::external_body]
fn read_json_object(text: &str) -> (r: Result<Vec<(String, String)>, serde_json::Error>)
    ensures
        match r {
            Ok(m) => json_object_members(text@) == Some(members_view(m@)),
            Err(_) => json_object_members(text@) is None,
        },
{
    serde_json::from_str::<std::collections::BTreeMap<String, Box<serde_json::value::RawValue>>>(
        text,
    ).map(|m| m.into_iter().map(|(k, v)| (k, v.get().to_string())).collect())
}

/// Relies on serde_json::from_str into a `String`.
#[verifier::external_body]
fn read_json_str(text: &str) -> (r: Result<String, serde_json::Error>)
    ensures
        match r {
            Ok(s) => json_str_value(text@) == Some(s@),
            Err(_) => json_str_value(text@) is None,
        },
{
    serde_json::from_str::<String>(text)
}

/// Relies on serde_json::from_str into a `(u64, String)`.
#[verifier::external_body]
fn read_json_code_and_str(text: &str) -> (r: Result<(u64, String), serde_json::Error>)
    ensures
        match r {
            Ok(p) => json_code_and_str_value(text@) == Some((p.0, p.1@)),
            Err(_) => json_code_and_str_value(text@) is None,
        },
{
    serde_json::from_str::<(u64, String)>(text)
}

/// The wire text of a packet.
pub open spec fn encode(p: PacketModel) -> Seq<char> {
    match p {
        PacketModel::Message(s) => "{\"type\":\"Message\",\"data\":"@ + json_of_str(s) + "}"@,
        PacketModel::Error(code, s) => "{\"type\":\"Error\",\"data\":"@ + json_of_code_and_str(code, s)
            + "}"@,
    }
}

/// Writes a packet as its wire text.
pub fn to_json(data: PacketType) -> (r: String)
    ensures
        r@ == encode(data@),
{
    match data {
        PacketType::Message(s) => {
            let value = write_json_str(s.as_str());
            let mut out = String::from_str("{\"type\":\"Message\",\"data\":");
            out.append(value.as_str());
            out.append("}");
            out
        },
        PacketType::Error(code, s) => {
            let value = write_json_code_and_str(code, s.as_str());
            let mut out = String::from_str("{\"type\":\"Error\",\"data\":");
            out.append(value.as_str());
            out.append("}");
            out
        },
    }
}

/// The raw value of the first member named `key`.
pub open spec fn member(m: Seq<(Seq<char>, Seq<char>)>, key: Seq<char>) -> Option<Seq<char>>
    decreases m.len(),
{
    if m.len() == 0 {
        None
    } else if m[0].0 == key {
        Some(m[0].1)
    } else {
        member(m.drop_first(), key)
    }
}

/// The packet that an object's members denote, given how serde_json reads
/// the raw text of each value.
pub open spec fn decode_members(m: Seq<(Seq<char>, Seq<char>)>) -> Result<PacketModel, DecodeError> {
    match (member(m, "type"@), member(m, "data"@)) {
        (Some(tag_raw), Some(data_raw)) => match json_str_value(tag_raw) {
            Some(tag) => if tag == "Message"@ {
                match json_str_value(data_raw) {
                    Some(s) => Ok(PacketModel::Message(s)),
                    None => Err(DecodeError::BadData),
                }
            } else if tag == "Error"@ {
                match json_code_and_str_value(data_raw) {
                    Some((code, s)) => Ok(PacketModel::Error(code, s)),
                    None => Err(DecodeError::BadData),
                }
            } else {
                Err(DecodeError::UnknownType)
            },
            None => Err(DecodeError::UnknownType),
        },
        _ => Err(DecodeError::MissingField),
    }
}

/// The packet that a wire text denotes, or why there is none.
pub open spec fn decode(text: Seq<char>) -> Result<PacketModel, DecodeError> {
    match json_object_members(text) {
        Some(m) => decode_members(m),
        None => Err(DecodeError::Syntax),
    }
}

/// The view of a decoding result.
pub open spec fn decoded_view(r: Result<PacketType, DecodeError>) -> Result<PacketModel, DecodeError> {
    match r {
        Ok(p) => Ok(p@),
        Err(e) => Err(e),
    }
}

/// The index of the first member named `key`.
fn find_member(members: &Vec<(String, String)>, key: &String) -> (r: Option<usize>)
    ensures
        match r {
            Some(i) => i < members@.len() && member(members_view(members@), key@) == Some(
                members@[i as int].1@,
            ),
            None => member(members_view(members@), key@) is None,
        },
{
    let ghost mv = members_view(members@);
    let ghost n = mv.len();
    let mut i: usize = 0;
    proof {
        assert(mv.subrange(0, n as int) =~= mv);
    }
    while i < members.len()
        invariant
            i <= members@.len(),
            mv == members_view(members@),
            n == mv.len(),
            member(mv, key@) == member(mv.subrange(i as int, n as int), key@),
        decreases members@.len() - i,
    {
        if members[i].0 == *key {
            proof {
                assert(mv.subrange(i as int, n as int)[0] == mv[i as int]);
            }
            return Some(i);
        }
        proof {
            assert(mv.subrange(i as int + 1, n as int) =~= mv.subrange(i as int, n as int).drop_first());
        }
        i += 1;
    }
    proof {
        assert(mv.subrange(n as int, n as int).len() == 0);
    }
    None
}

/// Reads a packet from the members of a JSON object, each key with the raw
/// text of its value.
pub fn packet_from_members(members: &Vec<(String, String)>) -> (r: Result<PacketType, DecodeError>)
    ensures
        decoded_view(r) == decode_members(members_view(members@)),
{
    let type_key = String::from_str("type");
    let data_key = String::from_str("data");
    let (ti, di) = match (find_member(members, &type_key), find_member(members, &data_key)) {
        (Some(ti), Some(di)) => (ti, di),
        _ => {
            return Err(DecodeError::MissingField);
        },
    };
    let tag = match read_json_str(members[ti].1.as_str()) {
        Ok(tag) => tag,
        Err(_) => {
            return Err(DecodeError::UnknownType);
        },
    };
    let data_raw = members[di].1.as_str();
    if tag == String::from_str("Message") {
        match read_json_str(data_raw) {
            Ok(s) => Ok(PacketType::Message(s)),
            Err(_) => Err(DecodeError::BadData),
        }
    } else if tag == String::from_str("Error") {
        match read_json_code_and_str(data_raw) {
            Ok((code, s)) => Ok(PacketType::Error(code, s)),
            Err(_) => Err(DecodeError::BadData),
        }
    } else {
        Err(DecodeError::UnknownType)
    }
}

/// Reads a packet from its wire text.
pub fn from_json(text: &str) -> (r: Result<PacketType, DecodeError>)
    ensures
        decoded_view(r) == decode(text@),
{
    match read_json_object(text) {
        Ok(members) => packet_from_members(&members),
        Err(_) => Err(DecodeError::Syntax),
    }
}

} // verus!
