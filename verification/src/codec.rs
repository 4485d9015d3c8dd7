//! Encoding of a finished accumulator into a transport-safe artifact, and
//! the client-side decoding back to the ordered record list.
use vstd::prelude::*;
use vstd::string::StringExecFns;
use crate::data::HTMLData;
use base64::Engine;

verus! {

/// What the binary format produces for a record list. Relied-on calls state
/// their results with this name; it is a function of the records alone.
pub uninterp spec fn cbor_of(records: Seq<Option<Seq<u8>>>) -> Seq<u8>;

/// What the transport encoding produces for a byte string. Relied-on calls
/// state their results with this name; it is a function of the bytes alone.
pub uninterp spec fn base64_of(bytes: Seq<u8>) -> Seq<char>;

#[verifier::external_type_specification]
#[verifier::external_body]
pub struct ExIoError(std::io::Error);

#[verifier::external_type_specification]
#[verifier::external_body]
#[verifier::reject_recursive_types(T)]
pub struct ExCborSerError<T>(ciborium::ser::Error<T>);

#[verifier::external_type_specification]
#[verifier::external_body]
#[verifier::reject_recursive_types(T)]
pub struct ExCborDeError<T>(ciborium::de::Error<T>);

#[verifier::external_type_specification]
#[verifier::external_body]
pub struct ExBase64DecodeError(base64::DecodeError);

/// Relies on ciborium::into_writer: the compact self-describing binary
/// encoding of the record list, a deterministic function of the records
/// alone, written here into a fresh byte buffer. The call always succeeds:
/// its only failures are writer errors, and writing to a byte vector never
/// fails, while the serializer raises a value error on no arm that a list
/// of optional byte strings reaches.
#[verifier::external_body]
fn cbor_encode_records(records: &Vec<Option<Vec<u8>>>) -> (r: Result<
    Vec<u8>,
    ciborium::ser::Error<std::io::Error>,
>)
    ensures
        r is Ok,
        r matches Ok(bytes) ==> bytes@ == cbor_of(records.deep_view()),
{
    let mut out: Vec<u8> = Vec::new();
    match ciborium::into_writer(records, &mut out) {
        Ok(()) => Ok(out),
        Err(e) => Err(e),
    }
}

/// The decoded result inverts the binary encoding: whenever the bytes are
/// what encoding some record list produced, the result is exactly that list.
pub open spec fn cbor_decoding_inverts(
    bytes: Seq<u8>,
    r: Result<Vec<Option<Vec<u8>>>, ciborium::de::Error<std::io::Error>>,
) -> bool {
    forall|records: Seq<Option<Seq<u8>>>| bytes == #[trigger] cbor_of(records) ==> (r matches Ok(v)
        && v.deep_view() == records)
}

/// Relies on ciborium::from_reader: decoding inverts the encoding, so any
/// bytes the encoder produced for a record list decode to exactly that list.
#[verifier::external_body]
fn cbor_decode_records(bytes: &Vec<u8>) -> (r: Result<
    Vec<Option<Vec<u8>>>,
    ciborium::de::Error<std::io::Error>,
>)
    ensures
        cbor_decoding_inverts(bytes@, r),
{
    ciborium::from_reader(bytes.as_slice())
}

/// A character of the standard base64 alphabet, or its padding.
pub open spec fn is_base64_standard_char(c: char) -> bool {
    ||| 'A' <= c && c <= 'Z'
    ||| 'a' <= c && c <= 'z'
    ||| '0' <= c && c <= '9'
    ||| c == '+'
    ||| c == '/'
    ||| c == '='
}

/// Text that is safe to embed verbatim in a markup attribute or script
/// payload: standard-alphabet, padded base64, so its length is a multiple
/// of four and every character comes from the standard alphabet.
pub open spec fn base64_transport_safe(s: Seq<char>) -> bool {
    &&& s.len() % 4 == 0
    &&& forall|i: int| 0 <= i < s.len() ==> is_base64_standard_char(#[trigger] s[i])
}

/// Relies on the encode of base64's STANDARD engine: padded text over the
/// standard alphabet, a function of the input bytes alone.
#[verifier::external_body]
fn base64_encode(bytes: &Vec<u8>) -> (r: String)
    ensures
        r@ == base64_of(bytes@),
        base64_transport_safe(r@),
{
    base64::engine::general_purpose::STANDARD.encode(bytes.as_slice())
}

/// The decoded result inverts the transport encoding: whenever the text is
/// what encoding some bytes produced, the result is exactly those bytes.
pub open spec fn base64_decoding_inverts(
    encoded: Seq<char>,
    r: Result<Vec<u8>, base64::DecodeError>,
) -> bool {
    forall|bytes: Seq<u8>| encoded == #[trigger] base64_of(bytes) ==> (r matches Ok(v) && v@
        == bytes)
}

/// Relies on the decode of base64's STANDARD engine: it inverts encode, so
/// any text the encoder produced for some bytes decodes to exactly those
/// bytes.
#[verifier::external_body]
fn base64_decode(encoded: &str) -> (r: Result<Vec<u8>, base64::DecodeError>)
    ensures
        base64_decoding_inverts(encoded@, r),
{
    base64::engine::general_purpose::STANDARD.decode(encoded)
}

/// The rendering of one metadata entry: the value in double quotes, or the
/// quoted token `unknown` when the entry is missing.
pub open spec fn js_quoted(entry: Option<Seq<char>>) -> Seq<char> {
    match entry {
        Some(s) => "\""@ + s + "\""@,
        None => "\"unknown\""@,
    }
}

/// The comma-separated renderings of a metadata list's entries.
pub open spec fn js_items(entries: Seq<Option<Seq<char>>>) -> Seq<char>
    decreases entries.len(),
{
    if entries.len() == 0 {
        Seq::empty()
    } else if entries.len() == 1 {
        js_quoted(entries[0])
    } else {
        js_items(entries.drop_last()) + ","@ + js_quoted(entries.last())
    }
}

/// The rendering of a metadata list: its entries, comma-separated, in
/// square brackets.
pub open spec fn js_list(entries: Seq<Option<Seq<char>>>) -> Seq<char> {
    "["@ + js_items(entries) + "]"@
}

/// A missing metadata entry renders as the quoted token `unknown`: a
/// nonempty element standing in its position, never an empty string.
pub proof fn lemma_missing_entry_placeholder(entry: Option<Seq<char>>)
    requires
        entry is None,
    ensures
        js_quoted(entry) == "\"unknown\""@,
        js_quoted(entry).len() == 9,
{
    reveal_strlit("\"unknown\"");
}

/// Render a metadata list as a literal array of quoted strings, one element
/// per entry, substituting the token `unknown` for each missing entry.
pub fn format_js_list_of_strings(list: &Vec<Option<String>>) -> (r: String)
    ensures
        r@ == js_list(list.deep_view()),
{
    let ghost dv = list.deep_view();
    let mut out = String::from_str("[");
    for i in 0..list.len()
        invariant
            dv == list.deep_view(),
            dv.len() == list@.len(),
            out@ == "["@ + js_items(dv.take(i as int)),
    {
        if i > 0 {
            out.append(",");
        }
        match &list[i] {
            Some(s) => {
                out.append("\"");
                out.append(s.as_str());
                out.append("\"");
            },
            None => {
                out.append("\"unknown\"");
            },
        }
        proof {
            assert(dv.take(i + 1).drop_last() =~= dv.take(i as int));
            assert(dv.take(i + 1).last() == dv[i as int]);
        }
    }
    proof {
        assert(dv.take(dv.len() as int) =~= dv);
    }
    out.append("]");
    out
}

/// The final transport artifact: one text-safe string carrying the encoded
/// records and, only in a diagnostics configuration, two list literals
/// describing each record's declared type and capture site.
pub struct SerializedHydrationData {
    /// The transport-encoded serialized data.
    pub data: String,
    /// A list literal of the type of each record, when diagnostics are on.
    pub debug_types: Option<String>,
    /// A list literal of each record's capture site, when diagnostics are on.
    pub debug_locations: Option<String>,
}

/// Why payload production was aborted; no partial payload is ever produced.
#[derive(Debug)]
pub enum EncodeError {
    /// The record list could not be represented in the binary format.
    EncodingFailure,
}

/// Why a transported payload could not be decoded.
#[derive(Debug)]
pub enum DecodeFailure {
    /// The text is not valid transport encoding.
    Transport,
    /// The bytes are not a valid binary record list.
    Binary,
}

impl HTMLData {
    /// Encode the finished accumulator for transport: the records in the
    /// binary format, wrapped in the text-safe encoding, with the two
    /// metadata list literals exactly when diagnostics are enabled. Every
    /// record list of this model is representable in the binary format, so
    /// encoding succeeds; the failure result remains the surface through
    /// which an encoding failure would be propagated, never as a partial
    /// payload.
    pub fn serialized(&self) -> (r: Result<SerializedHydrationData, EncodeError>)
        ensures
            r is Ok,
            r matches Ok(p) ==> {
                &&& p.data@ == base64_of(cbor_of(self.records()))
                &&& base64_transport_safe(p.data@)
                &&& self.debug_enabled ==> (p.debug_types matches Some(t) && t@ == js_list(
                    self.types(),
                ))
                &&& self.debug_enabled ==> (p.debug_locations matches Some(t) && t@ == js_list(
                    self.locations(),
                ))
                &&& !self.debug_enabled ==> p.debug_types is None && p.debug_locations is None
            },
    {
        let serialized = match cbor_encode_records(&self.data) {
            Ok(bytes) => bytes,
            Err(_) => {
                return Err(EncodeError::EncodingFailure);
            },
        };
        let data = base64_encode(&serialized);
        if self.debug_enabled {
            let debug_types = format_js_list_of_strings(&self.debug_types);
            let debug_locations = format_js_list_of_strings(&self.debug_locations);
            Ok(
                SerializedHydrationData {
                    data,
                    debug_types: Some(debug_types),
                    debug_locations: Some(debug_locations),
                },
            )
        } else {
            Ok(SerializedHydrationData { data, debug_types: None, debug_locations: None })
        }
    }
}

/// Decode a transport payload back to the ordered record list: whenever the
/// text is what encoding some record list produced, decoding returns exactly
/// that list, in the same order.
pub fn decode_hydration_data(encoded: &str) -> (r: Result<Vec<Option<Vec<u8>>>, DecodeFailure>)
    ensures
        forall|records: Seq<Option<Seq<u8>>>| encoded@ == base64_of(#[trigger] cbor_of(records))
            ==> (r matches Ok(v) && v.deep_view() == records),
{
    let bytes = match base64_decode(encoded) {
        Ok(b) => b,
        Err(_) => {
            return Err(DecodeFailure::Transport);
        },
    };
    match cbor_decode_records(&bytes) {
        Ok(v) => Ok(v),
        Err(_) => Err(DecodeFailure::Binary),
    }
}

} // verus!


