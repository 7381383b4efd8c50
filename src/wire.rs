use vstd::prelude::*;
use vstd::string::StringSliceAdditionalSpecFns;
use crate::error::TrackError;
use crate::event::Metadata;
use crate::json::{json_string, json_string_of};

verus! {

/// The byte `{`.
pub const OPEN_BRACE: u8 = 123;
/// The byte `}`.
pub const CLOSE_BRACE: u8 = 125;
/// The byte `0`.
pub const DIGIT_ZERO: u8 = 48;
/// The byte `-`.
pub const MINUS: u8 = 45;
/// The byte `,`.
pub const COMMA: u8 = 44;

/// The decimal digits of `n`, most significant first, without leading zeros.
pub open spec fn decimal(n: nat) -> Seq<u8>
    decreases n,
{
    if n < 10 {
        seq![(DIGIT_ZERO + n) as u8]
    } else {
        decimal(n / 10).push((DIGIT_ZERO + n % 10) as u8)
    }
}

/// The decimal text of a signed integer: a `-` before the digits of a negative one.
pub open spec fn signed_decimal(i: int) -> Seq<u8> {
    if i < 0 {
        seq![MINUS] + decimal((-i) as nat)
    } else {
        decimal(i as nat)
    }
}

/// Appends the bytes of `s` to `out`.
pub fn append_bytes(out: &mut Vec<u8>, s: &[u8])
    ensures
        final(out)@ == old(out)@ + s@,
{
    let mut i: usize = 0;
    while i < s.len()
        invariant
            0 <= i <= s@.len(),
            out@ == old(out)@ + s@.subrange(0, i as int),
        decreases s@.len() - i,
    {
        out.push(s[i]);
        i = i + 1;
        assert(out@ =~= old(out)@ + s@.subrange(0, i as int));
    }
    assert(s@.subrange(0, s@.len() as int) =~= s@);
}

/// The decimal digits of `n`.
pub fn decimal_u128(n: u128) -> (r: Vec<u8>)
    ensures
        r@ == decimal(n as nat),
{
    let mut digits: Vec<u8> = Vec::new();
    let mut m: u128 = n;
    digits.insert(0, (DIGIT_ZERO as u128 + m % 10) as u8);
    m = m / 10;
    assert(n < 10 ==> digits@ =~= decimal(n as nat));
    while m > 0
        invariant
            m > 0 ==> decimal(n as nat) == decimal(m as nat) + digits@,
            m == 0 ==> decimal(n as nat) == digits@,
        decreases m,
    {
        let d: u8 = (DIGIT_ZERO as u128 + m % 10) as u8;
        proof {
            if m >= 10 {
                assert(decimal(m as nat) == decimal((m / 10) as nat).push(d));
                assert(decimal((m / 10) as nat) + seq![d] + digits@ =~= decimal((m / 10) as nat)
                    + digits@.insert(0, d));
            } else {
                assert(decimal(m as nat) =~= seq![d]);
                assert(seq![d] + digits@ =~= digits@.insert(0, d));
            }
        }
        digits.insert(0, d);
        m = m / 10;
    }
    digits
}

/// The decimal text of `v`, with a `-` when it is negative.
pub fn decimal_i32(v: i32) -> (r: Vec<u8>)
    ensures
        r@ == signed_decimal(v as int),
{
    if v < 0 {
        let magnitude: u128 = (0i64 - v as i64) as u128;
        let digits = decimal_u128(magnitude);
        let mut out: Vec<u8> = Vec::new();
        out.push(MINUS);
        append_bytes(&mut out, digits.as_slice());
        assert(out@ =~= seq![MINUS] + decimal((-(v as int)) as nat));
        out
    } else {
        decimal_u128(v as u128)
    }
}

} // verus!

verus! {

/// A serialized payload that is a JSON object: `{`, its members, `}`.
pub open spec fn is_json_object(p: Seq<u8>) -> bool {
    &&& p.len() >= 2
    &&& p[0] == OPEN_BRACE
    &&& p[p.len() - 1] == CLOSE_BRACE
}

/// The bytes of the JSON literal `null`.
pub open spec fn json_null() -> Seq<u8> {
    seq![110u8, 117u8, 108u8, 108u8]
}

/// A serialized payload whose fields can be flattened beside the metadata: a
/// JSON object, or `null` (a unit or absent payload), which has no fields.
pub open spec fn flattens(p: Seq<u8>) -> bool {
    is_json_object(p) || p == json_null()
}

/// The fields that a flattenable payload adds to the document.
pub open spec fn payload_fields(p: Seq<u8>) -> Seq<u8> {
    if is_json_object(p) {
        object_members(p)
    } else {
        Seq::empty()
    }
}

/// The members of a serialized JSON object: what stands between its braces.
pub open spec fn object_members(p: Seq<u8>) -> Seq<u8> {
    p.subrange(1, p.len() - 1)
}

/// The `"debug_pin"` member of the document, empty when there is no pin.
pub open spec fn debug_pin_member(debug_pin: Option<i32>) -> Seq<u8> {
    match debug_pin {
        Some(pin) => ",\"debug_pin\":".spec_bytes() + signed_decimal(pin as int),
        None => Seq::empty(),
    }
}

/// The payload's members after the metadata, with a separating comma when there are any.
pub open spec fn payload_members(members: Seq<u8>) -> Seq<u8> {
    if members.len() == 0 {
        Seq::empty()
    } else {
        seq![COMMA] + members
    }
}

/// The wire document: one JSON object with the metadata's fields first and the
/// payload's members after them, on the same level. A payload member named like
/// a metadata field (`event`, `portal`, `time`, `debug_pin`) is written as it
/// is, after the metadata's own: the document then holds that name twice, and
/// which one a reader keeps is up to the reader.
pub open spec fn document(
    event_json: Seq<u8>,
    portal_json: Seq<u8>,
    time: u128,
    debug_pin: Option<i32>,
    members: Seq<u8>,
) -> Seq<u8> {
    "{\"event\":".spec_bytes() + event_json + ",\"portal\":".spec_bytes() + portal_json
        + ",\"time\":".spec_bytes() + decimal(time as nat) + debug_pin_member(debug_pin)
        + payload_members(members) + seq![CLOSE_BRACE]
}

/// The wire document of `metadata` and a serialized payload, from the JSON
/// string literals of its event name and portal.
pub open spec fn event_document(metadata: crate::event::MetadataView, payload: Seq<u8>) -> Seq<
    u8,
> {
    document(
        json_string_of(metadata.event),
        json_string_of(metadata.portal),
        metadata.time,
        metadata.debug_pin,
        payload_fields(payload),
    )
}

/// Flattens the metadata and a serialized payload into one JSON document; the
/// payload must be a JSON object or `null`.
pub fn assemble_document(
    event_json: &[u8],
    portal_json: &[u8],
    time: u128,
    debug_pin: Option<i32>,
    payload: &[u8],
) -> (r: Result<Vec<u8>, TrackError>)
    ensures
        flattens(payload@) ==> (r matches Ok(doc) && doc@ == document(
            event_json@,
            portal_json@,
            time,
            debug_pin,
            payload_fields(payload@),
        )),
        !flattens(payload@) ==> r matches Err(TrackError::PayloadNotObject),
{
    let n = payload.len();
    let is_null = n == 4 && payload[0] == 110 && payload[1] == 117 && payload[2] == 108
        && payload[3] == 108;
    assert(is_null ==> payload@ =~= json_null());
    assert(payload@ == json_null() ==> is_null);
    let is_object = n >= 2 && payload[0] == OPEN_BRACE && payload[n - 1] == CLOSE_BRACE;
    if !is_object && !is_null {
        return Err(TrackError::PayloadNotObject);
    }
    let mut out: Vec<u8> = Vec::new();
    append_bytes(&mut out, "{\"event\":".as_bytes());
    append_bytes(&mut out, event_json);
    append_bytes(&mut out, ",\"portal\":".as_bytes());
    append_bytes(&mut out, portal_json);
    append_bytes(&mut out, ",\"time\":".as_bytes());
    let time_digits = decimal_u128(time);
    append_bytes(&mut out, time_digits.as_slice());
    let ghost head = out@;
    match debug_pin {
        Some(pin) => {
            append_bytes(&mut out, ",\"debug_pin\":".as_bytes());
            let pin_digits = decimal_i32(pin);
            append_bytes(&mut out, pin_digits.as_slice());
        },
        None => {},
    }
    assert(out@ =~= head + debug_pin_member(debug_pin));
    let ghost with_pin = out@;
    if is_object && n > 2 {
        out.push(COMMA);
        let mut i: usize = 1;
        while i < n - 1
            invariant
                n == payload@.len(),
                n > 2,
                1 <= i <= n - 1,
                out@ == with_pin + seq![COMMA] + payload@.subrange(1, i as int),
            decreases n - 1 - i,
        {
            out.push(payload[i]);
            i = i + 1;
            assert(out@ =~= with_pin + seq![COMMA] + payload@.subrange(1, i as int));
        }
    }
    assert(out@ =~= with_pin + payload_members(payload_fields(payload@)));
    out.push(CLOSE_BRACE);
    Ok(out)
}

/// Serializes an event: the JSON document that flattens `metadata` and the
/// payload's serialization. A payload that failed to serialize gives its error
/// back, and one that is neither a JSON object nor `null` is refused.
pub fn serialize_event(metadata: &Metadata, payload: Result<Vec<u8>, serde_json::Error>) -> (r:
    Result<Vec<u8>, TrackError>)
    ensures
        payload matches Err(e) ==> r == Err::<Vec<u8>, TrackError>(TrackError::SerdeJson(e)),
        payload matches Ok(p) && !flattens(p@) ==> r matches Err(TrackError::PayloadNotObject),
        payload matches Ok(p) && flattens(p@) ==> (r matches Ok(doc) && doc@
            == event_document(metadata@, payload->Ok_0@)),
{
    let bytes = match payload {
        Ok(bytes) => bytes,
        Err(e) => return Err(TrackError::SerdeJson(e)),
    };
    let event_json = match json_string(metadata.event()) {
        Ok(b) => b,
        Err(e) => return Err(TrackError::SerdeJson(e)),
    };
    let portal_json = match json_string(metadata.portal()) {
        Ok(b) => b,
        Err(e) => return Err(TrackError::SerdeJson(e)),
    };
    assemble_document(
        event_json.as_slice(),
        portal_json.as_slice(),
        metadata.time(),
        metadata.debug_pin(),
        bytes.as_slice(),
    )
}

} // verus!
